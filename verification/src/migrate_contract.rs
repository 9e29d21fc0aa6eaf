use crate::constants::{
    MIGRATION_CONTRACT_NAME, MIGRATION_CONTRACT_VERSION, MIGRATION_STATE_CHANGE_PREFIX,
};
use crate::decimal::{decimal_text, Decimal};
use crate::error::{ContractError, ContractErrorView, StdError};
use crate::ledger::{
    result_view, Attribute, AttributeView, Deps, DepsView, LedgerMsg, LedgerMsgView, Response,
    ResponseView,
};
use crate::make_payment::response_result_view;
use crate::provenance_util::{add_attribute_msg, get_add_attribute_to_scope_msg};
use crate::state::{
    PayableMeta, PayableMetaV2, PayableMetaV2View, PayableMetaView, PayableScopeAttribute,
    PayableScopeAttributeView, State, StateV2, StateV2View, StateView,
};
use crate::text::{decimal_digits, join, u128_to_string};
use crate::version_info::{
    check_valid_migration_versioning, migrate_version_info, migration_versioning,
    running_version_info, CONTRACT_NAME, CONTRACT_VERSION,
};
use vstd::prelude::*;
use vstd::string::StringExecFns;

verus! {

/// The changes that a migration makes to the configuration: each field that is given
/// replaces the configuration's, and each that is not is left as it is.
#[derive(Debug, PartialEq, Eq)]
pub struct MigrateContractV2 {
    pub onboarding_cost: Option<u128>,
    pub onboarding_denom: Option<String>,
    pub fee_collection_address: Option<String>,
    pub fee_percent: Option<Decimal>,
}

pub struct MigrateContractV2View {
    pub onboarding_cost: Option<u128>,
    pub onboarding_denom: Option<Seq<char>>,
    pub fee_collection_address: Option<Seq<char>>,
    pub fee_percent: Option<Decimal>,
}

impl View for MigrateContractV2 {
    type V = MigrateContractV2View;

    open spec fn view(&self) -> MigrateContractV2View {
        MigrateContractV2View {
            onboarding_cost: self.onboarding_cost,
            onboarding_denom: self.onboarding_denom.deep_view(),
            fee_collection_address: self.fee_collection_address.deep_view(),
            fee_percent: self.fee_percent,
        }
    }
}

impl MigrateContractV2View {
    /// Whether any field is given.
    pub open spec fn has_state_changes(self) -> bool {
        self.onboarding_cost is Some || self.onboarding_denom is Some
            || self.fee_collection_address is Some || self.fee_percent is Some
    }

    /// The share of the fee, where one is given, is a ratio.
    pub open spec fn well_formed(self) -> bool {
        self.fee_percent matches Some(fee_percent) ==> fee_percent.is_ratio()
    }
}

impl MigrateContractV2 {
    /// The migration that changes nothing in the configuration.
    pub fn empty() -> (r: MigrateContractV2)
        ensures
            r@ == (MigrateContractV2View {
                onboarding_cost: None,
                onboarding_denom: None,
                fee_collection_address: None,
                fee_percent: None,
            }),
    {
        MigrateContractV2 {
            onboarding_cost: None,
            onboarding_denom: None,
            fee_collection_address: None,
            fee_percent: None,
        }
    }

    /// Tells whether the migration changes the configuration at all.
    pub fn has_state_changes(&self) -> (r: bool)
        ensures
            r == self@.has_state_changes(),
    {
        self.onboarding_cost.is_some() || self.onboarding_denom.is_some()
            || self.fee_collection_address.is_some() || self.fee_percent.is_some()
    }
}

/// The changes that a migration of the first generation makes, which could also
/// replace the one oracle that the contract then had.
#[derive(Debug, PartialEq, Eq)]
pub struct MigrateContractV1 {
    pub onboarding_cost: Option<u128>,
    pub onboarding_denom: Option<String>,
    pub fee_collection_address: Option<String>,
    pub fee_percent: Option<Decimal>,
    pub oracle_address: Option<String>,
}

pub struct MigrateContractV1View {
    pub onboarding_cost: Option<u128>,
    pub onboarding_denom: Option<Seq<char>>,
    pub fee_collection_address: Option<Seq<char>>,
    pub fee_percent: Option<Decimal>,
    pub oracle_address: Option<Seq<char>>,
}

impl View for MigrateContractV1 {
    type V = MigrateContractV1View;

    open spec fn view(&self) -> MigrateContractV1View {
        MigrateContractV1View {
            onboarding_cost: self.onboarding_cost,
            onboarding_denom: self.onboarding_denom.deep_view(),
            fee_collection_address: self.fee_collection_address.deep_view(),
            fee_percent: self.fee_percent,
            oracle_address: self.oracle_address.deep_view(),
        }
    }
}

/// The key of the event tag that reports a change to the configuration's field `field_name`.
pub open spec fn state_change_key(field_name: Seq<char>) -> Seq<char> {
    MIGRATION_STATE_CHANGE_PREFIX@ + field_name
}

/// The configuration after the migration's changes.
pub open spec fn migrated_state(state: StateV2View, migrate: MigrateContractV2View) -> StateV2View {
    StateV2View {
        contract_name: state.contract_name,
        onboarding_cost: match migrate.onboarding_cost {
            Some(cost) => cost,
            None => state.onboarding_cost,
        },
        onboarding_denom: match migrate.onboarding_denom {
            Some(denom) => denom,
            None => state.onboarding_denom,
        },
        fee_collection_address: match migrate.fee_collection_address {
            Some(address) => address,
            None => state.fee_collection_address,
        },
        fee_percent: match migrate.fee_percent {
            Some(fee_percent) => fee_percent,
            None => state.fee_percent,
        },
        is_local: state.is_local,
    }
}

/// One event tag for each field that the migration changes, in the order of the fields.
pub open spec fn state_change_tags(migrate: MigrateContractV2View) -> Seq<AttributeView> {
    let cost = match migrate.onboarding_cost {
        Some(cost) => seq![
            AttributeView {
                key: state_change_key("onboarding_cost"@),
                value: decimal_digits(cost as nat),
            },
        ],
        None => Seq::empty(),
    };
    let denom = match migrate.onboarding_denom {
        Some(denom) => seq![
            AttributeView { key: state_change_key("onboarding_denom"@), value: denom },
        ],
        None => Seq::empty(),
    };
    let address = match migrate.fee_collection_address {
        Some(address) => seq![
            AttributeView { key: state_change_key("fee_collection_address"@), value: address },
        ],
        None => Seq::empty(),
    };
    let fee_percent = match migrate.fee_percent {
        Some(fee_percent) => seq![
            AttributeView {
                key: state_change_key("fee_percent"@),
                value: decimal_text(fee_percent.atomics),
            },
        ],
        None => Seq::empty(),
    };
    cost + denom + address + fee_percent
}

/// The two event tags that name the contract and the version migrated to.
pub open spec fn version_tags() -> Seq<AttributeView> {
    seq![
        AttributeView { key: MIGRATION_CONTRACT_NAME@, value: CONTRACT_NAME@ },
        AttributeView { key: MIGRATION_CONTRACT_VERSION@, value: CONTRACT_VERSION@ },
    ]
}

/// What a migration comes to. The store must admit it. Where it changes the
/// configuration, the configuration must be readable. It sends no message, and tags
/// each change, then the contract and its version.
pub open spec fn migrate_contract_outcome(deps: DepsView, migrate: MigrateContractV2View) -> Result<
    ResponseView,
    ContractErrorView,
> {
    match migration_versioning(deps) {
        Err(e) => Err(e),
        Ok(_) => if migrate.has_state_changes() && deps.config is Err {
            Err(ContractErrorView::Std(deps.config->Err_0))
        } else {
            Ok(
                ResponseView {
                    messages: Seq::empty(),
                    attributes: if migrate.has_state_changes() {
                        state_change_tags(migrate) + version_tags()
                    } else {
                        version_tags()
                    },
                },
            )
        },
    }
}

/// What the store holds after a migration with the given outcome. A migration that
/// fails changes nothing. One that succeeds stamps the running contract's version info,
/// and applies its changes, where it has any, to the configuration.
pub open spec fn deps_after_migration(
    deps: DepsView,
    migrate: MigrateContractV2View,
    outcome: Result<ResponseView, ContractErrorView>,
) -> DepsView {
    if outcome is Err {
        deps
    } else {
        DepsView {
            config: if migrate.has_state_changes() && deps.config is Ok {
                Ok(migrated_state(deps.config->Ok_0, migrate))
            } else {
                deps.config
            },
            version_info: Ok(running_version_info()),
            ..deps
        }
    }
}

/// A configuration in which the fee's share is a ratio stays one under a migration
/// whose share of the fee, where it gives one, is a ratio.
pub proof fn lemma_migration_keeps_well_formed(state: StateV2View, migrate: MigrateContractV2View)
    requires
        state.well_formed(),
        migrate.well_formed(),
    ensures
        migrated_state(state, migrate).well_formed(),
{
}

/// Migrates the contract to the running version, changing the configuration as the
/// migration says.
pub fn migrate_contract(deps: &mut Deps, migrate: MigrateContractV2) -> (r: Result<
    Response,
    ContractError,
>)
    ensures
        response_result_view(r) == migrate_contract_outcome(old(deps)@, migrate@),
        final(deps)@ == deps_after_migration(old(deps)@, migrate@, response_result_view(r)),
{
    // Nothing is changed before the stored version info is found to admit the migration.
    match check_valid_migration_versioning(&*deps) {
        Ok(_) => {},
        Err(e) => {
            return Err(e);
        },
    }
    let mut attributes: Vec<Attribute> = Vec::new();
    // The configuration is read and written only where the migration changes it.
    let mut changed: Option<StateV2> = None;
    if migrate.has_state_changes() {
        let mut state = match &deps.config {
            Ok(state) => state.clone(),
            Err(e) => {
                return Err(ContractError::Std(e.clone()));
            },
        };
        if let Some(cost) = migrate.onboarding_cost {
            attributes.push(
                state_change_attribute("onboarding_cost", u128_to_string(cost).as_str()),
            );
            state.onboarding_cost = cost;
        }
        if let Some(denom) = migrate.onboarding_denom {
            attributes.push(state_change_attribute("onboarding_denom", denom.as_str()));
            state.onboarding_denom = denom;
        }
        if let Some(fee_addr) = migrate.fee_collection_address {
            attributes.push(state_change_attribute("fee_collection_address", fee_addr.as_str()));
            state.fee_collection_address = fee_addr;
        }
        if let Some(fee_percent) = migrate.fee_percent {
            attributes.push(state_change_attribute("fee_percent", fee_percent.to_text().as_str()));
            state.fee_percent = fee_percent;
        }
        assert(attributes.deep_view() =~= state_change_tags(migrate@));
        changed = Some(state);
    }
    let ghost change_tags = attributes.deep_view();
    if let Some(state) = changed {
        deps.config = Ok(state);
    }
    let new_version_info = migrate_version_info(deps);
    attributes.push(Attribute::new(MIGRATION_CONTRACT_NAME, new_version_info.contract.as_str()));
    attributes.push(
        Attribute::new(MIGRATION_CONTRACT_VERSION, new_version_info.version.as_str()),
    );
    assert(attributes.deep_view() =~= change_tags + version_tags());
    let response = Response { messages: Vec::new(), attributes };
    assert(response@.messages =~= Seq::<LedgerMsgView>::empty());
    Ok(response)
}

/// The event tag that reports the new value of a changed field of the configuration.
pub fn state_change_attribute(field_name: &str, value: &str) -> (r: Attribute)
    ensures
        r@ == (AttributeView { key: state_change_key(field_name@), value: value@ }),
{
    Attribute::new(state_change_attr_name(field_name).as_str(), value)
}

/// The key of the event tag that reports a change to a field of the configuration.
pub fn state_change_attr_name(field_name: &str) -> (r: String)
    ensures
        r@ == state_change_key(field_name@),
{
    join(MIGRATION_STATE_CHANGE_PREFIX, field_name)
}

/// What moving the contract from its first generation to records on scopes comes to.
#[derive(Debug, PartialEq, Eq)]
pub struct ScopeAttributeMigration {
    /// One message for each payable, which writes its record on its scope, and the two
    /// tags that count the records and the links.
    pub response: Response,
    /// One link for each payable, to be kept in the store under the payable's uuid.
    pub payable_metas: Vec<PayableMetaV2>,
}

pub struct ScopeAttributeMigrationView {
    pub response: ResponseView,
    pub payable_metas: Seq<PayableMetaV2View>,
}

impl View for ScopeAttributeMigration {
    type V = ScopeAttributeMigrationView;

    open spec fn view(&self) -> ScopeAttributeMigrationView {
        ScopeAttributeMigrationView {
            response: self.response@,
            payable_metas: self.payable_metas.deep_view(),
        }
    }
}

/// The configuration that takes the place of one of the first generation.
pub open spec fn state_v2_of(state: StateView) -> StateV2View {
    StateV2View {
        contract_name: state.contract_name,
        onboarding_cost: state.onboarding_cost,
        onboarding_denom: state.onboarding_denom,
        fee_collection_address: state.fee_collection_address,
        fee_percent: state.fee_percent,
        is_local: state.is_local,
    }
}

/// The record on a scope that takes the place of a payable of the first generation:
/// its type and its oracle are those that the contract then had for every payable.
pub open spec fn scope_attribute_of(
    meta: PayableMetaView,
    state: StateView,
) -> PayableScopeAttributeView {
    PayableScopeAttributeView {
        payable_type: state.payable_type,
        payable_uuid: meta.payable_uuid,
        scope_id: meta.scope_id,
        oracle_address: state.oracle_address,
        payable_denom: meta.payable_denom,
        payable_total_owed: meta.payable_total_owed,
        payable_remaining_owed: meta.payable_remaining_owed,
        oracle_approved: meta.oracle_approved,
    }
}

/// The link that takes the place of a payable of the first generation in the store.
pub open spec fn link_of(meta: PayableMetaView) -> PayableMetaV2View {
    PayableMetaV2View { payable_uuid: meta.payable_uuid, scope_id: meta.scope_id }
}

/// The messages that write the records of the payables, one for each in their order,
/// or the error of the first record that cannot be written.
pub open spec fn scope_attribute_msgs(payables: Seq<PayableMetaView>, state: StateView) -> Result<
    Seq<LedgerMsgView>,
    ContractErrorView,
>
    decreases payables.len(),
{
    if payables.len() == 0 {
        Ok(Seq::empty())
    } else {
        match scope_attribute_msgs(payables.drop_last(), state) {
            Err(e) => Err(e),
            Ok(msgs) => match add_attribute_msg(
                scope_attribute_of(payables.last(), state),
                state.contract_name,
            ) {
                Err(e) => Err(e),
                Ok(msg) => Ok(msgs.push(msg)),
            },
        }
    }
}

/// What moving to records on scopes comes to. The configuration of the first generation
/// must be readable, and there must be none of the second yet. Every payable then gets
/// a message that writes its record on its scope, and a link.
pub open spec fn migrate_to_scope_attributes_outcome(
    deps: DepsView,
    state_v1: Result<StateView, crate::error::StdErrorView>,
    payables: Seq<PayableMetaView>,
) -> Result<ScopeAttributeMigrationView, ContractErrorView> {
    match state_v1 {
        Err(e) => Err(ContractErrorView::Std(e)),
        Ok(state) => if deps.config is Ok {
            Err(ContractErrorView::InvalidMigration("state v2 found - no need to migrate"@))
        } else {
            match scope_attribute_msgs(payables, state) {
                Err(e) => Err(e),
                Ok(messages) => Ok(
                    ScopeAttributeMigrationView {
                        response: ResponseView {
                            messages,
                            attributes: seq![
                                AttributeView {
                                    key: "payables_scope_attributes_added"@,
                                    value: decimal_digits(payables.len()),
                                },
                                AttributeView {
                                    key: "payables_metadata_saved"@,
                                    value: decimal_digits(payables.len()),
                                },
                            ],
                        },
                        payable_metas: payables.map_values(|meta: PayableMetaView| link_of(meta)),
                    },
                ),
            }
        },
    }
}

/// The view of a move to records on scopes or of the error in its place.
pub open spec fn scope_migration_result_view(
    r: Result<ScopeAttributeMigration, ContractError>,
) -> Result<ScopeAttributeMigrationView, ContractErrorView> {
    match r {
        Ok(m) => Ok(m@),
        Err(e) => Err(e@),
    }
}

/// Moves a contract of the first generation, which kept every payable whole in its own
/// store, to records on scopes: `state_v1` is what reading its configuration gave, and
/// `payables` are the payables of its store, in the store's order.
pub fn migrate_to_scope_attributes(
    deps: &mut Deps,
    state_v1: Result<State, StdError>,
    payables: Vec<PayableMeta>,
) -> (r: Result<ScopeAttributeMigration, ContractError>)
    ensures
        scope_migration_result_view(r) == migrate_to_scope_attributes_outcome(
            old(deps)@,
            result_view(state_v1),
            payables.deep_view(),
        ),
        final(deps)@ == if r is Ok {
            DepsView { config: Ok(state_v2_of(state_v1->Ok_0@)), ..old(deps)@ }
        } else {
            old(deps)@
        },
{
    let legacy = match state_v1 {
        Ok(state) => state,
        Err(e) => {
            return Err(ContractError::Std(e));
        },
    };
    if deps.config.is_ok() {
        return Err(
            ContractError::InvalidMigration(
                String::from_str("state v2 found - no need to migrate"),
            ),
        );
    }
    let mut messages: Vec<LedgerMsg> = Vec::new();
    let mut meta_v2s: Vec<PayableMetaV2> = Vec::new();
    let ghost all = payables.deep_view();
    let ghost links = all.map_values(|meta: PayableMetaView| link_of(meta));
    assert(messages.deep_view() =~= Seq::<LedgerMsgView>::empty());
    let mut i: usize = 0;
    while i < payables.len()
        invariant
            i <= payables.len(),
            all == payables.deep_view(),
            links == all.map_values(|meta: PayableMetaView| link_of(meta)),
            *deps == *old(deps),
            deps@.config is Err,
            result_view(state_v1) == Ok::<StateView, crate::error::StdErrorView>(legacy@),
            scope_attribute_msgs(all.subrange(0, i as int), legacy@) == Ok::<
                Seq<LedgerMsgView>,
                ContractErrorView,
            >(messages.deep_view()),
            meta_v2s.deep_view() == links.subrange(0, i as int),
            messages.len() == i,
        decreases payables.len() - i,
    {
        let payable_meta = &payables[i];
        let ghost upto = all.subrange(0, i + 1);
        assert(upto.drop_last() =~= all.subrange(0, i as int));
        // The links are kept aside and stored together at the end, so that a failure on
        // the way leaves no part of the move behind.
        let ghost links_before = meta_v2s.deep_view();
        meta_v2s.push(
            PayableMetaV2 {
                payable_uuid: payable_meta.payable_uuid.clone(),
                scope_id: payable_meta.scope_id.clone(),
            },
        );
        assert(links.subrange(0, i + 1) =~= links_before.push(link_of(payable_meta@)));
        let scope_attribute = PayableScopeAttribute {
            payable_type: legacy.payable_type.clone(),
            payable_uuid: payable_meta.payable_uuid.clone(),
            scope_id: payable_meta.scope_id.clone(),
            oracle_address: legacy.oracle_address.clone(),
            payable_denom: payable_meta.payable_denom.clone(),
            payable_total_owed: payable_meta.payable_total_owed,
            payable_remaining_owed: payable_meta.payable_remaining_owed,
            oracle_approved: payable_meta.oracle_approved,
        };
        let msg = match get_add_attribute_to_scope_msg(
            &scope_attribute,
            legacy.contract_name.as_str(),
        ) {
            Ok(msg) => msg,
            Err(e) => {
                proof {
                    lemma_scope_attribute_msgs_fail(all, legacy@, i + 1);
                }
                return Err(e);
            },
        };
        let ghost before = messages.deep_view();
        messages.push(msg);
        assert(messages.deep_view() =~= before.push(msg@));
        i += 1;
    }
    assert(all.subrange(0, i as int) =~= all);
    assert(links.subrange(0, i as int) =~= links);
    let save_count = u128_to_string(meta_v2s.len() as u128);
    let message_count = u128_to_string(messages.len() as u128);
    deps.config = Ok(
        StateV2 {
            contract_name: legacy.contract_name,
            onboarding_cost: legacy.onboarding_cost,
            onboarding_denom: legacy.onboarding_denom,
            fee_collection_address: legacy.fee_collection_address,
            fee_percent: legacy.fee_percent,
            is_local: legacy.is_local,
        },
    );
    let response = Response { messages, attributes: Vec::new() };
    let response = response.add_attribute(
        "payables_scope_attributes_added",
        message_count.as_str(),
    ).add_attribute("payables_metadata_saved", save_count.as_str());
    assert(response@.attributes =~= seq![
        AttributeView {
            key: "payables_scope_attributes_added"@,
            value: decimal_digits(all.len()),
        },
        AttributeView { key: "payables_metadata_saved"@, value: decimal_digits(all.len()) },
    ]);
    Ok(ScopeAttributeMigration { response, payable_metas: meta_v2s })
}

/// Where the records of some of the payables, taken from the front, cannot all be
/// written, those of all of them cannot either, for the same reason.
proof fn lemma_scope_attribute_msgs_fail(payables: Seq<PayableMetaView>, state: StateView, k: int)
    requires
        0 <= k <= payables.len(),
        scope_attribute_msgs(payables.subrange(0, k), state) is Err,
    ensures
        scope_attribute_msgs(payables, state) == scope_attribute_msgs(
            payables.subrange(0, k),
            state,
        ),
    decreases payables.len(),
{
    if k == payables.len() {
        assert(payables.subrange(0, k) =~= payables);
    } else {
        assert(payables.drop_last().subrange(0, k) =~= payables.subrange(0, k));
        lemma_scope_attribute_msgs_fail(payables.drop_last(), state, k);
    }
}

} // verus!
