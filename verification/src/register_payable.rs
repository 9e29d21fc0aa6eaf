use crate::constants::{
    ORACLE_ADDRESS_KEY, ORACLE_FUNDS_KEPT, PAYABLE_REGISTERED_KEY, PAYABLE_TYPE_KEY,
    PAYABLE_UUID_KEY, REFUND_AMOUNT_KEY, REGISTERED_DENOM_KEY, SCOPE_ID_KEY, TOTAL_OWED_KEY,
};
use crate::decimal::{lemma_mul_floor_of_ratio, mul_floor};
use crate::error::{ContractError, ContractErrorView};
use crate::funds::{find_invalid_denoms, invalid_denoms, lemma_invalid_denoms_exact};
use crate::ledger::{
    send, send_view, Attribute, AttributeView, Deps, DepsView, LedgerMsg, LedgerMsgView,
    MessageInfo, MessageInfoView, Response, ResponseView, Scope, ScopeView,
};
use crate::make_payment::response_result_view;
use crate::provenance_util::{ProvenanceUtil, ProvenanceUtilImpl};
use crate::state::{
    PayableMetaV2, PayableMetaV2View, PayableScopeAttribute, PayableScopeAttributeView, StateV2,
    StateV2View,
};
use crate::text::{decimal_digits, join, u128_to_string};
use vstd::prelude::*;

verus! {

/// A request to register a payable: everything that its record on the scope will hold.
#[derive(Debug, PartialEq, Eq)]
pub struct RegisterPayableV2 {
    pub payable_type: String,
    pub payable_uuid: String,
    pub scope_id: String,
    pub oracle_address: String,
    pub payable_denom: String,
    pub payable_total: u128,
}

pub struct RegisterPayableV2View {
    pub payable_type: Seq<char>,
    pub payable_uuid: Seq<char>,
    pub scope_id: Seq<char>,
    pub oracle_address: Seq<char>,
    pub payable_denom: Seq<char>,
    pub payable_total: u128,
}

impl View for RegisterPayableV2 {
    type V = RegisterPayableV2View;

    open spec fn view(&self) -> RegisterPayableV2View {
        RegisterPayableV2View {
            payable_type: self.payable_type@,
            payable_uuid: self.payable_uuid@,
            scope_id: self.scope_id@,
            oracle_address: self.oracle_address@,
            payable_denom: self.payable_denom@,
            payable_total: self.payable_total,
        }
    }
}

impl RegisterPayableV2View {
    /// The record of the payable as it is first written: all of the total still owed,
    /// and not yet approved.
    pub open spec fn to_scope_attribute(self) -> PayableScopeAttributeView {
        PayableScopeAttributeView {
            payable_type: self.payable_type,
            payable_uuid: self.payable_uuid,
            scope_id: self.scope_id,
            oracle_address: self.oracle_address,
            payable_denom: self.payable_denom,
            payable_total_owed: self.payable_total,
            payable_remaining_owed: self.payable_total,
            oracle_approved: false,
        }
    }
}

impl RegisterPayableV2 {
    /// Turns the request into the record that is first written on the scope.
    pub fn to_scope_attribute(self) -> (r: PayableScopeAttribute)
        ensures
            r@ == self@.to_scope_attribute(),
            r@.well_formed(),
    {
        PayableScopeAttribute {
            payable_type: self.payable_type,
            payable_uuid: self.payable_uuid,
            scope_id: self.scope_id,
            oracle_address: self.oracle_address,
            payable_denom: self.payable_denom,
            payable_total_owed: self.payable_total,
            payable_remaining_owed: self.payable_total,
            oracle_approved: false,
        }
    }
}

/// What charging the onboarding cost comes to.
#[derive(Debug, PartialEq, Eq)]
pub struct FeeChargeResponse {
    /// The transfer of the fee to the fee collector, where the fee is more than nothing.
    pub fee_charge_message: Option<LedgerMsg>,
    /// The transfer back to the sender of what was sent over the cost, where there is any.
    pub fee_refund_message: Option<LedgerMsg>,
    pub refund_amount: u128,
    /// What stays in the contract's account for the oracle.
    pub oracle_fee_amount_kept: u128,
}

pub struct FeeChargeResponseView {
    pub fee_charge_message: Option<LedgerMsgView>,
    pub fee_refund_message: Option<LedgerMsgView>,
    pub refund_amount: u128,
    pub oracle_fee_amount_kept: u128,
}

impl View for FeeChargeResponse {
    type V = FeeChargeResponseView;

    open spec fn view(&self) -> FeeChargeResponseView {
        FeeChargeResponseView {
            fee_charge_message: self.fee_charge_message.deep_view(),
            fee_refund_message: self.fee_refund_message.deep_view(),
            refund_amount: self.refund_amount,
            oracle_fee_amount_kept: self.oracle_fee_amount_kept,
        }
    }
}

/// The view of a fee charge or of the error in its place.
pub open spec fn fee_result_view(r: Result<FeeChargeResponse, ContractError>) -> Result<
    FeeChargeResponseView,
    ContractErrorView,
> {
    match r {
        Ok(fee) => Ok(fee@),
        Err(e) => Err(e@),
    }
}

/// The part of the onboarding cost that goes to the fee collector.
pub open spec fn fee_collected(state: StateV2View) -> nat {
    mul_floor(state.onboarding_cost, state.fee_percent.atomics)
}

/// How an onboarding cost splits where `amount_sent` was sent for it and is enough.
pub open spec fn fee_split(
    state: StateV2View,
    sender: Seq<char>,
    amount_sent: u128,
) -> FeeChargeResponseView
    recommends
        state.well_formed(),
        state.onboarding_cost <= amount_sent,
{
    let collected = fee_collected(state);
    let refund = amount_sent - state.onboarding_cost;
    FeeChargeResponseView {
        fee_charge_message: if collected > 0 {
            Some(send_view(state.fee_collection_address, collected as u128, state.onboarding_denom))
        } else {
            None
        },
        fee_refund_message: if refund > 0 {
            Some(send_view(sender, refund as u128, state.onboarding_denom))
        } else {
            None
        },
        refund_amount: refund as u128,
        oracle_fee_amount_kept: (state.onboarding_cost - collected) as u128,
    }
}

/// What charging the onboarding cost to a call comes to. Every coin sent must be in the
/// onboarding denomination, or the call is refused with the denominations that are
/// not. The first coin counts as what was sent; it must cover the cost, and where no
/// coin was sent the cost must be nothing.
pub open spec fn fee_charge(info: MessageInfoView, state: StateV2View) -> Result<
    FeeChargeResponseView,
    ContractErrorView,
> {
    let invalid = invalid_denoms(info.funds, state.onboarding_denom);
    if invalid.len() > 0 {
        Err(
            ContractErrorView::InvalidFundsProvided {
                valid_denom: state.onboarding_denom,
                invalid_denoms: invalid,
            },
        )
    } else if info.funds.len() == 0 {
        if state.onboarding_cost > 0 {
            Err(ContractErrorView::NoFundsProvided { valid_denom: state.onboarding_denom })
        } else {
            Ok(fee_split(state, info.sender, 0))
        }
    } else if state.onboarding_cost > info.funds[0].amount {
        Err(
            ContractErrorView::InsufficientFundsProvided {
                amount_needed: state.onboarding_cost,
                amount_provided: info.funds[0].amount,
            },
        )
    } else {
        Ok(fee_split(state, info.sender, info.funds[0].amount))
    }
}

/// The onboarding cost is split without remainder. Where the deposit, all of it in
/// the onboarding denomination, covers the cost, the charge succeeds; what the fee
/// collector gets and what is kept for the oracle make up the cost, and what goes back
/// to the sender is what was sent over the cost.
pub proof fn lemma_fee_partition(info: MessageInfoView, state: StateV2View)
    requires
        state.well_formed(),
        info.funds.len() > 0,
        forall|i: int|
            0 <= i < info.funds.len() ==> (#[trigger] info.funds[i]).denom
                == state.onboarding_denom,
        info.funds[0].amount >= state.onboarding_cost,
    ensures
        fee_charge(info, state) is Ok,
        fee_collected(state) + fee_charge(info, state)->Ok_0.oracle_fee_amount_kept
            == state.onboarding_cost,
        fee_charge(info, state)->Ok_0.refund_amount == info.funds[0].amount
            - state.onboarding_cost,
        fee_charge(info, state)->Ok_0.fee_charge_message == if fee_collected(state) > 0 {
            Some(
                send_view(
                    state.fee_collection_address,
                    fee_collected(state) as u128,
                    state.onboarding_denom,
                ),
            )
        } else {
            None
        },
        fee_charge(info, state)->Ok_0.fee_refund_message == if info.funds[0].amount
            > state.onboarding_cost {
            Some(
                send_view(
                    info.sender,
                    (info.funds[0].amount - state.onboarding_cost) as u128,
                    state.onboarding_denom,
                ),
            )
        } else {
            None
        },
{
    lemma_mul_floor_of_ratio(state.onboarding_cost, state.fee_percent.atomics);
    lemma_invalid_denoms_exact(info.funds, state.onboarding_denom);
}

/// Denominations are kept apart: funds of which any coin is in another denomination
/// than the onboarding one are refused as a whole, whatever else they hold, and the
/// refusal lists the denominations of exactly the coins that are in another one.
pub proof fn lemma_fee_denom_isolation(info: MessageInfoView, state: StateV2View)
    requires
        exists|i: int|
            0 <= i < info.funds.len() && (#[trigger] info.funds[i]).denom
                != state.onboarding_denom,
    ensures
        fee_charge(info, state) == Err::<FeeChargeResponseView, ContractErrorView>(
            ContractErrorView::InvalidFundsProvided {
                valid_denom: state.onboarding_denom,
                invalid_denoms: invalid_denoms(info.funds, state.onboarding_denom),
            },
        ),
        forall|i: int|
            0 <= i < info.funds.len() && (#[trigger] info.funds[i]).denom != state.onboarding_denom
                ==> invalid_denoms(info.funds, state.onboarding_denom).contains(
                info.funds[i].denom,
            ),
        forall|k: int|
            0 <= k < invalid_denoms(info.funds, state.onboarding_denom).len() ==> {
                &&& (#[trigger] invalid_denoms(info.funds, state.onboarding_denom)[k])
                    != state.onboarding_denom
                &&& exists|i: int|
                    0 <= i < info.funds.len() && (#[trigger] info.funds[i]).denom == invalid_denoms(
                        info.funds,
                        state.onboarding_denom,
                    )[k]
            },
{
    lemma_invalid_denoms_exact(info.funds, state.onboarding_denom);
}

/// Whether the onboarding cost can be split for a call: the fee's share is a ratio,
/// or the call's funds are refused before the cost is split.
pub open spec fn fee_can_be_charged(info: MessageInfoView, state: StateV2View) -> bool {
    state.well_formed() || fee_charge(info, state) is Err
}

/// Checks the funds sent with a registration against the onboarding cost, and gives
/// the amount that counts as sent.
pub fn check_fee_funds(info: &MessageInfo, state: &StateV2) -> (r: Result<u128, ContractError>)
    ensures
        match r {
            Ok(sent) => state@.onboarding_cost <= sent && fee_charge(info@, state@) == Ok::<
                FeeChargeResponseView,
                ContractErrorView,
            >(fee_split(state@, info@.sender, sent)),
            Err(e) => fee_charge(info@, state@) == Err::<FeeChargeResponseView, ContractErrorView>(
                e@,
            ),
        },
{
    let invalid_funds = find_invalid_denoms(&info.funds, &state.onboarding_denom);
    if invalid_funds.len() > 0 {
        return Err(
            ContractError::InvalidFundsProvided {
                valid_denom: state.onboarding_denom.clone(),
                invalid_denoms: invalid_funds,
            },
        );
    }
    let onboarding_cost = state.onboarding_cost;
    if info.funds.len() > 0 {
        let amount_sent = info.funds[0].amount;
        if onboarding_cost > amount_sent {
            return Err(
                ContractError::InsufficientFundsProvided {
                    amount_needed: onboarding_cost,
                    amount_provided: amount_sent,
                },
            );
        }
        Ok(amount_sent)
    } else {
        if onboarding_cost > 0 {
            return Err(
                ContractError::NoFundsProvided { valid_denom: state.onboarding_denom.clone() },
            );
        }
        Ok(0)
    }
}

/// Checks the funds sent with a registration against the onboarding cost, and works out
/// the fee's transfer and the refund.
pub fn validate_fee_params_get_messages(info: &MessageInfo, state: &StateV2) -> (r: Result<
    FeeChargeResponse,
    ContractError,
>)
    requires
        fee_can_be_charged(info@, state@),
    ensures
        fee_result_view(r) == fee_charge(info@, state@),
{
    let onboarding_cost = state.onboarding_cost;
    let funds_sent = match check_fee_funds(info, state) {
        Ok(sent) => sent,
        Err(e) => {
            return Err(e);
        },
    };
    // The fee collector gets the fee's share of the cost; the rest stays in the
    // contract's account until the oracle approves.
    let fee_collected_amount = state.fee_percent.of(onboarding_cost);
    let fee_charge_message = if fee_collected_amount > 0 {
        Some(
            send(
                state.fee_collection_address.as_str(),
                fee_collected_amount,
                state.onboarding_denom.as_str(),
            ),
        )
    } else {
        None
    };
    let refund_amount = funds_sent - onboarding_cost;
    let fee_refund_message = if refund_amount > 0 {
        Some(send(info.sender.as_str(), refund_amount, state.onboarding_denom.as_str()))
    } else {
        None
    };
    Ok(
        FeeChargeResponse {
            fee_charge_message,
            fee_refund_message,
            refund_amount,
            oracle_fee_amount_kept: onboarding_cost - fee_collected_amount,
        },
    )
}

/// An amount and its denomination, as the event tags write them.
pub open spec fn amount_of_denom(amount: nat, denom: Seq<char>) -> Seq<char> {
    decimal_digits(amount) + "/"@ + denom
}

/// The transfers that a fee charge asks for: the fee's, then the refund's.
pub open spec fn fee_messages(fee: FeeChargeResponseView) -> Seq<LedgerMsgView> {
    let charge = match fee.fee_charge_message {
        Some(msg) => seq![msg],
        None => Seq::empty(),
    };
    let refund = match fee.fee_refund_message {
        Some(msg) => seq![msg],
        None => Seq::empty(),
    };
    charge + refund
}

/// The event tags of a fee charge: what is kept for the oracle, be it nothing, then
/// what was refunded, where anything was.
pub open spec fn fee_tags(fee: FeeChargeResponseView, denom: Seq<char>) -> Seq<AttributeView> {
    let kept = seq![
        AttributeView {
            key: ORACLE_FUNDS_KEPT@,
            value: amount_of_denom(fee.oracle_fee_amount_kept as nat, denom),
        },
    ];
    let refund = if fee.fee_refund_message is Some {
        seq![
            AttributeView {
                key: REFUND_AMOUNT_KEY@,
                value: amount_of_denom(fee.refund_amount as nat, denom),
            },
        ]
    } else {
        Seq::empty()
    };
    kept + refund
}

/// The event tags that describe the registered payable.
pub open spec fn registration_tags(register: RegisterPayableV2View) -> Seq<AttributeView> {
    seq![
        AttributeView { key: PAYABLE_REGISTERED_KEY@, value: register.payable_uuid },
        AttributeView { key: PAYABLE_TYPE_KEY@, value: register.payable_type },
        AttributeView { key: PAYABLE_UUID_KEY@, value: register.payable_uuid },
        AttributeView { key: ORACLE_ADDRESS_KEY@, value: register.oracle_address },
        AttributeView {
            key: TOTAL_OWED_KEY@,
            value: decimal_digits(register.payable_total as nat),
        },
        AttributeView { key: REGISTERED_DENOM_KEY@, value: register.payable_denom },
        AttributeView { key: SCOPE_ID_KEY@, value: register.scope_id },
    ]
}

/// Whether `sender` is among the owners of the scope.
pub open spec fn sender_owns(scope: ScopeView, sender: Seq<char>) -> bool {
    exists|i: int| 0 <= i < scope.owners.len() && (#[trigger] scope.owners[i]).address == sender
}

/// Whether the sender may register a payable on the scope that the call names: on a
/// local contract anyone may; elsewhere the scope must be found and the sender own it.
pub open spec fn registration_refusal<T: ProvenanceUtil>(
    util: &T,
    deps: DepsView,
    state: StateV2View,
    sender: Seq<char>,
    scope_id: Seq<char>,
) -> Option<ContractErrorView> {
    if state.is_local {
        None
    } else {
        match util.scope_by_id(deps, scope_id) {
            Err(e) => Some(ContractErrorView::Std(e)),
            Ok(scope) => if sender_owns(scope, sender) {
                None
            } else {
                Some(ContractErrorView::Unauthorized)
            },
        }
    }
}

/// What a registration comes to: the onboarding cost is charged, the sender's right to
/// the scope is checked, and the payable's first record is written on the scope.
pub open spec fn register_payable_outcome<T: ProvenanceUtil>(
    util: &T,
    deps: DepsView,
    info: MessageInfoView,
    register: RegisterPayableV2View,
) -> Result<ResponseView, ContractErrorView> {
    match deps.config {
        Err(e) => Err(ContractErrorView::Std(e)),
        Ok(state) => match fee_charge(info, state) {
            Err(e) => Err(e),
            Ok(fee) => match registration_refusal(
                util,
                deps,
                state,
                info.sender,
                register.scope_id,
            ) {
                Some(e) => Err(e),
                None => match util.add_initial_attribute_to_scope_msg(
                    deps,
                    register.to_scope_attribute(),
                    state.contract_name,
                ) {
                    Err(e) => Err(e),
                    Ok(msg) => Ok(
                        ResponseView {
                            messages: fee_messages(fee).push(msg),
                            attributes: fee_tags(fee, state.onboarding_denom) + registration_tags(
                                register,
                            ),
                        },
                    ),
                },
            },
        },
    }
}

/// The link that a registration leaves in the store.
pub open spec fn registered_link(register: RegisterPayableV2View) -> PayableMetaV2View {
    PayableMetaV2View { payable_uuid: register.payable_uuid, scope_id: register.scope_id }
}

/// What the store and the registries hold after a registration with the given outcome:
/// a registration that succeeds leaves its link, under the payable's uuid, and nothing
/// else changes.
pub open spec fn deps_after_registration(
    deps: DepsView,
    register: RegisterPayableV2View,
    outcome: Result<ResponseView, ContractErrorView>,
) -> DepsView {
    if outcome is Ok {
        DepsView {
            payable_uuid: register.payable_uuid,
            payable_meta: Ok(registered_link(register)),
            ..deps
        }
    } else {
        deps
    }
}

fn is_owner(scope: &Scope, sender: &String) -> (r: bool)
    ensures
        r == sender_owns(scope@, sender@),
{
    let mut i: usize = 0;
    while i < scope.owners.len()
        invariant
            i <= scope.owners.len(),
            forall|j: int| 0 <= j < i ==> (#[trigger] scope@.owners[j]).address != sender@,
        decreases scope.owners.len() - i,
    {
        if scope.owners[i].address == *sender {
            assert(scope@.owners[i as int].address == sender@);
            return true;
        }
        i += 1;
    }
    false
}

/// Registers a payable, reaching the ledger's registries as the contract itself does.
pub fn register_payable(deps: &mut Deps, info: MessageInfo, register: RegisterPayableV2) -> (r:
    Result<Response, ContractError>)
    requires
        old(deps)@.config matches Ok(state) ==> fee_can_be_charged(info@, state),
    ensures
        response_result_view(r) == register_payable_outcome(
            &ProvenanceUtilImpl,
            old(deps)@,
            info@,
            register@,
        ),
        final(deps)@ == deps_after_registration(old(deps)@, register@, response_result_view(r)),
{
    register_payable_with_util(deps, &ProvenanceUtilImpl, info, register)
}

/// Registers a payable:
/// - charges the onboarding cost, sending the fee's share to the fee collector
///   and what was sent over the cost back to the sender;
/// - checks that the sender owns the scope, unless the contract is local;
/// - writes the payable's record on the scope, under the contract's name;
/// - links the payable's uuid to the scope in the store.
pub fn register_payable_with_util<T: ProvenanceUtil>(
    deps: &mut Deps,
    provenance_util: &T,
    info: MessageInfo,
    register: RegisterPayableV2,
) -> (r: Result<Response, ContractError>)
    requires
        old(deps)@.config matches Ok(state) ==> fee_can_be_charged(info@, state),
    ensures
        response_result_view(r) == register_payable_outcome(
            provenance_util,
            old(deps)@,
            info@,
            register@,
        ),
        final(deps)@ == deps_after_registration(old(deps)@, register@, response_result_view(r)),
{
    let mut messages: Vec<LedgerMsg> = Vec::new();
    let mut attributes: Vec<Attribute> = Vec::new();
    let state = match &deps.config {
        Ok(state) => state.clone(),
        Err(e) => {
            return Err(ContractError::Std(e.clone()));
        },
    };
    let fee_charge_response = match validate_fee_params_get_messages(&info, &state) {
        Ok(fee) => fee,
        Err(e) => {
            return Err(e);
        },
    };
    let ghost fee = fee_charge_response@;
    let refund_amount = fee_charge_response.refund_amount;
    let oracle_fee_amount_kept = fee_charge_response.oracle_fee_amount_kept;
    if let Some(fee_message) = fee_charge_response.fee_charge_message {
        messages.push(fee_message);
    }
    // What is kept for the oracle is reported with every registration, also where no
    // fee goes to the fee collector.
    let kept = join(
        join(u128_to_string(oracle_fee_amount_kept).as_str(), "/").as_str(),
        state.onboarding_denom.as_str(),
    );
    attributes.push(Attribute::new(ORACLE_FUNDS_KEPT, kept.as_str()));
    if let Some(refund_message) = fee_charge_response.fee_refund_message {
        messages.push(refund_message);
        let refund = join(
            join(u128_to_string(refund_amount).as_str(), "/").as_str(),
            state.onboarding_denom.as_str(),
        );
        attributes.push(Attribute::new(REFUND_AMOUNT_KEY, refund.as_str()));
    }
    // Only an owner of the scope may register a payable on it. A local contract does
    // not look the scope up at all.
    if !state.is_local {
        let scope = match provenance_util.get_scope_by_id(&*deps, register.scope_id.as_str()) {
            Ok(scope) => scope,
            Err(e) => {
                return Err(ContractError::Std(e));
            },
        };
        if !is_owner(&scope, &info.sender) {
            return Err(ContractError::Unauthorized);
        }
    }
    attributes.push(Attribute::new(PAYABLE_REGISTERED_KEY, register.payable_uuid.as_str()));
    attributes.push(Attribute::new(PAYABLE_TYPE_KEY, register.payable_type.as_str()));
    attributes.push(Attribute::new(PAYABLE_UUID_KEY, register.payable_uuid.as_str()));
    attributes.push(Attribute::new(ORACLE_ADDRESS_KEY, register.oracle_address.as_str()));
    attributes.push(
        Attribute::new(TOTAL_OWED_KEY, u128_to_string(register.payable_total).as_str()),
    );
    attributes.push(Attribute::new(REGISTERED_DENOM_KEY, register.payable_denom.as_str()));
    attributes.push(Attribute::new(SCOPE_ID_KEY, register.scope_id.as_str()));
    assert(attributes.deep_view() =~= fee_tags(fee, state@.onboarding_denom) + registration_tags(
        register@,
    ));
    let scope_attribute = register.to_scope_attribute();
    let initial_msg = match provenance_util.get_add_initial_attribute_to_scope_msg(
        &*deps,
        &scope_attribute,
        state.contract_name.as_str(),
    ) {
        Ok(msg) => msg,
        Err(e) => {
            return Err(e);
        },
    };
    messages.push(initial_msg);
    assert(messages.deep_view() =~= fee_messages(fee).push(initial_msg@));
    let payable_meta = PayableMetaV2 {
        payable_uuid: scope_attribute.payable_uuid,
        scope_id: scope_attribute.scope_id,
    };
    deps.payable_uuid = payable_meta.payable_uuid.clone();
    deps.payable_meta = Ok(payable_meta);
    Ok(Response { messages, attributes })
}

} // verus!
