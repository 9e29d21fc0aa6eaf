use crate::constants::{ORACLE_ADDRESS_KEY, ORACLE_APPROVED_KEY, PAYABLE_TYPE_KEY, PAYABLE_UUID_KEY};
use crate::error::{ContractError, ContractErrorView};
use crate::ledger::{
    send, send_view, AttributeView, Deps, DepsView, LedgerMsg, LedgerMsgView, MessageInfo,
    MessageInfoView, Response, ResponseView,
};
use crate::make_payment::response_result_view;
use crate::provenance_util::{ProvenanceUtil, ProvenanceUtilImpl};
use crate::query::{found_payable, payable_attribute_by_uuid, query_payable_attribute_by_uuid};
use crate::register_payable::fee_collected;
use crate::state::{PayableScopeAttribute, PayableScopeAttributeView, StateV2View};
use vstd::prelude::*;

verus! {

/// A request by an oracle to approve a payable for payment.
#[derive(Debug, PartialEq, Eq)]
pub struct OracleApprovalV1 {
    pub payable_uuid: String,
}

pub struct OracleApprovalV1View {
    pub payable_uuid: Seq<char>,
}

impl View for OracleApprovalV1 {
    type V = OracleApprovalV1View;

    open spec fn view(&self) -> OracleApprovalV1View {
        OracleApprovalV1View { payable_uuid: self.payable_uuid@ }
    }
}

/// The record once its oracle has approved it.
pub open spec fn approved(attribute: PayableScopeAttributeView) -> PayableScopeAttributeView {
    PayableScopeAttributeView { oracle_approved: true, ..attribute }
}

/// What the oracle is paid for an approval: the onboarding cost less the fee's share,
/// by the configuration at the time of the approval. Nothing of what was charged when
/// the payable was registered is kept on its record: where a migration has changed the
/// cost or the fee's share in between, the oracle is paid by the new figures, which are
/// not those by which the funds were set aside.
pub open spec fn oracle_withdraw_amount(state: StateV2View) -> nat
    recommends
        state.well_formed(),
{
    (state.onboarding_cost - fee_collected(state)) as nat
}

/// The transfer to the oracle, where the oracle is paid more than nothing.
pub open spec fn oracle_payout(state: StateV2View, oracle_address: Seq<char>) -> Seq<
    LedgerMsgView,
> {
    if oracle_withdraw_amount(state) > 0 {
        seq![
            send_view(
                oracle_address,
                oracle_withdraw_amount(state) as u128,
                state.onboarding_denom,
            ),
        ]
    } else {
        Seq::empty()
    }
}

/// The event tags of an approval.
pub open spec fn approval_tags(attribute: PayableScopeAttributeView) -> Seq<AttributeView> {
    seq![
        AttributeView { key: ORACLE_APPROVED_KEY@, value: attribute.payable_uuid },
        AttributeView { key: PAYABLE_TYPE_KEY@, value: attribute.payable_type },
        AttributeView { key: PAYABLE_UUID_KEY@, value: attribute.payable_uuid },
        AttributeView { key: ORACLE_ADDRESS_KEY@, value: attribute.oracle_address },
    ]
}

/// Why an approval is refused, if it is: the call must bring no funds, the payable must
/// be found and not yet be approved, and the sender must be the payable's oracle.
pub open spec fn approval_refusal(
    deps: DepsView,
    info: MessageInfoView,
    payable_uuid: Seq<char>,
) -> Option<ContractErrorView> {
    if info.funds.len() > 0 {
        Some(ContractErrorView::FundsPresent)
    } else {
        match payable_attribute_by_uuid(deps, payable_uuid) {
            Err(_) => Some(ContractErrorView::PayableNotFound { payable_uuid }),
            Ok(attribute) => if attribute.oracle_approved {
                Some(ContractErrorView::DuplicateApproval { payable_uuid })
            } else if info.sender != attribute.oracle_address {
                Some(ContractErrorView::Unauthorized)
            } else {
                None
            },
        }
    }
}

/// Whether the oracle's payout can be worked out for a call: the approval is refused
/// before it comes to that, or the fee's share in the configuration is a ratio.
pub open spec fn approval_can_pay(
    deps: DepsView,
    info: MessageInfoView,
    payable_uuid: Seq<char>,
) -> bool {
    approval_refusal(deps, info, payable_uuid) is Some || (deps.config matches Ok(state)
        ==> state.well_formed())
}

/// What an approval comes to. Where it is not refused, the oracle is paid, and the
/// record, marked as approved, replaces the old one on the scope.
pub open spec fn oracle_approval_outcome<T: ProvenanceUtil>(
    util: &T,
    deps: DepsView,
    info: MessageInfoView,
    payable_uuid: Seq<char>,
) -> Result<ResponseView, ContractErrorView> {
    match approval_refusal(deps, info, payable_uuid) {
        Some(e) => Err(e),
        None => {
            let attribute = found_payable(deps, payable_uuid);
            match deps.config {
                Err(e) => Err(ContractErrorView::Std(e)),
                Ok(state) => match util.upsert_attribute(approved(attribute), state.contract_name) {
                    Err(e) => Err(e),
                    Ok(write) => Ok(
                        ResponseView {
                            messages: oracle_payout(state, attribute.oracle_address) + seq![
                                write.delete_attributes_msg,
                                write.add_attribute_msg,
                            ],
                            attributes: approval_tags(attribute),
                        },
                    ),
                },
            }
        },
    }
}

/// Checks whether a payable may be approved by the call, and gives its record.
pub fn check_approval(deps: &Deps, info: &MessageInfo, approval: &OracleApprovalV1) -> (r: Result<
    PayableScopeAttribute,
    ContractError,
>)
    ensures
        match r {
            Ok(attribute) => approval_refusal(deps@, info@, approval@.payable_uuid) is None
                && payable_attribute_by_uuid(deps@, approval@.payable_uuid) == Ok::<
                PayableScopeAttributeView,
                ContractErrorView,
            >(attribute@),
            Err(e) => approval_refusal(deps@, info@, approval@.payable_uuid) == Some(e@),
        },
{
    // An approval costs nothing, so no funds may come with it.
    if info.funds.len() > 0 {
        return Err(ContractError::FundsPresent);
    }
    let scope_attribute = match query_payable_attribute_by_uuid(
        deps,
        approval.payable_uuid.as_str(),
    ) {
        Ok(attr) => {
            if attr.oracle_approved {
                return Err(
                    ContractError::DuplicateApproval {
                        payable_uuid: approval.payable_uuid.clone(),
                    },
                );
            }
            attr
        },
        Err(_) => {
            return Err(
                ContractError::PayableNotFound { payable_uuid: approval.payable_uuid.clone() },
            );
        },
    };
    if info.sender != scope_attribute.oracle_address {
        return Err(ContractError::Unauthorized);
    }
    Ok(scope_attribute)
}

/// Marks a payable as approved by its oracle, reaching the ledger's registries as the
/// contract itself does.
pub fn oracle_approval(deps: &Deps, info: MessageInfo, approval: OracleApprovalV1) -> (r: Result<
    Response,
    ContractError,
>)
    requires
        approval_can_pay(deps@, info@, approval@.payable_uuid),
    ensures
        response_result_view(r) == oracle_approval_outcome(
            &ProvenanceUtilImpl,
            deps@,
            info@,
            approval@.payable_uuid,
        ),
{
    oracle_approval_with_util(deps, &ProvenanceUtilImpl, info, approval)
}

/// Marks a payable as approved by its oracle:
/// - an approval costs nothing, so no funds may come with it;
/// - the payable must be registered and not yet be approved;
/// - only the oracle named on the payable may approve it;
/// - the oracle is paid what the onboarding cost leaves once the fee is taken;
/// - the record on the scope is replaced by one that is approved.
pub fn oracle_approval_with_util<T: ProvenanceUtil>(
    deps: &Deps,
    provenance_util: &T,
    info: MessageInfo,
    approval: OracleApprovalV1,
) -> (r: Result<Response, ContractError>)
    requires
        approval_can_pay(deps@, info@, approval@.payable_uuid),
    ensures
        response_result_view(r) == oracle_approval_outcome(
            provenance_util,
            deps@,
            info@,
            approval@.payable_uuid,
        ),
{
    let mut messages: Vec<LedgerMsg> = Vec::new();
    let mut scope_attribute = match check_approval(deps, &info, &approval) {
        Ok(attribute) => attribute,
        Err(e) => {
            return Err(e);
        },
    };
    let ghost attribute = scope_attribute@;
    let state = match &deps.config {
        Ok(state) => state,
        Err(e) => {
            return Err(ContractError::Std(e.clone()));
        },
    };
    // The oracle is paid on each approval what is left of the onboarding cost once the
    // fee is taken, and only where that is more than nothing.
    let oracle_withdraw_amount = state.onboarding_cost - state.fee_percent.of(
        state.onboarding_cost,
    );
    if oracle_withdraw_amount > 0 {
        messages.push(
            send(
                scope_attribute.oracle_address.as_str(),
                oracle_withdraw_amount,
                state.onboarding_denom.as_str(),
            ),
        );
    }
    assert(messages.deep_view() =~= oracle_payout(state@, attribute.oracle_address));
    scope_attribute.oracle_approved = true;
    let write = match provenance_util.upsert_attribute_to_scope(
        &scope_attribute,
        state.contract_name.as_str(),
    ) {
        Ok(msgs) => msgs,
        Err(e) => {
            return Err(e);
        },
    };
    let ghost before = messages.deep_view();
    messages.push(write.delete_attributes_msg);
    messages.push(write.add_attribute_msg);
    assert(messages.deep_view() =~= before + seq![
        write@.delete_attributes_msg,
        write@.add_attribute_msg,
    ]);
    let response = Response { messages, attributes: Vec::new() };
    let response = response.add_attribute(
        ORACLE_APPROVED_KEY,
        scope_attribute.payable_uuid.as_str(),
    ).add_attribute(PAYABLE_TYPE_KEY, scope_attribute.payable_type.as_str()).add_attribute(
        PAYABLE_UUID_KEY,
        scope_attribute.payable_uuid.as_str(),
    ).add_attribute(ORACLE_ADDRESS_KEY, scope_attribute.oracle_address.as_str());
    assert(response@.attributes =~= approval_tags(attribute));
    Ok(response)
}

} // verus!
