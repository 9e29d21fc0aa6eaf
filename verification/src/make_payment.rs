use crate::constants::{
    ORACLE_ADDRESS_KEY, PAYABLE_TYPE_KEY, PAYABLE_UUID_KEY, PAYEE_KEY, PAYER_KEY,
    PAYMENT_AMOUNT_KEY, PAYMENT_MADE_KEY, TOTAL_REMAINING_KEY,
};
use crate::error::{ContractError, ContractErrorView};
use crate::funds::{
    find_invalid_denoms, invalid_denoms, lemma_invalid_denoms_exact, sum_amounts, total_amount,
};
use crate::ledger::{
    send, send_view, AttributeView, CoinView, Deps, DepsView, MessageInfo, MessageInfoView,
    Response, ResponseView,
};
use crate::provenance_util::{ProvenanceUtil, ProvenanceUtilImpl};
use crate::query::{found_payable, payable_attribute_by_uuid, query_payable_attribute_by_uuid};
use crate::state::PayableScopeAttributeView;
use crate::text::{decimal_digits, u128_to_string};
use vstd::prelude::*;
use vstd::string::StringExecFns;

verus! {

/// A request to pay towards a payable.
#[derive(Debug, PartialEq, Eq)]
pub struct MakePaymentV1 {
    pub payable_uuid: String,
}

pub struct MakePaymentV1View {
    pub payable_uuid: Seq<char>,
}

impl View for MakePaymentV1 {
    type V = MakePaymentV1View;

    open spec fn view(&self) -> MakePaymentV1View {
        MakePaymentV1View { payable_uuid: self.payable_uuid@ }
    }
}

/// The view of a response or of the error in its place.
pub open spec fn response_result_view(r: Result<Response, ContractError>) -> Result<
    ResponseView,
    ContractErrorView,
> {
    match r {
        Ok(response) => Ok(response@),
        Err(e) => Err(e@),
    }
}

/// The record after `amount` has been paid towards it.
pub open spec fn paid_down(
    attribute: PayableScopeAttributeView,
    amount: nat,
) -> PayableScopeAttributeView
    recommends
        amount <= attribute.payable_remaining_owed,
{
    PayableScopeAttributeView {
        payable_remaining_owed: (attribute.payable_remaining_owed - amount) as u128,
        ..attribute
    }
}

/// The event tags of a payment of `amount` that left the record `after`.
pub open spec fn payment_tags(
    after: PayableScopeAttributeView,
    amount: nat,
    payer: Seq<char>,
    payee: Seq<char>,
) -> Seq<AttributeView> {
    seq![
        AttributeView { key: PAYMENT_MADE_KEY@, value: after.payable_uuid },
        AttributeView { key: PAYABLE_TYPE_KEY@, value: after.payable_type },
        AttributeView { key: PAYABLE_UUID_KEY@, value: after.payable_uuid },
        AttributeView { key: ORACLE_ADDRESS_KEY@, value: after.oracle_address },
        AttributeView { key: PAYMENT_AMOUNT_KEY@, value: decimal_digits(amount) },
        AttributeView {
            key: TOTAL_REMAINING_KEY@,
            value: decimal_digits(after.payable_remaining_owed as nat),
        },
        AttributeView { key: PAYER_KEY@, value: payer },
        AttributeView { key: PAYEE_KEY@, value: payee },
    ]
}

/// The sum of the funds as a refusal reports it: the sum itself, or the largest amount
/// that 128 bits hold where the sum is greater still.
pub open spec fn amount_provided(funds: Seq<CoinView>) -> u128 {
    if total_amount(funds) <= u128::MAX {
        total_amount(funds) as u128
    } else {
        u128::MAX
    }
}

/// Why a payment towards `attribute` with these funds is refused, if it is: the payable
/// must be approved, every coin must be in the payable's denomination, and the coins
/// must add up to more than nothing and to no more than is still owed. Funds that add
/// up to more than 128 bits hold are more than can be owed, and are refused as too
/// large a payment.
pub open spec fn payment_refusal(
    attribute: PayableScopeAttributeView,
    funds: Seq<CoinView>,
) -> Option<ContractErrorView> {
    if !attribute.oracle_approved {
        Some(
            ContractErrorView::NotReadyForPayment {
                payable_uuid: attribute.payable_uuid,
                not_ready_reason: "Payable missing oracle approval"@,
            },
        )
    } else if invalid_denoms(funds, attribute.payable_denom).len() > 0 {
        Some(
            ContractErrorView::InvalidFundsProvided {
                valid_denom: attribute.payable_denom,
                invalid_denoms: invalid_denoms(funds, attribute.payable_denom),
            },
        )
    } else if total_amount(funds) == 0 {
        Some(ContractErrorView::NoFundsProvided { valid_denom: attribute.payable_denom })
    } else if total_amount(funds) > attribute.payable_remaining_owed {
        Some(
            ContractErrorView::PaymentTooLarge {
                total_owed: attribute.payable_remaining_owed,
                amount_provided: amount_provided(funds),
            },
        )
    } else {
        None
    }
}

/// Denominations are kept apart: a payment towards an approved payable of which any
/// coin is in another denomination than the payable's is refused as a whole, and the
/// refusal lists the denominations of exactly the coins that are in another one.
pub proof fn lemma_payment_denom_isolation<T: ProvenanceUtil>(
    util: &T,
    deps: DepsView,
    info: MessageInfoView,
    payable_uuid: Seq<char>,
)
    requires
        payable_attribute_by_uuid(deps, payable_uuid) matches Ok(attribute)
            && attribute.oracle_approved,
        exists|i: int|
            0 <= i < info.funds.len() && (#[trigger] info.funds[i]).denom
                != found_payable(deps, payable_uuid).payable_denom,
    ensures
        make_payment_outcome(util, deps, info, payable_uuid) == Err::<
            ResponseView,
            ContractErrorView,
        >(
            ContractErrorView::InvalidFundsProvided {
                valid_denom: found_payable(deps, payable_uuid).payable_denom,
                invalid_denoms: invalid_denoms(
                    info.funds,
                    found_payable(deps, payable_uuid).payable_denom,
                ),
            },
        ),
        forall|i: int|
            0 <= i < info.funds.len() && (#[trigger] info.funds[i]).denom
                != found_payable(deps, payable_uuid).payable_denom ==> invalid_denoms(
                info.funds,
                found_payable(deps, payable_uuid).payable_denom,
            ).contains(info.funds[i].denom),
        forall|k: int|
            0 <= k < invalid_denoms(
                info.funds,
                found_payable(deps, payable_uuid).payable_denom,
            ).len() ==> {
                &&& (#[trigger] invalid_denoms(
                    info.funds,
                    found_payable(deps, payable_uuid).payable_denom,
                )[k]) != found_payable(deps, payable_uuid).payable_denom
                &&& exists|i: int|
                    0 <= i < info.funds.len() && (#[trigger] info.funds[i]).denom == invalid_denoms(
                        info.funds,
                        found_payable(deps, payable_uuid).payable_denom,
                    )[k]
            },
{
    lemma_invalid_denoms_exact(info.funds, found_payable(deps, payable_uuid).payable_denom);
}

/// What a payment comes to. The payable is found by its uuid, or the call fails with
/// `PayableNotFound`; the payment is checked against its record; the scope's value owner
/// is looked up and is paid the whole of the funds; the record, with the payment taken
/// off what is owed, replaces the old one on the scope.
pub open spec fn make_payment_outcome<T: ProvenanceUtil>(
    util: &T,
    deps: DepsView,
    info: MessageInfoView,
    payable_uuid: Seq<char>,
) -> Result<ResponseView, ContractErrorView> {
    match payable_attribute_by_uuid(deps, payable_uuid) {
        Err(_) => Err(ContractErrorView::PayableNotFound { payable_uuid }),
        Ok(attribute) => match payment_refusal(attribute, info.funds) {
            Some(e) => Err(e),
            None => match util.scope_by_id(deps, attribute.scope_id) {
                Err(e) => Err(ContractErrorView::Std(e)),
                Ok(scope) => {
                    let amount = total_amount(info.funds);
                    let after = paid_down(attribute, amount);
                    match deps.config {
                        Err(e) => Err(ContractErrorView::Std(e)),
                        Ok(state) => match util.upsert_attribute(after, state.contract_name) {
                            Err(e) => Err(e),
                            Ok(write) => Ok(
                                ResponseView {
                                    messages: seq![
                                        send_view(
                                            scope.value_owner_address,
                                            amount as u128,
                                            attribute.payable_denom,
                                        ),
                                        write.delete_attributes_msg,
                                        write.add_attribute_msg,
                                    ],
                                    attributes: payment_tags(
                                        after,
                                        amount,
                                        info.sender,
                                        scope.value_owner_address,
                                    ),
                                },
                            ),
                        },
                    }
                },
            },
        },
    }
}

/// Makes a payment towards a payable, reaching the ledger's registries as the contract
/// itself does.
pub fn make_payment(deps: &Deps, info: MessageInfo, payment: MakePaymentV1) -> (r: Result<
    Response,
    ContractError,
>)
    ensures
        response_result_view(r) == make_payment_outcome(
            &ProvenanceUtilImpl,
            deps@,
            info@,
            payment@.payable_uuid,
        ),
{
    make_payment_with_util(deps, &ProvenanceUtilImpl, info, payment)
}

/// Makes a payment towards a payable:
/// - the payable must be registered and approved by its oracle;
/// - the funds must all be in the payable's denomination, more than nothing and
///   no more than is still owed;
/// - the funds go to the value owner of the payable's scope;
/// - what is still owed goes down by the payment, on the scope's record.
pub fn make_payment_with_util<T: ProvenanceUtil>(
    deps: &Deps,
    provenance_util: &T,
    info: MessageInfo,
    payment: MakePaymentV1,
) -> (r: Result<Response, ContractError>)
    ensures
        response_result_view(r) == make_payment_outcome(
            provenance_util,
            deps@,
            info@,
            payment@.payable_uuid,
        ),
{
    let mut scope_attribute = match query_payable_attribute_by_uuid(
        deps,
        payment.payable_uuid.as_str(),
    ) {
        Ok(attr) => {
            if !attr.oracle_approved {
                return Err(
                    ContractError::NotReadyForPayment {
                        payable_uuid: attr.payable_uuid,
                        not_ready_reason: String::from_str("Payable missing oracle approval"),
                    },
                );
            }
            attr
        },
        Err(_) => {
            return Err(ContractError::PayableNotFound { payable_uuid: payment.payable_uuid });
        },
    };
    let ghost attribute = scope_attribute@;
    let invalid_funds = find_invalid_denoms(&info.funds, &scope_attribute.payable_denom);
    if invalid_funds.len() > 0 {
        return Err(
            ContractError::InvalidFundsProvided {
                valid_denom: scope_attribute.payable_denom,
                invalid_denoms: invalid_funds,
            },
        );
    }
    let payment_amount = match sum_amounts(&info.funds) {
        Some(sum) => sum,
        None => {
            return Err(
                ContractError::PaymentTooLarge {
                    total_owed: scope_attribute.payable_remaining_owed,
                    amount_provided: u128::MAX,
                },
            );
        },
    };
    if payment_amount == 0 {
        return Err(ContractError::NoFundsProvided { valid_denom: scope_attribute.payable_denom });
    }
    if payment_amount > scope_attribute.payable_remaining_owed {
        return Err(
            ContractError::PaymentTooLarge {
                total_owed: scope_attribute.payable_remaining_owed,
                amount_provided: payment_amount,
            },
        );
    }
    let scope = match provenance_util.get_scope_by_id(deps, scope_attribute.scope_id.as_str()) {
        Ok(scope) => scope,
        Err(e) => {
            return Err(ContractError::Std(e));
        },
    };
    let payee = scope.value_owner_address;
    let payment_message = send(
        payee.as_str(),
        payment_amount,
        scope_attribute.payable_denom.as_str(),
    );
    scope_attribute.payable_remaining_owed = scope_attribute.payable_remaining_owed
        - payment_amount;
    let state = match &deps.config {
        Ok(state) => state,
        Err(e) => {
            return Err(ContractError::Std(e.clone()));
        },
    };
    let upsert_attribute_msgs = match provenance_util.upsert_attribute_to_scope(
        &scope_attribute,
        state.contract_name.as_str(),
    ) {
        Ok(msgs) => msgs,
        Err(e) => {
            return Err(e);
        },
    };
    let response = Response::new().add_message(payment_message).add_message(
        upsert_attribute_msgs.delete_attributes_msg,
    ).add_message(upsert_attribute_msgs.add_attribute_msg).add_attribute(
        PAYMENT_MADE_KEY,
        scope_attribute.payable_uuid.as_str(),
    ).add_attribute(PAYABLE_TYPE_KEY, scope_attribute.payable_type.as_str()).add_attribute(
        PAYABLE_UUID_KEY,
        scope_attribute.payable_uuid.as_str(),
    ).add_attribute(ORACLE_ADDRESS_KEY, scope_attribute.oracle_address.as_str()).add_attribute(
        PAYMENT_AMOUNT_KEY,
        u128_to_string(payment_amount).as_str(),
    ).add_attribute(
        TOTAL_REMAINING_KEY,
        u128_to_string(scope_attribute.payable_remaining_owed).as_str(),
    ).add_attribute(PAYER_KEY, info.sender.as_str()).add_attribute(PAYEE_KEY, payee.as_str());
    assert(response@.messages =~= seq![
        send_view(scope@.value_owner_address, payment_amount, attribute.payable_denom),
        upsert_attribute_msgs@.delete_attributes_msg,
        upsert_attribute_msgs@.add_attribute_msg,
    ]);
    assert(response@.attributes =~= payment_tags(
        scope_attribute@,
        payment_amount as nat,
        info@.sender,
        scope@.value_owner_address,
    ));
    Ok(response)
}

} // verus!
