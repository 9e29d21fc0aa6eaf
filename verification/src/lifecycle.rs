use crate::error::{ContractErrorView, StdErrorView};
use crate::funds::{lemma_invalid_denoms_exact, total_amount};
use crate::ledger::{DepsView, LedgerMsgView, MessageInfoView};
use crate::make_payment::{make_payment_outcome, paid_down};
use crate::oracle_approval::{approved, oracle_approval_outcome, oracle_payout};
use crate::provenance_util::{ProvenanceUtil, ProvenanceUtilImpl};
use crate::query::{found_payable, payable_attribute_by_uuid};
use crate::register_payable::{
    deps_after_registration, register_payable_outcome, registered_link, RegisterPayableV2View,
};
use crate::state::{PayableMetaV2View, PayableScopeAttributeView};
use vstd::prelude::*;

verus! {

/// One step in the life of a registered payable.
pub enum Step {
    /// The oracle approves the payable.
    Approve,
    /// Someone pays `amount` towards the payable.
    Pay { amount: nat },
}

/// The record after one step, where the step is admitted: a payable is approved once,
/// and a payment is made towards an approved payable, of more than nothing and of no
/// more than is still owed.
pub open spec fn step(attribute: PayableScopeAttributeView, s: Step) -> Option<
    PayableScopeAttributeView,
> {
    match s {
        Step::Approve => if attribute.oracle_approved {
            None
        } else {
            Some(approved(attribute))
        },
        Step::Pay { amount } => if attribute.oracle_approved && 0 < amount
            <= attribute.payable_remaining_owed {
            Some(paid_down(attribute, amount))
        } else {
            None
        },
    }
}

/// The record after the steps, taken in turn, where each is admitted.
pub open spec fn run(attribute: PayableScopeAttributeView, steps: Seq<Step>) -> Option<
    PayableScopeAttributeView,
>
    decreases steps.len(),
{
    if steps.len() == 0 {
        Some(attribute)
    } else {
        match run(attribute, steps.drop_last()) {
            Some(before) => step(before, steps.last()),
            None => None,
        }
    }
}

/// What the steps pay in all.
pub open spec fn paid(steps: Seq<Step>) -> nat
    decreases steps.len(),
{
    if steps.len() == 0 {
        0
    } else {
        paid(steps.drop_last()) + match steps.last() {
            Step::Approve => 0nat,
            Step::Pay { amount } => amount,
        }
    }
}

/// Whether two records are of the same payable: they differ at most in what is still
/// owed and in the approval.
pub open spec fn same_payable(a: PayableScopeAttributeView, b: PayableScopeAttributeView) -> bool {
    &&& a.payable_type == b.payable_type
    &&& a.payable_uuid == b.payable_uuid
    &&& a.scope_id == b.scope_id
    &&& a.oracle_address == b.oracle_address
    &&& a.payable_denom == b.payable_denom
    &&& a.payable_total_owed == b.payable_total_owed
}

/// Over any steps that are all admitted, a payable stays the same payable, never owes
/// more than its total, and owes at the end what it owed at first less what was paid.
pub proof fn lemma_run_conserves(attribute: PayableScopeAttributeView, steps: Seq<Step>)
    requires
        attribute.well_formed(),
        run(attribute, steps) is Some,
    ensures
        same_payable(attribute, run(attribute, steps)->0),
        run(attribute, steps)->0.well_formed(),
        run(attribute, steps)->0.payable_remaining_owed + paid(steps)
            == attribute.payable_remaining_owed,
        attribute.oracle_approved ==> run(attribute, steps)->0.oracle_approved,
    decreases steps.len(),
{
    if steps.len() > 0 {
        lemma_run_conserves(attribute, steps.drop_last());
    }
}

/// Conservation: whatever payments are made on a payable after it is registered, their
/// sum is the payable's total less what is still owed at the end.
pub proof fn lemma_conservation(register: RegisterPayableV2View, steps: Seq<Step>)
    requires
        run(register.to_scope_attribute(), steps) is Some,
    ensures
        paid(steps) == register.payable_total - run(
            register.to_scope_attribute(),
            steps,
        )->0.payable_remaining_owed,
{
    lemma_run_conserves(register.to_scope_attribute(), steps);
}

/// A run that is admitted is admitted up to each of its steps.
pub proof fn lemma_run_prefix(attribute: PayableScopeAttributeView, steps: Seq<Step>, k: int)
    requires
        0 <= k <= steps.len(),
        run(attribute, steps) is Some,
    ensures
        run(attribute, steps.subrange(0, k)) is Some,
        run(run(attribute, steps.subrange(0, k))->0, steps.subrange(k, steps.len() as int)) == run(
            attribute,
            steps,
        ),
    decreases steps.len(),
{
    let rest = steps.subrange(k, steps.len() as int);
    if k == steps.len() {
        assert(steps.subrange(0, k) =~= steps);
    } else {
        lemma_run_prefix(attribute, steps.drop_last(), k);
        assert(steps.drop_last().subrange(0, k) =~= steps.subrange(0, k));
        assert(rest.drop_last() =~= steps.drop_last().subrange(k, steps.len() - 1));
    }
}

/// Monotonicity: over the life of a payable, what is still owed never goes up. Of any
/// two moments of an admitted run, the later one owes no more than the earlier one.
pub proof fn lemma_monotonicity(
    attribute: PayableScopeAttributeView,
    steps: Seq<Step>,
    i: int,
    j: int,
)
    requires
        attribute.well_formed(),
        run(attribute, steps) is Some,
        0 <= i <= j <= steps.len(),
    ensures
        run(attribute, steps.subrange(0, i)) is Some,
        run(attribute, steps.subrange(0, j)) is Some,
        run(attribute, steps.subrange(0, j))->0.payable_remaining_owed <= run(
            attribute,
            steps.subrange(0, i),
        )->0.payable_remaining_owed,
{
    lemma_run_prefix(attribute, steps, j);
    let upto_j = steps.subrange(0, j);
    lemma_run_prefix(attribute, upto_j, i);
    assert(upto_j.subrange(0, i) =~= steps.subrange(0, i));
    let at_i = run(attribute, steps.subrange(0, i))->0;
    lemma_run_conserves(attribute, steps.subrange(0, i));
    lemma_run_conserves(at_i, upto_j.subrange(i, j));
}

/// A registration that succeeds starts the payable's life: as the contract itself
/// reaches the ledger, the last message writes on the scope the record that owes the
/// whole of the total and is not yet approved, and the store links the payable's uuid
/// to the scope.
pub proof fn lemma_registration_starts_a_life(
    deps: DepsView,
    info: MessageInfoView,
    register: RegisterPayableV2View,
)
    requires
        register_payable_outcome(&ProvenanceUtilImpl, deps, info, register) is Ok,
    ensures
        deps.config is Ok,
        register_payable_outcome(&ProvenanceUtilImpl, deps, info, register)->Ok_0.messages.last()
            == (LedgerMsgView::AddJsonAttribute {
            address: register.scope_id,
            name: deps.config->Ok_0.contract_name,
            value: register.to_scope_attribute(),
        }),
        register.to_scope_attribute().well_formed(),
        run(register.to_scope_attribute(), Seq::empty()) == Some(register.to_scope_attribute()),
        deps_after_registration(
            deps,
            register,
            register_payable_outcome(&ProvenanceUtilImpl, deps, info, register),
        ).payable_meta == Ok::<PayableMetaV2View, StdErrorView>(registered_link(register)),
{
}

/// A payment that succeeds is a step of the payable's life: the payable was found, the
/// funds add up to an amount that the step admits, and the record that replaces the old
/// one on the scope is the old one after that step.
pub proof fn lemma_payment_is_a_step<T: ProvenanceUtil>(
    util: &T,
    deps: DepsView,
    info: MessageInfoView,
    payable_uuid: Seq<char>,
)
    requires
        make_payment_outcome(util, deps, info, payable_uuid) is Ok,
    ensures
        payable_attribute_by_uuid(deps, payable_uuid) is Ok,
        deps.config is Ok,
        step(found_payable(deps, payable_uuid), Step::Pay { amount: total_amount(info.funds) })
            == Some(paid_down(found_payable(deps, payable_uuid), total_amount(info.funds))),
        util.upsert_attribute(
            paid_down(found_payable(deps, payable_uuid), total_amount(info.funds)),
            deps.config->Ok_0.contract_name,
        ) matches Ok(write) && make_payment_outcome(
            util,
            deps,
            info,
            payable_uuid,
        )->Ok_0.messages.subrange(1, 3) == seq![
            write.delete_attributes_msg,
            write.add_attribute_msg,
        ],
{
}

/// As the contract itself reaches the ledger, the record that a successful payment
/// writes on the scope is the old one with the payment taken off what is owed.
pub proof fn lemma_payment_writes_paid_down(
    deps: DepsView,
    info: MessageInfoView,
    payable_uuid: Seq<char>,
)
    requires
        make_payment_outcome(&ProvenanceUtilImpl, deps, info, payable_uuid) is Ok,
    ensures
        make_payment_outcome(&ProvenanceUtilImpl, deps, info, payable_uuid)->Ok_0.messages[2] == (
        LedgerMsgView::AddJsonAttribute {
            address: found_payable(deps, payable_uuid).scope_id,
            name: deps.config->Ok_0.contract_name,
            value: paid_down(found_payable(deps, payable_uuid), total_amount(info.funds)),
        }),
{
}

/// A payment succeeds on exactly these calls: the payable is found, its life admits a
/// payment of the exact sum of the funds, every coin is in the payable's denomination,
/// and the scope's lookup and the record's replacement succeed. Funds whose sum 128
/// bits do not hold are never taken for a smaller payment.
pub proof fn lemma_payment_succeeds_exactly<T: ProvenanceUtil>(
    util: &T,
    deps: DepsView,
    info: MessageInfoView,
    payable_uuid: Seq<char>,
)
    ensures
        make_payment_outcome(util, deps, info, payable_uuid) is Ok <==> {
            &&& payable_attribute_by_uuid(deps, payable_uuid) matches Ok(attribute)
            &&& step(attribute, Step::Pay { amount: total_amount(info.funds) }) is Some
            &&& forall|i: int|
                0 <= i < info.funds.len() ==> (#[trigger] info.funds[i]).denom
                    == attribute.payable_denom
            &&& util.scope_by_id(deps, attribute.scope_id) is Ok
            &&& deps.config matches Ok(state)
            &&& util.upsert_attribute(
                paid_down(attribute, total_amount(info.funds)),
                state.contract_name,
            ) is Ok
        },
        total_amount(info.funds) > u128::MAX ==> make_payment_outcome(
            util,
            deps,
            info,
            payable_uuid,
        ) is Err,
{
    if payable_attribute_by_uuid(deps, payable_uuid) is Ok {
        lemma_invalid_denoms_exact(info.funds, found_payable(deps, payable_uuid).payable_denom);
    }
}

/// A payment that the payable's life does not admit is refused: the call fails.
pub proof fn lemma_refused_payment_fails<T: ProvenanceUtil>(
    util: &T,
    deps: DepsView,
    info: MessageInfoView,
    payable_uuid: Seq<char>,
)
    requires
        payable_attribute_by_uuid(deps, payable_uuid) matches Ok(attribute) ==> step(
            attribute,
            Step::Pay { amount: total_amount(info.funds) },
        ) is None,
    ensures
        make_payment_outcome(util, deps, info, payable_uuid) is Err,
{
}

/// A payable of which nothing is owed any more takes no further payment: whatever the
/// funds, the call fails, for want of funds or for too large a payment, unless it fails
/// for the funds' denominations before.
pub proof fn lemma_paid_off_is_terminal<T: ProvenanceUtil>(
    util: &T,
    deps: DepsView,
    info: MessageInfoView,
    payable_uuid: Seq<char>,
)
    requires
        payable_attribute_by_uuid(deps, payable_uuid) matches Ok(attribute)
            && attribute.oracle_approved
            && attribute.payable_remaining_owed == 0,
    ensures
        make_payment_outcome(util, deps, info, payable_uuid) matches Err(e) && (e
            is InvalidFundsProvided || e is NoFundsProvided || e is PaymentTooLarge),
{
}

/// An approval that succeeds is a step of the payable's life, and the record that
/// replaces the old one on the scope is the old one, approved.
pub proof fn lemma_approval_is_a_step<T: ProvenanceUtil>(
    util: &T,
    deps: DepsView,
    info: MessageInfoView,
    payable_uuid: Seq<char>,
)
    requires
        oracle_approval_outcome(util, deps, info, payable_uuid) is Ok,
    ensures
        payable_attribute_by_uuid(deps, payable_uuid) is Ok,
        deps.config is Ok,
        step(found_payable(deps, payable_uuid), Step::Approve) == Some(
            approved(found_payable(deps, payable_uuid)),
        ),
        info.sender == found_payable(deps, payable_uuid).oracle_address,
        util.upsert_attribute(
            approved(found_payable(deps, payable_uuid)),
            deps.config->Ok_0.contract_name,
        ) is Ok,
{
}

/// Approval exactly once: an approval of a payable that is already approved always
/// fails, so that no second payout is ever made; where the call brings no funds, it
/// fails as a duplicate approval.
pub proof fn lemma_second_approval_fails<T: ProvenanceUtil>(
    util: &T,
    deps: DepsView,
    info: MessageInfoView,
    payable_uuid: Seq<char>,
)
    requires
        payable_attribute_by_uuid(deps, payable_uuid) matches Ok(attribute)
            && attribute.oracle_approved,
    ensures
        oracle_approval_outcome(util, deps, info, payable_uuid) is Err,
        info.funds.len() == 0 ==> oracle_approval_outcome(util, deps, info, payable_uuid) == Err::<
            crate::ledger::ResponseView,
            ContractErrorView,
        >(ContractErrorView::DuplicateApproval { payable_uuid }),
{
}

/// Where the fee is the whole of the onboarding cost, an approval pays the oracle
/// nothing: the only messages are the two that replace the record.
pub proof fn lemma_whole_fee_leaves_no_payout<T: ProvenanceUtil>(
    util: &T,
    deps: DepsView,
    info: MessageInfoView,
    payable_uuid: Seq<char>,
)
    requires
        oracle_approval_outcome(util, deps, info, payable_uuid) is Ok,
        deps.config matches Ok(state) && state.fee_percent.atomics
            == crate::decimal::DECIMAL_FRACTIONAL,
    ensures
        oracle_payout(deps.config->Ok_0, found_payable(deps, payable_uuid).oracle_address).len()
            == 0,
        oracle_approval_outcome(util, deps, info, payable_uuid)->Ok_0.messages.len() == 2,
{
    let state = deps.config->Ok_0;
    assert(state.onboarding_cost * (crate::decimal::DECIMAL_FRACTIONAL as int) / (
    crate::decimal::DECIMAL_FRACTIONAL as int) == state.onboarding_cost) by (nonlinear_arith);
}

} // verus!
