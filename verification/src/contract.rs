use crate::error::{ContractError, ContractErrorView, StdError, StdErrorView};
use crate::init_contract::{deps_after_init, init_contract, init_contract_outcome, Env};
use crate::ledger::{
    result_view, Deps, DepsView, MessageInfo, MessageInfoView, Response, ResponseView,
};
use crate::make_payment::{make_payment, make_payment_outcome, response_result_view};
use crate::migrate_contract::{deps_after_migration, migrate_contract, migrate_contract_outcome};
use crate::msg::{
    checked_view, to_migrate_contract_v2_spec, validation, ExecuteMsg, ExecuteMsgView, InitMsg,
    MigrateMsg, QueryMsg, QueryMsgView, ValidatedMsg,
};
use crate::oracle_approval::{
    approval_can_pay, check_approval, oracle_approval, oracle_approval_outcome, OracleApprovalV1,
};
use crate::provenance_util::ProvenanceUtilImpl;
use crate::query::{
    answer_result_view, payable_attribute_by_scope_id, payable_attribute_by_uuid,
    query_payable_binary_by_scope_id, query_payable_binary_by_uuid, query_state, QueryAnswer,
    QueryAnswerView,
};
use crate::register_payable::{
    check_fee_funds, deps_after_registration, fee_can_be_charged, register_payable,
    register_payable_outcome,
};
use vstd::prelude::*;

verus! {

/// What the command to set up an instance comes to: the message is checked, then
/// carried out.
pub open spec fn instantiate_outcome(
    contract_address: Seq<char>,
    checked_fee_address: Result<Seq<char>, StdErrorView>,
    info: MessageInfoView,
    msg: InitMsg,
) -> Result<ResponseView, ContractErrorView> {
    match validation(msg.invalid_fields()) {
        Err(e) => Err(e),
        Ok(_) => init_contract_outcome(contract_address, checked_fee_address, info, msg@),
    }
}

/// Sets up an instance of the contract.
pub fn instantiate(
    deps: &mut Deps,
    env: Env,
    checked_fee_address: Result<String, StdError>,
    info: MessageInfo,
    msg: InitMsg,
) -> (r: Result<Response, ContractError>)
    ensures
        response_result_view(r) == instantiate_outcome(
            env.contract_address@,
            result_view(checked_fee_address),
            info@,
            msg,
        ),
        final(deps)@ == deps_after_init(
            old(deps)@,
            result_view(checked_fee_address),
            msg@,
            response_result_view(r),
        ),
        r is Ok ==> (final(deps)@.config matches Ok(state) && state.well_formed()),
{
    match msg.validate() {
        Ok(_) => {},
        Err(e) => {
            return Err(e);
        },
    }
    init_contract(deps, env, checked_fee_address, info, msg)
}

/// What a query comes to: the message is checked, then answered.
pub open spec fn query_outcome(deps: DepsView, msg: QueryMsg) -> Result<
    QueryAnswerView,
    ContractErrorView,
> {
    match validation(msg.invalid_fields()) {
        Err(e) => Err(e),
        Ok(_) => match msg@ {
            QueryMsgView::QueryState => match deps.config {
                Ok(state) => Ok(QueryAnswerView::State(state)),
                Err(e) => Err(ContractErrorView::Std(e)),
            },
            QueryMsgView::QueryPayableByScopeId { scope_id } => match payable_attribute_by_scope_id(
                deps,
                scope_id,
            ) {
                Ok(attribute) => Ok(QueryAnswerView::Payable(attribute)),
                Err(e) => Err(e),
            },
            QueryMsgView::QueryPayableByUuid { payable_uuid } => match payable_attribute_by_uuid(
                deps,
                payable_uuid,
            ) {
                Ok(attribute) => Ok(QueryAnswerView::Payable(attribute)),
                Err(e) => Err(e),
            },
        },
    }
}

/// Answers a query.
pub fn query(deps: &Deps, msg: QueryMsg) -> (r: Result<QueryAnswer, ContractError>)
    ensures
        answer_result_view(r) == query_outcome(deps@, msg),
{
    match msg.validate() {
        Ok(_) => {},
        Err(e) => {
            return Err(e);
        },
    }
    match msg {
        QueryMsg::QueryState {  } => query_state(deps),
        QueryMsg::QueryPayableByScopeId { scope_id } => query_payable_binary_by_scope_id(
            deps,
            scope_id.as_str(),
        ),
        QueryMsg::QueryPayableByUuid { payable_uuid } => query_payable_binary_by_uuid(
            deps,
            payable_uuid.as_str(),
        ),
    }
}

/// What a command on a payable comes to: the message is checked, then carried out as
/// the operation that it names.
pub open spec fn execute_outcome(deps: DepsView, info: MessageInfoView, msg: ExecuteMsg) -> Result<
    ResponseView,
    ContractErrorView,
> {
    match validation(msg.invalid_fields()) {
        Err(e) => Err(e),
        Ok(_) => match msg@ {
            ExecuteMsgView::RegisterPayable(register) => register_payable_outcome(
                &ProvenanceUtilImpl,
                deps,
                info,
                register,
            ),
            ExecuteMsgView::OracleApproval { payable_uuid } => oracle_approval_outcome(
                &ProvenanceUtilImpl,
                deps,
                info,
                payable_uuid,
            ),
            ExecuteMsgView::MakePayment { payable_uuid } => make_payment_outcome(
                &ProvenanceUtilImpl,
                deps,
                info,
                payable_uuid,
            ),
        },
    }
}

/// What the store holds after a command on a payable with the given outcome: only a
/// registration that succeeds writes to it.
pub open spec fn deps_after_execute(
    deps: DepsView,
    msg: ExecuteMsg,
    outcome: Result<ResponseView, ContractErrorView>,
) -> DepsView {
    match msg@ {
        ExecuteMsgView::RegisterPayable(register) => deps_after_registration(
            deps,
            register,
            outcome,
        ),
        _ => deps,
    }
}

/// Whether a command can be carried out: the fee's share in the configuration is a
/// ratio wherever the command comes to splitting the onboarding cost by it. A command
/// that is refused before that, and any payment, can be carried out in any case.
pub open spec fn execute_admits(deps: DepsView, info: MessageInfoView, msg: ExecuteMsg) -> bool {
    validation(msg.invalid_fields()) is Ok ==> match msg@ {
        ExecuteMsgView::RegisterPayable(_) => deps.config matches Ok(state) ==> fee_can_be_charged(
            info,
            state,
        ),
        ExecuteMsgView::OracleApproval { payable_uuid } => approval_can_pay(
            deps,
            info,
            payable_uuid,
        ),
        ExecuteMsgView::MakePayment { .. } => true,
    }
}

/// Tells whether a command can be carried out.
pub fn can_execute(deps: &Deps, info: &MessageInfo, msg: &ExecuteMsg) -> (r: bool)
    ensures
        r == execute_admits(deps@, info@, *msg),
{
    if msg.validate().is_err() {
        return true;
    }
    let state = match &deps.config {
        Ok(state) => state,
        Err(_) => {
            return true;
        },
    };
    if !state.fee_percent.exceeds_one() {
        return true;
    }
    match msg {
        ExecuteMsg::RegisterPayable { .. } => check_fee_funds(info, state).is_err(),
        ExecuteMsg::OracleApproval { payable_uuid } => {
            let approval = OracleApprovalV1 { payable_uuid: payable_uuid.clone() };
            check_approval(deps, info, &approval).is_err()
        },
        ExecuteMsg::MakePayment { .. } => true,
    }
}

/// Carries out a command on a payable: a registration, an approval or a payment.
pub fn execute(deps: &mut Deps, info: MessageInfo, msg: ExecuteMsg) -> (r: Result<
    Response,
    ContractError,
>)
    requires
        execute_admits(old(deps)@, info@, msg),
    ensures
        response_result_view(r) == execute_outcome(old(deps)@, info@, msg),
        final(deps)@ == deps_after_execute(old(deps)@, msg, response_result_view(r)),
{
    match msg.validate() {
        Ok(_) => {},
        Err(e) => {
            return Err(e);
        },
    }
    match msg {
        ExecuteMsg::RegisterPayable { .. } => match msg.to_register_payable() {
            Ok(register) => register_payable(deps, info, register),
            Err(e) => Err(e),
        },
        ExecuteMsg::OracleApproval { .. } => match msg.to_oracle_approval() {
            Ok(approval) => oracle_approval(&*deps, info, approval),
            Err(e) => Err(e),
        },
        ExecuteMsg::MakePayment { .. } => match msg.to_make_payment() {
            Ok(payment) => make_payment(&*deps, info, payment),
            Err(e) => Err(e),
        },
    }
}

/// What a migration command comes to: the message is checked and read into the
/// changes it asks for, and those are carried out.
pub open spec fn migrate_outcome(
    deps: DepsView,
    checked_fee_address: Option<Result<Seq<char>, StdErrorView>>,
    msg: MigrateMsg,
) -> Result<ResponseView, ContractErrorView> {
    match validation(msg.invalid_fields()) {
        Err(e) => Err(e),
        Ok(_) => match to_migrate_contract_v2_spec(msg@, checked_fee_address) {
            Err(e) => Err(e),
            Ok(migrate) => migrate_contract_outcome(deps, migrate),
        },
    }
}

/// What the store holds after a migration command with the given outcome.
pub open spec fn deps_after_migrate(
    deps: DepsView,
    checked_fee_address: Option<Result<Seq<char>, StdErrorView>>,
    msg: MigrateMsg,
    outcome: Result<ResponseView, ContractErrorView>,
) -> DepsView {
    match to_migrate_contract_v2_spec(msg@, checked_fee_address) {
        Err(_) => deps,
        Ok(migrate) => deps_after_migration(deps, migrate, outcome),
    }
}

/// Migrates the contract to the running version.
pub fn migrate(
    deps: &mut Deps,
    checked_fee_address: Option<Result<String, StdError>>,
    msg: MigrateMsg,
) -> (r: Result<Response, ContractError>)
    ensures
        response_result_view(r) == migrate_outcome(
            old(deps)@,
            checked_view(checked_fee_address),
            msg,
        ),
        final(deps)@ == deps_after_migrate(
            old(deps)@,
            checked_view(checked_fee_address),
            msg,
            response_result_view(r),
        ),
        r is Ok && (old(deps)@.config matches Ok(state) && state.well_formed()) ==> (final(
            deps
        )@.config matches Ok(state) && state.well_formed()),
{
    match msg.validate() {
        Ok(_) => {},
        Err(e) => {
            return Err(e);
        },
    }
    let migrate_msg = match msg.to_migrate_contract_v2(checked_fee_address) {
        Ok(migrate) => migrate,
        Err(e) => {
            return Err(e);
        },
    };
    migrate_contract(deps, migrate_msg)
}

} // verus!
