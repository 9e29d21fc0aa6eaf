use crate::error::{ContractError, ContractErrorView, StdError, StdErrorView};
use crate::ledger::{Deps, DepsView};
use crate::state::{PayableScopeAttribute, PayableScopeAttributeView, StateV2, StateV2View};
use vstd::prelude::*;
use vstd::string::StringExecFns;

verus! {

/// What a query answers, before it is encoded for the caller.
#[derive(Debug, PartialEq, Eq)]
pub enum QueryAnswer {
    State(StateV2),
    Payable(PayableScopeAttribute),
}

pub enum QueryAnswerView {
    State(StateV2View),
    Payable(PayableScopeAttributeView),
}

impl View for QueryAnswer {
    type V = QueryAnswerView;

    open spec fn view(&self) -> QueryAnswerView {
        match self {
            QueryAnswer::State(s) => QueryAnswerView::State(s@),
            QueryAnswer::Payable(p) => QueryAnswerView::Payable(p@),
        }
    }
}

impl DeepView for QueryAnswer {
    type V = QueryAnswerView;

    open spec fn deep_view(&self) -> QueryAnswerView {
        self@
    }
}

/// The error that reports what was not read as not found.
pub open spec fn not_read(kind: Seq<char>) -> ContractErrorView {
    ContractErrorView::Std(StdErrorView::NotFound { kind })
}

/// The scope to which the store links the payable `payable_uuid`, or the store's
/// error. The link of a payable other than the one that was looked up is not found.
pub open spec fn scope_id_for_payable_uuid(deps: DepsView, payable_uuid: Seq<char>) -> Result<
    Seq<char>,
    ContractErrorView,
> {
    if deps.payable_uuid != payable_uuid {
        Err(not_read("PayableMetaV2"@))
    } else {
        match deps.payable_meta {
            Ok(meta) => Ok(meta.scope_id),
            Err(e) => Err(ContractErrorView::Std(e)),
        }
    }
}

/// The record that the scope `scope_id` carries. The configuration and the scope's
/// attributes must both have been read; the scope must then carry exactly one attribute
/// under the contract's name, which is the record. The records of a scope other than
/// the one that was looked up are not found.
pub open spec fn payable_attribute_by_scope_id(deps: DepsView, scope_id: Seq<char>) -> Result<
    PayableScopeAttributeView,
    ContractErrorView,
> {
    match deps.config {
        Err(e) => Err(ContractErrorView::Std(e)),
        Ok(_) => if deps.scope_id != scope_id {
            Err(not_read("PayableScopeAttribute"@))
        } else {
            match deps.attributes {
                Err(e) => Err(ContractErrorView::Std(e)),
                Ok(attributes) => if attributes.len() != 1 {
                    Err(
                        ContractErrorView::InvalidScopeAttribute {
                            scope_id,
                            attribute_amount: attributes.len() as usize,
                        },
                    )
                } else {
                    Ok(attributes[0])
                },
            }
        },
    }
}

/// The record of the payable `payable_uuid`: the store's link gives the scope, the
/// scope gives the record.
pub open spec fn payable_attribute_by_uuid(deps: DepsView, payable_uuid: Seq<char>) -> Result<
    PayableScopeAttributeView,
    ContractErrorView,
> {
    match scope_id_for_payable_uuid(deps, payable_uuid) {
        Err(e) => Err(e),
        Ok(scope_id) => payable_attribute_by_scope_id(deps, scope_id),
    }
}

/// The record of the payable `payable_uuid`, where it is found.
pub open spec fn found_payable(deps: DepsView, payable_uuid: Seq<char>) -> PayableScopeAttributeView
    recommends
        payable_attribute_by_uuid(deps, payable_uuid) is Ok,
{
    payable_attribute_by_uuid(deps, payable_uuid)->Ok_0
}

/// The view of a looked-up record or of the error in its place.
pub open spec fn attribute_result_view(r: Result<PayableScopeAttribute, ContractError>) -> Result<
    PayableScopeAttributeView,
    ContractErrorView,
> {
    match r {
        Ok(a) => Ok(a@),
        Err(e) => Err(e@),
    }
}

/// The view of a query's answer or of the error in its place.
pub open spec fn answer_result_view(r: Result<QueryAnswer, ContractError>) -> Result<
    QueryAnswerView,
    ContractErrorView,
> {
    match r {
        Ok(a) => Ok(a@),
        Err(e) => Err(e@),
    }
}

/// Looks up the scope to which the store links the payable's uuid.
pub fn get_scope_id_for_payable_uuid(deps: &Deps, payable_uuid: &str) -> (r: Result<
    String,
    ContractError,
>)
    ensures
        match r {
            Ok(scope_id) => scope_id_for_payable_uuid(deps@, payable_uuid@) == Ok::<
                Seq<char>,
                ContractErrorView,
            >(scope_id@),
            Err(e) => scope_id_for_payable_uuid(deps@, payable_uuid@) == Err::<
                Seq<char>,
                ContractErrorView,
            >(e@),
        },
{
    if deps.payable_uuid != String::from_str(payable_uuid) {
        return Err(ContractError::Std(StdError::not_found("PayableMetaV2")));
    }
    match &deps.payable_meta {
        Ok(meta) => Ok(meta.scope_id.clone()),
        Err(e) => Err(ContractError::Std(e.clone())),
    }
}

/// Finds the record of a payable on the scope that carries it.
pub fn query_payable_attribute_by_scope_id(deps: &Deps, scope_id: &str) -> (r: Result<
    PayableScopeAttribute,
    ContractError,
>)
    ensures
        attribute_result_view(r) == payable_attribute_by_scope_id(deps@, scope_id@),
{
    match &deps.config {
        Err(e) => Err(ContractError::Std(e.clone())),
        Ok(_) => {
            if deps.scope_id != String::from_str(scope_id) {
                return Err(ContractError::Std(StdError::not_found("PayableScopeAttribute")));
            }
            match &deps.attributes {
                Err(e) => Err(ContractError::Std(e.clone())),
                Ok(attributes) => {
                    if attributes.len() != 1 {
                        Err(
                            ContractError::InvalidScopeAttribute {
                                scope_id: String::from_str(scope_id),
                                attribute_amount: attributes.len(),
                            },
                        )
                    } else {
                        Ok(attributes[0].clone())
                    }
                },
            }
        },
    }
}

/// Finds the record of a payable by the payable's uuid.
pub fn query_payable_attribute_by_uuid(deps: &Deps, payable_uuid: &str) -> (r: Result<
    PayableScopeAttribute,
    ContractError,
>)
    ensures
        attribute_result_view(r) == payable_attribute_by_uuid(deps@, payable_uuid@),
{
    match get_scope_id_for_payable_uuid(deps, payable_uuid) {
        Err(e) => Err(e),
        Ok(scope_id) => query_payable_attribute_by_scope_id(deps, scope_id.as_str()),
    }
}

/// Answers a query for a payable by its scope.
pub fn query_payable_binary_by_scope_id(deps: &Deps, scope_id: &str) -> (r: Result<
    QueryAnswer,
    ContractError,
>)
    ensures
        answer_result_view(r) == match payable_attribute_by_scope_id(deps@, scope_id@) {
            Ok(a) => Ok(QueryAnswerView::Payable(a)),
            Err(e) => Err(e),
        },
{
    match query_payable_attribute_by_scope_id(deps, scope_id) {
        Ok(attribute) => Ok(QueryAnswer::Payable(attribute)),
        Err(e) => Err(e),
    }
}

/// Answers a query for a payable by its uuid.
pub fn query_payable_binary_by_uuid(deps: &Deps, payable_uuid: &str) -> (r: Result<
    QueryAnswer,
    ContractError,
>)
    ensures
        answer_result_view(r) == match payable_attribute_by_uuid(deps@, payable_uuid@) {
            Ok(a) => Ok(QueryAnswerView::Payable(a)),
            Err(e) => Err(e),
        },
{
    match query_payable_attribute_by_uuid(deps, payable_uuid) {
        Ok(attribute) => Ok(QueryAnswer::Payable(attribute)),
        Err(e) => Err(e),
    }
}

/// Answers a query for the contract's configuration.
pub fn query_state(deps: &Deps) -> (r: Result<QueryAnswer, ContractError>)
    ensures
        answer_result_view(r) == match deps@.config {
            Ok(s) => Ok(QueryAnswerView::State(s)),
            Err(e) => Err(ContractErrorView::Std(e)),
        },
{
    match &deps.config {
        Ok(state) => Ok(QueryAnswer::State(state.clone())),
        Err(e) => Err(ContractError::Std(e.clone())),
    }
}

} // verus!
