use crate::error::{ContractError, ContractErrorView};
use crate::text::{parse_u128, parse_u128_spec};
use vstd::prelude::*;
use vstd::string::StringExecFns;

verus! {

/// The number that `text` writes, or the error that reports `text` as no number.
pub open spec fn uint128_of(text: Seq<char>) -> Result<u128, ContractErrorView> {
    match parse_u128_spec(text) {
        Some(n) => Ok(n),
        None => Err(ContractErrorView::ParseInt(text)),
    }
}

/// The view of a number or of the error in its place.
pub open spec fn uint128_result_view(r: Result<u128, ContractError>) -> Result<
    u128,
    ContractErrorView,
> {
    match r {
        Ok(n) => Ok(n),
        Err(e) => Err(e@),
    }
}

/// Reads an amount written in base ten.
pub fn to_uint128(string: &str) -> (r: Result<u128, ContractError>)
    ensures
        uint128_result_view(r) == uint128_of(string@),
{
    match parse_u128(string) {
        Some(amount) => Ok(amount),
        None => Err(ContractError::ParseInt(String::from_str(string))),
    }
}

} // verus!
