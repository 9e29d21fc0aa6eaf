use crate::error::{ContractError, ContractErrorView, StdError, StdErrorView};
use crate::ledger::{
    result_view, AttributeView, Deps, DepsView, MessageInfo, MessageInfoView, Response,
    ResponseView,
};
use crate::make_payment::response_result_view;
use crate::msg::{InitMsg, InitMsgView};
use crate::provenance_util::{bind_name_msg, get_bind_name_msg};
use crate::state::{StateV2, StateV2View};
use crate::text::{parse_u128, parse_u128_spec};
use crate::version_info::{migrate_version_info, running_version_info};
use vstd::prelude::*;

verus! {

/// Where a call runs, as far as the contract reads it: the contract's own address.
#[derive(Debug, PartialEq, Eq)]
pub struct Env {
    pub contract_address: String,
}

/// The configuration that an instance starts with. The fee collector's address is the
/// one that the ledger's check of it gave.
pub open spec fn initial_state(msg: InitMsgView, fee_collection_address: Seq<char>) -> StateV2View
    recommends
        parse_u128_spec(msg.onboarding_cost) is Some,
{
    StateV2View {
        contract_name: msg.contract_name,
        onboarding_cost: parse_u128_spec(msg.onboarding_cost)->0,
        onboarding_denom: msg.onboarding_denom,
        fee_collection_address,
        fee_percent: msg.fee_percent,
        is_local: match msg.is_local {
            Some(is_local) => is_local,
            None => false,
        },
    }
}

/// What setting up an instance comes to. No funds may come with the call, and the
/// ledger must have found the fee collector's address valid. The contract then binds
/// its name, restricted, to its own address.
pub open spec fn init_contract_outcome(
    contract_address: Seq<char>,
    checked_fee_address: Result<Seq<char>, StdErrorView>,
    info: MessageInfoView,
    msg: InitMsgView,
) -> Result<ResponseView, ContractErrorView> {
    if info.funds.len() > 0 {
        Err(
            ContractErrorView::Std(
                StdErrorView::GenericErr {
                    msg: "purchase funds are not allowed to be sent during init"@,
                },
            ),
        )
    } else {
        match checked_fee_address {
            Err(e) => Err(ContractErrorView::Std(e)),
            Ok(_) => match bind_name_msg(msg.contract_name, contract_address) {
                Err(e) => Err(e),
                Ok(bind) => Ok(
                    ResponseView {
                        messages: seq![bind],
                        attributes: seq![AttributeView { key: "action"@, value: "init"@ }],
                    },
                ),
            },
        }
    }
}

/// What the store holds after setting up an instance with the given outcome: where
/// that succeeded, the configuration and the running contract's version info.
pub open spec fn deps_after_init(
    deps: DepsView,
    checked_fee_address: Result<Seq<char>, StdErrorView>,
    msg: InitMsgView,
    outcome: Result<ResponseView, ContractErrorView>,
) -> DepsView {
    if outcome is Ok && checked_fee_address is Ok {
        DepsView {
            config: Ok(initial_state(msg, checked_fee_address->Ok_0)),
            version_info: Ok(running_version_info()),
            ..deps
        }
    } else {
        deps
    }
}

/// Sets up an instance of the contract: stores its configuration and its version info,
/// and binds the contract's name to the contract's address, so that only the contract
/// can write attributes under the name.
pub fn init_contract(
    deps: &mut Deps,
    env: Env,
    checked_fee_address: Result<String, StdError>,
    info: MessageInfo,
    msg: InitMsg,
) -> (r: Result<Response, ContractError>)
    requires
        parse_u128_spec(msg@.onboarding_cost) is Some,
    ensures
        response_result_view(r) == init_contract_outcome(
            env.contract_address@,
            result_view(checked_fee_address),
            info@,
            msg@,
        ),
        final(deps)@ == deps_after_init(
            old(deps)@,
            result_view(checked_fee_address),
            msg@,
            response_result_view(r),
        ),
{
    if info.funds.len() > 0 {
        return ContractError::std_err("purchase funds are not allowed to be sent during init");
    }
    let onboarding_cost = match parse_u128(msg.onboarding_cost.as_str()) {
        Some(cost) => cost,
        None => 0,
    };
    let fee_collection_address = match checked_fee_address {
        Ok(address) => address,
        Err(e) => {
            return Err(ContractError::Std(e));
        },
    };
    let bind_name_msg = match get_bind_name_msg(
        msg.contract_name.as_str(),
        env.contract_address.as_str(),
    ) {
        Ok(bind) => bind,
        Err(e) => {
            return Err(e);
        },
    };
    deps.config = Ok(
        StateV2 {
            contract_name: msg.contract_name,
            onboarding_cost,
            onboarding_denom: msg.onboarding_denom,
            fee_collection_address,
            fee_percent: msg.fee_percent,
            is_local: match msg.is_local {
                Some(is_local) => is_local,
                None => false,
            },
        },
    );
    migrate_version_info(deps);
    Ok(Response::new().add_message(bind_name_msg).add_attribute("action", "init"))
}

} // verus!
