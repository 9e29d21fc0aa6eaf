use payable_asset_smart_contract::constants::{
    MIGRATION_CONTRACT_NAME, MIGRATION_CONTRACT_VERSION, ORACLE_ADDRESS_KEY, ORACLE_APPROVED_KEY,
    ORACLE_FUNDS_KEPT, PAYABLE_REGISTERED_KEY, PAYABLE_TYPE_KEY, PAYABLE_UUID_KEY, PAYEE_KEY,
    PAYER_KEY, PAYMENT_AMOUNT_KEY, PAYMENT_MADE_KEY, REFUND_AMOUNT_KEY, REGISTERED_DENOM_KEY,
    SCOPE_ID_KEY, TOTAL_OWED_KEY, TOTAL_REMAINING_KEY,
};
use payable_asset_smart_contract::contract::{instantiate, query};
use payable_asset_smart_contract::error::{ContractError, StdError};
use payable_asset_smart_contract::init_contract::Env;
use payable_asset_smart_contract::ledger::{
    coin, Attribute, Coin, Deps, LedgerMsg, MessageInfo, Party, Response, Scope,
};
use payable_asset_smart_contract::make_payment::{make_payment_with_util, MakePaymentV1};
use payable_asset_smart_contract::migrate_contract::{
    migrate_contract, state_change_attr_name, state_change_attribute, MigrateContractV2,
};
use payable_asset_smart_contract::msg::{InitMsg, QueryMsg};
use payable_asset_smart_contract::oracle_approval::{oracle_approval_with_util, OracleApprovalV1};
use payable_asset_smart_contract::provenance_util::ProvenanceUtilImpl;
use payable_asset_smart_contract::query::{
    query_payable_attribute_by_scope_id, query_payable_attribute_by_uuid, QueryAnswer,
};
use payable_asset_smart_contract::register_payable::{
    register_payable_with_util, RegisterPayableV2,
};
use payable_asset_smart_contract::decimal::Decimal;
use payable_asset_smart_contract::state::{PayableMetaV2, PayableScopeAttribute, StateV2, VersionInfoV1};
use payable_asset_smart_contract::version_info::{CONTRACT_NAME, CONTRACT_VERSION};
use std::cell::RefCell;

const DEFAULT_INFO_NAME: &str = "admin";
const DEFAULT_PAYABLE_TYPE: &str = "invoice";
const DEFAULT_CONTRACT_NAME: &str = "payables.asset";
const DEFAULT_ONBOARDING_COST: &str = "100";
const DEFAULT_ONBOARDING_DENOM: &str = "nhash";
const DEFAULT_FEE_COLLECTION_ADDRESS: &str = "feebucket";
const DEFAULT_FEE_PERCENT: u64 = 75;
const DEFAULT_ORACLE_ADDRESS: &str = "matt";
const DEFAULT_PAYABLE_UUID: &str = "200425c6-83ab-11ec-a486-eb4f069082c5";
const DEFAULT_SCOPE_ID: &str = "scope1qpyq6g6j0tuprmyglw0hn2czfzsq6fcyl8";
const DEFAULT_PAYABLE_TOTAL: u128 = 1000;
const DEFAULT_PAYABLE_DENOM: &str = "nhash";
const MOCK_CONTRACT_ADDR: &str = "cosmos2contract";

fn mock_info(sender: &str, funds: &[Coin]) -> MessageInfo {
    MessageInfo {
        sender: sender.to_string(),
        funds: funds.iter().map(|c| c.clone()).collect(),
    }
}

fn mock_env() -> Env {
    Env {
        contract_address: MOCK_CONTRACT_ADDR.to_string(),
    }
}

fn not_found(kind: &str) -> StdError {
    StdError::NotFound {
        kind: kind.to_string(),
    }
}

/// A ledger held in memory: the contract's store, and the registries of scopes and of
/// the attributes written on them.
struct MockOwnedDeps {
    config: Option<StateV2>,
    version_info: Option<VersionInfoV1>,
    payable_metas: Vec<PayableMetaV2>,
    scopes: Vec<Scope>,
    attributes: Vec<(String, String, PayableScopeAttribute)>,
}

fn mock_dependencies() -> MockOwnedDeps {
    MockOwnedDeps {
        config: None,
        version_info: None,
        payable_metas: vec![],
        scopes: vec![],
        attributes: vec![],
    }
}

impl MockOwnedDeps {
    fn with_scope(&mut self, scope: Scope) {
        self.scopes.retain(|s| s.scope_id != scope.scope_id);
        self.scopes.push(scope);
    }

    fn with_attribute(&mut self, scope_id: &str, name: &str, attribute: &PayableScopeAttribute) {
        self.attributes
            .retain(|(scope, attr_name, _)| !(scope == scope_id && attr_name == name));
        self.attributes
            .push((scope_id.to_string(), name.to_string(), attribute.clone()));
    }

    fn scope_id_for(&self, payable_uuid: &str) -> Option<String> {
        self.payable_metas
            .iter()
            .find(|meta| meta.payable_uuid == payable_uuid)
            .map(|meta| meta.scope_id.clone())
    }

    /// What the ledger holds for a call that names the payable `payable_uuid`, if any,
    /// and concerns the scope `scope_id`, if any.
    fn read(&self, payable_uuid: Option<&str>, scope_id: Option<&str>) -> Deps {
        let payable_meta = match payable_uuid {
            Some(uuid) => self
                .payable_metas
                .iter()
                .find(|meta| meta.payable_uuid == uuid)
                .map(|meta| meta.clone())
                .ok_or(not_found("payable_asset::PayableMetaV2")),
            None => Err(not_found("payable_asset::PayableMetaV2")),
        };
        let contract_name = self
            .config
            .as_ref()
            .map(|state| state.contract_name.clone())
            .unwrap_or_default();
        let scope = match scope_id {
            Some(id) => self
                .scopes
                .iter()
                .find(|scope| scope.scope_id == id)
                .map(|scope| scope.clone())
                .ok_or(StdError::generic_err(&format!(
                    "Querier system error: Cannot parse request: metadata not found in: {}",
                    id
                ))),
            None => Err(StdError::generic_err("no scope was asked for")),
        };
        let attributes = match scope_id {
            Some(id) => Ok(self
                .attributes
                .iter()
                .filter(|(scope, name, _)| scope == id && name == &contract_name)
                .map(|(_, _, attribute)| attribute.clone())
                .collect()),
            None => Err(StdError::generic_err("no scope was asked for")),
        };
        Deps {
            payable_uuid: payable_uuid.unwrap_or_default().to_string(),
            scope_id: scope_id.unwrap_or_default().to_string(),
            config: self.config.as_ref().map(|s| s.clone()).ok_or(not_found("payable_asset::StateV2")),
            version_info: self
                .version_info
                .as_ref()
                .map(|v| v.clone())
                .ok_or(not_found("payable_asset::VersionInfoV1")),
            payable_meta,
            scope,
            attributes,
        }
    }

    /// What the ledger holds for a call that names a payable by its uuid.
    fn read_for_uuid(&self, payable_uuid: &str) -> Deps {
        let scope_id = self.scope_id_for(payable_uuid);
        self.read(Some(payable_uuid), scope_id.as_deref())
    }

    /// Takes over what a call wrote to the store.
    fn write(&mut self, deps: Deps) {
        if let Ok(state) = deps.config {
            self.config = Some(state);
        }
        if let Ok(version_info) = deps.version_info {
            self.version_info = Some(version_info);
        }
        if let Ok(meta) = deps.payable_meta {
            self.payable_metas
                .retain(|m| m.payable_uuid != meta.payable_uuid);
            self.payable_metas.push(meta);
        }
    }
}

struct MockProvenanceUtil {
    captured_attributes: RefCell<Vec<PayableScopeAttribute>>,
}

impl MockProvenanceUtil {
    fn new() -> MockProvenanceUtil {
        MockProvenanceUtil {
            captured_attributes: RefCell::new(vec![]),
        }
    }

    fn add_attribute(&self, attribute: PayableScopeAttribute) {
        self.captured_attributes.borrow_mut().push(attribute);
    }

    /// Keeps the record that a call handed to the ledger, if it handed one.
    fn capture(&self, response: &Result<Response, ContractError>) {
        if let Ok(response) = response {
            response.messages.iter().for_each(|msg| {
                if let LedgerMsg::AddJsonAttribute { value, .. } = msg {
                    self.add_attribute(value.clone());
                }
            });
        }
    }

    fn bind_captured_attribute(&self, deps: &mut MockOwnedDeps) {
        self.bind_captured_attribute_named(deps, DEFAULT_CONTRACT_NAME);
    }

    fn bind_captured_attribute_named(&self, deps: &mut MockOwnedDeps, contract_name: &str) {
        if let Some(attr) = self.captured_attributes.borrow().last() {
            deps.with_attribute(&attr.scope_id, contract_name, attr);
        }
    }

    fn assert_attribute_matches_latest(&self, attribute: &PayableScopeAttribute) {
        if let Some(attr) = self.captured_attributes.borrow().last() {
            assert_eq!(
                attribute, attr,
                "the latest attribute captured via MockProvenanceUtil is not equivalent to the checked value",
            );
        } else {
            panic!("no attributes have ever been captured by MockProvenanceUtil");
        }
    }
}

struct InstArgs {
    env: Env,
    info: MessageInfo,
    contract_name: String,
    onboarding_cost: String,
    onboarding_denom: String,
    fee_collection_address: String,
    fee_percent: Decimal,
    is_local: bool,
}

impl Default for InstArgs {
    fn default() -> Self {
        InstArgs {
            env: mock_env(),
            info: mock_info(DEFAULT_INFO_NAME, &[]),
            contract_name: DEFAULT_CONTRACT_NAME.into(),
            onboarding_cost: DEFAULT_ONBOARDING_COST.into(),
            onboarding_denom: DEFAULT_ONBOARDING_DENOM.into(),
            fee_collection_address: DEFAULT_FEE_COLLECTION_ADDRESS.into(),
            fee_percent: Decimal::percent(DEFAULT_FEE_PERCENT),
            is_local: false,
        }
    }
}

fn test_instantiate(deps: &mut MockOwnedDeps, args: InstArgs) -> Result<Response, ContractError> {
    let mut held = deps.read(None, None);
    let checked_fee_address = Ok(args.fee_collection_address.clone());
    let response = instantiate(
        &mut held,
        args.env,
        checked_fee_address,
        args.info,
        InitMsg {
            contract_name: args.contract_name,
            onboarding_cost: args.onboarding_cost,
            onboarding_denom: args.onboarding_denom,
            fee_collection_address: args.fee_collection_address,
            fee_percent: args.fee_percent,
            is_local: Some(args.is_local),
        },
    );
    if response.is_ok() {
        deps.write(held);
    }
    response
}

fn get_duped_scope(scope_id: &str, owner_address: &str) -> Scope {
    Scope {
        scope_id: scope_id.into(),
        owners: vec![Party {
            address: owner_address.into(),
        }],
        value_owner_address: owner_address.into(),
    }
}

fn setup_test_suite(deps: &mut MockOwnedDeps, args: InstArgs) -> MockProvenanceUtil {
    test_instantiate(deps, args).expect("instantiation should succeed");
    deps.with_scope(get_duped_scope(DEFAULT_SCOPE_ID, DEFAULT_INFO_NAME));
    MockProvenanceUtil::new()
}

fn single_attribute_for_key<'a>(response: &'a Response, key: &'a str) -> &'a str {
    let matching: Vec<&Attribute> = response
        .attributes
        .iter()
        .filter(|attr| attr.key == key)
        .collect();
    assert_eq!(1, matching.len(), "expected exactly one attribute for key {}", key);
    matching[0].value.as_str()
}

struct TestRegisterPayable {
    info: MessageInfo,
    contract_name: String,
    register_payable: RegisterPayableV2,
}

impl TestRegisterPayable {
    fn default_register_payable() -> RegisterPayableV2 {
        RegisterPayableV2 {
            payable_type: DEFAULT_PAYABLE_TYPE.to_string(),
            payable_uuid: DEFAULT_PAYABLE_UUID.to_string(),
            scope_id: DEFAULT_SCOPE_ID.to_string(),
            oracle_address: DEFAULT_ORACLE_ADDRESS.to_string(),
            payable_denom: DEFAULT_PAYABLE_DENOM.to_string(),
            payable_total: DEFAULT_PAYABLE_TOTAL,
        }
    }

    fn default_full_sender(sender: &str, amount: u128, denom: &str) -> Self {
        TestRegisterPayable {
            info: mock_info(sender, &[coin(amount, denom)]),
            ..Default::default()
        }
    }

    fn default_with_amount(amount: u128) -> Self {
        Self::default_full_sender(DEFAULT_INFO_NAME, amount, DEFAULT_ONBOARDING_DENOM)
    }

    fn default_with_denom(denom: &str) -> Self {
        Self::default_full_sender(DEFAULT_INFO_NAME, 100, denom)
    }
}

impl Default for TestRegisterPayable {
    fn default() -> Self {
        TestRegisterPayable {
            info: mock_info(DEFAULT_INFO_NAME, &[coin(100, DEFAULT_ONBOARDING_DENOM)]),
            contract_name: DEFAULT_CONTRACT_NAME.to_string(),
            register_payable: TestRegisterPayable::default_register_payable(),
        }
    }
}

fn test_register_payable(
    deps: &mut MockOwnedDeps,
    provenance_util: &MockProvenanceUtil,
    msg: TestRegisterPayable,
) -> Result<Response, ContractError> {
    let mut held = deps.read(
        Some(&msg.register_payable.payable_uuid),
        Some(&msg.register_payable.scope_id),
    );
    let response = register_payable_with_util(
        &mut held,
        &ProvenanceUtilImpl,
        msg.info,
        msg.register_payable,
    );
    provenance_util.capture(&response);
    if response.is_ok() {
        deps.write(held);
    }
    provenance_util.bind_captured_attribute_named(deps, &msg.contract_name);
    response
}

struct TestOracleApproval {
    info: MessageInfo,
    contract_name: String,
    oracle_approval: OracleApprovalV1,
}

impl TestOracleApproval {
    fn default_oracle_approval() -> OracleApprovalV1 {
        OracleApprovalV1 {
            payable_uuid: DEFAULT_PAYABLE_UUID.to_string(),
        }
    }
}

impl Default for TestOracleApproval {
    fn default() -> Self {
        TestOracleApproval {
            info: mock_info(DEFAULT_ORACLE_ADDRESS, &[]),
            contract_name: DEFAULT_CONTRACT_NAME.to_string(),
            oracle_approval: TestOracleApproval::default_oracle_approval(),
        }
    }
}

fn test_oracle_approval(
    deps: &mut MockOwnedDeps,
    provenance_util: &MockProvenanceUtil,
    msg: TestOracleApproval,
) -> Result<Response, ContractError> {
    let held = deps.read_for_uuid(&msg.oracle_approval.payable_uuid);
    let response =
        oracle_approval_with_util(&held, &ProvenanceUtilImpl, msg.info, msg.oracle_approval);
    provenance_util.capture(&response);
    provenance_util.bind_captured_attribute_named(deps, &msg.contract_name);
    response
}

struct TestMakePayment {
    info: MessageInfo,
    contract_name: String,
    make_payment: MakePaymentV1,
}

impl TestMakePayment {
    fn default_make_payment() -> MakePaymentV1 {
        MakePaymentV1 {
            payable_uuid: DEFAULT_PAYABLE_UUID.to_string(),
        }
    }

    fn default_full_sender(sender: &str, amount: u128, denom: &str) -> Self {
        TestMakePayment {
            info: mock_info(sender, &[coin(amount, denom)]),
            ..Default::default()
        }
    }

    fn default_with_sender(sender: &str) -> Self {
        Self::default_full_sender(sender, DEFAULT_PAYABLE_TOTAL, DEFAULT_PAYABLE_DENOM)
    }

    fn default_with_amount(amount: u128) -> Self {
        Self::default_full_sender(DEFAULT_INFO_NAME, amount, DEFAULT_PAYABLE_DENOM)
    }

    fn default_with_denom(denom: &str) -> Self {
        Self::default_full_sender(DEFAULT_INFO_NAME, DEFAULT_PAYABLE_TOTAL, denom)
    }
}

impl Default for TestMakePayment {
    fn default() -> Self {
        TestMakePayment {
            info: mock_info(
                DEFAULT_INFO_NAME,
                &[coin(DEFAULT_PAYABLE_TOTAL, DEFAULT_PAYABLE_DENOM)],
            ),
            contract_name: DEFAULT_CONTRACT_NAME.to_string(),
            make_payment: TestMakePayment::default_make_payment(),
        }
    }
}

fn test_make_payment(
    deps: &mut MockOwnedDeps,
    provenance_util: &MockProvenanceUtil,
    msg: TestMakePayment,
) -> Result<Response, ContractError> {
    let held = deps.read_for_uuid(&msg.make_payment.payable_uuid);
    let response =
        make_payment_with_util(&held, &ProvenanceUtilImpl, msg.info, msg.make_payment);
    provenance_util.capture(&response);
    provenance_util.bind_captured_attribute_named(deps, &msg.contract_name);
    response
}

fn query_payable_by_uuid(deps: &MockOwnedDeps, payable_uuid: &str) -> PayableScopeAttribute {
    let answer = query(
        &deps.read_for_uuid(payable_uuid),
        QueryMsg::QueryPayableByUuid {
            payable_uuid: payable_uuid.to_string(),
        },
    )
    .unwrap();
    match answer {
        QueryAnswer::Payable(attribute) => attribute,
        _ => panic!("unexpected answer to a query for a payable"),
    }
}

fn get_version_info(deps: &MockOwnedDeps) -> VersionInfoV1 {
    deps.version_info
        .as_ref()
        .map(|v| v.clone())
        .expect("version info should be stored")
}

fn set_version_info(deps: &mut MockOwnedDeps, version_info: &VersionInfoV1) {
    deps.version_info = Some(version_info.clone());
}

fn test_migrate_contract(
    deps: &mut MockOwnedDeps,
    migrate: MigrateContractV2,
) -> Result<Response, ContractError> {
    let mut held = deps.read(None, None);
    let before = deps.read(None, None);
    let response = migrate_contract(&mut held, migrate);
    if response.is_ok() {
        deps.write(held);
    } else {
        assert_eq!(before, held, "a migration that fails should change nothing");
    }
    response
}

fn assert_attribute_swap(
    msg: &LedgerMsg,
    provenance_util: &MockProvenanceUtil,
) {
    match msg {
        LedgerMsg::AddJsonAttribute {
            address,
            name,
            value,
        } => {
            assert_eq!(
                DEFAULT_SCOPE_ID, address,
                "the attribute should be added to the scope",
            );
            assert_eq!(
                DEFAULT_CONTRACT_NAME, name,
                "the contract name should be the name of the added attribute",
            );
            provenance_util.assert_attribute_matches_latest(value);
        }
        LedgerMsg::DeleteAttribute { address, name } => {
            assert_eq!(
                DEFAULT_SCOPE_ID,
                address.as_str(),
                "the delete attribute should target the scope",
            );
            assert_eq!(
                DEFAULT_CONTRACT_NAME, name,
                "the delete attribute should target the contract's name",
            );
        }
        _ => panic!("unexpected custom message encountered"),
    }
}

#[test]
fn test_register_valid_no_refund() {
    let mut deps = mock_dependencies();
    let provenance_util = setup_test_suite(&mut deps, InstArgs::default());
    // The default message will register a payable with the exact amount required for no refund
    let response =
        test_register_payable(&mut deps, &provenance_util, TestRegisterPayable::default())
            .unwrap();
    assert_eq!(
        8,
        response.attributes.len(),
        "expected all registration attributes to be recorded"
    );
    assert_eq!(
        DEFAULT_PAYABLE_UUID,
        single_attribute_for_key(&response, PAYABLE_REGISTERED_KEY),
        "the PAYABLE_REGISTERED_KEY should be present and equal to the payable uuid",
    );
    assert_eq!(
        DEFAULT_PAYABLE_TYPE,
        single_attribute_for_key(&response, PAYABLE_TYPE_KEY),
        "the PAYABLE_TYPE_KEY should contain the contract's payable type",
    );
    assert_eq!(
        DEFAULT_PAYABLE_UUID,
        single_attribute_for_key(&response, PAYABLE_UUID_KEY),
        "the PAYABLE_UUID_KEY value should equate to the payable uuid",
    );
    assert_eq!(
        DEFAULT_ORACLE_ADDRESS,
        single_attribute_for_key(&response, ORACLE_ADDRESS_KEY),
        "the ORACLE_ADDRESS_KEY value should equate to the oracle's address",
    );
    assert_eq!(
        DEFAULT_SCOPE_ID,
        single_attribute_for_key(&response, SCOPE_ID_KEY),
        "the SCOPE_ID_KEY should equate to the input scope id",
    );
    assert_eq!(
        DEFAULT_PAYABLE_TOTAL.to_string(),
        single_attribute_for_key(&response, TOTAL_OWED_KEY),
        "the TOTAL_OWED_KEY value should equate to the default total owed amount",
    );
    assert_eq!(
        DEFAULT_PAYABLE_DENOM,
        single_attribute_for_key(&response, REGISTERED_DENOM_KEY),
        "the REGISTERED_DENOM_KEY value should equate to the denomination used for the payable",
    );
    assert_eq!(
        "25/nhash",
        single_attribute_for_key(&response, ORACLE_FUNDS_KEPT),
        "the oracle funds kept should equal to total amount sent (100) - total amount sent * fee percent (75%)"
    );
    assert_eq!(
        2,
        response.messages.len(),
        "one message expected during registration: a fee charge",
    );
    response.messages.iter().for_each(|msg| match msg {
        LedgerMsg::Send { to_address, amount } => {
            assert_eq!(
                DEFAULT_FEE_COLLECTION_ADDRESS, to_address,
                "expected the fee send to go the default fee collection address"
            );
            assert_eq!(
                1,
                amount.len(),
                "expected only one coin to be added to the fee transfer"
            );
            let coin = amount.first().unwrap();
            assert_eq!(75, coin.amount, "expected the fee charged to be equal to 75, because the onboarding cost is 100 and the fee percent is 75%");
            assert_eq!(
                DEFAULT_ONBOARDING_DENOM,
                coin.denom.as_str(),
                "expected the fee's denomination to equate to the contract's specified denomination"
            );
        }
        LedgerMsg::AddJsonAttribute { name, value, .. } => {
            assert_eq!(
                DEFAULT_CONTRACT_NAME, name,
                "the contract name should be the name of the added attribute",
            );
            provenance_util.assert_attribute_matches_latest(value);
        }
        _ => panic!("unexpected response message type"),
    });
}

#[test]
fn test_register_valid_with_refund() {
    let mut deps = mock_dependencies();
    let provenance_util = setup_test_suite(&mut deps, InstArgs::default());
    let response = test_register_payable(
        &mut deps,
        &provenance_util,
        TestRegisterPayable::default_with_amount(150),
    )
    .unwrap();
    assert_eq!(
        9,
        response.attributes.len(),
        "expected all registration attributes to be recorded"
    );
    assert_eq!(
        DEFAULT_PAYABLE_UUID,
        single_attribute_for_key(&response, PAYABLE_REGISTERED_KEY),
        "the PAYABLE_REGISTERED_KEY should be present and equal to the payable uuid",
    );
    assert_eq!(
        DEFAULT_PAYABLE_TYPE,
        single_attribute_for_key(&response, PAYABLE_TYPE_KEY),
        "the PAYABLE_TYPE_KEY should contain the contract's payable type",
    );
    assert_eq!(
        DEFAULT_PAYABLE_UUID,
        single_attribute_for_key(&response, PAYABLE_UUID_KEY),
        "the PAYABLE_UUID_KEY value should equate to the payable uuid",
    );
    assert_eq!(
        DEFAULT_ORACLE_ADDRESS,
        single_attribute_for_key(&response, ORACLE_ADDRESS_KEY),
        "the ORACLE_ADDRESS_KEY value should equate to the oracle address",
    );
    assert_eq!(
        DEFAULT_SCOPE_ID,
        single_attribute_for_key(&response, SCOPE_ID_KEY),
        "the SCOPE_ID_KEY should equate to the input scope id",
    );
    assert_eq!(
        DEFAULT_PAYABLE_TOTAL.to_string(),
        single_attribute_for_key(&response, TOTAL_OWED_KEY),
        "the TOTAL_OWED_KEY value should equate to the default total owed amount",
    );
    assert_eq!(
        DEFAULT_PAYABLE_DENOM,
        single_attribute_for_key(&response, REGISTERED_DENOM_KEY),
        "the REGISTERED_DENOM_KEY value should equate to the denomination used for the payable",
    );
    assert_eq!(
        "25/nhash",
        single_attribute_for_key(&response, ORACLE_FUNDS_KEPT),
        "the oracle funds kept should equal to total amount sent (100) - total amount sent * fee percent (75%)"
    );
    assert_eq!(
        "50/nhash",
        single_attribute_for_key(&response, REFUND_AMOUNT_KEY),
        "the refund amount should equal the amount provided over the onboarding cost (150 - 100)",
    );
    assert_eq!(
        3,
        response.messages.len(),
        "two messages expected during registration: a fee charge and a fee refund",
    );
    response.messages.iter().for_each(|msg| match msg {
        LedgerMsg::Send { to_address, amount } => {
            assert_eq!(
                1,
                amount.len(),
                "expected only one coin to be added to the fee transfer"
            );
            let coin = amount.first().unwrap();
            match to_address.as_str() {
                DEFAULT_FEE_COLLECTION_ADDRESS => {
                    assert_eq!(75, coin.amount, "expected the fee charged to be equal to 75, because the onboarding cost is 100 and the fee percent is 75%");
                    assert_eq!(DEFAULT_ONBOARDING_DENOM, coin.denom.as_str(), "expected the fee's denomination to equate to the contract's specified denomination");
                }
                DEFAULT_INFO_NAME => {
                    assert_eq!(
                        50, coin.amount,
                        "expected the overage amount to be refunded to the sender"
                    );
                    assert_eq!(DEFAULT_ONBOARDING_DENOM, coin.denom.as_str(), "expected the refund's denomination to equate to the contract's specified denomination");
                }
                _ => panic!("unexpected address for bank message send"),
            }
        }
        LedgerMsg::AddJsonAttribute { name, value, .. } => {
            assert_eq!(
                DEFAULT_CONTRACT_NAME, name,
                "the contract name should be the name of the added attribute",
            );
            provenance_util.assert_attribute_matches_latest(value);
        }
        _ => panic!("unexpected response message type"),
    });
}

#[test]
fn test_register_without_a_fee_reports_what_is_kept() {
    let mut deps = mock_dependencies();
    let provenance_util = setup_test_suite(
        &mut deps,
        InstArgs {
            fee_percent: Decimal::zero(),
            ..Default::default()
        },
    );
    let response =
        test_register_payable(&mut deps, &provenance_util, TestRegisterPayable::default())
            .unwrap();
    assert_eq!(
        8,
        response.attributes.len(),
        "expected all registration attributes to be recorded"
    );
    assert_eq!(
        "100/nhash",
        single_attribute_for_key(&response, ORACLE_FUNDS_KEPT),
        "the whole of the onboarding cost should be reported as kept for the oracle",
    );
    assert_eq!(
        1,
        response.messages.len(),
        "no transfer is expected, only the message that writes the record",
    );
    match &response.messages[0] {
        LedgerMsg::AddJsonAttribute { name, value, .. } => {
            assert_eq!(DEFAULT_CONTRACT_NAME, name);
            provenance_util.assert_attribute_matches_latest(value);
        }
        _ => panic!("unexpected response message type"),
    }
}

#[test]
fn test_register_twice_on_one_scope() {
    let mut deps = mock_dependencies();
    let provenance_util = setup_test_suite(&mut deps, InstArgs::default());
    test_register_payable(&mut deps, &provenance_util, TestRegisterPayable::default()).unwrap();
    let mut second = TestRegisterPayable::default();
    second.register_payable.payable_uuid = "09798cd6-83ad-11ec-b485-eff659cf8387".to_string();
    let failure = test_register_payable(&mut deps, &provenance_util, second).unwrap_err();
    assert_eq!(
        ContractError::DuplicateRegistration {
            scope_id: DEFAULT_SCOPE_ID.to_string(),
        },
        failure,
        "a scope that carries a payable should take no other",
    );
    assert_eq!(
        1,
        deps.payable_metas.len(),
        "the second payable should not be linked"
    );
}

#[test]
fn test_register_invalid_fund_denom() {
    let mut deps = mock_dependencies();
    let provenance_util = setup_test_suite(&mut deps, InstArgs::default());
    let failure = test_register_payable(
        &mut deps,
        &provenance_util,
        TestRegisterPayable::default_with_denom("nothash"),
    )
    .unwrap_err();
    match failure {
        ContractError::InvalidFundsProvided {
            valid_denom,
            invalid_denoms,
        } => {
            assert_eq!(
                DEFAULT_ONBOARDING_DENOM, valid_denom,
                "expected the valid denomination returned to be the default value"
            );
            assert_eq!(
                1,
                invalid_denoms.len(),
                "expected the one invalid value to be returned"
            );
            let invalid_denom = invalid_denoms.first().unwrap();
            assert_eq!("nothash", invalid_denom.as_str(), "expected the invalid denomination returned to be a reflection of the bad input");
        }
        _ => panic!("unexpected contract error encountered"),
    };
}

#[test]
fn test_register_no_funds_provided_and_fee_charge_non_zero() {
    let mut deps = mock_dependencies();
    let provenance_util = setup_test_suite(&mut deps, InstArgs::default());
    let failure = test_register_payable(
        &mut deps,
        &provenance_util,
        TestRegisterPayable {
            info: mock_info(DEFAULT_INFO_NAME, &[]),
            ..Default::default()
        },
    )
    .unwrap_err();
    match failure {
        ContractError::NoFundsProvided { valid_denom } => {
            assert_eq!(
                DEFAULT_ONBOARDING_DENOM, valid_denom,
                "the error should reflect the desired fund type"
            );
        }
        _ => panic!("unexpected contract error encountered"),
    };
}

#[test]
fn test_register_insufficient_funds_provided() {
    let mut deps = mock_dependencies();
    let provenance_util = setup_test_suite(&mut deps, InstArgs::default());
    let failure = test_register_payable(
        &mut deps,
        &provenance_util,
        TestRegisterPayable::default_with_amount(99),
    )
    .unwrap_err();
    match failure {
        ContractError::InsufficientFundsProvided {
            amount_needed,
            amount_provided,
        } => {
            assert_eq!(
                100, amount_needed,
                "expected the amount needed to reflect the default value"
            );
            assert_eq!(99, amount_provided, "expected the amount provided to reflect the amount provided when the contract was executed");
        }
        _ => panic!("unexpected contract error encountered"),
    };
}

#[test]
fn test_register_scope_not_found() {
    let mut deps = mock_dependencies();
    // Skip registering a fake scope, causing the contract to fail to find one. Using test_instantiate
    // instead of setup_test_suite will skip mocking a targeted scope
    test_instantiate(&mut deps, InstArgs::default()).unwrap();
    let failure = test_register_payable(
        &mut deps,
        &MockProvenanceUtil::new(),
        TestRegisterPayable::default(),
    )
    .unwrap_err();
    match failure {
        ContractError::Std(StdError::GenericErr { msg, .. }) => {
            assert!(
                msg.contains("Querier system error: Cannot parse request: metadata not found in")
            )
        }
        _ => panic!("unexpected error received when the target scope was missing"),
    }
}

#[test]
fn test_register_invalid_sender() {
    let mut deps = mock_dependencies();
    test_instantiate(&mut deps, InstArgs::default()).unwrap();
    // Register a scope with a different owner than the sender to simulate the situation
    deps.with_scope(get_duped_scope(DEFAULT_SCOPE_ID, "another-guy"));
    let failure = test_register_payable(
        &mut deps,
        &MockProvenanceUtil::new(),
        TestRegisterPayable::default(),
    )
    .unwrap_err();
    assert!(
        matches!(failure, ContractError::Unauthorized),
        "the error should show that the sender is unauthorized to make this request"
    );
}

#[test]
fn test_execute_oracle_approval_success() {
    let mut deps = mock_dependencies();
    let provenance_util = setup_test_suite(&mut deps, InstArgs::default());
    test_register_payable(&mut deps, &provenance_util, TestRegisterPayable::default()).unwrap();
    let approval_response =
        test_oracle_approval(&mut deps, &provenance_util, TestOracleApproval::default()).unwrap();
    assert_eq!(
        4,
        approval_response.attributes.len(),
        "expected all attributes to be added"
    );
    assert_eq!(
        DEFAULT_PAYABLE_UUID,
        single_attribute_for_key(&approval_response, ORACLE_APPROVED_KEY),
        "expected the oracle approved key to be added as an attribute",
    );
    assert_eq!(
        DEFAULT_PAYABLE_TYPE,
        single_attribute_for_key(&approval_response, PAYABLE_TYPE_KEY),
        "expected the payable type key to be added as an attribute",
    );
    assert_eq!(
        DEFAULT_PAYABLE_UUID,
        single_attribute_for_key(&approval_response, PAYABLE_UUID_KEY),
        "expected the payable uuid key to be added as an attribute",
    );
    assert_eq!(
        DEFAULT_ORACLE_ADDRESS,
        single_attribute_for_key(&approval_response, ORACLE_ADDRESS_KEY),
        "expected the oracle address key to be added as an attribute",
    );
    assert_eq!(
        3,
        approval_response.messages.len(),
        "expected a message for the oracle fee withdrawal and the attribute swaps"
    );
    approval_response.messages.iter().for_each(|msg| match msg {
        LedgerMsg::Send { to_address, amount } => {
            assert_eq!(
                DEFAULT_ORACLE_ADDRESS,
                to_address.as_str(),
                "the bank transfer should be to the oracle",
            );
            assert_eq!(
                1,
                amount.len(),
                "only one coin should be included in the transfer"
            );
            let coin = amount.first().unwrap();
            assert_eq!(
                DEFAULT_ONBOARDING_DENOM, coin.denom,
                "the denomination for the oracle withdrawal should be the onboarding denom",
            );
            assert_eq!(
                25,
                coin.amount,
                "the oracle withdrawal amount should be 25, because the onboarding cost is 100 and the fee is 75%, leaving the remaining 25% for the oracle",
            );
        }
        other => assert_attribute_swap(other, &provenance_util),
    });
    let scope_attribute = query_payable_by_uuid(&deps, DEFAULT_PAYABLE_UUID);
    assert_eq!(
        true, scope_attribute.oracle_approved,
        "the payable should be marked as oracle approved after the function executes"
    );
}

#[test]
fn test_execute_oracle_approval_success_with_no_oracle_fee() {
    let mut deps = mock_dependencies();
    // Set the fee percent to 100%, ensuring that all funds are taken as a fee to the fee
    // collector, with none remaining for the oracle to withdraw
    let provenance_util = setup_test_suite(
        &mut deps,
        InstArgs {
            fee_percent: Decimal::percent(100),
            ..Default::default()
        },
    );
    test_register_payable(&mut deps, &provenance_util, TestRegisterPayable::default()).unwrap();
    let approval_response =
        test_oracle_approval(&mut deps, &provenance_util, TestOracleApproval::default()).unwrap();
    assert_eq!(
        4,
        approval_response.attributes.len(),
        "expected all attributes to be added"
    );
    assert_eq!(
        DEFAULT_PAYABLE_UUID,
        single_attribute_for_key(&approval_response, ORACLE_APPROVED_KEY),
        "expected the oracle approved key to be added as an attribute",
    );
    assert_eq!(
        DEFAULT_PAYABLE_TYPE,
        single_attribute_for_key(&approval_response, PAYABLE_TYPE_KEY),
        "expected the payable type key to be added as an attribute",
    );
    assert_eq!(
        DEFAULT_PAYABLE_UUID,
        single_attribute_for_key(&approval_response, PAYABLE_UUID_KEY),
        "expected the payable uuid key to be added as an attribute",
    );
    assert_eq!(
        DEFAULT_ORACLE_ADDRESS,
        single_attribute_for_key(&approval_response, ORACLE_ADDRESS_KEY),
        "expected the oracle address key to be added as an attribute",
    );
    assert_eq!(
        2,
        approval_response.messages.len(),
        "expected only attribute swap messages",
    );
    approval_response.messages.iter().for_each(|msg| match msg {
        LedgerMsg::Send { .. } => panic!("unexpected message occurred during oracle approval"),
        other => assert_attribute_swap(other, &provenance_util),
    });
    assert!(
        matches!(approval_response.messages[0], LedgerMsg::DeleteAttribute { .. }),
        "the deletion should come first",
    );
    assert!(
        matches!(approval_response.messages[1], LedgerMsg::AddJsonAttribute { .. }),
        "the addition should come second",
    );
    let scope_attribute = query_payable_by_uuid(&deps, DEFAULT_PAYABLE_UUID);
    assert_eq!(
        true, scope_attribute.oracle_approved,
        "the payable should be marked as oracle approved after the function executes"
    );
}

#[test]
fn test_execute_oracle_approval_fails_for_included_funds() {
    let mut deps = mock_dependencies();
    // Set the fee percent to 100%, ensuring that all funds are taken as a fee to the fee
    // collector, with none remaining for the oracle to withdraw
    let provenance_util = setup_test_suite(
        &mut deps,
        InstArgs {
            fee_percent: Decimal::percent(100),
            ..Default::default()
        },
    );
    test_register_payable(&mut deps, &provenance_util, TestRegisterPayable::default()).unwrap();
    let error = test_oracle_approval(
        &mut deps,
        &provenance_util,
        TestOracleApproval {
            info: mock_info(
                DEFAULT_ORACLE_ADDRESS,
                // Include some funds in the request.  Oracle approvals should not charge the
                // oracle
                &[coin(400, DEFAULT_ONBOARDING_DENOM)],
            ),
            ..Default::default()
        },
    )
    .unwrap_err();
    assert!(
        matches!(error, ContractError::FundsPresent),
        "The execution should be rejected because the oracle sent funds",
    );
}

#[test]
fn test_execute_oracle_approval_fails_for_invalid_sender_address() {
    let mut deps = mock_dependencies();
    let provenance_util = setup_test_suite(&mut deps, InstArgs::default());
    test_register_payable(&mut deps, &provenance_util, TestRegisterPayable::default()).unwrap();
    let error = test_oracle_approval(
        &mut deps,
        &provenance_util,
        // Try to call into the oracle approval as the fee collector.  Only the oracle is
        // allowed to make this call, so the execution should fail.
        TestOracleApproval {
            info: mock_info(DEFAULT_FEE_COLLECTION_ADDRESS, &[]),
            ..Default::default()
        },
    )
    .unwrap_err();
    assert!(
        matches!(error, ContractError::Unauthorized),
        "The execution should be rejected because the sender was not the oracle",
    );
}

#[test]
fn test_execute_oracle_approval_fails_for_duplicate_execution() {
    let mut deps = mock_dependencies();
    let provenance_util = setup_test_suite(&mut deps, InstArgs::default());
    test_register_payable(&mut deps, &provenance_util, TestRegisterPayable::default()).unwrap();
    // Execute once with good args, should be a success
    test_oracle_approval(&mut deps, &provenance_util, TestOracleApproval::default()).unwrap();
    // Execute a second time, should be rejected because the oracle stamp has already been added
    let error = test_oracle_approval(&mut deps, &provenance_util, TestOracleApproval::default())
        .unwrap_err();
    match error {
        ContractError::DuplicateApproval { payable_uuid } => {
            assert_eq!(
                DEFAULT_PAYABLE_UUID,
                payable_uuid.as_str(),
                "the error message should include the payable's uuid"
            );
        }
        _ => panic!("unexpected error occurred during execution"),
    };
}

#[test]
fn test_execute_oracle_approval_fails_for_wrong_target_payable() {
    let mut deps = mock_dependencies();
    let provenance_util = setup_test_suite(&mut deps, InstArgs::default());
    test_register_payable(&mut deps, &provenance_util, TestRegisterPayable::default()).unwrap();
    let error = test_oracle_approval(
        &mut deps,
        &provenance_util,
        TestOracleApproval {
            oracle_approval: OracleApprovalV1 {
                payable_uuid: "09798cd6-83ad-11ec-b485-eff659cf8387".to_string(),
            },
            ..Default::default()
        },
    )
    .unwrap_err();
    match error {
        ContractError::PayableNotFound { payable_uuid } => {
            assert_eq!(
                "09798cd6-83ad-11ec-b485-eff659cf8387",
                payable_uuid.as_str(),
                "the incorrect uuid should be included in the error message"
            );
        }
        _ => panic!("unexpected error occurred during execution"),
    }
}

fn assert_payment_messages(
    payment_response: &Response,
    provenance_util: &MockProvenanceUtil,
    expected_amount: u128,
) {
    assert_eq!(
        3,
        payment_response.messages.len(),
        "three messages should be added: the payment to the owner of the payable, a delete attributes message, and an add attribute message",
    );
    payment_response.messages.iter().for_each(|msg| match msg {
        LedgerMsg::Send { to_address, amount } => {
            assert_eq!(
                DEFAULT_INFO_NAME, to_address,
                "the payment should be sent to the original invoice creator"
            );
            assert_eq!(
                1,
                amount.len(),
                "only one coin should be sent in the payment"
            );
            let payment_coin = amount.first().unwrap();
            assert_eq!(
                expected_amount, payment_coin.amount,
                "the payment amount should be the amount that was sent"
            );
            assert_eq!(
                DEFAULT_PAYABLE_DENOM,
                payment_coin.denom.as_str(),
                "the denom of the payment should match the payable"
            );
        }
        other => assert_attribute_swap(other, provenance_util),
    });
}

#[test]
fn test_execute_make_payment_paid_in_full() {
    let mut deps = mock_dependencies();
    let provenance_util = setup_test_suite(&mut deps, InstArgs::default());
    // Register the default payable for payment
    test_register_payable(&mut deps, &provenance_util, TestRegisterPayable::default()).unwrap();
    // Mark the oracle as approved
    test_oracle_approval(&mut deps, &provenance_util, TestOracleApproval::default()).unwrap();
    provenance_util.bind_captured_attribute(&mut deps);
    let payment_response = test_make_payment(
        &mut deps,
        &provenance_util,
        TestMakePayment::default_with_sender("payer-guy"),
    )
    .unwrap();
    provenance_util.bind_captured_attribute(&mut deps);
    assert_eq!(
        8,
        payment_response.attributes.len(),
        "expected all attributes to be added to the response"
    );
    assert_eq!(
        DEFAULT_PAYABLE_UUID,
        single_attribute_for_key(&payment_response, PAYMENT_MADE_KEY),
        "expected the payment made key to be added to the response",
    );
    assert_eq!(
        DEFAULT_PAYABLE_TYPE,
        single_attribute_for_key(&payment_response, PAYABLE_TYPE_KEY),
        "expected the payable type key to be added to the response",
    );
    assert_eq!(
        DEFAULT_PAYABLE_UUID,
        single_attribute_for_key(&payment_response, PAYABLE_UUID_KEY),
        "expected the payable uuid key to be added to the response",
    );
    assert_eq!(
        DEFAULT_ORACLE_ADDRESS,
        single_attribute_for_key(&payment_response, ORACLE_ADDRESS_KEY),
        "expected the oracle address key to be added to the response",
    );
    assert_eq!(
        DEFAULT_PAYABLE_TOTAL.to_string(),
        single_attribute_for_key(&payment_response, PAYMENT_AMOUNT_KEY),
        "expected the payment amount key to be added to the response and equate to the total owed",
    );
    assert_eq!(
        "0",
        single_attribute_for_key(&payment_response, TOTAL_REMAINING_KEY),
        "expected the total remaining key to be added to the response and equate to zero because the payable was paid off",
    );
    assert_eq!(
        "payer-guy",
        single_attribute_for_key(&payment_response, PAYER_KEY),
        "expected the payer to be the value input as the sender",
    );
    assert_eq!(
        DEFAULT_INFO_NAME,
        single_attribute_for_key(&payment_response, PAYEE_KEY),
        "expected the payee to the be the default info name, as that was used to create the scope",
    );
    assert_payment_messages(&payment_response, &provenance_util, DEFAULT_PAYABLE_TOTAL);
    let scope_attribute = query_payable_by_uuid(&deps, DEFAULT_PAYABLE_UUID);
    assert_eq!(
        DEFAULT_PAYABLE_TOTAL, scope_attribute.payable_total_owed,
        "the total owed should remain unchanged by the payment"
    );
    assert_eq!(
        0u128, scope_attribute.payable_remaining_owed,
        "the remaining owed should be reduced to zero after the successful payment"
    );
}

#[test]
fn test_execute_make_payment_pay_less_than_all() {
    let mut deps = mock_dependencies();
    let provenance_util = setup_test_suite(&mut deps, InstArgs::default());
    // Register the default payable for payment
    test_register_payable(&mut deps, &provenance_util, TestRegisterPayable::default()).unwrap();
    // Mark the oracle as approved
    test_oracle_approval(&mut deps, &provenance_util, TestOracleApproval::default()).unwrap();
    let payment_response = test_make_payment(
        &mut deps,
        &provenance_util,
        TestMakePayment::default_full_sender(
            "payer-guy",
            DEFAULT_PAYABLE_TOTAL - 100,
            DEFAULT_PAYABLE_DENOM,
        ),
    )
    .unwrap();
    assert_eq!(
        8,
        payment_response.attributes.len(),
        "expected all attributes to be added to the response"
    );
    assert_eq!(
        DEFAULT_PAYABLE_UUID,
        single_attribute_for_key(&payment_response, PAYMENT_MADE_KEY),
        "expected the payment made key to be added to the response",
    );
    assert_eq!(
        DEFAULT_PAYABLE_TYPE,
        single_attribute_for_key(&payment_response, PAYABLE_TYPE_KEY),
        "expected the payable type key to be added to the response",
    );
    assert_eq!(
        DEFAULT_PAYABLE_UUID,
        single_attribute_for_key(&payment_response, PAYABLE_UUID_KEY),
        "expected the payable uuid key to be added to the response",
    );
    assert_eq!(
        DEFAULT_ORACLE_ADDRESS,
        single_attribute_for_key(&payment_response, ORACLE_ADDRESS_KEY),
        "expected the oracle address key to be added to the response",
    );
    assert_eq!(
        (DEFAULT_PAYABLE_TOTAL - 100).to_string(),
        single_attribute_for_key(&payment_response, PAYMENT_AMOUNT_KEY),
        "expected the payment amount key to be added to the response and equate to the total owed - 100",
    );
    assert_eq!(
        "100",
        single_attribute_for_key(&payment_response, TOTAL_REMAINING_KEY),
        "expected the total remaining key to be added to the response and equate to 100 because that was the amount unpaid",
    );
    assert_eq!(
        "payer-guy",
        single_attribute_for_key(&payment_response, PAYER_KEY),
        "expected the payer to be the value input as the sender",
    );
    assert_eq!(
        DEFAULT_INFO_NAME,
        single_attribute_for_key(&payment_response, PAYEE_KEY),
        "expected the payee to the be the default info name, as that was used to create the scope",
    );
    assert_payment_messages(
        &payment_response,
        &provenance_util,
        DEFAULT_PAYABLE_TOTAL - 100,
    );
    let scope_attribute = query_payable_by_uuid(&deps, DEFAULT_PAYABLE_UUID);
    assert_eq!(
        DEFAULT_PAYABLE_TOTAL, scope_attribute.payable_total_owed,
        "the total owed should remain unchanged by the payment"
    );
    assert_eq!(
        100u128, scope_attribute.payable_remaining_owed,
        "the remaining owed should be reduced to 100 after the successful payment"
    );
    // Pay subsequently to watch the values be reduced
    let second_response = test_make_payment(
        &mut deps,
        &provenance_util,
        TestMakePayment::default_full_sender("payer-guy", 100, DEFAULT_PAYABLE_DENOM),
    )
    .unwrap();
    assert_eq!(
        "100",
        single_attribute_for_key(&second_response, PAYMENT_AMOUNT_KEY),
        "the second payment should report the amount that it paid",
    );
    assert_eq!(
        "0",
        single_attribute_for_key(&second_response, TOTAL_REMAINING_KEY),
        "nothing should remain owed after the second payment",
    );
    let paid_scope_attribute = query_payable_by_uuid(&deps, DEFAULT_PAYABLE_UUID);
    assert_eq!(
        DEFAULT_PAYABLE_TOTAL, paid_scope_attribute.payable_total_owed,
        "the total owed should remain unchanged by the subsequent payment"
    );
    assert_eq!(
        0u128, paid_scope_attribute.payable_remaining_owed,
        "the remaining owed should now be reduced to zero after the subsequent payment"
    );
}

#[test]
fn test_execute_make_payment_missing_payable_uuid() {
    let mut deps = mock_dependencies();
    let provenance_util = setup_test_suite(&mut deps, InstArgs::default());
    // No need to do anything upfront because we're going to target a non-existent payable
    let failure =
        test_make_payment(&mut deps, &provenance_util, TestMakePayment::default()).unwrap_err();
    match failure {
        ContractError::PayableNotFound { payable_uuid } => {
            assert_eq!(
                DEFAULT_PAYABLE_UUID,
                payable_uuid.as_str(),
                "the output message should reflect the invalid input uuid"
            );
        }
        _ => panic!("unexpected error when invalid payable uuid provided"),
    };
}

#[test]
fn test_execute_make_payment_invalid_coin_provided() {
    let mut deps = mock_dependencies();
    let provenance_util = setup_test_suite(&mut deps, InstArgs::default());
    // Register the default payable
    test_register_payable(&mut deps, &provenance_util, TestRegisterPayable::default()).unwrap();
    // Mark the oracle as approved
    test_oracle_approval(&mut deps, &provenance_util, TestOracleApproval::default()).unwrap();
    // Wrong coin
    let failure = test_make_payment(
        &mut deps,
        &provenance_util,
        TestMakePayment::default_with_denom("fakecoin"),
    )
    .unwrap_err();
    match failure {
        ContractError::InvalidFundsProvided {
            valid_denom,
            invalid_denoms,
        } => {
            assert_eq!(
                DEFAULT_PAYABLE_DENOM,
                valid_denom.as_str(),
                "the default payable denom should be returned as the valid type"
            );
            assert_eq!(
                1,
                invalid_denoms.len(),
                "one invalid denomination was provided, and it should be returned"
            );
            let invalid_denom = invalid_denoms.first().unwrap();
            assert_eq!(
                "fakecoin",
                invalid_denom.as_str(),
                "the invalid denomination provided should be returned in the error"
            );
        }
        _ => panic!("unexpected error occurred when invalid coin was provided"),
    }
}

#[test]
fn test_execute_make_payment_no_funds_provided() {
    let mut deps = mock_dependencies();
    let provenance_util = setup_test_suite(&mut deps, InstArgs::default());
    // Register the default payable for payment
    test_register_payable(&mut deps, &provenance_util, TestRegisterPayable::default()).unwrap();
    // Mark the oracle as approved
    test_oracle_approval(&mut deps, &provenance_util, TestOracleApproval::default()).unwrap();
    let failure = test_make_payment(
        &mut deps,
        &provenance_util,
        TestMakePayment {
            info: mock_info("payer-guy", &[]),
            ..Default::default()
        },
    )
    .unwrap_err();
    match failure {
        ContractError::NoFundsProvided { valid_denom } => {
            assert_eq!(
                DEFAULT_PAYABLE_DENOM,
                valid_denom.as_str(),
                "the correct denomination should be reflected when no funds are provided"
            );
        }
        _ => panic!("unexpected error received when no funds provided"),
    };
}

#[test]
fn test_execute_make_payment_zero_coin_provided() {
    let mut deps = mock_dependencies();
    let provenance_util = setup_test_suite(&mut deps, InstArgs::default());
    // Register the default payable for payment
    test_register_payable(&mut deps, &provenance_util, TestRegisterPayable::default()).unwrap();
    // Mark the oracle as approved
    test_oracle_approval(&mut deps, &provenance_util, TestOracleApproval::default()).unwrap();
    let failure = test_make_payment(
        &mut deps,
        &provenance_util,
        TestMakePayment::default_with_amount(0),
    )
    .unwrap_err();
    match failure {
        ContractError::NoFundsProvided { valid_denom } => {
            assert_eq!(
                DEFAULT_PAYABLE_DENOM,
                valid_denom.as_str(),
                "the correct denomination should be reflected when no funds are provided"
            );
        }
        _ => panic!("unexpected error received when zero funds provided"),
    };
}

#[test]
fn test_execute_make_payment_too_many_funds_provided() {
    let mut deps = mock_dependencies();
    let provenance_util = setup_test_suite(&mut deps, InstArgs::default());
    // Register the default payable for payment
    test_register_payable(&mut deps, &provenance_util, TestRegisterPayable::default()).unwrap();
    // Mark the oracle as approved
    test_oracle_approval(&mut deps, &provenance_util, TestOracleApproval::default()).unwrap();
    let failure = test_make_payment(
        &mut deps,
        &provenance_util,
        TestMakePayment::default_with_amount(DEFAULT_PAYABLE_TOTAL + 1),
    )
    .unwrap_err();
    match failure {
        ContractError::PaymentTooLarge {
            total_owed,
            amount_provided,
        } => {
            assert_eq!(
                DEFAULT_PAYABLE_TOTAL, total_owed,
                "the actual total owed should be included in the error"
            );
            assert_eq!(
                DEFAULT_PAYABLE_TOTAL + 1,
                amount_provided,
                "the too-large amount provided should be included in the error"
            );
        }
        _ => panic!("unexpected error received when too many funds provided"),
    };
}

#[test]
fn test_valid_init() {
    // Create mocks
    let mut deps = mock_dependencies();

    // Create valid config state
    let res = test_instantiate(
        &mut deps,
        InstArgs {
            contract_name: "payables.asset".into(),
            onboarding_cost: "420".into(),
            onboarding_denom: "usdf".into(),
            fee_collection_address: "test-address".into(),
            fee_percent: Decimal::percent(50),
            ..Default::default()
        },
    )
    .unwrap();

    // Ensure a message was created to bind the name to the contract address.
    assert_eq!(res.messages.len(), 1);
    match &res.messages[0] {
        LedgerMsg::BindName {
            name,
            address,
            restrict,
        } => {
            assert_eq!(name, "payables.asset");
            assert_eq!(address, MOCK_CONTRACT_ADDR);
            assert!(restrict, "the name should be bound as a restricted name");
        }
        _ => panic!("unexpected cosmos message"),
    }
    assert_eq!(
        vec![Attribute::new("action", "init")],
        res.attributes,
        "the response should be tagged as an init",
    );
    let generated_state = deps.config.as_ref().unwrap();
    assert_eq!(
        "payables.asset",
        generated_state.contract_name.as_str(),
        "expected state to include the proper contract name",
    );
    assert_eq!(
        420, generated_state.onboarding_cost,
        "expected state to include the proper onboarding cost",
    );
    assert_eq!(
        "usdf",
        generated_state.onboarding_denom.as_str(),
        "expected state to include the proper onboarding denom",
    );
    assert_eq!(
        "test-address",
        generated_state.fee_collection_address.as_str(),
        "expected state to include the proper fee collection address",
    );
    assert_eq!(
        Decimal::percent(50),
        generated_state.fee_percent,
        "expected state to include the proper fee percent",
    );
    let version_info = get_version_info(&deps);
    assert_eq!(
        CONTRACT_NAME, version_info.contract,
        "the contract name should be properly stored after a successful instantiation",
    );
    assert_eq!(
        CONTRACT_VERSION, version_info.version,
        "the contract version should be properly stored after a succesful instantiation",
    );
}

#[test]
fn test_invalid_init_funds_provided() {
    let mut deps = mock_dependencies();
    let err = test_instantiate(
        &mut deps,
        InstArgs {
            info: mock_info("sender", &vec![coin(50, DEFAULT_ONBOARDING_DENOM)]),
            ..Default::default()
        },
    )
    .unwrap_err();
    match err {
        ContractError::Std(std_err) => match std_err {
            StdError::GenericErr { msg, .. } => {
                assert_eq!(
                    "purchase funds are not allowed to be sent during init", msg,
                    "unexpected error message during fund failure",
                )
            }
            _ => panic!("unexpected stderr encountered when funds provided"),
        },
        _ => panic!("unexpected error encountered when funds provided"),
    };
    assert!(deps.config.is_none(), "a failed init should store nothing");
}

#[test]
fn test_invalid_init_too_high_fee_percent() {
    let mut deps = mock_dependencies();
    let err = test_instantiate(
        &mut deps,
        InstArgs {
            fee_percent: Decimal::percent(101),
            ..Default::default()
        },
    )
    .unwrap_err();
    match err {
        ContractError::InvalidFields { fields } => {
            assert!(
                fields.contains(&"fee_percent".to_string()),
                "the fee percent field should be detected as invalid when too high a fee is provided",
            );
        }
        _ => panic!("unexpected error encountered when too high fee percent provided"),
    };
}

#[test]
fn test_state_change_attr_name() {
    assert_eq!(
        "payable_migration_state_field_test_field",
        state_change_attr_name("test_field").as_str(),
        "the field name should be populated correctly",
    );
}

#[test]
fn test_state_change_attribute() {
    let attribute = state_change_attribute("some_field", "120");
    assert_eq!(
        "payable_migration_state_field_some_field",
        attribute.key.as_str(),
        "the key should be formatted correctly",
    );
    assert_eq!(
        "120",
        attribute.value.as_str(),
        "the value should directly reflect the value passed into the function",
    );
}

#[test]
fn test_migrate_msg_has_state_changes() {
    let mut msg = MigrateContractV2::empty();
    assert!(
        !msg.has_state_changes(),
        "an empty migrate contract v1 should not have state changes",
    );
    msg.onboarding_cost = Some(100);
    assert!(
        msg.has_state_changes(),
        "onboarding cost including a value should cause state changes",
    );
    msg.onboarding_cost = None;
    msg.onboarding_denom = Some("nhash".to_string());
    assert!(
        msg.has_state_changes(),
        "onboarding denom including a value should cause state changes",
    );
    msg.onboarding_denom = None;
    msg.fee_collection_address = Some("address".to_string());
    assert!(
        msg.has_state_changes(),
        "fee collection address including a value should cause state changes",
    );
    msg.fee_collection_address = None;
    msg.fee_percent = Some(Decimal::percent(60));
    assert!(
        msg.has_state_changes(),
        "fee percent including a value should cause state changes",
    );
}

#[test]
fn test_successful_upgrade_migration() {
    let mut deps = mock_dependencies();
    set_version_info(
        &mut deps,
        &VersionInfoV1 {
            contract: CONTRACT_NAME.to_string(),
            version: "0.0.1".to_string(),
        },
    );
    let response = test_migrate_contract(&mut deps, MigrateContractV2::empty()).unwrap();
    assert!(
        response.messages.is_empty(),
        "no messages should be sent on migrate"
    );
    assert_eq!(
        2,
        response.attributes.len(),
        "both migration attributes should be added"
    );
    assert_eq!(
        CONTRACT_NAME,
        single_attribute_for_key(&response, MIGRATION_CONTRACT_NAME),
        "the contract name should be stored in the migration attribute output",
    );
    assert_eq!(
        CONTRACT_VERSION,
        single_attribute_for_key(&response, MIGRATION_CONTRACT_VERSION),
        "the contract version should be stored in the migration attribute output",
    );
    let version_info = get_version_info(&deps);
    assert_eq!(
        CONTRACT_NAME,
        version_info.contract.as_str(),
        "the contract name should be updated to the correct value after the migration",
    );
    assert_eq!(
        CONTRACT_VERSION,
        version_info.version.as_str(),
        "the contract version should be updated to the correct value after the migration",
    );
}

#[test]
fn test_successful_same_version_migration() {
    let mut deps = mock_dependencies();
    // Instantiate the contract, automatically setting the version and contract name.
    test_instantiate(&mut deps, InstArgs::default()).unwrap();
    let response = test_migrate_contract(&mut deps, MigrateContractV2::empty()).unwrap();
    assert!(
        response.messages.is_empty(),
        "no messages should be sent on migrate"
    );
    assert_eq!(
        2,
        response.attributes.len(),
        "both migration attributes should be added"
    );
    assert_eq!(
        CONTRACT_NAME,
        single_attribute_for_key(&response, MIGRATION_CONTRACT_NAME),
        "the contract name should be stored in the migration attribute output",
    );
    assert_eq!(
        CONTRACT_VERSION,
        single_attribute_for_key(&response, MIGRATION_CONTRACT_VERSION),
        "the contract version should be stored in the migration attribute output",
    );
    let version_info = get_version_info(&deps);
    assert_eq!(
        CONTRACT_NAME,
        version_info.contract.as_str(),
        "the contract name should be updated to the correct value after the migration",
    );
    assert_eq!(
        CONTRACT_VERSION,
        version_info.version.as_str(),
        "the contract version should be updated to the correct value after the migration",
    );
}

#[test]
fn test_successful_state_change_migration() {
    let mut deps = mock_dependencies();
    test_instantiate(&mut deps, InstArgs::default()).unwrap();
    let response = test_migrate_contract(
        &mut deps,
        MigrateContractV2 {
            onboarding_cost: Some(134),
            onboarding_denom: Some("dogecoin".to_string()),
            fee_collection_address: Some("new-fee-addr".to_string()),
            fee_percent: Some(Decimal::percent(12)),
        },
    )
    .unwrap();
    assert!(
        response.messages.is_empty(),
        "no messages should be sent on migrate"
    );
    assert_eq!(
        6,
        response.attributes.len(),
        "all migration attributes should be added because all fields were changed",
    );
    assert_eq!(
        "134",
        single_attribute_for_key(
            &response,
            state_change_attr_name("onboarding_cost").as_str()
        ),
        "the onboarding cost attribute should be added correctly",
    );
    assert_eq!(
        "dogecoin",
        single_attribute_for_key(
            &response,
            state_change_attr_name("onboarding_denom").as_str()
        ),
        "the onboarding denom attribute should be added correctly",
    );
    assert_eq!(
        "new-fee-addr",
        single_attribute_for_key(
            &response,
            state_change_attr_name("fee_collection_address").as_str()
        ),
        "the fee collection address attribute should be added correctly",
    );
    assert_eq!(
        "0.12",
        single_attribute_for_key(&response, state_change_attr_name("fee_percent").as_str()),
        "the fee percent attribute should be added correctly",
    );
    assert_eq!(
        CONTRACT_NAME,
        single_attribute_for_key(&response, MIGRATION_CONTRACT_NAME),
        "the contract name attribute should be added correctly",
    );
    assert_eq!(
        CONTRACT_VERSION,
        single_attribute_for_key(&response, MIGRATION_CONTRACT_VERSION),
        "the contract version attribute should be added correctly",
    );
    let state = deps.config.as_ref().expect("state should load properly");
    assert_eq!(
        134, state.onboarding_cost,
        "onboarding cost should be properly updated in the state",
    );
    assert_eq!(
        "dogecoin",
        state.onboarding_denom.as_str(),
        "onboarding denom should be properly updated in the state",
    );
    assert_eq!(
        "new-fee-addr", state.fee_collection_address,
        "fee collection address should be properly updated in the state",
    );
    assert_eq!(
        Decimal::percent(12),
        state.fee_percent,
        "fee percent should be properly updated in the state",
    );
}

#[test]
fn test_failed_migration_for_incorrect_name() {
    let mut deps = mock_dependencies();
    set_version_info(
        &mut deps,
        &VersionInfoV1 {
            contract: "Wrong name".to_string(),
            version: CONTRACT_VERSION.to_string(),
        },
    );
    match test_migrate_contract(&mut deps, MigrateContractV2::empty()).unwrap_err() {
        ContractError::InvalidContractName {
            current_contract,
            migration_contract,
        } => {
            assert_eq!(
                "Wrong name",
                current_contract.as_str(),
                "the current contract name should equate to the value stored in contract storage",
            );
            assert_eq!(
                CONTRACT_NAME,
                migration_contract.as_str(),
                "the migration contract should be the env contract name",
            );
        }
        _ => panic!("unexpected error encountered"),
    };
}

#[test]
fn test_failed_migration_for_too_low_version() {
    let mut deps = mock_dependencies();
    set_version_info(
        &mut deps,
        &VersionInfoV1 {
            contract: CONTRACT_NAME.to_string(),
            version: "99.9.9".to_string(),
        },
    );
    match test_migrate_contract(&mut deps, MigrateContractV2::empty()).unwrap_err() {
        ContractError::InvalidContractVersion {
            current_version,
            migration_version,
        } => {
            assert_eq!(
                "99.9.9",
                current_version.as_str(),
                "the current contract version should equate to the value stored in contract storage",
            );
            assert_eq!(
                CONTRACT_VERSION,
                migration_version.as_str(),
                "the migration contract version should equate to the env value",
            );
        }
        _ => panic!("unexpected error encountered"),
    };
    assert_eq!(
        "99.9.9",
        get_version_info(&deps).version,
        "the stored version should be left as it was",
    );
}

fn assert_default_payable(scope_attribute: &PayableScopeAttribute) {
    assert_eq!(
        DEFAULT_PAYABLE_TYPE,
        scope_attribute.payable_type.as_str(),
        "expected the default payable type to be returned",
    );
    assert_eq!(
        DEFAULT_PAYABLE_UUID,
        scope_attribute.payable_uuid.as_str(),
        "expected the default marker address to be returned"
    );
    assert_eq!(
        DEFAULT_SCOPE_ID,
        scope_attribute.scope_id.as_str(),
        "expected the default scope id to be returned"
    );
    assert_eq!(
        DEFAULT_ORACLE_ADDRESS,
        scope_attribute.oracle_address.as_str(),
        "expected the default oracle address to be returned",
    );
    assert_eq!(
        DEFAULT_PAYABLE_DENOM, scope_attribute.payable_denom,
        "expected the payable to expect payment in the onboarding denom"
    );
    assert_eq!(
        DEFAULT_PAYABLE_TOTAL, scope_attribute.payable_total_owed,
        "expected the payable total owed to reflect the default value"
    );
    assert_eq!(DEFAULT_PAYABLE_TOTAL, scope_attribute.payable_remaining_owed, "expected the payable remaining owed to reflect the default value because no payments have been made");
    assert_eq!(false, scope_attribute.oracle_approved, "when initially created, the meta should show that the oracle has not yet approved the payable");
}

#[test]
fn test_query_payable_by_scope_id_after_register() {
    let mut deps = mock_dependencies();
    let provenance_util = setup_test_suite(&mut deps, InstArgs::default());
    test_register_payable(&mut deps, &provenance_util, TestRegisterPayable::default()).unwrap();
    let answer = query(
        &deps.read(None, Some(DEFAULT_SCOPE_ID)),
        QueryMsg::QueryPayableByScopeId {
            scope_id: DEFAULT_SCOPE_ID.to_string(),
        },
    )
    .unwrap();
    match answer {
        QueryAnswer::Payable(scope_attribute) => assert_default_payable(&scope_attribute),
        _ => panic!("unexpected answer to a query for a payable"),
    }
}

#[test]
fn test_query_payable_attribute_by_scope_id() {
    let mut deps = mock_dependencies();
    let provenance_util = setup_test_suite(&mut deps, InstArgs::default());
    test_register_payable(&mut deps, &provenance_util, TestRegisterPayable::default()).unwrap();
    let scope_attr = query_payable_attribute_by_scope_id(
        &deps.read(None, Some(DEFAULT_SCOPE_ID)),
        DEFAULT_SCOPE_ID,
    )
    .expect("the default payable should deserialize correctly");
    provenance_util.assert_attribute_matches_latest(&scope_attr);
}

#[test]
fn test_query_payable_by_uuid_after_register() {
    let mut deps = mock_dependencies();
    let provenance_util = setup_test_suite(&mut deps, InstArgs::default());
    test_register_payable(&mut deps, &provenance_util, TestRegisterPayable::default()).unwrap();
    let scope_attribute = query_payable_by_uuid(&deps, DEFAULT_PAYABLE_UUID);
    assert_default_payable(&scope_attribute);
}

#[test]
fn test_query_payable_attribute_by_uuid() {
    let mut deps = mock_dependencies();
    let provenance_util = setup_test_suite(&mut deps, InstArgs::default());
    test_register_payable(&mut deps, &provenance_util, TestRegisterPayable::default()).unwrap();
    let scope_attr = query_payable_attribute_by_uuid(
        &deps.read_for_uuid(DEFAULT_PAYABLE_UUID),
        DEFAULT_PAYABLE_UUID,
    )
    .expect("the default payable should deserialize correctly");
    provenance_util.assert_attribute_matches_latest(&scope_attr);
}

#[test]
fn test_query_state() {
    // Create mocks
    let mut deps = mock_dependencies();
    test_instantiate(&mut deps, InstArgs::default()).unwrap();
    // Call the smart contract query function to get stored state.
    let answer = query(&deps.read(None, None), QueryMsg::QueryState {}).unwrap();
    let resp = match answer {
        QueryAnswer::State(state) => state,
        _ => panic!("unexpected answer to a query for the state"),
    };
    // Ensure the expected init fields were properly stored.
    assert_eq!(DEFAULT_CONTRACT_NAME, resp.contract_name);
    assert_eq!(100, resp.onboarding_cost);
    assert_eq!(DEFAULT_ONBOARDING_DENOM, resp.onboarding_denom.as_str());
    assert_eq!(
        DEFAULT_FEE_COLLECTION_ADDRESS,
        resp.fee_collection_address.as_str()
    );
    assert_eq!(Decimal::percent(DEFAULT_FEE_PERCENT), resp.fee_percent);
}
