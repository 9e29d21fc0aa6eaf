use crate::conversions::{to_uint128, uint128_of};
use crate::decimal::Decimal;
use crate::error::{field_names, ContractError, ContractErrorView, StdError, StdErrorView};
use crate::ledger::result_view;
use crate::make_payment::MakePaymentV1;
use crate::migrate_contract::{
    MigrateContractV1, MigrateContractV1View, MigrateContractV2, MigrateContractV2View,
};
use crate::oracle_approval::OracleApprovalV1;
use crate::register_payable::{RegisterPayableV2, RegisterPayableV2View};
use crate::state::StateV2;
use crate::text::{parse_u128, parse_u128_spec};
use crate::version_info::ruling_view;
use vstd::prelude::*;

verus! {

/// The configuration state, as a query for it answers.
pub type QueryResponse = StateV2;

/// `name` alone where `invalid` holds, and nothing where it does not.
pub open spec fn field_if(invalid: bool, name: Seq<char>) -> Seq<Seq<char>> {
    if invalid {
        seq![name]
    } else {
        Seq::empty()
    }
}

/// What checking a message comes to, given the names of its invalid fields: the names
/// are reported where there are any.
pub open spec fn validation(invalid_fields: Seq<Seq<char>>) -> Result<(), ContractErrorView> {
    if invalid_fields.len() > 0 {
        Err(ContractErrorView::InvalidFields { fields: invalid_fields })
    } else {
        Ok(())
    }
}

/// A message that can check its own fields.
pub trait ValidatedMsg {
    /// The names of the fields that are invalid, in the order in which the message is checked.
    spec fn invalid_fields(&self) -> Seq<Seq<char>>;

    /// Checks the message, and reports every invalid field by name.
    fn validate(&self) -> (r: Result<(), ContractError>)
        ensures
            ruling_view(r) == validation(self.invalid_fields()),
    ;
}

fn note(fields: &mut Vec<&'static str>, invalid: bool, name: &'static str)
    ensures
        field_names(final(fields)@) == field_names(old(fields)@) + field_if(invalid, name@),
{
    if invalid {
        fields.push(name);
    }
}

fn report(fields: Vec<&'static str>) -> (r: Result<(), ContractError>)
    ensures
        ruling_view(r) == validation(field_names(fields@)),
{
    if fields.len() > 0 {
        ContractError::invalid_fields(fields).to_result()
    } else {
        Ok(())
    }
}

/// The message that sets up a contract instance.
#[derive(Debug, PartialEq, Eq)]
pub struct InitMsg {
    /// The name that the contract binds, and under which it writes every record.
    pub contract_name: String,
    /// What registering one payable costs, written in base ten.
    pub onboarding_cost: String,
    pub onboarding_denom: String,
    pub fee_collection_address: String,
    pub fee_percent: Decimal,
    /// Whether the contract runs locally; where not given, it does not.
    pub is_local: Option<bool>,
}

pub struct InitMsgView {
    pub contract_name: Seq<char>,
    pub onboarding_cost: Seq<char>,
    pub onboarding_denom: Seq<char>,
    pub fee_collection_address: Seq<char>,
    pub fee_percent: Decimal,
    pub is_local: Option<bool>,
}

impl View for InitMsg {
    type V = InitMsgView;

    open spec fn view(&self) -> InitMsgView {
        InitMsgView {
            contract_name: self.contract_name@,
            onboarding_cost: self.onboarding_cost@,
            onboarding_denom: self.onboarding_denom@,
            fee_collection_address: self.fee_collection_address@,
            fee_percent: self.fee_percent,
            is_local: self.is_local,
        }
    }
}

impl ValidatedMsg for InitMsg {
    /// The names must not be empty, the cost must be a number, and the fee's share
    /// must not exceed the whole.
    open spec fn invalid_fields(&self) -> Seq<Seq<char>> {
        field_if(self@.contract_name.len() == 0, "contract_name"@) + field_if(
            parse_u128_spec(self@.onboarding_cost) is None,
            "onboarding_cost"@,
        ) + field_if(self@.onboarding_denom.len() == 0, "onboarding_denom"@) + field_if(
            self@.fee_collection_address.len() == 0,
            "fee_collection_address"@,
        ) + field_if(!self@.fee_percent.is_ratio(), "fee_percent"@)
    }

    fn validate(&self) -> (r: Result<(), ContractError>) {
        let mut invalid_fields: Vec<&'static str> = Vec::new();
        note(&mut invalid_fields, self.contract_name.as_str().is_empty(), "contract_name");
        note(
            &mut invalid_fields,
            parse_u128(self.onboarding_cost.as_str()).is_none(),
            "onboarding_cost",
        );
        note(&mut invalid_fields, self.onboarding_denom.as_str().is_empty(), "onboarding_denom");
        note(
            &mut invalid_fields,
            self.fee_collection_address.as_str().is_empty(),
            "fee_collection_address",
        );
        note(&mut invalid_fields, self.fee_percent.exceeds_one(), "fee_percent");
        report(invalid_fields)
    }
}

/// The commands that change a payable.
#[derive(Debug, PartialEq, Eq)]
pub enum ExecuteMsg {
    RegisterPayable {
        payable_type: String,
        payable_uuid: String,
        scope_id: String,
        oracle_address: String,
        payable_denom: String,
        payable_total: u128,
    },
    OracleApproval { payable_uuid: String },
    MakePayment { payable_uuid: String },
}

pub enum ExecuteMsgView {
    RegisterPayable(RegisterPayableV2View),
    OracleApproval { payable_uuid: Seq<char> },
    MakePayment { payable_uuid: Seq<char> },
}

impl View for ExecuteMsg {
    type V = ExecuteMsgView;

    open spec fn view(&self) -> ExecuteMsgView {
        match self {
            ExecuteMsg::RegisterPayable {
                payable_type,
                payable_uuid,
                scope_id,
                oracle_address,
                payable_denom,
                payable_total,
            } => ExecuteMsgView::RegisterPayable(
                RegisterPayableV2View {
                    payable_type: payable_type@,
                    payable_uuid: payable_uuid@,
                    scope_id: scope_id@,
                    oracle_address: oracle_address@,
                    payable_denom: payable_denom@,
                    payable_total: *payable_total,
                },
            ),
            ExecuteMsg::OracleApproval { payable_uuid } => ExecuteMsgView::OracleApproval {
                payable_uuid: payable_uuid@,
            },
            ExecuteMsg::MakePayment { payable_uuid } => ExecuteMsgView::MakePayment {
                payable_uuid: payable_uuid@,
            },
        }
    }
}

/// The error that reports a command of another kind than the one asked for.
pub open spec fn unexpected_kind(expected: Seq<char>) -> ContractErrorView {
    ContractErrorView::Std(StdErrorView::GenericErr { msg: expected })
}

impl ExecuteMsg {
    /// The registration that the command asks for.
    pub fn to_register_payable(self) -> (r: Result<RegisterPayableV2, ContractError>)
        ensures
            match r {
                Ok(register) => self@ == ExecuteMsgView::RegisterPayable(register@),
                Err(e) => self@ !is RegisterPayable && e@ == unexpected_kind(
                    "expected RegisterPayable message type"@,
                ),
            },
    {
        match self {
            ExecuteMsg::RegisterPayable {
                payable_type,
                payable_uuid,
                scope_id,
                oracle_address,
                payable_denom,
                payable_total,
            } => Ok(
                RegisterPayableV2 {
                    payable_type,
                    payable_uuid,
                    scope_id,
                    oracle_address,
                    payable_denom,
                    payable_total,
                },
            ),
            _ => ContractError::std_err("expected RegisterPayable message type"),
        }
    }

    /// The approval that the command asks for.
    pub fn to_oracle_approval(self) -> (r: Result<OracleApprovalV1, ContractError>)
        ensures
            match r {
                Ok(approval) => self@ == (ExecuteMsgView::OracleApproval {
                    payable_uuid: approval@.payable_uuid,
                }),
                Err(e) => self@ !is OracleApproval && e@ == unexpected_kind(
                    "expected OracleApproval message type"@,
                ),
            },
    {
        match self {
            ExecuteMsg::OracleApproval { payable_uuid } => Ok(OracleApprovalV1 { payable_uuid }),
            _ => ContractError::std_err("expected OracleApproval message type"),
        }
    }

    /// The payment that the command asks for.
    pub fn to_make_payment(self) -> (r: Result<MakePaymentV1, ContractError>)
        ensures
            match r {
                Ok(payment) => self@ == (ExecuteMsgView::MakePayment {
                    payable_uuid: payment@.payable_uuid,
                }),
                Err(e) => self@ !is MakePayment && e@ == unexpected_kind(
                    "expected MakePayment message type"@,
                ),
            },
    {
        match self {
            ExecuteMsg::MakePayment { payable_uuid } => Ok(MakePaymentV1 { payable_uuid }),
            _ => ContractError::std_err("expected MakePayment message type"),
        }
    }
}

impl ValidatedMsg for ExecuteMsg {
    /// No name may be empty, and a payable's total must be more than nothing.
    open spec fn invalid_fields(&self) -> Seq<Seq<char>> {
        match self@ {
            ExecuteMsgView::RegisterPayable(register) => field_if(
                register.payable_type.len() == 0,
                "payable_type"@,
            ) + field_if(register.payable_uuid.len() == 0, "payable_uuid"@) + field_if(
                register.scope_id.len() == 0,
                "scope_id"@,
            ) + field_if(register.oracle_address.len() == 0, "oracle_address"@) + field_if(
                register.payable_denom.len() == 0,
                "payable_denom"@,
            ) + field_if(register.payable_total == 0, "payable_total"@),
            ExecuteMsgView::OracleApproval { payable_uuid } => field_if(
                payable_uuid.len() == 0,
                "payable_uuid"@,
            ),
            ExecuteMsgView::MakePayment { payable_uuid } => field_if(
                payable_uuid.len() == 0,
                "payable_uuid"@,
            ),
        }
    }

    fn validate(&self) -> (r: Result<(), ContractError>) {
        let mut invalid_fields: Vec<&'static str> = Vec::new();
        match self {
            ExecuteMsg::RegisterPayable {
                payable_type,
                payable_uuid,
                scope_id,
                oracle_address,
                payable_denom,
                payable_total,
            } => {
                note(&mut invalid_fields, payable_type.as_str().is_empty(), "payable_type");
                note(&mut invalid_fields, payable_uuid.as_str().is_empty(), "payable_uuid");
                note(&mut invalid_fields, scope_id.as_str().is_empty(), "scope_id");
                note(&mut invalid_fields, oracle_address.as_str().is_empty(), "oracle_address");
                note(&mut invalid_fields, payable_denom.as_str().is_empty(), "payable_denom");
                note(&mut invalid_fields, *payable_total == 0, "payable_total");
            },
            ExecuteMsg::OracleApproval { payable_uuid } => {
                note(&mut invalid_fields, payable_uuid.as_str().is_empty(), "payable_uuid");
            },
            ExecuteMsg::MakePayment { payable_uuid } => {
                note(&mut invalid_fields, payable_uuid.as_str().is_empty(), "payable_uuid");
            },
        };
        report(invalid_fields)
    }
}

/// The queries that the contract answers.
#[derive(Debug, PartialEq, Eq)]
pub enum QueryMsg {
    QueryState {  },
    QueryPayableByScopeId { scope_id: String },
    QueryPayableByUuid { payable_uuid: String },
}

pub enum QueryMsgView {
    QueryState,
    QueryPayableByScopeId { scope_id: Seq<char> },
    QueryPayableByUuid { payable_uuid: Seq<char> },
}

impl View for QueryMsg {
    type V = QueryMsgView;

    open spec fn view(&self) -> QueryMsgView {
        match self {
            QueryMsg::QueryState {  } => QueryMsgView::QueryState,
            QueryMsg::QueryPayableByScopeId { scope_id } => QueryMsgView::QueryPayableByScopeId {
                scope_id: scope_id@,
            },
            QueryMsg::QueryPayableByUuid { payable_uuid } => QueryMsgView::QueryPayableByUuid {
                payable_uuid: payable_uuid@,
            },
        }
    }
}

impl ValidatedMsg for QueryMsg {
    /// The key by which a payable is asked for must not be empty.
    open spec fn invalid_fields(&self) -> Seq<Seq<char>> {
        match self@ {
            QueryMsgView::QueryState => Seq::empty(),
            QueryMsgView::QueryPayableByScopeId { scope_id } => field_if(
                scope_id.len() == 0,
                "scope_id"@,
            ),
            QueryMsgView::QueryPayableByUuid { payable_uuid } => field_if(
                payable_uuid.len() == 0,
                "payable_uuid"@,
            ),
        }
    }

    fn validate(&self) -> (r: Result<(), ContractError>) {
        let mut invalid_fields: Vec<&'static str> = Vec::new();
        match self {
            QueryMsg::QueryState {  } => (),
            QueryMsg::QueryPayableByScopeId { scope_id } => {
                note(&mut invalid_fields, scope_id.as_str().is_empty(), "scope_id");
            },
            QueryMsg::QueryPayableByUuid { payable_uuid } => {
                note(&mut invalid_fields, payable_uuid.as_str().is_empty(), "payable_uuid");
            },
        };
        report(invalid_fields)
    }
}

/// The message that migrates the contract: each field that is given is to replace the
/// configuration's.
#[derive(Debug, PartialEq, Eq)]
pub struct MigrateMsg {
    pub onboarding_cost: Option<String>,
    pub onboarding_denom: Option<String>,
    pub fee_collection_address: Option<String>,
    pub fee_percent: Option<Decimal>,
    pub oracle_address: Option<String>,
}

pub struct MigrateMsgView {
    pub onboarding_cost: Option<Seq<char>>,
    pub onboarding_denom: Option<Seq<char>>,
    pub fee_collection_address: Option<Seq<char>>,
    pub fee_percent: Option<Decimal>,
    pub oracle_address: Option<Seq<char>>,
}

impl View for MigrateMsg {
    type V = MigrateMsgView;

    open spec fn view(&self) -> MigrateMsgView {
        MigrateMsgView {
            onboarding_cost: self.onboarding_cost.deep_view(),
            onboarding_denom: self.onboarding_denom.deep_view(),
            fee_collection_address: self.fee_collection_address.deep_view(),
            fee_percent: self.fee_percent,
            oracle_address: self.oracle_address.deep_view(),
        }
    }
}

/// Whether a text is given and is empty.
pub open spec fn given_empty(text: Option<Seq<char>>) -> bool {
    text matches Some(t) && t.len() == 0
}

fn is_given_empty(text: &Option<String>) -> (r: bool)
    ensures
        r == given_empty(text.deep_view()),
{
    match text {
        Some(t) => t.as_str().is_empty(),
        None => false,
    }
}

impl ValidatedMsg for MigrateMsg {
    /// Of the fields that are given, the cost must be a number, no name may be empty,
    /// and the fee's share must not exceed the whole.
    open spec fn invalid_fields(&self) -> Seq<Seq<char>> {
        field_if(
            self@.onboarding_cost matches Some(cost) && parse_u128_spec(cost) is None,
            "onboarding_cost"@,
        ) + field_if(given_empty(self@.onboarding_denom), "onboarding_denom"@) + field_if(
            given_empty(self@.fee_collection_address),
            "fee_collection_address"@,
        ) + field_if(
            self@.fee_percent matches Some(fee_percent) && !fee_percent.is_ratio(),
            "fee_percent"@,
        ) + field_if(given_empty(self@.oracle_address), "oracle_address"@)
    }

    fn validate(&self) -> (r: Result<(), ContractError>) {
        let mut invalid_fields: Vec<&'static str> = Vec::new();
        let bad_cost = match &self.onboarding_cost {
            Some(cost) => parse_u128(cost.as_str()).is_none(),
            None => false,
        };
        note(&mut invalid_fields, bad_cost, "onboarding_cost");
        note(&mut invalid_fields, is_given_empty(&self.onboarding_denom), "onboarding_denom");
        note(
            &mut invalid_fields,
            is_given_empty(&self.fee_collection_address),
            "fee_collection_address",
        );
        let bad_fee_percent = match &self.fee_percent {
            Some(fee_percent) => fee_percent.exceeds_one(),
            None => false,
        };
        note(&mut invalid_fields, bad_fee_percent, "fee_percent");
        note(&mut invalid_fields, is_given_empty(&self.oracle_address), "oracle_address");
        report(invalid_fields)
    }
}

/// The cost that a migration message gives, read as a number.
pub open spec fn migrated_cost(cost: Option<Seq<char>>) -> Result<Option<u128>, ContractErrorView> {
    match cost {
        None => Ok(None),
        Some(text) => match uint128_of(text) {
            Ok(n) => Ok(Some(n)),
            Err(e) => Err(e),
        },
    }
}

/// The address that a migration message gives, as the ledger's check of it left it:
/// the checked address where the check passed, the check's error where it did not,
/// and the address as given where it was not checked.
pub open spec fn migrated_address(
    address: Option<Seq<char>>,
    checked: Option<Result<Seq<char>, StdErrorView>>,
) -> Result<Option<Seq<char>>, ContractErrorView> {
    match address {
        None => Ok(None),
        Some(given) => match checked {
            None => Ok(Some(given)),
            Some(Ok(valid)) => Ok(Some(valid)),
            Some(Err(e)) => Err(ContractErrorView::Std(e)),
        },
    }
}

/// The view of the ledger's check of an address, where there was one.
pub open spec fn checked_view(checked: Option<Result<String, StdError>>) -> Option<
    Result<Seq<char>, StdErrorView>,
> {
    match checked {
        None => None,
        Some(r) => Some(result_view(r)),
    }
}

/// The changes that a migration message asks for.
pub open spec fn to_migrate_contract_v2_spec(
    msg: MigrateMsgView,
    checked_fee_address: Option<Result<Seq<char>, StdErrorView>>,
) -> Result<MigrateContractV2View, ContractErrorView> {
    match migrated_cost(msg.onboarding_cost) {
        Err(e) => Err(e),
        Ok(onboarding_cost) => match migrated_address(
            msg.fee_collection_address,
            checked_fee_address,
        ) {
            Err(e) => Err(e),
            Ok(fee_collection_address) => Ok(
                MigrateContractV2View {
                    onboarding_cost,
                    onboarding_denom: msg.onboarding_denom,
                    fee_collection_address,
                    fee_percent: msg.fee_percent,
                },
            ),
        },
    }
}

/// The changes that a migration message of the first generation asks for.
pub open spec fn to_migrate_contract_v1_spec(
    msg: MigrateMsgView,
    checked_fee_address: Option<Result<Seq<char>, StdErrorView>>,
    checked_oracle_address: Option<Result<Seq<char>, StdErrorView>>,
) -> Result<MigrateContractV1View, ContractErrorView> {
    match migrated_cost(msg.onboarding_cost) {
        Err(e) => Err(e),
        Ok(onboarding_cost) => match migrated_address(
            msg.fee_collection_address,
            checked_fee_address,
        ) {
            Err(e) => Err(e),
            Ok(fee_collection_address) => match migrated_address(
                msg.oracle_address,
                checked_oracle_address,
            ) {
                Err(e) => Err(e),
                Ok(oracle_address) => Ok(
                    MigrateContractV1View {
                        onboarding_cost,
                        onboarding_denom: msg.onboarding_denom,
                        fee_collection_address,
                        fee_percent: msg.fee_percent,
                        oracle_address,
                    },
                ),
            },
        },
    }
}

fn read_cost(cost: Option<String>) -> (r: Result<Option<u128>, ContractError>)
    ensures
        match r {
            Ok(n) => migrated_cost(cost.deep_view()) == Ok::<Option<u128>, ContractErrorView>(n),
            Err(e) => migrated_cost(cost.deep_view()) == Err::<Option<u128>, ContractErrorView>(
                e@,
            ),
        },
{
    match cost {
        None => Ok(None),
        Some(text) => match to_uint128(text.as_str()) {
            Ok(n) => Ok(Some(n)),
            Err(e) => Err(e),
        },
    }
}

fn take_address(address: Option<String>, checked: Option<Result<String, StdError>>) -> (r: Result<
    Option<String>,
    ContractError,
>)
    ensures
        match r {
            Ok(a) => migrated_address(address.deep_view(), checked_view(checked)) == Ok::<
                Option<Seq<char>>,
                ContractErrorView,
            >(a.deep_view()),
            Err(e) => migrated_address(address.deep_view(), checked_view(checked)) == Err::<
                Option<Seq<char>>,
                ContractErrorView,
            >(e@),
        },
{
    match address {
        None => Ok(None),
        Some(given) => match checked {
            None => Ok(Some(given)),
            Some(Ok(valid)) => Ok(Some(valid)),
            Some(Err(e)) => Err(ContractError::Std(e)),
        },
    }
}

impl MigrateMsg {
    /// Reads the message into the changes of a migration of the first generation.
    /// `checked_fee_address` and `checked_oracle_address` are what the ledger's check of
    /// either address gave.
    pub fn to_migrate_contract_v1(
        self,
        checked_fee_address: Option<Result<String, StdError>>,
        checked_oracle_address: Option<Result<String, StdError>>,
    ) -> (r: Result<MigrateContractV1, ContractError>)
        ensures
            match r {
                Ok(migrate) => to_migrate_contract_v1_spec(
                    self@,
                    checked_view(checked_fee_address),
                    checked_view(checked_oracle_address),
                ) == Ok::<MigrateContractV1View, ContractErrorView>(migrate@),
                Err(e) => to_migrate_contract_v1_spec(
                    self@,
                    checked_view(checked_fee_address),
                    checked_view(checked_oracle_address),
                ) == Err::<MigrateContractV1View, ContractErrorView>(e@),
            },
    {
        let onboarding_cost = match read_cost(self.onboarding_cost) {
            Ok(cost) => cost,
            Err(e) => {
                return Err(e);
            },
        };
        let fee_collection_address = match take_address(
            self.fee_collection_address,
            checked_fee_address,
        ) {
            Ok(address) => address,
            Err(e) => {
                return Err(e);
            },
        };
        let oracle_address = match take_address(self.oracle_address, checked_oracle_address) {
            Ok(address) => address,
            Err(e) => {
                return Err(e);
            },
        };
        Ok(
            MigrateContractV1 {
                onboarding_cost,
                onboarding_denom: self.onboarding_denom,
                fee_collection_address,
                fee_percent: self.fee_percent,
                oracle_address,
            },
        )
    }

    /// Reads the message into the changes of a migration. `checked_fee_address` is
    /// what the ledger's check of the fee collector's address gave.
    pub fn to_migrate_contract_v2(
        self,
        checked_fee_address: Option<Result<String, StdError>>,
    ) -> (r: Result<MigrateContractV2, ContractError>)
        ensures
            match r {
                Ok(migrate) => to_migrate_contract_v2_spec(self@, checked_view(checked_fee_address))
                    == Ok::<MigrateContractV2View, ContractErrorView>(migrate@),
                Err(e) => to_migrate_contract_v2_spec(self@, checked_view(checked_fee_address))
                    == Err::<MigrateContractV2View, ContractErrorView>(e@),
            },
    {
        let onboarding_cost = match read_cost(self.onboarding_cost) {
            Ok(cost) => cost,
            Err(e) => {
                return Err(e);
            },
        };
        let fee_collection_address = match take_address(
            self.fee_collection_address,
            checked_fee_address,
        ) {
            Ok(address) => address,
            Err(e) => {
                return Err(e);
            },
        };
        Ok(
            MigrateContractV2 {
                onboarding_cost,
                onboarding_denom: self.onboarding_denom,
                fee_collection_address,
                fee_percent: self.fee_percent,
            },
        )
    }
}

} // verus!
