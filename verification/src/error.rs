use vstd::prelude::*;
use vstd::string::StringExecFns;

verus! {

/// An error raised by the ledger runtime, carried through unchanged.
#[derive(Debug, PartialEq, Eq)]
pub enum StdError {
    GenericErr { msg: String },
    NotFound { kind: String },
    ParseErr { target_type: String, msg: String },
    SerializeErr { source_type: String, msg: String },
    /// Any other runtime error, as the text it renders to.
    Other { msg: String },
}

pub enum StdErrorView {
    GenericErr { msg: Seq<char> },
    NotFound { kind: Seq<char> },
    ParseErr { target_type: Seq<char>, msg: Seq<char> },
    SerializeErr { source_type: Seq<char>, msg: Seq<char> },
    Other { msg: Seq<char> },
}

impl View for StdError {
    type V = StdErrorView;

    open spec fn view(&self) -> StdErrorView {
        match self {
            StdError::GenericErr { msg } => StdErrorView::GenericErr { msg: msg@ },
            StdError::NotFound { kind } => StdErrorView::NotFound { kind: kind@ },
            StdError::ParseErr { target_type, msg } => StdErrorView::ParseErr {
                target_type: target_type@,
                msg: msg@,
            },
            StdError::SerializeErr { source_type, msg } => StdErrorView::SerializeErr {
                source_type: source_type@,
                msg: msg@,
            },
            StdError::Other { msg } => StdErrorView::Other { msg: msg@ },
        }
    }
}

impl DeepView for StdError {
    type V = StdErrorView;

    open spec fn deep_view(&self) -> StdErrorView {
        self@
    }
}

impl Clone for StdError {
    fn clone(&self) -> (r: Self)
        ensures
            r@ == self@,
    {
        match self {
            StdError::GenericErr { msg } => StdError::GenericErr { msg: msg.clone() },
            StdError::NotFound { kind } => StdError::NotFound { kind: kind.clone() },
            StdError::ParseErr { target_type, msg } => StdError::ParseErr {
                target_type: target_type.clone(),
                msg: msg.clone(),
            },
            StdError::SerializeErr { source_type, msg } => StdError::SerializeErr {
                source_type: source_type.clone(),
                msg: msg.clone(),
            },
            StdError::Other { msg } => StdError::Other { msg: msg.clone() },
        }
    }
}

impl StdError {
    /// The runtime error that reports an entry of the given kind as not found.
    pub fn not_found(kind: &str) -> (r: StdError)
        ensures
            r@ == (StdErrorView::NotFound { kind: kind@ }),
    {
        StdError::NotFound { kind: String::from_str(kind) }
    }

    /// A generic runtime error with the given message.
    pub fn generic_err(msg: &str) -> (r: StdError)
        ensures
            r@ == (StdErrorView::GenericErr { msg: msg@ }),
    {
        StdError::GenericErr { msg: String::from_str(msg) }
    }
}

/// Every way a call into the contract can be refused.
#[derive(Debug, PartialEq, Eq)]
pub enum ContractError {
    Std(StdError),
    Unauthorized,
    DuplicateApproval { payable_uuid: String },
    DuplicateRegistration { scope_id: String },
    FundsPresent,
    InsufficientFundsProvided { amount_needed: u128, amount_provided: u128 },
    InvalidContractName { current_contract: String, migration_contract: String },
    InvalidContractVersion { current_version: String, migration_version: String },
    InvalidFields { fields: Vec<String> },
    InvalidFundsProvided { valid_denom: String, invalid_denoms: Vec<String> },
    InvalidMigration(String),
    InvalidPayable { payable_uuid: String, invalid_reason: String },
    InvalidScopeAttribute { scope_id: String, attribute_amount: usize },
    NoFundsProvided { valid_denom: String },
    NotReadyForPayment { payable_uuid: String, not_ready_reason: String },
    ParseInt(String),
    PayableNotFound { payable_uuid: String },
    PaymentTooLarge { total_owed: u128, amount_provided: u128 },
    SemVer(String),
}

pub enum ContractErrorView {
    Std(StdErrorView),
    Unauthorized,
    DuplicateApproval { payable_uuid: Seq<char> },
    DuplicateRegistration { scope_id: Seq<char> },
    FundsPresent,
    InsufficientFundsProvided { amount_needed: u128, amount_provided: u128 },
    InvalidContractName { current_contract: Seq<char>, migration_contract: Seq<char> },
    InvalidContractVersion { current_version: Seq<char>, migration_version: Seq<char> },
    InvalidFields { fields: Seq<Seq<char>> },
    InvalidFundsProvided { valid_denom: Seq<char>, invalid_denoms: Seq<Seq<char>> },
    InvalidMigration(Seq<char>),
    InvalidPayable { payable_uuid: Seq<char>, invalid_reason: Seq<char> },
    InvalidScopeAttribute { scope_id: Seq<char>, attribute_amount: usize },
    NoFundsProvided { valid_denom: Seq<char> },
    NotReadyForPayment { payable_uuid: Seq<char>, not_ready_reason: Seq<char> },
    ParseInt(Seq<char>),
    PayableNotFound { payable_uuid: Seq<char> },
    PaymentTooLarge { total_owed: u128, amount_provided: u128 },
    SemVer(Seq<char>),
}

impl View for ContractError {
    type V = ContractErrorView;

    open spec fn view(&self) -> ContractErrorView {
        match self {
            ContractError::Std(e) => ContractErrorView::Std(e@),
            ContractError::Unauthorized => ContractErrorView::Unauthorized,
            ContractError::DuplicateApproval { payable_uuid } => {
                ContractErrorView::DuplicateApproval { payable_uuid: payable_uuid@ }
            },
            ContractError::DuplicateRegistration { scope_id } => {
                ContractErrorView::DuplicateRegistration { scope_id: scope_id@ }
            },
            ContractError::FundsPresent => ContractErrorView::FundsPresent,
            ContractError::InsufficientFundsProvided { amount_needed, amount_provided } => {
                ContractErrorView::InsufficientFundsProvided {
                    amount_needed: *amount_needed,
                    amount_provided: *amount_provided,
                }
            },
            ContractError::InvalidContractName { current_contract, migration_contract } => {
                ContractErrorView::InvalidContractName {
                    current_contract: current_contract@,
                    migration_contract: migration_contract@,
                }
            },
            ContractError::InvalidContractVersion { current_version, migration_version } => {
                ContractErrorView::InvalidContractVersion {
                    current_version: current_version@,
                    migration_version: migration_version@,
                }
            },
            ContractError::InvalidFields { fields } => ContractErrorView::InvalidFields {
                fields: fields.deep_view(),
            },
            ContractError::InvalidFundsProvided { valid_denom, invalid_denoms } => {
                ContractErrorView::InvalidFundsProvided {
                    valid_denom: valid_denom@,
                    invalid_denoms: invalid_denoms.deep_view(),
                }
            },
            ContractError::InvalidMigration(reason) => ContractErrorView::InvalidMigration(reason@),
            ContractError::InvalidPayable { payable_uuid, invalid_reason } => {
                ContractErrorView::InvalidPayable {
                    payable_uuid: payable_uuid@,
                    invalid_reason: invalid_reason@,
                }
            },
            ContractError::InvalidScopeAttribute { scope_id, attribute_amount } => {
                ContractErrorView::InvalidScopeAttribute {
                    scope_id: scope_id@,
                    attribute_amount: *attribute_amount,
                }
            },
            ContractError::NoFundsProvided { valid_denom } => ContractErrorView::NoFundsProvided {
                valid_denom: valid_denom@,
            },
            ContractError::NotReadyForPayment { payable_uuid, not_ready_reason } => {
                ContractErrorView::NotReadyForPayment {
                    payable_uuid: payable_uuid@,
                    not_ready_reason: not_ready_reason@,
                }
            },
            ContractError::ParseInt(text) => ContractErrorView::ParseInt(text@),
            ContractError::PayableNotFound { payable_uuid } => ContractErrorView::PayableNotFound {
                payable_uuid: payable_uuid@,
            },
            ContractError::PaymentTooLarge { total_owed, amount_provided } => {
                ContractErrorView::PaymentTooLarge {
                    total_owed: *total_owed,
                    amount_provided: *amount_provided,
                }
            },
            ContractError::SemVer(text) => ContractErrorView::SemVer(text@),
        }
    }
}

impl DeepView for ContractError {
    type V = ContractErrorView;

    open spec fn deep_view(&self) -> ContractErrorView {
        self@
    }
}

/// The names in `fields`, each as a sequence of characters.
pub open spec fn field_names(fields: Seq<&str>) -> Seq<Seq<char>> {
    Seq::new(fields.len(), |i: int| fields[i]@)
}

impl ContractError {
    /// Wraps the error as the failing outcome of a call.
    pub fn to_result<T>(self) -> (r: Result<T, ContractError>)
        ensures
            r is Err,
            r->Err_0 == self,
    {
        Err(self)
    }

    /// A failing outcome that carries a generic runtime error with the given message.
    pub fn std_err<T>(msg: &str) -> (r: Result<T, ContractError>)
        ensures
            r is Err,
            r->Err_0@ == ContractErrorView::Std(StdErrorView::GenericErr { msg: msg@ }),
    {
        Err(ContractError::Std(StdError::generic_err(msg)))
    }

    /// The error that reports the given field names as invalid, in the order given.
    pub fn invalid_fields(fields: Vec<&str>) -> (r: ContractError)
        ensures
            r@ == (ContractErrorView::InvalidFields { fields: field_names(fields@) }),
    {
        let mut names: Vec<String> = Vec::new();
        let mut i: usize = 0;
        while i < fields.len()
            invariant
                i <= fields.len(),
                names.deep_view() == field_names(fields@).subrange(0, i as int),
            decreases fields.len() - i,
        {
            names.push(String::from_str(fields[i]));
            i += 1;
            assert(field_names(fields@).subrange(0, i as int) =~= field_names(fields@).subrange(
                0,
                i - 1,
            ).push(fields[i - 1]@));
        }
        assert(field_names(fields@).subrange(0, i as int) =~= field_names(fields@));
        ContractError::InvalidFields { fields: names }
    }

    /// The error that reports a version string which is no semantic version.
    pub fn from_sem_ver(reason: String) -> (r: ContractError)
        ensures
            r@ == ContractErrorView::SemVer(reason@),
    {
        ContractError::SemVer(reason)
    }
}

} // verus!
