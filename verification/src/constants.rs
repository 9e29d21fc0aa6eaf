use vstd::prelude::*;

verus! {

// Event tags. Every key begins with "payable_", so that the tags are easy to pick out of
// the ledger's event stream.
/// Registration: the payable's uuid.
pub const PAYABLE_REGISTERED_KEY: &'static str = "payable_registered";

/// Registration: the scope that the payable is tied to.
pub const SCOPE_ID_KEY: &'static str = "payable_related_scope_id";

/// Registration: the total owed.
pub const TOTAL_OWED_KEY: &'static str = "payable_total_owed";

/// Registration: the denomination in which the payable is paid.
pub const REGISTERED_DENOM_KEY: &'static str = "payable_denom";

/// Registration: what is kept for the oracle, as an amount, a slash and the denomination.
pub const ORACLE_FUNDS_KEPT: &'static str = "payable_oracle_funds_kept";

/// Registration: what is sent back to the sender, as an amount, a slash and the denomination.
pub const REFUND_AMOUNT_KEY: &'static str = "payable_refund_amount";

/// Approval: the payable's uuid.
pub const ORACLE_APPROVED_KEY: &'static str = "payable_oracle_approved";

/// Payment: the payable's uuid.
pub const PAYMENT_MADE_KEY: &'static str = "payable_payment_made";

/// Payment: the amount paid.
pub const PAYMENT_AMOUNT_KEY: &'static str = "payable_amount_paid";

/// Payment: what is still owed after it.
pub const TOTAL_REMAINING_KEY: &'static str = "payable_total_remaining";

/// Payment: the account that paid.
pub const PAYER_KEY: &'static str = "payable_payer";

/// Payment: the account that was paid.
pub const PAYEE_KEY: &'static str = "payable_payee";

/// Migration: the prefix of the tag that names a changed field of the configuration.
pub const MIGRATION_STATE_CHANGE_PREFIX: &'static str = "payable_migration_state_field_";

/// Migration: the contract's identifier.
pub const MIGRATION_CONTRACT_NAME: &'static str = "payable_migration_contract_name";

/// Migration: the version migrated to.
pub const MIGRATION_CONTRACT_VERSION: &'static str = "payable_migration_contract_version";

/// Every operation on a payable: its uuid.
pub const PAYABLE_UUID_KEY: &'static str = "payable_uuid";

/// Every operation on a payable: its type.
pub const PAYABLE_TYPE_KEY: &'static str = "payable_type";

/// Every operation on a payable: its oracle's address.
pub const ORACLE_ADDRESS_KEY: &'static str = "payable_oracle_address";

} // verus!
