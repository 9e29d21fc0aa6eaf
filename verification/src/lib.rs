//! A contract that keeps payables on a ledger: obligations that are registered against
//! a scope of the ledger's metadata, approved by an oracle, and paid down until
//! nothing is owed. Every operation is a function from what the ledger holds for the
//! call to the messages and event tags that it hands back, and is proved to be the
//! function that its contract names.

pub mod constants;
pub mod contract;
pub mod conversions;
pub mod decimal;
pub mod error;
pub mod funds;
pub mod init_contract;
pub mod ledger;
pub mod lifecycle;
pub mod make_payment;
pub mod migrate_contract;
pub mod msg;
pub mod oracle_approval;
pub mod provenance_util;
pub mod query;
pub mod register_payable;
pub mod state;
pub mod text;
pub mod version_info;
