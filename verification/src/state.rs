use crate::decimal::Decimal;
use vstd::prelude::*;

verus! {

/// The contract's configuration in its first generation, which named one payable type
/// and one oracle for every payable.
#[derive(Debug, PartialEq, Eq)]
pub struct State {
    pub payable_type: String,
    pub contract_name: String,
    pub onboarding_cost: u128,
    pub onboarding_denom: String,
    pub fee_collection_address: String,
    pub fee_percent: Decimal,
    pub oracle_address: String,
    pub is_local: bool,
}

pub struct StateView {
    pub payable_type: Seq<char>,
    pub contract_name: Seq<char>,
    pub onboarding_cost: u128,
    pub onboarding_denom: Seq<char>,
    pub fee_collection_address: Seq<char>,
    pub fee_percent: Decimal,
    pub oracle_address: Seq<char>,
    pub is_local: bool,
}

impl View for State {
    type V = StateView;

    open spec fn view(&self) -> StateView {
        StateView {
            payable_type: self.payable_type@,
            contract_name: self.contract_name@,
            onboarding_cost: self.onboarding_cost,
            onboarding_denom: self.onboarding_denom@,
            fee_collection_address: self.fee_collection_address@,
            fee_percent: self.fee_percent,
            oracle_address: self.oracle_address@,
            is_local: self.is_local,
        }
    }
}

impl DeepView for State {
    type V = StateView;

    open spec fn deep_view(&self) -> StateView {
        self@
    }
}

/// The contract's configuration: one per deployed instance, changed only by migration.
#[derive(Debug, PartialEq, Eq)]
pub struct StateV2 {
    /// The name bound to the contract, under which every payable's attribute is written.
    pub contract_name: String,
    /// What registering one payable costs.
    pub onboarding_cost: u128,
    /// The denomination in which that cost is paid.
    pub onboarding_denom: String,
    /// The account that receives the fee's share of the cost.
    pub fee_collection_address: String,
    /// The share of the cost taken as fee; the rest is kept for the oracle.
    pub fee_percent: Decimal,
    /// Skips the ownership check on registration.
    pub is_local: bool,
}

pub struct StateV2View {
    pub contract_name: Seq<char>,
    pub onboarding_cost: u128,
    pub onboarding_denom: Seq<char>,
    pub fee_collection_address: Seq<char>,
    pub fee_percent: Decimal,
    pub is_local: bool,
}

impl StateV2View {
    /// The fee's share is a ratio: at most the whole of the onboarding cost.
    pub open spec fn well_formed(self) -> bool {
        self.fee_percent.is_ratio()
    }
}

impl View for StateV2 {
    type V = StateV2View;

    open spec fn view(&self) -> StateV2View {
        StateV2View {
            contract_name: self.contract_name@,
            onboarding_cost: self.onboarding_cost,
            onboarding_denom: self.onboarding_denom@,
            fee_collection_address: self.fee_collection_address@,
            fee_percent: self.fee_percent,
            is_local: self.is_local,
        }
    }
}

impl DeepView for StateV2 {
    type V = StateV2View;

    open spec fn deep_view(&self) -> StateV2View {
        self@
    }
}

impl Clone for StateV2 {
    fn clone(&self) -> (r: Self)
        ensures
            r@ == self@,
    {
        StateV2 {
            contract_name: self.contract_name.clone(),
            onboarding_cost: self.onboarding_cost,
            onboarding_denom: self.onboarding_denom.clone(),
            fee_collection_address: self.fee_collection_address.clone(),
            fee_percent: self.fee_percent,
            is_local: self.is_local,
        }
    }
}

/// A payable in its first generation: the whole record, kept in the contract's own store.
#[derive(Debug, PartialEq, Eq)]
pub struct PayableMeta {
    pub payable_uuid: String,
    pub scope_id: String,
    pub payable_denom: String,
    pub payable_total_owed: u128,
    pub payable_remaining_owed: u128,
    pub oracle_approved: bool,
}

pub struct PayableMetaView {
    pub payable_uuid: Seq<char>,
    pub scope_id: Seq<char>,
    pub payable_denom: Seq<char>,
    pub payable_total_owed: u128,
    pub payable_remaining_owed: u128,
    pub oracle_approved: bool,
}

impl View for PayableMeta {
    type V = PayableMetaView;

    open spec fn view(&self) -> PayableMetaView {
        PayableMetaView {
            payable_uuid: self.payable_uuid@,
            scope_id: self.scope_id@,
            payable_denom: self.payable_denom@,
            payable_total_owed: self.payable_total_owed,
            payable_remaining_owed: self.payable_remaining_owed,
            oracle_approved: self.oracle_approved,
        }
    }
}

impl DeepView for PayableMeta {
    type V = PayableMetaView;

    open spec fn deep_view(&self) -> PayableMetaView {
        self@
    }
}

/// The record of one payable, written as an attribute on the payable's scope.
#[derive(Debug, PartialEq, Eq)]
pub struct PayableScopeAttribute {
    pub payable_type: String,
    pub payable_uuid: String,
    pub scope_id: String,
    pub oracle_address: String,
    pub payable_denom: String,
    pub payable_total_owed: u128,
    pub payable_remaining_owed: u128,
    pub oracle_approved: bool,
}

pub struct PayableScopeAttributeView {
    pub payable_type: Seq<char>,
    pub payable_uuid: Seq<char>,
    pub scope_id: Seq<char>,
    pub oracle_address: Seq<char>,
    pub payable_denom: Seq<char>,
    pub payable_total_owed: u128,
    pub payable_remaining_owed: u128,
    pub oracle_approved: bool,
}

impl PayableScopeAttributeView {
    /// What is still owed never exceeds what was owed at first.
    pub open spec fn well_formed(self) -> bool {
        self.payable_remaining_owed <= self.payable_total_owed
    }
}

impl View for PayableScopeAttribute {
    type V = PayableScopeAttributeView;

    open spec fn view(&self) -> PayableScopeAttributeView {
        PayableScopeAttributeView {
            payable_type: self.payable_type@,
            payable_uuid: self.payable_uuid@,
            scope_id: self.scope_id@,
            oracle_address: self.oracle_address@,
            payable_denom: self.payable_denom@,
            payable_total_owed: self.payable_total_owed,
            payable_remaining_owed: self.payable_remaining_owed,
            oracle_approved: self.oracle_approved,
        }
    }
}

impl DeepView for PayableScopeAttribute {
    type V = PayableScopeAttributeView;

    open spec fn deep_view(&self) -> PayableScopeAttributeView {
        self@
    }
}

impl Clone for PayableScopeAttribute {
    fn clone(&self) -> (r: Self)
        ensures
            r@ == self@,
    {
        PayableScopeAttribute {
            payable_type: self.payable_type.clone(),
            payable_uuid: self.payable_uuid.clone(),
            scope_id: self.scope_id.clone(),
            oracle_address: self.oracle_address.clone(),
            payable_denom: self.payable_denom.clone(),
            payable_total_owed: self.payable_total_owed,
            payable_remaining_owed: self.payable_remaining_owed,
            oracle_approved: self.oracle_approved,
        }
    }
}

/// The link from a payable's uuid to the scope that carries its record.
#[derive(Debug, PartialEq, Eq)]
pub struct PayableMetaV2 {
    pub payable_uuid: String,
    pub scope_id: String,
}

pub struct PayableMetaV2View {
    pub payable_uuid: Seq<char>,
    pub scope_id: Seq<char>,
}

impl View for PayableMetaV2 {
    type V = PayableMetaV2View;

    open spec fn view(&self) -> PayableMetaV2View {
        PayableMetaV2View { payable_uuid: self.payable_uuid@, scope_id: self.scope_id@ }
    }
}

impl DeepView for PayableMetaV2 {
    type V = PayableMetaV2View;

    open spec fn deep_view(&self) -> PayableMetaV2View {
        self@
    }
}

impl Clone for PayableMetaV2 {
    fn clone(&self) -> (r: Self)
        ensures
            r@ == self@,
    {
        PayableMetaV2 { payable_uuid: self.payable_uuid.clone(), scope_id: self.scope_id.clone() }
    }
}

/// The contract's identifier and version, as last stamped into its store.
#[derive(Debug, PartialEq, Eq)]
pub struct VersionInfoV1 {
    pub contract: String,
    pub version: String,
}

pub struct VersionInfoV1View {
    pub contract: Seq<char>,
    pub version: Seq<char>,
}

impl View for VersionInfoV1 {
    type V = VersionInfoV1View;

    open spec fn view(&self) -> VersionInfoV1View {
        VersionInfoV1View { contract: self.contract@, version: self.version@ }
    }
}

impl DeepView for VersionInfoV1 {
    type V = VersionInfoV1View;

    open spec fn deep_view(&self) -> VersionInfoV1View {
        self@
    }
}

impl Clone for VersionInfoV1 {
    fn clone(&self) -> (r: Self)
        ensures
            r@ == self@,
    {
        VersionInfoV1 { contract: self.contract.clone(), version: self.version.clone() }
    }
}

} // verus!
