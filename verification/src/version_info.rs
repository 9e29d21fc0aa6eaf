use crate::error::{ContractError, ContractErrorView};
use crate::ledger::{Deps, DepsView};
use crate::state::{VersionInfoV1, VersionInfoV1View};
use vstd::prelude::*;
use vstd::string::StringExecFns;

verus! {

/// The contract's identifier.
pub const CONTRACT_NAME: &'static str = "payable_asset_smart_contract";

/// The contract's version.
pub const CONTRACT_VERSION: &'static str = "1.0.0";

/// What `Version::parse` of semver makes of `text`: nothing to object to where `text`
/// is a semantic version, and else the text of the error it gives.
pub uninterp spec fn sem_ver_error(text: Seq<char>) -> Option<Seq<char>>;

/// Whether, by the order of semver's `Version`, the version that `stored` writes is
/// greater than the one that `running` writes. It speaks of texts that are both
/// semantic versions.
pub uninterp spec fn sem_ver_exceeds(stored: Seq<char>, running: Seq<char>) -> bool;

/// Calls `Version::parse` of semver, and `to_string` on the error where it gives one.
#[verifier::external_body]
fn sem_ver_parse_error(text: &str) -> (r: Option<String>)
    ensures
        r.deep_view() == sem_ver_error(text@),
{
    match semver::Version::parse(text) {
        Ok(_) => None,
        Err(e) => Some(e.to_string()),
    }
}

/// Compares with `>` the two `Version`s of semver that the two texts parse to.
#[verifier::external_body]
fn sem_ver_greater(stored: &str, running: &str) -> (r: bool)
    requires
        sem_ver_error(stored@) is None,
        sem_ver_error(running@) is None,
    ensures
        r == sem_ver_exceeds(stored@, running@),
{
    match (semver::Version::parse(stored), semver::Version::parse(running)) {
        (Ok(stored), Ok(running)) => stored > running,
        _ => false,
    }
}

/// The version info that the running contract stamps into the store.
pub open spec fn running_version_info() -> VersionInfoV1View {
    VersionInfoV1View { contract: CONTRACT_NAME@, version: CONTRACT_VERSION@ }
}

/// Whether the stored version info admits a migration to the running contract, given
/// what was found out about the two versions: `running_error` and `stored_error` say
/// what keeps either from being a semantic version, and `stored_exceeds` says whether
/// the stored version is the greater. The stored identifier must be the running
/// contract's, both versions must be semantic versions, and the stored one must not
/// be the greater.
pub open spec fn migration_ruling(
    stored: VersionInfoV1View,
    running_error: Option<Seq<char>>,
    stored_error: Option<Seq<char>>,
    stored_exceeds: bool,
) -> Result<(), ContractErrorView> {
    if stored.contract != CONTRACT_NAME@ {
        Err(
            ContractErrorView::InvalidContractName {
                current_contract: stored.contract,
                migration_contract: CONTRACT_NAME@,
            },
        )
    } else if let Some(reason) = running_error {
        Err(ContractErrorView::SemVer(reason))
    } else if let Some(reason) = stored_error {
        Err(ContractErrorView::SemVer(reason))
    } else if stored_exceeds {
        Err(
            ContractErrorView::InvalidContractVersion {
                current_version: stored.version,
                migration_version: CONTRACT_VERSION@,
            },
        )
    } else {
        Ok(())
    }
}

/// Whether the store admits a migration to the running contract.
pub open spec fn migration_versioning(deps: DepsView) -> Result<(), ContractErrorView> {
    match deps.version_info {
        Err(e) => Err(ContractErrorView::Std(e)),
        Ok(stored) => migration_ruling(
            stored,
            sem_ver_error(CONTRACT_VERSION@),
            sem_ver_error(stored.version),
            sem_ver_exceeds(stored.version, CONTRACT_VERSION@),
        ),
    }
}

/// The view of a ruling.
pub open spec fn ruling_view(r: Result<(), ContractError>) -> Result<(), ContractErrorView> {
    match r {
        Ok(_) => Ok(()),
        Err(e) => Err(e@),
    }
}

/// Rules on a migration from what was found out about the stored and the running version.
pub fn decide_migration(
    stored: &VersionInfoV1,
    running_error: Option<String>,
    stored_error: Option<String>,
    stored_exceeds: bool,
) -> (r: Result<(), ContractError>)
    ensures
        ruling_view(r) == migration_ruling(
            stored@,
            running_error.deep_view(),
            stored_error.deep_view(),
            stored_exceeds,
        ),
{
    let running_name = String::from_str(CONTRACT_NAME);
    if stored.contract != running_name {
        return Err(
            ContractError::InvalidContractName {
                current_contract: stored.contract.clone(),
                migration_contract: running_name,
            },
        );
    }
    if let Some(reason) = running_error {
        return Err(ContractError::from_sem_ver(reason));
    }
    if let Some(reason) = stored_error {
        return Err(ContractError::from_sem_ver(reason));
    }
    if stored_exceeds {
        return Err(
            ContractError::InvalidContractVersion {
                current_version: stored.version.clone(),
                migration_version: String::from_str(CONTRACT_VERSION),
            },
        );
    }
    Ok(())
}

/// Reads the version info from the store.
pub fn get_version_info(deps: &Deps) -> (r: Result<VersionInfoV1, ContractError>)
    ensures
        match r {
            Ok(info) => deps@.version_info == Ok::<VersionInfoV1View, crate::error::StdErrorView>(
                info@,
            ),
            Err(e) => deps@.version_info is Err && e@ == ContractErrorView::Std(
                deps@.version_info->Err_0,
            ),
        },
{
    match &deps.version_info {
        Ok(info) => Ok(info.clone()),
        Err(e) => Err(ContractError::Std(e.clone())),
    }
}

/// Writes the version info into the store.
pub fn set_version_info(deps: &mut Deps, version_info: VersionInfoV1)
    ensures
        final(deps)@ == (DepsView { version_info: Ok(version_info@), ..old(deps)@ }),
{
    deps.version_info = Ok(version_info);
}

/// Stamps the running contract's identifier and version into the store, and gives them back.
pub fn migrate_version_info(deps: &mut Deps) -> (r: VersionInfoV1)
    ensures
        r@ == running_version_info(),
        final(deps)@ == (DepsView { version_info: Ok(running_version_info()), ..old(deps)@ }),
{
    let version_info = VersionInfoV1 {
        contract: String::from_str(CONTRACT_NAME),
        version: String::from_str(CONTRACT_VERSION),
    };
    set_version_info(deps, version_info.clone());
    version_info
}

/// Checks that the store admits a migration to the running contract: it must have been
/// stamped by this contract, and by no later version of it.
pub fn check_valid_migration_versioning(deps: &Deps) -> (r: Result<(), ContractError>)
    ensures
        ruling_view(r) == migration_versioning(deps@),
{
    let stored = match get_version_info(deps) {
        Ok(info) => info,
        Err(e) => {
            return Err(e);
        },
    };
    let running_error = sem_ver_parse_error(CONTRACT_VERSION);
    let stored_error = sem_ver_parse_error(stored.version.as_str());
    let stored_exceeds = if running_error.is_none() && stored_error.is_none() {
        sem_ver_greater(stored.version.as_str(), CONTRACT_VERSION)
    } else {
        false
    };
    decide_migration(&stored, running_error, stored_error, stored_exceeds)
}

} // verus!
