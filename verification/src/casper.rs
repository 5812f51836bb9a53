//! The named keys and contract packages of `casper_types`: what they hold, and the calls that
//! read them.
//!
//! Nothing in this module is proved. Every item states what the crate's own code does.

use casper_types::contracts::ContractPackage;
use casper_types::contracts::NamedKeys;
use vstd::prelude::*;

use crate::package::PackageView;
use crate::types::{ContractHash, ContractVersionKey, HashAddr};

verus! {

/// `casper_types::contracts::NamedKeys`, a map from names to keys.
#[verifier::external_type_specification]
#[verifier::external_body]
pub struct ExNamedKeys(NamedKeys);

/// `casper_types::contracts::ContractPackage`, the versions of one contract.
#[verifier::external_type_specification]
#[verifier::external_body]
pub struct ExContractPackage(ContractPackage);

/// What the named keys hold: under each name the address of its key where that is a hash key,
/// and `None` where it is a key of another kind.
pub uninterp spec fn named_hashes(named_keys: NamedKeys) -> Map<Seq<char>, Option<HashAddr>>;

/// All versions of the package, enabled or not, each with the hash of its contract.
pub uninterp spec fn package_versions(package: ContractPackage) -> Map<
    ContractVersionKey,
    ContractHash,
>;

/// The versions of the package that are disabled.
pub uninterp spec fn package_disabled_versions(package: ContractPackage) -> Set<
    ContractVersionKey,
>;

/// `NamedKeys::get`, whose key is handed out as `Key::into_hash_addr` gives it: `None` where the
/// name is not there, else what the name stands for.
#[verifier::external_body]
pub(crate) fn get_named_hash(named_keys: &NamedKeys, name: &String) -> (found: Option<
    Option<HashAddr>,
>)
    ensures
        found == named_hashes(*named_keys).get(name@),
{
    match named_keys.get(name) {
        Some(key) => Some(key.into_hash_addr()),
        None => None,
    }
}

/// `ContractPackage::current_contract_version`: the newest of the versions that are there and not
/// disabled, and `None` where there is no such version.
#[verifier::external_body]
pub(crate) fn current_contract_version(package: &ContractPackage) -> (current: Option<
    ContractVersionKey,
>)
    ensures
        current matches Some(key) ==> PackageView::of(*package).is_newest_enabled(key),
        current is None ==> !PackageView::of(*package).has_enabled_version(),
{
    match package.current_contract_version() {
        Some(key) => Some(
            ContractVersionKey {
                protocol_version_major: key.protocol_version_major(),
                contract_version: key.contract_version(),
            },
        ),
        None => None,
    }
}

/// `ContractPackage::is_version_enabled`: whether the version is there and not disabled.
#[verifier::external_body]
pub(crate) fn is_version_enabled(package: &ContractPackage, key: ContractVersionKey) -> (enabled:
    bool)
    ensures
        enabled == (package_versions(*package).contains_key(key) && !package_disabled_versions(
            *package,
        ).contains(key)),
{
    package.is_version_enabled(
        casper_types::contracts::ContractVersionKey::new(
            key.protocol_version_major,
            key.contract_version,
        ),
    )
}

/// `ContractPackage::versions`, of which the entry of one version is handed out: the hash of its
/// contract where the version is there, enabled or not, else `None`.
#[verifier::external_body]
pub(crate) fn lookup_contract_hash(package: &ContractPackage, key: ContractVersionKey) -> (found:
    Option<ContractHash>)
    ensures
        found == package_versions(*package).get(key),
{
    let key = casper_types::contracts::ContractVersionKey::new(
        key.protocol_version_major,
        key.contract_version,
    );
    match package.versions().get(&key) {
        Some(hash) => Some(ContractHash(hash.value())),
        None => None,
    }
}

} // verus!
