//! What a contract package holds, and which of its versions counts as the current one.

use casper_types::contracts::ContractPackage;
use vstd::prelude::*;

use crate::types::{ContractHash, ContractVersionKey};

verus! {

/// The versions of a contract package.
pub struct PackageView {
    /// All versions, enabled or not, each with the hash of its contract.
    pub versions: Map<ContractVersionKey, ContractHash>,
    /// The versions that are disabled.
    pub disabled_versions: Set<ContractVersionKey>,
}

impl PackageView {
    /// What the given package holds.
    pub open spec fn of(package: ContractPackage) -> Self {
        PackageView {
            versions: crate::casper::package_versions(package),
            disabled_versions: crate::casper::package_disabled_versions(package),
        }
    }

    /// The version is there and not disabled.
    pub open spec fn is_enabled(self, key: ContractVersionKey) -> bool {
        &&& self.versions.contains_key(key)
        &&& !self.disabled_versions.contains(key)
    }

    /// The version is enabled, and no enabled version is newer.
    pub open spec fn is_newest_enabled(self, key: ContractVersionKey) -> bool {
        &&& self.is_enabled(key)
        &&& forall|other: ContractVersionKey| #[trigger]
            self.is_enabled(other) ==> other.at_most(key)
    }

    /// Some version is enabled.
    pub open spec fn has_enabled_version(self) -> bool {
        exists|key: ContractVersionKey| self.is_enabled(key)
    }

    /// The newest enabled version, if any version is enabled.
    pub open spec fn current_version(self) -> Option<ContractVersionKey> {
        if self.has_enabled_version() {
            Some(choose|key: ContractVersionKey| self.is_newest_enabled(key))
        } else {
            None
        }
    }

    /// Where there is a current version, it is the newest enabled one. This holds of every package
    /// with finitely many versions.
    pub open spec fn has_newest_where_enabled(self) -> bool {
        self.current_version() matches Some(key) ==> self.is_newest_enabled(key)
    }
}

/// At most one version is the newest enabled one.
pub proof fn lemma_newest_enabled_is_unique(
    package: PackageView,
    first: ContractVersionKey,
    second: ContractVersionKey,
)
    requires
        package.is_newest_enabled(first),
        package.is_newest_enabled(second),
    ensures
        first == second,
{
    assert(first.at_most(second) && second.at_most(first));
}

/// The newest enabled version is the current one.
pub proof fn lemma_newest_enabled_is_current(package: PackageView, newest: ContractVersionKey)
    requires
        package.is_newest_enabled(newest),
    ensures
        package.current_version() == Some(newest),
{
    let chosen = choose|key: ContractVersionKey| package.is_newest_enabled(key);
    lemma_newest_enabled_is_unique(package, newest, chosen);
}

/// A finite set of versions that is not empty has a newest one.
proof fn lemma_finite_set_has_newest(keys: Set<ContractVersionKey>)
    requires
        keys.finite(),
        !keys.is_empty(),
    ensures
        exists|newest: ContractVersionKey|
            keys.contains(newest) && forall|key: ContractVersionKey| #[trigger]
                keys.contains(key) ==> key.at_most(newest),
    decreases keys.len(),
{
    let some = keys.choose();
    let rest = keys.remove(some);
    if rest.is_empty() {
        assert forall|key: ContractVersionKey| #[trigger]
            keys.contains(key) implies key.at_most(some) by {
            assert(key == some || rest.contains(key));
        }
        assert(keys.contains(some));
    } else {
        lemma_finite_set_has_newest(rest);
        let best = choose|newest: ContractVersionKey|
            rest.contains(newest) && forall|key: ContractVersionKey| #[trigger]
                rest.contains(key) ==> key.at_most(newest);
        let newest = if some.at_most(best) {
            best
        } else {
            some
        };
        assert forall|key: ContractVersionKey| #[trigger]
            keys.contains(key) implies key.at_most(newest) by {
            assert(key == some || rest.contains(key));
        }
        assert(keys.contains(newest));
    }
}

/// A package with finitely many versions has a current version exactly where some version is
/// enabled, and the current version is the newest enabled one.
pub proof fn current_version_is_newest_enabled(package: PackageView)
    requires
        package.versions.dom().finite(),
    ensures
        package.current_version() is Some <==> package.has_enabled_version(),
        package.has_newest_where_enabled(),
{
    if package.has_enabled_version() {
        let enabled = package.versions.dom().difference(package.disabled_versions);
        let witness = choose|key: ContractVersionKey| package.is_enabled(key);
        assert(enabled.contains(witness));
        lemma_finite_set_has_newest(enabled);
        let newest = choose|newest: ContractVersionKey|
            enabled.contains(newest) && forall|key: ContractVersionKey| #[trigger]
                enabled.contains(key) ==> key.at_most(newest);
        assert forall|other: ContractVersionKey| #[trigger]
            package.is_enabled(other) implies other.at_most(newest) by {
            assert(enabled.contains(other));
        }
        assert(package.is_newest_enabled(newest));
    }
}

/// A version of a package is enabled exactly where the package lists it among its versions and not
/// among its disabled versions.
pub proof fn enabled_versions_are_listed_and_not_disabled(
    package: ContractPackage,
    key: ContractVersionKey,
)
    ensures
        PackageView::of(package).is_enabled(key) <==> crate::casper::package_versions(
            package,
        ).contains_key(key) && !crate::casper::package_disabled_versions(package).contains(key),
{
}

/// The newest enabled version is enabled, and every other enabled version belongs to an earlier
/// major protocol version, or to the same one with a smaller contract version.
pub proof fn newest_enabled_version_follows_all_others(
    package: PackageView,
    newest: ContractVersionKey,
    other: ContractVersionKey,
)
    requires
        package.is_newest_enabled(newest),
        package.is_enabled(other),
        other != newest,
    ensures
        package.is_enabled(newest),
        other.protocol_version_major <= newest.protocol_version_major,
        other.protocol_version_major == newest.protocol_version_major ==> other.contract_version
            < newest.contract_version,
{
}

/// An enabled version is the newest enabled one where no enabled version belongs to a later major
/// protocol version, nor to the same one with a greater contract version.
pub proof fn version_that_none_follows_is_newest_enabled(
    package: PackageView,
    newest: ContractVersionKey,
)
    requires
        package.is_enabled(newest),
        forall|other: ContractVersionKey| #[trigger]
            package.is_enabled(other) ==> other.protocol_version_major
                <= newest.protocol_version_major && (other.protocol_version_major
                == newest.protocol_version_major ==> other.contract_version
                <= newest.contract_version),
    ensures
        package.is_newest_enabled(newest),
        package.has_enabled_version(),
{
}

/// A package that has disabled all that it lists has no enabled version.
pub proof fn disabled_package_has_no_enabled_version(package: ContractPackage)
    requires
        forall|key: ContractVersionKey| #[trigger]
            crate::casper::package_versions(package).contains_key(key)
                ==> crate::casper::package_disabled_versions(package).contains(key),
    ensures
        !PackageView::of(package).has_enabled_version(),
        PackageView::of(package).current_version() is None,
{
}

} // verus!
