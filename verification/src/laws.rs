//! What holds of the resolution of deploy items as a whole.

use casper_types::contracts::ContractPackage;
use vstd::prelude::*;

use crate::casper;
use crate::execution_kind;
use crate::package;
use crate::error::{Error, ErrorView, ExecError, ExecErrorView};
use crate::execution_kind::{
    ExecutionKind, ExecutionKindView, PackageRequestView, Step, StepView,
};
use crate::package::PackageView;
use crate::types::{
    ContractHash, ContractPackageHash, ContractVersionKey, ExecutableDeployItem, HashAddr, Phase,
};

verus! {

/// A native transfer is refused, whatever the named keys and the phase.
pub proof fn transfer_is_never_executed<E>(named: Map<Seq<char>, Option<HashAddr>>, phase: Phase)
    ensures
        execution_kind::first_step::<E>(named, ExecutableDeployItem::Transfer, phase)
            == Err::<StepView, ErrorView<E>>(ErrorView::InvalidDeployItemVariant("Transfer"@)),
{
}

/// Bytes are executed only where the item holds them, and a contract is called at the entry point
/// that the item gives, in the version that it gives.
pub proof fn entry_point_and_version_are_kept<E>(
    named: Map<Seq<char>, Option<HashAddr>>,
    item: ExecutableDeployItem,
    phase: Phase,
)
    ensures
        execution_kind::first_step::<E>(named, item, phase) matches Ok(step) ==> match step {
            StepView::Done(ExecutionKindView::Module(bytes)) =>
                item matches ExecutableDeployItem::ModuleBytes { module_bytes }
                    && module_bytes@ == bytes,
            StepView::Done(ExecutionKindView::Contract { entry_point_name, .. }) => match item {
                ExecutableDeployItem::StoredContractByHash { entry_point, .. } => entry_point@
                    == entry_point_name,
                ExecutableDeployItem::StoredContractByName { entry_point, .. } => entry_point@
                    == entry_point_name,
                _ => false,
            },
            StepView::ReadPackage(request) => match item {
                ExecutableDeployItem::StoredVersionedContractByHash { version, entry_point, .. } =>
                    entry_point@ == request.entry_point && version == request.version,
                ExecutableDeployItem::StoredVersionedContractByName { version, entry_point, .. } =>
                    entry_point@ == request.entry_point && version == request.version,
                _ => false,
            },
        },
{
}

/// Module bytes are executed as they are, unless there are none and they would have to pay.
pub proof fn only_an_empty_payment_module_is_refused<E>(
    named: Map<Seq<char>, Option<HashAddr>>,
    module_bytes: Vec<u8>,
    phase: Phase,
)
    ensures
        ({
            let step = execution_kind::first_step::<E>(
                named,
                ExecutableDeployItem::ModuleBytes { module_bytes },
                phase,
            );
            &&& step is Err <==> module_bytes@.len() == 0 && phase == Phase::Payment
            &&& step matches Ok(step) ==> step == StepView::Done(
                ExecutionKindView::Module(module_bytes@),
            )
        }),
{
}

/// The phase makes no difference but to an empty module.
pub proof fn phase_matters_only_to_empty_modules<E>(
    named: Map<Seq<char>, Option<HashAddr>>,
    item: ExecutableDeployItem,
    first: Phase,
    second: Phase,
)
    requires
        item matches ExecutableDeployItem::ModuleBytes { module_bytes } ==> module_bytes@.len()
            > 0,
    ensures
        execution_kind::first_step::<E>(named, item, first)
            == execution_kind::first_step::<E>(named, item, second),
{
}

/// A contract named by a hash key is the contract of that hash.
pub proof fn named_contract_is_the_contract_of_its_hash<E>(
    named: Map<Seq<char>, Option<HashAddr>>,
    name: String,
    addr: HashAddr,
    entry_point: String,
    phase: Phase,
)
    requires
        named.get(name@) == Some(Some(addr)),
    ensures
        execution_kind::first_step::<E>(
            named,
            ExecutableDeployItem::StoredContractByName { name, entry_point },
            phase,
        ) == execution_kind::first_step::<E>(
            named,
            ExecutableDeployItem::StoredContractByHash { hash: ContractHash(addr), entry_point },
            phase,
        ),
{
}

/// A contract package named by a hash key is the contract package of that hash.
pub proof fn named_package_is_the_package_of_its_hash<E>(
    named: Map<Seq<char>, Option<HashAddr>>,
    name: String,
    addr: HashAddr,
    version: Option<u32>,
    entry_point: String,
    phase: Phase,
)
    requires
        named.get(name@) == Some(Some(addr)),
    ensures
        execution_kind::first_step::<E>(
            named,
            ExecutableDeployItem::StoredVersionedContractByName { name, version, entry_point },
            phase,
        ) == execution_kind::first_step::<E>(
            named,
            ExecutableDeployItem::StoredVersionedContractByHash {
                hash: ContractPackageHash(addr),
                version,
                entry_point,
            },
            phase,
        ),
{
}

/// An item that refers to a name fails exactly where the name is not that of a hash key, and it
/// fails alike whether or not it asks for a version.
pub proof fn named_item_fails_with_its_name<E>(
    named: Map<Seq<char>, Option<HashAddr>>,
    name: String,
    version: Option<u32>,
    entry_point: String,
    phase: Phase,
)
    ensures
        ({
            let plain = execution_kind::first_step::<E>(
                named,
                ExecutableDeployItem::StoredContractByName { name, entry_point },
                phase,
            );
            let versioned = execution_kind::first_step::<E>(
                named,
                ExecutableDeployItem::StoredVersionedContractByName { name, version, entry_point },
                phase,
            );
            let missing: ErrorView<E> = ErrorView::Exec(ExecErrorView::NamedKeyNotFound(name@));
            let failed = Err::<StepView, _>(missing);
            &&& !named.contains_key(name@) <==> plain == failed
            &&& !named.contains_key(name@) <==> versioned == failed
            &&& named.get(name@) == Some(None::<HashAddr>) <==> plain == Err::<StepView, _>(
                ErrorView::<E>::InvalidKeyVariant,
            )
            &&& named.get(name@) == Some(None::<HashAddr>) <==> versioned == Err::<StepView, _>(
                ErrorView::<E>::InvalidKeyVariant,
            )
            &&& plain is Err <==> versioned is Err
        }),
{
}

/// The named keys make no difference to an item that refers to no name, and only the key of its
/// own name does to one that refers to a name.
pub proof fn only_the_own_name_matters<E>(
    first: Map<Seq<char>, Option<HashAddr>>,
    second: Map<Seq<char>, Option<HashAddr>>,
    item: ExecutableDeployItem,
    phase: Phase,
)
    requires
        item matches ExecutableDeployItem::StoredContractByName { name, .. } ==> first.get(name@)
            == second.get(name@),
        item matches ExecutableDeployItem::StoredVersionedContractByName { name, .. } ==> first.get(
            name@,
        ) == second.get(name@),
    ensures
        execution_kind::first_step::<E>(first, item, phase)
            == execution_kind::first_step::<E>(second, item, phase),
{
}

/// A request finds a contract exactly where the version it asks for is enabled or, where it asks
/// for none, where any version is enabled.
pub proof fn request_succeeds_where_a_version_is_enabled<E>(
    request: PackageRequestView,
    package: PackageView,
    protocol_version_major: u32,
)
    requires
        request.version is None ==> package.has_newest_where_enabled(),
    ensures
        execution_kind::resolved::<E>(request, package, protocol_version_major) is Ok <==> (
        match request.version {
            Some(contract_version) => package.is_enabled(
                ContractVersionKey { protocol_version_major, contract_version },
            ),
            None => package.has_enabled_version(),
        }),
{
}

/// The contract that a request finds is that of an enabled version of its package, and it is
/// called at the entry point that was asked for. Asked for a version, it is that version within
/// the running major protocol version; asked for none, it is the newest enabled one.
pub proof fn found_contract_is_an_enabled_version<E>(
    request: PackageRequestView,
    package: PackageView,
    protocol_version_major: u32,
)
    requires
        request.version is None ==> package.has_newest_where_enabled(),
        execution_kind::resolved::<E>(request, package, protocol_version_major) is Ok,
    ensures
        exists|key: ContractVersionKey|
            {
                &&& #[trigger] package.is_enabled(key)
                &&& match request.version {
                    Some(contract_version) => key == (ContractVersionKey {
                        protocol_version_major,
                        contract_version,
                    }),
                    None => package.is_newest_enabled(key),
                }
                &&& execution_kind::resolved::<E>(request, package, protocol_version_major)
                    == Ok::<_, ErrorView<E>>(
                    ExecutionKindView::Contract {
                        contract_hash: package.versions[key],
                        entry_point_name: request.entry_point,
                    },
                )
            },
{
    let key = execution_kind::wanted_version(
        package,
        request.version,
        protocol_version_major,
    ).unwrap();
    assert(package.is_enabled(key));
}

/// A request without a version never fails over a version: it fails only where no version is
/// enabled, and then names its package.
pub proof fn request_without_version_fails_only_without_enabled_versions<E>(
    request: PackageRequestView,
    package: PackageView,
    protocol_version_major: u32,
)
    requires
        package.has_newest_where_enabled(),
        request.version is None,
    ensures
        execution_kind::resolved::<E>(request, package, protocol_version_major) matches Err(
            error,
        ) ==> !package.has_enabled_version() && error == ErrorView::<E>::Exec(
            ExecErrorView::NoActiveContractVersions(request.contract_package_hash),
        ),
{
}

/// A request for a version fails only over that version, whatever other versions there are.
pub proof fn request_for_a_version_fails_only_over_it<E>(
    request: PackageRequestView,
    package: PackageView,
    protocol_version_major: u32,
    contract_version: u32,
)
    requires
        request.version == Some(contract_version),
    ensures
        execution_kind::resolved::<E>(request, package, protocol_version_major) matches Err(
            error,
        ) ==> ({
            let key = ContractVersionKey { protocol_version_major, contract_version };
            &&& !package.is_enabled(key)
            &&& error == ErrorView::<E>::Exec(ExecErrorView::InvalidContractVersion(key))
        }),
{
}

/// Asking for no version is asking for the current one, where that belongs to the running major
/// protocol version.
pub proof fn no_version_means_the_current_one<E>(
    request: PackageRequestView,
    package: PackageView,
    current: ContractVersionKey,
)
    requires
        package.current_version() == Some(current),
    ensures
        execution_kind::resolved::<E>(
            PackageRequestView { version: None, ..request },
            package,
            current.protocol_version_major,
        ) == execution_kind::resolved::<E>(
            PackageRequestView { version: Some(current.contract_version), ..request },
            package,
            current.protocol_version_major,
        ),
{
}

/// The running protocol version makes no difference to a request without a version.
pub proof fn protocol_version_matters_only_to_a_given_version<E>(
    request: PackageRequestView,
    package: PackageView,
    first: u32,
    second: u32,
)
    requires
        request.version is None,
    ensures
        execution_kind::resolved::<E>(request, package, first)
            == execution_kind::resolved::<E>(request, package, second),
{
}

/// Disabling a version that is not the current one makes no difference to a request without a
/// version.
pub proof fn disabling_an_older_version_keeps_the_current_one<E>(
    request: PackageRequestView,
    package: PackageView,
    disabled: ContractVersionKey,
    protocol_version_major: u32,
)
    requires
        package.has_newest_where_enabled(),
        request.version is None,
        package.current_version() != Some(disabled),
    ensures
        execution_kind::resolved::<E>(request, package, protocol_version_major)
            == execution_kind::resolved::<E>(
            request,
            PackageView {
                disabled_versions: package.disabled_versions.insert(disabled),
                ..package
            },
            protocol_version_major,
        ),
{
    let after = PackageView {
        disabled_versions: package.disabled_versions.insert(disabled),
        ..package
    };
    assert(forall|key: ContractVersionKey| #[trigger]
        after.is_enabled(key) ==> package.is_enabled(key));
    if let Some(current) = package.current_version() {
        assert(after.is_newest_enabled(current));
        package::lemma_newest_enabled_is_current(after, current);
    }
}

/// A hash stands for its own contract, in every phase and under any named keys.
pub proof fn contract_hash_is_called_as_given<E>(
    named: Map<Seq<char>, Option<HashAddr>>,
    hash: ContractHash,
    entry_point: String,
    phase: Phase,
)
    ensures
        execution_kind::first_step::<E>(
            named,
            ExecutableDeployItem::StoredContractByHash { hash, entry_point },
            phase,
        ) matches Ok(
            StepView::Done(ExecutionKindView::Contract { contract_hash, entry_point_name }),
        ) && contract_hash == hash && entry_point_name == entry_point@,
{
}

/// A name stands for the contract at the address that its key holds.
pub proof fn named_contract_is_called_at_its_address<E>(
    named: Map<Seq<char>, Option<HashAddr>>,
    name: String,
    addr: HashAddr,
    entry_point: String,
    phase: Phase,
)
    requires
        named.get(name@) == Some(Some(addr)),
    ensures
        execution_kind::first_step::<E>(
            named,
            ExecutableDeployItem::StoredContractByName { name, entry_point },
            phase,
        ) matches Ok(
            StepView::Done(ExecutionKindView::Contract { contract_hash, entry_point_name }),
        ) && contract_hash.0 == addr && entry_point_name == entry_point@,
{
}

/// A package hash asks for its own package, in every phase and under any named keys.
pub proof fn package_hash_is_read_as_given<E>(
    named: Map<Seq<char>, Option<HashAddr>>,
    hash: ContractPackageHash,
    version: Option<u32>,
    entry_point: String,
    phase: Phase,
)
    ensures
        execution_kind::first_step::<E>(
            named,
            ExecutableDeployItem::StoredVersionedContractByHash { hash, version, entry_point },
            phase,
        ) matches Ok(StepView::ReadPackage(request)) && request.contract_package_hash == hash
            && request.version == version && request.entry_point == entry_point@,
{
}

/// A name asks for the package at the address that its key holds.
pub proof fn named_package_is_read_at_its_address<E>(
    named: Map<Seq<char>, Option<HashAddr>>,
    name: String,
    addr: HashAddr,
    version: Option<u32>,
    entry_point: String,
    phase: Phase,
)
    requires
        named.get(name@) == Some(Some(addr)),
    ensures
        execution_kind::first_step::<E>(
            named,
            ExecutableDeployItem::StoredVersionedContractByName { name, version, entry_point },
            phase,
        ) matches Ok(StepView::ReadPackage(request)) && request.contract_package_hash.0 == addr
            && request.version == version && request.entry_point == entry_point@,
{
}

/// Different hashes never come to the same contract, nor to the same package.
pub proof fn different_hashes_stay_different<E>(
    named: Map<Seq<char>, Option<HashAddr>>,
    first: HashAddr,
    second: HashAddr,
    version: Option<u32>,
    entry_point: String,
    phase: Phase,
)
    requires
        first != second,
    ensures
        execution_kind::first_step::<E>(
            named,
            ExecutableDeployItem::StoredContractByHash { hash: ContractHash(first), entry_point },
            phase,
        ) != execution_kind::first_step::<E>(
            named,
            ExecutableDeployItem::StoredContractByHash { hash: ContractHash(second), entry_point },
            phase,
        ),
        execution_kind::first_step::<E>(
            named,
            ExecutableDeployItem::StoredVersionedContractByHash {
                hash: ContractPackageHash(first),
                version,
                entry_point,
            },
            phase,
        ) != execution_kind::first_step::<E>(
            named,
            ExecutableDeployItem::StoredVersionedContractByHash {
                hash: ContractPackageHash(second),
                version,
                entry_point,
            },
            phase,
        ),
{
}

/// A package that could not be read is reported with the reason that the reader gave.
pub proof fn failed_read_is_passed_on<E>(
    request: PackageRequestView,
    failure: E,
    protocol_version_major: u32,
)
    ensures
        execution_kind::last_step::<E>(request, Err(failure), protocol_version_major) matches Err(
            ErrorView::Exec(ExecErrorView::Read(error)),
        ) && error == failure,
{
}

/// Where a version is asked for, the package that was read is called exactly where it lists that
/// version, within the running major protocol version, and has not disabled it. It is then called
/// at the hash listed for that version, and else refused over that version.
pub proof fn given_version_is_called_exactly_where_enabled<E>(
    request: PackageRequestView,
    package: ContractPackage,
    protocol_version_major: u32,
    contract_version: u32,
)
    requires
        request.version == Some(contract_version),
    ensures
        ({
            let key = ContractVersionKey { protocol_version_major, contract_version };
            let result = execution_kind::last_step::<E>(
                request,
                Ok(package),
                protocol_version_major,
            );
            if casper::package_versions(package).contains_key(key)
                && !casper::package_disabled_versions(package).contains(key) {
                result matches Ok(
                    ExecutionKindView::Contract { contract_hash, entry_point_name },
                ) && contract_hash == casper::package_versions(package)[key] && entry_point_name
                    == request.entry_point
            } else {
                result matches Err(ErrorView::Exec(ExecErrorView::InvalidContractVersion(refused)))
                    && refused == key
            }
        }),
{
}

/// Where no version is asked for, the package that was read is called at the version that it lists,
/// has not disabled, and that no other such version follows.
pub proof fn newest_enabled_version_is_called<E>(
    request: PackageRequestView,
    package: ContractPackage,
    protocol_version_major: u32,
    newest: ContractVersionKey,
)
    requires
        request.version is None,
        casper::package_versions(package).contains_key(newest),
        !casper::package_disabled_versions(package).contains(newest),
        forall|key: ContractVersionKey| #[trigger]
            casper::package_versions(package).contains_key(key)
                && !casper::package_disabled_versions(package).contains(key)
                ==> key.protocol_version_major < newest.protocol_version_major || (
            key.protocol_version_major == newest.protocol_version_major && key.contract_version
                <= newest.contract_version),
    ensures
        execution_kind::last_step::<E>(request, Ok(package), protocol_version_major) matches Ok(
            ExecutionKindView::Contract { contract_hash, entry_point_name },
        ) && contract_hash == casper::package_versions(package)[newest] && entry_point_name
            == request.entry_point,
{
    let view = PackageView::of(package);
    assert forall|other: ContractVersionKey| #[trigger]
        view.is_enabled(other) implies other.at_most(newest) by {
        assert(casper::package_versions(package).contains_key(other));
    }
    package::lemma_newest_enabled_is_current(view, newest);
}

/// Where no version is asked for, a package that has disabled all that it lists is refused by its
/// hash.
pub proof fn package_without_enabled_versions_is_refused<E>(
    request: PackageRequestView,
    package: ContractPackage,
    protocol_version_major: u32,
)
    requires
        request.version is None,
        forall|key: ContractVersionKey| #[trigger]
            casper::package_versions(package).contains_key(key)
                ==> casper::package_disabled_versions(package).contains(key),
    ensures
        execution_kind::last_step::<E>(request, Ok(package), protocol_version_major) matches Err(
            ErrorView::Exec(ExecErrorView::NoActiveContractVersions(hash)),
        ) && hash == request.contract_package_hash,
{
}

/// Whatever was read, a package comes to no module, and a contract of it is called at the entry
/// point that was asked for.
pub proof fn read_contract_is_called_at_its_entry_point<E>(
    request: PackageRequestView,
    read: Result<ContractPackage, E>,
    protocol_version_major: u32,
)
    ensures
        execution_kind::last_step::<E>(request, read, protocol_version_major) matches Ok(kind) ==> (
        kind matches ExecutionKindView::Contract { entry_point_name, .. } && entry_point_name
            == request.entry_point),
{
}

/// Disabled versions leave no trace: packages with the same enabled versions are called alike.
pub proof fn only_enabled_versions_matter<E>(
    request: PackageRequestView,
    first: ContractPackage,
    second: ContractPackage,
    protocol_version_major: u32,
)
    requires
        request.version is None ==> PackageView::of(first).has_newest_where_enabled(),
        forall|key: ContractVersionKey|
            #![trigger PackageView::of(first).is_enabled(key)]
            #![trigger PackageView::of(second).is_enabled(key)]
            PackageView::of(first).is_enabled(key) <==> PackageView::of(second).is_enabled(key),
        forall|key: ContractVersionKey| #[trigger]
            PackageView::of(first).is_enabled(key) ==> casper::package_versions(first)[key]
                == casper::package_versions(second)[key],
    ensures
        execution_kind::last_step::<E>(request, Ok(first), protocol_version_major)
            == execution_kind::last_step::<E>(request, Ok(second), protocol_version_major),
{
    if request.version is None {
        if let Some(current) = PackageView::of(first).current_version() {
            assert(PackageView::of(second).is_newest_enabled(current));
            package::lemma_newest_enabled_is_current(PackageView::of(second), current);
        }
    }
}

/// Two kinds of execution with the same view execute the same bytes, or call the same contract at
/// the same entry point.
pub proof fn kind_is_known_by_its_view(first: ExecutionKind, second: ExecutionKind)
    requires
        first@ == second@,
    ensures
        match (first, second) {
            (ExecutionKind::Module(bytes), ExecutionKind::Module(other)) => bytes@ == other@,
            (
                ExecutionKind::Contract { contract_hash, entry_point_name },
                ExecutionKind::Contract { contract_hash: other_hash, entry_point_name: other_name },
            ) => contract_hash == other_hash && entry_point_name@ == other_name@,
            _ => false,
        },
{
}

/// Two steps with the same view are done with the same kind of execution, or ask for the same
/// version and entry point of the same package.
pub proof fn step_is_known_by_its_view(first: Step, second: Step)
    requires
        first@ == second@,
    ensures
        match (first, second) {
            (Step::Done(kind), Step::Done(other)) => kind@ == other@,
            (Step::ReadPackage(request), Step::ReadPackage(other)) => {
                &&& request.contract_package_hash == other.contract_package_hash
                &&& request.version == other.version
                &&& request.entry_point@ == other.entry_point@
            },
            _ => false,
        },
{
}

/// Two errors with the same view give the same reason.
pub proof fn error_is_known_by_its_view<E>(first: Error<E>, second: Error<E>)
    requires
        first@ == second@,
    ensures
        match (first, second) {
            (
                Error::InvalidDeployItemVariant(text),
                Error::InvalidDeployItemVariant(other),
            ) => text@ == other@,
            (Error::InvalidKeyVariant, Error::InvalidKeyVariant) => true,
            (
                Error::Exec(ExecError::NamedKeyNotFound(name)),
                Error::Exec(ExecError::NamedKeyNotFound(other)),
            ) => name@ == other@,
            (
                Error::Exec(ExecError::NoActiveContractVersions(hash)),
                Error::Exec(ExecError::NoActiveContractVersions(other)),
            ) => hash == other,
            (
                Error::Exec(ExecError::InvalidContractVersion(key)),
                Error::Exec(ExecError::InvalidContractVersion(other)),
            ) => key == other,
            (Error::Exec(ExecError::Read(error)), Error::Exec(ExecError::Read(other))) => error
                == other,
            _ => false,
        },
{
}

} // verus!
