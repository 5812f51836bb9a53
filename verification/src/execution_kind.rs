//! Units of execution.

use casper_types::contracts::ContractPackage;
use casper_types::contracts::NamedKeys;
use vstd::prelude::*;

use crate::casper;
use crate::error;
use crate::package;
use crate::casper::{
    current_contract_version, get_named_hash, is_version_enabled, lookup_contract_hash,
};
use crate::error::{Error, ErrorView, ExecError, ExecErrorView};
use crate::package::PackageView;
use crate::types::{
    ContractHash, ContractPackageHash, ContractVersionKey, ExecutableDeployItem, HashAddr, Phase,
    ProtocolVersion,
};

verus! {

/// The type of execution about to be performed.
#[derive(Clone, Debug, PartialEq, Eq)]
pub enum ExecutionKind {
    /// Wasm bytes.
    Module(Vec<u8>),
    /// Stored contract.
    Contract {
        /// Contract's hash.
        contract_hash: ContractHash,
        /// Entry point's name.
        entry_point_name: String,
    },
}

/// A request to read a contract package, with what is wanted of it.
#[derive(Clone, Debug, PartialEq, Eq)]
pub struct PackageRequest {
    /// The package to read.
    pub contract_package_hash: ContractPackageHash,
    /// The version wanted, or `None` for the newest enabled one.
    pub version: Option<u32>,
    /// The entry point to call.
    pub entry_point: String,
}

/// How far a deploy item can be resolved without reading a contract package.
#[derive(Clone, Debug, PartialEq, Eq)]
pub enum Step {
    /// All the way.
    Done(ExecutionKind),
    /// Up to a version of a contract package.
    ReadPackage(PackageRequest),
}

/// An [`ExecutionKind`] by its contents.
pub enum ExecutionKindView {
    Module(Seq<u8>),
    Contract { contract_hash: ContractHash, entry_point_name: Seq<char> },
}

/// A [`PackageRequest`] by its contents.
pub struct PackageRequestView {
    pub contract_package_hash: ContractPackageHash,
    pub version: Option<u32>,
    pub entry_point: Seq<char>,
}

/// A [`Step`] by its contents.
pub enum StepView {
    Done(ExecutionKindView),
    ReadPackage(PackageRequestView),
}

impl View for ExecutionKind {
    type V = ExecutionKindView;

    open spec fn view(&self) -> ExecutionKindView {
        match *self {
            ExecutionKind::Module(module_bytes) => ExecutionKindView::Module(module_bytes@),
            ExecutionKind::Contract {
                contract_hash,
                entry_point_name,
            } => ExecutionKindView::Contract {
                contract_hash,
                entry_point_name: entry_point_name@,
            },
        }
    }
}

impl View for PackageRequest {
    type V = PackageRequestView;

    open spec fn view(&self) -> PackageRequestView {
        PackageRequestView {
            contract_package_hash: self.contract_package_hash,
            version: self.version,
            entry_point: self.entry_point@,
        }
    }
}

impl View for Step {
    type V = StepView;

    open spec fn view(&self) -> StepView {
        match *self {
            Step::Done(kind) => StepView::Done(kind@),
            Step::ReadPackage(request) => StepView::ReadPackage(request@),
        }
    }
}

/// The address that a name stands for: the name has to be there, and its key has to be a hash
/// key.
pub open spec fn address_of<E>(
    named: Map<Seq<char>, Option<HashAddr>>,
    name: Seq<char>,
) -> Result<HashAddr, ErrorView<E>> {
    match named.get(name) {
        None => Err(ErrorView::Exec(ExecErrorView::NamedKeyNotFound(name))),
        Some(None) => Err(ErrorView::InvalidKeyVariant),
        Some(Some(addr)) => Ok(addr),
    }
}

/// How far a deploy item resolves without its contract package, under the given named keys and in
/// the given phase.
pub open spec fn first_step<E>(
    named: Map<Seq<char>, Option<HashAddr>>,
    item: ExecutableDeployItem,
    phase: Phase,
) -> Result<StepView, ErrorView<E>> {
    match item {
        ExecutableDeployItem::Transfer => Err(ErrorView::InvalidDeployItemVariant("Transfer"@)),
        ExecutableDeployItem::ModuleBytes { module_bytes } => if module_bytes@.len() == 0
            && phase == Phase::Payment {
            Err(ErrorView::InvalidDeployItemVariant("Empty module bytes for custom payment"@))
        } else {
            Ok(StepView::Done(ExecutionKindView::Module(module_bytes@)))
        },
        ExecutableDeployItem::StoredContractByHash { hash, entry_point } => Ok(
            StepView::Done(
                ExecutionKindView::Contract {
                    contract_hash: hash,
                    entry_point_name: entry_point@,
                },
            ),
        ),
        ExecutableDeployItem::StoredContractByName { name, entry_point } => match address_of::<E>(
            named,
            name@,
        ) {
            Ok(addr) => Ok(
                StepView::Done(
                    ExecutionKindView::Contract {
                        contract_hash: ContractHash(addr),
                        entry_point_name: entry_point@,
                    },
                ),
            ),
            Err(error) => Err(error),
        },
        ExecutableDeployItem::StoredVersionedContractByHash { hash, version, entry_point } => Ok(
            StepView::ReadPackage(
                PackageRequestView {
                    contract_package_hash: hash,
                    version,
                    entry_point: entry_point@,
                },
            ),
        ),
        ExecutableDeployItem::StoredVersionedContractByName { name, version, entry_point } =>
        match address_of::<E>(named, name@) {
            Ok(addr) => Ok(
                StepView::ReadPackage(
                    PackageRequestView {
                        contract_package_hash: ContractPackageHash(addr),
                        version,
                        entry_point: entry_point@,
                    },
                ),
            ),
            Err(error) => Err(error),
        },
    }
}

/// The version of the package that is meant: the given one, within the given major protocol
/// version, or the current one where none is given.
pub open spec fn wanted_version(
    package: PackageView,
    version: Option<u32>,
    protocol_version_major: u32,
) -> Option<ContractVersionKey> {
    match version {
        Some(contract_version) => Some(
            ContractVersionKey { protocol_version_major, contract_version },
        ),
        None => package.current_version(),
    }
}

/// The contract that a request finds in its package.
pub open spec fn resolved<E>(
    request: PackageRequestView,
    package: PackageView,
    protocol_version_major: u32,
) -> Result<ExecutionKindView, ErrorView<E>> {
    match wanted_version(package, request.version, protocol_version_major) {
        None => Err(
            ErrorView::Exec(ExecErrorView::NoActiveContractVersions(request.contract_package_hash)),
        ),
        Some(key) => if package.is_enabled(key) {
            Ok(
                ExecutionKindView::Contract {
                    contract_hash: package.versions[key],
                    entry_point_name: request.entry_point,
                },
            )
        } else {
            Err(ErrorView::Exec(ExecErrorView::InvalidContractVersion(key)))
        },
    }
}

/// What a request comes to once its package has been read, or could not be read.
pub open spec fn last_step<E>(
    request: PackageRequestView,
    read: Result<ContractPackage, E>,
    protocol_version_major: u32,
) -> Result<ExecutionKindView, ErrorView<E>> {
    match read {
        Ok(package) => resolved(request, PackageView::of(package), protocol_version_major),
        Err(error) => Err(ErrorView::Exec(ExecErrorView::Read(error))),
    }
}

/// Returns the address that the name stands for.
fn named_address<E>(named_keys: &NamedKeys, name: String) -> (result: Result<HashAddr, Error<E>>)
    ensures
        address_of::<E>(casper::named_hashes(*named_keys), name@) == (match result {
            Ok(addr) => Ok(addr),
            Err(error) => Err(error@),
        }),
{
    match get_named_hash(named_keys, &name) {
        None => Err(Error::Exec(ExecError::NamedKeyNotFound(name))),
        Some(None) => Err(Error::InvalidKeyVariant),
        Some(Some(addr)) => Ok(addr),
    }
}

impl ExecutionKind {
    /// Returns a new module variant of `ExecutionKind`.
    pub fn new_module(module_bytes: Vec<u8>) -> (kind: Self)
        ensures
            kind == ExecutionKind::Module(module_bytes),
    {
        ExecutionKind::Module(module_bytes)
    }

    /// Returns a new contract variant of `ExecutionKind`.
    pub fn new_contract(contract_hash: ContractHash, entry_point_name: String) -> (kind: Self)
        ensures
            kind == (ExecutionKind::Contract { contract_hash, entry_point_name }),
    {
        ExecutionKind::Contract { contract_hash, entry_point_name }
    }

    /// Resolves the deploy item as far as that goes without reading a contract package.
    pub fn begin<E>(
        named_keys: &NamedKeys,
        executable_deploy_item: ExecutableDeployItem,
        phase: Phase,
    ) -> (result: Result<Step, Error<E>>)
        ensures
            error::outcome(result) == first_step::<E>(
                casper::named_hashes(*named_keys),
                executable_deploy_item,
                phase,
            ),
            // A transfer is refused.
            executable_deploy_item is Transfer ==> (result matches Err(
                Error::InvalidDeployItemVariant(text),
            ) && text@ == "Transfer"@),
            // A module is executed byte for byte, unless it is empty and has to pay.
            executable_deploy_item matches ExecutableDeployItem::ModuleBytes { module_bytes } ==> (
            if module_bytes@.len() == 0 && phase == Phase::Payment {
                result matches Err(Error::InvalidDeployItemVariant(text)) && text@
                    == "Empty module bytes for custom payment"@
            } else {
                result matches Ok(Step::Done(ExecutionKind::Module(bytes))) && bytes@
                    == module_bytes@
            }),
            // A hash stands for its own contract.
            executable_deploy_item matches ExecutableDeployItem::StoredContractByHash {
                hash,
                entry_point,
            } ==> (result matches Ok(
                Step::Done(ExecutionKind::Contract { contract_hash, entry_point_name }),
            ) && contract_hash == hash && entry_point_name@ == entry_point@),
            // A name stands for the contract at the address that it holds.
            executable_deploy_item matches ExecutableDeployItem::StoredContractByName {
                name,
                entry_point,
            } ==> match casper::named_hashes(*named_keys).get(name@) {
                None => result matches Err(Error::Exec(ExecError::NamedKeyNotFound(missing)))
                    && missing@ == name@,
                Some(None) => result matches Err(Error::InvalidKeyVariant),
                Some(Some(addr)) => result matches Ok(
                    Step::Done(ExecutionKind::Contract { contract_hash, entry_point_name }),
                ) && contract_hash.0 == addr && entry_point_name@ == entry_point@,
            },
            // A package hash asks for its own package.
            executable_deploy_item matches ExecutableDeployItem::StoredVersionedContractByHash {
                hash,
                version,
                entry_point,
            } ==> (result matches Ok(Step::ReadPackage(request)) && request.contract_package_hash
                == hash && request.version == version && request.entry_point@ == entry_point@),
            // A name asks for the package at the address that it holds.
            executable_deploy_item matches ExecutableDeployItem::StoredVersionedContractByName {
                name,
                version,
                entry_point,
            } ==> match casper::named_hashes(*named_keys).get(name@) {
                None => result matches Err(Error::Exec(ExecError::NamedKeyNotFound(missing)))
                    && missing@ == name@,
                Some(None) => result matches Err(Error::InvalidKeyVariant),
                Some(Some(addr)) => result matches Ok(Step::ReadPackage(request))
                    && request.contract_package_hash.0 == addr && request.version == version
                    && request.entry_point@ == entry_point@,
            },
    {
        let is_payment_phase = phase == Phase::Payment;
        match executable_deploy_item {
            ExecutableDeployItem::Transfer => {
                Err(Error::InvalidDeployItemVariant("Transfer".to_owned()))
            },
            ExecutableDeployItem::ModuleBytes { module_bytes } => {
                if module_bytes.len() == 0 && is_payment_phase {
                    Err(
                        Error::InvalidDeployItemVariant(
                            "Empty module bytes for custom payment".to_owned(),
                        ),
                    )
                } else {
                    Ok(Step::Done(ExecutionKind::new_module(module_bytes)))
                }
            },
            ExecutableDeployItem::StoredContractByHash { hash, entry_point } => {
                Ok(Step::Done(ExecutionKind::new_contract(hash, entry_point)))
            },
            ExecutableDeployItem::StoredContractByName { name, entry_point } => {
                match named_address(named_keys, name) {
                    Ok(addr) => Ok(
                        Step::Done(ExecutionKind::new_contract(ContractHash(addr), entry_point)),
                    ),
                    Err(error) => Err(error),
                }
            },
            ExecutableDeployItem::StoredVersionedContractByName { name, version, entry_point } => {
                match named_address(named_keys, name) {
                    Ok(addr) => Ok(
                        Step::ReadPackage(
                            PackageRequest {
                                contract_package_hash: ContractPackageHash(addr),
                                version,
                                entry_point,
                            },
                        ),
                    ),
                    Err(error) => Err(error),
                }
            },
            ExecutableDeployItem::StoredVersionedContractByHash { hash, version, entry_point } => {
                Ok(
                    Step::ReadPackage(
                        PackageRequest { contract_package_hash: hash, version, entry_point },
                    ),
                )
            },
        }
    }

    /// Resolves the request in the package that has been read for it, or says why it could not be
    /// read. Where no version is asked for, the package's current version is its newest enabled
    /// one.
    pub fn finish<E>(
        request: PackageRequest,
        read: Result<ContractPackage, E>,
        protocol_version: &ProtocolVersion,
    ) -> (result: Result<ExecutionKind, Error<E>>)
        ensures
            error::outcome(result) == last_step::<E>(request@, read, protocol_version.major),
            request.version is None ==> (read matches Ok(package) ==> PackageView::of(
                package,
            ).has_newest_where_enabled()),
            // A failed read is passed on.
            read matches Err(failure) ==> (result matches Err(Error::Exec(ExecError::Read(error)))
                && error == failure),
            // A version that is asked for is called if it is enabled, and refused if it is not.
            read is Ok ==> (request.version matches Some(contract_version) ==> ({
                let key = ContractVersionKey {
                    protocol_version_major: protocol_version.major,
                    contract_version,
                };
                if PackageView::of(read->Ok_0).is_enabled(key) {
                    result matches Ok(ExecutionKind::Contract { contract_hash, entry_point_name })
                        && contract_hash == casper::package_versions(read->Ok_0)[key]
                        && entry_point_name@ == request.entry_point@
                } else {
                    result matches Err(Error::Exec(ExecError::InvalidContractVersion(refused)))
                        && refused == key
                }
            })),
            // Without a version the newest enabled one is called.
            read is Ok && request.version is None ==> forall|newest: ContractVersionKey| #[trigger]
                PackageView::of(read->Ok_0).is_newest_enabled(newest) ==> (result matches Ok(
                    ExecutionKind::Contract { contract_hash, entry_point_name },
                ) && contract_hash == casper::package_versions(read->Ok_0)[newest]
                    && entry_point_name@ == request.entry_point@),
            // Without a version and without an enabled one, the package is refused.
            read is Ok && request.version is None && !PackageView::of(read->Ok_0).has_enabled_version() ==> (
            result matches Err(
                Error::Exec(ExecError::NoActiveContractVersions(hash)),
            ) && hash == request.contract_package_hash),
            // Of enabled versions there is always a newest one.
            read is Ok && request.version is None && PackageView::of(read->Ok_0).has_enabled_version() ==> exists|
                newest: ContractVersionKey,
            | #[trigger] PackageView::of(read->Ok_0).is_newest_enabled(newest),
    {
        let package = match read {
            Ok(package) => package,
            Err(error) => return Err(Error::Exec(ExecError::Read(error))),
        };
        let wanted = match request.version {
            Some(version) => Some(ContractVersionKey::new(protocol_version.major, version)),
            None => {
                let current = current_contract_version(&package);
                proof {
                    if let Some(key) = current {
                        package::lemma_newest_enabled_is_current(
                            PackageView::of(package),
                            key,
                        );
                    }
                }
                current
            },
        };
        let contract_version_key = match wanted {
            Some(key) => key,
            None => {
                return Err(
                    Error::Exec(
                        ExecError::NoActiveContractVersions(request.contract_package_hash),
                    ),
                )
            },
        };
        if !is_version_enabled(&package, contract_version_key) {
            return Err(Error::Exec(ExecError::InvalidContractVersion(contract_version_key)));
        }
        match lookup_contract_hash(&package, contract_version_key) {
            Some(contract_hash) => Ok(
                ExecutionKind::new_contract(contract_hash, request.entry_point),
            ),
            None => Err(Error::Exec(ExecError::InvalidContractVersion(contract_version_key))),
        }
    }

    /// Returns all the details necessary for execution.
    ///
    /// This object is generated based on information provided by the deploy item. Only for a
    /// version of a stored contract whose package is known is anything read, and then only that
    /// package, once, by `get_contract_package`. For any other item `get_contract_package` need not
    /// be callable at all.
    pub fn new<E, F: FnOnce(ContractPackageHash) -> Result<ContractPackage, E>>(
        get_contract_package: F,
        named_keys: &NamedKeys,
        executable_deploy_item: ExecutableDeployItem,
        protocol_version: &ProtocolVersion,
        phase: Phase,
    ) -> (result: Result<ExecutionKind, Error<E>>)
        requires
            first_step::<E>(
                casper::named_hashes(*named_keys),
                executable_deploy_item,
                phase,
            ) matches Ok(StepView::ReadPackage(request)) ==> get_contract_package.requires(
                (request.contract_package_hash,),
            ),
        ensures
            match first_step::<E>(
                casper::named_hashes(*named_keys),
                executable_deploy_item,
                phase,
            ) {
                Err(error) => error::outcome(result) == Err::<ExecutionKindView, _>(error),
                Ok(StepView::Done(kind)) => error::outcome(result) == Ok::<_, ErrorView<E>>(
                    kind,
                ),
                Ok(StepView::ReadPackage(request)) => exists|read: Result<ContractPackage, E>|
                    {
                        &&& #[trigger] get_contract_package.ensures(
                            (request.contract_package_hash,),
                            read,
                        )
                        &&& error::outcome(result) == last_step::<E>(
                            request,
                            read,
                            protocol_version.major,
                        )
                        &&& request.version is None ==> (read matches Ok(package)
                            ==> PackageView::of(package).has_newest_where_enabled())
                    },
            },
            // A transfer is refused.
            executable_deploy_item is Transfer ==> (result matches Err(
                Error::InvalidDeployItemVariant(text),
            ) && text@ == "Transfer"@),
            // A module is executed byte for byte, unless it is empty and has to pay.
            executable_deploy_item matches ExecutableDeployItem::ModuleBytes { module_bytes } ==> (
            if module_bytes@.len() == 0 && phase == Phase::Payment {
                result matches Err(Error::InvalidDeployItemVariant(text)) && text@
                    == "Empty module bytes for custom payment"@
            } else {
                result matches Ok(ExecutionKind::Module(bytes)) && bytes@
                    == module_bytes@
            }),
            // A hash stands for its own contract.
            executable_deploy_item matches ExecutableDeployItem::StoredContractByHash {
                hash,
                entry_point,
            } ==> (result matches Ok(
                ExecutionKind::Contract { contract_hash, entry_point_name },
            ) && contract_hash == hash && entry_point_name@ == entry_point@),
            // A name stands for the contract at the address that it holds.
            executable_deploy_item matches ExecutableDeployItem::StoredContractByName {
                name,
                entry_point,
            } ==> match casper::named_hashes(*named_keys).get(name@) {
                None => result matches Err(Error::Exec(ExecError::NamedKeyNotFound(missing)))
                    && missing@ == name@,
                Some(None) => result matches Err(Error::InvalidKeyVariant),
                Some(Some(addr)) => result matches Ok(
                    ExecutionKind::Contract { contract_hash, entry_point_name },
                ) && contract_hash.0 == addr && entry_point_name@ == entry_point@,
            },
            // A package hash has its own package read, and the version called as `finish` says.
            executable_deploy_item matches ExecutableDeployItem::StoredVersionedContractByHash {
                hash: package_hash,
                version,
                entry_point,
            } ==> exists|read: Result<ContractPackage, E>|
                {
                    &&& #[trigger] get_contract_package.ensures((package_hash,), read)
                    &&& read matches Err(failure) ==> (result matches Err(
                        Error::Exec(ExecError::Read(error)),
                    ) && error == failure)
                    &&& read is Ok ==> (version matches Some(contract_version) ==> ({
                        let key = ContractVersionKey {
                            protocol_version_major: protocol_version.major,
                            contract_version,
                        };
                        if PackageView::of(read->Ok_0).is_enabled(key) {
                            result matches Ok(ExecutionKind::Contract { contract_hash, entry_point_name })
                                && contract_hash == casper::package_versions(read->Ok_0)[key]
                                && entry_point_name@ == entry_point@
                        } else {
                            result matches Err(Error::Exec(ExecError::InvalidContractVersion(refused)))
                                && refused == key
                        }
                    }))
                    &&& read is Ok && version is None ==> forall|newest: ContractVersionKey| #[trigger]
                        PackageView::of(read->Ok_0).is_newest_enabled(newest) ==> (result matches Ok(
                            ExecutionKind::Contract { contract_hash, entry_point_name },
                        ) && contract_hash == casper::package_versions(read->Ok_0)[newest]
                            && entry_point_name@ == entry_point@)
                    &&& read is Ok && version is None && !PackageView::of(read->Ok_0).has_enabled_version() ==> (
                    result matches Err(
                        Error::Exec(ExecError::NoActiveContractVersions(hash)),
                    ) && hash == package_hash)
                    &&& read is Ok && version is None && PackageView::of(read->Ok_0).has_enabled_version() ==> exists|
                        newest: ContractVersionKey,
                    | #[trigger] PackageView::of(read->Ok_0).is_newest_enabled(newest)
                },
            // A name has the package at the address that it holds read, likewise.
            executable_deploy_item matches ExecutableDeployItem::StoredVersionedContractByName {
                name,
                version,
                entry_point,
            } ==> match casper::named_hashes(*named_keys).get(name@) {
                None => result matches Err(Error::Exec(ExecError::NamedKeyNotFound(missing)))
                    && missing@ == name@,
                Some(None) => result matches Err(Error::InvalidKeyVariant),
                Some(Some(addr)) => exists|read: Result<ContractPackage, E>|
                    {
                        &&& #[trigger] get_contract_package.ensures((ContractPackageHash(addr),), read)
                        &&& read matches Err(failure) ==> (result matches Err(
                            Error::Exec(ExecError::Read(error)),
                        ) && error == failure)
                        &&& read is Ok ==> (version matches Some(contract_version) ==> ({
                            let key = ContractVersionKey {
                                protocol_version_major: protocol_version.major,
                                contract_version,
                            };
                            if PackageView::of(read->Ok_0).is_enabled(key) {
                                result matches Ok(ExecutionKind::Contract { contract_hash, entry_point_name })
                                    && contract_hash == casper::package_versions(read->Ok_0)[key]
                                    && entry_point_name@ == entry_point@
                            } else {
                                result matches Err(Error::Exec(ExecError::InvalidContractVersion(refused)))
                                    && refused == key
                            }
                        }))
                        &&& read is Ok && version is None ==> forall|newest: ContractVersionKey| #[trigger]
                            PackageView::of(read->Ok_0).is_newest_enabled(newest) ==> (result matches Ok(
                                ExecutionKind::Contract { contract_hash, entry_point_name },
                            ) && contract_hash == casper::package_versions(read->Ok_0)[newest]
                                && entry_point_name@ == entry_point@)
                        &&& read is Ok && version is None && !PackageView::of(read->Ok_0).has_enabled_version() ==> (
                        result matches Err(
                            Error::Exec(ExecError::NoActiveContractVersions(hash)),
                        ) && hash == ContractPackageHash(addr))
                        &&& read is Ok && version is None && PackageView::of(read->Ok_0).has_enabled_version() ==> exists|
                            newest: ContractVersionKey,
                        | #[trigger] PackageView::of(read->Ok_0).is_newest_enabled(newest)
                    },
            },
    {
        match ExecutionKind::begin(named_keys, executable_deploy_item, phase) {
            Err(error) => Err(error),
            Ok(Step::Done(kind)) => Ok(kind),
            Ok(Step::ReadPackage(request)) => {
                let read = get_contract_package(request.contract_package_hash);
                ExecutionKind::finish(request, read, protocol_version)
            },
        }
    }
}

} // verus!
