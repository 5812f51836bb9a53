use std::collections::{BTreeMap, BTreeSet};

use casper_types::account::AccountHash;
use casper_types::contracts::{
    ContractHash as StoredContractHash, ContractPackage, ContractPackageStatus,
    ContractVersionKey as StoredVersionKey, NamedKeys,
};
use casper_types::{AccessRights, Groups, Key, URef};
use deploy_execution::error::{Error, ExecError};
use deploy_execution::execution_kind::{ExecutionKind, PackageRequest, Step};
use deploy_execution::types::{
    ContractHash, ContractPackageHash, ContractVersionKey, ExecutableDeployItem, Phase,
    ProtocolVersion,
};

const PHASES: [Phase; 4] = [
    Phase::System,
    Phase::Payment,
    Phase::Session,
    Phase::FinalizePayment,
];

const PROTOCOL: ProtocolVersion = ProtocolVersion {
    major: 2,
    minor: 5,
    patch: 1,
};

fn named_keys() -> NamedKeys {
    let mut named_keys = NamedKeys::new();
    named_keys.insert("counter".to_string(), Key::Hash([7; 32]));
    named_keys.insert("other".to_string(), Key::Hash([8; 32]));
    named_keys.insert(
        "purse".to_string(),
        Key::URef(URef::new([9; 32], AccessRights::READ)),
    );
    named_keys.insert("owner".to_string(), Key::Account(AccountHash::new([7; 32])));
    named_keys
}

/// A package with the given versions, each at the hash made of its third part.
fn package(versions: &[(u32, u32, u8)], disabled: &[(u32, u32)]) -> ContractPackage {
    let versions: BTreeMap<StoredVersionKey, StoredContractHash> = versions
        .iter()
        .map(|(major, version, byte)| {
            (
                StoredVersionKey::new(*major, *version),
                StoredContractHash::new([*byte; 32]),
            )
        })
        .collect();
    let disabled: BTreeSet<StoredVersionKey> = disabled
        .iter()
        .map(|(major, version)| StoredVersionKey::new(*major, *version))
        .collect();
    ContractPackage::new(
        URef::new([0; 32], AccessRights::NONE),
        versions,
        disabled,
        Groups::new(),
        ContractPackageStatus::Unlocked,
    )
}

fn contract(byte: u8, entry_point_name: &str) -> ExecutionKind {
    ExecutionKind::Contract {
        contract_hash: ContractHash([byte; 32]),
        entry_point_name: entry_point_name.to_string(),
    }
}

/// Resolves an item for which no package may be read.
fn without_package(
    item: ExecutableDeployItem,
    phase: Phase,
) -> Result<ExecutionKind, Error<String>> {
    ExecutionKind::new(
        |hash| panic!("no package should be read, least of all {:?}", hash),
        &named_keys(),
        item,
        &PROTOCOL,
        phase,
    )
}

/// Resolves an item for which the package of the given hash has to be read.
fn with_package(
    item: ExecutableDeployItem,
    expected: u8,
    read: Result<ContractPackage, String>,
) -> Result<ExecutionKind, Error<String>> {
    let mut reads = 0;
    let result = ExecutionKind::new(
        |hash| {
            assert_eq!(hash, ContractPackageHash([expected; 32]));
            reads += 1;
            read
        },
        &named_keys(),
        item,
        &PROTOCOL,
        Phase::Session,
    );
    assert_eq!(reads, 1);
    result
}

fn by_package_hash(version: Option<u32>) -> ExecutableDeployItem {
    ExecutableDeployItem::StoredVersionedContractByHash {
        hash: ContractPackageHash([3; 32]),
        version,
        entry_point: "inc".to_string(),
    }
}

fn by_package_name(name: &str, version: Option<u32>) -> ExecutableDeployItem {
    ExecutableDeployItem::StoredVersionedContractByName {
        name: name.to_string(),
        version,
        entry_point: "inc".to_string(),
    }
}

fn by_name(name: &str) -> ExecutableDeployItem {
    ExecutableDeployItem::StoredContractByName {
        name: name.to_string(),
        entry_point: "inc".to_string(),
    }
}

#[test]
fn constructors_keep_what_they_are_given() {
    assert_eq!(
        ExecutionKind::new_module(vec![1, 2, 3]),
        ExecutionKind::Module(vec![1, 2, 3])
    );
    assert_eq!(
        ExecutionKind::new_contract(ContractHash([5; 32]), "call".to_string()),
        contract(5, "call")
    );
    assert_eq!(
        ContractVersionKey::new(2, 9),
        ContractVersionKey {
            protocol_version_major: 2,
            contract_version: 9
        }
    );
}

#[test]
fn transfer_is_refused_in_every_phase() {
    for phase in PHASES {
        assert_eq!(
            without_package(ExecutableDeployItem::Transfer, phase),
            Err(Error::InvalidDeployItemVariant("Transfer".to_string()))
        );
    }
}

#[test]
fn empty_module_is_refused_only_as_payment() {
    for phase in PHASES {
        let item = ExecutableDeployItem::ModuleBytes {
            module_bytes: vec![],
        };
        let expected = if phase == Phase::Payment {
            Err(Error::InvalidDeployItemVariant(
                "Empty module bytes for custom payment".to_string(),
            ))
        } else {
            Ok(ExecutionKind::Module(vec![]))
        };
        assert_eq!(without_package(item, phase), expected);
    }
}

#[test]
fn module_is_executed_in_every_phase() {
    for phase in PHASES {
        let item = ExecutableDeployItem::ModuleBytes {
            module_bytes: vec![0, 97, 115, 109],
        };
        assert_eq!(
            without_package(item, phase),
            Ok(ExecutionKind::Module(vec![0, 97, 115, 109]))
        );
    }
}

#[test]
fn contract_by_hash_needs_no_named_key() {
    for phase in PHASES {
        let item = ExecutableDeployItem::StoredContractByHash {
            hash: ContractHash([5; 32]),
            entry_point: "inc".to_string(),
        };
        assert_eq!(without_package(item, phase), Ok(contract(5, "inc")));
    }
}

#[test]
fn contract_by_name_is_the_contract_of_the_hash_key() {
    let by_hash = ExecutableDeployItem::StoredContractByHash {
        hash: ContractHash([7; 32]),
        entry_point: "inc".to_string(),
    };
    let result = without_package(by_name("counter"), Phase::Session);
    assert_eq!(result, Ok(contract(7, "inc")));
    assert_eq!(result, without_package(by_hash, Phase::Session));
    assert_eq!(
        without_package(by_name("other"), Phase::Session),
        Ok(contract(8, "inc"))
    );
}

#[test]
fn missing_name_is_reported() {
    let expected = Err(Error::Exec(ExecError::NamedKeyNotFound(
        "nothing".to_string(),
    )));
    assert_eq!(without_package(by_name("nothing"), Phase::Session), expected);
    assert_eq!(
        without_package(by_package_name("nothing", Some(1)), Phase::Session),
        expected
    );
}

#[test]
fn key_of_another_kind_is_reported() {
    for name in ["purse", "owner"] {
        assert_eq!(
            without_package(by_name(name), Phase::Session),
            Err(Error::InvalidKeyVariant)
        );
        assert_eq!(
            without_package(by_package_name(name, None), Phase::Session),
            Err(Error::InvalidKeyVariant)
        );
    }
}

#[test]
fn given_version_is_taken_within_the_running_major_version() {
    let versions = [(1, 1, 11), (2, 1, 21), (2, 2, 22), (3, 1, 31)];
    assert_eq!(
        with_package(by_package_hash(Some(1)), 3, Ok(package(&versions, &[]))),
        Ok(contract(21, "inc"))
    );
    assert_eq!(
        with_package(by_package_hash(Some(2)), 3, Ok(package(&versions, &[]))),
        Ok(contract(22, "inc"))
    );
}

#[test]
fn missing_version_is_reported() {
    let versions = [(1, 4, 14), (2, 1, 21)];
    assert_eq!(
        with_package(by_package_hash(Some(4)), 3, Ok(package(&versions, &[]))),
        Err(Error::Exec(ExecError::InvalidContractVersion(
            ContractVersionKey::new(2, 4)
        )))
    );
}

#[test]
fn disabled_version_is_reported() {
    let versions = [(2, 1, 21), (2, 2, 22)];
    assert_eq!(
        with_package(
            by_package_hash(Some(2)),
            3,
            Ok(package(&versions, &[(2, 2)]))
        ),
        Err(Error::Exec(ExecError::InvalidContractVersion(
            ContractVersionKey::new(2, 2)
        )))
    );
}

#[test]
fn without_a_version_the_newest_enabled_one_is_taken() {
    let versions = [(1, 9, 19), (2, 1, 21), (2, 2, 22), (3, 1, 31)];
    assert_eq!(
        with_package(by_package_hash(None), 3, Ok(package(&versions, &[]))),
        Ok(contract(31, "inc"))
    );
    assert_eq!(
        with_package(by_package_hash(None), 3, Ok(package(&versions, &[(3, 1)]))),
        Ok(contract(22, "inc"))
    );
    assert_eq!(
        with_package(
            by_package_hash(None),
            3,
            Ok(package(&versions, &[(3, 1), (2, 2), (2, 1)]))
        ),
        Ok(contract(19, "inc"))
    );
}

#[test]
fn disabling_an_older_version_changes_nothing() {
    let versions = [(2, 1, 21), (2, 2, 22)];
    assert_eq!(
        with_package(by_package_hash(None), 3, Ok(package(&versions, &[(2, 1)]))),
        with_package(by_package_hash(None), 3, Ok(package(&versions, &[])))
    );
}

#[test]
fn no_version_means_the_current_one() {
    let versions = [(2, 1, 21), (2, 2, 22), (2, 3, 23)];
    assert_eq!(
        with_package(by_package_hash(None), 3, Ok(package(&versions, &[(2, 3)]))),
        with_package(
            by_package_hash(Some(2)),
            3,
            Ok(package(&versions, &[(2, 3)]))
        )
    );
}

#[test]
fn package_without_enabled_versions_is_reported() {
    let expected = Err(Error::Exec(ExecError::NoActiveContractVersions(
        ContractPackageHash([3; 32]),
    )));
    assert_eq!(
        with_package(by_package_hash(None), 3, Ok(package(&[], &[]))),
        expected
    );
    assert_eq!(
        with_package(
            by_package_hash(None),
            3,
            Ok(package(&[(2, 1, 21)], &[(2, 1)]))
        ),
        expected
    );
    // A version that is only disabled, and was never there, is not enabled either.
    assert_eq!(
        with_package(by_package_hash(None), 3, Ok(package(&[], &[(2, 1)]))),
        expected
    );
}

#[test]
fn package_by_name_is_the_package_of_the_hash_key() {
    let versions = [(2, 1, 21), (2, 2, 22)];
    for version in [None, Some(1), Some(2), Some(3)] {
        let by_hash = ExecutableDeployItem::StoredVersionedContractByHash {
            hash: ContractPackageHash([7; 32]),
            version,
            entry_point: "inc".to_string(),
        };
        assert_eq!(
            with_package(
                by_package_name("counter", version),
                7,
                Ok(package(&versions, &[]))
            ),
            with_package(by_hash, 7, Ok(package(&versions, &[])))
        );
    }
    assert_eq!(
        with_package(by_package_name("counter", None), 7, Ok(package(&[], &[]))),
        Err(Error::Exec(ExecError::NoActiveContractVersions(
            ContractPackageHash([7; 32])
        )))
    );
}

#[test]
fn failed_read_is_passed_on() {
    let expected = Err(Error::Exec(ExecError::Read("gone".to_string())));
    for version in [None, Some(1)] {
        assert_eq!(
            with_package(by_package_hash(version), 3, Err("gone".to_string())),
            expected
        );
        assert_eq!(
            with_package(by_package_name("other", version), 8, Err("gone".to_string())),
            expected
        );
    }
}

#[test]
fn protocol_version_matters_only_to_a_given_version() {
    let request = |version| PackageRequest {
        contract_package_hash: ContractPackageHash([3; 32]),
        version,
        entry_point: "inc".to_string(),
    };
    let resolve = |version, major| {
        ExecutionKind::finish::<String>(
            request(version),
            Ok(package(&[(1, 1, 11), (2, 1, 21)], &[])),
            &ProtocolVersion {
                major,
                minor: 0,
                patch: 0,
            },
        )
    };
    for major in [0, 1, 2, 3] {
        assert_eq!(resolve(None, major), Ok(contract(21, "inc")));
    }
    assert_eq!(resolve(Some(1), 1), Ok(contract(11, "inc")));
    assert_eq!(resolve(Some(1), 2), Ok(contract(21, "inc")));
    assert_eq!(
        resolve(Some(1), 3),
        Err(Error::Exec(ExecError::InvalidContractVersion(
            ContractVersionKey::new(3, 1)
        )))
    );
}

#[test]
fn only_versions_of_stored_contracts_ask_for_a_package() {
    assert_eq!(
        ExecutionKind::begin::<String>(
            &named_keys(),
            by_package_name("counter", Some(4)),
            Phase::Payment
        ),
        Ok(Step::ReadPackage(PackageRequest {
            contract_package_hash: ContractPackageHash([7; 32]),
            version: Some(4),
            entry_point: "inc".to_string(),
        }))
    );
    assert_eq!(
        ExecutionKind::begin::<String>(&NamedKeys::new(), by_package_hash(None), Phase::Session),
        Ok(Step::ReadPackage(PackageRequest {
            contract_package_hash: ContractPackageHash([3; 32]),
            version: None,
            entry_point: "inc".to_string(),
        }))
    );
    assert_eq!(
        ExecutionKind::begin::<String>(&named_keys(), by_name("counter"), Phase::Session),
        Ok(Step::Done(contract(7, "inc")))
    );
}

#[test]
fn names_of_other_keys_make_no_difference() {
    let mut more = named_keys();
    more.insert("extra".to_string(), Key::Hash([1; 32]));
    for name in ["counter", "purse", "nothing"] {
        assert_eq!(
            ExecutionKind::begin::<String>(&more, by_name(name), Phase::Session),
            ExecutionKind::begin::<String>(&named_keys(), by_name(name), Phase::Session)
        );
    }
}
