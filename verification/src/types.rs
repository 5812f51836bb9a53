//! The plain values that deploys, contract packages and named keys are made of.

use vstd::prelude::*;

verus! {

/// The address that a hash key holds.
pub type HashAddr = [u8; 32];

/// The hash under which a contract is stored.
#[derive(Clone, Copy, Debug, PartialEq, Eq)]
pub struct ContractHash(pub HashAddr);

/// The hash under which a contract package is stored.
#[derive(Clone, Copy, Debug, PartialEq, Eq)]
pub struct ContractPackageHash(pub HashAddr);

/// A contract version, counted within one major protocol version.
#[derive(Clone, Copy, Debug, PartialEq, Eq)]
pub struct ContractVersionKey {
    /// Major element of the protocol version the contract is compatible with.
    pub protocol_version_major: u32,
    /// The contract version within that major protocol version.
    pub contract_version: u32,
}

impl ContractVersionKey {
    /// Returns the key of the given contract version within the given major protocol version.
    pub fn new(protocol_version_major: u32, contract_version: u32) -> (key: Self)
        ensures
            key == (ContractVersionKey { protocol_version_major, contract_version }),
    {
        ContractVersionKey { protocol_version_major, contract_version }
    }

    /// Versions are ordered by major protocol version first, by contract version second.
    pub open spec fn at_most(self, other: Self) -> bool {
        ||| self.protocol_version_major < other.protocol_version_major
        ||| self.protocol_version_major == other.protocol_version_major && self.contract_version
            <= other.contract_version
    }
}

/// The protocol version of the network.
#[derive(Clone, Copy, Debug, PartialEq, Eq)]
pub struct ProtocolVersion {
    pub major: u32,
    pub minor: u32,
    pub patch: u32,
}

/// The phase in which a given contract is executing.
#[derive(Clone, Copy, Debug, PartialEq, Eq, Structural)]
pub enum Phase {
    /// Set while committing the genesis or upgrade configurations.
    System,
    /// Set while executing the payment code of a deploy.
    Payment,
    /// Set while executing the session code of a deploy.
    Session,
    /// Set while finalizing payment at the end of a deploy.
    FinalizePayment,
}

/// The executable component of a deploy, without its runtime arguments.
#[allow(inconsistent_fields)]
#[derive(Clone, Debug, PartialEq, Eq)]
pub enum ExecutableDeployItem {
    /// Raw Wasm module bytes.
    ModuleBytes { module_bytes: Vec<u8> },
    /// A stored contract referenced by its hash.
    StoredContractByHash { hash: ContractHash, entry_point: String },
    /// A stored contract referenced by a named key of the signer.
    StoredContractByName { name: String, entry_point: String },
    /// A version of a stored contract, referenced by the hash of its package. Without a version
    /// the newest enabled one is meant.
    StoredVersionedContractByHash {
        hash: ContractPackageHash,
        version: Option<u32>,
        entry_point: String,
    },
    /// A version of a stored contract, its package referenced by a named key of the signer.
    /// Without a version the newest enabled one is meant.
    StoredVersionedContractByName { name: String, version: Option<u32>, entry_point: String },
    /// A native transfer, which neither contains nor references Wasm code.
    Transfer,
}

} // verus!
