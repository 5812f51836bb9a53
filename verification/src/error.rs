//! Why a deploy item cannot be executed.

use vstd::prelude::*;

use crate::types::{ContractPackageHash, ContractVersionKey};

verus! {

/// Reasons to refuse a deploy item. `E` is what a failed read of a contract package reports.
#[derive(Clone, Debug, PartialEq, Eq)]
pub enum Error<E> {
    /// A deploy item of this kind cannot be executed in this phase.
    InvalidDeployItemVariant(String),
    /// The named key is not a hash key.
    InvalidKeyVariant,
    /// The deploy item refers to something that cannot be executed.
    Exec(ExecError<E>),
}

/// Reasons why what a deploy item refers to cannot be executed.
#[derive(Clone, Debug, PartialEq, Eq)]
pub enum ExecError<E> {
    /// There is no named key of this name.
    NamedKeyNotFound(String),
    /// No version of the package is enabled.
    NoActiveContractVersions(ContractPackageHash),
    /// The version is not there, or it is disabled.
    InvalidContractVersion(ContractVersionKey),
    /// The contract package could not be read.
    Read(E),
}

/// An [`Error`] with its strings as sequences of characters.
pub enum ErrorView<E> {
    InvalidDeployItemVariant(Seq<char>),
    InvalidKeyVariant,
    Exec(ExecErrorView<E>),
}

/// An [`ExecError`] with its strings as sequences of characters.
pub enum ExecErrorView<E> {
    NamedKeyNotFound(Seq<char>),
    NoActiveContractVersions(ContractPackageHash),
    InvalidContractVersion(ContractVersionKey),
    Read(E),
}

impl<E> View for ExecError<E> {
    type V = ExecErrorView<E>;

    open spec fn view(&self) -> ExecErrorView<E> {
        match *self {
            ExecError::NamedKeyNotFound(name) => ExecErrorView::NamedKeyNotFound(name@),
            ExecError::NoActiveContractVersions(hash) => ExecErrorView::NoActiveContractVersions(
                hash,
            ),
            ExecError::InvalidContractVersion(key) => ExecErrorView::InvalidContractVersion(key),
            ExecError::Read(error) => ExecErrorView::Read(error),
        }
    }
}

impl<E> View for Error<E> {
    type V = ErrorView<E>;

    open spec fn view(&self) -> ErrorView<E> {
        match *self {
            Error::InvalidDeployItemVariant(text) => ErrorView::InvalidDeployItemVariant(text@),
            Error::InvalidKeyVariant => ErrorView::InvalidKeyVariant,
            Error::Exec(error) => ErrorView::Exec(error@),
        }
    }
}

/// A result with both of its sides taken by their views.
pub open spec fn outcome<T: View, E>(result: Result<T, Error<E>>) -> Result<T::V, ErrorView<E>> {
    match result {
        Ok(value) => Ok(value@),
        Err(error) => Err(error@),
    }
}

} // verus!
