//! The ways in which a handshake step can be refused.

use vstd::prelude::*;

verus! {

/// Why a handshake step was refused. Every variant ends the current step;
/// nothing here is retried by the library.
#[derive(Clone, Debug, PartialEq, Eq)]
pub enum ContractError {
    /// The wire string is not the canonical form of any metadata.
    Deserialization,
    /// The protocol version is not the supported one.
    InvalidVersion { expected: String, actual: String },
    /// The controller connection is not the one the channel was opened on.
    InvalidConnection,
    /// The account address is too long or holds a character that is not
    /// alphanumeric.
    InvalidAddress,
    /// The transaction type is not the supported one.
    UnsupportedTxType(String),
}

/// What a [`ContractError`] says, with strings as sequences of characters.
pub enum ErrorView {
    Deserialization,
    InvalidVersion { expected: Seq<char>, actual: Seq<char> },
    InvalidConnection,
    InvalidAddress,
    UnsupportedTxType(Seq<char>),
}

impl View for ContractError {
    type V = ErrorView;

    open spec fn view(&self) -> ErrorView {
        match *self {
            ContractError::Deserialization => ErrorView::Deserialization,
            ContractError::InvalidVersion { expected, actual } => ErrorView::InvalidVersion {
                expected: expected@,
                actual: actual@,
            },
            ContractError::InvalidConnection => ErrorView::InvalidConnection,
            ContractError::InvalidAddress => ErrorView::InvalidAddress,
            ContractError::UnsupportedTxType(tx_type) => ErrorView::UnsupportedTxType(tx_type@),
        }
    }
}

} // verus!
