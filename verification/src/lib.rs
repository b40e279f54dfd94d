//! Handshake metadata for interchain-account channels: the data model, its
//! canonical wire form, validation against the local channel, and the
//! comparison used when a handshake is retried.

pub mod address;
pub mod codec;
pub mod compare;
pub mod error;
pub mod json;
pub mod json_proofs;
pub mod keys;
pub mod laws;
pub mod metadata;
pub mod reconstruct;
pub mod text;
pub mod validate;
pub mod wire;
pub mod wire_proofs;

pub use address::validate_ica_address;
pub use codec::PartialMetadata;
pub use error::ContractError;
pub use keys::{ICA_VERSION, MAX_ADDRESS_LENGTH, TX_TYPE};
pub use metadata::{Channel, IcaMetadata, TxEncoding};
