//! The metadata that two chains exchange while a channel is opened.

use vstd::prelude::*;

verus! {

/// How the transactions sent to the remote account are encoded.
#[derive(Clone, Copy, Debug, PartialEq, Eq, Structural)]
pub enum TxEncoding {
    /// Protobuf encoding of `Any`; its wire tag is `proto3`.
    Protobuf,
    /// JSON encoding of `Any`; its wire tag is `proto3json`.
    Proto3Json,
}

/// The metadata of one channel, as negotiated during the handshake.
#[derive(Clone, Debug, PartialEq, Eq)]
pub struct IcaMetadata {
    /// The version of the application protocol.
    pub version: String,
    /// The connection of the local chain that the channel runs over.
    pub controller_connection_id: String,
    /// The connection of the remote chain. Nothing on the local chain can
    /// confirm it, so it is recorded and never checked.
    pub host_connection_id: String,
    /// The address of the remote account; empty until the remote chain has
    /// created the account.
    pub address: String,
    /// The encoding of the transactions sent to the remote account.
    pub encoding: TxEncoding,
    /// The type of transaction sent to the remote account.
    pub tx_type: String,
}

/// An [`IcaMetadata`] with its strings as sequences of characters.
pub struct MetadataView {
    pub version: Seq<char>,
    pub controller_connection_id: Seq<char>,
    pub host_connection_id: Seq<char>,
    pub address: Seq<char>,
    pub encoding: TxEncoding,
    pub tx_type: Seq<char>,
}

impl View for IcaMetadata {
    type V = MetadataView;

    open spec fn view(&self) -> MetadataView {
        MetadataView {
            version: self.version@,
            controller_connection_id: self.controller_connection_id@,
            host_connection_id: self.host_connection_id@,
            address: self.address@,
            encoding: self.encoding,
            tx_type: self.tx_type@,
        }
    }
}

/// What the handshake layer presents of the channel being opened: the local
/// connection it runs over.
#[derive(Clone, Debug, PartialEq, Eq)]
pub struct Channel {
    /// The connection of the local chain.
    pub connection_id: String,
}

impl IcaMetadata {
    /// Puts the six fields together, unchanged and unchecked.
    pub fn new(
        version: String,
        controller_connection_id: String,
        host_connection_id: String,
        address: String,
        encoding: TxEncoding,
        tx_type: String,
    ) -> (r: Self)
        ensures
            r.version == version,
            r.controller_connection_id == controller_connection_id,
            r.host_connection_id == host_connection_id,
            r.address == address,
            r.encoding == encoding,
            r.tx_type == tx_type,
    {
        IcaMetadata {
            version,
            controller_connection_id,
            host_connection_id,
            address,
            encoding,
            tx_type,
        }
    }
}

} // verus!
