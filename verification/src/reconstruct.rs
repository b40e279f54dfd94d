//! Making up the metadata where the handshake message brought none.

use vstd::prelude::*;
use vstd::string::StringExecFns;
use crate::keys::{ICA_VERSION, TX_TYPE};
use crate::metadata::{Channel, IcaMetadata, MetadataView, TxEncoding};
use crate::text::{slice_text_of, text_of};
use crate::wire::parse_metadata;

verus! {

/// The metadata recorded by an earlier step, where a version string was
/// stored and stands for one.
pub open spec fn stored_metadata(stored_version: Option<Seq<char>>) -> Option<MetadataView> {
    match stored_version {
        Some(version) => parse_metadata(version),
        None => None,
    }
}

/// The metadata assumed where nothing usable is stored: the supported
/// version and transaction type, JSON encoding, no address yet, the
/// channel's own connection, and for the host's connection what the lookup
/// answered, or nothing.
pub open spec fn default_metadata(
    connection_id: Seq<char>,
    counterparty_connection_id: Option<Seq<char>>,
) -> MetadataView {
    MetadataView {
        version: ICA_VERSION@,
        controller_connection_id: connection_id,
        host_connection_id: match counterparty_connection_id {
            Some(id) => id,
            None => Seq::empty(),
        },
        address: Seq::empty(),
        encoding: TxEncoding::Proto3Json,
        tx_type: TX_TYPE@,
    }
}

/// The metadata to go on with: what was stored, where that can be read, and
/// the default otherwise.
pub open spec fn reconstructed(
    stored_version: Option<Seq<char>>,
    connection_id: Seq<char>,
    counterparty_connection_id: Option<Seq<char>>,
) -> MetadataView {
    match stored_metadata(stored_version) {
        Some(m) => m,
        None => default_metadata(connection_id, counterparty_connection_id),
    }
}

impl IcaMetadata {
    /// Reads the metadata that an earlier step recorded. `stored_version` is
    /// the version string of the stored channel state, `None` where no state
    /// could be loaded. Gives `None` where there is none or it cannot be
    /// read; the caller then asks for the counterparty's connection and
    /// calls [`IcaMetadata::with_defaults`].
    pub fn from_stored_version(stored_version: Option<&str>) -> (r: Option<IcaMetadata>)
        ensures
            match stored_metadata(slice_text_of(stored_version)) {
                Some(m) => r matches Some(x) && x@ == m,
                None => r is None,
            },
    {
        match stored_version {
            Some(version) => match IcaMetadata::deserialize(version) {
                Ok(metadata) => Some(metadata),
                Err(_) => None,
            },
            None => None,
        }
    }

    /// Makes up the default metadata for a channel.
    /// `counterparty_connection_id` is what the lookup of the remote
    /// connection answered, `None` where it failed or is not supported.
    pub fn with_defaults(channel: &Channel, counterparty_connection_id: Option<String>) -> (r:
        IcaMetadata)
        ensures
            r@ == default_metadata(
                channel.connection_id@,
                text_of(counterparty_connection_id),
            ),
    {
        IcaMetadata {
            version: String::from_str(ICA_VERSION),
            controller_connection_id: channel.connection_id.clone(),
            host_connection_id: match counterparty_connection_id {
                Some(id) => id,
                None => String::new(),
            },
            address: String::new(),
            encoding: TxEncoding::Proto3Json,
            tx_type: String::from_str(TX_TYPE),
        }
    }

    /// Produces the metadata for a handshake message that brought none: the
    /// recorded one where it can be read, whatever the lookup answered, and
    /// the default otherwise. It never fails.
    pub fn from_channel(
        stored_version: Option<&str>,
        channel: &Channel,
        counterparty_connection_id: Option<String>,
    ) -> (r: IcaMetadata)
        ensures
            r@ == reconstructed(
                slice_text_of(stored_version),
                channel.connection_id@,
                text_of(counterparty_connection_id),
            ),
    {
        match IcaMetadata::from_stored_version(stored_version) {
            Some(metadata) => metadata,
            None => IcaMetadata::with_defaults(channel, counterparty_connection_id),
        }
    }
}

} // verus!
