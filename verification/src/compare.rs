//! Whether a metadata still states what an earlier handshake attempt
//! recorded.

use vstd::prelude::*;
use crate::metadata::{IcaMetadata, MetadataView};
use crate::wire::parse_metadata;

verus! {

/// Two metadata state the same terms: they agree on everything but the
/// account address, which may appear or change between two attempts.
pub open spec fn same_terms(a: MetadataView, b: MetadataView) -> bool {
    &&& a.version == b.version
    &&& a.controller_connection_id == b.controller_connection_id
    &&& a.host_connection_id == b.host_connection_id
    &&& a.encoding == b.encoding
    &&& a.tx_type == b.tx_type
}

/// `m` states the terms that the wire string `previous` recorded. A string
/// that stands for no metadata records nothing, and nothing equals it.
pub open spec fn previous_version_equal(m: MetadataView, previous: Seq<char>) -> bool {
    match parse_metadata(previous) {
        Some(recorded) => same_terms(m, recorded),
        None => false,
    }
}

impl IcaMetadata {
    /// Whether the metadata states the terms that an earlier version string
    /// recorded. A version string that cannot be read gives `false`, never
    /// an error.
    pub fn is_previous_version_equal(&self, previous_version: &str) -> (r: bool)
        ensures
            r == previous_version_equal(self@, previous_version@),
    {
        match IcaMetadata::deserialize(previous_version) {
            Ok(previous) => self.has_same_terms(&previous),
            Err(_) => false,
        }
    }

    /// Whether two metadata state the same terms: whether they agree on
    /// everything but the account address.
    pub fn has_same_terms(&self, other: &IcaMetadata) -> (r: bool)
        ensures
            r == same_terms(self@, other@),
    {
        self.version == other.version && self.controller_connection_id
            == other.controller_connection_id && self.host_connection_id
            == other.host_connection_id && self.encoding == other.encoding && self.tx_type
            == other.tx_type
    }
}

} // verus!
