//! What holds of the library as a whole, stated over the same spec functions
//! as the contracts of its functions.

use vstd::prelude::*;
use vstd::utf8::{encode_utf8, is_ascii_chars};
use crate::address::{all_alphanumeric, valid_ica_address};
use crate::compare::{previous_version_equal, same_terms};
use crate::error::ErrorView;
use crate::keys::{ICA_VERSION, MAX_ADDRESS_LENGTH, TX_TYPE};
use crate::metadata::{MetadataView, TxEncoding};
use crate::reconstruct::{default_metadata, reconstructed, stored_metadata};
use crate::text::is_alphanumeric;
use crate::validate::first_failure;
use crate::wire::{parse_metadata, wire_form};
use crate::wire_proofs::lemma_parse_wire_form;

verus! {

/// Writing a metadata and reading the result gives the metadata back,
/// whatever its fields hold.
pub proof fn law_round_trip(m: MetadataView)
    ensures
        parse_metadata(wire_form(m)) == Some(m),
{
    lemma_parse_wire_form(m);
}

/// Two metadata with the same wire form are the same metadata.
pub proof fn law_wire_form_injective(a: MetadataView, b: MetadataView)
    requires
        wire_form(a) == wire_form(b),
    ensures
        a == b,
{
    lemma_parse_wire_form(a);
    lemma_parse_wire_form(b);
}

/// A metadata is accepted exactly when the version is the supported one, the
/// controller's connection is the channel's, the address is empty or well
/// shaped, and the transaction type is the supported one. The host's
/// connection and the encoding play no part.
pub proof fn law_accepted_iff_all_checks_hold(m: MetadataView, connection_id: Seq<char>)
    ensures
        first_failure(m, connection_id) is None <==> {
            &&& m.version == ICA_VERSION@
            &&& m.controller_connection_id == connection_id
            &&& (m.address.len() == 0 || valid_ica_address(m.address))
            &&& m.tx_type == TX_TYPE@
        },
{
}

/// A metadata with the supported version and transaction type, the
/// channel's connection and no address is accepted, whatever its encoding
/// and its host connection.
pub proof fn law_minimal_is_accepted(
    connection_id: Seq<char>,
    host_connection_id: Seq<char>,
    encoding: TxEncoding,
)
    ensures
        first_failure(
            MetadataView {
                version: ICA_VERSION@,
                controller_connection_id: connection_id,
                host_connection_id,
                address: Seq::empty(),
                encoding,
                tx_type: TX_TYPE@,
            },
            connection_id,
        ) is None,
{
}

/// Where exactly one of the four checks fails, the error is the one named
/// after that check, and it carries the offending value where it has one.
pub proof fn law_single_failure_is_named(m: MetadataView, connection_id: Seq<char>)
    ensures
        m.version != ICA_VERSION@ ==> first_failure(m, connection_id) == Some(
            ErrorView::InvalidVersion { expected: ICA_VERSION@, actual: m.version },
        ),
        m.version == ICA_VERSION@ && m.controller_connection_id != connection_id ==> first_failure(
            m,
            connection_id,
        ) == Some(ErrorView::InvalidConnection),
        m.version == ICA_VERSION@ && m.controller_connection_id == connection_id && m.address.len()
            > 0 && !valid_ica_address(m.address) ==> first_failure(m, connection_id) == Some(
            ErrorView::InvalidAddress,
        ),
        m.version == ICA_VERSION@ && m.controller_connection_id == connection_id && (
        m.address.len() == 0 || valid_ica_address(m.address)) && m.tx_type != TX_TYPE@
            ==> first_failure(m, connection_id) == Some(ErrorView::UnsupportedTxType(m.tx_type)),
{
}

/// The UTF-8 encoding of a text has at least one byte for each character.
pub proof fn lemma_utf8_at_least_one_byte_each(s: Seq<char>)
    ensures
        encode_utf8(s).len() >= s.len(),
    decreases s.len(),
{
    if s.len() > 0 {
        lemma_utf8_at_least_one_byte_each(s.drop_first());
    }
}

/// An address of alphanumeric ASCII characters is well shaped exactly when
/// it has at most 128 of them; an address of more than 128 characters, or
/// with a character that is not alphanumeric, never is.
pub proof fn law_address_shape(address: Seq<char>)
    ensures
        is_ascii_chars(address) && all_alphanumeric(address) ==> (valid_ica_address(address)
            <==> address.len() <= MAX_ADDRESS_LENGTH),
        address.len() > MAX_ADDRESS_LENGTH ==> !valid_ica_address(address),
        (exists|i: int| 0 <= i < address.len() && !is_alphanumeric(#[trigger] address[i]))
            ==> !valid_ica_address(address),
{
    lemma_utf8_at_least_one_byte_each(address);
    if is_ascii_chars(address) {
        vstd::utf8::is_ascii_chars_encode_utf8(address);
    }
}

/// Two metadata that differ in nothing but the account address state the
/// same terms: each equals the recorded form of the other.
pub proof fn law_address_is_not_compared(a: MetadataView, b: MetadataView)
    requires
        a.version == b.version,
        a.controller_connection_id == b.controller_connection_id,
        a.host_connection_id == b.host_connection_id,
        a.encoding == b.encoding,
        a.tx_type == b.tx_type,
    ensures
        same_terms(a, b),
        previous_version_equal(a, wire_form(b)),
{
    lemma_parse_wire_form(b);
}

/// Two metadata that differ in the version, in either connection, in the
/// encoding or in the transaction type do not state the same terms.
pub proof fn law_other_fields_are_compared(a: MetadataView, b: MetadataView)
    requires
        a.version != b.version || a.controller_connection_id != b.controller_connection_id
            || a.host_connection_id != b.host_connection_id || a.encoding != b.encoding
            || a.tx_type != b.tx_type,
    ensures
        !same_terms(a, b),
        !previous_version_equal(a, wire_form(b)),
{
    lemma_parse_wire_form(b);
}

/// A recorded version string that cannot be read equals no metadata.
pub proof fn law_unreadable_previous_never_equal(m: MetadataView, previous: Seq<char>)
    requires
        parse_metadata(previous) is None,
    ensures
        !previous_version_equal(m, previous),
{
}

/// Where the stored version string is the wire form of a metadata, that
/// metadata is what comes back, whatever the channel and the lookup say.
pub proof fn law_stored_metadata_wins(
    stored: MetadataView,
    connection_id: Seq<char>,
    counterparty_connection_id: Option<Seq<char>>,
)
    ensures
        reconstructed(Some(wire_form(stored)), connection_id, counterparty_connection_id)
            == stored,
{
    lemma_parse_wire_form(stored);
}

/// Where nothing readable is stored and the lookup has no answer, what comes
/// back has the channel's connection, no host connection, no address, JSON
/// encoding and the supported version and transaction type.
pub proof fn law_default_without_lookup(stored_version: Option<Seq<char>>, connection_id: Seq<char>)
    requires
        stored_metadata(stored_version) is None,
    ensures
        reconstructed(stored_version, connection_id, None) == (MetadataView {
            version: ICA_VERSION@,
            controller_connection_id: connection_id,
            host_connection_id: Seq::empty(),
            address: Seq::empty(),
            encoding: TxEncoding::Proto3Json,
            tx_type: TX_TYPE@,
        }),
{
}

/// The default metadata of a channel is accepted for that channel, whatever
/// the lookup answered.
pub proof fn law_default_is_accepted(
    connection_id: Seq<char>,
    counterparty_connection_id: Option<Seq<char>>,
)
    ensures
        first_failure(default_metadata(connection_id, counterparty_connection_id), connection_id)
            is None,
{
}

} // verus!
