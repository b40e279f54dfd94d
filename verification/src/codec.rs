//! Writing a metadata in its wire form and reading it back.

use vstd::prelude::*;
use vstd::string::StringExecFns;
use crate::error::{ContractError, ErrorView};
use crate::json::{quote, quote_text, read_literal};
use crate::metadata::{IcaMetadata, TxEncoding};
use crate::text::{chars_of, str_eq, text_of};
use crate::wire::{
    complete, encoding_of, member, member_at, members_from, no_fields, parse_metadata,
    skip_spaces, tag_of, wire_form, with_member, Fields, KEY_ADDRESS, KEY_CONTROLLER,
    KEY_ENCODING, KEY_HOST, KEY_TX_TYPE, KEY_VERSION, TAG_PROTO3JSON, TAG_PROTOBUF,
};

verus! {

impl TxEncoding {
    /// The wire tag of the encoding.
    pub fn tag(&self) -> (r: &'static str)
        ensures
            r@ == tag_of(*self),
    {
        match self {
            TxEncoding::Protobuf => TAG_PROTOBUF,
            TxEncoding::Proto3Json => TAG_PROTO3JSON,
        }
    }

    /// The encoding that a wire tag names.
    pub fn from_tag(tag: &str) -> (r: Option<TxEncoding>)
        ensures
            r == encoding_of(tag@),
    {
        if str_eq(tag, TAG_PROTOBUF) {
            Some(TxEncoding::Protobuf)
        } else if str_eq(tag, TAG_PROTO3JSON) {
            Some(TxEncoding::Proto3Json)
        } else {
            None
        }
    }

    /// The encoding as it stands in the wire form: its tag between quotes.
    pub fn to_string(&self) -> (r: String)
        ensures
            r@ == quote(tag_of(*self)),
    {
        quote_text(self.tag())
    }
}

/// Appends one member to `out`.
fn push_member(out: &mut String, key: &str, value: &str)
    ensures
        final(out)@ == old(out)@ + member(key@, value@),
{
    let quoted_key = quote_text(key);
    let quoted_value = quote_text(value);
    proof {
        reveal_strlit(":");
        assert(":"@ =~= seq![':']);
    }
    out.append(quoted_key.as_str());
    out.append(":");
    out.append(quoted_value.as_str());
    assert(out@ =~= old(out)@ + member(key@, value@));
}

/// Appends a comma and one member to `out`.
fn push_next_member(out: &mut String, key: &str, value: &str)
    ensures
        final(out)@ == old(out)@ + seq![','] + member(key@, value@),
{
    proof {
        reveal_strlit(",");
        assert(","@ =~= seq![',']);
    }
    out.append(",");
    push_member(out, key, value);
}

/// The fields read so far from an object. Members are stored one by one, in
/// the order in which they are read; the metadata is there once each of the
/// six has been stored once.
pub struct PartialMetadata {
    version: Option<String>,
    controller_connection_id: Option<String>,
    host_connection_id: Option<String>,
    address: Option<String>,
    encoding: Option<TxEncoding>,
    tx_type: Option<String>,
}

impl View for PartialMetadata {
    type V = Fields;

    closed spec fn view(&self) -> Fields {
        Fields {
            version: text_of(self.version),
            controller_connection_id: text_of(self.controller_connection_id),
            host_connection_id: text_of(self.host_connection_id),
            address: text_of(self.address),
            encoding: self.encoding,
            tx_type: text_of(self.tx_type),
        }
    }
}

impl PartialMetadata {
    /// No field read yet.
    pub fn new() -> (r: Self)
        ensures
            r@ == no_fields(),
    {
        PartialMetadata {
            version: None,
            controller_connection_id: None,
            host_connection_id: None,
            address: None,
            encoding: None,
            tx_type: None,
        }
    }

    /// Stores one member, given by the text of its key and of its value.
    /// Returns `false`, with the fields of no further use, where the key is
    /// none of the six, where it was stored before, or where the value of
    /// `encoding` is no wire tag.
    pub fn store(&mut self, key: &str, value: String) -> (stored: bool)
        ensures
            match with_member(old(self)@, key@, value@) {
                Some(more) => stored && final(self)@ == more,
                None => !stored,
            },
    {
        if str_eq(key, KEY_VERSION) {
            if self.version.is_some() {
                return false;
            }
            self.version = Some(value);
        } else if str_eq(key, KEY_CONTROLLER) {
            if self.controller_connection_id.is_some() {
                return false;
            }
            self.controller_connection_id = Some(value);
        } else if str_eq(key, KEY_HOST) {
            if self.host_connection_id.is_some() {
                return false;
            }
            self.host_connection_id = Some(value);
        } else if str_eq(key, KEY_ADDRESS) {
            if self.address.is_some() {
                return false;
            }
            self.address = Some(value);
        } else if str_eq(key, KEY_ENCODING) {
            if self.encoding.is_some() {
                return false;
            }
            match TxEncoding::from_tag(value.as_str()) {
                Some(encoding) => {
                    self.encoding = Some(encoding);
                },
                None => {
                    return false;
                },
            }
        } else if str_eq(key, KEY_TX_TYPE) {
            if self.tx_type.is_some() {
                return false;
            }
            self.tx_type = Some(value);
        } else {
            return false;
        }
        true
    }

    /// The metadata, once all six fields have been read; `None` while one is
    /// missing.
    pub fn finish(self) -> (r: Option<IcaMetadata>)
        ensures
            match complete(self@) {
                Some(m) => r matches Some(x) && x@ == m,
                None => r is None,
            },
    {
        match (
            self.version,
            self.controller_connection_id,
            self.host_connection_id,
            self.address,
            self.encoding,
            self.tx_type,
        ) {
            (
                Some(version),
                Some(controller_connection_id),
                Some(host_connection_id),
                Some(address),
                Some(encoding),
                Some(tx_type),
            ) => Some(
                IcaMetadata {
                    version,
                    controller_connection_id,
                    host_connection_id,
                    address,
                    encoding,
                    tx_type,
                },
            ),
            _ => None,
        }
    }
}

/// Skips the spaces from `i` on.
fn skip_whitespace(chars: &Vec<char>, i: usize) -> (j: usize)
    requires
        i <= chars.len(),
    ensures
        i <= j <= chars.len(),
        j == skip_spaces(chars@, i as int),
{
    let mut j: usize = i;
    while j < chars.len() && (chars[j] == ' ' || chars[j] == '\n' || chars[j] == '\t' || chars[j]
        == '\r')
        invariant
            i <= j <= chars.len(),
            skip_spaces(chars@, i as int) == skip_spaces(chars@, j as int),
        decreases chars.len() - j,
    {
        j = j + 1;
    }
    j
}

/// Reads the member that starts at `j`.
fn read_member(chars: &Vec<char>, j: usize, first: bool) -> (r: Option<(String, String, usize)>)
    requires
        j < chars.len(),
    ensures
        match r {
            Some((key, value, next)) => j < next <= chars.len() && member_at(
                chars@,
                j as int,
                first,
            ) == Some((key@, value@, next as int)),
            None => member_at(chars@, j as int, first) is None,
        },
{
    let mut k: usize = j;
    if !first {
        if chars[j] != ',' {
            return None;
        }
        k = skip_whitespace(chars, j + 1);
    }
    if k >= chars.len() || chars[k] != '"' {
        return None;
    }
    match read_literal(chars, k) {
        Some((key, after_key)) => {
            let colon = skip_whitespace(chars, after_key);
            if colon >= chars.len() || chars[colon] != ':' {
                return None;
            }
            let start = skip_whitespace(chars, colon + 1);
            if start >= chars.len() || chars[start] != '"' {
                return None;
            }
            match read_literal(chars, start) {
                Some((value, next)) => Some((key, value, next)),
                None => None,
            }
        },
        None => None,
    }
}

/// Reads the members from `start` up to the closing brace.
fn read_members(chars: &Vec<char>, start: usize) -> (r: Option<(PartialMetadata, usize)>)
    requires
        start <= chars.len(),
    ensures
        match r {
            Some((fields, end)) => end <= chars.len() && members_from(
                chars@,
                start as int,
                true,
                no_fields(),
            ) == Some((fields@, end as int)),
            None => members_from(chars@, start as int, true, no_fields()) is None,
        },
{
    let mut fields = PartialMetadata::new();
    let mut i: usize = start;
    let mut first: bool = true;
    loop
        invariant
            start <= i <= chars.len(),
            members_from(chars@, start as int, true, no_fields()) == members_from(
                chars@,
                i as int,
                first,
                fields@,
            ),
        decreases chars.len() - i,
    {
        let j = skip_whitespace(chars, i);
        if j >= chars.len() {
            return None;
        }
        if chars[j] == '}' {
            return Some((fields, j + 1));
        }
        match read_member(chars, j, first) {
            Some((key, value, next)) => {
                if !fields.store(key.as_str(), value) {
                    return None;
                }
                i = next;
                first = false;
            },
            None => {
                return None;
            },
        }
    }
}

impl IcaMetadata {
    /// Writes the metadata in its wire form. The same metadata always gives
    /// the same string.
    pub fn to_string(&self) -> (r: String)
        ensures
            r@ == wire_form(self@),
    {
        proof {
            reveal_strlit("{");
            reveal_strlit("}");
            assert("{"@ =~= seq!['{']);
            assert("}"@ =~= seq!['}']);
        }
        let mut out = String::from_str("{");
        push_member(&mut out, KEY_VERSION, self.version.as_str());
        push_next_member(&mut out, KEY_CONTROLLER, self.controller_connection_id.as_str());
        push_next_member(&mut out, KEY_HOST, self.host_connection_id.as_str());
        push_next_member(&mut out, KEY_ADDRESS, self.address.as_str());
        push_next_member(&mut out, KEY_ENCODING, self.encoding.tag());
        push_next_member(&mut out, KEY_TX_TYPE, self.tx_type.as_str());
        out.append("}");
        out
    }

    /// Reads a metadata from its wire form. The parse is strict: a key that
    /// is none of the six, a key that occurs twice, a missing key, a value
    /// that is no string, an unknown tag for the encoding, or anything but
    /// spaces around the object gives [`ContractError::Deserialization`].
    pub fn deserialize(s: &str) -> (r: Result<IcaMetadata, ContractError>)
        ensures
            match parse_metadata(s@) {
                Some(m) => r matches Ok(x) && x@ == m,
                None => r matches Err(e) && e@ == ErrorView::Deserialization,
            },
    {
        let chars = chars_of(s);
        let open = skip_whitespace(&chars, 0);
        if open >= chars.len() || chars[open] != '{' {
            return Err(ContractError::Deserialization);
        }
        match read_members(&chars, open + 1) {
            Some((fields, end)) => {
                if skip_whitespace(&chars, end) != chars.len() {
                    return Err(ContractError::Deserialization);
                }
                match fields.finish() {
                    Some(metadata) => Ok(metadata),
                    None => Err(ContractError::Deserialization),
                }
            },
            None => Err(ContractError::Deserialization),
        }
    }
}

} // verus!
