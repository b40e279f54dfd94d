//! The wire form of the metadata: an object of six members, each a quoted
//! key, a colon and a quoted value.

use vstd::prelude::*;
use crate::json::{literal_at, quote};
use crate::metadata::{MetadataView, TxEncoding};

verus! {

/// The key of the protocol version.
pub const KEY_VERSION: &'static str = "version";

/// The key of the controller's connection.
pub const KEY_CONTROLLER: &'static str = "controller_connection_id";

/// The key of the host's connection.
pub const KEY_HOST: &'static str = "host_connection_id";

/// The key of the account address.
pub const KEY_ADDRESS: &'static str = "address";

/// The key of the transaction encoding.
pub const KEY_ENCODING: &'static str = "encoding";

/// The key of the transaction type.
pub const KEY_TX_TYPE: &'static str = "tx_type";

/// The wire tag of [`TxEncoding::Protobuf`].
pub const TAG_PROTOBUF: &'static str = "proto3";

/// The wire tag of [`TxEncoding::Proto3Json`].
pub const TAG_PROTO3JSON: &'static str = "proto3json";

/// The wire tag of an encoding.
pub open spec fn tag_of(encoding: TxEncoding) -> Seq<char> {
    match encoding {
        TxEncoding::Protobuf => TAG_PROTOBUF@,
        TxEncoding::Proto3Json => TAG_PROTO3JSON@,
    }
}

/// The encoding that a wire tag names, if it names one.
pub open spec fn encoding_of(tag: Seq<char>) -> Option<TxEncoding> {
    if tag == TAG_PROTOBUF@ {
        Some(TxEncoding::Protobuf)
    } else if tag == TAG_PROTO3JSON@ {
        Some(TxEncoding::Proto3Json)
    } else {
        None
    }
}

/// One member of the object: the quoted key, a colon, the quoted value.
pub open spec fn member(key: Seq<char>, value: Seq<char>) -> Seq<char> {
    quote(key) + seq![':'] + quote(value)
}

/// The canonical wire form of a metadata: the six members in the order of
/// the fields, separated by commas, between braces, without any space.
pub open spec fn wire_form(m: MetadataView) -> Seq<char> {
    seq!['{'] + member(KEY_VERSION@, m.version) + seq![','] + member(
        KEY_CONTROLLER@,
        m.controller_connection_id,
    ) + seq![','] + member(KEY_HOST@, m.host_connection_id) + seq![','] + member(
        KEY_ADDRESS@,
        m.address,
    ) + seq![','] + member(KEY_ENCODING@, tag_of(m.encoding)) + seq![','] + member(
        KEY_TX_TYPE@,
        m.tx_type,
    ) + seq!['}']
}

/// The four characters that may stand between the tokens of an object.
pub open spec fn is_space(c: char) -> bool {
    c == ' ' || c == '\n' || c == '\t' || c == '\r'
}

/// The first index from `i` on that holds no space; the length of `s` where
/// only spaces follow.
pub open spec fn skip_spaces(s: Seq<char>, i: int) -> int
    decreases s.len() - i,
{
    if 0 <= i < s.len() && is_space(s[i]) {
        skip_spaces(s, i + 1)
    } else {
        i
    }
}

/// The fields read so far from an object.
pub struct Fields {
    pub version: Option<Seq<char>>,
    pub controller_connection_id: Option<Seq<char>>,
    pub host_connection_id: Option<Seq<char>>,
    pub address: Option<Seq<char>>,
    pub encoding: Option<TxEncoding>,
    pub tx_type: Option<Seq<char>>,
}

/// No field read yet.
pub open spec fn no_fields() -> Fields {
    Fields {
        version: None,
        controller_connection_id: None,
        host_connection_id: None,
        address: None,
        encoding: None,
        tx_type: None,
    }
}

/// The fields after one more member. `None` where the key is none of the
/// six, where its field was read before, or where the value of `encoding` is
/// no wire tag.
pub open spec fn with_member(f: Fields, key: Seq<char>, value: Seq<char>) -> Option<Fields> {
    if key == KEY_VERSION@ {
        if f.version is None {
            Some(Fields { version: Some(value), ..f })
        } else {
            None
        }
    } else if key == KEY_CONTROLLER@ {
        if f.controller_connection_id is None {
            Some(Fields { controller_connection_id: Some(value), ..f })
        } else {
            None
        }
    } else if key == KEY_HOST@ {
        if f.host_connection_id is None {
            Some(Fields { host_connection_id: Some(value), ..f })
        } else {
            None
        }
    } else if key == KEY_ADDRESS@ {
        if f.address is None {
            Some(Fields { address: Some(value), ..f })
        } else {
            None
        }
    } else if key == KEY_ENCODING@ {
        if f.encoding is None && encoding_of(value) is Some {
            Some(Fields { encoding: encoding_of(value), ..f })
        } else {
            None
        }
    } else if key == KEY_TX_TYPE@ {
        if f.tx_type is None {
            Some(Fields { tx_type: Some(value), ..f })
        } else {
            None
        }
    } else {
        None
    }
}

/// The metadata that the fields make up, once all six have been read.
pub open spec fn complete(f: Fields) -> Option<MetadataView> {
    if f.version is Some && f.controller_connection_id is Some && f.host_connection_id is Some
        && f.address is Some && f.encoding is Some && f.tx_type is Some {
        Some(
            MetadataView {
                version: f.version->0,
                controller_connection_id: f.controller_connection_id->0,
                host_connection_id: f.host_connection_id->0,
                address: f.address->0,
                encoding: f.encoding->0,
                tx_type: f.tx_type->0,
            },
        )
    } else {
        None
    }
}

/// The member that starts at `j`, an index that holds neither a space nor
/// the closing brace: its key, its value and the index just behind it. Any
/// member but the first follows a comma. Spaces may stand behind the comma
/// and on both sides of the colon.
pub open spec fn member_at(s: Seq<char>, j: int, first: bool) -> Option<
    (Seq<char>, Seq<char>, int),
> {
    let k = if first {
        j
    } else if 0 <= j < s.len() && s[j] == ',' {
        skip_spaces(s, j + 1)
    } else {
        -1
    };
    match literal_at(s, k) {
        Some((key, after_key)) => {
            let colon = skip_spaces(s, after_key);
            if 0 <= colon < s.len() && s[colon] == ':' {
                match literal_at(s, skip_spaces(s, colon + 1)) {
                    Some((value, next)) => Some((key, value, next)),
                    None => None,
                }
            } else {
                None
            }
        },
        None => None,
    }
}

/// The members from `i` up to the closing brace, added to `acc`: the fields
/// and the index just behind the brace.
pub open spec fn members_from(s: Seq<char>, i: int, first: bool, acc: Fields) -> Option<
    (Fields, int),
>
    decreases s.len() - i,
{
    let j = skip_spaces(s, i);
    if !(0 <= j < s.len()) {
        None
    } else if s[j] == '}' {
        Some((acc, j + 1))
    } else {
        match member_at(s, j, first) {
            Some((key, value, next)) => match with_member(acc, key, value) {
                Some(more) => if i < next <= s.len() {
                    members_from(s, next, false, more)
                } else {
                    None
                },
                None => None,
            },
            None => None,
        }
    }
}

/// The metadata that a wire string stands for: an object that holds each of
/// the six members once, in any order, with nothing but spaces around it.
/// `None` for any other string.
pub open spec fn parse_metadata(s: Seq<char>) -> Option<MetadataView> {
    let open = skip_spaces(s, 0);
    if 0 <= open < s.len() && s[open] == '{' {
        match members_from(s, open + 1, true, no_fields()) {
            Some((fields, end)) => if skip_spaces(s, end) == s.len() {
                complete(fields)
            } else {
                None
            },
            None => None,
        }
    } else {
        None
    }
}

} // verus!
