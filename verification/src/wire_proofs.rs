//! Why the canonical wire form reads back as the metadata it was written
//! from.

use vstd::prelude::*;
use crate::json::quote;
use crate::json_proofs::lemma_literal_at_quote;
use crate::metadata::{MetadataView, TxEncoding};
use crate::wire::{
    complete, encoding_of, member, member_at, members_from, no_fields, parse_metadata,
    skip_spaces, tag_of, wire_form, with_member, Fields, KEY_ADDRESS, KEY_CONTROLLER,
    KEY_ENCODING, KEY_HOST, KEY_TX_TYPE, KEY_VERSION, TAG_PROTO3JSON, TAG_PROTOBUF,
};

verus! {

/// The six keys are six different strings, and the two tags are two.
pub proof fn lemma_keys_distinct()
    ensures
        KEY_VERSION@ != KEY_CONTROLLER@,
        KEY_VERSION@ != KEY_HOST@,
        KEY_VERSION@ != KEY_ADDRESS@,
        KEY_VERSION@ != KEY_ENCODING@,
        KEY_VERSION@ != KEY_TX_TYPE@,
        KEY_CONTROLLER@ != KEY_HOST@,
        KEY_CONTROLLER@ != KEY_ADDRESS@,
        KEY_CONTROLLER@ != KEY_ENCODING@,
        KEY_CONTROLLER@ != KEY_TX_TYPE@,
        KEY_HOST@ != KEY_ADDRESS@,
        KEY_HOST@ != KEY_ENCODING@,
        KEY_HOST@ != KEY_TX_TYPE@,
        KEY_ADDRESS@ != KEY_ENCODING@,
        KEY_ADDRESS@ != KEY_TX_TYPE@,
        KEY_ENCODING@ != KEY_TX_TYPE@,
        TAG_PROTOBUF@ != TAG_PROTO3JSON@,
{
    reveal_strlit("version");
    reveal_strlit("controller_connection_id");
    reveal_strlit("host_connection_id");
    reveal_strlit("address");
    reveal_strlit("encoding");
    reveal_strlit("tx_type");
    reveal_strlit("proto3");
    reveal_strlit("proto3json");
    assert(KEY_VERSION@[0] == 'v');
    assert(KEY_ADDRESS@[0] == 'a');
    assert(KEY_TX_TYPE@[0] == 't');
    assert(KEY_VERSION@.len() == 7);
    assert(KEY_CONTROLLER@.len() == 24);
    assert(KEY_HOST@.len() == 18);
    assert(KEY_ADDRESS@.len() == 7);
    assert(KEY_ENCODING@.len() == 8);
    assert(KEY_TX_TYPE@.len() == 7);
    assert(TAG_PROTOBUF@.len() == 6);
    assert(TAG_PROTO3JSON@.len() == 10);
}

/// A tag names the encoding it is the tag of.
pub proof fn lemma_encoding_of_tag(encoding: TxEncoding)
    ensures
        encoding_of(tag_of(encoding)) == Some(encoding),
{
    lemma_keys_distinct();
}

/// Where `member(key, value)` stands at `j`, behind a comma unless it is the
/// first, reading a member there gives the key and the value and ends just
/// behind it.
pub proof fn lemma_member_at(s: Seq<char>, j: int, first: bool, key: Seq<char>, value: Seq<char>)
    requires
        0 <= j,
        !first ==> j < s.len() && s[j] == ',',
        ({
            let k = if first {
                j
            } else {
                j + 1
            };
            k + member(key, value).len() <= s.len() && s.subrange(k, k + member(key, value).len())
                == member(key, value)
        }),
    ensures
        member_at(s, j, first) == Some(
            (
                key,
                value,
                (if first {
                    j
                } else {
                    j + 1
                }) + member(key, value).len(),
            ),
        ),
{
    let k: int = if first {
        j
    } else {
        j + 1
    };
    let m = member(key, value);
    let qk = quote(key);
    let qv = quote(value);
    let nk: int = qk.len() as int;
    let a: int = k + nk;
    assert(m.len() == qk.len() + 1 + qv.len());
    assert forall|x: int| 0 <= x < m.len() implies s[k + x] == m[x] by {
        assert(s.subrange(k, k + m.len())[x] == s[k + x]);
    }
    assert(s[k] == m[0] && m[0] == '"');
    assert(skip_spaces(s, k) == k);
    assert(s.subrange(k, k + qk.len()) =~= qk) by {
        assert forall|x: int| 0 <= x < qk.len() implies s.subrange(k, k + qk.len())[x] == qk[x] by {
            assert(s[k + x] == m[x]);
        }
    }
    lemma_literal_at_quote(s, k, key);
    assert(s[a] == m[nk] && m[nk] == ':');
    assert(skip_spaces(s, a) == a);
    assert(s[a + 1] == m[nk + 1] && m[nk + 1] == '"');
    assert(skip_spaces(s, a + 1) == a + 1);
    assert(s.subrange(a + 1, a + 1 + qv.len()) =~= qv) by {
        assert forall|x: int| 0 <= x < qv.len() implies s.subrange(a + 1, a + 1 + qv.len())[x]
            == qv[x] by {
            assert(s[k + (nk + 1 + x)] == m[nk + 1 + x]);
        }
    }
    lemma_literal_at_quote(s, a + 1, value);
}

/// Reading the members of an object passes over one canonical member and
/// goes on behind it with the member added.
pub proof fn lemma_members_step(
    s: Seq<char>,
    i: int,
    first: bool,
    acc: Fields,
    key: Seq<char>,
    value: Seq<char>,
)
    requires
        0 <= i,
        !first ==> i < s.len() && s[i] == ',',
        ({
            let k = if first {
                i
            } else {
                i + 1
            };
            k + member(key, value).len() <= s.len() && s.subrange(k, k + member(key, value).len())
                == member(key, value)
        }),
        with_member(acc, key, value) is Some,
    ensures
        members_from(s, i, first, acc) == members_from(
            s,
            (if first {
                i
            } else {
                i + 1
            }) + member(key, value).len(),
            false,
            with_member(acc, key, value)->0,
        ),
{
    let m = member(key, value);
    assert(m.len() >= 5);
    if first {
        assert(s[i] == s.subrange(i, i + m.len())[0]);
        assert(m[0] == '"');
    }
    assert(skip_spaces(s, i) == i);
    lemma_member_at(s, i, first, key, value);
}

/// The key of the `n`-th member of the canonical form, counted from one.
pub open spec fn nth_key(n: int) -> Seq<char> {
    if n == 1 {
        KEY_VERSION@
    } else if n == 2 {
        KEY_CONTROLLER@
    } else if n == 3 {
        KEY_HOST@
    } else if n == 4 {
        KEY_ADDRESS@
    } else if n == 5 {
        KEY_ENCODING@
    } else {
        KEY_TX_TYPE@
    }
}

/// The value of the `n`-th member of the canonical form of `m`.
pub open spec fn nth_value(m: MetadataView, n: int) -> Seq<char> {
    if n == 1 {
        m.version
    } else if n == 2 {
        m.controller_connection_id
    } else if n == 3 {
        m.host_connection_id
    } else if n == 4 {
        m.address
    } else if n == 5 {
        tag_of(m.encoding)
    } else {
        m.tx_type
    }
}

/// The canonical form of `m` from the comma before its `n`-th member on; the
/// closing brace alone once the six members are written.
pub open spec fn rest_from(m: MetadataView, n: int) -> Seq<char>
    decreases 7 - n,
{
    if n >= 7 {
        seq!['}']
    } else {
        seq![','] + member(nth_key(n), nth_value(m, n)) + rest_from(m, n + 1)
    }
}

/// The fields that the first `n` members of the canonical form of `m` give.
pub open spec fn fields_after(m: MetadataView, n: int) -> Fields {
    Fields {
        version: if n >= 1 {
            Some(m.version)
        } else {
            None
        },
        controller_connection_id: if n >= 2 {
            Some(m.controller_connection_id)
        } else {
            None
        },
        host_connection_id: if n >= 3 {
            Some(m.host_connection_id)
        } else {
            None
        },
        address: if n >= 4 {
            Some(m.address)
        } else {
            None
        },
        encoding: if n >= 5 {
            Some(m.encoding)
        } else {
            None
        },
        tx_type: if n >= 6 {
            Some(m.tx_type)
        } else {
            None
        },
    }
}

/// The `n`-th member is accepted behind the first `n - 1`.
pub proof fn lemma_nth_member_accepted(m: MetadataView, n: int)
    requires
        1 <= n <= 6,
    ensures
        with_member(fields_after(m, n - 1), nth_key(n), nth_value(m, n)) == Some(
            fields_after(m, n),
        ),
{
    lemma_keys_distinct();
    lemma_encoding_of_tag(m.encoding);
}

/// The canonical form is the opening brace, the first member and the rest.
pub proof fn lemma_wire_form_parts(m: MetadataView)
    ensures
        wire_form(m) == seq!['{'] + member(nth_key(1), nth_value(m, 1)) + rest_from(m, 2),
{
    reveal_with_fuel(rest_from, 7);
    assert(wire_form(m) =~= seq!['{'] + member(nth_key(1), nth_value(m, 1)) + rest_from(m, 2));
}

/// In `before + lead + member(key, value) + after`, where `lead` is a comma
/// unless the member is the first, reading the members from the end of
/// `before` passes over the member.
pub proof fn lemma_members_pass(
    before: Seq<char>,
    first: bool,
    key: Seq<char>,
    value: Seq<char>,
    after: Seq<char>,
    acc: Fields,
)
    requires
        with_member(acc, key, value) is Some,
    ensures
        ({
            let lead = if first {
                Seq::<char>::empty()
            } else {
                seq![',']
            };
            let s = before + lead + member(key, value) + after;
            members_from(s, before.len() as int, first, acc) == members_from(
                s,
                (before.len() + lead.len() + member(key, value).len()) as int,
                false,
                with_member(acc, key, value)->0,
            )
        }),
{
    let lead = if first {
        Seq::<char>::empty()
    } else {
        seq![',']
    };
    let m = member(key, value);
    let s = before + lead + m + after;
    let i: int = before.len() as int;
    let k: int = i + lead.len();
    assert(s.subrange(k, k + m.len()) =~= m);
    if !first {
        assert(s[i] == ',');
    }
    lemma_members_step(s, i, first, acc, key, value);
}

/// Behind `before` and the first `n - 1` members, reading the rest of the
/// canonical form gives all six fields and ends at the end.
pub proof fn lemma_members_rest(m: MetadataView, before: Seq<char>, n: int)
    requires
        2 <= n <= 7,
    ensures
        members_from(before + rest_from(m, n), before.len() as int, false, fields_after(m, n - 1))
            == Some((fields_after(m, 6), (before.len() + rest_from(m, n).len()) as int)),
    decreases 7 - n,
{
    let s = before + rest_from(m, n);
    let i: int = before.len() as int;
    if n == 7 {
        assert(s[i] == '}');
        assert(skip_spaces(s, i) == i);
    } else {
        let key = nth_key(n);
        let value = nth_value(m, n);
        let after = rest_from(m, n + 1);
        let more = before + seq![','] + member(key, value);
        assert(s =~= before + seq![','] + member(key, value) + after);
        assert(s =~= more + after);
        lemma_nth_member_accepted(m, n);
        lemma_members_pass(before, false, key, value, after, fields_after(m, n - 1));
        lemma_members_rest(m, more, n + 1);
    }
}

/// Reading the canonical wire form of a metadata gives the metadata back.
pub proof fn lemma_parse_wire_form(m: MetadataView)
    ensures
        parse_metadata(wire_form(m)) == Some(m),
{
    let s = wire_form(m);
    let open = seq!['{'];
    let first = member(nth_key(1), nth_value(m, 1));
    let after = rest_from(m, 2);
    lemma_wire_form_parts(m);
    assert(s[0] == '{');
    assert(skip_spaces(s, 0) == 0);
    assert(s =~= open + Seq::<char>::empty() + first + after);
    assert(fields_after(m, 0) == no_fields());
    lemma_nth_member_accepted(m, 1);
    lemma_members_pass(open, true, nth_key(1), nth_value(m, 1), after, no_fields());
    lemma_members_rest(m, open + first, 2);
    assert(s =~= (open + first) + after);
    assert(skip_spaces(s, s.len() as int) == s.len());
    assert(complete(fields_after(m, 6)) == Some(m));
}

} // verus!
