//! Facts about quoted literals: a scan passes over escaped text without
//! stopping, quoting loses nothing, and a quoted text reads back as itself.

use vstd::prelude::*;
use crate::json::{closing_quote, escape, escape_char, hex_digit, is_quoted, literal_at, quote, unquote};

verus! {

/// The code of a hexadecimal digit: the digits follow `0`, the letters `A`.
pub proof fn lemma_hex_digit_code(n: int)
    requires
        0 <= n < 16,
    ensures
        hex_digit(n) as int == if n < 10 {
            0x30 + n
        } else {
            0x37 + n
        },
{
}

/// An escape never starts with a quote, and a backslash in it always escapes
/// the character behind it: a scan that meets the first character of
/// `escape_char(c)` unescaped leaves its last character unescaped too.
pub proof fn lemma_scan_over_char(s: Seq<char>, i: int, c: char)
    requires
        0 <= i,
        i + escape_char(c).len() <= s.len(),
        s.subrange(i, i + escape_char(c).len()) == escape_char(c),
    ensures
        closing_quote(s, i, false) == closing_quote(s, i + escape_char(c).len(), false),
{
    let e = escape_char(c);
    let n: int = e.len() as int;
    assert forall|k: int| 0 <= k < n implies s[i + k] == e[k] by {
        assert(s.subrange(i, i + n)[k] == s[i + k]);
    }
    if n == 1 {
        assert(s[i] == e[0]);
    } else if n == 2 {
        assert(s[i] == e[0]);
        assert(s[i + 1] == e[1]);
        assert(closing_quote(s, i, false) == closing_quote(s, i + 1, true));
        assert(closing_quote(s, i + 1, true) == closing_quote(s, i + 2, false));
    } else {
        assert(n == 6);
        assert(s[i] == e[0]);
        assert(s[i + 1] == e[1]);
        assert(s[i + 2] == e[2]);
        assert(s[i + 3] == e[3]);
        assert(s[i + 4] == e[4]);
        assert(s[i + 5] == e[5]);
        assert(closing_quote(s, i, false) == closing_quote(s, i + 1, true));
        assert(closing_quote(s, i + 1, true) == closing_quote(s, i + 2, false));
        assert(closing_quote(s, i + 2, false) == closing_quote(s, i + 3, false));
        assert(closing_quote(s, i + 3, false) == closing_quote(s, i + 4, false));
        assert(closing_quote(s, i + 4, false) == closing_quote(s, i + 5, false));
        assert(closing_quote(s, i + 5, false) == closing_quote(s, i + 6, false));
    }
}

/// A scan that enters escaped text unescaped leaves it unescaped, without
/// having found a closing quote in it.
pub proof fn lemma_scan_over_text(s: Seq<char>, i: int, t: Seq<char>)
    requires
        0 <= i,
        i + escape(t).len() <= s.len(),
        s.subrange(i, i + escape(t).len()) == escape(t),
    ensures
        closing_quote(s, i, false) == closing_quote(s, i + escape(t).len(), false),
    decreases t.len(),
{
    if t.len() > 0 {
        let head = escape_char(t[0]);
        let tail = escape(t.drop_first());
        let n: int = head.len() as int;
        assert(escape(t) == head + tail);
        assert(s.subrange(i, i + n) =~= head) by {
            assert forall|k: int| 0 <= k < n implies s.subrange(i, i + n)[k] == head[k] by {
                assert(s.subrange(i, i + escape(t).len())[k] == (head + tail)[k]);
            }
        }
        assert(s.subrange(i + n, i + n + tail.len()) =~= tail) by {
            assert forall|k: int| 0 <= k < tail.len() implies s.subrange(i + n, i + n + tail.len())[k]
                == tail[k] by {
                assert(s.subrange(i, i + escape(t).len())[n + k] == (head + tail)[n + k]);
            }
        }
        lemma_scan_over_char(s, i, t[0]);
        lemma_scan_over_text(s, i + n, t.drop_first());
    }
}

/// Escaping loses nothing: two texts with the same escaped form are the same
/// text.
pub proof fn lemma_escape_injective(a: Seq<char>, b: Seq<char>)
    requires
        escape(a) == escape(b),
    ensures
        a == b,
    decreases a.len(),
{
    if a.len() == 0 {
        if b.len() > 0 {
            assert(escape(b) == escape_char(b[0]) + escape(b.drop_first()));
            assert(escape(b).len() > 0);
        }
        assert(a =~= b);
    } else {
        let ha = escape_char(a[0]);
        let ta = escape(a.drop_first());
        assert(escape(a) == ha + ta);
        assert(b.len() > 0);
        let hb = escape_char(b[0]);
        let tb = escape(b.drop_first());
        assert(escape(b) == hb + tb);
        let e = escape(a);
        assert(e[0] == ha[0] && e[0] == hb[0]);
        assert(a[0] == b[0]) by {
            if ha.len() >= 2 {
                assert(hb.len() >= 2);
                assert(e[1] == ha[1] && e[1] == hb[1]);
                if ha.len() == 6 {
                    assert(hb.len() == 6);
                    assert(e[4] == ha[4] && e[4] == hb[4]);
                    assert(e[5] == ha[5] && e[5] == hb[5]);
                    let ca: char = a[0];
                    let cb: char = b[0];
                    let x: int = (ca as u32) as int;
                    let y: int = (cb as u32) as int;
                    assert(0 <= x < 32 && 0 <= y < 32);
                    assert(hex_digit(x / 16) == hex_digit(y / 16));
                    assert(hex_digit(x % 16) == hex_digit(y % 16));
                    lemma_hex_digit_code(x / 16);
                    lemma_hex_digit_code(y / 16);
                    lemma_hex_digit_code(x % 16);
                    lemma_hex_digit_code(y % 16);
                    assert(x / 16 == y / 16);
                    assert(x % 16 == y % 16);
                    assert(x == y);
                    vstd::utf8::char_u32_cast(ca, ca as u32);
                    vstd::utf8::char_u32_cast(cb, cb as u32);
                }
            }
        }
        assert(ta =~= tb) by {
            assert(ta.len() == tb.len());
            assert forall|k: int| 0 <= k < ta.len() implies ta[k] == tb[k] by {
                assert((ha + ta)[ha.len() + k] == (hb + tb)[hb.len() + k]);
            }
        }
        lemma_escape_injective(a.drop_first(), b.drop_first());
        assert(a =~= seq![a[0]] + a.drop_first());
        assert(b =~= seq![b[0]] + b.drop_first());
    }
}

/// Quoting loses nothing: two texts with the same literal are the same text.
pub proof fn lemma_quote_injective(a: Seq<char>, b: Seq<char>)
    requires
        quote(a) == quote(b),
    ensures
        a == b,
{
    let ea = escape(a);
    let eb = escape(b);
    assert(quote(a).len() == ea.len() + 2);
    assert(quote(b).len() == eb.len() + 2);
    assert(ea =~= eb) by {
        assert forall|k: int| 0 <= k < ea.len() implies ea[k] == eb[k] by {
            assert(quote(a)[k + 1] == ea[k]);
            assert(quote(b)[k + 1] == eb[k]);
        }
    }
    lemma_escape_injective(a, b);
}

/// A quoted text reads back as itself.
pub proof fn lemma_unquote_quote(t: Seq<char>)
    ensures
        unquote(quote(t)) == Some(t),
{
    assert(is_quoted(quote(t)));
    let u = choose|u: Seq<char>| quote(t) == #[trigger] quote(u);
    lemma_quote_injective(t, u);
}

/// Where the literal for `t` stands at `i`, reading a literal there gives `t`
/// and ends just behind it.
pub proof fn lemma_literal_at_quote(s: Seq<char>, i: int, t: Seq<char>)
    requires
        0 <= i,
        i + quote(t).len() <= s.len(),
        s.subrange(i, i + quote(t).len()) == quote(t),
    ensures
        literal_at(s, i) == Some((t, i + quote(t).len())),
{
    let q = quote(t);
    let e = escape(t);
    let n: int = e.len() as int;
    assert(q.len() == n + 2);
    assert forall|k: int| 0 <= k < n + 2 implies s[i + k] == q[k] by {
        assert(s.subrange(i, i + n + 2)[k] == s[i + k]);
    }
    assert(s[i] == q[0]);
    assert(s[i + n + 1] == q[n + 1]);
    assert(s.subrange(i + 1, i + 1 + n) =~= e) by {
        assert forall|k: int| 0 <= k < n implies s.subrange(i + 1, i + 1 + n)[k] == e[k] by {
            assert(s[i + 1 + k] == q[1 + k]);
        }
    }
    lemma_scan_over_text(s, i + 1, t);
    assert(closing_quote(s, i + 1 + n, false) == Some(i + 1 + n));
    lemma_unquote_quote(t);
}

} // verus!
