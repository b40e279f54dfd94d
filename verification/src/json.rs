//! String literals of the wire form: how text is quoted, where a quoted
//! literal ends, and what text a literal stands for.

use vstd::prelude::*;
use crate::text::text_of;

verus! {

/// The upper-case hexadecimal digit for a value below sixteen.
pub open spec fn hex_digit(n: int) -> char {
    if n < 10 {
        (0x30 + n) as char
    } else {
        (0x41 + n - 10) as char
    }
}

/// What stands for one character inside a literal: a short escape for the
/// backslash, the quote and five control characters, `\u00XX` for the other
/// characters below the space, and the character itself otherwise.
pub open spec fn escape_char(c: char) -> Seq<char> {
    if c == '\\' {
        seq!['\\', '\\']
    } else if c == '"' {
        seq!['\\', '"']
    } else if c == '\u{8}' {
        seq!['\\', 'b']
    } else if c == '\t' {
        seq!['\\', 't']
    } else if c == '\n' {
        seq!['\\', 'n']
    } else if c == '\u{c}' {
        seq!['\\', 'f']
    } else if c == '\r' {
        seq!['\\', 'r']
    } else if (c as u32) < 0x20 {
        seq!['\\', 'u', '0', '0', hex_digit((c as u32 / 16) as int), hex_digit((c as u32 % 16) as int)]
    } else {
        seq![c]
    }
}

/// The text between the quotes of the literal for `s`.
pub open spec fn escape(s: Seq<char>) -> Seq<char>
    decreases s.len(),
{
    if s.len() == 0 {
        Seq::empty()
    } else {
        escape_char(s[0]) + escape(s.drop_first())
    }
}

/// The literal that stands for `s`: its escaped text between two quotes.
pub open spec fn quote(s: Seq<char>) -> Seq<char> {
    seq!['"'] + escape(s) + seq!['"']
}

/// What `serde_json_wasm::from_str::<String>` makes of a literal: the text it
/// stands for, or `None` where the literal is refused.
pub uninterp spec fn decoded(literal: Seq<char>) -> Option<Seq<char>>;

/// The literal is the quoted form of some text.
pub open spec fn is_quoted(literal: Seq<char>) -> bool {
    exists|t: Seq<char>| literal == #[trigger] quote(t)
}

/// The text a literal stands for. A literal that [`quote`] produced stands
/// for the text it was produced from; any other stands for what the decoder
/// makes of it.
pub open spec fn unquote(literal: Seq<char>) -> Option<Seq<char>> {
    if is_quoted(literal) {
        Some(choose|t: Seq<char>| literal == #[trigger] quote(t))
    } else {
        decoded(literal)
    }
}

/// Calls `serde_json_wasm::to_string` on a string slice. Trusted: the
/// serializer writes a quote, then each character as [`escape_char`] gives
/// it, then a quote, and never fails on a string.
#[verifier::external_body]
pub(crate) fn quote_text(s: &str) -> (r: String)
    ensures
        r@ == quote(s@),
{
    serde_json_wasm::to_string(s).unwrap_or_default()
}

/// Calls `serde_json_wasm::from_str::<String>` on the characters of a
/// literal. Trusted: the result is a function of the literal alone, named
/// [`decoded`], and the decoder undoes every escape that [`quote`] writes, so
/// a quoted text comes back as it was.
#[verifier::external_body]
pub(crate) fn unquote_text(literal: &[char]) -> (r: Option<String>)
    ensures
        text_of(r) == decoded(literal@),
        text_of(r) == unquote(literal@),
{
    let text: String = literal.iter().collect();
    serde_json_wasm::from_str::<String>(&text).ok()
}

/// The index of the quote that closes a literal, for a scan that stands at
/// `i` inside it: the first quote from `i` on that no backslash escapes.
/// `escaped` says whether the character at `i` follows an escaping backslash.
pub open spec fn closing_quote(s: Seq<char>, i: int, escaped: bool) -> Option<int>
    decreases s.len() - i,
{
    if i < 0 || i >= s.len() {
        None
    } else if s[i] == '"' && !escaped {
        Some(i)
    } else {
        closing_quote(s, i + 1, s[i] == '\\' && !escaped)
    }
}

/// The literal that opens at `i`: the text it stands for and the index just
/// behind its closing quote.
pub open spec fn literal_at(s: Seq<char>, i: int) -> Option<(Seq<char>, int)> {
    if 0 <= i < s.len() && s[i] == '"' {
        match closing_quote(s, i + 1, false) {
            Some(end) => match unquote(s.subrange(i, end + 1)) {
                Some(text) => Some((text, end + 1)),
                None => None,
            },
            None => None,
        }
    } else {
        None
    }
}

/// Finds the quote that closes the literal whose text starts at `start`.
pub(crate) fn find_closing_quote(chars: &Vec<char>, start: usize) -> (r: Option<usize>)
    requires
        start <= chars.len(),
    ensures
        match r {
            Some(end) => start <= end < chars.len() && closing_quote(chars@, start as int, false)
                == Some(end as int),
            None => closing_quote(chars@, start as int, false) is None,
        },
{
    let mut i: usize = start;
    let mut escaped: bool = false;
    while i < chars.len()
        invariant
            start <= i <= chars.len(),
            closing_quote(chars@, start as int, false) == closing_quote(chars@, i as int, escaped),
        decreases chars.len() - i,
    {
        let c: char = chars[i];
        if c == '"' && !escaped {
            return Some(i);
        }
        escaped = c == '\\' && !escaped;
        i = i + 1;
    }
    None
}

/// Reads the literal that opens at `i`.
pub(crate) fn read_literal(chars: &Vec<char>, i: usize) -> (r: Option<(String, usize)>)
    requires
        i < chars.len(),
        chars@[i as int] == '"',
    ensures
        match r {
            Some((text, next)) => i < next <= chars.len() && literal_at(chars@, i as int) == Some(
                (text@, next as int),
            ),
            None => literal_at(chars@, i as int) is None,
        },
{
    match find_closing_quote(chars, i + 1) {
        Some(end) => {
            let literal = vstd::slice::slice_subrange(chars.as_slice(), i, end + 1);
            match unquote_text(literal) {
                Some(text) => Some((text, end + 1)),
                None => None,
            }
        },
        None => None,
    }
}

} // verus!
