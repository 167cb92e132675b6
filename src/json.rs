//! JSON text: quoting strings and reading the `error` field of an error body.
//!
//! Request bodies are framed by the library itself; only the escaping of a
//! string and the parsing of a response body are left to `serde_json`.

use vstd::prelude::*;

verus! {

/// The lowercase hexadecimal digits.
pub open spec fn hex_digits() -> Seq<char> {
    seq!['0', '1', '2', '3', '4', '5', '6', '7', '8', '9', 'a', 'b', 'c', 'd', 'e', 'f']
}

/// How one character is written inside a JSON string literal: `"` and `\`
/// and the five named control characters get their short escapes, any
/// other character below U+0020 is written `\u00XX`, and everything else
/// stands for itself.
pub open spec fn escape_char(c: char) -> Seq<char> {
    if c == '"' {
        seq!['\\', '"']
    } else if c == '\\' {
        seq!['\\', '\\']
    } else if c == '\u{8}' {
        seq!['\\', 'b']
    } else if c == '\u{c}' {
        seq!['\\', 'f']
    } else if c == '\n' {
        seq!['\\', 'n']
    } else if c == '\r' {
        seq!['\\', 'r']
    } else if c == '\t' {
        seq!['\\', 't']
    } else if (c as u32) < 0x20 {
        seq!['\\', 'u', '0', '0', hex_digits()[((c as u32) / 16) as int], hex_digits()[((c as u32) % 16) as int]]
    } else {
        seq![c]
    }
}

/// The escaped characters of a string, without the quotes.
pub open spec fn escape(s: Seq<char>) -> Seq<char>
    decreases s.len(),
{
    if s.len() == 0 {
        Seq::empty()
    } else {
        escape_char(s[0]) + escape(s.drop_first())
    }
}

/// The JSON string literal of a string, quotes included.
pub open spec fn json_string_of(s: Seq<char>) -> Seq<char> {
    seq!['"'] + escape(s) + seq!['"']
}

/// The value of a hexadecimal digit.
pub open spec fn hex_value(c: char) -> Option<int> {
    if '0' <= c && c <= '9' {
        Some(c as int - '0' as int)
    } else if 'a' <= c && c <= 'f' {
        Some(c as int - 'a' as int + 10)
    } else if 'A' <= c && c <= 'F' {
        Some(c as int - 'A' as int + 10)
    } else {
        None
    }
}

/// The character a two-character escape stands for.
pub open spec fn short_escape(e: char) -> Option<char> {
    if e == '"' {
        Some('"')
    } else if e == '\\' {
        Some('\\')
    } else if e == '/' {
        Some('/')
    } else if e == 'b' {
        Some('\u{8}')
    } else if e == 'f' {
        Some('\u{c}')
    } else if e == 'n' {
        Some('\n')
    } else if e == 'r' {
        Some('\r')
    } else if e == 't' {
        Some('\t')
    } else {
        None
    }
}

/// The character with code point `v`.
pub open spec fn char_of(v: int) -> char {
    (v as u32) as char
}

/// Puts `c` in front of what was read.
pub open spec fn read_cons(c: char, r: Option<(Seq<char>, Seq<char>)>) -> Option<(Seq<char>, Seq<char>)> {
    match r {
        Some((body, rest)) => Some((seq![c] + body, rest)),
        None => None,
    }
}

/// Reads the rest of a JSON string literal after its opening quote: the
/// characters it stands for, and the text after its closing quote. Raw
/// control characters, unknown escapes and escaped surrogates are refused.
pub open spec fn read_string_body(t: Seq<char>) -> Option<(Seq<char>, Seq<char>)>
    decreases t.len(),
{
    if t.len() == 0 {
        None
    } else if t[0] == '"' {
        Some((Seq::empty(), t.drop_first()))
    } else if t[0] == '\\' {
        if t.len() < 2 {
            None
        } else if t[1] == 'u' {
            if t.len() < 6 {
                None
            } else {
                match (hex_value(t[2]), hex_value(t[3]), hex_value(t[4]), hex_value(t[5])) {
                    (Some(a), Some(b), Some(c), Some(d)) => {
                        let v = a * 4096 + b * 256 + c * 16 + d;
                        if 0xD800 <= v && v < 0xE000 {
                            None
                        } else {
                            read_cons(char_of(v), read_string_body(t.subrange(6, t.len() as int)))
                        }
                    },
                    _ => None,
                }
            }
        } else {
            match short_escape(t[1]) {
                Some(c) => read_cons(c, read_string_body(t.subrange(2, t.len() as int))),
                None => None,
            }
        }
    } else if (t[0] as u32) < 0x20 {
        None
    } else {
        read_cons(t[0], read_string_body(t.drop_first()))
    }
}

/// Reads a JSON string literal at the start of `t`: its value and the text
/// after it.
pub open spec fn read_string(t: Seq<char>) -> Option<(Seq<char>, Seq<char>)> {
    if t.len() > 0 && t[0] == '"' {
        read_string_body(t.drop_first())
    } else {
        None
    }
}

proof fn lemma_hex_digit(d: int)
    requires
        0 <= d < 16,
    ensures
        hex_value(hex_digits()[d]) == Some(d),
{
    if d < 10 {
        assert(hex_digits()[d] as int == '0' as int + d);
    } else {
        assert(hex_digits()[d] as int == 'a' as int + d - 10);
    }
}

/// Reading back the escaped characters of `s`, followed by a closing quote,
/// gives `s` and whatever follows.
pub proof fn lemma_read_escaped(s: Seq<char>, rest: Seq<char>)
    ensures
        read_string_body(escape(s) + seq!['"'] + rest) == Some((s, rest)),
    decreases s.len(),
{
    let t = escape(s) + seq!['"'] + rest;
    if s.len() == 0 {
        assert(t =~= seq!['"'] + rest);
        assert(t.drop_first() =~= rest);
    } else {
        let c = s[0];
        let tail = s.drop_first();
        let after = escape(tail) + seq!['"'] + rest;
        lemma_read_escaped(tail, rest);
        assert(t =~= escape_char(c) + after);
        assert(seq![c] + tail =~= s);
        let n = escape_char(c).len() as int;
        assert(t.subrange(n, t.len() as int) =~= after);
        if c == '"' || c == '\\' || c == '\u{8}' || c == '\u{c}' || c == '\n' || c == '\r' || c == '\t' {
            assert(short_escape(t[1]) == Some(c));
        } else if (c as u32) < 0x20 {
            let hi = ((c as u32) / 16) as int;
            let lo = ((c as u32) % 16) as int;
            lemma_hex_digit(hi);
            lemma_hex_digit(lo);
            assert(hex_value(t[2]) == Some(0int));
            assert(hex_value(t[3]) == Some(0int));
            let v = 0int * 4096 + 0int * 256 + hi * 16 + lo;
            assert(v == (c as u32) as int);
            assert((v as u32) == (c as u32));
            vstd::utf8::char_u32_cast(c, c as u32);
            assert(char_of(v) == c);
        } else {
            assert(t.drop_first() =~= after);
        }
    }
}

/// Reading back the JSON literal of `s` gives `s` and whatever follows.
pub proof fn lemma_read_string(s: Seq<char>, rest: Seq<char>)
    ensures
        read_string(json_string_of(s) + rest) == Some((s, rest)),
{
    let t = json_string_of(s) + rest;
    assert(t.drop_first() =~= escape(s) + seq!['"'] + rest);
    lemma_read_escaped(s, rest);
}

/// The string stored under `key` when a text parses as a JSON object
/// holding a string there; `None` otherwise.
pub uninterp spec fn string_field_of(text: Seq<char>, key: Seq<char>) -> Option<Seq<char>>;

/// Relies on `serde_json::to_string` applied to a `str`: it writes the
/// quoted literal, escaping as `escape_char` says (byte by byte, which
/// leaves every non-ASCII character as it is). Serialising a string into
/// memory cannot fail, so the error arm is never taken.
#[verifier::external_body]
pub(crate) fn json_string(s: &str) -> (r: String)
    ensures
        r@ == json_string_of(s@),
{
    serde_json::to_string(s).unwrap_or_default()
}

/// Relies on `serde_json::from_str::<serde_json::Value>`, `Value::get` and
/// `Value::as_str`: the string found under `key` in a JSON object text.
#[verifier::external_body]
pub(crate) fn string_field(text: &str, key: &str) -> (r: Option<String>)
    ensures
        r matches Some(m) ==> string_field_of(text@, key@) == Some(m@),
        r is None ==> string_field_of(text@, key@) is None,
{
    let value: serde_json::Value = serde_json::from_str(text).ok()?;
    let found = value.get(key)?.as_str()?;
    Some(found.to_string())
}

/// The JSON literal of a boolean.
pub open spec fn bool_text(b: bool) -> Seq<char> {
    if b { "true"@ } else { "false"@ }
}

/// Writes a boolean as a JSON literal.
pub fn bool_literal(b: bool) -> (r: &'static str)
    ensures
        r@ == bool_text(b),
{
    if b { "true" } else { "false" }
}

} // verus!
