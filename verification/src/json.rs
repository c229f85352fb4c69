//! JSON text built around strings that `serde_json` quotes.
use vstd::prelude::*;
use vstd::utf8::encode_utf8;
use crate::text::{append_bytes, append_chars, append_str, string_of};

verus! {

/// A lower-case hexadecimal digit of `n < 16`.
pub open spec fn lower_hex_digit(n: int) -> char {
    if n < 10 {
        (n + 48) as char
    } else {
        (n + 87) as char
    }
}

/// How `serde_json` writes one character inside a string: the quote and the
/// backslash escaped, the usual short escapes for backspace, tab, line
/// feed, form feed and carriage return, other control characters below
/// U+0020 as `\u00xx` (lower-case hex), everything else as itself.
pub open spec fn json_escape_char(c: char) -> Seq<char> {
    if c == '"' {
        seq!['\\', '"']
    } else if c == '\\' {
        seq!['\\', '\\']
    } else if c == '\u{8}' {
        seq!['\\', 'b']
    } else if c == '\t' {
        seq!['\\', 't']
    } else if c == '\n' {
        seq!['\\', 'n']
    } else if c == '\u{c}' {
        seq!['\\', 'f']
    } else if c == '\r' {
        seq!['\\', 'r']
    } else if (c as int) < 0x20 {
        seq!['\\', 'u', '0', '0', lower_hex_digit(c as int / 16), lower_hex_digit(c as int % 16)]
    } else {
        seq![c]
    }
}

/// The characters of `s`, each escaped.
pub open spec fn json_escaped(s: Seq<char>) -> Seq<char>
    decreases s.len(),
{
    if s.len() == 0 {
        Seq::empty()
    } else {
        json_escaped(s.drop_last()) + json_escape_char(s.last())
    }
}

/// What `serde_json` writes for a JSON string holding `s`: the escaped
/// characters between double quotes.
pub closed spec fn json_quoted(s: Seq<char>) -> Seq<char> {
    seq!['"'] + json_escaped(s) + seq!['"']
}


/// `serde_json::to_string` on a string: the JSON string literal for `s`.
/// Its serializer fails only through a `Serialize` impl or the writer, and
/// a `str` written into a `Vec<u8>` meets neither, so the result is `Ok`.
#[verifier::external_body]
pub(crate) fn json_quote(s: &str) -> (r: Result<String, String>)
    ensures
        r is Ok,
        r matches Ok(j) ==> j@ == json_quoted(s@),
{
    match serde_json::to_string(s) {
        Ok(j) => Ok(j),
        Err(e) => Err(e.to_string()),
    }
}

/// `"key":` followed by the quoted string `v`.
pub open spec fn field_str(key: Seq<char>, v: Seq<char>) -> Seq<char> {
    seq!['"'] + key + seq!['"', ':'] + json_quoted(v)
}

/// `"key":` followed by raw JSON text `v` (a number or a literal).
pub open spec fn field_raw(key: Seq<char>, v: Seq<char>) -> Seq<char> {
    seq!['"'] + key + seq!['"', ':'] + v
}

pub open spec fn bool_text(b: bool) -> Seq<char> {
    if b {
        "true"@
    } else {
        "false"@
    }
}

/// Appends `"key":` and the quoted `v`.
pub fn push_field_str(out: &mut Vec<char>, key: &str, v: &str)
    ensures
        final(out)@ == old(out)@ + field_str(key@, v@),
{
    let j = match json_quote(v) {
        Ok(j) => j,
        Err(e) => e,
    };
    let ghost start = out@;
    out.push('"');
    append_str(out, key);
    out.push('"');
    out.push(':');
    append_str(out, j.as_str());
    assert(out@ == start + field_str(key@, v@));
}

/// Appends `"key":` and the raw text `v`.
pub fn push_field_raw(out: &mut Vec<char>, key: &str, v: &Vec<char>)
    ensures
        final(out)@ == old(out)@ + field_raw(key@, v@),
{
    let ghost start = out@;
    out.push('"');
    append_str(out, key);
    out.push('"');
    out.push(':');
    append_chars(out, v);
    assert(out@ == start + field_raw(key@, v@));
}

pub fn bool_chars(b: bool) -> (r: Vec<char>)
    ensures
        r@ == bool_text(b),
{
    let mut r: Vec<char> = Vec::new();
    if b {
        append_str(&mut r, "true");
    } else {
        append_str(&mut r, "false");
    }
    r
}

/// The UTF-8 bytes of a text.
pub fn utf8_bytes(v: &Vec<char>) -> (b: Vec<u8>)
    ensures
        b@ == encode_utf8(v@),
{
    let s = string_of(v);
    let mut b: Vec<u8> = Vec::new();
    append_bytes(&mut b, s.as_str().as_bytes());
    b
}

} // verus!
