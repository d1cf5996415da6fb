//! The JSON reading and writing that the configuration documents need, done by
//! serde_json. Where serde_json's result takes more than a few lines to state,
//! it is named by an uninterpreted function of the inputs: serde_json's output
//! depends on nothing else.

use vstd::prelude::*;
use zed_extension_api::serde_json;

verus! {

/// serde_json's reading of field `key` of the document `doc` as a string:
/// `None` when `doc` is not well-formed JSON, `Some(None)` when the document is
/// well-formed but the field is absent, null, not a string, or the document is
/// not an object.
pub uninterp spec fn json_string_field(doc: Seq<char>, key: Seq<char>) -> Option<Option<Seq<char>>>;

/// serde_json's answer to whether the document `doc` has a field `key`, of any
/// value, null included: `None` when `doc` is not well-formed JSON, `Some(false)`
/// when it is not an object.
pub uninterp spec fn json_field_present(doc: Seq<char>, key: Seq<char>) -> Option<bool>;

/// serde_json's compact text of the document `doc`: `None` when `doc` is not
/// well-formed JSON.
pub uninterp spec fn json_compact(doc: Seq<char>) -> Option<Seq<char>>;

/// serde_json's compact text of the document `doc` with the number `value`
/// stored under `key`, a null document counting as an empty object: `None` when
/// `doc` is not well-formed JSON, or is neither an object nor null.
pub uninterp spec fn json_with_field(doc: Seq<char>, key: Seq<char>, value: int) -> Option<Seq<char>>;

/// A hexadecimal digit, lower case.
pub open spec fn hex_digit(n: int) -> char {
    "0123456789abcdef"@[n]
}

/// How serde_json writes one character inside a JSON string.
pub open spec fn json_escape_char(c: char) -> Seq<char> {
    if c == '"' {
        seq!['\\', '"']
    } else if c == '\\' {
        seq!['\\', '\\']
    } else if c == '\u{8}' {
        seq!['\\', 'b']
    } else if c == '\u{c}' {
        seq!['\\', 'f']
    } else if c == '\n' {
        seq!['\\', 'n']
    } else if c == '\r' {
        seq!['\\', 'r']
    } else if c == '\t' {
        seq!['\\', 't']
    } else if (c as u32) < 32 {
        seq!['\\', 'u', '0', '0', hex_digit((c as u32) as int / 16), hex_digit((c as u32) as int % 16)]
    } else {
        seq![c]
    }
}

/// The characters of `s`, each escaped as serde_json escapes it.
pub open spec fn json_escape(s: Seq<char>) -> Seq<char>
    decreases s.len(),
{
    if s.len() == 0 {
        Seq::empty()
    } else {
        json_escape(s.drop_last()) + json_escape_char(s.last())
    }
}

/// The JSON string whose content is `s`.
pub open spec fn json_quoted(s: Seq<char>) -> Seq<char> {
    seq!['"'] + json_escape(s) + seq!['"']
}

/// Relies on serde_json::from_str (into a `Value`), `Value::get` and
/// `Value::as_str`: the field's string content, or the parser's error text.
#[verifier::external_body]
pub(crate) fn read_string_field(doc: &str, key: &str) -> (r: Result<Option<String>, String>)
    ensures
        r is Ok <==> json_string_field(doc@, key@) is Some,
        r matches Ok(f) ==> crate::text::opt_view(f) == json_string_field(doc@, key@)->0,
{
    match serde_json::from_str::<serde_json::Value>(doc) {
        Ok(v) => Ok(v.get(key).and_then(serde_json::Value::as_str).map(String::from)),
        Err(e) => Err(e.to_string()),
    }
}

/// Relies on serde_json::from_str (into a `Value`) and `Value::get`: whether the
/// document has the field.
#[verifier::external_body]
pub(crate) fn field_present(doc: &str, key: &str) -> (r: Option<bool>)
    ensures
        r == json_field_present(doc@, key@),
{
    match serde_json::from_str::<serde_json::Value>(doc) {
        Ok(v) => Some(v.get(key).is_some()),
        Err(_) => None,
    }
}

/// Relies on serde_json::from_str (into a `Value`) and `Value`'s `Display`,
/// which writes compact JSON.
#[verifier::external_body]
pub(crate) fn compact(doc: &str) -> (r: Option<String>)
    ensures
        crate::text::opt_view(r) == json_compact(doc@),
{
    match serde_json::from_str::<serde_json::Value>(doc) {
        Ok(v) => Some(v.to_string()),
        Err(_) => None,
    }
}

/// Relies on serde_json::from_str (into a `Value`), `Value`'s `IndexMut<&str>`,
/// which turns a null into an empty object and panics on any other non-object
/// (hence the one arm that admits objects and null), and `Value`'s `Display`.
#[verifier::external_body]
pub(crate) fn with_field(doc: &str, key: &str, value: u64) -> (r: Option<String>)
    ensures
        crate::text::opt_view(r) == json_with_field(doc@, key@, value as int),
{
    match serde_json::from_str::<serde_json::Value>(doc) {
        Ok(mut v @ (serde_json::Value::Object(_) | serde_json::Value::Null)) => {
            v[key] = serde_json::Value::from(value);
            Some(v.to_string())
        },
        _ => None,
    }
}

/// Relies on `Value::from(&str)` and `Value`'s `Display`, which quotes the
/// string and escapes it with serde_json's table of escapes.
#[verifier::external_body]
pub(crate) fn string_literal(s: &str) -> (r: String)
    ensures
        r@ == json_quoted(s@),
{
    serde_json::Value::from(s).to_string()
}

} // verus!
