//! What the library takes from serde_json: reading JSON text and writing a
//! JSON string literal. The texts themselves are carried through unchanged;
//! only the facts below about them are used.
use vstd::prelude::*;
use crate::text::digit_char;
use serde_json::value::RawValue;
use std::collections::BTreeMap;

verus! {

#[verifier::external_type_specification]
#[verifier::external_body]
pub struct ExNumber(serde_json::Number);

#[verifier::external_type_specification]
#[verifier::external_body]
pub struct ExValue(serde_json::Value);

#[verifier::external_type_specification]
#[verifier::external_body]
pub struct ExError(serde_json::Error);

/// The length of the JSON array of numbers written as `s`; `None` where `s`
/// is not such an array.
pub uninterp spec fn number_list_len(s: Seq<char>) -> Option<nat>;

/// The members of each object in the JSON array of objects written as `s`,
/// each member as its key and the text of its value, keys in ascending
/// order; `None` where `s` is not such an array.
pub uninterp spec fn obstacle_members(s: Seq<char>) -> Option<Seq<Seq<(Seq<char>, Seq<char>)>>>;

/// Whether `s` is the text of one JSON number.
pub uninterp spec fn is_json_number(s: Seq<char>) -> bool;

/// Whether `s` is the text of one JSON value.
pub uninterp spec fn is_json_text(s: Seq<char>) -> bool;

/// The lower-case hexadecimal digit for `d`.
pub open spec fn hex_digit(d: nat) -> char {
    if d < 10 { digit_char(d) }
    else if d == 10 { 'a' }
    else if d == 11 { 'b' }
    else if d == 12 { 'c' }
    else if d == 13 { 'd' }
    else if d == 14 { 'e' }
    else { 'f' }
}

/// How a character is written inside a JSON string: the quote and the
/// backslash after a backslash, five control characters by their short
/// escapes, the other characters below U+0020 as `\u00` and two hex digits,
/// every other character as it is.
pub open spec fn escape_char(c: char) -> Seq<char> {
    if c == '"' { seq!['\\', '"'] }
    else if c == '\\' { seq!['\\', '\\'] }
    else if c == '\u{8}' { seq!['\\', 'b'] }
    else if c == '\t' { seq!['\\', 't'] }
    else if c == '\n' { seq!['\\', 'n'] }
    else if c == '\u{c}' { seq!['\\', 'f'] }
    else if c == '\r' { seq!['\\', 'r'] }
    else if (c as u32) < 0x20 {
        seq!['\\', 'u', '0', '0', hex_digit((c as u32 as nat) / 16), hex_digit((c as u32 as nat) % 16)]
    } else { seq![c] }
}

/// The characters of `s`, each escaped.
pub open spec fn escaped(s: Seq<char>) -> Seq<char>
    decreases s.len(),
{
    if s.len() == 0 { Seq::empty() } else { escape_char(s[0]) + escaped(s.drop_first()) }
}

/// The JSON string literal that stands for `s`.
pub open spec fn json_string_literal(s: Seq<char>) -> Seq<char> {
    seq!['"'] + escaped(s) + seq!['"']
}

/// A member list seen as keys and value texts.
pub open spec fn member_texts(row: Seq<(String, String)>) -> Seq<(Seq<char>, Seq<char>)> {
    row.map_values(|m: (String, String)| (m.0@, m.1@))
}

/// Each object of a parsed list seen as keys and value texts.
pub open spec fn members_model(v: Seq<Vec<(String, String)>>) -> Seq<Seq<(Seq<char>, Seq<char>)>> {
    v.map_values(|o: Vec<(String, String)>| member_texts(o@))
}

/// Relies on serde_json::from_str into `Vec<Number>`: it succeeds exactly on
/// a JSON array of numbers, surrounded by whitespace at most, and yields one
/// number per element.
#[verifier::external_body]
pub(crate) fn parse_number_list(s: &str) -> (r: Result<Vec<serde_json::Number>, serde_json::Error>)
    ensures
        r is Ok <==> number_list_len(s@) is Some,
        r matches Ok(v) ==> number_list_len(s@) == Some(v@.len()),
{
    serde_json::from_str(s)
}

/// Relies on serde_json::from_str into `Vec<BTreeMap<String, Box<RawValue>>>`:
/// it succeeds exactly on a JSON array of objects; the maps are handed on as
/// their entries, in key order, each value as its text (`RawValue::get`).
#[verifier::external_body]
pub(crate) fn parse_obstacle_list(s: &str) -> (r: Result<Vec<Vec<(String, String)>>, serde_json::Error>)
    ensures
        r is Ok <==> obstacle_members(s@) is Some,
        r matches Ok(v) ==> obstacle_members(s@) == Some(members_model(v@)),
{
    serde_json::from_str::<Vec<BTreeMap<String, Box<RawValue>>>>(s).map(|v| {
        v.into_iter().map(|m| m.into_iter().map(|(k, t)| (k, t.get().to_string())).collect()).collect()
    })
}

/// Relies on serde_json::from_str into `Number`: it succeeds exactly on the
/// text of one JSON number, surrounded by whitespace at most.
#[verifier::external_body]
pub(crate) fn parse_number(s: &str) -> (r: Result<serde_json::Number, serde_json::Error>)
    ensures
        r is Ok <==> is_json_number(s@),
{
    serde_json::from_str(s)
}

/// Relies on serde_json::from_str into `Value`: it succeeds exactly on the
/// text of one JSON value, surrounded by whitespace at most.
#[verifier::external_body]
pub(crate) fn parse_value(s: &str) -> (r: Result<serde_json::Value, serde_json::Error>)
    ensures
        r is Ok <==> is_json_text(s@),
{
    serde_json::from_str(s)
}

/// Relies on serde_json::to_string on a `str`: it writes into a `Vec`, so
/// it cannot fail, and yields the text in quotes, escaped by the table in
/// `format_escaped_str_contents`.
#[verifier::external_body]
pub(crate) fn quote(s: &str) -> (r: Result<String, serde_json::Error>)
    ensures
        r is Ok,
        r matches Ok(q) ==> q@ == json_string_literal(s@),
{
    serde_json::to_string(s)
}

} // verus!
