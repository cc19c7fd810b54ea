//! JSON documents as the service reads them from the upstream API.
//!
//! The variants follow `serde_json::Value`; a number keeps what
//! `serde_json::Number` keeps, except that a floating-point number is held
//! by its text.
use vstd::prelude::*;

use crate::text::str_eq;

verus! {

#[derive(Debug, PartialEq)]
pub enum JsonNumber {
    /// A non-negative integer.
    PosInt(u64),
    /// A negative integer.
    NegInt(i64),
    /// Any other number, by the text that writes it.
    Float(String),
}

#[derive(Debug, PartialEq)]
pub enum Json {
    Null,
    Bool(bool),
    Number(JsonNumber),
    String(String),
    Array(Vec<Json>),
    /// The members of an object, in order.
    Object(Vec<(String, Json)>),
}

/// The value of the first member of `fields` named `key`.
pub open spec fn member_of(fields: Seq<(String, Json)>, key: Seq<char>) -> Option<Json>
    decreases fields.len(),
{
    if fields.len() == 0 {
        None
    } else if fields[0].0@ == key {
        Some(fields[0].1)
    } else {
        member_of(fields.drop_first(), key)
    }
}

/// `Value::get` with a key: the member `key` of an object; `None` for anything else.
pub open spec fn spec_get(v: Json, key: Seq<char>) -> Option<Json> {
    match v {
        Json::Object(fields) => member_of(fields@, key),
        _ => None,
    }
}

/// `Value::as_str`: the text of a string.
pub open spec fn spec_as_str(v: Json) -> Option<Seq<char>> {
    match v {
        Json::String(s) => Some(s@),
        _ => None,
    }
}

/// `Value::as_i64`: an integer that fits in `i64`.
pub open spec fn spec_as_i64(v: Json) -> Option<i64> {
    match v {
        Json::Number(JsonNumber::PosInt(n)) => if n <= i64::MAX {
            Some(n as i64)
        } else {
            None
        },
        Json::Number(JsonNumber::NegInt(n)) => Some(n),
        _ => None,
    }
}

/// The member `key` of `v`, where it is a string.
pub open spec fn str_member(v: Json, key: Seq<char>) -> Option<Seq<char>> {
    match spec_get(v, key) {
        Some(m) => spec_as_str(m),
        None => None,
    }
}

/// The member `key` of `v`, where it is an integer that fits in `i64`.
pub open spec fn i64_member(v: Json, key: Seq<char>) -> Option<i64> {
    match spec_get(v, key) {
        Some(m) => spec_as_i64(m),
        None => None,
    }
}

impl Json {
    /// The member `key` of an object, as `Value::get` finds it.
    pub fn get(&self, key: &str) -> (r: Option<&Json>)
        ensures
            match r {
                Some(m) => spec_get(*self, key@) == Some(*m),
                None => spec_get(*self, key@) is None,
            },
    {
        match self {
            Json::Object(fields) => {
                let mut i: usize = 0;
                assert(fields@.skip(0) =~= fields@);
                while i < fields.len()
                    invariant
                        i <= fields@.len(),
                        spec_get(*self, key@) == member_of(fields@, key@),
                        member_of(fields@, key@) == member_of(fields@.skip(i as int), key@),
                    decreases fields@.len() - i,
                {
                    assert(fields@.skip(i as int)[0] == fields@[i as int]);
                    if str_eq(fields[i].0.as_str(), key) {
                        return Some(&fields[i].1);
                    }
                    assert(fields@.skip(i as int).drop_first() =~= fields@.skip(i + 1));
                    i = i + 1;
                }
                None
            },
            _ => None,
        }
    }

    /// The text of a string value, as `Value::as_str` gives it.
    pub fn as_str(&self) -> (r: Option<&str>)
        ensures
            match r {
                Some(s) => spec_as_str(*self) == Some(s@),
                None => spec_as_str(*self) is None,
            },
    {
        match self {
            Json::String(s) => Some(s.as_str()),
            _ => None,
        }
    }

    /// An integer value that fits in `i64`, as `Value::as_i64` gives it.
    pub fn as_i64(&self) -> (r: Option<i64>)
        ensures
            r == spec_as_i64(*self),
    {
        match self {
            Json::Number(JsonNumber::PosInt(n)) => if *n <= 9223372036854775807u64 {
                Some(*n as i64)
            } else {
                None
            },
            Json::Number(JsonNumber::NegInt(n)) => Some(*n),
            _ => None,
        }
    }
}

/// The member `key` of `v` where it is a string: `v.get(key).and_then(Value::as_str)`.
pub fn str_field(v: &Json, key: &str) -> (r: Option<String>)
    ensures
        match r {
            Some(s) => str_member(*v, key@) == Some(s@),
            None => str_member(*v, key@) is None,
        },
{
    match v.get(key) {
        Some(m) => match m.as_str() {
            Some(s) => Some(s.to_owned()),
            None => None,
        },
        None => None,
    }
}

/// The member `key` of `v` where it is an integer: `v.get(key).and_then(Value::as_i64)`.
pub fn i64_field(v: &Json, key: &str) -> (r: Option<i64>)
    ensures
        r == i64_member(*v, key@),
{
    match v.get(key) {
        Some(m) => m.as_i64(),
        None => None,
    }
}

/// A failure of `serde_json`, carried as it is.
#[verifier::external_type_specification]
#[verifier::external_body]
pub struct ExJsonError(serde_json::Error);

/// The lower-case hexadecimal digit of `d` (for `0 <= d < 16`).
pub open spec fn hex_digit(d: int) -> char {
    if d < 10 {
        crate::decimal::digit_char(d)
    } else if d == 10 {
        'a'
    } else if d == 11 {
        'b'
    } else if d == 12 {
        'c'
    } else if d == 13 {
        'd'
    } else if d == 14 {
        'e'
    } else {
        'f'
    }
}

/// How `serde_json` writes the character `c` inside a string literal: `"` and
/// `\` behind a backslash, the control characters that have a short escape
/// as `\b`, `\t`, `\n`, `\f`, `\r`, the other control characters below 0x20
/// as `\u00` and two lower-case hex digits, and every other character as it is.
pub open spec fn json_char_text(c: char) -> Seq<char> {
    if c == '"' {
        seq!['\\', '"']
    } else if c == '\\' {
        seq!['\\', '\\']
    } else if c == '\x08' {
        seq!['\\', 'b']
    } else if c == '\t' {
        seq!['\\', 't']
    } else if c == '\n' {
        seq!['\\', 'n']
    } else if c == '\x0c' {
        seq!['\\', 'f']
    } else if c == '\r' {
        seq!['\\', 'r']
    } else if (c as int) < 0x20 {
        seq!['\\', 'u', '0', '0', hex_digit((c as int) / 16), hex_digit((c as int) % 16)]
    } else {
        seq![c]
    }
}

/// The characters of `s`, each written as `json_char_text` writes it.
pub open spec fn json_escaped(s: Seq<char>) -> Seq<char>
    decreases s.len(),
{
    if s.len() == 0 {
        seq![]
    } else {
        json_escaped(s.drop_last()) + json_char_text(s.last())
    }
}

/// The JSON text that `serde_json` writes for the string `s`: `s` escaped,
/// between double quotes.
pub open spec fn json_string_text(s: Seq<char>) -> Seq<char> {
    seq!['"'] + json_escaped(s) + seq!['"']
}

/// `serde_json::to_string` of a string. Serializing a `str` only writes into
/// the in-memory buffer of `to_string`, which cannot fail, so the call
/// succeeds; its text is the string between double quotes with the escapes
/// of serde_json's `ESCAPE` table and `write_char_escape`.
#[verifier::external_body]
pub(crate) fn encode_json_string(s: &str) -> (r: Result<String, serde_json::Error>)
    ensures
        r is Ok,
        r->Ok_0@ == json_string_text(s@),
{
    serde_json::to_string(s)
}

} // verus!
