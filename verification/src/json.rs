//! JSON values, as `serde_json` holds them. What is inside a value is asked of `serde_json`.
//!
//! A value is known here by the text that it is written as. That text tells all of it: two
//! values that are written alike are alike, so that whatever is read off a value is a function
//! of its text.

use crate::frame_state::opt_text;
use crate::text::{has_no_feed, join, join_spec, texts};
use serde_json::Value;
use vstd::prelude::*;
use vstd::string::*;

verus! {

// ---- reading -------------------------------------------------------------------------

#[verifier::external_type_specification]
#[verifier::external_body]
pub struct ExValue(Value);

/// What a JSON value holds, as compact JSON text.
pub uninterp spec fn json_text(value: Value) -> Seq<char>;

/// What JSON values hold.
pub open spec fn json_texts(values: Seq<Value>) -> Seq<Seq<char>> {
    values.map_values(|v: Value| json_text(v))
}

/// The member `key` of a JSON object; nothing where the value is not an object or has no such
/// member.
pub uninterp spec fn json_member(text: Seq<char>, key: Seq<char>) -> Option<Seq<char>>;

/// The items of a JSON array; nothing where the value is not an array.
pub uninterp spec fn json_items(text: Seq<char>) -> Option<Seq<Seq<char>>>;

/// The contents of a JSON string; nothing where the value is not a string.
pub uninterp spec fn json_string(text: Seq<char>) -> Option<Seq<char>>;

/// `serde_json::to_string` of a value: the text that the value is known by. It puts nothing
/// between the items and escapes the line feeds inside strings, so that the text is one line.
#[verifier::external_body]
pub(crate) fn compact(value: &Value) -> (r: String)
    ensures
        r@ == json_text(*value),
        has_no_feed(r@),
{
    serde_json::to_string(value).unwrap_or_default()
}

/// `serde_json::Value::get` with a key.
#[verifier::external_body]
pub(crate) fn member<'a>(value: &'a Value, key: &str) -> (r: Option<&'a Value>)
    ensures
        match r {
            Some(v) => json_member(json_text(*value), key@) == Some(json_text(*v)),
            None => json_member(json_text(*value), key@) is None,
        },
{
    value.get(key)
}

/// `serde_json::Value::as_array`.
#[verifier::external_body]
pub(crate) fn items(value: &Value) -> (r: Option<&Vec<Value>>)
    ensures
        match r {
            Some(v) => json_items(json_text(*value)) == Some(json_texts(v@)),
            None => json_items(json_text(*value)) is None,
        },
{
    value.as_array()
}

/// `serde_json::Value::as_str`.
#[verifier::external_body]
pub(crate) fn string(value: &Value) -> (r: Option<&str>)
    ensures
        match r {
            Some(s) => json_string(json_text(*value)) == Some(s@),
            None => json_string(json_text(*value)) is None,
        },
{
    value.as_str()
}

// ---- writing -------------------------------------------------------------------------

/// A digit of a number to the base sixteen.
pub open spec fn hex_digit(n: nat) -> char {
    if n < 10 {
        (48 + n) as char
    } else {
        (87 + n) as char
    }
}

/// A character inside a JSON string.
pub open spec fn quoted_char(c: char) -> Seq<char> {
    let u = c as u32 as nat;
    if c == '"' {
        seq!['\\', '"']
    } else if c == '\\' {
        seq!['\\', '\\']
    } else if u == 8 {
        seq!['\\', 'b']
    } else if u == 9 {
        seq!['\\', 't']
    } else if u == 10 {
        seq!['\\', 'n']
    } else if u == 12 {
        seq!['\\', 'f']
    } else if u == 13 {
        seq!['\\', 'r']
    } else if u < 32 {
        seq!['\\', 'u', '0', '0', hex_digit(u / 16), hex_digit(u % 16)]
    } else {
        seq![c]
    }
}

/// The characters of a text inside a JSON string.
pub open spec fn quoted_chars(s: Seq<char>) -> Seq<char>
    decreases s.len(),
{
    if s.len() == 0 {
        seq![]
    } else {
        quoted_chars(s.drop_last()) + quoted_char(s.last())
    }
}

/// A text as a JSON string.
pub open spec fn quoted_spec(s: Seq<char>) -> Seq<char> {
    seq!['"'] + quoted_chars(s) + seq!['"']
}

/// `serde_json::Value::to_string` of a string: its characters between quotes. A quote, a
/// backslash and the control characters below the space are escaped; five of those have a
/// short form, and the others are written to the base sixteen.
#[verifier::external_body]
pub(crate) fn quoted(s: &str) -> (r: String)
    ensures
        r@ == quoted_spec(s@),
{
    serde_json::Value::String(s.to_owned()).to_string()
}

/// A text as a JSON string, and `null` without one.
pub open spec fn opt_quoted_spec(s: Option<Seq<char>>) -> Seq<char> {
    match s {
        Some(x) => quoted_spec(x),
        None => "null"@,
    }
}

pub(crate) fn opt_quoted(s: &Option<String>) -> (r: String)
    ensures
        r@ == opt_quoted_spec(opt_text(*s)),
{
    match s {
        Some(x) => quoted(x.as_str()),
        None => "null".to_owned(),
    }
}

/// A JSON array of items that are JSON texts.
pub open spec fn array_spec(items: Seq<Seq<char>>) -> Seq<char> {
    "["@ + join_spec(items, ","@) + "]"@
}

pub(crate) fn array(items: &Vec<String>) -> (r: String)
    ensures
        r@ == array_spec(texts(items@)),
{
    "[".to_owned().concat(join(items, ",").as_str()).concat("]")
}

/// Texts as JSON strings.
pub open spec fn all_quoted(v: Seq<Seq<char>>) -> Seq<Seq<char>> {
    v.map_values(|s: Seq<char>| quoted_spec(s))
}

pub(crate) fn quote_all(v: &Vec<String>) -> (r: Vec<String>)
    ensures
        texts(r@) == all_quoted(texts(v@)),
{
    let mut r: Vec<String> = Vec::new();
    let mut i: usize = 0;
    while i < v.len()
        invariant
            i <= v@.len(),
            r@.len() == i,
            forall|j: int| 0 <= j < i ==> (#[trigger] r@[j])@ == quoted_spec(v@[j]@),
        decreases v@.len() - i,
    {
        r.push(quoted(v[i].as_str()));
        i += 1;
    }
    assert(texts(r@) =~= all_quoted(texts(v@)));
    r
}

} // verus!
