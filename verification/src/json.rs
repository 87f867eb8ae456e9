//! A parsed JSON document as plain values, and lookups over it.
//!
//! Text is parsed by the binary (with `serde_json`) and handed to the library
//! in this form; every rule over JSON documents in this crate reads it.

use vstd::prelude::*;

use crate::text::str_eq;

verus! {

/// A JSON value.
#[derive(Debug)]
pub enum JsonValue {
    Null,
    Bool(bool),
    /// A number, held as the bit pattern of its `f64` value (`f64::to_bits`).
    Number(u64),
    Str(String),
    Array(Vec<JsonValue>),
    /// An object's members, in the order the parser yields them.
    Object(Vec<(String, JsonValue)>),
}

/// The value of the first member of `members`, from index `i` on, whose key
/// is `key`.
pub open spec fn find_member_from(members: Seq<(String, JsonValue)>, key: Seq<char>, i: int) -> Option<JsonValue>
    decreases members.len() - i,
{
    if i < 0 || i >= members.len() {
        None
    } else if members[i].0@ == key {
        Some(members[i].1)
    } else {
        find_member_from(members, key, i + 1)
    }
}

/// The value of the member `key` of an object's members (the first one).
pub open spec fn find_member(members: Seq<(String, JsonValue)>, key: Seq<char>) -> Option<JsonValue> {
    find_member_from(members, key, 0)
}

/// The member `key` of `v` when `v` is an object that has it.
pub open spec fn field(v: JsonValue, key: Seq<char>) -> Option<JsonValue> {
    match v {
        JsonValue::Object(members) => find_member(members@, key),
        _ => None,
    }
}

/// The text of a string value (empty for any other value).
pub open spec fn text_of(v: Option<JsonValue>) -> Seq<char> {
    match v {
        Some(JsonValue::Str(s)) => s@,
        _ => Seq::empty(),
    }
}

/// The texts of the items of an array of strings.
pub open spec fn texts_of(v: Option<JsonValue>) -> Seq<Seq<char>> {
    match v {
        Some(JsonValue::Array(items)) => items@.map_values(|item: JsonValue| text_of(Some(item))),
        _ => Seq::empty(),
    }
}

/// The members of an object value (empty for any other value).
pub open spec fn members_of(v: Option<JsonValue>) -> Seq<(String, JsonValue)> {
    match v {
        Some(JsonValue::Object(members)) => members@,
        _ => Seq::empty(),
    }
}

/// The items of an array value (empty for any other value).
pub open spec fn items_of(v: Option<JsonValue>) -> Seq<JsonValue> {
    match v {
        Some(JsonValue::Array(items)) => items@,
        _ => Seq::empty(),
    }
}

/// Looks up the member `key` among an object's members.
pub fn member<'a>(members: &'a Vec<(String, JsonValue)>, key: &str) -> (r: Option<&'a JsonValue>)
    ensures
        match r {
            Some(v) => find_member(members@, key@) == Some(*v),
            None => find_member(members@, key@) is None,
        },
{
    let mut i: usize = 0;
    while i < members.len()
        invariant
            i <= members@.len(),
            find_member(members@, key@) == find_member_from(members@, key@, i as int),
        decreases members.len() - i,
    {
        if str_eq(members[i].0.as_str(), key) {
            return Some(&members[i].1);
        }
        i += 1;
    }
    None
}

/// The ordering key of a number given by its `f64` bit pattern: for every
/// value that is not NaN, `a < b` as `f64` exactly when
/// `number_key(a) < number_key(b)` (both zeros get key 0).
pub open spec fn number_key(bits: u64) -> int {
    if bits >= 0x8000_0000_0000_0000 {
        -(bits - 0x8000_0000_0000_0000)
    } else {
        bits as int
    }
}

/// Whether the number with bit pattern `a` is less than the one with bit
/// pattern `b`.
pub fn number_less(a: u64, b: u64) -> (r: bool)
    ensures
        r == (number_key(a) < number_key(b)),
{
    let neg_a = a >= 0x8000_0000_0000_0000;
    let neg_b = b >= 0x8000_0000_0000_0000;
    if neg_a && neg_b {
        b < a
    } else if neg_a {
        !(a == 0x8000_0000_0000_0000 && b == 0)
    } else if neg_b {
        false
    } else {
        a < b
    }
}

} // verus!
