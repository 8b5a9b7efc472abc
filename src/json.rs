//! A JSON document model for request parameters, responses and
//! notification payloads.

use vstd::prelude::*;

verus! {

/// A JSON number: a non-negative integer, a negative integer, or any other
/// number held as its text.
#[derive(Debug, PartialEq)]
pub enum JsonNumber {
    PosInt(u64),
    NegInt(i64),
    Other(String),
}

/// A JSON value. An object keeps its members in order.
#[derive(Debug, PartialEq)]
pub enum Json {
    Null,
    Bool(bool),
    Number(JsonNumber),
    Str(String),
    Array(Vec<Json>),
    Object(Vec<(String, Json)>),
}

/// The index of the first member of `fields` named `key`, if any.
pub open spec fn member_index(fields: Seq<(String, Json)>, key: Seq<char>) -> Option<int> {
    if exists|i: int| 0 <= i < fields.len() && (#[trigger] fields[i]).0@ == key {
        Some(
            choose|i: int|
                0 <= i < fields.len() && (#[trigger] fields[i]).0@ == key && forall|j: int|
                    0 <= j < i ==> (#[trigger] fields[j]).0@ != key,
        )
    } else {
        None
    }
}

/// The member of `v` named `key`: `v` is an object and this is its first
/// member with that name.
pub open spec fn member(v: Json, key: Seq<char>) -> Option<Json> {
    match v {
        Json::Object(fields) => match member_index(fields@, key) {
            Some(i) => Some(fields@[i].1),
            None => None,
        },
        _ => None,
    }
}

/// Whether `f` is the member named `key` with value `val`.
pub open spec fn is_member(f: (String, Json), key: Seq<char>, val: Json) -> bool {
    f.0@ == key && f.1 == val
}

/// Whether `f` is the member named `key` whose value is the string `s`.
pub open spec fn is_str_member(f: (String, Json), key: Seq<char>, s: Seq<char>) -> bool {
    f.0@ == key && (f.1 matches Json::Str(t) && t@ == s)
}

/// Whether `f` is the member named `key` whose value is the integer `n`.
pub open spec fn is_int_member(f: (String, Json), key: Seq<char>, n: u64) -> bool {
    f.0@ == key && f.1 == Json::Number(JsonNumber::PosInt(n))
}

/// The position of the first of `fields` named `key`, if any.
pub fn find_member(fields: &Vec<(String, Json)>, key: &str) -> (r: Option<usize>)
    ensures
        r matches Some(i) ==> i < fields@.len() && member_index(fields@, key@) == Some(i as int),
        r is None ==> member_index(fields@, key@) is None,
{
    let k = key.to_string();
    let mut i: usize = 0;
    while i < fields.len()
        invariant
            k@ == key@,
            i <= fields.len(),
            forall|j: int| 0 <= j < i ==> (#[trigger] fields@[j]).0@ != key@,
        decreases fields.len() - i,
    {
        if fields[i].0 == k {
            assert(fields@[i as int].0@ == key@);
            return Some(i);
        }
        i = i + 1;
    }
    None
}

impl Json {
    /// The member of this object named `key`, or `None` when this is not an
    /// object or has no such member.
    pub fn get(&self, key: &str) -> (r: Option<&Json>)
        ensures
            r matches Some(v) ==> member(*self, key@) == Some(*v),
            r is None ==> member(*self, key@) is None,
    {
        match self {
            Json::Object(fields) => match find_member(fields, key) {
                Some(i) => Some(&fields[i].1),
                None => None,
            },
            _ => None,
        }
    }

    /// Takes the member named `key` out of this value, if it is an object
    /// that has one.
    pub fn take_member(self, key: &str) -> (r: Option<Json>)
        ensures
            r == member(self, key@),
    {
        match self {
            Json::Object(mut fields) => match find_member(&fields, key) {
                Some(i) => {
                    let f = fields.remove(i);
                    Some(f.1)
                },
                None => None,
            },
            _ => None,
        }
    }

    /// The string text of this value, if it is a string.
    pub fn as_str(&self) -> (r: Option<&str>)
        ensures
            r matches Some(s) ==> (self matches Json::Str(t) && s@ == t@),
            r is None <==> !(self is Str),
    {
        match self {
            Json::Str(s) => Some(s.as_str()),
            _ => None,
        }
    }
}

/// A member named `key`.
pub fn member_of(key: &str, value: Json) -> (r: (String, Json))
    ensures
        is_member(r, key@, value),
{
    (key.to_string(), value)
}

/// A string value.
pub fn json_str(s: String) -> (r: Json)
    ensures
        r matches Json::Str(t) && t@ == s@,
{
    Json::Str(s)
}

/// An integer value.
pub fn json_int(n: u64) -> (r: Json)
    ensures
        r == Json::Number(JsonNumber::PosInt(n)),
{
    Json::Number(JsonNumber::PosInt(n))
}

} // verus!
