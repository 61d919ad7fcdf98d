//! JSON values as package metadata and manifests hold them, with the lookups that build
//! configuration needs.
use vstd::prelude::*;

use crate::text::str_eq;

verus! {

/// A JSON value. Numbers are kept without their value, which nothing here
/// reads; an object is the list of its members in order, and a lookup by key
/// finds the first member with that key.
#[derive(Debug)]
pub enum JsonValue {
    Null,
    Bool(bool),
    Number,
    Str(String),
    Array(Vec<JsonValue>),
    Object(Vec<(String, JsonValue)>),
}

/// The value of the first member named `key` among `members`.
pub open spec fn spec_member(members: Seq<(String, JsonValue)>, key: Seq<char>) -> Option<
    JsonValue,
>
    decreases members.len(),
{
    if members.len() == 0 {
        None
    } else if members[0].0@ == key {
        Some(members[0].1)
    } else {
        spec_member(members.drop_first(), key)
    }
}

/// The member `key` of `value` when `value` is an object that has one.
pub open spec fn spec_get(value: JsonValue, key: Seq<char>) -> Option<JsonValue> {
    match value {
        JsonValue::Object(members) => spec_member(members@, key),
        _ => None,
    }
}

/// The member `key` of an optional value.
pub open spec fn spec_get_in(value: Option<JsonValue>, key: Seq<char>) -> Option<JsonValue> {
    match value {
        Some(v) => spec_get(v, key),
        None => None,
    }
}

/// The string an optional value holds, if it is a string.
pub open spec fn spec_as_str(value: Option<JsonValue>) -> Option<Seq<char>> {
    match value {
        Some(JsonValue::Str(s)) => Some(s@),
        _ => None,
    }
}

/// The boolean an optional value holds, if it is a boolean.
pub open spec fn spec_as_bool(value: Option<JsonValue>) -> Option<bool> {
    match value {
        Some(JsonValue::Bool(b)) => Some(b),
        _ => None,
    }
}

impl JsonValue {
    /// The member `key` of this value, if it is an object that has one.
    pub fn get(&self, key: &str) -> (member: Option<&JsonValue>)
        ensures
            match member {
                Some(m) => spec_get(*self, key@) == Some(*m),
                None => spec_get(*self, key@) is None,
            },
    {
        match self {
            JsonValue::Object(members) => {
                let mut i: usize = 0;
                assert(members@.skip(0) =~= members@);
                while i < members.len()
                    invariant
                        i <= members@.len(),
                        *self == JsonValue::Object(*members),
                        spec_member(members@, key@) == spec_member(members@.skip(i as int), key@),
                    decreases members@.len() - i,
                {
                    assert(members@.skip(i as int).drop_first() =~= members@.skip(i + 1));
                    assert(members@.skip(i as int)[0] == members@[i as int]);
                    if str_eq(members[i].0.as_str(), key) {
                        return Some(&members[i].1);
                    }
                    i = i + 1;
                }
                None
            },
            _ => None,
        }
    }

    /// The string this value holds, if it is a string.
    pub fn as_str(&self) -> (s: Option<&str>)
        ensures
            match s {
                Some(s) => spec_as_str(Some(*self)) == Some(s@),
                None => spec_as_str(Some(*self)) is None,
            },
    {
        match self {
            JsonValue::Str(s) => Some(s.as_str()),
            _ => None,
        }
    }

    /// The boolean this value holds, if it is a boolean.
    pub fn as_bool(&self) -> (b: Option<bool>)
        ensures
            b == spec_as_bool(Some(*self)),
    {
        match self {
            JsonValue::Bool(b) => Some(*b),
            _ => None,
        }
    }

    /// The elements of this value, if it is an array.
    pub fn as_array(&self) -> (items: Option<&Vec<JsonValue>>)
        ensures
            match items {
                Some(items) => *self == JsonValue::Array(*items),
                None => !(*self is Array),
            },
    {
        match self {
            JsonValue::Array(items) => Some(items),
            _ => None,
        }
    }
}

} // verus!
