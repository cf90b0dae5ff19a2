//! A model of the JSON values that the debug adapter reads from the client.

use vstd::prelude::*;

verus! {

/// A JSON value, as the client sends it. Numbers keep their textual form,
/// since this server never computes with them.
#[derive(Debug)]
pub enum JsonValue {
    Null,
    Bool(bool),
    Number(String),
    Str(String),
    Array(Vec<JsonValue>),
    Object(Vec<(String, JsonValue)>),
}

/// The value stored under `key` in the members `entries` of an object:
/// the first member with that key (an object that came off the wire has
/// each key at most once).
pub open spec fn member_value(entries: Seq<(String, JsonValue)>, key: Seq<char>) -> Option<JsonValue>
    decreases entries.len(),
{
    if entries.len() == 0 {
        None
    } else if entries[0].0@ == key {
        Some(entries[0].1)
    } else {
        member_value(entries.drop_first(), key)
    }
}

/// What indexing a value by `key` gives: a member of an object, nothing for
/// any other kind of value.
pub open spec fn spec_get(value: JsonValue, key: Seq<char>) -> Option<JsonValue> {
    match value {
        JsonValue::Object(entries) => member_value(entries@, key),
        _ => None,
    }
}

impl JsonValue {
    /// The member stored under `key`, when `self` is an object that has one.
    pub fn get(&self, key: &str) -> (found: Option<&JsonValue>)
        ensures
            match spec_get(*self, key@) {
                Some(v) => found is Some && *found.unwrap() == v,
                None => found is None,
            },
    {
        match self {
            JsonValue::Object(entries) => {
                let mut i: usize = 0;
                assert(entries@.skip(0) =~= entries@);
                while i < entries.len()
                    invariant
                        i <= entries@.len(),
                        spec_get(*self, key@) == member_value(entries@, key@),
                        member_value(entries@, key@) == member_value(entries@.skip(i as int), key@),
                    decreases entries@.len() - i,
                {
                    assert(entries@.skip(i as int).drop_first() =~= entries@.skip(i + 1));
                    let candidate: &String = &entries[i].0;
                    assert(entries@.skip(i as int)[0] == entries@[i as int]);
                    if crate::text::same_text(candidate.as_str(), key) {
                        return Some(&entries[i].1);
                    }
                    i = i + 1;
                }
                None
            },
            _ => None,
        }
    }

    /// The items of `self`, when it is an array.
    pub fn as_array(&self) -> (items: Option<&Vec<JsonValue>>)
        ensures
            match *self {
                JsonValue::Array(v) => items is Some && *items.unwrap() == v,
                _ => items is None,
            },
    {
        match self {
            JsonValue::Array(v) => Some(v),
            _ => None,
        }
    }

    /// The text of `self`, when it is a string.
    pub fn as_str(&self) -> (text: Option<&str>)
        ensures
            match *self {
                JsonValue::Str(s) => text is Some && text.unwrap()@ == s@,
                _ => text is None,
            },
    {
        match self {
            JsonValue::Str(s) => Some(s.as_str()),
            _ => None,
        }
    }
}

} // verus!
