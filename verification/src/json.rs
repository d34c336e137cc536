//! JSON values as the renderers read them.

use crate::text::{opt_text, str_eq};
use vstd::prelude::*;

verus! {

/// A JSON number: its value where it is an unsigned integer, and how it is written.
#[derive(Debug, PartialEq, Eq)]
pub struct JsonNumber {
    pub unsigned: Option<u64>,
    pub text: String,
}

/// A JSON value.
#[derive(Debug, PartialEq, Eq)]
pub enum Json {
    Null,
    Bool(bool),
    Number(JsonNumber),
    Str(String),
    Array(Vec<Json>),
    Object(Vec<(String, Json)>),
}

/// The value of the first entry under `key`.
pub open spec fn entry(entries: Seq<(String, Json)>, key: Seq<char>) -> Option<Json>
    decreases entries.len(),
{
    if entries.len() == 0 {
        None
    } else if entries[0].0@ == key {
        Some(entries[0].1)
    } else {
        entry(entries.skip(1), key)
    }
}

/// The member of an object under `key`.
pub open spec fn member(value: Json, key: Seq<char>) -> Option<Json> {
    match value {
        Json::Object(entries) => entry(entries@, key),
        _ => None,
    }
}

/// The member of an object under `key`; `null` where there is none.
pub open spec fn at(value: Json, key: Seq<char>) -> Json {
    match member(value, key) {
        Some(v) => v,
        None => Json::Null,
    }
}

/// The characters of a JSON string.
pub open spec fn as_text(value: Json) -> Option<Seq<char>> {
    match value {
        Json::Str(s) => Some(s@),
        _ => None,
    }
}

/// The unsigned integer a JSON number denotes.
pub open spec fn as_unsigned(value: Json) -> Option<u64> {
    match value {
        Json::Number(n) => n.unsigned,
        _ => None,
    }
}

/// The truth value of a JSON boolean.
pub open spec fn as_flag(value: Json) -> Option<bool> {
    match value {
        Json::Bool(b) => Some(b),
        _ => None,
    }
}

/// The elements of a JSON array.
pub open spec fn array_of(value: Json) -> Option<Seq<Json>> {
    match value {
        Json::Array(v) => Some(v@),
        _ => None,
    }
}

/// The text under `key`, when there is one.
pub open spec fn text_at(value: Json, key: Seq<char>) -> Option<Seq<char>> {
    as_text(at(value, key))
}

/// The text under `key`, or `default`.
pub open spec fn text_or(value: Json, key: Seq<char>, default: Seq<char>) -> Seq<char> {
    match text_at(value, key) {
        Some(s) => s,
        None => default,
    }
}

/// The unsigned integer under `key`, when there is one.
pub open spec fn unsigned_at(value: Json, key: Seq<char>) -> Option<u64> {
    as_unsigned(at(value, key))
}

/// The unsigned integer under `key`, or 0.
pub open spec fn unsigned_or_0(value: Json, key: Seq<char>) -> u64 {
    match unsigned_at(value, key) {
        Some(n) => n,
        None => 0,
    }
}

/// Whether `true` stands under `key`.
pub open spec fn flag_at(value: Json, key: Seq<char>) -> bool {
    as_flag(at(value, key)) == Some(true)
}

impl Json {
    /// The member under `key`; `null` where there is none.
    pub fn at<'a>(&'a self, key: &str, null: &'a Json) -> (r: &'a Json)
        requires
            *null is Null,
        ensures
            *r == at(*self, key@),
    {
        match self.get(key) {
            Some(v) => v,
            None => null,
        }
    }

    /// The elements of a JSON array.
    pub fn as_array(&self) -> (r: Option<&Vec<Json>>)
        ensures
            match r {
                Some(v) => array_of(*self) == Some(v@),
                None => array_of(*self) is None,
            },
    {
        match self {
            Json::Array(v) => Some(v),
            _ => None,
        }
    }

    /// Whether this is `null`.
    pub fn is_null(&self) -> (r: bool)
        ensures
            r == (*self is Null),
    {
        match self {
            Json::Null => true,
            _ => false,
        }
    }

    /// The unsigned integer under `key`, or 0.
    pub fn u64_or_0(&self, key: &str) -> (r: u64)
        ensures
            r == unsigned_or_0(*self, key@),
    {
        match self.u64_at(key) {
            Some(n) => n,
            None => 0,
        }
    }

    /// Whether `true` stands under `key`.
    pub fn flag_at(&self, key: &str) -> (r: bool)
        ensures
            r == flag_at(*self, key@),
    {
        match self.get(key) {
            Some(v) => match v.as_bool() {
                Some(b) => b,
                None => false,
            },
            None => false,
        }
    }

    /// The member under `key`, where this is an object that has one.
    pub fn get(&self, key: &str) -> (r: Option<&Json>)
        ensures
            match r {
                Some(v) => member(*self, key@) == Some(*v),
                None => member(*self, key@) is None,
            },
    {
        match self {
            Json::Object(entries) => {
                let mut i: usize = 0;
                assert(entries@.skip(0) =~= entries@);
                while i < entries.len()
                    invariant
                        i <= entries@.len(),
                        *self == Json::Object(*entries),
                        entry(entries@, key@) == entry(entries@.skip(i as int), key@),
                    decreases entries@.len() - i,
                {
                    assert(entries@.skip(i as int)[0] == entries@[i as int]);
                    if str_eq(entries[i].0.as_str(), key) {
                        return Some(&entries[i].1);
                    }
                    assert(entries@.skip(i as int).skip(1) =~= entries@.skip(i as int + 1));
                    i = i + 1;
                }
                None
            },
            _ => None,
        }
    }

    /// The text of a JSON string.
    pub fn as_str(&self) -> (r: Option<&str>)
        ensures
            crate::text::opt_str(r) == as_text(*self),
    {
        match self {
            Json::Str(s) => Some(s.as_str()),
            _ => None,
        }
    }

    /// The unsigned integer a JSON number denotes.
    pub fn as_u64(&self) -> (r: Option<u64>)
        ensures
            r == as_unsigned(*self),
    {
        match self {
            Json::Number(n) => n.unsigned,
            _ => None,
        }
    }

    /// The truth value of a JSON boolean.
    pub fn as_bool(&self) -> (r: Option<bool>)
        ensures
            r == as_flag(*self),
    {
        match self {
            Json::Bool(b) => Some(*b),
            _ => None,
        }
    }

    /// The text under `key`, when there is one.
    pub fn text_at(&self, key: &str) -> (r: Option<String>)
        ensures
            opt_text(r) == text_at(*self, key@),
    {
        match self.get(key) {
            Some(v) => match v.as_str() {
                Some(s) => Some(s.to_owned()),
                None => None,
            },
            None => None,
        }
    }

    /// The text under `key`, or `default`.
    pub fn text_or(&self, key: &str, default: &str) -> (r: String)
        ensures
            r@ == text_or(*self, key@, default@),
    {
        match self.text_at(key) {
            Some(s) => s,
            None => default.to_owned(),
        }
    }

    /// The unsigned integer under `key`, when there is one.
    pub fn u64_at(&self, key: &str) -> (r: Option<u64>)
        ensures
            r == unsigned_at(*self, key@),
    {
        match self.get(key) {
            Some(v) => v.as_u64(),
            None => None,
        }
    }
}

} // verus!
