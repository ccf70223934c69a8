//! The JSON values that the catalog and the release source answer with, as far
//! as this library reads them.

use vstd::prelude::*;
use crate::text::same_text;

verus! {

/// A JSON number, told apart by the integer types it fits.
#[derive(Debug, PartialEq, Eq)]
pub enum Number {
    /// A non-negative integer.
    Unsigned(u64),
    /// An integer below zero.
    Negative(i64),
    /// Any other number; its value is not read.
    Float,
}

/// A JSON value.
#[derive(Debug, PartialEq, Eq)]
pub enum Json {
    Null,
    Bool(bool),
    Number(Number),
    Text(String),
    Array(Vec<Json>),
    /// The members of an object, each a name and a value.
    Object(Vec<(String, Json)>),
}

/// The value of the first member named `key` among `members` from index `i`
/// on.
pub open spec fn member_from(members: Seq<(String, Json)>, key: Seq<char>, i: int) -> Option<Json>
    decreases members.len() - i,
{
    if i < 0 || i >= members.len() {
        None
    } else if members[i].0@ == key {
        Some(members[i].1)
    } else {
        member_from(members, key, i + 1)
    }
}

impl Json {
    /// The member named `key`, where the value is an object that has one.
    pub open spec fn member(self, key: Seq<char>) -> Option<Json> {
        match self {
            Json::Object(members) => member_from(members@, key, 0),
            _ => None,
        }
    }

    /// The elements, where the value is an array.
    pub open spec fn elements(self) -> Option<Seq<Json>> {
        match self {
            Json::Array(items) => Some(items@),
            _ => None,
        }
    }

    /// The characters, where the value is a string.
    pub open spec fn text(self) -> Option<Seq<char>> {
        match self {
            Json::Text(t) => Some(t@),
            _ => None,
        }
    }

    /// The number, where the value is an integer that fits `i64`.
    pub open spec fn signed(self) -> Option<i64> {
        match self {
            Json::Number(Number::Unsigned(n)) => if n <= i64::MAX {
                Some(n as i64)
            } else {
                None
            },
            Json::Number(Number::Negative(n)) => Some(n),
            _ => None,
        }
    }

    /// The number, where the value is an integer that fits `u64`.
    pub open spec fn unsigned(self) -> Option<u64> {
        match self {
            Json::Number(Number::Unsigned(n)) => Some(n),
            _ => None,
        }
    }

    /// The text of the member named `key`, or the empty text where there is no
    /// such member or it is no string.
    pub open spec fn text_or_empty(self, key: Seq<char>) -> Seq<char> {
        match self.member(key) {
            Some(Json::Text(t)) => t@,
            _ => Seq::empty(),
        }
    }

    /// The text of the member named `key`, where there is one and it is a
    /// string.
    pub open spec fn optional_text(self, key: Seq<char>) -> Option<Seq<char>> {
        match self.member(key) {
            Some(value) => value.text(),
            None => None,
        }
    }

    /// Looks up the member named `key`.
    pub fn get(&self, key: &str) -> (found: Option<&Json>)
        ensures
            match found {
                Some(value) => self.member(key@) == Some(*value),
                None => self.member(key@) is None,
            },
    {
        match self {
            Json::Object(members) => {
                let mut i: usize = 0;
                while i < members.len()
                    invariant
                        i <= members.len(),
                        self.member(key@) == member_from(members@, key@, i as int),
                    decreases members.len() - i,
                {
                    if same_text(members[i].0.as_str(), key) {
                        return Some(&members[i].1);
                    }
                    i = i + 1;
                }
                None
            },
            _ => None,
        }
    }

    /// The elements of an array.
    pub fn as_array(&self) -> (items: Option<&Vec<Json>>)
        ensures
            match items {
                Some(v) => self.elements() == Some(v@),
                None => self.elements() is None,
            },
    {
        match self {
            Json::Array(items) => Some(items),
            _ => None,
        }
    }

    /// The text of a string.
    pub fn as_str(&self) -> (text: Option<&str>)
        ensures
            match text {
                Some(t) => self.text() == Some(t@),
                None => self.text() is None,
            },
    {
        match self {
            Json::Text(t) => Some(t.as_str()),
            _ => None,
        }
    }

    /// The value of an integer that fits `i64`.
    pub fn as_i64(&self) -> (n: Option<i64>)
        ensures
            n == self.signed(),
    {
        match self {
            Json::Number(Number::Unsigned(n)) => if *n <= 0x7fff_ffff_ffff_ffff {
                Some(*n as i64)
            } else {
                None
            },
            Json::Number(Number::Negative(n)) => Some(*n),
            _ => None,
        }
    }

    /// The value of an integer that fits `u64`.
    pub fn as_u64(&self) -> (n: Option<u64>)
        ensures
            n == self.unsigned(),
    {
        match self {
            Json::Number(Number::Unsigned(n)) => Some(*n),
            _ => None,
        }
    }

    /// A copy of the text of the member named `key`; empty where the member
    /// is missing or no string.
    pub fn string_or_empty(&self, key: &str) -> (text: String)
        ensures
            text@ == self.text_or_empty(key@),
    {
        match self.get(key) {
            Some(Json::Text(t)) => t.clone(),
            _ => String::new(),
        }
    }

    /// A copy of the text of the member named `key`, where it is a string.
    pub fn optional_string(&self, key: &str) -> (text: Option<String>)
        ensures
            match text {
                Some(t) => self.optional_text(key@) == Some(t@),
                None => self.optional_text(key@) is None,
            },
    {
        match self.get(key) {
            Some(Json::Text(t)) => Some(t.clone()),
            _ => None,
        }
    }
}

} // verus!
