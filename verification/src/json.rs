//! JSON values as plain data.

use crate::lists;
use crate::lists::{find_first, pointee};
use crate::text;
use vstd::prelude::*;

verus! {

/// A JSON value. Objects list their members; a name that occurs twice means its first member.
pub enum Json {
    Null,
    Bool(bool),
    /// A number that is a non-negative integer.
    Natural(u64),
    /// Any other number.
    Number,
    Text(String),
    Array(Vec<Json>),
    Object(Vec<(String, Json)>),
}

/// The member of an object under a name; other values have no members.
pub open spec fn member(value: Json, name: Seq<char>) -> Option<Json> {
    match value {
        Json::Object(members) => match find_first(
            members@,
            |m: (String, Json)| m.0@ == name,
        ) {
            Some(m) => Some(m.1),
            None => None,
        },
        _ => None,
    }
}

/// The characters of a text value.
pub open spec fn text_in(value: Option<Json>) -> Option<Seq<char>> {
    match value {
        Some(Json::Text(s)) => Some(s@),
        _ => None,
    }
}

/// The characters of a text member.
pub open spec fn text_member(value: Json, name: Seq<char>) -> Option<Seq<char>> {
    text_in(member(value, name))
}

/// The characters of a text member, or nothing.
pub open spec fn text_or_nothing(value: Json, name: Seq<char>) -> Seq<char> {
    match text_member(value, name) {
        Some(s) => s,
        None => Seq::empty(),
    }
}

/// The items of an array member.
pub open spec fn array_member(value: Json, name: Seq<char>) -> Option<Seq<Json>> {
    match member(value, name) {
        Some(Json::Array(items)) => Some(items@),
        _ => None,
    }
}

/// Whether a member is a given truth value.
pub open spec fn flag_member(value: Json, name: Seq<char>) -> bool {
    member(value, name) == Some(Json::Bool(true))
}

impl Json {
    /// The member under a name, where this is an object that has one.
    pub fn get(&self, name: &str) -> (r: Option<&Json>)
        ensures
            pointee(r) == member(*self, name@),
    {
        match self {
            Json::Object(members) => {
                let ghost p = |m: (String, Json)| m.0@ == name@;
                let named = |m: &(String, Json)| -> (b: bool)
                    ensures
                        b == p(*m),
                    { text::same(m.0.as_str(), name) };
                match lists::find(members, named, Ghost(p)) {
                    Some(m) => Some(&m.1),
                    None => None,
                }
            },
            _ => None,
        }
    }

    /// The text of a text value.
    pub fn as_text(&self) -> (r: Option<&String>)
        ensures
            r == (match self {
                Json::Text(s) => Some(s),
                _ => None,
            }),
    {
        match self {
            Json::Text(s) => Some(s),
            _ => None,
        }
    }

    /// The text of a text member.
    pub fn get_text(&self, name: &str) -> (r: Option<String>)
        ensures
            text::text_opt(r) == text_member(*self, name@),
    {
        match self.get(name) {
            Some(Json::Text(s)) => Some(s.clone()),
            _ => None,
        }
    }

    /// The text of a text member, or the empty text.
    pub fn get_text_or_empty(&self, name: &str) -> (r: String)
        ensures
            r@ == text_or_nothing(*self, name@),
    {
        match self.get_text(name) {
            Some(s) => s,
            None => String::new(),
        }
    }

    /// The items of an array member.
    pub fn get_array(&self, name: &str) -> (r: Option<&Vec<Json>>)
        ensures
            match r {
                Some(items) => array_member(*self, name@) == Some(items@),
                None => array_member(*self, name@) is None,
            },
    {
        match self.get(name) {
            Some(Json::Array(items)) => Some(items),
            _ => None,
        }
    }

    /// Takes the items of an array member out of the value.
    pub fn into_array(self, name: &str) -> (r: Option<Vec<Json>>)
        ensures
            match r {
                Some(items) => array_member(self, name@) == Some(items@),
                None => array_member(self, name@) is None,
            },
    {
        match self {
            Json::Object(members) => {
                let mut members = members;
                let ghost p = |m: (String, Json)| m.0@ == name@;
                let named = |m: &(String, Json)| -> (b: bool)
                    ensures
                        b == p(*m),
                    { text::same(m.0.as_str(), name) };
                match lists::position(&members, named, Ghost(p)) {
                    Some(i) => {
                        let (_, value) = members.remove(i);
                        match value {
                            Json::Array(items) => Some(items),
                            _ => None,
                        }
                    },
                    None => None,
                }
            },
            _ => None,
        }
    }

    /// Whether a member is `true`.
    pub fn get_flag(&self, name: &str) -> (r: bool)
        ensures
            r == flag_member(*self, name@),
    {
        match self.get(name) {
            Some(Json::Bool(b)) => *b,
            _ => false,
        }
    }

    /// The number of a member that is a non-negative integer.
    pub fn get_natural(&self, name: &str) -> (r: Option<u64>)
        ensures
            r == (match member(*self, name@) {
                Some(Json::Natural(n)) => Some(n),
                _ => None,
            }),
    {
        match self.get(name) {
            Some(Json::Natural(n)) => Some(*n),
            _ => None,
        }
    }
}

} // verus!
