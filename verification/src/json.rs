//! JSON documents as trees, read with `serde_json`.
use crate::text;
use serde_json::{Error, Value};
use vstd::prelude::*;

verus! {

/// A JSON value.
///
/// A number is held as its value, where that is a 64-bit number without a sign, and as its text.
/// The members of an object have different names.
#[derive(Debug)]
pub enum Json {
    Null,
    Bool(bool),
    Number(Option<u64>, String),
    Text(String),
    Array(Vec<Json>),
    Object(Vec<(String, Json)>),
}

/// `serde_json::Value`, a JSON value.
#[verifier::external_type_specification]
#[verifier::external_body]
pub struct ExValue(Value);

/// `serde_json::Error`, given for text that is no JSON document.
#[verifier::external_type_specification]
#[verifier::external_body]
pub struct ExError(Error);

/// What a `serde_json::Value` holds.
pub uninterp spec fn value_tree(value: Value) -> Json;

/// The value that `serde_json::from_str` reads from a text, if the text is a JSON document.
pub uninterp spec fn json_of_text(document: Seq<char>) -> Option<Json>;

/// The value that `serde_json::from_slice` reads from bytes, if they are a JSON document.
pub uninterp spec fn json_of_bytes(document: Seq<u8>) -> Option<Json>;

/// `serde_json::from_str`, for a value of any shape: what it reads, or that the text is no
/// document, depends on the text alone.
#[verifier::external_body]
fn read_text(document: &str) -> (r: Result<Value, Error>)
    ensures
        match r {
            Ok(value) => json_of_text(document@) == Some(value_tree(value)),
            Err(_) => json_of_text(document@) is None,
        },
{
    serde_json::from_str::<Value>(document)
}

/// `serde_json::from_slice`, for a value of any shape: what it reads, or that the bytes are no
/// document, depends on the bytes alone.
#[verifier::external_body]
fn read_bytes(document: &[u8]) -> (r: Result<Value, Error>)
    ensures
        match r {
            Ok(value) => json_of_bytes(document@) == Some(value_tree(value)),
            Err(_) => json_of_bytes(document@) is None,
        },
{
    serde_json::from_slice::<Value>(document)
}

/// Moves the contents of a `serde_json::Value` into a tree, variant by variant.
///
/// Of a number it keeps what `serde_json::Number::as_u64` and its `Display` give.
#[verifier::external_body]
fn tree(value: Value) -> (r: Json)
    ensures
        r == value_tree(value),
{
    match value {
        Value::Null => Json::Null,
        Value::Bool(flag) => Json::Bool(flag),
        Value::Number(number) => Json::Number(number.as_u64(), number.to_string()),
        Value::String(content) => Json::Text(content),
        Value::Array(items) => Json::Array(items.into_iter().map(tree).collect()),
        Value::Object(members) => {
            Json::Object(members.into_iter().map(|member| (member.0, tree(member.1))).collect())
        },
    }
}

/// The value of the member named `key`.
pub open spec fn lookup(members: Seq<(String, Json)>, key: Seq<char>) -> Option<Json>
    decreases members.len(),
{
    if members.len() == 0 {
        None
    } else if members[0].0@ == key {
        Some(members[0].1)
    } else {
        lookup(members.skip(1), key)
    }
}

fn find_member<'a>(members: &'a Vec<(String, Json)>, key: &str) -> (r: Option<&'a Json>)
    ensures
        match r {
            Some(value) => lookup(members@, key@) == Some(*value),
            None => lookup(members@, key@) is None,
        },
{
    let mut i: usize = 0;
    assert(members@.skip(0) == members@);
    while i < members.len()
        invariant
            i <= members@.len(),
            lookup(members@, key@) == lookup(members@.skip(i as int), key@),
        decreases members@.len() - i,
    {
        assert(members@.skip(i as int)[0] == members@[i as int]);
        if text::same(&members[i].0, key) {
            return Some(&members[i].1);
        }
        assert(members@.skip(i as int).skip(1) == members@.skip(i + 1));
        i += 1;
    }
    None
}

impl Json {
    /// The member named `key` of an object; no other value has members.
    pub open spec fn member(self, key: Seq<char>) -> Option<Json> {
        match self {
            Json::Object(members) => lookup(members@, key),
            _ => None,
        }
    }

    /// The text that the value is.
    pub open spec fn content(self) -> Option<Seq<char>> {
        match self {
            Json::Text(content) => Some(content@),
            _ => None,
        }
    }

    /// The unsigned 64-bit number that the value is.
    pub open spec fn number(self) -> Option<u64> {
        match self {
            Json::Number(number, _) => number,
            _ => None,
        }
    }

    /// The first element of the array that the value is.
    pub open spec fn head(self) -> Option<Json> {
        match self {
            Json::Array(items) => if items@.len() > 0 {
                Some(items@[0])
            } else {
                None
            },
            _ => None,
        }
    }

    /// Reads a document from a text.
    pub fn parse(document: &str) -> (r: Option<Json>)
        ensures
            r == json_of_text(document@),
    {
        match read_text(document) {
            Ok(value) => Some(tree(value)),
            Err(_) => None,
        }
    }

    /// Reads a document from bytes.
    pub fn parse_bytes(document: &[u8]) -> (r: Option<Json>)
        ensures
            r == json_of_bytes(document@),
    {
        match read_bytes(document) {
            Ok(value) => Some(tree(value)),
            Err(_) => None,
        }
    }

    /// The member of an object.
    pub fn get(&self, key: &str) -> (r: Option<&Json>)
        ensures
            match r {
                Some(value) => self.member(key@) == Some(*value),
                None => self.member(key@) is None,
            },
    {
        match self {
            Json::Object(members) => find_member(members, key),
            _ => None,
        }
    }

    /// The text of a text value.
    pub fn as_str(&self) -> (r: Option<&str>)
        ensures
            match r {
                Some(s) => self.content() == Some(s@),
                None => self.content() is None,
            },
    {
        match self {
            Json::Text(content) => Some(content.as_str()),
            _ => None,
        }
    }

    /// The value of a number without sign and fraction.
    pub fn as_u64(&self) -> (r: Option<u64>)
        ensures
            r == self.number(),
    {
        match self {
            Json::Number(number, _) => *number,
            _ => None,
        }
    }

    /// The first element of an array.
    pub fn first(&self) -> (r: Option<&Json>)
        ensures
            match r {
                Some(value) => self.head() == Some(*value),
                None => self.head() is None,
            },
    {
        match self {
            Json::Array(items) => if items.len() > 0 {
                Some(&items[0])
            } else {
                None
            },
            _ => None,
        }
    }

    /// What can be shown of the value: a text, or the digits of a number.
    pub open spec fn shown(self) -> Option<Seq<char>> {
        match self {
            Json::Text(content) => Some(content@),
            Json::Number(_, digits) => Some(digits@),
            _ => None,
        }
    }
}

} // verus!
