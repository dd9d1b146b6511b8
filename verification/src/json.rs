//! JSON documents as plain trees.
//!
//! The text of a document is read by `serde_json`; the tree that comes out is
//! held in a type of this crate, so that the shapes of the API's resources
//! can be stated, and checked, over it.

use serde_json::Value;
use vstd::prelude::*;

verus! {

/// A JSON number. An integer that fits keeps its value. Any other number is
/// read as a float by the parser and keeps the text in which the parser
/// prints that float, which need not be the text of the document: `1e2`
/// comes back as `100.0`.
#[derive(Debug)]
pub enum Number {
    /// An integer from 0 to 18,446,744,073,709,551,615.
    Unsigned(u64),
    /// An integer below zero, down to -9,223,372,036,854,775,808.
    Negative(i64),
    /// A number with a fraction or an exponent, or an integer beyond the two
    /// ranges above, as the parser prints it.
    Real(String),
}

/// A JSON value. An object keeps its fields as a list of names and values; a
/// name is looked up from the front, so the first field of a name is the one
/// that counts.
#[derive(Debug)]
pub enum Json {
    Null,
    Bool(bool),
    Number(Number),
    Text(String),
    Array(Vec<Json>),
    Object(Vec<(String, Json)>),
}

/// The value of the first field called `key` among `fields`, if there is one.
pub open spec fn lookup(fields: Seq<(String, Json)>, key: Seq<char>) -> Option<Json>
    decreases fields.len(),
{
    if fields.len() == 0 {
        None
    } else if fields[0].0@ == key {
        Some(fields[0].1)
    } else {
        lookup(fields.drop_first(), key)
    }
}

impl Json {
    /// The value of the field called `key`, where this is an object that has
    /// such a field.
    pub open spec fn member(self, key: Seq<char>) -> Option<Json> {
        match self {
            Json::Object(fields) => lookup(fields@, key),
            _ => None,
        }
    }

    /// Looks up the field called `key`. A value that is no object has no fields.
    pub fn get(&self, key: &str) -> (found: Option<&Json>)
        ensures
            match found {
                Some(value) => self.member(key@) == Some(*value),
                None => self.member(key@) is None,
            },
    {
        match self {
            Json::Object(fields) => {
                let wanted = key.to_owned();
                let mut at: usize = 0;
                assert(fields@.skip(0) == fields@);
                while at < fields.len()
                    invariant
                        at <= fields.len(),
                        wanted@ == key@,
                        self.member(key@) == lookup(fields@, key@),
                        lookup(fields@, key@) == lookup(fields@.skip(at as int), key@),
                    decreases fields.len() - at,
                {
                    assert(fields@.skip(at as int).drop_first() == fields@.skip(at as int + 1));
                    assert(fields@.skip(at as int)[0] == fields@[at as int]);
                    if fields[at].0 == wanted {
                        return Some(&fields[at].1);
                    }
                    at += 1;
                }
                assert(fields@.skip(at as int).len() == 0);
                None
            },
            _ => None,
        }
    }
}

/// `serde_json::Value`, the tree that the parser builds. It is only handed
/// from the parser to the function that copies it into a `Json`.
#[verifier::external_type_specification]
#[verifier::external_body]
pub struct ExValue(Value);

/// What `serde_json::from_slice` makes of `bytes` when it is asked for a
/// `serde_json::Value`: the document as a tree, or the line and the column at
/// which the bytes stop being JSON.
pub uninterp spec fn json_document(bytes: Seq<u8>) -> Result<Json, (usize, usize)>;

/// Copies a `serde_json::Value` into a `Json`, variant by variant. An object's
/// fields come in the order in which the parser's map hands them out, each
/// name once.
#[verifier::external_body]
fn lift(value: Value) -> Json {
    match value {
        Value::Null => Json::Null,
        Value::Bool(flag) => Json::Bool(flag),
        Value::Number(n) => Json::Number(
            match (n.as_u64(), n.as_i64()) {
                (Some(u), _) => Number::Unsigned(u),
                (None, Some(i)) => Number::Negative(i),
                (None, None) => Number::Real(n.to_string()),
            },
        ),
        Value::String(text) => Json::Text(text),
        Value::Array(items) => Json::Array(items.into_iter().map(lift).collect()),
        Value::Object(fields) => Json::Object(fields.into_iter().map(|(k, v)| (k, lift(v))).collect()),
    }
}

/// `serde_json::from_slice`, asked for a `serde_json::Value`. The parser reads
/// one JSON document and nothing but white space after it; its answer depends
/// on the bytes alone, and is `json_document` of them. Of an error only the
/// place is kept.
#[verifier::external_body]
pub(crate) fn read_document(bytes: &[u8]) -> (read: Result<Json, (usize, usize)>)
    ensures
        read == json_document(bytes@),
{
    match serde_json::from_slice::<Value>(bytes) {
        Ok(value) => Ok(lift(value)),
        Err(error) => Err((error.line(), error.column())),
    }
}

} // verus!
