//! From a JSON tree to a typed record: the rules that every shape follows.
//!
//! A record is a JSON object. A field that its shape requires must be there
//! and hold a value of the right type; a field that its shape makes optional
//! may be missing or `null`. Fields that the shape does not name are ignored.

use crate::error::DecodeError;
use crate::instant::{read_instant, rfc3339_instant, Timestamp};
use crate::json::{json_document, read_document, Json, Number};
use vstd::prelude::*;

verus! {

/// Whether `read` says in its own type what `meant` says in the model: the
/// same error, or a value whose view is the one that was meant.
pub open spec fn agrees<T: View>(
    read: Result<T, DecodeError>,
    meant: Result<T::V, DecodeError>,
) -> bool {
    match read {
        Ok(value) => meant == Ok::<T::V, DecodeError>(value@),
        Err(error) => meant == Err::<T::V, DecodeError>(error),
    }
}

/// A shape that JSON can be read into.
pub trait Resource: View + Sized {
    /// What `json` means as a value of this shape, or why it means none.
    spec fn decoded(json: Json) -> Result<Self::V, DecodeError>;

    /// Reads `json` as a value of this shape.
    fn from_json(json: &Json) -> (read: Result<Self, DecodeError>)
        ensures
            agrees(read, Self::decoded(*json)),
    ;
}

/// The field `key` of `record`, which must be an object and have it.
pub open spec fn required(record: Json, key: &'static str) -> Result<Json, DecodeError> {
    match record {
        Json::Object(_) => match record.member(key@) {
            Some(value) => Ok(value),
            None => Err(DecodeError::MissingField(key)),
        },
        _ => Err(DecodeError::NotAnObject),
    }
}

/// The field `key` of `record`, which must be an object; a field that is
/// missing or `null` counts as absent.
pub open spec fn optional(record: Json, key: &'static str) -> Result<Option<Json>, DecodeError> {
    match record {
        Json::Object(_) => match record.member(key@) {
            Some(Json::Null) | None => Ok(None),
            Some(value) => Ok(Some(value)),
        },
        _ => Err(DecodeError::NotAnObject),
    }
}

/// `value` as text: a JSON string and nothing else.
pub open spec fn text(value: Json, key: &'static str) -> Result<Seq<char>, DecodeError> {
    match value {
        Json::Text(s) => Ok(s@),
        _ => Err(DecodeError::WrongType(key)),
    }
}

/// `value` as a truth value: `true` or `false` and nothing else.
pub open spec fn flag(value: Json, key: &'static str) -> Result<bool, DecodeError> {
    match value {
        Json::Bool(b) => Ok(b),
        _ => Err(DecodeError::WrongType(key)),
    }
}

/// `value` as a count: an integer from 0 to 4,294,967,295.
pub open spec fn count(value: Json, key: &'static str) -> Result<u32, DecodeError> {
    match value {
        Json::Number(Number::Unsigned(n)) => if n <= u32::MAX {
            Ok(n as u32)
        } else {
            Err(DecodeError::WrongType(key))
        },
        _ => Err(DecodeError::WrongType(key)),
    }
}

/// `value` as a point in time: a JSON string that holds a date.
pub open spec fn instant(value: Json, key: &'static str) -> Result<Timestamp, DecodeError> {
    match value {
        Json::Text(s) => match rfc3339_instant(s@) {
            Some(at) => Ok(at),
            None => Err(DecodeError::WrongType(key)),
        },
        _ => Err(DecodeError::WrongType(key)),
    }
}

/// Every item of `items` read as a `T`, in order; the first item that fails
/// decides the error.
pub open spec fn each<T: Resource>(items: Seq<Json>) -> Result<Seq<T::V>, DecodeError>
    decreases items.len(),
{
    if items.len() == 0 {
        Ok(Seq::empty())
    } else {
        match each::<T>(items.drop_last()) {
            Ok(front) => match T::decoded(items.last()) {
                Ok(item) => Ok(front.push(item)),
                Err(error) => Err(error),
            },
            Err(error) => Err(error),
        }
    }
}

/// `value` as a list of `T`: a JSON array of which every item reads as a `T`.
pub open spec fn list<T: Resource>(value: Json, key: &'static str) -> Result<
    Seq<T::V>,
    DecodeError,
> {
    match value {
        Json::Array(items) => each::<T>(items@),
        _ => Err(DecodeError::WrongType(key)),
    }
}

/// The views of `items`, one by one.
pub open spec fn views<T: View>(items: Seq<T>) -> Seq<T::V> {
    items.map_values(|item: T| item@)
}

/// Finds the field `key` that the shape of `record` requires.
pub fn get_required<'a>(record: &'a Json, key: &'static str) -> (found: Result<
    &'a Json,
    DecodeError,
>)
    ensures
        match found {
            Ok(value) => required(*record, key) == Ok::<Json, DecodeError>(*value),
            Err(error) => required(*record, key) == Err::<Json, DecodeError>(error),
        },
{
    match record {
        Json::Object(_) => match record.get(key) {
            Some(value) => Ok(value),
            None => Err(DecodeError::MissingField(key)),
        },
        _ => Err(DecodeError::NotAnObject),
    }
}

/// Finds the field `key` that the shape of `record` makes optional.
pub fn get_optional<'a>(record: &'a Json, key: &'static str) -> (found: Result<
    Option<&'a Json>,
    DecodeError,
>)
    ensures
        match found {
            Ok(Some(value)) => optional(*record, key) == Ok::<Option<Json>, DecodeError>(
                Some(*value),
            ),
            Ok(None) => optional(*record, key) == Ok::<Option<Json>, DecodeError>(None),
            Err(error) => optional(*record, key) == Err::<Option<Json>, DecodeError>(error),
        },
{
    match record {
        Json::Object(_) => match record.get(key) {
            Some(Json::Null) => Ok(None),
            Some(value) => Ok(Some(value)),
            None => Ok(None),
        },
        _ => Err(DecodeError::NotAnObject),
    }
}

/// Reads the value of field `key` as text.
pub fn read_text(value: &Json, key: &'static str) -> (read: Result<String, DecodeError>)
    ensures
        agrees(read, text(*value, key)),
{
    match value {
        Json::Text(s) => Ok(s.clone()),
        _ => Err(DecodeError::WrongType(key)),
    }
}

/// Reads the value of field `key` as a truth value.
pub fn read_flag(value: &Json, key: &'static str) -> (read: Result<bool, DecodeError>)
    ensures
        read == flag(*value, key),
{
    match value {
        Json::Bool(b) => Ok(*b),
        _ => Err(DecodeError::WrongType(key)),
    }
}

/// Reads the value of field `key` as a count.
pub fn read_count(value: &Json, key: &'static str) -> (read: Result<u32, DecodeError>)
    ensures
        read == count(*value, key),
{
    match value {
        Json::Number(Number::Unsigned(n)) => {
            if *n <= 0xffff_ffff {
                Ok(*n as u32)
            } else {
                Err(DecodeError::WrongType(key))
            }
        },
        _ => Err(DecodeError::WrongType(key)),
    }
}

/// Says what the value of field `key` is as a point in time, given what the
/// date parser made of its text: the date, or `None` where it found none.
pub fn instant_of(parsed: Option<Timestamp>, key: &'static str) -> (read: Result<
    Timestamp,
    DecodeError,
>)
    ensures
        read == match parsed {
            Some(at) => Ok::<Timestamp, DecodeError>(at),
            None => Err::<Timestamp, DecodeError>(DecodeError::WrongType(key)),
        },
{
    match parsed {
        Some(at) => Ok(at),
        None => Err(DecodeError::WrongType(key)),
    }
}

/// Reads the value of field `key` as a point in time.
pub fn read_instant_at(value: &Json, key: &'static str) -> (read: Result<Timestamp, DecodeError>)
    ensures
        read == instant(*value, key),
{
    match value {
        Json::Text(s) => instant_of(read_instant(s.as_str()), key),
        _ => Err(DecodeError::WrongType(key)),
    }
}

/// Reads the value of field `key` as a list of `T`.
pub fn read_list<T: Resource>(value: &Json, key: &'static str) -> (read: Result<
    Vec<T>,
    DecodeError,
>)
    ensures
        match read {
            Ok(items) => list::<T>(*value, key) == Ok::<Seq<T::V>, DecodeError>(views(items@)),
            Err(error) => list::<T>(*value, key) == Err::<Seq<T::V>, DecodeError>(error),
        },
{
    match value {
        Json::Array(items) => {
            let mut read: Vec<T> = Vec::new();
            let mut at: usize = 0;
            assert(views(read@) == Seq::<T::V>::empty());
            while at < items.len()
                invariant
                    at <= items.len(),
                    list::<T>(*value, key) == each::<T>(items@),
                    each::<T>(items@.take(at as int)) == Ok::<Seq<T::V>, DecodeError>(
                        views(read@),
                    ),
                decreases items.len() - at,
            {
                assert(items@.take(at as int + 1).drop_last() == items@.take(at as int));
                assert(items@.take(at as int + 1).last() == items@[at as int]);
                match T::from_json(&items[at]) {
                    Ok(item) => {
                        assert(views(read@).push(item@) == views(read@.push(item)));
                        read.push(item);
                    },
                    Err(error) => {
                        proof {
                            each_fails_on::<T>(items@, at as int + 1);
                        }
                        return Err(error);
                    },
                }
                at += 1;
            }
            assert(items@.take(at as int) == items@);
            Ok(read)
        },
        _ => Err(DecodeError::WrongType(key)),
    }
}

/// The text of an optional string, where there is one.
pub open spec fn text_of(value: Option<String>) -> Option<Seq<char>> {
    match value {
        Some(s) => Some(s@),
        None => None,
    }
}

/// The required field `key` of `record`, as text.
pub open spec fn required_text(record: Json, key: &'static str) -> Result<Seq<char>, DecodeError> {
    match required(record, key) {
        Ok(value) => text(value, key),
        Err(error) => Err(error),
    }
}

/// The optional field `key` of `record`, as text where it is there.
pub open spec fn optional_text(record: Json, key: &'static str) -> Result<
    Option<Seq<char>>,
    DecodeError,
> {
    match optional(record, key) {
        Ok(Some(value)) => match text(value, key) {
            Ok(s) => Ok(Some(s)),
            Err(error) => Err(error),
        },
        Ok(None) => Ok(None),
        Err(error) => Err(error),
    }
}

/// The optional field `key` of `record`, as a truth value where it is there.
pub open spec fn optional_flag(record: Json, key: &'static str) -> Result<
    Option<bool>,
    DecodeError,
> {
    match optional(record, key) {
        Ok(Some(value)) => match flag(value, key) {
            Ok(b) => Ok(Some(b)),
            Err(error) => Err(error),
        },
        Ok(None) => Ok(None),
        Err(error) => Err(error),
    }
}

/// The required field `key` of `record`, as a count.
pub open spec fn required_count(record: Json, key: &'static str) -> Result<u32, DecodeError> {
    match required(record, key) {
        Ok(value) => count(value, key),
        Err(error) => Err(error),
    }
}

/// The required field `key` of `record`, as a point in time.
pub open spec fn required_instant(record: Json, key: &'static str) -> Result<
    Timestamp,
    DecodeError,
> {
    match required(record, key) {
        Ok(value) => instant(value, key),
        Err(error) => Err(error),
    }
}

/// The optional field `key` of `record`, as a point in time where it is there.
pub open spec fn optional_instant(record: Json, key: &'static str) -> Result<
    Option<Timestamp>,
    DecodeError,
> {
    match optional(record, key) {
        Ok(Some(value)) => match instant(value, key) {
            Ok(at) => Ok(Some(at)),
            Err(error) => Err(error),
        },
        Ok(None) => Ok(None),
        Err(error) => Err(error),
    }
}

/// The required field `key` of `record`, as a record of shape `T`.
pub open spec fn required_record<T: Resource>(record: Json, key: &'static str) -> Result<
    T::V,
    DecodeError,
> {
    match required(record, key) {
        Ok(value) => T::decoded(value),
        Err(error) => Err(error),
    }
}

/// The required field `key` of `record`, as a list of records of shape `T`.
pub open spec fn required_list<T: Resource>(record: Json, key: &'static str) -> Result<
    Seq<T::V>,
    DecodeError,
> {
    match required(record, key) {
        Ok(value) => list::<T>(value, key),
        Err(error) => Err(error),
    }
}

/// Reads the required field `key` of `record` as text.
pub fn field_text(record: &Json, key: &'static str) -> (read: Result<String, DecodeError>)
    ensures
        agrees(read, required_text(*record, key)),
{
    read_text(get_required(record, key)?, key)
}

/// Reads the optional field `key` of `record` as text.
pub fn field_optional_text(record: &Json, key: &'static str) -> (read: Result<
    Option<String>,
    DecodeError,
>)
    ensures
        match read {
            Ok(found) => optional_text(*record, key) == Ok::<Option<Seq<char>>, DecodeError>(
                text_of(found),
            ),
            Err(error) => optional_text(*record, key) == Err::<Option<Seq<char>>, DecodeError>(
                error,
            ),
        },
{
    match get_optional(record, key)? {
        Some(value) => Ok(Some(read_text(value, key)?)),
        None => Ok(None),
    }
}

/// Reads the optional field `key` of `record` as a truth value.
pub fn field_optional_flag(record: &Json, key: &'static str) -> (read: Result<
    Option<bool>,
    DecodeError,
>)
    ensures
        read == optional_flag(*record, key),
{
    match get_optional(record, key)? {
        Some(value) => Ok(Some(read_flag(value, key)?)),
        None => Ok(None),
    }
}

/// Reads the required field `key` of `record` as a count.
pub fn field_count(record: &Json, key: &'static str) -> (read: Result<u32, DecodeError>)
    ensures
        read == required_count(*record, key),
{
    read_count(get_required(record, key)?, key)
}

/// Reads the required field `key` of `record` as a point in time.
pub fn field_instant(record: &Json, key: &'static str) -> (read: Result<Timestamp, DecodeError>)
    ensures
        read == required_instant(*record, key),
{
    read_instant_at(get_required(record, key)?, key)
}

/// Reads the optional field `key` of `record` as a point in time.
pub fn field_optional_instant(record: &Json, key: &'static str) -> (read: Result<
    Option<Timestamp>,
    DecodeError,
>)
    ensures
        read == optional_instant(*record, key),
{
    match get_optional(record, key)? {
        Some(value) => Ok(Some(read_instant_at(value, key)?)),
        None => Ok(None),
    }
}

/// Reads the required field `key` of `record` as a record of shape `T`.
pub fn field_record<T: Resource>(record: &Json, key: &'static str) -> (read: Result<
    T,
    DecodeError,
>)
    ensures
        agrees(read, required_record::<T>(*record, key)),
{
    T::from_json(get_required(record, key)?)
}

/// Reads the required field `key` of `record` as a list of records of shape
/// `T`.
pub fn field_list<T: Resource>(record: &Json, key: &'static str) -> (read: Result<
    Vec<T>,
    DecodeError,
>)
    ensures
        match read {
            Ok(items) => required_list::<T>(*record, key) == Ok::<Seq<T::V>, DecodeError>(
                views(items@),
            ),
            Err(error) => required_list::<T>(*record, key) == Err::<Seq<T::V>, DecodeError>(
                error,
            ),
        },
{
    read_list::<T>(get_required(record, key)?, key)
}

/// What the bytes of a response body mean as a JSON value: the document that
/// they spell, or the place where they stop being JSON.
pub open spec fn body_value(body: Seq<u8>) -> Result<Json, DecodeError> {
    match json_document(body) {
        Ok(json) => Ok(json),
        Err((line, column)) => Err(DecodeError::Syntax { line, column }),
    }
}

/// What the bytes of a response body mean as a value of shape `T`.
pub open spec fn body_decoded<T: Resource>(body: Seq<u8>) -> Result<T::V, DecodeError> {
    match body_value(body) {
        Ok(json) => T::decoded(json),
        Err(error) => Err(error),
    }
}

/// Reads a response body as one JSON document, whatever its shape.
pub fn read_value(body: &[u8]) -> (read: Result<Json, DecodeError>)
    ensures
        read == body_value(body@),
{
    match read_document(body) {
        Ok(json) => Ok(json),
        Err((line, column)) => Err(DecodeError::Syntax { line, column }),
    }
}

/// Reads a response body as a value of shape `T`: the whole body must be one
/// JSON document, and the document must have the shape.
pub fn read_body<T: Resource>(body: &[u8]) -> (read: Result<T, DecodeError>)
    ensures
        agrees(read, body_decoded::<T>(body@)),
{
    let json = read_value(body)?;
    T::from_json(&json)
}

/// Once a front part of `items` fails to read, the whole list fails the same
/// way.
pub proof fn each_fails_on<T: Resource>(items: Seq<Json>, n: int)
    requires
        0 <= n <= items.len(),
        each::<T>(items.take(n)) is Err,
    ensures
        each::<T>(items) == each::<T>(items.take(n)),
    decreases items.len(),
{
    if n == items.len() {
        assert(items.take(n) == items);
    } else {
        assert(items.drop_last().take(n) == items.take(n));
        each_fails_on::<T>(items.drop_last(), n);
    }
}

} // verus!
