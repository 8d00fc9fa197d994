//! Which application owns a workshop item, as the Workshop's metadata API
//! reports it.
//!
//! The API answers a form-encoded POST naming one item with a JSON document
//! whose `response.publishedfiledetails[0].consumer_app_id` is the owning
//! application. The request itself is sent by the caller; this module builds
//! its body and reads the answer. Anything but a positive integer in that
//! place, or no such place at all, means that no application was found.

use vstd::prelude::*;
use crate::invoke::{decimal_chars, decimal_string};

verus! {

#[verifier::external_type_specification]
#[verifier::external_body]
pub struct ExJsonValue(serde_json::Value);

/// A JSON document as the lookup reads it. A number is kept as what
/// `as_i64` makes of it: the integer where it is one that fits in an `i64`.
#[derive(Debug)]
pub enum Json {
    Null,
    Bool(bool),
    Number(Option<i64>),
    Str(String),
    Array(Vec<Json>),
    Object(Vec<(String, Json)>),
}

/// What `serde_json::from_slice` reads from the bytes, as a `Json`: `None`
/// where they hold no single JSON document.
pub uninterp spec fn json_of(body: Seq<u8>) -> Option<Json>;

/// Relies on `serde_json::Value`'s variants, `Number::as_i64` and the
/// iteration of its arrays and maps: the same tree as a `Json`.
#[verifier::external_body]
fn json_from_value(v: &serde_json::Value) -> (r: Json) {
    match v {
        serde_json::Value::Null => Json::Null,
        serde_json::Value::Bool(b) => Json::Bool(*b),
        serde_json::Value::Number(n) => Json::Number(n.as_i64()),
        serde_json::Value::String(s) => Json::Str(s.clone()),
        serde_json::Value::Array(a) => Json::Array(a.iter().map(json_from_value).collect()),
        serde_json::Value::Object(m) => Json::Object(
            m.iter().map(|(k, x)| (k.clone(), json_from_value(x))).collect(),
        ),
    }
}

/// Relies on `serde_json::from_slice`: the document that the bytes hold,
/// which depends on the bytes alone. An empty input holds no document.
#[verifier::external_body]
fn parse_json(body: &[u8]) -> (r: Option<Json>)
    ensures
        r == json_of(body@),
        body@.len() == 0 ==> r is None,
{
    serde_json::from_slice::<serde_json::Value>(body).ok().map(|v| json_from_value(&v))
}

/// The value of the first member of `fields` named `key`.
pub open spec fn member_of(fields: Seq<(String, Json)>, key: Seq<char>) -> Option<Json>
    decreases fields.len(),
{
    if fields.len() == 0 {
        None
    } else if fields[0].0@ == key {
        Some(fields[0].1)
    } else {
        member_of(fields.drop_first(), key)
    }
}

/// The member `key` of an object.
pub open spec fn field(j: Json, key: Seq<char>) -> Option<Json> {
    match j {
        Json::Object(fields) => member_of(fields@, key),
        _ => None,
    }
}

/// The element at `i` of an array.
pub open spec fn element(j: Json, i: int) -> Option<Json> {
    match j {
        Json::Array(items) => if 0 <= i < items@.len() {
            Some(items@[i])
        } else {
            None
        },
        _ => None,
    }
}

/// `response.publishedfiledetails[0].consumer_app_id` of an API answer,
/// where it is an integer.
pub open spec fn api_field(doc: Json) -> Option<i64> {
    match field(doc, "response"@) {
        Some(response) => match field(response, "publishedfiledetails"@) {
            Some(details) => match element(details, 0) {
                Some(first) => match field(first, "consumer_app_id"@) {
                    Some(Json::Number(n)) => n,
                    _ => None,
                },
                None => None,
            },
            None => None,
        },
        None => None,
    }
}

fn member<'a>(j: &'a Json, key: &String) -> (r: Option<&'a Json>)
    ensures
        match field(*j, key@) {
            Some(x) => r == Some(&x),
            None => r is None,
        },
{
    match j {
        Json::Object(fields) => {
            let mut i: usize = 0;
            assert(fields@.subrange(0, fields@.len() as int) =~= fields@);
            while i < fields.len()
                invariant
                    i <= fields@.len(),
                    field(*j, key@) == member_of(fields@, key@),
                    member_of(fields@, key@) == member_of(
                        fields@.subrange(i as int, fields@.len() as int),
                        key@,
                    ),
                decreases fields.len() - i,
            {
                let ghost rest = fields@.subrange(i as int, fields@.len() as int);
                assert(rest.drop_first() =~= fields@.subrange(i + 1, fields@.len() as int));
                assert(rest[0] == fields@[i as int]);
                if fields[i].0 == *key {
                    assert(fields@[i as int].0@ == key@);
                    return Some(&fields[i].1);
                }
                i = i + 1;
            }
            None
        },
        _ => None,
    }
}

fn first_element(j: &Json) -> (r: Option<&Json>)
    ensures
        match element(*j, 0) {
            Some(x) => r == Some(&x),
            None => r is None,
        },
{
    match j {
        Json::Array(items) => if items.len() > 0 {
            Some(&items[0])
        } else {
            None
        },
        _ => None,
    }
}

/// The `consumer_app_id` field of an API answer.
pub fn api_field_of(doc: &Json) -> (r: Option<i64>)
    ensures
        r == api_field(*doc),
{
    let response = match member(doc, &String::from_str("response")) {
        Some(v) => v,
        None => return None,
    };
    let details = match member(response, &String::from_str("publishedfiledetails")) {
        Some(v) => v,
        None => return None,
    };
    let first = match first_element(details) {
        Some(v) => v,
        None => return None,
    };
    match member(first, &String::from_str("consumer_app_id")) {
        Some(Json::Number(n)) => *n,
        _ => None,
    }
}

/// The application that a `consumer_app_id` field names: only a positive
/// integer names one.
pub open spec fn app_id_of_field(field: Option<i64>) -> Option<u64> {
    match field {
        Some(n) => if n > 0 {
            Some(n as u64)
        } else {
            None
        },
        None => None,
    }
}

/// The application that a `consumer_app_id` field names.
pub fn app_id_from_field(field: Option<i64>) -> (r: Option<u64>)
    ensures
        r == app_id_of_field(field),
        r matches Some(n) ==> n > 0,
{
    match field {
        Some(n) => if n > 0 {
            Some(n as u64)
        } else {
            None
        },
        None => None,
    }
}

/// The owning application that a parsed API answer reports: the first
/// result's `consumer_app_id` where it is a positive integer.
pub fn app_id_in(doc: &Json) -> (r: Option<u64>)
    ensures
        r == app_id_of_field(api_field(*doc)),
{
    app_id_from_field(api_field_of(doc))
}

/// The owning application as an API answer reports it, or `None` where the
/// answer is not JSON, lacks the field or holds no positive integer there.
pub fn consumer_app_id(body: &[u8]) -> (r: Option<u64>)
    ensures
        r == match json_of(body@) {
            Some(doc) => app_id_of_field(api_field(doc)),
            None => None,
        },
        r matches Some(n) ==> n > 0,
        body@.len() == 0 ==> r is None,
{
    match parse_json(body) {
        Some(doc) => app_id_in(&doc),
        None => None,
    }
}

/// The form-encoded body of the API request for one item.
pub open spec fn request_body_spec(item_id: u64) -> Seq<char> {
    "itemcount=1&publishedfileids[0]="@ + decimal_chars(item_id as nat)
}

/// The body of the API request that asks for item `item_id`.
pub fn request_body(item_id: u64) -> (r: String)
    ensures
        r@ == request_body_spec(item_id),
{
    let body = String::from_str("itemcount=1&publishedfileids[0]=");
    body.concat(decimal_string(item_id).as_str())
}

} // verus!
