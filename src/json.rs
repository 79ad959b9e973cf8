//! A JSON document as plain values.
//!
//! Upstream replies are handed to the library in this form. A number keeps
//! the text that it was written with, so that prices are read by the one
//! decimal parser of [`crate::decimal`] and never go through floating point.
//! A price is read from a number or from a string, as the shape of the reply
//! has it; a member of the other type is no price.
use vstd::prelude::*;
use vstd::string::*;
use crate::decimal::{milli_of, price_of_text};

verus! {

/// A JSON value. An object keeps its members in order; where a key occurs
/// twice, the first member counts.
#[derive(Debug)]
pub enum Json {
    Null,
    Bool(bool),
    Number(String),
    Text(String),
    Array(Vec<Json>),
    Object(Vec<(String, Json)>),
}

/// The value of the first member named `key` at index `i` or later.
pub open spec fn member_from(fields: Seq<(String, Json)>, key: Seq<char>, i: int) -> Option<Json>
    decreases fields.len() - i,
{
    if i < 0 || i >= fields.len() {
        None
    } else if fields[i].0@ == key {
        Some(fields[i].1)
    } else {
        member_from(fields, key, i + 1)
    }
}

/// The member `key` of `j`, where `j` is an object that has one.
pub open spec fn member(j: Json, key: Seq<char>) -> Option<Json> {
    match j {
        Json::Object(fields) => member_from(fields@, key, 0),
        _ => None,
    }
}

/// The member `key` of `j`, where it is a string.
pub open spec fn text_member(j: Json, key: Seq<char>) -> Option<Seq<char>> {
    match member(j, key) {
        Some(Json::Text(t)) => Some(t@),
        _ => None,
    }
}

/// The price held by the member `key` of `j` where it is a JSON number;
/// `0` where the member is missing, of another type or no decimal.
pub open spec fn number_price(j: Json, key: Seq<char>) -> u64 {
    match member(j, key) {
        Some(Json::Number(t)) => milli_of(t@),
        _ => 0,
    }
}

/// The price held by the member `key` of `j` where it is a string with a
/// decimal; `0` where the member is missing, of another type or no decimal.
pub open spec fn text_price(j: Json, key: Seq<char>) -> u64 {
    match member(j, key) {
        Some(Json::Text(t)) => milli_of(t@),
        _ => 0,
    }
}

/// Looks up the member `key` of `j`.
pub fn get_member<'a>(j: &'a Json, key: &str) -> (r: Option<&'a Json>)
    ensures
        r is Some ==> member(*j, key@) == Some(*r->0),
        r is None ==> member(*j, key@) is None,
{
    match j {
        Json::Object(fields) => {
            let k = String::from_str(key);
            let mut i: usize = 0;
            while i < fields.len()
                invariant
                    i <= fields@.len(),
                    k@ == key@,
                    member(*j, key@) == member_from(fields@, key@, 0),
                    member_from(fields@, key@, i as int) == member_from(fields@, key@, 0),
                decreases fields@.len() - i,
            {
                if fields[i].0 == k {
                    assert(member_from(fields@, key@, i as int) == Some(fields@[i as int].1));
                    return Some(&fields[i].1);
                }
                i = i + 1;
            }
            None
        },
        _ => None,
    }
}

/// The member `key` of `j`, where it is a string.
pub fn get_text<'a>(j: &'a Json, key: &str) -> (r: Option<&'a String>)
    ensures
        match r {
            Some(t) => text_member(*j, key@) == Some(t@),
            None => text_member(*j, key@) is None,
        },
{
    match get_member(j, key) {
        Some(Json::Text(t)) => Some(t),
        _ => None,
    }
}

/// The price in the member `key` of `j`, a JSON number; `0` where there is none.
pub fn get_number_price(j: &Json, key: &str) -> (r: u64)
    ensures
        r == number_price(*j, key@),
{
    match get_member(j, key) {
        Some(Json::Number(t)) => price_of_text(t.as_str()),
        _ => 0,
    }
}

/// The price in the member `key` of `j`, a string; `0` where there is none.
pub fn get_text_price(j: &Json, key: &str) -> (r: u64)
    ensures
        r == text_price(*j, key@),
{
    match get_member(j, key) {
        Some(Json::Text(t)) => price_of_text(t.as_str()),
        _ => 0,
    }
}

} // verus!
