//! The response envelope: every REST reply arrives as
//! `{"error": [...], "result": ...}`, and this module separates reported
//! exchange errors from the result payload.

use vstd::prelude::*;
use vstd::string::StringExecFns;
use crate::errors::KrakenError;
use crate::json::{get_field, json_get, string_items, strings_of_array, JsonVal};

verus! {

/// The string elements of the top-level `error` array, in order; empty
/// where the field is absent or not an array.
pub open spec fn envelope_errors(v: JsonVal) -> Seq<Seq<char>> {
    match get_field(v, "error"@) {
        Some(JsonVal::Arr(items)) => string_items(items@),
        _ => Seq::empty(),
    }
}

/// The envelope reports errors: the top-level `error` field is a non-empty
/// array.
pub open spec fn envelope_has_errors(v: JsonVal) -> bool {
    match get_field(v, "error"@) {
        Some(JsonVal::Arr(items)) => items@.len() > 0,
        _ => false,
    }
}

/// The top-level `result` field.
pub open spec fn envelope_result(v: JsonVal) -> Option<JsonVal> {
    get_field(v, "result"@)
}

/// The field `key` of the `result` object.
pub open spec fn result_field(v: JsonVal, key: Seq<char>) -> Option<JsonVal> {
    match envelope_result(v) {
        Some(res) => get_field(res, key),
        None => None,
    }
}

/// Classifies one envelope. A non-empty `error` array wins and is surfaced
/// verbatim — the result is not looked at then. With no reported errors,
/// the `result` value is handed on, or its absence reported.
pub fn envelope_result_of<'a>(v: &'a JsonVal) -> (r: Result<&'a JsonVal, KrakenError>)
    ensures
        match r {
            Ok(res) => !envelope_has_errors(*v) && envelope_result(*v) == Some(*res),
            Err(e) => match e {
                KrakenError::ExchangeError(msgs) => envelope_has_errors(*v) && msgs.deep_view()
                    == envelope_errors(*v),
                KrakenError::MissingField(f) => !envelope_has_errors(*v) && envelope_result(*v)
                    is None && f@ == "result"@,
                _ => false,
            },
        },
{
    match json_get(v, "error") {
        Some(e) => match e {
            JsonVal::Arr(items) => {
                if items.len() > 0 {
                    return Err(KrakenError::ExchangeError(strings_of_array(items)));
                }
            },
            _ => {},
        },
        None => {},
    }
    match json_get(v, "result") {
        Some(res) => Ok(res),
        None => Err(KrakenError::MissingField(String::from_str("result"))),
    }
}

} // verus!
