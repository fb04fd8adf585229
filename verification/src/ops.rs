//! Decoding of the per-operation result payloads: order placement and
//! amendment, cancellation, balances, and the public ticker quotes. Each
//! operation has a predicate saying exactly what its decoder returns for
//! every envelope, and a text-level entry that runs the JSON parse first.

use vstd::prelude::*;
use vstd::string::StringExecFns;
use crate::envelope::{
    envelope_errors, envelope_has_errors, envelope_result, envelope_result_of, result_field,
};
use crate::errors::KrakenError;
use crate::json::{get_field, get_index, json_get, json_index, json_of, parse_json, string_items,
    strings_of_array, JsonVal};
use crate::numeric::{check_float_literal, is_float_literal};

verus! {

/// The outcome of an order placement or amendment: the transaction ids the
/// exchange assigned and its description of the order.
#[derive(Debug, Clone, PartialEq, Eq)]
pub struct OrderResponse {
    pub txid: Vec<String>,
    pub description: String,
}

/// The exchange's description record of an open order, as its open-orders
/// listing carries it.
#[derive(Debug, Clone, PartialEq, Eq)]
pub struct OrderDescription {
    pub pair: String,
    pub order_type: String,
    pub ordertype: String,
    pub price: String,
    pub price2: String,
    pub leverage: String,
    pub order: String,
    pub close: Option<String>,
}

// ---------------------------------------------------------------------
// Cancellation
// ---------------------------------------------------------------------
/// What the cancellation decoder returns for envelope `v`: `count > 0` from
/// a clean envelope whose result carries an unsigned `count`; reported
/// exchange errors verbatim; a missing `result` or `count` by name; any
/// other shape as a parse failure.
pub open spec fn cancel_post(v: JsonVal, r: Result<bool, KrakenError>) -> bool {
    match r {
        Ok(b) => {
            &&& !envelope_has_errors(v)
            &&& result_field(v, "count"@) matches Some(JsonVal::UInt(c)) && b == (c > 0)
        },
        Err(e) => match e {
            KrakenError::ExchangeError(msgs) => envelope_has_errors(v) && msgs.deep_view()
                == envelope_errors(v),
            KrakenError::MissingField(f) => !envelope_has_errors(v) && ((envelope_result(v)
                is None && f@ == "result"@) || (envelope_result(v) is Some && result_field(
                v,
                "count"@,
            ) is None && f@ == "count"@)),
            KrakenError::ParseError(_) => !envelope_has_errors(v) && (result_field(v, "count"@)
                matches Some(c) && !(c is UInt)),
            _ => false,
        },
    }
}

/// Decodes a cancellation envelope.
pub fn cancel_result_of(v: &JsonVal) -> (r: Result<bool, KrakenError>)
    ensures
        cancel_post(*v, r),
{
    let res = match envelope_result_of(v) {
        Ok(x) => x,
        Err(e) => { return Err(e) },
    };
    match json_get(res, "count") {
        Some(c) => match c {
            JsonVal::UInt(n) => Ok(*n > 0),
            _ => Err(
                KrakenError::ParseError(String::from_str("count is not an unsigned integer")),
            ),
        },
        None => Err(KrakenError::MissingField(String::from_str("count"))),
    }
}

/// Decodes a cancellation response body: whether any order was cancelled.
pub fn decode_cancel_order(text: &str) -> (r: Result<bool, KrakenError>)
    ensures
        match json_of(text@) {
            Some(v) => cancel_post(v, r),
            None => r matches Err(KrakenError::ParseError(_)),
        },
{
    match parse_json(text) {
        Some(v) => cancel_result_of(&v),
        None => Err(KrakenError::ParseError(String::from_str("response is not valid JSON"))),
    }
}

// ---------------------------------------------------------------------
// Order placement and amendment
// ---------------------------------------------------------------------
/// The transaction ids of an order result: the string elements of
/// `result.txid`, where that field is an array.
pub open spec fn order_txids(v: JsonVal) -> Option<Seq<Seq<char>>> {
    match result_field(v, "txid"@) {
        Some(JsonVal::Arr(items)) => Some(string_items(items@)),
        _ => None,
    }
}

/// The order description string `result.descr.order`, where it is present
/// and a string; its absence is not an error but falls back to a fixed
/// placeholder.
pub open spec fn order_description(v: JsonVal) -> Option<Seq<char>> {
    match result_field(v, "descr"@) {
        Some(d) => match get_field(d, "order"@) {
            Some(JsonVal::Str(s)) => Some(s@),
            _ => None,
        },
        None => None,
    }
}

/// What the order decoder returns for envelope `v`: the ids and description
/// from a clean envelope; reported exchange errors verbatim; a missing
/// `result` or `txid` by name; a `txid` of the wrong shape as a parse
/// failure.
pub open spec fn order_post(v: JsonVal, r: Result<OrderResponse, KrakenError>) -> bool {
    match r {
        Ok(or) => {
            &&& !envelope_has_errors(v)
            &&& envelope_result(v) is Some
            &&& order_txids(v) matches Some(ids) && or.txid.deep_view() == ids
            &&& match order_description(v) {
                Some(d) => or.description@ == d,
                None => or.description@ == "No description available"@,
            }
        },
        Err(e) => match e {
            KrakenError::ExchangeError(msgs) => envelope_has_errors(v) && msgs.deep_view()
                == envelope_errors(v),
            KrakenError::MissingField(f) => !envelope_has_errors(v) && ((envelope_result(v)
                is None && f@ == "result"@) || (envelope_result(v) is Some && result_field(
                v,
                "txid"@,
            ) is None && f@ == "txid"@)),
            KrakenError::ParseError(_) => !envelope_has_errors(v) && (result_field(v, "txid"@)
                matches Some(t) && !(t is Arr)),
            _ => false,
        },
    }
}

/// Decodes an order placement or amendment envelope.
pub fn order_result_of(v: &JsonVal) -> (r: Result<OrderResponse, KrakenError>)
    ensures
        order_post(*v, r),
{
    let res = match envelope_result_of(v) {
        Ok(x) => x,
        Err(e) => { return Err(e) },
    };
    let ids = match json_get(res, "txid") {
        Some(t) => match t {
            JsonVal::Arr(items) => strings_of_array(items),
            _ => { return Err(KrakenError::ParseError(String::from_str("txid is not an array"))) },
        },
        None => { return Err(KrakenError::MissingField(String::from_str("txid"))) },
    };
    let description = match json_get(res, "descr") {
        Some(d) => match json_get(d, "order") {
            Some(o) => match o {
                JsonVal::Str(s) => s.clone(),
                _ => String::from_str("No description available"),
            },
            None => String::from_str("No description available"),
        },
        None => String::from_str("No description available"),
    };
    Ok(OrderResponse { txid: ids, description })
}

/// Decodes an order placement or amendment response body.
pub fn decode_order_response(text: &str) -> (r: Result<OrderResponse, KrakenError>)
    ensures
        match json_of(text@) {
            Some(v) => order_post(v, r),
            None => r matches Err(KrakenError::ParseError(_)),
        },
{
    match parse_json(text) {
        Some(v) => order_result_of(&v),
        None => Err(KrakenError::ParseError(String::from_str("response is not valid JSON"))),
    }
}

// ---------------------------------------------------------------------
// Balances
// ---------------------------------------------------------------------
/// The balance entries of a result object: the pairs whose value is a
/// string the float grammar accepts, key and numeral kept as they stood,
/// in order; malformed entries are dropped, never fatal.
pub open spec fn balance_entries(entries: Seq<(String, JsonVal)>) -> Seq<(Seq<char>, Seq<char>)>
    decreases entries.len(),
{
    if entries.len() == 0 {
        Seq::empty()
    } else {
        let rest = balance_entries(entries.drop_last());
        match entries.last().1 {
            JsonVal::Str(s) => if is_float_literal(s@) {
                rest.push((entries.last().0@, s@))
            } else {
                rest
            },
            _ => rest,
        }
    }
}

/// What the balance decoder returns for envelope `v`: the kept entries from
/// a clean envelope whose result is an object; reported exchange errors
/// verbatim; a missing `result` by name; a non-object result as a parse
/// failure.
pub open spec fn balance_post(v: JsonVal, r: Result<Vec<(String, String)>, KrakenError>) -> bool {
    match r {
        Ok(out) => {
            &&& !envelope_has_errors(v)
            &&& envelope_result(v) matches Some(JsonVal::Obj(entries)) && out.deep_view()
                == balance_entries(entries@)
        },
        Err(e) => match e {
            KrakenError::ExchangeError(msgs) => envelope_has_errors(v) && msgs.deep_view()
                == envelope_errors(v),
            KrakenError::MissingField(f) => !envelope_has_errors(v) && envelope_result(v) is None
                && f@ == "result"@,
            KrakenError::ParseError(_) => !envelope_has_errors(v) && (envelope_result(v) matches
                Some(res) && !(res is Obj)),
            _ => false,
        },
    }
}

/// Decodes a balance envelope into asset/numeral pairs.
#[verifier::loop_isolation(false)]
pub fn balance_result_of(v: &JsonVal) -> (r: Result<Vec<(String, String)>, KrakenError>)
    ensures
        balance_post(*v, r),
{
    let res = match envelope_result_of(v) {
        Ok(x) => x,
        Err(e) => { return Err(e) },
    };
    let entries = match res {
        JsonVal::Obj(entries) => entries,
        _ => { return Err(KrakenError::ParseError(String::from_str("result is not an object"))) },
    };
    let n = entries.len();
    let mut out: Vec<(String, String)> = Vec::new();
    assert(entries@.take(0).len() == 0);
    let mut i: usize = 0;
    loop
        invariant
            0 <= i <= n,
            n == entries@.len(),
            out.deep_view() == balance_entries(entries@.take(i as int)),
        decreases n - i,
    {
        if i >= n {
            assert(entries@.take(i as int) =~= entries@);
            return Ok(out);
        }
        proof {
            assert(entries@.take(i + 1).drop_last() =~= entries@.take(i as int));
            assert(entries@.take(i + 1).last() == entries@[i as int]);
        }
        let ghost prev = out.deep_view();
        let e = &entries[i];
        match &e.1 {
            JsonVal::Str(s) => {
                if check_float_literal(s.as_str()) {
                    out.push((e.0.clone(), s.clone()));
                    assert(out.deep_view() =~= prev.push((e.0@, s@)));
                }
            },
            _ => {},
        }
        i = i + 1;
    }
}

// ---------------------------------------------------------------------
// Ticker quotes
// ---------------------------------------------------------------------
/// The first field's value of the ticker result object. The exchange keys
/// the result by its own pair alias; one pair was asked for, so the first
/// entry is taken (an empty object has none).
pub open spec fn first_pair_data(v: JsonVal) -> Option<JsonVal> {
    match envelope_result(v) {
        Some(JsonVal::Obj(entries)) => if entries@.len() > 0 {
            Some(entries@[0].1)
        } else {
            None
        },
        _ => None,
    }
}

/// Quote numeral `key` (`b` for bid, `a` for ask) of the pair data: the
/// first element of the array under `key`, where it is a string.
pub open spec fn quote_of(pd: JsonVal, key: Seq<char>) -> Option<Seq<char>> {
    match get_field(pd, key) {
        Some(arr) => match get_index(arr, 0) {
            Some(JsonVal::Str(s)) => Some(s@),
            _ => None,
        },
        None => None,
    }
}

/// The quote numeral under `key` of a ticker envelope.
pub open spec fn ticker_quote(v: JsonVal, key: Seq<char>) -> Option<Seq<char>> {
    match first_pair_data(v) {
        Some(pd) => quote_of(pd, key),
        None => None,
    }
}

/// What the quote decoder returns for envelope `v` and field `key`: the
/// quote numeral as it stood on the wire from a clean envelope; reported
/// exchange errors verbatim; a missing `result` by name; any other shape
/// as a parse failure.
pub open spec fn quote_post(v: JsonVal, key: Seq<char>, r: Result<String, KrakenError>) -> bool {
    match r {
        Ok(s) => !envelope_has_errors(v) && ticker_quote(v, key) == Some(s@),
        Err(e) => match e {
            KrakenError::ExchangeError(msgs) => envelope_has_errors(v) && msgs.deep_view()
                == envelope_errors(v),
            KrakenError::MissingField(f) => !envelope_has_errors(v) && envelope_result(v) is None
                && f@ == "result"@,
            KrakenError::ParseError(_) => !envelope_has_errors(v) && envelope_result(v) is Some
                && ticker_quote(v, key) is None,
            _ => false,
        },
    }
}

/// Decodes the quote numeral under `key` from a ticker envelope.
pub fn ticker_quote_of(v: &JsonVal, key: &str) -> (r: Result<String, KrakenError>)
    ensures
        quote_post(*v, key@, r),
{
    let res = match envelope_result_of(v) {
        Ok(x) => x,
        Err(e) => { return Err(e) },
    };
    let entries = match res {
        JsonVal::Obj(entries) => entries,
        _ => { return Err(KrakenError::ParseError(String::from_str("result is not an object"))) },
    };
    if entries.len() == 0 {
        return Err(KrakenError::ParseError(String::from_str("missing pair data")));
    }
    let pd = &entries[0].1;
    let arr = match json_get(pd, key) {
        Some(a) => a,
        None => { return Err(KrakenError::ParseError(String::from_str("missing quote field"))) },
    };
    let first = match json_index(arr, 0) {
        Some(x) => x,
        None => { return Err(KrakenError::ParseError(String::from_str("missing quote entry"))) },
    };
    match first {
        JsonVal::Str(s) => Ok(s.clone()),
        _ => Err(KrakenError::ParseError(String::from_str("quote is not a string"))),
    }
}

/// Decodes the bid price numeral from a ticker response body.
pub fn decode_bid(text: &str) -> (r: Result<String, KrakenError>)
    ensures
        match json_of(text@) {
            Some(v) => quote_post(v, "b"@, r),
            None => r matches Err(KrakenError::ParseError(_)),
        },
{
    match parse_json(text) {
        Some(v) => ticker_quote_of(&v, "b"),
        None => Err(KrakenError::ParseError(String::from_str("response is not valid JSON"))),
    }
}

/// Decodes the ask price numeral from a ticker response body.
pub fn decode_ask(text: &str) -> (r: Result<String, KrakenError>)
    ensures
        match json_of(text@) {
            Some(v) => quote_post(v, "a"@, r),
            None => r matches Err(KrakenError::ParseError(_)),
        },
{
    match parse_json(text) {
        Some(v) => ticker_quote_of(&v, "a"),
        None => Err(KrakenError::ParseError(String::from_str("response is not valid JSON"))),
    }
}

// ---------------------------------------------------------------------
// Order book from the ticker arrays
// ---------------------------------------------------------------------
/// The numeral strings among `items`, in order: string elements the float
/// grammar accepts; anything else is dropped, never fatal.
pub open spec fn numeral_items(items: Seq<JsonVal>) -> Seq<Seq<char>>
    decreases items.len(),
{
    if items.len() == 0 {
        Seq::empty()
    } else {
        let rest = numeral_items(items.drop_last());
        match items.last() {
            JsonVal::Str(s) => if is_float_literal(s@) {
                rest.push(s@)
            } else {
                rest
            },
            _ => rest,
        }
    }
}

/// The pair data of `v` holds array fields `b` and `a`.
pub open spec fn orderbook_shape_ok(v: JsonVal) -> bool {
    first_pair_data(v) matches Some(pd) && get_field(pd, "b"@) matches Some(JsonVal::Arr(_)) &&
        get_field(pd, "a"@) matches Some(JsonVal::Arr(_))
}

/// What the order book decoder returns for envelope `v`: the numeral
/// strings of the `b` and `a` arrays from a clean envelope; reported
/// exchange errors verbatim; a missing `result` by name; any other shape
/// as a parse failure.
pub open spec fn orderbook_post(
    v: JsonVal,
    r: Result<(Vec<String>, Vec<String>), KrakenError>,
) -> bool {
    match r {
        Ok(ba) => {
            &&& !envelope_has_errors(v)
            &&& first_pair_data(v) matches Some(pd) && get_field(pd, "b"@) matches Some(
                JsonVal::Arr(bi),
            ) && get_field(pd, "a"@) matches Some(JsonVal::Arr(ai)) && ba.0.deep_view()
                == numeral_items(bi@) && ba.1.deep_view() == numeral_items(ai@)
        },
        Err(e) => match e {
            KrakenError::ExchangeError(msgs) => envelope_has_errors(v) && msgs.deep_view()
                == envelope_errors(v),
            KrakenError::MissingField(f) => !envelope_has_errors(v) && envelope_result(v) is None
                && f@ == "result"@,
            KrakenError::ParseError(_) => !envelope_has_errors(v) && envelope_result(v) is Some
                && !orderbook_shape_ok(v),
            _ => false,
        },
    }
}

/// Collects the numeral strings of `items`, dropping the rest.
fn numerals_of_array(items: &Vec<JsonVal>) -> (r: Vec<String>)
    ensures
        r.deep_view() == numeral_items(items@),
{
    let n = items.len();
    let mut r: Vec<String> = Vec::new();
    assert(items@.take(0).len() == 0);
    let mut i: usize = 0;
    loop
        invariant
            0 <= i <= n,
            n == items@.len(),
            r.deep_view() == numeral_items(items@.take(i as int)),
        decreases n - i,
    {
        if i >= n {
            assert(items@.take(i as int) =~= items@);
            return r;
        }
        proof {
            assert(items@.take(i + 1).drop_last() =~= items@.take(i as int));
            assert(items@.take(i + 1).last() == items@[i as int]);
        }
        let ghost prev = r.deep_view();
        match &items[i] {
            JsonVal::Str(s) => {
                if check_float_literal(s.as_str()) {
                    r.push(s.clone());
                    assert(r.deep_view() =~= prev.push(s@));
                }
            },
            _ => {},
        }
        i = i + 1;
    }
}

/// Decodes the bid and ask arrays of a ticker envelope into numeral
/// strings, dropping entries the float grammar refuses.
pub fn orderbook_result_of(v: &JsonVal) -> (r: Result<(Vec<String>, Vec<String>), KrakenError>)
    ensures
        orderbook_post(*v, r),
{
    let res = match envelope_result_of(v) {
        Ok(x) => x,
        Err(e) => { return Err(e) },
    };
    let entries = match res {
        JsonVal::Obj(entries) => entries,
        _ => { return Err(KrakenError::ParseError(String::from_str("result is not an object"))) },
    };
    if entries.len() == 0 {
        return Err(KrakenError::ParseError(String::from_str("missing pair data")));
    }
    let pd = &entries[0].1;
    let bids = match json_get(pd, "b") {
        Some(a) => match a {
            JsonVal::Arr(items) => numerals_of_array(items),
            _ => { return Err(KrakenError::ParseError(String::from_str("missing bids"))) },
        },
        None => { return Err(KrakenError::ParseError(String::from_str("missing bids"))) },
    };
    let asks = match json_get(pd, "a") {
        Some(a) => match a {
            JsonVal::Arr(items) => numerals_of_array(items),
            _ => { return Err(KrakenError::ParseError(String::from_str("missing asks"))) },
        },
        None => { return Err(KrakenError::ParseError(String::from_str("missing asks"))) },
    };
    Ok((bids, asks))
}

/// Decodes a ticker response body into its bid and ask numeral arrays.
pub fn decode_orderbook(text: &str) -> (r: Result<(Vec<String>, Vec<String>), KrakenError>)
    ensures
        match json_of(text@) {
            Some(v) => orderbook_post(v, r),
            None => r matches Err(KrakenError::ParseError(_)),
        },
{
    match parse_json(text) {
        Some(v) => orderbook_result_of(&v),
        None => Err(KrakenError::ParseError(String::from_str("response is not valid JSON"))),
    }
}

/// Decodes a balance response body into asset/numeral pairs, dropping
/// entries that are not numeric strings.
pub fn decode_balance(text: &str) -> (r: Result<Vec<(String, String)>, KrakenError>)
    ensures
        match json_of(text@) {
            Some(v) => balance_post(v, r),
            None => r matches Err(KrakenError::ParseError(_)),
        },
{
    match parse_json(text) {
        Some(v) => balance_result_of(&v),
        None => Err(KrakenError::ParseError(String::from_str("response is not valid JSON"))),
    }
}

} // verus!
