//! Decoding of the public depth (order book) endpoint: price/volume levels
//! from the `bids` and `asks` arrays, keyed by the exchange's pair alias.
//! This endpoint is unauthenticated and its client reports failures through
//! [`MarketError`] with a fixed message per missing piece.

use vstd::prelude::*;
use vstd::string::StringExecFns;
use crate::errors::MarketError;
use crate::json::{get_field, get_index, json_get, json_index, json_of, parse_json, JsonVal};
use crate::numeric::{check_float_literal, is_float_literal};

verus! {

/// One depth level as the wire carries it: the price and volume numerals of
/// an entry whose first two elements are strings the float grammar accepts;
/// anything else yields nothing.
pub open spec fn level_of(e: JsonVal) -> Option<(Seq<char>, Seq<char>)> {
    match get_index(e, 0) {
        Some(JsonVal::Str(p)) => match get_index(e, 1) {
            Some(JsonVal::Str(vol)) => if is_float_literal(p@) && is_float_literal(vol@) {
                Some((p@, vol@))
            } else {
                None
            },
            _ => None,
        },
        _ => None,
    }
}

/// The levels of a depth array, in order; malformed entries are dropped,
/// never fatal.
pub open spec fn depth_levels(items: Seq<JsonVal>) -> Seq<(Seq<char>, Seq<char>)>
    decreases items.len(),
{
    if items.len() == 0 {
        Seq::empty()
    } else {
        let rest = depth_levels(items.drop_last());
        match level_of(items.last()) {
            Some(pv) => rest.push(pv),
            None => rest,
        }
    }
}

/// The pair data of a depth reply: the first value of the `result` object.
pub open spec fn depth_pair_data(v: JsonVal) -> Option<JsonVal> {
    match get_field(v, "result"@) {
        Some(JsonVal::Obj(entries)) => if entries@.len() > 0 {
            Some(entries@[0].1)
        } else {
            None
        },
        _ => None,
    }
}

/// The first failure a depth reply runs into, by its fixed message: no
/// `result` object, an empty one, or `bids`/`asks` missing or misshapen —
/// in that order of checks.
pub open spec fn depth_err_msg(v: JsonVal) -> Option<Seq<char>> {
    match get_field(v, "result"@) {
        Some(JsonVal::Obj(entries)) => if entries@.len() == 0 {
            Some("Missing pair data"@)
        } else {
            let pd = entries@[0].1;
            if !(get_field(pd, "bids"@) matches Some(JsonVal::Arr(_))) {
                Some("Missing bids"@)
            } else if !(get_field(pd, "asks"@) matches Some(JsonVal::Arr(_))) {
                Some("Missing asks"@)
            } else {
                None
            }
        },
        _ => Some("Missing result field"@),
    }
}

/// What the depth decoder returns for document `v`: the price/volume levels
/// of both sides where the shape holds, else the first failure's message.
pub open spec fn depth_post(
    v: JsonVal,
    r: Result<(Vec<(String, String)>, Vec<(String, String)>), MarketError>,
) -> bool {
    match r {
        Ok(ba) => {
            &&& depth_err_msg(v) is None
            &&& depth_pair_data(v) matches Some(pd) && get_field(pd, "bids"@) matches Some(
                JsonVal::Arr(bi),
            ) && get_field(pd, "asks"@) matches Some(JsonVal::Arr(ai)) && ba.0.deep_view()
                == depth_levels(bi@) && ba.1.deep_view() == depth_levels(ai@)
        },
        Err(me) => depth_err_msg(v) == Some(me.message@),
    }
}

/// Extracts one level from a depth entry, where its first two elements are
/// numeral strings.
fn level_of_entry(e: &JsonVal) -> (r: Option<(String, String)>)
    ensures
        match r {
            Some(pv) => level_of(*e) == Some((pv.0@, pv.1@)),
            None => level_of(*e) is None,
        },
{
    let p = match json_index(e, 0) {
        Some(x) => match x {
            JsonVal::Str(s) => s,
            _ => { return None },
        },
        None => { return None },
    };
    let vol = match json_index(e, 1) {
        Some(x) => match x {
            JsonVal::Str(s) => s,
            _ => { return None },
        },
        None => { return None },
    };
    if check_float_literal(p.as_str()) && check_float_literal(vol.as_str()) {
        Some((p.clone(), vol.clone()))
    } else {
        None
    }
}

/// Collects the well-formed levels of a depth array, dropping the rest.
fn levels_of_array(items: &Vec<JsonVal>) -> (r: Vec<(String, String)>)
    ensures
        r.deep_view() == depth_levels(items@),
{
    let n = items.len();
    let mut r: Vec<(String, String)> = Vec::new();
    assert(items@.take(0).len() == 0);
    let mut i: usize = 0;
    loop
        invariant
            0 <= i <= n,
            n == items@.len(),
            r.deep_view() == depth_levels(items@.take(i as int)),
        decreases n - i,
    {
        if i >= n {
            assert(items@.take(i as int) =~= items@);
            return r;
        }
        proof {
            assert(items@.take(i + 1).drop_last() =~= items@.take(i as int));
            assert(items@.take(i + 1).last() == items@[i as int]);
        }
        let ghost prev = r.deep_view();
        match level_of_entry(&items[i]) {
            Some(pv) => {
                let ghost pvv = (pv.0@, pv.1@);
                r.push(pv);
                assert(r.deep_view() =~= prev.push(pvv));
            },
            None => {},
        }
        i = i + 1;
    }
}

/// Decodes a depth document into its bid and ask levels.
pub fn depth_result_of(v: &JsonVal) -> (r: Result<
    (Vec<(String, String)>, Vec<(String, String)>),
    MarketError,
>)
    ensures
        depth_post(*v, r),
{
    let res = match json_get(v, "result") {
        Some(x) => x,
        None => {
            return Err(MarketError { message: String::from_str("Missing result field") });
        },
    };
    let entries = match res {
        JsonVal::Obj(entries) => entries,
        _ => {
            return Err(MarketError { message: String::from_str("Missing result field") });
        },
    };
    if entries.len() == 0 {
        return Err(MarketError { message: String::from_str("Missing pair data") });
    }
    let pd = &entries[0].1;
    let bids = match json_get(pd, "bids") {
        Some(a) => match a {
            JsonVal::Arr(items) => levels_of_array(items),
            _ => { return Err(MarketError { message: String::from_str("Missing bids") }) },
        },
        None => { return Err(MarketError { message: String::from_str("Missing bids") }) },
    };
    let asks = match json_get(pd, "asks") {
        Some(a) => match a {
            JsonVal::Arr(items) => levels_of_array(items),
            _ => { return Err(MarketError { message: String::from_str("Missing asks") }) },
        },
        None => { return Err(MarketError { message: String::from_str("Missing asks") }) },
    };
    Ok((bids, asks))
}

/// Decodes a depth response body into its bid and ask levels.
pub fn decode_depth(text: &str) -> (r: Result<
    (Vec<(String, String)>, Vec<(String, String)>),
    MarketError,
>)
    ensures
        match json_of(text@) {
            Some(v) => depth_post(v, r),
            None => r matches Err(_),
        },
{
    match parse_json(text) {
        Some(v) => depth_result_of(&v),
        None => Err(MarketError { message: String::from_str("invalid JSON") }),
    }
}

} // verus!
