//! A JSON value mirrored into plain data, and the lookups the response
//! decoders need. Parsing itself is delegated to serde_json behind a trusted
//! wrapper; everything downstream of the parse works on [`JsonVal`] and is
//! verified.

use vstd::prelude::*;
use vstd::utf8::{decode_utf8, encode_utf8};
use vstd::string::StringSliceAdditionalSpecFns;

verus! {

broadcast use vstd::utf8::encode_utf8_decode_utf8;

/// A JSON document as plain data.
///
/// Numbers carry their exact unsigned 64-bit value when they have one; any
/// other number (negative, fractional, out of range) is kept only as the
/// fact that a number stood there, which is all the decoding rules ever ask
/// of one. An object keeps its fields as a sequence of pairs in arrival
/// order; a lookup takes the first pair with the sought key.
#[derive(Debug, PartialEq, Eq)]
pub enum JsonVal {
    Null,
    Bool(bool),
    /// A JSON number with an exact unsigned 64-bit value.
    UInt(u64),
    /// Any other JSON number.
    NumOther,
    Str(String),
    Arr(Vec<JsonVal>),
    Obj(Vec<(String, JsonVal)>),
}

/// The value under the first pair of `entries` whose key is `key`.
pub open spec fn lookup_obj(entries: Seq<(String, JsonVal)>, key: Seq<char>) -> Option<JsonVal>
    decreases entries.len(),
{
    if entries.len() == 0 {
        None
    } else if entries[0].0@ == key {
        Some(entries[0].1)
    } else {
        lookup_obj(entries.drop_first(), key)
    }
}

/// The field `key` of `v`, when `v` is an object holding it.
pub open spec fn get_field(v: JsonVal, key: Seq<char>) -> Option<JsonVal> {
    match v {
        JsonVal::Obj(entries) => lookup_obj(entries@, key),
        _ => None,
    }
}

/// The element `i` of `v`, when `v` is an array reaching that far.
pub open spec fn get_index(v: JsonVal, i: int) -> Option<JsonVal> {
    match v {
        JsonVal::Arr(items) => if 0 <= i < items@.len() {
            Some(items@[i])
        } else {
            None
        },
        _ => None,
    }
}

/// The views of the string elements of `items`, in order, other elements
/// dropped.
pub open spec fn string_items(items: Seq<JsonVal>) -> Seq<Seq<char>>
    decreases items.len(),
{
    if items.len() == 0 {
        Seq::empty()
    } else {
        let rest = string_items(items.drop_last());
        match items.last() {
            JsonVal::Str(s) => rest.push(s@),
            _ => rest,
        }
    }
}

/// String equality by contents.
pub fn str_eq(a: &str, b: &str) -> (r: bool)
    ensures
        r == (a@ == b@),
{
    let ab = a.as_bytes();
    let bb = b.as_bytes();
    let n = ab.len();
    if n != bb.len() {
        return false;
    }
    let mut i: usize = 0;
    loop
        invariant
            0 <= i <= n,
            n == ab@.len() == bb@.len(),
            ab@ == a.spec_bytes(),
            bb@ == b.spec_bytes(),
            forall|j: int| 0 <= j < i ==> ab@[j] == bb@[j],
        decreases n - i,
    {
        if i >= n {
            assert(ab@ =~= bb@);
            assert(decode_utf8(encode_utf8(a@)) == decode_utf8(encode_utf8(b@)));
            return true;
        }
        if ab[i] != bb[i] {
            return false;
        }
        i = i + 1;
    }
}

/// Looks `key` up among `entries`, first match wins.
pub fn obj_get<'a>(entries: &'a Vec<(String, JsonVal)>, key: &str) -> (r: Option<&'a JsonVal>)
    ensures
        match r {
            Some(v) => lookup_obj(entries@, key@) == Some(*v),
            None => lookup_obj(entries@, key@) is None,
        },
{
    let n = entries.len();
    assert(entries@.skip(0) =~= entries@);
    let mut i: usize = 0;
    loop
        invariant
            0 <= i <= n,
            n == entries@.len(),
            lookup_obj(entries@, key@) == lookup_obj(entries@.skip(i as int), key@),
        decreases n - i,
    {
        if i >= n {
            assert(entries@.skip(i as int).len() == 0);
            return None;
        }
        let e = &entries[i];
        assert(entries@.skip(i as int)[0] == entries@[i as int]);
        if str_eq(e.0.as_str(), key) {
            return Some(&e.1);
        }
        assert(entries@.skip(i as int).drop_first() =~= entries@.skip(i + 1));
        i = i + 1;
    }
}

/// The field `key` of `v`, when `v` is an object holding it.
pub fn json_get<'a>(v: &'a JsonVal, key: &str) -> (r: Option<&'a JsonVal>)
    ensures
        match r {
            Some(x) => get_field(*v, key@) == Some(*x),
            None => get_field(*v, key@) is None,
        },
{
    match v {
        JsonVal::Obj(entries) => obj_get(entries, key),
        _ => None,
    }
}

/// The element `i` of `v`, when `v` is an array reaching that far.
pub fn json_index<'a>(v: &'a JsonVal, i: usize) -> (r: Option<&'a JsonVal>)
    ensures
        match r {
            Some(x) => get_index(*v, i as int) == Some(*x),
            None => get_index(*v, i as int) is None,
        },
{
    match v {
        JsonVal::Arr(items) => if i < items.len() {
            Some(&items[i])
        } else {
            None
        },
        _ => None,
    }
}

/// Collects the string elements of `items`, in order, dropping the rest.
pub fn strings_of_array(items: &Vec<JsonVal>) -> (r: Vec<String>)
    ensures
        r.deep_view() == string_items(items@),
{
    let n = items.len();
    let mut r: Vec<String> = Vec::new();
    assert(items@.take(0).len() == 0);
    let mut i: usize = 0;
    loop
        invariant
            0 <= i <= n,
            n == items@.len(),
            r.deep_view() == string_items(items@.take(i as int)),
        decreases n - i,
    {
        if i >= n {
            assert(items@.take(i as int) =~= items@);
            return r;
        }
        proof {
            assert(items@.take(i + 1).drop_last() =~= items@.take(i as int));
            assert(items@.take(i + 1).last() == items@[i as int]);
        }
        let ghost prev = r.deep_view();
        match &items[i] {
            JsonVal::Str(s) => {
                r.push(s.clone());
                assert(r.deep_view() =~= prev.push(s@));
            },
            _ => {
                assert(r.deep_view() == prev);
            },
        }
        i = i + 1;
    }
}

/// What the JSON parser makes of a text: the mirrored document, or nothing
/// where the text is not well-formed JSON. Stands for
/// `serde_json::from_str::<serde_json::Value>` composed with the one-to-one
/// mirror of its result into [`JsonVal`].
pub uninterp spec fn json_of(s: Seq<char>) -> Option<JsonVal>;

#[verifier::external_type_specification]
#[verifier::external_body]
pub struct ExValue(serde_json::Value);

/// Relies on `serde_json::from_str::<serde_json::Value>`: the text is parsed
/// as a JSON document, or refused. The parsed tree is handed to
/// `value_to_json`, which mirrors it variant by variant.
#[verifier::external_body]
pub fn parse_json(text: &str) -> (r: Option<JsonVal>)
    ensures
        r == json_of(text@),
{
    match serde_json::from_str::<serde_json::Value>(text) {
        Ok(v) => Some(value_to_json(&v)),
        Err(_) => None,
    }
}

/// Relies on the shape of `serde_json::Value`: each variant is carried over
/// one to one, a number keeping its `as_u64` value when it has one, an
/// object its fields in the order `serde_json::Map` iterates them. Serves
/// only `parse_json` above.
#[verifier::external_body]
fn value_to_json(v: &serde_json::Value) -> JsonVal {
    match v {
        serde_json::Value::Null => JsonVal::Null,
        serde_json::Value::Bool(b) => JsonVal::Bool(*b),
        serde_json::Value::Number(n) => match n.as_u64() {
            Some(u) => JsonVal::UInt(u),
            None => JsonVal::NumOther,
        },
        serde_json::Value::String(s) => JsonVal::Str(s.clone()),
        serde_json::Value::Array(a) => JsonVal::Arr(a.iter().map(value_to_json).collect()),
        serde_json::Value::Object(m) => JsonVal::Obj(
            m.iter().map(|(k, x)| (k.clone(), value_to_json(x))).collect(),
        ),
    }
}

} // verus!
