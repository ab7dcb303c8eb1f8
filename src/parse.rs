//! Reading query and candidate text, through serde_json's reader.

use vstd::prelude::*;
use crate::json::{JsonNumber, JsonValue};
use crate::classify::{DecodeError, try_into_operator, decode_error, decodes_to};
use crate::matcher::ObjMatcher;

verus! {

/// serde_json's tree, carried through opaquely and read through the
/// accessors below.
#[verifier::external_type_specification]
#[verifier::external_body]
pub struct ExSerdeValue(serde_json::Value);

/// serde_json's error, handed on unchanged in `QueryError::Syntax`.
#[verifier::external_type_specification]
#[verifier::external_body]
pub struct ExSerdeError(serde_json::Error);

/// The tree that a `serde_json::Value` holds, in this library's terms: a
/// number as serde_json stores it (a double as its bits), an object's members
/// in the order in which its map yields them.
pub uninterp spec fn tree_of(v: serde_json::Value) -> JsonValue;

/// The tree that serde_json reads from the text `s`, or `None` where it
/// rejects the text.
pub uninterp spec fn text_tree(s: Seq<char>) -> Option<JsonValue>;

/// Relies on serde_json::Value::is_null: true exactly for null.
pub assume_specification[ serde_json::Value::is_null ](v: &serde_json::Value) -> (r: bool)
    ensures
        r == (tree_of(*v) == JsonValue::Null),
;

/// Relies on serde_json::Value::as_bool: the boolean, for a boolean only.
pub assume_specification[ serde_json::Value::as_bool ](v: &serde_json::Value) -> (r: Option<bool>)
    ensures
        r == match tree_of(*v) {
            JsonValue::Bool(b) => Some(b),
            _ => None::<bool>,
        },
;

/// Relies on serde_json::Value::as_u64: the value of a non-negative integer.
pub assume_specification[ serde_json::Value::as_u64 ](v: &serde_json::Value) -> (r: Option<u64>)
    ensures
        r == match tree_of(*v) {
            JsonValue::Number(JsonNumber::PosInt(n)) => Some(n),
            _ => None::<u64>,
        },
;

/// Relies on serde_json::Value::as_i64: the value of an integer that fits.
pub assume_specification[ serde_json::Value::as_i64 ](v: &serde_json::Value) -> (r: Option<i64>)
    ensures
        r == match tree_of(*v) {
            JsonValue::Number(JsonNumber::PosInt(n)) => if n <= i64::MAX as u64 {
                Some(n as i64)
            } else {
                None::<i64>
            },
            JsonValue::Number(JsonNumber::NegInt(n)) => Some(n),
            _ => None::<i64>,
        },
;

/// Relies on serde_json::Value::as_str: the text of a string.
pub assume_specification<'a>[ serde_json::Value::as_str ](v: &'a serde_json::Value) -> (r: Option<
    &'a str,
>)
    ensures
        match tree_of(*v) {
            JsonValue::String(x) => r matches Some(t) && t@ == x@,
            _ => r is None,
        },
;

/// Relies on serde_json::Value::as_array: the elements of an array.
pub assume_specification<'a>[ serde_json::Value::as_array ](v: &'a serde_json::Value) -> (r: Option<
    &'a Vec<serde_json::Value>,
>)
    ensures
        match tree_of(*v) {
            JsonValue::Array(xs) => r matches Some(a) && a@.len() == xs@.len() && forall|i: int|
                0 <= i < a@.len() ==> tree_of(#[trigger] a@[i]) == xs@[i],
            _ => r is None,
        },
;

/// Relies on serde_json::from_str, reading a `serde_json::Value`.
#[verifier::external_body]
fn read_text(s: &str) -> (r: Result<serde_json::Value, serde_json::Error>)
    ensures
        match r {
            Ok(v) => text_tree(s@) == Some(tree_of(v)),
            Err(_) => text_tree(s@) is None,
        },
{
    serde_json::from_str::<serde_json::Value>(s)
}

/// Relies on serde_json::Value::as_f64 and f64::to_bits: the bits of a number
/// stored as a double; some double for any other number; nothing for a value
/// that is no number.
#[verifier::external_body]
fn double_bits(v: &serde_json::Value) -> (r: Option<u64>)
    ensures
        match tree_of(*v) {
            JsonValue::Number(JsonNumber::Float(b)) => r == Some(b),
            JsonValue::Number(_) => r is Some,
            _ => r is None,
        },
{
    v.as_f64().map(|x| x.to_bits())
}

/// Relies on serde_json::Value::as_object and serde_json::Map::iter: the
/// members of an object, in the map's order, names and values copied.
#[verifier::external_body]
fn object_members(v: &serde_json::Value) -> (r: Option<Vec<(String, serde_json::Value)>>)
    ensures
        match tree_of(*v) {
            JsonValue::Object(ms) => r matches Some(es) && es@.len() == ms@.len() && forall|i: int|
                0 <= i < es@.len() ==> (#[trigger] es@[i]).0@ == ms@[i].0@ && tree_of(es@[i].1)
                    == ms@[i].1,
            _ => r is None,
        },
{
    v.as_object().map(|m| m.iter().map(|(k, x)| (k.clone(), x.clone())).collect())
}

/// The two trees are the same, strings compared by their characters.
pub open spec fn same_tree(a: JsonValue, b: JsonValue) -> bool
    decreases a,
{
    match a {
        JsonValue::Array(xs) => match b {
            JsonValue::Array(ys) => xs@.len() == ys@.len() && forall|i: int|
                0 <= i < xs@.len() ==> same_tree(#[trigger] xs@[i], ys@[i]),
            _ => false,
        },
        JsonValue::Object(xs) => match b {
            JsonValue::Object(ys) => xs@.len() == ys@.len() && forall|i: int|
                0 <= i < xs@.len() ==> (#[trigger] xs@[i]).0@ == ys@[i].0@ && same_tree(
                    xs@[i].1,
                    ys@[i].1,
                ),
            _ => false,
        },
        JsonValue::String(x) => match b {
            JsonValue::String(y) => x@ == y@,
            _ => false,
        },
        _ => a == b,
    }
}

/// Whether `t` nests at most `d` levels deep (a scalar is one level).
pub open spec fn fits_depth(t: JsonValue, d: int) -> bool
    decreases t,
{
    d >= 1 && match t {
        JsonValue::Array(xs) => forall|i: int| 0 <= i < xs@.len() ==> fits_depth(#[trigger] xs@[i], d - 1),
        JsonValue::Object(ms) => forall|i: int|
            0 <= i < ms@.len() ==> fits_depth(#[trigger] ms@[i].1, d - 1),
        _ => true,
    }
}

/// The deepest tree that is taken over from serde_json. Its reader stops far
/// sooner, at 128 levels.
pub const MAX_DEPTH: usize = 1024;

/// Why text could not be turned into a tree or a matcher.
#[derive(Debug)]
pub enum QueryError {
    /// serde_json rejected the text; its error, unchanged.
    Syntax(serde_json::Error),
    /// The tree nests deeper than `MAX_DEPTH`.
    TooDeep,
    /// The text is JSON but not a query.
    Decode(DecodeError),
}

/// Takes over the tree that `v` holds, where it nests at most `depth` levels.
fn convert(v: &serde_json::Value, depth: usize) -> (r: Option<JsonValue>)
    ensures
        r is Some <==> fits_depth(tree_of(*v), depth as int),
        r matches Some(j) ==> same_tree(j, tree_of(*v)),
    decreases depth,
{
    if depth == 0 {
        return None;
    }
    let inner = depth - 1;
    if v.is_null() {
        return Some(JsonValue::Null);
    }
    match v.as_bool() {
        Some(b) => {
            return Some(JsonValue::Bool(b));
        },
        None => {},
    }
    match v.as_u64() {
        Some(n) => {
            return Some(JsonValue::Number(JsonNumber::PosInt(n)));
        },
        None => {},
    }
    match v.as_i64() {
        Some(n) => {
            return Some(JsonValue::Number(JsonNumber::NegInt(n)));
        },
        None => {},
    }
    match double_bits(v) {
        Some(bits) => {
            return Some(JsonValue::Number(JsonNumber::Float(bits)));
        },
        None => {},
    }
    match v.as_str() {
        Some(s) => {
            return Some(JsonValue::String(s.to_owned()));
        },
        None => {},
    }
    match v.as_array() {
        Some(items) => {
            let ghost xs = tree_of(*v)->Array_0@;
            let mut out: Vec<JsonValue> = Vec::new();
            let mut i: usize = 0;
            while i < items.len()
                invariant
                    0 <= i <= items.len(),
                    inner < depth,
                    inner == depth - 1,
                    tree_of(*v) is Array,
                    xs == tree_of(*v)->Array_0@,
                    items@.len() == xs.len(),
                    forall|j: int| 0 <= j < items@.len() ==> tree_of(#[trigger] items@[j]) == xs[j],
                    out@.len() == i,
                    forall|j: int| 0 <= j < i ==> same_tree(#[trigger] out@[j], xs[j]),
                    forall|j: int| 0 <= j < i ==> fits_depth(#[trigger] xs[j], inner as int),
                decreases items.len() - i,
            {
                match convert(&items[i], inner) {
                    Some(x) => {
                        out.push(x);
                    },
                    None => {
                        return None;
                    },
                }
                i = i + 1;
            }
            return Some(JsonValue::Array(out));
        },
        None => {},
    }
    match object_members(v) {
        Some(members) => {
            let ghost ms = tree_of(*v)->Object_0@;
            let mut out: Vec<(String, JsonValue)> = Vec::new();
            let mut i: usize = 0;
            while i < members.len()
                invariant
                    0 <= i <= members.len(),
                    inner < depth,
                    inner == depth - 1,
                    tree_of(*v) is Object,
                    ms == tree_of(*v)->Object_0@,
                    members@.len() == ms.len(),
                    forall|j: int|
                        0 <= j < members@.len() ==> (#[trigger] members@[j]).0@ == ms[j].0@
                            && tree_of(members@[j].1) == ms[j].1,
                    out@.len() == i,
                    forall|j: int|
                        0 <= j < i ==> (#[trigger] out@[j]).0@ == ms[j].0@ && same_tree(
                            out@[j].1,
                            ms[j].1,
                        ),
                    forall|j: int| 0 <= j < i ==> fits_depth(#[trigger] ms[j].1, inner as int),
                decreases members.len() - i,
            {
                proof {
                    assert(members@[i as int].0@ == ms[i as int].0@);
                }
                match convert(&members[i].1, inner) {
                    Some(x) => {
                        out.push((members[i].0.clone(), x));
                    },
                    None => {
                        return None;
                    },
                }
                i = i + 1;
            }
            return Some(JsonValue::Object(out));
        },
        None => {},
    }
    None
}

/// Reads JSON text into a tree: serde_json's reading of it, or its error.
pub fn parse_value(s: &str) -> (r: Result<JsonValue, QueryError>)
    ensures
        text_tree(s@) is None ==> r matches Err(QueryError::Syntax(_)),
        text_tree(s@) matches Some(t) ==> {
            &&& r is Ok <==> fits_depth(t, MAX_DEPTH as int)
            &&& (r matches Ok(v) ==> same_tree(v, t))
            &&& (r is Err ==> (r matches Err(QueryError::TooDeep)))
        },
{
    match read_text(s) {
        Ok(v) => match convert(&v, MAX_DEPTH) {
            Some(j) => Ok(j),
            None => Err(QueryError::TooDeep),
        },
        Err(e) => Err(QueryError::Syntax(e)),
    }
}

/// Reads query text and compiles it: serde_json's error where it rejects the
/// text, and otherwise what compiling the tree it reads gives.
pub fn from_str(s: &str) -> (r: Result<ObjMatcher, QueryError>)
    ensures
        text_tree(s@) is None ==> r matches Err(QueryError::Syntax(_)),
        text_tree(s@) matches Some(t) ==> {
            &&& (!fits_depth(t, MAX_DEPTH as int) ==> (r matches Err(QueryError::TooDeep)))
            &&& (fits_depth(t, MAX_DEPTH as int) ==> exists|v: JsonValue|
                {
                    &&& same_tree(v, t)
                    &&& r is Ok <==> decode_error(v) is None
                    &&& (r matches Ok(m) ==> decodes_to(v, m))
                    &&& (r matches Err(e) ==> (e matches QueryError::Decode(d) && decode_error(v)
                        == Some(d.operator)))
                })
        },
{
    match parse_value(s) {
        Ok(v) => {
            let ghost v0 = v;
            let r = match try_into_operator(v) {
                Ok(m) => Ok(m),
                Err(e) => Err(QueryError::Decode(e)),
            };
            assert(same_tree(v0, text_tree(s@)->0));
            r
        },
        Err(e) => Err(e),
    }
}

} // verus!
