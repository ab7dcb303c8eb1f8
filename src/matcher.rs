//! Compiled queries and their evaluation against a candidate value.

use vstd::prelude::*;
use crate::json::{JsonValue, field, number_eq};

verus! {

/// A compiled query. The seven operators hold their operands, already
/// compiled; the remaining variants are the literal forms of a query.
#[derive(Debug)]
pub enum ObjMatcher {
    /// `$eq`: the operand matches the candidate.
    Eq(Box<ObjMatcher>),
    /// `$in`: some operand matches the candidate.
    In(Vec<ObjMatcher>),
    /// `$ne`: the operand does not match the candidate.
    Ne(Box<ObjMatcher>),
    /// `$nin`: no operand matches the candidate.
    Nin(Vec<ObjMatcher>),
    /// `$and`: every operand matches the candidate.
    And(Vec<ObjMatcher>),
    /// `$not`: the operand does not match the candidate.
    Not(Box<ObjMatcher>),
    /// `$or`: some operand matches the candidate.
    Or(Vec<ObjMatcher>),
    /// A literal that is not an object. A number matches an equal number; the
    /// other kinds of literal (null, a boolean, a string, an array) are not
    /// supported. Object literals are carried by `Fields` only: a `Value`
    /// that holds an object is not supported either.
    Value(JsonValue),
    /// An object literal: each named matcher must match the candidate's member
    /// of that name (null where the candidate has none).
    Fields(Vec<(String, ObjMatcher)>),
}

/// Why an evaluation could not reach a verdict.
#[derive(PartialEq, Eq, Debug, Clone, Copy)]
pub enum MatchError {
    /// The query holds a literal of a kind that has no matching rule (null, a
    /// boolean, a string, an array, or an object outside `Fields`).
    Unsupported,
}

/// The verdict of `m` on candidate `c`. Lists are read from the front and
/// stop at the first element that decides the result or fails.
pub open spec fn eval(m: ObjMatcher, c: JsonValue) -> Result<bool, MatchError>
    decreases m, 1int,
{
    match m {
        ObjMatcher::Eq(b) => eval(*b, c),
        ObjMatcher::Ne(b) => negate(eval(*b, c)),
        ObjMatcher::Not(b) => negate(eval(*b, c)),
        ObjMatcher::In(l) => eval_any(l@, c),
        ObjMatcher::Or(l) => eval_any(l@, c),
        ObjMatcher::Nin(l) => negate(eval_any(l@, c)),
        ObjMatcher::And(l) => eval_all(l@, c),
        ObjMatcher::Value(v) => match v {
            JsonValue::Number(n) => Ok(c matches JsonValue::Number(x) && number_eq(n, x)),
            _ => Err(MatchError::Unsupported),
        },
        ObjMatcher::Fields(fs) => eval_fields(fs@, c),
    }
}

pub open spec fn negate(r: Result<bool, MatchError>) -> Result<bool, MatchError> {
    match r {
        Ok(b) => Ok(!b),
        Err(e) => Err(e),
    }
}

/// Whether some matcher of `ms` matches `c`, up to the first failure.
pub open spec fn eval_any(ms: Seq<ObjMatcher>, c: JsonValue) -> Result<bool, MatchError>
    decreases ms, 0int,
{
    if ms.len() == 0 {
        Ok(false)
    } else {
        match eval(ms[0], c) {
            Ok(true) => Ok(true),
            Ok(false) => eval_any(ms.subrange(1, ms.len() as int), c),
            Err(e) => Err(e),
        }
    }
}

/// Whether every matcher of `ms` matches `c`, up to the first failure.
pub open spec fn eval_all(ms: Seq<ObjMatcher>, c: JsonValue) -> Result<bool, MatchError>
    decreases ms, 0int,
{
    if ms.len() == 0 {
        Ok(true)
    } else {
        match eval(ms[0], c) {
            Ok(true) => eval_all(ms.subrange(1, ms.len() as int), c),
            Ok(false) => Ok(false),
            Err(e) => Err(e),
        }
    }
}

/// Whether every named matcher of `fs` matches the member of `c` of that name.
pub open spec fn eval_fields(fs: Seq<(String, ObjMatcher)>, c: JsonValue) -> Result<
    bool,
    MatchError,
>
    decreases fs, 0int,
{
    if fs.len() == 0 {
        Ok(true)
    } else {
        match eval(fs[0].1, field(c, fs[0].0@)) {
            Ok(true) => eval_fields(fs.subrange(1, fs.len() as int), c),
            Ok(false) => Ok(false),
            Err(e) => Err(e),
        }
    }
}

/// Whether some matcher of `ms` matches `c`, stopping at the first match.
fn any_matches(ms: &Vec<ObjMatcher>, c: &JsonValue) -> (r: Result<bool, MatchError>)
    ensures
        r == eval_any(ms@, *c),
    decreases ms, 0int,
{
    let n = ms.len();
    let mut i: usize = 0;
    assert(ms@.subrange(0, n as int) =~= ms@);
    while i < n
        invariant
            0 <= i <= n,
            n == ms@.len(),
            eval_any(ms@, *c) == eval_any(ms@.subrange(i as int, n as int), *c),
        decreases n - i,
    {
        assert(ms@.subrange(i as int, n as int).subrange(1, n - i) =~= ms@.subrange(
            i as int + 1,
            n as int,
        ));
        assert(decreases_to!(ms => ms@));
        assert(decreases_to!(ms@ => ms@[i as int]));
        match ms[i].matches(c) {
            Ok(true) => {
                return Ok(true);
            },
            Ok(false) => {},
            Err(e) => {
                return Err(e);
            },
        }
        i = i + 1;
    }
    Ok(false)
}

/// Whether every matcher of `ms` matches `c`, stopping at the first miss.
fn all_match(ms: &Vec<ObjMatcher>, c: &JsonValue) -> (r: Result<bool, MatchError>)
    ensures
        r == eval_all(ms@, *c),
    decreases ms, 0int,
{
    let n = ms.len();
    let mut i: usize = 0;
    assert(ms@.subrange(0, n as int) =~= ms@);
    while i < n
        invariant
            0 <= i <= n,
            n == ms@.len(),
            eval_all(ms@, *c) == eval_all(ms@.subrange(i as int, n as int), *c),
        decreases n - i,
    {
        assert(ms@.subrange(i as int, n as int).subrange(1, n - i) =~= ms@.subrange(
            i as int + 1,
            n as int,
        ));
        assert(decreases_to!(ms => ms@));
        assert(decreases_to!(ms@ => ms@[i as int]));
        match ms[i].matches(c) {
            Ok(true) => {},
            Ok(false) => {
                return Ok(false);
            },
            Err(e) => {
                return Err(e);
            },
        }
        i = i + 1;
    }
    Ok(true)
}

/// Whether every named matcher of `fs` matches the member of `c` of that
/// name, stopping at the first miss.
fn fields_match(fs: &Vec<(String, ObjMatcher)>, c: &JsonValue) -> (r: Result<bool, MatchError>)
    ensures
        r == eval_fields(fs@, *c),
    decreases fs, 0int,
{
    let null = JsonValue::Null;
    let n = fs.len();
    let mut i: usize = 0;
    assert(fs@.subrange(0, n as int) =~= fs@);
    while i < n
        invariant
            0 <= i <= n,
            n == fs@.len(),
            null == JsonValue::Null,
            eval_fields(fs@, *c) == eval_fields(fs@.subrange(i as int, n as int), *c),
        decreases n - i,
    {
        assert(fs@.subrange(i as int, n as int).subrange(1, n - i) =~= fs@.subrange(
            i as int + 1,
            n as int,
        ));
        assert(decreases_to!(fs => fs@));
        assert(decreases_to!(fs@ => fs@[i as int]));
        assert(decreases_to!(fs@[i as int] => fs@[i as int].1));
        let member = match c.get(&fs[i].0) {
            Some(x) => x,
            None => &null,
        };
        match fs[i].1.matches(member) {
            Ok(true) => {},
            Ok(false) => {
                return Ok(false);
            },
            Err(e) => {
                return Err(e);
            },
        }
        i = i + 1;
    }
    Ok(true)
}

impl ObjMatcher {
    /// The verdict of this query on `other`.
    pub fn matches(&self, other: &JsonValue) -> (r: Result<bool, MatchError>)
        ensures
            r == eval(*self, *other),
        decreases self, 1int,
    {
        match self {
            ObjMatcher::Eq(b) => b.matches(other),
            ObjMatcher::Ne(b) => match b.matches(other) {
                Ok(x) => Ok(!x),
                Err(e) => Err(e),
            },
            ObjMatcher::Not(b) => match b.matches(other) {
                Ok(x) => Ok(!x),
                Err(e) => Err(e),
            },
            ObjMatcher::In(l) => any_matches(l, other),
            ObjMatcher::Or(l) => any_matches(l, other),
            ObjMatcher::Nin(l) => match any_matches(l, other) {
                Ok(x) => Ok(!x),
                Err(e) => Err(e),
            },
            ObjMatcher::And(l) => all_match(l, other),
            ObjMatcher::Value(v) => match v {
                JsonValue::Number(n) => match other {
                    JsonValue::Number(x) => Ok(n.equals(x)),
                    _ => Ok(false),
                },
                _ => Err(MatchError::Unsupported),
            },
            ObjMatcher::Fields(fs) => fields_match(fs, other),
        }
    }
}

/// Copies of the matchers of `ms`.
fn clone_list(ms: &Vec<ObjMatcher>) -> (r: Vec<ObjMatcher>)
    decreases ms, 0int,
{
    let mut out: Vec<ObjMatcher> = Vec::new();
    let mut i: usize = 0;
    while i < ms.len()
        decreases ms.len() - i,
    {
        proof {
            assert(decreases_to!(ms => ms@));
            assert(decreases_to!(ms@ => ms@[i as int]));
        }
        out.push(ms[i].clone());
        i = i + 1;
    }
    out
}

impl Clone for ObjMatcher {
    /// A copy of the whole query.
    fn clone(&self) -> (r: ObjMatcher)
        decreases self, 1int,
    {
        match self {
            ObjMatcher::Eq(b) => ObjMatcher::Eq(Box::new((**b).clone())),
            ObjMatcher::Ne(b) => ObjMatcher::Ne(Box::new((**b).clone())),
            ObjMatcher::Not(b) => ObjMatcher::Not(Box::new((**b).clone())),
            ObjMatcher::In(l) => ObjMatcher::In(clone_list(l)),
            ObjMatcher::Nin(l) => ObjMatcher::Nin(clone_list(l)),
            ObjMatcher::And(l) => ObjMatcher::And(clone_list(l)),
            ObjMatcher::Or(l) => ObjMatcher::Or(clone_list(l)),
            ObjMatcher::Value(v) => ObjMatcher::Value(v.clone()),
            ObjMatcher::Fields(fs) => {
                let mut out: Vec<(String, ObjMatcher)> = Vec::new();
                let mut i: usize = 0;
                while i < fs.len()
                    invariant
                        0 <= i <= fs.len(),
                        *self == ObjMatcher::Fields(*fs),
                    decreases fs.len() - i,
                {
                    proof {
                        assert(decreases_to!(*self => self->Fields_0));
                        assert(decreases_to!(*fs => fs@));
                        assert(decreases_to!(fs@ => fs@[i as int]));
                        assert(decreases_to!(fs@[i as int] => fs@[i as int].1));
                    }
                    out.push((fs[i].0.clone(), fs[i].1.clone()));
                    i = i + 1;
                }
                ObjMatcher::Fields(out)
            },
        }
    }
}

} // verus!
