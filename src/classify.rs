//! Compilation of a JSON query tree into an [`ObjMatcher`].
//!
//! An object that holds one of the reserved keys `$eq`, `$in`, `$ne`, `$nin`,
//! `$and`, `$not`, `$or` is an operator; where it holds several, the first in
//! that order is taken and the other members are ignored. Any other value is
//! a literal.

use vstd::prelude::*;
use crate::json::{JsonValue, find_member, member_index, lemma_member_index};
use crate::matcher::ObjMatcher;

verus! {

/// The seven query operators.
#[derive(PartialEq, Eq, Structural, Debug, Clone, Copy)]
pub enum Operator {
    Eq,
    In,
    Ne,
    Nin,
    And,
    Not,
    Or,
}

/// The reserved key that introduces `op`.
pub open spec fn operator_name(op: Operator) -> Seq<char> {
    match op {
        Operator::Eq => "$eq"@,
        Operator::In => "$in"@,
        Operator::Ne => "$ne"@,
        Operator::Nin => "$nin"@,
        Operator::And => "$and"@,
        Operator::Not => "$not"@,
        Operator::Or => "$or"@,
    }
}

/// Whether `op` takes a list of operands rather than a single one.
pub open spec fn takes_list(op: Operator) -> bool {
    op == Operator::In || op == Operator::Nin || op == Operator::And || op == Operator::Or
}

pub open spec fn has_key(members: Seq<(String, JsonValue)>, op: Operator) -> bool {
    member_index(members, operator_name(op)) >= 0
}

/// The operator that an object with these members stands for, if any.
pub open spec fn operator_of(members: Seq<(String, JsonValue)>) -> Option<Operator> {
    if has_key(members, Operator::Eq) {
        Some(Operator::Eq)
    } else if has_key(members, Operator::In) {
        Some(Operator::In)
    } else if has_key(members, Operator::Ne) {
        Some(Operator::Ne)
    } else if has_key(members, Operator::Nin) {
        Some(Operator::Nin)
    } else if has_key(members, Operator::And) {
        Some(Operator::And)
    } else if has_key(members, Operator::Not) {
        Some(Operator::Not)
    } else if has_key(members, Operator::Or) {
        Some(Operator::Or)
    } else {
        None
    }
}

/// The operand of the operator expression with these members.
pub open spec fn operand(members: Seq<(String, JsonValue)>, op: Operator) -> JsonValue {
    members[member_index(members, operator_name(op))].1
}

/// The single operand held by `m`, where `m` is operator `op` of one operand.
pub open spec fn single_operand(op: Operator, m: ObjMatcher) -> Option<ObjMatcher> {
    match (op, m) {
        (Operator::Eq, ObjMatcher::Eq(b)) => Some(*b),
        (Operator::Ne, ObjMatcher::Ne(b)) => Some(*b),
        (Operator::Not, ObjMatcher::Not(b)) => Some(*b),
        _ => None,
    }
}

/// The operands held by `m`, where `m` is operator `op` of a list.
pub open spec fn list_operands(op: Operator, m: ObjMatcher) -> Option<Seq<ObjMatcher>> {
    match (op, m) {
        (Operator::In, ObjMatcher::In(l)) => Some(l@),
        (Operator::Nin, ObjMatcher::Nin(l)) => Some(l@),
        (Operator::And, ObjMatcher::And(l)) => Some(l@),
        (Operator::Or, ObjMatcher::Or(l)) => Some(l@),
        _ => None,
    }
}

/// The first list operator, in reading order, whose operand is not an
/// array; `None` where `v` compiles.
pub open spec fn decode_error(v: JsonValue) -> Option<Operator>
    decreases v, 1int,
{
    match v {
        JsonValue::Object(members) => match operator_of(members@) {
            Some(op) => {
                let i = member_index(members@, operator_name(op));
                if 0 <= i < members@.len() {
                    if takes_list(op) {
                        match members@[i].1 {
                            JsonValue::Array(xs) => first_error(xs@),
                            _ => Some(op),
                        }
                    } else {
                        decode_error(members@[i].1)
                    }
                } else {
                    None
                }
            },
            None => first_member_error(members@),
        },
        _ => None,
    }
}

/// The first decoding error among the elements of `xs`.
pub open spec fn first_error(xs: Seq<JsonValue>) -> Option<Operator>
    decreases xs, 0int,
{
    if xs.len() == 0 {
        None
    } else {
        match decode_error(xs[0]) {
            Some(op) => Some(op),
            None => first_error(xs.subrange(1, xs.len() as int)),
        }
    }
}

/// The first decoding error among the member values of an object literal.
pub open spec fn first_member_error(ms: Seq<(String, JsonValue)>) -> Option<Operator>
    decreases ms, 0int,
{
    if ms.len() == 0 {
        None
    } else {
        match decode_error(ms[0].1) {
            Some(op) => Some(op),
            None => first_member_error(ms.subrange(1, ms.len() as int)),
        }
    }
}

/// Whether `m` is the compiled form of `v`: an operator expression becomes
/// that operator over its compiled operands, an object without reserved keys
/// becomes a `Fields` matcher with one entry per member in order, each member
/// value compiled in turn, and any other value a `Value` literal.
pub open spec fn decodes_to(v: JsonValue, m: ObjMatcher) -> bool
    decreases v,
{
    match v {
        JsonValue::Object(members) => match operator_of(members@) {
            Some(op) => {
                let i = member_index(members@, operator_name(op));
                &&& 0 <= i < members@.len()
                &&& if takes_list(op) {
                    &&& members@[i].1 matches JsonValue::Array(xs)
                    &&& list_operands(op, m) matches Some(ms)
                    &&& ms.len() == xs@.len()
                    &&& forall|j: int| 0 <= j < xs@.len() ==> decodes_to(#[trigger] xs@[j], ms[j])
                } else {
                    &&& single_operand(op, m) matches Some(b)
                    &&& decodes_to(members@[i].1, b)
                }
            },
            None => {
                &&& m matches ObjMatcher::Fields(fs)
                &&& fs@.len() == members@.len()
                &&& forall|j: int|
                    0 <= j < members@.len() ==> {
                        &&& (#[trigger] fs@[j]).0@ == members@[j].0@
                        &&& decodes_to(members@[j].1, fs@[j].1)
                    }
            },
        },
        _ => m == ObjMatcher::Value(v),
    }
}

/// A query that cannot be compiled: the operand of this list operator is not
/// an array.
#[derive(PartialEq, Eq, Structural, Debug, Clone, Copy)]
pub struct DecodeError {
    pub operator: Operator,
}

fn operator_key(op: Operator) -> (r: String)
    ensures
        r@ == operator_name(op),
{
    match op {
        Operator::Eq => "$eq".to_owned(),
        Operator::In => "$in".to_owned(),
        Operator::Ne => "$ne".to_owned(),
        Operator::Nin => "$nin".to_owned(),
        Operator::And => "$and".to_owned(),
        Operator::Not => "$not".to_owned(),
        Operator::Or => "$or".to_owned(),
    }
}

fn position(members: &Vec<(String, JsonValue)>, op: Operator) -> (r: Option<usize>)
    ensures
        match r {
            Some(i) => member_index(members@, operator_name(op)) == i as int,
            None => !has_key(members@, op),
        },
{
    let key = operator_key(op);
    find_member(members, &key)
}

/// The operator that an object with these members stands for, and the
/// position of its operand.
pub fn find_operator(members: &Vec<(String, JsonValue)>) -> (r: Option<(Operator, usize)>)
    ensures
        match r {
            Some((op, i)) => operator_of(members@) == Some(op) && member_index(
                members@,
                operator_name(op),
            ) == i as int,
            None => operator_of(members@) is None,
        },
{
    match position(members, Operator::Eq) {
        Some(i) => { return Some((Operator::Eq, i)); },
        None => {},
    }
    match position(members, Operator::In) {
        Some(i) => { return Some((Operator::In, i)); },
        None => {},
    }
    match position(members, Operator::Ne) {
        Some(i) => { return Some((Operator::Ne, i)); },
        None => {},
    }
    match position(members, Operator::Nin) {
        Some(i) => { return Some((Operator::Nin, i)); },
        None => {},
    }
    match position(members, Operator::And) {
        Some(i) => { return Some((Operator::And, i)); },
        None => {},
    }
    match position(members, Operator::Not) {
        Some(i) => { return Some((Operator::Not, i)); },
        None => {},
    }
    match position(members, Operator::Or) {
        Some(i) => Some((Operator::Or, i)),
        None => None,
    }
}

/// Compiles the query tree `v`. Fails exactly where a list operator in an
/// operator position is given an operand that is not an array, and then names
/// the first such operator.
#[verifier::loop_isolation(false)]
pub fn try_into_operator(v: JsonValue) -> (r: Result<ObjMatcher, DecodeError>)
    ensures
        r is Ok <==> decode_error(v) is None,
        r matches Ok(m) ==> decodes_to(v, m),
        r matches Err(e) ==> decode_error(v) == Some(e.operator),
    decreases v,
{
    broadcast use lemma_member_index;

    let ghost v0 = v;
    match v {
        JsonValue::Object(mut members) => {
            let ghost ms0 = members@;
            match find_operator(&members) {
                Some((op, i)) => {
                    let (_, payload) = members.remove(i);
                    proof {
                        assert(decreases_to!(v0 => v0->Object_0));
                        assert(decreases_to!(v0->Object_0 => ms0));
                        assert(decreases_to!(ms0 => ms0[i as int]));
                        assert(decreases_to!(ms0[i as int] => ms0[i as int].1));
                    }
                    match op {
                        Operator::Eq => match try_into_operator(payload) {
                            Ok(b) => Ok(ObjMatcher::Eq(Box::new(b))),
                            Err(e) => Err(e),
                        },
                        Operator::Ne => match try_into_operator(payload) {
                            Ok(b) => Ok(ObjMatcher::Ne(Box::new(b))),
                            Err(e) => Err(e),
                        },
                        Operator::Not => match try_into_operator(payload) {
                            Ok(b) => Ok(ObjMatcher::Not(Box::new(b))),
                            Err(e) => Err(e),
                        },
                        _ => match payload {
                            JsonValue::Array(xs) => {
                                let ghost xs0 = xs@;
                                proof {
                                    assert(decreases_to!(ms0[i as int].1 => xs));
                                    assert(decreases_to!(xs => xs0));
                                }
                                assert(xs0.subrange(0, xs0.len() as int) =~= xs0);
                                let mut rest = xs;
                                let mut out: Vec<ObjMatcher> = Vec::new();
                                let mut k: usize = 0;
                                let n = rest.len();
                                while k < n
                                    invariant
                                        n == xs0.len(),
                                        0 <= k <= n,
                                        rest@ == xs0.subrange(k as int, n as int),
                                        out@.len() == k,
                                        decreases_to!(v0 => xs0),
                                        first_error(xs0) == first_error(xs0.subrange(k as int, n as int)),
                                        forall|j: int| 0 <= j < k ==> decodes_to(#[trigger] xs0[j], out@[j]),
                                    decreases n - k,
                                {
                                    let x = rest.remove(0);
                                    proof {
                                        assert(xs0.subrange(k as int, n as int).subrange(1, n - k) =~= xs0.subrange(
                                            k as int + 1,
                                            n as int,
                                        ));
                                        assert(x == xs0[k as int]);
                                        assert(decreases_to!(xs0 => xs0[k as int]));
                                    }
                                    match try_into_operator(x) {
                                        Ok(m) => {
                                            out.push(m);
                                        },
                                        Err(e) => {
                                            return Err(e);
                                        },
                                    }
                                    k = k + 1;
                                }
                                match op {
                                    Operator::In => Ok(ObjMatcher::In(out)),
                                    Operator::Nin => Ok(ObjMatcher::Nin(out)),
                                    Operator::And => Ok(ObjMatcher::And(out)),
                                    _ => Ok(ObjMatcher::Or(out)),
                                }
                            },
                            _ => Err(DecodeError { operator: op }),
                        },
                    }
                },
                None => {
                    proof {
                        assert(decreases_to!(v0 => v0->Object_0));
                        assert(decreases_to!(v0->Object_0 => ms0));
                    }
                    let n = members.len();
                    assert(ms0.subrange(0, n as int) =~= ms0);
                    let mut out: Vec<(String, ObjMatcher)> = Vec::new();
                    let mut k: usize = 0;
                    while k < n
                        invariant
                            n == ms0.len(),
                            0 <= k <= n,
                            members@ == ms0.subrange(k as int, n as int),
                            out@.len() == k,
                            decreases_to!(v0 => ms0),
                            first_member_error(ms0) == first_member_error(ms0.subrange(k as int, n as int)),
                            forall|j: int|
                                0 <= j < k ==> {
                                    &&& (#[trigger] out@[j]).0@ == ms0[j].0@
                                    &&& decodes_to(ms0[j].1, out@[j].1)
                                },
                        decreases n - k,
                    {
                        let (key, x) = members.remove(0);
                        proof {
                            assert(ms0.subrange(k as int, n as int).subrange(1, n - k) =~= ms0.subrange(
                                k as int + 1,
                                n as int,
                            ));
                            assert(decreases_to!(ms0 => ms0[k as int]));
                            assert(decreases_to!(ms0[k as int] => ms0[k as int].1));
                        }
                        match try_into_operator(x) {
                            Ok(m) => {
                                out.push((key, m));
                            },
                            Err(e) => {
                                return Err(e);
                            },
                        }
                        k = k + 1;
                    }
                    Ok(ObjMatcher::Fields(out))
                },
            }
        },
        other => Ok(ObjMatcher::Value(other)),
    }
}

} // verus!
