//! Laws of query evaluation, proved over the semantics in `matcher`.

use vstd::prelude::*;
use crate::json::{JsonValue, field};
use crate::matcher::{ObjMatcher, MatchError, eval, eval_all, eval_any, eval_fields, negate};

verus! {

/// Conjunction read from the front: it is true exactly when every element is
/// true, and where no element fails it is the conjunction of the verdicts.
pub proof fn lemma_eval_all(ms: Seq<ObjMatcher>, c: JsonValue)
    ensures
        eval_all(ms, c) == Ok::<bool, MatchError>(true) <==> forall|i: int|
            0 <= i < ms.len() ==> eval(#[trigger] ms[i], c) == Ok::<bool, MatchError>(true),
        (forall|i: int| 0 <= i < ms.len() ==> eval(#[trigger] ms[i], c) is Ok) ==> eval_all(ms, c)
            == Ok::<bool, MatchError>(
            forall|i: int| 0 <= i < ms.len() ==> eval(#[trigger] ms[i], c) == Ok::<bool, MatchError>(true),
        ),
    decreases ms.len(),
{
    if ms.len() > 0 {
        let rest = ms.subrange(1, ms.len() as int);
        lemma_eval_all(rest, c);
        assert forall|i: int| 1 <= i < ms.len() implies ms[i] == rest[i - 1] by {}
    }
}

/// Disjunction read from the front: it is false exactly when every element is
/// false, and where no element fails it is the disjunction of the verdicts.
pub proof fn lemma_eval_any(ms: Seq<ObjMatcher>, c: JsonValue)
    ensures
        eval_any(ms, c) == Ok::<bool, MatchError>(false) <==> forall|i: int|
            0 <= i < ms.len() ==> eval(#[trigger] ms[i], c) == Ok::<bool, MatchError>(false),
        (forall|i: int| 0 <= i < ms.len() ==> eval(#[trigger] ms[i], c) is Ok) ==> eval_any(ms, c)
            == Ok::<bool, MatchError>(
            exists|i: int| 0 <= i < ms.len() && eval(#[trigger] ms[i], c) == Ok::<bool, MatchError>(true),
        ),
    decreases ms.len(),
{
    if ms.len() > 0 {
        let rest = ms.subrange(1, ms.len() as int);
        lemma_eval_any(rest, c);
        assert forall|i: int| 1 <= i < ms.len() implies ms[i] == rest[i - 1] by {}
    }
}

/// The field matchers of an object literal, read from the front: true exactly
/// when every field matches, and where no field fails, the conjunction.
pub proof fn lemma_eval_fields(fs: Seq<(String, ObjMatcher)>, c: JsonValue)
    ensures
        eval_fields(fs, c) == Ok::<bool, MatchError>(true) <==> forall|i: int|
            0 <= i < fs.len() ==> eval((#[trigger] fs[i]).1, field(c, fs[i].0@))
                == Ok::<bool, MatchError>(true),
        (forall|i: int| 0 <= i < fs.len() ==> eval((#[trigger] fs[i]).1, field(c, fs[i].0@)) is Ok)
            ==> eval_fields(fs, c) == Ok::<bool, MatchError>(
            forall|i: int|
                0 <= i < fs.len() ==> eval((#[trigger] fs[i]).1, field(c, fs[i].0@))
                    == Ok::<bool, MatchError>(true),
        ),
    decreases fs.len(),
{
    if fs.len() > 0 {
        let rest = fs.subrange(1, fs.len() as int);
        lemma_eval_fields(rest, c);
        assert forall|i: int| 1 <= i < fs.len() implies fs[i] == rest[i - 1] by {}
    }
}

/// `$not` turns the verdict of its operand around, and `$ne` that of the
/// matching `$eq`; a failure passes through unchanged.
pub proof fn law_negation(m: ObjMatcher, c: JsonValue)
    ensures
        eval(ObjMatcher::Not(Box::new(m)), c) == negate(eval(m, c)),
        eval(ObjMatcher::Ne(Box::new(m)), c) == negate(eval(ObjMatcher::Eq(Box::new(m)), c)),
{
}

/// On an empty list `$and` and `$nin` hold and `$or` and `$in` do not, for
/// every candidate.
pub proof fn law_empty_lists(l: Vec<ObjMatcher>, c: JsonValue)
    requires
        l@.len() == 0,
    ensures
        eval(ObjMatcher::And(l), c) == Ok::<bool, MatchError>(true),
        eval(ObjMatcher::Or(l), c) == Ok::<bool, MatchError>(false),
        eval(ObjMatcher::In(l), c) == Ok::<bool, MatchError>(false),
        eval(ObjMatcher::Nin(l), c) == Ok::<bool, MatchError>(true),
{
    assert(eval_all(l@, c) == Ok::<bool, MatchError>(true));
    assert(eval_any(l@, c) == Ok::<bool, MatchError>(false));
}

/// `$and` holds exactly when every operand holds, and `$or` fails to hold
/// exactly when every operand fails to hold; where no operand fails to
/// evaluate, `$and` is the conjunction and `$or` the disjunction of the
/// operands' verdicts.
pub proof fn law_and_or(l: Vec<ObjMatcher>, c: JsonValue)
    ensures
        eval(ObjMatcher::And(l), c) == Ok::<bool, MatchError>(true) <==> forall|i: int|
            0 <= i < l@.len() ==> eval(#[trigger] l@[i], c) == Ok::<bool, MatchError>(true),
        eval(ObjMatcher::Or(l), c) == Ok::<bool, MatchError>(false) <==> forall|i: int|
            0 <= i < l@.len() ==> eval(#[trigger] l@[i], c) == Ok::<bool, MatchError>(false),
        (forall|i: int| 0 <= i < l@.len() ==> eval(#[trigger] l@[i], c) is Ok) ==> {
            &&& eval(ObjMatcher::And(l), c) == Ok::<bool, MatchError>(
                forall|i: int| 0 <= i < l@.len() ==> eval(#[trigger] l@[i], c) == Ok::<bool, MatchError>(true),
            )
            &&& eval(ObjMatcher::Or(l), c) == Ok::<bool, MatchError>(
                exists|i: int| 0 <= i < l@.len() && eval(#[trigger] l@[i], c) == Ok::<bool, MatchError>(true),
            )
        },
{
    lemma_eval_all(l@, c);
    lemma_eval_any(l@, c);
}

/// De Morgan: `$not` over `$and` of two operands gives the same result as
/// `$or` over the two operands each under `$not`.
pub proof fn law_de_morgan(a: ObjMatcher, b: ObjMatcher, both: Vec<ObjMatcher>, negated: Vec<ObjMatcher>, c: JsonValue)
    requires
        both@ == seq![a, b],
        negated@ == seq![ObjMatcher::Not(Box::new(a)), ObjMatcher::Not(Box::new(b))],
    ensures
        eval(ObjMatcher::Not(Box::new(ObjMatcher::And(both))), c) == eval(ObjMatcher::Or(negated), c),
{
    let rest_both = both@.subrange(1, 2);
    let rest_negated = negated@.subrange(1, 2);
    assert(rest_both =~= seq![b]);
    assert(rest_negated =~= seq![ObjMatcher::Not(Box::new(b))]);
    assert(rest_both.subrange(1, 1) =~= Seq::<ObjMatcher>::empty());
    assert(rest_negated.subrange(1, 1) =~= Seq::<ObjMatcher>::empty());
    assert(eval_all(rest_both.subrange(1, 1), c) == Ok::<bool, MatchError>(true));
    assert(eval_any(rest_negated.subrange(1, 1), c) == Ok::<bool, MatchError>(false));
    assert(eval(ObjMatcher::Not(Box::new(b)), c) == negate(eval(b, c)));
    assert(eval(ObjMatcher::Not(Box::new(a)), c) == negate(eval(a, c)));
    assert(eval_all(rest_both, c) == eval(b, c));
    assert(eval_any(rest_negated, c) == negate(eval(b, c)));
    assert(both@[0] == a);
    assert(negated@[0] == ObjMatcher::Not(Box::new(a)));
    assert(eval(ObjMatcher::And(both), c) == eval_all(both@, c));
    assert(eval(ObjMatcher::Or(negated), c) == eval_any(negated@, c));
}

/// The order of an object literal's members does not matter: two field lists
/// that hold the same entries, in any order, both match or both do not, and
/// give the same result where no field fails to evaluate.
pub proof fn law_fields_order(fs: Vec<(String, ObjMatcher)>, gs: Vec<(String, ObjMatcher)>, c: JsonValue)
    requires
        forall|e: (String, ObjMatcher)| fs@.contains(e) <==> gs@.contains(e),
    ensures
        (eval(ObjMatcher::Fields(fs), c) == Ok::<bool, MatchError>(true)) == (eval(
            ObjMatcher::Fields(gs),
            c,
        ) == Ok::<bool, MatchError>(true)),
        (forall|i: int| 0 <= i < fs@.len() ==> eval((#[trigger] fs@[i]).1, field(c, fs@[i].0@)) is Ok)
            ==> eval(ObjMatcher::Fields(fs), c) == eval(ObjMatcher::Fields(gs), c),
{
    lemma_eval_fields(fs@, c);
    lemma_eval_fields(gs@, c);
    assert forall|j: int| 0 <= j < gs@.len() implies exists|i: int| 0 <= i < fs@.len() && fs@[i] == #[trigger] gs@[j] by {
        assert(gs@.contains(gs@[j]));
    }
    assert forall|i: int| 0 <= i < fs@.len() implies exists|j: int| 0 <= j < gs@.len() && gs@[j] == #[trigger] fs@[i] by {
        assert(fs@.contains(fs@[i]));
    }
}

} // verus!
