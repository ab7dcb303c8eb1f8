use json_matcher::{
    from_str, parse_value, try_into_operator, DecodeError, JsonNumber, JsonValue, MatchError,
    ObjMatcher, Operator, QueryError,
};

fn value(text: &str) -> JsonValue {
    parse_value(text).unwrap()
}

fn verdict(query: &str, candidate: &str) -> Result<bool, MatchError> {
    from_str(query).unwrap().matches(&value(candidate))
}

fn literal(n: u64) -> ObjMatcher {
    ObjMatcher::Value(JsonValue::Number(JsonNumber::PosInt(n)))
}

#[test]
pub fn test() {
    let input = r#"{"$or": [{ "a": {"$or": [ 1, 2 ]} }, { "b": 2 }]}"#;
    let matcher: ObjMatcher = from_str(input).unwrap();
    let val = value(r#"{"a": 1}"#);
    assert_eq!(matcher.matches(&val), Ok(true));

    let matcher: ObjMatcher = from_str(input).unwrap();
    let val = value(r#"{"a": 2}"#);
    assert_eq!(matcher.matches(&val), Ok(true));

    let matcher: ObjMatcher = from_str(input).unwrap();
    let val = value(r#"{"a": 3}"#);
    assert_eq!(matcher.matches(&val), Ok(false));

    let matcher: ObjMatcher = from_str(input).unwrap();
    let val = value(r#"{"b": 1}"#);
    assert_eq!(matcher.matches(&val), Ok(false));

    let matcher: ObjMatcher = from_str(input).unwrap();
    let val = value(r#"{"b": 2}"#);
    assert_eq!(matcher.matches(&val), Ok(true));
}

#[test]
fn not_and_ne_negate() {
    let one = value("1");
    let two = value("2");
    let not_one = ObjMatcher::Not(Box::new(literal(1)));
    assert_eq!(not_one.matches(&one), Ok(false));
    assert_eq!(not_one.matches(&two), Ok(true));
    let ne_one = ObjMatcher::Ne(Box::new(literal(1)));
    let eq_one = ObjMatcher::Eq(Box::new(literal(1)));
    assert_eq!(ne_one.matches(&one), Ok(false));
    assert_eq!(eq_one.matches(&one), Ok(true));
    assert_eq!(ne_one.matches(&two), Ok(true));
    assert_eq!(eq_one.matches(&two), Ok(false));
    assert_eq!(verdict(r#"{"$ne": 1}"#, "2"), Ok(true));
    assert_eq!(verdict(r#"{"$not": 1}"#, "1"), Ok(false));
}

#[test]
fn empty_lists() {
    for candidate in ["1", "{}", "null", r#"{"a": [1, 2]}"#] {
        assert_eq!(verdict(r#"{"$and": []}"#, candidate), Ok(true));
        assert_eq!(verdict(r#"{"$or": []}"#, candidate), Ok(false));
        assert_eq!(verdict(r#"{"$in": []}"#, candidate), Ok(false));
        assert_eq!(verdict(r#"{"$nin": []}"#, candidate), Ok(true));
    }
}

#[test]
fn and_or_over_lists() {
    assert_eq!(verdict(r#"{"$and": [{"$eq": 1}, {"$ne": 2}]}"#, "1"), Ok(true));
    assert_eq!(verdict(r#"{"$and": [{"$eq": 1}, {"$eq": 2}]}"#, "1"), Ok(false));
    assert_eq!(verdict(r#"{"$or": [{"$eq": 3}, {"$eq": 2}]}"#, "2"), Ok(true));
    assert_eq!(verdict(r#"{"$or": [{"$eq": 3}, {"$eq": 4}]}"#, "2"), Ok(false));
    assert_eq!(verdict(r#"{"$in": [5, 6, 7]}"#, "7"), Ok(true));
    assert_eq!(verdict(r#"{"$nin": [5, 6, 7]}"#, "7"), Ok(false));
    assert_eq!(verdict(r#"{"$nin": [5, 6, 7]}"#, "8"), Ok(true));
}

#[test]
fn de_morgan_on_values() {
    for (a, b) in [(1u64, 1u64), (1, 2), (2, 1), (3, 4)] {
        for candidate in ["1", "2", "3"] {
            let c = value(candidate);
            let not_and =
                ObjMatcher::Not(Box::new(ObjMatcher::And(vec![literal(a), literal(b)])));
            let or_not = ObjMatcher::Or(vec![
                ObjMatcher::Not(Box::new(literal(a))),
                ObjMatcher::Not(Box::new(literal(b))),
            ]);
            assert_eq!(not_and.matches(&c), or_not.matches(&c));
        }
    }
}

#[test]
fn field_order_does_not_matter() {
    let first = r#"{"a": 1, "b": {"$in": [2, 3]}}"#;
    let second = r#"{"b": {"$in": [2, 3]}, "a": 1}"#;
    let candidates = [
        r#"{"a": 1, "b": 3}"#,
        r#"{"a": 1, "b": 4}"#,
        r#"{"b": 2}"#,
        r#"{"b": 2, "a": 1, "c": 0}"#,
    ];
    let expected = [Ok(true), Ok(false), Ok(false), Ok(true)];
    for (candidate, want) in candidates.iter().zip(expected.iter()) {
        assert_eq!(verdict(first, candidate), *want);
        assert_eq!(verdict(second, candidate), *want);
    }
}

#[test]
fn missing_field_reads_as_absent() {
    assert_eq!(verdict(r#"{"a": {"$eq": 1}}"#, "{}"), Ok(false));
    assert_eq!(verdict(r#"{"a": {"$ne": 1}}"#, "{}"), Ok(true));
    assert_eq!(verdict(r#"{"a": {"$in": [1, 2]}}"#, r#"{"b": 1}"#), Ok(false));
    assert_eq!(verdict(r#"{"a": {"$nin": [1, 2]}}"#, r#"{"b": 1}"#), Ok(true));
    assert_eq!(verdict(r#"{"a": {"$eq": 1}}"#, "5"), Ok(false));
}

#[test]
fn not_over_and() {
    assert_eq!(verdict(r#"{"$not": {"$and": [{"$eq": 1}, {"$eq": 2}]}}"#, "1"), Ok(true));
}

#[test]
fn list_operator_needs_an_array() {
    let and = DecodeError { operator: Operator::And };
    assert!(matches!(from_str(r#"{"$and": 5}"#), Err(QueryError::Decode(e)) if e == and));
    let within = DecodeError { operator: Operator::In };
    assert!(matches!(from_str(r#"{"x": {"$in": "abc"}}"#), Err(QueryError::Decode(e)) if e == within));
    let or = DecodeError { operator: Operator::Or };
    assert!(matches!(from_str(r#"{"$not": {"$or": {}}}"#), Err(QueryError::Decode(e)) if e == or));
    let nin = DecodeError { operator: Operator::Nin };
    assert_eq!(try_into_operator(value(r#"{"$nin": null}"#)).err(), Some(nin));
    let first = DecodeError { operator: Operator::Nin };
    let query = r#"{"$or": [{"$nin": 1}, {"$and": 2}]}"#;
    assert!(matches!(from_str(query), Err(QueryError::Decode(e)) if e == first));
}

#[test]
fn syntax_errors() {
    assert!(matches!(from_str("{"), Err(QueryError::Syntax(_))));
    assert!(matches!(parse_value("[1,"), Err(QueryError::Syntax(_))));
    assert!(matches!(from_str(""), Err(QueryError::Syntax(_))));
    match from_str("{\n  \"a\": ]") {
        Err(QueryError::Syntax(e)) => {
            assert_eq!(e.line(), 2);
            assert!(e.is_syntax());
        },
        _ => panic!("expected a syntax error"),
    }
}

#[test]
fn unsupported_literals() {
    assert_eq!(verdict(r#""x""#, r#""x""#), Err(MatchError::Unsupported));
    assert_eq!(verdict("true", "true"), Err(MatchError::Unsupported));
    assert_eq!(verdict("null", "null"), Err(MatchError::Unsupported));
    assert_eq!(verdict("[1]", "[1]"), Err(MatchError::Unsupported));
    assert_eq!(verdict(r#"{"$or": [1, "x"]}"#, "1"), Ok(true));
    assert_eq!(verdict(r#"{"$or": [1, "x"]}"#, "2"), Err(MatchError::Unsupported));
    assert_eq!(verdict(r#"{"$eq": [1]}"#, "1"), Err(MatchError::Unsupported));
}

#[test]
fn number_literals() {
    assert_eq!(verdict("1", "1"), Ok(true));
    assert_eq!(verdict("1", "1.0"), Ok(false));
    assert_eq!(verdict("1.5", "1.5"), Ok(true));
    assert_eq!(verdict("-3", "-3"), Ok(true));
    assert_eq!(verdict("-3", "3"), Ok(false));
    assert_eq!(verdict("0.0", "-0.0"), Ok(true));
    assert_eq!(verdict("18446744073709551615", "18446744073709551615"), Ok(true));
    assert_eq!(verdict("1", r#"{"a": 1}"#), Ok(false));
}

#[test]
fn nested_literals_match_field_by_field() {
    assert_eq!(verdict(r#"{"a": {"x": 1}}"#, r#"{"a": {"x": 1, "y": 2}}"#), Ok(true));
    assert_eq!(verdict(r#"{"a": {"x": 1}}"#, r#"{"a": {"x": 2}}"#), Ok(false));
    assert_eq!(verdict(r#"{"a": {"x": 1}}"#, r#"{"a": 5}"#), Ok(false));
    assert_eq!(verdict(r#"{"a": {"x": {"$in": [1, 2]}}}"#, r#"{"a": {"x": 2}}"#), Ok(true));
    assert_eq!(verdict(r#"{"a": {}}"#, r#"{"b": 1}"#), Ok(true));
    assert_eq!(verdict(r#"{"a": 1}"#, r#"{"a": 1.0}"#), Ok(false));
    assert_eq!(verdict("{}", "7"), Ok(true));
}

#[test]
fn unsupported_member_literals() {
    assert_eq!(verdict(r#"{"a": "s"}"#, r#"{"a": "s"}"#), Err(MatchError::Unsupported));
    assert_eq!(verdict(r#"{"a": null}"#, r#"{"b": 1}"#), Err(MatchError::Unsupported));
    assert_eq!(verdict(r#"{"a": [1, 2]}"#, r#"{"a": [1, 2]}"#), Err(MatchError::Unsupported));
    assert_eq!(verdict(r#"{"a": {"b": true}}"#, r#"{"a": {"b": true}}"#), Err(MatchError::Unsupported));
    assert_eq!(verdict(r#"{"a": 2, "b": "s"}"#, r#"{"a": 1}"#), Ok(false));
}

#[test]
fn first_reserved_key_wins() {
    assert_eq!(verdict(r#"{"$or": [1], "$eq": 2}"#, "2"), Ok(true));
    assert_eq!(verdict(r#"{"$or": [1], "$eq": 2}"#, "1"), Ok(false));
    assert_eq!(verdict(r#"{"$not": 1, "$in": [1]}"#, "1"), Ok(true));
}

#[test]
fn reading_values() {
    let v = value(r#"{"k": "v", "n": -5, "f": 1.5, "z": null, "t": true, "l": [1]}"#);
    let get = |k: &str| v.get(&k.to_string());
    assert!(matches!(get("k"), Some(JsonValue::String(s)) if s == "v"));
    assert!(matches!(get("n"), Some(JsonValue::Number(JsonNumber::NegInt(-5)))));
    let bits = 1.5f64.to_bits();
    assert!(matches!(get("f"), Some(JsonValue::Number(JsonNumber::Float(b))) if *b == bits));
    assert!(matches!(get("z"), Some(JsonValue::Null)));
    assert!(matches!(get("t"), Some(JsonValue::Bool(true))));
    assert!(matches!(get("l"), Some(JsonValue::Array(xs)) if xs.len() == 1));
    assert!(get("missing").is_none());
    assert!(value("[]").get(&"k".to_string()).is_none());
}

#[test]
fn copies_behave_alike() {
    let query = from_str(r#"{"a": {"x": {"$in": [1, 2]}}, "b": {"$not": 3}}"#).unwrap();
    let copy = query.clone();
    drop(query);
    let tree = value(r#"{"a": {"x": 2}, "b": 4}"#);
    let tree_copy = tree.clone();
    assert_eq!(copy.matches(&tree_copy), Ok(true));
    assert_eq!(copy.matches(&value(r#"{"a": {"x": 2}, "b": 3}"#)), Ok(false));
}
