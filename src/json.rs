//! The tree of values that queries are written in and that candidates are.

use vstd::prelude::*;

verus! {

/// A JSON number, kept the way a JSON reader stores it: a non-negative
/// integer, a negative integer, or the bit pattern of a finite double.
#[derive(Debug, Clone, Copy)]
pub enum JsonNumber {
    PosInt(u64),
    NegInt(i64),
    Float(u64),
}

/// A node of a JSON tree. An object holds its members as a list of name and
/// value; the list's order is the order in which they were read.
#[derive(Debug)]
pub enum JsonValue {
    Null,
    Bool(bool),
    Number(JsonNumber),
    String(String),
    Array(Vec<JsonValue>),
    Object(Vec<(String, JsonValue)>),
}

/// The bit pattern of negative zero.
pub const NEGATIVE_ZERO: u64 = 0x8000_0000_0000_0000;

pub open spec fn is_zero_bits(bits: u64) -> bool {
    bits == 0 || bits == NEGATIVE_ZERO
}

/// Equality of numbers: integers by value within their kind, doubles as IEEE
/// values (so the two zeros are equal); an integer never equals a double.
pub open spec fn number_eq(a: JsonNumber, b: JsonNumber) -> bool {
    match (a, b) {
        (JsonNumber::PosInt(x), JsonNumber::PosInt(y)) => x == y,
        (JsonNumber::NegInt(x), JsonNumber::NegInt(y)) => x == y,
        (JsonNumber::Float(x), JsonNumber::Float(y)) => x == y || (is_zero_bits(x) && is_zero_bits(y)),
        _ => false,
    }
}

/// The first member of `members` named `key`, if any.
pub open spec fn member_index(members: Seq<(String, JsonValue)>, key: Seq<char>) -> int
    decreases members.len(),
{
    if members.len() == 0 {
        -1
    } else if members[0].0@ == key {
        0
    } else {
        let i = member_index(members.drop_first(), key);
        if i >= 0 { i + 1 } else { -1 }
    }
}

/// What `v[key]` reads: the member's value, or null where `v` is no object
/// or has no such member.
pub open spec fn field(v: JsonValue, key: Seq<char>) -> JsonValue {
    match v {
        JsonValue::Object(members) => {
            let i = member_index(members@, key);
            if i >= 0 { members@[i].1 } else { JsonValue::Null }
        },
        _ => JsonValue::Null,
    }
}

pub broadcast proof fn lemma_member_index(members: Seq<(String, JsonValue)>, key: Seq<char>)
    ensures
        -1 <= #[trigger] member_index(members, key) < members.len(),
        member_index(members, key) >= 0 ==> members[member_index(members, key)].0@ == key,
        member_index(members, key) >= 0 ==> forall|j: int|
            0 <= j < member_index(members, key) ==> members[j].0@ != key,
        member_index(members, key) < 0 ==> forall|j: int|
            0 <= j < members.len() ==> members[j].0@ != key,
    decreases members.len(),
{
    if members.len() > 0 {
        let rest = members.drop_first();
        lemma_member_index(rest, key);
        assert forall|j: int| 1 <= j < members.len() implies members[j] == rest[j - 1] by {}
    }
}

impl JsonNumber {
    /// Whether the two numbers are equal.
    pub fn equals(&self, other: &JsonNumber) -> (r: bool)
        ensures
            r == number_eq(*self, *other),
    {
        match (self, other) {
            (JsonNumber::PosInt(x), JsonNumber::PosInt(y)) => *x == *y,
            (JsonNumber::NegInt(x), JsonNumber::NegInt(y)) => *x == *y,
            (JsonNumber::Float(x), JsonNumber::Float(y)) => *x == *y || ((*x == 0 || *x
                == NEGATIVE_ZERO) && (*y == 0 || *y == NEGATIVE_ZERO)),
            _ => false,
        }
    }
}

/// The position of the first member named `key`.
pub fn find_member(members: &Vec<(String, JsonValue)>, key: &String) -> (r: Option<usize>)
    ensures
        match r {
            Some(i) => member_index(members@, key@) == i as int,
            None => member_index(members@, key@) == -1,
        },
{
    proof {
        lemma_member_index(members@, key@);
    }
    let mut i: usize = 0;
    while i < members.len()
        invariant
            0 <= i <= members.len(),
            forall|j: int| 0 <= j < i ==> members@[j].0@ != key@,
            -1 <= member_index(members@, key@) < members@.len(),
            member_index(members@, key@) >= 0 ==> members@[member_index(members@, key@)].0@ == key@,
            member_index(members@, key@) >= 0 ==> forall|j: int|
                0 <= j < member_index(members@, key@) ==> members@[j].0@ != key@,
            member_index(members@, key@) < 0 ==> forall|j: int|
                0 <= j < members@.len() ==> members@[j].0@ != key@,
        decreases members.len() - i,
    {
        if members[i].0 == *key {
            return Some(i);
        }
        i = i + 1;
    }
    None
}

impl JsonValue {
    /// The value of member `key`, or `None` where this is no object or has no
    /// such member (what the query language reads as null).
    pub fn get(&self, key: &String) -> (r: Option<&JsonValue>)
        ensures
            match r {
                Some(x) => *x == field(*self, key@),
                None => field(*self, key@) is Null,
            },
    {
        broadcast use lemma_member_index;

        match self {
            JsonValue::Object(members) => match find_member(members, key) {
                Some(i) => Some(&members[i].1),
                None => None,
            },
            _ => None,
        }
    }

}

impl Clone for JsonValue {
    /// A copy of the whole tree.
    fn clone(&self) -> (r: JsonValue)
        decreases self,
    {
        match self {
            JsonValue::Null => JsonValue::Null,
            JsonValue::Bool(b) => JsonValue::Bool(*b),
            JsonValue::Number(n) => JsonValue::Number(*n),
            JsonValue::String(x) => JsonValue::String(x.clone()),
            JsonValue::Array(xs) => {
                let mut out: Vec<JsonValue> = Vec::new();
                let mut i: usize = 0;
                while i < xs.len()
                    invariant
                        0 <= i <= xs.len(),
                        *self == JsonValue::Array(*xs),
                    decreases xs.len() - i,
                {
                    proof {
                        assert(decreases_to!(*self => self->Array_0));
                        assert(decreases_to!(*xs => xs@));
                        assert(decreases_to!(xs@ => xs@[i as int]));
                    }
                    out.push(xs[i].clone());
                    i = i + 1;
                }
                JsonValue::Array(out)
            },
            JsonValue::Object(ms) => {
                let mut out: Vec<(String, JsonValue)> = Vec::new();
                let mut i: usize = 0;
                while i < ms.len()
                    invariant
                        0 <= i <= ms.len(),
                        *self == JsonValue::Object(*ms),
                    decreases ms.len() - i,
                {
                    proof {
                        assert(decreases_to!(*self => self->Object_0));
                        assert(decreases_to!(*ms => ms@));
                        assert(decreases_to!(ms@ => ms@[i as int]));
                        assert(decreases_to!(ms@[i as int] => ms@[i as int].1));
                    }
                    out.push((ms[i].0.clone(), ms[i].1.clone()));
                    i = i + 1;
                }
                JsonValue::Object(out)
            },
        }
    }
}

} // verus!
