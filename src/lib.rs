//! Evaluation of MongoDB-style filter expressions against JSON-like trees.

pub mod json;
pub mod matcher;
pub mod classify;
pub mod laws;
pub mod parse;

pub use classify::{try_into_operator, DecodeError, Operator};
pub use json::{JsonNumber, JsonValue};
pub use matcher::{MatchError, ObjMatcher};
pub use parse::{from_str, parse_value, QueryError};
