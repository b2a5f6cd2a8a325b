use vstd::prelude::*;

verus! {

/// A JSON number, held the way a JSON document's numbers are usually
/// decoded: a non-negative integer, a negative integer, or any other number
/// kept as the IEEE-754 bit pattern of its double-precision value.
#[derive(Debug, PartialEq)]
pub enum JsonNumber {
    PosInt(u64),
    NegInt(i64),
    Float(u64),
}

/// A JSON value. Object members keep the order in which they were given.
#[derive(Debug, PartialEq)]
pub enum JsonValue {
    Null,
    Bool(bool),
    Number(JsonNumber),
    String(String),
    Array(Vec<JsonValue>),
    Object(Vec<(String, JsonValue)>),
}

/// The number as an unsigned 64-bit integer, where it is one.
pub open spec fn number_as_u64(n: JsonNumber) -> Option<u64> {
    match n {
        JsonNumber::PosInt(v) => Some(v),
        JsonNumber::NegInt(v) => if v >= 0 {
            Some(v as u64)
        } else {
            None
        },
        JsonNumber::Float(_) => None,
    }
}

/// The value as an unsigned 64-bit integer, where it is a number that is one.
pub open spec fn value_as_u64(v: JsonValue) -> Option<u64> {
    match v {
        JsonValue::Number(n) => number_as_u64(n),
        _ => None,
    }
}

impl JsonNumber {
    /// The number as an unsigned 64-bit integer, where it is one.
    pub fn as_u64(&self) -> (r: Option<u64>)
        ensures
            r == number_as_u64(*self),
    {
        match self {
            JsonNumber::PosInt(v) => Some(*v),
            JsonNumber::NegInt(v) => if *v >= 0 {
                Some(*v as u64)
            } else {
                None
            },
            JsonNumber::Float(_) => None,
        }
    }
}

impl JsonValue {
    /// The value as an unsigned 64-bit integer, where it is a number that is one.
    pub fn as_u64(&self) -> (r: Option<u64>)
        ensures
            r == value_as_u64(*self),
    {
        match self {
            JsonValue::Number(n) => n.as_u64(),
            _ => None,
        }
    }
}

} // verus!
