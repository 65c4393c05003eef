//! A status payload as an unstructured tree of JSON values, and the typed
//! readings taken from it with explicit defaults.
use vstd::prelude::*;
use crate::decimal::Decimal;
use crate::keyed::{find, find_value};

verus! {

/// A JSON number, kept in the three classes JSON decoders tell apart.
#[derive(Clone, Copy, Debug, PartialEq, Eq)]
pub enum Number {
    /// A whole number of zero or more.
    PosInt(u64),
    /// A negative whole number.
    NegInt(i64),
    /// A number written with a fraction or an exponent.
    Float(Decimal),
}

/// A JSON value. An object keeps its members in order; a key that occurs
/// twice is read at its first occurrence.
#[derive(Debug)]
pub enum Json {
    Null,
    Bool(bool),
    Number(Number),
    Str(String),
    Array(Vec<Json>),
    Object(Vec<(String, Json)>),
}

/// The member `key` of `v`, where `v` is present and is an object.
pub open spec fn member(v: Option<Json>, key: Seq<char>) -> Option<Json> {
    match v {
        Some(Json::Object(members)) => find(members@, key),
        _ => None,
    }
}

/// What a reference, if any, points to.
pub open spec fn target(v: Option<&Json>) -> Option<Json> {
    match v {
        Some(x) => Some(*x),
        None => None,
    }
}

/// A non-negative whole number; zero for anything else.
pub open spec fn u64_or_zero(v: Option<Json>) -> u64 {
    match v {
        Some(Json::Number(Number::PosInt(n))) => n,
        _ => 0,
    }
}

/// A whole number that fits in 64 signed bits; zero for anything else.
pub open spec fn i64_or_zero(v: Option<Json>) -> i64 {
    match v {
        Some(Json::Number(Number::PosInt(n))) => if n <= i64::MAX {
            n as i64
        } else {
            0
        },
        Some(Json::Number(Number::NegInt(i))) => i,
        _ => 0,
    }
}

/// A boolean; false for anything else.
pub open spec fn bool_or_false(v: Option<Json>) -> bool {
    match v {
        Some(Json::Bool(b)) => b,
        _ => false,
    }
}

/// A string; `None` for anything else.
pub open spec fn str_of(v: Option<Json>) -> Option<Seq<char>> {
    match v {
        Some(Json::Str(s)) => Some(s@),
        _ => None,
    }
}

/// Any number as a decimal; zero for anything else.
pub open spec fn decimal_or_zero(v: Option<Json>) -> Decimal {
    match v {
        Some(Json::Number(Number::PosInt(n))) => Decimal { negative: false, magnitude: n, scale: 0 },
        Some(Json::Number(Number::NegInt(i))) => Decimal {
            negative: i < 0,
            magnitude: (if i < 0 { -i } else { i as int }) as u64,
            scale: 0,
        },
        Some(Json::Number(Number::Float(d))) => d,
        _ => Decimal { negative: false, magnitude: 0, scale: 0 },
    }
}

impl Json {
    /// The member `key` of this value, when it is an object that has one.
    pub fn get<'a>(&'a self, key: &str) -> (r: Option<&'a Json>)
        ensures
            target(r) == member(Some(*self), key@),
    {
        match self {
            Json::Object(members) => find_value(members, key),
            _ => None,
        }
    }
}

/// The member `key` of `v`, where `v` is present and is an object.
pub fn member_of<'a>(v: Option<&'a Json>, key: &str) -> (r: Option<&'a Json>)
    ensures
        target(r) == member(target(v), key@),
{
    match v {
        Some(x) => x.get(key),
        None => None,
    }
}

/// Reads a non-negative whole number, zero when absent or of another type.
pub fn read_u64(v: Option<&Json>) -> (r: u64)
    ensures
        r == u64_or_zero(target(v)),
{
    match v {
        Some(Json::Number(Number::PosInt(n))) => *n,
        _ => 0,
    }
}

/// Reads a signed whole number, zero when absent or of another type.
pub fn read_i64(v: Option<&Json>) -> (r: i64)
    ensures
        r == i64_or_zero(target(v)),
{
    match v {
        Some(Json::Number(Number::PosInt(n))) => if *n <= i64::MAX as u64 {
            *n as i64
        } else {
            0
        },
        Some(Json::Number(Number::NegInt(i))) => *i,
        _ => 0,
    }
}

/// Reads a boolean, false when absent or of another type.
pub fn read_bool(v: Option<&Json>) -> (r: bool)
    ensures
        r == bool_or_false(target(v)),
{
    match v {
        Some(Json::Bool(b)) => *b,
        _ => false,
    }
}

/// Reads any number as a decimal, zero when absent or of another type.
pub fn read_decimal(v: Option<&Json>) -> (r: Decimal)
    ensures
        r == decimal_or_zero(target(v)),
{
    match v {
        Some(Json::Number(Number::PosInt(n))) => Decimal::from_u64(*n),
        Some(Json::Number(Number::NegInt(i))) => Decimal::from_i64(*i),
        Some(Json::Number(Number::Float(d))) => *d,
        _ => Decimal { negative: false, magnitude: 0, scale: 0 },
    }
}

/// The value at `v.a.b`.
pub open spec fn at2(v: Json, a: Seq<char>, b: Seq<char>) -> Option<Json> {
    member(member(Some(v), a), b)
}

/// The value at `v.a.b.c`.
pub open spec fn at3(v: Json, a: Seq<char>, b: Seq<char>, c: Seq<char>) -> Option<Json> {
    member(member(member(Some(v), a), b), c)
}

/// The value at `v.a.b`, when every step is an object that has the member.
pub fn get2<'a>(v: &'a Json, a: &str, b: &str) -> (r: Option<&'a Json>)
    ensures
        target(r) == at2(*v, a@, b@),
{
    member_of(v.get(a), b)
}

/// The value at `v.a.b.c`, when every step is an object that has the member.
pub fn get3<'a>(v: &'a Json, a: &str, b: &str, c: &str) -> (r: Option<&'a Json>)
    ensures
        target(r) == at3(*v, a@, b@, c@),
{
    member_of(member_of(v.get(a), b), c)
}

} // verus!
