//! D-Bus property values as the library sees them.
//!
//! The application reads a property off the bus and hands over its shape: a
//! scalar, an array of scalars, or something else, together with the value's
//! debug rendering. The conversions below are those that the daemons' readers
//! apply: each succeeds only on the variant of its own type.
use vstd::prelude::*;
use crate::text::{trim_quote_chars, trim_quotes, chars_of, string_of};

verus! {

/// One D-Bus basic value. Floating-point numbers, object paths, signatures,
/// file descriptors and containers are `Other`.
pub enum BusScalar {
    U8(u8),
    Bool(bool),
    I16(i16),
    U16(u16),
    I32(i32),
    U32(u32),
    I64(i64),
    U64(u64),
    Str(String),
    Other,
}

/// The shape of a property's value. An array's elements are given after
/// unwrapping variants; nested containers are `Other`.
pub enum BusData {
    Scalar(BusScalar),
    Array(Vec<BusScalar>),
    Other,
}

/// A property's value and its debug rendering.
pub struct BusValue {
    pub data: BusData,
    pub debug: String,
}

/// The debug rendering without surrounding quotes: how a value is summarised.
pub open spec fn summary_of(v: BusValue) -> Seq<char> {
    trim_quotes(v.debug@)
}

/// The value summarised as text.
pub fn format_value(value: &BusValue) -> (r: String)
    ensures
        r@ == summary_of(*value),
{
    let d = chars_of(value.debug.as_str());
    let t = trim_quote_chars(&d);
    string_of(&t)
}

/// The value as an `i32`, when it is one.
pub open spec fn as_i32(v: BusValue) -> Option<i32> {
    match v.data {
        BusData::Scalar(BusScalar::I32(x)) => Some(x),
        _ => None,
    }
}

/// The value as a `u8`, when it is one.
pub open spec fn as_u8(v: BusValue) -> Option<u8> {
    match v.data {
        BusData::Scalar(BusScalar::U8(x)) => Some(x),
        _ => None,
    }
}

/// The value as a `bool`, when it is one.
pub open spec fn as_bool(v: BusValue) -> Option<bool> {
    match v.data {
        BusData::Scalar(BusScalar::Bool(x)) => Some(x),
        _ => None,
    }
}

/// The value as an `i32`, when it is one.
pub fn value_as_i32(v: &BusValue) -> (r: Option<i32>)
    ensures
        r == as_i32(*v),
{
    match &v.data {
        BusData::Scalar(BusScalar::I32(x)) => Some(*x),
        _ => None,
    }
}

/// The value as a `u8`, when it is one.
pub fn value_as_u8(v: &BusValue) -> (r: Option<u8>)
    ensures
        r == as_u8(*v),
{
    match &v.data {
        BusData::Scalar(BusScalar::U8(x)) => Some(*x),
        _ => None,
    }
}

/// The value as a `bool`, when it is one.
pub fn value_as_bool(v: &BusValue) -> (r: Option<bool>)
    ensures
        r == as_bool(*v),
{
    match &v.data {
        BusData::Scalar(BusScalar::Bool(x)) => Some(*x),
        _ => None,
    }
}

/// An optional property as a `u8`, when it is there and is one.
pub open spec fn opt_u8(v: Option<BusValue>) -> Option<u8> {
    match v {
        Some(x) => as_u8(x),
        None => None,
    }
}

/// An optional property as a `bool`, when it is there and is one.
pub open spec fn opt_bool(v: Option<BusValue>) -> Option<bool> {
    match v {
        Some(x) => as_bool(x),
        None => None,
    }
}

/// An optional property as an `i32`, when it is there and is one.
pub open spec fn opt_i32(v: Option<BusValue>) -> Option<i32> {
    match v {
        Some(x) => as_i32(x),
        None => None,
    }
}

/// An optional property's summary, when it is there.
pub open spec fn opt_summary(v: Option<BusValue>) -> Option<Seq<char>> {
    match v {
        Some(x) => Some(summary_of(x)),
        None => None,
    }
}

/// An optional property read as a `u8`.
pub fn read_u8(v: &Option<BusValue>) -> (r: Option<u8>)
    ensures
        r == opt_u8(*v),
{
    match v {
        Some(x) => value_as_u8(x),
        None => None,
    }
}

/// An optional property read as a `bool`.
pub fn read_bool(v: &Option<BusValue>) -> (r: Option<bool>)
    ensures
        r == opt_bool(*v),
{
    match v {
        Some(x) => value_as_bool(x),
        None => None,
    }
}

/// An optional property read as an `i32`.
pub fn read_i32(v: &Option<BusValue>) -> (r: Option<i32>)
    ensures
        r == opt_i32(*v),
{
    match v {
        Some(x) => value_as_i32(x),
        None => None,
    }
}

/// The text of an optional string.
pub open spec fn opt_view(o: Option<String>) -> Option<Seq<char>> {
    match o {
        Some(s) => Some(s@),
        None => None,
    }
}

/// An optional property summarised as text.
pub fn read_summary(v: &Option<BusValue>) -> (r: Option<String>)
    ensures
        opt_view(r) == opt_summary(*v),
{
    match v {
        Some(x) => Some(format_value(x)),
        None => None,
    }
}

} // verus!
