//! A dynamically typed value of the query language.
use vstd::prelude::*;

use crate::wire::bytes_content;

use crate::model::{
    BigInt, ConfigMemory, DateDuration, Datetime, Decimal, Duration, EnumValue, Json, LocalDate,
    LocalDatetime, LocalTime, Range, RelativeDuration, Uuid,
};

verus! {

/// A value of any scalar type, or a range of such values.
#[derive(Debug)]
pub enum Value {
    Str(String),
    Json(Json),
    Uuid(Uuid),
    Bool(bool),
    Int16(i16),
    Int32(i32),
    Int64(i64),
    /// A 32-bit floating point number, by its IEEE 754 bit pattern.
    Float32(u32),
    /// A 64-bit floating point number, by its IEEE 754 bit pattern.
    Float64(u64),
    Bytes(bytes::Bytes),
    ConfigMemory(ConfigMemory),
    Decimal(Decimal),
    BigInt(BigInt),
    Duration(Duration),
    RelativeDuration(RelativeDuration),
    DateDuration(DateDuration),
    Datetime(Datetime),
    LocalDatetime(LocalDatetime),
    LocalDate(LocalDate),
    LocalTime(LocalTime),
    Enum(EnumValue),
    Range(Range<Box<Value>>),
    /// A vector of 32-bit floating point numbers, by their IEEE 754 bit patterns.
    Vector(Vec<u32>),
}

/// A value as plain data: text and bytes as sequences, numbers and dates as
/// they are, a range by the values of its bounds.
pub enum ValueV {
    Str(Seq<char>),
    Json(Seq<char>),
    Uuid(Uuid),
    Bool(bool),
    Int16(i16),
    Int32(i32),
    Int64(i64),
    Float32(u32),
    Float64(u64),
    Bytes(Seq<u8>),
    ConfigMemory(ConfigMemory),
    Decimal { negative: bool, weight: i16, decimal_digits: u16, digits: Seq<u16> },
    BigInt { negative: bool, weight: i16, digits: Seq<u16> },
    Duration(Duration),
    RelativeDuration(RelativeDuration),
    DateDuration(DateDuration),
    Datetime(Datetime),
    LocalDatetime(LocalDatetime),
    LocalDate(LocalDate),
    LocalTime(LocalTime),
    Enum(Seq<char>),
    Range {
        lower: Option<Box<ValueV>>,
        upper: Option<Box<ValueV>>,
        inc_lower: bool,
        inc_upper: bool,
        empty: bool,
    },
    Vector(Seq<u32>),
}

/// The plain data of a value.
pub open spec fn value_view(v: Value) -> ValueV
    decreases v,
{
    match v {
        Value::Str(s) => ValueV::Str(s@),
        Value::Json(j) => ValueV::Json(j.0@),
        Value::Uuid(u) => ValueV::Uuid(u),
        Value::Bool(b) => ValueV::Bool(b),
        Value::Int16(x) => ValueV::Int16(x),
        Value::Int32(x) => ValueV::Int32(x),
        Value::Int64(x) => ValueV::Int64(x),
        Value::Float32(x) => ValueV::Float32(x),
        Value::Float64(x) => ValueV::Float64(x),
        Value::Bytes(b) => ValueV::Bytes(bytes_content(b)),
        Value::ConfigMemory(m) => ValueV::ConfigMemory(m),
        Value::Decimal(d) => ValueV::Decimal {
            negative: d.negative,
            weight: d.weight,
            decimal_digits: d.decimal_digits,
            digits: d.digits@,
        },
        Value::BigInt(d) => ValueV::BigInt {
            negative: d.negative,
            weight: d.weight,
            digits: d.digits@,
        },
        Value::Duration(x) => ValueV::Duration(x),
        Value::RelativeDuration(x) => ValueV::RelativeDuration(x),
        Value::DateDuration(x) => ValueV::DateDuration(x),
        Value::Datetime(x) => ValueV::Datetime(x),
        Value::LocalDatetime(x) => ValueV::LocalDatetime(x),
        Value::LocalDate(x) => ValueV::LocalDate(x),
        Value::LocalTime(x) => ValueV::LocalTime(x),
        Value::Enum(e) => ValueV::Enum(e.0@),
        Value::Range(r) => ValueV::Range {
            lower: match r.lower {
                Some(b) => Some(Box::new(value_view(*b))),
                None => None,
            },
            upper: match r.upper {
                Some(b) => Some(Box::new(value_view(*b))),
                None => None,
            },
            inc_lower: r.inc_lower,
            inc_upper: r.inc_upper,
            empty: r.empty,
        },
        Value::Vector(c) => ValueV::Vector(c@),
    }
}

impl View for Value {
    type V = ValueV;

    open spec fn view(&self) -> ValueV {
        value_view(*self)
    }
}

} // verus!
