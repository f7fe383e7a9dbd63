//! The values that the scalar codecs read and write.
use vstd::prelude::*;

verus! {

/// Microseconds in a day.
pub const MICROS_PER_DAY: i64 = 86_400_000_000;

/// Microseconds from 2000-01-01T00:00:00 back to 0001-01-01T00:00:00, negated:
/// the earliest instant that a date-time may hold.
pub const MIN_DATETIME_MICROS: i64 = -63_082_281_600_000_000;

/// Microseconds from 2000-01-01T00:00:00 to 9999-12-31T23:59:59.999999: the
/// latest instant that a date-time may hold.
pub const MAX_DATETIME_MICROS: i64 = 252_455_615_999_999_999;

/// A UUID, as the 128-bit number whose big-endian bytes are its 16 bytes.
#[derive(Debug, Clone, Copy, PartialEq, Eq, Hash, Structural)]
pub struct Uuid(pub u128);

/// The amount of memory of a configuration setting, in bytes.
#[derive(Debug, Clone, Copy, PartialEq, Eq, Hash, Structural)]
pub struct ConfigMemory(pub i64);

/// A JSON document, held as its text.
#[derive(Debug, Clone)]
pub struct Json(pub String);

impl Json {
    /// Wraps text that the caller knows to be JSON.
    pub fn new_unchecked(value: String) -> (r: Json)
        ensures
            r.0@ == value@,
    {
        Json(value)
    }
}

/// An arbitrary precision decimal number in base 10000:
/// the value is `sum(digits[i] * 10000^(weight - i))`, negated if `negative`,
/// with `decimal_digits` digits after the decimal point shown.
#[derive(Debug, Clone)]
pub struct Decimal {
    pub negative: bool,
    pub weight: i16,
    pub decimal_digits: u16,
    pub digits: Vec<u16>,
}

/// An arbitrary precision integer in base 10000:
/// the value is `sum(digits[i] * 10000^(weight - i))`, negated if `negative`.
#[derive(Debug, Clone)]
pub struct BigInt {
    pub negative: bool,
    pub weight: i16,
    pub digits: Vec<u16>,
}

/// A span of time in microseconds.
#[derive(Debug, Clone, Copy, PartialEq, Eq, Hash, Structural)]
pub struct Duration {
    pub micros: i64,
}

/// A span of calendar time: microseconds, days and months.
#[derive(Debug, Clone, Copy, PartialEq, Eq, Hash, Structural)]
pub struct RelativeDuration {
    pub micros: i64,
    pub days: i32,
    pub months: i32,
}

/// A span of whole days and months.
#[derive(Debug, Clone, Copy, PartialEq, Eq, Hash, Structural)]
pub struct DateDuration {
    pub days: i32,
    pub months: i32,
}

/// A date: days since 2000-01-01.
#[derive(Debug, Clone, Copy, PartialEq, Eq, Hash, Structural)]
pub struct LocalDate {
    pub days: i32,
}

/// Whether `micros`, counted from 2000-01-01T00:00:00, lies in the years 1 to 9999.
pub open spec fn datetime_in_range(micros: i64) -> bool {
    MIN_DATETIME_MICROS <= micros <= MAX_DATETIME_MICROS
}

/// Whether `micros` is a time of day: at least zero and less than a day.
pub open spec fn time_of_day(micros: int) -> bool {
    0 <= micros < MICROS_PER_DAY
}

/// The error of a date or time outside the supported range.
#[derive(Debug, Clone, Copy, PartialEq, Eq, Structural)]
pub struct OutOfRangeError;

/// A point in time in UTC, in microseconds since 2000-01-01T00:00:00Z.
#[derive(Debug, Clone, Copy, PartialEq, Eq, Hash, Structural)]
pub struct Datetime {
    micros: i64,
}

impl View for Datetime {
    type V = i64;

    closed spec fn view(&self) -> i64 {
        self.micros
    }
}

impl Datetime {
    #[verifier::type_invariant]
    closed spec fn in_range(self) -> bool {
        datetime_in_range(self.micros)
    }

    /// The date-time `micros` microseconds after 2000-01-01T00:00:00Z, or an
    /// error where that falls outside the years 1 to 9999.
    pub fn from_postgres_micros(micros: i64) -> (r: Result<Datetime, OutOfRangeError>)
        ensures
            r is Ok <==> datetime_in_range(micros),
            r matches Ok(d) ==> d@ == micros,
    {
        if micros < MIN_DATETIME_MICROS || micros > MAX_DATETIME_MICROS {
            Err(OutOfRangeError)
        } else {
            Ok(Datetime { micros })
        }
    }

    /// Microseconds since 2000-01-01T00:00:00Z, which lie in the years 1 to 9999.
    pub fn to_postgres_micros(&self) -> (r: i64)
        ensures
            r == self@,
            datetime_in_range(r),
    {
        proof {
            use_type_invariant(self);
        }
        self.micros
    }
}

/// A date and time without a time zone, in microseconds since 2000-01-01T00:00:00.
#[derive(Debug, Clone, Copy, PartialEq, Eq, Hash, Structural)]
pub struct LocalDatetime {
    micros: i64,
}

impl View for LocalDatetime {
    type V = i64;

    closed spec fn view(&self) -> i64 {
        self.micros
    }
}

impl LocalDatetime {
    #[verifier::type_invariant]
    closed spec fn in_range(self) -> bool {
        datetime_in_range(self.micros)
    }

    /// The local date-time `micros` microseconds after 2000-01-01T00:00:00, or
    /// an error where that falls outside the years 1 to 9999.
    pub fn from_postgres_micros(micros: i64) -> (r: Result<LocalDatetime, OutOfRangeError>)
        ensures
            r is Ok <==> datetime_in_range(micros),
            r matches Ok(d) ==> d@ == micros,
    {
        if micros < MIN_DATETIME_MICROS || micros > MAX_DATETIME_MICROS {
            Err(OutOfRangeError)
        } else {
            Ok(LocalDatetime { micros })
        }
    }

    /// Microseconds since 2000-01-01T00:00:00, which lie in the years 1 to 9999.
    pub fn to_postgres_micros(&self) -> (r: i64)
        ensures
            r == self@,
            datetime_in_range(r),
    {
        proof {
            use_type_invariant(self);
        }
        self.micros
    }
}

/// A time of day, in microseconds since midnight.
#[derive(Debug, Clone, Copy, PartialEq, Eq, Hash, Structural)]
pub struct LocalTime {
    micros: u64,
}

impl View for LocalTime {
    type V = u64;

    closed spec fn view(&self) -> u64 {
        self.micros
    }
}

impl LocalTime {
    #[verifier::type_invariant]
    closed spec fn in_day(self) -> bool {
        time_of_day(self.micros as int)
    }

    /// The time `micros` microseconds after midnight, or an error where that is
    /// a day or more.
    pub fn from_micros(micros: u64) -> (r: Result<LocalTime, OutOfRangeError>)
        ensures
            r is Ok <==> time_of_day(micros as int),
            r matches Ok(t) ==> t@ == micros,
    {
        if micros >= 86_400_000_000 {
            Err(OutOfRangeError)
        } else {
            Ok(LocalTime { micros })
        }
    }

    /// Microseconds since midnight, less than a day.
    pub fn to_micros(&self) -> (r: u64)
        ensures
            r == self@,
            time_of_day(r as int),
    {
        proof {
            use_type_invariant(self);
        }
        self.micros
    }
}

/// A value of an enumeration, by the name of its variant.
#[derive(Debug, Clone)]
pub struct EnumValue(pub String);

/// A range of values. An empty range has neither bounds nor inclusive flags;
/// a missing bound is infinite.
#[derive(Debug, Clone)]
pub struct Range<T> {
    pub lower: Option<T>,
    pub upper: Option<T>,
    pub inc_lower: bool,
    pub inc_upper: bool,
    pub empty: bool,
}

/// The flag of an empty range.
pub const RANGE_EMPTY: u8 = 0x01;

/// The flag of an inclusive lower bound.
pub const RANGE_LB_INC: u8 = 0x02;

/// The flag of an inclusive upper bound.
pub const RANGE_UB_INC: u8 = 0x04;

/// The flag of a missing (infinite) lower bound.
pub const RANGE_LB_INF: u8 = 0x08;

/// The flag of a missing (infinite) upper bound.
pub const RANGE_UB_INF: u8 = 0x10;

/// A vector of 32-bit floating point numbers, each held as its IEEE 754 bit pattern.
#[derive(Debug, Clone)]
pub struct Vector(pub Vec<u32>);

/// A borrowed vector of 32-bit floating point numbers, each held as its IEEE
/// 754 bit pattern.
#[derive(Debug, Clone, Copy)]
pub struct VectorRef<'a>(pub &'a [u32]);

} // verus!
