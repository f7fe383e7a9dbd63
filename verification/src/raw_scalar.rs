//! Decoding of scalar values from the bytes that the server sends.
use vstd::prelude::*;
use vstd::utf8::{decode_utf8, valid_utf8};
use vstd::slice::slice_subrange;

use crate::errors::{exact_size, DecodeError};
use crate::model::{
    datetime_in_range, BigInt, ConfigMemory, DateDuration, Datetime, Decimal, Duration, Json,
    LocalDate, LocalDatetime, LocalTime, RelativeDuration, Uuid, MICROS_PER_DAY,
};
use crate::wire::{
    bytes_content, bytes_copy_from_slice, get_i16, get_i32, get_i64, get_u128, get_u16, get_u32, get_u64, get_u8, i16_at, i32_at, i64_at,
    u128_at, u16_at, u32_at, u64_at,
};

verus! {

/// A type whose values are read from their binary form.
pub trait RawCodec<'t>: Sized {
    /// Whether `r` is what decoding the bytes `buf` gives.
    spec fn decodes(buf: Seq<u8>, r: Result<Self, DecodeError>) -> bool;

    /// Reads a value from the whole of `buf`.
    fn decode(buf: &'t [u8]) -> (r: Result<Self, DecodeError>)
        ensures
            Self::decodes(buf@, r),
    ;
}

/// Fails unless `buf` holds exactly `expected_size` bytes: with `Underflow`
/// where it holds fewer, with `ExtraData` where it holds more.
pub fn ensure_exact_size(buf: &[u8], expected_size: usize) -> (r: Result<(), DecodeError>)
    ensures
        r == exact_size(buf@.len() as int, expected_size as int),
{
    if buf.len() != expected_size {
        if buf.len() < expected_size {
            return Err(DecodeError::Underflow);
        } else {
            return Err(DecodeError::ExtraData);
        }
    }
    Ok(())
}

/// `core::str::from_utf8`: the bytes as a string where they are valid UTF-8.
#[verifier::external_body]
fn str_from_utf8<'a>(bytes: &'a [u8]) -> (r: Option<&'a str>)
    ensures
        r is Some <==> valid_utf8(bytes@),
        r matches Some(s) ==> s@ == decode_utf8(bytes@),
{
    core::str::from_utf8(bytes).ok()
}

/// The outcome of decoding `buf` as text: the characters where `buf` is valid
/// UTF-8, else `InvalidUtf8`.
pub open spec fn text_decodes(buf: Seq<u8>, r: Result<Seq<char>, DecodeError>) -> bool {
    if valid_utf8(buf) {
        r == Ok::<Seq<char>, DecodeError>(decode_utf8(buf))
    } else {
        r == Err::<Seq<char>, DecodeError>(DecodeError::InvalidUtf8)
    }
}

/// The text result of a decoded string, by its characters.
pub open spec fn str_result<S: View<V = Seq<char>>>(r: Result<S, DecodeError>) -> Result<
    Seq<char>,
    DecodeError,
> {
    match r {
        Ok(s) => Ok(s@),
        Err(e) => Err(e),
    }
}

impl<'t> RawCodec<'t> for &'t str {
    open spec fn decodes(buf: Seq<u8>, r: Result<Self, DecodeError>) -> bool {
        text_decodes(buf, str_result(r))
    }

    fn decode(buf: &'t [u8]) -> (r: Result<Self, DecodeError>) {
        match str_from_utf8(buf) {
            Some(val) => Ok(val),
            None => Err(DecodeError::InvalidUtf8),
        }
    }
}

impl<'t> RawCodec<'t> for String {
    open spec fn decodes(buf: Seq<u8>, r: Result<Self, DecodeError>) -> bool {
        text_decodes(buf, str_result(r))
    }

    fn decode(buf: &'t [u8]) -> (r: Result<Self, DecodeError>) {
        match <&str as RawCodec>::decode(buf) {
            Ok(s) => Ok(s.to_owned()),
            Err(e) => Err(e),
        }
    }
}

impl<'t> RawCodec<'t> for Json {
    /// A format byte 1, then the document as UTF-8 text.
    open spec fn decodes(buf: Seq<u8>, r: Result<Self, DecodeError>) -> bool {
        if buf.len() < 1 {
            r == Err::<Json, DecodeError>(DecodeError::Underflow)
        } else if buf[0] != 1 {
            r == Err::<Json, DecodeError>(DecodeError::InvalidJsonFormat)
        } else {
            text_decodes(
                buf.subrange(1, buf.len() as int),
                match r {
                    Ok(j) => Ok(j.0@),
                    Err(e) => Err(e),
                },
            )
        }
    }

    fn decode(buf: &'t [u8]) -> (r: Result<Self, DecodeError>) {
        if buf.len() < 1 {
            return Err(DecodeError::Underflow);
        }
        let format = get_u8(buf, 0);
        if format != 1 {
            return Err(DecodeError::InvalidJsonFormat);
        }
        match str_from_utf8(slice_subrange(buf, 1, buf.len())) {
            Some(val) => Ok(Json::new_unchecked(val.to_owned())),
            None => Err(DecodeError::InvalidUtf8),
        }
    }
}

/// The outcome of decoding `buf` as a fixed-size value of `size` bytes that
/// `read` computes from the bytes.
pub open spec fn fixed_size<T>(buf: Seq<u8>, size: int, read: spec_fn(Seq<u8>) -> T) -> Result<
    T,
    DecodeError,
> {
    match exact_size(buf.len() as int, size) {
        Ok(_) => Ok(read(buf)),
        Err(e) => Err(e),
    }
}

/// The outcome of decoding a boolean: one byte, 0 or 1.
pub open spec fn bool_decoding(buf: Seq<u8>) -> Result<bool, DecodeError> {
    match exact_size(buf.len() as int, 1) {
        Err(e) => Err(e),
        Ok(_) => if buf[0] == 0 {
            Ok(false)
        } else if buf[0] == 1 {
            Ok(true)
        } else {
            Err(DecodeError::InvalidBool { val: buf[0] })
        },
    }
}

impl<'t> RawCodec<'t> for bool {
    open spec fn decodes(buf: Seq<u8>, r: Result<Self, DecodeError>) -> bool {
        r == bool_decoding(buf)
    }

    fn decode(buf: &'t [u8]) -> (r: Result<Self, DecodeError>) {
        ensure_exact_size(buf, 1)?;
        let res = match buf[0] {
            0x00 => false,
            0x01 => true,
            v => {
                return Err(DecodeError::InvalidBool { val: v });
            },
        };
        Ok(res)
    }
}

impl<'t> RawCodec<'t> for Uuid {
    /// Sixteen bytes, the big-endian bytes of the number.
    open spec fn decodes(buf: Seq<u8>, r: Result<Self, DecodeError>) -> bool {
        r == fixed_size(buf, 16, |b: Seq<u8>| Uuid(u128_at(b, 0)))
    }

    fn decode(buf: &'t [u8]) -> (r: Result<Self, DecodeError>) {
        ensure_exact_size(buf, 16)?;
        Ok(Uuid(get_u128(buf, 0)))
    }
}

impl<'t> RawCodec<'t> for i16 {
    open spec fn decodes(buf: Seq<u8>, r: Result<Self, DecodeError>) -> bool {
        r == fixed_size(buf, 2, |b: Seq<u8>| i16_at(b, 0))
    }

    fn decode(buf: &'t [u8]) -> (r: Result<Self, DecodeError>) {
        ensure_exact_size(buf, 2)?;
        Ok(get_i16(buf, 0))
    }
}

impl<'t> RawCodec<'t> for i32 {
    open spec fn decodes(buf: Seq<u8>, r: Result<Self, DecodeError>) -> bool {
        r == fixed_size(buf, 4, |b: Seq<u8>| i32_at(b, 0))
    }

    fn decode(buf: &'t [u8]) -> (r: Result<Self, DecodeError>) {
        ensure_exact_size(buf, 4)?;
        Ok(get_i32(buf, 0))
    }
}

impl<'t> RawCodec<'t> for i64 {
    open spec fn decodes(buf: Seq<u8>, r: Result<Self, DecodeError>) -> bool {
        r == fixed_size(buf, 8, |b: Seq<u8>| i64_at(b, 0))
    }

    fn decode(buf: &'t [u8]) -> (r: Result<Self, DecodeError>) {
        ensure_exact_size(buf, 8)?;
        Ok(get_i64(buf, 0))
    }
}

impl<'t> RawCodec<'t> for ConfigMemory {
    open spec fn decodes(buf: Seq<u8>, r: Result<Self, DecodeError>) -> bool {
        r == fixed_size(buf, 8, |b: Seq<u8>| ConfigMemory(i64_at(b, 0)))
    }

    fn decode(buf: &'t [u8]) -> (r: Result<Self, DecodeError>) {
        ensure_exact_size(buf, 8)?;
        Ok(ConfigMemory(get_i64(buf, 0)))
    }
}

/// Reads a 32-bit floating point number as its IEEE 754 bit pattern: four
/// big-endian bytes.
pub fn decode_f32_bits(buf: &[u8]) -> (r: Result<u32, DecodeError>)
    ensures
        r == fixed_size(buf@, 4, |b: Seq<u8>| u32_at(b, 0)),
{
    ensure_exact_size(buf, 4)?;
    Ok(get_u32(buf, 0))
}

/// Reads a 64-bit floating point number as its IEEE 754 bit pattern: eight
/// big-endian bytes.
pub fn decode_f64_bits(buf: &[u8]) -> (r: Result<u64, DecodeError>)
    ensures
        r == fixed_size(buf@, 8, |b: Seq<u8>| u64_at(b, 0)),
{
    ensure_exact_size(buf, 8)?;
    Ok(get_u64(buf, 0))
}

impl<'t> RawCodec<'t> for &'t [u8] {
    open spec fn decodes(buf: Seq<u8>, r: Result<Self, DecodeError>) -> bool {
        r matches Ok(b) && b@ == buf
    }

    fn decode(buf: &'t [u8]) -> (r: Result<Self, DecodeError>) {
        Ok(buf)
    }
}

impl<'t> RawCodec<'t> for bytes::Bytes {
    open spec fn decodes(buf: Seq<u8>, r: Result<Self, DecodeError>) -> bool {
        r matches Ok(b) && bytes_content(b) == buf
    }

    fn decode(buf: &'t [u8]) -> (r: Result<Self, DecodeError>) {
        Ok(bytes_copy_from_slice(buf))
    }
}

/// The base-10000 digits that follow the 8-byte header of a decimal or big integer.
pub open spec fn digits_at(buf: Seq<u8>, n: int) -> Seq<u16> {
    Seq::new(n as nat, |i: int| u16_at(buf, 8 + 2 * i))
}

/// The error of decoding `buf` as a decimal (`bigint` false) or a big integer
/// (`bigint` true), or `None` where it decodes. The 8-byte header holds the
/// digit count, the weight, the sign (0x0000 or 0x4000) and the count of
/// decimal digits, which is zero for a big integer; the digits follow, two
/// bytes each.
pub open spec fn numeric_error(buf: Seq<u8>, bigint: bool) -> Option<DecodeError> {
    if buf.len() < 8 {
        Some(DecodeError::Underflow)
    } else if u16_at(buf, 4) != 0 && u16_at(buf, 4) != 0x4000 {
        Some(DecodeError::BadSign)
    } else if bigint && u16_at(buf, 6) != 0 {
        Some(DecodeError::NonZeroReservedBytes)
    } else {
        match exact_size(buf.len() - 8, 2 * u16_at(buf, 0)) {
            Ok(_) => None,
            Err(e) => Some(e),
        }
    }
}

/// Reads the 8-byte header of a decimal or big integer: digit count, weight,
/// whether negative, and the count of decimal digits.
fn numeric_header(buf: &[u8]) -> (r: Result<(u16, i16, bool, u16), DecodeError>)
    ensures
        buf@.len() < 8 ==> r == Err::<(u16, i16, bool, u16), DecodeError>(DecodeError::Underflow),
        buf@.len() >= 8 && u16_at(buf@, 4) != 0 && u16_at(buf@, 4) != 0x4000 ==> r == Err::<
            (u16, i16, bool, u16),
            DecodeError,
        >(DecodeError::BadSign),
        buf@.len() >= 8 && (u16_at(buf@, 4) == 0 || u16_at(buf@, 4) == 0x4000) ==> r == Ok::<
            (u16, i16, bool, u16),
            DecodeError,
        >((u16_at(buf@, 0), i16_at(buf@, 2), u16_at(buf@, 4) == 0x4000, u16_at(buf@, 6))),
{
    if buf.len() < 8 {
        return Err(DecodeError::Underflow);
    }
    let ndigits = get_u16(buf, 0);
    let weight = get_i16(buf, 2);
    let negative = match get_u16(buf, 4) {
        0x0000 => false,
        0x4000 => true,
        _ => {
            return Err(DecodeError::BadSign);
        },
    };
    let decimal_digits = get_u16(buf, 6);
    Ok((ndigits, weight, negative, decimal_digits))
}

/// Reads the `ndigits` base-10000 digits that follow the 8-byte header.
fn read_digits(buf: &[u8], ndigits: usize) -> (digits: Vec<u16>)
    requires
        buf@.len() == 8 + 2 * ndigits,
    ensures
        digits@ == digits_at(buf@, ndigits as int),
{
    let mut digits: Vec<u16> = Vec::with_capacity(ndigits);
    let len = buf.len();
    let mut i: usize = 0;
    while i < ndigits
        invariant
            i <= ndigits,
            len == buf@.len(),
            buf@.len() == 8 + 2 * ndigits,
            digits@ == digits_at(buf@, i as int),
        decreases ndigits - i,
    {
        digits.push(get_u16(buf, 8 + 2 * i));
        i += 1;
        assert(digits@ =~= digits_at(buf@, i as int));
    }
    digits
}

impl<'t> RawCodec<'t> for Decimal {
    open spec fn decodes(buf: Seq<u8>, r: Result<Self, DecodeError>) -> bool {
        match numeric_error(buf, false) {
            Some(e) => r == Err::<Decimal, DecodeError>(e),
            None => r matches Ok(d) && {
                &&& d.negative == (u16_at(buf, 4) == 0x4000)
                &&& d.weight == i16_at(buf, 2)
                &&& d.decimal_digits == u16_at(buf, 6)
                &&& d.digits@ == digits_at(buf, u16_at(buf, 0) as int)
            },
        }
    }

    fn decode(buf: &'t [u8]) -> (r: Result<Self, DecodeError>) {
        let (ndigits, weight, negative, decimal_digits) = numeric_header(buf)?;
        let ndigits = ndigits as usize;
        ensure_exact_size(slice_subrange(buf, 8, buf.len()), ndigits * 2)?;
        let digits = read_digits(buf, ndigits);
        Ok(Decimal { negative, weight, decimal_digits, digits })
    }
}

impl<'t> RawCodec<'t> for BigInt {
    open spec fn decodes(buf: Seq<u8>, r: Result<Self, DecodeError>) -> bool {
        match numeric_error(buf, true) {
            Some(e) => r == Err::<BigInt, DecodeError>(e),
            None => r matches Ok(d) && {
                &&& d.negative == (u16_at(buf, 4) == 0x4000)
                &&& d.weight == i16_at(buf, 2)
                &&& d.digits@ == digits_at(buf, u16_at(buf, 0) as int)
            },
        }
    }

    fn decode(buf: &'t [u8]) -> (r: Result<Self, DecodeError>) {
        let (ndigits, weight, negative, decimal_digits) = numeric_header(buf)?;
        if decimal_digits != 0 {
            return Err(DecodeError::NonZeroReservedBytes);
        }
        let ndigits = ndigits as usize;
        ensure_exact_size(slice_subrange(buf, 8, buf.len()), ndigits * 2)?;
        let digits = read_digits(buf, ndigits);
        Ok(BigInt { negative, weight, digits })
    }
}

/// The outcome of decoding a duration: 16 bytes, the microseconds, then days
/// and months as unsigned numbers that must both be zero.
pub open spec fn duration_decoding(buf: Seq<u8>) -> Result<Duration, DecodeError> {
    match exact_size(buf.len() as int, 16) {
        Err(e) => Err(e),
        Ok(_) => if u32_at(buf, 12) == 0 && u32_at(buf, 8) == 0 {
            Ok(Duration { micros: i64_at(buf, 0) })
        } else {
            Err(DecodeError::NonZeroReservedBytes)
        },
    }
}

impl<'t> RawCodec<'t> for Duration {
    open spec fn decodes(buf: Seq<u8>, r: Result<Self, DecodeError>) -> bool {
        r == duration_decoding(buf)
    }

    fn decode(buf: &'t [u8]) -> (r: Result<Self, DecodeError>) {
        ensure_exact_size(buf, 16)?;
        let micros = get_i64(buf, 0);
        let days = get_u32(buf, 8);
        let months = get_u32(buf, 12);
        if !(months == 0 && days == 0) {
            return Err(DecodeError::NonZeroReservedBytes);
        }
        Ok(Duration { micros })
    }
}

impl<'t> RawCodec<'t> for RelativeDuration {
    /// 16 bytes: microseconds, days, months.
    open spec fn decodes(buf: Seq<u8>, r: Result<Self, DecodeError>) -> bool {
        r == fixed_size(
            buf,
            16,
            |b: Seq<u8>|
                RelativeDuration { micros: i64_at(b, 0), days: i32_at(b, 8), months: i32_at(b, 12) },
        )
    }

    fn decode(buf: &'t [u8]) -> (r: Result<Self, DecodeError>) {
        ensure_exact_size(buf, 16)?;
        let micros = get_i64(buf, 0);
        let days = get_i32(buf, 8);
        let months = get_i32(buf, 12);
        Ok(RelativeDuration { micros, days, months })
    }
}

/// The `std::time::Duration` of `micros` microseconds.
pub uninterp spec fn std_duration_of_micros(micros: u64) -> core::time::Duration;

/// `core::time::Duration::from_micros`: the span of `micros` microseconds.
#[verifier::external_body]
fn std_duration_from_micros(micros: u64) -> (r: core::time::Duration)
    ensures
        r == std_duration_of_micros(micros),
{
    core::time::Duration::from_micros(micros)
}

/// A duration as a `std::time::Duration`: its microseconds where they are
/// not negative, else `InvalidDate`.
pub fn duration_to_std(d: Duration) -> (r: Result<core::time::Duration, DecodeError>)
    ensures
        d.micros >= 0 ==> r == Ok::<core::time::Duration, DecodeError>(
            std_duration_of_micros(d.micros as u64),
        ),
        d.micros < 0 ==> r == Err::<core::time::Duration, DecodeError>(DecodeError::InvalidDate),
{
    if d.micros < 0 {
        Err(DecodeError::InvalidDate)
    } else {
        Ok(std_duration_from_micros(d.micros as u64))
    }
}

impl<'t> RawCodec<'t> for core::time::Duration {
    /// A duration that is not negative.
    open spec fn decodes(buf: Seq<u8>, r: Result<Self, DecodeError>) -> bool {
        match duration_decoding(buf) {
            Err(e) => r == Err::<core::time::Duration, DecodeError>(e),
            Ok(d) => if d.micros >= 0 {
                r == Ok::<core::time::Duration, DecodeError>(std_duration_of_micros(d.micros as u64))
            } else {
                r == Err::<core::time::Duration, DecodeError>(DecodeError::InvalidDate)
            },
        }
    }

    fn decode(buf: &'t [u8]) -> (r: Result<Self, DecodeError>) {
        let dur = <Duration as RawCodec>::decode(buf)?;
        duration_to_std(dur)
    }
}

/// The outcome of decoding a date duration: 16 bytes, microseconds that must
/// be zero, then days and months.
pub open spec fn date_duration_decoding(buf: Seq<u8>) -> Result<DateDuration, DecodeError> {
    match exact_size(buf.len() as int, 16) {
        Err(e) => Err(e),
        Ok(_) => if i64_at(buf, 0) == 0 {
            Ok(DateDuration { days: i32_at(buf, 8), months: i32_at(buf, 12) })
        } else {
            Err(DecodeError::NonZeroReservedBytes)
        },
    }
}

impl<'t> RawCodec<'t> for DateDuration {
    open spec fn decodes(buf: Seq<u8>, r: Result<Self, DecodeError>) -> bool {
        r == date_duration_decoding(buf)
    }

    fn decode(buf: &'t [u8]) -> (r: Result<Self, DecodeError>) {
        ensure_exact_size(buf, 16)?;
        let micros = get_i64(buf, 0);
        let days = get_i32(buf, 8);
        let months = get_i32(buf, 12);
        if micros != 0 {
            return Err(DecodeError::NonZeroReservedBytes);
        }
        Ok(DateDuration { days, months })
    }
}

/// The error of decoding `buf` as a point in time, or `None` where it decodes:
/// eight bytes of microseconds that lie in the years 1 to 9999.
pub open spec fn datetime_error(buf: Seq<u8>) -> Option<DecodeError> {
    match exact_size(buf.len() as int, 8) {
        Err(e) => Some(e),
        Ok(_) => if datetime_in_range(i64_at(buf, 0)) {
            None
        } else {
            Some(DecodeError::InvalidDate)
        },
    }
}

impl<'t> RawCodec<'t> for Datetime {
    open spec fn decodes(buf: Seq<u8>, r: Result<Self, DecodeError>) -> bool {
        match datetime_error(buf) {
            Some(e) => r == Err::<Datetime, DecodeError>(e),
            None => r matches Ok(d) && d@ == i64_at(buf, 0),
        }
    }

    fn decode(buf: &'t [u8]) -> (r: Result<Self, DecodeError>) {
        let micros = <i64 as RawCodec>::decode(buf)?;
        match Datetime::from_postgres_micros(micros) {
            Ok(d) => Ok(d),
            Err(_) => Err(DecodeError::InvalidDate),
        }
    }
}

impl<'t> RawCodec<'t> for LocalDatetime {
    open spec fn decodes(buf: Seq<u8>, r: Result<Self, DecodeError>) -> bool {
        match datetime_error(buf) {
            Some(e) => r == Err::<LocalDatetime, DecodeError>(e),
            None => r matches Ok(d) && d@ == i64_at(buf, 0),
        }
    }

    fn decode(buf: &'t [u8]) -> (r: Result<Self, DecodeError>) {
        let micros = <i64 as RawCodec>::decode(buf)?;
        match LocalDatetime::from_postgres_micros(micros) {
            Ok(d) => Ok(d),
            Err(_) => Err(DecodeError::InvalidDate),
        }
    }
}

impl<'t> RawCodec<'t> for LocalDate {
    /// Four bytes: days since 2000-01-01.
    open spec fn decodes(buf: Seq<u8>, r: Result<Self, DecodeError>) -> bool {
        r == fixed_size(buf, 4, |b: Seq<u8>| LocalDate { days: i32_at(b, 0) })
    }

    fn decode(buf: &'t [u8]) -> (r: Result<Self, DecodeError>) {
        let days = <i32 as RawCodec>::decode(buf)?;
        Ok(LocalDate { days })
    }
}

/// The error of decoding `buf` as a time of day, or `None` where it decodes:
/// eight bytes of microseconds, at least zero and less than a day.
pub open spec fn local_time_error(buf: Seq<u8>) -> Option<DecodeError> {
    match exact_size(buf.len() as int, 8) {
        Err(e) => Some(e),
        Ok(_) => if 0 <= i64_at(buf, 0) < MICROS_PER_DAY {
            None
        } else {
            Some(DecodeError::InvalidDate)
        },
    }
}

impl<'t> RawCodec<'t> for LocalTime {
    open spec fn decodes(buf: Seq<u8>, r: Result<Self, DecodeError>) -> bool {
        match local_time_error(buf) {
            Some(e) => r == Err::<LocalTime, DecodeError>(e),
            None => r matches Ok(t) && t@ == i64_at(buf, 0),
        }
    }

    fn decode(buf: &'t [u8]) -> (r: Result<Self, DecodeError>) {
        let micros = <i64 as RawCodec>::decode(buf)?;
        if !(0 <= micros && micros < 86_400 * 1_000_000) {
            return Err(DecodeError::InvalidDate);
        }
        match LocalTime::from_micros(micros as u64) {
            Ok(t) => Ok(t),
            Err(_) => Err(DecodeError::InvalidDate),
        }
    }
}

} // verus!
