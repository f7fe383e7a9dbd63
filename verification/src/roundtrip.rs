//! The laws that tie encoding to decoding: what a value is encoded as decodes
//! back to that value, and bytes that decode are exactly the encoding of what
//! they decode to.
use vstd::prelude::*;
use vstd::utf8::{
    decode_utf8, decode_utf8_encode_utf8, encode_utf8, encode_utf8_decode_utf8,
    encode_utf8_valid_utf8, valid_utf8,
};

use crate::model::{
    datetime_in_range, time_of_day, BigInt, ConfigMemory, DateDuration, Datetime, Decimal,
    Duration, Json, LocalDate, LocalDatetime, LocalTime, RelativeDuration, Uuid,
};
use crate::errors::DecodeError;
use crate::raw_scalar::{digits_at, fixed_size, RawCodec};
use crate::scalar_arg::{numeric_encoding, u16s_bytes, ScalarArg};
use crate::wire::{
    i16_at, i16_bytes, i32_at, i32_bytes, i64_at, i64_bytes, lemma_i16_bytes_of_read,
    lemma_i16_roundtrip, lemma_i32_bytes_of_read, lemma_i32_roundtrip, lemma_i64_bytes_of_read,
    lemma_i64_roundtrip, lemma_u128_bytes_of_read, lemma_u128_roundtrip, lemma_u16_bytes_of_read,
    lemma_u16_roundtrip, lemma_u32_bytes_of_read, lemma_u32_roundtrip, lemma_u64_bytes_of_read,
    lemma_u64_roundtrip, u16_at, u16_bytes, u32_at, u32_bytes, u64_at, u64_bytes,
};

verus! {

/// A sequence of numbers is written as two bytes each.
proof fn lemma_u16s_bytes_len(d: Seq<u16>)
    ensures
        u16s_bytes(d).len() == 2 * d.len(),
    decreases d.len(),
{
    if d.len() > 0 {
        lemma_u16s_bytes_len(d.drop_last());
    }
}

/// The `i`-th number of a sequence is read back from bytes `2 i` and `2 i + 1` of its encoding.
proof fn lemma_u16s_bytes_index(d: Seq<u16>, i: int)
    requires
        0 <= i < d.len(),
    ensures
        u16_at(u16s_bytes(d), 2 * i) == d[i],
    decreases d.len(),
{
    let prefix = u16s_bytes(d.drop_last());
    lemma_u16s_bytes_len(d.drop_last());
    if i == d.len() - 1 {
        lemma_u16_roundtrip(d.last());
    } else {
        lemma_u16s_bytes_index(d.drop_last(), i);
    }
}

/// Writing the digits read from a buffer gives back the buffer's digit bytes.
proof fn lemma_digits_bytes_of_read(buf: Seq<u8>, n: nat)
    requires
        buf.len() >= 8 + 2 * n,
    ensures
        u16s_bytes(digits_at(buf, n as int)) == buf.subrange(8, 8 + 2 * (n as int)),
    decreases n,
{
    if n > 0 {
        let m = (n - 1) as nat;
        lemma_digits_bytes_of_read(buf, m);
        assert(digits_at(buf, n as int).drop_last() =~= digits_at(buf, m as int));
        lemma_u16_bytes_of_read(buf, 8 + 2 * (m as int));
        let (ni, mi) = (n as int, m as int);
        assert(buf.subrange(8, 8 + 2 * ni) =~= buf.subrange(8, 8 + 2 * mi) + buf.subrange(
            8 + 2 * mi,
            8 + 2 * ni,
        ));
    }
}

/// Reading the three fields of sixteen bytes made of eight, four and four.
proof fn lemma_sixteen_bytes(a: Seq<u8>, b: Seq<u8>, c: Seq<u8>)
    requires
        a.len() == 8,
        b.len() == 4,
        c.len() == 4,
    ensures
        (a + b + c).len() == 16,
        u64_at(a + b + c, 0) == u64_at(a, 0),
        u32_at(a + b + c, 8) == u32_at(b, 0),
        u32_at(a + b + c, 12) == u32_at(c, 0),
{
    let s = a + b + c;
    assert(s[0] == a[0] && s[1] == a[1] && s[2] == a[2] && s[3] == a[3]);
    assert(s[4] == a[4] && s[5] == a[5] && s[6] == a[6] && s[7] == a[7]);
    assert(s[8] == b[0] && s[9] == b[1] && s[10] == b[2] && s[11] == b[3]);
    assert(s[12] == c[0] && s[13] == c[1] && s[14] == c[2] && s[15] == c[3]);
}

/// Encoding a boolean and decoding the bytes gives the boolean back.
pub proof fn law_bool_roundtrip(v: bool)
    ensures
        <bool as RawCodec>::decodes(v.encoding().unwrap(), Ok(v)),
{
}

/// Bytes that decode as a boolean are exactly its encoding.
pub proof fn law_bool_canonical(buf: Seq<u8>, v: bool)
    requires
        <bool as RawCodec>::decodes(buf, Ok(v)),
    ensures
        v.encoding() == Ok::<Seq<u8>, crate::errors::ArgError>(buf),
{
    if v {
        assert(buf =~= seq![1u8]);
    } else {
        assert(buf =~= seq![0u8]);
    }
}

/// Encoding an `i16` and decoding the bytes gives the number back.
pub proof fn law_i16_roundtrip(v: i16)
    ensures
        <i16 as RawCodec>::decodes(v.encoding().unwrap(), Ok(v)),
{
    lemma_i16_roundtrip(v);
}

/// Bytes that decode as an `i16` are exactly its encoding.
pub proof fn law_i16_canonical(buf: Seq<u8>, v: i16)
    requires
        <i16 as RawCodec>::decodes(buf, Ok(v)),
    ensures
        v.encoding() == Ok::<Seq<u8>, crate::errors::ArgError>(buf),
{
    lemma_i16_bytes_of_read(buf, 0);
    assert(buf.subrange(0, 2) =~= buf);
}

/// Encoding an `i32` and decoding the bytes gives the number back.
pub proof fn law_i32_roundtrip(v: i32)
    ensures
        <i32 as RawCodec>::decodes(v.encoding().unwrap(), Ok(v)),
{
    lemma_i32_roundtrip(v);
}

/// Bytes that decode as an `i32` are exactly its encoding.
pub proof fn law_i32_canonical(buf: Seq<u8>, v: i32)
    requires
        <i32 as RawCodec>::decodes(buf, Ok(v)),
    ensures
        v.encoding() == Ok::<Seq<u8>, crate::errors::ArgError>(buf),
{
    lemma_i32_bytes_of_read(buf, 0);
    assert(buf.subrange(0, 4) =~= buf);
}

/// Encoding an `i64` and decoding the bytes gives the number back.
pub proof fn law_i64_roundtrip(v: i64)
    ensures
        <i64 as RawCodec>::decodes(v.encoding().unwrap(), Ok(v)),
{
    lemma_i64_roundtrip(v);
}

/// Bytes that decode as an `i64` are exactly its encoding.
pub proof fn law_i64_canonical(buf: Seq<u8>, v: i64)
    requires
        <i64 as RawCodec>::decodes(buf, Ok(v)),
    ensures
        v.encoding() == Ok::<Seq<u8>, crate::errors::ArgError>(buf),
{
    lemma_i64_bytes_of_read(buf, 0);
    assert(buf.subrange(0, 8) =~= buf);
}

/// Encoding a UUID and decoding the bytes gives the UUID back.
pub proof fn law_uuid_roundtrip(v: Uuid)
    ensures
        <Uuid as RawCodec>::decodes(v.encoding().unwrap(), Ok(v)),
{
    lemma_u128_roundtrip(v.0);
}

/// Bytes that decode as a UUID are exactly its encoding.
pub proof fn law_uuid_canonical(buf: Seq<u8>, v: Uuid)
    requires
        <Uuid as RawCodec>::decodes(buf, Ok(v)),
    ensures
        v.encoding() == Ok::<Seq<u8>, crate::errors::ArgError>(buf),
{
    lemma_u128_bytes_of_read(buf, 0);
    assert(buf.subrange(0, 16) =~= buf);
}

/// Encoding an amount of memory and decoding the bytes gives it back.
pub proof fn law_config_memory_roundtrip(v: ConfigMemory)
    ensures
        <ConfigMemory as RawCodec>::decodes(v.encoding().unwrap(), Ok(v)),
{
    lemma_i64_roundtrip(v.0);
}

/// Bytes that decode as an amount of memory are exactly its encoding.
pub proof fn law_config_memory_canonical(buf: Seq<u8>, v: ConfigMemory)
    requires
        <ConfigMemory as RawCodec>::decodes(buf, Ok(v)),
    ensures
        v.encoding() == Ok::<Seq<u8>, crate::errors::ArgError>(buf),
{
    lemma_i64_bytes_of_read(buf, 0);
    assert(buf.subrange(0, 8) =~= buf);
}

/// Encoding a text and decoding the bytes gives the text back.
pub proof fn law_string_roundtrip(v: String)
    ensures
        <String as RawCodec>::decodes(v.encoding().unwrap(), Ok(v)),
{
    encode_utf8_valid_utf8(v@);
    encode_utf8_decode_utf8(v@);
}

/// Bytes that decode as a text are exactly its encoding.
pub proof fn law_string_canonical(buf: Seq<u8>, v: String)
    requires
        <String as RawCodec>::decodes(buf, Ok(v)),
    ensures
        v.encoding() == Ok::<Seq<u8>, crate::errors::ArgError>(buf),
{
    decode_utf8_encode_utf8(buf);
}

/// Encoding bytes and decoding them gives the same bytes back.
pub proof fn law_byte_slice_roundtrip<'a>(v: &'a [u8])
    ensures
        <&'a [u8] as RawCodec>::decodes(v.encoding().unwrap(), Ok(v)),
{
}

/// Bytes that decode as a byte slice are exactly its encoding.
pub proof fn law_byte_slice_canonical<'a>(buf: Seq<u8>, v: &'a [u8])
    requires
        <&'a [u8] as RawCodec>::decodes(buf, Ok(v)),
    ensures
        v.encoding() == Ok::<Seq<u8>, crate::errors::ArgError>(buf),
{
}

/// Encoding a shared byte buffer and decoding the bytes gives a buffer of the same bytes.
pub proof fn law_bytes_roundtrip(v: bytes::Bytes)
    ensures
        <bytes::Bytes as RawCodec>::decodes(v.encoding().unwrap(), Ok(v)),
{
}

/// Bytes that decode as a shared byte buffer are exactly its encoding.
pub proof fn law_bytes_canonical(buf: Seq<u8>, v: bytes::Bytes)
    requires
        <bytes::Bytes as RawCodec>::decodes(buf, Ok(v)),
    ensures
        v.encoding() == Ok::<Seq<u8>, crate::errors::ArgError>(buf),
{
}

/// Writing the bit pattern of a 32-bit floating point number and reading it
/// back gives the same bit pattern.
pub proof fn law_f32_bits_roundtrip(bits: u32)
    ensures
        fixed_size(u32_bytes(bits), 4, |b: Seq<u8>| u32_at(b, 0)) == Ok::<u32, DecodeError>(bits),
{
    lemma_u32_roundtrip(bits);
}

/// Bytes that read as the bit pattern of a 32-bit floating point number are
/// exactly the bytes it is written as.
pub proof fn law_f32_bits_canonical(buf: Seq<u8>, bits: u32)
    requires
        fixed_size(buf, 4, |b: Seq<u8>| u32_at(b, 0)) == Ok::<u32, DecodeError>(bits),
    ensures
        u32_bytes(bits) == buf,
{
    lemma_u32_bytes_of_read(buf, 0);
    assert(buf.subrange(0, 4) =~= buf);
}

/// Writing the bit pattern of a 64-bit floating point number and reading it
/// back gives the same bit pattern.
pub proof fn law_f64_bits_roundtrip(bits: u64)
    ensures
        fixed_size(u64_bytes(bits), 8, |b: Seq<u8>| u64_at(b, 0)) == Ok::<u64, DecodeError>(bits),
{
    lemma_u64_roundtrip(bits);
}

/// Bytes that read as the bit pattern of a 64-bit floating point number are
/// exactly the bytes it is written as.
pub proof fn law_f64_bits_canonical(buf: Seq<u8>, bits: u64)
    requires
        fixed_size(buf, 8, |b: Seq<u8>| u64_at(b, 0)) == Ok::<u64, DecodeError>(bits),
    ensures
        u64_bytes(bits) == buf,
{
    lemma_u64_bytes_of_read(buf, 0);
    assert(buf.subrange(0, 8) =~= buf);
}

/// Encoding a JSON document and decoding the bytes gives the document back.
pub proof fn law_json_roundtrip(v: Json)
    ensures
        <Json as RawCodec>::decodes(v.encoding().unwrap(), Ok(v)),
{
    let b = v.encoding().unwrap();
    encode_utf8_valid_utf8(v.0@);
    encode_utf8_decode_utf8(v.0@);
    assert(b.subrange(1, b.len() as int) =~= encode_utf8(v.0@));
}

/// Bytes that decode as a JSON document are exactly its encoding.
pub proof fn law_json_canonical(buf: Seq<u8>, v: Json)
    requires
        <Json as RawCodec>::decodes(buf, Ok(v)),
    ensures
        v.encoding() == Ok::<Seq<u8>, crate::errors::ArgError>(buf),
{
    let rest = buf.subrange(1, buf.len() as int);
    decode_utf8_encode_utf8(rest);
    assert(buf =~= seq![1u8] + rest);
}

/// The encoding of a decimal or big integer with at most 65535 digits reads
/// back as its header fields and digits.
proof fn lemma_numeric_roundtrip(negative: bool, weight: i16, dd: u16, digits: Seq<u16>)
    requires
        digits.len() <= 0xffff,
    ensures
        ({
            let b = numeric_encoding(negative, weight, dd, digits).unwrap();
            &&& b.len() == 8 + 2 * digits.len()
            &&& u16_at(b, 0) == digits.len()
            &&& i16_at(b, 2) == weight
            &&& u16_at(b, 4) == if negative {
                0x4000u16
            } else {
                0u16
            }
            &&& u16_at(b, 6) == dd
            &&& digits_at(b, digits.len() as int) == digits
        }),
{
    let sign: u16 = if negative {
        0x4000u16
    } else {
        0u16
    };
    let b = numeric_encoding(negative, weight, dd, digits).unwrap();
    let head0 = u16_bytes(digits.len() as u16);
    let head1 = i16_bytes(weight);
    let head2 = u16_bytes(sign);
    let head3 = u16_bytes(dd);
    let body = u16s_bytes(digits);
    lemma_u16s_bytes_len(digits);
    lemma_u16_roundtrip(digits.len() as u16);
    lemma_i16_roundtrip(weight);
    lemma_u16_roundtrip(sign);
    lemma_u16_roundtrip(dd);
    assert(b == head0 + head1 + head2 + head3 + body);
    assert(b.subrange(0, 2) =~= head0);
    assert(b.subrange(2, 4) =~= head1);
    assert(b.subrange(4, 6) =~= head2);
    assert(b.subrange(6, 8) =~= head3);
    assert(u16_at(b, 0) == u16_at(head0, 0));
    assert(i16_at(b, 2) == i16_at(head1, 0));
    assert(u16_at(b, 4) == u16_at(head2, 0));
    assert(u16_at(b, 6) == u16_at(head3, 0));
    assert forall|i: int| 0 <= i < digits.len() implies #[trigger] digits_at(
        b,
        digits.len() as int,
    )[i] == digits[i] by {
        lemma_u16s_bytes_index(digits, i);
        assert(u16_at(b, 8 + 2 * i) == u16_at(body, 2 * i));
    }
    assert(digits_at(b, digits.len() as int) =~= digits);
}

/// Bytes that decode as a decimal or big integer are the encoding of the
/// fields read from them.
proof fn lemma_numeric_canonical(buf: Seq<u8>, bigint: bool)
    requires
        crate::raw_scalar::numeric_error(buf, bigint) is None,
    ensures
        numeric_encoding(
            u16_at(buf, 4) == 0x4000,
            i16_at(buf, 2),
            u16_at(buf, 6),
            digits_at(buf, u16_at(buf, 0) as int),
        ) == Ok::<Seq<u8>, crate::errors::ArgError>(buf),
{
    let n = u16_at(buf, 0);
    lemma_u16_bytes_of_read(buf, 0);
    lemma_i16_bytes_of_read(buf, 2);
    lemma_u16_bytes_of_read(buf, 4);
    lemma_u16_bytes_of_read(buf, 6);
    lemma_digits_bytes_of_read(buf, n as nat);
    let sign: u16 = if u16_at(buf, 4) == 0x4000 {
        0x4000u16
    } else {
        0u16
    };
    assert(sign == u16_at(buf, 4));
    assert(buf =~= buf.subrange(0, 2) + buf.subrange(2, 4) + buf.subrange(4, 6) + buf.subrange(6, 8)
        + buf.subrange(8, 8 + 2 * n));
}

/// Encoding a decimal of at most 65535 digits and decoding the bytes gives
/// the same decimal.
pub proof fn law_decimal_roundtrip(v: Decimal)
    requires
        v.digits@.len() <= 0xffff,
    ensures
        <Decimal as RawCodec>::decodes(v.encoding().unwrap(), Ok(v)),
{
    lemma_numeric_roundtrip(v.negative, v.weight, v.decimal_digits, v.digits@);
}

/// Bytes that decode as a decimal are exactly its encoding.
pub proof fn law_decimal_canonical(buf: Seq<u8>, v: Decimal)
    requires
        <Decimal as RawCodec>::decodes(buf, Ok(v)),
    ensures
        v.encoding() == Ok::<Seq<u8>, crate::errors::ArgError>(buf),
{
    lemma_numeric_canonical(buf, false);
}

/// Encoding a big integer of at most 65535 digits and decoding the bytes
/// gives the same big integer.
pub proof fn law_bigint_roundtrip(v: BigInt)
    requires
        v.digits@.len() <= 0xffff,
    ensures
        <BigInt as RawCodec>::decodes(v.encoding().unwrap(), Ok(v)),
{
    lemma_numeric_roundtrip(v.negative, v.weight, 0, v.digits@);
}

/// Bytes that decode as a big integer are exactly its encoding.
pub proof fn law_bigint_canonical(buf: Seq<u8>, v: BigInt)
    requires
        <BigInt as RawCodec>::decodes(buf, Ok(v)),
    ensures
        v.encoding() == Ok::<Seq<u8>, crate::errors::ArgError>(buf),
{
    lemma_numeric_canonical(buf, true);
}

/// Encoding a duration and decoding the bytes gives the duration back.
pub proof fn law_duration_roundtrip(v: Duration)
    ensures
        <Duration as RawCodec>::decodes(v.encoding().unwrap(), Ok(v)),
{
    lemma_i64_roundtrip(v.micros);
    lemma_u32_roundtrip(0);
    lemma_sixteen_bytes(i64_bytes(v.micros), u32_bytes(0), u32_bytes(0));
}

/// Bytes that decode as a duration are exactly its encoding.
pub proof fn law_duration_canonical(buf: Seq<u8>, v: Duration)
    requires
        <Duration as RawCodec>::decodes(buf, Ok(v)),
    ensures
        v.encoding() == Ok::<Seq<u8>, crate::errors::ArgError>(buf),
{
    lemma_i64_bytes_of_read(buf, 0);
    lemma_u32_bytes_of_read(buf, 8);
    lemma_u32_bytes_of_read(buf, 12);
    assert(buf =~= buf.subrange(0, 8) + buf.subrange(8, 12) + buf.subrange(12, 16));
}

/// Encoding a relative duration and decoding the bytes gives it back.
pub proof fn law_relative_duration_roundtrip(v: RelativeDuration)
    ensures
        <RelativeDuration as RawCodec>::decodes(v.encoding().unwrap(), Ok(v)),
{
    lemma_i64_roundtrip(v.micros);
    lemma_i32_roundtrip(v.days);
    lemma_i32_roundtrip(v.months);
    lemma_sixteen_bytes(i64_bytes(v.micros), i32_bytes(v.days), i32_bytes(v.months));
}

/// Bytes that decode as a relative duration are exactly its encoding.
pub proof fn law_relative_duration_canonical(buf: Seq<u8>, v: RelativeDuration)
    requires
        <RelativeDuration as RawCodec>::decodes(buf, Ok(v)),
    ensures
        v.encoding() == Ok::<Seq<u8>, crate::errors::ArgError>(buf),
{
    lemma_i64_bytes_of_read(buf, 0);
    lemma_i32_bytes_of_read(buf, 8);
    lemma_i32_bytes_of_read(buf, 12);
    assert(buf =~= buf.subrange(0, 8) + buf.subrange(8, 12) + buf.subrange(12, 16));
}

/// Encoding a date duration and decoding the bytes gives it back.
pub proof fn law_date_duration_roundtrip(v: DateDuration)
    ensures
        <DateDuration as RawCodec>::decodes(v.encoding().unwrap(), Ok(v)),
{
    lemma_i64_roundtrip(0);
    lemma_i32_roundtrip(v.days);
    lemma_i32_roundtrip(v.months);
    lemma_sixteen_bytes(i64_bytes(0), i32_bytes(v.days), i32_bytes(v.months));
}

/// Bytes that decode as a date duration are exactly its encoding.
pub proof fn law_date_duration_canonical(buf: Seq<u8>, v: DateDuration)
    requires
        <DateDuration as RawCodec>::decodes(buf, Ok(v)),
    ensures
        v.encoding() == Ok::<Seq<u8>, crate::errors::ArgError>(buf),
{
    lemma_i64_bytes_of_read(buf, 0);
    lemma_i32_bytes_of_read(buf, 8);
    lemma_i32_bytes_of_read(buf, 12);
    assert(buf =~= buf.subrange(0, 8) + buf.subrange(8, 12) + buf.subrange(12, 16));
}

/// Encoding a point in time of the years 1 to 9999 and decoding the bytes gives it back.
pub proof fn law_datetime_roundtrip(v: Datetime)
    requires
        datetime_in_range(v@),
    ensures
        <Datetime as RawCodec>::decodes(v.encoding().unwrap(), Ok(v)),
{
    lemma_i64_roundtrip(v@);
}

/// Bytes that decode as a point in time are exactly its encoding.
pub proof fn law_datetime_canonical(buf: Seq<u8>, v: Datetime)
    requires
        <Datetime as RawCodec>::decodes(buf, Ok(v)),
    ensures
        v.encoding() == Ok::<Seq<u8>, crate::errors::ArgError>(buf),
{
    lemma_i64_bytes_of_read(buf, 0);
    assert(buf.subrange(0, 8) =~= buf);
}

/// Encoding a local date-time of the years 1 to 9999 and decoding the bytes gives it back.
pub proof fn law_local_datetime_roundtrip(v: LocalDatetime)
    requires
        datetime_in_range(v@),
    ensures
        <LocalDatetime as RawCodec>::decodes(v.encoding().unwrap(), Ok(v)),
{
    lemma_i64_roundtrip(v@);
}

/// Bytes that decode as a local date-time are exactly its encoding.
pub proof fn law_local_datetime_canonical(buf: Seq<u8>, v: LocalDatetime)
    requires
        <LocalDatetime as RawCodec>::decodes(buf, Ok(v)),
    ensures
        v.encoding() == Ok::<Seq<u8>, crate::errors::ArgError>(buf),
{
    lemma_i64_bytes_of_read(buf, 0);
    assert(buf.subrange(0, 8) =~= buf);
}

/// Encoding a date and decoding the bytes gives it back.
pub proof fn law_local_date_roundtrip(v: LocalDate)
    ensures
        <LocalDate as RawCodec>::decodes(v.encoding().unwrap(), Ok(v)),
{
    lemma_i32_roundtrip(v.days);
}

/// Bytes that decode as a date are exactly its encoding.
pub proof fn law_local_date_canonical(buf: Seq<u8>, v: LocalDate)
    requires
        <LocalDate as RawCodec>::decodes(buf, Ok(v)),
    ensures
        v.encoding() == Ok::<Seq<u8>, crate::errors::ArgError>(buf),
{
    lemma_i32_bytes_of_read(buf, 0);
    assert(buf.subrange(0, 4) =~= buf);
}

/// Encoding a time of day and decoding the bytes gives it back.
pub proof fn law_local_time_roundtrip(v: LocalTime)
    requires
        time_of_day(v@ as int),
    ensures
        <LocalTime as RawCodec>::decodes(v.encoding().unwrap(), Ok(v)),
{
    lemma_i64_roundtrip(v@ as i64);
}

/// Bytes that decode as a time of day are exactly its encoding.
pub proof fn law_local_time_canonical(buf: Seq<u8>, v: LocalTime)
    requires
        <LocalTime as RawCodec>::decodes(buf, Ok(v)),
    ensures
        v.encoding() == Ok::<Seq<u8>, crate::errors::ArgError>(buf),
{
    lemma_i64_bytes_of_read(buf, 0);
    assert(buf.subrange(0, 8) =~= buf);
}

} // verus!
