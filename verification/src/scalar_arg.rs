//! Query arguments of scalar types: their binary form, the check of their type
//! against the descriptors, and their dynamically typed value.
use vstd::prelude::*;
use vstd::utf8::encode_utf8;

use crate::descriptors::{
    base_chain_ends, check_scalar, check_scalar_result, Descriptor, DescriptorContext, TypePos,
};
use crate::errors::{ArgError, EncodeError};
use crate::model::{
    BigInt, ConfigMemory, DateDuration, Datetime, Decimal, Duration, EnumValue, Json, LocalDate,
    LocalDatetime, LocalTime, Range, RelativeDuration, Uuid, Vector, VectorRef, RANGE_EMPTY,
    RANGE_LB_INC, RANGE_LB_INF, RANGE_UB_INC, RANGE_UB_INF,
};
use crate::value::{Value, ValueV};
use crate::wire::{
    bytes_as_slice, bytes_clone, bytes_content, bytes_copy_from_slice, i16_bytes, i32_bytes,
    i64_bytes, put_i16, put_i32, put_i64, put_slice, put_u128, put_u16, put_u32, put_u64, put_u8,
    u128_bytes, u16_bytes, u32_bytes, u64_bytes,
};

verus! {

/// The id of `std::uuid`.
pub const STD_UUID: u128 = 0x100;

/// The id of `std::str`.
pub const STD_STR: u128 = 0x101;

/// The id of `std::bytes`.
pub const STD_BYTES: u128 = 0x102;

/// The id of `std::int16`.
pub const STD_INT16: u128 = 0x103;

/// The id of `std::int32`.
pub const STD_INT32: u128 = 0x104;

/// The id of `std::int64`.
pub const STD_INT64: u128 = 0x105;

/// The id of `std::float32`.
pub const STD_FLOAT32: u128 = 0x106;

/// The id of `std::float64`.
pub const STD_FLOAT64: u128 = 0x107;

/// The id of `std::decimal`.
pub const STD_DECIMAL: u128 = 0x108;

/// The id of `std::bool`.
pub const STD_BOOL: u128 = 0x109;

/// The id of `std::datetime`.
pub const STD_DATETIME: u128 = 0x10a;

/// The id of `cal::local_datetime`.
pub const CAL_LOCAL_DATETIME: u128 = 0x10b;

/// The id of `cal::local_date`.
pub const CAL_LOCAL_DATE: u128 = 0x10c;

/// The id of `cal::local_time`.
pub const CAL_LOCAL_TIME: u128 = 0x10d;

/// The id of `std::duration`.
pub const STD_DURATION: u128 = 0x10e;

/// The id of `std::json`.
pub const STD_JSON: u128 = 0x10f;

/// The id of `std::bigint`.
pub const STD_BIGINT: u128 = 0x110;

/// The id of `cal::relative_duration`.
pub const CAL_RELATIVE_DURATION: u128 = 0x111;

/// The id of `cal::date_duration`.
pub const CAL_DATE_DURATION: u128 = 0x112;

/// The id of `cfg::memory`.
pub const CFG_MEMORY: u128 = 0x130;

/// The id of `ext::pgvector::vector`.
pub const PGVECTOR_VECTOR: u128 = 0x9565dd88_04f5_11ee_a691_0b6ebe179825;

/// The buffer that query arguments are written to.
pub struct Encoder {
    pub buf: Vec<u8>,
}

/// Whether `after` starts with `before`.
pub open spec fn extends(before: Seq<u8>, after: Seq<u8>) -> bool {
    before.len() <= after.len() && after.subrange(0, before.len() as int) == before
}

/// What `encode` does, given the encoding of the value: on success it appends
/// the encoding; on failure it returns the error, having appended something or nothing.
pub open spec fn encode_outcome(
    encoding: Result<Seq<u8>, ArgError>,
    before: Seq<u8>,
    after: Seq<u8>,
    r: Result<(), ArgError>,
) -> bool {
    match encoding {
        Ok(b) => r is Ok && after == before + b,
        Err(e) => r == Err::<(), ArgError>(e) && extends(before, after),
    }
}

/// A 4-byte big-endian length followed by the bytes, where the length fits
/// in 32 bits.
pub open spec fn length_prefixed(encoding: Result<Seq<u8>, ArgError>) -> Result<
    Seq<u8>,
    ArgError,
> {
    match encoding {
        Err(e) => Err(e),
        Ok(b) => if b.len() <= u32::MAX {
            Ok(u32_bytes(b.len() as u32) + b)
        } else {
            Err(ArgError::ClientEncoding(EncodeError::ValueTooLong))
        },
    }
}

impl Encoder {
    /// An encoder with an empty buffer.
    pub fn new() -> (r: Encoder)
        ensures
            r.buf@ == Seq::<u8>::empty(),
    {
        Encoder { buf: Vec::new() }
    }

    /// Writes a placeholder for a 4-byte length and returns where it stands.
    fn begin_length_prefix(&mut self) -> (pos: usize)
        ensures
            pos == old(self).buf@.len(),
            final(self).buf@ == old(self).buf@ + u32_bytes(0),
    {
        let pos = self.buf.len();
        put_u32(&mut self.buf, 0);
        pos
    }

    /// Writes over the placeholder at `pos` the length of what follows it, or
    /// fails where that length does not fit in 32 bits.
    fn end_length_prefix(&mut self, pos: usize) -> (r: Result<(), ArgError>)
        requires
            pos + 4 <= old(self).buf@.len(),
        ensures
            ({
                let body = old(self).buf@.subrange(pos + 4, old(self).buf@.len() as int);
                let head = old(self).buf@.subrange(0, pos as int);
                match length_prefixed(Ok(body)) {
                    Ok(b) => r is Ok && final(self).buf@ == head + b,
                    Err(e) => r == Err::<(), ArgError>(e) && final(self).buf@ == old(self).buf@,
                }
            }),
    {
        let len = self.buf.len() - pos - 4;
        if len > 0xffff_ffff {
            return Err(ArgError::ClientEncoding(EncodeError::ValueTooLong));
        }
        let len = len as u32;
        let ghost old_buf = self.buf@;
        self.buf.set(pos, (len >> 24u32) as u8);
        self.buf.set(pos + 1, (len >> 16u32) as u8);
        self.buf.set(pos + 2, (len >> 8u32) as u8);
        self.buf.set(pos + 3, len as u8);
        proof {
            let body = old_buf.subrange(pos + 4, old_buf.len() as int);
            let head = old_buf.subrange(0, pos as int);
            assert(self.buf@ =~= head + (u32_bytes(len) + body));
        }
        Ok(())
    }
}

/// A type whose values can be query arguments.
pub trait ScalarArg: Sized {
    /// The bytes that encode `self`, or the error of encoding it.
    spec fn encoding(&self) -> Result<Seq<u8>, ArgError>;

    /// Appends the binary form of `self` to the encoder's buffer.
    fn encode(&self, encoder: &mut Encoder) -> (r: Result<(), ArgError>)
        ensures
            encode_outcome(self.encoding(), old(encoder).buf@, final(encoder).buf@, r),
    ;

    /// Whether checking the descriptor at `pos` comes to an end.
    spec fn check_terminates(ctx: &DescriptorContext, pos: TypePos) -> bool;

    /// The outcome of checking that the descriptor at `pos` fits this type.
    spec fn descriptor_check(ctx: &DescriptorContext, pos: TypePos) -> Result<(), ArgError>;

    /// Checks that the descriptor at `pos` describes a type that values of
    /// this type can be sent as.
    fn check_descriptor(ctx: &DescriptorContext, pos: TypePos) -> (r: Result<(), ArgError>)
        requires
            Self::check_terminates(ctx, pos),
        ensures
            r == Self::descriptor_check(ctx, pos),
    ;

    /// The dynamically typed value of `self`, as plain data.
    spec fn value(&self) -> ValueV;

    /// The dynamically typed value of `self`.
    fn to_value(&self) -> (r: Result<Value, ArgError>)
        ensures
            r matches Ok(v) && v@ == self.value(),
    ;
}

impl ScalarArg for String {
    /// The UTF-8 bytes of the text.
    open spec fn encoding(&self) -> Result<Seq<u8>, ArgError> {
        Ok(encode_utf8(self@))
    }

    fn encode(&self, encoder: &mut Encoder) -> (r: Result<(), ArgError>) {
        put_slice(&mut encoder.buf, self.as_str().as_bytes());
        Ok(())
    }

    open spec fn check_terminates(ctx: &DescriptorContext, pos: TypePos) -> bool {
        base_chain_ends(ctx.descriptors@, pos.0)
    }

    open spec fn descriptor_check(ctx: &DescriptorContext, pos: TypePos) -> Result<(), ArgError> {
        check_scalar_result(ctx, pos, Uuid(STD_STR), "std::str")
    }

    fn check_descriptor(ctx: &DescriptorContext, pos: TypePos) -> (r: Result<(), ArgError>) {
        check_scalar(ctx, pos, Uuid(STD_STR), "std::str")
    }

    open spec fn value(&self) -> ValueV {
        ValueV::Str(self@)
    }

    fn to_value(&self) -> (r: Result<Value, ArgError>) {
        Ok(Value::Str(self.clone()))
    }
}

/// The outcome of checking that the descriptor at `pos` fits a `&str`: an
/// enumeration fits; otherwise it must be `std::str`.
pub open spec fn str_descriptor_check(ctx: &DescriptorContext, pos: TypePos) -> Result<
    (),
    ArgError,
> {
    if (pos.0 as int) < ctx.descriptors@.len() && ctx.descriptors@[pos.0 as int] is Enumeration {
        Ok(())
    } else {
        check_scalar_result(ctx, pos, Uuid(STD_STR), "std::str")
    }
}

impl<'a> ScalarArg for &'a str {
    /// The UTF-8 bytes of the text.
    open spec fn encoding(&self) -> Result<Seq<u8>, ArgError> {
        Ok(encode_utf8(self@))
    }

    fn encode(&self, encoder: &mut Encoder) -> (r: Result<(), ArgError>) {
        put_slice(&mut encoder.buf, self.as_bytes());
        Ok(())
    }

    open spec fn check_terminates(ctx: &DescriptorContext, pos: TypePos) -> bool {
        base_chain_ends(ctx.descriptors@, pos.0)
    }

    open spec fn descriptor_check(ctx: &DescriptorContext, pos: TypePos) -> Result<(), ArgError> {
        str_descriptor_check(ctx, pos)
    }

    fn check_descriptor(ctx: &DescriptorContext, pos: TypePos) -> (r: Result<(), ArgError>) {
        // A &str can also name a member of an enumeration.
        if let Descriptor::Enumeration { .. } = ctx.get(pos)? {
            return Ok(());
        }
        check_scalar(ctx, pos, Uuid(STD_STR), "std::str")
    }

    open spec fn value(&self) -> ValueV {
        ValueV::Str(self@)
    }

    fn to_value(&self) -> (r: Result<Value, ArgError>) {
        Ok(Value::Str((*self).to_owned()))
    }
}

impl ScalarArg for Json {
    /// The format byte 1, then the UTF-8 bytes of the document.
    open spec fn encoding(&self) -> Result<Seq<u8>, ArgError> {
        Ok(seq![1u8] + encode_utf8(self.0@))
    }

    fn encode(&self, encoder: &mut Encoder) -> (r: Result<(), ArgError>) {
        put_u8(&mut encoder.buf, 1);
        put_slice(&mut encoder.buf, self.0.as_str().as_bytes());
        assert(encoder.buf@ =~= old(encoder).buf@ + (seq![1u8] + encode_utf8(self.0@)));
        Ok(())
    }

    open spec fn check_terminates(ctx: &DescriptorContext, pos: TypePos) -> bool {
        base_chain_ends(ctx.descriptors@, pos.0)
    }

    open spec fn descriptor_check(ctx: &DescriptorContext, pos: TypePos) -> Result<(), ArgError> {
        check_scalar_result(ctx, pos, Uuid(STD_JSON), "std::json")
    }

    fn check_descriptor(ctx: &DescriptorContext, pos: TypePos) -> (r: Result<(), ArgError>) {
        check_scalar(ctx, pos, Uuid(STD_JSON), "std::json")
    }

    open spec fn value(&self) -> ValueV {
        ValueV::Json(self.0@)
    }

    fn to_value(&self) -> (r: Result<Value, ArgError>) {
        Ok(Value::Json(Json(self.0.clone())))
    }
}

impl ScalarArg for Uuid {
    /// The sixteen big-endian bytes of the number.
    open spec fn encoding(&self) -> Result<Seq<u8>, ArgError> {
        Ok(u128_bytes(self.0))
    }

    fn encode(&self, encoder: &mut Encoder) -> (r: Result<(), ArgError>) {
        put_u128(&mut encoder.buf, self.0);
        Ok(())
    }

    open spec fn check_terminates(ctx: &DescriptorContext, pos: TypePos) -> bool {
        base_chain_ends(ctx.descriptors@, pos.0)
    }

    open spec fn descriptor_check(ctx: &DescriptorContext, pos: TypePos) -> Result<(), ArgError> {
        check_scalar_result(ctx, pos, Uuid(STD_UUID), "std::uuid")
    }

    fn check_descriptor(ctx: &DescriptorContext, pos: TypePos) -> (r: Result<(), ArgError>) {
        check_scalar(ctx, pos, Uuid(STD_UUID), "std::uuid")
    }

    open spec fn value(&self) -> ValueV {
        ValueV::Uuid(*self)
    }

    fn to_value(&self) -> (r: Result<Value, ArgError>) {
        Ok(Value::Uuid(*self))
    }
}

impl ScalarArg for bool {
    /// One byte: 1 for true, 0 for false.
    open spec fn encoding(&self) -> Result<Seq<u8>, ArgError> {
        Ok(if *self { seq![1u8] } else { seq![0u8] })
    }

    fn encode(&self, encoder: &mut Encoder) -> (r: Result<(), ArgError>) {
        put_u8(&mut encoder.buf, if *self { 0x01 } else { 0x00 });
        assert(encoder.buf@ =~= old(encoder).buf@ + (if *self { seq![1u8] } else { seq![0u8] }));
        Ok(())
    }

    open spec fn check_terminates(ctx: &DescriptorContext, pos: TypePos) -> bool {
        base_chain_ends(ctx.descriptors@, pos.0)
    }

    open spec fn descriptor_check(ctx: &DescriptorContext, pos: TypePos) -> Result<(), ArgError> {
        check_scalar_result(ctx, pos, Uuid(STD_BOOL), "std::bool")
    }

    fn check_descriptor(ctx: &DescriptorContext, pos: TypePos) -> (r: Result<(), ArgError>) {
        check_scalar(ctx, pos, Uuid(STD_BOOL), "std::bool")
    }

    open spec fn value(&self) -> ValueV {
        ValueV::Bool(*self)
    }

    fn to_value(&self) -> (r: Result<Value, ArgError>) {
        Ok(Value::Bool(*self))
    }
}

impl ScalarArg for i16 {
    /// The big-endian two's complement bytes.
    open spec fn encoding(&self) -> Result<Seq<u8>, ArgError> {
        Ok(i16_bytes(*self))
    }

    fn encode(&self, encoder: &mut Encoder) -> (r: Result<(), ArgError>) {
        put_i16(&mut encoder.buf, *self);
        Ok(())
    }

    open spec fn check_terminates(ctx: &DescriptorContext, pos: TypePos) -> bool {
        base_chain_ends(ctx.descriptors@, pos.0)
    }

    open spec fn descriptor_check(ctx: &DescriptorContext, pos: TypePos) -> Result<(), ArgError> {
        check_scalar_result(ctx, pos, Uuid(STD_INT16), "std::int16")
    }

    fn check_descriptor(ctx: &DescriptorContext, pos: TypePos) -> (r: Result<(), ArgError>) {
        check_scalar(ctx, pos, Uuid(STD_INT16), "std::int16")
    }

    open spec fn value(&self) -> ValueV {
        ValueV::Int16(*self)
    }

    fn to_value(&self) -> (r: Result<Value, ArgError>) {
        Ok(Value::Int16(*self))
    }
}

impl ScalarArg for i32 {
    /// The big-endian two's complement bytes.
    open spec fn encoding(&self) -> Result<Seq<u8>, ArgError> {
        Ok(i32_bytes(*self))
    }

    fn encode(&self, encoder: &mut Encoder) -> (r: Result<(), ArgError>) {
        put_i32(&mut encoder.buf, *self);
        Ok(())
    }

    open spec fn check_terminates(ctx: &DescriptorContext, pos: TypePos) -> bool {
        base_chain_ends(ctx.descriptors@, pos.0)
    }

    open spec fn descriptor_check(ctx: &DescriptorContext, pos: TypePos) -> Result<(), ArgError> {
        check_scalar_result(ctx, pos, Uuid(STD_INT32), "std::int32")
    }

    fn check_descriptor(ctx: &DescriptorContext, pos: TypePos) -> (r: Result<(), ArgError>) {
        check_scalar(ctx, pos, Uuid(STD_INT32), "std::int32")
    }

    open spec fn value(&self) -> ValueV {
        ValueV::Int32(*self)
    }

    fn to_value(&self) -> (r: Result<Value, ArgError>) {
        Ok(Value::Int32(*self))
    }
}

impl ScalarArg for i64 {
    /// The big-endian two's complement bytes.
    open spec fn encoding(&self) -> Result<Seq<u8>, ArgError> {
        Ok(i64_bytes(*self))
    }

    fn encode(&self, encoder: &mut Encoder) -> (r: Result<(), ArgError>) {
        put_i64(&mut encoder.buf, *self);
        Ok(())
    }

    open spec fn check_terminates(ctx: &DescriptorContext, pos: TypePos) -> bool {
        base_chain_ends(ctx.descriptors@, pos.0)
    }

    open spec fn descriptor_check(ctx: &DescriptorContext, pos: TypePos) -> Result<(), ArgError> {
        check_scalar_result(ctx, pos, Uuid(STD_INT64), "std::int64")
    }

    fn check_descriptor(ctx: &DescriptorContext, pos: TypePos) -> (r: Result<(), ArgError>) {
        check_scalar(ctx, pos, Uuid(STD_INT64), "std::int64")
    }

    open spec fn value(&self) -> ValueV {
        ValueV::Int64(*self)
    }

    fn to_value(&self) -> (r: Result<Value, ArgError>) {
        Ok(Value::Int64(*self))
    }
}

impl<'a> ScalarArg for &'a [u8] {
    /// The bytes themselves.
    open spec fn encoding(&self) -> Result<Seq<u8>, ArgError> {
        Ok(self@)
    }

    fn encode(&self, encoder: &mut Encoder) -> (r: Result<(), ArgError>) {
        put_slice(&mut encoder.buf, *self);
        Ok(())
    }

    open spec fn check_terminates(ctx: &DescriptorContext, pos: TypePos) -> bool {
        base_chain_ends(ctx.descriptors@, pos.0)
    }

    open spec fn descriptor_check(ctx: &DescriptorContext, pos: TypePos) -> Result<(), ArgError> {
        check_scalar_result(ctx, pos, Uuid(STD_BYTES), "std::bytes")
    }

    fn check_descriptor(ctx: &DescriptorContext, pos: TypePos) -> (r: Result<(), ArgError>) {
        check_scalar(ctx, pos, Uuid(STD_BYTES), "std::bytes")
    }

    open spec fn value(&self) -> ValueV {
        ValueV::Bytes(self@)
    }

    fn to_value(&self) -> (r: Result<Value, ArgError>) {
        Ok(Value::Bytes(bytes_copy_from_slice(*self)))
    }
}

impl ScalarArg for bytes::Bytes {
    /// The bytes themselves.
    open spec fn encoding(&self) -> Result<Seq<u8>, ArgError> {
        Ok(bytes_content(*self))
    }

    fn encode(&self, encoder: &mut Encoder) -> (r: Result<(), ArgError>) {
        put_slice(&mut encoder.buf, bytes_as_slice(self));
        Ok(())
    }

    open spec fn check_terminates(ctx: &DescriptorContext, pos: TypePos) -> bool {
        base_chain_ends(ctx.descriptors@, pos.0)
    }

    open spec fn descriptor_check(ctx: &DescriptorContext, pos: TypePos) -> Result<(), ArgError> {
        check_scalar_result(ctx, pos, Uuid(STD_BYTES), "std::bytes")
    }

    fn check_descriptor(ctx: &DescriptorContext, pos: TypePos) -> (r: Result<(), ArgError>) {
        check_scalar(ctx, pos, Uuid(STD_BYTES), "std::bytes")
    }

    open spec fn value(&self) -> ValueV {
        ValueV::Bytes(bytes_content(*self))
    }

    fn to_value(&self) -> (r: Result<Value, ArgError>) {
        Ok(Value::Bytes(bytes_clone(self)))
    }
}

impl ScalarArg for ConfigMemory {
    /// The eight big-endian bytes of the byte count.
    open spec fn encoding(&self) -> Result<Seq<u8>, ArgError> {
        Ok(i64_bytes(self.0))
    }

    fn encode(&self, encoder: &mut Encoder) -> (r: Result<(), ArgError>) {
        put_i64(&mut encoder.buf, self.0);
        Ok(())
    }

    open spec fn check_terminates(ctx: &DescriptorContext, pos: TypePos) -> bool {
        base_chain_ends(ctx.descriptors@, pos.0)
    }

    open spec fn descriptor_check(ctx: &DescriptorContext, pos: TypePos) -> Result<(), ArgError> {
        check_scalar_result(ctx, pos, Uuid(CFG_MEMORY), "cfg::memory")
    }

    fn check_descriptor(ctx: &DescriptorContext, pos: TypePos) -> (r: Result<(), ArgError>) {
        check_scalar(ctx, pos, Uuid(CFG_MEMORY), "cfg::memory")
    }

    open spec fn value(&self) -> ValueV {
        ValueV::ConfigMemory(*self)
    }

    fn to_value(&self) -> (r: Result<Value, ArgError>) {
        Ok(Value::ConfigMemory(*self))
    }
}

impl ScalarArg for Duration {
    /// The microseconds, then zero days and zero months.
    open spec fn encoding(&self) -> Result<Seq<u8>, ArgError> {
        Ok(i64_bytes(self.micros) + u32_bytes(0) + u32_bytes(0))
    }

    fn encode(&self, encoder: &mut Encoder) -> (r: Result<(), ArgError>) {
        put_i64(&mut encoder.buf, self.micros);
        put_u32(&mut encoder.buf, 0);
        put_u32(&mut encoder.buf, 0);
        assert(encoder.buf@ =~= old(encoder).buf@ + (i64_bytes(self.micros) + u32_bytes(0) + u32_bytes(0)));
        Ok(())
    }

    open spec fn check_terminates(ctx: &DescriptorContext, pos: TypePos) -> bool {
        base_chain_ends(ctx.descriptors@, pos.0)
    }

    open spec fn descriptor_check(ctx: &DescriptorContext, pos: TypePos) -> Result<(), ArgError> {
        check_scalar_result(ctx, pos, Uuid(STD_DURATION), "std::duration")
    }

    fn check_descriptor(ctx: &DescriptorContext, pos: TypePos) -> (r: Result<(), ArgError>) {
        check_scalar(ctx, pos, Uuid(STD_DURATION), "std::duration")
    }

    open spec fn value(&self) -> ValueV {
        ValueV::Duration(*self)
    }

    fn to_value(&self) -> (r: Result<Value, ArgError>) {
        Ok(Value::Duration(*self))
    }
}

impl ScalarArg for RelativeDuration {
    /// The microseconds, the days, the months.
    open spec fn encoding(&self) -> Result<Seq<u8>, ArgError> {
        Ok(i64_bytes(self.micros) + i32_bytes(self.days) + i32_bytes(self.months))
    }

    fn encode(&self, encoder: &mut Encoder) -> (r: Result<(), ArgError>) {
        put_i64(&mut encoder.buf, self.micros);
        put_i32(&mut encoder.buf, self.days);
        put_i32(&mut encoder.buf, self.months);
        assert(encoder.buf@ =~= old(encoder).buf@ + (i64_bytes(self.micros) + i32_bytes(self.days) + i32_bytes(self.months)));
        Ok(())
    }

    open spec fn check_terminates(ctx: &DescriptorContext, pos: TypePos) -> bool {
        base_chain_ends(ctx.descriptors@, pos.0)
    }

    open spec fn descriptor_check(ctx: &DescriptorContext, pos: TypePos) -> Result<(), ArgError> {
        check_scalar_result(ctx, pos, Uuid(CAL_RELATIVE_DURATION), "cal::relative_duration")
    }

    fn check_descriptor(ctx: &DescriptorContext, pos: TypePos) -> (r: Result<(), ArgError>) {
        check_scalar(ctx, pos, Uuid(CAL_RELATIVE_DURATION), "cal::relative_duration")
    }

    open spec fn value(&self) -> ValueV {
        ValueV::RelativeDuration(*self)
    }

    fn to_value(&self) -> (r: Result<Value, ArgError>) {
        Ok(Value::RelativeDuration(*self))
    }
}

impl ScalarArg for DateDuration {
    /// Zero microseconds, then the days and the months.
    open spec fn encoding(&self) -> Result<Seq<u8>, ArgError> {
        Ok(i64_bytes(0) + i32_bytes(self.days) + i32_bytes(self.months))
    }

    fn encode(&self, encoder: &mut Encoder) -> (r: Result<(), ArgError>) {
        put_i64(&mut encoder.buf, 0);
        put_i32(&mut encoder.buf, self.days);
        put_i32(&mut encoder.buf, self.months);
        assert(encoder.buf@ =~= old(encoder).buf@ + (i64_bytes(0) + i32_bytes(self.days) + i32_bytes(self.months)));
        Ok(())
    }

    open spec fn check_terminates(ctx: &DescriptorContext, pos: TypePos) -> bool {
        base_chain_ends(ctx.descriptors@, pos.0)
    }

    open spec fn descriptor_check(ctx: &DescriptorContext, pos: TypePos) -> Result<(), ArgError> {
        check_scalar_result(ctx, pos, Uuid(CAL_DATE_DURATION), "cal::date_duration")
    }

    fn check_descriptor(ctx: &DescriptorContext, pos: TypePos) -> (r: Result<(), ArgError>) {
        check_scalar(ctx, pos, Uuid(CAL_DATE_DURATION), "cal::date_duration")
    }

    open spec fn value(&self) -> ValueV {
        ValueV::DateDuration(*self)
    }

    fn to_value(&self) -> (r: Result<Value, ArgError>) {
        Ok(Value::DateDuration(*self))
    }
}

impl ScalarArg for Datetime {
    /// The eight bytes of microseconds since 2000-01-01T00:00:00Z.
    open spec fn encoding(&self) -> Result<Seq<u8>, ArgError> {
        Ok(i64_bytes(self@))
    }

    fn encode(&self, encoder: &mut Encoder) -> (r: Result<(), ArgError>) {
        put_i64(&mut encoder.buf, self.to_postgres_micros());
        Ok(())
    }

    open spec fn check_terminates(ctx: &DescriptorContext, pos: TypePos) -> bool {
        base_chain_ends(ctx.descriptors@, pos.0)
    }

    open spec fn descriptor_check(ctx: &DescriptorContext, pos: TypePos) -> Result<(), ArgError> {
        check_scalar_result(ctx, pos, Uuid(STD_DATETIME), "std::datetime")
    }

    fn check_descriptor(ctx: &DescriptorContext, pos: TypePos) -> (r: Result<(), ArgError>) {
        check_scalar(ctx, pos, Uuid(STD_DATETIME), "std::datetime")
    }

    open spec fn value(&self) -> ValueV {
        ValueV::Datetime(*self)
    }

    fn to_value(&self) -> (r: Result<Value, ArgError>) {
        Ok(Value::Datetime(*self))
    }
}

impl ScalarArg for LocalDatetime {
    /// The eight bytes of microseconds since 2000-01-01T00:00:00.
    open spec fn encoding(&self) -> Result<Seq<u8>, ArgError> {
        Ok(i64_bytes(self@))
    }

    fn encode(&self, encoder: &mut Encoder) -> (r: Result<(), ArgError>) {
        put_i64(&mut encoder.buf, self.to_postgres_micros());
        Ok(())
    }

    open spec fn check_terminates(ctx: &DescriptorContext, pos: TypePos) -> bool {
        base_chain_ends(ctx.descriptors@, pos.0)
    }

    open spec fn descriptor_check(ctx: &DescriptorContext, pos: TypePos) -> Result<(), ArgError> {
        check_scalar_result(ctx, pos, Uuid(CAL_LOCAL_DATETIME), "cal::local_datetime")
    }

    fn check_descriptor(ctx: &DescriptorContext, pos: TypePos) -> (r: Result<(), ArgError>) {
        check_scalar(ctx, pos, Uuid(CAL_LOCAL_DATETIME), "cal::local_datetime")
    }

    open spec fn value(&self) -> ValueV {
        ValueV::LocalDatetime(*self)
    }

    fn to_value(&self) -> (r: Result<Value, ArgError>) {
        Ok(Value::LocalDatetime(*self))
    }
}

impl ScalarArg for LocalDate {
    /// The four bytes of days since 2000-01-01.
    open spec fn encoding(&self) -> Result<Seq<u8>, ArgError> {
        Ok(i32_bytes(self.days))
    }

    fn encode(&self, encoder: &mut Encoder) -> (r: Result<(), ArgError>) {
        put_i32(&mut encoder.buf, self.days);
        Ok(())
    }

    open spec fn check_terminates(ctx: &DescriptorContext, pos: TypePos) -> bool {
        base_chain_ends(ctx.descriptors@, pos.0)
    }

    open spec fn descriptor_check(ctx: &DescriptorContext, pos: TypePos) -> Result<(), ArgError> {
        check_scalar_result(ctx, pos, Uuid(CAL_LOCAL_DATE), "cal::local_date")
    }

    fn check_descriptor(ctx: &DescriptorContext, pos: TypePos) -> (r: Result<(), ArgError>) {
        check_scalar(ctx, pos, Uuid(CAL_LOCAL_DATE), "cal::local_date")
    }

    open spec fn value(&self) -> ValueV {
        ValueV::LocalDate(*self)
    }

    fn to_value(&self) -> (r: Result<Value, ArgError>) {
        Ok(Value::LocalDate(*self))
    }
}

impl ScalarArg for LocalTime {
    /// The eight bytes of microseconds since midnight.
    open spec fn encoding(&self) -> Result<Seq<u8>, ArgError> {
        Ok(i64_bytes(self@ as i64))
    }

    fn encode(&self, encoder: &mut Encoder) -> (r: Result<(), ArgError>) {
        put_i64(&mut encoder.buf, self.to_micros() as i64);
        Ok(())
    }

    open spec fn check_terminates(ctx: &DescriptorContext, pos: TypePos) -> bool {
        base_chain_ends(ctx.descriptors@, pos.0)
    }

    open spec fn descriptor_check(ctx: &DescriptorContext, pos: TypePos) -> Result<(), ArgError> {
        check_scalar_result(ctx, pos, Uuid(CAL_LOCAL_TIME), "cal::local_time")
    }

    fn check_descriptor(ctx: &DescriptorContext, pos: TypePos) -> (r: Result<(), ArgError>) {
        check_scalar(ctx, pos, Uuid(CAL_LOCAL_TIME), "cal::local_time")
    }

    open spec fn value(&self) -> ValueV {
        ValueV::LocalTime(*self)
    }

    fn to_value(&self) -> (r: Result<Value, ArgError>) {
        Ok(Value::LocalTime(*self))
    }
}

/// The big-endian bytes of each number in turn.
pub open spec fn u16s_bytes(d: Seq<u16>) -> Seq<u8>
    decreases d.len(),
{
    if d.len() == 0 {
        Seq::empty()
    } else {
        u16s_bytes(d.drop_last()) + u16_bytes(d.last())
    }
}

/// The big-endian bytes of each number in turn.
pub open spec fn u32s_bytes(d: Seq<u32>) -> Seq<u8>
    decreases d.len(),
{
    if d.len() == 0 {
        Seq::empty()
    } else {
        u32s_bytes(d.drop_last()) + u32_bytes(d.last())
    }
}

/// The binary form of a decimal or big integer: the digit count, the weight,
/// the sign (0x4000 where negative, else 0), the count of decimal digits and
/// the digits, each in two big-endian bytes; an error where there are more
/// than 65535 digits.
pub open spec fn numeric_encoding(
    negative: bool,
    weight: i16,
    decimal_digits: u16,
    digits: Seq<u16>,
) -> Result<Seq<u8>, ArgError> {
    if digits.len() > 0xffff {
        Err(ArgError::ClientEncoding(EncodeError::BigIntTooLong))
    } else {
        Ok(
            u16_bytes(digits.len() as u16) + i16_bytes(weight) + u16_bytes(
                if negative {
                    0x4000u16
                } else {
                    0u16
                },
            ) + u16_bytes(decimal_digits) + u16s_bytes(digits),
        )
    }
}

/// Appends the big-endian bytes of each number in `vals`.
fn put_u16s(buf: &mut Vec<u8>, vals: &[u16])
    ensures
        final(buf)@ == old(buf)@ + u16s_bytes(vals@),
{
    let mut i: usize = 0;
    while i < vals.len()
        invariant
            i <= vals@.len(),
            buf@ == old(buf)@ + u16s_bytes(vals@.take(i as int)),
        decreases vals@.len() - i,
    {
        let ghost before = buf@;
        put_u16(buf, vals[i]);
        proof {
            assert(vals@.take(i + 1).drop_last() =~= vals@.take(i as int));
            assert(buf@ =~= old(buf)@ + u16s_bytes(vals@.take(i + 1)));
        }
        i += 1;
    }
    assert(vals@.take(vals@.len() as int) =~= vals@);
}

/// Appends the big-endian bytes of each number in `vals`.
fn put_u32s(buf: &mut Vec<u8>, vals: &[u32])
    ensures
        final(buf)@ == old(buf)@ + u32s_bytes(vals@),
{
    let mut i: usize = 0;
    while i < vals.len()
        invariant
            i <= vals@.len(),
            buf@ == old(buf)@ + u32s_bytes(vals@.take(i as int)),
        decreases vals@.len() - i,
    {
        put_u32(buf, vals[i]);
        proof {
            assert(vals@.take(i + 1).drop_last() =~= vals@.take(i as int));
            assert(buf@ =~= old(buf)@ + u32s_bytes(vals@.take(i + 1)));
        }
        i += 1;
    }
    assert(vals@.take(vals@.len() as int) =~= vals@);
}

/// Appends the binary form of a decimal or big integer, or fails, having
/// written nothing, where there are more than 65535 digits.
fn put_numeric(
    buf: &mut Vec<u8>,
    negative: bool,
    weight: i16,
    decimal_digits: u16,
    digits: &Vec<u16>,
) -> (r: Result<(), ArgError>)
    ensures
        encode_outcome(
            numeric_encoding(negative, weight, decimal_digits, digits@),
            old(buf)@,
            final(buf)@,
            r,
        ),
{
    if digits.len() > 0xffff {
        assert(old(buf)@.subrange(0, old(buf)@.len() as int) =~= old(buf)@);
        return Err(ArgError::ClientEncoding(EncodeError::BigIntTooLong));
    }
    put_u16(buf, digits.len() as u16);
    put_i16(buf, weight);
    put_u16(
        buf,
        if negative {
            0x4000
        } else {
            0x0000
        },
    );
    put_u16(buf, decimal_digits);
    put_u16s(buf, digits.as_slice());
    assert(buf@ =~= old(buf)@ + numeric_encoding(negative, weight, decimal_digits, digits@).unwrap());
    Ok(())
}

/// A copy of the digits.
fn copy_digits(digits: &Vec<u16>) -> (r: Vec<u16>)
    ensures
        r@ == digits@,
{
    vstd::slice::slice_to_vec(digits.as_slice())
}

impl ScalarArg for Decimal {
    open spec fn encoding(&self) -> Result<Seq<u8>, ArgError> {
        numeric_encoding(self.negative, self.weight, self.decimal_digits, self.digits@)
    }

    fn encode(&self, encoder: &mut Encoder) -> (r: Result<(), ArgError>) {
        put_numeric(&mut encoder.buf, self.negative, self.weight, self.decimal_digits, &self.digits)
    }

    open spec fn check_terminates(ctx: &DescriptorContext, pos: TypePos) -> bool {
        base_chain_ends(ctx.descriptors@, pos.0)
    }

    open spec fn descriptor_check(ctx: &DescriptorContext, pos: TypePos) -> Result<(), ArgError> {
        check_scalar_result(ctx, pos, Uuid(STD_DECIMAL), "std::decimal")
    }

    fn check_descriptor(ctx: &DescriptorContext, pos: TypePos) -> (r: Result<(), ArgError>) {
        check_scalar(ctx, pos, Uuid(STD_DECIMAL), "std::decimal")
    }

    open spec fn value(&self) -> ValueV {
        ValueV::Decimal {
            negative: self.negative,
            weight: self.weight,
            decimal_digits: self.decimal_digits,
            digits: self.digits@,
        }
    }

    fn to_value(&self) -> (r: Result<Value, ArgError>) {
        Ok(
            Value::Decimal(
                Decimal {
                    negative: self.negative,
                    weight: self.weight,
                    decimal_digits: self.decimal_digits,
                    digits: copy_digits(&self.digits),
                },
            ),
        )
    }
}

impl ScalarArg for BigInt {
    /// As a decimal with no decimal digits.
    open spec fn encoding(&self) -> Result<Seq<u8>, ArgError> {
        numeric_encoding(self.negative, self.weight, 0, self.digits@)
    }

    fn encode(&self, encoder: &mut Encoder) -> (r: Result<(), ArgError>) {
        put_numeric(&mut encoder.buf, self.negative, self.weight, 0, &self.digits)
    }

    open spec fn check_terminates(ctx: &DescriptorContext, pos: TypePos) -> bool {
        base_chain_ends(ctx.descriptors@, pos.0)
    }

    open spec fn descriptor_check(ctx: &DescriptorContext, pos: TypePos) -> Result<(), ArgError> {
        check_scalar_result(ctx, pos, Uuid(STD_BIGINT), "std::bigint")
    }

    fn check_descriptor(ctx: &DescriptorContext, pos: TypePos) -> (r: Result<(), ArgError>) {
        check_scalar(ctx, pos, Uuid(STD_BIGINT), "std::bigint")
    }

    open spec fn value(&self) -> ValueV {
        ValueV::BigInt { negative: self.negative, weight: self.weight, digits: self.digits@ }
    }

    fn to_value(&self) -> (r: Result<Value, ArgError>) {
        Ok(
            Value::BigInt(
                BigInt {
                    negative: self.negative,
                    weight: self.weight,
                    digits: copy_digits(&self.digits),
                },
            ),
        )
    }
}

/// The outcome of checking the descriptor at `pos` for an enumeration value:
/// an error in every case, `InvalidTypePos` past the end of the list and
/// `WrongType` otherwise.
pub open spec fn enum_descriptor_check(ctx: &DescriptorContext, pos: TypePos) -> Result<
    (),
    ArgError,
> {
    if (pos.0 as int) < ctx.descriptors@.len() {
        Err(ArgError::WrongType { found: pos.0, expected: "enum" })
    } else {
        Err(ArgError::InvalidTypePos { pos: pos.0 })
    }
}

impl ScalarArg for EnumValue {
    /// The UTF-8 bytes of the variant's name.
    open spec fn encoding(&self) -> Result<Seq<u8>, ArgError> {
        Ok(encode_utf8(self.0@))
    }

    fn encode(&self, encoder: &mut Encoder) -> (r: Result<(), ArgError>) {
        put_slice(&mut encoder.buf, self.0.as_str().as_bytes());
        Ok(())
    }

    open spec fn check_terminates(ctx: &DescriptorContext, pos: TypePos) -> bool {
        true
    }

    open spec fn descriptor_check(ctx: &DescriptorContext, pos: TypePos) -> Result<(), ArgError> {
        enum_descriptor_check(ctx, pos)
    }

    fn check_descriptor(ctx: &DescriptorContext, pos: TypePos) -> (r: Result<(), ArgError>) {
        let desc = ctx.get(pos)?;
        if let Descriptor::Enumeration { .. } = desc {
            // The members of the enumeration are not checked here.
        }
        Err(ctx.wrong_type(pos, "enum"))
    }

    open spec fn value(&self) -> ValueV {
        ValueV::Enum(self.0@)
    }

    fn to_value(&self) -> (r: Result<Value, ArgError>) {
        Ok(Value::Enum(EnumValue(self.0.clone())))
    }
}

/// The flags byte of a range.
pub open spec fn range_flags<T>(r: &Range<T>) -> u8 {
    if r.empty {
        RANGE_EMPTY
    } else {
        (if r.inc_lower {
            RANGE_LB_INC
        } else {
            0u8
        }) | (if r.inc_upper {
            RANGE_UB_INC
        } else {
            0u8
        }) | (if r.lower is None {
            RANGE_LB_INF
        } else {
            0u8
        }) | (if r.upper is None {
            RANGE_UB_INF
        } else {
            0u8
        })
    }
}

/// The binary form of a bound: nothing for a missing bound, else the
/// length-prefixed encoding of its value.
pub open spec fn bound_encoding<T: ScalarArg>(b: Option<T>) -> Result<Seq<u8>, ArgError> {
    match b {
        None => Ok(Seq::empty()),
        Some(v) => length_prefixed(v.encoding()),
    }
}

/// The value of the bound `b`: none for a missing bound.
pub open spec fn bound_value<T: ScalarArg>(b: Option<T>) -> Option<Box<ValueV>> {
    match b {
        None => None,
        Some(x) => Some(Box::new(x.value())),
    }
}

/// Appends the length-prefixed encoding of `v`.
fn encode_bound<T: ScalarArg>(v: &T, encoder: &mut Encoder) -> (r: Result<(), ArgError>)
    ensures
        encode_outcome(length_prefixed(v.encoding()), old(encoder).buf@, final(encoder).buf@, r),
{
    let pos = encoder.begin_length_prefix();
    let ghost mid = encoder.buf@;
    let res = v.encode(encoder);
    match res {
        Err(e) => {
            assert(encoder.buf@.subrange(0, old(encoder).buf@.len() as int) =~= old(
                encoder,
            ).buf@) by {
                assert(encoder.buf@.subrange(0, mid.len() as int) == mid);
                assert(mid.subrange(0, old(encoder).buf@.len() as int) =~= old(encoder).buf@);
                assert(encoder.buf@.subrange(0, old(encoder).buf@.len() as int) =~= mid.subrange(
                    0,
                    old(encoder).buf@.len() as int,
                ));
            }
            return Err(e);
        },
        Ok(()) => {},
    }
    let ghost body = v.encoding().unwrap();
    assert(encoder.buf@.subrange(pos + 4, encoder.buf@.len() as int) =~= body);
    assert(encoder.buf@.subrange(0, pos as int) =~= old(encoder).buf@);
    let ghost full = encoder.buf@;
    let res = encoder.end_length_prefix(pos);
    proof {
        match length_prefixed(v.encoding()) {
            Ok(b) => {
                assert(encoder.buf@ =~= old(encoder).buf@ + b);
            },
            Err(e) => {
                assert(encoder.buf@.subrange(0, old(encoder).buf@.len() as int) =~= old(
                    encoder,
                ).buf@);
            },
        }
    }
    res
}

impl<T: ScalarArg> ScalarArg for Range<T> {
    /// The flags byte, then each bound that is present, length-prefixed.
    open spec fn encoding(&self) -> Result<Seq<u8>, ArgError> {
        match bound_encoding(self.lower) {
            Err(e) => Err(e),
            Ok(lb) => match bound_encoding(self.upper) {
                Err(e) => Err(e),
                Ok(ub) => Ok(seq![range_flags(self)] + lb + ub),
            },
        }
    }

    fn encode(&self, encoder: &mut Encoder) -> (r: Result<(), ArgError>) {
        let flags = if self.empty {
            RANGE_EMPTY
        } else {
            (if self.inc_lower {
                RANGE_LB_INC
            } else {
                0
            }) | (if self.inc_upper {
                RANGE_UB_INC
            } else {
                0
            }) | (if self.lower.is_none() {
                RANGE_LB_INF
            } else {
                0
            }) | (if self.upper.is_none() {
                RANGE_UB_INF
            } else {
                0
            })
        };
        put_u8(&mut encoder.buf, flags);
        let ghost after_flags = encoder.buf@;
        assert(after_flags =~= old(encoder).buf@ + seq![range_flags(self)]);
        if let Some(lower) = &self.lower {
            let res = encode_bound(lower, encoder);
            if res.is_err() {
                assert(encoder.buf@.subrange(0, old(encoder).buf@.len() as int) =~= old(
                    encoder,
                ).buf@) by {
                    assert(encoder.buf@.subrange(0, after_flags.len() as int) == after_flags);
                    assert(encoder.buf@.subrange(0, old(encoder).buf@.len() as int) =~= after_flags.subrange(0, old(encoder).buf@.len() as int));
                }
                return res;
            }
        }
        let ghost after_lower = encoder.buf@;
        if let Some(upper) = &self.upper {
            let res = encode_bound(upper, encoder);
            if res.is_err() {
                assert(encoder.buf@.subrange(0, old(encoder).buf@.len() as int) =~= old(
                    encoder,
                ).buf@) by {
                    assert(encoder.buf@.subrange(0, after_lower.len() as int) == after_lower);
                    assert(encoder.buf@.subrange(0, old(encoder).buf@.len() as int) =~= after_lower.subrange(0, old(encoder).buf@.len() as int));
                }
                return res;
            }
        }
        assert(encoder.buf@ =~= old(encoder).buf@ + self.encoding().unwrap());
        Ok(())
    }

    open spec fn check_terminates(ctx: &DescriptorContext, pos: TypePos) -> bool {
        (pos.0 as int) < ctx.descriptors@.len() ==> match ctx.descriptors@[pos.0 as int] {
            Descriptor::Range { type_pos, .. } => T::check_terminates(ctx, type_pos),
            _ => true,
        }
    }

    /// A range descriptor whose element type fits `T`.
    open spec fn descriptor_check(ctx: &DescriptorContext, pos: TypePos) -> Result<(), ArgError> {
        if (pos.0 as int) >= ctx.descriptors@.len() {
            Err(ArgError::InvalidTypePos { pos: pos.0 })
        } else {
            match ctx.descriptors@[pos.0 as int] {
                Descriptor::Range { type_pos, .. } => T::descriptor_check(ctx, type_pos),
                _ => Err(ArgError::WrongType { found: pos.0, expected: "range" }),
            }
        }
    }

    fn check_descriptor(ctx: &DescriptorContext, pos: TypePos) -> (r: Result<(), ArgError>) {
        let desc = ctx.get(pos)?;
        if let Descriptor::Range { type_pos, .. } = desc {
            T::check_descriptor(ctx, *type_pos)
        } else {
            Err(ctx.wrong_type(pos, "range"))
        }
    }

    open spec fn value(&self) -> ValueV {
        ValueV::Range {
            lower: bound_value(self.lower),
            upper: bound_value(self.upper),
            inc_lower: self.inc_lower,
            inc_upper: self.inc_upper,
            empty: self.empty,
        }
    }

    fn to_value(&self) -> (r: Result<Value, ArgError>) {
        let lower = match &self.lower {
            Some(v) => Some(Box::new(v.to_value()?)),
            None => None,
        };
        let upper = match &self.upper {
            Some(v) => Some(Box::new(v.to_value()?)),
            None => None,
        };
        Ok(
            Value::Range(
                Range {
                    lower,
                    upper,
                    inc_lower: self.inc_lower,
                    inc_upper: self.inc_upper,
                    empty: self.empty,
                },
            ),
        )
    }
}

/// The flags byte of a range, the first byte of its encoding, says what the
/// range is: bit 0x01 that it is empty; and for a range that is not empty,
/// bit 0x02 that the lower bound is included, 0x04 that the upper bound is
/// included, 0x08 that there is no lower bound and 0x10 that there is no
/// upper bound. No other bit is set.
pub proof fn law_range_flags<T: ScalarArg>(r: Range<T>)
    requires
        r.encoding() is Ok,
    ensures
        ({
            let b = r.encoding()->Ok_0;
            &&& b.len() >= 1
            &&& (b[0] & 0x01 != 0) == r.empty
            &&& (b[0] & 0x02 != 0) == (!r.empty && r.inc_lower)
            &&& (b[0] & 0x04 != 0) == (!r.empty && r.inc_upper)
            &&& (b[0] & 0x08 != 0) == (!r.empty && r.lower is None)
            &&& (b[0] & 0x10 != 0) == (!r.empty && r.upper is None)
            &&& b[0] & 0xe0 == 0
        }),
{
    let b = r.encoding()->Ok_0;
    let f = range_flags(&r);
    assert(b[0] == f);
    let (e, il, iu, ln, un) = (r.empty, r.inc_lower, r.inc_upper, r.lower is None, r.upper is None);
    assert(f == (if e {
        1u8
    } else {
        (if il {
            2u8
        } else {
            0u8
        }) | (if iu {
            4u8
        } else {
            0u8
        }) | (if ln {
            8u8
        } else {
            0u8
        }) | (if un {
            16u8
        } else {
            0u8
        })
    }));
    assert({
        &&& (f & 0x01 != 0) == e
        &&& (f & 0x02 != 0) == (!e && il)
        &&& (f & 0x04 != 0) == (!e && iu)
        &&& (f & 0x08 != 0) == (!e && ln)
        &&& (f & 0x10 != 0) == (!e && un)
        &&& f & 0xe0 == 0
    }) by (bit_vector)
        requires
            f == (if e {
                1u8
            } else {
                (if il {
                    2u8
                } else {
                    0u8
                }) | (if iu {
                    4u8
                } else {
                    0u8
                }) | (if ln {
                    8u8
                } else {
                    0u8
                }) | (if un {
                    16u8
                } else {
                    0u8
                })
            }),
    ;
}

/// After its flags byte, a range's encoding holds the lower bound and then
/// the upper bound, each that is present as a 4-byte big-endian length
/// followed by the bound's own encoding; a missing bound takes no bytes.
pub proof fn law_range_bounds<T: ScalarArg>(r: Range<T>)
    requires
        r.encoding() is Ok,
    ensures
        r.lower matches Some(x) ==> x.encoding() is Ok && x.encoding()->Ok_0.len() <= u32::MAX,
        r.upper matches Some(x) ==> x.encoding() is Ok && x.encoding()->Ok_0.len() <= u32::MAX,
        ({
            let b = r.encoding()->Ok_0;
            let lo = match r.lower {
                Some(x) => u32_bytes(x.encoding()->Ok_0.len() as u32) + x.encoding()->Ok_0,
                None => Seq::empty(),
            };
            let hi = match r.upper {
                Some(x) => u32_bytes(x.encoding()->Ok_0.len() as u32) + x.encoding()->Ok_0,
                None => Seq::empty(),
            };
            b =~= seq![b[0]] + lo + hi
        }),
{
}

/// The binary form of a vector: its length (cut to 16 bits), two reserved
/// zero bytes, then the bit pattern of each component.
pub open spec fn vector_encoding(v: Seq<u32>) -> Seq<u8> {
    u16_bytes(v.len() as u16) + u16_bytes(0) + u32s_bytes(v)
}

impl<'a> ScalarArg for VectorRef<'a> {
    open spec fn encoding(&self) -> Result<Seq<u8>, ArgError> {
        Ok(vector_encoding(self.0@))
    }

    fn encode(&self, encoder: &mut Encoder) -> (r: Result<(), ArgError>) {
        put_u16(&mut encoder.buf, self.0.len() as u16);
        put_u16(&mut encoder.buf, 0);
        put_u32s(&mut encoder.buf, self.0);
        assert(encoder.buf@ =~= old(encoder).buf@ + vector_encoding(self.0@));
        Ok(())
    }

    open spec fn check_terminates(ctx: &DescriptorContext, pos: TypePos) -> bool {
        base_chain_ends(ctx.descriptors@, pos.0)
    }

    open spec fn descriptor_check(ctx: &DescriptorContext, pos: TypePos) -> Result<(), ArgError> {
        check_scalar_result(ctx, pos, Uuid(PGVECTOR_VECTOR), "ext::pgvector::vector")
    }

    fn check_descriptor(ctx: &DescriptorContext, pos: TypePos) -> (r: Result<(), ArgError>) {
        check_scalar(ctx, pos, Uuid(PGVECTOR_VECTOR), "ext::pgvector::vector")
    }

    open spec fn value(&self) -> ValueV {
        ValueV::Vector(self.0@)
    }

    fn to_value(&self) -> (r: Result<Value, ArgError>) {
        Ok(Value::Vector(vstd::slice::slice_to_vec(self.0)))
    }
}

impl ScalarArg for Vector {
    /// As the borrowed vector of the same components.
    open spec fn encoding(&self) -> Result<Seq<u8>, ArgError> {
        Ok(vector_encoding(self.0@))
    }

    fn encode(&self, encoder: &mut Encoder) -> (r: Result<(), ArgError>) {
        VectorRef(self.0.as_slice()).encode(encoder)
    }

    open spec fn check_terminates(ctx: &DescriptorContext, pos: TypePos) -> bool {
        base_chain_ends(ctx.descriptors@, pos.0)
    }

    open spec fn descriptor_check(ctx: &DescriptorContext, pos: TypePos) -> Result<(), ArgError> {
        check_scalar_result(ctx, pos, Uuid(PGVECTOR_VECTOR), "ext::pgvector::vector")
    }

    fn check_descriptor(ctx: &DescriptorContext, pos: TypePos) -> (r: Result<(), ArgError>) {
        VectorRef::check_descriptor(ctx, pos)
    }

    open spec fn value(&self) -> ValueV {
        ValueV::Vector(self.0@)
    }

    fn to_value(&self) -> (r: Result<Value, ArgError>) {
        VectorRef(self.0.as_slice()).to_value()
    }
}

/// Writes a 32-bit floating point number by its IEEE 754 bit pattern: four
/// big-endian bytes.
pub fn encode_f32_bits(bits: u32, encoder: &mut Encoder)
    ensures
        final(encoder).buf@ == old(encoder).buf@ + u32_bytes(bits),
{
    put_u32(&mut encoder.buf, bits);
}

/// Writes a 64-bit floating point number by its IEEE 754 bit pattern: eight
/// big-endian bytes.
pub fn encode_f64_bits(bits: u64, encoder: &mut Encoder)
    ensures
        final(encoder).buf@ == old(encoder).buf@ + u64_bytes(bits),
{
    put_u64(&mut encoder.buf, bits);
}

/// Checks that the descriptor at `pos` is `std::float32`, or a scalar derived from it.
pub fn check_f32_descriptor(ctx: &DescriptorContext, pos: TypePos) -> (r: Result<(), ArgError>)
    requires
        base_chain_ends(ctx.descriptors@, pos.0),
    ensures
        r == check_scalar_result(ctx, pos, Uuid(STD_FLOAT32), "std::float32"),
{
    check_scalar(ctx, pos, Uuid(STD_FLOAT32), "std::float32")
}

/// Checks that the descriptor at `pos` is `std::float64`, or a scalar derived from it.
pub fn check_f64_descriptor(ctx: &DescriptorContext, pos: TypePos) -> (r: Result<(), ArgError>)
    requires
        base_chain_ends(ctx.descriptors@, pos.0),
    ensures
        r == check_scalar_result(ctx, pos, Uuid(STD_FLOAT64), "std::float64"),
{
    check_scalar(ctx, pos, Uuid(STD_FLOAT64), "std::float64")
}

} // verus!
