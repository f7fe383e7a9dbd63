//! The binary layout of the protocol's messages and the decoding of a message
//! by its layout.
//!
//! A layout is a list of field types. Fields are read one after the other,
//! big-endian; an array is a count followed by its elements, which are checked
//! but kept as the bytes they span. A message must use the whole buffer: where
//! decoding stops short of its end, for any reason, the message is refused as
//! too long by the bytes left over.
//!
//! Field values are written back in the same form: a decoded message is
//! written as the bytes it was read from, and values that fit a layout are
//! read back as themselves.
use vstd::prelude::*;
use vstd::slice::slice_subrange;

use crate::protocol::{
    input_language_byte, io_format_byte, transaction_state_byte, InputLanguage, IoFormat,
    TransactionState,
};
use crate::wire::{
    get_i16, get_i32, get_u128, get_u16, get_u32, get_u64, get_u8, i16_at, i16_bytes, i32_at,
    i32_bytes, lemma_i16_bytes_of_read, lemma_i16_roundtrip, lemma_i32_bytes_of_read, lemma_i32_roundtrip, lemma_u128_bytes_of_read,
    lemma_u128_roundtrip, lemma_u16_bytes_of_read, lemma_u16_roundtrip, lemma_u32_bytes_of_read,
    lemma_u32_roundtrip, lemma_u64_bytes_of_read, lemma_u64_roundtrip, put_i16, put_i32,
    put_slice, put_u128, put_u16, put_u32, put_u64, put_u8, u128_at, u128_bytes, u16_at, u16_bytes,
    u32_at, u32_bytes, u64_at, u64_bytes,
};

verus! {

/// Why a message could not be decoded.
#[derive(Debug, Clone, Copy, PartialEq, Eq)]
pub enum ParseError {
    /// The buffer ended before the layout did.
    TooShort,
    /// Bytes were left over after the layout (or where decoding stopped).
    TooLong(usize),
    /// A field held a value outside its type, named by the first component.
    InvalidData(&'static str, usize),
}

/// The type of the count that precedes an array.
#[derive(Debug, Clone, Copy, PartialEq, Eq, Structural)]
pub enum CountType {
    I16,
    I32,
    U32,
}

/// The one-byte enumerations that a field can hold.
#[derive(Debug, Clone, Copy, PartialEq, Eq, Structural)]
pub enum EnumType {
    IoFormat,
    InputLanguage,
    TransactionState,
}

/// The structures that arrays hold.
#[derive(Debug, Clone, Copy, PartialEq, Eq, Structural)]
pub enum Element {
    /// A length-prefixed string.
    LString,
    /// A key code and a value.
    KeyValue,
    /// A name and a value.
    Annotation,
    /// Encoded output data.
    DataElement,
    /// Type name, type class and type id in a dump.
    DumpTypeInfo,
    /// An object descriptor in a dump.
    DumpObjectDesc,
    /// A protocol extension: name and annotations.
    ProtocolExtension,
    /// A connection parameter: name and value.
    ConnectionParam,
}

/// The type of a field of a message or of an element of an array.
#[derive(Debug, Clone, Copy, PartialEq, Eq, Structural)]
pub enum FieldType {
    U8,
    U16,
    I16,
    I32,
    U32,
    U64,
    /// The message length: an `i32`, read without a check.
    Length,
    /// Sixteen bytes.
    Uuid,
    /// A fixed number of bytes.
    FixedBytes(usize),
    /// One byte naming a member of an enumeration.
    Enum(EnumType),
    /// A count, then that many bytes (a length-prefixed string with `U32`).
    Bytes(CountType),
    /// A count, then that many UUIDs.
    Uuids(CountType),
    /// A count, then that many elements.
    Structs(CountType, Element),
    /// All the bytes that are left.
    Rest,
}

/// A decoded field.
#[derive(Debug, Clone, Copy, PartialEq, Eq)]
pub enum FieldValue<'a> {
    U8(u8),
    U16(u16),
    I16(i16),
    I32(i32),
    U32(u32),
    U64(u64),
    Length(i32),
    Uuid(u128),
    FixedBytes(&'a [u8]),
    IoFormat(IoFormat),
    InputLanguage(InputLanguage),
    TransactionState(TransactionState),
    Bytes(&'a [u8]),
    /// An array of UUIDs or elements: the count and the bytes of the elements.
    Array { len: usize, bytes: &'a [u8] },
    Rest(&'a [u8]),
}

/// A decoded field, with bytes as sequences.
pub enum FieldVal {
    U8(u8),
    U16(u16),
    I16(i16),
    I32(i32),
    U32(u32),
    U64(u64),
    Length(i32),
    Uuid(u128),
    FixedBytes(Seq<u8>),
    IoFormat(IoFormat),
    InputLanguage(InputLanguage),
    TransactionState(TransactionState),
    Bytes(Seq<u8>),
    Array { len: nat, bytes: Seq<u8> },
    Rest(Seq<u8>),
}

impl<'a> View for FieldValue<'a> {
    type V = FieldVal;

    open spec fn view(&self) -> FieldVal {
        match *self {
            FieldValue::U8(v) => FieldVal::U8(v),
            FieldValue::U16(v) => FieldVal::U16(v),
            FieldValue::I16(v) => FieldVal::I16(v),
            FieldValue::I32(v) => FieldVal::I32(v),
            FieldValue::U32(v) => FieldVal::U32(v),
            FieldValue::U64(v) => FieldVal::U64(v),
            FieldValue::Length(v) => FieldVal::Length(v),
            FieldValue::Uuid(v) => FieldVal::Uuid(v),
            FieldValue::FixedBytes(b) => FieldVal::FixedBytes(b@),
            FieldValue::IoFormat(v) => FieldVal::IoFormat(v),
            FieldValue::InputLanguage(v) => FieldVal::InputLanguage(v),
            FieldValue::TransactionState(v) => FieldVal::TransactionState(v),
            FieldValue::Bytes(b) => FieldVal::Bytes(b@),
            FieldValue::Array { len, bytes } => FieldVal::Array { len: len as nat, bytes: bytes@ },
            FieldValue::Rest(b) => FieldVal::Rest(b@),
        }
    }
}

/// The fields of an element.
pub open spec fn element_fields(e: Element) -> Seq<FieldType> {
    match e {
        Element::LString => seq![FieldType::Bytes(CountType::U32)],
        Element::KeyValue => seq![FieldType::U16, FieldType::Bytes(CountType::U32)],
        Element::Annotation => seq![
            FieldType::Bytes(CountType::U32),
            FieldType::Bytes(CountType::U32),
        ],
        Element::DataElement => seq![FieldType::Bytes(CountType::I32)],
        Element::DumpTypeInfo => seq![
            FieldType::Bytes(CountType::U32),
            FieldType::Bytes(CountType::U32),
            FieldType::Uuid,
        ],
        Element::DumpObjectDesc => seq![
            FieldType::Uuid,
            FieldType::Bytes(CountType::U32),
            FieldType::Uuids(CountType::I16),
        ],
        Element::ProtocolExtension => seq![
            FieldType::Bytes(CountType::U32),
            FieldType::Structs(CountType::I16, Element::Annotation),
        ],
        Element::ConnectionParam => seq![
            FieldType::Bytes(CountType::U32),
            FieldType::Bytes(CountType::U32),
        ],
    }
}

/// How deeply arrays nest inside an element, plus one.
pub open spec fn rank(e: Element) -> nat {
    match e {
        Element::ProtocolExtension => 2,
        _ => 1,
    }
}

/// The depth that a message layout's arrays may nest to.
pub open spec fn message_rank() -> nat {
    3
}

/// Whether every array of elements in `fields` has rank less than `r`.
pub open spec fn ranked(fields: Seq<FieldType>, r: nat) -> bool {
    forall|i: int|
        0 <= i < fields.len() ==> match #[trigger] fields[i] {
            FieldType::Structs(_, e) => rank(e) < r,
            _ => true,
        }
}

/// The width of a count.
pub open spec fn count_width(c: CountType) -> int {
    match c {
        CountType::I16 => 2,
        CountType::I32 => 4,
        CountType::U32 => 4,
    }
}

/// The count at `pos`, as the array reads it: converted to `usize` as Rust's
/// `as` does, so that a negative count becomes a very large one.
pub open spec fn count_at(c: CountType, s: Seq<u8>, pos: int) -> usize {
    match c {
        CountType::I16 => i16_at(s, pos) as usize,
        CountType::I32 => i32_at(s, pos) as usize,
        CountType::U32 => u32_at(s, pos) as usize,
    }
}

/// The width of a fixed-width integer field, or 0 for other fields.
pub open spec fn int_width(f: FieldType) -> int {
    match f {
        FieldType::U8 => 1,
        FieldType::U16 => 2,
        FieldType::I16 => 2,
        FieldType::I32 => 4,
        FieldType::U32 => 4,
        FieldType::U64 => 8,
        FieldType::Length => 4,
        _ => 0,
    }
}

/// The value of a fixed-width integer field at `pos`.
pub open spec fn int_value(f: FieldType, s: Seq<u8>, pos: int) -> FieldVal {
    match f {
        FieldType::U8 => FieldVal::U8(s[pos]),
        FieldType::U16 => FieldVal::U16(u16_at(s, pos)),
        FieldType::I16 => FieldVal::I16(i16_at(s, pos)),
        FieldType::I32 => FieldVal::I32(i32_at(s, pos)),
        FieldType::U32 => FieldVal::U32(u32_at(s, pos)),
        FieldType::U64 => FieldVal::U64(u64_at(s, pos)),
        _ => FieldVal::Length(i32_at(s, pos)),
    }
}

/// The member of an enumeration that a byte names, if any.
pub open spec fn enum_value(t: EnumType, b: u8) -> Option<FieldVal> {
    match t {
        EnumType::IoFormat => if exists|f: IoFormat| io_format_byte(f) == b {
            Some(FieldVal::IoFormat(choose|f: IoFormat| io_format_byte(f) == b))
        } else {
            None
        },
        EnumType::InputLanguage => if exists|l: InputLanguage| input_language_byte(l) == b {
            Some(FieldVal::InputLanguage(choose|l: InputLanguage| input_language_byte(l) == b))
        } else {
            None
        },
        EnumType::TransactionState => if exists|t: TransactionState|
            transaction_state_byte(t) == b {
            Some(
                FieldVal::TransactionState(
                    choose|t: TransactionState| transaction_state_byte(t) == b,
                ),
            )
        } else {
            None
        },
    }
}

/// The name of an enumeration in its errors.
pub open spec fn enum_name(t: EnumType) -> &'static str {
    match t {
        EnumType::IoFormat => "IoFormat",
        EnumType::InputLanguage => "InputLanguage",
        EnumType::TransactionState => "TransactionState",
    }
}

/// Reading `n` UUIDs from `pos`: the position after them, or `TooShort` with
/// every byte left consumed.
pub open spec fn uuids_end(n: nat, s: Seq<u8>, pos: int) -> (Result<(), ParseError>, int)
    decreases n,
{
    if n == 0 {
        (Ok(()), pos)
    } else if pos + 16 <= s.len() {
        uuids_end((n - 1) as nat, s, pos + 16)
    } else {
        (Err(ParseError::TooShort), s.len() as int)
    }
}

/// Decoding the field `f` at `pos`: the value and the position after it; or
/// the error and the position where decoding stopped. Arrays of elements of
/// rank `r` or more are not decoded (no layout here holds one).
pub open spec fn decode_field(f: FieldType, s: Seq<u8>, pos: int, r: nat) -> (
    Result<FieldVal, ParseError>,
    int,
)
    decreases r, 0nat, 0nat,
{
    if int_width(f) > 0 {
        if pos + int_width(f) <= s.len() {
            (Ok(int_value(f, s, pos)), pos + int_width(f))
        } else {
            (Err(ParseError::TooShort), pos)
        }
    } else {
        match f {
            FieldType::Uuid => if pos + 16 <= s.len() {
                (Ok(FieldVal::Uuid(u128_at(s, pos))), pos + 16)
            } else {
                (Err(ParseError::TooShort), s.len() as int)
            },
            FieldType::FixedBytes(n) => if pos + n <= s.len() {
                (Ok(FieldVal::FixedBytes(s.subrange(pos, pos + n))), pos + n)
            } else {
                (Err(ParseError::TooShort), s.len() as int)
            },
            FieldType::Enum(t) => if pos + 1 <= s.len() {
                match enum_value(t, s[pos]) {
                    Some(v) => (Ok(v), pos + 1),
                    None => (Err(ParseError::InvalidData(enum_name(t), s[pos] as usize)), pos + 1),
                }
            } else {
                (Err(ParseError::TooShort), pos)
            },
            FieldType::Bytes(c) => if pos + count_width(c) <= s.len() {
                let n = count_at(c, s, pos);
                let p = pos + count_width(c);
                if s.len() - p < n {
                    (Err(ParseError::TooShort), p)
                } else {
                    (Ok(FieldVal::Bytes(s.subrange(p, p + n))), p + n)
                }
            } else {
                (Err(ParseError::TooShort), pos)
            },
            FieldType::Uuids(c) => if pos + count_width(c) <= s.len() {
                let n = count_at(c, s, pos);
                let p = pos + count_width(c);
                match uuids_end(n as nat, s, p) {
                    (Ok(_), q) => (
                        Ok(FieldVal::Array { len: n as nat, bytes: s.subrange(p, q) }),
                        q,
                    ),
                    (Err(e), q) => (Err(e), q),
                }
            } else {
                (Err(ParseError::TooShort), pos)
            },
            FieldType::Structs(c, e) => if pos + count_width(c) <= s.len() {
                let n = count_at(c, s, pos);
                let p = pos + count_width(c);
                if rank(e) < r {
                    match decode_elements(e, n as nat, s, p, rank(e)) {
                        (Ok(_), q) => (
                            Ok(FieldVal::Array { len: n as nat, bytes: s.subrange(p, q) }),
                            q,
                        ),
                        (Err(err), q) => (Err(err), q),
                    }
                } else {
                    (Err(ParseError::TooShort), p)
                }
            } else {
                (Err(ParseError::TooShort), pos)
            },
            _ => (Ok(FieldVal::Rest(s.subrange(pos, s.len() as int))), s.len() as int),
        }
    }
}

/// Decoding `n` elements `e` (of rank `r`) from `pos`: the position after
/// them, or the error and the position where decoding stopped.
pub open spec fn decode_elements(e: Element, n: nat, s: Seq<u8>, pos: int, r: nat) -> (
    Result<(), ParseError>,
    int,
)
    decreases r, n, 0nat,
{
    if n == 0 {
        (Ok(()), pos)
    } else {
        match decode_fields(element_fields(e), s, pos, r) {
            (Ok(_), q) => decode_elements(e, (n - 1) as nat, s, q, r),
            (Err(err), q) => (Err(err), q),
        }
    }
}

/// Decoding the fields `fields` in turn from `pos`: their values and the
/// position after them, or the first error and where decoding stopped.
pub open spec fn decode_fields(fields: Seq<FieldType>, s: Seq<u8>, pos: int, r: nat) -> (
    Result<Seq<FieldVal>, ParseError>,
    int,
)
    decreases r, 0nat, fields.len(),
{
    if fields.len() == 0 {
        (Ok(Seq::empty()), pos)
    } else {
        match decode_field(fields[0], s, pos, r) {
            (Err(err), q) => (Err(err), q),
            (Ok(v), q) => match decode_fields(fields.drop_first(), s, q, r) {
                (Ok(vs), q2) => (Ok(seq![v] + vs), q2),
                (Err(err), q2) => (Err(err), q2),
            },
        }
    }
}

/// Decoding a whole message with layout `fields`: its field values, or the
/// error; where decoding stops before the end of `s`, `TooLong` with the
/// count of bytes left.
pub open spec fn decode_message(fields: Seq<FieldType>, s: Seq<u8>) -> Result<
    Seq<FieldVal>,
    ParseError,
> {
    let (res, q) = decode_fields(fields, s, 0, message_rank());
    if q < s.len() {
        Err(ParseError::TooLong((s.len() - q) as usize))
    } else {
        res
    }
}

/// The values of decoded fields, by their views.
pub open spec fn values_view<'a>(vals: Seq<FieldValue<'a>>) -> Seq<FieldVal> {
    vals.map_values(|v: FieldValue<'a>| v@)
}

/// The outcome of an exec decoding, with values by their views.
pub open spec fn fields_outcome<'a>(r: (Result<Vec<FieldValue<'a>>, ParseError>, usize)) -> (
    Result<Seq<FieldVal>, ParseError>,
    int,
) {
    match r.0 {
        Ok(v) => (Ok(values_view(v@)), r.1 as int),
        Err(e) => (Err(e), r.1 as int),
    }
}

/// The outcome `d` of decoding the rest of a layout, after fields with values `vs`.
pub open spec fn with_prefix(vs: Seq<FieldVal>, d: (Result<Seq<FieldVal>, ParseError>, int)) -> (
    Result<Seq<FieldVal>, ParseError>,
    int,
) {
    match d.0 {
        Ok(rest) => (Ok(vs + rest), d.1),
        Err(e) => (Err(e), d.1),
    }
}

/// The fields of an element.
pub fn element_layout(e: Element) -> (r: Vec<FieldType>)
    ensures
        r@ == element_fields(e),
{
    let v = match e {
        Element::LString => vec![FieldType::Bytes(CountType::U32)],
        Element::KeyValue => vec![FieldType::U16, FieldType::Bytes(CountType::U32)],
        Element::Annotation => vec![
            FieldType::Bytes(CountType::U32),
            FieldType::Bytes(CountType::U32),
        ],
        Element::DataElement => vec![FieldType::Bytes(CountType::I32)],
        Element::DumpTypeInfo => vec![
            FieldType::Bytes(CountType::U32),
            FieldType::Bytes(CountType::U32),
            FieldType::Uuid,
        ],
        Element::DumpObjectDesc => vec![
            FieldType::Uuid,
            FieldType::Bytes(CountType::U32),
            FieldType::Uuids(CountType::I16),
        ],
        Element::ProtocolExtension => vec![
            FieldType::Bytes(CountType::U32),
            FieldType::Structs(CountType::I16, Element::Annotation),
        ],
        Element::ConnectionParam => vec![
            FieldType::Bytes(CountType::U32),
            FieldType::Bytes(CountType::U32),
        ],
    };
    assert(v@ =~= element_fields(e));
    v
}

fn element_rank(e: Element) -> (r: usize)
    ensures
        r == rank(e),
        ranked(element_fields(e), rank(e)),
{
    match e {
        Element::ProtocolExtension => 2,
        _ => 1,
    }
}

fn read_count(c: CountType, buf: &[u8], pos: usize) -> (r: (usize, usize))
    requires
        pos + count_width(c) <= buf@.len(),
    ensures
        r.0 == count_at(c, buf@, pos as int),
        r.1 == count_width(c),
{
    match c {
        CountType::I16 => (get_i16(buf, pos) as usize, 2),
        CountType::I32 => (get_i32(buf, pos) as usize, 4),
        CountType::U32 => (get_u32(buf, pos) as usize, 4),
    }
}

fn read_uuids(n: usize, buf: &[u8], pos: usize) -> (r: (Result<(), ParseError>, usize))
    requires
        pos <= buf@.len(),
    ensures
        (r.0, r.1 as int) == uuids_end(n as nat, buf@, pos as int),
{
    let len = buf.len();
    let mut i: usize = 0;
    let mut p = pos;
    while i < n
        invariant
            i <= n,
            p <= len,
            len == buf@.len(),
            uuids_end(n as nat, buf@, pos as int) == uuids_end((n - i) as nat, buf@, p as int),
        decreases n - i,
    {
        if len - p >= 16 {
            p = p + 16;
            i = i + 1;
        } else {
            return (Err(ParseError::TooShort), len);
        }
    }
    (Ok(()), p)
}

fn read_enum(t: EnumType, b: u8) -> (r: Option<FieldValue<'static>>)
    ensures
        match enum_value(t, b) {
            Some(v) => r matches Some(x) && x@ == v,
            None => r is None,
        },
{
    match t {
        EnumType::IoFormat => match IoFormat::try_from_u8(b) {
            Some(f) => {
                proof {
                    let c = choose|g: IoFormat| io_format_byte(g) == b;
                    crate::protocol::law_io_format_bytes(f, c);
                }
                Some(FieldValue::IoFormat(f))
            },
            None => None,
        },
        EnumType::InputLanguage => match InputLanguage::try_from_u8(b) {
            Some(l) => {
                proof {
                    let c = choose|g: InputLanguage| input_language_byte(g) == b;
                    crate::protocol::law_input_language_bytes(l, c);
                }
                Some(FieldValue::InputLanguage(l))
            },
            None => None,
        },
        EnumType::TransactionState => match TransactionState::try_from_u8(b) {
            Some(x) => {
                proof {
                    let c = choose|g: TransactionState| transaction_state_byte(g) == b;
                    crate::protocol::law_transaction_state_bytes(x, c);
                }
                Some(FieldValue::TransactionState(x))
            },
            None => None,
        },
    }
}

/// The outcome of an exec field decoding, with the value by its view.
pub open spec fn field_result<'a>(r: (Result<FieldValue<'a>, ParseError>, usize)) -> (
    Result<FieldVal, ParseError>,
    int,
) {
    match r.0 {
        Ok(v) => (Ok(v@), r.1 as int),
        Err(e) => (Err(e), r.1 as int),
    }
}

fn decode_one<'a>(f: FieldType, buf: &'a [u8], pos: usize, r: usize) -> (res: (
    Result<FieldValue<'a>, ParseError>,
    usize,
))
    requires
        pos <= buf@.len(),
        ranked(seq![f], r as nat),
    ensures
        field_result(res) == decode_field(f, buf@, pos as int, r as nat),
        res.1 <= buf@.len(),
    decreases r, 0nat,
{
    let len = buf.len();
    match f {
        FieldType::U8 => if len - pos >= 1 {
            (Ok(FieldValue::U8(get_u8(buf, pos))), pos + 1)
        } else {
            (Err(ParseError::TooShort), pos)
        },
        FieldType::U16 => if len - pos >= 2 {
            (Ok(FieldValue::U16(get_u16(buf, pos))), pos + 2)
        } else {
            (Err(ParseError::TooShort), pos)
        },
        FieldType::I16 => if len - pos >= 2 {
            (Ok(FieldValue::I16(get_i16(buf, pos))), pos + 2)
        } else {
            (Err(ParseError::TooShort), pos)
        },
        FieldType::I32 => if len - pos >= 4 {
            (Ok(FieldValue::I32(get_i32(buf, pos))), pos + 4)
        } else {
            (Err(ParseError::TooShort), pos)
        },
        FieldType::U32 => if len - pos >= 4 {
            (Ok(FieldValue::U32(get_u32(buf, pos))), pos + 4)
        } else {
            (Err(ParseError::TooShort), pos)
        },
        FieldType::U64 => if len - pos >= 8 {
            (Ok(FieldValue::U64(get_u64(buf, pos))), pos + 8)
        } else {
            (Err(ParseError::TooShort), pos)
        },
        FieldType::Length => if len - pos >= 4 {
            (Ok(FieldValue::Length(get_i32(buf, pos))), pos + 4)
        } else {
            (Err(ParseError::TooShort), pos)
        },
        FieldType::Uuid => if len - pos >= 16 {
            (Ok(FieldValue::Uuid(get_u128(buf, pos))), pos + 16)
        } else {
            (Err(ParseError::TooShort), len)
        },
        FieldType::FixedBytes(n) => if len - pos >= n {
            (Ok(FieldValue::FixedBytes(slice_subrange(buf, pos, pos + n))), pos + n)
        } else {
            (Err(ParseError::TooShort), len)
        },
        FieldType::Enum(t) => if len - pos >= 1 {
            let b = get_u8(buf, pos);
            match read_enum(t, b) {
                Some(v) => (Ok(v), pos + 1),
                None => {
                    let name = match t {
                        EnumType::IoFormat => "IoFormat",
                        EnumType::InputLanguage => "InputLanguage",
                        EnumType::TransactionState => "TransactionState",
                    };
                    (Err(ParseError::InvalidData(name, b as usize)), pos + 1)
                },
            }
        } else {
            (Err(ParseError::TooShort), pos)
        },
        FieldType::Bytes(c) => {
            if len - pos < 4 && (len - pos < 2 || c != CountType::I16) {
                return (Err(ParseError::TooShort), pos);
            }
            let (n, w) = read_count(c, buf, pos);
            let p = pos + w;
            if len - p < n {
                (Err(ParseError::TooShort), p)
            } else {
                (Ok(FieldValue::Bytes(slice_subrange(buf, p, p + n))), p + n)
            }
        },
        FieldType::Uuids(c) => {
            if len - pos < 4 && (len - pos < 2 || c != CountType::I16) {
                return (Err(ParseError::TooShort), pos);
            }
            let (n, w) = read_count(c, buf, pos);
            let p = pos + w;
            proof {
                lemma_uuids_end_bound(n as nat, buf@, p as int);
            }
            match read_uuids(n, buf, p) {
                (Ok(_), q) => {
                    (Ok(FieldValue::Array { len: n, bytes: slice_subrange(buf, p, q) }), q)
                },
                (Err(e), q) => (Err(e), q),
            }
        },
        FieldType::Structs(c, e) => {
            if len - pos < 4 && (len - pos < 2 || c != CountType::I16) {
                return (Err(ParseError::TooShort), pos);
            }
            let (n, w) = read_count(c, buf, pos);
            let p = pos + w;
            assert(seq![f][0] == f);
            let re = element_rank(e);
            match decode_elements_exec(e, n, buf, p, re) {
                (Ok(_), q) => {
                    proof {
                        lemma_decode_elements_bound(e, n as nat, buf@, p as int, re as nat);
                    }
                    (Ok(FieldValue::Array { len: n, bytes: slice_subrange(buf, p, q) }), q)
                },
                (Err(err), q) => (Err(err), q),
            }
        },
        FieldType::Rest => (Ok(FieldValue::Rest(slice_subrange(buf, pos, len))), len),
    }
}

/// Reading UUIDs never moves backwards or past the end.
proof fn lemma_uuids_end_bound(n: nat, s: Seq<u8>, pos: int)
    requires
        0 <= pos <= s.len(),
    ensures
        pos <= uuids_end(n, s, pos).1 <= s.len(),
    decreases n,
{
    if n > 0 && pos + 16 <= s.len() {
        lemma_uuids_end_bound((n - 1) as nat, s, pos + 16);
    }
}

fn decode_elements_exec(e: Element, n: usize, buf: &[u8], pos: usize, r: usize) -> (res: (
    Result<(), ParseError>,
    usize,
))
    requires
        pos <= buf@.len(),
        r == rank(e),
    ensures
        (res.0, res.1 as int) == decode_elements(e, n as nat, buf@, pos as int, r as nat),
        res.1 <= buf@.len(),
    decreases r, 2nat,
{
    let layout = element_layout(e);
    let mut i: usize = 0;
    let mut p = pos;
    while i < n
        invariant
            i <= n,
            p <= buf@.len(),
            r == rank(e),
            layout@ == element_fields(e),
            ranked(layout@, r as nat),
            decode_elements(e, n as nat, buf@, pos as int, r as nat) == decode_elements(
                e,
                (n - i) as nat,
                buf@,
                p as int,
                r as nat,
            ),
        decreases n - i,
    {
        let (res, q) = decode_fields_exec(layout.as_slice(), buf, p, r);
        match res {
            Ok(_) => {
                p = q;
                i = i + 1;
            },
            Err(err) => {
                return (Err(err), q);
            },
        }
    }
    (Ok(()), p)
}

/// Decoding elements never moves backwards or past the end.
proof fn lemma_decode_elements_bound(e: Element, n: nat, s: Seq<u8>, pos: int, r: nat)
    requires
        0 <= pos <= s.len(),
    ensures
        decode_elements(e, n, s, pos, r).0 is Ok ==> pos <= decode_elements(e, n, s, pos, r).1
            <= s.len(),
    decreases r, n, 0nat,
{
    if n > 0 {
        let (first, q) = decode_fields(element_fields(e), s, pos, r);
        lemma_decode_fields_bound(element_fields(e), s, pos, r);
        if first is Ok {
            lemma_decode_elements_bound(e, (n - 1) as nat, s, q, r);
        }
    }
}

/// Decoding fields that succeeds never moves backwards or past the end.
proof fn lemma_decode_fields_bound(fields: Seq<FieldType>, s: Seq<u8>, pos: int, r: nat)
    requires
        0 <= pos <= s.len(),
    ensures
        decode_fields(fields, s, pos, r).0 is Ok ==> pos <= decode_fields(fields, s, pos, r).1
            <= s.len(),
    decreases r, 0nat, fields.len(),
{
    if fields.len() > 0 {
        let (first, q) = decode_field(fields[0], s, pos, r);
        if first is Ok {
            lemma_decode_field_bound(fields[0], s, pos, r);
            lemma_decode_fields_bound(fields.drop_first(), s, q, r);
        }
    }
}

/// Decoding a field that succeeds never moves backwards or past the end.
proof fn lemma_decode_field_bound(f: FieldType, s: Seq<u8>, pos: int, r: nat)
    requires
        0 <= pos <= s.len(),
    ensures
        decode_field(f, s, pos, r).0 is Ok ==> pos <= decode_field(f, s, pos, r).1 <= s.len(),
    decreases r, 0nat, 0nat,
{
    match f {
        FieldType::Uuids(c) => {
            if pos + count_width(c) <= s.len() {
                lemma_uuids_end_bound(count_at(c, s, pos) as nat, s, pos + count_width(c));
            }
        },
        FieldType::Structs(c, e) => {
            if pos + count_width(c) <= s.len() && rank(e) < r {
                let n = count_at(c, s, pos) as nat;
                let p = pos + count_width(c);
                lemma_decode_elements_bound(e, n, s, p, rank(e));
            }
        },
        _ => {},
    }
}

fn decode_fields_exec<'a>(fields: &[FieldType], buf: &'a [u8], pos: usize, r: usize) -> (res: (
    Result<Vec<FieldValue<'a>>, ParseError>,
    usize,
))
    requires
        pos <= buf@.len(),
        ranked(fields@, r as nat),
    ensures
        fields_outcome(res) == decode_fields(fields@, buf@, pos as int, r as nat),
        res.1 <= buf@.len(),
    decreases r, 1nat,
{
    let mut vals: Vec<FieldValue<'a>> = Vec::new();
    let mut p = pos;
    let mut i: usize = 0;
    assert(fields@.skip(0) =~= fields@);
    while i < fields.len()
        invariant
            i <= fields@.len(),
            p <= buf@.len(),
            ranked(fields@, r as nat),
            decode_fields(fields@, buf@, pos as int, r as nat) == with_prefix(
                values_view(vals@),
                decode_fields(fields@.skip(i as int), buf@, p as int, r as nat),
            ),
        decreases fields@.len() - i,
    {
        let f = fields[i];
        assert(fields@.skip(i as int)[0] == f);
        assert(fields@.skip(i as int).drop_first() =~= fields@.skip(i + 1));
        assert(ranked(seq![f], r as nat)) by {
            assert(seq![f][0] == fields@[i as int]);
        }
        let (res, q) = decode_one(f, buf, p, r);
        match res {
            Ok(v) => {
                let ghost before = values_view(vals@);
                vals.push(v);
                proof {
                    assert(values_view(vals@) =~= before.push(v@));
                    let rest = decode_fields(fields@.skip(i + 1), buf@, q as int, r as nat);
                    match rest.0 {
                        Ok(vs) => {
                            assert(before + (seq![v@] + vs) =~= before.push(v@) + vs);
                        },
                        Err(_) => {},
                    }
                }
                p = q;
                i = i + 1;
            },
            Err(err) => {
                return (Err(err), q);
            },
        }
    }
    assert(values_view(vals@) + Seq::<FieldVal>::empty() =~= values_view(vals@));
    (Ok(vals), p)
}


/// The messages of the protocol.
#[derive(Debug, Clone, Copy, PartialEq, Eq, Structural)]
pub enum MessageType {
    /// Any message: its type byte, its length and its contents.
    Message,
    /// An error reported by the server.
    ErrorResponse,
    /// A log message from the server.
    LogMessage,
    /// The server is ready for the next command.
    ReadyForCommand,
    /// The server is ready to restore a dump.
    RestoreReady,
    /// A command has completed.
    CommandComplete,
    /// The descriptors of a command's input and output.
    CommandDataDescription,
    /// The descriptor of the session state.
    StateDataDescription,
    /// A row of output data.
    Data,
    /// The header of a dump.
    DumpHeader,
    /// A block of a dump.
    DumpBlock,
    /// The key data of the server.
    ServerKeyData,
    /// The value of a server parameter.
    ParameterStatus,
    /// The protocol version and extensions that the server supports.
    ServerHandshake,
    /// Any authentication message: its status and data.
    Authentication,
    /// Authentication succeeded.
    AuthenticationOk,
    /// SASL authentication is required, with these methods.
    AuthenticationRequiredSASLMessage,
    /// A SASL challenge.
    AuthenticationSASLContinue,
    /// SASL authentication has completed.
    AuthenticationSASLFinal,
    /// A dump request, with annotations.
    Dump,
    /// A dump request, with headers (protocol 1).
    Dump2,
    /// A dump request, with annotations and flags.
    Dump3,
    /// A synchronization point.
    Sync,
    /// A restore request.
    Restore,
    /// A block of a dump to restore.
    RestoreBlock,
    /// The end of a restore.
    RestoreEof,
    /// A parse request without an input language (protocol 1).
    Parse2,
    /// A parse request.
    Parse,
    /// An execute request.
    Execute,
    /// The protocol version, parameters and extensions that the client asks for.
    ClientHandshake,
    /// The client ends the connection.
    Terminate,
    /// The SASL method that the client chose, and its first data.
    AuthenticationSASLInitialResponse,
    /// A SASL response from the client.
    AuthenticationSASLResponse,
    /// An execute request without an input language (protocol 1).
    Execute2,
}

/// The layout of a message: its fields in order.
pub open spec fn message_fields(m: MessageType) -> Seq<FieldType> {
    match m {
        MessageType::Message => seq![
            FieldType::U8,
            FieldType::Length,
            FieldType::Rest,
        ],
        MessageType::ErrorResponse => seq![
            FieldType::U8,
            FieldType::Length,
            FieldType::U8,
            FieldType::U32,
            FieldType::Bytes(CountType::U32),
            FieldType::Structs(CountType::I16, Element::KeyValue),
        ],
        MessageType::LogMessage => seq![
            FieldType::U8,
            FieldType::Length,
            FieldType::U8,
            FieldType::I32,
            FieldType::Bytes(CountType::U32),
            FieldType::Structs(CountType::I16, Element::Annotation),
        ],
        MessageType::ReadyForCommand => seq![
            FieldType::U8,
            FieldType::Length,
            FieldType::Structs(CountType::I16, Element::Annotation),
            FieldType::Enum(EnumType::TransactionState),
        ],
        MessageType::RestoreReady => seq![
            FieldType::U8,
            FieldType::Length,
            FieldType::Structs(CountType::I16, Element::KeyValue),
            FieldType::U16,
        ],
        MessageType::CommandComplete => seq![
            FieldType::U8,
            FieldType::Length,
            FieldType::Structs(CountType::I16, Element::Annotation),
            FieldType::U64,
            FieldType::Bytes(CountType::U32),
            FieldType::Uuid,
            FieldType::Bytes(CountType::U32),
        ],
        MessageType::CommandDataDescription => seq![
            FieldType::U8,
            FieldType::Length,
            FieldType::Structs(CountType::I16, Element::Annotation),
            FieldType::U64,
            FieldType::U8,
            FieldType::Uuid,
            FieldType::Bytes(CountType::U32),
            FieldType::Uuid,
            FieldType::Bytes(CountType::U32),
        ],
        MessageType::StateDataDescription => seq![
            FieldType::U8,
            FieldType::Length,
            FieldType::Uuid,
            FieldType::Bytes(CountType::U32),
        ],
        MessageType::Data => seq![
            FieldType::U8,
            FieldType::Length,
            FieldType::Structs(CountType::I16, Element::DataElement),
        ],
        MessageType::DumpHeader => seq![
            FieldType::U8,
            FieldType::Length,
            FieldType::Structs(CountType::I16, Element::KeyValue),
            FieldType::I16,
            FieldType::I16,
            FieldType::Bytes(CountType::U32),
            FieldType::Structs(CountType::I32, Element::DumpTypeInfo),
            FieldType::Structs(CountType::I32, Element::DumpObjectDesc),
        ],
        MessageType::DumpBlock => seq![
            FieldType::U8,
            FieldType::Length,
            FieldType::Structs(CountType::I16, Element::KeyValue),
        ],
        MessageType::ServerKeyData => seq![
            FieldType::U8,
            FieldType::Length,
            FieldType::FixedBytes(32),
        ],
        MessageType::ParameterStatus => seq![
            FieldType::U8,
            FieldType::Length,
            FieldType::Bytes(CountType::U32),
            FieldType::Bytes(CountType::U32),
        ],
        MessageType::ServerHandshake => seq![
            FieldType::U8,
            FieldType::Length,
            FieldType::U16,
            FieldType::U16,
            FieldType::Structs(CountType::I16, Element::ProtocolExtension),
        ],
        MessageType::Authentication => seq![
            FieldType::U8,
            FieldType::Length,
            FieldType::I32,
            FieldType::Rest,
        ],
        MessageType::AuthenticationOk => seq![
            FieldType::U8,
            FieldType::Length,
            FieldType::I32,
        ],
        MessageType::AuthenticationRequiredSASLMessage => seq![
            FieldType::U8,
            FieldType::Length,
            FieldType::I32,
            FieldType::Structs(CountType::I32, Element::LString),
        ],
        MessageType::AuthenticationSASLContinue => seq![
            FieldType::U8,
            FieldType::Length,
            FieldType::I32,
            FieldType::Bytes(CountType::U32),
        ],
        MessageType::AuthenticationSASLFinal => seq![
            FieldType::U8,
            FieldType::Length,
            FieldType::I32,
            FieldType::Bytes(CountType::U32),
        ],
        MessageType::Dump => seq![
            FieldType::U8,
            FieldType::Length,
            FieldType::Structs(CountType::I16, Element::Annotation),
        ],
        MessageType::Dump2 => seq![
            FieldType::U8,
            FieldType::Length,
            FieldType::Structs(CountType::I16, Element::KeyValue),
        ],
        MessageType::Dump3 => seq![
            FieldType::U8,
            FieldType::Length,
            FieldType::Structs(CountType::I16, Element::Annotation),
            FieldType::U64,
        ],
        MessageType::Sync => seq![
            FieldType::U8,
            FieldType::Length,
        ],
        MessageType::Restore => seq![
            FieldType::U8,
            FieldType::Length,
            FieldType::Structs(CountType::I16, Element::KeyValue),
            FieldType::U16,
            FieldType::Rest,
        ],
        MessageType::RestoreBlock => seq![
            FieldType::U8,
            FieldType::Length,
            FieldType::Bytes(CountType::U32),
        ],
        MessageType::RestoreEof => seq![
            FieldType::U8,
            FieldType::Length,
        ],
        MessageType::Parse2 => seq![
            FieldType::U8,
            FieldType::Length,
            FieldType::Structs(CountType::I16, Element::Annotation),
            FieldType::U64,
            FieldType::U64,
            FieldType::U64,
            FieldType::Enum(EnumType::IoFormat),
            FieldType::U8,
            FieldType::Bytes(CountType::U32),
            FieldType::Uuid,
            FieldType::Bytes(CountType::U32),
        ],
        MessageType::Parse => seq![
            FieldType::U8,
            FieldType::Length,
            FieldType::Structs(CountType::I16, Element::Annotation),
            FieldType::U64,
            FieldType::U64,
            FieldType::U64,
            FieldType::Enum(EnumType::InputLanguage),
            FieldType::Enum(EnumType::IoFormat),
            FieldType::U8,
            FieldType::Bytes(CountType::U32),
            FieldType::Uuid,
            FieldType::Bytes(CountType::U32),
        ],
        MessageType::Execute => seq![
            FieldType::U8,
            FieldType::Length,
            FieldType::Structs(CountType::I16, Element::Annotation),
            FieldType::U64,
            FieldType::U64,
            FieldType::U64,
            FieldType::Enum(EnumType::InputLanguage),
            FieldType::Enum(EnumType::IoFormat),
            FieldType::U8,
            FieldType::Bytes(CountType::U32),
            FieldType::Uuid,
            FieldType::Bytes(CountType::U32),
            FieldType::Uuid,
            FieldType::Uuid,
            FieldType::Bytes(CountType::U32),
        ],
        MessageType::ClientHandshake => seq![
            FieldType::U8,
            FieldType::Length,
            FieldType::U16,
            FieldType::U16,
            FieldType::Structs(CountType::I16, Element::ConnectionParam),
            FieldType::Structs(CountType::I16, Element::ProtocolExtension),
        ],
        MessageType::Terminate => seq![
            FieldType::U8,
            FieldType::Length,
        ],
        MessageType::AuthenticationSASLInitialResponse => seq![
            FieldType::U8,
            FieldType::Length,
            FieldType::Bytes(CountType::U32),
            FieldType::Bytes(CountType::U32),
        ],
        MessageType::AuthenticationSASLResponse => seq![
            FieldType::U8,
            FieldType::Length,
            FieldType::Bytes(CountType::U32),
        ],
        MessageType::Execute2 => seq![
            FieldType::U8,
            FieldType::Length,
            FieldType::Structs(CountType::I16, Element::Annotation),
            FieldType::U64,
            FieldType::U64,
            FieldType::U64,
            FieldType::Enum(EnumType::IoFormat),
            FieldType::U8,
            FieldType::Bytes(CountType::U32),
            FieldType::Uuid,
            FieldType::Bytes(CountType::U32),
            FieldType::Uuid,
            FieldType::Uuid,
            FieldType::Bytes(CountType::U32),
        ],
    }
}

/// The layout of a message: its fields in order (named in the comments).
pub fn message_layout(m: MessageType) -> (r: Vec<FieldType>)
    ensures
        r@ == message_fields(m),
{
    let v = match m {
        MessageType::Message => vec![
            FieldType::U8, // mtype
            FieldType::Length, // mlen
            FieldType::Rest, // data
        ],
        MessageType::ErrorResponse => vec![
            FieldType::U8, // mtype
            FieldType::Length, // mlen
            FieldType::U8, // severity
            FieldType::U32, // error_code
            FieldType::Bytes(CountType::U32), // message
            FieldType::Structs(CountType::I16, Element::KeyValue), // attributes
        ],
        MessageType::LogMessage => vec![
            FieldType::U8, // mtype
            FieldType::Length, // mlen
            FieldType::U8, // severity
            FieldType::I32, // code
            FieldType::Bytes(CountType::U32), // text
            FieldType::Structs(CountType::I16, Element::Annotation), // annotations
        ],
        MessageType::ReadyForCommand => vec![
            FieldType::U8, // mtype
            FieldType::Length, // mlen
            FieldType::Structs(CountType::I16, Element::Annotation), // annotations
            FieldType::Enum(EnumType::TransactionState), // transaction_state
        ],
        MessageType::RestoreReady => vec![
            FieldType::U8, // mtype
            FieldType::Length, // mlen
            FieldType::Structs(CountType::I16, Element::KeyValue), // headers
            FieldType::U16, // jobs
        ],
        MessageType::CommandComplete => vec![
            FieldType::U8, // mtype
            FieldType::Length, // mlen
            FieldType::Structs(CountType::I16, Element::Annotation), // annotations
            FieldType::U64, // capabilities
            FieldType::Bytes(CountType::U32), // status
            FieldType::Uuid, // state_typedesc_id
            FieldType::Bytes(CountType::U32), // state_data
        ],
        MessageType::CommandDataDescription => vec![
            FieldType::U8, // mtype
            FieldType::Length, // mlen
            FieldType::Structs(CountType::I16, Element::Annotation), // annotations
            FieldType::U64, // capabilities
            FieldType::U8, // result_cardinality
            FieldType::Uuid, // input_typedesc_id
            FieldType::Bytes(CountType::U32), // input_typedesc
            FieldType::Uuid, // output_typedesc_id
            FieldType::Bytes(CountType::U32), // output_typedesc
        ],
        MessageType::StateDataDescription => vec![
            FieldType::U8, // mtype
            FieldType::Length, // mlen
            FieldType::Uuid, // typedesc_id
            FieldType::Bytes(CountType::U32), // typedesc
        ],
        MessageType::Data => vec![
            FieldType::U8, // mtype
            FieldType::Length, // mlen
            FieldType::Structs(CountType::I16, Element::DataElement), // data
        ],
        MessageType::DumpHeader => vec![
            FieldType::U8, // mtype
            FieldType::Length, // mlen
            FieldType::Structs(CountType::I16, Element::KeyValue), // attributes
            FieldType::I16, // major_ver
            FieldType::I16, // minor_ver
            FieldType::Bytes(CountType::U32), // schema_ddl
            FieldType::Structs(CountType::I32, Element::DumpTypeInfo), // types
            FieldType::Structs(CountType::I32, Element::DumpObjectDesc), // descriptors
        ],
        MessageType::DumpBlock => vec![
            FieldType::U8, // mtype
            FieldType::Length, // mlen
            FieldType::Structs(CountType::I16, Element::KeyValue), // attributes
        ],
        MessageType::ServerKeyData => vec![
            FieldType::U8, // mtype
            FieldType::Length, // mlen
            FieldType::FixedBytes(32), // data
        ],
        MessageType::ParameterStatus => vec![
            FieldType::U8, // mtype
            FieldType::Length, // mlen
            FieldType::Bytes(CountType::U32), // name
            FieldType::Bytes(CountType::U32), // value
        ],
        MessageType::ServerHandshake => vec![
            FieldType::U8, // mtype
            FieldType::Length, // mlen
            FieldType::U16, // major_ver
            FieldType::U16, // minor_ver
            FieldType::Structs(CountType::I16, Element::ProtocolExtension), // extensions
        ],
        MessageType::Authentication => vec![
            FieldType::U8, // mtype
            FieldType::Length, // mlen
            FieldType::I32, // auth_status
            FieldType::Rest, // data
        ],
        MessageType::AuthenticationOk => vec![
            FieldType::U8, // mtype
            FieldType::Length, // mlen
            FieldType::I32, // auth_status
        ],
        MessageType::AuthenticationRequiredSASLMessage => vec![
            FieldType::U8, // mtype
            FieldType::Length, // mlen
            FieldType::I32, // auth_status
            FieldType::Structs(CountType::I32, Element::LString), // methods
        ],
        MessageType::AuthenticationSASLContinue => vec![
            FieldType::U8, // mtype
            FieldType::Length, // mlen
            FieldType::I32, // auth_status
            FieldType::Bytes(CountType::U32), // sasl_data
        ],
        MessageType::AuthenticationSASLFinal => vec![
            FieldType::U8, // mtype
            FieldType::Length, // mlen
            FieldType::I32, // auth_status
            FieldType::Bytes(CountType::U32), // sasl_data
        ],
        MessageType::Dump => vec![
            FieldType::U8, // mtype
            FieldType::Length, // mlen
            FieldType::Structs(CountType::I16, Element::Annotation), // annotations
        ],
        MessageType::Dump2 => vec![
            FieldType::U8, // mtype
            FieldType::Length, // mlen
            FieldType::Structs(CountType::I16, Element::KeyValue), // headers
        ],
        MessageType::Dump3 => vec![
            FieldType::U8, // mtype
            FieldType::Length, // mlen
            FieldType::Structs(CountType::I16, Element::Annotation), // annotations
            FieldType::U64, // flags
        ],
        MessageType::Sync => vec![
            FieldType::U8, // mtype
            FieldType::Length, // mlen
        ],
        MessageType::Restore => vec![
            FieldType::U8, // mtype
            FieldType::Length, // mlen
            FieldType::Structs(CountType::I16, Element::KeyValue), // headers
            FieldType::U16, // jobs
            FieldType::Rest, // data
        ],
        MessageType::RestoreBlock => vec![
            FieldType::U8, // mtype
            FieldType::Length, // mlen
            FieldType::Bytes(CountType::U32), // block_data
        ],
        MessageType::RestoreEof => vec![
            FieldType::U8, // mtype
            FieldType::Length, // mlen
        ],
        MessageType::Parse2 => vec![
            FieldType::U8, // mtype
            FieldType::Length, // mlen
            FieldType::Structs(CountType::I16, Element::Annotation), // annotations
            FieldType::U64, // allowed_capabilities
            FieldType::U64, // compilation_flags
            FieldType::U64, // implicit_limit
            FieldType::Enum(EnumType::IoFormat), // output_format
            FieldType::U8, // expected_cardinality
            FieldType::Bytes(CountType::U32), // command_text
            FieldType::Uuid, // state_typedesc_id
            FieldType::Bytes(CountType::U32), // state_data
        ],
        MessageType::Parse => vec![
            FieldType::U8, // mtype
            FieldType::Length, // mlen
            FieldType::Structs(CountType::I16, Element::Annotation), // annotations
            FieldType::U64, // allowed_capabilities
            FieldType::U64, // compilation_flags
            FieldType::U64, // implicit_limit
            FieldType::Enum(EnumType::InputLanguage), // input_language
            FieldType::Enum(EnumType::IoFormat), // output_format
            FieldType::U8, // expected_cardinality
            FieldType::Bytes(CountType::U32), // command_text
            FieldType::Uuid, // state_typedesc_id
            FieldType::Bytes(CountType::U32), // state_data
        ],
        MessageType::Execute => vec![
            FieldType::U8, // mtype
            FieldType::Length, // mlen
            FieldType::Structs(CountType::I16, Element::Annotation), // annotations
            FieldType::U64, // allowed_capabilities
            FieldType::U64, // compilation_flags
            FieldType::U64, // implicit_limit
            FieldType::Enum(EnumType::InputLanguage), // input_language
            FieldType::Enum(EnumType::IoFormat), // output_format
            FieldType::U8, // expected_cardinality
            FieldType::Bytes(CountType::U32), // command_text
            FieldType::Uuid, // state_typedesc_id
            FieldType::Bytes(CountType::U32), // state_data
            FieldType::Uuid, // input_typedesc_id
            FieldType::Uuid, // output_typedesc_id
            FieldType::Bytes(CountType::U32), // arguments
        ],
        MessageType::ClientHandshake => vec![
            FieldType::U8, // mtype
            FieldType::Length, // mlen
            FieldType::U16, // major_ver
            FieldType::U16, // minor_ver
            FieldType::Structs(CountType::I16, Element::ConnectionParam), // params
            FieldType::Structs(CountType::I16, Element::ProtocolExtension), // extensions
        ],
        MessageType::Terminate => vec![
            FieldType::U8, // mtype
            FieldType::Length, // mlen
        ],
        MessageType::AuthenticationSASLInitialResponse => vec![
            FieldType::U8, // mtype
            FieldType::Length, // mlen
            FieldType::Bytes(CountType::U32), // method
            FieldType::Bytes(CountType::U32), // sasl_data
        ],
        MessageType::AuthenticationSASLResponse => vec![
            FieldType::U8, // mtype
            FieldType::Length, // mlen
            FieldType::Bytes(CountType::U32), // sasl_data
        ],
        MessageType::Execute2 => vec![
            FieldType::U8, // mtype
            FieldType::Length, // mlen
            FieldType::Structs(CountType::I16, Element::Annotation), // annotations
            FieldType::U64, // allowed_capabilities
            FieldType::U64, // compilation_flags
            FieldType::U64, // implicit_limit
            FieldType::Enum(EnumType::IoFormat), // output_format
            FieldType::U8, // expected_cardinality
            FieldType::Bytes(CountType::U32), // command_text
            FieldType::Uuid, // state_typedesc_id
            FieldType::Bytes(CountType::U32), // state_data
            FieldType::Uuid, // input_typedesc_id
            FieldType::Uuid, // output_typedesc_id
            FieldType::Bytes(CountType::U32), // arguments
        ],
    };
    assert(v@ =~= message_fields(m));
    v
}

/// The message type byte that identifies a message, where it has one.
pub open spec fn message_tag(m: MessageType) -> Option<u8> {
    match m {
        MessageType::Message => None,
        MessageType::ErrorResponse => Some(0x45),
        MessageType::LogMessage => Some(0x4c),
        MessageType::ReadyForCommand => Some(0x5a),
        MessageType::RestoreReady => Some(0x2b),
        MessageType::CommandComplete => Some(0x43),
        MessageType::CommandDataDescription => Some(0x54),
        MessageType::StateDataDescription => Some(0x73),
        MessageType::Data => Some(0x44),
        MessageType::DumpHeader => Some(0x40),
        MessageType::DumpBlock => Some(0x3d),
        MessageType::ServerKeyData => Some(0x4b),
        MessageType::ParameterStatus => Some(0x53),
        MessageType::ServerHandshake => Some(0x76),
        MessageType::Authentication => Some(0x52),
        MessageType::AuthenticationOk => Some(0x52),
        MessageType::AuthenticationRequiredSASLMessage => Some(0x52),
        MessageType::AuthenticationSASLContinue => Some(0x52),
        MessageType::AuthenticationSASLFinal => Some(0x52),
        MessageType::Dump => Some(0x3e),
        MessageType::Dump2 => Some(0x3e),
        MessageType::Dump3 => Some(0x3e),
        MessageType::Sync => Some(0x53),
        MessageType::Restore => Some(0x3c),
        MessageType::RestoreBlock => Some(0x3d),
        MessageType::RestoreEof => Some(0x2e),
        MessageType::Parse2 => Some(0x50),
        MessageType::Parse => Some(0x50),
        MessageType::Execute => Some(0x4f),
        MessageType::ClientHandshake => Some(0x56),
        MessageType::Terminate => Some(0x58),
        MessageType::AuthenticationSASLInitialResponse => Some(0x70),
        MessageType::AuthenticationSASLResponse => Some(0x72),
        MessageType::Execute2 => Some(0x4f),
    }
}

/// The authentication status that identifies an authentication message,
/// where it has one.
pub open spec fn message_auth_status(m: MessageType) -> Option<i32> {
    match m {
        MessageType::AuthenticationOk => Some(0),
        MessageType::AuthenticationRequiredSASLMessage => Some(10),
        MessageType::AuthenticationSASLContinue => Some(11),
        MessageType::AuthenticationSASLFinal => Some(12),
        _ => None,
    }
}

fn message_constants(m: MessageType) -> (r: (Option<u8>, Option<i32>))
    ensures
        r == (message_tag(m), message_auth_status(m)),
{
    match m {
        MessageType::Message => (None, None),
        MessageType::ErrorResponse => (Some(0x45), None),
        MessageType::LogMessage => (Some(0x4c), None),
        MessageType::ReadyForCommand => (Some(0x5a), None),
        MessageType::RestoreReady => (Some(0x2b), None),
        MessageType::CommandComplete => (Some(0x43), None),
        MessageType::CommandDataDescription => (Some(0x54), None),
        MessageType::StateDataDescription => (Some(0x73), None),
        MessageType::Data => (Some(0x44), None),
        MessageType::DumpHeader => (Some(0x40), None),
        MessageType::DumpBlock => (Some(0x3d), None),
        MessageType::ServerKeyData => (Some(0x4b), None),
        MessageType::ParameterStatus => (Some(0x53), None),
        MessageType::ServerHandshake => (Some(0x76), None),
        MessageType::Authentication => (Some(0x52), None),
        MessageType::AuthenticationOk => (Some(0x52), Some(0)),
        MessageType::AuthenticationRequiredSASLMessage => (Some(0x52), Some(10)),
        MessageType::AuthenticationSASLContinue => (Some(0x52), Some(11)),
        MessageType::AuthenticationSASLFinal => (Some(0x52), Some(12)),
        MessageType::Dump => (Some(0x3e), None),
        MessageType::Dump2 => (Some(0x3e), None),
        MessageType::Dump3 => (Some(0x3e), None),
        MessageType::Sync => (Some(0x53), None),
        MessageType::Restore => (Some(0x3c), None),
        MessageType::RestoreBlock => (Some(0x3d), None),
        MessageType::RestoreEof => (Some(0x2e), None),
        MessageType::Parse2 => (Some(0x50), None),
        MessageType::Parse => (Some(0x50), None),
        MessageType::Execute => (Some(0x4f), None),
        MessageType::ClientHandshake => (Some(0x56), None),
        MessageType::Terminate => (Some(0x58), None),
        MessageType::AuthenticationSASLInitialResponse => (Some(0x70), None),
        MessageType::AuthenticationSASLResponse => (Some(0x72), None),
        MessageType::Execute2 => (Some(0x4f), None),
    }
}

/// Whether the buffer carries the constant fields of message `m`: its type
/// byte first and, for an authentication message, its status after the length.
pub open spec fn matches_constants(m: MessageType, s: Seq<u8>) -> bool {
    &&& (message_tag(m) matches Some(t) ==> s.len() >= 1 && s[0] == t)
    &&& (message_auth_status(m) matches Some(a) ==> s.len() >= 9 && i32_at(s, 5) == a)
}

/// Every message layout nests its arrays less deep than a message may.
proof fn lemma_message_ranked(m: MessageType)
    ensures
        ranked(message_fields(m), message_rank()),
{
}

/// Whether `buf` carries the constant fields of message `m`.
pub fn is_buffer(m: MessageType, buf: &[u8]) -> (r: bool)
    ensures
        r == matches_constants(m, buf@),
{
    let (tag, status) = message_constants(m);
    if let Some(t) = tag {
        if buf.len() < 1 || get_u8(buf, 0) != t {
            return false;
        }
    }
    if let Some(a) = status {
        if buf.len() < 9 || get_i32(buf, 5) != a {
            return false;
        }
    }
    true
}

/// Decodes `buf` as a message of type `m`: the values of its fields in
/// order. Fails as `decode_message` says: with the first error, or with
/// `TooLong` where bytes are left over.
pub fn decode<'a>(m: MessageType, buf: &'a [u8]) -> (r: Result<Vec<FieldValue<'a>>, ParseError>)
    ensures
        match r {
            Ok(v) => decode_message(message_fields(m), buf@) == Ok::<Seq<FieldVal>, ParseError>(
                values_view(v@),
            ),
            Err(e) => decode_message(message_fields(m), buf@) == Err::<Seq<FieldVal>, ParseError>(e),
        },
{
    let layout = message_layout(m);
    proof {
        lemma_message_ranked(m);
    }
    let (res, q) = decode_fields_exec(layout.as_slice(), buf, 0, 3);
    if q < buf.len() {
        return Err(ParseError::TooLong(buf.len() - q));
    }
    res
}

/// The layout of each message is the protocol's definition of it: the type
/// byte, the length, then each field in order with its type (a
/// length-prefixed string being a run of bytes with a 32-bit count).
pub proof fn law_message_layouts(m: MessageType)
    ensures
        message_fields(m) == match m {
            MessageType::Message => seq![FieldType::U8, FieldType::Length, FieldType::Rest],
            MessageType::ErrorResponse => seq![FieldType::U8, FieldType::Length, FieldType::U8, FieldType::U32, FieldType::Bytes(CountType::U32), FieldType::Structs(CountType::I16, Element::KeyValue)],
            MessageType::LogMessage => seq![FieldType::U8, FieldType::Length, FieldType::U8, FieldType::I32, FieldType::Bytes(CountType::U32), FieldType::Structs(CountType::I16, Element::Annotation)],
            MessageType::ReadyForCommand => seq![FieldType::U8, FieldType::Length, FieldType::Structs(CountType::I16, Element::Annotation), FieldType::Enum(EnumType::TransactionState)],
            MessageType::RestoreReady => seq![FieldType::U8, FieldType::Length, FieldType::Structs(CountType::I16, Element::KeyValue), FieldType::U16],
            MessageType::CommandComplete => seq![FieldType::U8, FieldType::Length, FieldType::Structs(CountType::I16, Element::Annotation), FieldType::U64, FieldType::Bytes(CountType::U32), FieldType::Uuid, FieldType::Bytes(CountType::U32)],
            MessageType::CommandDataDescription => seq![FieldType::U8, FieldType::Length, FieldType::Structs(CountType::I16, Element::Annotation), FieldType::U64, FieldType::U8, FieldType::Uuid, FieldType::Bytes(CountType::U32), FieldType::Uuid, FieldType::Bytes(CountType::U32)],
            MessageType::StateDataDescription => seq![FieldType::U8, FieldType::Length, FieldType::Uuid, FieldType::Bytes(CountType::U32)],
            MessageType::Data => seq![FieldType::U8, FieldType::Length, FieldType::Structs(CountType::I16, Element::DataElement)],
            MessageType::DumpHeader => seq![FieldType::U8, FieldType::Length, FieldType::Structs(CountType::I16, Element::KeyValue), FieldType::I16, FieldType::I16, FieldType::Bytes(CountType::U32), FieldType::Structs(CountType::I32, Element::DumpTypeInfo), FieldType::Structs(CountType::I32, Element::DumpObjectDesc)],
            MessageType::DumpBlock => seq![FieldType::U8, FieldType::Length, FieldType::Structs(CountType::I16, Element::KeyValue)],
            MessageType::ServerKeyData => seq![FieldType::U8, FieldType::Length, FieldType::FixedBytes(32)],
            MessageType::ParameterStatus => seq![FieldType::U8, FieldType::Length, FieldType::Bytes(CountType::U32), FieldType::Bytes(CountType::U32)],
            MessageType::ServerHandshake => seq![FieldType::U8, FieldType::Length, FieldType::U16, FieldType::U16, FieldType::Structs(CountType::I16, Element::ProtocolExtension)],
            MessageType::Authentication => seq![FieldType::U8, FieldType::Length, FieldType::I32, FieldType::Rest],
            MessageType::AuthenticationOk => seq![FieldType::U8, FieldType::Length, FieldType::I32],
            MessageType::AuthenticationRequiredSASLMessage => seq![FieldType::U8, FieldType::Length, FieldType::I32, FieldType::Structs(CountType::I32, Element::LString)],
            MessageType::AuthenticationSASLContinue => seq![FieldType::U8, FieldType::Length, FieldType::I32, FieldType::Bytes(CountType::U32)],
            MessageType::AuthenticationSASLFinal => seq![FieldType::U8, FieldType::Length, FieldType::I32, FieldType::Bytes(CountType::U32)],
            MessageType::Dump => seq![FieldType::U8, FieldType::Length, FieldType::Structs(CountType::I16, Element::Annotation)],
            MessageType::Dump2 => seq![FieldType::U8, FieldType::Length, FieldType::Structs(CountType::I16, Element::KeyValue)],
            MessageType::Dump3 => seq![FieldType::U8, FieldType::Length, FieldType::Structs(CountType::I16, Element::Annotation), FieldType::U64],
            MessageType::Sync => seq![FieldType::U8, FieldType::Length],
            MessageType::Restore => seq![FieldType::U8, FieldType::Length, FieldType::Structs(CountType::I16, Element::KeyValue), FieldType::U16, FieldType::Rest],
            MessageType::RestoreBlock => seq![FieldType::U8, FieldType::Length, FieldType::Bytes(CountType::U32)],
            MessageType::RestoreEof => seq![FieldType::U8, FieldType::Length],
            MessageType::Parse2 => seq![FieldType::U8, FieldType::Length, FieldType::Structs(CountType::I16, Element::Annotation), FieldType::U64, FieldType::U64, FieldType::U64, FieldType::Enum(EnumType::IoFormat), FieldType::U8, FieldType::Bytes(CountType::U32), FieldType::Uuid, FieldType::Bytes(CountType::U32)],
            MessageType::Parse => seq![FieldType::U8, FieldType::Length, FieldType::Structs(CountType::I16, Element::Annotation), FieldType::U64, FieldType::U64, FieldType::U64, FieldType::Enum(EnumType::InputLanguage), FieldType::Enum(EnumType::IoFormat), FieldType::U8, FieldType::Bytes(CountType::U32), FieldType::Uuid, FieldType::Bytes(CountType::U32)],
            MessageType::Execute => seq![FieldType::U8, FieldType::Length, FieldType::Structs(CountType::I16, Element::Annotation), FieldType::U64, FieldType::U64, FieldType::U64, FieldType::Enum(EnumType::InputLanguage), FieldType::Enum(EnumType::IoFormat), FieldType::U8, FieldType::Bytes(CountType::U32), FieldType::Uuid, FieldType::Bytes(CountType::U32), FieldType::Uuid, FieldType::Uuid, FieldType::Bytes(CountType::U32)],
            MessageType::ClientHandshake => seq![FieldType::U8, FieldType::Length, FieldType::U16, FieldType::U16, FieldType::Structs(CountType::I16, Element::ConnectionParam), FieldType::Structs(CountType::I16, Element::ProtocolExtension)],
            MessageType::Terminate => seq![FieldType::U8, FieldType::Length],
            MessageType::AuthenticationSASLInitialResponse => seq![FieldType::U8, FieldType::Length, FieldType::Bytes(CountType::U32), FieldType::Bytes(CountType::U32)],
            MessageType::AuthenticationSASLResponse => seq![FieldType::U8, FieldType::Length, FieldType::Bytes(CountType::U32)],
            MessageType::Execute2 => seq![FieldType::U8, FieldType::Length, FieldType::Structs(CountType::I16, Element::Annotation), FieldType::U64, FieldType::U64, FieldType::U64, FieldType::Enum(EnumType::IoFormat), FieldType::U8, FieldType::Bytes(CountType::U32), FieldType::Uuid, FieldType::Bytes(CountType::U32), FieldType::Uuid, FieldType::Uuid, FieldType::Bytes(CountType::U32)],
        },
{
}

/// The fields of each element are the protocol's definition of it.
pub proof fn law_element_layouts(e: Element)
    ensures
        element_fields(e) == match e {
            Element::LString => seq![FieldType::Bytes(CountType::U32)],
            Element::KeyValue => seq![FieldType::U16, FieldType::Bytes(CountType::U32)],
            Element::Annotation => seq![FieldType::Bytes(CountType::U32), FieldType::Bytes(CountType::U32)],
            Element::DataElement => seq![FieldType::Bytes(CountType::I32)],
            Element::DumpTypeInfo => seq![FieldType::Bytes(CountType::U32), FieldType::Bytes(CountType::U32), FieldType::Uuid],
            Element::DumpObjectDesc => seq![FieldType::Uuid, FieldType::Bytes(CountType::U32), FieldType::Uuids(CountType::I16)],
            Element::ProtocolExtension => seq![FieldType::Bytes(CountType::U32), FieldType::Structs(CountType::I16, Element::Annotation)],
            Element::ConnectionParam => seq![FieldType::Bytes(CountType::U32), FieldType::Bytes(CountType::U32)],
        },
{
}

/// Whether the value `v` is of the kind of the field type `f`.
pub open spec fn kind_ok(f: FieldType, v: FieldVal) -> bool {
    match (f, v) {
        (FieldType::U8, FieldVal::U8(_)) => true,
        (FieldType::U16, FieldVal::U16(_)) => true,
        (FieldType::I16, FieldVal::I16(_)) => true,
        (FieldType::I32, FieldVal::I32(_)) => true,
        (FieldType::U32, FieldVal::U32(_)) => true,
        (FieldType::U64, FieldVal::U64(_)) => true,
        (FieldType::Length, FieldVal::Length(_)) => true,
        (FieldType::Uuid, FieldVal::Uuid(_)) => true,
        (FieldType::FixedBytes(n), FieldVal::FixedBytes(b)) => b.len() == n,
        (FieldType::Enum(EnumType::IoFormat), FieldVal::IoFormat(_)) => true,
        (FieldType::Enum(EnumType::InputLanguage), FieldVal::InputLanguage(_)) => true,
        (FieldType::Enum(EnumType::TransactionState), FieldVal::TransactionState(_)) => true,
        (FieldType::Bytes(_), FieldVal::Bytes(_)) => true,
        (FieldType::Uuids(_), FieldVal::Array { .. }) => true,
        (FieldType::Structs(_, _), FieldVal::Array { .. }) => true,
        (FieldType::Rest, FieldVal::Rest(_)) => true,
        _ => false,
    }
}

/// A field that decodes gives a value of its kind.
proof fn lemma_decode_field_kind(f: FieldType, s: Seq<u8>, pos: int, r: nat)
    requires
        0 <= pos <= s.len(),
        decode_field(f, s, pos, r).0 is Ok,
    ensures
        kind_ok(f, decode_field(f, s, pos, r).0->Ok_0),
{
}

/// Fields that decode give one value of each field's kind, in order.
proof fn lemma_decode_fields_kinds(fields: Seq<FieldType>, s: Seq<u8>, pos: int, r: nat)
    requires
        0 <= pos <= s.len(),
    ensures
        decode_fields(fields, s, pos, r).0 is Ok ==> ({
            let vs = decode_fields(fields, s, pos, r).0->Ok_0;
            &&& vs.len() == fields.len()
            &&& forall|i: int| 0 <= i < fields.len() ==> kind_ok(fields[i], #[trigger] vs[i])
        }),
    decreases fields.len(),
{
    if fields.len() > 0 && decode_fields(fields, s, pos, r).0 is Ok {
        let (first, q) = decode_field(fields[0], s, pos, r);
        lemma_decode_field_kind(fields[0], s, pos, r);
        lemma_decode_field_bound(fields[0], s, pos, r);
        lemma_decode_fields_kinds(fields.drop_first(), s, q, r);
        let v = first->Ok_0;
        let rest = decode_fields(fields.drop_first(), s, q, r).0->Ok_0;
        let vs = seq![v] + rest;
        assert forall|i: int| 0 <= i < fields.len() implies kind_ok(fields[i], #[trigger] vs[i]) by {
            if i > 0 {
                assert(vs[i] == rest[i - 1]);
                assert(fields[i] == fields.drop_first()[i - 1]);
            }
        }
    }
}

/// The values that a message decodes to follow the protocol's definition of
/// the message, field by field: the type byte, the length, and then each
/// field of the message in the protocol's order, of the kind the protocol
/// gives it (an integer of its width, a UUID, a member of an enumeration, a
/// length-prefixed run of bytes, an array of elements, or the rest of the
/// buffer).
#[verifier::spinoff_prover]
#[verifier::rlimit(100)]
pub proof fn law_decoded_message_fields(m: MessageType, s: Seq<u8>)
    requires
        decode_message(message_fields(m), s) is Ok,
    ensures
        ({
        let vs = decode_message(message_fields(m), s)->Ok_0;
        match m {
            MessageType::Message => {
                &&& vs.len() == 3
                &&& vs[0] is U8
                &&& vs[1] is Length
                &&& vs[2] is Rest
            },
            MessageType::ErrorResponse => {
                &&& vs.len() == 6
                &&& vs[0] is U8
                &&& vs[1] is Length
                &&& vs[2] is U8
                &&& vs[3] is U32
                &&& vs[4] is Bytes
                &&& vs[5] is Array
            },
            MessageType::LogMessage => {
                &&& vs.len() == 6
                &&& vs[0] is U8
                &&& vs[1] is Length
                &&& vs[2] is U8
                &&& vs[3] is I32
                &&& vs[4] is Bytes
                &&& vs[5] is Array
            },
            MessageType::ReadyForCommand => {
                &&& vs.len() == 4
                &&& vs[0] is U8
                &&& vs[1] is Length
                &&& vs[2] is Array
                &&& vs[3] is TransactionState
            },
            MessageType::RestoreReady => {
                &&& vs.len() == 4
                &&& vs[0] is U8
                &&& vs[1] is Length
                &&& vs[2] is Array
                &&& vs[3] is U16
            },
            MessageType::CommandComplete => {
                &&& vs.len() == 7
                &&& vs[0] is U8
                &&& vs[1] is Length
                &&& vs[2] is Array
                &&& vs[3] is U64
                &&& vs[4] is Bytes
                &&& vs[5] is Uuid
                &&& vs[6] is Bytes
            },
            MessageType::CommandDataDescription => {
                &&& vs.len() == 9
                &&& vs[0] is U8
                &&& vs[1] is Length
                &&& vs[2] is Array
                &&& vs[3] is U64
                &&& vs[4] is U8
                &&& vs[5] is Uuid
                &&& vs[6] is Bytes
                &&& vs[7] is Uuid
                &&& vs[8] is Bytes
            },
            MessageType::StateDataDescription => {
                &&& vs.len() == 4
                &&& vs[0] is U8
                &&& vs[1] is Length
                &&& vs[2] is Uuid
                &&& vs[3] is Bytes
            },
            MessageType::Data => {
                &&& vs.len() == 3
                &&& vs[0] is U8
                &&& vs[1] is Length
                &&& vs[2] is Array
            },
            MessageType::DumpHeader => {
                &&& vs.len() == 8
                &&& vs[0] is U8
                &&& vs[1] is Length
                &&& vs[2] is Array
                &&& vs[3] is I16
                &&& vs[4] is I16
                &&& vs[5] is Bytes
                &&& vs[6] is Array
                &&& vs[7] is Array
            },
            MessageType::DumpBlock => {
                &&& vs.len() == 3
                &&& vs[0] is U8
                &&& vs[1] is Length
                &&& vs[2] is Array
            },
            MessageType::ServerKeyData => {
                &&& vs.len() == 3
                &&& vs[0] is U8
                &&& vs[1] is Length
                &&& (vs[2] matches FieldVal::FixedBytes(b) && b.len() == 32)
            },
            MessageType::ParameterStatus => {
                &&& vs.len() == 4
                &&& vs[0] is U8
                &&& vs[1] is Length
                &&& vs[2] is Bytes
                &&& vs[3] is Bytes
            },
            MessageType::ServerHandshake => {
                &&& vs.len() == 5
                &&& vs[0] is U8
                &&& vs[1] is Length
                &&& vs[2] is U16
                &&& vs[3] is U16
                &&& vs[4] is Array
            },
            MessageType::Authentication => {
                &&& vs.len() == 4
                &&& vs[0] is U8
                &&& vs[1] is Length
                &&& vs[2] is I32
                &&& vs[3] is Rest
            },
            MessageType::AuthenticationOk => {
                &&& vs.len() == 3
                &&& vs[0] is U8
                &&& vs[1] is Length
                &&& vs[2] is I32
            },
            MessageType::AuthenticationRequiredSASLMessage => {
                &&& vs.len() == 4
                &&& vs[0] is U8
                &&& vs[1] is Length
                &&& vs[2] is I32
                &&& vs[3] is Array
            },
            MessageType::AuthenticationSASLContinue => {
                &&& vs.len() == 4
                &&& vs[0] is U8
                &&& vs[1] is Length
                &&& vs[2] is I32
                &&& vs[3] is Bytes
            },
            MessageType::AuthenticationSASLFinal => {
                &&& vs.len() == 4
                &&& vs[0] is U8
                &&& vs[1] is Length
                &&& vs[2] is I32
                &&& vs[3] is Bytes
            },
            MessageType::Dump => {
                &&& vs.len() == 3
                &&& vs[0] is U8
                &&& vs[1] is Length
                &&& vs[2] is Array
            },
            MessageType::Dump2 => {
                &&& vs.len() == 3
                &&& vs[0] is U8
                &&& vs[1] is Length
                &&& vs[2] is Array
            },
            MessageType::Dump3 => {
                &&& vs.len() == 4
                &&& vs[0] is U8
                &&& vs[1] is Length
                &&& vs[2] is Array
                &&& vs[3] is U64
            },
            MessageType::Sync => {
                &&& vs.len() == 2
                &&& vs[0] is U8
                &&& vs[1] is Length
            },
            MessageType::Restore => {
                &&& vs.len() == 5
                &&& vs[0] is U8
                &&& vs[1] is Length
                &&& vs[2] is Array
                &&& vs[3] is U16
                &&& vs[4] is Rest
            },
            MessageType::RestoreBlock => {
                &&& vs.len() == 3
                &&& vs[0] is U8
                &&& vs[1] is Length
                &&& vs[2] is Bytes
            },
            MessageType::RestoreEof => {
                &&& vs.len() == 2
                &&& vs[0] is U8
                &&& vs[1] is Length
            },
            MessageType::Parse2 => {
                &&& vs.len() == 11
                &&& vs[0] is U8
                &&& vs[1] is Length
                &&& vs[2] is Array
                &&& vs[3] is U64
                &&& vs[4] is U64
                &&& vs[5] is U64
                &&& vs[6] is IoFormat
                &&& vs[7] is U8
                &&& vs[8] is Bytes
                &&& vs[9] is Uuid
                &&& vs[10] is Bytes
            },
            MessageType::Parse => {
                &&& vs.len() == 12
                &&& vs[0] is U8
                &&& vs[1] is Length
                &&& vs[2] is Array
                &&& vs[3] is U64
                &&& vs[4] is U64
                &&& vs[5] is U64
                &&& vs[6] is InputLanguage
                &&& vs[7] is IoFormat
                &&& vs[8] is U8
                &&& vs[9] is Bytes
                &&& vs[10] is Uuid
                &&& vs[11] is Bytes
            },
            MessageType::Execute => {
                &&& vs.len() == 15
                &&& vs[0] is U8
                &&& vs[1] is Length
                &&& vs[2] is Array
                &&& vs[3] is U64
                &&& vs[4] is U64
                &&& vs[5] is U64
                &&& vs[6] is InputLanguage
                &&& vs[7] is IoFormat
                &&& vs[8] is U8
                &&& vs[9] is Bytes
                &&& vs[10] is Uuid
                &&& vs[11] is Bytes
                &&& vs[12] is Uuid
                &&& vs[13] is Uuid
                &&& vs[14] is Bytes
            },
            MessageType::ClientHandshake => {
                &&& vs.len() == 6
                &&& vs[0] is U8
                &&& vs[1] is Length
                &&& vs[2] is U16
                &&& vs[3] is U16
                &&& vs[4] is Array
                &&& vs[5] is Array
            },
            MessageType::Terminate => {
                &&& vs.len() == 2
                &&& vs[0] is U8
                &&& vs[1] is Length
            },
            MessageType::AuthenticationSASLInitialResponse => {
                &&& vs.len() == 4
                &&& vs[0] is U8
                &&& vs[1] is Length
                &&& vs[2] is Bytes
                &&& vs[3] is Bytes
            },
            MessageType::AuthenticationSASLResponse => {
                &&& vs.len() == 3
                &&& vs[0] is U8
                &&& vs[1] is Length
                &&& vs[2] is Bytes
            },
            MessageType::Execute2 => {
                &&& vs.len() == 14
                &&& vs[0] is U8
                &&& vs[1] is Length
                &&& vs[2] is Array
                &&& vs[3] is U64
                &&& vs[4] is U64
                &&& vs[5] is U64
                &&& vs[6] is IoFormat
                &&& vs[7] is U8
                &&& vs[8] is Bytes
                &&& vs[9] is Uuid
                &&& vs[10] is Bytes
                &&& vs[11] is Uuid
                &&& vs[12] is Uuid
                &&& vs[13] is Bytes
            },
        }
        }),
{
    let fields = message_fields(m);
    lemma_message_ranked(m);
    lemma_decode_fields_kinds(fields, s, 0, message_rank());
}

/// The type of the count that an array field starts with (`U32` for a field
/// without a count).
pub open spec fn field_count(f: FieldType) -> CountType {
    match f {
        FieldType::Bytes(c) => c,
        FieldType::Uuids(c) => c,
        FieldType::Structs(c, _) => c,
        _ => CountType::U32,
    }
}

/// The bytes of the count `n` written as a count of type `c`: cut to the
/// width of the type, as `as` does.
pub open spec fn count_bytes(c: CountType, n: nat) -> Seq<u8> {
    match c {
        CountType::I16 => i16_bytes(n as i16),
        CountType::I32 => i32_bytes(n as i32),
        CountType::U32 => u32_bytes(n as u32),
    }
}

/// The bytes that the value `v` of a field of type `f` is written as.
pub open spec fn field_bytes(f: FieldType, v: FieldVal) -> Seq<u8> {
    match v {
        FieldVal::U8(x) => seq![x],
        FieldVal::U16(x) => u16_bytes(x),
        FieldVal::I16(x) => i16_bytes(x),
        FieldVal::I32(x) => i32_bytes(x),
        FieldVal::U32(x) => u32_bytes(x),
        FieldVal::U64(x) => u64_bytes(x),
        FieldVal::Length(x) => i32_bytes(x),
        FieldVal::Uuid(x) => u128_bytes(x),
        FieldVal::FixedBytes(b) => b,
        FieldVal::IoFormat(x) => seq![io_format_byte(x)],
        FieldVal::InputLanguage(x) => seq![input_language_byte(x)],
        FieldVal::TransactionState(x) => seq![transaction_state_byte(x)],
        FieldVal::Bytes(b) => count_bytes(field_count(f), b.len()) + b,
        FieldVal::Array { len, bytes } => count_bytes(field_count(f), len) + bytes,
        FieldVal::Rest(b) => b,
    }
}

/// The bytes that the values `vals` of the fields `fields` are written as,
/// one after the other, as far as both lists go.
pub open spec fn fields_bytes(fields: Seq<FieldType>, vals: Seq<FieldVal>) -> Seq<u8>
    decreases vals.len(),
{
    if fields.len() == 0 || vals.len() == 0 {
        Seq::empty()
    } else {
        field_bytes(fields[0], vals[0]) + fields_bytes(fields.drop_first(), vals.drop_first())
    }
}

/// A count read from the wire and written back as a count of the same type
/// gives the same bytes, negative counts included.
proof fn lemma_count_bytes_of_read(c: CountType, s: Seq<u8>, pos: int)
    requires
        0 <= pos,
        pos + count_width(c) <= s.len(),
    ensures
        count_bytes(c, count_at(c, s, pos) as nat) == s.subrange(pos, pos + count_width(c)),
{
    match c {
        CountType::I16 => {
            let x = i16_at(s, pos);
            assert(((x as usize) as i16) == x) by (bit_vector);
            lemma_i16_bytes_of_read(s, pos);
        },
        CountType::I32 => {
            let x = i32_at(s, pos);
            assert(((x as usize) as i32) == x) by (bit_vector);
            lemma_i32_bytes_of_read(s, pos);
        },
        CountType::U32 => {
            let x = u32_at(s, pos);
            assert(((x as usize) as u32) == x) by (bit_vector);
            lemma_u32_bytes_of_read(s, pos);
        },
    }
}

/// A field that decodes is written back as the bytes it was read from.
#[verifier::spinoff_prover]
#[verifier::rlimit(50)]
proof fn lemma_decode_field_bytes(f: FieldType, s: Seq<u8>, pos: int, r: nat)
    requires
        0 <= pos <= s.len(),
        decode_field(f, s, pos, r).0 is Ok,
    ensures
        field_bytes(f, decode_field(f, s, pos, r).0->Ok_0) == s.subrange(
            pos,
            decode_field(f, s, pos, r).1,
        ),
{
    let q = decode_field(f, s, pos, r).1;
    match f {
        FieldType::U8 => {
            assert(seq![s[pos]] =~= s.subrange(pos, q));
        },
        FieldType::U16 => lemma_u16_bytes_of_read(s, pos),
        FieldType::I16 => lemma_i16_bytes_of_read(s, pos),
        FieldType::I32 => lemma_i32_bytes_of_read(s, pos),
        FieldType::U32 => lemma_u32_bytes_of_read(s, pos),
        FieldType::U64 => lemma_u64_bytes_of_read(s, pos),
        FieldType::Length => lemma_i32_bytes_of_read(s, pos),
        FieldType::Uuid => lemma_u128_bytes_of_read(s, pos),
        FieldType::FixedBytes(_) => {},
        FieldType::Enum(_) => {
            assert(seq![s[pos]] =~= s.subrange(pos, q));
        },
        FieldType::Bytes(c) => {
            let p = pos + count_width(c);
            lemma_count_bytes_of_read(c, s, pos);
            assert(s.subrange(pos, q) =~= s.subrange(pos, p) + s.subrange(p, q));
        },
        FieldType::Uuids(c) => {
            let p = pos + count_width(c);
            lemma_uuids_end_bound(count_at(c, s, pos) as nat, s, p);
            lemma_count_bytes_of_read(c, s, pos);
            assert(s.subrange(pos, q) =~= s.subrange(pos, p) + s.subrange(p, q));
        },
        FieldType::Structs(c, e) => {
            let p = pos + count_width(c);
            lemma_decode_elements_bound(e, count_at(c, s, pos) as nat, s, p, rank(e));
            lemma_count_bytes_of_read(c, s, pos);
            assert(s.subrange(pos, q) =~= s.subrange(pos, p) + s.subrange(p, q));
        },
        FieldType::Rest => {},
    }
}

/// Fields that decode are written back as the bytes they were read from.
proof fn lemma_decode_fields_bytes(fields: Seq<FieldType>, s: Seq<u8>, pos: int, r: nat)
    requires
        0 <= pos <= s.len(),
        decode_fields(fields, s, pos, r).0 is Ok,
    ensures
        fields_bytes(fields, decode_fields(fields, s, pos, r).0->Ok_0) == s.subrange(
            pos,
            decode_fields(fields, s, pos, r).1,
        ),
    decreases fields.len(),
{
    if fields.len() == 0 {
        assert(s.subrange(pos, pos) =~= Seq::<u8>::empty());
    } else {
        let (first, q) = decode_field(fields[0], s, pos, r);
        let v = first->Ok_0;
        lemma_decode_field_bytes(fields[0], s, pos, r);
        lemma_decode_field_bound(fields[0], s, pos, r);
        let (rest, q2) = decode_fields(fields.drop_first(), s, q, r);
        let vs = rest->Ok_0;
        lemma_decode_fields_bytes(fields.drop_first(), s, q, r);
        lemma_decode_fields_bound(fields.drop_first(), s, q, r);
        let all = seq![v] + vs;
        assert(all[0] == v);
        assert(all.drop_first() =~= vs);
        assert(s.subrange(pos, q2) =~= s.subrange(pos, q) + s.subrange(q, q2));
    }
}

/// Decoding keeps every byte of a message: the values of its fields, written
/// back in order, are the whole buffer.
pub proof fn law_decode_keeps_bytes(m: MessageType, s: Seq<u8>)
    requires
        decode_message(message_fields(m), s) is Ok,
    ensures
        fields_bytes(message_fields(m), decode_message(message_fields(m), s)->Ok_0) == s,
{
    lemma_decode_fields_bytes(message_fields(m), s, 0, message_rank());
    lemma_decode_fields_bound(message_fields(m), s, 0, message_rank());
    assert(s.subrange(0, s.len() as int) =~= s);
}

/// Whether `bytes` is the part of `s` from `p` on, as long as `bytes`.
pub open spec fn window(bytes: Seq<u8>, s: Seq<u8>, p: int) -> bool {
    0 <= p && p + bytes.len() <= s.len() && bytes == s.subrange(p, p + bytes.len())
}

/// Whether no field of `fields` is the rest of the buffer.
pub open spec fn rest_free(fields: Seq<FieldType>) -> bool {
    forall|i: int| 0 <= i < fields.len() ==> !(#[trigger] fields[i] is Rest)
}

/// UUIDs read from a window of a buffer are read the same from the buffer.
proof fn lemma_window_uuids(n: nat, x: Seq<u8>, s: Seq<u8>, p: int, pos: int)
    requires
        window(x, s, p),
        0 <= pos <= x.len(),
        uuids_end(n, x, pos).0 is Ok,
    ensures
        uuids_end(n, s, p + pos) == (uuids_end(n, x, pos).0, p + uuids_end(n, x, pos).1),
    decreases n,
{
    if n > 0 {
        lemma_window_uuids((n - 1) as nat, x, s, p, pos + 16);
    }
}

/// A field other than the rest of the buffer that decodes from a window of
/// a buffer decodes the same from the buffer.
#[verifier::spinoff_prover]
#[verifier::rlimit(60)]
proof fn lemma_window_field(f: FieldType, x: Seq<u8>, s: Seq<u8>, p: int, pos: int, r: nat)
    requires
        window(x, s, p),
        0 <= pos <= x.len(),
        !(f is Rest),
        decode_field(f, x, pos, r).0 is Ok,
    ensures
        decode_field(f, s, p + pos, r) == (
            decode_field(f, x, pos, r).0,
            p + decode_field(f, x, pos, r).1,
        ),
    decreases r, 0nat, 0nat,
{
    let q = decode_field(f, x, pos, r).1;
    match f {
        FieldType::FixedBytes(n) => {
            assert(x.subrange(pos, pos + n) =~= s.subrange(p + pos, p + pos + n));
        },
        FieldType::Bytes(c) => {
            let w = count_width(c);
            assert(count_at(c, x, pos) == count_at(c, s, p + pos));
            assert(x.subrange(pos + w, q) =~= s.subrange(p + pos + w, p + q));
        },
        FieldType::Uuids(c) => {
            let w = count_width(c);
            let n = count_at(c, x, pos);
            assert(n == count_at(c, s, p + pos));
            lemma_window_uuids(n as nat, x, s, p, pos + w);
            lemma_uuids_end_bound(n as nat, x, pos + w);
            assert(x.subrange(pos + w, q) =~= s.subrange(p + pos + w, p + q));
        },
        FieldType::Structs(c, e) => {
            let w = count_width(c);
            let n = count_at(c, x, pos);
            assert(n == count_at(c, s, p + pos));
            lemma_window_elements(e, n as nat, x, s, p, pos + w, rank(e));
            lemma_decode_elements_bound(e, n as nat, x, pos + w, rank(e));
            assert(x.subrange(pos + w, q) =~= s.subrange(p + pos + w, p + q));
        },
        _ => {},
    }
}

/// Elements that decode from a window of a buffer decode the same from the buffer.
proof fn lemma_window_elements(e: Element, n: nat, x: Seq<u8>, s: Seq<u8>, p: int, pos: int, r: nat)
    requires
        window(x, s, p),
        0 <= pos <= x.len(),
        decode_elements(e, n, x, pos, r).0 is Ok,
    ensures
        decode_elements(e, n, s, p + pos, r) == (
            decode_elements(e, n, x, pos, r).0,
            p + decode_elements(e, n, x, pos, r).1,
        ),
    decreases r, n, 0nat,
{
    if n > 0 {
        let fields = element_fields(e);
        assert(rest_free(fields));
        lemma_window_fields(fields, x, s, p, pos, r);
        lemma_decode_fields_bound(fields, x, pos, r);
        let q = decode_fields(fields, x, pos, r).1;
        lemma_window_elements(e, (n - 1) as nat, x, s, p, q, r);
    }
}

/// Fields without the rest of the buffer that decode from a window of a
/// buffer decode the same from the buffer.
proof fn lemma_window_fields(
    fields: Seq<FieldType>,
    x: Seq<u8>,
    s: Seq<u8>,
    p: int,
    pos: int,
    r: nat,
)
    requires
        window(x, s, p),
        0 <= pos <= x.len(),
        rest_free(fields),
        decode_fields(fields, x, pos, r).0 is Ok,
    ensures
        decode_fields(fields, s, p + pos, r) == (
            decode_fields(fields, x, pos, r).0,
            p + decode_fields(fields, x, pos, r).1,
        ),
    decreases r, 0nat, fields.len(),
{
    if fields.len() > 0 {
        assert(!(fields[0] is Rest));
        lemma_window_field(fields[0], x, s, p, pos, r);
        lemma_decode_field_bound(fields[0], x, pos, r);
        let q = decode_field(fields[0], x, pos, r).1;
        let rest = fields.drop_first();
        assert(rest_free(rest)) by {
            assert forall|i: int| 0 <= i < rest.len() implies !(#[trigger] rest[i] is Rest) by {
                assert(rest[i] == fields[i + 1]);
            }
        }
        lemma_window_fields(rest, x, s, p, q, r);
    }
}

/// Whether the count `n` fits a count of type `c`, so that it reads back as itself.
pub open spec fn count_fits(c: CountType, n: nat) -> bool {
    match c {
        CountType::I16 => n <= 0x7fff,
        CountType::I32 => n <= 0x7fff_ffff,
        CountType::U32 => n <= 0xffff_ffff,
    }
}

/// Whether `v` is a value that a field of type `f` can be written with and
/// read back as: of the field's kind, with counts that fit their type, the
/// bytes of an array of elements being exactly `len` elements, and the rest of
/// the buffer only as the last field (`last`).
pub open spec fn value_fits(f: FieldType, v: FieldVal, last: bool) -> bool {
    match (f, v) {
        (FieldType::U8, FieldVal::U8(_)) => true,
        (FieldType::U16, FieldVal::U16(_)) => true,
        (FieldType::I16, FieldVal::I16(_)) => true,
        (FieldType::I32, FieldVal::I32(_)) => true,
        (FieldType::U32, FieldVal::U32(_)) => true,
        (FieldType::U64, FieldVal::U64(_)) => true,
        (FieldType::Length, FieldVal::Length(_)) => true,
        (FieldType::Uuid, FieldVal::Uuid(_)) => true,
        (FieldType::FixedBytes(n), FieldVal::FixedBytes(b)) => b.len() == n,
        (FieldType::Enum(EnumType::IoFormat), FieldVal::IoFormat(_)) => true,
        (FieldType::Enum(EnumType::InputLanguage), FieldVal::InputLanguage(_)) => true,
        (FieldType::Enum(EnumType::TransactionState), FieldVal::TransactionState(_)) => true,
        (FieldType::Bytes(c), FieldVal::Bytes(b)) => count_fits(c, b.len()),
        (FieldType::Uuids(c), FieldVal::Array { len, bytes }) => count_fits(c, len) && bytes.len()
            == 16 * len,
        (FieldType::Structs(c, e), FieldVal::Array { len, bytes }) => count_fits(c, len)
            && decode_elements(e, len, bytes, 0, rank(e)) == (
            Ok::<(), ParseError>(()),
            bytes.len() as int,
        ),
        (FieldType::Rest, FieldVal::Rest(_)) => last,
        _ => false,
    }
}

/// Whether the values `vals` fit the fields `fields`, one for one.
pub open spec fn values_fit(fields: Seq<FieldType>, vals: Seq<FieldVal>) -> bool {
    &&& vals.len() == fields.len()
    &&& forall|i: int|
        0 <= i < fields.len() ==> value_fits(
            #[trigger] fields[i],
            vals[i],
            i == fields.len() - 1,
        )
}

/// A count that fits its type is read back from its bytes.
proof fn lemma_count_read_of_bytes(c: CountType, n: nat)
    requires
        count_fits(c, n),
    ensures
        count_bytes(c, n).len() == count_width(c),
        count_at(c, count_bytes(c, n), 0) == n,
{
    match c {
        CountType::I16 => lemma_i16_roundtrip(n as i16),
        CountType::I32 => lemma_i32_roundtrip(n as i32),
        CountType::U32 => lemma_u32_roundtrip(n as u32),
    }
}

/// Reading `n` UUIDs from where `16 n` bytes are left.
proof fn lemma_uuids_end_fit(n: nat, s: Seq<u8>, pos: int)
    requires
        0 <= pos,
        pos + 16 * n <= s.len(),
    ensures
        uuids_end(n, s, pos) == (Ok::<(), ParseError>(()), pos + 16 * n),
    decreases n,
{
    if n > 0 {
        lemma_uuids_end_fit((n - 1) as nat, s, pos + 16);
    }
}

/// A value that fits its field, other than the rest of the buffer, is read
/// back from its own bytes.
#[verifier::spinoff_prover]
#[verifier::rlimit(60)]
proof fn lemma_decode_own_bytes(f: FieldType, v: FieldVal, last: bool, r: nat)
    requires
        value_fits(f, v, last),
        !(f is Rest),
        ranked(seq![f], r),
    ensures
        decode_field(f, field_bytes(f, v), 0, r) == (
            Ok::<FieldVal, ParseError>(v),
            field_bytes(f, v).len() as int,
        ),
{
    let b = field_bytes(f, v);
    match (f, v) {
        (FieldType::U16, FieldVal::U16(x)) => lemma_u16_roundtrip(x),
        (FieldType::I16, FieldVal::I16(x)) => lemma_i16_roundtrip(x),
        (FieldType::I32, FieldVal::I32(x)) => lemma_i32_roundtrip(x),
        (FieldType::U32, FieldVal::U32(x)) => lemma_u32_roundtrip(x),
        (FieldType::U64, FieldVal::U64(x)) => lemma_u64_roundtrip(x),
        (FieldType::Length, FieldVal::Length(x)) => lemma_i32_roundtrip(x),
        (FieldType::Uuid, FieldVal::Uuid(x)) => lemma_u128_roundtrip(x),
        (FieldType::FixedBytes(n), FieldVal::FixedBytes(bs)) => {
            assert(b.subrange(0, n as int) =~= bs);
        },
        (FieldType::Enum(EnumType::IoFormat), FieldVal::IoFormat(x)) => {
            let g = choose|g: IoFormat| io_format_byte(g) == b[0];
            crate::protocol::law_io_format_bytes(g, x);
        },
        (FieldType::Enum(EnumType::InputLanguage), FieldVal::InputLanguage(x)) => {
            let g = choose|g: InputLanguage| input_language_byte(g) == b[0];
            crate::protocol::law_input_language_bytes(g, x);
        },
        (FieldType::Enum(EnumType::TransactionState), FieldVal::TransactionState(x)) => {
            let g = choose|g: TransactionState| transaction_state_byte(g) == b[0];
            crate::protocol::law_transaction_state_bytes(g, x);
        },
        (FieldType::Bytes(c), FieldVal::Bytes(bs)) => {
            lemma_count_read_of_bytes(c, bs.len());
            let cb = count_bytes(c, bs.len());
            assert(count_at(c, b, 0) == count_at(c, cb, 0));
            assert(b.subrange(count_width(c), count_width(c) + bs.len()) =~= bs);
        },
        (FieldType::Uuids(c), FieldVal::Array { len, bytes }) => {
            lemma_count_read_of_bytes(c, len);
            let cb = count_bytes(c, len);
            assert(count_at(c, b, 0) == count_at(c, cb, 0));
            lemma_uuids_end_fit(len, b, count_width(c));
            assert(b.subrange(count_width(c), b.len() as int) =~= bytes);
        },
        (FieldType::Structs(c, e), FieldVal::Array { len, bytes }) => {
            lemma_count_read_of_bytes(c, len);
            let cb = count_bytes(c, len);
            assert(count_at(c, b, 0) == count_at(c, cb, 0));
            assert(seq![f][0] == f);
            assert(window(bytes, b, count_width(c))) by {
                assert(b.subrange(count_width(c), count_width(c) + bytes.len()) =~= bytes);
            }
            lemma_window_elements(e, len, bytes, b, count_width(c), 0, rank(e));
            assert(b.subrange(count_width(c), b.len() as int) =~= bytes);
        },
        _ => {},
    }
}

/// Fields whose values fit them are read back from their bytes where those
/// bytes end the buffer.
proof fn lemma_decode_fields_of_bytes(
    fields: Seq<FieldType>,
    vals: Seq<FieldVal>,
    s: Seq<u8>,
    o: int,
    r: nat,
)
    requires
        values_fit(fields, vals),
        ranked(fields, r),
        0 <= o <= s.len(),
        s.subrange(o, s.len() as int) == fields_bytes(fields, vals),
    ensures
        decode_fields(fields, s, o, r) == (Ok::<Seq<FieldVal>, ParseError>(vals), s.len() as int),
    decreases fields.len(),
{
    if fields.len() == 0 {
        assert(s.subrange(o, s.len() as int).len() == 0);
        assert(vals =~= Seq::<FieldVal>::empty());
    } else {
        let f = fields[0];
        let v = vals[0];
        let b = field_bytes(f, v);
        let rest_f = fields.drop_first();
        let rest_v = vals.drop_first();
        assert(value_fits(f, v, fields.len() == 1));
        let tail = fields_bytes(rest_f, rest_v);
        assert(fields_bytes(fields, vals) == b + tail);
        assert(s.subrange(o, s.len() as int) == b + tail);
        assert(o + b.len() + tail.len() == s.len());
        assert(s.subrange(o, o + b.len()) =~= b) by {
            assert(s.subrange(o, o + b.len()) =~= s.subrange(o, s.len() as int).subrange(
                0,
                b.len() as int,
            ));
        }
        assert(s.subrange(o + b.len(), s.len() as int) =~= fields_bytes(rest_f, rest_v)) by {
            assert(s.subrange(o + b.len(), s.len() as int) =~= s.subrange(o, s.len() as int).subrange(
                b.len() as int,
                s.len() - o,
            ));
        }
        assert(values_fit(rest_f, rest_v)) by {
            assert forall|i: int| 0 <= i < rest_f.len() implies value_fits(
                #[trigger] rest_f[i],
                rest_v[i],
                i == rest_f.len() - 1,
            ) by {
                assert(rest_f[i] == fields[i + 1]);
                assert(rest_v[i] == vals[i + 1]);
            }
        }
        assert(ranked(rest_f, r)) by {
            assert forall|i: int| 0 <= i < rest_f.len() implies match #[trigger] rest_f[i] {
                FieldType::Structs(_, e) => rank(e) < r,
                _ => true,
            } by {
                assert(rest_f[i] == fields[i + 1]);
            }
        }
        if f is Rest {
            assert(rest_f.len() == 0);
            assert(fields_bytes(rest_f, rest_v) =~= Seq::<u8>::empty());
            assert(s.subrange(o, s.len() as int) =~= b);
            assert(v == FieldVal::Rest(b));
            assert(decode_field(f, s, o, r) == (Ok::<FieldVal, ParseError>(v), s.len() as int));
            assert(decode_fields(rest_f, s, s.len() as int, r) == (
                Ok::<Seq<FieldVal>, ParseError>(Seq::empty()),
                s.len() as int,
            ));
            assert(rest_v =~= Seq::<FieldVal>::empty());
        } else {
            assert(ranked(seq![f], r)) by {
                assert(seq![f][0] == fields[0]);
            }
            lemma_decode_own_bytes(f, v, fields.len() == 1, r);
            assert(window(b, s, o));
            lemma_window_field(f, b, s, o, 0, r);
            assert(decode_field(f, s, o, r) == (Ok::<FieldVal, ParseError>(v), o + b.len()));
            lemma_decode_fields_of_bytes(rest_f, rest_v, s, o + b.len(), r);
        }
        assert(seq![v] + rest_v =~= vals);
    }
}

/// Field values that fit the layout of a message, written out, are read back
/// as the same values.
pub proof fn law_encode_then_decode(m: MessageType, vals: Seq<FieldVal>)
    requires
        values_fit(message_fields(m), vals),
    ensures
        decode_message(message_fields(m), fields_bytes(message_fields(m), vals)) == Ok::<
            Seq<FieldVal>,
            ParseError,
        >(vals),
{
    let s = fields_bytes(message_fields(m), vals);
    lemma_message_ranked(m);
    assert(s.subrange(0, s.len() as int) =~= s);
    lemma_decode_fields_of_bytes(message_fields(m), vals, s, 0, message_rank());
}

fn count_type(f: FieldType) -> (r: CountType)
    ensures
        r == field_count(f),
{
    match f {
        FieldType::Bytes(c) => c,
        FieldType::Uuids(c) => c,
        FieldType::Structs(c, _) => c,
        _ => CountType::U32,
    }
}

fn put_count(buf: &mut Vec<u8>, c: CountType, n: usize)
    ensures
        final(buf)@ == old(buf)@ + count_bytes(c, n as nat),
{
    match c {
        CountType::I16 => put_i16(buf, n as i16),
        CountType::I32 => put_i32(buf, n as i32),
        CountType::U32 => put_u32(buf, n as u32),
    }
}

fn put_field(buf: &mut Vec<u8>, f: FieldType, v: &FieldValue)
    ensures
        final(buf)@ == old(buf)@ + field_bytes(f, v@),
{
    match v {
        FieldValue::U8(x) => {
            put_u8(buf, *x);
            assert(buf@ =~= old(buf)@ + seq![*x]);
        },
        FieldValue::U16(x) => put_u16(buf, *x),
        FieldValue::I16(x) => put_i16(buf, *x),
        FieldValue::I32(x) => put_i32(buf, *x),
        FieldValue::U32(x) => put_u32(buf, *x),
        FieldValue::U64(x) => put_u64(buf, *x),
        FieldValue::Length(x) => put_i32(buf, *x),
        FieldValue::Uuid(x) => put_u128(buf, *x),
        FieldValue::FixedBytes(b) => put_slice(buf, b),
        FieldValue::IoFormat(x) => {
            put_u8(buf, x.to_u8());
            assert(buf@ =~= old(buf)@ + seq![io_format_byte(*x)]);
        },
        FieldValue::InputLanguage(x) => {
            put_u8(buf, x.to_u8());
            assert(buf@ =~= old(buf)@ + seq![input_language_byte(*x)]);
        },
        FieldValue::TransactionState(x) => {
            put_u8(buf, x.to_u8());
            assert(buf@ =~= old(buf)@ + seq![transaction_state_byte(*x)]);
        },
        FieldValue::Bytes(b) => {
            put_count(buf, count_type(f), b.len());
            put_slice(buf, b);
            assert(buf@ =~= old(buf)@ + (count_bytes(field_count(f), b@.len()) + b@));
        },
        FieldValue::Array { len, bytes } => {
            put_count(buf, count_type(f), *len);
            put_slice(buf, bytes);
            assert(buf@ =~= old(buf)@ + (count_bytes(field_count(f), *len as nat) + bytes@));
        },
        FieldValue::Rest(b) => put_slice(buf, b),
    }
}

/// Writes the values `vals` of the fields `fields` one after the other, as
/// far as both lists go.
pub fn encode_fields(fields: &[FieldType], vals: &[FieldValue]) -> (r: Vec<u8>)
    ensures
        r@ == fields_bytes(fields@, values_view(vals@)),
{
    let mut buf: Vec<u8> = Vec::new();
    let mut i: usize = 0;
    assert(fields@.skip(0) =~= fields@);
    assert(values_view(vals@).skip(0) =~= values_view(vals@));
    while i < fields.len() && i < vals.len()
        invariant
            i <= fields@.len(),
            i <= vals@.len(),
            fields_bytes(fields@, values_view(vals@)) == buf@ + fields_bytes(
                fields@.skip(i as int),
                values_view(vals@).skip(i as int),
            ),
        decreases fields@.len() - i,
    {
        let ghost rest_f = fields@.skip(i as int);
        let ghost rest_v = values_view(vals@).skip(i as int);
        assert(rest_f[0] == fields@[i as int]);
        assert(rest_v[0] == vals@[i as int]@);
        assert(rest_f.drop_first() =~= fields@.skip(i + 1));
        assert(rest_v.drop_first() =~= values_view(vals@).skip(i + 1));
        let ghost before = buf@;
        put_field(&mut buf, fields[i], &vals[i]);
        assert(before + fields_bytes(rest_f, rest_v) =~= buf@ + fields_bytes(
            fields@.skip(i + 1),
            values_view(vals@).skip(i + 1),
        ));
        i = i + 1;
    }
    assert(buf@ + fields_bytes(fields@.skip(i as int), values_view(vals@).skip(i as int))
        =~= buf@);
    buf
}

/// Writes the values of the fields of a message of type `m`: a decoded
/// message is written back as the bytes it was read from.
pub fn encode(m: MessageType, vals: &[FieldValue]) -> (r: Vec<u8>)
    ensures
        r@ == fields_bytes(message_fields(m), values_view(vals@)),
{
    let layout = message_layout(m);
    encode_fields(layout.as_slice(), vals)
}

/// The bytes `b` of a message with its length field, after the type byte,
/// set to the count of bytes from the length field to the end, cut to 32 bits.
pub open spec fn with_length(b: Seq<u8>) -> Seq<u8> {
    if b.len() >= 5 {
        b.subrange(0, 1) + u32_bytes((b.len() - 1) as u32) + b.subrange(5, b.len() as int)
    } else {
        b
    }
}

/// Writes a message of type `m` as its builder does: the values of its
/// fields in order, with the length field set to the count of bytes from the
/// length field to the end of the message (cut to 32 bits).
pub fn build(m: MessageType, vals: &[FieldValue]) -> (r: Vec<u8>)
    ensures
        r@ == with_length(fields_bytes(message_fields(m), values_view(vals@))),
{
    let mut buf = encode(m, vals);
    if buf.len() >= 5 {
        let ghost b = buf@;
        let len = (buf.len() - 1) as u32;
        buf.set(1, (len >> 24u32) as u8);
        buf.set(2, (len >> 16u32) as u8);
        buf.set(3, (len >> 8u32) as u8);
        buf.set(4, len as u8);
        assert(buf@ =~= with_length(b));
    }
    buf
}

/// Every message starts with its type byte and its length field.
proof fn lemma_message_head(m: MessageType)
    ensures
        message_fields(m).len() >= 2,
        message_fields(m)[0] == FieldType::U8,
        message_fields(m)[1] == FieldType::Length,
{
}

/// A message built from values that fit its layout reads back as those
/// values, with its length field holding the count of bytes after the type
/// byte (as two's complement where that count needs all 32 bits).
pub proof fn law_build_then_decode(m: MessageType, vals: Seq<FieldVal>)
    requires
        values_fit(message_fields(m), vals),
    ensures
        ({
            let b = with_length(fields_bytes(message_fields(m), vals));
            decode_message(message_fields(m), b) == Ok::<Seq<FieldVal>, ParseError>(
                vals.update(1, FieldVal::Length(((b.len() - 1) as u32) as i32)),
            )
        }),
{
    let fields = message_fields(m);
    lemma_message_head(m);
    let b = fields_bytes(fields, vals);
    let n = ((b.len() - 1) as u32) as i32;
    let vals2 = vals.update(1, FieldVal::Length(n));
    assert(values_fit(fields, vals2)) by {
        assert forall|i: int| 0 <= i < fields.len() implies value_fits(
            #[trigger] fields[i],
            vals2[i],
            i == fields.len() - 1,
        ) by {
            if i != 1 {
                assert(vals2[i] == vals[i]);
            }
        }
    }
    let (f2, v2) = (fields.drop_first().drop_first(), vals.drop_first().drop_first());
    let tail = fields_bytes(f2, v2);
    assert(value_fits(fields[0], vals[0], false));
    assert(value_fits(fields[1], vals[1], 1 == fields.len() - 1));
    assert(vals2.drop_first().drop_first() =~= v2);
    assert(fields.drop_first()[0] == fields[1]);
    assert(vals.drop_first()[0] == vals[1]);
    assert(vals2.drop_first()[0] == vals2[1]);
    let head = field_bytes(fields[0], vals[0]);
    assert(head.len() == 1);
    assert(fields_bytes(fields.drop_first(), vals.drop_first()) == field_bytes(fields[1], vals[1])
        + tail);
    assert(fields_bytes(fields.drop_first(), vals2.drop_first()) == field_bytes(
        fields[1],
        vals2[1],
    ) + tail);
    let old_len = field_bytes(fields[1], vals[1]);
    assert(old_len.len() == 4);
    let b2 = fields_bytes(fields, vals2);
    assert(b == head + (old_len + tail));
    assert(b2 == head + (field_bytes(fields[1], vals2[1]) + tail));
    let w = ((b.len() - 1) as u32);
    assert(((w as i32) as u32) == w) by (bit_vector);
    assert(field_bytes(fields[1], vals2[1]) == u32_bytes(w));
    assert(b.subrange(0, 1) =~= head);
    assert(b.subrange(5, b.len() as int) =~= tail);
    assert(b2 =~= with_length(b));
    law_encode_then_decode(m, vals2);
}

/// The groups of messages that a connection reads.
#[derive(Debug, Clone, Copy, PartialEq, Eq, Structural)]
pub enum MessageGroup {
    /// What the server sends.
    Backend,
    /// What a client of protocol 1 sends.
    Frontend2,
    /// What a client sends.
    Frontend,
}

/// The members of a group, in the order in which they are tried.
pub open spec fn group_members(g: MessageGroup) -> Seq<MessageType> {
    match g {
        MessageGroup::Backend => seq![
            MessageType::AuthenticationOk,
            MessageType::AuthenticationRequiredSASLMessage,
            MessageType::AuthenticationSASLContinue,
            MessageType::AuthenticationSASLFinal,
            MessageType::ServerKeyData,
            MessageType::ParameterStatus,
            MessageType::ServerHandshake,
            MessageType::ReadyForCommand,
            MessageType::RestoreReady,
            MessageType::CommandComplete,
            MessageType::CommandDataDescription,
            MessageType::StateDataDescription,
            MessageType::Data,
            MessageType::DumpHeader,
            MessageType::DumpBlock,
            MessageType::ErrorResponse,
            MessageType::LogMessage,
        ],
        MessageGroup::Frontend2 => seq![
            MessageType::ClientHandshake,
            MessageType::AuthenticationSASLInitialResponse,
            MessageType::AuthenticationSASLResponse,
            MessageType::Parse2,
            MessageType::Execute2,
            MessageType::Sync,
            MessageType::Terminate,
            MessageType::Dump2,
            MessageType::Restore,
            MessageType::RestoreBlock,
            MessageType::RestoreEof,
        ],
        MessageGroup::Frontend => seq![
            MessageType::ClientHandshake,
            MessageType::AuthenticationSASLInitialResponse,
            MessageType::AuthenticationSASLResponse,
            MessageType::Parse,
            MessageType::Execute,
            MessageType::Sync,
            MessageType::Terminate,
            MessageType::Dump3,
            MessageType::Restore,
            MessageType::RestoreBlock,
            MessageType::RestoreEof,
        ],
    }
}

/// The members of a group, in the order in which they are tried.
pub fn group_list(g: MessageGroup) -> (r: Vec<MessageType>)
    ensures
        r@ == group_members(g),
{
    let v = match g {
        MessageGroup::Backend => vec![
            MessageType::AuthenticationOk,
            MessageType::AuthenticationRequiredSASLMessage,
            MessageType::AuthenticationSASLContinue,
            MessageType::AuthenticationSASLFinal,
            MessageType::ServerKeyData,
            MessageType::ParameterStatus,
            MessageType::ServerHandshake,
            MessageType::ReadyForCommand,
            MessageType::RestoreReady,
            MessageType::CommandComplete,
            MessageType::CommandDataDescription,
            MessageType::StateDataDescription,
            MessageType::Data,
            MessageType::DumpHeader,
            MessageType::DumpBlock,
            MessageType::ErrorResponse,
            MessageType::LogMessage,
        ],
        MessageGroup::Frontend2 => vec![
            MessageType::ClientHandshake,
            MessageType::AuthenticationSASLInitialResponse,
            MessageType::AuthenticationSASLResponse,
            MessageType::Parse2,
            MessageType::Execute2,
            MessageType::Sync,
            MessageType::Terminate,
            MessageType::Dump2,
            MessageType::Restore,
            MessageType::RestoreBlock,
            MessageType::RestoreEof,
        ],
        MessageGroup::Frontend => vec![
            MessageType::ClientHandshake,
            MessageType::AuthenticationSASLInitialResponse,
            MessageType::AuthenticationSASLResponse,
            MessageType::Parse,
            MessageType::Execute,
            MessageType::Sync,
            MessageType::Terminate,
            MessageType::Dump3,
            MessageType::Restore,
            MessageType::RestoreBlock,
            MessageType::RestoreEof,
        ],
    };
    assert(v@ =~= group_members(g));
    v
}

/// The first of `members` whose constant fields `s` carries, if any.
pub open spec fn first_match(members: Seq<MessageType>, s: Seq<u8>) -> Option<MessageType>
    decreases members.len(),
{
    if members.len() == 0 {
        None
    } else if matches_constants(members[0], s) {
        Some(members[0])
    } else {
        first_match(members.drop_first(), s)
    }
}

/// A buffer carries the constant fields of a message exactly where it starts
/// with the message's type byte, as the protocol gives it, and, for an
/// authentication message of a given status, holds that status after the
/// length.
pub proof fn law_message_type_bytes(m: MessageType, s: Seq<u8>)
    ensures
        matches_constants(m, s) == match m {
            MessageType::Message => true,
            MessageType::ErrorResponse => s.len() >= 1 && s[0] == ('E' as u8),
            MessageType::LogMessage => s.len() >= 1 && s[0] == ('L' as u8),
            MessageType::ReadyForCommand => s.len() >= 1 && s[0] == ('Z' as u8),
            MessageType::RestoreReady => s.len() >= 1 && s[0] == ('+' as u8),
            MessageType::CommandComplete => s.len() >= 1 && s[0] == ('C' as u8),
            MessageType::CommandDataDescription => s.len() >= 1 && s[0] == ('T' as u8),
            MessageType::StateDataDescription => s.len() >= 1 && s[0] == ('s' as u8),
            MessageType::Data => s.len() >= 1 && s[0] == ('D' as u8),
            MessageType::DumpHeader => s.len() >= 1 && s[0] == ('@' as u8),
            MessageType::DumpBlock => s.len() >= 1 && s[0] == ('=' as u8),
            MessageType::ServerKeyData => s.len() >= 1 && s[0] == ('K' as u8),
            MessageType::ParameterStatus => s.len() >= 1 && s[0] == ('S' as u8),
            MessageType::ServerHandshake => s.len() >= 1 && s[0] == ('v' as u8),
            MessageType::Authentication => s.len() >= 1 && s[0] == ('R' as u8),
            MessageType::AuthenticationOk => s.len() >= 1 && s[0] == ('R' as u8) && s.len() >= 9 && i32_at(s, 5) == 0,
            MessageType::AuthenticationRequiredSASLMessage => s.len() >= 1 && s[0] == ('R' as u8) && s.len() >= 9 && i32_at(s, 5) == 10,
            MessageType::AuthenticationSASLContinue => s.len() >= 1 && s[0] == ('R' as u8) && s.len() >= 9 && i32_at(s, 5) == 11,
            MessageType::AuthenticationSASLFinal => s.len() >= 1 && s[0] == ('R' as u8) && s.len() >= 9 && i32_at(s, 5) == 12,
            MessageType::Dump => s.len() >= 1 && s[0] == ('>' as u8),
            MessageType::Dump2 => s.len() >= 1 && s[0] == ('>' as u8),
            MessageType::Dump3 => s.len() >= 1 && s[0] == ('>' as u8),
            MessageType::Sync => s.len() >= 1 && s[0] == ('S' as u8),
            MessageType::Restore => s.len() >= 1 && s[0] == ('<' as u8),
            MessageType::RestoreBlock => s.len() >= 1 && s[0] == ('=' as u8),
            MessageType::RestoreEof => s.len() >= 1 && s[0] == ('.' as u8),
            MessageType::Parse2 => s.len() >= 1 && s[0] == ('P' as u8),
            MessageType::Parse => s.len() >= 1 && s[0] == ('P' as u8),
            MessageType::Execute => s.len() >= 1 && s[0] == ('O' as u8),
            MessageType::ClientHandshake => s.len() >= 1 && s[0] == ('V' as u8),
            MessageType::Terminate => s.len() >= 1 && s[0] == ('X' as u8),
            MessageType::AuthenticationSASLInitialResponse => s.len() >= 1 && s[0] == ('p' as u8),
            MessageType::AuthenticationSASLResponse => s.len() >= 1 && s[0] == ('r' as u8),
            MessageType::Execute2 => s.len() >= 1 && s[0] == ('O' as u8),
        },
{
}

/// A buffer is identified, within each group, as the message whose type
/// byte (and, for authentication, status) it starts with; every type byte of
/// a group belongs to one member only, so the order of trial does not matter.
#[verifier::rlimit(100)]
pub proof fn law_identify_by_type_byte(s: Seq<u8>)
    ensures
        s.len() >= 1 && s[0] == ('R' as u8) && s.len() >= 9 && i32_at(s, 5) == 0 ==> first_match(group_members(MessageGroup::Backend), s) == Some(MessageType::AuthenticationOk),
        s.len() >= 1 && s[0] == ('R' as u8) && s.len() >= 9 && i32_at(s, 5) == 10 ==> first_match(group_members(MessageGroup::Backend), s) == Some(MessageType::AuthenticationRequiredSASLMessage),
        s.len() >= 1 && s[0] == ('R' as u8) && s.len() >= 9 && i32_at(s, 5) == 11 ==> first_match(group_members(MessageGroup::Backend), s) == Some(MessageType::AuthenticationSASLContinue),
        s.len() >= 1 && s[0] == ('R' as u8) && s.len() >= 9 && i32_at(s, 5) == 12 ==> first_match(group_members(MessageGroup::Backend), s) == Some(MessageType::AuthenticationSASLFinal),
        s.len() >= 1 && s[0] == ('K' as u8) ==> first_match(group_members(MessageGroup::Backend), s) == Some(MessageType::ServerKeyData),
        s.len() >= 1 && s[0] == ('S' as u8) ==> first_match(group_members(MessageGroup::Backend), s) == Some(MessageType::ParameterStatus),
        s.len() >= 1 && s[0] == ('v' as u8) ==> first_match(group_members(MessageGroup::Backend), s) == Some(MessageType::ServerHandshake),
        s.len() >= 1 && s[0] == ('Z' as u8) ==> first_match(group_members(MessageGroup::Backend), s) == Some(MessageType::ReadyForCommand),
        s.len() >= 1 && s[0] == ('+' as u8) ==> first_match(group_members(MessageGroup::Backend), s) == Some(MessageType::RestoreReady),
        s.len() >= 1 && s[0] == ('C' as u8) ==> first_match(group_members(MessageGroup::Backend), s) == Some(MessageType::CommandComplete),
        s.len() >= 1 && s[0] == ('T' as u8) ==> first_match(group_members(MessageGroup::Backend), s) == Some(MessageType::CommandDataDescription),
        s.len() >= 1 && s[0] == ('s' as u8) ==> first_match(group_members(MessageGroup::Backend), s) == Some(MessageType::StateDataDescription),
        s.len() >= 1 && s[0] == ('D' as u8) ==> first_match(group_members(MessageGroup::Backend), s) == Some(MessageType::Data),
        s.len() >= 1 && s[0] == ('@' as u8) ==> first_match(group_members(MessageGroup::Backend), s) == Some(MessageType::DumpHeader),
        s.len() >= 1 && s[0] == ('=' as u8) ==> first_match(group_members(MessageGroup::Backend), s) == Some(MessageType::DumpBlock),
        s.len() >= 1 && s[0] == ('E' as u8) ==> first_match(group_members(MessageGroup::Backend), s) == Some(MessageType::ErrorResponse),
        s.len() >= 1 && s[0] == ('L' as u8) ==> first_match(group_members(MessageGroup::Backend), s) == Some(MessageType::LogMessage),
        s.len() >= 1 && s[0] == ('V' as u8) ==> first_match(group_members(MessageGroup::Frontend2), s) == Some(MessageType::ClientHandshake),
        s.len() >= 1 && s[0] == ('p' as u8) ==> first_match(group_members(MessageGroup::Frontend2), s) == Some(MessageType::AuthenticationSASLInitialResponse),
        s.len() >= 1 && s[0] == ('r' as u8) ==> first_match(group_members(MessageGroup::Frontend2), s) == Some(MessageType::AuthenticationSASLResponse),
        s.len() >= 1 && s[0] == ('P' as u8) ==> first_match(group_members(MessageGroup::Frontend2), s) == Some(MessageType::Parse2),
        s.len() >= 1 && s[0] == ('O' as u8) ==> first_match(group_members(MessageGroup::Frontend2), s) == Some(MessageType::Execute2),
        s.len() >= 1 && s[0] == ('S' as u8) ==> first_match(group_members(MessageGroup::Frontend2), s) == Some(MessageType::Sync),
        s.len() >= 1 && s[0] == ('X' as u8) ==> first_match(group_members(MessageGroup::Frontend2), s) == Some(MessageType::Terminate),
        s.len() >= 1 && s[0] == ('>' as u8) ==> first_match(group_members(MessageGroup::Frontend2), s) == Some(MessageType::Dump2),
        s.len() >= 1 && s[0] == ('<' as u8) ==> first_match(group_members(MessageGroup::Frontend2), s) == Some(MessageType::Restore),
        s.len() >= 1 && s[0] == ('=' as u8) ==> first_match(group_members(MessageGroup::Frontend2), s) == Some(MessageType::RestoreBlock),
        s.len() >= 1 && s[0] == ('.' as u8) ==> first_match(group_members(MessageGroup::Frontend2), s) == Some(MessageType::RestoreEof),
        s.len() >= 1 && s[0] == ('V' as u8) ==> first_match(group_members(MessageGroup::Frontend), s) == Some(MessageType::ClientHandshake),
        s.len() >= 1 && s[0] == ('p' as u8) ==> first_match(group_members(MessageGroup::Frontend), s) == Some(MessageType::AuthenticationSASLInitialResponse),
        s.len() >= 1 && s[0] == ('r' as u8) ==> first_match(group_members(MessageGroup::Frontend), s) == Some(MessageType::AuthenticationSASLResponse),
        s.len() >= 1 && s[0] == ('P' as u8) ==> first_match(group_members(MessageGroup::Frontend), s) == Some(MessageType::Parse),
        s.len() >= 1 && s[0] == ('O' as u8) ==> first_match(group_members(MessageGroup::Frontend), s) == Some(MessageType::Execute),
        s.len() >= 1 && s[0] == ('S' as u8) ==> first_match(group_members(MessageGroup::Frontend), s) == Some(MessageType::Sync),
        s.len() >= 1 && s[0] == ('X' as u8) ==> first_match(group_members(MessageGroup::Frontend), s) == Some(MessageType::Terminate),
        s.len() >= 1 && s[0] == ('>' as u8) ==> first_match(group_members(MessageGroup::Frontend), s) == Some(MessageType::Dump3),
        s.len() >= 1 && s[0] == ('<' as u8) ==> first_match(group_members(MessageGroup::Frontend), s) == Some(MessageType::Restore),
        s.len() >= 1 && s[0] == ('=' as u8) ==> first_match(group_members(MessageGroup::Frontend), s) == Some(MessageType::RestoreBlock),
        s.len() >= 1 && s[0] == ('.' as u8) ==> first_match(group_members(MessageGroup::Frontend), s) == Some(MessageType::RestoreEof),
{
    reveal_with_fuel(first_match, 18);
}

/// The message of group `g` that `buf` is: the first member whose constant
/// fields it carries, if any.
pub fn identify(g: MessageGroup, buf: &[u8]) -> (r: Option<MessageType>)
    ensures
        r == first_match(group_members(g), buf@),
        match r {
            Some(m) => exists|i: int|
                0 <= i < group_members(g).len() && group_members(g)[i] == m && matches_constants(
                    m,
                    buf@,
                ) && forall|j: int|
                    0 <= j < i ==> !matches_constants(#[trigger] group_members(g)[j], buf@),
            None => forall|j: int|
                0 <= j < group_members(g).len() ==> !matches_constants(
                    #[trigger] group_members(g)[j],
                    buf@,
                ),
        },
{
    let members = group_list(g);
    let mut i: usize = 0;
    assert(members@.skip(0) =~= members@);
    while i < members.len()
        invariant
            i <= members@.len(),
            members@ == group_members(g),
            forall|j: int| 0 <= j < i ==> !matches_constants(#[trigger] members@[j], buf@),
            first_match(members@, buf@) == first_match(members@.skip(i as int), buf@),
        decreases members@.len() - i,
    {
        let ghost rest = members@.skip(i as int);
        assert(rest[0] == members@[i as int]);
        assert(rest.drop_first() =~= members@.skip(i + 1));
        if is_buffer(members[i], buf) {
            return Some(members[i]);
        }
        i = i + 1;
    }
    assert(members@.skip(i as int).len() == 0);
    None
}

} // verus!
