//! The errors of decoding a value, of encoding one, and of matching a query
//! argument against the type descriptors that the server sent.
use vstd::prelude::*;

verus! {

/// Why a buffer could not be decoded as a value of the requested type.
#[derive(Debug, Clone, Copy, PartialEq, Eq, Structural)]
pub enum DecodeError {
    /// The buffer holds fewer bytes than the type needs.
    Underflow,
    /// The buffer holds more bytes than the type needs.
    ExtraData,
    /// The bytes of a string are not valid UTF-8.
    InvalidUtf8,
    /// A JSON value does not start with the format byte 1.
    InvalidJsonFormat,
    /// A boolean byte is neither 0 nor 1.
    InvalidBool { val: u8 },
    /// The sign field of a decimal or big integer is neither 0x0000 nor 0x4000.
    BadSign,
    /// A field that must be zero is not.
    NonZeroReservedBytes,
    /// A date or time lies outside the supported range.
    InvalidDate,
    /// An enumeration value names no variant of the enum.
    ExtraEnumValue,
}

/// Why a value could not be written to the wire.
#[derive(Debug, Clone, Copy, PartialEq, Eq, Structural)]
pub enum EncodeError {
    /// A decimal or big integer has more than 65535 base-10000 digits.
    BigIntTooLong,
    /// A length-prefixed value is longer than `u32::MAX` bytes.
    ValueTooLong,
}

/// Why a query argument was refused.
#[derive(Debug, Clone, Copy, PartialEq, Eq)]
pub enum ArgError {
    /// A type position points past the end of the descriptor list.
    InvalidTypePos { pos: u16 },
    /// The descriptor at `found` is not the type that the argument needs.
    WrongType { found: u16, expected: &'static str },
    /// The value cannot be encoded.
    ClientEncoding(EncodeError),
}

/// The outcome of requiring a buffer of `len` bytes to hold exactly `expected` bytes.
pub open spec fn exact_size(len: int, expected: int) -> Result<(), DecodeError> {
    if len == expected {
        Ok(())
    } else if len < expected {
        Err(DecodeError::Underflow)
    } else {
        Err(DecodeError::ExtraData)
    }
}

} // verus!
