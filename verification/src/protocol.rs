//! The one-byte enumerations of the protocol's messages: each variant, the
//! byte that stands for it on the wire, and the variant that a byte reads as.
//! The variants are declared in the order of their bytes, so that the derived
//! order is the order of the bytes.
use vstd::prelude::*;

verus! {

/// Data format.
#[derive(Copy, Clone, Debug, PartialEq, Eq, Hash, PartialOrd, Ord, Structural)]
pub enum IoFormat {
    JsonElements,
    Binary,
    Json,
    /// No output (the byte `n`).
    NoOutput,
}

/// The byte of an output format.
pub open spec fn io_format_byte(f: IoFormat) -> u8 {
    match f {
        IoFormat::JsonElements => 0x4a,
        IoFormat::Binary => 0x62,
        IoFormat::Json => 0x6a,
        IoFormat::NoOutput => 0x6e,
    }
}

impl IoFormat {
    /// The byte that stands for the format on the wire.
    pub fn to_u8(&self) -> (r: u8)
        ensures
            r == io_format_byte(*self),
    {
        match self {
            IoFormat::JsonElements => 0x4a,
            IoFormat::Binary => 0x62,
            IoFormat::Json => 0x6a,
            IoFormat::NoOutput => 0x6e,
        }
    }

    /// The format that `b` stands for, if any.
    pub fn try_from_u8(b: u8) -> (r: Option<IoFormat>)
        ensures
            r matches Some(f) ==> io_format_byte(f) == b,
            r is None ==> forall|f: IoFormat| io_format_byte(f) != b,
    {
        match b {
            0x4a => Some(IoFormat::JsonElements),
            0x62 => Some(IoFormat::Binary),
            0x6a => Some(IoFormat::Json),
            0x6e => Some(IoFormat::NoOutput),
            _ => None,
        }
    }
}

impl Default for IoFormat {
    /// No output.
    fn default() -> (r: IoFormat)
        ensures
            r == IoFormat::NoOutput,
    {
        IoFormat::NoOutput
    }
}

/// Input language.
#[derive(Copy, Clone, Debug, PartialEq, Eq, Hash, PartialOrd, Ord, Structural)]
pub enum InputLanguage {
    /// No language given (the byte 0).
    NotSpecified,
    EdgeQL,
    SQL,
}

/// The byte of an input language.
pub open spec fn input_language_byte(l: InputLanguage) -> u8 {
    match l {
        InputLanguage::NotSpecified => 0,
        InputLanguage::EdgeQL => 0x45,
        InputLanguage::SQL => 0x53,
    }
}

impl InputLanguage {
    /// The byte that stands for the language on the wire.
    pub fn to_u8(&self) -> (r: u8)
        ensures
            r == input_language_byte(*self),
    {
        match self {
            InputLanguage::NotSpecified => 0,
            InputLanguage::EdgeQL => 0x45,
            InputLanguage::SQL => 0x53,
        }
    }

    /// The language that `b` stands for, if any.
    pub fn try_from_u8(b: u8) -> (r: Option<InputLanguage>)
        ensures
            r matches Some(l) ==> input_language_byte(l) == b,
            r is None ==> forall|l: InputLanguage| input_language_byte(l) != b,
    {
        match b {
            0 => Some(InputLanguage::NotSpecified),
            0x45 => Some(InputLanguage::EdgeQL),
            0x53 => Some(InputLanguage::SQL),
            _ => None,
        }
    }
}

impl Default for InputLanguage {
    /// No language given.
    fn default() -> (r: InputLanguage)
        ensures
            r == InputLanguage::NotSpecified,
    {
        InputLanguage::NotSpecified
    }
}

/// The state of the current transaction.
#[derive(Copy, Clone, Debug, PartialEq, Eq, Hash, PartialOrd, Ord, Structural)]
pub enum TransactionState {
    InFailedTransaction,
    NotInTransaction,
    InTransaction,
}

/// The byte of a transaction state.
pub open spec fn transaction_state_byte(s: TransactionState) -> u8 {
    match s {
        TransactionState::InFailedTransaction => 0x45,
        TransactionState::NotInTransaction => 0x49,
        TransactionState::InTransaction => 0x54,
    }
}

impl TransactionState {
    /// The byte that stands for the state on the wire.
    pub fn to_u8(&self) -> (r: u8)
        ensures
            r == transaction_state_byte(*self),
    {
        match self {
            TransactionState::InFailedTransaction => 0x45,
            TransactionState::NotInTransaction => 0x49,
            TransactionState::InTransaction => 0x54,
        }
    }

    /// The state that `b` stands for, if any.
    pub fn try_from_u8(b: u8) -> (r: Option<TransactionState>)
        ensures
            r matches Some(s) ==> transaction_state_byte(s) == b,
            r is None ==> forall|s: TransactionState| transaction_state_byte(s) != b,
    {
        match b {
            0x45 => Some(TransactionState::InFailedTransaction),
            0x49 => Some(TransactionState::NotInTransaction),
            0x54 => Some(TransactionState::InTransaction),
            _ => None,
        }
    }
}

impl Default for TransactionState {
    /// Outside a transaction.
    fn default() -> (r: TransactionState)
        ensures
            r == TransactionState::NotInTransaction,
    {
        TransactionState::NotInTransaction
    }
}

/// The cardinality of the result set.
#[derive(Copy, Clone, Debug, PartialEq, Eq, Hash, PartialOrd, Ord, Structural)]
pub enum Cardinality {
    One,
    AtLeastOne,
    Many,
    NoResult,
    AtMostOne,
}

/// The byte of a cardinality.
pub open spec fn cardinality_byte(c: Cardinality) -> u8 {
    match c {
        Cardinality::One => 0x41,
        Cardinality::AtLeastOne => 0x4d,
        Cardinality::Many => 0x6d,
        Cardinality::NoResult => 0x6e,
        Cardinality::AtMostOne => 0x6f,
    }
}

impl Cardinality {
    /// The byte that stands for the cardinality on the wire.
    pub fn to_u8(&self) -> (r: u8)
        ensures
            r == cardinality_byte(*self),
    {
        match self {
            Cardinality::One => 0x41,
            Cardinality::AtLeastOne => 0x4d,
            Cardinality::Many => 0x6d,
            Cardinality::NoResult => 0x6e,
            Cardinality::AtMostOne => 0x6f,
        }
    }

    /// The cardinality that `b` stands for, if any.
    pub fn try_from_u8(b: u8) -> (r: Option<Cardinality>)
        ensures
            r matches Some(c) ==> cardinality_byte(c) == b,
            r is None ==> forall|c: Cardinality| cardinality_byte(c) != b,
    {
        match b {
            0x41 => Some(Cardinality::One),
            0x4d => Some(Cardinality::AtLeastOne),
            0x6d => Some(Cardinality::Many),
            0x6e => Some(Cardinality::NoResult),
            0x6f => Some(Cardinality::AtMostOne),
            _ => None,
        }
    }

    /// Whether a result of this cardinality may be empty: all but `One` and
    /// `AtLeastOne`.
    pub fn is_optional(&self) -> (r: bool)
        ensures
            r == !(*self == Cardinality::One || *self == Cardinality::AtLeastOne),
    {
        match self {
            Cardinality::NoResult => true,
            Cardinality::AtMostOne => true,
            Cardinality::One => false,
            Cardinality::Many => true,
            Cardinality::AtLeastOne => false,
        }
    }
}

impl Default for Cardinality {
    /// No result.
    fn default() -> (r: Cardinality)
        ensures
            r == Cardinality::NoResult,
    {
        Cardinality::NoResult
    }
}

/// Distinct variants stand for distinct bytes; with the contracts of
/// `to_u8` and `try_from_u8` this makes each variant's byte read back as that variant.
pub proof fn law_io_format_bytes(a: IoFormat, b: IoFormat)
    ensures
        io_format_byte(a) == io_format_byte(b) ==> a == b,
{
}

/// Distinct variants stand for distinct bytes.
pub proof fn law_input_language_bytes(a: InputLanguage, b: InputLanguage)
    ensures
        input_language_byte(a) == input_language_byte(b) ==> a == b,
{
}

/// Distinct variants stand for distinct bytes.
pub proof fn law_transaction_state_bytes(a: TransactionState, b: TransactionState)
    ensures
        transaction_state_byte(a) == transaction_state_byte(b) ==> a == b,
{
}

/// Distinct variants stand for distinct bytes.
pub proof fn law_cardinality_bytes(a: Cardinality, b: Cardinality)
    ensures
        cardinality_byte(a) == cardinality_byte(b) ==> a == b,
{
}

/// Each variant is written as the byte that the protocol gives it, and a
/// byte reads back as the variant it stands for: `b`inary, `j`son, `J`SON
/// elements and `n`o output; no language (0), `E`dgeQL and `S`QL; `I`dle,
/// in `T`ransaction and in `E`rror; `n`o result, at most `o`ne, exactly one
/// (`A`), `m`any and at least one (`M`).
pub proof fn law_enum_bytes_follow_protocol()
    ensures
        io_format_byte(IoFormat::Binary) == ('b' as u8),
        io_format_byte(IoFormat::Json) == ('j' as u8),
        io_format_byte(IoFormat::JsonElements) == ('J' as u8),
        io_format_byte(IoFormat::NoOutput) == ('n' as u8),
        input_language_byte(InputLanguage::NotSpecified) == 0,
        input_language_byte(InputLanguage::EdgeQL) == ('E' as u8),
        input_language_byte(InputLanguage::SQL) == ('S' as u8),
        transaction_state_byte(TransactionState::NotInTransaction) == ('I' as u8),
        transaction_state_byte(TransactionState::InTransaction) == ('T' as u8),
        transaction_state_byte(TransactionState::InFailedTransaction) == ('E' as u8),
        cardinality_byte(Cardinality::NoResult) == ('n' as u8),
        cardinality_byte(Cardinality::AtMostOne) == ('o' as u8),
        cardinality_byte(Cardinality::One) == ('A' as u8),
        cardinality_byte(Cardinality::Many) == ('m' as u8),
        cardinality_byte(Cardinality::AtLeastOne) == ('M' as u8),
{
}

} // verus!
