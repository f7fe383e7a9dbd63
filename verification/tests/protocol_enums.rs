use gel_protocol::protocol::{Cardinality, InputLanguage, IoFormat, TransactionState};

#[test]
fn io_format_bytes_roundtrip() {
    for f in [IoFormat::JsonElements, IoFormat::Binary, IoFormat::Json, IoFormat::NoOutput] {
        assert_eq!(IoFormat::try_from_u8(f.to_u8()), Some(f));
    }
    assert_eq!(IoFormat::Binary.to_u8(), b'b');
    assert_eq!(IoFormat::Json.to_u8(), b'j');
    assert_eq!(IoFormat::JsonElements.to_u8(), b'J');
    assert_eq!(IoFormat::NoOutput.to_u8(), b'n');
    assert_eq!(IoFormat::try_from_u8(b'x'), None);
    assert_eq!(IoFormat::default(), IoFormat::NoOutput);
}

#[test]
fn input_language_bytes_roundtrip() {
    for l in [InputLanguage::NotSpecified, InputLanguage::EdgeQL, InputLanguage::SQL] {
        assert_eq!(InputLanguage::try_from_u8(l.to_u8()), Some(l));
    }
    assert_eq!(InputLanguage::EdgeQL.to_u8(), b'E');
    assert_eq!(InputLanguage::SQL.to_u8(), b'S');
    assert_eq!(InputLanguage::try_from_u8(1), None);
    assert_eq!(InputLanguage::default(), InputLanguage::NotSpecified);
}

#[test]
fn transaction_state_bytes_roundtrip() {
    for s in [
        TransactionState::InFailedTransaction,
        TransactionState::NotInTransaction,
        TransactionState::InTransaction,
    ] {
        assert_eq!(TransactionState::try_from_u8(s.to_u8()), Some(s));
    }
    assert_eq!(TransactionState::NotInTransaction.to_u8(), b'I');
    assert_eq!(TransactionState::InTransaction.to_u8(), b'T');
    assert_eq!(TransactionState::InFailedTransaction.to_u8(), b'E');
    assert_eq!(TransactionState::try_from_u8(0), None);
    assert_eq!(TransactionState::default(), TransactionState::NotInTransaction);
}

#[test]
fn cardinality_bytes_and_optionality() {
    let all = [
        Cardinality::One,
        Cardinality::AtLeastOne,
        Cardinality::Many,
        Cardinality::NoResult,
        Cardinality::AtMostOne,
    ];
    for c in all {
        assert_eq!(Cardinality::try_from_u8(c.to_u8()), Some(c));
    }
    assert_eq!(Cardinality::NoResult.to_u8(), b'n');
    assert_eq!(Cardinality::AtMostOne.to_u8(), b'o');
    assert_eq!(Cardinality::One.to_u8(), b'A');
    assert_eq!(Cardinality::Many.to_u8(), b'm');
    assert_eq!(Cardinality::AtLeastOne.to_u8(), b'M');
    assert_eq!(Cardinality::default(), Cardinality::NoResult);
    assert!(Cardinality::NoResult.is_optional());
    assert!(Cardinality::AtMostOne.is_optional());
    assert!(Cardinality::Many.is_optional());
    assert!(!Cardinality::One.is_optional());
    assert!(!Cardinality::AtLeastOne.is_optional());
}

#[test]
fn derived_order_is_the_order_of_the_bytes() {
    let mut c = [
        Cardinality::NoResult,
        Cardinality::AtMostOne,
        Cardinality::One,
        Cardinality::Many,
        Cardinality::AtLeastOne,
    ];
    c.sort();
    let bytes: Vec<u8> = c.iter().map(|x| x.to_u8()).collect();
    let mut sorted = bytes.clone();
    sorted.sort();
    assert_eq!(bytes, sorted);
    assert!(IoFormat::JsonElements < IoFormat::Binary);
    assert!(TransactionState::InFailedTransaction < TransactionState::NotInTransaction);
}
