use gel_protocol::descriptors::{
    base_chain_is_finite, Descriptor, DescriptorContext, ProtocolVersion, TypePos,
};
use gel_protocol::errors::{ArgError, EncodeError};
use gel_protocol::model::{
    BigInt, ConfigMemory, DateDuration, Datetime, Decimal, Duration, EnumValue, Json, LocalDate,
    LocalDatetime, LocalTime, Range, RelativeDuration, Uuid, Vector, VectorRef,
};
use gel_protocol::raw_scalar::RawCodec;
use gel_protocol::scalar_arg::{
    check_f32_descriptor, check_f64_descriptor, encode_f32_bits, encode_f64_bits, Encoder,
    ScalarArg, PGVECTOR_VECTOR, STD_FLOAT32, STD_FLOAT64, STD_INT32, STD_STR,
};
use gel_protocol::value::Value;

fn encoded<T: ScalarArg>(v: &T) -> Result<Vec<u8>, ArgError> {
    let mut e = Encoder::new();
    v.encode(&mut e)?;
    Ok(e.buf)
}

#[test]
fn scalars_encode_big_endian() {
    assert_eq!(encoded(&true), Ok(vec![1]));
    assert_eq!(encoded(&false), Ok(vec![0]));
    assert_eq!(encoded(&-2i16), Ok(vec![0xff, 0xfe]));
    assert_eq!(encoded(&256i32), Ok(vec![0, 0, 1, 0]));
    assert_eq!(encoded(&56i64), Ok(vec![0, 0, 0, 0, 0, 0, 0, 0x38]));
    assert_eq!(encoded(&ConfigMemory(1024)), Ok(vec![0, 0, 0, 0, 0, 0, 4, 0]));
    assert_eq!(encoded(&"żó".to_string()), Ok("żó".as_bytes().to_vec()));
    assert_eq!(encoded(&"ab"), Ok(b"ab".to_vec()));
    assert_eq!(encoded(&&[7u8, 8][..]), Ok(vec![7, 8]));
    assert_eq!(encoded(&bytes::Bytes::from_static(&[7])), Ok(vec![7]));
    assert_eq!(encoded(&Json::new_unchecked("[]".to_string())), Ok(b"\x01[]".to_vec()));
    assert_eq!(encoded(&EnumValue("Red".to_string())), Ok(b"Red".to_vec()));
    let mut u = vec![0u8; 16];
    u[15] = 0x0f;
    assert_eq!(encoded(&Uuid(0x0f)), Ok(u));
}

#[test]
fn durations_and_times_encode() {
    let mut d = 5i64.to_be_bytes().to_vec();
    d.extend_from_slice(&[0; 8]);
    assert_eq!(encoded(&Duration { micros: 5 }), Ok(d));
    let mut r = (-1i64).to_be_bytes().to_vec();
    r.extend_from_slice(&2i32.to_be_bytes());
    r.extend_from_slice(&3i32.to_be_bytes());
    assert_eq!(encoded(&RelativeDuration { micros: -1, days: 2, months: 3 }), Ok(r));
    let mut dd = vec![0u8; 8];
    dd.extend_from_slice(&2i32.to_be_bytes());
    dd.extend_from_slice(&3i32.to_be_bytes());
    assert_eq!(encoded(&DateDuration { days: 2, months: 3 }), Ok(dd));
    let dt = Datetime::from_postgres_micros(77).unwrap();
    assert_eq!(encoded(&dt), Ok(77i64.to_be_bytes().to_vec()));
    let ldt = LocalDatetime::from_postgres_micros(-77).unwrap();
    assert_eq!(encoded(&ldt), Ok((-77i64).to_be_bytes().to_vec()));
    assert_eq!(encoded(&LocalDate { days: 9 }), Ok(9i32.to_be_bytes().to_vec()));
    let t = LocalTime::from_micros(12).unwrap();
    assert_eq!(encoded(&t), Ok(12i64.to_be_bytes().to_vec()));
    assert!(Datetime::from_postgres_micros(i64::MAX).is_err());
    assert!(LocalTime::from_micros(86_400_000_000).is_err());
}

#[test]
fn numerics_encode_header_then_digits() {
    let d = Decimal { negative: true, weight: -1, decimal_digits: 4, digits: vec![4000] };
    assert_eq!(encoded(&d), Ok(vec![0, 1, 0xff, 0xff, 0x40, 0, 0, 4, 0x0f, 0xa0]));
    let b = BigInt { negative: false, weight: 1, digits: vec![7] };
    assert_eq!(encoded(&b), Ok(vec![0, 1, 0, 1, 0, 0, 0, 0, 0, 7]));
    let too_long = BigInt { negative: false, weight: 0, digits: vec![0; 65536] };
    let mut e = Encoder::new();
    assert_eq!(
        too_long.encode(&mut e),
        Err(ArgError::ClientEncoding(EncodeError::BigIntTooLong))
    );
    assert!(e.buf.is_empty());
}

#[test]
fn encoded_values_decode_back() {
    for v in [i64::MIN, -1, 0, 1, i64::MAX] {
        assert_eq!(i64::decode(&encoded(&v).unwrap()), Ok(v));
    }
    for v in [i16::MIN, -3, 0, i16::MAX] {
        assert_eq!(i16::decode(&encoded(&v).unwrap()), Ok(v));
    }
    assert_eq!(bool::decode(&encoded(&true).unwrap()), Ok(true));
    assert_eq!(Uuid::decode(&encoded(&Uuid(u128::MAX - 5)).unwrap()), Ok(Uuid(u128::MAX - 5)));
    let s = "zażółć".to_string();
    assert_eq!(String::decode(&encoded(&s).unwrap()), Ok(s));
    let d = Decimal { negative: false, weight: 3, decimal_digits: 2, digits: vec![1, 2, 9999] };
    let back = Decimal::decode(&encoded(&d).unwrap()).unwrap();
    assert_eq!((back.negative, back.weight, back.decimal_digits, back.digits), (false, 3, 2, d.digits));
    let r = RelativeDuration { micros: 9, days: -8, months: 7 };
    assert_eq!(RelativeDuration::decode(&encoded(&r).unwrap()), Ok(r));
    let t = LocalTime::from_micros(86_399_999_999).unwrap();
    assert_eq!(LocalTime::decode(&encoded(&t).unwrap()), Ok(t));
    let j = Json::new_unchecked("{}".to_string());
    assert_eq!(Json::decode(&encoded(&j).unwrap()).unwrap().0, "{}");
}

#[test]
fn ranges_encode_flags_and_length_prefixed_bounds() {
    let r = Range { lower: Some(1i32), upper: None, inc_lower: true, inc_upper: false, empty: false };
    assert_eq!(encoded(&r), Ok(vec![0x12, 0, 0, 0, 4, 0, 0, 0, 1]));
    let r = Range { lower: Some(1i32), upper: Some(5i32), inc_lower: true, inc_upper: true, empty: false };
    assert_eq!(encoded(&r), Ok(vec![0x06, 0, 0, 0, 4, 0, 0, 0, 1, 0, 0, 0, 4, 0, 0, 0, 5]));
    let r: Range<i32> = Range { lower: None, upper: None, inc_lower: false, inc_upper: false, empty: true };
    assert_eq!(encoded(&r), Ok(vec![0x01]));
    let r: Range<i32> = Range { lower: None, upper: None, inc_lower: false, inc_upper: false, empty: false };
    assert_eq!(encoded(&r), Ok(vec![0x18]));
    let bad = Range {
        lower: Some(BigInt { negative: false, weight: 0, digits: vec![0; 65536] }),
        upper: None,
        inc_lower: false,
        inc_upper: false,
        empty: false,
    };
    assert_eq!(encoded(&bad), Err(ArgError::ClientEncoding(EncodeError::BigIntTooLong)));
}

#[test]
fn vectors_encode_length_reserved_and_bits() {
    let bits = [1.0f32.to_bits(), (-2.0f32).to_bits()];
    assert_eq!(
        encoded(&VectorRef(&bits)),
        Ok(vec![0, 2, 0, 0, 0x3f, 0x80, 0, 0, 0xc0, 0, 0, 0])
    );
    assert_eq!(encoded(&Vector(bits.to_vec())), encoded(&VectorRef(&bits)));
}

fn ctx(major: u16, descriptors: Vec<Descriptor>) -> DescriptorContext {
    DescriptorContext { proto: ProtocolVersion { major_ver: major, minor_ver: 0 }, descriptors }
}

#[test]
fn descriptor_checks() {
    let c = ctx(
        1,
        vec![
            Descriptor::BaseScalar { id: Uuid(STD_STR) },
            Descriptor::Scalar { id: Uuid(0x999), base_type_pos: Some(TypePos(0)) },
            Descriptor::Enumeration { id: Uuid(0x555), members: vec!["a".to_string()] },
            Descriptor::Range { id: Uuid(0x777), type_pos: TypePos(4) },
            Descriptor::BaseScalar { id: Uuid(STD_INT32) },
            Descriptor::Scalar { id: Uuid(STD_STR), base_type_pos: None },
        ],
    );
    assert_eq!(String::check_descriptor(&c, TypePos(0)), Ok(()));
    assert_eq!(String::check_descriptor(&c, TypePos(1)), Ok(()));
    assert_eq!(
        String::check_descriptor(&c, TypePos(4)),
        Err(ArgError::WrongType { found: 4, expected: "std::str" })
    );
    assert_eq!(
        String::check_descriptor(&c, TypePos(9)),
        Err(ArgError::InvalidTypePos { pos: 9 })
    );
    // A scalar without a base type matches by its own id only from protocol 2.
    assert_eq!(
        String::check_descriptor(&c, TypePos(5)),
        Err(ArgError::WrongType { found: 5, expected: "std::str" })
    );
    let c2 = ctx(2, vec![Descriptor::Scalar { id: Uuid(STD_STR), base_type_pos: None }]);
    assert_eq!(String::check_descriptor(&c2, TypePos(0)), Ok(()));
    // A &str fits an enumeration too.
    assert_eq!(<&str>::check_descriptor(&c, TypePos(2)), Ok(()));
    assert_eq!(
        String::check_descriptor(&c, TypePos(2)),
        Err(ArgError::WrongType { found: 2, expected: "std::str" })
    );
    assert_eq!(Range::<i32>::check_descriptor(&c, TypePos(3)), Ok(()));
    assert_eq!(
        Range::<i64>::check_descriptor(&c, TypePos(3)),
        Err(ArgError::WrongType { found: 4, expected: "std::int64" })
    );
    assert_eq!(
        Range::<i32>::check_descriptor(&c, TypePos(0)),
        Err(ArgError::WrongType { found: 0, expected: "range" })
    );
    assert_eq!(
        EnumValue::check_descriptor(&c, TypePos(2)),
        Err(ArgError::WrongType { found: 2, expected: "enum" })
    );
    assert_eq!(
        EnumValue::check_descriptor(&c, TypePos(7)),
        Err(ArgError::InvalidTypePos { pos: 7 })
    );
    let v = ctx(1, vec![Descriptor::BaseScalar { id: Uuid(PGVECTOR_VECTOR) }]);
    assert_eq!(Vector::check_descriptor(&v, TypePos(0)), Ok(()));
    assert_eq!(
        i32::check_descriptor(&v, TypePos(0)),
        Err(ArgError::WrongType { found: 0, expected: "std::int32" })
    );
}

#[test]
fn values_of_arguments() {
    assert!(matches!(7i16.to_value(), Ok(Value::Int16(7))));
    assert!(matches!("x".to_value(), Ok(Value::Str(s)) if s == "x"));
    assert!(matches!(Uuid(3).to_value(), Ok(Value::Uuid(Uuid(3)))));
    let r = Range { lower: Some(1i64), upper: None, inc_lower: true, inc_upper: false, empty: false };
    match r.to_value() {
        Ok(Value::Range(rv)) => {
            assert!(matches!(rv.lower.as_deref(), Some(Value::Int64(1))));
            assert!(rv.upper.is_none());
            assert!(rv.inc_lower && !rv.inc_upper && !rv.empty);
        }
        other => panic!("unexpected {other:?}"),
    }
    match Vector(vec![5, 6]).to_value() {
        Ok(Value::Vector(v)) => assert_eq!(v, vec![5, 6]),
        other => panic!("unexpected {other:?}"),
    }
}

#[test]
fn base_type_chains_end_unless_they_cycle() {
    let c = ctx(
        2,
        vec![
            Descriptor::BaseScalar { id: Uuid(STD_STR) },
            Descriptor::Scalar { id: Uuid(0x901), base_type_pos: Some(TypePos(0)) },
            Descriptor::Scalar { id: Uuid(0x902), base_type_pos: Some(TypePos(1)) },
            Descriptor::Scalar { id: Uuid(0x903), base_type_pos: Some(TypePos(4)) },
            Descriptor::Scalar { id: Uuid(0x904), base_type_pos: Some(TypePos(3)) },
            Descriptor::Scalar { id: Uuid(0x905), base_type_pos: Some(TypePos(5)) },
            Descriptor::Scalar { id: Uuid(0x906), base_type_pos: Some(TypePos(40)) },
        ],
    );
    assert!(base_chain_is_finite(&c, TypePos(0)));
    assert!(base_chain_is_finite(&c, TypePos(2)));
    assert!(!base_chain_is_finite(&c, TypePos(3)));
    assert!(!base_chain_is_finite(&c, TypePos(4)));
    assert!(!base_chain_is_finite(&c, TypePos(5)));
    // a base past the end of the list ends the chain
    assert!(base_chain_is_finite(&c, TypePos(6)));
    assert!(base_chain_is_finite(&c, TypePos(100)));
    assert_eq!(String::check_descriptor(&c, TypePos(2)), Ok(()));
    assert_eq!(String::check_descriptor(&c, TypePos(6)), Err(ArgError::InvalidTypePos { pos: 40 }));
    assert!(base_chain_is_finite(&ctx(1, vec![]), TypePos(0)));
}

#[test]
fn floats_encode_their_bit_patterns() {
    let mut e = Encoder::new();
    encode_f32_bits(1.5f32.to_bits(), &mut e);
    assert_eq!(e.buf, vec![0x3f, 0xc0, 0, 0]);
    encode_f64_bits((-2.0f64).to_bits(), &mut e);
    assert_eq!(e.buf, vec![0x3f, 0xc0, 0, 0, 0xc0, 0, 0, 0, 0, 0, 0, 0]);
    let c = ctx(
        1,
        vec![Descriptor::BaseScalar { id: Uuid(STD_FLOAT32) }, Descriptor::BaseScalar { id: Uuid(STD_FLOAT64) }],
    );
    assert_eq!(check_f32_descriptor(&c, TypePos(0)), Ok(()));
    assert_eq!(
        check_f32_descriptor(&c, TypePos(1)),
        Err(ArgError::WrongType { found: 1, expected: "std::float32" })
    );
    assert_eq!(check_f64_descriptor(&c, TypePos(1)), Ok(()));
}

#[test]
fn derived_scalar_is_judged_by_its_base() {
    let c = ctx(
        2,
        vec![
            Descriptor::BaseScalar { id: Uuid(STD_INT32) },
            Descriptor::Scalar { id: Uuid(STD_STR), base_type_pos: Some(TypePos(0)) },
        ],
    );
    assert_eq!(
        String::check_descriptor(&c, TypePos(1)),
        Err(ArgError::WrongType { found: 0, expected: "std::str" })
    );
    assert_eq!(i32::check_descriptor(&c, TypePos(1)), Ok(()));
}
