use gel_protocol::errors::DecodeError;
use gel_protocol::model::{
    BigInt, ConfigMemory, DateDuration, Datetime, Decimal, Duration, Json, LocalDate,
    LocalDatetime, LocalTime, RelativeDuration, Uuid,
};
use gel_protocol::raw_scalar::{decode_f32_bits, decode_f64_bits, ensure_exact_size, RawCodec};

#[test]
fn exact_size_matches_underflows_and_overflows() {
    assert_eq!(ensure_exact_size(&[1, 2], 2), Ok(()));
    assert_eq!(ensure_exact_size(&[1], 2), Err(DecodeError::Underflow));
    assert_eq!(ensure_exact_size(&[1, 2, 3], 2), Err(DecodeError::ExtraData));
    assert_eq!(ensure_exact_size(&[], 0), Ok(()));
}

#[test]
fn bool_decodes_zero_and_one_only() {
    assert_eq!(bool::decode(&[0]), Ok(false));
    assert_eq!(bool::decode(&[1]), Ok(true));
    assert_eq!(bool::decode(&[2]), Err(DecodeError::InvalidBool { val: 2 }));
    assert_eq!(bool::decode(&[]), Err(DecodeError::Underflow));
    assert_eq!(bool::decode(&[0, 0]), Err(DecodeError::ExtraData));
}

#[test]
fn integers_are_big_endian_twos_complement() {
    assert_eq!(i16::decode(&[0x01, 0x02]), Ok(0x0102));
    assert_eq!(i16::decode(&[0xff, 0xfe]), Ok(-2));
    assert_eq!(i16::decode(&[0x01]), Err(DecodeError::Underflow));
    assert_eq!(i32::decode(&[0x80, 0, 0, 0]), Ok(i32::MIN));
    assert_eq!(i32::decode(&[0, 0, 1, 0]), Ok(256));
    assert_eq!(i64::decode(&[0, 0, 0, 0, 0, 0, 0, 0x38]), Ok(56));
    assert_eq!(i64::decode(&[0xff; 8]), Ok(-1));
    assert_eq!(i64::decode(&[0; 9]), Err(DecodeError::ExtraData));
    assert_eq!(ConfigMemory::decode(&[0, 0, 0, 0, 0, 0, 4, 0]), Ok(ConfigMemory(1024)));
}

#[test]
fn floats_are_read_as_their_bit_patterns() {
    let b = 1.5f32.to_bits().to_be_bytes();
    assert_eq!(decode_f32_bits(&b).map(f32::from_bits), Ok(1.5f32));
    let b = (-2.25f64).to_bits().to_be_bytes();
    assert_eq!(decode_f64_bits(&b).map(f64::from_bits), Ok(-2.25f64));
    assert_eq!(decode_f32_bits(&[0, 0, 0]), Err(DecodeError::Underflow));
    assert_eq!(decode_f64_bits(&[0; 9]), Err(DecodeError::ExtraData));
}

#[test]
fn uuid_is_sixteen_big_endian_bytes() {
    let mut b = [0u8; 16];
    b[0] = 0x12;
    b[15] = 0x34;
    assert_eq!(Uuid::decode(&b), Ok(Uuid((0x12u128 << 120) | 0x34)));
    assert_eq!(Uuid::decode(&b[..15]), Err(DecodeError::Underflow));
}

#[test]
fn strings_must_be_utf8() {
    assert_eq!(<&str>::decode(b"hello"), Ok("hello"));
    assert_eq!(<&str>::decode("żółw".as_bytes()), Ok("żółw"));
    assert_eq!(<&str>::decode(&[0xff, 0x41]), Err(DecodeError::InvalidUtf8));
    assert_eq!(String::decode(b"abc"), Ok("abc".to_string()));
    assert_eq!(String::decode(&[0xc3]), Err(DecodeError::InvalidUtf8));
    assert_eq!(<&[u8]>::decode(&[9, 8]), Ok(&[9u8, 8][..]));
    assert_eq!(bytes::Bytes::decode(&[9, 8]).unwrap(), bytes::Bytes::from_static(&[9, 8]));
}

#[test]
fn json_has_a_format_byte() {
    assert_eq!(Json::decode(b"\x01{\"a\": 1}").unwrap().0, "{\"a\": 1}");
    assert!(matches!(Json::decode(b""), Err(DecodeError::Underflow)));
    assert!(matches!(Json::decode(b"\x02{}"), Err(DecodeError::InvalidJsonFormat)));
    assert!(matches!(Json::decode(&[1, 0xff]), Err(DecodeError::InvalidUtf8)));
}

#[test]
fn decimal_reads_header_and_digits() {
    // 1.5 with one decimal digit: digits [1, 5000], weight 0, positive.
    let buf = [0, 2, 0, 0, 0, 0, 0, 1, 0, 1, 0x13, 0x88];
    let d = Decimal::decode(&buf).unwrap();
    assert!(!d.negative);
    assert_eq!(d.weight, 0);
    assert_eq!(d.decimal_digits, 1);
    assert_eq!(d.digits, vec![1, 5000]);
    let neg = [0, 1, 0xff, 0xff, 0x40, 0, 0, 4, 0x0f, 0xa0];
    let d = Decimal::decode(&neg).unwrap();
    assert!(d.negative);
    assert_eq!(d.weight, -1);
    assert_eq!(d.digits, vec![4000]);
    assert!(matches!(Decimal::decode(&buf[..7]), Err(DecodeError::Underflow)));
    assert!(matches!(
        Decimal::decode(&[0, 0, 0, 0, 0x12, 0x34, 0, 0]),
        Err(DecodeError::BadSign)
    ));
    assert!(matches!(Decimal::decode(&buf[..11]), Err(DecodeError::Underflow)));
    let mut long = buf.to_vec();
    long.push(0);
    assert!(matches!(Decimal::decode(&long), Err(DecodeError::ExtraData)));
}

#[test]
fn bigint_has_no_decimal_digits() {
    let buf = [0, 1, 0, 1, 0, 0, 0, 0, 0, 7];
    let b = BigInt::decode(&buf).unwrap();
    assert!(!b.negative);
    assert_eq!(b.weight, 1);
    assert_eq!(b.digits, vec![7]);
    assert!(matches!(
        BigInt::decode(&[0, 0, 0, 0, 0, 0, 0, 1]),
        Err(DecodeError::NonZeroReservedBytes)
    ));
    assert!(matches!(
        BigInt::decode(&[0, 0, 0, 0, 0x40, 1, 0, 1]),
        Err(DecodeError::BadSign)
    ));
}

fn sixteen(micros: i64, days: u32, months: u32) -> Vec<u8> {
    let mut v = micros.to_be_bytes().to_vec();
    v.extend_from_slice(&days.to_be_bytes());
    v.extend_from_slice(&months.to_be_bytes());
    v
}

#[test]
fn durations_check_reserved_fields() {
    assert_eq!(Duration::decode(&sixteen(1_000_000, 0, 0)), Ok(Duration { micros: 1_000_000 }));
    assert_eq!(
        Duration::decode(&sixteen(1, 1, 0)),
        Err(DecodeError::NonZeroReservedBytes)
    );
    assert_eq!(
        Duration::decode(&sixteen(1, 0, 1)),
        Err(DecodeError::NonZeroReservedBytes)
    );
    assert_eq!(Duration::decode(&[0; 15]), Err(DecodeError::Underflow));
    assert_eq!(
        RelativeDuration::decode(&sixteen(-5, 3, u32::MAX)),
        Ok(RelativeDuration { micros: -5, days: 3, months: -1 })
    );
    assert_eq!(
        DateDuration::decode(&sixteen(0, 3, 2)),
        Ok(DateDuration { days: 3, months: 2 })
    );
    assert_eq!(
        DateDuration::decode(&sixteen(1, 3, 2)),
        Err(DecodeError::NonZeroReservedBytes)
    );
    assert_eq!(
        std::time::Duration::decode(&sixteen(2_500_000, 0, 0)),
        Ok(std::time::Duration::from_micros(2_500_000))
    );
    assert_eq!(
        std::time::Duration::decode(&sixteen(-1, 0, 0)),
        Err(DecodeError::InvalidDate)
    );
}

#[test]
fn datetimes_lie_in_years_one_to_9999() {
    let d = Datetime::decode(&0i64.to_be_bytes()).unwrap();
    assert_eq!(d.to_postgres_micros(), 0);
    let min = -63_082_281_600_000_000i64;
    let max = 252_455_615_999_999_999i64;
    assert!(Datetime::decode(&min.to_be_bytes()).is_ok());
    assert!(Datetime::decode(&max.to_be_bytes()).is_ok());
    assert_eq!(Datetime::decode(&(min - 1).to_be_bytes()), Err(DecodeError::InvalidDate));
    assert_eq!(Datetime::decode(&(max + 1).to_be_bytes()), Err(DecodeError::InvalidDate));
    assert_eq!(Datetime::decode(&[0; 4]), Err(DecodeError::Underflow));
    let l = LocalDatetime::decode(&1234i64.to_be_bytes()).unwrap();
    assert_eq!(l.to_postgres_micros(), 1234);
    assert_eq!(LocalDatetime::decode(&i64::MAX.to_be_bytes()), Err(DecodeError::InvalidDate));
    assert_eq!(LocalDate::decode(&(-1i32).to_be_bytes()), Ok(LocalDate { days: -1 }));
}

#[test]
fn local_time_is_within_a_day() {
    let t = LocalTime::decode(&3_600_000_000i64.to_be_bytes()).unwrap();
    assert_eq!(t.to_micros(), 3_600_000_000);
    assert_eq!(LocalTime::decode(&(-1i64).to_be_bytes()), Err(DecodeError::InvalidDate));
    assert_eq!(
        LocalTime::decode(&86_400_000_000i64.to_be_bytes()),
        Err(DecodeError::InvalidDate)
    );
    assert!(LocalTime::decode(&86_399_999_999i64.to_be_bytes()).is_ok());
}
