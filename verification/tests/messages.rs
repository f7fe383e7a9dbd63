use gel_protocol::messages::{
    build, decode, encode, encode_fields, identify, is_buffer, CountType, FieldType, FieldValue, MessageGroup,
    MessageType, ParseError,
};
use gel_protocol::protocol::TransactionState;

fn ready_for_command(state: u8) -> Vec<u8> {
    vec![b'Z', 0, 0, 0, 7, 0, 0, state]
}

#[test]
fn ready_for_command_decodes() {
    let buf = ready_for_command(b'I');
    let fields = decode(MessageType::ReadyForCommand, &buf).unwrap();
    assert_eq!(
        fields,
        vec![
            FieldValue::U8(b'Z'),
            FieldValue::Length(7),
            FieldValue::Array { len: 0, bytes: &[] },
            FieldValue::TransactionState(TransactionState::NotInTransaction),
        ]
    );
}

#[test]
fn ready_for_command_bad_state() {
    let buf = ready_for_command(b'?');
    assert_eq!(
        decode(MessageType::ReadyForCommand, &buf),
        Err(ParseError::InvalidData("TransactionState", b'?' as usize))
    );
}

#[test]
fn ready_for_command_with_annotation() {
    // one annotation: name "a", value "b"
    let buf = vec![
        b'Z', 0, 0, 0, 17, 0, 1, 0, 0, 0, 1, b'a', 0, 0, 0, 1, b'b', b'T',
    ];
    let fields = decode(MessageType::ReadyForCommand, &buf).unwrap();
    assert_eq!(fields.len(), 4);
    assert_eq!(
        fields[2],
        FieldValue::Array { len: 1, bytes: &[0, 0, 0, 1, b'a', 0, 0, 0, 1, b'b'] }
    );
    assert_eq!(fields[3], FieldValue::TransactionState(TransactionState::InTransaction));
}

#[test]
fn message_too_short() {
    let buf = vec![b'Z', 0, 0, 0, 7, 0, 0];
    assert_eq!(decode(MessageType::ReadyForCommand, &buf), Err(ParseError::TooShort));
    assert_eq!(decode(MessageType::ReadyForCommand, &[]), Err(ParseError::TooShort));
}

#[test]
fn message_too_long() {
    let mut buf = ready_for_command(b'E');
    buf.push(1);
    buf.push(2);
    assert_eq!(decode(MessageType::ReadyForCommand, &buf), Err(ParseError::TooLong(2)));
}

#[test]
fn array_count_past_end() {
    // an annotation count of 5 and one byte after it: decoding stops where the
    // first annotation cannot be read, one byte before the end
    let buf = vec![b'Z', 0, 0, 0, 7, 0, 5, b'I'];
    assert_eq!(decode(MessageType::ReadyForCommand, &buf), Err(ParseError::TooLong(1)));
    // with nothing after the count, the buffer is too short
    let buf = vec![b'Z', 0, 0, 0, 7, 0, 5];
    assert_eq!(decode(MessageType::ReadyForCommand, &buf), Err(ParseError::TooShort));
}

#[test]
fn sync_and_terminate_decode() {
    let sync = vec![b'S', 0, 0, 0, 4];
    assert_eq!(
        decode(MessageType::Sync, &sync).unwrap(),
        vec![FieldValue::U8(b'S'), FieldValue::Length(4)]
    );
    let term = vec![b'X', 0, 0, 0, 4];
    assert_eq!(
        decode(MessageType::Terminate, &term).unwrap(),
        vec![FieldValue::U8(b'X'), FieldValue::Length(4)]
    );
}

#[test]
fn error_response_decodes() {
    let mut buf = vec![b'E', 0, 0, 0, 0, 0x78];
    buf.extend_from_slice(&0x0500_0001u32.to_be_bytes());
    buf.extend_from_slice(&[0, 0, 0, 2, b'h', b'i']);
    buf.extend_from_slice(&[0, 1, 0, 1, 0, 0, 0, 1, b'x']);
    let fields = decode(MessageType::ErrorResponse, &buf).unwrap();
    assert_eq!(fields[2], FieldValue::U8(0x78));
    assert_eq!(fields[3], FieldValue::U32(0x0500_0001));
    assert_eq!(fields[4], FieldValue::Bytes(b"hi"));
    assert_eq!(fields[5], FieldValue::Array { len: 1, bytes: &[0, 1, 0, 0, 0, 1, b'x'] });
}

#[test]
fn generic_message_keeps_rest() {
    let buf = vec![b'q', 0, 0, 0, 6, 9, 8];
    assert_eq!(
        decode(MessageType::Message, &buf).unwrap(),
        vec![FieldValue::U8(b'q'), FieldValue::Length(6), FieldValue::Rest(&[9, 8])]
    );
}

#[test]
fn server_key_data_fixed_bytes() {
    let mut buf = vec![b'K', 0, 0, 0, 36];
    buf.extend_from_slice(&[7u8; 32]);
    let fields = decode(MessageType::ServerKeyData, &buf).unwrap();
    assert_eq!(fields[2], FieldValue::FixedBytes(&[7u8; 32]));
    buf.pop();
    assert_eq!(decode(MessageType::ServerKeyData, &buf), Err(ParseError::TooShort));
}

#[test]
fn is_buffer_checks_tag_and_status() {
    assert!(is_buffer(MessageType::ReadyForCommand, &ready_for_command(b'I')));
    assert!(!is_buffer(MessageType::Sync, &ready_for_command(b'I')));
    assert!(is_buffer(MessageType::Message, &[]));
    let auth_ok = vec![b'R', 0, 0, 0, 8, 0, 0, 0, 0];
    assert!(is_buffer(MessageType::AuthenticationOk, &auth_ok));
    assert!(!is_buffer(MessageType::AuthenticationSASLContinue, &auth_ok));
    assert!(!is_buffer(MessageType::AuthenticationOk, &auth_ok[..5]));
}

#[test]
fn identify_picks_first_match() {
    assert_eq!(
        identify(MessageGroup::Backend, &ready_for_command(b'I')),
        Some(MessageType::ReadyForCommand)
    );
    let sasl_final = vec![b'R', 0, 0, 0, 8, 0, 0, 0, 12];
    assert_eq!(
        identify(MessageGroup::Backend, &sasl_final),
        Some(MessageType::AuthenticationSASLFinal)
    );
    let unknown_auth = vec![b'R', 0, 0, 0, 8, 0, 0, 0, 3];
    assert_eq!(identify(MessageGroup::Backend, &unknown_auth), None);
    assert_eq!(identify(MessageGroup::Frontend, &[b'S', 0, 0, 0, 4]), Some(MessageType::Sync));
    assert_eq!(
        identify(MessageGroup::Backend, &[b'S', 0, 0, 0, 4]),
        Some(MessageType::ParameterStatus)
    );
    assert_eq!(identify(MessageGroup::Frontend, &[b'Z']), None);
    assert_eq!(identify(MessageGroup::Frontend2, &[]), None);
}

#[test]
fn decoded_messages_encode_to_their_bytes() {
    let samples: Vec<(MessageType, Vec<u8>)> = vec![
        (MessageType::ReadyForCommand, ready_for_command(b'I')),
        (
            MessageType::ReadyForCommand,
            vec![b'Z', 0, 0, 0, 17, 0, 1, 0, 0, 0, 1, b'a', 0, 0, 0, 1, b'b', b'T'],
        ),
        (MessageType::Sync, vec![b'S', 0, 0, 0, 4]),
        (MessageType::Message, vec![b'q', 0, 0, 0, 6, 9, 8]),
        (MessageType::AuthenticationOk, vec![b'R', 0, 0, 0, 8, 0, 0, 0, 0]),
    ];
    for (m, buf) in samples {
        let fields = decode(m, &buf).unwrap();
        assert_eq!(encode(m, &fields), buf);
    }
}

#[test]
fn encode_writes_counts_and_values() {
    let fields = [
        FieldType::U8,
        FieldType::Length,
        FieldType::Bytes(CountType::U32),
        FieldType::Structs(CountType::I16, gel_protocol::messages::Element::LString),
    ];
    let vals = [
        FieldValue::U8(b'x'),
        FieldValue::Length(-1),
        FieldValue::Bytes(b"ab"),
        FieldValue::Array { len: 2, bytes: &[0, 0, 0, 0, 0, 0, 0, 0] },
    ];
    assert_eq!(
        encode_fields(&fields, &vals),
        vec![b'x', 0xff, 0xff, 0xff, 0xff, 0, 0, 0, 2, b'a', b'b', 0, 2, 0, 0, 0, 0, 0, 0, 0, 0]
    );
    // only as far as both lists go
    assert_eq!(encode_fields(&fields[..1], &vals), vec![b'x']);
    assert_eq!(encode_fields(&fields, &[]), Vec::<u8>::new());
}

#[test]
fn encoded_values_decode_to_themselves() {
    let vals = vec![
        FieldValue::U8(b'Z'),
        FieldValue::Length(7),
        FieldValue::Array { len: 0, bytes: &[] },
        FieldValue::TransactionState(TransactionState::InFailedTransaction),
    ];
    let buf = encode(MessageType::ReadyForCommand, &vals);
    assert_eq!(buf, vec![b'Z', 0, 0, 0, 7, 0, 0, b'E']);
    assert_eq!(decode(MessageType::ReadyForCommand, &buf).unwrap(), vals);

    let attrs: &[u8] = &[0, 5, 0, 0, 0, 2, b'o', b'k'];
    let vals = vec![
        FieldValue::U8(b'E'),
        FieldValue::Length(0),
        FieldValue::U8(0x78),
        FieldValue::U32(0x0400_0000),
        FieldValue::Bytes(b"boom"),
        FieldValue::Array { len: 1, bytes: attrs },
    ];
    let buf = encode(MessageType::ErrorResponse, &vals);
    assert_eq!(buf.len(), 1 + 4 + 1 + 4 + 4 + 4 + 2 + attrs.len());
    assert_eq!(decode(MessageType::ErrorResponse, &buf).unwrap(), vals);
}

#[test]
fn build_sets_the_length_field() {
    let vals = vec![
        FieldValue::U8(b'Z'),
        FieldValue::Length(0),
        FieldValue::Array { len: 0, bytes: &[] },
        FieldValue::TransactionState(TransactionState::NotInTransaction),
    ];
    let buf = build(MessageType::ReadyForCommand, &vals);
    assert_eq!(buf, ready_for_command(b'I'));
    let fields = decode(MessageType::ReadyForCommand, &buf).unwrap();
    assert_eq!(fields[1], FieldValue::Length(7));

    let buf = build(MessageType::Sync, &[FieldValue::U8(b'S'), FieldValue::Length(99)]);
    assert_eq!(buf, vec![b'S', 0, 0, 0, 4]);
    // too short to hold a length field: written as it is
    assert_eq!(build(MessageType::Sync, &[FieldValue::U8(b'S')]), vec![b'S']);
}
