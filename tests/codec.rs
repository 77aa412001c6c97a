use rhxd::codec::{decode_fields, encode_fields, TransactionCodec, MAX_TRANSACTION_SIZE};
use rhxd::error::ProtocolError;
use rhxd::field::{Field, FieldData, FieldId};
use rhxd::handlers::keeps_connection;
use rhxd::transaction::{Transaction, TransactionHeader};
use rhxd::types::TransactionType;

fn header(tt: u16, id: u32, data_size: u32) -> Vec<u8> {
    let h = TransactionHeader {
        flags: 0,
        is_reply: 0,
        transaction_type: tt,
        id,
        error_code: 0,
        total_size: data_size,
        data_size,
    };
    let mut v = Vec::new();
    h.to_bytes(&mut v);
    v
}

fn sample() -> Transaction {
    let mut t = Transaction::new(TransactionType::Login);
    t.id = 7;
    t.add_field(Field::binary(FieldId::UserLogin, vec![0x9e, 0x9d]));
    t.add_field(Field::integer(FieldId::UserId, 5));
    t.add_field(Field::integer(FieldId::Version, 100_000));
    t.add_field(Field::integer(FieldId::UserIconId, -3));
    t.add_field(Field::string(FieldId::UserName, "h\u{e9}llo".to_string()));
    t
}

#[test]
fn encode_then_decode_gives_the_transaction_back() {
    let codec = TransactionCodec::new();
    let mut buf = Vec::new();
    codec.encode(sample(), &mut buf).unwrap();
    buf.extend_from_slice(&[1, 2, 3]);
    let t = codec.decode(&mut buf).unwrap().unwrap();
    assert_eq!(buf, vec![1, 2, 3]);
    assert_eq!(t.transaction_type, TransactionType::Login);
    assert_eq!(t.id, 7);
    assert!(!t.is_reply);
    assert_eq!(t.data_size, t.total_size);
    assert_eq!(t.fields.len(), 5);
    assert_eq!(t.fields[0].as_binary(), Some(&[0x9e, 0x9d][..]));
    assert_eq!(t.fields[1].as_integer(), Some(5));
    assert_eq!(t.fields[2].as_integer(), Some(100_000));
    assert_eq!(t.fields[3].as_integer(), Some(-3));
    assert_eq!(t.fields[4].as_string(), Some("h\u{e9}llo"));
}

#[test]
fn encoded_frame_exact_bytes() {
    let codec = TransactionCodec::new();
    let mut t = Transaction::new_reply(TransactionType::Agreed, 0x01020304);
    t.add_field(Field::integer(FieldId::UserId, 1));
    let mut buf = Vec::new();
    codec.encode(t, &mut buf).unwrap();
    let expected: Vec<u8> = vec![
        0, 1, 0, 121, 1, 2, 3, 4, 0, 0, 0, 0, 0, 0, 0, 8, 0, 0, 0, 8, //
        0, 1, 0, 103, 0, 2, 0, 1,
    ];
    assert_eq!(buf, expected);
}

#[test]
fn integer_uses_two_bytes_when_it_fits() {
    let mut buf = Vec::new();
    encode_fields(&[Field::integer(FieldId::UserId, -32768)], &mut buf).unwrap();
    assert_eq!(buf, vec![0, 1, 0, 103, 0, 2, 0x80, 0x00]);
    let mut buf = Vec::new();
    encode_fields(&[Field::integer(FieldId::UserId, 32768)], &mut buf).unwrap();
    assert_eq!(buf, vec![0, 1, 0, 103, 0, 4, 0, 0, 0x80, 0x00]);
}

#[test]
fn empty_payload_gives_no_fields() {
    let codec = TransactionCodec::new();
    let mut buf = header(107, 1, 0);
    let t = codec.decode(&mut buf).unwrap().unwrap();
    assert!(t.fields.is_empty());
    assert!(buf.is_empty());
}

#[test]
fn payload_at_the_limit_is_accepted() {
    let codec = TransactionCodec::new();
    let mut payload = vec![0u8, 1, 0, 101, 0x7f, 0xfa];
    payload.resize(32768, 0xaa);
    let mut buf = header(105, 2, 32768);
    buf.extend_from_slice(&payload);
    let t = codec.decode(&mut buf).unwrap().unwrap();
    assert_eq!(t.data_size, 32768);
    assert_eq!(t.fields.len(), 1);
    assert_eq!(t.fields[0].as_binary().unwrap().len(), 32762);
}

#[test]
fn payload_over_the_limit_is_too_large_before_it_arrives() {
    let codec = TransactionCodec::new();
    let mut buf = header(105, 2, 32769);
    let before = buf.clone();
    let r = codec.decode(&mut buf);
    assert_eq!(
        r.unwrap_err(),
        ProtocolError::TransactionTooLarge { size: 32769, max: MAX_TRANSACTION_SIZE }
    );
    assert_eq!(buf, before);
}

#[test]
fn partial_frames_wait_for_more() {
    let codec = TransactionCodec::new();
    let mut buf = header(107, 1, 4);
    buf.pop();
    assert!(codec.decode(&mut buf).unwrap().is_none());
    let mut buf = header(107, 1, 4);
    buf.extend_from_slice(&[0, 0]);
    let len = buf.len();
    assert!(codec.decode(&mut buf).unwrap().is_none());
    assert_eq!(buf.len(), len);
}

#[test]
fn unknown_type_is_consumed_and_the_next_frame_still_reads() {
    let codec = TransactionCodec::new();
    let mut buf = header(999, 42, 0);
    buf.extend_from_slice(&header(300, 43, 0));
    let e = codec.decode(&mut buf).unwrap_err();
    assert_eq!(e, ProtocolError::InvalidTransactionType(999));
    assert!(keeps_connection(&e));
    let t = codec.decode(&mut buf).unwrap().unwrap();
    assert_eq!(t.transaction_type, TransactionType::GetUserNameList);
    assert_eq!(t.id, 43);
    assert!(!keeps_connection(&ProtocolError::InvalidFieldData));
}

#[test]
fn truncated_or_overlong_payload_is_invalid() {
    assert_eq!(decode_fields(&[0]).unwrap_err(), ProtocolError::InvalidFieldData);
    assert_eq!(decode_fields(&[0, 1, 0, 101, 0, 3, 1]).unwrap_err(), ProtocolError::InvalidFieldData);
    assert_eq!(decode_fields(&[0, 0, 9]).unwrap_err(), ProtocolError::InvalidFieldData);
    assert_eq!(decode_fields(&[0, 2, 0, 101, 0, 0]).unwrap_err(), ProtocolError::InvalidFieldData);
}

#[test]
fn unknown_field_ids_are_dropped() {
    let fields = decode_fields(&[0, 2, 0x12, 0x34, 0, 1, 9, 0, 101, 0, 1, 7]).unwrap();
    assert_eq!(fields.len(), 1);
    assert_eq!(fields[0].id, FieldId::Data);
    assert_eq!(fields[0].as_binary(), Some(&[7u8][..]));
}

#[test]
fn interpretation_follows_the_identifier() {
    let fields = decode_fields(&[
        0, 3, //
        0, 103, 0, 3, 1, 2, 3, // integer id, odd size: stays bytes
        0, 102, 0, 2, 0xff, 0xfe, // text id, not UTF-8: stays bytes
        0, 104, 0, 2, 0xff, 0xff, // integer id, two bytes: sign-extended
    ])
    .unwrap();
    assert!(matches!(fields[0].data, FieldData::Binary(_)));
    assert!(matches!(fields[1].data, FieldData::Binary(_)));
    assert_eq!(fields[2].as_integer(), Some(-1));
}

#[test]
fn oversized_field_or_payload_is_refused() {
    let codec = TransactionCodec::new();
    let mut t = Transaction::new(TransactionType::SendChat);
    t.add_field(Field::binary(FieldId::Data, vec![0; 70000]));
    let mut buf = vec![9];
    assert_eq!(codec.encode(t, &mut buf).unwrap_err(), ProtocolError::InvalidFieldData);
    assert_eq!(buf, vec![9]);
    let mut t = Transaction::new(TransactionType::SendChat);
    t.add_field(Field::binary(FieldId::Data, vec![0; 40000]));
    assert_eq!(
        codec.encode(t, &mut buf).unwrap_err(),
        ProtocolError::TransactionTooLarge { size: 40006, max: 32768 }
    );
    let big = TransactionCodec::with_max_size(100000);
    let mut t = Transaction::new(TransactionType::SendChat);
    t.add_field(Field::binary(FieldId::Data, vec![0; 40000]));
    assert!(big.encode(t, &mut buf).is_ok());
    assert_eq!(big.max_size(), 100000);
}

#[test]
fn header_needs_twenty_bytes() {
    assert_eq!(TransactionHeader::from_bytes(&[0; 19]).unwrap_err(), ProtocolError::UnexpectedEof);
    let h = TransactionHeader::from_bytes(&header(107, 9, 3)).unwrap();
    assert_eq!((h.transaction_type, h.id, h.data_size), (107, 9, 3));
}

#[test]
fn slice_decoding_reports_what_it_took() {
    let codec = TransactionCodec::new();
    let mut buf = header(999, 42, 0);
    buf.extend_from_slice(&header(300, 43, 0));
    let (r, n) = codec.decode_slice(&buf);
    assert_eq!(r.unwrap_err(), ProtocolError::InvalidTransactionType(999));
    assert_eq!(n, 20);
    let (r, n) = codec.decode_slice(&buf[n..]);
    assert_eq!(r.unwrap().unwrap().id, 43);
    assert_eq!(n, 20);
    let (r, n) = codec.decode_slice(&buf[..19]);
    assert!(r.unwrap().is_none());
    assert_eq!(n, 0);
    let (r, n) = codec.decode_slice(&header(105, 1, 40000));
    assert!(r.is_err());
    assert_eq!(n, 0);
}
