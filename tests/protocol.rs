use rhxd::field::{FieldHeader, FieldId};
use rhxd::handshake::{handshake_reply_bytes, Handshake, HandshakeReply};
use rhxd::transaction::Transaction;
use rhxd::types::{ErrorCode, TransactionType};

#[test]
fn handshake_accepted() {
    let client = [0x54, 0x52, 0x54, 0x50, 0, 0, 0, 0, 0, 1, 0, 2];
    assert_eq!(handshake_reply_bytes(&client), vec![0x54, 0x52, 0x54, 0x50, 0, 0, 0, 0]);
    let h = Handshake::from_bytes(&client).unwrap();
    assert!(h.is_valid());
    assert!(HandshakeReply::answer(&h).is_success());
}

#[test]
fn handshake_with_wrong_magic_gets_code_one() {
    let mut client = b"FAKE".to_vec();
    client.extend_from_slice(&[0, 0, 0, 0, 0, 1, 0, 2]);
    assert_eq!(handshake_reply_bytes(&client), vec![0x54, 0x52, 0x54, 0x50, 0, 0, 0, 1]);
}

#[test]
fn handshake_with_version_99_gets_code_two() {
    let client = [0x54, 0x52, 0x54, 0x50, 0, 0, 0, 0, 0, 99, 0, 2];
    let reply = HandshakeReply::answer(&Handshake::from_bytes(&client).unwrap());
    assert_eq!(reply.error_code, 2);
    assert!(!reply.is_success());
}

#[test]
fn handshake_bytes_round_trip() {
    let h = Handshake::new();
    let mut v = Vec::new();
    h.to_bytes(&mut v);
    assert_eq!(v, vec![0x54, 0x52, 0x54, 0x50, 0, 0, 0, 0, 0, 1, 0, 2]);
    assert!(Handshake::from_bytes(&v[..11]).is_err());
    let r = HandshakeReply::error(2);
    let mut v = Vec::new();
    r.to_bytes(&mut v);
    assert_eq!(HandshakeReply::from_bytes(&v).unwrap().error_code, 2);
}

#[test]
fn type_and_field_codes() {
    assert_eq!(TransactionType::from_u16(107), Some(TransactionType::Login));
    assert_eq!(TransactionType::from_u16(999), None);
    assert_eq!(TransactionType::KeepConnectionAlive.to_u16(), 500);
    assert_eq!(u16::from(TransactionType::UserAccess), 354);
    assert_eq!(FieldId::from_u16(300), Some(FieldId::UserNameWithInfo));
    assert_eq!(FieldId::from_u16(334), None);
    assert_eq!(FieldId::ClientCipherAlg.to_u16(), 3772);
    assert_eq!(ErrorCode::from_u32(1), ErrorCode::UnknownError);
    assert_eq!(ErrorCode::from_u32(77), ErrorCode::UnknownError);
    assert_eq!(ErrorCode::from_u32(4), ErrorCode::AlreadyExists);
    assert_eq!(u32::from(ErrorCode::InvalidParameter), 5);
}

#[test]
fn field_header_and_lookup() {
    let h = FieldHeader::from_bytes(&[0, 101, 1, 0]).unwrap();
    assert_eq!((h.id, h.size), (101, 256));
    assert!(FieldHeader::from_bytes(&[0, 101, 1]).is_err());
    let mut t = Transaction::new(TransactionType::Login);
    t.add_field(rhxd::field::Field::integer(FieldId::UserId, 1));
    t.add_field(rhxd::field::Field::integer(FieldId::UserId, 2));
    assert_eq!(t.get_field(FieldId::UserId).unwrap().as_integer(), Some(1));
    assert!(t.has_field(FieldId::UserId));
    assert!(!t.has_field(FieldId::Data));
    let e = Transaction::new_error(5, 3);
    assert_eq!(e.transaction_type, TransactionType::Error);
    assert!(e.is_reply);
    assert_eq!(e.error_code, 3);
}

#[test]
fn protocol_constants() {
    assert_eq!(&rhxd::handshake::PROTOCOL_MAGIC, b"TRTP");
    assert_eq!(&rhxd::handshake::HTXF_MAGIC, b"HTXF");
    assert_eq!(rhxd::handshake::DEFAULT_PORT, 5500);
    assert_eq!(rhxd::handshake::DEFAULT_TRACKER_PORT, 5498);
    assert_eq!(rhxd::handshake::MAX_CHAT_SIZE, 8192);
    assert_eq!(rhxd::handshake::MAX_USERNAME_SIZE, 31);
    assert_eq!(rhxd::handshake::MAX_LOGIN_SIZE, 31);
    assert_eq!(rhxd::handshake::MAX_PASSWORD_SIZE, 31);
    assert_eq!(rhxd::handshake::MAX_PATH_SIZE, 2048);
    assert_eq!(rhxd::handshake::SERVER_VERSION, 197);
}
