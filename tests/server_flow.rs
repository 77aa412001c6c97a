use rhxd::access::AccessPrivileges;
use rhxd::account::{effective_access, Account};
use rhxd::broadcast::{format_chat_message, on_hub_event, BroadcastMessage, HubEvent, Outbound};
use rhxd::codec::TransactionCodec;
use rhxd::field::{Field, FieldId};
use rhxd::handlers::{
    begin_login, finish_login, handle_agreed, handle_get_user_name_list, handle_send_chat, kick,
    pushes_after_reply, route, teardown, HandlerError, LoginStep, Route, ServerSettings,
};
use rhxd::password::xor_password;
use rhxd::registry::SessionRegistry;
use rhxd::session::{AuthState, Session};
use rhxd::transaction::Transaction;
use rhxd::types::TransactionType;

fn settings(allow_guest: bool) -> ServerSettings {
    ServerSettings { server_name: "Test".to_string(), allow_guest, little_endian: true }
}

fn connect(reg: &mut SessionRegistry) -> u16 {
    let id = reg.allocate_user_id().unwrap();
    assert!(reg.register_session(Session::new(id, "127.0.0.1:5000".to_string(), 100)));
    assert!(reg.complete_handshake(id));
    id
}

fn request(tt: TransactionType, id: u32) -> Transaction {
    let mut t = Transaction::new(tt);
    t.id = id;
    t
}

fn guest_login(reg: &mut SessionRegistry, uid: u16) -> Transaction {
    let mut req = request(TransactionType::Login, 1);
    req.add_field(Field::binary(FieldId::UserLogin, vec![]));
    req.add_field(Field::binary(FieldId::UserPassword, vec![]));
    match begin_login(&req, uid, &settings(true), reg) {
        LoginStep::Reply(t) => t,
        LoginStep::LookUp { .. } => panic!("guest login needs no lookup"),
    }
}

#[test]
fn guest_login_refused_when_guests_are_disabled() {
    let mut reg = SessionRegistry::new();
    let uid = connect(&mut reg);
    let mut req = request(TransactionType::Login, 1);
    req.add_field(Field::binary(FieldId::UserLogin, vec![]));
    req.add_field(Field::binary(FieldId::UserPassword, vec![]));
    let reply = match begin_login(&req, uid, &settings(false), &mut reg) {
        LoginStep::Reply(t) => t,
        LoginStep::LookUp { .. } => panic!("no lookup expected"),
    };
    assert_eq!(reply.transaction_type, TransactionType::Login);
    assert_eq!(reply.id, 1);
    assert_eq!(reply.error_code, 2);
    assert!(reply.is_reply);
    assert!(reply.fields.is_empty());
    assert_eq!(reg.get_session(uid).unwrap().auth_state, AuthState::LoginPending);
}

#[test]
fn guest_login_when_allowed() {
    let mut reg = SessionRegistry::new();
    let uid = connect(&mut reg);
    let reply = guest_login(&mut reg, uid);
    assert_eq!(reply.error_code, 0);
    assert_eq!(reply.fields.len(), 5);
    assert_eq!(reply.fields[0].as_integer(), Some(197));
    assert_eq!(reply.fields[1].as_integer(), Some(uid as i32));
    assert_eq!(reply.fields[2].as_binary().unwrap(), &AccessPrivileges::guest().to_wire_format_for(true)[..]);
    assert_eq!(reply.fields[4].as_string(), Some("Test"));
    let s = reg.get_session(uid).unwrap();
    assert!(s.is_authenticated());
    assert!(s.is_guest());
    assert_eq!(s.nickname, format!("Guest {}", uid));
}

fn account(password: &[u8]) -> Account {
    Account {
        id: 9,
        login: "admin".to_string(),
        password_hash: xor_password(password),
        name: "Administrator".to_string(),
        access: AccessPrivileges::admin().bits() as i64,
        created_at: 0,
        modified_at: 0,
    }
}

#[test]
fn account_login_then_pushes_in_order() {
    let mut reg = SessionRegistry::new();
    let uid = connect(&mut reg);
    let mut req = request(TransactionType::Login, 3);
    req.add_field(Field::binary(FieldId::UserLogin, xor_password(b"admin")));
    req.add_field(Field::binary(FieldId::UserPassword, xor_password(b"secret")));
    let (login, password) = match begin_login(&req, uid, &settings(false), &mut reg) {
        LoginStep::LookUp { login, password } => (login, password),
        LoginStep::Reply(_) => panic!("lookup expected"),
    };
    assert_eq!(login, "admin");
    assert_eq!(password, b"secret".to_vec());
    let acc = account(b"secret");
    let reply = finish_login(&req, uid, Some(&acc), &password, &settings(false), &mut reg);
    assert_eq!((reply.transaction_type, reply.id, reply.error_code), (TransactionType::Login, 3, 0));
    let s = reg.get_session(uid).unwrap();
    assert_eq!(s.account_id, Some(9));
    assert_eq!(s.nickname, "Administrator");
    let access = effective_access(s.account_id, Some(&acc));
    let pushes = pushes_after_reply(TransactionType::Login, &reply, access, true);
    assert_eq!(pushes.len(), 1);
    assert_eq!(pushes[0].transaction_type, TransactionType::ShowAgreement);
    assert_eq!(pushes[0].id, 0);
    assert!(!pushes[0].is_reply);
    assert_eq!(pushes[0].fields[0].id, FieldId::Data);
    assert_eq!(pushes[0].fields[0].as_string(), Some(""));

    let agreed = request(TransactionType::Agreed, 4);
    let (reply, event) = handle_agreed(&agreed, uid, access, &mut reg).unwrap();
    assert_eq!((reply.transaction_type, reply.id, reply.error_code), (TransactionType::Agreed, 4, 0));
    let pushes = pushes_after_reply(TransactionType::Agreed, &reply, access, true);
    assert_eq!(pushes.len(), 1);
    assert_eq!(pushes[0].transaction_type, TransactionType::UserAccess);
    assert_eq!(pushes[0].id, 0);
    assert_eq!(pushes[0].fields[0].as_binary().unwrap(), &access.to_wire_format_for(true)[..]);
    assert_eq!(pushes[0].fields[0].as_binary().unwrap().len(), 8);
    match event {
        BroadcastMessage::UserJoined { user_id, nickname } => {
            assert_eq!(user_id, uid);
            assert_eq!(nickname, format!("Guest {}", uid));
        }
        _ => panic!("join expected"),
    }
    let s = reg.get_session(uid).unwrap();
    assert_eq!(s.icon_id, 410);
    assert_eq!(s.flags, 2);
}

#[test]
fn wrong_password_is_denied() {
    let mut reg = SessionRegistry::new();
    let uid = connect(&mut reg);
    let mut req = request(TransactionType::Login, 3);
    req.add_field(Field::binary(FieldId::UserLogin, xor_password(b"admin")));
    req.add_field(Field::binary(FieldId::UserPassword, xor_password(b"nope")));
    let acc = account(b"secret");
    let reply = finish_login(&req, uid, Some(&acc), b"nope", &settings(false), &mut reg);
    assert_eq!(reply.error_code, 2);
    let reply = finish_login(&req, uid, None, b"nope", &settings(false), &mut reg);
    assert_eq!(reply.error_code, 2);
    assert!(!reg.get_session(uid).unwrap().is_authenticated());
    assert!(pushes_after_reply(TransactionType::Login, &reply, AccessPrivileges::guest(), true).is_empty());
}

#[test]
fn two_client_chat_broadcast() {
    let mut reg = SessionRegistry::new();
    let a = connect(&mut reg);
    let b = connect(&mut reg);
    guest_login(&mut reg, a);
    guest_login(&mut reg, b);
    let mut agreed = request(TransactionType::Agreed, 2);
    agreed.add_field(Field::string(FieldId::UserName, "A".to_string()));
    handle_agreed(&agreed, a, AccessPrivileges::guest(), &mut reg).unwrap();
    let mut chat = request(TransactionType::SendChat, 3);
    chat.add_field(Field::binary(FieldId::Data, b"hi".to_vec()));
    let event = handle_send_chat(&chat, a, &reg).unwrap().unwrap();
    for viewer in [a, b] {
        let t = match event.to_outbound(viewer, &reg) {
            Outbound::Send(t) => t,
            _ => panic!("frame expected"),
        };
        assert_eq!(t.transaction_type, TransactionType::ChatMessage);
        assert_eq!(t.id, 0);
        assert_eq!(t.get_field(FieldId::Data).unwrap().as_binary().unwrap(), b"\r            A:  hi");
        assert_eq!(t.get_field(FieldId::UserId).unwrap().as_integer(), Some(a as i32));
    }
}

#[test]
fn chat_line_formats() {
    assert_eq!(format_chat_message("A", b"hi", false), b"\r            A:  hi".to_vec());
    assert_eq!(format_chat_message("ABCDEFGHIJKLMNOP", b"x", false), b"\rABCDEFGHIJKLM:  x".to_vec());
    assert_eq!(format_chat_message("bob", b"waves", true), b"\r *** bob waves".to_vec());
}

#[test]
fn chat_needs_a_logged_in_session_and_data() {
    let mut reg = SessionRegistry::new();
    let a = connect(&mut reg);
    let mut chat = request(TransactionType::SendChat, 3);
    chat.add_field(Field::binary(FieldId::Data, b"hi".to_vec()));
    assert!(handle_send_chat(&chat, a, &reg).unwrap().is_none());
    assert_eq!(handle_send_chat(&chat, 999, &reg).unwrap_err(), HandlerError::SessionNotFound);
    guest_login(&mut reg, a);
    let empty = request(TransactionType::SendChat, 4);
    assert_eq!(handle_send_chat(&empty, a, &reg).unwrap_err(), HandlerError::MissingField(FieldId::Data));
    let mut emote = request(TransactionType::SendChat, 5);
    emote.add_field(Field::binary(FieldId::Data, b"x".to_vec()));
    emote.add_field(Field::integer(FieldId::ChatOptions, 1));
    match handle_send_chat(&emote, a, &reg).unwrap().unwrap() {
        BroadcastMessage::ChatMessage { is_emote, .. } => assert!(is_emote),
        _ => panic!("chat expected"),
    }
}

#[test]
fn unknown_transaction_tolerated() {
    assert_eq!(route(TransactionType::KeepConnectionAlive), Route::Unhandled);
    assert_eq!(route(TransactionType::Login), Route::Login);
    let codec = TransactionCodec::new();
    let mut buf = vec![0, 0, 0x03, 0xe7, 0, 0, 0, 42, 0, 0, 0, 0, 0, 0, 0, 0, 0, 0, 0, 0];
    assert!(codec.decode(&mut buf).is_err());
    assert!(buf.is_empty());
}

#[test]
fn kick_notifies_the_others() {
    let mut reg = SessionRegistry::new();
    let a = connect(&mut reg);
    let b = connect(&mut reg);
    guest_login(&mut reg, a);
    guest_login(&mut reg, b);
    let (gone, event) = kick(&mut reg, a).unwrap();
    assert_eq!(gone.user_id, a);
    assert!(reg.get_session(a).is_none());
    let t = match event.to_outbound(b, &reg) {
        Outbound::Send(t) => t,
        _ => panic!("frame expected"),
    };
    assert_eq!(t.transaction_type, TransactionType::NotifyDeleteUser);
    assert_eq!(t.get_field(FieldId::UserId).unwrap().as_integer(), Some(a as i32));
    assert!(kick(&mut reg, a).is_none());
    assert!(teardown(&mut reg, a).is_none());
    let own = BroadcastMessage::UserLeft { user_id: a };
    assert!(matches!(own.to_outbound(a, &reg), Outbound::Close));
}

#[test]
fn teardown_announces_only_logged_in_users() {
    let mut reg = SessionRegistry::new();
    let a = connect(&mut reg);
    let b = connect(&mut reg);
    guest_login(&mut reg, b);
    assert!(teardown(&mut reg, a).is_none());
    assert!(matches!(teardown(&mut reg, b), Some(BroadcastMessage::UserLeft { user_id }) if user_id == b));
    assert_eq!(reg.session_count(), 0);
}

#[test]
fn lagging_consumer_skips_and_goes_on() {
    let mut reg = SessionRegistry::new();
    let a = connect(&mut reg);
    assert!(matches!(on_hub_event(&HubEvent::Lagged(50), a, &reg), Outbound::Skip));
    assert!(matches!(on_hub_event(&HubEvent::Closed, a, &reg), Outbound::Close));
    assert!(matches!(on_hub_event(&HubEvent::Message(BroadcastMessage::ServerShutdown), a, &reg), Outbound::Close));
    let msg = BroadcastMessage::ServerMessage { message: "hello".to_string() };
    match on_hub_event(&HubEvent::Message(msg), a, &reg) {
        Outbound::Send(t) => {
            assert_eq!(t.transaction_type, TransactionType::ServerMessage);
            assert_eq!(t.fields[0].as_string(), Some("hello"));
        }
        _ => panic!("frame expected"),
    }
}

#[test]
fn joiner_is_not_told_of_itself() {
    let mut reg = SessionRegistry::new();
    let a = connect(&mut reg);
    let b = connect(&mut reg);
    let ev = BroadcastMessage::UserJoined { user_id: a, nickname: "Al".to_string() };
    assert!(matches!(ev.to_outbound(a, &reg), Outbound::Skip));
    match ev.to_outbound(b, &reg) {
        Outbound::Send(t) => {
            assert_eq!(t.transaction_type, TransactionType::NotifyChangeUser);
            let mut expected = vec![0, a as u8, 0, 0, 0, 0, 0, 2];
            expected.extend_from_slice(b"Al");
            assert_eq!(t.fields[0].as_binary().unwrap(), &expected[..]);
        }
        _ => panic!("frame expected"),
    }
}

#[test]
fn user_list_has_logged_in_users_only() {
    let mut reg = SessionRegistry::new();
    let a = connect(&mut reg);
    let b = connect(&mut reg);
    guest_login(&mut reg, a);
    let req = request(TransactionType::GetUserNameList, 8);
    assert!(handle_get_user_name_list(&req, b, &reg).is_none());
    let reply = handle_get_user_name_list(&req, a, &reg).unwrap();
    assert_eq!((reply.transaction_type, reply.id, reply.error_code), (TransactionType::GetUserNameList, 8, 0));
    assert_eq!(reply.fields.len(), 1);
    let nick = format!("Guest {}", a);
    let mut expected = vec![0, a as u8, 0, 0, 0, 0, 0, nick.len() as u8];
    expected.extend_from_slice(nick.as_bytes());
    assert_eq!(reply.fields[0].as_binary().unwrap(), &expected[..]);
    assert!(handle_get_user_name_list(&req, 777, &reg).is_none());
}

#[test]
fn user_ids_are_fresh_and_in_range() {
    let mut reg = SessionRegistry::new();
    let mut seen = Vec::new();
    for _ in 0..5 {
        let id = connect(&mut reg);
        assert!(id >= 1);
        assert!(!seen.contains(&id));
        seen.push(id);
    }
    assert_eq!(seen, vec![1, 2, 3, 4, 5]);
    reg.unregister_session(2);
    let next = reg.allocate_user_id().unwrap();
    assert_eq!(next, 6);
    assert!(!reg.register_session(Session::new(0, String::new(), 0)));
}

#[test]
fn invalid_utf8_in_chat_becomes_replacement_characters() {
    assert_eq!(format_chat_message("A", &[0x68, 0xff], true), b"\r *** A h\xef\xbf\xbd".to_vec());
}

#[test]
fn blank_nickname_falls_back_to_guest_name() {
    let mut reg = SessionRegistry::new();
    let uid = connect(&mut reg);
    guest_login(&mut reg, uid);
    let mut agreed = request(TransactionType::Agreed, 2);
    agreed.add_field(Field::string(FieldId::UserName, " \t\u{3000}".to_string()));
    agreed.add_field(Field::integer(FieldId::UserIconId, 128));
    agreed.add_field(Field::integer(FieldId::Options, 3));
    let (reply, _) = handle_agreed(&agreed, uid, AccessPrivileges::guest(), &mut reg).unwrap();
    assert_eq!(reply.error_code, 0);
    let s = reg.get_session(uid).unwrap();
    assert_eq!(s.nickname, format!("Guest {}", uid));
    assert_eq!(s.icon_id, 128);
    assert_eq!(s.flags, 4 | 8);
    assert_eq!(s.options.bits(), 3);
    let mut named = request(TransactionType::Agreed, 3);
    named.add_field(Field::string(FieldId::UserName, " Zed ".to_string()));
    handle_agreed(&named, uid, AccessPrivileges::guest(), &mut reg).unwrap();
    assert_eq!(reg.get_session(uid).unwrap().nickname, " Zed ");
    assert!(handle_agreed(&named, 4242, AccessPrivileges::guest(), &mut reg).is_none());
}

#[test]
fn broadcast_channel_overflow() {
    let mut reg = SessionRegistry::new();
    let peer = connect(&mut reg);
    let (hub, mut rx) = tokio::sync::broadcast::channel::<BroadcastMessage>(100);
    for i in 0..150u16 {
        hub.send(BroadcastMessage::ChatMessage { sender_id: 999, message: format!("{:03}", i).into_bytes(), is_emote: true })
            .unwrap();
    }
    let mut skips = 0;
    let mut seen: Vec<Vec<u8>> = Vec::new();
    loop {
        let event = match rx.try_recv() {
            Ok(m) => HubEvent::Message(m),
            Err(tokio::sync::broadcast::error::TryRecvError::Lagged(n)) => HubEvent::Lagged(n),
            Err(_) => break,
        };
        match on_hub_event(&event, peer, &reg) {
            Outbound::Skip => skips += 1,
            Outbound::Send(t) => seen.push(t.fields[0].as_binary().unwrap().to_vec()),
            Outbound::Close => panic!("the connection stays open"),
        }
    }
    assert!(skips >= 1);
    assert!(seen.len() >= 100 && seen.len() < 150);
    let numbers: Vec<u16> = seen
        .iter()
        .map(|d| String::from_utf8(d[d.len() - 3..].to_vec()).unwrap().parse().unwrap())
        .collect();
    assert!(numbers.windows(2).all(|w| w[0] < w[1]));
    assert_eq!(*numbers.last().unwrap(), 149);
}

#[test]
fn logged_in_count_matches_joins_minus_departures() {
    let mut reg = SessionRegistry::new();
    let mut joins = 0;
    let mut departures = 0;
    let mut ids = Vec::new();
    for _ in 0..3 {
        let uid = connect(&mut reg);
        guest_login(&mut reg, uid);
        let agreed = request(TransactionType::Agreed, 2);
        let (_, ev) = handle_agreed(&agreed, uid, AccessPrivileges::guest(), &mut reg).unwrap();
        assert!(matches!(ev, BroadcastMessage::UserJoined { .. }));
        joins += 1;
        ids.push(uid);
    }
    if teardown(&mut reg, ids[0]).is_some() {
        departures += 1;
    }
    if kick(&mut reg, ids[1]).is_some() {
        departures += 1;
    }
    let logged_in = (0..reg.session_count()).filter(|&i| reg.session_at(i).is_authenticated()).count();
    assert_eq!(logged_in, joins - departures);
    assert_eq!(logged_in, 1);
}

#[test]
fn agreement_needs_a_login_and_is_announced_each_time() {
    let mut reg = SessionRegistry::new();
    let uid = connect(&mut reg);
    let agreed = request(TransactionType::Agreed, 2);
    assert!(handle_agreed(&agreed, uid, AccessPrivileges::guest(), &mut reg).is_none());
    assert_eq!(reg.get_session(uid).unwrap().icon_id, 0);
    guest_login(&mut reg, uid);
    let (_, first) = handle_agreed(&agreed, uid, AccessPrivileges::guest(), &mut reg).unwrap();
    assert!(matches!(first, BroadcastMessage::UserJoined { user_id, .. } if user_id == uid));
    let mut renamed = request(TransactionType::Agreed, 3);
    renamed.add_field(Field::string(FieldId::UserName, "Neo".to_string()));
    let (reply, second) = handle_agreed(&renamed, uid, AccessPrivileges::guest(), &mut reg).unwrap();
    assert_eq!(reply.error_code, 0);
    assert!(matches!(second, BroadcastMessage::UserJoined { ref nickname, .. } if nickname == "Neo"));
}

#[test]
fn chat_text_formats() {
    assert_eq!(rhxd::broadcast::format_chat_text("A", "hi", false), b"\r            A:  hi".to_vec());
    assert_eq!(rhxd::broadcast::format_chat_text("bob", "waves", true), b"\r *** bob waves".to_vec());
}
