//! The decisions of the transaction handlers. Account-store lookups happen
//! between the steps; each step is a function of the request, the session
//! registry and what the store answered.
use vstd::prelude::*;
use vstd::string::StringExecFns;
use vstd::utf8::{decode_utf8, valid_utf8};
use crate::access::{AccessPrivileges, ALL_PRIVILEGE_BITS, guest_bits, wire_of};
use crate::account::Account;
use crate::field::{Field, FieldId, FieldModel, FieldValue, copy_range, utf8_text};
use crate::handshake::SERVER_VERSION;
use crate::lookup::{bytes_of, first_field, first_int, first_int_with_id, int_of, last_field, last_int, last_int_with_id, last_with_id, text_of};
use crate::transaction::first_with_id;
use crate::text::{decimal, decimal_text};
use crate::wire::{get_u32, read32};
use crate::types::TransactionType;
use crate::error::ProtocolError;
use crate::replies::{create_server_transaction, push_model};
use crate::password::{scrambled, verify_password, xor_password};
use crate::registry::SessionRegistry;
use crate::broadcast::{BroadcastMessage, apply_event, departures, joins, lemma_roster_counts_joins_minus_departures, roster_after, user_info, user_info_bytes, well_paired};
use crate::chat::ChatOptions;
use crate::user::{UserFlags, UserOptions, flags_of_options};
use crate::replies::{create_error_reply, create_success_reply, reply_model, answers};
use crate::session::{AuthState, Session, guest_name, guest_nickname};
use crate::text::{blank, is_blank, lossy_of, lossy_text};
use crate::transaction::{Transaction, field_models};
use crate::types::ErrorCode;

verus! {

/// What the handlers need to know of the server's configuration and host.
#[derive(Debug)]
pub struct ServerSettings {
    pub server_name: String,
    pub allow_guest: bool,
    /// The byte order of the host, which decides the wire form of access masks.
    pub little_endian: bool,
}

/// `new` is `old` with the session of `uid` logged in, when there is one.
pub open spec fn logged_in(
    old: Map<u16, Session>,
    new: Map<u16, Session>,
    uid: u16,
    account_id: Option<i64>,
    nickname: Seq<char>,
    icon_id: u16,
) -> bool {
    &&& new.dom() == old.dom()
    &&& forall|k: u16| #[trigger] old.contains_key(k) && k != uid ==> new[k] == old[k]
    &&& old.contains_key(uid) ==> {
        let a = old[uid];
        let b = new[uid];
        &&& b.nickname@ == nickname
        &&& b.icon_id == icon_id
        &&& b.auth_state == AuthState::Authenticated
        &&& b.account_id == (if account_id is Some {
            account_id
        } else {
            a.account_id
        })
        &&& b.user_id == a.user_id
        &&& b.flags == a.flags
        &&& b.options == a.options
        &&& b.address == a.address
        &&& b.connected_at == a.connected_at
        &&& b.last_activity == a.last_activity
    }
}

/// A login request asks for a guest session: its login or its password is
/// missing or empty.
pub open spec fn guest_intent(fs: Seq<FieldModel>) -> bool {
    let l = bytes_of(last_with_id(fs, FieldId::UserLogin));
    let p = bytes_of(last_with_id(fs, FieldId::UserPassword));
    (l is None || l->0.len() == 0) || (p is None || p->0.len() == 0)
}

/// The fields of a successful login reply: server version 197, the client's
/// user id, its access mask in wire form, banner id 0 and the server name.
pub open spec fn login_reply_fields(user_id: u16, wire: Seq<u8>, server_name: Seq<char>) -> Seq<FieldModel> {
    seq![
        FieldModel { id: FieldId::Version, value: FieldValue::Integer(197) },
        FieldModel { id: FieldId::UserId, value: FieldValue::Integer(user_id as i32) },
        FieldModel { id: FieldId::UserAccess, value: FieldValue::Bytes(wire) },
        FieldModel { id: FieldId::BannerId, value: FieldValue::Integer(0) },
        FieldModel { id: FieldId::ServerName, value: FieldValue::Text(server_name) },
    ]
}

fn login_reply(request: &Transaction, user_id: u16, access: AccessPrivileges, settings: &ServerSettings) -> (r: Transaction)
    ensures
        r@ == reply_model(
            request@,
            0,
            login_reply_fields(user_id, wire_of(access@, settings.little_endian), settings.server_name@),
        ),
{
    let wire = access.to_wire_format_for(settings.little_endian);
    let mut fields: Vec<Field> = Vec::new();
    fields.push(Field::integer(FieldId::Version, SERVER_VERSION as i32));
    fields.push(Field::integer(FieldId::UserId, user_id as i32));
    fields.push(Field::binary(FieldId::UserAccess, copy_range(&wire, 0, 8)));
    fields.push(Field::integer(FieldId::BannerId, 0));
    fields.push(
        Field::string(FieldId::ServerName, <String as StringExecFns>::from_str(settings.server_name.as_str())),
    );
    assert(wire@.subrange(0, 8) =~= wire@);
    let r = create_success_reply(request, fields);
    assert(r@.fields =~= login_reply_fields(
        user_id,
        wire_of(access@, settings.little_endian),
        settings.server_name@,
    ));
    r
}

/// The first step of a login.
#[derive(Debug)]
pub enum LoginStep {
    /// The login is decided: send this reply.
    Reply(Transaction),
    /// Look up the account by this login (without regard to case), then
    /// finish with [`finish_login`] and this plaintext password.
    LookUp { login: String, password: Vec<u8> },
}

/// Starts a login. A guest login is refused with `PermissionDenied` when
/// guests are not allowed, and otherwise logs the session in as "Guest N"
/// with icon 0 and the guest privileges. Any other login needs the account
/// store: the login and password are unscrambled for the lookup.
pub fn begin_login(
    request: &Transaction,
    user_id: u16,
    settings: &ServerSettings,
    registry: &mut SessionRegistry,
) -> (r: LoginStep)
    requires
        old(registry).wf(),
    ensures
        final(registry).wf(),
        guest_intent(request@.fields) && !settings.allow_guest ==> (r matches LoginStep::Reply(t)
            && t@ == reply_model(request@, 2, Seq::empty())) && final(registry)@ == old(registry)@,
        guest_intent(request@.fields) && settings.allow_guest ==> (r matches LoginStep::Reply(t)
            && t@ == reply_model(
            request@,
            0,
            login_reply_fields(user_id, wire_of(guest_bits(), settings.little_endian), settings.server_name@),
        )) && logged_in(old(registry)@, final(registry)@, user_id, None, guest_name(user_id), 0),
        !guest_intent(request@.fields) ==> (r matches LoginStep::LookUp { login, password }
            && login@ == lossy_of(scrambled(bytes_of(last_with_id(request@.fields, FieldId::UserLogin))->0))
            && password@ == scrambled(bytes_of(last_with_id(request@.fields, FieldId::UserPassword))->0))
            && final(registry)@ == old(registry)@,
        r matches LoginStep::Reply(t) ==> answers(t@, request@),
{
    let login = match last_field(request, FieldId::UserLogin) {
        Some(f) => f.as_binary(),
        None => None,
    };
    let password = match last_field(request, FieldId::UserPassword) {
        Some(f) => f.as_binary(),
        None => None,
    };
    let no_login = match login {
        Some(l) => l.len() == 0,
        None => true,
    };
    let no_password = match password {
        Some(p) => p.len() == 0,
        None => true,
    };
    if no_login || no_password {
        if !settings.allow_guest {
            return LoginStep::Reply(create_error_reply(request, ErrorCode::PermissionDenied));
        }
        let access = AccessPrivileges::guest();
        let ghost before = registry@;
        registry.authenticate_guest(user_id, guest_nickname(user_id), 0);
        assert(registry@.dom() =~= before.dom());
        return LoginStep::Reply(login_reply(request, user_id, access, settings));
    }
    let l = login.unwrap();
    let p = password.unwrap();
    let plain_login = xor_password(l);
    let login_text = lossy_text(plain_login.as_slice());
    LoginStep::LookUp { login: login_text, password: xor_password(p) }
}

/// The stored password of `account` matches the plaintext `password`.
pub open spec fn password_matches(account: Account, password: Seq<u8>) -> bool {
    account.password_hash@ == scrambled(password)
}

/// An account was found and its stored password matches.
pub open spec fn login_accepted(account: Option<&Account>, password: Seq<u8>) -> bool {
    match account {
        Some(a) => password_matches(*a, password),
        None => false,
    }
}

/// Finishes a login with what the account store found. The session is logged
/// in with the account's id and name and icon 0 when the stored password is
/// the scrambled form of `password`; otherwise the reply is `PermissionDenied`.
pub fn finish_login(
    request: &Transaction,
    user_id: u16,
    account: Option<&Account>,
    password: &[u8],
    settings: &ServerSettings,
    registry: &mut SessionRegistry,
) -> (r: Transaction)
    requires
        old(registry).wf(),
    ensures
        final(registry).wf(),
        answers(r@, request@),
        account matches Some(a) ==> (password_matches(*a, password@) ==> r@ == reply_model(
            request@,
            0,
            login_reply_fields(
                user_id,
                wire_of((a.access as u64) & ALL_PRIVILEGE_BITS, settings.little_endian),
                settings.server_name@,
            ),
        ) && logged_in(old(registry)@, final(registry)@, user_id, Some(a.id), a.name@, 0)),
        !login_accepted(account, password@) ==> r@ == reply_model(
            request@,
            2,
            Seq::empty(),
        ) && final(registry)@ == old(registry)@,
{
    match account {
        Some(a) => {
            if verify_password(a.password_hash.as_slice(), password) {
                let ghost before = registry@;
                registry.authenticate_user(
                    user_id,
                    a.id,
                    <String as StringExecFns>::from_str(a.name.as_str()),
                    0,
                );
                assert(registry@.dom() =~= before.dom());
                login_reply(request, user_id, a.access_privileges(), settings)
            } else {
                create_error_reply(request, ErrorCode::PermissionDenied)
            }
        },
        None => create_error_reply(request, ErrorCode::PermissionDenied),
    }
}

/// The nickname chosen when agreeing: the last `UserName` text, unless it
/// is missing or blank, in which case "Guest N".
pub open spec fn agreed_nickname(fs: Seq<FieldModel>, uid: u16) -> Seq<char> {
    match text_of(last_with_id(fs, FieldId::UserName)) {
        Some(n) => if blank(n) {
            guest_name(uid)
        } else {
            n
        },
        None => guest_name(uid),
    }
}

/// The options chosen when agreeing: the last integer `Options` field, cut
/// to the three defined bits; none when there is no such field.
pub open spec fn agreed_options(fs: Seq<FieldModel>) -> u16 {
    match last_int_with_id(fs, FieldId::Options) {
        Some(v) => (v as i16 as u16) & 7,
        None => 0,
    }
}

/// The icon asked for: the last `UserIconId` integer, 0 when absent.
pub open spec fn requested_icon(fs: Seq<FieldModel>) -> u16 {
    match int_of(last_with_id(fs, FieldId::UserIconId)) {
        Some(v) => v as u16,
        None => 0,
    }
}

/// Privileges that let a user disconnect others mark an administrator.
pub open spec fn is_admin(access: u64) -> bool {
    access & AccessPrivileges::DISCONNECT_USERS == AccessPrivileges::DISCONNECT_USERS
}

/// The visible flags after agreeing: those the options project to, plus
/// `ADMIN` for an administrator.
pub open spec fn agreed_flags(fs: Seq<FieldModel>, access: u64) -> u16 {
    if is_admin(access) {
        flags_of_options(agreed_options(fs)) | UserFlags::ADMIN
    } else {
        flags_of_options(agreed_options(fs))
    }
}

/// The icon after agreeing: an administrator who asked for icon 0 gets 410.
pub open spec fn agreed_icon(fs: Seq<FieldModel>, access: u64) -> u16 {
    if is_admin(access) && requested_icon(fs) == 0 {
        410
    } else {
        requested_icon(fs)
    }
}

/// `new` is `old` with the presence of `uid` set, when it lives.
pub open spec fn presence_set(
    old: Map<u16, Session>,
    new: Map<u16, Session>,
    uid: u16,
    nickname: Seq<char>,
    icon_id: u16,
    flags: u16,
    options: u16,
) -> bool {
    &&& new.dom() == old.dom()
    &&& forall|k: u16| #[trigger] old.contains_key(k) && k != uid ==> new[k] == old[k]
    &&& old.contains_key(uid) ==> {
        let a = old[uid];
        let b = new[uid];
        &&& b.nickname@ == nickname
        &&& b.icon_id == icon_id
        &&& b.flags == flags
        &&& b.options@ == options
        &&& b.user_id == a.user_id
        &&& b.account_id == a.account_id
        &&& b.auth_state == a.auth_state
        &&& b.address == a.address
        &&& b.connected_at == a.connected_at
        &&& b.last_activity == a.last_activity
    }
}

/// The event announces that `uid` joined as `nickname`.
pub open spec fn announces_join(ev: BroadcastMessage, uid: u16, nickname: Seq<char>) -> bool {
    match ev {
        BroadcastMessage::UserJoined { user_id, nickname: n } => user_id == uid && n@ == nickname,
        _ => false,
    }
}

/// The session of `uid` lives and is logged in.
pub open spec fn is_logged_in(m: Map<u16, Session>, uid: u16) -> bool {
    m.contains_key(uid) && m[uid].auth_state == AuthState::Authenticated
}

/// Handles an agreement to the server's terms by the logged-in user
/// `user_id` acting with `access`: the session takes the chosen nickname,
/// icon, flags and options, a `UserJoined` event is to be published, and an
/// empty success reply is sent, on every agreement. Nothing happens, and
/// nothing is announced, for a user without a live, logged-in session.
pub fn handle_agreed(
    request: &Transaction,
    user_id: u16,
    access: AccessPrivileges,
    registry: &mut SessionRegistry,
) -> (r: Option<(Transaction, BroadcastMessage)>)
    requires
        old(registry).wf(),
    ensures
        final(registry).wf(),
        !is_logged_in(old(registry)@, user_id) ==> r is None && final(registry)@ == old(registry)@,
        is_logged_in(old(registry)@, user_id) ==> (r matches Some((t, ev)) && t@ == reply_model(
            request@,
            0,
            Seq::empty(),
        ) && announces_join(ev, user_id, agreed_nickname(request@.fields, user_id))),
        is_logged_in(old(registry)@, user_id) ==> presence_set(
            old(registry)@,
            final(registry)@,
            user_id,
            agreed_nickname(request@.fields, user_id),
            agreed_icon(request@.fields, access@),
            agreed_flags(request@.fields, access@),
            agreed_options(request@.fields),
        ),
{
    let logged_in = match registry.get_session(user_id) {
        Some(s) => s.is_authenticated(),
        None => false,
    };
    if !logged_in {
        return None;
    }
    let nickname = match last_field(request, FieldId::UserName) {
        Some(f) => match f.as_string() {
            Some(n) => if is_blank(n) {
                guest_nickname(user_id)
            } else {
                <String as StringExecFns>::from_str(n)
            },
            None => guest_nickname(user_id),
        },
        None => guest_nickname(user_id),
    };
    let requested: u16 = match last_field(request, FieldId::UserIconId) {
        Some(f) => match f.as_integer() {
            Some(v) => v as u16,
            None => 0,
        },
        None => 0,
    };
    let options = match last_int(request, FieldId::Options) {
        Some(v) => UserOptions::from_i16(v as i16),
        None => UserOptions::empty(),
    };
    let mut flags = options.to_user_flags();
    let mut icon_id = requested;
    if access.contains(AccessPrivileges::DISCONNECT_USERS) {
        flags = flags | UserFlags::ADMIN;
        if icon_id == 0 {
            icon_id = 410;
        }
    }
    let joined_name = <String as StringExecFns>::from_str(nickname.as_str());
    let ghost before = registry@;
    registry.set_presence(user_id, nickname, icon_id, flags, options);
    assert(registry@.dom() =~= before.dom());
    let reply = create_success_reply(request, Vec::new());
    assert(reply@.fields =~= Seq::<FieldModel>::empty());
    Some((reply, BroadcastMessage::UserJoined { user_id, nickname: joined_name }))
}

/// Why a handler sends nothing back.
#[derive(Clone, Copy, Debug, PartialEq, Eq, Structural)]
pub enum HandlerError {
    /// The connection has no live session.
    SessionNotFound,
    /// A field that the request needs is missing.
    MissingField(FieldId),
}

/// The chat options asked for: the last integer `ChatOptions` field; normal
/// when absent.
pub open spec fn chat_is_emote(fs: Seq<FieldModel>) -> bool {
    match last_int_with_id(fs, FieldId::ChatOptions) {
        Some(v) => (v as i16 as u16) & 1 == 1,
        None => false,
    }
}

/// Handles a chat line from `user_id`: a logged-in user's `Data` bytes are
/// to be published as a chat event; nothing is replied. A user who is not
/// logged in is ignored.
pub fn handle_send_chat(request: &Transaction, user_id: u16, registry: &SessionRegistry) -> (r: Result<
    Option<BroadcastMessage>,
    HandlerError,
>)
    requires
        registry.wf(),
    ensures
        !registry@.contains_key(user_id) ==> r == Err::<Option<BroadcastMessage>, HandlerError>(
            HandlerError::SessionNotFound,
        ),
        registry@.contains_key(user_id) && registry@[user_id].auth_state != AuthState::Authenticated
            ==> r matches Ok(None),
        registry@.contains_key(user_id) && registry@[user_id].auth_state == AuthState::Authenticated
            ==> match bytes_of(last_with_id(request@.fields, FieldId::Data)) {
            None => r == Err::<Option<BroadcastMessage>, HandlerError>(
                HandlerError::MissingField(FieldId::Data),
            ),
            Some(m) => r matches Ok(Some(BroadcastMessage::ChatMessage { sender_id, message, is_emote }))
                && sender_id == user_id && message@ == m && is_emote == chat_is_emote(request@.fields),
        },
{
    let sender_id = match registry.get_session(user_id) {
        Some(s) => {
            if !s.is_authenticated() {
                return Ok(None);
            }
            s.user_id
        },
        None => {
            return Err(HandlerError::SessionNotFound);
        },
    };
    proof {
        crate::registry::lemma_live_user_ids_in_range(registry, user_id);
    }
    let message = match last_field(request, FieldId::Data) {
        Some(f) => match f.as_binary() {
            Some(b) => copy_range(b, 0, b.len()),
            None => {
                return Err(HandlerError::MissingField(FieldId::Data));
            },
        },
        None => {
            return Err(HandlerError::MissingField(FieldId::Data));
        },
    };
    let options = match last_int(request, FieldId::ChatOptions) {
        Some(v) => {
            let x = v as i16 as u16;
            assert((x & 1) & 1 == x & 1) by (bit_vector);
            ChatOptions::from_i16(v as i16)
        },
        None => {
            assert(0u16 & 1 != 1) by (bit_vector);
            ChatOptions::normal()
        },
    };
    assert(message@ =~= bytes_of(last_with_id(request@.fields, FieldId::Data))->0);
    Ok(Some(BroadcastMessage::ChatMessage { sender_id, message, is_emote: options.is_emote() }))
}

/// The user-list entries of the logged-in sessions, in registration order.
pub open spec fn roster(s: Seq<Session>) -> Seq<FieldModel>
    decreases s.len(),
{
    if s.len() == 0 {
        Seq::empty()
    } else {
        let x = s.last();
        roster(s.drop_last()) + if x.auth_state == AuthState::Authenticated {
            seq![
                FieldModel {
                    id: FieldId::UserNameWithInfo,
                    value: FieldValue::Bytes(
                        user_info_bytes(x.user_id, x.icon_id, x.flags, x.nickname@),
                    ),
                },
            ]
        } else {
            Seq::empty()
        }
    }
}

/// Handles a request for the user list: the reply carries one entry per
/// logged-in session. Nothing is replied to a user who is not logged in.
pub fn handle_get_user_name_list(request: &Transaction, user_id: u16, registry: &SessionRegistry) -> (r:
    Option<Transaction>)
    requires
        registry.wf(),
    ensures
        !is_logged_in(registry@, user_id) ==> r is None,
        is_logged_in(registry@, user_id) ==> (r matches Some(t) && t@ == reply_model(
            request@,
            0,
            roster(registry.sessions()),
        )),
{
    let logged_in = match registry.get_session(user_id) {
        Some(s) => s.is_authenticated(),
        None => false,
    };
    if !logged_in {
        return None;
    }
    let ghost all = registry.sessions();
    let mut fields: Vec<Field> = Vec::new();
    let mut i: usize = 0;
    let n = registry.session_count();
    assert(all.take(0) =~= Seq::<Session>::empty());
    assert(field_models(fields@) =~= Seq::<FieldModel>::empty());
    while i < n
        invariant
            n == all.len(),
            all == registry.sessions(),
            i <= n,
            field_models(fields@) == roster(all.take(i as int)),
        decreases n - i,
    {
        let s = registry.session_at(i);
        assert(all.take(i + 1).drop_last() =~= all.take(i as int));
        assert(all.take(i + 1).last() == *s);
        if s.is_authenticated() {
            let info = user_info(s.user_id, s.icon_id, s.flags, s.nickname.as_str());
            fields.push(Field::binary(FieldId::UserNameWithInfo, info));
        }
        i += 1;
        assert(field_models(fields@) =~= roster(all.take(i as int)));
    }
    assert(all.take(n as int) =~= all);
    Some(create_success_reply(request, fields))
}

/// The requester acts with every privilege in `p`; a requester without an
/// account acts with none.
pub open spec fn may(requester: Option<AccessPrivileges>, p: u64) -> bool {
    match requester {
        Some(a) => a@ & p == p,
        None => false,
    }
}

/// The target of a client-info request: the first integer `UserId` field,
/// cut to 16 bits.
pub open spec fn info_target(fs: Seq<FieldModel>) -> Option<u16> {
    match first_int_with_id(fs, FieldId::UserId) {
        Some(v) => Some(v as u16),
        None => None,
    }
}

/// The first step of a client-info request by a requester acting with
/// `requester` (`None` for a guest, or when the account could not be read):
/// the target's user id, or the error reply. The requester needs
/// `GET_USER_INFO`; the request needs a `UserId`.
pub fn client_info_target(request: &Transaction, requester: Option<AccessPrivileges>) -> (r: Result<u16, Transaction>)
    ensures
        !may(requester, AccessPrivileges::GET_USER_INFO) ==> (r matches Err(t) && t@ == reply_model(
            request@,
            2,
            Seq::empty(),
        )),
        may(requester, AccessPrivileges::GET_USER_INFO) ==> match info_target(request@.fields) {
            Some(id) => r == Ok::<u16, Transaction>(id),
            None => r matches Err(t) && t@ == reply_model(request@, 5, Seq::empty()),
        },
{
    let allowed = match requester {
        Some(a) => a.contains(AccessPrivileges::GET_USER_INFO),
        None => false,
    };
    if !allowed {
        return Err(create_error_reply(request, ErrorCode::PermissionDenied));
    }
    match first_int(request, FieldId::UserId) {
        Some(v) => Ok(v as u16),
        None => Err(create_error_reply(request, ErrorCode::InvalidParameter)),
    }
}

/// How long a user has been idle, in words: seconds; minutes and seconds;
/// hours, minutes and seconds; or days, hours, minutes and seconds.
pub open spec fn away_text(t: nat) -> Seq<char> {
    if t < 60 {
        decimal(t) + " sec"@
    } else if t < 3600 {
        decimal(t / 60) + " min "@ + decimal(t % 60) + " sec"@
    } else if t < 86400 {
        decimal(t / 3600) + " hr "@ + decimal((t % 3600) / 60) + " min "@ + decimal(t % 60)
            + " sec"@
    } else {
        decimal(t / 86400) + " day "@ + decimal((t % 86400) / 3600) + " hr "@ + decimal(
            (t % 3600) / 60,
        ) + " min "@ + decimal(t % 60) + " sec"@
    }
}

fn format_away(t: u64) -> (r: String)
    ensures
        r@ == away_text(t as nat),
{
    if t < 60 {
        let mut s = decimal_text(t);
        s.append(" sec");
        s
    } else if t < 3600 {
        let mut s = decimal_text(t / 60);
        s.append(" min ");
        s.append(decimal_text(t % 60).as_str());
        s.append(" sec");
        s
    } else if t < 86400 {
        let mut s = decimal_text(t / 3600);
        s.append(" hr ");
        s.append(decimal_text((t % 3600) / 60).as_str());
        s.append(" min ");
        s.append(decimal_text(t % 60).as_str());
        s.append(" sec");
        s
    } else {
        let mut s = decimal_text(t / 86400);
        s.append(" day ");
        s.append(decimal_text((t % 86400) / 3600).as_str());
        s.append(" hr ");
        s.append(decimal_text((t % 3600) / 60).as_str());
        s.append(" min ");
        s.append(decimal_text(t % 60).as_str());
        s.append(" sec");
        s
    }
}

/// The account name and login shown for a session: "Guest" for a guest,
/// "Unknown" when its account could not be read.
pub open spec fn account_labels(s: Session, account: Option<&Account>) -> (Seq<char>, Seq<char>) {
    if s.account_id is None {
        ("Guest"@, "Guest"@)
    } else {
        match account {
            Some(a) => (a.name@, a.login@),
            None => ("Unknown"@, "Unknown"@),
        }
    }
}

/// The text describing a user, lines separated by carriage returns.
pub open spec fn info_text(s: Session, labels: (Seq<char>, Seq<char>), away: nat, ip: Seq<char>) -> Seq<char> {
    "Nickname:   "@ + s.nickname@ + "\rUser ID:    "@ + decimal(s.user_id as nat) + "\rIcon:       "@
        + decimal(s.icon_id as nat) + "\rAway:       "@ + away_text(away) + "\rName:       "@
        + labels.0 + "\rAccount:    "@ + labels.1 + "\rAddress:    "@ + ip
}

/// Seconds from `since` to `now`; 0 when `now` comes first.
pub open spec fn idle_seconds(since: u64, now: u64) -> nat {
    if now >= since {
        (now - since) as nat
    } else {
        0
    }
}

/// The second step of a client-info request, with the target's session (if
/// it lives), the target's account as the store returned it, the time now
/// and the target's IP address. The reply carries the description, the
/// target's nickname and icon; `NotFound` when the target is gone.
pub fn client_info_reply(
    request: &Transaction,
    target: Option<&Session>,
    account: Option<&Account>,
    now: u64,
    ip: &str,
) -> (r: Transaction)
    ensures
        target is None ==> r@ == reply_model(request@, 3, Seq::empty()),
        target matches Some(s) ==> r@ == reply_model(
            request@,
            0,
            seq![
                FieldModel {
                    id: FieldId::Data,
                    value: FieldValue::Bytes(
                        vstd::utf8::encode_utf8(
                            info_text(
                                *s,
                                account_labels(*s, account),
                                idle_seconds(s.last_activity, now),
                                ip@,
                            ),
                        ),
                    ),
                },
                FieldModel { id: FieldId::UserName, value: FieldValue::Text(s.nickname@) },
                FieldModel { id: FieldId::UserIconId, value: FieldValue::Integer(s.icon_id as i32) },
            ],
        ),
{
    let s = match target {
        Some(s) => s,
        None => {
            return create_error_reply(request, ErrorCode::NotFound);
        },
    };
    let away = if now >= s.last_activity {
        now - s.last_activity
    } else {
        0
    };
    let (name, login) = match s.account_id {
        None => (
            <String as StringExecFns>::from_str("Guest"),
            <String as StringExecFns>::from_str("Guest"),
        ),
        Some(_) => match account {
            Some(a) => (
                <String as StringExecFns>::from_str(a.name.as_str()),
                <String as StringExecFns>::from_str(a.login.as_str()),
            ),
            None => (
                <String as StringExecFns>::from_str("Unknown"),
                <String as StringExecFns>::from_str("Unknown"),
            ),
        },
    };
    let mut text = <String as StringExecFns>::from_str("Nickname:   ");
    text.append(s.nickname.as_str());
    text.append("\rUser ID:    ");
    text.append(decimal_text(s.user_id as u64).as_str());
    text.append("\rIcon:       ");
    text.append(decimal_text(s.icon_id as u64).as_str());
    text.append("\rAway:       ");
    text.append(format_away(away).as_str());
    text.append("\rName:       ");
    text.append(name.as_str());
    text.append("\rAccount:    ");
    text.append(login.as_str());
    text.append("\rAddress:    ");
    text.append(ip);
    assert(name@ == account_labels(*s, account).0);
    assert(login@ == account_labels(*s, account).1);
    assert(away as nat == idle_seconds(s.last_activity, now));
    assert(text@ == info_text(*s, account_labels(*s, account), away as nat, ip@));
    let bytes = text.as_str().as_bytes();
    let data = copy_range(bytes, 0, bytes.len());
    assert(data@ =~= vstd::utf8::encode_utf8(text@));
    let mut fields: Vec<Field> = Vec::new();
    fields.push(Field::binary(FieldId::Data, data));
    fields.push(Field::string(FieldId::UserName, <String as StringExecFns>::from_str(s.nickname.as_str())));
    fields.push(Field::integer(FieldId::UserIconId, s.icon_id as i32));
    let r = create_success_reply(request, fields);
    assert(r@.fields =~= seq![fields@[0]@, fields@[1]@, fields@[2]@]);
    r
}

/// Text from scrambled bytes: the bytes unscrambled, when they are UTF-8.
pub open spec fn unscrambled_text(b: Option<Seq<u8>>) -> Option<Seq<char>> {
    match b {
        Some(x) => if valid_utf8(scrambled(x)) {
            Some(decode_utf8(scrambled(x)))
        } else {
            None
        },
        None => None,
    }
}

/// The value of eight bytes, most significant first.
pub open spec fn read64(b: Seq<u8>) -> u64 {
    ((read32(b, 0) as u64) << 32u64) | (read32(b, 4) as u64)
}

/// The access mask in a request: the last `UserAccess` field when it holds
/// eight bytes, read big-endian; undefined bits are dropped.
pub open spec fn requested_access(fs: Seq<FieldModel>) -> Option<u64> {
    match bytes_of(last_with_id(fs, FieldId::UserAccess)) {
        Some(b) => if b.len() == 8 {
            Some(read64(b) & ALL_PRIVILEGE_BITS)
        } else {
            None
        },
        None => None,
    }
}

/// What the account store is asked to do for an account request.
#[derive(Debug)]
pub enum AccountPlan {
    /// Create an account, unless the login exists.
    Create { login: String, password_hash: Vec<u8>, name: String, access: AccessPrivileges },
    /// Read the account with this login.
    Get { login: String },
    /// Change the password and the access of the account with this login,
    /// where given.
    Update { login: String, password_hash: Option<Vec<u8>>, access: Option<AccessPrivileges> },
    /// Delete the account with this login.
    Delete { login: String },
}

/// How the account store's work went.
#[derive(Debug)]
pub enum AccountOutcome {
    Done,
    NotFound,
    AlreadyExists,
}

fn text_from_scrambled(f: Option<&Field>) -> (r: Option<String>)
    ensures
        r.is_some() == unscrambled_text(bytes_of(match f {
            Some(x) => Some(x@),
            None => None,
        })).is_some(),
        r matches Some(t) ==> Some(t@) == unscrambled_text(bytes_of(match f {
            Some(x) => Some(x@),
            None => None,
        })),
{
    match f {
        Some(x) => match x.as_binary() {
            Some(b) => utf8_text(xor_password(b)),
            None => None,
        },
        None => None,
    }
}

fn access_from_request(request: &Transaction) -> (r: Option<AccessPrivileges>)
    ensures
        r.is_some() == requested_access(request@.fields).is_some(),
        r matches Some(a) ==> Some(a@) == requested_access(request@.fields) && a.wf(),
{
    match last_field(request, FieldId::UserAccess) {
        Some(f) => match f.as_binary() {
            Some(b) => {
                if b.len() == 8 {
                    let hi = get_u32(b, 0) as u64;
                    let lo = get_u32(b, 4) as u64;
                    Some(AccessPrivileges::from_bits_truncate((hi << 32u64) | lo))
                } else {
                    None
                }
            },
            None => None,
        },
        None => None,
    }
}

/// The account-creation request as the store should carry it out. The
/// requester needs `CREATE_USERS`; the request needs a login (scrambled,
/// UTF-8 once unscrambled, not empty), a password and a name. The password is
/// stored as sent, in its scrambled form; the access mask defaults to none.
pub fn plan_new_user(request: &Transaction, requester: Option<AccessPrivileges>) -> (r: Result<AccountPlan, Transaction>)
    ensures
        !may(requester, AccessPrivileges::CREATE_USERS) ==> (r matches Err(t) && t@ == reply_model(
            request@,
            2,
            Seq::empty(),
        )),
        may(requester, AccessPrivileges::CREATE_USERS) ==> ({
            let fs = request@.fields;
            let l = unscrambled_text(bytes_of(last_with_id(fs, FieldId::UserLogin)));
            let p = bytes_of(last_with_id(fs, FieldId::UserPassword));
            let n = text_of(last_with_id(fs, FieldId::UserName));
            if l is Some && l->0.len() > 0 && p is Some && n is Some {
                r matches Ok(AccountPlan::Create { login, password_hash, name, access }) && login@
                    == l->0 && password_hash@ == p->0 && name@ == n->0 && access@ == (match requested_access(fs) {
                    Some(m) => m,
                    None => 0,
                })
            } else {
                r matches Err(t) && t@ == reply_model(request@, 5, Seq::empty())
            }
        }),
{
    let allowed = match requester {
        Some(a) => a.contains(AccessPrivileges::CREATE_USERS),
        None => false,
    };
    if !allowed {
        return Err(create_error_reply(request, ErrorCode::PermissionDenied));
    }
    let login = text_from_scrambled(last_field(request, FieldId::UserLogin));
    let password = match last_field(request, FieldId::UserPassword) {
        Some(f) => match f.as_binary() {
            Some(b) => Some(copy_range(b, 0, b.len())),
            None => None,
        },
        None => None,
    };
    let name = match last_field(request, FieldId::UserName) {
        Some(f) => match f.as_string() {
            Some(n) => Some(<String as StringExecFns>::from_str(n)),
            None => None,
        },
        None => None,
    };
    match (login, password, name) {
        (Some(login), Some(password_hash), Some(name)) => {
            if login.as_str().is_empty() {
                return Err(create_error_reply(request, ErrorCode::InvalidParameter));
            }
            assert(password_hash@ =~= bytes_of(last_with_id(request@.fields, FieldId::UserPassword))->0);
            let access = match access_from_request(request) {
                Some(a) => a,
                None => {
                    assert(0u64 & ALL_PRIVILEGE_BITS == 0) by (bit_vector);
                    AccessPrivileges::from_bits_truncate(0)
                },
            };
            Ok(AccountPlan::Create { login, password_hash, name, access })
        },
        _ => Err(create_error_reply(request, ErrorCode::InvalidParameter)),
    }
}

/// The account-reading request. The requester needs `OPEN_USER`; the first
/// login field must unscramble to UTF-8.
pub fn plan_get_user(request: &Transaction, requester: Option<AccessPrivileges>) -> (r: Result<AccountPlan, Transaction>)
    ensures
        !may(requester, AccessPrivileges::OPEN_USER) ==> (r matches Err(t) && t@ == reply_model(
            request@,
            2,
            Seq::empty(),
        )),
        may(requester, AccessPrivileges::OPEN_USER) ==> match unscrambled_text(
            bytes_of(first_with_id(request@.fields, FieldId::UserLogin)),
        ) {
            Some(l) => r matches Ok(AccountPlan::Get { login }) && login@ == l,
            None => r matches Err(t) && t@ == reply_model(request@, 5, Seq::empty()),
        },
{
    let allowed = match requester {
        Some(a) => a.contains(AccessPrivileges::OPEN_USER),
        None => false,
    };
    if !allowed {
        return Err(create_error_reply(request, ErrorCode::PermissionDenied));
    }
    match text_from_scrambled(first_field(request, FieldId::UserLogin)) {
        Some(login) => Ok(AccountPlan::Get { login }),
        None => Err(create_error_reply(request, ErrorCode::InvalidParameter)),
    }
}

/// The account-changing request. The requester needs `MODIFY_USERS`; the
/// last login field must unscramble to UTF-8. A password (stored as sent)
/// and an access mask are changed only where the request holds them.
pub fn plan_set_user(request: &Transaction, requester: Option<AccessPrivileges>) -> (r: Result<AccountPlan, Transaction>)
    ensures
        !may(requester, AccessPrivileges::MODIFY_USERS) ==> (r matches Err(t) && t@ == reply_model(
            request@,
            2,
            Seq::empty(),
        )),
        may(requester, AccessPrivileges::MODIFY_USERS) ==> match unscrambled_text(
            bytes_of(last_with_id(request@.fields, FieldId::UserLogin)),
        ) {
            Some(l) => r matches Ok(AccountPlan::Update { login, password_hash, access }) && login@
                == l && password_hash.is_some() == bytes_of(
                last_with_id(request@.fields, FieldId::UserPassword),
            ).is_some() && (password_hash matches Some(p) ==> p@ == bytes_of(
                last_with_id(request@.fields, FieldId::UserPassword),
            )->0) && access.is_some() == requested_access(request@.fields).is_some() && (
            access matches Some(a) ==> Some(a@) == requested_access(request@.fields)),
            None => r matches Err(t) && t@ == reply_model(request@, 5, Seq::empty()),
        },
{
    let allowed = match requester {
        Some(a) => a.contains(AccessPrivileges::MODIFY_USERS),
        None => false,
    };
    if !allowed {
        return Err(create_error_reply(request, ErrorCode::PermissionDenied));
    }
    let login = match text_from_scrambled(last_field(request, FieldId::UserLogin)) {
        Some(l) => l,
        None => {
            return Err(create_error_reply(request, ErrorCode::InvalidParameter));
        },
    };
    let password_hash = match last_field(request, FieldId::UserPassword) {
        Some(f) => match f.as_binary() {
            Some(b) => Some(copy_range(b, 0, b.len())),
            None => None,
        },
        None => None,
    };
    proof {
        if password_hash is Some {
            assert(password_hash->0@ =~= bytes_of(last_with_id(request@.fields, FieldId::UserPassword))->0);
        }
    }
    let access = access_from_request(request);
    Ok(AccountPlan::Update { login, password_hash, access })
}

/// The account-deleting request. The requester needs `DELETE_USERS`; the
/// first login field must unscramble to UTF-8.
pub fn plan_delete_user(request: &Transaction, requester: Option<AccessPrivileges>) -> (r: Result<AccountPlan, Transaction>)
    ensures
        !may(requester, AccessPrivileges::DELETE_USERS) ==> (r matches Err(t) && t@ == reply_model(
            request@,
            2,
            Seq::empty(),
        )),
        may(requester, AccessPrivileges::DELETE_USERS) ==> match unscrambled_text(
            bytes_of(first_with_id(request@.fields, FieldId::UserLogin)),
        ) {
            Some(l) => r matches Ok(AccountPlan::Delete { login }) && login@ == l,
            None => r matches Err(t) && t@ == reply_model(request@, 5, Seq::empty()),
        },
{
    let allowed = match requester {
        Some(a) => a.contains(AccessPrivileges::DELETE_USERS),
        None => false,
    };
    if !allowed {
        return Err(create_error_reply(request, ErrorCode::PermissionDenied));
    }
    match text_from_scrambled(first_field(request, FieldId::UserLogin)) {
        Some(login) => Ok(AccountPlan::Delete { login }),
        None => Err(create_error_reply(request, ErrorCode::InvalidParameter)),
    }
}

/// The reply once the store has done its part: empty success, `NotFound` or
/// `AlreadyExists`.
pub fn account_reply(request: &Transaction, outcome: AccountOutcome) -> (r: Transaction)
    ensures
        answers(r@, request@),
        r@ == reply_model(
            request@,
            match outcome {
                AccountOutcome::Done => 0,
                AccountOutcome::NotFound => 3,
                AccountOutcome::AlreadyExists => 4,
            },
            Seq::empty(),
        ),
{
    match outcome {
        AccountOutcome::Done => {
            let r = create_success_reply(request, Vec::new());
            assert(r@.fields =~= Seq::<FieldModel>::empty());
            r
        },
        AccountOutcome::NotFound => create_error_reply(request, ErrorCode::NotFound),
        AccountOutcome::AlreadyExists => create_error_reply(request, ErrorCode::AlreadyExists),
    }
}

/// Which handler a request goes to.
#[derive(Clone, Copy, Debug, PartialEq, Eq, Structural)]
pub enum Route {
    Login,
    Agreed,
    SendChat,
    GetUserNameList,
    GetClientInfoText,
    NewUser,
    GetUser,
    SetUser,
    DeleteUser,
    /// Logged and ignored: no reply.
    Unhandled,
}

/// The handler of each request type.
pub open spec fn route_of(t: TransactionType) -> Route {
    match t {
        TransactionType::Login => Route::Login,
        TransactionType::Agreed => Route::Agreed,
        TransactionType::SendChat => Route::SendChat,
        TransactionType::GetUserNameList => Route::GetUserNameList,
        TransactionType::GetClientInfoText => Route::GetClientInfoText,
        TransactionType::NewUser => Route::NewUser,
        TransactionType::GetUser => Route::GetUser,
        TransactionType::SetUser => Route::SetUser,
        TransactionType::DeleteUser => Route::DeleteUser,
        _ => Route::Unhandled,
    }
}

/// Dispatches a request type to its handler.
pub fn route(t: TransactionType) -> (r: Route)
    ensures
        r == route_of(t),
{
    match t {
        TransactionType::Login => Route::Login,
        TransactionType::Agreed => Route::Agreed,
        TransactionType::SendChat => Route::SendChat,
        TransactionType::GetUserNameList => Route::GetUserNameList,
        TransactionType::GetClientInfoText => Route::GetClientInfoText,
        TransactionType::NewUser => Route::NewUser,
        TransactionType::GetUser => Route::GetUser,
        TransactionType::SetUser => Route::SetUser,
        TransactionType::DeleteUser => Route::DeleteUser,
        _ => Route::Unhandled,
    }
}

/// The pushes that follow a reply on the same connection, in order: after a
/// successful login the agreement (an empty `Data` field); after a successful
/// agreement the user's access mask in wire form.
pub fn pushes_after_reply(
    request_type: TransactionType,
    reply: &Transaction,
    access: AccessPrivileges,
    little_endian: bool,
) -> (r: Vec<Transaction>)
    ensures
        request_type == TransactionType::Login && reply.error_code == 0 ==> r@.len() == 1 && r@[0]@
            == push_model(
            TransactionType::ShowAgreement,
            seq![FieldModel { id: FieldId::Data, value: FieldValue::Text(Seq::empty()) }],
        ),
        request_type == TransactionType::Agreed && reply.error_code == 0 ==> r@.len() == 1
            && r@[0]@ == push_model(
            TransactionType::UserAccess,
            seq![
                FieldModel {
                    id: FieldId::UserAccess,
                    value: FieldValue::Bytes(wire_of(access@, little_endian)),
                },
            ],
        ),
        !((request_type == TransactionType::Login || request_type == TransactionType::Agreed)
            && reply.error_code == 0) ==> r@.len() == 0,
{
    let mut out: Vec<Transaction> = Vec::new();
    if reply.error_code != 0 {
        return out;
    }
    if request_type == TransactionType::Login {
        let mut fields: Vec<Field> = Vec::new();
        fields.push(Field::string(FieldId::Data, String::new()));
        let t = create_server_transaction(TransactionType::ShowAgreement, fields);
        assert(t@.fields =~= seq![FieldModel { id: FieldId::Data, value: FieldValue::Text(Seq::empty()) }]);
        out.push(t);
    } else if request_type == TransactionType::Agreed {
        let wire = access.to_wire_format_for(little_endian);
        let mut fields: Vec<Field> = Vec::new();
        fields.push(Field::binary(FieldId::UserAccess, copy_range(&wire, 0, 8)));
        assert(wire@.subrange(0, 8) =~= wire@);
        let t = create_server_transaction(TransactionType::UserAccess, fields);
        assert(t@.fields =~= seq![fields@[0]@]);
        out.push(t);
    }
    out
}

/// Ends the session of a closed connection; a logged-in user's departure is
/// to be published.
pub fn teardown(registry: &mut SessionRegistry, user_id: u16) -> (r: Option<BroadcastMessage>)
    requires
        old(registry).wf(),
    ensures
        final(registry).wf(),
        final(registry)@ == old(registry)@.remove(user_id),
        (old(registry)@.contains_key(user_id) && old(registry)@[user_id].auth_state
            == AuthState::Authenticated) ==> (r matches Some(BroadcastMessage::UserLeft { user_id: u })
            && u == user_id),
        !(old(registry)@.contains_key(user_id) && old(registry)@[user_id].auth_state
            == AuthState::Authenticated) ==> r is None,
{
    match registry.unregister_session(user_id) {
        Some(s) => {
            if s.is_authenticated() {
                Some(BroadcastMessage::UserLeft { user_id })
            } else {
                None
            }
        },
        None => None,
    }
}

/// Disconnects a user on the operator's order: the session is removed and
/// its departure is to be published. `None` when no such session lives.
pub fn kick(registry: &mut SessionRegistry, user_id: u16) -> (r: Option<(Session, BroadcastMessage)>)
    requires
        old(registry).wf(),
    ensures
        final(registry).wf(),
        final(registry)@ == old(registry)@.remove(user_id),
        old(registry)@.contains_key(user_id) ==> (r matches Some((s, BroadcastMessage::UserLeft { user_id: u })) && u == user_id
            && s == old(registry)@[user_id]),
        !old(registry)@.contains_key(user_id) ==> r is None,
{
    match registry.unregister_session(user_id) {
        Some(s) => Some((s, BroadcastMessage::UserLeft { user_id })),
        None => None,
    }
}

/// Whether a connection goes on after a framing error: only a frame of an
/// unknown type (already taken off the stream) is passed over.
pub fn keeps_connection(e: &ProtocolError) -> (r: bool)
    ensures
        r == (e is InvalidTransactionType),
{
    match e {
        ProtocolError::InvalidTransactionType(_) => true,
        _ => false,
    }
}

/// The users of `m` that are logged in.
pub open spec fn logged_in_ids(m: Map<u16, Session>) -> Set<u16> {
    Set::new(|k: u16| m.contains_key(k) && m[k].auth_state == AuthState::Authenticated)
}

/// A peer whose roster is the set of logged-in users still has it right after
/// a session ends: a logged-in user's departure is published (by `teardown`,
/// and by `kick` in any case) and removes it; any other user was not on the
/// roster.
pub proof fn lemma_departure_keeps_roster(roster: Set<u16>, old: Map<u16, Session>, uid: u16)
    requires
        roster == logged_in_ids(old),
    ensures
        apply_event(roster, BroadcastMessage::UserLeft { user_id: uid }) == logged_in_ids(old.remove(uid)),
        !(old.contains_key(uid) && old[uid].auth_state == AuthState::Authenticated) ==> roster
            == logged_in_ids(old.remove(uid)),
{
    assert(apply_event(roster, BroadcastMessage::UserLeft { user_id: uid }) =~= logged_in_ids(old.remove(uid)));
    if !(old.contains_key(uid) && old[uid].auth_state == AuthState::Authenticated) {
        assert(roster =~= logged_in_ids(old.remove(uid)));
    }
}

/// A peer whose roster is the set of logged-in users still has it right once
/// a user who was not logged in logs in (`begin_login` or `finish_login`) and
/// then agrees to the terms (`handle_agreed`), whose published join adds the
/// user.
pub proof fn lemma_login_then_agreement_keeps_roster(
    roster: Set<u16>,
    m0: Map<u16, Session>,
    m1: Map<u16, Session>,
    m2: Map<u16, Session>,
    uid: u16,
    account_id: Option<i64>,
    nickname: Seq<char>,
    icon_id: u16,
    agreed_nick: Seq<char>,
    agreed_icon_id: u16,
    flags: u16,
    options: u16,
    joined_name: String,
)
    requires
        roster == logged_in_ids(m0),
        m0.contains_key(uid),
        logged_in(m0, m1, uid, account_id, nickname, icon_id),
        presence_set(m1, m2, uid, agreed_nick, agreed_icon_id, flags, options),
    ensures
        apply_event(roster, BroadcastMessage::UserJoined { user_id: uid, nickname: joined_name })
            == logged_in_ids(m2),
{
    assert forall|k: u16| #[trigger] logged_in_ids(m2).contains(k) == (k == uid || roster.contains(k)) by {
        if k != uid && m0.contains_key(k) {
            assert(m1[k] == m0[k]);
            assert(m2[k] == m1[k]);
        }
        if k != uid {
            assert(m2.contains_key(k) == m0.contains_key(k));
        }
    }
    assert(apply_event(roster, BroadcastMessage::UserJoined { user_id: uid, nickname: joined_name })
        =~= logged_in_ids(m2));
}

/// A logged-in user who agrees again is announced again; the repeated join
/// leaves the roster of a peer that already had it right unchanged, and
/// right.
pub proof fn lemma_repeated_agreement_keeps_roster(
    roster: Set<u16>,
    m1: Map<u16, Session>,
    m2: Map<u16, Session>,
    uid: u16,
    agreed_nick: Seq<char>,
    agreed_icon_id: u16,
    flags: u16,
    options: u16,
    joined_name: String,
)
    requires
        roster == logged_in_ids(m1),
        is_logged_in(m1, uid),
        presence_set(m1, m2, uid, agreed_nick, agreed_icon_id, flags, options),
    ensures
        apply_event(roster, BroadcastMessage::UserJoined { user_id: uid, nickname: joined_name })
            == logged_in_ids(m2),
{
    assert forall|k: u16| #[trigger] logged_in_ids(m2).contains(k) == (k == uid || roster.contains(k)) by {
        if k != uid && m1.contains_key(k) {
            assert(m2[k] == m1[k]);
        }
        if k != uid {
            assert(m2.contains_key(k) == m1.contains_key(k));
        }
    }
    assert(apply_event(roster, BroadcastMessage::UserJoined { user_id: uid, nickname: joined_name })
        =~= logged_in_ids(m2));
}

/// When the events a peer has received, well paired, have left it with the
/// set of logged-in users, the number of logged-in users is the number of
/// joins minus the number of departures among them.
pub proof fn lemma_logged_in_count(events: Seq<BroadcastMessage>, m: Map<u16, Session>)
    requires
        well_paired(events),
        roster_after(events) == logged_in_ids(m),
    ensures
        logged_in_ids(m).finite(),
        logged_in_ids(m).len() + departures(events) == joins(events),
{
    lemma_roster_counts_joins_minus_departures(events);
}

} // verus!
