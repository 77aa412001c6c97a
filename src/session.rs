//! Per-connection session state.
use vstd::prelude::*;
use vstd::string::StringExecFns;
use crate::text::{decimal, decimal_text};
use crate::user::UserOptions;

verus! {

/// Where a connection stands on its way to being logged in.
#[derive(Clone, Copy, Debug, PartialEq, Eq, Structural)]
pub enum AuthState {
    /// Connected, the handshake has not been read yet.
    Handshake,
    /// Handshake done, waiting for a login.
    LoginPending,
    /// Logged in, as a guest or with an account.
    Authenticated,
}

/// The nickname a session starts with: "Guest " and its user id.
pub open spec fn guest_name(user_id: u16) -> Seq<char> {
    "Guest "@ + decimal(user_id as nat)
}

/// The nickname "Guest N" for user id N.
pub fn guest_nickname(user_id: u16) -> (r: String)
    ensures
        r@ == guest_name(user_id),
{
    let digits = decimal_text(user_id as u64);
    let mut s = <String as StringExecFns>::from_str("Guest ");
    s.append(digits.as_str());
    s
}

/// The state of one connected client.
#[derive(Clone, Debug)]
pub struct Session {
    /// 1 to 65535, unique among live sessions.
    pub user_id: u16,
    /// The account logged in with; `None` for a guest.
    pub account_id: Option<i64>,
    pub nickname: String,
    pub icon_id: u16,
    /// Visible flags: away, admin, refused messages, refused chat.
    pub flags: u16,
    pub options: UserOptions,
    /// The peer's address as text.
    pub address: String,
    /// Seconds since the Unix epoch.
    pub connected_at: u64,
    /// Seconds since the Unix epoch.
    pub last_activity: u64,
    pub auth_state: AuthState,
}

/// A session after its handshake: a session still at the handshake moves on
/// to waiting for a login; any other is left as it is.
pub open spec fn handshake_done(s: Session) -> Session {
    if s.auth_state == AuthState::Handshake {
        Session { auth_state: AuthState::LoginPending, ..s }
    } else {
        s
    }
}

impl Session {
    /// A session that has just been accepted, at time `now`.
    pub fn new(user_id: u16, address: String, now: u64) -> (r: Self)
        ensures
            r.user_id == user_id,
            r.account_id is None,
            r.nickname@ == guest_name(user_id),
            r.icon_id == 0,
            r.flags == 0,
            r.options@ == 0,
            r.address@ == address@,
            r.connected_at == now,
            r.last_activity == now,
            r.auth_state == AuthState::Handshake,
    {
        Session {
            user_id,
            account_id: None,
            nickname: guest_nickname(user_id),
            icon_id: 0,
            flags: 0,
            options: UserOptions::empty(),
            address,
            connected_at: now,
            last_activity: now,
            auth_state: AuthState::Handshake,
        }
    }

    /// Logs in as a guest.
    pub fn authenticate_guest(&mut self, nickname: String, icon_id: u16)
        ensures
            *final(self) == (Session {
                nickname,
                icon_id,
                auth_state: AuthState::Authenticated,
                ..*old(self)
            }),
    {
        self.nickname = nickname;
        self.icon_id = icon_id;
        self.auth_state = AuthState::Authenticated;
    }

    /// Logs in with an account.
    pub fn authenticate_user(&mut self, account_id: i64, nickname: String, icon_id: u16)
        ensures
            *final(self) == (Session {
                account_id: Some(account_id),
                nickname,
                icon_id,
                auth_state: AuthState::Authenticated,
                ..*old(self)
            }),
    {
        self.account_id = Some(account_id);
        self.nickname = nickname;
        self.icon_id = icon_id;
        self.auth_state = AuthState::Authenticated;
    }

    /// Marks the handshake as done; a session past the handshake is left as it is.
    pub fn complete_handshake(&mut self)
        ensures
            *final(self) == handshake_done(*old(self)),
    {
        if self.auth_state == AuthState::Handshake {
            self.auth_state = AuthState::LoginPending;
        }
    }

    /// Records activity at time `now`.
    pub fn touch(&mut self, now: u64)
        ensures
            *final(self) == (Session { last_activity: now, ..*old(self) }),
    {
        self.last_activity = now;
    }

    pub fn is_authenticated(&self) -> (r: bool)
        ensures
            r == (self.auth_state == AuthState::Authenticated),
    {
        self.auth_state == AuthState::Authenticated
    }

    pub fn is_guest(&self) -> (r: bool)
        ensures
            r == self.account_id.is_none(),
    {
        self.account_id.is_none()
    }
}

} // verus!
