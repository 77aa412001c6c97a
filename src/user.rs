//! Users as listed to clients, their visible flags and their preferences.
use vstd::prelude::*;

verus! {

/// A user as other clients see it.
#[derive(Clone, Debug)]
pub struct User {
    pub id: u16,
    pub icon_id: i16,
    pub flags: u16,
    pub name: String,
}

impl User {
    /// A user with icon 0 and no flags.
    pub fn new(id: u16, name: String) -> (r: Self)
        ensures
            r.id == id,
            r.icon_id == 0,
            r.flags == 0,
            r.name@ == name@,
    {
        User { id, icon_id: 0, flags: 0, name }
    }
}

/// The flags shown beside a user in the user list.
pub struct UserFlags;

impl UserFlags {
    pub const AWAY: u16 = 1;
    pub const ADMIN: u16 = 2;
    pub const REFUSED_MESSAGES: u16 = 4;
    pub const REFUSED_CHAT: u16 = 8;
}

/// Options bit: private messages are refused.
pub const REFUSE_PRIVATE_MESSAGE: u16 = 1;

/// Options bit: private chat invitations are refused.
pub const REFUSE_PRIVATE_CHAT: u16 = 2;

/// Options bit: an automatic response is set.
pub const AUTOMATIC_RESPONSE: u16 = 4;

/// The visible flags that a set of options projects to.
pub open spec fn flags_of_options(o: u16) -> u16 {
    (if o & REFUSE_PRIVATE_MESSAGE != 0 {
        UserFlags::REFUSED_MESSAGES
    } else {
        0u16
    }) | (if o & REFUSE_PRIVATE_CHAT != 0 {
        UserFlags::REFUSED_CHAT
    } else {
        0u16
    })
}

/// A client's preferences, sent when it agrees to the server's terms.
#[derive(Clone, Copy, Debug, PartialEq, Eq, Structural)]
pub struct UserOptions {
    bits: u16,
}

impl UserOptions {
    pub closed spec fn view(&self) -> u16 {
        self.bits
    }

    /// No options set.
    pub fn empty() -> (r: Self)
        ensures
            r@ == 0,
    {
        UserOptions { bits: 0 }
    }

    /// The options whose bits are set in `value`; other bits are dropped.
    pub fn from_i16(value: i16) -> (r: Self)
        ensures
            r@ == (value as u16) & 7,
    {
        UserOptions { bits: (value as u16) & 7 }
    }

    pub fn to_i16(&self) -> (r: i16)
        ensures
            r == self@ as i16,
    {
        self.bits as i16
    }

    pub fn bits(&self) -> (r: u16)
        ensures
            r == self@,
    {
        self.bits
    }

    /// Whether every bit of `flags` is set.
    pub fn contains(&self, flags: u16) -> (r: bool)
        ensures
            r == (self@ & flags == flags),
    {
        self.bits & flags == flags
    }

    /// The flags that other users see: refusing private messages shows as
    /// `REFUSED_MESSAGES`, refusing private chat as `REFUSED_CHAT`.
    pub fn to_user_flags(&self) -> (r: u16)
        ensures
            r == flags_of_options(self@),
    {
        let mut flags: u16 = 0;
        if self.bits & REFUSE_PRIVATE_MESSAGE != 0 {
            flags = flags | UserFlags::REFUSED_MESSAGES;
        }
        if self.bits & REFUSE_PRIVATE_CHAT != 0 {
            flags = flags | UserFlags::REFUSED_CHAT;
        }
        assert(0u16 | 4u16 == 4u16 && 4u16 | 8u16 == 12u16 && 0u16 | 8u16 == 8u16 && 4u16 | 0u16
            == 4u16 && 0u16 | 0u16 == 0u16) by (bit_vector);
        flags
    }
}

impl Default for UserOptions {
    fn default() -> (r: Self)
        ensures
            r@ == 0,
    {
        Self::empty()
    }
}

} // verus!
