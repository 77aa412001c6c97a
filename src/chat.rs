//! Chat rooms and chat message options.
use vstd::prelude::*;

verus! {

/// A private chat room.
#[derive(Clone, Debug)]
pub struct ChatRoom {
    pub id: u32,
    pub subject: Option<String>,
    /// The user ids of the members.
    pub users: Vec<u16>,
}

impl ChatRoom {
    /// An empty room without a subject.
    pub fn new(id: u32) -> (r: Self)
        ensures
            r.id == id,
            r.subject is None,
            r.users@.len() == 0,
    {
        ChatRoom { id, subject: None, users: Vec::new() }
    }
}

/// Options of a chat message: normal, or an emote.
#[derive(Clone, Copy, Debug, PartialEq, Eq, Structural)]
pub struct ChatOptions {
    bits: u16,
}

impl ChatOptions {
    pub const NORMAL: u16 = 0;
    pub const EMOTE: u16 = 1;

    pub closed spec fn view(&self) -> u16 {
        self.bits
    }

    /// A normal message.
    pub fn normal() -> (r: Self)
        ensures
            r@ == 0,
    {
        ChatOptions { bits: 0 }
    }

    /// Whether the message is an emote.
    pub fn is_emote(&self) -> (r: bool)
        ensures
            r == (self@ & 1 == 1),
    {
        self.bits & Self::EMOTE == Self::EMOTE
    }

    /// Whether the message is a normal one.
    pub fn is_normal(&self) -> (r: bool)
        ensures
            r == (self@ & 1 != 1),
    {
        !self.is_emote()
    }

    /// The options whose bits are set in `value`; other bits are dropped.
    pub fn from_i16(value: i16) -> (r: Self)
        ensures
            r@ == (value as u16) & 1,
    {
        ChatOptions { bits: (value as u16) & Self::EMOTE }
    }

    pub fn to_i16(&self) -> (r: i16)
        ensures
            r == self@ as i16,
    {
        self.bits as i16
    }
}

impl Default for ChatOptions {
    fn default() -> (r: Self)
        ensures
            r@ == 0,
    {
        Self::normal()
    }
}

} // verus!
