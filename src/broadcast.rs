//! Server-wide events and the frames they become for each connection.
use vstd::prelude::*;
use vstd::string::StringExecFns;
use vstd::utf8::encode_utf8;
use crate::field::{Field, FieldId, FieldModel, FieldValue, copy_range};
use crate::registry::SessionRegistry;
use crate::replies::{create_server_transaction, push_model};
use crate::session::Session;
use crate::text::{chars_of, decimal, decimal_text, lossy_of, lossy_text, text_of_chars};
use crate::transaction::{Transaction, TransactionModel};
use crate::types::TransactionType;
use crate::wire::{be16, put_u16};

verus! {

/// An event sent to every connection.
#[derive(Clone, Debug)]
pub enum BroadcastMessage {
    /// A user has agreed to the terms and is now visible.
    UserJoined { user_id: u16, nickname: String },
    /// A user has gone.
    UserLeft { user_id: u16 },
    /// The server is stopping.
    ServerShutdown,
    /// An announcement from the operator.
    ServerMessage { message: String },
    /// A chat line.
    ChatMessage { sender_id: u16, message: Vec<u8>, is_emote: bool },
}

/// What a connection does with an event.
#[derive(Debug)]
pub enum Outbound {
    /// Send this frame to the peer.
    Send(Transaction),
    /// Nothing to send.
    Skip,
    /// Stop serving the peer.
    Close,
}

/// The first `n` characters of `s` (all of them when it is shorter).
pub open spec fn take_chars(s: Seq<char>, n: nat) -> Seq<char> {
    if s.len() <= n {
        s
    } else {
        s.take(n as int)
    }
}

/// `s` cut to 13 characters and padded with spaces on the left to 13.
pub open spec fn right_aligned_13(s: Seq<char>) -> Seq<char> {
    let t = take_chars(s, 13);
    Seq::new((13 - t.len()) as nat, |i: int| ' ') + t
}

/// The text cut to 13 characters and right-aligned in a width of 13 with spaces.
pub fn format_right_aligned_13(s: &str) -> (r: String)
    ensures
        r@ == right_aligned_13(s@),
{
    let cs = chars_of(s);
    let n: usize = if cs.len() <= 13 {
        cs.len()
    } else {
        13
    };
    let mut out: Vec<char> = Vec::new();
    let mut k: usize = 0;
    while k < 13 - n
        invariant
            n <= 13,
            k <= 13 - n,
            out@ == Seq::new(k as nat, |i: int| ' '),
        decreases 13 - n - k,
    {
        out.push(' ');
        k += 1;
        assert(out@ =~= Seq::new(k as nat, |i: int| ' '));
    }
    let ghost pad = out@;
    let mut i: usize = 0;
    while i < n
        invariant
            n <= cs@.len(),
            n <= 13,
            cs@ == s@,
            i <= n,
            out@ == pad + cs@.take(i as int),
        decreases n - i,
    {
        out.push(cs[i]);
        i += 1;
        assert(out@ =~= pad + cs@.take(i as int));
    }
    assert(cs@.take(n as int) =~= take_chars(s@, 13));
    text_of_chars(&out)
}

/// The text of a chat line as other users see it. A normal line is a
/// carriage return, the nickname right-aligned in 13 characters, a colon, two
/// spaces and the message; an emote is a carriage return, " *** ", the
/// nickname, a space and the message.
pub open spec fn chat_line(nickname: Seq<char>, message: Seq<char>, is_emote: bool) -> Seq<char> {
    if is_emote {
        "\r *** "@ + nickname + " "@ + message
    } else {
        "\r"@ + right_aligned_13(nickname) + ":  "@ + message
    }
}

/// The bytes of the chat line for the message text `message` sent by
/// `nickname`.
pub fn format_chat_text(nickname: &str, message: &str, is_emote: bool) -> (r: Vec<u8>)
    ensures
        r@ == encode_utf8(chat_line(nickname@, message@, is_emote)),
{
    let line = if is_emote {
        let mut s = <String as StringExecFns>::from_str("\r *** ");
        s.append(nickname);
        s.append(" ");
        s.append(message);
        s
    } else {
        let mut s = <String as StringExecFns>::from_str("\r");
        let padded = format_right_aligned_13(nickname);
        s.append(padded.as_str());
        s.append(":  ");
        s.append(message);
        s
    };
    let bytes = line.as_str().as_bytes();
    copy_range(bytes, 0, bytes.len())
}

/// The bytes of the chat line for `message` sent by `nickname`; the message
/// bytes are read as UTF-8, invalid sequences becoming U+FFFD.
pub fn format_chat_message(nickname: &str, message: &[u8], is_emote: bool) -> (r: Vec<u8>)
    ensures
        r@ == encode_utf8(chat_line(nickname@, lossy_of(message@), is_emote)),
{
    let text = lossy_text(message);
    format_chat_text(nickname, text.as_str(), is_emote)
}

/// The user-list entry of a user: id, icon, flags, name length (each two
/// bytes, big-endian), then the name.
pub open spec fn user_info_bytes(user_id: u16, icon_id: u16, flags: u16, nickname: Seq<char>) -> Seq<u8> {
    be16(user_id) + be16(icon_id) + be16(flags) + be16(encode_utf8(nickname).len() as u16)
        + encode_utf8(nickname)
}

/// Builds a user-list entry.
pub fn user_info(user_id: u16, icon_id: u16, flags: u16, nickname: &str) -> (r: Vec<u8>)
    ensures
        r@ == user_info_bytes(user_id, icon_id, flags, nickname@),
{
    let mut out: Vec<u8> = Vec::new();
    put_u16(&mut out, user_id);
    put_u16(&mut out, icon_id);
    put_u16(&mut out, flags);
    let name = nickname.as_bytes();
    put_u16(&mut out, name.len() as u16);
    out.extend_from_slice(name);
    assert(out@ =~= user_info_bytes(user_id, icon_id, flags, nickname@));
    out
}

/// The name shown for a sender that is no longer connected.
pub open spec fn absent_sender_name(id: u16) -> Seq<char> {
    "User "@ + decimal(id as nat)
}

/// A frame to send, nothing, or the end of the connection, as mathematical objects.
pub ghost enum OutboundModel {
    Send(TransactionModel),
    Skip,
    Close,
}

impl Outbound {
    pub open spec fn view(&self) -> OutboundModel {
        match self {
            Outbound::Send(t) => OutboundModel::Send(t@),
            Outbound::Skip => OutboundModel::Skip,
            Outbound::Close => OutboundModel::Close,
        }
    }
}

/// What the connection of user `self_id` does with an event, given the live
/// sessions `m`. The joining user is not told of its own arrival; the
/// departure of the connection's own user (a kick) and shutdown end the
/// connection; a chat line names its sender by the sender's current
/// nickname, or "User N" once the sender is gone.
pub open spec fn outbound_for(msg: BroadcastMessage, self_id: u16, m: Map<u16, Session>) -> OutboundModel {
    match msg {
        BroadcastMessage::ServerShutdown => OutboundModel::Close,
        BroadcastMessage::UserJoined { user_id, nickname } => if user_id == self_id {
            OutboundModel::Skip
        } else {
            OutboundModel::Send(
                push_model(
                    TransactionType::NotifyChangeUser,
                    seq![
                        FieldModel {
                            id: FieldId::UserNameWithInfo,
                            value: FieldValue::Bytes(
                                user_info_bytes(
                                    user_id,
                                    if m.contains_key(user_id) {
                                        m[user_id].icon_id
                                    } else {
                                        0
                                    },
                                    if m.contains_key(user_id) {
                                        m[user_id].flags
                                    } else {
                                        0
                                    },
                                    nickname@,
                                ),
                            ),
                        },
                    ],
                ),
            )
        },
        BroadcastMessage::UserLeft { user_id } => if user_id == self_id {
            OutboundModel::Close
        } else {
            OutboundModel::Send(
                push_model(
                    TransactionType::NotifyDeleteUser,
                    seq![FieldModel { id: FieldId::UserId, value: FieldValue::Integer(user_id as i32) }],
                ),
            )
        },
        BroadcastMessage::ServerMessage { message } => OutboundModel::Send(
            push_model(
                TransactionType::ServerMessage,
                seq![FieldModel { id: FieldId::Data, value: FieldValue::Text(message@) }],
            ),
        ),
        BroadcastMessage::ChatMessage { sender_id, message, is_emote } => {
            let name = if m.contains_key(sender_id) {
                m[sender_id].nickname@
            } else {
                absent_sender_name(sender_id)
            };
            OutboundModel::Send(
                push_model(
                    TransactionType::ChatMessage,
                    seq![
                        FieldModel {
                            id: FieldId::Data,
                            value: FieldValue::Bytes(encode_utf8(chat_line(name, lossy_of(message@), is_emote))),
                        },
                        FieldModel { id: FieldId::UserId, value: FieldValue::Integer(sender_id as i32) },
                        FieldModel { id: FieldId::UserName, value: FieldValue::Text(name) },
                    ],
                ),
            )
        },
    }
}

impl BroadcastMessage {
    /// What the connection of user `self_id` does with this event, reading
    /// nicknames, icons and flags from `registry`.
    pub fn to_outbound(&self, self_id: u16, registry: &SessionRegistry) -> (r: Outbound)
        requires
            registry.wf(),
        ensures
            r@ == outbound_for(*self, self_id, registry@),
    {
        match self {
            BroadcastMessage::ServerShutdown => Outbound::Close,
            BroadcastMessage::UserJoined { user_id, nickname } => {
                if *user_id == self_id {
                    return Outbound::Skip;
                }
                let (icon_id, flags) = match registry.get_session(*user_id) {
                    Some(s) => (s.icon_id, s.flags),
                    None => (0u16, 0u16),
                };
                let info = user_info(*user_id, icon_id, flags, nickname.as_str());
                let mut fields: Vec<Field> = Vec::new();
                fields.push(Field::binary(FieldId::UserNameWithInfo, info));
                let t = create_server_transaction(TransactionType::NotifyChangeUser, fields);
                assert(t@.fields =~= seq![fields@[0]@]);
                Outbound::Send(t)
            },
            BroadcastMessage::UserLeft { user_id } => {
                if *user_id == self_id {
                    return Outbound::Close;
                }
                let mut fields: Vec<Field> = Vec::new();
                fields.push(Field::integer(FieldId::UserId, *user_id as i32));
                let t = create_server_transaction(TransactionType::NotifyDeleteUser, fields);
                assert(t@.fields =~= seq![fields@[0]@]);
                Outbound::Send(t)
            },
            BroadcastMessage::ServerMessage { message } => {
                let mut fields: Vec<Field> = Vec::new();
                let text = <String as StringExecFns>::from_str(message.as_str());
                fields.push(Field::string(FieldId::Data, text));
                let t = create_server_transaction(TransactionType::ServerMessage, fields);
                assert(t@.fields =~= seq![fields@[0]@]);
                Outbound::Send(t)
            },
            BroadcastMessage::ChatMessage { sender_id, message, is_emote } => {
                let name = match registry.get_session(*sender_id) {
                    Some(s) => <String as StringExecFns>::from_str(s.nickname.as_str()),
                    None => {
                        let digits = decimal_text(*sender_id as u64);
                        let mut n = <String as StringExecFns>::from_str("User ");
                        n.append(digits.as_str());
                        n
                    },
                };
                let data = format_chat_message(name.as_str(), message.as_slice(), *is_emote);
                let mut fields: Vec<Field> = Vec::new();
                fields.push(Field::binary(FieldId::Data, data));
                fields.push(Field::integer(FieldId::UserId, *sender_id as i32));
                fields.push(Field::string(FieldId::UserName, name));
                let t = create_server_transaction(TransactionType::ChatMessage, fields);
                assert(t@.fields =~= seq![fields@[0]@, fields@[1]@, fields@[2]@]);
                Outbound::Send(t)
            },
        }
    }
}

/// What a connection receives from the broadcast hub.
#[derive(Debug)]
pub enum HubEvent {
    /// An event.
    Message(BroadcastMessage),
    /// This many events were dropped because the connection fell behind.
    Lagged(u64),
    /// The hub has closed.
    Closed,
}

/// What a connection does with what the hub delivered: events become frames
/// as [`BroadcastMessage::to_outbound`] says; a notice of dropped events is
/// passed over; a closed hub ends the connection.
pub fn on_hub_event(event: &HubEvent, self_id: u16, registry: &SessionRegistry) -> (r: Outbound)
    requires
        registry.wf(),
    ensures
        match event {
            HubEvent::Message(m) => r@ == outbound_for(*m, self_id, registry@),
            HubEvent::Lagged(_) => r is Skip,
            HubEvent::Closed => r is Close,
        },
{
    match event {
        HubEvent::Message(m) => m.to_outbound(self_id, registry),
        HubEvent::Lagged(_) => Outbound::Skip,
        HubEvent::Closed => Outbound::Close,
    }
}

/// A chat line reaches every connection, the sender's own included, as a
/// push naming the sender.
pub proof fn lemma_chat_reaches_every_connection(
    sender_id: u16,
    message: Vec<u8>,
    is_emote: bool,
    self_id: u16,
    m: Map<u16, Session>,
)
    ensures
        outbound_for(BroadcastMessage::ChatMessage { sender_id, message, is_emote }, self_id, m) is Send,
        outbound_for(BroadcastMessage::ChatMessage { sender_id, message, is_emote }, self_id, m)->Send_0.fields[1]
            == (FieldModel { id: FieldId::UserId, value: FieldValue::Integer(sender_id as i32) }),
{
}

/// Every other connection is told of a departure by a `NotifyDeleteUser`
/// push carrying the departed user's id.
pub proof fn lemma_departure_reaches_others(user_id: u16, self_id: u16, m: Map<u16, Session>)
    requires
        user_id != self_id,
    ensures
        outbound_for(BroadcastMessage::UserLeft { user_id }, self_id, m) == OutboundModel::Send(
            push_model(
                TransactionType::NotifyDeleteUser,
                seq![FieldModel { id: FieldId::UserId, value: FieldValue::Integer(user_id as i32) }],
            ),
        ),
{
}

/// The users a peer knows to be online after one more event: a join adds
/// the user, a departure removes it.
pub open spec fn apply_event(roster: Set<u16>, event: BroadcastMessage) -> Set<u16> {
    match event {
        BroadcastMessage::UserJoined { user_id, .. } => roster.insert(user_id),
        BroadcastMessage::UserLeft { user_id } => roster.remove(user_id),
        _ => roster,
    }
}

/// The users that a peer knows to be online after the events delivered to
/// it, in order.
pub open spec fn roster_after(events: Seq<BroadcastMessage>) -> Set<u16>
    decreases events.len(),
{
    if events.len() == 0 {
        Set::empty()
    } else {
        apply_event(roster_after(events.drop_last()), events.last())
    }
}

/// The number of joins among the events.
pub open spec fn joins(events: Seq<BroadcastMessage>) -> nat
    decreases events.len(),
{
    if events.len() == 0 {
        0
    } else {
        joins(events.drop_last()) + if events.last() is UserJoined {
            1nat
        } else {
            0nat
        }
    }
}

/// The number of departures among the events.
pub open spec fn departures(events: Seq<BroadcastMessage>) -> nat
    decreases events.len(),
{
    if events.len() == 0 {
        0
    } else {
        departures(events.drop_last()) + if events.last() is UserLeft {
            1nat
        } else {
            0nat
        }
    }
}

/// Every join is of a user not yet online and every departure of a user
/// online, counting from the start of the events.
pub open spec fn well_paired(events: Seq<BroadcastMessage>) -> bool
    decreases events.len(),
{
    if events.len() == 0 {
        true
    } else {
        let r = roster_after(events.drop_last());
        &&& well_paired(events.drop_last())
        &&& match events.last() {
            BroadcastMessage::UserJoined { user_id, .. } => !r.contains(user_id),
            BroadcastMessage::UserLeft { user_id } => r.contains(user_id),
            _ => true,
        }
    }
}

/// For a well-paired run of delivered events, the number of users that a
/// peer knows to be online is the number of joins minus the number of
/// departures.
pub proof fn lemma_roster_counts_joins_minus_departures(events: Seq<BroadcastMessage>)
    requires
        well_paired(events),
    ensures
        roster_after(events).finite(),
        roster_after(events).len() + departures(events) == joins(events),
    decreases events.len(),
{
    if events.len() > 0 {
        let prefix = events.drop_last();
        lemma_roster_counts_joins_minus_departures(prefix);
        let r = roster_after(prefix);
        match events.last() {
            BroadcastMessage::UserJoined { user_id, .. } => {
                assert(r.insert(user_id).len() == r.len() + 1);
            },
            BroadcastMessage::UserLeft { user_id } => {
                assert(r.remove(user_id).len() == r.len() - 1);
            },
            _ => {},
        }
    }
}

} // verus!
