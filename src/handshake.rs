//! The fixed-size handshake that opens a connection.
use vstd::prelude::*;
use crate::error::ProtocolError;
use crate::wire::{be16, be32, get_u16, get_u32, put_u16, put_u32, read16, read32};

verus! {

/// The protocol magic, "TRTP".
pub open spec fn magic() -> Seq<u8> {
    seq![0x54u8, 0x52u8, 0x54u8, 0x50u8]
}

/// The protocol magic, "TRTP", as bytes.
pub const PROTOCOL_MAGIC: [u8; 4] = [0x54, 0x52, 0x54, 0x50];

/// The magic of file-transfer connections, "HTXF".
pub const HTXF_MAGIC: [u8; 4] = [0x48, 0x54, 0x58, 0x46];

/// The default TCP port of the server.
pub const DEFAULT_PORT: u16 = 5500;

/// The default TCP port of a tracker.
pub const DEFAULT_TRACKER_PORT: u16 = 5498;

/// Largest chat message, in bytes.
pub const MAX_CHAT_SIZE: usize = 8192;

/// Largest user name, in bytes.
pub const MAX_USERNAME_SIZE: usize = 31;

/// Largest login, in bytes.
pub const MAX_LOGIN_SIZE: usize = 31;

/// Largest password, in bytes.
pub const MAX_PASSWORD_SIZE: usize = 31;

/// Largest file path, in bytes.
pub const MAX_PATH_SIZE: usize = 2048;

/// The protocol version that this server speaks.
pub const PROTOCOL_VERSION: u16 = 1;

/// The version that this server reports to clients.
pub const SERVER_VERSION: u16 = 197;

/// Handshake reply code: the magic is not "TRTP".
pub const HANDSHAKE_BAD_MAGIC: u32 = 1;

/// Handshake reply code: the version is not supported.
pub const HANDSHAKE_BAD_VERSION: u32 = 2;

/// Length of the client's handshake.
pub const HANDSHAKE_SIZE: usize = 12;

/// Length of the server's handshake reply.
pub const HANDSHAKE_REPLY_SIZE: usize = 8;

fn protocol_magic() -> (r: [u8; 4])
    ensures
        r@ == magic(),
{
    let r = [0x54u8, 0x52u8, 0x54u8, 0x50u8];
    assert(r@ =~= magic());
    r
}

/// The client's 12-byte handshake.
#[derive(Clone, Debug)]
pub struct Handshake {
    pub protocol_id: [u8; 4],
    pub sub_protocol_id: u32,
    pub version: u16,
    pub sub_version: u16,
}

impl Handshake {
    /// The handshake that a client of version 1, sub-version 2 sends.
    pub fn new() -> (r: Self)
        ensures
            r.protocol_id@ == magic(),
            r.sub_protocol_id == 0,
            r.version == 1,
            r.sub_version == 2,
    {
        Handshake { protocol_id: protocol_magic(), sub_protocol_id: 0, version: 1, sub_version: 2 }
    }

    /// Reads a handshake from the start of `buf`.
    pub fn from_bytes(buf: &[u8]) -> (r: Result<Self, ProtocolError>)
        ensures
            buf@.len() < 12 ==> r is Err && r == Err::<Self, ProtocolError>(
                ProtocolError::UnexpectedEof,
            ),
            buf@.len() >= 12 ==> (r matches Ok(h) && h.protocol_id@ == buf@.subrange(0, 4)
                && h.sub_protocol_id == read32(buf@, 4) && h.version == read16(buf@, 8)
                && h.sub_version == read16(buf@, 10)),
    {
        if buf.len() < HANDSHAKE_SIZE {
            return Err(ProtocolError::UnexpectedEof);
        }
        let protocol_id = [buf[0], buf[1], buf[2], buf[3]];
        assert(protocol_id@ =~= buf@.subrange(0, 4));
        Ok(
            Handshake {
                protocol_id,
                sub_protocol_id: get_u32(buf, 4),
                version: get_u16(buf, 8),
                sub_version: get_u16(buf, 10),
            },
        )
    }

    /// Appends the 12 handshake bytes to `buf`.
    pub fn to_bytes(&self, buf: &mut Vec<u8>)
        ensures
            final(buf)@ == old(buf)@ + self.protocol_id@ + be32(self.sub_protocol_id) + be16(
                self.version,
            ) + be16(self.sub_version),
    {
        buf.push(self.protocol_id[0]);
        buf.push(self.protocol_id[1]);
        buf.push(self.protocol_id[2]);
        buf.push(self.protocol_id[3]);
        put_u32(buf, self.sub_protocol_id);
        put_u16(buf, self.version);
        put_u16(buf, self.sub_version);
        assert(final(buf)@ =~= old(buf)@ + self.protocol_id@ + be32(self.sub_protocol_id) + be16(
            self.version,
        ) + be16(self.sub_version));
    }

    /// Whether the magic is "TRTP".
    pub fn is_valid(&self) -> (r: bool)
        ensures
            r == (self.protocol_id@ == magic()),
    {
        let r = self.protocol_id[0] == 0x54 && self.protocol_id[1] == 0x52 && self.protocol_id[2]
            == 0x54 && self.protocol_id[3] == 0x50;
        assert(r ==> self.protocol_id@ =~= magic());
        r
    }
}

impl Default for Handshake {
    fn default() -> (r: Self)
        ensures
            r.protocol_id@ == magic(),
            r.sub_protocol_id == 0,
            r.version == 1,
            r.sub_version == 2,
    {
        Self::new()
    }
}

/// The server's 8-byte handshake reply.
#[derive(Clone, Debug)]
pub struct HandshakeReply {
    pub protocol_id: [u8; 4],
    pub error_code: u32,
}

/// The error code that answers a handshake: 1 for a wrong magic, 2 for a
/// version other than 1, 0 when it is accepted.
pub open spec fn handshake_error(protocol_id: Seq<u8>, version: u16) -> u32 {
    if protocol_id != magic() {
        1
    } else if version != 1 {
        2
    } else {
        0
    }
}

impl HandshakeReply {
    /// The reply that accepts a handshake.
    pub fn new() -> (r: Self)
        ensures
            r.protocol_id@ == magic(),
            r.error_code == 0,
    {
        HandshakeReply { protocol_id: protocol_magic(), error_code: 0 }
    }

    /// The reply that refuses a handshake with `code`.
    pub fn error(code: u32) -> (r: Self)
        ensures
            r.protocol_id@ == magic(),
            r.error_code == code,
    {
        HandshakeReply { protocol_id: protocol_magic(), error_code: code }
    }

    /// Reads a reply from the start of `buf`.
    pub fn from_bytes(buf: &[u8]) -> (r: Result<Self, ProtocolError>)
        ensures
            buf@.len() < 8 ==> r == Err::<Self, ProtocolError>(ProtocolError::UnexpectedEof),
            buf@.len() >= 8 ==> (r matches Ok(h) && h.protocol_id@ == buf@.subrange(0, 4)
                && h.error_code == read32(buf@, 4)),
    {
        if buf.len() < HANDSHAKE_REPLY_SIZE {
            return Err(ProtocolError::UnexpectedEof);
        }
        let protocol_id = [buf[0], buf[1], buf[2], buf[3]];
        assert(protocol_id@ =~= buf@.subrange(0, 4));
        Ok(HandshakeReply { protocol_id, error_code: get_u32(buf, 4) })
    }

    /// Appends the 8 reply bytes to `buf`.
    pub fn to_bytes(&self, buf: &mut Vec<u8>)
        ensures
            final(buf)@ == old(buf)@ + self.protocol_id@ + be32(self.error_code),
    {
        buf.push(self.protocol_id[0]);
        buf.push(self.protocol_id[1]);
        buf.push(self.protocol_id[2]);
        buf.push(self.protocol_id[3]);
        put_u32(buf, self.error_code);
        assert(final(buf)@ =~= old(buf)@ + self.protocol_id@ + be32(self.error_code));
    }

    /// Whether the handshake was accepted.
    pub fn is_success(&self) -> (r: bool)
        ensures
            r == (self.error_code == 0),
    {
        self.error_code == 0
    }

    /// The reply that answers `h`: the magic is checked first, then the version.
    pub fn answer(h: &Handshake) -> (r: Self)
        ensures
            r.protocol_id@ == magic(),
            r.error_code == handshake_error(h.protocol_id@, h.version),
    {
        if !h.is_valid() {
            Self::error(HANDSHAKE_BAD_MAGIC)
        } else if h.version != PROTOCOL_VERSION {
            Self::error(HANDSHAKE_BAD_VERSION)
        } else {
            Self::new()
        }
    }
}

impl Default for HandshakeReply {
    fn default() -> (r: Self)
        ensures
            r.protocol_id@ == magic(),
            r.error_code == 0,
    {
        Self::new()
    }
}

/// The 8 bytes that answer the 12 bytes a client sent to open the connection.
pub fn handshake_reply_bytes(client: &[u8]) -> (r: Vec<u8>)
    requires
        client@.len() >= 12,
    ensures
        r@ == magic() + be32(handshake_error(client@.subrange(0, 4), read16(client@, 8))),
{
    let mut out: Vec<u8> = Vec::new();
    match Handshake::from_bytes(client) {
        Ok(h) => {
            let reply = HandshakeReply::answer(&h);
            reply.to_bytes(&mut out);
            assert(out@ =~= magic() + be32(handshake_error(client@.subrange(0, 4), read16(client@, 8))));
        },
        Err(_) => {},
    }
    out
}

} // verus!
