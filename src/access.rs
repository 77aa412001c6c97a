//! The 64-bit access-privilege mask and its legacy wire form.
use vstd::prelude::*;
use crate::text::{lowercase, text_eq, lowercase_of};

verus! {

/// Every privilege bit that has a meaning (bits 0 to 49).
pub const ALL_PRIVILEGE_BITS: u64 = 0x0003_ffff_ffff_ffff;

/// Bit `i` of a byte moved to bit `7 - i`.
pub open spec fn reverse_byte(b: u8) -> u8 {
    ((b & 1) << 7u8) | ((b & 2) << 5u8) | ((b & 4) << 3u8) | ((b & 8) << 1u8) | ((b & 16) >> 1u8)
        | ((b & 32) >> 3u8) | ((b & 64) >> 5u8) | ((b & 128) >> 7u8)
}

/// Byte `i` (0 = least significant) of a 64-bit value.
pub open spec fn byte_of(m: u64, i: int) -> u8 {
    ((m >> ((8 * i) as u64)) & 0xff) as u8
}

/// The 8-byte wire form of a mask. A little-endian host sends the
/// little-endian bytes with each byte bit-reversed; a big-endian host sends
/// the big-endian bytes unchanged.
pub open spec fn wire_of(m: u64, little_endian: bool) -> Seq<u8> {
    Seq::new(
        8,
        |i: int|
            if little_endian {
                reverse_byte(byte_of(m, i))
            } else {
                byte_of(m, 7 - i)
            },
    )
}

/// A 64-bit value from its bytes, least significant first.
pub open spec fn from_le(b: Seq<u8>) -> u64 {
    (b[0] as u64) | ((b[1] as u64) << 8u64) | ((b[2] as u64) << 16u64) | ((b[3] as u64) << 24u64)
        | ((b[4] as u64) << 32u64) | ((b[5] as u64) << 40u64) | ((b[6] as u64) << 48u64) | ((
    b[7] as u64) << 56u64)
}

/// The mask that an 8-byte wire form stands for, before unknown bits are dropped.
pub open spec fn mask_of_wire(w: Seq<u8>, little_endian: bool) -> u64 {
    if little_endian {
        from_le(Seq::new(8, |i: int| reverse_byte(w[i])))
    } else {
        from_le(Seq::new(8, |i: int| w[7 - i]))
    }
}

fn reverse_bits_of(b: u8) -> (r: u8)
    ensures
        r == reverse_byte(b),
{
    ((b & 1) << 7u8) | ((b & 2) << 5u8) | ((b & 4) << 3u8) | ((b & 8) << 1u8) | ((b & 16) >> 1u8)
        | ((b & 32) >> 3u8) | ((b & 64) >> 5u8) | ((b & 128) >> 7u8)
}

fn low_byte(m: u64, i: u64) -> (r: u8)
    requires
        i < 8,
    ensures
        r == byte_of(m, i as int),
{
    ((m >> (8 * i)) & 0xff) as u8
}

proof fn lemma_reverse_byte_involutive(b: u8)
    ensures
        reverse_byte(reverse_byte(b)) == b,
{
    let r = reverse_byte(b);
    assert(((r & 1) << 7u8) | ((r & 2) << 5u8) | ((r & 4) << 3u8) | ((r & 8) << 1u8) | ((r & 16)
        >> 1u8) | ((r & 32) >> 3u8) | ((r & 64) >> 5u8) | ((r & 128) >> 7u8) == b) by (bit_vector)
        requires
            r == ((b & 1) << 7u8) | ((b & 2) << 5u8) | ((b & 4) << 3u8) | ((b & 8) << 1u8) | ((b
                & 16) >> 1u8) | ((b & 32) >> 3u8) | ((b & 64) >> 5u8) | ((b & 128) >> 7u8),
    ;
}

proof fn lemma_from_le_bytes_of(m: u64)
    ensures
        from_le(Seq::new(8, |i: int| byte_of(m, i))) == m,
{
    let s = Seq::new(8, |i: int| byte_of(m, i));
    let (b0, b1, b2, b3, b4, b5, b6, b7) = (s[0], s[1], s[2], s[3], s[4], s[5], s[6], s[7]);
    assert(b0 == ((m >> 0u64) & 0xff) as u8);
    assert(b7 == ((m >> 56u64) & 0xff) as u8);
    assert((b0 as u64) | ((b1 as u64) << 8u64) | ((b2 as u64) << 16u64) | ((b3 as u64) << 24u64)
        | ((b4 as u64) << 32u64) | ((b5 as u64) << 40u64) | ((b6 as u64) << 48u64) | ((b7 as u64)
        << 56u64) == m) by (bit_vector)
        requires
            b0 == ((m >> 0u64) & 0xff) as u8,
            b1 == ((m >> 8u64) & 0xff) as u8,
            b2 == ((m >> 16u64) & 0xff) as u8,
            b3 == ((m >> 24u64) & 0xff) as u8,
            b4 == ((m >> 32u64) & 0xff) as u8,
            b5 == ((m >> 40u64) & 0xff) as u8,
            b6 == ((m >> 48u64) & 0xff) as u8,
            b7 == ((m >> 56u64) & 0xff) as u8,
    ;
}

/// Decoding the wire form of any 64-bit mask gives the mask back, for either
/// byte order of the host.
pub proof fn lemma_wire_round_trip(m: u64, little_endian: bool)
    ensures
        mask_of_wire(wire_of(m, little_endian), little_endian) == m,
{
    let w = wire_of(m, little_endian);
    let s = Seq::new(8, |i: int| byte_of(m, i));
    if little_endian {
        assert forall|i: int| 0 <= i < 8 implies reverse_byte(w[i]) == s[i] by {
            lemma_reverse_byte_involutive(byte_of(m, i));
        }
        assert(Seq::new(8, |i: int| reverse_byte(w[i])) =~= s);
    } else {
        assert(Seq::new(8, |i: int| w[7 - i]) =~= s);
    }
    lemma_from_le_bytes_of(m);
}

/// A set of access privileges. Only bits 0 to 49 can be set.
#[derive(Clone, Copy, Debug, PartialEq, Eq, Structural)]
pub struct AccessPrivileges {
    bits: u64,
}

impl AccessPrivileges {
    pub const DELETE_FILES: u64 = 1 << 0;
    pub const UPLOAD_FILES: u64 = 1 << 1;
    pub const DOWNLOAD_FILES: u64 = 1 << 2;
    pub const RENAME_FILES: u64 = 1 << 3;
    pub const MOVE_FILES: u64 = 1 << 4;
    pub const CREATE_FOLDERS: u64 = 1 << 5;
    pub const DELETE_FOLDERS: u64 = 1 << 6;
    pub const RENAME_FOLDERS: u64 = 1 << 7;
    pub const MOVE_FOLDERS: u64 = 1 << 8;
    pub const READ_CHAT: u64 = 1 << 9;
    pub const SEND_CHAT: u64 = 1 << 10;
    pub const CREATE_PRIVATE_CHAT: u64 = 1 << 11;
    pub const CLOSE_CHAT: u64 = 1 << 12;
    pub const SHOW_IN_LIST: u64 = 1 << 13;
    pub const CREATE_USERS: u64 = 1 << 14;
    pub const DELETE_USERS: u64 = 1 << 15;
    pub const OPEN_USER: u64 = 1 << 16;
    pub const MODIFY_USERS: u64 = 1 << 17;
    pub const CHANGE_OWN_PASSWORD: u64 = 1 << 18;
    pub const SEND_PRIVATE_MESSAGES: u64 = 1 << 19;
    pub const READ_NEWS: u64 = 1 << 20;
    pub const POST_NEWS: u64 = 1 << 21;
    pub const DISCONNECT_USERS: u64 = 1 << 22;
    pub const CANT_BE_DISCONNECTED: u64 = 1 << 23;
    pub const GET_USER_INFO: u64 = 1 << 24;
    pub const UPLOAD_ANYWHERE: u64 = 1 << 25;
    pub const ANY_NAME: u64 = 1 << 26;
    pub const NO_AGREEMENT: u64 = 1 << 27;
    pub const SET_FILE_COMMENT: u64 = 1 << 28;
    pub const SET_FOLDER_COMMENT: u64 = 1 << 29;
    pub const VIEW_DROP_BOXES: u64 = 1 << 30;
    pub const MAKE_ALIASES: u64 = 1 << 31;
    pub const BROADCAST: u64 = 1 << 32;
    pub const DELETE_NEWS: u64 = 1 << 33;
    pub const CREATE_NEWS_CATEGORY: u64 = 1 << 34;
    pub const DELETE_NEWS_CATEGORY: u64 = 1 << 35;
    pub const CREATE_NEWS_BUNDLE: u64 = 1 << 36;
    pub const DELETE_NEWS_BUNDLE: u64 = 1 << 37;
    pub const UPLOAD_FOLDERS: u64 = 1 << 38;
    pub const DOWNLOAD_FOLDERS: u64 = 1 << 39;
    pub const SEND_MESSAGES: u64 = 1 << 40;
    pub const FAKE_RED: u64 = 1 << 41;
    pub const AWAY: u64 = 1 << 42;
    pub const CHANGE_NICK: u64 = 1 << 43;
    pub const CHANGE_ICON: u64 = 1 << 44;
    pub const SPEAK_BEFORE: u64 = 1 << 45;
    pub const REFUSE_CHAT: u64 = 1 << 46;
    pub const BLOCK_DOWNLOAD: u64 = 1 << 47;
    pub const VISIBLE: u64 = 1 << 48;
    pub const CAN_VIEW_INVISIBLE: u64 = 1 << 49;

    pub closed spec fn view(&self) -> u64 {
        self.bits
    }

    /// Only the defined privilege bits are set.
    pub closed spec fn wf(&self) -> bool {
        self.bits & !ALL_PRIVILEGE_BITS == 0
    }

    /// The privileges whose bits are set in `bits`; undefined bits are dropped.
    pub fn from_bits_truncate(bits: u64) -> (r: Self)
        ensures
            r@ == bits & ALL_PRIVILEGE_BITS,
            r.wf(),
    {
        let b = bits & ALL_PRIVILEGE_BITS;
        assert(b & !ALL_PRIVILEGE_BITS == 0) by (bit_vector)
            requires
                b == bits & ALL_PRIVILEGE_BITS,
        ;
        AccessPrivileges { bits: b }
    }

    pub fn bits(&self) -> (r: u64)
        ensures
            r == self@,
    {
        self.bits
    }

    /// True when every bit of `flags` is set here.
    pub fn contains(&self, flags: u64) -> (r: bool)
        ensures
            r == (self@ & flags == flags),
    {
        self.bits & flags == flags
    }

    /// All privileges, including immunity from being disconnected.
    pub fn sysop() -> (r: Self)
        ensures
            r@ == ALL_PRIVILEGE_BITS,
            r.wf(),
    {
        assert(ALL_PRIVILEGE_BITS & ALL_PRIVILEGE_BITS == ALL_PRIVILEGE_BITS) by (bit_vector);
        Self::from_bits_truncate(ALL_PRIVILEGE_BITS)
    }

    /// All privileges but immunity from being disconnected.
    pub fn admin() -> (r: Self)
        ensures
            r@ == ALL_PRIVILEGE_BITS & !Self::CANT_BE_DISCONNECTED,
            r.wf(),
    {
        assert((ALL_PRIVILEGE_BITS & !Self::CANT_BE_DISCONNECTED) & ALL_PRIVILEGE_BITS
            == ALL_PRIVILEGE_BITS & !Self::CANT_BE_DISCONNECTED) by (bit_vector);
        Self::from_bits_truncate(ALL_PRIVILEGE_BITS & !Self::CANT_BE_DISCONNECTED)
    }

    /// The guest preset as a value.
    pub closed spec fn guest_preset() -> Self {
        AccessPrivileges { bits: guest_bits() }
    }

    /// Read and send chat, read news, download files.
    pub fn guest() -> (r: Self)
        ensures
            r@ == Self::READ_CHAT | Self::SEND_CHAT | Self::READ_NEWS | Self::DOWNLOAD_FILES,
            r.wf(),
            r == Self::guest_preset(),
    {
        assert(guest_bits() & ALL_PRIVILEGE_BITS == guest_bits()) by (bit_vector);
        Self::from_bits_truncate(
            Self::READ_CHAT | Self::SEND_CHAT | Self::READ_NEWS | Self::DOWNLOAD_FILES,
        )
    }

    /// Chat, private chat and messages, news reading, file up- and download.
    pub fn user() -> (r: Self)
        ensures
            r@ == user_bits(),
            r.wf(),
    {
        assert(user_bits() & ALL_PRIVILEGE_BITS == user_bits()) by (bit_vector);
        Self::from_bits_truncate(
            Self::READ_CHAT | Self::SEND_CHAT | Self::CREATE_PRIVATE_CHAT | Self::READ_NEWS
                | Self::DOWNLOAD_FILES | Self::UPLOAD_FILES | Self::SEND_MESSAGES
                | Self::SEND_PRIVATE_MESSAGES,
        )
    }

    /// The preset named by an already lower-cased name.
    pub fn preset_from_lowercase(name: &str) -> (r: Option<Self>)
        ensures
            r matches Some(p) ==> p.wf(),
            r.is_some() == preset_bits(name@).is_some(),
            r matches Some(p) ==> preset_bits(name@) == Some(p@),
    {
        if text_eq(name, "sysop") {
            Some(Self::sysop())
        } else if text_eq(name, "admin") {
            Some(Self::admin())
        } else if text_eq(name, "user") {
            Some(Self::user())
        } else if text_eq(name, "guest") {
            Some(Self::guest())
        } else {
            None
        }
    }

    /// The preset named by `name`, compared without regard to case.
    pub fn from_preset(name: &str) -> (r: Option<Self>)
        ensures
            r matches Some(p) ==> p.wf(),
            r.is_some() == preset_bits(lowercase_of(name@)).is_some(),
            r matches Some(p) ==> preset_bits(lowercase_of(name@)) == Some(p@),
    {
        let lower = lowercase(name);
        Self::preset_from_lowercase(lower.as_str())
    }

    /// The name of the preset that equals these privileges exactly, if any.
    pub fn preset_name(&self) -> (r: Option<&'static str>)
        ensures
            r.is_some() == preset_name_of(self@).is_some(),
            r matches Some(s) ==> preset_name_of(self@) == Some(s@),
    {
        if self.bits == ALL_PRIVILEGE_BITS {
            Some("sysop")
        } else if self.bits == ALL_PRIVILEGE_BITS & !Self::CANT_BE_DISCONNECTED {
            Some("admin")
        } else if self.bits == Self::user().bits {
            Some("user")
        } else if self.bits == Self::guest().bits {
            Some("guest")
        } else {
            None
        }
    }

    /// The wire form for a host of the given byte order.
    pub fn to_wire_format_for(&self, little_endian: bool) -> (r: [u8; 8])
        ensures
            r@ == wire_of(self@, little_endian),
    {
        let m = self.bits;
        let r = if little_endian {
            [
                reverse_bits_of(low_byte(m, 0)),
                reverse_bits_of(low_byte(m, 1)),
                reverse_bits_of(low_byte(m, 2)),
                reverse_bits_of(low_byte(m, 3)),
                reverse_bits_of(low_byte(m, 4)),
                reverse_bits_of(low_byte(m, 5)),
                reverse_bits_of(low_byte(m, 6)),
                reverse_bits_of(low_byte(m, 7)),
            ]
        } else {
            [
                low_byte(m, 7),
                low_byte(m, 6),
                low_byte(m, 5),
                low_byte(m, 4),
                low_byte(m, 3),
                low_byte(m, 2),
                low_byte(m, 1),
                low_byte(m, 0),
            ]
        };
        assert(r@ =~= wire_of(self@, little_endian));
        r
    }

    /// The privileges that a wire form from a host of the given byte order
    /// stands for; undefined bits are dropped.
    pub fn from_wire_format_for(bytes: [u8; 8], little_endian: bool) -> (r: Self)
        ensures
            r@ == mask_of_wire(bytes@, little_endian) & ALL_PRIVILEGE_BITS,
            r.wf(),
    {
        let s: [u8; 8] = if little_endian {
            [
                reverse_bits_of(bytes[0]),
                reverse_bits_of(bytes[1]),
                reverse_bits_of(bytes[2]),
                reverse_bits_of(bytes[3]),
                reverse_bits_of(bytes[4]),
                reverse_bits_of(bytes[5]),
                reverse_bits_of(bytes[6]),
                reverse_bits_of(bytes[7]),
            ]
        } else {
            [bytes[7], bytes[6], bytes[5], bytes[4], bytes[3], bytes[2], bytes[1], bytes[0]]
        };
        let m = (s[0] as u64) | ((s[1] as u64) << 8u64) | ((s[2] as u64) << 16u64) | ((
        s[3] as u64) << 24u64) | ((s[4] as u64) << 32u64) | ((s[5] as u64) << 40u64) | ((
        s[6] as u64) << 48u64) | ((s[7] as u64) << 56u64);
        proof {
            if little_endian {
                assert(s@ =~= Seq::new(8, |i: int| reverse_byte(bytes@[i])));
            } else {
                assert(s@ =~= Seq::new(8, |i: int| bytes@[7 - i]));
            }
        }
        Self::from_bits_truncate(m)
    }

    /// The wire form on this host.
    pub fn to_wire_format(&self) -> (r: [u8; 8])
        ensures
            r@ == wire_of(self@, true) || r@ == wire_of(self@, false),
    {
        self.to_wire_format_for(host_is_little_endian())
    }

    /// The privileges that a wire form from this host stands for.
    pub fn from_wire_format(bytes: [u8; 8]) -> (r: Self)
        ensures
            r@ == mask_of_wire(bytes@, true) & ALL_PRIVILEGE_BITS || r@ == mask_of_wire(
                bytes@,
                false,
            ) & ALL_PRIVILEGE_BITS,
            r.wf(),
    {
        Self::from_wire_format_for(bytes, host_is_little_endian())
    }
}

impl Default for AccessPrivileges {
    /// The regular user preset.
    fn default() -> (r: Self)
        ensures
            r@ == user_bits(),
    {
        Self::user()
    }
}

pub open spec fn user_bits() -> u64 {
    AccessPrivileges::READ_CHAT | AccessPrivileges::SEND_CHAT | AccessPrivileges::CREATE_PRIVATE_CHAT
        | AccessPrivileges::READ_NEWS | AccessPrivileges::DOWNLOAD_FILES
        | AccessPrivileges::UPLOAD_FILES | AccessPrivileges::SEND_MESSAGES
        | AccessPrivileges::SEND_PRIVATE_MESSAGES
}

pub open spec fn guest_bits() -> u64 {
    AccessPrivileges::READ_CHAT | AccessPrivileges::SEND_CHAT | AccessPrivileges::READ_NEWS
        | AccessPrivileges::DOWNLOAD_FILES
}

/// The mask of each named preset.
pub open spec fn preset_bits(name: Seq<char>) -> Option<u64> {
    if name == "sysop"@ {
        Some(ALL_PRIVILEGE_BITS)
    } else if name == "admin"@ {
        Some(ALL_PRIVILEGE_BITS & !AccessPrivileges::CANT_BE_DISCONNECTED)
    } else if name == "user"@ {
        Some(user_bits())
    } else if name == "guest"@ {
        Some(guest_bits())
    } else {
        None
    }
}

/// The preset, if any, whose mask is exactly `m` (tried in the order sysop,
/// admin, user, guest).
pub open spec fn preset_name_of(m: u64) -> Option<Seq<char>> {
    if m == ALL_PRIVILEGE_BITS {
        Some("sysop"@)
    } else if m == ALL_PRIVILEGE_BITS & !AccessPrivileges::CANT_BE_DISCONNECTED {
        Some("admin"@)
    } else if m == user_bits() {
        Some("user"@)
    } else if m == guest_bits() {
        Some("guest"@)
    } else {
        None
    }
}

/// Relies on `u16::to_ne_bytes`: the two bytes of a value in the host's byte
/// order, which is one of the two orders.
#[verifier::external_body]
fn native_bytes(v: u16) -> (r: [u8; 2])
    ensures
        r@ == seq![(v & 0xff) as u8, (v >> 8u16) as u8] || r@ == seq![(v >> 8u16) as u8, (v & 0xff) as u8],
{
    v.to_ne_bytes()
}

/// Whether this host stores integers least significant byte first.
pub fn host_is_little_endian() -> (r: bool) {
    let b = native_bytes(1);
    b[0] == 1
}

/// The privileges that a wire form stands for are the encoded ones, on every
/// well-formed set of privileges and for either byte order.
pub proof fn lemma_privileges_wire_round_trip(p: AccessPrivileges, little_endian: bool)
    requires
        p.wf(),
    ensures
        mask_of_wire(wire_of(p@, little_endian), little_endian) & ALL_PRIVILEGE_BITS == p@,
{
    lemma_wire_round_trip(p@, little_endian);
    let m = p@;
    assert(m & ALL_PRIVILEGE_BITS == m) by (bit_vector)
        requires
            m & !ALL_PRIVILEGE_BITS == 0,
    ;
}

} // verus!
