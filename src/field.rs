//! Fields: identifiers, typed values and the per-identifier interpretation.
use vstd::prelude::*;
use vstd::utf8::*;
use crate::error::ProtocolError;
use crate::wire::{be16, be32, get_u16, get_u32, put_u16, put_u32, read16, read32, lemma_be16_round_trip, lemma_be32_round_trip};

verus! {

/// Field identifiers.
#[derive(Clone, Copy, Debug, PartialEq, Eq, Hash, Structural)]
pub enum FieldId {
    Data,
    UserName,
    UserId,
    UserIconId,
    UserLogin,
    UserPassword,
    ReferenceNumber,
    TransferSize,
    ChatOptions,
    UserAccess,
    UserAlias,
    UserFlags,
    Options,
    ChatId,
    ChatSubject,
    WaitingCount,
    ServerAgreement,
    ServerBanner,
    ServerBannerType,
    ServerBannerUrl,
    NoServerAgreement,
    Version,
    BannerId,
    ServerName,
    FileNameWithInfo,
    FileName,
    FilePath,
    FileResumeData,
    FileTransferOptions,
    FileTypeString,
    FileCreatorString,
    FileSize,
    FileCreateDate,
    FileModifyDate,
    FileComment,
    FileNewName,
    FileNewPath,
    FileType,
    QuotingMsg,
    AutomaticResponse,
    UserNameWithInfo,
    NewsArticleId,
    NewsArticleDataFlavor,
    NewsArticleTitle,
    NewsArticlePoster,
    NewsArticleDate,
    NewsArticlePrevArt,
    NewsArticleNextArt,
    NewsArticleData,
    NewsArticleFlags,
    NewsArticleParentArt,
    NewsArticle1stChildArt,
    NewsCategoryGuid,
    NewsCategoryListData,
    NewsCategoryName,
    NewsPath,
    SessionKey,
    MacAlg,
    ServerCipherAlg,
    ClientCipherAlg,
}

/// The wire code of each field identifiers.
pub open spec fn field_code(t: FieldId) -> u16 {
    match t {
        FieldId::Data => 101,
        FieldId::UserName => 102,
        FieldId::UserId => 103,
        FieldId::UserIconId => 104,
        FieldId::UserLogin => 105,
        FieldId::UserPassword => 106,
        FieldId::ReferenceNumber => 107,
        FieldId::TransferSize => 108,
        FieldId::ChatOptions => 109,
        FieldId::UserAccess => 110,
        FieldId::UserAlias => 111,
        FieldId::UserFlags => 112,
        FieldId::Options => 113,
        FieldId::ChatId => 114,
        FieldId::ChatSubject => 115,
        FieldId::WaitingCount => 116,
        FieldId::ServerAgreement => 151,
        FieldId::ServerBanner => 152,
        FieldId::ServerBannerType => 153,
        FieldId::ServerBannerUrl => 154,
        FieldId::NoServerAgreement => 155,
        FieldId::Version => 160,
        FieldId::BannerId => 161,
        FieldId::ServerName => 162,
        FieldId::FileNameWithInfo => 200,
        FieldId::FileName => 201,
        FieldId::FilePath => 202,
        FieldId::FileResumeData => 203,
        FieldId::FileTransferOptions => 204,
        FieldId::FileTypeString => 205,
        FieldId::FileCreatorString => 206,
        FieldId::FileSize => 207,
        FieldId::FileCreateDate => 208,
        FieldId::FileModifyDate => 209,
        FieldId::FileComment => 210,
        FieldId::FileNewName => 211,
        FieldId::FileNewPath => 212,
        FieldId::FileType => 213,
        FieldId::QuotingMsg => 214,
        FieldId::AutomaticResponse => 215,
        FieldId::UserNameWithInfo => 300,
        FieldId::NewsArticleId => 320,
        FieldId::NewsArticleDataFlavor => 321,
        FieldId::NewsArticleTitle => 322,
        FieldId::NewsArticlePoster => 323,
        FieldId::NewsArticleDate => 324,
        FieldId::NewsArticlePrevArt => 325,
        FieldId::NewsArticleNextArt => 326,
        FieldId::NewsArticleData => 327,
        FieldId::NewsArticleFlags => 328,
        FieldId::NewsArticleParentArt => 329,
        FieldId::NewsArticle1stChildArt => 330,
        FieldId::NewsCategoryGuid => 331,
        FieldId::NewsCategoryListData => 332,
        FieldId::NewsCategoryName => 333,
        FieldId::NewsPath => 335,
        FieldId::SessionKey => 3587,
        FieldId::MacAlg => 3588,
        FieldId::ServerCipherAlg => 3771,
        FieldId::ClientCipherAlg => 3772,
    }
}

/// The value that a wire code stands for, if any.
pub open spec fn field_of_code(v: u16) -> Option<FieldId> {
    if v == 101 {
        Some(FieldId::Data)
    } else if v == 102 {
        Some(FieldId::UserName)
    } else if v == 103 {
        Some(FieldId::UserId)
    } else if v == 104 {
        Some(FieldId::UserIconId)
    } else if v == 105 {
        Some(FieldId::UserLogin)
    } else if v == 106 {
        Some(FieldId::UserPassword)
    } else if v == 107 {
        Some(FieldId::ReferenceNumber)
    } else if v == 108 {
        Some(FieldId::TransferSize)
    } else if v == 109 {
        Some(FieldId::ChatOptions)
    } else if v == 110 {
        Some(FieldId::UserAccess)
    } else if v == 111 {
        Some(FieldId::UserAlias)
    } else if v == 112 {
        Some(FieldId::UserFlags)
    } else if v == 113 {
        Some(FieldId::Options)
    } else if v == 114 {
        Some(FieldId::ChatId)
    } else if v == 115 {
        Some(FieldId::ChatSubject)
    } else if v == 116 {
        Some(FieldId::WaitingCount)
    } else if v == 151 {
        Some(FieldId::ServerAgreement)
    } else if v == 152 {
        Some(FieldId::ServerBanner)
    } else if v == 153 {
        Some(FieldId::ServerBannerType)
    } else if v == 154 {
        Some(FieldId::ServerBannerUrl)
    } else if v == 155 {
        Some(FieldId::NoServerAgreement)
    } else if v == 160 {
        Some(FieldId::Version)
    } else if v == 161 {
        Some(FieldId::BannerId)
    } else if v == 162 {
        Some(FieldId::ServerName)
    } else if v == 200 {
        Some(FieldId::FileNameWithInfo)
    } else if v == 201 {
        Some(FieldId::FileName)
    } else if v == 202 {
        Some(FieldId::FilePath)
    } else if v == 203 {
        Some(FieldId::FileResumeData)
    } else if v == 204 {
        Some(FieldId::FileTransferOptions)
    } else if v == 205 {
        Some(FieldId::FileTypeString)
    } else if v == 206 {
        Some(FieldId::FileCreatorString)
    } else if v == 207 {
        Some(FieldId::FileSize)
    } else if v == 208 {
        Some(FieldId::FileCreateDate)
    } else if v == 209 {
        Some(FieldId::FileModifyDate)
    } else if v == 210 {
        Some(FieldId::FileComment)
    } else if v == 211 {
        Some(FieldId::FileNewName)
    } else if v == 212 {
        Some(FieldId::FileNewPath)
    } else if v == 213 {
        Some(FieldId::FileType)
    } else if v == 214 {
        Some(FieldId::QuotingMsg)
    } else if v == 215 {
        Some(FieldId::AutomaticResponse)
    } else if v == 300 {
        Some(FieldId::UserNameWithInfo)
    } else if v == 320 {
        Some(FieldId::NewsArticleId)
    } else if v == 321 {
        Some(FieldId::NewsArticleDataFlavor)
    } else if v == 322 {
        Some(FieldId::NewsArticleTitle)
    } else if v == 323 {
        Some(FieldId::NewsArticlePoster)
    } else if v == 324 {
        Some(FieldId::NewsArticleDate)
    } else if v == 325 {
        Some(FieldId::NewsArticlePrevArt)
    } else if v == 326 {
        Some(FieldId::NewsArticleNextArt)
    } else if v == 327 {
        Some(FieldId::NewsArticleData)
    } else if v == 328 {
        Some(FieldId::NewsArticleFlags)
    } else if v == 329 {
        Some(FieldId::NewsArticleParentArt)
    } else if v == 330 {
        Some(FieldId::NewsArticle1stChildArt)
    } else if v == 331 {
        Some(FieldId::NewsCategoryGuid)
    } else if v == 332 {
        Some(FieldId::NewsCategoryListData)
    } else if v == 333 {
        Some(FieldId::NewsCategoryName)
    } else if v == 335 {
        Some(FieldId::NewsPath)
    } else if v == 3587 {
        Some(FieldId::SessionKey)
    } else if v == 3588 {
        Some(FieldId::MacAlg)
    } else if v == 3771 {
        Some(FieldId::ServerCipherAlg)
    } else if v == 3772 {
        Some(FieldId::ClientCipherAlg)
    } else {
        None
    }
}

impl FieldId {
    /// The value that a wire code stands for, if any.
    pub fn from_u16(value: u16) -> (r: Option<Self>)
        ensures
            r == field_of_code(value),
    {
        match value {
            101 => Some(Self::Data),
            102 => Some(Self::UserName),
            103 => Some(Self::UserId),
            104 => Some(Self::UserIconId),
            105 => Some(Self::UserLogin),
            106 => Some(Self::UserPassword),
            107 => Some(Self::ReferenceNumber),
            108 => Some(Self::TransferSize),
            109 => Some(Self::ChatOptions),
            110 => Some(Self::UserAccess),
            111 => Some(Self::UserAlias),
            112 => Some(Self::UserFlags),
            113 => Some(Self::Options),
            114 => Some(Self::ChatId),
            115 => Some(Self::ChatSubject),
            116 => Some(Self::WaitingCount),
            151 => Some(Self::ServerAgreement),
            152 => Some(Self::ServerBanner),
            153 => Some(Self::ServerBannerType),
            154 => Some(Self::ServerBannerUrl),
            155 => Some(Self::NoServerAgreement),
            160 => Some(Self::Version),
            161 => Some(Self::BannerId),
            162 => Some(Self::ServerName),
            200 => Some(Self::FileNameWithInfo),
            201 => Some(Self::FileName),
            202 => Some(Self::FilePath),
            203 => Some(Self::FileResumeData),
            204 => Some(Self::FileTransferOptions),
            205 => Some(Self::FileTypeString),
            206 => Some(Self::FileCreatorString),
            207 => Some(Self::FileSize),
            208 => Some(Self::FileCreateDate),
            209 => Some(Self::FileModifyDate),
            210 => Some(Self::FileComment),
            211 => Some(Self::FileNewName),
            212 => Some(Self::FileNewPath),
            213 => Some(Self::FileType),
            214 => Some(Self::QuotingMsg),
            215 => Some(Self::AutomaticResponse),
            300 => Some(Self::UserNameWithInfo),
            320 => Some(Self::NewsArticleId),
            321 => Some(Self::NewsArticleDataFlavor),
            322 => Some(Self::NewsArticleTitle),
            323 => Some(Self::NewsArticlePoster),
            324 => Some(Self::NewsArticleDate),
            325 => Some(Self::NewsArticlePrevArt),
            326 => Some(Self::NewsArticleNextArt),
            327 => Some(Self::NewsArticleData),
            328 => Some(Self::NewsArticleFlags),
            329 => Some(Self::NewsArticleParentArt),
            330 => Some(Self::NewsArticle1stChildArt),
            331 => Some(Self::NewsCategoryGuid),
            332 => Some(Self::NewsCategoryListData),
            333 => Some(Self::NewsCategoryName),
            335 => Some(Self::NewsPath),
            3587 => Some(Self::SessionKey),
            3588 => Some(Self::MacAlg),
            3771 => Some(Self::ServerCipherAlg),
            3772 => Some(Self::ClientCipherAlg),
            _ => None,
        }
    }

    /// The wire code.
    pub fn to_u16(self) -> (r: u16)
        ensures
            r == field_code(self),
    {
        match self {
            Self::Data => 101,
            Self::UserName => 102,
            Self::UserId => 103,
            Self::UserIconId => 104,
            Self::UserLogin => 105,
            Self::UserPassword => 106,
            Self::ReferenceNumber => 107,
            Self::TransferSize => 108,
            Self::ChatOptions => 109,
            Self::UserAccess => 110,
            Self::UserAlias => 111,
            Self::UserFlags => 112,
            Self::Options => 113,
            Self::ChatId => 114,
            Self::ChatSubject => 115,
            Self::WaitingCount => 116,
            Self::ServerAgreement => 151,
            Self::ServerBanner => 152,
            Self::ServerBannerType => 153,
            Self::ServerBannerUrl => 154,
            Self::NoServerAgreement => 155,
            Self::Version => 160,
            Self::BannerId => 161,
            Self::ServerName => 162,
            Self::FileNameWithInfo => 200,
            Self::FileName => 201,
            Self::FilePath => 202,
            Self::FileResumeData => 203,
            Self::FileTransferOptions => 204,
            Self::FileTypeString => 205,
            Self::FileCreatorString => 206,
            Self::FileSize => 207,
            Self::FileCreateDate => 208,
            Self::FileModifyDate => 209,
            Self::FileComment => 210,
            Self::FileNewName => 211,
            Self::FileNewPath => 212,
            Self::FileType => 213,
            Self::QuotingMsg => 214,
            Self::AutomaticResponse => 215,
            Self::UserNameWithInfo => 300,
            Self::NewsArticleId => 320,
            Self::NewsArticleDataFlavor => 321,
            Self::NewsArticleTitle => 322,
            Self::NewsArticlePoster => 323,
            Self::NewsArticleDate => 324,
            Self::NewsArticlePrevArt => 325,
            Self::NewsArticleNextArt => 326,
            Self::NewsArticleData => 327,
            Self::NewsArticleFlags => 328,
            Self::NewsArticleParentArt => 329,
            Self::NewsArticle1stChildArt => 330,
            Self::NewsCategoryGuid => 331,
            Self::NewsCategoryListData => 332,
            Self::NewsCategoryName => 333,
            Self::NewsPath => 335,
            Self::SessionKey => 3587,
            Self::MacAlg => 3588,
            Self::ServerCipherAlg => 3771,
            Self::ClientCipherAlg => 3772,
        }
    }
}

/// Every value is found again from its wire code.
pub proof fn lemma_field_code_round_trip(t: FieldId)
    ensures
        field_of_code(field_code(t)) == Some(t),
{
}
/// How the bytes of a field are read, decided by its identifier alone.
#[derive(Clone, Copy, Debug, PartialEq, Eq, Structural)]
pub enum FieldKind {
    Integer,
    Text,
    Binary,
}

/// The interpretation table: integer fields, text fields, and bytes for the rest.
pub open spec fn field_kind(id: FieldId) -> FieldKind {
    match id {
        FieldId::UserId | FieldId::UserIconId | FieldId::ChatId | FieldId::ChatOptions
        | FieldId::Options | FieldId::UserFlags | FieldId::Version | FieldId::ReferenceNumber
        | FieldId::WaitingCount => FieldKind::Integer,
        FieldId::UserName | FieldId::ServerName | FieldId::ChatSubject | FieldId::FileName
        | FieldId::FileComment => FieldKind::Text,
        _ => FieldKind::Binary,
    }
}

/// The interpretation of a field identifier.
pub fn kind_of(id: FieldId) -> (r: FieldKind)
    ensures
        r == field_kind(id),
{
    match id {
        FieldId::UserId | FieldId::UserIconId | FieldId::ChatId | FieldId::ChatOptions
        | FieldId::Options | FieldId::UserFlags | FieldId::Version | FieldId::ReferenceNumber
        | FieldId::WaitingCount => FieldKind::Integer,
        FieldId::UserName | FieldId::ServerName | FieldId::ChatSubject | FieldId::FileName
        | FieldId::FileComment => FieldKind::Text,
        _ => FieldKind::Binary,
    }
}

/// The value of a field as a mathematical object.
pub ghost enum FieldValue {
    Integer(i32),
    Text(Seq<char>),
    Bytes(Seq<u8>),
}

/// A field as a mathematical object.
pub ghost struct FieldModel {
    pub id: FieldId,
    pub value: FieldValue,
}

/// Field data.
#[derive(Clone, Debug)]
pub enum FieldData {
    /// Signed 32-bit integer.
    Integer(i32),
    /// UTF-8 text.
    String(String),
    /// Opaque bytes.
    Binary(Vec<u8>),
}

impl FieldData {
    pub open spec fn view(&self) -> FieldValue {
        match self {
            FieldData::Integer(v) => FieldValue::Integer(*v),
            FieldData::String(s) => FieldValue::Text(s@),
            FieldData::Binary(b) => FieldValue::Bytes(b@),
        }
    }
}

/// A field of a transaction.
#[derive(Clone, Debug)]
pub struct Field {
    pub id: FieldId,
    pub data: FieldData,
}

impl Field {
    pub open spec fn view(&self) -> FieldModel {
        FieldModel { id: self.id, value: self.data@ }
    }

    /// An integer field.
    pub fn integer(id: FieldId, value: i32) -> (r: Self)
        ensures
            r@ == (FieldModel { id, value: FieldValue::Integer(value) }),
    {
        Field { id, data: FieldData::Integer(value) }
    }

    /// A text field.
    pub fn string(id: FieldId, value: String) -> (r: Self)
        ensures
            r@ == (FieldModel { id, value: FieldValue::Text(value@) }),
    {
        Field { id, data: FieldData::String(value) }
    }

    /// A bytes field.
    pub fn binary(id: FieldId, value: Vec<u8>) -> (r: Self)
        ensures
            r@ == (FieldModel { id, value: FieldValue::Bytes(value@) }),
    {
        Field { id, data: FieldData::Binary(value) }
    }

    /// The integer, if this is an integer field.
    pub fn as_integer(&self) -> (r: Option<i32>)
        ensures
            r == (match self@.value {
                FieldValue::Integer(v) => Some(v),
                _ => None,
            }),
    {
        match &self.data {
            FieldData::Integer(v) => Some(*v),
            _ => None,
        }
    }

    /// The text, if this is a text field.
    pub fn as_string(&self) -> (r: Option<&str>)
        ensures
            r.is_some() == (self@.value is Text),
            r matches Some(s) ==> self@.value == FieldValue::Text(s@),
    {
        match &self.data {
            FieldData::String(s) => Some(s.as_str()),
            _ => None,
        }
    }

    /// The bytes, if this is a bytes field.
    pub fn as_binary(&self) -> (r: Option<&[u8]>)
        ensures
            r.is_some() == (self@.value is Bytes),
            r matches Some(b) ==> self@.value == FieldValue::Bytes(b@),
    {
        match &self.data {
            FieldData::Binary(b) => Some(b.as_slice()),
            _ => None,
        }
    }
}

/// The 4-byte header before each field's bytes.
#[derive(Clone, Copy, Debug)]
pub struct FieldHeader {
    pub id: u16,
    pub size: u16,
}

pub const FIELD_HEADER_SIZE: usize = 4;

impl FieldHeader {
    /// Reads a header from the start of `buf`.
    pub fn from_bytes(buf: &[u8]) -> (r: Result<Self, ProtocolError>)
        ensures
            buf@.len() < 4 ==> r == Err::<Self, ProtocolError>(ProtocolError::UnexpectedEof),
            buf@.len() >= 4 ==> (r matches Ok(h) && h.id == read16(buf@, 0) && h.size == read16(buf@, 2)),
    {
        if buf.len() < FIELD_HEADER_SIZE {
            return Err(ProtocolError::UnexpectedEof);
        }
        Ok(FieldHeader { id: get_u16(buf, 0), size: get_u16(buf, 2) })
    }

    /// Appends the header to `buf`.
    pub fn to_bytes(&self, buf: &mut Vec<u8>)
        ensures
            final(buf)@ == old(buf)@ + be16(self.id) + be16(self.size),
    {
        put_u16(buf, self.id);
        put_u16(buf, self.size);
    }
}

/// The bytes that a value is written as. An integer takes two bytes when it
/// fits in 16 signed bits, four otherwise.
pub open spec fn value_bytes(v: FieldValue) -> Seq<u8> {
    match v {
        FieldValue::Integer(n) => if -32768 <= n <= 32767 {
            be16(n as u16)
        } else {
            be32(n as u32)
        },
        FieldValue::Text(s) => encode_utf8(s),
        FieldValue::Bytes(b) => b,
    }
}

/// The value that a field's bytes are read as: two integer bytes are
/// sign-extended, four are taken as they are, any other length stays bytes;
/// text that is not UTF-8 stays bytes.
pub open spec fn read_value(id: FieldId, p: Seq<u8>) -> FieldValue {
    match field_kind(id) {
        FieldKind::Integer => if p.len() == 2 {
            FieldValue::Integer(read16(p, 0) as i16 as i32)
        } else if p.len() == 4 {
            FieldValue::Integer(read32(p, 0) as i32)
        } else {
            FieldValue::Bytes(p)
        },
        FieldKind::Text => if valid_utf8(p) {
            FieldValue::Text(decode_utf8(p))
        } else {
            FieldValue::Bytes(p)
        },
        FieldKind::Binary => FieldValue::Bytes(p),
    }
}

/// A value whose form agrees with the interpretation table for `id`.
pub open spec fn value_fits_kind(id: FieldId, v: FieldValue) -> bool {
    match field_kind(id) {
        FieldKind::Integer => v is Integer,
        FieldKind::Text => v is Text,
        FieldKind::Binary => v is Bytes,
    }
}

/// Relies on `String::from_utf8`: it succeeds exactly on valid UTF-8, and
/// the text then holds the characters that the bytes encode.
#[verifier::external_body]
pub(crate) fn utf8_text(b: Vec<u8>) -> (r: Option<String>)
    ensures
        r.is_some() == valid_utf8(b@),
        r matches Some(s) ==> s@ == decode_utf8(b@),
{
    String::from_utf8(b).ok()
}

/// Copies a range of a slice.
pub fn copy_range(b: &[u8], start: usize, end: usize) -> (r: Vec<u8>)
    requires
        start <= end <= b@.len(),
    ensures
        r@ == b@.subrange(start as int, end as int),
{
    let mut out: Vec<u8> = Vec::with_capacity(end - start);
    let mut i = start;
    while i < end
        invariant
            start <= i <= end <= b@.len(),
            out@ == b@.subrange(start as int, i as int),
        decreases end - i,
    {
        out.push(b[i]);
        i += 1;
        assert(out@ =~= b@.subrange(start as int, i as int));
    }
    out
}

/// Reads the data of a field with identifier `id` from its bytes.
pub fn read_field_data(id: FieldId, p: &[u8]) -> (r: FieldData)
    ensures
        r@ == read_value(id, p@),
{
    let bytes = copy_range(p, 0, p.len());
    assert(bytes@ =~= p@);
    match kind_of(id) {
        FieldKind::Integer => {
            if p.len() == 2 {
                FieldData::Integer(get_u16(p, 0) as i16 as i32)
            } else if p.len() == 4 {
                FieldData::Integer(get_u32(p, 0) as i32)
            } else {
                FieldData::Binary(bytes)
            }
        },
        FieldKind::Text => {
            match utf8_text(bytes) {
                Some(s) => FieldData::String(s),
                None => {
                    let again = copy_range(p, 0, p.len());
                    assert(again@ =~= p@);
                    FieldData::Binary(again)
                },
            }
        },
        FieldKind::Binary => FieldData::Binary(bytes),
    }
}

/// Appends the bytes of a value.
pub fn write_field_data(d: &FieldData, buf: &mut Vec<u8>)
    ensures
        final(buf)@ == old(buf)@ + value_bytes(d@),
{
    match d {
        FieldData::Integer(v) => {
            if *v >= -32768 && *v <= 32767 {
                put_u16(buf, *v as u16);
            } else {
                put_u32(buf, *v as u32);
            }
        },
        FieldData::String(s) => {
            buf.extend_from_slice(s.as_str().as_bytes());
        },
        FieldData::Binary(b) => {
            buf.extend_from_slice(b.as_slice());
        },
    }
}

/// A value written and read back under the same identifier is unchanged,
/// when its form agrees with the identifier's interpretation.
pub proof fn lemma_value_round_trip(id: FieldId, v: FieldValue)
    requires
        value_fits_kind(id, v),
    ensures
        read_value(id, value_bytes(v)) == v,
{
    match v {
        FieldValue::Integer(n) => {
            let p = value_bytes(v);
            if -32768 <= n <= 32767 {
                lemma_be16_round_trip(n as u16, Seq::empty(), Seq::empty());
                assert(p =~= Seq::<u8>::empty() + be16(n as u16) + Seq::<u8>::empty());
                let x = n as u16;
                assert(x as i16 as i32 == n) by (bit_vector)
                    requires
                        x == n as u16,
                        -32768 <= n <= 32767,
                ;
            } else {
                lemma_be32_round_trip(n as u32, Seq::empty(), Seq::empty());
                assert(p =~= Seq::<u8>::empty() + be32(n as u32) + Seq::<u8>::empty());
                let x = n as u32;
                assert(x as i32 == n) by (bit_vector)
                    requires
                        x == n as u32,
                ;
            }
        },
        FieldValue::Text(s) => {
            encode_utf8_valid_utf8(s);
            encode_utf8_decode_utf8(s);
        },
        FieldValue::Bytes(b) => {},
    }
}

} // verus!
