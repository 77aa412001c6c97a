//! Transaction types and error codes of the protocol.
use vstd::prelude::*;

verus! {

/// Transaction types.
#[derive(Clone, Copy, Debug, PartialEq, Eq, Hash, Structural)]
pub enum TransactionType {
    Error,
    GetMessages,
    NewMessage,
    OldPostNews,
    ServerMessage,
    SendChat,
    ChatMessage,
    Login,
    SendInstantMsg,
    ShowAgreement,
    DisconnectUser,
    DisconnectMsg,
    InviteNewChat,
    InviteToChat,
    RejectChatInvite,
    JoinChat,
    LeaveChat,
    NotifyChatChangeUser,
    NotifyChatDeleteUser,
    NotifyChatSubject,
    SetChatSubject,
    Agreed,
    ServerBanner,
    GetFileNameList,
    DownloadFile,
    UploadFile,
    DeleteFile,
    NewFolder,
    GetFileInfo,
    SetFileInfo,
    MoveFile,
    MakeFileAlias,
    DownloadFolder,
    DownloadInfo,
    DownloadBanner,
    UploadFolder,
    GetUserNameList,
    NotifyChangeUser,
    NotifyDeleteUser,
    GetClientInfoText,
    SetClientUserInfo,
    NewUser,
    DeleteUser,
    GetUser,
    SetUser,
    UserAccess,
    UserBroadcast,
    GetNewsCategoryNameList,
    GetNewsArticleNameList,
    DeleteNewsItem,
    NewNewsFolder,
    NewNewsCategory,
    GetNewsArticleData,
    PostNewsArticle,
    DeleteNewsArticle,
    KeepConnectionAlive,
}

/// The wire code of each transaction types.
pub open spec fn type_code(t: TransactionType) -> u16 {
    match t {
        TransactionType::Error => 100,
        TransactionType::GetMessages => 101,
        TransactionType::NewMessage => 102,
        TransactionType::OldPostNews => 103,
        TransactionType::ServerMessage => 104,
        TransactionType::SendChat => 105,
        TransactionType::ChatMessage => 106,
        TransactionType::Login => 107,
        TransactionType::SendInstantMsg => 108,
        TransactionType::ShowAgreement => 109,
        TransactionType::DisconnectUser => 110,
        TransactionType::DisconnectMsg => 111,
        TransactionType::InviteNewChat => 112,
        TransactionType::InviteToChat => 113,
        TransactionType::RejectChatInvite => 114,
        TransactionType::JoinChat => 115,
        TransactionType::LeaveChat => 116,
        TransactionType::NotifyChatChangeUser => 117,
        TransactionType::NotifyChatDeleteUser => 118,
        TransactionType::NotifyChatSubject => 119,
        TransactionType::SetChatSubject => 120,
        TransactionType::Agreed => 121,
        TransactionType::ServerBanner => 122,
        TransactionType::GetFileNameList => 200,
        TransactionType::DownloadFile => 202,
        TransactionType::UploadFile => 203,
        TransactionType::DeleteFile => 204,
        TransactionType::NewFolder => 205,
        TransactionType::GetFileInfo => 206,
        TransactionType::SetFileInfo => 207,
        TransactionType::MoveFile => 208,
        TransactionType::MakeFileAlias => 209,
        TransactionType::DownloadFolder => 210,
        TransactionType::DownloadInfo => 211,
        TransactionType::DownloadBanner => 212,
        TransactionType::UploadFolder => 213,
        TransactionType::GetUserNameList => 300,
        TransactionType::NotifyChangeUser => 301,
        TransactionType::NotifyDeleteUser => 302,
        TransactionType::GetClientInfoText => 303,
        TransactionType::SetClientUserInfo => 304,
        TransactionType::NewUser => 350,
        TransactionType::DeleteUser => 351,
        TransactionType::GetUser => 352,
        TransactionType::SetUser => 353,
        TransactionType::UserAccess => 354,
        TransactionType::UserBroadcast => 355,
        TransactionType::GetNewsCategoryNameList => 370,
        TransactionType::GetNewsArticleNameList => 371,
        TransactionType::DeleteNewsItem => 380,
        TransactionType::NewNewsFolder => 381,
        TransactionType::NewNewsCategory => 382,
        TransactionType::GetNewsArticleData => 400,
        TransactionType::PostNewsArticle => 410,
        TransactionType::DeleteNewsArticle => 411,
        TransactionType::KeepConnectionAlive => 500,
    }
}

/// The value that a wire code stands for, if any.
pub open spec fn type_of_code(v: u16) -> Option<TransactionType> {
    if v == 100 {
        Some(TransactionType::Error)
    } else if v == 101 {
        Some(TransactionType::GetMessages)
    } else if v == 102 {
        Some(TransactionType::NewMessage)
    } else if v == 103 {
        Some(TransactionType::OldPostNews)
    } else if v == 104 {
        Some(TransactionType::ServerMessage)
    } else if v == 105 {
        Some(TransactionType::SendChat)
    } else if v == 106 {
        Some(TransactionType::ChatMessage)
    } else if v == 107 {
        Some(TransactionType::Login)
    } else if v == 108 {
        Some(TransactionType::SendInstantMsg)
    } else if v == 109 {
        Some(TransactionType::ShowAgreement)
    } else if v == 110 {
        Some(TransactionType::DisconnectUser)
    } else if v == 111 {
        Some(TransactionType::DisconnectMsg)
    } else if v == 112 {
        Some(TransactionType::InviteNewChat)
    } else if v == 113 {
        Some(TransactionType::InviteToChat)
    } else if v == 114 {
        Some(TransactionType::RejectChatInvite)
    } else if v == 115 {
        Some(TransactionType::JoinChat)
    } else if v == 116 {
        Some(TransactionType::LeaveChat)
    } else if v == 117 {
        Some(TransactionType::NotifyChatChangeUser)
    } else if v == 118 {
        Some(TransactionType::NotifyChatDeleteUser)
    } else if v == 119 {
        Some(TransactionType::NotifyChatSubject)
    } else if v == 120 {
        Some(TransactionType::SetChatSubject)
    } else if v == 121 {
        Some(TransactionType::Agreed)
    } else if v == 122 {
        Some(TransactionType::ServerBanner)
    } else if v == 200 {
        Some(TransactionType::GetFileNameList)
    } else if v == 202 {
        Some(TransactionType::DownloadFile)
    } else if v == 203 {
        Some(TransactionType::UploadFile)
    } else if v == 204 {
        Some(TransactionType::DeleteFile)
    } else if v == 205 {
        Some(TransactionType::NewFolder)
    } else if v == 206 {
        Some(TransactionType::GetFileInfo)
    } else if v == 207 {
        Some(TransactionType::SetFileInfo)
    } else if v == 208 {
        Some(TransactionType::MoveFile)
    } else if v == 209 {
        Some(TransactionType::MakeFileAlias)
    } else if v == 210 {
        Some(TransactionType::DownloadFolder)
    } else if v == 211 {
        Some(TransactionType::DownloadInfo)
    } else if v == 212 {
        Some(TransactionType::DownloadBanner)
    } else if v == 213 {
        Some(TransactionType::UploadFolder)
    } else if v == 300 {
        Some(TransactionType::GetUserNameList)
    } else if v == 301 {
        Some(TransactionType::NotifyChangeUser)
    } else if v == 302 {
        Some(TransactionType::NotifyDeleteUser)
    } else if v == 303 {
        Some(TransactionType::GetClientInfoText)
    } else if v == 304 {
        Some(TransactionType::SetClientUserInfo)
    } else if v == 350 {
        Some(TransactionType::NewUser)
    } else if v == 351 {
        Some(TransactionType::DeleteUser)
    } else if v == 352 {
        Some(TransactionType::GetUser)
    } else if v == 353 {
        Some(TransactionType::SetUser)
    } else if v == 354 {
        Some(TransactionType::UserAccess)
    } else if v == 355 {
        Some(TransactionType::UserBroadcast)
    } else if v == 370 {
        Some(TransactionType::GetNewsCategoryNameList)
    } else if v == 371 {
        Some(TransactionType::GetNewsArticleNameList)
    } else if v == 380 {
        Some(TransactionType::DeleteNewsItem)
    } else if v == 381 {
        Some(TransactionType::NewNewsFolder)
    } else if v == 382 {
        Some(TransactionType::NewNewsCategory)
    } else if v == 400 {
        Some(TransactionType::GetNewsArticleData)
    } else if v == 410 {
        Some(TransactionType::PostNewsArticle)
    } else if v == 411 {
        Some(TransactionType::DeleteNewsArticle)
    } else if v == 500 {
        Some(TransactionType::KeepConnectionAlive)
    } else {
        None
    }
}

impl TransactionType {
    /// The value that a wire code stands for, if any.
    pub fn from_u16(value: u16) -> (r: Option<Self>)
        ensures
            r == type_of_code(value),
    {
        match value {
            100 => Some(Self::Error),
            101 => Some(Self::GetMessages),
            102 => Some(Self::NewMessage),
            103 => Some(Self::OldPostNews),
            104 => Some(Self::ServerMessage),
            105 => Some(Self::SendChat),
            106 => Some(Self::ChatMessage),
            107 => Some(Self::Login),
            108 => Some(Self::SendInstantMsg),
            109 => Some(Self::ShowAgreement),
            110 => Some(Self::DisconnectUser),
            111 => Some(Self::DisconnectMsg),
            112 => Some(Self::InviteNewChat),
            113 => Some(Self::InviteToChat),
            114 => Some(Self::RejectChatInvite),
            115 => Some(Self::JoinChat),
            116 => Some(Self::LeaveChat),
            117 => Some(Self::NotifyChatChangeUser),
            118 => Some(Self::NotifyChatDeleteUser),
            119 => Some(Self::NotifyChatSubject),
            120 => Some(Self::SetChatSubject),
            121 => Some(Self::Agreed),
            122 => Some(Self::ServerBanner),
            200 => Some(Self::GetFileNameList),
            202 => Some(Self::DownloadFile),
            203 => Some(Self::UploadFile),
            204 => Some(Self::DeleteFile),
            205 => Some(Self::NewFolder),
            206 => Some(Self::GetFileInfo),
            207 => Some(Self::SetFileInfo),
            208 => Some(Self::MoveFile),
            209 => Some(Self::MakeFileAlias),
            210 => Some(Self::DownloadFolder),
            211 => Some(Self::DownloadInfo),
            212 => Some(Self::DownloadBanner),
            213 => Some(Self::UploadFolder),
            300 => Some(Self::GetUserNameList),
            301 => Some(Self::NotifyChangeUser),
            302 => Some(Self::NotifyDeleteUser),
            303 => Some(Self::GetClientInfoText),
            304 => Some(Self::SetClientUserInfo),
            350 => Some(Self::NewUser),
            351 => Some(Self::DeleteUser),
            352 => Some(Self::GetUser),
            353 => Some(Self::SetUser),
            354 => Some(Self::UserAccess),
            355 => Some(Self::UserBroadcast),
            370 => Some(Self::GetNewsCategoryNameList),
            371 => Some(Self::GetNewsArticleNameList),
            380 => Some(Self::DeleteNewsItem),
            381 => Some(Self::NewNewsFolder),
            382 => Some(Self::NewNewsCategory),
            400 => Some(Self::GetNewsArticleData),
            410 => Some(Self::PostNewsArticle),
            411 => Some(Self::DeleteNewsArticle),
            500 => Some(Self::KeepConnectionAlive),
            _ => None,
        }
    }

    /// The wire code.
    pub fn to_u16(self) -> (r: u16)
        ensures
            r == type_code(self),
    {
        match self {
            Self::Error => 100,
            Self::GetMessages => 101,
            Self::NewMessage => 102,
            Self::OldPostNews => 103,
            Self::ServerMessage => 104,
            Self::SendChat => 105,
            Self::ChatMessage => 106,
            Self::Login => 107,
            Self::SendInstantMsg => 108,
            Self::ShowAgreement => 109,
            Self::DisconnectUser => 110,
            Self::DisconnectMsg => 111,
            Self::InviteNewChat => 112,
            Self::InviteToChat => 113,
            Self::RejectChatInvite => 114,
            Self::JoinChat => 115,
            Self::LeaveChat => 116,
            Self::NotifyChatChangeUser => 117,
            Self::NotifyChatDeleteUser => 118,
            Self::NotifyChatSubject => 119,
            Self::SetChatSubject => 120,
            Self::Agreed => 121,
            Self::ServerBanner => 122,
            Self::GetFileNameList => 200,
            Self::DownloadFile => 202,
            Self::UploadFile => 203,
            Self::DeleteFile => 204,
            Self::NewFolder => 205,
            Self::GetFileInfo => 206,
            Self::SetFileInfo => 207,
            Self::MoveFile => 208,
            Self::MakeFileAlias => 209,
            Self::DownloadFolder => 210,
            Self::DownloadInfo => 211,
            Self::DownloadBanner => 212,
            Self::UploadFolder => 213,
            Self::GetUserNameList => 300,
            Self::NotifyChangeUser => 301,
            Self::NotifyDeleteUser => 302,
            Self::GetClientInfoText => 303,
            Self::SetClientUserInfo => 304,
            Self::NewUser => 350,
            Self::DeleteUser => 351,
            Self::GetUser => 352,
            Self::SetUser => 353,
            Self::UserAccess => 354,
            Self::UserBroadcast => 355,
            Self::GetNewsCategoryNameList => 370,
            Self::GetNewsArticleNameList => 371,
            Self::DeleteNewsItem => 380,
            Self::NewNewsFolder => 381,
            Self::NewNewsCategory => 382,
            Self::GetNewsArticleData => 400,
            Self::PostNewsArticle => 410,
            Self::DeleteNewsArticle => 411,
            Self::KeepConnectionAlive => 500,
        }
    }
}

/// Every value is found again from its wire code.
pub proof fn lemma_type_code_round_trip(t: TransactionType)
    ensures
        type_of_code(type_code(t)) == Some(t),
{
}
impl From<TransactionType> for u16 {
    fn from(value: TransactionType) -> (r: u16)
        ensures
            r == type_code(value),
    {
        value.to_u16()
    }
}

impl vstd::std_specs::convert::FromSpecImpl<TransactionType> for u16 {
    open spec fn obeys_from_spec() -> bool {
        true
    }

    open spec fn from_spec(v: TransactionType) -> u16 {
        type_code(v)
    }
}

/// Error codes carried by replies.
#[derive(Clone, Copy, Debug, PartialEq, Eq, Structural)]
pub enum ErrorCode {
    NoError,
    UnknownError,
    PermissionDenied,
    NotFound,
    AlreadyExists,
    InvalidParameter,
}

/// The wire value of each error code.
pub open spec fn error_code_value(e: ErrorCode) -> u32 {
    match e {
        ErrorCode::NoError => 0,
        ErrorCode::UnknownError => 1,
        ErrorCode::PermissionDenied => 2,
        ErrorCode::NotFound => 3,
        ErrorCode::AlreadyExists => 4,
        ErrorCode::InvalidParameter => 5,
    }
}

impl ErrorCode {
    /// The error code of a wire value; values without a name are `UnknownError`.
    pub fn from_u32(value: u32) -> (r: Self)
        ensures
            value <= 5 ==> error_code_value(r) == value,
            value > 5 ==> r == ErrorCode::UnknownError,
    {
        match value {
            0 => Self::NoError,
            2 => Self::PermissionDenied,
            3 => Self::NotFound,
            4 => Self::AlreadyExists,
            5 => Self::InvalidParameter,
            _ => Self::UnknownError,
        }
    }

    /// The wire value.
    pub fn to_u32(self) -> (r: u32)
        ensures
            r == error_code_value(self),
    {
        match self {
            Self::NoError => 0,
            Self::UnknownError => 1,
            Self::PermissionDenied => 2,
            Self::NotFound => 3,
            Self::AlreadyExists => 4,
            Self::InvalidParameter => 5,
        }
    }
}

impl From<ErrorCode> for u32 {
    fn from(value: ErrorCode) -> (r: u32)
        ensures
            r == error_code_value(value),
    {
        value.to_u32()
    }
}

impl vstd::std_specs::convert::FromSpecImpl<ErrorCode> for u32 {
    open spec fn obeys_from_spec() -> bool {
        true
    }

    open spec fn from_spec(v: ErrorCode) -> u32 {
        error_code_value(v)
    }
}

} // verus!
