//! Core identifiers, result codes and header records of the Steam protocol.

use vstd::prelude::*;
use crate::text::{decimal, push_decimal};

verus! {

/// Steam result codes.
#[derive(Debug, Clone, Copy, PartialEq, Eq, Hash, Structural)]
pub enum EResult {
    OK,
    Fail,
    NoConnection,
    InvalidPassword,
    LoggedInElsewhere,
    InvalidProtocolVer,
    InvalidParam,
    FileNotFound,
    Busy,
    InvalidState,
    InvalidName,
    InvalidEmail,
    DuplicateName,
    AccessDenied,
    Timeout,
    Banned,
    AccountNotFound,
    InvalidSteamID,
    ServiceUnavailable,
    NotLoggedOn,
    Pending,
    EncryptionFailure,
    InsufficientPrivilege,
    LimitExceeded,
    Revoked,
    Expired,
    AlreadyRedeemed,
    DuplicateRequest,
    AlreadyOwned,
    IPNotFound,
    PersistFailed,
    LockingFailed,
    LogonSessionReplaced,
    ConnectFailed,
    HandshakeFailed,
    IOFailure,
    RemoteDisconnect,
    ShoppingCartNotFound,
    Blocked,
    Ignored,
    NoMatch,
    AccountDisabled,
    ServiceReadOnly,
    AccountNotFeatured,
    AdministratorOK,
    ContentVersion,
    TryAnotherCM,
    PasswordRequiredToKickSession,
    AlreadyLoggedInElsewhere,
    Cancelled,
    DataCorruption,
    DiskFull,
    RemoteCallFailed,
    PasswordUnset,
    ExternalAccountUnlinked,
    PSNTicketInvalid,
    ExternalAccountAlreadyLinked,
    RemoteFileConflict,
    IllegalPassword,
    SameAsPreviousValue,
    AccountLogonDenied,
    CannotUseOldPassword,
    InvalidLoginAuthCode,
    AccountLogonDeniedNoMail,
    HardwareNotCapableOfIPT,
    InsufficientBatteryCharge,
    CachedCredentialInvalid,
    PhoneNumberIsVOIP,
    NotSupported,
}

/// The wire value of a result code.
pub open spec fn eresult_code(r: EResult) -> u32 {
        match r {
            EResult::OK => 1,
            EResult::Fail => 2,
            EResult::NoConnection => 3,
            EResult::InvalidPassword => 5,
            EResult::LoggedInElsewhere => 6,
            EResult::InvalidProtocolVer => 7,
            EResult::InvalidParam => 8,
            EResult::FileNotFound => 9,
            EResult::Busy => 10,
            EResult::InvalidState => 11,
            EResult::InvalidName => 12,
            EResult::InvalidEmail => 13,
            EResult::DuplicateName => 14,
            EResult::AccessDenied => 15,
            EResult::Timeout => 16,
            EResult::Banned => 17,
            EResult::AccountNotFound => 18,
            EResult::InvalidSteamID => 19,
            EResult::ServiceUnavailable => 20,
            EResult::NotLoggedOn => 21,
            EResult::Pending => 22,
            EResult::EncryptionFailure => 23,
            EResult::InsufficientPrivilege => 24,
            EResult::LimitExceeded => 25,
            EResult::Revoked => 26,
            EResult::Expired => 27,
            EResult::AlreadyRedeemed => 28,
            EResult::DuplicateRequest => 29,
            EResult::AlreadyOwned => 30,
            EResult::IPNotFound => 31,
            EResult::PersistFailed => 32,
            EResult::LockingFailed => 33,
            EResult::LogonSessionReplaced => 34,
            EResult::ConnectFailed => 35,
            EResult::HandshakeFailed => 36,
            EResult::IOFailure => 37,
            EResult::RemoteDisconnect => 38,
            EResult::ShoppingCartNotFound => 39,
            EResult::Blocked => 40,
            EResult::Ignored => 41,
            EResult::NoMatch => 42,
            EResult::AccountDisabled => 43,
            EResult::ServiceReadOnly => 44,
            EResult::AccountNotFeatured => 45,
            EResult::AdministratorOK => 46,
            EResult::ContentVersion => 47,
            EResult::TryAnotherCM => 48,
            EResult::PasswordRequiredToKickSession => 49,
            EResult::AlreadyLoggedInElsewhere => 50,
            EResult::Cancelled => 51,
            EResult::DataCorruption => 52,
            EResult::DiskFull => 53,
            EResult::RemoteCallFailed => 54,
            EResult::PasswordUnset => 55,
            EResult::ExternalAccountUnlinked => 56,
            EResult::PSNTicketInvalid => 57,
            EResult::ExternalAccountAlreadyLinked => 58,
            EResult::RemoteFileConflict => 59,
            EResult::IllegalPassword => 60,
            EResult::SameAsPreviousValue => 61,
            EResult::AccountLogonDenied => 62,
            EResult::CannotUseOldPassword => 63,
            EResult::InvalidLoginAuthCode => 64,
            EResult::AccountLogonDeniedNoMail => 65,
            EResult::HardwareNotCapableOfIPT => 66,
            EResult::InsufficientBatteryCharge => 67,
            EResult::CachedCredentialInvalid => 68,
            EResult::PhoneNumberIsVOIP => 69,
            EResult::NotSupported => 70,
        }
}

/// The result code with the given wire value, if there is one.
pub open spec fn eresult_from_code(code: u32) -> Option<EResult> {
        match code {
            1 => Some(EResult::OK),
            2 => Some(EResult::Fail),
            3 => Some(EResult::NoConnection),
            5 => Some(EResult::InvalidPassword),
            6 => Some(EResult::LoggedInElsewhere),
            7 => Some(EResult::InvalidProtocolVer),
            8 => Some(EResult::InvalidParam),
            9 => Some(EResult::FileNotFound),
            10 => Some(EResult::Busy),
            11 => Some(EResult::InvalidState),
            12 => Some(EResult::InvalidName),
            13 => Some(EResult::InvalidEmail),
            14 => Some(EResult::DuplicateName),
            15 => Some(EResult::AccessDenied),
            16 => Some(EResult::Timeout),
            17 => Some(EResult::Banned),
            18 => Some(EResult::AccountNotFound),
            19 => Some(EResult::InvalidSteamID),
            20 => Some(EResult::ServiceUnavailable),
            21 => Some(EResult::NotLoggedOn),
            22 => Some(EResult::Pending),
            23 => Some(EResult::EncryptionFailure),
            24 => Some(EResult::InsufficientPrivilege),
            25 => Some(EResult::LimitExceeded),
            26 => Some(EResult::Revoked),
            27 => Some(EResult::Expired),
            28 => Some(EResult::AlreadyRedeemed),
            29 => Some(EResult::DuplicateRequest),
            30 => Some(EResult::AlreadyOwned),
            31 => Some(EResult::IPNotFound),
            32 => Some(EResult::PersistFailed),
            33 => Some(EResult::LockingFailed),
            34 => Some(EResult::LogonSessionReplaced),
            35 => Some(EResult::ConnectFailed),
            36 => Some(EResult::HandshakeFailed),
            37 => Some(EResult::IOFailure),
            38 => Some(EResult::RemoteDisconnect),
            39 => Some(EResult::ShoppingCartNotFound),
            40 => Some(EResult::Blocked),
            41 => Some(EResult::Ignored),
            42 => Some(EResult::NoMatch),
            43 => Some(EResult::AccountDisabled),
            44 => Some(EResult::ServiceReadOnly),
            45 => Some(EResult::AccountNotFeatured),
            46 => Some(EResult::AdministratorOK),
            47 => Some(EResult::ContentVersion),
            48 => Some(EResult::TryAnotherCM),
            49 => Some(EResult::PasswordRequiredToKickSession),
            50 => Some(EResult::AlreadyLoggedInElsewhere),
            51 => Some(EResult::Cancelled),
            52 => Some(EResult::DataCorruption),
            53 => Some(EResult::DiskFull),
            54 => Some(EResult::RemoteCallFailed),
            55 => Some(EResult::PasswordUnset),
            56 => Some(EResult::ExternalAccountUnlinked),
            57 => Some(EResult::PSNTicketInvalid),
            58 => Some(EResult::ExternalAccountAlreadyLinked),
            59 => Some(EResult::RemoteFileConflict),
            60 => Some(EResult::IllegalPassword),
            61 => Some(EResult::SameAsPreviousValue),
            62 => Some(EResult::AccountLogonDenied),
            63 => Some(EResult::CannotUseOldPassword),
            64 => Some(EResult::InvalidLoginAuthCode),
            65 => Some(EResult::AccountLogonDeniedNoMail),
            66 => Some(EResult::HardwareNotCapableOfIPT),
            67 => Some(EResult::InsufficientBatteryCharge),
            68 => Some(EResult::CachedCredentialInvalid),
            69 => Some(EResult::PhoneNumberIsVOIP),
            70 => Some(EResult::NotSupported),
            _ => None,
        }
}

impl EResult {
    /// The wire value of this result code.
    pub fn code(self) -> (c: u32)
        ensures
            c == eresult_code(self),
    {
        match self {
            EResult::OK => 1,
            EResult::Fail => 2,
            EResult::NoConnection => 3,
            EResult::InvalidPassword => 5,
            EResult::LoggedInElsewhere => 6,
            EResult::InvalidProtocolVer => 7,
            EResult::InvalidParam => 8,
            EResult::FileNotFound => 9,
            EResult::Busy => 10,
            EResult::InvalidState => 11,
            EResult::InvalidName => 12,
            EResult::InvalidEmail => 13,
            EResult::DuplicateName => 14,
            EResult::AccessDenied => 15,
            EResult::Timeout => 16,
            EResult::Banned => 17,
            EResult::AccountNotFound => 18,
            EResult::InvalidSteamID => 19,
            EResult::ServiceUnavailable => 20,
            EResult::NotLoggedOn => 21,
            EResult::Pending => 22,
            EResult::EncryptionFailure => 23,
            EResult::InsufficientPrivilege => 24,
            EResult::LimitExceeded => 25,
            EResult::Revoked => 26,
            EResult::Expired => 27,
            EResult::AlreadyRedeemed => 28,
            EResult::DuplicateRequest => 29,
            EResult::AlreadyOwned => 30,
            EResult::IPNotFound => 31,
            EResult::PersistFailed => 32,
            EResult::LockingFailed => 33,
            EResult::LogonSessionReplaced => 34,
            EResult::ConnectFailed => 35,
            EResult::HandshakeFailed => 36,
            EResult::IOFailure => 37,
            EResult::RemoteDisconnect => 38,
            EResult::ShoppingCartNotFound => 39,
            EResult::Blocked => 40,
            EResult::Ignored => 41,
            EResult::NoMatch => 42,
            EResult::AccountDisabled => 43,
            EResult::ServiceReadOnly => 44,
            EResult::AccountNotFeatured => 45,
            EResult::AdministratorOK => 46,
            EResult::ContentVersion => 47,
            EResult::TryAnotherCM => 48,
            EResult::PasswordRequiredToKickSession => 49,
            EResult::AlreadyLoggedInElsewhere => 50,
            EResult::Cancelled => 51,
            EResult::DataCorruption => 52,
            EResult::DiskFull => 53,
            EResult::RemoteCallFailed => 54,
            EResult::PasswordUnset => 55,
            EResult::ExternalAccountUnlinked => 56,
            EResult::PSNTicketInvalid => 57,
            EResult::ExternalAccountAlreadyLinked => 58,
            EResult::RemoteFileConflict => 59,
            EResult::IllegalPassword => 60,
            EResult::SameAsPreviousValue => 61,
            EResult::AccountLogonDenied => 62,
            EResult::CannotUseOldPassword => 63,
            EResult::InvalidLoginAuthCode => 64,
            EResult::AccountLogonDeniedNoMail => 65,
            EResult::HardwareNotCapableOfIPT => 66,
            EResult::InsufficientBatteryCharge => 67,
            EResult::CachedCredentialInvalid => 68,
            EResult::PhoneNumberIsVOIP => 69,
            EResult::NotSupported => 70,
        }
    }

    /// The result code with the given wire value; `None` for values this
    /// library does not know.
    pub fn from_code(code: u32) -> (r: Option<EResult>)
        ensures
            r == eresult_from_code(code),
    {
        match code {
            1 => Some(EResult::OK),
            2 => Some(EResult::Fail),
            3 => Some(EResult::NoConnection),
            5 => Some(EResult::InvalidPassword),
            6 => Some(EResult::LoggedInElsewhere),
            7 => Some(EResult::InvalidProtocolVer),
            8 => Some(EResult::InvalidParam),
            9 => Some(EResult::FileNotFound),
            10 => Some(EResult::Busy),
            11 => Some(EResult::InvalidState),
            12 => Some(EResult::InvalidName),
            13 => Some(EResult::InvalidEmail),
            14 => Some(EResult::DuplicateName),
            15 => Some(EResult::AccessDenied),
            16 => Some(EResult::Timeout),
            17 => Some(EResult::Banned),
            18 => Some(EResult::AccountNotFound),
            19 => Some(EResult::InvalidSteamID),
            20 => Some(EResult::ServiceUnavailable),
            21 => Some(EResult::NotLoggedOn),
            22 => Some(EResult::Pending),
            23 => Some(EResult::EncryptionFailure),
            24 => Some(EResult::InsufficientPrivilege),
            25 => Some(EResult::LimitExceeded),
            26 => Some(EResult::Revoked),
            27 => Some(EResult::Expired),
            28 => Some(EResult::AlreadyRedeemed),
            29 => Some(EResult::DuplicateRequest),
            30 => Some(EResult::AlreadyOwned),
            31 => Some(EResult::IPNotFound),
            32 => Some(EResult::PersistFailed),
            33 => Some(EResult::LockingFailed),
            34 => Some(EResult::LogonSessionReplaced),
            35 => Some(EResult::ConnectFailed),
            36 => Some(EResult::HandshakeFailed),
            37 => Some(EResult::IOFailure),
            38 => Some(EResult::RemoteDisconnect),
            39 => Some(EResult::ShoppingCartNotFound),
            40 => Some(EResult::Blocked),
            41 => Some(EResult::Ignored),
            42 => Some(EResult::NoMatch),
            43 => Some(EResult::AccountDisabled),
            44 => Some(EResult::ServiceReadOnly),
            45 => Some(EResult::AccountNotFeatured),
            46 => Some(EResult::AdministratorOK),
            47 => Some(EResult::ContentVersion),
            48 => Some(EResult::TryAnotherCM),
            49 => Some(EResult::PasswordRequiredToKickSession),
            50 => Some(EResult::AlreadyLoggedInElsewhere),
            51 => Some(EResult::Cancelled),
            52 => Some(EResult::DataCorruption),
            53 => Some(EResult::DiskFull),
            54 => Some(EResult::RemoteCallFailed),
            55 => Some(EResult::PasswordUnset),
            56 => Some(EResult::ExternalAccountUnlinked),
            57 => Some(EResult::PSNTicketInvalid),
            58 => Some(EResult::ExternalAccountAlreadyLinked),
            59 => Some(EResult::RemoteFileConflict),
            60 => Some(EResult::IllegalPassword),
            61 => Some(EResult::SameAsPreviousValue),
            62 => Some(EResult::AccountLogonDenied),
            63 => Some(EResult::CannotUseOldPassword),
            64 => Some(EResult::InvalidLoginAuthCode),
            65 => Some(EResult::AccountLogonDeniedNoMail),
            66 => Some(EResult::HardwareNotCapableOfIPT),
            67 => Some(EResult::InsufficientBatteryCharge),
            68 => Some(EResult::CachedCredentialInvalid),
            69 => Some(EResult::PhoneNumberIsVOIP),
            70 => Some(EResult::NotSupported),
            _ => None,
        }
    }
}

impl Default for EResult {
    fn default() -> (r: EResult)
        ensures
            r == EResult::OK,
    {
        EResult::OK
    }
}

/// The name of a result code, as it is shown: the variant's name.
pub open spec fn eresult_name(r: EResult) -> Seq<char> {
    match r {
        EResult::OK => "OK"@,
        EResult::Fail => "Fail"@,
        EResult::NoConnection => "NoConnection"@,
        EResult::InvalidPassword => "InvalidPassword"@,
        EResult::LoggedInElsewhere => "LoggedInElsewhere"@,
        EResult::InvalidProtocolVer => "InvalidProtocolVer"@,
        EResult::InvalidParam => "InvalidParam"@,
        EResult::FileNotFound => "FileNotFound"@,
        EResult::Busy => "Busy"@,
        EResult::InvalidState => "InvalidState"@,
        EResult::InvalidName => "InvalidName"@,
        EResult::InvalidEmail => "InvalidEmail"@,
        EResult::DuplicateName => "DuplicateName"@,
        EResult::AccessDenied => "AccessDenied"@,
        EResult::Timeout => "Timeout"@,
        EResult::Banned => "Banned"@,
        EResult::AccountNotFound => "AccountNotFound"@,
        EResult::InvalidSteamID => "InvalidSteamID"@,
        EResult::ServiceUnavailable => "ServiceUnavailable"@,
        EResult::NotLoggedOn => "NotLoggedOn"@,
        EResult::Pending => "Pending"@,
        EResult::EncryptionFailure => "EncryptionFailure"@,
        EResult::InsufficientPrivilege => "InsufficientPrivilege"@,
        EResult::LimitExceeded => "LimitExceeded"@,
        EResult::Revoked => "Revoked"@,
        EResult::Expired => "Expired"@,
        EResult::AlreadyRedeemed => "AlreadyRedeemed"@,
        EResult::DuplicateRequest => "DuplicateRequest"@,
        EResult::AlreadyOwned => "AlreadyOwned"@,
        EResult::IPNotFound => "IPNotFound"@,
        EResult::PersistFailed => "PersistFailed"@,
        EResult::LockingFailed => "LockingFailed"@,
        EResult::LogonSessionReplaced => "LogonSessionReplaced"@,
        EResult::ConnectFailed => "ConnectFailed"@,
        EResult::HandshakeFailed => "HandshakeFailed"@,
        EResult::IOFailure => "IOFailure"@,
        EResult::RemoteDisconnect => "RemoteDisconnect"@,
        EResult::ShoppingCartNotFound => "ShoppingCartNotFound"@,
        EResult::Blocked => "Blocked"@,
        EResult::Ignored => "Ignored"@,
        EResult::NoMatch => "NoMatch"@,
        EResult::AccountDisabled => "AccountDisabled"@,
        EResult::ServiceReadOnly => "ServiceReadOnly"@,
        EResult::AccountNotFeatured => "AccountNotFeatured"@,
        EResult::AdministratorOK => "AdministratorOK"@,
        EResult::ContentVersion => "ContentVersion"@,
        EResult::TryAnotherCM => "TryAnotherCM"@,
        EResult::PasswordRequiredToKickSession => "PasswordRequiredToKickSession"@,
        EResult::AlreadyLoggedInElsewhere => "AlreadyLoggedInElsewhere"@,
        EResult::Cancelled => "Cancelled"@,
        EResult::DataCorruption => "DataCorruption"@,
        EResult::DiskFull => "DiskFull"@,
        EResult::RemoteCallFailed => "RemoteCallFailed"@,
        EResult::PasswordUnset => "PasswordUnset"@,
        EResult::ExternalAccountUnlinked => "ExternalAccountUnlinked"@,
        EResult::PSNTicketInvalid => "PSNTicketInvalid"@,
        EResult::ExternalAccountAlreadyLinked => "ExternalAccountAlreadyLinked"@,
        EResult::RemoteFileConflict => "RemoteFileConflict"@,
        EResult::IllegalPassword => "IllegalPassword"@,
        EResult::SameAsPreviousValue => "SameAsPreviousValue"@,
        EResult::AccountLogonDenied => "AccountLogonDenied"@,
        EResult::CannotUseOldPassword => "CannotUseOldPassword"@,
        EResult::InvalidLoginAuthCode => "InvalidLoginAuthCode"@,
        EResult::AccountLogonDeniedNoMail => "AccountLogonDeniedNoMail"@,
        EResult::HardwareNotCapableOfIPT => "HardwareNotCapableOfIPT"@,
        EResult::InsufficientBatteryCharge => "InsufficientBatteryCharge"@,
        EResult::CachedCredentialInvalid => "CachedCredentialInvalid"@,
        EResult::PhoneNumberIsVOIP => "PhoneNumberIsVOIP"@,
        EResult::NotSupported => "NotSupported"@,
    }
}

impl EResult {
    /// The name of this result code, as it is shown.
    pub fn name(self) -> (s: &'static str)
        ensures
            s@ == eresult_name(self),
    {
        match self {
            EResult::OK => "OK",
            EResult::Fail => "Fail",
            EResult::NoConnection => "NoConnection",
            EResult::InvalidPassword => "InvalidPassword",
            EResult::LoggedInElsewhere => "LoggedInElsewhere",
            EResult::InvalidProtocolVer => "InvalidProtocolVer",
            EResult::InvalidParam => "InvalidParam",
            EResult::FileNotFound => "FileNotFound",
            EResult::Busy => "Busy",
            EResult::InvalidState => "InvalidState",
            EResult::InvalidName => "InvalidName",
            EResult::InvalidEmail => "InvalidEmail",
            EResult::DuplicateName => "DuplicateName",
            EResult::AccessDenied => "AccessDenied",
            EResult::Timeout => "Timeout",
            EResult::Banned => "Banned",
            EResult::AccountNotFound => "AccountNotFound",
            EResult::InvalidSteamID => "InvalidSteamID",
            EResult::ServiceUnavailable => "ServiceUnavailable",
            EResult::NotLoggedOn => "NotLoggedOn",
            EResult::Pending => "Pending",
            EResult::EncryptionFailure => "EncryptionFailure",
            EResult::InsufficientPrivilege => "InsufficientPrivilege",
            EResult::LimitExceeded => "LimitExceeded",
            EResult::Revoked => "Revoked",
            EResult::Expired => "Expired",
            EResult::AlreadyRedeemed => "AlreadyRedeemed",
            EResult::DuplicateRequest => "DuplicateRequest",
            EResult::AlreadyOwned => "AlreadyOwned",
            EResult::IPNotFound => "IPNotFound",
            EResult::PersistFailed => "PersistFailed",
            EResult::LockingFailed => "LockingFailed",
            EResult::LogonSessionReplaced => "LogonSessionReplaced",
            EResult::ConnectFailed => "ConnectFailed",
            EResult::HandshakeFailed => "HandshakeFailed",
            EResult::IOFailure => "IOFailure",
            EResult::RemoteDisconnect => "RemoteDisconnect",
            EResult::ShoppingCartNotFound => "ShoppingCartNotFound",
            EResult::Blocked => "Blocked",
            EResult::Ignored => "Ignored",
            EResult::NoMatch => "NoMatch",
            EResult::AccountDisabled => "AccountDisabled",
            EResult::ServiceReadOnly => "ServiceReadOnly",
            EResult::AccountNotFeatured => "AccountNotFeatured",
            EResult::AdministratorOK => "AdministratorOK",
            EResult::ContentVersion => "ContentVersion",
            EResult::TryAnotherCM => "TryAnotherCM",
            EResult::PasswordRequiredToKickSession => "PasswordRequiredToKickSession",
            EResult::AlreadyLoggedInElsewhere => "AlreadyLoggedInElsewhere",
            EResult::Cancelled => "Cancelled",
            EResult::DataCorruption => "DataCorruption",
            EResult::DiskFull => "DiskFull",
            EResult::RemoteCallFailed => "RemoteCallFailed",
            EResult::PasswordUnset => "PasswordUnset",
            EResult::ExternalAccountUnlinked => "ExternalAccountUnlinked",
            EResult::PSNTicketInvalid => "PSNTicketInvalid",
            EResult::ExternalAccountAlreadyLinked => "ExternalAccountAlreadyLinked",
            EResult::RemoteFileConflict => "RemoteFileConflict",
            EResult::IllegalPassword => "IllegalPassword",
            EResult::SameAsPreviousValue => "SameAsPreviousValue",
            EResult::AccountLogonDenied => "AccountLogonDenied",
            EResult::CannotUseOldPassword => "CannotUseOldPassword",
            EResult::InvalidLoginAuthCode => "InvalidLoginAuthCode",
            EResult::AccountLogonDeniedNoMail => "AccountLogonDeniedNoMail",
            EResult::HardwareNotCapableOfIPT => "HardwareNotCapableOfIPT",
            EResult::InsufficientBatteryCharge => "InsufficientBatteryCharge",
            EResult::CachedCredentialInvalid => "CachedCredentialInvalid",
            EResult::PhoneNumberIsVOIP => "PhoneNumberIsVOIP",
            EResult::NotSupported => "NotSupported",
        }
    }
}

/// Every known result code is recovered from its wire value.
pub proof fn lemma_eresult_code_roundtrip(r: EResult)
    ensures
        eresult_from_code(eresult_code(r)) == Some(r),
{
}

/// A wire value that names a result code is that code's wire value.
pub proof fn lemma_eresult_from_code_inverse(code: u32)
    ensures
        eresult_from_code(code) matches Some(r) ==> eresult_code(r) == code,
{
}


/// A 64-bit Steam account identifier.
#[derive(Debug, Clone, Copy, PartialEq, Eq, Hash, Structural)]
pub struct SteamID {
    pub id: u64,
}

/// The high 32 bits of an individual account's identifier in the public
/// universe: universe 1, account type 1, instance 1.
pub open spec fn individual_public_prefix() -> nat {
    0x0110_0001_0000_0000
}

impl SteamID {
    pub fn new(id: u64) -> (s: SteamID)
        ensures
            s.id == id,
    {
        SteamID { id }
    }

    /// The identifier of an individual account in the public universe, desktop
    /// instance, with the given account number in its low 32 bits.
    pub fn from_account_id(account_id: u32) -> (s: SteamID)
        ensures
            s.id == individual_public_prefix() + account_id,
    {
        let id = (1u64 << 56u64) | (1u64 << 52u64) | (1u64 << 32u64) | (account_id as u64);
        assert((1u64 << 56u64) | (1u64 << 52u64) | (1u64 << 32u64) | (account_id as u64)
            == 0x0110_0001_0000_0000u64 + account_id as u64) by (bit_vector);
        SteamID { id }
    }

    /// The account number: the low 32 bits of the identifier.
    pub fn account_id(&self) -> (a: u32)
        ensures
            a == self.id % 0x1_0000_0000,
    {
        let id = self.id;
        let a = (id & 0xFFFF_FFFFu64) as u32;
        assert(id & 0xFFFF_FFFFu64 == id % 0x1_0000_0000) by (bit_vector);
        a
    }

    /// An identifier is valid when it is not zero.
    pub fn is_valid(&self) -> (b: bool)
        ensures
            b == (self.id != 0),
    {
        self.id != 0
    }

    /// The identifier as shown to people: its decimal digits.
    pub fn display_text(&self) -> (s: String)
        ensures
            s@ == decimal(self.id as nat),
    {
        let mut s = String::new();
        push_decimal(&mut s, self.id);
        s
    }
}

/// The account number is recovered from an identifier built from it, and
/// such an identifier is valid.
pub proof fn lemma_account_id_roundtrip(account_id: u32)
    ensures
        (individual_public_prefix() + account_id) % 0x1_0000_0000 == account_id,
        individual_public_prefix() + account_id != 0,
{
}

/// Transport protocols for connections.
#[derive(Debug, Clone, Copy, PartialEq, Eq, Structural)]
pub enum ProtocolType {
    TCP,
    UDP,
    WebSocket,
}

/// Connection state.
#[derive(Debug, Clone, Copy, PartialEq, Eq, Structural)]
pub enum ConnectionState {
    Disconnected,
    Connecting,
    Connected,
    Disconnecting,
}

/// Errors of this library.
#[derive(Debug)]
pub enum SteamError {
    /// A network failure, with the transport's description of it.
    Network(String),
    Authentication { message: String },
    InvalidState { message: String },
    Crypto(String),
    Unknown { message: String },
}

/// The message shown for an error: its kind, a colon and its detail.
pub open spec fn error_text(e: SteamError) -> Seq<char> {
    match e {
        SteamError::Network(m) => "Network error: "@ + m@,
        SteamError::Authentication { message } => "Authentication failed: "@ + message@,
        SteamError::InvalidState { message } => "Invalid state: "@ + message@,
        SteamError::Crypto(m) => "Crypto error: "@ + m@,
        SteamError::Unknown { message } => "Unknown error: "@ + message@,
    }
}

impl SteamError {
    /// The message shown for this error.
    pub fn display_text(&self) -> (s: String)
        ensures
            s@ == error_text(*self),
    {
        let (mut s, detail) = match self {
            SteamError::Network(m) => (String::from_str("Network error: "), m),
            SteamError::Authentication { message } => (
                String::from_str("Authentication failed: "),
                message,
            ),
            SteamError::InvalidState { message } => (String::from_str("Invalid state: "), message),
            SteamError::Crypto(m) => (String::from_str("Crypto error: "), m),
            SteamError::Unknown { message } => (String::from_str("Unknown error: "), message),
        };
        s.append(detail.as_str());
        s
    }
}

/// `e` is an `Unknown` error with the given message.
pub open spec fn is_unknown_error(e: SteamError, msg: Seq<char>) -> bool {
    e matches SteamError::Unknown { message } && message@ == msg
}

/// `e` is an `InvalidState` error with the given message.
pub open spec fn is_invalid_state_error(e: SteamError, msg: Seq<char>) -> bool {
    e matches SteamError::InvalidState { message } && message@ == msg
}

/// `e` is an `Authentication` error with the given message.
pub open spec fn is_authentication_error(e: SteamError, msg: Seq<char>) -> bool {
    e matches SteamError::Authentication { message } && message@ == msg
}

/// `e` is a `Network` error with the given message.
pub open spec fn is_network_error(e: SteamError, msg: Seq<char>) -> bool {
    e matches SteamError::Network(message) && message@ == msg
}

/// Steam message types.
#[derive(Debug, Clone, Copy, PartialEq, Eq, Hash, Structural)]
pub enum EMsg {
    ChannelEncryptRequest,
    ChannelEncryptResponse,
    ChannelEncryptResult,
    ClientLogon,
    ClientLogOff,
    ClientLogOnResponse,
}

impl EMsg {
    /// The wire value of this variant.
    pub fn code(self) -> (c: u32)
        ensures
            c == emsg_code(self),
    {
        match self {
            EMsg::ChannelEncryptRequest => 1303,
            EMsg::ChannelEncryptResponse => 1304,
            EMsg::ChannelEncryptResult => 1305,
            EMsg::ClientLogon => 701,
            EMsg::ClientLogOff => 716,
            EMsg::ClientLogOnResponse => 751,
        }
    }

    /// The variant with the given wire value, if there is one.
    pub fn from_code(code: u32) -> (r: Option<EMsg>)
        ensures
            r == emsg_from_code(code),
    {
        match code {
            1303 => Some(EMsg::ChannelEncryptRequest),
            1304 => Some(EMsg::ChannelEncryptResponse),
            1305 => Some(EMsg::ChannelEncryptResult),
            701 => Some(EMsg::ClientLogon),
            716 => Some(EMsg::ClientLogOff),
            751 => Some(EMsg::ClientLogOnResponse),
            _ => None,
        }
    }
}

/// The wire value of a `EMsg`.
pub open spec fn emsg_code(v: EMsg) -> u32 {
    match v {
        EMsg::ChannelEncryptRequest => 1303,
        EMsg::ChannelEncryptResponse => 1304,
        EMsg::ChannelEncryptResult => 1305,
        EMsg::ClientLogon => 701,
        EMsg::ClientLogOff => 716,
        EMsg::ClientLogOnResponse => 751,
    }
}

/// The `EMsg` with the given wire value, if there is one.
pub open spec fn emsg_from_code(code: u32) -> Option<EMsg> {
    match code {
        1303 => Some(EMsg::ChannelEncryptRequest),
        1304 => Some(EMsg::ChannelEncryptResponse),
        1305 => Some(EMsg::ChannelEncryptResult),
        701 => Some(EMsg::ClientLogon),
        716 => Some(EMsg::ClientLogOff),
        751 => Some(EMsg::ClientLogOnResponse),
        _ => None,
    }
}

/// Every message type is recovered from its wire value.
pub proof fn lemma_emsg_code_roundtrip(m: EMsg)
    ensures
        emsg_from_code(emsg_code(m)) == Some(m),
        emsg_code(m) < 0x8000_0000,
{
}

/// A wire value that names a message type is that type's wire value.
pub proof fn lemma_emsg_from_code_inverse(code: u32)
    ensures
        emsg_from_code(code) matches Some(m) ==> emsg_code(m) == code,
{
}

/// Standard message header.
#[derive(Debug, Clone, Copy, PartialEq, Eq, Structural)]
pub struct MsgHdr {
    pub msg: EMsg,
    pub target_job_id: u64,
    pub source_job_id: u64,
}

/// Extended message header, carrying the sender's identifier and session.
#[derive(Debug, Clone, Copy, PartialEq, Eq, Structural)]
pub struct ExtendedMsgHdr {
    pub msg: EMsg,
    pub header_size: u8,
    pub header_version: u16,
    pub target_job_id: u64,
    pub source_job_id: u64,
    pub header_canary: u8,
    pub steam_id: SteamID,
    pub session_id: i32,
}

/// Steam universes.
#[derive(Debug, Clone, Copy, PartialEq, Eq, Hash, Structural)]
pub enum EUniverse {
    Invalid,
    Public,
    Beta,
    Internal,
    Dev,
}

impl EUniverse {
    /// The wire value of this variant.
    pub fn code(self) -> (c: u32)
        ensures
            c == euniverse_code(self),
    {
        match self {
            EUniverse::Invalid => 0,
            EUniverse::Public => 1,
            EUniverse::Beta => 2,
            EUniverse::Internal => 3,
            EUniverse::Dev => 4,
        }
    }
}

/// The wire value of a `EUniverse`.
pub open spec fn euniverse_code(v: EUniverse) -> u32 {
    match v {
        EUniverse::Invalid => 0,
        EUniverse::Public => 1,
        EUniverse::Beta => 2,
        EUniverse::Internal => 3,
        EUniverse::Dev => 4,
    }
}

/// Steam account types.
#[derive(Debug, Clone, Copy, PartialEq, Eq, Hash, Structural)]
pub enum EAccountType {
    Invalid,
    Individual,
    Multiseat,
    GameServer,
    AnonGameServer,
    Pending,
    ContentServer,
    Clan,
    Chat,
    ConsoleUser,
    AnonUser,
}

impl EAccountType {
    /// The wire value of this variant.
    pub fn code(self) -> (c: u32)
        ensures
            c == eaccounttype_code(self),
    {
        match self {
            EAccountType::Invalid => 0,
            EAccountType::Individual => 1,
            EAccountType::Multiseat => 2,
            EAccountType::GameServer => 3,
            EAccountType::AnonGameServer => 4,
            EAccountType::Pending => 5,
            EAccountType::ContentServer => 6,
            EAccountType::Clan => 7,
            EAccountType::Chat => 8,
            EAccountType::ConsoleUser => 9,
            EAccountType::AnonUser => 10,
        }
    }
}

/// The wire value of a `EAccountType`.
pub open spec fn eaccounttype_code(v: EAccountType) -> u32 {
    match v {
        EAccountType::Invalid => 0,
        EAccountType::Individual => 1,
        EAccountType::Multiseat => 2,
        EAccountType::GameServer => 3,
        EAccountType::AnonGameServer => 4,
        EAccountType::Pending => 5,
        EAccountType::ContentServer => 6,
        EAccountType::Clan => 7,
        EAccountType::Chat => 8,
        EAccountType::ConsoleUser => 9,
        EAccountType::AnonUser => 10,
    }
}

} // verus!
