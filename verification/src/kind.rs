//! The names by which the host tells exception classes and properties apart.

use vstd::prelude::*;

verus! {

/// Selects the host exception class that an error is raised as.
///
/// The set is closed: each kind has one name, fixed here, under which the
/// host keeps the class.
#[derive(Clone, Copy, Debug, PartialEq, Eq, Hash, Structural)]
pub enum ErrorKind {
    DuplicatedMessage,
    SealedSenderSelfSend,
    UntrustedIdentity,
    InvalidRegistrationId,
    InvalidSession,
    InvalidSenderKeySession,
    BadNicknameCharacter,
    NicknameTooShort,
    NicknameTooLong,
    NicknameCannotBeEmpty,
    CannotStartWithDigit,
    MissingSeparator,
    DiscriminatorCannotBeEmpty,
    DiscriminatorCannotBeZero,
    DiscriminatorCannotBeSingleDigit,
    DiscriminatorCannotHaveLeadingZeros,
    BadDiscriminatorCharacter,
    DiscriminatorTooLarge,
    InputDataTooLong,
    InvalidEntropyDataLength,
    InvalidUsernameLinkEncryptedData,
    IoError,
    InvalidMediaInput,
    UnsupportedMediaInput,
    ChatServiceInactive,
    AppExpired,
    DeviceDelinked,
    InvalidUri,
    RateLimitedError,
    CdsiInvalidToken,
    SvrDataMissing,
    SvrRequestFailed,
    SvrRestoreFailed,
    Cancelled,
    BackupValidation,
}

impl ErrorKind {
    /// The name of the kind, as the host knows it.
    pub open spec fn name_spec(self) -> Seq<char> {
        match self {
            ErrorKind::DuplicatedMessage => "DuplicatedMessage"@,
            ErrorKind::SealedSenderSelfSend => "SealedSenderSelfSend"@,
            ErrorKind::UntrustedIdentity => "UntrustedIdentity"@,
            ErrorKind::InvalidRegistrationId => "InvalidRegistrationId"@,
            ErrorKind::InvalidSession => "InvalidSession"@,
            ErrorKind::InvalidSenderKeySession => "InvalidSenderKeySession"@,
            ErrorKind::BadNicknameCharacter => "BadNicknameCharacter"@,
            ErrorKind::NicknameTooShort => "NicknameTooShort"@,
            ErrorKind::NicknameTooLong => "NicknameTooLong"@,
            ErrorKind::NicknameCannotBeEmpty => "NicknameCannotBeEmpty"@,
            ErrorKind::CannotStartWithDigit => "CannotStartWithDigit"@,
            ErrorKind::MissingSeparator => "MissingSeparator"@,
            ErrorKind::DiscriminatorCannotBeEmpty => "DiscriminatorCannotBeEmpty"@,
            ErrorKind::DiscriminatorCannotBeZero => "DiscriminatorCannotBeZero"@,
            ErrorKind::DiscriminatorCannotBeSingleDigit => "DiscriminatorCannotBeSingleDigit"@,
            ErrorKind::DiscriminatorCannotHaveLeadingZeros => "DiscriminatorCannotHaveLeadingZeros"@,
            ErrorKind::BadDiscriminatorCharacter => "BadDiscriminatorCharacter"@,
            ErrorKind::DiscriminatorTooLarge => "DiscriminatorTooLarge"@,
            ErrorKind::InputDataTooLong => "InputDataTooLong"@,
            ErrorKind::InvalidEntropyDataLength => "InvalidEntropyDataLength"@,
            ErrorKind::InvalidUsernameLinkEncryptedData => "InvalidUsernameLinkEncryptedData"@,
            ErrorKind::IoError => "IoError"@,
            ErrorKind::InvalidMediaInput => "InvalidMediaInput"@,
            ErrorKind::UnsupportedMediaInput => "UnsupportedMediaInput"@,
            ErrorKind::ChatServiceInactive => "ChatServiceInactive"@,
            ErrorKind::AppExpired => "AppExpired"@,
            ErrorKind::DeviceDelinked => "DeviceDelinked"@,
            ErrorKind::InvalidUri => "InvalidUri"@,
            ErrorKind::RateLimitedError => "RateLimitedError"@,
            ErrorKind::CdsiInvalidToken => "CdsiInvalidToken"@,
            ErrorKind::SvrDataMissing => "SvrDataMissing"@,
            ErrorKind::SvrRequestFailed => "SvrRequestFailed"@,
            ErrorKind::SvrRestoreFailed => "SvrRestoreFailed"@,
            ErrorKind::Cancelled => "Cancelled"@,
            ErrorKind::BackupValidation => "BackupValidation"@,
        }
    }

    /// The name of the kind, as the host knows it.
    pub fn name(&self) -> (name: &'static str)
        ensures
            name@ == self.name_spec(),
    {
        match self {
            ErrorKind::DuplicatedMessage => "DuplicatedMessage",
            ErrorKind::SealedSenderSelfSend => "SealedSenderSelfSend",
            ErrorKind::UntrustedIdentity => "UntrustedIdentity",
            ErrorKind::InvalidRegistrationId => "InvalidRegistrationId",
            ErrorKind::InvalidSession => "InvalidSession",
            ErrorKind::InvalidSenderKeySession => "InvalidSenderKeySession",
            ErrorKind::BadNicknameCharacter => "BadNicknameCharacter",
            ErrorKind::NicknameTooShort => "NicknameTooShort",
            ErrorKind::NicknameTooLong => "NicknameTooLong",
            ErrorKind::NicknameCannotBeEmpty => "NicknameCannotBeEmpty",
            ErrorKind::CannotStartWithDigit => "CannotStartWithDigit",
            ErrorKind::MissingSeparator => "MissingSeparator",
            ErrorKind::DiscriminatorCannotBeEmpty => "DiscriminatorCannotBeEmpty",
            ErrorKind::DiscriminatorCannotBeZero => "DiscriminatorCannotBeZero",
            ErrorKind::DiscriminatorCannotBeSingleDigit => "DiscriminatorCannotBeSingleDigit",
            ErrorKind::DiscriminatorCannotHaveLeadingZeros => "DiscriminatorCannotHaveLeadingZeros",
            ErrorKind::BadDiscriminatorCharacter => "BadDiscriminatorCharacter",
            ErrorKind::DiscriminatorTooLarge => "DiscriminatorTooLarge",
            ErrorKind::InputDataTooLong => "InputDataTooLong",
            ErrorKind::InvalidEntropyDataLength => "InvalidEntropyDataLength",
            ErrorKind::InvalidUsernameLinkEncryptedData => "InvalidUsernameLinkEncryptedData",
            ErrorKind::IoError => "IoError",
            ErrorKind::InvalidMediaInput => "InvalidMediaInput",
            ErrorKind::UnsupportedMediaInput => "UnsupportedMediaInput",
            ErrorKind::ChatServiceInactive => "ChatServiceInactive",
            ErrorKind::AppExpired => "AppExpired",
            ErrorKind::DeviceDelinked => "DeviceDelinked",
            ErrorKind::InvalidUri => "InvalidUri",
            ErrorKind::RateLimitedError => "RateLimitedError",
            ErrorKind::CdsiInvalidToken => "CdsiInvalidToken",
            ErrorKind::SvrDataMissing => "SvrDataMissing",
            ErrorKind::SvrRequestFailed => "SvrRequestFailed",
            ErrorKind::SvrRestoreFailed => "SvrRestoreFailed",
            ErrorKind::Cancelled => "Cancelled",
            ErrorKind::BackupValidation => "BackupValidation",
        }
    }
}

/// Names a structured property that an exception carries beside its message.
#[derive(Clone, Copy, Debug, PartialEq, Eq, Hash, Structural)]
pub enum PropertyKey {
    /// The address that the error is about.
    Addr,
    /// The distribution that a sender-key session was missing for.
    DistributionId,
    /// How long the caller is asked to wait before the next attempt.
    RetryAfterSecs,
    /// How many attempts at a restore are left.
    TriesRemaining,
    /// The fields that a backup held and the reader did not know.
    UnknownFields,
}

impl PropertyKey {
    /// The name of the property on the host's exception object.
    pub open spec fn name_spec(self) -> Seq<char> {
        match self {
            PropertyKey::Addr => "_addr"@,
            PropertyKey::DistributionId => "distribution_id"@,
            PropertyKey::RetryAfterSecs => "retryAfterSecs"@,
            PropertyKey::TriesRemaining => "triesRemaining"@,
            PropertyKey::UnknownFields => "unknownFields"@,
        }
    }

    /// The name of the property on the host's exception object.
    pub fn name(&self) -> (name: &'static str)
        ensures
            name@ == self.name_spec(),
    {
        match self {
            PropertyKey::Addr => "_addr",
            PropertyKey::DistributionId => "distribution_id",
            PropertyKey::RetryAfterSecs => "retryAfterSecs",
            PropertyKey::TriesRemaining => "triesRemaining",
            PropertyKey::UnknownFields => "unknownFields",
        }
    }
}

} // verus!
