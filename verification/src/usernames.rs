//! Errors of usernames: a name that breaks a rule, a link that cannot be
//! decoded, a proof that does not verify.

use crate::dispatch::{throw_classified, Dispatch, DispatchView, SignalNodeError, through_registry};
use crate::kind::ErrorKind;
use crate::properties::{Classification, ClassificationView};
use crate::registry::Registry;
use vstd::prelude::*;

verus! {

/// The rule that a username breaks.
#[derive(Clone, Copy, Debug, PartialEq, Eq, Structural)]
pub enum UsernameError {
    BadNicknameCharacter,
    NicknameTooShort,
    NicknameTooLong,
    NicknameCannotBeEmpty,
    NicknameCannotStartWithDigit,
    MissingSeparator,
    DiscriminatorCannotBeEmpty,
    DiscriminatorCannotBeZero,
    DiscriminatorCannotBeSingleDigit,
    DiscriminatorCannotHaveLeadingZeros,
    BadDiscriminatorCharacter,
    DiscriminatorTooLarge,
}

impl UsernameError {
    /// The class of the exception for this error: each rule has its own.
    pub open spec fn kind(self) -> ErrorKind {
        match self {
            UsernameError::BadNicknameCharacter => ErrorKind::BadNicknameCharacter,
            UsernameError::NicknameTooShort => ErrorKind::NicknameTooShort,
            UsernameError::NicknameTooLong => ErrorKind::NicknameTooLong,
            UsernameError::NicknameCannotBeEmpty => ErrorKind::NicknameCannotBeEmpty,
            UsernameError::NicknameCannotStartWithDigit => ErrorKind::CannotStartWithDigit,
            UsernameError::MissingSeparator => ErrorKind::MissingSeparator,
            UsernameError::DiscriminatorCannotBeEmpty => ErrorKind::DiscriminatorCannotBeEmpty,
            UsernameError::DiscriminatorCannotBeZero => ErrorKind::DiscriminatorCannotBeZero,
            UsernameError::DiscriminatorCannotBeSingleDigit =>
                ErrorKind::DiscriminatorCannotBeSingleDigit,
            UsernameError::DiscriminatorCannotHaveLeadingZeros =>
                ErrorKind::DiscriminatorCannotHaveLeadingZeros,
            UsernameError::BadDiscriminatorCharacter => ErrorKind::BadDiscriminatorCharacter,
            UsernameError::DiscriminatorTooLarge => ErrorKind::DiscriminatorTooLarge,
        }
    }

    /// The class and the properties of the exception for this error.
    pub open spec fn classification(self) -> ClassificationView {
        ClassificationView::of(self.kind())
    }

    /// Classifies the error.
    pub fn classify(self) -> (classification: Classification)
        ensures
            classification@ == self.classification(),
            classification@.keys_follow_kind(),
    {
        let kind = match self {
            UsernameError::BadNicknameCharacter => ErrorKind::BadNicknameCharacter,
            UsernameError::NicknameTooShort => ErrorKind::NicknameTooShort,
            UsernameError::NicknameTooLong => ErrorKind::NicknameTooLong,
            UsernameError::NicknameCannotBeEmpty => ErrorKind::NicknameCannotBeEmpty,
            UsernameError::NicknameCannotStartWithDigit => ErrorKind::CannotStartWithDigit,
            UsernameError::MissingSeparator => ErrorKind::MissingSeparator,
            UsernameError::DiscriminatorCannotBeEmpty => ErrorKind::DiscriminatorCannotBeEmpty,
            UsernameError::DiscriminatorCannotBeZero => ErrorKind::DiscriminatorCannotBeZero,
            UsernameError::DiscriminatorCannotBeSingleDigit =>
                ErrorKind::DiscriminatorCannotBeSingleDigit,
            UsernameError::DiscriminatorCannotHaveLeadingZeros =>
                ErrorKind::DiscriminatorCannotHaveLeadingZeros,
            UsernameError::BadDiscriminatorCharacter => ErrorKind::BadDiscriminatorCharacter,
            UsernameError::DiscriminatorTooLarge => ErrorKind::DiscriminatorTooLarge,
        };
        Classification::of(kind)
    }
}

impl<R> SignalNodeError<R> for UsernameError {
    open spec fn thrown(
        self,
        message: Seq<char>,
        installed: bool,
        operation_name: Seq<char>,
    ) -> DispatchView<R> {
        through_registry(self.classification(), message, installed, operation_name)
    }

    /// Throws the error as the class of the rule that was broken.
    fn throw<C, V>(self, message: String, module: &Registry<C>, operation_name: &str) -> (result:
        Result<V, Dispatch<R>>) {
        throw_classified(self.classify(), message, module, operation_name)
    }
}

/// Why a username link could not be made or read.
#[derive(Clone, Copy, Debug, PartialEq, Eq, Structural)]
pub enum UsernameLinkError {
    InputDataTooLong,
    InvalidEntropyDataLength,
    UsernameLinkDataTooShort,
    HmacMismatch,
    BadCiphertext,
    InvalidDecryptedDataStructure,
}

impl UsernameLinkError {
    /// The class of the exception for this error. Input that is too long and
    /// entropy of the wrong length have a class each; whatever is wrong with
    /// the encrypted data itself is raised as one class.
    pub open spec fn kind(self) -> ErrorKind {
        match self {
            UsernameLinkError::InputDataTooLong => ErrorKind::InputDataTooLong,
            UsernameLinkError::InvalidEntropyDataLength => ErrorKind::InvalidEntropyDataLength,
            UsernameLinkError::UsernameLinkDataTooShort
            | UsernameLinkError::HmacMismatch
            | UsernameLinkError::BadCiphertext
            | UsernameLinkError::InvalidDecryptedDataStructure =>
                ErrorKind::InvalidUsernameLinkEncryptedData,
        }
    }

    /// The class and the properties of the exception for this error.
    pub open spec fn classification(self) -> ClassificationView {
        ClassificationView::of(self.kind())
    }

    /// Classifies the error.
    pub fn classify(self) -> (classification: Classification)
        ensures
            classification@ == self.classification(),
            classification@.keys_follow_kind(),
    {
        let kind = match self {
            UsernameLinkError::InputDataTooLong => ErrorKind::InputDataTooLong,
            UsernameLinkError::InvalidEntropyDataLength => ErrorKind::InvalidEntropyDataLength,
            UsernameLinkError::UsernameLinkDataTooShort
            | UsernameLinkError::HmacMismatch
            | UsernameLinkError::BadCiphertext
            | UsernameLinkError::InvalidDecryptedDataStructure =>
                ErrorKind::InvalidUsernameLinkEncryptedData,
        };
        Classification::of(kind)
    }
}

impl<R> SignalNodeError<R> for UsernameLinkError {
    open spec fn thrown(
        self,
        message: Seq<char>,
        installed: bool,
        operation_name: Seq<char>,
    ) -> DispatchView<R> {
        through_registry(self.classification(), message, installed, operation_name)
    }

    /// Throws the error as the class that [`UsernameLinkError::classify`]
    /// gives it.
    fn throw<C, V>(self, message: String, module: &Registry<C>, operation_name: &str) -> (result:
        Result<V, Dispatch<R>>) {
        throw_classified(self.classify(), message, module, operation_name)
    }
}

} // verus!
