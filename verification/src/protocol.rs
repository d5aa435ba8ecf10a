//! Errors of the messaging protocol, and the errors that host callbacks hand
//! back into it.

use crate::dispatch::{throw_classified, Dispatch, DispatchView, SignalNodeError, through_registry};
use crate::kind::{ErrorKind, PropertyKey};
use crate::outside::{hyphenated, hyphenated_lower_hex};
use crate::properties::{
    Classification, ClassificationView, PropertyValue, PropertyValueView, ProtocolAddress,
};
use crate::registry::Registry;
use vstd::prelude::*;
use vstd::string::StringExecFns;

verus! {

/// An error that a host callback reported by its message.
#[derive(Debug, PartialEq, Eq)]
pub struct CallbackError {
    message: String,
}

impl View for CallbackError {
    type V = Seq<char>;

    /// The message that the callback reported.
    closed spec fn view(&self) -> Seq<char> {
        self.message@
    }
}

impl CallbackError {
    /// The error of a callback that reported `message`.
    pub fn new(message: String) -> (error: CallbackError)
        ensures
            error@ == message@,
    {
        CallbackError { message }
    }

    /// The message that the callback reported.
    pub fn message(&self) -> (message: &str)
        ensures
            message@ == self@,
    {
        self.message.as_str()
    }

    /// The textual form of the error: the words `callback error` and the
    /// message, with a space between.
    pub fn description(&self) -> (text: String)
        ensures
            text@ == "callback error "@ + self@,
    {
        let mut text = "callback error ".to_owned();
        text.append(self.message.as_str());
        text
    }
}

/// A failure of the messaging protocol, as far as throwing tells one from
/// another.
#[derive(Debug, PartialEq, Eq)]
pub enum SignalProtocolError {
    /// A message arrived a second time.
    DuplicatedMessage,
    /// A sealed-sender message was addressed to its own sender.
    SealedSenderSelfSend,
    /// The identity key of this address has changed and is not trusted.
    UntrustedIdentity(ProtocolAddress),
    /// This address has the registration id that follows it, which is not a
    /// valid one.
    InvalidRegistrationId(ProtocolAddress, u32),
    /// A stored session could not be read.
    InvalidSessionStructure,
    /// There is no sender-key session for this distribution.
    InvalidSenderKeySession { distribution_id: u128 },
    /// The named callback into the host failed with this error.
    ApplicationCallbackError(&'static str, CallbackError),
    /// Any other failure of the protocol.
    Other,
}

impl SignalProtocolError {
    /// The class and the properties of the exception for this error.
    ///
    /// An untrusted identity carries the name of the address, an invalid
    /// registration id the address itself, and a missing sender-key session
    /// the hyphenated form of its distribution id. A failure without a class
    /// of its own is raised as the base class.
    pub open spec fn classification(&self) -> ClassificationView {
        match *self {
            SignalProtocolError::DuplicatedMessage => ClassificationView::of(
                ErrorKind::DuplicatedMessage,
            ),
            SignalProtocolError::SealedSenderSelfSend => ClassificationView::of(
                ErrorKind::SealedSenderSelfSend,
            ),
            SignalProtocolError::UntrustedIdentity(address) => ClassificationView::with(
                ErrorKind::UntrustedIdentity,
                PropertyKey::Addr,
                PropertyValueView::Text(address.name@),
            ),
            SignalProtocolError::InvalidRegistrationId(address, _) => ClassificationView::with(
                ErrorKind::InvalidRegistrationId,
                PropertyKey::Addr,
                PropertyValueView::Address(address@),
            ),
            SignalProtocolError::InvalidSessionStructure => ClassificationView::of(
                ErrorKind::InvalidSession,
            ),
            SignalProtocolError::InvalidSenderKeySession { distribution_id } =>
                ClassificationView::with(
                ErrorKind::InvalidSenderKeySession,
                PropertyKey::DistributionId,
                PropertyValueView::Text(hyphenated(distribution_id)),
            ),
            SignalProtocolError::ApplicationCallbackError(_, _) => ClassificationView::base(),
            SignalProtocolError::Other => ClassificationView::base(),
        }
    }

    /// Classifies the error.
    pub fn classify(&self) -> (classification: Classification)
        ensures
            classification@ == self.classification(),
            classification@.keys_follow_kind(),
    {
        match self {
            SignalProtocolError::DuplicatedMessage => Classification::of(
                ErrorKind::DuplicatedMessage,
            ),
            SignalProtocolError::SealedSenderSelfSend => Classification::of(
                ErrorKind::SealedSenderSelfSend,
            ),
            SignalProtocolError::UntrustedIdentity(address) => Classification::with(
                ErrorKind::UntrustedIdentity,
                PropertyKey::Addr,
                PropertyValue::Text(address.name.clone()),
            ),
            SignalProtocolError::InvalidRegistrationId(address, _) => Classification::with(
                ErrorKind::InvalidRegistrationId,
                PropertyKey::Addr,
                PropertyValue::Address(address.clone()),
            ),
            SignalProtocolError::InvalidSessionStructure => Classification::of(
                ErrorKind::InvalidSession,
            ),
            SignalProtocolError::InvalidSenderKeySession { distribution_id } =>
                Classification::with(
                ErrorKind::InvalidSenderKeySession,
                PropertyKey::DistributionId,
                PropertyValue::Text(hyphenated_lower_hex(*distribution_id)),
            ),
            SignalProtocolError::ApplicationCallbackError(_, _) => Classification::base(),
            SignalProtocolError::Other => Classification::base(),
        }
    }
}

impl<R> SignalNodeError<R> for SignalProtocolError {
    open spec fn thrown(
        self,
        message: Seq<char>,
        installed: bool,
        operation_name: Seq<char>,
    ) -> DispatchView<R> {
        through_registry(self.classification(), message, installed, operation_name)
    }

    /// Throws the error as the class and with the properties that
    /// [`SignalProtocolError::classify`] gives it.
    fn throw<C, V>(self, message: String, module: &Registry<C>, operation_name: &str) -> (result:
        Result<V, Dispatch<R>>) {
        throw_classified(self.classify(), message, module, operation_name)
    }
}

/// Turns the message of an error that the host callback `func` reported into
/// a protocol error.
pub fn js_error_to_rust(func: &'static str, err: String) -> (error: SignalProtocolError)
    ensures
        error matches SignalProtocolError::ApplicationCallbackError(name, cause) && name@ == func@
            && cause@ == err@,
{
    SignalProtocolError::ApplicationCallbackError(func, CallbackError::new(err))
}

} // verus!
