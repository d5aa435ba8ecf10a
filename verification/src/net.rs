//! Errors of the network services: the chat service, the directory lookup,
//! the recovery of secure values, a string that is no URI, and a request that
//! was cancelled.

use crate::dispatch::{throw_classified, Dispatch, DispatchView, SignalNodeError, through_registry};
use crate::kind::{ErrorKind, PropertyKey};
use crate::outside::invalid_uri_text;
use crate::properties::{Classification, ClassificationView, PropertyValue, PropertyValueView};
use crate::registry::Registry;
use crate::base::EnclaveError;
use vstd::prelude::*;

verus! {

/// Why a request to the chat service failed.
#[derive(Clone, Copy, Debug, PartialEq, Eq, Structural)]
pub enum ChatServiceError {
    /// The service has been shut down on this side.
    ServiceInactive,
    /// The application is too old for the service.
    AppExpired,
    /// The device is no longer registered with the account.
    DeviceDeregistered,
    /// Any other failure: of the connection, of the transport, of the data.
    Other,
}

impl ChatServiceError {
    /// The class of the exception for this error. Whether another attempt
    /// could succeed is not told apart: every failure but the three named
    /// ones is an I/O error.
    pub open spec fn kind(self) -> ErrorKind {
        match self {
            ChatServiceError::ServiceInactive => ErrorKind::ChatServiceInactive,
            ChatServiceError::AppExpired => ErrorKind::AppExpired,
            ChatServiceError::DeviceDeregistered => ErrorKind::DeviceDelinked,
            ChatServiceError::Other => ErrorKind::IoError,
        }
    }

    /// The class and the properties of the exception for this error.
    pub open spec fn classification(self) -> ClassificationView {
        ClassificationView::of(self.kind())
    }

    /// Classifies the error.
    pub fn classify(self) -> (classification: Classification)
        ensures
            classification@ == self.classification(),
            classification@.keys_follow_kind(),
    {
        let kind = match self {
            ChatServiceError::ServiceInactive => ErrorKind::ChatServiceInactive,
            ChatServiceError::AppExpired => ErrorKind::AppExpired,
            ChatServiceError::DeviceDeregistered => ErrorKind::DeviceDelinked,
            ChatServiceError::Other => ErrorKind::IoError,
        };
        Classification::of(kind)
    }
}

impl<R> SignalNodeError<R> for ChatServiceError {
    open spec fn thrown(
        self,
        message: Seq<char>,
        installed: bool,
        operation_name: Seq<char>,
    ) -> DispatchView<R> {
        through_registry(self.classification(), message, installed, operation_name)
    }

    /// Throws the error as the class that [`ChatServiceError::classify`]
    /// gives it.
    fn throw<C, V>(self, message: String, module: &Registry<C>, operation_name: &str) -> (result:
        Result<V, Dispatch<R>>) {
        throw_classified(self.classify(), message, module, operation_name)
    }
}

impl<R> SignalNodeError<R> for http::uri::InvalidUri {
    open spec fn thrown(
        self,
        message: Seq<char>,
        installed: bool,
        operation_name: Seq<char>,
    ) -> DispatchView<R> {
        through_registry(
            ClassificationView::of(ErrorKind::InvalidUri),
            message,
            installed,
            operation_name,
        )
    }

    /// Throws the error as an invalid URI, whatever was wrong with the string.
    fn throw<C, V>(self, message: String, module: &Registry<C>, operation_name: &str) -> (result:
        Result<V, Dispatch<R>>) {
        throw_classified(
            Classification::of(ErrorKind::InvalidUri),
            message,
            module,
            operation_name,
        )
    }
}

/// Throws the error of a string that is no URI, with the text that the error
/// itself gives as the message.
///
/// What the text is lies with the error; whatever it is, the throw is the one
/// that [`SignalNodeError::throw`] makes of the error with that text.
pub fn throw_invalid_uri<C, V, R>(
    error: http::uri::InvalidUri,
    module: &Registry<C>,
    operation_name: &str,
) -> (result: Result<V, Dispatch<R>>)
    ensures
        result is Err,
        exists|message: Seq<char>|
            result->Err_0@ == #[trigger] SignalNodeError::<R>::thrown(
                error,
                message,
                module.installed(),
                operation_name@,
            ),
{
    let message = invalid_uri_text(&error);
    error.throw(message, module, operation_name)
}

/// A request that was cancelled before it ended.
#[derive(Clone, Copy, Debug, PartialEq, Eq, Structural)]
pub struct CancellationError;

impl CancellationError {
    /// The class and the properties of the exception for this error.
    pub open spec fn classification(self) -> ClassificationView {
        ClassificationView::of(ErrorKind::Cancelled)
    }

    /// Classifies the error.
    pub fn classify(self) -> (classification: Classification)
        ensures
            classification@ == self.classification(),
            classification@.keys_follow_kind(),
    {
        Classification::of(ErrorKind::Cancelled)
    }
}

impl<R> SignalNodeError<R> for CancellationError {
    open spec fn thrown(
        self,
        message: Seq<char>,
        installed: bool,
        operation_name: Seq<char>,
    ) -> DispatchView<R> {
        through_registry(self.classification(), message, installed, operation_name)
    }

    /// Throws the cancellation as an error like any other, of its own class.
    fn throw<C, V>(self, message: String, module: &Registry<C>, operation_name: &str) -> (result:
        Result<V, Dispatch<R>>) {
        throw_classified(self.classify(), message, module, operation_name)
    }
}

/// Why a lookup in the contact directory failed.
#[derive(Debug, PartialEq, Eq)]
pub enum LookupError {
    /// The server asks the caller to wait this many seconds.
    RateLimited { retry_after_seconds: u32 },
    /// The enclave could not be attested. The error of the attestation comes
    /// with its own textual form.
    AttestationError(EnclaveError, String),
    /// The server rejected the request as malformed.
    InvalidArgument,
    /// The token of an earlier lookup is not valid any more.
    InvalidToken,
    ConnectionTimedOut,
    ConnectTransport,
    WebSocket,
    Protocol,
    InvalidResponse,
    ParseError,
    Server,
}

impl LookupError {
    /// The class and the properties of the exception for this error.
    ///
    /// A rate limit carries the seconds to wait. A failed attestation is
    /// classified as the attestation error that it wraps. A rejected request
    /// is raised as the base class. What went wrong on the way to the server
    /// or in its answer is an I/O error.
    pub open spec fn classification(&self) -> ClassificationView {
        match *self {
            LookupError::RateLimited { retry_after_seconds } => ClassificationView::with(
                ErrorKind::RateLimitedError,
                PropertyKey::RetryAfterSecs,
                PropertyValueView::Number(retry_after_seconds),
            ),
            LookupError::AttestationError(inner, _) => inner.classification(),
            LookupError::InvalidArgument => ClassificationView::base(),
            LookupError::InvalidToken => ClassificationView::of(ErrorKind::CdsiInvalidToken),
            LookupError::ConnectionTimedOut
            | LookupError::ConnectTransport
            | LookupError::WebSocket
            | LookupError::Protocol
            | LookupError::InvalidResponse
            | LookupError::ParseError
            | LookupError::Server => ClassificationView::of(ErrorKind::IoError),
        }
    }

    /// Classifies the error.
    pub fn classify(&self) -> (classification: Classification)
        ensures
            classification@ == self.classification(),
            classification@.keys_follow_kind(),
    {
        match self {
            LookupError::RateLimited { retry_after_seconds } => Classification::with(
                ErrorKind::RateLimitedError,
                PropertyKey::RetryAfterSecs,
                PropertyValue::Number(*retry_after_seconds),
            ),
            LookupError::AttestationError(inner, _) => inner.classify(),
            LookupError::InvalidArgument => Classification::base(),
            LookupError::InvalidToken => Classification::of(ErrorKind::CdsiInvalidToken),
            LookupError::ConnectionTimedOut
            | LookupError::ConnectTransport
            | LookupError::WebSocket
            | LookupError::Protocol
            | LookupError::InvalidResponse
            | LookupError::ParseError
            | LookupError::Server => Classification::of(ErrorKind::IoError),
        }
    }
}

impl<R> SignalNodeError<R> for LookupError {
    open spec fn thrown(
        self,
        message: Seq<char>,
        installed: bool,
        operation_name: Seq<char>,
    ) -> DispatchView<R> {
        match self {
            LookupError::AttestationError(inner, inner_message) => inner.thrown(
                inner_message@,
                installed,
                operation_name,
            ),
            _ => through_registry(self.classification(), message, installed, operation_name),
        }
    }

    /// Throws the error as the class and with the properties that
    /// [`LookupError::classify`] gives it. A failed attestation is thrown as
    /// the attestation error that it wraps, with that error's own message.
    fn throw<C, V>(self, message: String, module: &Registry<C>, operation_name: &str) -> (result:
        Result<V, Dispatch<R>>) {
        match self {
            LookupError::AttestationError(inner, inner_message) => inner.throw(
                inner_message,
                module,
                operation_name,
            ),
            other => throw_classified(other.classify(), message, module, operation_name),
        }
    }
}

/// Why a secure value could not be stored or recovered.
#[derive(Debug, PartialEq, Eq)]
pub enum Svr3Error {
    Service,
    ConnectionTimedOut,
    Connect,
    /// The enclave could not be attested. The error of the attestation comes
    /// with its own textual form.
    AttestationError(EnclaveError, String),
    /// The server refused the request.
    RequestFailed,
    /// The restore failed; this many attempts are left.
    RestoreFailed(u32),
    /// There is no value to restore.
    DataMissing,
    /// The server's answer broke the protocol.
    Protocol,
}

impl Svr3Error {
    /// The class and the properties of the exception for this error.
    ///
    /// A failed restore carries the number of attempts that are left. A failed
    /// attestation is classified as the attestation error that it wraps. A
    /// broken protocol is raised as the base class. What went wrong on the way
    /// to the server is an I/O error.
    pub open spec fn classification(&self) -> ClassificationView {
        match *self {
            Svr3Error::Service | Svr3Error::ConnectionTimedOut | Svr3Error::Connect =>
                ClassificationView::of(ErrorKind::IoError),
            Svr3Error::AttestationError(inner, _) => inner.classification(),
            Svr3Error::RequestFailed => ClassificationView::of(ErrorKind::SvrRequestFailed),
            Svr3Error::RestoreFailed(tries_remaining) => ClassificationView::with(
                ErrorKind::SvrRestoreFailed,
                PropertyKey::TriesRemaining,
                PropertyValueView::Number(tries_remaining),
            ),
            Svr3Error::DataMissing => ClassificationView::of(ErrorKind::SvrDataMissing),
            Svr3Error::Protocol => ClassificationView::base(),
        }
    }

    /// Classifies the error.
    pub fn classify(&self) -> (classification: Classification)
        ensures
            classification@ == self.classification(),
            classification@.keys_follow_kind(),
    {
        match self {
            Svr3Error::Service | Svr3Error::ConnectionTimedOut | Svr3Error::Connect =>
                Classification::of(ErrorKind::IoError),
            Svr3Error::AttestationError(inner, _) => inner.classify(),
            Svr3Error::RequestFailed => Classification::of(ErrorKind::SvrRequestFailed),
            Svr3Error::RestoreFailed(tries_remaining) => Classification::with(
                ErrorKind::SvrRestoreFailed,
                PropertyKey::TriesRemaining,
                PropertyValue::Number(*tries_remaining),
            ),
            Svr3Error::DataMissing => Classification::of(ErrorKind::SvrDataMissing),
            Svr3Error::Protocol => Classification::base(),
        }
    }
}

impl<R> SignalNodeError<R> for Svr3Error {
    open spec fn thrown(
        self,
        message: Seq<char>,
        installed: bool,
        operation_name: Seq<char>,
    ) -> DispatchView<R> {
        match self {
            Svr3Error::AttestationError(inner, inner_message) => inner.thrown(
                inner_message@,
                installed,
                operation_name,
            ),
            _ => through_registry(self.classification(), message, installed, operation_name),
        }
    }

    /// Throws the error as the class and with the properties that
    /// [`Svr3Error::classify`] gives it. A failed attestation is thrown as the
    /// attestation error that it wraps, with that error's own message.
    fn throw<C, V>(self, message: String, module: &Registry<C>, operation_name: &str) -> (result:
        Result<V, Dispatch<R>>) {
        match self {
            Svr3Error::AttestationError(inner, inner_message) => inner.throw(
                inner_message,
                module,
                operation_name,
            ),
            other => throw_classified(other.classify(), message, module, operation_name),
        }
    }
}

} // verus!
