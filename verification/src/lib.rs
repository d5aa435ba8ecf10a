//! Errors of a native core crossing into a dynamically typed host runtime.
//!
//! A failing native operation ends in exactly one host exception. This crate
//! holds the rules of that crossing as verified functions on plain values:
//!
//! - which exception class a native error selects and which structured
//!   properties it carries: the `classify` function of each error family
//!   ([`protocol`], [`usernames`], [`media`], [`net`], [`backup`],
//!   [`base`]), over the names in [`kind`] and the values in
//!   [`properties`];
//! - what the host's base class constructor is called with ([`registry`]);
//! - what is raised, also where construction fails ([`dispatch`]);
//! - how a value thrown by a host callback travels through native code to be
//!   raised again, once ([`capture`]).
//!
//! The host itself is not here. A throw yields a [`Dispatch`], which tells the
//! embedding what to do in the host; where that is a constructor call, the
//! embedding hands the outcome to [`Dispatch::settle`]. A native error comes
//! with its textual form, which the embedding supplies.
//!
//! [`laws`] states what holds of the whole.

pub mod backup;
pub mod base;
pub mod capture;
pub mod dispatch;
pub mod kind;
pub mod laws;
pub mod media;
pub mod net;
pub mod outside;
pub mod properties;
pub mod protocol;
pub mod registry;
pub mod usernames;

pub use backup::ReadError;
pub use base::{
    DeviceTransferError, EnclaveError, HsmEnclaveError, ProofVerificationFailure,
    SignalCryptoError, ZkGroupDeserializationFailure, ZkGroupVerificationFailure,
};
pub use capture::{IoError, IoErrorKind, ThrownException, ThrownValue};
pub use dispatch::{throw_classified, Dispatch, Raised, SignalNodeError, Throw};
pub use kind::{ErrorKind, PropertyKey};
pub use media::{Mp4Error, Mp4ParseError, WebpError, WebpParseError};
pub use net::{throw_invalid_uri, CancellationError, ChatServiceError, LookupError, Svr3Error};
pub use properties::{Classification, ExtraProperties, PropertyValue, ProtocolAddress};
pub use protocol::{js_error_to_rust, CallbackError, SignalProtocolError};
pub use registry::{new_js_error, node_registerErrors, Argument, ConstructorCall, Registry};
pub use usernames::{UsernameError, UsernameLinkError};
