//! Errors that have no exception class of their own. Throwing tells nothing
//! inside one from another: each is raised as the base class, with its textual
//! form as the message.

use crate::dispatch::{throw_classified, Dispatch, DispatchView, SignalNodeError, through_registry};
use crate::properties::{Classification, ClassificationView};
use crate::registry::Registry;
use vstd::prelude::*;

verus! {

/// A failure while preparing the transfer of an account to another device.
#[derive(Clone, Copy, Debug, PartialEq, Eq, Structural)]
pub struct DeviceTransferError;

impl DeviceTransferError {
    /// The class and the properties of the exception for this error: the base
    /// class, with no properties.
    pub open spec fn classification(self) -> ClassificationView {
        ClassificationView::base()
    }

    /// Classifies the error.
    pub fn classify(self) -> (classification: Classification)
        ensures
            classification@ == self.classification(),
            classification@.keys_follow_kind(),
    {
        Classification::base()
    }
}

impl<R> SignalNodeError<R> for DeviceTransferError {
    open spec fn thrown(
        self,
        message: Seq<char>,
        installed: bool,
        operation_name: Seq<char>,
    ) -> DispatchView<R> {
        through_registry(self.classification(), message, installed, operation_name)
    }

    /// Throws the error as the base class.
    fn throw<C, V>(self, message: String, module: &Registry<C>, operation_name: &str) -> (result:
        Result<V, Dispatch<R>>) {
        throw_classified(self.classify(), message, module, operation_name)
    }
}

/// A failure in talking to an enclave that runs inside a hardware security module.
#[derive(Clone, Copy, Debug, PartialEq, Eq, Structural)]
pub struct HsmEnclaveError;

impl HsmEnclaveError {
    /// The class and the properties of the exception for this error: the base
    /// class, with no properties.
    pub open spec fn classification(self) -> ClassificationView {
        ClassificationView::base()
    }

    /// Classifies the error.
    pub fn classify(self) -> (classification: Classification)
        ensures
            classification@ == self.classification(),
            classification@.keys_follow_kind(),
    {
        Classification::base()
    }
}

impl<R> SignalNodeError<R> for HsmEnclaveError {
    open spec fn thrown(
        self,
        message: Seq<char>,
        installed: bool,
        operation_name: Seq<char>,
    ) -> DispatchView<R> {
        through_registry(self.classification(), message, installed, operation_name)
    }

    /// Throws the error as the base class.
    fn throw<C, V>(self, message: String, module: &Registry<C>, operation_name: &str) -> (result:
        Result<V, Dispatch<R>>) {
        throw_classified(self.classify(), message, module, operation_name)
    }
}

/// A failure in attesting an enclave, or in the handshake with it.
#[derive(Clone, Copy, Debug, PartialEq, Eq, Structural)]
pub struct EnclaveError;

impl EnclaveError {
    /// The class and the properties of the exception for this error: the base
    /// class, with no properties.
    pub open spec fn classification(self) -> ClassificationView {
        ClassificationView::base()
    }

    /// Classifies the error.
    pub fn classify(self) -> (classification: Classification)
        ensures
            classification@ == self.classification(),
            classification@.keys_follow_kind(),
    {
        Classification::base()
    }
}

impl<R> SignalNodeError<R> for EnclaveError {
    open spec fn thrown(
        self,
        message: Seq<char>,
        installed: bool,
        operation_name: Seq<char>,
    ) -> DispatchView<R> {
        through_registry(self.classification(), message, installed, operation_name)
    }

    /// Throws the error as the base class.
    fn throw<C, V>(self, message: String, module: &Registry<C>, operation_name: &str) -> (result:
        Result<V, Dispatch<R>>) {
        throw_classified(self.classify(), message, module, operation_name)
    }
}

/// A failure of a cryptographic primitive.
#[derive(Clone, Copy, Debug, PartialEq, Eq, Structural)]
pub struct SignalCryptoError;

impl SignalCryptoError {
    /// The class and the properties of the exception for this error: the base
    /// class, with no properties.
    pub open spec fn classification(self) -> ClassificationView {
        ClassificationView::base()
    }

    /// Classifies the error.
    pub fn classify(self) -> (classification: Classification)
        ensures
            classification@ == self.classification(),
            classification@.keys_follow_kind(),
    {
        Classification::base()
    }
}

impl<R> SignalNodeError<R> for SignalCryptoError {
    open spec fn thrown(
        self,
        message: Seq<char>,
        installed: bool,
        operation_name: Seq<char>,
    ) -> DispatchView<R> {
        through_registry(self.classification(), message, installed, operation_name)
    }

    /// Throws the error as the base class.
    fn throw<C, V>(self, message: String, module: &Registry<C>, operation_name: &str) -> (result:
        Result<V, Dispatch<R>>) {
        throw_classified(self.classify(), message, module, operation_name)
    }
}

/// A zero-knowledge proof or signature that does not verify.
#[derive(Clone, Copy, Debug, PartialEq, Eq, Structural)]
pub struct ZkGroupVerificationFailure;

impl ZkGroupVerificationFailure {
    /// The class and the properties of the exception for this error: the base
    /// class, with no properties.
    pub open spec fn classification(self) -> ClassificationView {
        ClassificationView::base()
    }

    /// Classifies the error.
    pub fn classify(self) -> (classification: Classification)
        ensures
            classification@ == self.classification(),
            classification@.keys_follow_kind(),
    {
        Classification::base()
    }
}

impl<R> SignalNodeError<R> for ZkGroupVerificationFailure {
    open spec fn thrown(
        self,
        message: Seq<char>,
        installed: bool,
        operation_name: Seq<char>,
    ) -> DispatchView<R> {
        through_registry(self.classification(), message, installed, operation_name)
    }

    /// Throws the error as the base class.
    fn throw<C, V>(self, message: String, module: &Registry<C>, operation_name: &str) -> (result:
        Result<V, Dispatch<R>>) {
        throw_classified(self.classify(), message, module, operation_name)
    }
}

/// Bytes that are no value of the zero-knowledge group types.
#[derive(Clone, Copy, Debug, PartialEq, Eq, Structural)]
pub struct ZkGroupDeserializationFailure;

impl ZkGroupDeserializationFailure {
    /// The class and the properties of the exception for this error: the base
    /// class, with no properties.
    pub open spec fn classification(self) -> ClassificationView {
        ClassificationView::base()
    }

    /// Classifies the error.
    pub fn classify(self) -> (classification: Classification)
        ensures
            classification@ == self.classification(),
            classification@.keys_follow_kind(),
    {
        Classification::base()
    }
}

impl<R> SignalNodeError<R> for ZkGroupDeserializationFailure {
    open spec fn thrown(
        self,
        message: Seq<char>,
        installed: bool,
        operation_name: Seq<char>,
    ) -> DispatchView<R> {
        through_registry(self.classification(), message, installed, operation_name)
    }

    /// Throws the error as the base class.
    fn throw<C, V>(self, message: String, module: &Registry<C>, operation_name: &str) -> (result:
        Result<V, Dispatch<R>>) {
        throw_classified(self.classify(), message, module, operation_name)
    }
}

/// A proof of a username that does not verify.
#[derive(Clone, Copy, Debug, PartialEq, Eq, Structural)]
pub struct ProofVerificationFailure;

impl ProofVerificationFailure {
    /// The class and the properties of the exception for this error: the base
    /// class, with no properties.
    pub open spec fn classification(self) -> ClassificationView {
        ClassificationView::base()
    }

    /// Classifies the error.
    pub fn classify(self) -> (classification: Classification)
        ensures
            classification@ == self.classification(),
            classification@.keys_follow_kind(),
    {
        Classification::base()
    }
}

impl<R> SignalNodeError<R> for ProofVerificationFailure {
    open spec fn thrown(
        self,
        message: Seq<char>,
        installed: bool,
        operation_name: Seq<char>,
    ) -> DispatchView<R> {
        through_registry(self.classification(), message, installed, operation_name)
    }

    /// Throws the error as the base class.
    fn throw<C, V>(self, message: String, module: &Registry<C>, operation_name: &str) -> (result:
        Result<V, Dispatch<R>>) {
        throw_classified(self.classify(), message, module, operation_name)
    }
}

} // verus!
