//! Errors of reading a message backup.

use crate::dispatch::{throw_classified, Dispatch, DispatchView, SignalNodeError, through_registry};
use crate::kind::{ErrorKind, PropertyKey};
use crate::properties::{
    clone_texts, texts, Classification, ClassificationView, PropertyValue, PropertyValueView,
};
use crate::registry::Registry;
use vstd::prelude::*;

verus! {

/// A backup that did not pass validation.
#[derive(Debug, PartialEq, Eq)]
pub struct ReadError {
    /// The textual form of the error that ended the reading.
    pub error: String,
    /// What the reader found of fields that it did not know, one message for
    /// each, in the order in which it found them.
    pub found_unknown_fields: Vec<String>,
}

impl ReadError {
    /// The class and the properties of the exception for this error: a failed
    /// validation, which carries the list of unknown fields.
    pub open spec fn classification(&self) -> ClassificationView {
        ClassificationView::with(
            ErrorKind::BackupValidation,
            PropertyKey::UnknownFields,
            PropertyValueView::TextList(texts(self.found_unknown_fields@)),
        )
    }

    /// Classifies the error.
    pub fn classify(&self) -> (classification: Classification)
        ensures
            classification@ == self.classification(),
            classification@.keys_follow_kind(),
    {
        Classification::with(
            ErrorKind::BackupValidation,
            PropertyKey::UnknownFields,
            PropertyValue::TextList(clone_texts(&self.found_unknown_fields)),
        )
    }
}

impl<R> SignalNodeError<R> for ReadError {
    /// The message of the exception is the textual form of the error that
    /// ended the reading, not the one given for the whole.
    open spec fn thrown(
        self,
        message: Seq<char>,
        installed: bool,
        operation_name: Seq<char>,
    ) -> DispatchView<R> {
        through_registry(self.classification(), self.error@, installed, operation_name)
    }

    /// Throws the error as a failed validation, with the list of unknown
    /// fields. The message of the exception is that of the error that ended
    /// the reading; `message` is not used.
    fn throw<C, V>(self, message: String, module: &Registry<C>, operation_name: &str) -> (result:
        Result<V, Dispatch<R>>) {
        let classification = self.classify();
        throw_classified(classification, self.error, module, operation_name)
    }
}

} // verus!
