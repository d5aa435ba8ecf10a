//! Values that host callbacks throw, on their way through native code.
//!
//! Native code that calls into the host understands native errors only. What
//! a callback throws is therefore captured, carried inside an I/O error that is
//! tagged as of no kind in particular, and released where control next
//! re-enters the host: an exception object is raised again as it is, anything
//! else as a base exception with its text. A capture is released once; what it
//! leaves behind is empty.

use crate::dispatch::{Dispatch, DispatchView, SignalNodeError};
use crate::registry::Registry;
use vstd::prelude::*;

verus! {

/// What a host callback threw, as the embedding found it.
#[derive(Debug, PartialEq, Eq)]
pub enum ThrownValue<R> {
    /// An exception object; `R` is a reference that keeps it alive.
    Exception(R),
    /// A string.
    Text(String),
    /// Anything else, as the string that the host turns it into.
    Other(String),
}

/// A thrown value in the form in which it travels through native code.
#[derive(Debug, PartialEq, Eq)]
pub enum ThrownException<R> {
    /// The exception object itself, by reference.
    Error(R),
    /// A text: the thrown string, or the text of a thrown value that was no
    /// exception object.
    String(String),
}

/// A [`ThrownException`] as contracts see it.
pub enum ThrownExceptionView<R> {
    Error(R),
    String(Seq<char>),
}

impl<R> View for ThrownException<R> {
    type V = ThrownExceptionView<R>;

    open spec fn view(&self) -> ThrownExceptionView<R> {
        match *self {
            ThrownException::Error(reference) => ThrownExceptionView::Error(reference),
            ThrownException::String(text) => ThrownExceptionView::String(text@),
        }
    }
}

impl<R> ThrownExceptionView<R> {
    /// What a capture leaves behind when it is released: the empty text.
    pub open spec fn empty() -> ThrownExceptionView<R> {
        ThrownExceptionView::String(Seq::empty())
    }

    /// What releasing the capture asks of the host: to raise the exception
    /// object again, or to raise a base exception with the text.
    pub open spec fn released(self) -> DispatchView<R> {
        match self {
            ThrownExceptionView::Error(reference) => DispatchView::Rethrow(reference),
            ThrownExceptionView::String(text) => DispatchView::Message(text),
        }
    }
}

/// The capture of a thrown value: an exception object is kept by reference, a
/// string as it is, anything else as its text.
pub open spec fn captured<R>(value: ThrownValue<R>) -> ThrownExceptionView<R> {
    match value {
        ThrownValue::Exception(reference) => ThrownExceptionView::Error(reference),
        ThrownValue::Text(text) => ThrownExceptionView::String(text@),
        ThrownValue::Other(text) => ThrownExceptionView::String(text@),
    }
}

impl<R> ThrownException<R> {
    /// Captures what a host callback threw.
    pub fn from_value(error: ThrownValue<R>) -> (capture: ThrownException<R>)
        ensures
            capture@ == captured(error),
    {
        match error {
            ThrownValue::Exception(reference) => ThrownException::Error(reference),
            ThrownValue::Text(text) => ThrownException::String(text),
            ThrownValue::Other(text) => ThrownException::String(text),
        }
    }

    /// Moves the capture out and leaves the empty one in its place.
    pub fn take(&mut self) -> (capture: ThrownException<R>)
        ensures
            capture == *old(self),
            final(self)@ == ThrownExceptionView::<R>::empty(),
    {
        let mut capture = ThrownException::String(String::new());
        std::mem::swap(self, &mut capture);
        capture
    }

    /// Releases the capture: says how the thrown value is to be raised again,
    /// and leaves the empty capture behind, so that no value is raised twice.
    pub fn release(&mut self) -> (dispatch: Dispatch<R>)
        ensures
            dispatch@ == old(self)@.released(),
            final(self)@ == ThrownExceptionView::<R>::empty(),
    {
        match self.take() {
            ThrownException::Error(reference) => Dispatch::Rethrow(reference),
            ThrownException::String(text) => Dispatch::Message(text),
        }
    }
}

impl<R> Default for ThrownException<R> {
    /// The empty capture.
    fn default() -> (capture: ThrownException<R>)
        ensures
            capture@ == ThrownExceptionView::<R>::empty(),
    {
        ThrownException::String(String::new())
    }
}

impl<'a, R> From<&'a str> for ThrownException<R> {
    /// The capture of a thrown string.
    fn from(value: &'a str) -> (capture: ThrownException<R>)
        ensures
            capture@ == ThrownExceptionView::<R>::String(value@),
    {
        ThrownException::String(value.to_owned())
    }
}

impl<'a, R> vstd::std_specs::convert::FromSpecImpl<&'a str> for ThrownException<R> {
    /// The conversion is stated by the view of its result, on `from` itself.
    open spec fn obeys_from_spec() -> bool {
        false
    }

    open spec fn from_spec(value: &'a str) -> ThrownException<R> {
        arbitrary()
    }
}

/// The kind of an I/O error, as far as throwing tells one from another.
#[derive(Clone, Copy, Debug, PartialEq, Eq, Structural)]
pub enum IoErrorKind {
    /// Of no kind in particular: the tag under which a capture travels.
    Other,
    /// Of one of the kinds that name a cause.
    Specific,
}

/// An I/O error: its kind, and the capture that it carries, if it carries one.
#[derive(Debug, PartialEq, Eq)]
pub struct IoError<R> {
    pub kind: IoErrorKind,
    pub payload: Option<ThrownException<R>>,
}

impl<R> IoError<R> {
    /// Whether the error brings a captured host value to be released: it does
    /// if it is of no kind in particular and carries a capture.
    pub open spec fn carries_capture(&self) -> bool {
        self.kind == IoErrorKind::Other && self.payload is Some
    }

    /// Wraps a capture for its way through native code: an error of no kind in
    /// particular that carries the capture.
    pub fn wrap(capture: ThrownException<R>) -> (error: IoError<R>)
        ensures
            error.kind == IoErrorKind::Other,
            error.payload == Some(capture),
            error.carries_capture(),
    {
        IoError { kind: IoErrorKind::Other, payload: Some(capture) }
    }

    /// An error that carries nothing from the host.
    pub fn plain(kind: IoErrorKind) -> (error: IoError<R>)
        ensures
            error.kind == kind,
            error.payload is None,
            !error.carries_capture(),
    {
        IoError { kind, payload: None }
    }
}

impl<R> SignalNodeError<R> for IoError<R> {
    /// An error that carries a capture releases it. Any other is raised as a
    /// base exception with its textual form; the classes of the module are
    /// not used.
    open spec fn thrown(
        self,
        message: Seq<char>,
        installed: bool,
        operation_name: Seq<char>,
    ) -> DispatchView<R> {
        if self.carries_capture() {
            self.payload->Some_0@.released()
        } else {
            DispatchView::Message(message)
        }
    }

    /// Throws the error: the captured host value where the error carries one,
    /// and else a base exception with `message`.
    fn throw<C, V>(self, message: String, module: &Registry<C>, operation_name: &str) -> (result:
        Result<V, Dispatch<R>>) {
        let mut error = self;
        let released = match error.kind {
            IoErrorKind::Other => match &mut error.payload {
                Some(capture) => Some(capture.release()),
                None => None,
            },
            IoErrorKind::Specific => None,
        };
        match released {
            Some(dispatch) => Err(dispatch),
            None => Err(Dispatch::Message(message)),
        }
    }
}

} // verus!
