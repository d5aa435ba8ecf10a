//! Errors of reading media containers, one family for each of the two
//! formats.

use crate::dispatch::{throw_classified, Dispatch, DispatchView, SignalNodeError, through_registry};
use crate::kind::ErrorKind;
use crate::properties::{Classification, ClassificationView};
use crate::registry::Registry;
use vstd::prelude::*;

verus! {

/// What is wrong with an MP4 container.
#[derive(Clone, Copy, Debug, PartialEq, Eq, Structural)]
pub enum Mp4ParseError {
    InvalidBoxLayout,
    InvalidInput,
    MissingRequiredBox,
    TruncatedBox,
    UnsupportedBox,
    UnsupportedBoxLayout,
    UnsupportedFormat,
}

/// Why an MP4 container could not be read.
#[derive(Clone, Copy, Debug, PartialEq, Eq, Structural)]
pub enum Mp4Error {
    /// The input could not be read at all.
    Io,
    /// The input was read and is no container that can be handled.
    Parse(Mp4ParseError),
}

impl Mp4Error {
    /// The class of the exception for this error: a failure to read is an I/O
    /// error; a container that is broken, cut short or incomplete is invalid
    /// input; one that is sound but beyond what is handled is unsupported
    /// input.
    pub open spec fn kind(self) -> ErrorKind {
        match self {
            Mp4Error::Io => ErrorKind::IoError,
            Mp4Error::Parse(
                Mp4ParseError::InvalidBoxLayout
                | Mp4ParseError::InvalidInput
                | Mp4ParseError::MissingRequiredBox
                | Mp4ParseError::TruncatedBox,
            ) => ErrorKind::InvalidMediaInput,
            Mp4Error::Parse(
                Mp4ParseError::UnsupportedBox
                | Mp4ParseError::UnsupportedBoxLayout
                | Mp4ParseError::UnsupportedFormat,
            ) => ErrorKind::UnsupportedMediaInput,
        }
    }

    /// The class and the properties of the exception for this error.
    pub open spec fn classification(self) -> ClassificationView {
        ClassificationView::of(self.kind())
    }

    /// Classifies the error.
    pub fn classify(self) -> (classification: Classification)
        ensures
            classification@ == self.classification(),
            classification@.keys_follow_kind(),
    {
        let kind = match self {
            Mp4Error::Io => ErrorKind::IoError,
            Mp4Error::Parse(cause) => match cause {
                Mp4ParseError::InvalidBoxLayout
                | Mp4ParseError::InvalidInput
                | Mp4ParseError::MissingRequiredBox
                | Mp4ParseError::TruncatedBox => ErrorKind::InvalidMediaInput,
                Mp4ParseError::UnsupportedBox
                | Mp4ParseError::UnsupportedBoxLayout
                | Mp4ParseError::UnsupportedFormat => ErrorKind::UnsupportedMediaInput,
            },
        };
        Classification::of(kind)
    }
}

impl<R> SignalNodeError<R> for Mp4Error {
    open spec fn thrown(
        self,
        message: Seq<char>,
        installed: bool,
        operation_name: Seq<char>,
    ) -> DispatchView<R> {
        through_registry(self.classification(), message, installed, operation_name)
    }

    /// Throws the error as the class that [`Mp4Error::classify`] gives it.
    fn throw<C, V>(self, message: String, module: &Registry<C>, operation_name: &str) -> (result:
        Result<V, Dispatch<R>>) {
        throw_classified(self.classify(), message, module, operation_name)
    }
}

/// What is wrong with a WebP container.
#[derive(Clone, Copy, Debug, PartialEq, Eq, Structural)]
pub enum WebpParseError {
    InvalidChunkLayout,
    InvalidInput,
    InvalidVp8lPrefixCode,
    MissingRequiredChunk,
    TruncatedChunk,
    UnsupportedChunk,
    UnsupportedVp8lVersion,
}

/// Why a WebP container could not be read.
#[derive(Clone, Copy, Debug, PartialEq, Eq, Structural)]
pub enum WebpError {
    /// The input could not be read at all.
    Io,
    /// The input was read and is no container that can be handled.
    Parse(WebpParseError),
}

impl WebpError {
    /// The class of the exception for this error: a failure to read is an I/O
    /// error; a container that is broken, cut short or incomplete is invalid
    /// input; one that is sound but beyond what is handled is unsupported
    /// input.
    pub open spec fn kind(self) -> ErrorKind {
        match self {
            WebpError::Io => ErrorKind::IoError,
            WebpError::Parse(
                WebpParseError::InvalidChunkLayout
                | WebpParseError::InvalidInput
                | WebpParseError::InvalidVp8lPrefixCode
                | WebpParseError::MissingRequiredChunk
                | WebpParseError::TruncatedChunk,
            ) => ErrorKind::InvalidMediaInput,
            WebpError::Parse(
                WebpParseError::UnsupportedChunk | WebpParseError::UnsupportedVp8lVersion,
            ) => ErrorKind::UnsupportedMediaInput,
        }
    }

    /// The class and the properties of the exception for this error.
    pub open spec fn classification(self) -> ClassificationView {
        ClassificationView::of(self.kind())
    }

    /// Classifies the error.
    pub fn classify(self) -> (classification: Classification)
        ensures
            classification@ == self.classification(),
            classification@.keys_follow_kind(),
    {
        let kind = match self {
            WebpError::Io => ErrorKind::IoError,
            WebpError::Parse(cause) => match cause {
                WebpParseError::InvalidChunkLayout
                | WebpParseError::InvalidInput
                | WebpParseError::InvalidVp8lPrefixCode
                | WebpParseError::MissingRequiredChunk
                | WebpParseError::TruncatedChunk => ErrorKind::InvalidMediaInput,
                WebpParseError::UnsupportedChunk | WebpParseError::UnsupportedVp8lVersion =>
                    ErrorKind::UnsupportedMediaInput,
            },
        };
        Classification::of(kind)
    }
}

impl<R> SignalNodeError<R> for WebpError {
    open spec fn thrown(
        self,
        message: Seq<char>,
        installed: bool,
        operation_name: Seq<char>,
    ) -> DispatchView<R> {
        through_registry(self.classification(), message, installed, operation_name)
    }

    /// Throws the error as the class that [`WebpError::classify`] gives it.
    fn throw<C, V>(self, message: String, module: &Registry<C>, operation_name: &str) -> (result:
        Result<V, Dispatch<R>>) {
        throw_classified(self.classify(), message, module, operation_name)
    }
}

} // verus!
