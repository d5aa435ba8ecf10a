//! Throwing: from a native error to the one exception that the host sees.
//!
//! A throw never hands a value back. It ends in a [`Dispatch`], which tells the
//! embedding what to do in the host. Where that is a constructor call, the host
//! may still fail to build the exception; [`Dispatch::settle`] then falls back
//! to an exception that carries the message alone, so that every failure
//! surfaces.

use crate::kind::ErrorKind;
use crate::properties::{Classification, ClassificationView};
use crate::registry::{new_js_error, ConstructorCall, ConstructorCallView, Registry};
use vstd::prelude::*;

verus! {

/// What a throw asks of the host. `R` is the host's reference to an exception
/// object that it threw itself.
#[derive(Debug, PartialEq, Eq)]
pub enum Dispatch<R> {
    /// Build the exception with this constructor call and raise it; if the
    /// host cannot build it, raise an exception with the call's message alone.
    Construct(ConstructorCall),
    /// The exception should have been built as this kind, and the module has
    /// no classes to build it with: report that, and raise a base exception
    /// with this message and nothing else.
    Fallback { message: String, kind: Option<ErrorKind> },
    /// Raise this exception object again, as it is.
    Rethrow(R),
    /// Raise a base exception with this message and nothing else.
    Message(String),
    /// An exception is pending in the host already: let it pass.
    Pending,
}

/// A [`Dispatch`] as contracts see it.
pub enum DispatchView<R> {
    Construct(ConstructorCallView),
    Fallback { message: Seq<char>, kind: Option<ErrorKind> },
    Rethrow(R),
    Message(Seq<char>),
    Pending,
}

impl<R> View for Dispatch<R> {
    type V = DispatchView<R>;

    open spec fn view(&self) -> DispatchView<R> {
        match *self {
            Dispatch::Construct(call) => DispatchView::Construct(call@),
            Dispatch::Fallback { message, kind } => DispatchView::Fallback {
                message: message@,
                kind,
            },
            Dispatch::Rethrow(reference) => DispatchView::Rethrow(reference),
            Dispatch::Message(message) => DispatchView::Message(message@),
            Dispatch::Pending => DispatchView::Pending,
        }
    }
}

/// The exception that leaves a failing operation. `O` is the host's handle to
/// an object that its constructor built, `R` its reference to an exception
/// that it threw itself.
#[derive(Debug, PartialEq, Eq)]
pub enum Raised<O, R> {
    /// The exception that the base class constructor built.
    Constructed(O),
    /// The exception that a host callback threw, unchanged.
    Rethrown(R),
    /// A base exception with this message and nothing else.
    Message(String),
    /// The exception that was pending in the host already.
    Pending,
}

/// A [`Raised`] as contracts see it.
pub enum RaisedView<O, R> {
    Constructed(O),
    Rethrown(R),
    Message(Seq<char>),
    Pending,
}

impl<O, R> View for Raised<O, R> {
    type V = RaisedView<O, R>;

    open spec fn view(&self) -> RaisedView<O, R> {
        match *self {
            Raised::Constructed(object) => RaisedView::Constructed(object),
            Raised::Rethrown(reference) => RaisedView::Rethrown(reference),
            Raised::Message(message) => RaisedView::Message(message@),
            Raised::Pending => RaisedView::Pending,
        }
    }
}

impl<R> DispatchView<R> {
    /// The exception that a dispatch ends in, where `built` is what the host's
    /// constructor handed back: the object, or `None` where it failed. Only a
    /// constructor call looks at `built`.
    pub open spec fn settled<O>(self, built: Option<O>) -> RaisedView<O, R> {
        match self {
            DispatchView::Construct(call) => match built {
                Some(object) => RaisedView::Constructed(object),
                None => RaisedView::Message(call.message),
            },
            DispatchView::Fallback { message, kind } => RaisedView::Message(message),
            DispatchView::Rethrow(reference) => RaisedView::Rethrown(reference),
            DispatchView::Message(message) => RaisedView::Message(message),
            DispatchView::Pending => RaisedView::Pending,
        }
    }
}

impl<R> Dispatch<R> {
    /// Ends a throw, once the host has done its part.
    ///
    /// For a constructor call, `built` is what the constructor handed back,
    /// `None` where it failed; the exception is then the built object, or a
    /// base exception with the call's message. Any other dispatch names its
    /// exception already, whatever `built` is.
    pub fn settle<O>(self, built: Option<O>) -> (raised: Raised<O, R>)
        ensures
            raised@ == self@.settled(built),
    {
        match self {
            Dispatch::Construct(call) => match built {
                Some(object) => Raised::Constructed(object),
                None => Raised::Message(call.message),
            },
            Dispatch::Fallback { message, kind } => Raised::Message(message),
            Dispatch::Rethrow(reference) => Raised::Rethrown(reference),
            Dispatch::Message(message) => Raised::Message(message),
            Dispatch::Pending => Raised::Pending,
        }
    }
}

/// What a throw through the module's classes asks of the host: the
/// constructor call for the classified error where a table is installed, and
/// else the fallback, a base exception with the message alone.
pub open spec fn through_registry<R>(
    classification: ClassificationView,
    message: Seq<char>,
    installed: bool,
    operation_name: Seq<char>,
) -> DispatchView<R> {
    if installed {
        DispatchView::Construct(
            ConstructorCallView {
                message,
                kind: classification.kind,
                operation_name,
                extra: classification.extra,
            },
        )
    } else {
        DispatchView::Fallback { message, kind: classification.kind }
    }
}

/// Throws an error that the taxonomy has classified.
///
/// The exception is built through the module's classes, as the class and with
/// the properties of `classification`, with `message` and the name of the
/// operation that failed. Where the module has no classes installed, the
/// fallback is a base exception with `message` alone. The result is always
/// `Err`: a throw hands no value back.
pub fn throw_classified<C, V, R>(
    classification: Classification,
    message: String,
    module: &Registry<C>,
    operation_name: &str,
) -> (result: Result<V, Dispatch<R>>)
    ensures
        result is Err,
        result->Err_0@ == through_registry::<R>(
            classification@,
            message@,
            module.installed(),
            operation_name@,
        ),
{
    let Classification { kind, extra } = classification;
    match new_js_error(module, kind, message.as_str(), operation_name, extra) {
        Some(call) => Err(Dispatch::Construct(call)),
        None => Err(Dispatch::Fallback { message, kind }),
    }
}

/// A native error that can be thrown into the host.
///
/// `R` is the host's reference to an exception object that it threw itself;
/// only an error that carries such a reference ever hands one out.
pub trait SignalNodeError<R>: Sized {
    /// What throwing this error asks of the host, given the error's textual
    /// form, whether the module has its classes installed, and the name of the
    /// operation that failed.
    spec fn thrown(
        self,
        message: Seq<char>,
        installed: bool,
        operation_name: Seq<char>,
    ) -> DispatchView<R>;

    /// Throws the error. `message` is its textual form.
    ///
    /// The result is always `Err`: a throw raises one exception and hands no
    /// value back. The `Ok` type is the caller's, so that a failing operation
    /// can end in `return error.throw(..)`. Where the exception is built by
    /// the host's constructor, the keys of its properties are those of its
    /// kind.
    fn throw<C, V>(self, message: String, module: &Registry<C>, operation_name: &str) -> (result:
        Result<V, Dispatch<R>>)
        ensures
            result is Err,
            result->Err_0@ == self.thrown(message@, module.installed(), operation_name@),
            result->Err_0@ matches DispatchView::Construct(call) ==> (ClassificationView {
                kind: call.kind,
                extra: call.extra,
            }).keys_follow_kind(),
    ;
}

/// The token of an exception that the host has raised already and that is
/// still pending.
#[derive(Debug, PartialEq, Eq)]
pub struct Throw;

impl<R> SignalNodeError<R> for Throw {
    open spec fn thrown(
        self,
        message: Seq<char>,
        installed: bool,
        operation_name: Seq<char>,
    ) -> DispatchView<R> {
        DispatchView::Pending
    }

    /// Lets the pending exception pass: nothing is built and nothing else is
    /// raised.
    fn throw<C, V>(self, message: String, module: &Registry<C>, operation_name: &str) -> (result:
        Result<V, Dispatch<R>>) {
        Err(Dispatch::Pending)
    }
}

} // verus!
