//! The table of host exception classes, and the call that builds an exception
//! through it.
//!
//! The host installs its classes once, when the module starts. Every exception
//! is then built by calling the base class of that table; the base class picks
//! the subclass by the kind it is handed.

use crate::kind::{ErrorKind, PropertyKey};
use crate::properties::{ExtraProperties, PropertyValueView};
use vstd::prelude::*;

verus! {

/// The module's exception classes: empty until the host installs its table,
/// and never changed after that. `C` is the host's handle to the table.
#[derive(Debug)]
pub struct Registry<C> {
    classes: Option<C>,
}

impl<C> View for Registry<C> {
    type V = Option<C>;

    closed spec fn view(&self) -> Option<C> {
        self.classes
    }
}

impl<C> Registry<C> {
    /// A registry in which nothing is installed yet.
    pub fn new() -> (registry: Registry<C>)
        ensures
            registry@ is None,
    {
        Registry { classes: None }
    }

    /// Whether the host has installed its classes.
    pub open spec fn installed(&self) -> bool {
        self@ is Some
    }

    /// Whether the host has installed its classes.
    pub fn is_installed(&self) -> (installed: bool)
        ensures
            installed == self.installed(),
    {
        self.classes.is_some()
    }

    /// The installed table, if there is one.
    pub fn classes(&self) -> (classes: Option<&C>)
        ensures
            match classes {
                Some(table) => self@ == Some(*table),
                None => self@ is None,
            },
    {
        self.classes.as_ref()
    }
}

/// Installs the host's table of exception classes in the module.
///
/// The table is written once. The first call installs `errors_module`. A later
/// call leaves the installed table as it is and hands `errors_module` back as
/// the error, for the caller to dispose of.
#[allow(non_snake_case)]
pub fn node_registerErrors<C>(module: &mut Registry<C>, errors_module: C) -> (outcome: Result<
    (),
    C,
>)
    ensures
        match outcome {
            Ok(_) => !old(module).installed() && final(module)@ == Some(errors_module),
            Err(refused) => old(module).installed() && final(module)@ == old(module)@ && refused
                == errors_module,
        },
{
    if module.classes.is_some() {
        Err(errors_module)
    } else {
        module.classes = Some(errors_module);
        Ok(())
    }
}

/// One call of the host's base class constructor. The fields are its
/// arguments, in the constructor's order; a `None` is handed over as the
/// host's undefined value.
#[derive(Debug, PartialEq, Eq)]
pub struct ConstructorCall {
    pub message: String,
    pub kind: Option<ErrorKind>,
    pub operation_name: String,
    pub extra: Option<ExtraProperties>,
}

/// A [`ConstructorCall`] as contracts see it.
pub struct ConstructorCallView {
    pub message: Seq<char>,
    pub kind: Option<ErrorKind>,
    pub operation_name: Seq<char>,
    pub extra: Option<Map<PropertyKey, PropertyValueView>>,
}

impl View for ConstructorCall {
    type V = ConstructorCallView;

    open spec fn view(&self) -> ConstructorCallView {
        ConstructorCallView {
            message: self.message@,
            kind: self.kind,
            operation_name: self.operation_name@,
            extra: match self.extra {
                Some(properties) => Some(properties@),
                None => None,
            },
        }
    }
}

/// One argument of the base class constructor.
#[derive(Debug, PartialEq, Eq)]
pub enum Argument {
    /// A string.
    Text(String),
    /// An object with the structured properties as its fields.
    Properties(ExtraProperties),
    /// The host's undefined value.
    Undefined,
}

/// An [`Argument`] as contracts see it.
pub enum ArgumentView {
    Text(Seq<char>),
    Properties(Map<PropertyKey, PropertyValueView>),
    Undefined,
}

impl View for Argument {
    type V = ArgumentView;

    open spec fn view(&self) -> ArgumentView {
        match *self {
            Argument::Text(text) => ArgumentView::Text(text@),
            Argument::Properties(properties) => ArgumentView::Properties(properties@),
            Argument::Undefined => ArgumentView::Undefined,
        }
    }
}

/// The arguments of a list, each as contracts see it.
pub open spec fn argument_views(list: Seq<Argument>) -> Seq<ArgumentView> {
    Seq::new(list.len(), |i: int| list[i]@)
}

impl ConstructorCallView {
    /// The arguments that the constructor is called with: the message, the
    /// name of the kind, the name of the operation and the properties, in
    /// this order. Where there is no kind, or where there are no properties,
    /// the argument is the undefined value.
    pub open spec fn arguments(self) -> Seq<ArgumentView> {
        seq![
            ArgumentView::Text(self.message),
            match self.kind {
                Some(kind) => ArgumentView::Text(kind.name_spec()),
                None => ArgumentView::Undefined,
            },
            ArgumentView::Text(self.operation_name),
            match self.extra {
                Some(properties) => ArgumentView::Properties(properties),
                None => ArgumentView::Undefined,
            },
        ]
    }
}

impl ConstructorCall {
    /// The arguments that the constructor is called with, in the
    /// constructor's order.
    pub fn arguments(&self) -> (arguments: Vec<Argument>)
        ensures
            argument_views(arguments@) == self@.arguments(),
    {
        let mut arguments: Vec<Argument> = Vec::new();
        arguments.push(Argument::Text(self.message.clone()));
        arguments.push(
            match self.kind {
                Some(kind) => Argument::Text(kind.name().to_owned()),
                None => Argument::Undefined,
            },
        );
        arguments.push(Argument::Text(self.operation_name.clone()));
        arguments.push(
            match &self.extra {
                Some(properties) => Argument::Properties(properties.clone()),
                None => Argument::Undefined,
            },
        );
        assert(argument_views(arguments@) =~= self@.arguments());
        arguments
    }
}

/// The name under which the table of classes keeps the base class.
pub const ERROR_CLASS_NAME: &'static str = "LibSignalErrorBase";

/// The view of the properties, where there are any.
pub open spec fn extra_view(extra: Option<ExtraProperties>) -> Option<
    Map<PropertyKey, PropertyValueView>,
> {
    match extra {
        Some(properties) => Some(properties@),
        None => None,
    }
}

/// Prepares the construction of one exception through the module's classes.
///
/// With a table installed, the result is the constructor call that builds the
/// exception: the message, the kind (`None` for the base class itself), the
/// operation that failed and the properties, each as given. With no table
/// installed there is nothing to construct with, and the result is `None`;
/// the caller then raises an exception that carries the message alone.
pub fn new_js_error<C>(
    module: &Registry<C>,
    name: Option<ErrorKind>,
    message: &str,
    operation: &str,
    extra_props: Option<ExtraProperties>,
) -> (call: Option<ConstructorCall>)
    ensures
        call is Some <==> module.installed(),
        module.installed() ==> call->Some_0@ == (ConstructorCallView {
            message: message@,
            kind: name,
            operation_name: operation@,
            extra: extra_view(extra_props),
        }),
{
    if module.is_installed() {
        Some(
            ConstructorCall {
                message: message.to_owned(),
                kind: name,
                operation_name: operation.to_owned(),
                extra: extra_props,
            },
        )
    } else {
        None
    }
}

} // verus!
