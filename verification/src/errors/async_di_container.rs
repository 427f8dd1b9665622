//! Error types for the asynchronous DI container and its related structs.
use vstd::prelude::*;

use crate::errors::injectable::InjectableError;

verus! {

/// Error type for the asynchronous DI container.
#[derive(Debug)]
pub enum AsyncDIContainerError {
    /// Unable to cast a binding for a interface.
    CastFailed {
        /// The interface.
        interface: &'static str,
        /// The kind of the found binding.
        binding_kind: &'static str,
    },
    /// Failed to resolve a binding for a interface.
    BindingResolveFailed {
        /// The reason for the problem.
        reason: InjectableError,
        /// The affected bound interface.
        interface: &'static str,
    },
    /// No binding exists for a interface (and optionally a name).
    BindingNotFound {
        /// The interface that doesn't have a binding.
        interface: &'static str,
        /// The name of the binding if one exists.
        name: Option<&'static str>,
    },
    /// A interface has not been marked async.
    InterfaceNotAsync(&'static str),
}

/// Error type for `AsyncBindingBuilder`.
#[derive(Debug)]
pub enum AsyncBindingBuilderError {
    /// A binding already exists for a interface.
    BindingAlreadyExists(&'static str),
}

/// Error type for `AsyncBindingScopeConfigurator`.
#[derive(Debug)]
pub enum AsyncBindingScopeConfiguratorError {
    /// Resolving a singleton failed.
    SingletonResolveFailed(InjectableError),
}

/// Error type for `AsyncBindingWhenConfigurator`.
#[derive(Debug)]
pub enum AsyncBindingWhenConfiguratorError {
    /// A binding for a interface wasn't found.
    BindingNotFound(&'static str),
}

} // verus!
