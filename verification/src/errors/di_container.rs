//! Error types for [`DIContainer`](crate::di_container::blocking::DIContainer) and its
//! related structs.
use vstd::prelude::*;

use crate::errors::injectable::InjectableError;

verus! {

/// Error type for `DIContainer`.
#[derive(Debug)]
pub enum DIContainerError {
    /// Unable to cast a binding for a interface.
    CastFailed {
        /// The interface.
        interface: &'static str,
        /// The kind of the found binding.
        binding_kind: &'static str,
    },
    /// Failed to resolve a binding for a interface.
    BindingResolveFailed {
        /// The reason for the problem.
        reason: InjectableError,
        /// The affected bound interface.
        interface: &'static str,
    },
    /// No binding exists for a interface (and optionally a name).
    BindingNotFound {
        /// The interface that doesn't have a binding.
        interface: &'static str,
        /// The name of the binding if one exists.
        name: Option<String>,
    },
}

/// Error type for `BindingBuilder`.
#[derive(Debug)]
pub enum BindingBuilderError {
    /// A binding already exists for a interface.
    BindingAlreadyExists(&'static str),
}

/// Error type for `BindingScopeConfigurator`.
#[derive(Debug)]
pub enum BindingScopeConfiguratorError {
    /// Resolving a singleton failed.
    SingletonResolveFailed(InjectableError),
}

/// Error type for `BindingWhenConfigurator`.
#[derive(Debug)]
pub enum BindingWhenConfiguratorError {
    /// A binding for a interface wasn't found.
    BindingNotFound(&'static str),
}

} // verus!
