//! Error types for structs that implement [`Injectable`](crate::interfaces::injectable::Injectable).
use vstd::prelude::*;

use crate::errors::async_di_container::AsyncDIContainerError;
use crate::errors::di_container::DIContainerError;
use crate::errors::ptr::SomePtrError;

verus! {

/// Error type for structs that implement `Injectable`.
#[derive(Debug)]
#[allow(inconsistent_fields)]
pub enum InjectableError {
    /// Failed to resolve dependencies.
    ResolveFailed {
        /// The reason for the problem.
        reason: Box<DIContainerError>,
        /// The affected injectable type.
        affected: &'static str,
    },
    /// Failed to resolve dependencies of an asynchronously resolved type.
    AsyncResolveFailed {
        /// The reason for the problem.
        reason: Box<AsyncDIContainerError>,
        /// The affected injectable type.
        affected: &'static str,
    },
    /// Detected circular dependencies.
    DetectedCircular {
        /// History of dependencies.
        dependency_history: Vec<&'static str>,
    },
    /// Failed to prepare a dependency.
    PrepareDependencyFailed {
        /// Error reason.
        reason: SomePtrError,
        /// The name of the dependency.
        dependency_name: &'static str,
    },
}

} // verus!
