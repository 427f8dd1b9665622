//! Errors of the smart pointer enums.
use vstd::prelude::*;

verus! {

/// Error type for [`SomePtr`](crate::ptr::SomePtr).
#[derive(Debug)]
pub enum SomePtrError {
    /// Tried to get as a wrong smart pointer type.
    WrongPtrType {
        /// The expected smart pointer type.
        expected: &'static str,
        /// The found smart pointer type.
        found: &'static str,
    },
}

/// Error type for [`SomeThreadsafePtr`](crate::ptr::SomeThreadsafePtr).
#[derive(Debug)]
pub enum SomeThreadsafePtrError {
    /// Tried to get as a wrong threadsafe smart pointer type.
    WrongPtrType {
        /// The expected smart pointer type.
        expected: &'static str,
        /// The found smart pointer type.
        found: &'static str,
    },
}

} // verus!
