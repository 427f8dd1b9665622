//! Interface for any factory to ever exist.
use vstd::prelude::*;

verus! {

/// Interface for any factory to ever exist.
pub trait AnyFactory {}

/// Interface for any threadsafe factory to ever exist.
pub trait AnyThreadsafeFactory: AnyFactory {}

} // verus!
