//! Interfaces of factories.
use std::sync::Arc;

use vstd::prelude::*;

use crate::interfaces::any_factory::{AnyFactory, AnyThreadsafeFactory};
use crate::ptr::TransientPtr;

verus! {

/// Interface for a factory.
pub trait IFactory<ReturnInterface: ?Sized + 'static, DIContainerT>: AnyFactory {
    /// Creates a value with the DI container `di_container`.
    fn call(&self, di_container: &DIContainerT) -> TransientPtr<ReturnInterface>;
}

/// Interface for a threadsafe factory.
pub trait IThreadsafeFactory<ReturnInterface: ?Sized + 'static, DIContainerT>: AnyThreadsafeFactory {
    /// Creates a value with the shared DI container `di_container`.
    fn call(&self, di_container: Arc<DIContainerT>) -> TransientPtr<ReturnInterface>;
}

} // verus!
