//! Interface for structs that can be injected into or be injected to.
use std::rc::Rc;
use std::sync::Arc;

use vstd::prelude::*;

use crate::errors::injectable::InjectableError;
use crate::ptr::TransientPtr;
use crate::ptr_buffer::PtrBuffer;

verus! {

/// Interface for structs that can be injected into or be injected to.
pub trait Injectable<DIContainerT>: 'static {
    /// Resolves the dependencies of the injectable. `dependency_history` holds the names
    /// of the injectables being resolved, outermost first.
    ///
    /// # Errors
    /// Will return `Err` if resolving the dependencies fails.
    fn resolve(di_container: &DIContainerT, dependency_history: Vec<&'static str>) -> Result<
        TransientPtr<Self>,
        InjectableError,
    > where Self: Sized;

    /// Erases the type of a boxed injectable.
    fn into_ptr_buffer_box(self: Box<Self>) -> PtrBuffer;

    /// Erases the type of a reference-counted injectable.
    fn into_ptr_buffer_rc(self: Rc<Self>) -> PtrBuffer;

    /// Erases the type of an atomically reference-counted injectable.
    fn into_ptr_buffer_arc(self: Arc<Self>) -> PtrBuffer;
}

} // verus!
