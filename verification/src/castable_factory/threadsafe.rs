//! A factory that can be shared between threads.
use std::marker::PhantomData;

use vstd::prelude::*;

use crate::interfaces::any_factory::{AnyFactory, AnyThreadsafeFactory};
use crate::ptr::TransientPtr;

verus! {

/// Interface for a castable factory that can be shared between threads.
pub trait AnyThreadsafeCastableFactory: AnyThreadsafeFactory {}

/// A factory that creates a `ReturnInterface` from a `&DIContainerT` with the function
/// `Func`, which can be shared between threads.
#[verifier::reject_recursive_types(ReturnInterface)]
#[verifier::reject_recursive_types(DIContainerT)]
pub struct ThreadsafeCastableFactory<
    ReturnInterface: ?Sized + 'static,
    DIContainerT: 'static,
    Func: Fn(&DIContainerT) -> TransientPtr<ReturnInterface> + Send + Sync,
> {
    func: Func,
    return_phantom: PhantomData<ReturnInterface>,
    di_container_phantom: PhantomData<DIContainerT>,
}

impl<ReturnInterface, DIContainerT, Func> ThreadsafeCastableFactory<
    ReturnInterface,
    DIContainerT,
    Func,
> where
    ReturnInterface: ?Sized + 'static,
    DIContainerT: 'static,
    Func: Fn(&DIContainerT) -> TransientPtr<ReturnInterface> + Send + Sync,
 {
    /// The function of the factory.
    pub closed spec fn func(&self) -> Func {
        self.func
    }

    /// The function accepts every DI container.
    #[verifier::type_invariant]
    spec fn accepts_every_container(self) -> bool {
        forall|di_container: &DIContainerT| #[trigger] self.func.requires((di_container,))
    }

    /// Returns a factory that calls `func`.
    pub fn new(func: Func) -> (factory: Self)
        requires
            forall|di_container: &DIContainerT| #[trigger] func.requires((di_container,)),
        ensures
            factory.func() == func,
    {
        Self { func, return_phantom: PhantomData, di_container_phantom: PhantomData }
    }

    /// Creates a value with the DI container `di_container`.
    pub fn call(&self, di_container: &DIContainerT) -> (res: TransientPtr<ReturnInterface>)
        ensures
            call_ensures(self.func(), (di_container,), res),
    {
        proof {
            use_type_invariant(self);
        }
        (self.func)(di_container)
    }
}

impl<ReturnInterface, DIContainerT, Func> AnyFactory for ThreadsafeCastableFactory<
    ReturnInterface,
    DIContainerT,
    Func,
> where
    ReturnInterface: ?Sized + 'static,
    DIContainerT: 'static,
    Func: Fn(&DIContainerT) -> TransientPtr<ReturnInterface> + Send + Sync,
 {

}

impl<ReturnInterface, DIContainerT, Func> AnyThreadsafeFactory for ThreadsafeCastableFactory<
    ReturnInterface,
    DIContainerT,
    Func,
> where
    ReturnInterface: ?Sized + 'static,
    DIContainerT: 'static,
    Func: Fn(&DIContainerT) -> TransientPtr<ReturnInterface> + Send + Sync,
 {

}

impl<ReturnInterface, DIContainerT, Func> AnyThreadsafeCastableFactory for ThreadsafeCastableFactory<
    ReturnInterface,
    DIContainerT,
    Func,
> where
    ReturnInterface: ?Sized + 'static,
    DIContainerT: 'static,
    Func: Fn(&DIContainerT) -> TransientPtr<ReturnInterface> + Send + Sync,
 {

}

} // verus!
