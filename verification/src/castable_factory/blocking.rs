//! A factory called with a reference to a DI container.
use std::marker::PhantomData;

use vstd::prelude::*;

use crate::interfaces::any_factory::AnyFactory;
use crate::interfaces::factory::IFactory;
use crate::ptr::TransientPtr;

verus! {

/// A factory that creates a `ReturnInterface` from a `&DIContainerT` with the function
/// `Func`.
#[verifier::reject_recursive_types(ReturnInterface)]
#[verifier::reject_recursive_types(DIContainerT)]
pub struct CastableFactory<
    ReturnInterface: ?Sized + 'static,
    DIContainerT: 'static,
    Func: Fn(&DIContainerT) -> TransientPtr<ReturnInterface>,
> {
    func: Func,
    return_phantom: PhantomData<ReturnInterface>,
    di_container_phantom: PhantomData<DIContainerT>,
}

impl<ReturnInterface, DIContainerT, Func> CastableFactory<ReturnInterface, DIContainerT, Func> where
    ReturnInterface: ?Sized + 'static,
    DIContainerT: 'static,
    Func: Fn(&DIContainerT) -> TransientPtr<ReturnInterface>,
 {
    /// The function of the factory.
    pub closed spec fn func(&self) -> Func {
        self.func
    }

    /// The function accepts every DI container.
    #[verifier::type_invariant]
    spec fn accepts_every_container(self) -> bool {
        forall|di_container: &DIContainerT| #[trigger] self.func.requires((di_container,))
    }

    /// Returns a factory that calls `func`.
    pub fn new(func: Func) -> (factory: Self)
        requires
            forall|di_container: &DIContainerT| #[trigger] func.requires((di_container,)),
        ensures
            factory.func() == func,
    {
        Self { func, return_phantom: PhantomData, di_container_phantom: PhantomData }
    }
}

impl<ReturnInterface, DIContainerT, Func> IFactory<ReturnInterface, DIContainerT> for CastableFactory<
    ReturnInterface,
    DIContainerT,
    Func,
> where
    ReturnInterface: ?Sized + 'static,
    DIContainerT: 'static,
    Func: Fn(&DIContainerT) -> TransientPtr<ReturnInterface>,
 {
    fn call(&self, di_container: &DIContainerT) -> (res: TransientPtr<ReturnInterface>)
        ensures
            call_ensures(self.func(), (di_container,), res),
    {
        proof {
            use_type_invariant(self);
        }
        (self.func)(di_container)
    }
}

impl<ReturnInterface, DIContainerT, Func> AnyFactory for CastableFactory<
    ReturnInterface,
    DIContainerT,
    Func,
> where
    ReturnInterface: ?Sized + 'static,
    DIContainerT: 'static,
    Func: Fn(&DIContainerT) -> TransientPtr<ReturnInterface>,
 {

}

} // verus!
