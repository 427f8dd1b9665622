//! Smart pointer type aliases and the enums that carry one of them.
use std::rc::Rc;
use std::sync::Arc;

use vstd::prelude::*;

use crate::errors::ptr::{SomePtrError, SomeThreadsafePtrError};

verus! {

/// A smart pointer for a interface in the transient scope.
pub type TransientPtr<Interface> = Box<Interface>;

/// A smart pointer to a interface in the singleton scope.
pub type SingletonPtr<Interface> = Rc<Interface>;

/// A threadsafe smart pointer to a interface in the singleton scope.
pub type ThreadsafeSingletonPtr<Interface> = Arc<Interface>;

/// A smart pointer to a factory.
pub type FactoryPtr<FactoryInterface> = Rc<FactoryInterface>;

/// A threadsafe smart pointer to a factory.
pub type ThreadsafeFactoryPtr<FactoryInterface> = Arc<FactoryInterface>;

/// Some smart pointer.
pub enum SomePtr<Interface: ?Sized + 'static> {
    /// A smart pointer to a interface in the transient scope.
    Transient(TransientPtr<Interface>),
    /// A smart pointer to a interface in the singleton scope.
    Singleton(SingletonPtr<Interface>),
    /// A smart pointer to a factory.
    Factory(FactoryPtr<Interface>),
}

impl<Interface: ?Sized + 'static> SomePtr<Interface> {
    /// The name of the variant.
    pub open spec fn spec_variant_name(&self) -> &'static str {
        match self {
            SomePtr::Transient(_) => "Transient",
            SomePtr::Singleton(_) => "Singleton",
            SomePtr::Factory(_) => "Factory",
        }
    }

    /// Returns the name of the variant.
    pub fn variant_name(&self) -> (name: &'static str)
        ensures
            name == self.spec_variant_name(),
    {
        match self {
            SomePtr::Transient(_) => "Transient",
            SomePtr::Singleton(_) => "Singleton",
            SomePtr::Factory(_) => "Factory",
        }
    }

    /// Returns as the `Transient` variant.
    ///
    /// # Errors
    /// Will return Err if it's not the `Transient` variant.
    pub fn transient(self) -> (res: Result<TransientPtr<Interface>, SomePtrError>)
        ensures
            match self {
                SomePtr::Transient(ptr) => res == Ok::<TransientPtr<Interface>, SomePtrError>(ptr),
                _ => res == Err::<TransientPtr<Interface>, SomePtrError>(
                    SomePtrError::WrongPtrType {
                        expected: "Transient",
                        found: self.spec_variant_name(),
                    },
                ),
            },
    {
        let found = self.variant_name();
        match self {
            SomePtr::Transient(ptr) => Ok(ptr),
            _ => Err(SomePtrError::WrongPtrType { expected: "Transient", found }),
        }
    }

    /// Returns as the `Singleton` variant.
    ///
    /// # Errors
    /// Will return Err if it's not the `Singleton` variant.
    pub fn singleton(self) -> (res: Result<SingletonPtr<Interface>, SomePtrError>)
        ensures
            match self {
                SomePtr::Singleton(ptr) => res == Ok::<SingletonPtr<Interface>, SomePtrError>(ptr),
                _ => res == Err::<SingletonPtr<Interface>, SomePtrError>(
                    SomePtrError::WrongPtrType {
                        expected: "Singleton",
                        found: self.spec_variant_name(),
                    },
                ),
            },
    {
        let found = self.variant_name();
        match self {
            SomePtr::Singleton(ptr) => Ok(ptr),
            _ => Err(SomePtrError::WrongPtrType { expected: "Singleton", found }),
        }
    }

    /// Returns as the `Factory` variant.
    ///
    /// # Errors
    /// Will return Err if it's not the `Factory` variant.
    pub fn factory(self) -> (res: Result<FactoryPtr<Interface>, SomePtrError>)
        ensures
            match self {
                SomePtr::Factory(ptr) => res == Ok::<FactoryPtr<Interface>, SomePtrError>(ptr),
                _ => res == Err::<FactoryPtr<Interface>, SomePtrError>(
                    SomePtrError::WrongPtrType {
                        expected: "Factory",
                        found: self.spec_variant_name(),
                    },
                ),
            },
    {
        let found = self.variant_name();
        match self {
            SomePtr::Factory(ptr) => Ok(ptr),
            _ => Err(SomePtrError::WrongPtrType { expected: "Factory", found }),
        }
    }
}

/// Some threadsafe smart pointer.
pub enum SomeThreadsafePtr<Interface: ?Sized + 'static> {
    /// A smart pointer to a interface in the transient scope.
    Transient(TransientPtr<Interface>),
    /// A smart pointer to a interface in the singleton scope.
    ThreadsafeSingleton(ThreadsafeSingletonPtr<Interface>),
    /// A smart pointer to a factory.
    ThreadsafeFactory(ThreadsafeFactoryPtr<Interface>),
}

impl<Interface: ?Sized + 'static> SomeThreadsafePtr<Interface> {
    /// The name of the variant.
    pub open spec fn spec_variant_name(&self) -> &'static str {
        match self {
            SomeThreadsafePtr::Transient(_) => "Transient",
            SomeThreadsafePtr::ThreadsafeSingleton(_) => "ThreadsafeSingleton",
            SomeThreadsafePtr::ThreadsafeFactory(_) => "ThreadsafeFactory",
        }
    }

    /// Returns the name of the variant.
    pub fn variant_name(&self) -> (name: &'static str)
        ensures
            name == self.spec_variant_name(),
    {
        match self {
            SomeThreadsafePtr::Transient(_) => "Transient",
            SomeThreadsafePtr::ThreadsafeSingleton(_) => "ThreadsafeSingleton",
            SomeThreadsafePtr::ThreadsafeFactory(_) => "ThreadsafeFactory",
        }
    }

    /// Returns as the `Transient` variant.
    ///
    /// # Errors
    /// Will return Err if it's not the `Transient` variant.
    pub fn transient(self) -> (res: Result<TransientPtr<Interface>, SomeThreadsafePtrError>)
        ensures
            match self {
                SomeThreadsafePtr::Transient(ptr) => res == Ok::<
                    TransientPtr<Interface>,
                    SomeThreadsafePtrError,
                >(ptr),
                _ => res == Err::<TransientPtr<Interface>, SomeThreadsafePtrError>(
                    SomeThreadsafePtrError::WrongPtrType {
                        expected: "Transient",
                        found: self.spec_variant_name(),
                    },
                ),
            },
    {
        let found = self.variant_name();
        match self {
            SomeThreadsafePtr::Transient(ptr) => Ok(ptr),
            _ => Err(SomeThreadsafePtrError::WrongPtrType { expected: "Transient", found }),
        }
    }

    /// Returns as the `ThreadsafeSingleton` variant.
    ///
    /// # Errors
    /// Will return Err if it's not the `ThreadsafeSingleton` variant.
    pub fn threadsafe_singleton(self) -> (res: Result<
        ThreadsafeSingletonPtr<Interface>,
        SomeThreadsafePtrError,
    >)
        ensures
            match self {
                SomeThreadsafePtr::ThreadsafeSingleton(ptr) => res == Ok::<
                    ThreadsafeSingletonPtr<Interface>,
                    SomeThreadsafePtrError,
                >(ptr),
                _ => res == Err::<ThreadsafeSingletonPtr<Interface>, SomeThreadsafePtrError>(
                    SomeThreadsafePtrError::WrongPtrType {
                        expected: "ThreadsafeSingleton",
                        found: self.spec_variant_name(),
                    },
                ),
            },
    {
        let found = self.variant_name();
        match self {
            SomeThreadsafePtr::ThreadsafeSingleton(ptr) => Ok(ptr),
            _ => Err(
                SomeThreadsafePtrError::WrongPtrType { expected: "ThreadsafeSingleton", found },
            ),
        }
    }

    /// Returns as the `ThreadsafeFactory` variant.
    ///
    /// # Errors
    /// Will return Err if it's not the `ThreadsafeFactory` variant.
    pub fn threadsafe_factory(self) -> (res: Result<
        ThreadsafeFactoryPtr<Interface>,
        SomeThreadsafePtrError,
    >)
        ensures
            match self {
                SomeThreadsafePtr::ThreadsafeFactory(ptr) => res == Ok::<
                    ThreadsafeFactoryPtr<Interface>,
                    SomeThreadsafePtrError,
                >(ptr),
                _ => res == Err::<ThreadsafeFactoryPtr<Interface>, SomeThreadsafePtrError>(
                    SomeThreadsafePtrError::WrongPtrType {
                        expected: "ThreadsafeFactory",
                        found: self.spec_variant_name(),
                    },
                ),
            },
    {
        let found = self.variant_name();
        match self {
            SomeThreadsafePtr::ThreadsafeFactory(ptr) => Ok(ptr),
            _ => Err(
                SomeThreadsafePtrError::WrongPtrType { expected: "ThreadsafeFactory", found },
            ),
        }
    }
}

} // verus!

verus! {

/// Calls `<Rc<T> as From<Box<T>>>::from`, which moves the boxed value into a new `Rc`.
#[verifier::external_body]
pub(crate) fn rc_from_box<T: ?Sized>(boxed: Box<T>) -> (rc: Rc<T>)
    ensures
        &*rc == &*boxed,
{
    Rc::from(boxed)
}

/// Calls `<Rc<T> as Clone>::clone`, which makes another pointer to the same allocation,
/// so the clone points to the same value.
#[verifier::external_body]
pub(crate) fn rc_clone<T: ?Sized>(rc: &Rc<T>) -> (res: Rc<T>)
    ensures
        res == *rc,
{
    rc.clone()
}

/// Calls `<Arc<T> as From<Box<T>>>::from`, which moves the boxed value into a new `Arc`.
#[verifier::external_body]
pub(crate) fn arc_from_box<T: ?Sized>(boxed: Box<T>) -> (arc: Arc<T>)
    ensures
        &*arc == &*boxed,
{
    Arc::from(boxed)
}

} // verus!
