//! Scope configurator for a binding for types inside of a [`AsyncDIContainer`].
use std::marker::PhantomData;

use vstd::prelude::*;

use crate::di_container::asynchronous::binding::when_configurator::AsyncBindingWhenConfigurator;
use crate::di_container::asynchronous::AsyncDIContainer;
use crate::di_container::{BindingOptions, InterfaceId};
use crate::errors::async_di_container::AsyncBindingScopeConfiguratorError;
use crate::di_container::binding_storage::BindingKeyView;
use crate::errors::injectable::InjectableError;
use crate::provider::threadsafe::{
    spec_binds_async_singleton,
    spec_binds_async_transient,
    AsyncBoxedProvider,
    AsyncBoxedTransient,
    AsyncSingletonProvider,
    AsyncTransientTypeProvider,
};
use crate::ptr::ThreadsafeSingletonPtr;

verus! {

/// Scope configurator for a binding of type `Interface` to type `Implementation` inside a
/// [`AsyncDIContainer`].
pub struct AsyncBindingScopeConfigurator<'di_container, Interface, Implementation, Provider> where
    Interface: 'static + ?Sized,
    Provider: 'static + ?Sized,
 {
    /// The container the binding is in.
    pub di_container: &'di_container mut AsyncDIContainer<Provider>,
    /// The bound interface.
    pub interface: InterfaceId,
    /// The interface, as a type.
    pub interface_phantom: PhantomData<Interface>,
    /// The bound implementation, as a type.
    pub implementation_phantom: PhantomData<Implementation>,
}

impl<'di_container, Interface, Implementation, Provider> AsyncBindingScopeConfigurator<
    'di_container,
    Interface,
    Implementation,
    Provider,
> where Interface: 'static + ?Sized, Provider: 'static + ?Sized {
    /// Returns a configurator of the binding for `interface` in `di_container`.
    pub fn new(di_container: &'di_container mut AsyncDIContainer<Provider>, interface: InterfaceId) -> (configurator:
        Self)
        ensures
            configurator.interface == interface,
            *configurator.di_container == *old(di_container),
            *final(configurator.di_container) == *final(di_container),
    {
        Self {
            di_container,
            interface,
            interface_phantom: PhantomData,
            implementation_phantom: PhantomData,
        }
    }

    /// Configures the binding to be in a transient scope: each resolve gives a new
    /// instance of `Implementation`.
    pub fn in_transient_scope(self) -> (configurator: AsyncBindingWhenConfigurator<
        'di_container,
        Interface,
        Provider,
    >) where Provider: AsyncBoxedTransient<Implementation>
        ensures
            configurator.interface == self.interface,
            spec_binds_async_transient::<BindingKeyView, Implementation, Provider>(
                old(self.di_container)@,
                configurator.di_container@,
                (self.interface.type_id, None),
            ),
            *final(configurator.di_container) == *final(self.di_container),
    {
        let from_transient = <Provider as AsyncBoxedTransient<Implementation>>::from_transient;
        let provider = from_transient(AsyncTransientTypeProvider::new());
        self.di_container.set_binding(self.interface, BindingOptions::new(), provider);
        AsyncBindingWhenConfigurator::new(self.di_container, self.interface)
    }

    /// Configures the binding to be in a singleton scope: every resolve gives the one
    /// instance of `Implementation` that resolving it gave, `resolved`, shared.
    ///
    /// # Errors
    /// Will return Err if resolving the implementation failed.
    pub fn in_singleton_scope(
        self,
        resolved: Result<
            ThreadsafeSingletonPtr<<Provider as AsyncBoxedProvider>::Injectable>,
            InjectableError,
        >,
    ) -> (res: Result<
        AsyncBindingWhenConfigurator<'di_container, Interface, Provider>,
        AsyncBindingScopeConfiguratorError,
    >) where Provider: AsyncBoxedProvider
        ensures
            match resolved {
                Ok(instance) => res matches Ok(configurator)
                    && configurator.interface == self.interface
                    && spec_binds_async_singleton::<BindingKeyView, Provider>(
                    old(self.di_container)@,
                    configurator.di_container@,
                    (self.interface.type_id, None),
                    instance,
                ) && *final(configurator.di_container) == *final(self.di_container),
                Err(reason) => res == Err::<
                    AsyncBindingWhenConfigurator<'di_container, Interface, Provider>,
                    AsyncBindingScopeConfiguratorError,
                >(AsyncBindingScopeConfiguratorError::SingletonResolveFailed(reason))
                    && *final(self.di_container) == *old(self.di_container),
            },
    {
        match resolved {
            Ok(instance) => {
                let from_singleton = <Provider as AsyncBoxedProvider>::from_singleton;
                let provider = from_singleton(AsyncSingletonProvider::new(instance));
                self.di_container.set_binding(self.interface, BindingOptions::new(), provider);
                Ok(AsyncBindingWhenConfigurator::new(self.di_container, self.interface))
            },
            Err(reason) => Err(AsyncBindingScopeConfiguratorError::SingletonResolveFailed(reason)),
        }
    }
}

} // verus!
