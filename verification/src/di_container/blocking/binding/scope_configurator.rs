//! Scope configurator for a binding for types inside of a [`DIContainer`].
use std::marker::PhantomData;

use vstd::prelude::*;

use crate::di_container::blocking::binding::when_configurator::BindingWhenConfigurator;
use crate::di_container::blocking::DIContainer;
use crate::di_container::{BindingOptions, InterfaceId};
use crate::errors::di_container::BindingScopeConfiguratorError;
use crate::di_container::binding_storage::BindingKeyView;
use crate::errors::injectable::InjectableError;
use crate::interfaces::injectable::Injectable;
use crate::provider::blocking::{
    spec_binds_singleton,
    spec_binds_transient,
    BoxedProvider,
    SingletonProvider,
    TransientTypeProvider,
};
use crate::ptr::{rc_from_box, TransientPtr};

verus! {

/// Scope configurator for a binding of type `Interface` to type `Implementation` inside a
/// [`DIContainer`].
pub struct BindingScopeConfigurator<'di_container, Interface, Implementation, Provider> where
    Interface: 'static + ?Sized,
    Provider: 'static + ?Sized,
 {
    /// The container the binding is in.
    pub di_container: &'di_container mut DIContainer<Provider>,
    /// The bound interface.
    pub interface: InterfaceId,
    /// The interface, as a type.
    pub interface_phantom: PhantomData<Interface>,
    /// The bound implementation, as a type.
    pub implementation_phantom: PhantomData<Implementation>,
}

impl<'di_container, Interface, Implementation, Provider> BindingScopeConfigurator<
    'di_container,
    Interface,
    Implementation,
    Provider,
> where Interface: 'static + ?Sized, Provider: 'static + ?Sized {
    /// Returns a configurator of the binding for `interface` in `di_container`.
    pub fn new(di_container: &'di_container mut DIContainer<Provider>, interface: InterfaceId) -> (configurator:
        Self)
        ensures
            configurator.interface == interface,
            *configurator.di_container == *old(di_container),
            *final(configurator.di_container) == *final(di_container),
    {
        Self {
            di_container,
            interface,
            interface_phantom: PhantomData,
            implementation_phantom: PhantomData,
        }
    }

    /// Configures the binding to be in a transient scope: each resolve gives a new
    /// instance of `Implementation`.
    pub fn in_transient_scope(self) -> (configurator: BindingWhenConfigurator<
        'di_container,
        Interface,
        Provider,
    >) where
        Provider: BoxedProvider,
        Implementation: Injectable<<Provider as BoxedProvider>::DIContainer>,

        ensures
            configurator.interface == self.interface,
            spec_binds_transient::<BindingKeyView, Implementation, Provider>(
                old(self.di_container)@,
                configurator.di_container@,
                (self.interface.type_id, None),
            ),
            *final(configurator.di_container) == *final(self.di_container),
    {
        let from_transient = <Provider as BoxedProvider>::from_transient::<Implementation>;
        let provider = from_transient(TransientTypeProvider::new());
        self.di_container.set_binding(self.interface, BindingOptions::new(), provider);
        BindingWhenConfigurator::new(self.di_container, self.interface)
    }

    /// Configures the binding to be in a singleton scope: every resolve gives the one
    /// instance of `Implementation` that resolving it gave, `resolved`.
    ///
    /// # Errors
    /// Will return Err if resolving the implementation failed.
    pub fn in_singleton_scope(
        self,
        resolved: Result<TransientPtr<Implementation>, InjectableError>,
    ) -> (res: Result<
        BindingWhenConfigurator<'di_container, Interface, Provider>,
        BindingScopeConfiguratorError,
    >) where
        Provider: BoxedProvider,
        Implementation: Injectable<<Provider as BoxedProvider>::DIContainer>,

        ensures
            match resolved {
                Ok(instance) => res matches Ok(configurator)
                    && configurator.interface == self.interface
                    && spec_binds_singleton::<BindingKeyView, Implementation, Provider>(
                    old(self.di_container)@,
                    configurator.di_container@,
                    (self.interface.type_id, None),
                    instance,
                ) && *final(configurator.di_container) == *final(self.di_container),
                Err(reason) => res == Err::<
                    BindingWhenConfigurator<'di_container, Interface, Provider>,
                    BindingScopeConfiguratorError,
                >(BindingScopeConfiguratorError::SingletonResolveFailed(reason))
                    && *final(self.di_container) == *old(self.di_container),
            },
    {
        match resolved {
            Ok(instance) => {
                let from_singleton = <Provider as BoxedProvider>::from_singleton::<Implementation>;
                let provider = from_singleton(SingletonProvider::new(rc_from_box(instance)));
                self.di_container.set_binding(self.interface, BindingOptions::new(), provider);
                Ok(BindingWhenConfigurator::new(self.di_container, self.interface))
            },
            Err(reason) => Err(BindingScopeConfiguratorError::SingletonResolveFailed(reason)),
        }
    }
}

} // verus!
