//! When configurator for a binding for types inside of a [`AsyncDIContainer`].
use std::marker::PhantomData;

use vstd::prelude::*;

use crate::di_container::asynchronous::AsyncDIContainer;
use crate::di_container::{BindingOptions, InterfaceId};
use crate::errors::async_di_container::AsyncBindingWhenConfiguratorError;

verus! {

/// When configurator for a binding for type `Interface` inside a [`AsyncDIContainer`].
pub struct AsyncBindingWhenConfigurator<'di_container, Interface, Provider> where
    Interface: 'static + ?Sized,
    Provider: 'static + ?Sized,
 {
    /// The container the binding is in.
    pub di_container: &'di_container mut AsyncDIContainer<Provider>,
    /// The bound interface.
    pub interface: InterfaceId,
    /// The interface, as a type.
    pub interface_phantom: PhantomData<Interface>,
}

impl<'di_container, Interface, Provider> AsyncBindingWhenConfigurator<
    'di_container,
    Interface,
    Provider,
> where Interface: 'static + ?Sized, Provider: 'static + ?Sized {
    /// Returns a configurator of the binding for `interface` in `di_container`.
    pub fn new(di_container: &'di_container mut AsyncDIContainer<Provider>, interface: InterfaceId) -> (configurator:
        Self)
        ensures
            configurator.interface == interface,
            *configurator.di_container == *old(di_container),
            *final(configurator.di_container) == *final(di_container),
    {
        Self { di_container, interface, interface_phantom: PhantomData }
    }

    /// Configures the binding to have a name: the unnamed binding of the interface
    /// becomes the binding named `name`.
    ///
    /// # Errors
    /// Will return Err if no binding for the interface exists.
    pub fn when_named(self, name: &'static str) -> (res: Result<(), AsyncBindingWhenConfiguratorError>)
        ensures
            old(self.di_container)@.contains_key((self.interface.type_id, None)) ==> (res is Ok
                && final(self.di_container)@ == old(self.di_container)@.remove(
                (self.interface.type_id, None),
            ).insert(
                (self.interface.type_id, Some(name@)),
                old(self.di_container)@[(self.interface.type_id, None)],
            )),
            !old(self.di_container)@.contains_key((self.interface.type_id, None)) ==> (res == Err::<
                (),
                AsyncBindingWhenConfiguratorError,
            >(AsyncBindingWhenConfiguratorError::BindingNotFound(self.interface.name))
                && final(self.di_container)@ == old(self.di_container)@),
    {
        let binding = match self.di_container.remove_binding(self.interface, BindingOptions::new()) {
            Some(binding) => binding,
            None => {
                return Err(AsyncBindingWhenConfiguratorError::BindingNotFound(self.interface.name));
            },
        };
        self.di_container.set_binding(self.interface, BindingOptions::new().name(name), binding);
        Ok(())
    }
}

} // verus!
