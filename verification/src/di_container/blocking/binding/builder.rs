//! Binding builder for types inside of a [`DIContainer`].
use std::marker::PhantomData;

use vstd::prelude::*;

use crate::di_container::blocking::binding::scope_configurator::BindingScopeConfigurator;
use crate::di_container::blocking::binding::when_configurator::BindingWhenConfigurator;
use crate::di_container::blocking::DIContainer;
use crate::di_container::{BindingOptions, InterfaceId};
use crate::di_container::binding_storage::BindingKeyView;
use crate::errors::di_container::BindingBuilderError;
use crate::interfaces::injectable::Injectable;
use crate::provider::blocking::{
    spec_binds_function,
    spec_binds_transient,
    BoxedProvider,
    FunctionProvider,
    ProvidableFunctionKind,
    TransientTypeProvider,
};
use crate::ptr::TransientPtr;

verus! {

/// Binding builder for type `Interface` inside a [`DIContainer`].
pub struct BindingBuilder<'di_container, Interface, Provider> where
    Interface: 'static + ?Sized,
    Provider: 'static + ?Sized,
 {
    /// The container the binding goes into.
    pub di_container: &'di_container mut DIContainer<Provider>,
    /// The interface to bind.
    pub interface: InterfaceId,
    /// The interface, as a type.
    pub interface_phantom: PhantomData<Interface>,
}

impl<'di_container, Interface, Provider> BindingBuilder<'di_container, Interface, Provider> where
    Interface: 'static + ?Sized,
    Provider: 'static + ?Sized,
 {
    /// Returns a builder of a binding for `interface` in `di_container`.
    pub fn new(di_container: &'di_container mut DIContainer<Provider>, interface: InterfaceId) -> (builder:
        Self)
        ensures
            builder.interface == interface,
            *builder.di_container == *old(di_container),
            *final(builder.di_container) == *final(di_container),
    {
        Self { di_container, interface, interface_phantom: PhantomData }
    }

    /// Creates a binding of `Interface` to type `Implementation` inside of the
    /// associated [`DIContainer`], in the transient scope.
    ///
    /// # Errors
    /// Will return Err if the associated [`DIContainer`] already have a binding for
    /// the interface.
    pub fn to<Implementation>(self) -> (res: Result<
        BindingScopeConfigurator<'di_container, Interface, Implementation, Provider>,
        BindingBuilderError,
    >) where
        Provider: BoxedProvider,
        Implementation: Injectable<<Provider as BoxedProvider>::DIContainer>,

        ensures
            old(self.di_container)@.contains_key((self.interface.type_id, None)) ==> (res
                == Err::<
                BindingScopeConfigurator<'di_container, Interface, Implementation, Provider>,
                BindingBuilderError,
            >(BindingBuilderError::BindingAlreadyExists(self.interface.name))
                && *final(self.di_container) == *old(self.di_container)),
            !old(self.di_container)@.contains_key((self.interface.type_id, None)) ==> (res matches Ok(
                configurator,
            ) && configurator.interface == self.interface && spec_binds_transient::<
                BindingKeyView,
                Implementation,
                Provider,
            >(
                old(self.di_container)@,
                configurator.di_container@,
                (self.interface.type_id, None),
            ) && *final(configurator.di_container) == *final(self.di_container)),
    {
        if self.di_container.has_binding(self.interface, BindingOptions::new()) {
            return Err(BindingBuilderError::BindingAlreadyExists(self.interface.name));
        }
        let from_transient = <Provider as BoxedProvider>::from_transient::<Implementation>;
        let provider = from_transient(TransientTypeProvider::new());
        self.di_container.set_binding(self.interface, BindingOptions::new(), provider);
        Ok(BindingScopeConfigurator::new(self.di_container, self.interface))
    }

    /// Creates a binding of the factory type `Interface` inside of the associated
    /// [`DIContainer`]: `factory_func` makes the factory, which the user calls.
    ///
    /// # Errors
    /// Will return Err if the associated [`DIContainer`] already have a binding for
    /// the interface.
    pub fn to_factory<Func>(self, factory_func: &'static Func) -> (res: Result<
        BindingWhenConfigurator<'di_container, Interface, Provider>,
        BindingBuilderError,
    >) where
        Provider: BoxedProvider,
        Func: Fn(&<Provider as BoxedProvider>::DIContainer) -> TransientPtr<Interface> + 'static,

        requires
            forall|di_container: &<Provider as BoxedProvider>::DIContainer| #[trigger]
                factory_func.requires((di_container,)),
        ensures
            old(self.di_container)@.contains_key((self.interface.type_id, None)) ==> (res
                == Err::<BindingWhenConfigurator<'di_container, Interface, Provider>, BindingBuilderError>(
                BindingBuilderError::BindingAlreadyExists(self.interface.name),
            ) && *final(self.di_container) == *old(self.di_container)),
            !old(self.di_container)@.contains_key((self.interface.type_id, None)) ==> (res matches Ok(
                configurator,
            ) && configurator.interface == self.interface && spec_binds_function::<
                BindingKeyView,
                Interface,
                Func,
                Provider,
            >(
                old(self.di_container)@,
                configurator.di_container@,
                (self.interface.type_id, None),
                factory_func,
                ProvidableFunctionKind::UserCalled,
            ) && *final(configurator.di_container) == *final(self.di_container)),
    {
        self.bind_function(factory_func, ProvidableFunctionKind::UserCalled)
    }

    /// Creates a binding of type `Interface` inside of the associated [`DIContainer`]:
    /// `value_func` gives the value each time the binding is resolved.
    ///
    /// # Errors
    /// Will return Err if the associated [`DIContainer`] already have a binding for
    /// the interface.
    pub fn to_dynamic_value<Func>(self, value_func: &'static Func) -> (res: Result<
        BindingWhenConfigurator<'di_container, Interface, Provider>,
        BindingBuilderError,
    >) where
        Provider: BoxedProvider,
        Func: Fn(&<Provider as BoxedProvider>::DIContainer) -> TransientPtr<Interface> + 'static,

        requires
            forall|di_container: &<Provider as BoxedProvider>::DIContainer| #[trigger]
                value_func.requires((di_container,)),
        ensures
            old(self.di_container)@.contains_key((self.interface.type_id, None)) ==> (res
                == Err::<BindingWhenConfigurator<'di_container, Interface, Provider>, BindingBuilderError>(
                BindingBuilderError::BindingAlreadyExists(self.interface.name),
            ) && *final(self.di_container) == *old(self.di_container)),
            !old(self.di_container)@.contains_key((self.interface.type_id, None)) ==> (res matches Ok(
                configurator,
            ) && configurator.interface == self.interface && spec_binds_function::<
                BindingKeyView,
                Interface,
                Func,
                Provider,
            >(
                old(self.di_container)@,
                configurator.di_container@,
                (self.interface.type_id, None),
                value_func,
                ProvidableFunctionKind::Instant,
            ) && *final(configurator.di_container) == *final(self.di_container)),
    {
        self.bind_function(value_func, ProvidableFunctionKind::Instant)
    }

    /// Binds the interface, unnamed, to a provider of `function` of the kind `kind`,
    /// unless it is bound already.
    fn bind_function<Func>(self, function: &'static Func, kind: ProvidableFunctionKind) -> (res:
        Result<BindingWhenConfigurator<'di_container, Interface, Provider>, BindingBuilderError>) where
        Provider: BoxedProvider,
        Func: Fn(&<Provider as BoxedProvider>::DIContainer) -> TransientPtr<Interface> + 'static,

        requires
            forall|di_container: &<Provider as BoxedProvider>::DIContainer| #[trigger]
                function.requires((di_container,)),
        ensures
            old(self.di_container)@.contains_key((self.interface.type_id, None)) ==> (res
                == Err::<BindingWhenConfigurator<'di_container, Interface, Provider>, BindingBuilderError>(
                BindingBuilderError::BindingAlreadyExists(self.interface.name),
            ) && *final(self.di_container) == *old(self.di_container)),
            !old(self.di_container)@.contains_key((self.interface.type_id, None)) ==> (res matches Ok(
                configurator,
            ) && configurator.interface == self.interface && spec_binds_function::<
                BindingKeyView,
                Interface,
                Func,
                Provider,
            >(
                old(self.di_container)@,
                configurator.di_container@,
                (self.interface.type_id, None),
                function,
                kind,
            ) && *final(configurator.di_container) == *final(self.di_container)),
    {
        if self.di_container.has_binding(self.interface, BindingOptions::new()) {
            return Err(BindingBuilderError::BindingAlreadyExists(self.interface.name));
        }
        let from_function = <Provider as BoxedProvider>::from_function::<Interface, Func>;
        let provider = from_function(FunctionProvider::new(function, kind));
        self.di_container.set_binding(self.interface, BindingOptions::new(), provider);
        Ok(BindingWhenConfigurator::new(self.di_container, self.interface))
    }
}

} // verus!
