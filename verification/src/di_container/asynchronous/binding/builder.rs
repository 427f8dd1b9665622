//! Binding builder for types inside of a [`AsyncDIContainer`].
use std::marker::PhantomData;

use vstd::prelude::*;

use crate::di_container::asynchronous::binding::scope_configurator::AsyncBindingScopeConfigurator;
use crate::di_container::asynchronous::binding::when_configurator::AsyncBindingWhenConfigurator;
use crate::di_container::asynchronous::AsyncDIContainer;
use crate::di_container::{BindingOptions, InterfaceId};
use crate::di_container::binding_storage::BindingKeyView;
use crate::errors::async_di_container::AsyncBindingBuilderError;
use crate::provider::threadsafe::{
    spec_binds_async_function,
    spec_binds_async_transient,
    AsyncBoxedProvider,
    AsyncBoxedTransient,
    AsyncFunctionProvider,
    AsyncTransientTypeProvider,
    ProvidableFunctionKind,
};
use std::sync::Arc;

verus! {

/// Binding builder for type `Interface` inside a [`AsyncDIContainer`].
pub struct AsyncBindingBuilder<'di_container, Interface, Provider> where
    Interface: 'static + ?Sized,
    Provider: 'static + ?Sized,
 {
    /// The container the binding goes into.
    pub di_container: &'di_container mut AsyncDIContainer<Provider>,
    /// The interface to bind.
    pub interface: InterfaceId,
    /// The interface, as a type.
    pub interface_phantom: PhantomData<Interface>,
}

impl<'di_container, Interface, Provider> AsyncBindingBuilder<'di_container, Interface, Provider> where
    Interface: 'static + ?Sized,
    Provider: 'static + ?Sized,
 {
    /// Returns a builder of a binding for `interface` in `di_container`.
    pub fn new(di_container: &'di_container mut AsyncDIContainer<Provider>, interface: InterfaceId) -> (builder:
        Self)
        ensures
            builder.interface == interface,
            *builder.di_container == *old(di_container),
            *final(builder.di_container) == *final(di_container),
    {
        Self { di_container, interface, interface_phantom: PhantomData }
    }

    /// Creates a binding of `Interface` to type `Implementation` inside of the
    /// associated [`AsyncDIContainer`], in the transient scope.
    ///
    /// # Errors
    /// Will return Err if the associated [`AsyncDIContainer`] already have a binding for
    /// the interface.
    pub fn to<Implementation>(self) -> (res: Result<
        AsyncBindingScopeConfigurator<'di_container, Interface, Implementation, Provider>,
        AsyncBindingBuilderError,
    >) where Provider: AsyncBoxedTransient<Implementation>
        ensures
            old(self.di_container)@.contains_key((self.interface.type_id, None)) ==> (res
                == Err::<
                AsyncBindingScopeConfigurator<'di_container, Interface, Implementation, Provider>,
                AsyncBindingBuilderError,
            >(AsyncBindingBuilderError::BindingAlreadyExists(self.interface.name))
                && *final(self.di_container) == *old(self.di_container)),
            !old(self.di_container)@.contains_key((self.interface.type_id, None)) ==> (res matches Ok(
                configurator,
            ) && configurator.interface == self.interface && spec_binds_async_transient::<
                BindingKeyView,
                Implementation,
                Provider,
            >(
                old(self.di_container)@,
                configurator.di_container@,
                (self.interface.type_id, None),
            ) && *final(configurator.di_container) == *final(self.di_container)),
    {
        if self.di_container.has_binding(self.interface, BindingOptions::new()) {
            return Err(AsyncBindingBuilderError::BindingAlreadyExists(self.interface.name));
        }
        let from_transient = <Provider as AsyncBoxedTransient<Implementation>>::from_transient;
        let provider = from_transient(AsyncTransientTypeProvider::new());
        self.di_container.set_binding(self.interface, BindingOptions::new(), provider);
        Ok(AsyncBindingScopeConfigurator::new(self.di_container, self.interface))
    }

    /// Creates a binding of the factory type `Interface` inside of the associated
    /// [`AsyncDIContainer`]: `factory` is the factory, which the user calls.
    ///
    /// # Errors
    /// Will return Err if the associated [`AsyncDIContainer`] already have a binding for
    /// the interface.
    pub fn to_factory(self, factory: Arc<<Provider as AsyncBoxedProvider>::Function>) -> (res: Result<
        AsyncBindingWhenConfigurator<'di_container, Interface, Provider>,
        AsyncBindingBuilderError,
    >) where Provider: AsyncBoxedProvider
        ensures
            spec_binds_function_outcome(
                self.interface,
                old(self.di_container)@,
                factory,
                ProvidableFunctionKind::UserCalled,
                res,
            ),
            old(self.di_container)@.contains_key((self.interface.type_id, None))
                ==> *final(self.di_container) == *old(self.di_container),
            res matches Ok(configurator) ==> *final(configurator.di_container)
                == *final(self.di_container),
    {
        self.bind_function(factory, ProvidableFunctionKind::UserCalled)
    }

    /// Creates a binding of the asynchronous factory type `Interface` inside of the
    /// associated [`AsyncDIContainer`]: `factory` is the factory, which the user calls.
    ///
    /// # Errors
    /// Will return Err if the associated [`AsyncDIContainer`] already have a binding for
    /// the interface.
    pub fn to_async_factory(self, factory: Arc<<Provider as AsyncBoxedProvider>::Function>) -> (res: Result<
        AsyncBindingWhenConfigurator<'di_container, Interface, Provider>,
        AsyncBindingBuilderError,
    >) where Provider: AsyncBoxedProvider
        ensures
            spec_binds_function_outcome(
                self.interface,
                old(self.di_container)@,
                factory,
                ProvidableFunctionKind::UserCalled,
                res,
            ),
            old(self.di_container)@.contains_key((self.interface.type_id, None))
                ==> *final(self.di_container) == *old(self.di_container),
            res matches Ok(configurator) ==> *final(configurator.di_container)
                == *final(self.di_container),
    {
        self.bind_function(factory, ProvidableFunctionKind::UserCalled)
    }

    /// Creates a binding of type `Interface` inside of the associated
    /// [`AsyncDIContainer`] to a default factory: `factory` is called each time the
    /// binding is resolved.
    ///
    /// # Errors
    /// Will return Err if the associated [`AsyncDIContainer`] already have a binding for
    /// the interface.
    pub fn to_default_factory(self, factory: Arc<<Provider as AsyncBoxedProvider>::Function>) -> (res: Result<
        AsyncBindingWhenConfigurator<'di_container, Interface, Provider>,
        AsyncBindingBuilderError,
    >) where Provider: AsyncBoxedProvider
        ensures
            spec_binds_function_outcome(
                self.interface,
                old(self.di_container)@,
                factory,
                ProvidableFunctionKind::Instant,
                res,
            ),
            old(self.di_container)@.contains_key((self.interface.type_id, None))
                ==> *final(self.di_container) == *old(self.di_container),
            res matches Ok(configurator) ==> *final(configurator.di_container)
                == *final(self.di_container),
    {
        self.bind_function(factory, ProvidableFunctionKind::Instant)
    }

    /// Creates a binding of type `Interface` inside of the associated
    /// [`AsyncDIContainer`] to an asynchronous default factory: `factory` is called, and
    /// its result awaited, each time the binding is resolved.
    ///
    /// # Errors
    /// Will return Err if the associated [`AsyncDIContainer`] already have a binding for
    /// the interface.
    pub fn to_async_default_factory(self, factory: Arc<<Provider as AsyncBoxedProvider>::Function>) -> (res: Result<
        AsyncBindingWhenConfigurator<'di_container, Interface, Provider>,
        AsyncBindingBuilderError,
    >) where Provider: AsyncBoxedProvider
        ensures
            spec_binds_function_outcome(
                self.interface,
                old(self.di_container)@,
                factory,
                ProvidableFunctionKind::AsyncInstant,
                res,
            ),
            old(self.di_container)@.contains_key((self.interface.type_id, None))
                ==> *final(self.di_container) == *old(self.di_container),
            res matches Ok(configurator) ==> *final(configurator.di_container)
                == *final(self.di_container),
    {
        self.bind_function(factory, ProvidableFunctionKind::AsyncInstant)
    }

    /// Binds the interface, unnamed, to a provider of `function` of the kind `kind`,
    /// unless it is bound already.
    fn bind_function(
        self,
        function: Arc<<Provider as AsyncBoxedProvider>::Function>,
        kind: ProvidableFunctionKind,
    ) -> (res: Result<
        AsyncBindingWhenConfigurator<'di_container, Interface, Provider>,
        AsyncBindingBuilderError,
    >) where Provider: AsyncBoxedProvider
        ensures
            spec_binds_function_outcome(
                self.interface,
                old(self.di_container)@,
                function,
                kind,
                res,
            ),
            old(self.di_container)@.contains_key((self.interface.type_id, None))
                ==> *final(self.di_container) == *old(self.di_container),
            res matches Ok(configurator) ==> *final(configurator.di_container)
                == *final(self.di_container),
    {
        if self.di_container.has_binding(self.interface, BindingOptions::new()) {
            return Err(AsyncBindingBuilderError::BindingAlreadyExists(self.interface.name));
        }
        let from_function = <Provider as AsyncBoxedProvider>::from_function;
        let provider = from_function(AsyncFunctionProvider::new(function, kind));
        self.di_container.set_binding(self.interface, BindingOptions::new(), provider);
        Ok(AsyncBindingWhenConfigurator::new(self.di_container, self.interface))
    }
}

/// What binding the interface `interface`, unnamed, to a provider of `function` of the
/// kind `kind` gives, `res`, in a container whose bindings were `before`: with a binding
/// there already, `BindingAlreadyExists`; else a configurator of the container with the
/// new binding.
pub open spec fn spec_binds_function_outcome<'di_container, Interface, Provider>(
    interface: InterfaceId,
    before: Map<BindingKeyView, Box<Provider>>,
    function: Arc<<Provider as AsyncBoxedProvider>::Function>,
    kind: ProvidableFunctionKind,
    res: Result<
        AsyncBindingWhenConfigurator<'di_container, Interface, Provider>,
        AsyncBindingBuilderError,
    >,
) -> bool where Interface: 'static + ?Sized, Provider: 'static + ?Sized + AsyncBoxedProvider {
    &&& before.contains_key((interface.type_id, None)) ==> res == Err::<
        AsyncBindingWhenConfigurator<'di_container, Interface, Provider>,
        AsyncBindingBuilderError,
    >(AsyncBindingBuilderError::BindingAlreadyExists(interface.name))
    &&& !before.contains_key((interface.type_id, None)) ==> (res matches Ok(configurator)
        && configurator.interface == interface && spec_binds_async_function::<
        BindingKeyView,
        Provider,
    >(before, configurator.di_container@, (interface.type_id, None), function, kind))
}

} // verus!

verus! {

/// Binding a function binds a provider of exactly that function and of exactly the kind
/// asked for: once an unbound interface is bound to `function` as a binding of the kind
/// `kind`, the binding's provider is one made of `function` and `kind`, and every other
/// binding is as it was.
pub proof fn law_function_binding_keeps_function_and_kind<'di_container, Interface, Provider>(
    interface: InterfaceId,
    before: Map<BindingKeyView, Box<Provider>>,
    function: Arc<<Provider as AsyncBoxedProvider>::Function>,
    kind: ProvidableFunctionKind,
    res: Result<
        AsyncBindingWhenConfigurator<'di_container, Interface, Provider>,
        AsyncBindingBuilderError,
    >,
    other: BindingKeyView,
) where Interface: 'static + ?Sized, Provider: 'static + ?Sized + AsyncBoxedProvider
    requires
        !before.contains_key((interface.type_id, None)),
        spec_binds_function_outcome(interface, before, function, kind, res),
    ensures
        res matches Ok(configurator) && configurator.interface == interface && exists|
            provider: AsyncFunctionProvider<<Provider as AsyncBoxedProvider>::Function>,
            boxed: Box<Provider>,
        | #[trigger]
            call_ensures(<Provider as AsyncBoxedProvider>::from_function, (provider,), boxed)
                && provider.spec_function() == function && provider.spec_kind() == kind
                && configurator.di_container@.contains_key((interface.type_id, None))
                && configurator.di_container@[(interface.type_id, None)] == boxed,
        res matches Ok(configurator) ==> (other != (interface.type_id, None::<Seq<char>>) ==> (
        configurator.di_container@.contains_key(other) == before.contains_key(other)
            && (before.contains_key(other) ==> configurator.di_container@[other]
            == before[other]))),
{
}

/// A default factory is a function called when resolving: once `to_default_factory`
/// binds an unbound interface to `factory`, the interface is bound to the box of a
/// provider made of `factory` and of the kind `Instant`.
pub proof fn law_default_factory_binds_instant_function<'di_container, Interface, Provider>(
    builder: AsyncBindingBuilder<'di_container, Interface, Provider>,
    factory: Arc<<Provider as AsyncBoxedProvider>::Function>,
    res: Result<
        AsyncBindingWhenConfigurator<'di_container, Interface, Provider>,
        AsyncBindingBuilderError,
    >,
) where Interface: 'static + ?Sized, Provider: 'static + ?Sized + AsyncBoxedProvider
    requires
        call_ensures(
            AsyncBindingBuilder::<'di_container, Interface, Provider>::to_default_factory,
            (builder, factory),
            res,
        ),
        !builder.di_container@.contains_key((builder.interface.type_id, None)),
    ensures
        res matches Ok(configurator) && exists|
            provider: AsyncFunctionProvider<<Provider as AsyncBoxedProvider>::Function>,
            boxed: Box<Provider>,
        | #[trigger]
            call_ensures(<Provider as AsyncBoxedProvider>::from_function, (provider,), boxed)
                && provider.spec_function() == factory && provider.spec_kind()
                == ProvidableFunctionKind::Instant && configurator.di_container@[(
                builder.interface.type_id,
                None,
            )] == boxed,
{
}

} // verus!
