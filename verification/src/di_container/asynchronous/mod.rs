//! Asynchronous dependency injection container: the bookkeeping of its bindings and
//! the decisions it makes on what its providers and casts give.
use vstd::prelude::*;

use crate::di_container::asynchronous::binding::builder::AsyncBindingBuilder;
use crate::di_container::binding_storage::{BindingKeyView, DIContainerBindingStorage};
use crate::di_container::{BindingOptions, InterfaceId};
use crate::errors::async_di_container::AsyncDIContainerError;
use crate::errors::injectable::InjectableError;
use crate::libs::intertrait::cast::error::CastError;
use crate::provider::threadsafe::{AsyncProvidable, ProvidableFunctionKind};
use crate::ptr::{arc_from_box, SomeThreadsafePtr, TransientPtr};
use std::sync::Arc;

pub mod binding;

verus! {

/// The error that a failed cast of a binding of the kind `binding_kind` for the
/// interface named `interface` gives: a type that cannot be cast to an `Arc` was not
/// marked async; every other failure is a failed cast.
pub open spec fn spec_cast_failure(
    err: CastError,
    interface: &'static str,
    binding_kind: &'static str,
) -> AsyncDIContainerError {
    match err {
        CastError::NotArcCastable(_) => AsyncDIContainerError::InterfaceNotAsync(interface),
        _ => AsyncDIContainerError::CastFailed { interface, binding_kind },
    }
}

/// The value that a cast of a binding of the kind `binding_kind` for the interface
/// named `interface` gives, with `wrap` making the pointer of the right variant.
pub open spec fn spec_cast_outcome<Casted, Interface: ?Sized + 'static>(
    cast: Result<Casted, CastError>,
    interface: &'static str,
    binding_kind: &'static str,
    wrap: spec_fn(Casted) -> SomeThreadsafePtr<Interface>,
) -> Result<SomeThreadsafePtr<Interface>, AsyncDIContainerError> {
    match cast {
        Ok(casted) => Ok(wrap(casted)),
        Err(err) => Err(spec_cast_failure(err, interface, binding_kind)),
    }
}

/// What the asynchronous container does next with what a binding provided.
pub enum AsyncResolution<Interface: ?Sized + 'static, AsyncValueFunction: ?Sized + 'static> {
    /// The value asked for, or why it cannot be had.
    Done(Result<SomeThreadsafePtr<Interface>, AsyncDIContainerError>),
    /// The function that creates the value asynchronously: it is called, its result
    /// awaited, and that is the value, as a transient.
    AwaitValue(Arc<AsyncValueFunction>),
}

/// Asynchronous dependency injection container: at most one binding of a provider of
/// type `Provider` for each interface and binding name.
pub struct AsyncDIContainer<Provider: ?Sized + 'static> {
    binding_storage: DIContainerBindingStorage<Provider>,
}

impl<Provider: ?Sized + 'static> View for AsyncDIContainer<Provider> {
    type V = Map<BindingKeyView, Box<Provider>>;

    closed spec fn view(&self) -> Map<BindingKeyView, Box<Provider>> {
        self.binding_storage@
    }
}

impl<Provider: ?Sized + 'static> AsyncDIContainer<Provider> {
    /// Returns a new `AsyncDIContainer` without bindings.
    pub fn new() -> (di_container: Self)
        ensures
            di_container@ == Map::<BindingKeyView, Box<Provider>>::empty(),
            di_container@.dom().finite(),
    {
        Self { binding_storage: DIContainerBindingStorage::new() }
    }

    /// Returns a new [`AsyncBindingBuilder`] for the interface `interface`.
    pub fn bind<'di_container, Interface>(&'di_container mut self, interface: InterfaceId) -> (builder:
        AsyncBindingBuilder<'di_container, Interface, Provider>) where
        Interface: 'static + ?Sized,

        ensures
            builder.interface == interface,
            *builder.di_container == *old(self),
            *final(builder.di_container) == *final(self),
    {
        AsyncBindingBuilder::new(self, interface)
    }

    /// Returns whether a binding exists for `interface` with `binding_options`.
    pub fn has_binding(&self, interface: InterfaceId, binding_options: BindingOptions) -> (res: bool)
        ensures
            res == self@.contains_key((interface.type_id, binding_options@)),
    {
        self.binding_storage.has(interface.type_id, binding_options)
    }

    /// Binds `provider` to `interface` with `binding_options`, replacing the binding
    /// that was there.
    pub fn set_binding(
        &mut self,
        interface: InterfaceId,
        binding_options: BindingOptions<'static>,
        provider: Box<Provider>,
    )
        ensures
            final(self)@ == old(self)@.insert((interface.type_id, binding_options@), provider),
            final(self)@.dom().finite(),
    {
        self.binding_storage.set(interface.type_id, binding_options, provider);
    }

    /// Removes the binding for `interface` with `binding_options` and returns its
    /// provider.
    pub fn remove_binding(&mut self, interface: InterfaceId, binding_options: BindingOptions<'static>) -> (res:
        Option<Box<Provider>>)
        ensures
            final(self)@ == old(self)@.remove((interface.type_id, binding_options@)),
            final(self)@.dom().finite(),
            res is Some == old(self)@.contains_key((interface.type_id, binding_options@)),
            res matches Some(provider) ==> provider == old(self)@[(
                interface.type_id,
                binding_options@,
            )],
    {
        self.binding_storage.remove(interface.type_id, binding_options)
    }

    /// Returns the provider of the binding for `interface` with `binding_options`.
    ///
    /// # Errors
    /// Will return `Err` if no such binding exists.
    pub fn get_binding_provider(
        &self,
        interface: InterfaceId,
        binding_options: BindingOptions<'static>,
    ) -> (res: Result<&Box<Provider>, AsyncDIContainerError>)
        ensures
            res matches Ok(provider) ==> self@.contains_key((interface.type_id, binding_options@))
                && *provider == self@[(interface.type_id, binding_options@)],
            !self@.contains_key((interface.type_id, binding_options@)) ==> res == Err::<
                &Box<Provider>,
                AsyncDIContainerError,
            >(
                AsyncDIContainerError::BindingNotFound {
                    interface: interface.name,
                    name: binding_options.name,
                },
            ),
            self@.contains_key((interface.type_id, binding_options@)) ==> res is Ok,
    {
        match self.binding_storage.get(interface.type_id, binding_options) {
            Some(provider) => Ok(provider),
            None => Err(
                AsyncDIContainerError::BindingNotFound {
                    interface: interface.name,
                    name: binding_options.name,
                },
            ),
        }
    }

    /// Turns what the provider of the binding for `interface` gave into what resolving
    /// the binding gives: a failure to resolve becomes `BindingResolveFailed`.
    ///
    /// # Errors
    /// Will return `Err` if the provider failed.
    pub fn resolve_providable<Providable>(
        interface: InterfaceId,
        provided: Result<Providable, InjectableError>,
    ) -> (res: Result<Providable, AsyncDIContainerError>)
        ensures
            match provided {
                Ok(providable) => res == Ok::<Providable, AsyncDIContainerError>(providable),
                Err(reason) => res == Err::<Providable, AsyncDIContainerError>(
                    AsyncDIContainerError::BindingResolveFailed {
                        reason,
                        interface: interface.name,
                    },
                ),
            },
    {
        match provided {
            Ok(providable) => Ok(providable),
            Err(reason) => Err(
                AsyncDIContainerError::BindingResolveFailed { reason, interface: interface.name },
            ),
        }
    }

    /// Turns the result of casting a binding of the kind `binding_kind` to the interface
    /// named `interface` into what resolving the binding gives.
    ///
    /// # Errors
    /// Will return `Err` if the cast failed.
    pub fn handle_cast_result<Casted>(
        cast: Result<Casted, CastError>,
        interface: &'static str,
        binding_kind: &'static str,
    ) -> (res: Result<Casted, AsyncDIContainerError>)
        ensures
            match cast {
                Ok(casted) => res == Ok::<Casted, AsyncDIContainerError>(casted),
                Err(err) => res == Err::<Casted, AsyncDIContainerError>(
                    spec_cast_failure(err, interface, binding_kind),
                ),
            },
    {
        match cast {
            Ok(casted) => Ok(casted),
            Err(CastError::NotArcCastable(_)) => Err(
                AsyncDIContainerError::InterfaceNotAsync(interface),
            ),
            Err(_) => Err(AsyncDIContainerError::CastFailed { interface, binding_kind }),
        }
    }
}

impl<Provider: ?Sized + 'static> AsyncDIContainer<Provider> {
    /// Turns what a binding for the interface named `interface` provided into the value
    /// asked for, or into the function whose result is to be awaited. A transient is cast
    /// with `cast_transient`, a singleton with `cast_singleton`; a factory or a function
    /// called when the binding is resolved is cast and called with `call_function`, and
    /// a function whose result is awaited is cast with `cast_async_function`. A failed
    /// cast of a transient gives `CastFailed`, whatever failed; another failed cast gives
    /// the error for the kind of binding, naming `interface`, except for
    /// functions called when the binding is resolved, whose errors name the type the
    /// function was cast to: `value_function` for one called, `async_value_function`
    /// for one whose result is awaited.
    pub fn handle_binding_providable<
        Interface,
        Injectable,
        Function,
        AsyncValueFunction,
        CastTransientFn,
        CastSingletonFn,
        CallFunctionFn,
        CastAsyncFunctionFn,
    >(
        interface: &'static str,
        value_function: &'static str,
        async_value_function: &'static str,
        binding_providable: AsyncProvidable<Injectable, Function>,
        cast_transient: CastTransientFn,
        cast_singleton: CastSingletonFn,
        call_function: CallFunctionFn,
        cast_async_function: CastAsyncFunctionFn,
    ) -> (res: AsyncResolution<Interface, AsyncValueFunction>) where
        Interface: ?Sized + 'static,
        Injectable: ?Sized + 'static,
        Function: ?Sized + 'static,
        AsyncValueFunction: ?Sized + 'static,
        CastTransientFn: Fn(TransientPtr<Injectable>) -> Result<TransientPtr<Interface>, CastError>,
        CastSingletonFn: Fn(Arc<Injectable>) -> Result<Arc<Interface>, CastError>,
        CallFunctionFn: Fn(Arc<Function>) -> Result<TransientPtr<Interface>, CastError>,
        CastAsyncFunctionFn: Fn(Arc<Function>) -> Result<Arc<AsyncValueFunction>, CastError>,

        requires
            forall|transient: TransientPtr<Injectable>| #[trigger]
                cast_transient.requires((transient,)),
            forall|singleton: Arc<Injectable>| #[trigger] cast_singleton.requires((singleton,)),
            forall|function: Arc<Function>| #[trigger] call_function.requires((function,)),
            forall|function: Arc<Function>| #[trigger]
                cast_async_function.requires((function,)),
        ensures
            match binding_providable {
                AsyncProvidable::Transient(transient) => exists|
                    cast: Result<TransientPtr<Interface>, CastError>,
                | #[trigger]
                    cast_transient.ensures((transient,), cast) && res == AsyncResolution::<
                        Interface,
                        AsyncValueFunction,
                    >::Done(
                        match cast {
                            Ok(ptr) => Ok(SomeThreadsafePtr::Transient(ptr)),
                            Err(_) => Err(
                                AsyncDIContainerError::CastFailed {
                                    interface,
                                    binding_kind: "transient",
                                },
                            ),
                        },
                    ),
                AsyncProvidable::Singleton(singleton) => exists|
                    cast: Result<Arc<Interface>, CastError>,
                | #[trigger]
                    cast_singleton.ensures((singleton,), cast) && res == AsyncResolution::<
                        Interface,
                        AsyncValueFunction,
                    >::Done(
                        spec_cast_outcome(
                            cast,
                            interface,
                            "singleton",
                            |ptr: Arc<Interface>| SomeThreadsafePtr::ThreadsafeSingleton(ptr),
                        ),
                    ),
                AsyncProvidable::Function(function, ProvidableFunctionKind::UserCalled) => exists|
                    made: Result<TransientPtr<Interface>, CastError>,
                | #[trigger]
                    call_function.ensures((function,), made) && match made {
                        Ok(factory) => res matches AsyncResolution::Done(
                            Ok(SomeThreadsafePtr::ThreadsafeFactory(ptr)),
                        ) && &*ptr == &*factory,
                        Err(err) => res == AsyncResolution::<Interface, AsyncValueFunction>::Done(
                            Err(spec_cast_failure(err, interface, "factory")),
                        ),
                    },
                AsyncProvidable::Function(function, ProvidableFunctionKind::Instant) => exists|
                    made: Result<TransientPtr<Interface>, CastError>,
                | #[trigger]
                    call_function.ensures((function,), made) && res == AsyncResolution::<
                        Interface,
                        AsyncValueFunction,
                    >::Done(
                        spec_cast_outcome(
                            made,
                            value_function,
                            "default factory",
                            |ptr: TransientPtr<Interface>| SomeThreadsafePtr::Transient(ptr),
                        ),
                    ),
                AsyncProvidable::Function(function, ProvidableFunctionKind::AsyncInstant) => exists|
                    cast: Result<Arc<AsyncValueFunction>, CastError>,
                | #[trigger]
                    cast_async_function.ensures((function,), cast) && match cast {
                        Ok(value_function) => res == AsyncResolution::<
                            Interface,
                            AsyncValueFunction,
                        >::AwaitValue(value_function),
                        Err(err) => res == AsyncResolution::<Interface, AsyncValueFunction>::Done(
                            Err(spec_cast_failure(err, async_value_function, "async default factory")),
                        ),
                    },
            },
    {
        match binding_providable {
            AsyncProvidable::Transient(transient) => {
                let res = match cast_transient(transient) {
                    Ok(ptr) => Ok(SomeThreadsafePtr::Transient(ptr)),
                    Err(_) => Err(
                        AsyncDIContainerError::CastFailed { interface, binding_kind: "transient" },
                    ),
                };
                AsyncResolution::Done(res)
            },
            AsyncProvidable::Singleton(singleton) => {
                let cast = cast_singleton(singleton);
                let res = match Self::handle_cast_result(cast, interface, "singleton") {
                    Ok(ptr) => Ok(SomeThreadsafePtr::ThreadsafeSingleton(ptr)),
                    Err(err) => Err(err),
                };
                AsyncResolution::Done(res)
            },
            AsyncProvidable::Function(function, ProvidableFunctionKind::UserCalled) => {
                let made = call_function(function);
                let res = match Self::handle_cast_result(made, interface, "factory") {
                    Ok(factory) => Ok(SomeThreadsafePtr::ThreadsafeFactory(arc_from_box(factory))),
                    Err(err) => Err(err),
                };
                AsyncResolution::Done(res)
            },
            AsyncProvidable::Function(function, ProvidableFunctionKind::Instant) => {
                let made = call_function(function);
                let res = match Self::handle_cast_result(made, value_function, "default factory") {
                    Ok(value) => Ok(SomeThreadsafePtr::Transient(value)),
                    Err(err) => Err(err),
                };
                AsyncResolution::Done(res)
            },
            AsyncProvidable::Function(function, ProvidableFunctionKind::AsyncInstant) => {
                let cast = cast_async_function(function);
                match Self::handle_cast_result(cast, async_value_function, "async default factory") {
                    Ok(value_function) => AsyncResolution::AwaitValue(value_function),
                    Err(err) => AsyncResolution::Done(Err(err)),
                }
            },
        }
    }
}

impl<Provider: ?Sized + 'static> Default for AsyncDIContainer<Provider> {
    fn default() -> (di_container: Self)
        ensures
            di_container@ == Map::<BindingKeyView, Box<Provider>>::empty(),
    {
        Self::new()
    }
}

} // verus!
