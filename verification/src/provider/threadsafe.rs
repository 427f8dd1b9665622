//! Providers of the asynchronous DI container, which can be shared between threads.
use std::marker::PhantomData;
use std::sync::Arc;

use vstd::prelude::*;

use crate::errors::injectable::InjectableError;
use crate::ptr::{ThreadsafeSingletonPtr, TransientPtr};

verus! {

/// What a provider of the asynchronous DI container gives for a binding.
pub enum AsyncProvidable<Injectable: ?Sized + 'static, Function: ?Sized + 'static> {
    /// A new instance of the bound type.
    Transient(TransientPtr<Injectable>),
    /// The single shared instance of the bound type.
    Singleton(ThreadsafeSingletonPtr<Injectable>),
    /// A function and how it is to be used.
    Function(Arc<Function>, ProvidableFunctionKind),
}

/// How the function of a function binding is used.
#[derive(Debug, Clone, Copy, PartialEq, Eq)]
pub enum ProvidableFunctionKind {
    /// The function is handed to the user, who calls it.
    UserCalled,
    /// The function is called when the binding is resolved; its result is the value.
    Instant,
    /// The function is called when the binding is resolved and its result awaited.
    AsyncInstant,
}

/// Provides a new instance of `InjectableT` each time; resolving it is asynchronous.
pub struct AsyncTransientTypeProvider<InjectableT, DIContainerT> {
    injectable_phantom: PhantomData<InjectableT>,
    di_container_phantom: PhantomData<DIContainerT>,
}

impl<InjectableT, DIContainerT> AsyncTransientTypeProvider<InjectableT, DIContainerT> {
    /// Returns a new provider.
    pub fn new() -> Self {
        Self { injectable_phantom: PhantomData, di_container_phantom: PhantomData }
    }

    /// Gives what resolving the bound type gave, `resolved`, as a transient value.
    ///
    /// # Errors
    /// Will return `Err` if resolving failed.
    pub fn provide_resolved<Injectable: ?Sized + 'static, Function: ?Sized + 'static>(
        &self,
        resolved: Result<TransientPtr<Injectable>, InjectableError>,
    ) -> (res: Result<AsyncProvidable<Injectable, Function>, InjectableError>)
        ensures
            match resolved {
                Ok(injectable) => res == Ok::<
                    AsyncProvidable<Injectable, Function>,
                    InjectableError,
                >(AsyncProvidable::Transient(injectable)),
                Err(err) => res == Err::<AsyncProvidable<Injectable, Function>, InjectableError>(
                    err,
                ),
            },
    {
        match resolved {
            Ok(injectable) => Ok(AsyncProvidable::Transient(injectable)),
            Err(err) => Err(err),
        }
    }
}

/// Provides the same single instance each time.
pub struct AsyncSingletonProvider<InjectableT: ?Sized + 'static, DIContainerT> {
    singleton: ThreadsafeSingletonPtr<InjectableT>,
    di_container_phantom: PhantomData<DIContainerT>,
}

impl<InjectableT: ?Sized + 'static, DIContainerT> AsyncSingletonProvider<InjectableT, DIContainerT> {
    /// The instance provided.
    pub closed spec fn spec_singleton(&self) -> ThreadsafeSingletonPtr<InjectableT> {
        self.singleton
    }

    /// Returns a provider of `singleton`.
    pub fn new(singleton: ThreadsafeSingletonPtr<InjectableT>) -> (provider: Self)
        ensures
            provider.spec_singleton() == singleton,
    {
        Self { singleton, di_container_phantom: PhantomData }
    }

    /// Gives the singleton.
    ///
    /// # Errors
    /// Never; the result is a `Result` as for every provider.
    pub fn provide<Function: ?Sized + 'static>(&self) -> (res: Result<
        AsyncProvidable<InjectableT, Function>,
        InjectableError,
    >)
        ensures
            res == Ok::<AsyncProvidable<InjectableT, Function>, InjectableError>(
                AsyncProvidable::Singleton(self.spec_singleton()),
            ),
    {
        Ok(AsyncProvidable::Singleton(self.singleton.clone()))
    }
}

/// A singleton is provided once and shared: every two results of `provide` on the same
/// provider hold the same instance, the one the provider was made with.
pub proof fn law_singleton_provider_shares_instance<
    InjectableT: ?Sized + 'static,
    DIContainerT,
    Function: ?Sized + 'static,
>(
    singleton: ThreadsafeSingletonPtr<InjectableT>,
    provider: AsyncSingletonProvider<InjectableT, DIContainerT>,
    first: Result<AsyncProvidable<InjectableT, Function>, InjectableError>,
    second: Result<AsyncProvidable<InjectableT, Function>, InjectableError>,
)
    requires
        provider.spec_singleton() == singleton,
        first == Ok::<AsyncProvidable<InjectableT, Function>, InjectableError>(
            AsyncProvidable::Singleton(provider.spec_singleton()),
        ),
        second == Ok::<AsyncProvidable<InjectableT, Function>, InjectableError>(
            AsyncProvidable::Singleton(provider.spec_singleton()),
        ),
    ensures
        first == second,
        first matches Ok(AsyncProvidable::Singleton(instance)) && instance == singleton,
{
}

/// Provides a function, for the user to call or to be called at once.
pub struct AsyncFunctionProvider<Function: ?Sized + 'static> {
    function: Arc<Function>,
    providable_func_kind: ProvidableFunctionKind,
}

impl<Function: ?Sized + 'static> AsyncFunctionProvider<Function> {
    /// The function provided.
    pub closed spec fn spec_function(&self) -> Arc<Function> {
        self.function
    }

    /// The kind of the function.
    pub closed spec fn spec_kind(&self) -> ProvidableFunctionKind {
        self.providable_func_kind
    }

    /// Returns a provider of `function` of the kind `providable_func_kind`.
    pub fn new(function: Arc<Function>, providable_func_kind: ProvidableFunctionKind) -> (provider:
        Self)
        ensures
            provider.spec_function() == function,
            provider.spec_kind() == providable_func_kind,
    {
        Self { function, providable_func_kind }
    }

    /// Gives the function and its kind.
    ///
    /// # Errors
    /// Never; the result is a `Result` as for every provider.
    pub fn provide<Injectable: ?Sized + 'static>(&self) -> (res: Result<
        AsyncProvidable<Injectable, Function>,
        InjectableError,
    >)
        ensures
            res == Ok::<AsyncProvidable<Injectable, Function>, InjectableError>(
                AsyncProvidable::Function(self.spec_function(), self.spec_kind()),
            ),
    {
        Ok(AsyncProvidable::Function(self.function.clone(), self.providable_func_kind))
    }
}

} // verus!

verus! {

/// The type of the providers that an asynchronous container holds, `Self`: providers of
/// singletons and of functions of the container `DIContainer` can be boxed as one.
pub trait AsyncBoxedProvider {
    /// The container whose providers these are.
    type DIContainer;

    /// The type that singletons are held as.
    type Injectable: ?Sized + 'static;

    /// The type that functions are held as.
    type Function: ?Sized + 'static;

    /// Boxes a provider of a single instance.
    fn from_singleton(
        provider: AsyncSingletonProvider<Self::Injectable, Self::DIContainer>,
    ) -> Box<Self>;

    /// Boxes a provider of a function.
    fn from_function(provider: AsyncFunctionProvider<Self::Function>) -> Box<Self>;
}

/// Providers of new instances of `Implementation` can be boxed as a `Self`.
pub trait AsyncBoxedTransient<Implementation>: AsyncBoxedProvider {
    /// Boxes a provider of new instances of `Implementation`.
    fn from_transient(
        provider: AsyncTransientTypeProvider<Implementation, Self::DIContainer>,
    ) -> Box<Self>;
}

/// `after` is `before` with `key` bound to the box of a provider of new instances of
/// `Implementation`.
pub open spec fn spec_binds_async_transient<Key, Implementation, Provider>(
    before: Map<Key, Box<Provider>>,
    after: Map<Key, Box<Provider>>,
    key: Key,
) -> bool where Provider: ?Sized + AsyncBoxedTransient<Implementation> {
    exists|
        provider: AsyncTransientTypeProvider<
            Implementation,
            <Provider as AsyncBoxedProvider>::DIContainer,
        >,
        boxed: Box<Provider>,
    | #[trigger]
        call_ensures(
            <Provider as AsyncBoxedTransient<Implementation>>::from_transient,
            (provider,),
            boxed,
        ) && after == before.insert(key, boxed)
}

/// `after` is `before` with `key` bound to the box of a provider of the single instance
/// `instance`.
pub open spec fn spec_binds_async_singleton<Key, Provider>(
    before: Map<Key, Box<Provider>>,
    after: Map<Key, Box<Provider>>,
    key: Key,
    instance: ThreadsafeSingletonPtr<<Provider as AsyncBoxedProvider>::Injectable>,
) -> bool where Provider: ?Sized + AsyncBoxedProvider {
    exists|
        provider: AsyncSingletonProvider<
            <Provider as AsyncBoxedProvider>::Injectable,
            <Provider as AsyncBoxedProvider>::DIContainer,
        >,
        boxed: Box<Provider>,
    | #[trigger]
        call_ensures(<Provider as AsyncBoxedProvider>::from_singleton, (provider,), boxed)
            && provider.spec_singleton() == instance && after == before.insert(key, boxed)
}

/// `after` is `before` with `key` bound to the box of a provider of the function
/// `function` of the kind `kind`.
pub open spec fn spec_binds_async_function<Key, Provider>(
    before: Map<Key, Box<Provider>>,
    after: Map<Key, Box<Provider>>,
    key: Key,
    function: Arc<<Provider as AsyncBoxedProvider>::Function>,
    kind: ProvidableFunctionKind,
) -> bool where Provider: ?Sized + AsyncBoxedProvider {
    exists|
        provider: AsyncFunctionProvider<<Provider as AsyncBoxedProvider>::Function>,
        boxed: Box<Provider>,
    | #[trigger]
        call_ensures(<Provider as AsyncBoxedProvider>::from_function, (provider,), boxed)
            && provider.spec_function() == function && provider.spec_kind() == kind && after
            == before.insert(key, boxed)
}

} // verus!
