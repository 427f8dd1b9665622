//! Providers of the blocking DI container.
use std::marker::PhantomData;
use std::rc::Rc;

use vstd::prelude::*;

use crate::castable_factory::blocking::CastableFactory;
use crate::errors::injectable::InjectableError;
use crate::interfaces::factory::IFactory;
use crate::interfaces::injectable::Injectable;
use crate::ptr::{rc_clone, SingletonPtr, TransientPtr};
use crate::ptr_buffer::{spec_erased_from, Kind, PtrBuffer, SmartPtr};

verus! {

/// What a provider gives for a binding. Each pointer is type-erased; the container casts
/// it to the interface that was asked for.
pub enum Providable {
    /// A new instance of the bound type, in a `Box`.
    Transient(PtrBuffer),
    /// The single shared instance of the bound type, in an `Rc`.
    Singleton(PtrBuffer),
    /// A function, in a `Box`, and how it is to be used.
    Function(PtrBuffer, ProvidableFunctionKind),
}

impl Providable {
    /// The kind of binding that gave the providable, as error messages name it.
    pub open spec fn spec_binding_kind(&self) -> &'static str {
        match self {
            Providable::Transient(_) => "transient",
            Providable::Singleton(_) => "singleton",
            Providable::Function(_, ProvidableFunctionKind::UserCalled) => "factory",
            Providable::Function(_, ProvidableFunctionKind::Instant) => "dynamic value function",
        }
    }
}

/// How the function of a function binding is used.
#[derive(Debug, Clone, Copy, PartialEq, Eq)]
pub enum ProvidableFunctionKind {
    /// The function is called when the binding is resolved; its result is the value.
    Instant,
    /// The function is handed to the user, who calls it.
    UserCalled,
}

/// What a transient provider gives when resolving `InjectableType` gave `resolved`: the
/// new instance, type-erased by its `into_ptr_buffer_box`, as a transient providable; or
/// the failure, passed on.
pub open spec fn spec_transient_outcome<InjectableType, DIContainerType>(
    resolved: Result<TransientPtr<InjectableType>, InjectableError>,
    res: Result<Providable, InjectableError>,
) -> bool where InjectableType: Injectable<DIContainerType> {
    match resolved {
        Ok(injectable) => exists|buffer: PtrBuffer| #[trigger]
            call_ensures(
                <InjectableType as Injectable<DIContainerType>>::into_ptr_buffer_box,
                (injectable,),
                buffer,
            ) && res == Ok::<Providable, InjectableError>(Providable::Transient(buffer)),
        Err(err) => res == Err::<Providable, InjectableError>(err),
    }
}

/// Provides a new instance of `InjectableType` each time.
pub struct TransientTypeProvider<InjectableType, DIContainerType> where
    InjectableType: Injectable<DIContainerType>,
 {
    injectable_phantom: PhantomData<InjectableType>,
    di_container_phantom: PhantomData<DIContainerType>,
}

impl<InjectableType, DIContainerType> TransientTypeProvider<
    InjectableType,
    DIContainerType,
> where InjectableType: Injectable<DIContainerType> {
    /// Returns a new provider.
    pub fn new() -> Self {
        Self { injectable_phantom: PhantomData, di_container_phantom: PhantomData }
    }
}

impl<InjectableType, DIContainerType> TransientTypeProvider<
    InjectableType,
    DIContainerType,
> where InjectableType: Injectable<DIContainerType> {
    /// Resolves a new instance of `InjectableType` with `di_container`.
    ///
    /// # Errors
    /// Will return `Err` if resolving fails.
    pub fn provide(&self, di_container: &DIContainerType, dependency_history: Vec<&'static str>) -> (res:
        Result<Providable, InjectableError>)
        ensures
            res matches Ok(providable) ==> providable is Transient,
            exists|resolved: Result<TransientPtr<InjectableType>, InjectableError>| #[trigger]
                call_ensures(
                    <InjectableType as Injectable<DIContainerType>>::resolve,
                    (di_container, dependency_history),
                    resolved,
                ) && spec_transient_outcome::<InjectableType, DIContainerType>(resolved, res),
    {
        let resolve = <InjectableType as Injectable<DIContainerType>>::resolve;
        self.provide_resolved(resolve(di_container, dependency_history))
    }

    /// Gives what resolving `InjectableType` gave, `resolved`: a new instance becomes a
    /// transient providable, and a failure is passed on.
    ///
    /// # Errors
    /// Will return `Err` if resolving failed.
    pub fn provide_resolved(&self, resolved: Result<TransientPtr<InjectableType>, InjectableError>) -> (res:
        Result<Providable, InjectableError>)
        ensures
            spec_transient_outcome::<InjectableType, DIContainerType>(resolved, res),
    {
        match resolved {
            Ok(injectable) => {
                let into_ptr_buffer_box =
                    <InjectableType as Injectable<DIContainerType>>::into_ptr_buffer_box;
                Ok(Providable::Transient(into_ptr_buffer_box(injectable)))
            },
            Err(err) => Err(err),
        }
    }
}

/// Provides the same single instance each time.
pub struct SingletonProvider<InjectableType, DIContainerType> where
    InjectableType: Injectable<DIContainerType>,
 {
    singleton: SingletonPtr<InjectableType>,
    di_container_phantom: PhantomData<DIContainerType>,
}

impl<InjectableType, DIContainerType> SingletonProvider<
    InjectableType,
    DIContainerType,
> where InjectableType: Injectable<DIContainerType> {
    /// The instance provided.
    pub closed spec fn spec_singleton(&self) -> SingletonPtr<InjectableType> {
        self.singleton
    }

    /// Returns a provider of `singleton`.
    pub fn new(singleton: SingletonPtr<InjectableType>) -> (provider: Self)
        ensures
            provider.spec_singleton() == singleton,
    {
        Self { singleton, di_container_phantom: PhantomData }
    }
}

impl<InjectableType, DIContainerType> SingletonProvider<
    InjectableType,
    DIContainerType,
> where InjectableType: Injectable<DIContainerType> {
    /// Gives the singleton.
    ///
    /// # Errors
    /// Never; the result is a `Result` as for every provider.
    pub fn provide(&self, _di_container: &DIContainerType, _dependency_history: Vec<&'static str>) -> (res:
        Result<Providable, InjectableError>)
        ensures
            res matches Ok(providable) && providable is Singleton,
            exists|buffer: PtrBuffer| #[trigger]
                call_ensures(
                    <InjectableType as Injectable<DIContainerType>>::into_ptr_buffer_rc,
                    (self.spec_singleton(),),
                    buffer,
                ) && res == Ok::<Providable, InjectableError>(Providable::Singleton(buffer)),
    {
        let into_ptr_buffer_rc = <InjectableType as Injectable<DIContainerType>>::into_ptr_buffer_rc;
        let singleton = rc_clone(&self.singleton);
        assert(singleton == self.spec_singleton());
        let buffer = into_ptr_buffer_rc(singleton);
        assert(call_ensures(into_ptr_buffer_rc, (self.spec_singleton(),), buffer));
        Ok(Providable::Singleton(buffer))
    }
}

/// Provides a function that creates a `ReturnInterface` from a DI container, for the
/// user to call or to be called at once.
#[verifier::reject_recursive_types(ReturnInterface)]
#[verifier::reject_recursive_types(DIContainerType)]
pub struct FunctionProvider<ReturnInterface, DIContainerType, Func> where
    ReturnInterface: ?Sized + 'static,
    DIContainerType: 'static,
    Func: Fn(&DIContainerType) -> TransientPtr<ReturnInterface> + 'static,
 {
    function: &'static Func,
    providable_func_kind: ProvidableFunctionKind,
    return_phantom: PhantomData<ReturnInterface>,
    di_container_phantom: PhantomData<DIContainerType>,
}

impl<ReturnInterface, DIContainerType, Func> FunctionProvider<
    ReturnInterface,
    DIContainerType,
    Func,
> where
    ReturnInterface: ?Sized + 'static,
    DIContainerType: 'static,
    Func: Fn(&DIContainerType) -> TransientPtr<ReturnInterface> + 'static,
 {
    /// The function provided.
    pub closed spec fn spec_function(&self) -> &'static Func {
        self.function
    }

    /// The kind of the function.
    pub closed spec fn spec_kind(&self) -> ProvidableFunctionKind {
        self.providable_func_kind
    }

    /// The function accepts every DI container.
    #[verifier::type_invariant]
    spec fn accepts_every_container(self) -> bool {
        forall|di_container: &DIContainerType| #[trigger] self.function.requires((di_container,))
    }

    /// Returns a provider of `function` of the kind `providable_func_kind`.
    pub fn new(function: &'static Func, providable_func_kind: ProvidableFunctionKind) -> (provider:
        Self)
        requires
            forall|di_container: &DIContainerType| #[trigger]
                function.requires((di_container,)),
        ensures
            provider.spec_function() == function,
            provider.spec_kind() == providable_func_kind,
    {
        Self {
            function,
            providable_func_kind,
            return_phantom: PhantomData,
            di_container_phantom: PhantomData,
        }
    }
}

impl<ReturnInterface, DIContainerType, Func> FunctionProvider<
    ReturnInterface,
    DIContainerType,
    Func,
> where
    ReturnInterface: ?Sized + 'static,
    DIContainerType: 'static,
    Func: Fn(&DIContainerType) -> TransientPtr<ReturnInterface> + 'static,
 {
    /// Gives the function, as a factory of `ReturnInterface` for `DIContainerType`.
    ///
    /// # Errors
    /// Never; the result is a `Result` as for every provider.
    pub fn provide(&self, _di_container: &DIContainerType, _dependency_history: Vec<&'static str>) -> (res:
        Result<Providable, InjectableError>)
        ensures
            res matches Ok(providable) && providable matches Providable::Function(buffer, kind)
                && kind == self.spec_kind() && buffer.spec_kind() == Kind::Box,
            res matches Ok(Providable::Function(buffer, _)) && spec_erased_from::<
                dyn IFactory<ReturnInterface, DIContainerType>,
            >(buffer),
    {
        proof {
            use_type_invariant(self);
        }
        let factory = CastableFactory::<ReturnInterface, DIContainerType, &'static Func>::new(
            self.function,
        );
        let factory: Box<dyn IFactory<ReturnInterface, DIContainerType>> = Box::new(factory);
        let buffer = PtrBuffer::erase_smart_ptr::<dyn IFactory<ReturnInterface, DIContainerType>>(
            SmartPtr::Box(factory),
        );
        Ok(Providable::Function(buffer, self.providable_func_kind))
    }
}

/// A function provider gives its function whatever it is asked with: for every DI
/// container and every dependency history, `provide` gives a function providable of the
/// provider's kind, holding a box erased from a factory of `ReturnInterface` for
/// `DIContainerType`.
pub proof fn law_function_provider_gives_its_factory<ReturnInterface, DIContainerType, Func>(
    provider: &FunctionProvider<ReturnInterface, DIContainerType, Func>,
    di_container: &DIContainerType,
    dependency_history: Vec<&'static str>,
    res: Result<Providable, InjectableError>,
) where
    ReturnInterface: ?Sized + 'static,
    DIContainerType: 'static,
    Func: Fn(&DIContainerType) -> TransientPtr<ReturnInterface> + 'static,

    requires
        call_ensures(
            FunctionProvider::<ReturnInterface, DIContainerType, Func>::provide,
            (provider, di_container, dependency_history),
            res,
        ),
    ensures
        res matches Ok(Providable::Function(buffer, kind)) && kind == provider.spec_kind()
            && buffer.spec_kind() == Kind::Box && spec_erased_from::<
            dyn IFactory<ReturnInterface, DIContainerType>,
        >(buffer),
{
}

} // verus!

verus! {

/// The type of the providers that a container holds, `Self`: each kind of provider of
/// the container `DIContainer` can be boxed as one.
pub trait BoxedProvider {
    /// The container whose providers these are.
    type DIContainer: 'static;

    /// Boxes a provider of new instances of `Implementation`.
    fn from_transient<Implementation>(
        provider: TransientTypeProvider<Implementation, Self::DIContainer>,
    ) -> Box<Self> where Implementation: Injectable<Self::DIContainer>;

    /// Boxes a provider of a single instance of `Implementation`.
    fn from_singleton<Implementation>(
        provider: SingletonProvider<Implementation, Self::DIContainer>,
    ) -> Box<Self> where Implementation: Injectable<Self::DIContainer>;

    /// Boxes a provider of a function.
    fn from_function<ReturnInterface, Func>(
        provider: FunctionProvider<ReturnInterface, Self::DIContainer, Func>,
    ) -> Box<Self> where
        ReturnInterface: ?Sized + 'static,
        Func: Fn(&Self::DIContainer) -> TransientPtr<ReturnInterface> + 'static,
    ;
}

/// `after` is `before` with `key` bound to the box of a transient provider of
/// `Implementation`.
pub open spec fn spec_binds_transient<Key, Implementation, Provider>(
    before: Map<Key, Box<Provider>>,
    after: Map<Key, Box<Provider>>,
    key: Key,
) -> bool where
    Provider: ?Sized + BoxedProvider,
    Implementation: Injectable<<Provider as BoxedProvider>::DIContainer>,
 {
    exists|
        provider: TransientTypeProvider<Implementation, <Provider as BoxedProvider>::DIContainer>,
        boxed: Box<Provider>,
    | #[trigger]
        call_ensures(
            <Provider as BoxedProvider>::from_transient::<Implementation>,
            (provider,),
            boxed,
        ) && after == before.insert(key, boxed)
}

/// `after` is `before` with `key` bound to the box of a provider of a single instance of
/// `Implementation` that holds the value `instance`.
pub open spec fn spec_binds_singleton<Key, Implementation, Provider>(
    before: Map<Key, Box<Provider>>,
    after: Map<Key, Box<Provider>>,
    key: Key,
    instance: TransientPtr<Implementation>,
) -> bool where
    Provider: ?Sized + BoxedProvider,
    Implementation: Injectable<<Provider as BoxedProvider>::DIContainer>,
 {
    exists|
        provider: SingletonProvider<Implementation, <Provider as BoxedProvider>::DIContainer>,
        boxed: Box<Provider>,
    | #[trigger]
        call_ensures(
            <Provider as BoxedProvider>::from_singleton::<Implementation>,
            (provider,),
            boxed,
        ) && &*provider.spec_singleton() == &*instance && after == before.insert(key, boxed)
}

/// `after` is `before` with `key` bound to the box of a provider of the function
/// `function` of the kind `kind`.
pub open spec fn spec_binds_function<Key, ReturnInterface, Func, Provider>(
    before: Map<Key, Box<Provider>>,
    after: Map<Key, Box<Provider>>,
    key: Key,
    function: &'static Func,
    kind: ProvidableFunctionKind,
) -> bool where
    Provider: ?Sized + BoxedProvider,
    ReturnInterface: ?Sized + 'static,
    Func: Fn(&<Provider as BoxedProvider>::DIContainer) -> TransientPtr<ReturnInterface> + 'static,
 {
    exists|
        provider: FunctionProvider<ReturnInterface, <Provider as BoxedProvider>::DIContainer, Func>,
        boxed: Box<Provider>,
    | #[trigger]
        call_ensures(
            <Provider as BoxedProvider>::from_function::<ReturnInterface, Func>,
            (provider,),
            boxed,
        ) && provider.spec_function() == function && provider.spec_kind() == kind && after
            == before.insert(key, boxed)
}

} // verus!
