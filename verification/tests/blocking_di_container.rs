use std::any::TypeId;
use std::fmt::Debug;
use std::rc::Rc;
use std::sync::Arc;

use syrette::di_container::blocking::binding::scope_configurator::BindingScopeConfigurator;
use syrette::di_container::blocking::binding::when_configurator::BindingWhenConfigurator;
use syrette::di_container::blocking::{CastProvidable, DIContainer};
use syrette::di_container::{BindingOptions, InterfaceId};
use syrette::errors::di_container::{
    BindingBuilderError,
    BindingScopeConfiguratorError,
    BindingWhenConfiguratorError,
    DIContainerError,
};
use syrette::errors::injectable::InjectableError;
use syrette::errors::ptr::SomePtrError;
use syrette::interfaces::injectable::Injectable;
use syrette::provider::blocking::{
    BoxedProvider,
    FunctionProvider,
    Providable,
    ProvidableFunctionKind,
    SingletonProvider,
    TransientTypeProvider,
};
use syrette::ptr::{SomePtr, TransientPtr};
use syrette::ptr_buffer::PtrBuffer;

trait IUserManager
{
    fn user_count(&self) -> usize;
}

struct UserManager
{
    users: Vec<i128>,
}

impl UserManager
{
    fn new() -> Self
    {
        Self { users: Vec::new() }
    }
}

impl IUserManager for UserManager
{
    fn user_count(&self) -> usize
    {
        self.users.len()
    }
}

impl<C> Injectable<C> for UserManager
{
    fn resolve(
        _di_container: &C,
        _dependency_history: Vec<&'static str>,
    ) -> Result<TransientPtr<Self>, InjectableError>
    {
        Ok(TransientPtr::new(Self::new()))
    }

    fn into_ptr_buffer_box(self: Box<Self>) -> PtrBuffer
    {
        let me: Box<dyn IUserManager> = self;

        PtrBuffer::new_from(me)
    }

    fn into_ptr_buffer_rc(self: Rc<Self>) -> PtrBuffer
    {
        let me: Rc<dyn IUserManager> = self;

        PtrBuffer::new_from(me)
    }

    fn into_ptr_buffer_arc(self: Arc<Self>) -> PtrBuffer
    {
        let me: Arc<dyn IUserManager> = self;

        PtrBuffer::new_from(me)
    }
}

trait INumber
{
    fn get(&self) -> i32;
}

impl PartialEq for dyn INumber
{
    fn eq(&self, other: &Self) -> bool
    {
        self.get() == other.get()
    }
}

impl Debug for dyn INumber
{
    fn fmt(&self, f: &mut std::fmt::Formatter<'_>) -> std::fmt::Result
    {
        f.write_str(format!("{}", self.get()).as_str())
    }
}

struct Number
{
    num: i32,
}

impl INumber for Number
{
    fn get(&self) -> i32
    {
        self.num
    }
}

impl<C> Injectable<C> for Number
{
    fn resolve(
        _di_container: &C,
        _dependency_history: Vec<&'static str>,
    ) -> Result<TransientPtr<Self>, InjectableError>
    {
        Ok(TransientPtr::new(Self { num: 0 }))
    }

    fn into_ptr_buffer_box(self: Box<Self>) -> PtrBuffer
    {
        let me: Box<dyn INumber> = self;

        PtrBuffer::new_from(me)
    }

    fn into_ptr_buffer_rc(self: Rc<Self>) -> PtrBuffer
    {
        let me: Rc<dyn INumber> = self;

        PtrBuffer::new_from(me)
    }

    fn into_ptr_buffer_arc(self: Arc<Self>) -> PtrBuffer
    {
        let me: Arc<dyn INumber> = self;

        PtrBuffer::new_from(me)
    }
}

struct Ninja;

/// What the container in these tests holds: a provider of values for a container of
/// type `()`.
trait IProvider
{
    fn provide(
        &self,
        di_container: &(),
        dependency_history: Vec<&'static str>,
    ) -> Result<Providable, InjectableError>;
}

impl<T: Injectable<()>> IProvider for TransientTypeProvider<T, ()>
{
    fn provide(
        &self,
        di_container: &(),
        dependency_history: Vec<&'static str>,
    ) -> Result<Providable, InjectableError>
    {
        TransientTypeProvider::provide(self, di_container, dependency_history)
    }
}

impl<T: Injectable<()>> IProvider for SingletonProvider<T, ()>
{
    fn provide(
        &self,
        di_container: &(),
        dependency_history: Vec<&'static str>,
    ) -> Result<Providable, InjectableError>
    {
        SingletonProvider::provide(self, di_container, dependency_history)
    }
}

impl<R, F> IProvider for FunctionProvider<R, (), F>
where
    R: ?Sized + 'static,
    F: Fn(&()) -> TransientPtr<R> + 'static,
{
    fn provide(
        &self,
        di_container: &(),
        dependency_history: Vec<&'static str>,
    ) -> Result<Providable, InjectableError>
    {
        FunctionProvider::provide(self, di_container, dependency_history)
    }
}

impl BoxedProvider for dyn IProvider
{
    type DIContainer = ();

    fn from_transient<Implementation>(
        provider: TransientTypeProvider<Implementation, ()>,
    ) -> Box<Self>
    where
        Implementation: Injectable<()>,
    {
        Box::new(provider)
    }

    fn from_singleton<Implementation>(provider: SingletonProvider<Implementation, ()>) -> Box<Self>
    where
        Implementation: Injectable<()>,
    {
        Box::new(provider)
    }

    fn from_function<ReturnInterface, Func>(
        provider: FunctionProvider<ReturnInterface, (), Func>,
    ) -> Box<Self>
    where
        ReturnInterface: ?Sized + 'static,
        Func: Fn(&()) -> TransientPtr<ReturnInterface> + 'static,
    {
        Box::new(provider)
    }
}

/// A provider that always fails.
struct FailingProvider;

impl IProvider for FailingProvider
{
    fn provide(
        &self,
        _di_container: &(),
        dependency_history: Vec<&'static str>,
    ) -> Result<Providable, InjectableError>
    {
        Err(InjectableError::DetectedCircular { dependency_history })
    }
}

fn provide(
    provider: &(dyn IProvider + 'static),
    di_container: &(),
    dependency_history: Vec<&'static str>,
) -> Result<Providable, InjectableError>
{
    provider.provide(di_container, dependency_history)
}

fn id<Interface: ?Sized + 'static>(name: &'static str) -> InterfaceId
{
    InterfaceId::new(TypeId::of::<Interface>(), name)
}

type IUserManagerFactory = dyn Fn(Vec<i128>) -> TransientPtr<dyn IUserManager>;

fn user_manager_factory_func() -> &'static impl Fn(&()) -> TransientPtr<IUserManagerFactory>
{
    Box::leak(Box::new(|_: &()| -> TransientPtr<IUserManagerFactory> {
        Box::new(move |users: Vec<i128>| {
            let user_manager: TransientPtr<dyn IUserManager> =
                TransientPtr::new(UserManager { users });

            user_manager
        })
    }))
}

fn user_manager_factory_provider(kind: ProvidableFunctionKind) -> Box<dyn IProvider>
{
    Box::new(FunctionProvider::<IUserManagerFactory, (), _>::new(
        user_manager_factory_func(),
        kind,
    ))
}

fn user_manager_value_func() -> &'static impl Fn(&()) -> TransientPtr<dyn IUserManager>
{
    Box::leak(Box::new(|_: &()| -> TransientPtr<dyn IUserManager> {
        TransientPtr::new(UserManager { users: vec![1, 2, 3] })
    }))
}

fn user_manager_value_provider() -> Box<dyn IProvider>
{
    Box::new(FunctionProvider::<dyn IUserManager, (), _>::new(
        user_manager_value_func(),
        ProvidableFunctionKind::Instant,
    ))
}

fn number_value_func() -> &'static impl Fn(&()) -> TransientPtr<dyn INumber>
{
    Box::leak(Box::new(|_: &()| -> TransientPtr<dyn INumber> {
        TransientPtr::new(Number { num: 3 })
    }))
}

fn number_singleton_provider(num: i32) -> Box<dyn IProvider>
{
    Box::new(SingletonProvider::<Number, ()>::new(Rc::new(Number { num })))
}

#[test]
fn blocking_can_get()
{
    let mut di_container = DIContainer::<dyn IProvider>::new();

    di_container.set_binding(
        id::<dyn IUserManager>("dyn IUserManager"),
        BindingOptions::new(),
        Box::new(TransientTypeProvider::<UserManager, ()>::new()),
    );

    di_container
        .get::<dyn IUserManager, (), _>(&(), provide, id::<dyn IUserManager>("dyn IUserManager"))
        .unwrap()
        .transient()
        .unwrap();
}

#[test]
fn blocking_can_get_named()
{
    let mut di_container = DIContainer::<dyn IProvider>::new();

    di_container.set_binding(
        id::<dyn IUserManager>("dyn IUserManager"),
        BindingOptions::new().name("special"),
        Box::new(TransientTypeProvider::<UserManager, ()>::new()),
    );

    di_container
        .get_named::<dyn IUserManager, (), _>(
            &(),
            provide,
            id::<dyn IUserManager>("dyn IUserManager"),
            "special",
        )
        .unwrap()
        .transient()
        .unwrap();
}

#[test]
fn blocking_can_get_singleton()
{
    let mut di_container = DIContainer::<dyn IProvider>::new();

    di_container.set_binding(
        id::<dyn INumber>("dyn INumber"),
        BindingOptions::new(),
        number_singleton_provider(2820),
    );

    let first_number_rc = di_container
        .get::<dyn INumber, (), _>(&(), provide, id::<dyn INumber>("dyn INumber"))
        .unwrap()
        .singleton()
        .unwrap();

    assert_eq!(first_number_rc.get(), 2820);

    let second_number_rc = di_container
        .get::<dyn INumber, (), _>(&(), provide, id::<dyn INumber>("dyn INumber"))
        .unwrap()
        .singleton()
        .unwrap();

    assert_eq!(first_number_rc.as_ref(), second_number_rc.as_ref());
    assert!(Rc::ptr_eq(&first_number_rc, &second_number_rc));
}

#[test]
fn blocking_can_get_singleton_named()
{
    let mut di_container = DIContainer::<dyn IProvider>::new();

    di_container.set_binding(
        id::<dyn INumber>("dyn INumber"),
        BindingOptions::new().name("cool"),
        number_singleton_provider(2820),
    );

    let first_number_rc = di_container
        .get_named::<dyn INumber, (), _>(&(), provide, id::<dyn INumber>("dyn INumber"), "cool")
        .unwrap()
        .singleton()
        .unwrap();

    assert_eq!(first_number_rc.get(), 2820);

    let second_number_rc = di_container
        .get_named::<dyn INumber, (), _>(&(), provide, id::<dyn INumber>("dyn INumber"), "cool")
        .unwrap()
        .singleton()
        .unwrap();

    assert_eq!(first_number_rc.as_ref(), second_number_rc.as_ref());
}

#[test]
fn blocking_can_get_factory()
{
    let mut di_container = DIContainer::<dyn IProvider>::new();

    di_container.set_binding(
        id::<IUserManagerFactory>("IUserManagerFactory"),
        BindingOptions::new(),
        user_manager_factory_provider(ProvidableFunctionKind::UserCalled),
    );

    let factory = di_container
        .get::<IUserManagerFactory, (), _>(&(), provide, id::<IUserManagerFactory>("IUserManagerFactory"))
        .unwrap()
        .factory()
        .unwrap();

    assert_eq!((*factory)(vec![1, 2]).user_count(), 2);
}

#[test]
fn blocking_can_get_factory_named()
{
    let mut di_container = DIContainer::<dyn IProvider>::new();

    di_container.set_binding(
        id::<IUserManagerFactory>("IUserManagerFactory"),
        BindingOptions::new().name("special"),
        user_manager_factory_provider(ProvidableFunctionKind::UserCalled),
    );

    di_container
        .get_named::<IUserManagerFactory, (), _>(
            &(),
            provide,
            id::<IUserManagerFactory>("IUserManagerFactory"),
            "special",
        )
        .unwrap()
        .factory()
        .unwrap();
}

#[test]
fn blocking_has_binding_works()
{
    let mut di_container = DIContainer::<dyn IProvider>::new();

    // No binding is present yet
    assert!(!di_container.has_binding(id::<Ninja>("Ninja"), BindingOptions::new()));

    di_container.set_binding(
        id::<Ninja>("Ninja"),
        BindingOptions::new(),
        Box::new(FailingProvider),
    );

    assert!(di_container.has_binding(id::<Ninja>("Ninja"), BindingOptions::new()));
}

#[test]
fn blocking_set_binding_works()
{
    let mut di_container = DIContainer::<dyn IProvider>::new();

    di_container.set_binding(
        id::<Ninja>("Ninja"),
        BindingOptions::new(),
        Box::new(FailingProvider),
    );

    assert!(di_container.has_binding(id::<Ninja>("Ninja"), BindingOptions::new()));
}

#[test]
fn blocking_remove_binding_works()
{
    let mut di_container = DIContainer::<dyn IProvider>::new();

    di_container.set_binding(
        id::<Ninja>("Ninja"),
        BindingOptions::new(),
        Box::new(FailingProvider),
    );

    assert!(di_container
        .remove_binding(id::<Ninja>("Ninja"), BindingOptions::new())
        .is_some());

    assert!(!di_container.has_binding(id::<Ninja>("Ninja"), BindingOptions::new()));
}

#[test]
fn builder_can_bind_to()
{
    let mut di_container = DIContainer::<dyn IProvider>::new();

    di_container
        .bind::<dyn INumber>(id::<dyn INumber>("dyn INumber"))
        .to::<Number>()
        .unwrap();

    assert!(di_container.has_binding(id::<dyn INumber>("dyn INumber"), BindingOptions::new()));
}

#[test]
fn builder_can_bind_to_factory()
{
    let mut di_container = DIContainer::<dyn IProvider>::new();

    di_container
        .bind::<IUserManagerFactory>(id::<IUserManagerFactory>("IUserManagerFactory"))
        .to_factory(user_manager_factory_func())
        .unwrap();

    assert!(di_container.has_binding(id::<IUserManagerFactory>("IUserManagerFactory"), BindingOptions::new()));
}

#[test]
fn can_bind_to_dynamic_value()
{
    let mut di_container = DIContainer::<dyn IProvider>::new();

    di_container
        .bind::<dyn IUserManager>(id::<dyn IUserManager>("dyn IUserManager"))
        .to_dynamic_value(user_manager_value_func())
        .unwrap();

    assert!(di_container.has_binding(id::<dyn IUserManager>("dyn IUserManager"), BindingOptions::new()));
}

#[test]
fn in_transient_scope_works()
{
    let mut di_container = DIContainer::<dyn IProvider>::new();

    let binding_scope_configurator =
        BindingScopeConfigurator::<dyn IUserManager, UserManager, dyn IProvider>::new(
            &mut di_container,
            id::<dyn IUserManager>("dyn IUserManager"),
        );

    binding_scope_configurator
        .in_transient_scope();

    assert!(di_container.has_binding(id::<dyn IUserManager>("dyn IUserManager"), BindingOptions::new()));
}

#[test]
fn in_singleton_scope_works()
{
    let mut di_container = DIContainer::<dyn IProvider>::new();

    let binding_scope_configurator =
        BindingScopeConfigurator::<dyn IUserManager, UserManager, dyn IProvider>::new(
            &mut di_container,
            id::<dyn IUserManager>("dyn IUserManager"),
        );

    let resolved = <UserManager as Injectable<()>>::resolve(&(), Vec::new());

    assert!(binding_scope_configurator.in_singleton_scope(resolved).is_ok());
}

#[test]
fn when_named_works()
{
    let mut di_container = DIContainer::<dyn IProvider>::new();

    di_container.set_binding(
        id::<dyn INumber>("dyn INumber"),
        BindingOptions::new(),
        Box::new(TransientTypeProvider::<Number, ()>::new()),
    );

    let binding_when_configurator = BindingWhenConfigurator::<dyn INumber, dyn IProvider>::new(
        &mut di_container,
        id::<dyn INumber>("dyn INumber"),
    );

    assert!(binding_when_configurator.when_named("cool").is_ok());

    assert!(di_container.has_binding(id::<dyn INumber>("dyn INumber"), BindingOptions::new().name("cool")));
    assert!(!di_container.has_binding(id::<dyn INumber>("dyn INumber"), BindingOptions::new()));
}

#[test]
fn transient_type_provider_works()
{
    let transient_type_provider = TransientTypeProvider::<UserManager, ()>::new();

    assert!(
        matches!(
            transient_type_provider.provide(&(), Vec::new()),
            Ok(Providable::Transient(_))
        ),
        "The provided type is not transient"
    );
}

#[test]
fn singleton_provider_works()
{
    let singleton_provider =
        SingletonProvider::<UserManager, ()>::new(Rc::new(UserManager::new()));

    assert!(
        matches!(
            singleton_provider.provide(&(), Vec::new()).unwrap(),
            Providable::Singleton(_)
        ),
        "The provided type is not a singleton"
    );
}

#[test]
fn blocking_function_provider_works()
{
    let user_called_func_provider =
        user_manager_factory_provider(ProvidableFunctionKind::UserCalled);

    let instant_func_provider = user_manager_factory_provider(ProvidableFunctionKind::Instant);

    assert!(
        matches!(
            user_called_func_provider.provide(&(), Vec::new()),
            Ok(Providable::Function(_, ProvidableFunctionKind::UserCalled))
        ),
        "The provided type is not a Providable::Function of kind ProvidableFunctionKind::UserCalled"
    );

    assert!(
        matches!(
            instant_func_provider.provide(&(), Vec::new()),
            Ok(Providable::Function(_, ProvidableFunctionKind::Instant))
        ),
        "The provided type is not a Providable::Function of kind ProvidableFunctionKind::Instant"
    );
}

#[test]
fn get_dynamic_value_calls_the_function()
{
    let mut di_container = DIContainer::<dyn IProvider>::new();

    di_container
        .bind::<dyn IUserManager>(id::<dyn IUserManager>("dyn IUserManager"))
        .to_dynamic_value(user_manager_value_func())
        .unwrap();

    let user_manager = di_container
        .get::<dyn IUserManager, (), _>(&(), provide, id::<dyn IUserManager>("dyn IUserManager"))
        .unwrap()
        .transient()
        .unwrap();

    assert_eq!(user_manager.user_count(), 3);
}

#[test]
fn new_container_resolves_nothing()
{
    let di_container = DIContainer::<dyn IProvider>::default();

    let unnamed = di_container.get::<dyn INumber, (), _>(&(), provide, id::<dyn INumber>("dyn INumber"));

    assert!(matches!(
        unnamed,
        Err(DIContainerError::BindingNotFound { interface, name: None })
            if interface == "dyn INumber"
    ));

    let named =
        di_container.get_named::<dyn INumber, (), _>(&(), provide, id::<dyn INumber>("dyn INumber"), "cool");

    assert!(matches!(
        named,
        Err(DIContainerError::BindingNotFound { interface, name: Some(name) })
            if interface == "dyn INumber" && name == "cool"
    ));
}

#[test]
fn named_binding_is_found_only_by_name()
{
    let mut di_container = DIContainer::<dyn IProvider>::new();

    di_container
        .bind::<dyn INumber>(id::<dyn INumber>("dyn INumber"))
        .to::<Number>()
        .unwrap()
        .in_singleton_scope(Ok(Box::new(Number { num: 5 })))
        .unwrap()
        .when_named("five")
        .unwrap();

    assert!(matches!(
        di_container.get::<dyn INumber, (), _>(&(), provide, id::<dyn INumber>("dyn INumber")),
        Err(DIContainerError::BindingNotFound { name: None, .. })
    ));

    let number = di_container
        .get_named::<dyn INumber, (), _>(&(), provide, id::<dyn INumber>("dyn INumber"), "five")
        .unwrap()
        .singleton()
        .unwrap();

    assert_eq!(number.get(), 5);
}

#[test]
fn binding_twice_is_refused()
{
    let mut di_container = DIContainer::<dyn IProvider>::new();

    di_container
        .bind::<dyn INumber>(id::<dyn INumber>("dyn INumber"))
        .to::<Number>()
        .unwrap()
        .in_singleton_scope(Ok(Box::new(Number { num: 1 })))
        .unwrap();

    let second = di_container
        .bind::<dyn INumber>(id::<dyn INumber>("dyn INumber"))
        .to::<Number>();

    assert!(matches!(
        second,
        Err(BindingBuilderError::BindingAlreadyExists(interface))
            if interface == "dyn INumber"
    ));

    let third = di_container
        .bind::<dyn INumber>(id::<dyn INumber>("dyn INumber"))
        .to_factory(number_value_func());

    assert!(matches!(
        third,
        Err(BindingBuilderError::BindingAlreadyExists(_))
    ));

    let number = di_container
        .get::<dyn INumber, (), _>(&(), provide, id::<dyn INumber>("dyn INumber"))
        .unwrap()
        .singleton()
        .unwrap();

    assert_eq!(number.get(), 1);
}

#[test]
fn when_named_without_binding_fails()
{
    let mut di_container = DIContainer::<dyn IProvider>::new();

    let binding_when_configurator = BindingWhenConfigurator::<dyn INumber, dyn IProvider>::new(
        &mut di_container,
        id::<dyn INumber>("dyn INumber"),
    );

    assert!(matches!(
        binding_when_configurator.when_named("cool"),
        Err(BindingWhenConfiguratorError::BindingNotFound(interface))
            if interface == "dyn INumber"
    ));

    assert!(!di_container.has_binding(id::<dyn INumber>("dyn INumber"), BindingOptions::new().name("cool")));
}

#[test]
fn in_singleton_scope_with_failed_resolve_fails()
{
    let mut di_container = DIContainer::<dyn IProvider>::new();

    let binding_scope_configurator =
        BindingScopeConfigurator::<dyn IUserManager, UserManager, dyn IProvider>::new(
            &mut di_container,
            id::<dyn IUserManager>("dyn IUserManager"),
        );

    let res = binding_scope_configurator.in_singleton_scope(Err(
        InjectableError::DetectedCircular { dependency_history: vec!["UserManager"] },
    ));

    assert!(matches!(
        res,
        Err(BindingScopeConfiguratorError::SingletonResolveFailed(
            InjectableError::DetectedCircular { .. }
        ))
    ));

    assert!(!di_container.has_binding(id::<dyn IUserManager>("dyn IUserManager"), BindingOptions::new()));
}

#[test]
fn failing_provider_gives_binding_resolve_failed()
{
    let mut di_container = DIContainer::<dyn IProvider>::new();

    di_container.set_binding(
        id::<dyn INumber>("dyn INumber"),
        BindingOptions::new(),
        Box::new(FailingProvider),
    );

    let res = di_container.get::<dyn INumber, (), _>(&(), provide, id::<dyn INumber>("dyn INumber"));

    assert!(matches!(
        res,
        Err(DIContainerError::BindingResolveFailed {
            reason: InjectableError::DetectedCircular { .. },
            interface,
        }) if interface == "dyn INumber"
    ));
}

#[test]
fn casting_to_another_interface_fails()
{
    let mut di_container = DIContainer::<dyn IProvider>::new();

    // The provider gives a `dyn IUserManager`, which is not a `dyn INumber`.
    di_container.set_binding(
        id::<dyn INumber>("dyn INumber"),
        BindingOptions::new(),
        Box::new(TransientTypeProvider::<UserManager, ()>::new()),
    );
    di_container.set_binding(
        id::<dyn INumber>("dyn INumber"),
        BindingOptions::new().name("factory"),
        user_manager_factory_provider(ProvidableFunctionKind::UserCalled),
    );
    di_container.set_binding(
        id::<dyn INumber>("dyn INumber"),
        BindingOptions::new().name("value"),
        user_manager_value_provider(),
    );
    di_container.set_binding(
        id::<dyn IUserManager>("dyn IUserManager"),
        BindingOptions::new(),
        number_singleton_provider(4),
    );

    assert!(matches!(
        di_container.get::<dyn INumber, (), _>(&(), provide, id::<dyn INumber>("dyn INumber")),
        Err(DIContainerError::CastFailed { interface, binding_kind: "transient" })
            if interface == "dyn INumber"
    ));
    assert!(matches!(
        di_container.get_named::<dyn INumber, (), _>(&(), provide, id::<dyn INumber>("dyn INumber"), "factory"),
        Err(DIContainerError::CastFailed { binding_kind: "factory", .. })
    ));
    assert!(matches!(
        di_container.get_named::<dyn INumber, (), _>(&(), provide, id::<dyn INumber>("dyn INumber"), "value"),
        Err(DIContainerError::CastFailed { binding_kind: "dynamic value function", .. })
    ));
    assert!(matches!(
        di_container.get::<dyn IUserManager, (), _>(&(), provide, id::<dyn IUserManager>("dyn IUserManager")),
        Err(DIContainerError::CastFailed { binding_kind: "singleton", .. })
    ));
}

#[test]
fn some_ptr_wrong_variant_is_reported()
{
    let mut di_container = DIContainer::<dyn IProvider>::new();

    di_container.set_binding(
        id::<dyn INumber>("dyn INumber"),
        BindingOptions::new(),
        number_singleton_provider(9),
    );

    let ptr = di_container
        .get::<dyn INumber, (), _>(&(), provide, id::<dyn INumber>("dyn INumber"))
        .unwrap();

    assert_eq!(ptr.variant_name(), "Singleton");

    assert!(matches!(
        ptr.transient(),
        Err(SomePtrError::WrongPtrType { expected: "Transient", found: "Singleton" })
    ));

    let factory: SomePtr<dyn INumber> = SomePtr::Factory(Rc::new(Number { num: 1 }));

    assert!(matches!(
        factory.singleton(),
        Err(SomePtrError::WrongPtrType { expected: "Singleton", found: "Factory" })
    ));

    let transient: SomePtr<dyn INumber> = SomePtr::Transient(Box::new(Number { num: 1 }));

    assert!(matches!(
        transient.factory(),
        Err(SomePtrError::WrongPtrType { expected: "Factory", found: "Transient" })
    ));
}

#[test]
fn di_container_can_bind_to()
{
    let mut di_container = DIContainer::<dyn IProvider>::new();

    assert!(!di_container.has_binding(id::<dyn IUserManager>("dyn IUserManager"), BindingOptions::new()));

    di_container
        .bind::<dyn IUserManager>(id::<dyn IUserManager>("dyn IUserManager"))
        .to::<UserManager>()
        .unwrap();

    assert!(di_container.has_binding(id::<dyn IUserManager>("dyn IUserManager"), BindingOptions::new()));
}

#[test]
fn di_container_can_bind_to_transient()
{
    let mut di_container = DIContainer::<dyn IProvider>::new();

    assert!(!di_container.has_binding(id::<dyn IUserManager>("dyn IUserManager"), BindingOptions::new()));

    di_container
        .bind::<dyn IUserManager>(id::<dyn IUserManager>("dyn IUserManager"))
        .to::<UserManager>()
        .unwrap()
        .in_transient_scope();

    assert!(di_container.has_binding(id::<dyn IUserManager>("dyn IUserManager"), BindingOptions::new()));
}

#[test]
fn di_container_can_bind_to_transient_when_named()
{
    let mut di_container = DIContainer::<dyn IProvider>::new();

    di_container
        .bind::<dyn IUserManager>(id::<dyn IUserManager>("dyn IUserManager"))
        .to::<UserManager>()
        .unwrap()
        .in_transient_scope()
        .when_named("regular")
        .unwrap();

    assert!(di_container.has_binding(
        id::<dyn IUserManager>("dyn IUserManager"),
        BindingOptions::new().name("regular")
    ));
    assert!(!di_container.has_binding(id::<dyn IUserManager>("dyn IUserManager"), BindingOptions::new()));
}

#[test]
fn di_container_can_bind_to_singleton()
{
    let mut di_container = DIContainer::<dyn IProvider>::new();

    di_container
        .bind::<dyn IUserManager>(id::<dyn IUserManager>("dyn IUserManager"))
        .to::<UserManager>()
        .unwrap()
        .in_singleton_scope(<UserManager as Injectable<()>>::resolve(&(), Vec::new()))
        .unwrap();

    assert!(di_container.has_binding(id::<dyn IUserManager>("dyn IUserManager"), BindingOptions::new()));
}

#[test]
fn di_container_can_bind_to_singleton_when_named()
{
    let mut di_container = DIContainer::<dyn IProvider>::new();

    di_container
        .bind::<dyn IUserManager>(id::<dyn IUserManager>("dyn IUserManager"))
        .to::<UserManager>()
        .unwrap()
        .in_singleton_scope(<UserManager as Injectable<()>>::resolve(&(), Vec::new()))
        .unwrap()
        .when_named("cool")
        .unwrap();

    assert!(di_container.has_binding(
        id::<dyn IUserManager>("dyn IUserManager"),
        BindingOptions::new().name("cool")
    ));
    assert!(!di_container.has_binding(id::<dyn IUserManager>("dyn IUserManager"), BindingOptions::new()));
}

#[test]
fn di_container_can_bind_to_factory()
{
    let mut di_container = DIContainer::<dyn IProvider>::new();

    di_container
        .bind::<IUserManagerFactory>(id::<IUserManagerFactory>("IUserManagerFactory"))
        .to_factory(user_manager_factory_func())
        .unwrap();

    assert!(di_container.has_binding(
        id::<IUserManagerFactory>("IUserManagerFactory"),
        BindingOptions::new()
    ));
}

#[test]
fn di_container_can_bind_to_factory_when_named()
{
    let mut di_container = DIContainer::<dyn IProvider>::new();

    di_container
        .bind::<IUserManagerFactory>(id::<IUserManagerFactory>("IUserManagerFactory"))
        .to_factory(user_manager_factory_func())
        .unwrap()
        .when_named("awesome")
        .unwrap();

    assert!(di_container.has_binding(
        id::<IUserManagerFactory>("IUserManagerFactory"),
        BindingOptions::new().name("awesome")
    ));
    assert!(!di_container.has_binding(
        id::<IUserManagerFactory>("IUserManagerFactory"),
        BindingOptions::new()
    ));
}

#[test]
fn di_container_can_get()
{
    let mut di_container = DIContainer::<dyn IProvider>::new();

    di_container
        .bind::<dyn IUserManager>(id::<dyn IUserManager>("dyn IUserManager"))
        .to::<UserManager>()
        .unwrap();

    di_container
        .get::<dyn IUserManager, (), _>(&(), provide, id::<dyn IUserManager>("dyn IUserManager"))
        .unwrap()
        .transient()
        .unwrap();
}

#[test]
fn di_container_can_get_named()
{
    let mut di_container = DIContainer::<dyn IProvider>::new();

    di_container
        .bind::<dyn IUserManager>(id::<dyn IUserManager>("dyn IUserManager"))
        .to::<UserManager>()
        .unwrap()
        .in_transient_scope()
        .when_named("special")
        .unwrap();

    di_container
        .get_named::<dyn IUserManager, (), _>(
            &(),
            provide,
            id::<dyn IUserManager>("dyn IUserManager"),
            "special",
        )
        .unwrap()
        .transient()
        .unwrap();
}

#[test]
fn di_container_can_get_singleton()
{
    let mut di_container = DIContainer::<dyn IProvider>::new();

    di_container
        .bind::<dyn INumber>(id::<dyn INumber>("dyn INumber"))
        .to::<Number>()
        .unwrap()
        .in_singleton_scope(Ok(Box::new(Number { num: 2820 })))
        .unwrap();

    let first_number_rc = di_container
        .get::<dyn INumber, (), _>(&(), provide, id::<dyn INumber>("dyn INumber"))
        .unwrap()
        .singleton()
        .unwrap();

    assert_eq!(first_number_rc.get(), 2820);

    let second_number_rc = di_container
        .get::<dyn INumber, (), _>(&(), provide, id::<dyn INumber>("dyn INumber"))
        .unwrap()
        .singleton()
        .unwrap();

    assert_eq!(first_number_rc.as_ref(), second_number_rc.as_ref());
}

#[test]
fn di_container_can_get_singleton_named()
{
    let mut di_container = DIContainer::<dyn IProvider>::new();

    di_container
        .bind::<dyn INumber>(id::<dyn INumber>("dyn INumber"))
        .to::<Number>()
        .unwrap()
        .in_singleton_scope(Ok(Box::new(Number { num: 2820 })))
        .unwrap()
        .when_named("cool")
        .unwrap();

    let first_number_rc = di_container
        .get_named::<dyn INumber, (), _>(&(), provide, id::<dyn INumber>("dyn INumber"), "cool")
        .unwrap()
        .singleton()
        .unwrap();

    assert_eq!(first_number_rc.get(), 2820);

    let second_number_rc = di_container
        .get_named::<dyn INumber, (), _>(&(), provide, id::<dyn INumber>("dyn INumber"), "cool")
        .unwrap()
        .singleton()
        .unwrap();

    assert_eq!(first_number_rc.as_ref(), second_number_rc.as_ref());
}

#[test]
fn di_container_can_get_factory()
{
    let mut di_container = DIContainer::<dyn IProvider>::new();

    di_container
        .bind::<IUserManagerFactory>(id::<IUserManagerFactory>("IUserManagerFactory"))
        .to_factory(user_manager_factory_func())
        .unwrap();

    di_container
        .get::<IUserManagerFactory, (), _>(&(), provide, id::<IUserManagerFactory>("IUserManagerFactory"))
        .unwrap()
        .factory()
        .unwrap();
}

#[test]
fn di_container_can_get_factory_named()
{
    let mut di_container = DIContainer::<dyn IProvider>::new();

    di_container
        .bind::<IUserManagerFactory>(id::<IUserManagerFactory>("IUserManagerFactory"))
        .to_factory(user_manager_factory_func())
        .unwrap()
        .when_named("special")
        .unwrap();

    di_container
        .get_named::<IUserManagerFactory, (), _>(
            &(),
            provide,
            id::<IUserManagerFactory>("IUserManagerFactory"),
            "special",
        )
        .unwrap()
        .factory()
        .unwrap();
}

#[test]
fn mod_can_get()
{
    let mut di_container = DIContainer::<dyn IProvider>::new();

    di_container.set_binding(
        id::<dyn IUserManager>("dyn IUserManager"),
        BindingOptions::new(),
        Box::new(TransientTypeProvider::<UserManager, ()>::new()),
    );

    di_container
        .get::<dyn IUserManager, (), _>(&(), provide, id::<dyn IUserManager>("dyn IUserManager"))
        .unwrap()
        .transient()
        .unwrap();
}

#[test]
fn mod_can_get_named()
{
    let mut di_container = DIContainer::<dyn IProvider>::new();

    di_container.set_binding(
        id::<dyn IUserManager>("dyn IUserManager"),
        BindingOptions::new().name("special"),
        Box::new(TransientTypeProvider::<UserManager, ()>::new()),
    );

    di_container
        .get_named::<dyn IUserManager, (), _>(
            &(),
            provide,
            id::<dyn IUserManager>("dyn IUserManager"),
            "special",
        )
        .unwrap()
        .transient()
        .unwrap();
}

#[test]
fn mod_can_get_singleton()
{
    let mut di_container = DIContainer::<dyn IProvider>::new();

    di_container.set_binding(
        id::<dyn INumber>("dyn INumber"),
        BindingOptions::new(),
        number_singleton_provider(2820),
    );

    let first_number_rc = di_container
        .get::<dyn INumber, (), _>(&(), provide, id::<dyn INumber>("dyn INumber"))
        .unwrap()
        .singleton()
        .unwrap();

    assert_eq!(first_number_rc.get(), 2820);

    let second_number_rc = di_container
        .get::<dyn INumber, (), _>(&(), provide, id::<dyn INumber>("dyn INumber"))
        .unwrap()
        .singleton()
        .unwrap();

    assert_eq!(first_number_rc.as_ref(), second_number_rc.as_ref());
}

#[test]
fn mod_can_get_singleton_named()
{
    let mut di_container = DIContainer::<dyn IProvider>::new();

    di_container.set_binding(
        id::<dyn INumber>("dyn INumber"),
        BindingOptions::new().name("cool"),
        number_singleton_provider(2820),
    );

    let first_number_rc = di_container
        .get_named::<dyn INumber, (), _>(&(), provide, id::<dyn INumber>("dyn INumber"), "cool")
        .unwrap()
        .singleton()
        .unwrap();

    assert_eq!(first_number_rc.get(), 2820);

    let second_number_rc = di_container
        .get_named::<dyn INumber, (), _>(&(), provide, id::<dyn INumber>("dyn INumber"), "cool")
        .unwrap()
        .singleton()
        .unwrap();

    assert_eq!(first_number_rc.as_ref(), second_number_rc.as_ref());
}

#[test]
fn mod_can_get_factory()
{
    let mut di_container = DIContainer::<dyn IProvider>::new();

    di_container.set_binding(
        id::<IUserManagerFactory>("IUserManagerFactory"),
        BindingOptions::new(),
        user_manager_factory_provider(ProvidableFunctionKind::UserCalled),
    );

    di_container
        .get::<IUserManagerFactory, (), _>(&(), provide, id::<IUserManagerFactory>("IUserManagerFactory"))
        .unwrap()
        .factory()
        .unwrap();
}

#[test]
fn mod_can_get_factory_named()
{
    let mut di_container = DIContainer::<dyn IProvider>::new();

    di_container.set_binding(
        id::<IUserManagerFactory>("IUserManagerFactory"),
        BindingOptions::new().name("special"),
        user_manager_factory_provider(ProvidableFunctionKind::UserCalled),
    );

    di_container
        .get_named::<IUserManagerFactory, (), _>(
            &(),
            provide,
            id::<IUserManagerFactory>("IUserManagerFactory"),
            "special",
        )
        .unwrap()
        .factory()
        .unwrap();
}

#[test]
fn transient_type_provider_passes_on_resolved()
{
    let provider = TransientTypeProvider::<UserManager, ()>::new();

    assert!(matches!(
        provider.provide_resolved(Ok(Box::new(UserManager::new()))),
        Ok(Providable::Transient(_))
    ));

    assert!(matches!(
        provider.provide_resolved(Err(InjectableError::DetectedCircular {
            dependency_history: vec!["UserManager"]
        })),
        Err(InjectableError::DetectedCircular { dependency_history }) if dependency_history == vec!["UserManager"]
    ));
}

fn provided_kind(di_container: &DIContainer<dyn IProvider>, interface: InterfaceId) -> &'static str
{
    match di_container
        .get_binding_provider(interface, BindingOptions::new())
        .unwrap()
        .provide(&(), Vec::new())
    {
        Ok(Providable::Transient(_)) => "transient",
        Ok(Providable::Singleton(_)) => "singleton",
        Ok(Providable::Function(_, ProvidableFunctionKind::UserCalled)) => "factory",
        Ok(Providable::Function(_, ProvidableFunctionKind::Instant)) => "dynamic value",
        Err(_) => "error",
    }
}

#[test]
fn builders_bind_providers_of_their_kind()
{
    let mut di_container = DIContainer::<dyn IProvider>::new();

    di_container
        .bind::<dyn INumber>(id::<dyn INumber>("dyn INumber"))
        .to::<Number>()
        .unwrap();
    di_container
        .bind::<IUserManagerFactory>(id::<IUserManagerFactory>("IUserManagerFactory"))
        .to_factory(user_manager_factory_func())
        .unwrap();
    di_container
        .bind::<dyn IUserManager>(id::<dyn IUserManager>("dyn IUserManager"))
        .to_dynamic_value(user_manager_value_func())
        .unwrap();

    assert_eq!(provided_kind(&di_container, id::<dyn INumber>("dyn INumber")), "transient");
    assert_eq!(
        provided_kind(&di_container, id::<IUserManagerFactory>("IUserManagerFactory")),
        "factory"
    );
    assert_eq!(
        provided_kind(&di_container, id::<dyn IUserManager>("dyn IUserManager")),
        "dynamic value"
    );

    let configurator = BindingScopeConfigurator::<dyn INumber, Number, dyn IProvider>::new(
        &mut di_container,
        id::<dyn INumber>("dyn INumber"),
    );

    configurator.in_singleton_scope(Ok(Box::new(Number { num: 77 }))).unwrap();

    assert_eq!(provided_kind(&di_container, id::<dyn INumber>("dyn INumber")), "singleton");

    let number = di_container
        .get::<dyn INumber, (), _>(&(), provide, id::<dyn INumber>("dyn INumber"))
        .unwrap()
        .singleton()
        .unwrap();

    assert_eq!(number.get(), 77);
}

#[test]
fn cast_results_become_pointers_or_errors()
{
    let interface = id::<dyn INumber>("dyn INumber");

    let transient = DIContainer::<dyn IProvider>::handle_cast_providable(
        interface,
        CastProvidable::Transient(Some(Box::new(Number { num: 1 }) as Box<dyn INumber>)),
    );

    assert!(matches!(transient, Ok(SomePtr::Transient(number)) if number.get() == 1));

    let factory = DIContainer::<dyn IProvider>::handle_cast_providable(
        interface,
        CastProvidable::Factory(Some(Box::new(Number { num: 2 }) as Box<dyn INumber>)),
    );

    assert!(matches!(factory, Ok(SomePtr::Factory(number)) if number.get() == 2));

    let value = DIContainer::<dyn IProvider>::handle_cast_providable(
        interface,
        CastProvidable::DynamicValue(Some(Box::new(Number { num: 3 }) as Box<dyn INumber>)),
    );

    assert!(matches!(value, Ok(SomePtr::Transient(number)) if number.get() == 3));

    let singleton = DIContainer::<dyn IProvider>::handle_cast_providable(
        interface,
        CastProvidable::Singleton(Some(Rc::new(Number { num: 4 }) as Rc<dyn INumber>)),
    );

    assert!(matches!(singleton, Ok(SomePtr::Singleton(number)) if number.get() == 4));

    for (cast, kind) in [
        (CastProvidable::<dyn INumber>::Transient(None), "transient"),
        (CastProvidable::Singleton(None), "singleton"),
        (CastProvidable::Factory(None), "factory"),
        (CastProvidable::DynamicValue(None), "dynamic value function"),
    ] {
        let res = DIContainer::<dyn IProvider>::handle_cast_providable(interface, cast);

        assert!(matches!(
            res,
            Err(DIContainerError::CastFailed { interface: "dyn INumber", binding_kind })
                if binding_kind == kind
        ));
    }
}
