use std::any::TypeId;
use std::hash::Hasher;
use std::sync::Arc;

use syrette::dependency_trace::create_dependency_trace;
use syrette::di_container::asynchronous::binding::scope_configurator::AsyncBindingScopeConfigurator;
use syrette::di_container::asynchronous::binding::when_configurator::AsyncBindingWhenConfigurator;
use syrette::di_container::asynchronous::{AsyncDIContainer, AsyncResolution};
use syrette::di_container::{BindingOptions, InterfaceId};
use syrette::errors::async_di_container::{
    AsyncBindingBuilderError,
    AsyncBindingScopeConfiguratorError,
    AsyncBindingWhenConfiguratorError,
    AsyncDIContainerError,
};
use syrette::errors::injectable::InjectableError;
use syrette::errors::ptr::SomeThreadsafePtrError;
use syrette::libs::intertrait::cast::error::CastError;
use syrette::libs::intertrait::hasher::FastHasher;
use syrette::libs::intertrait::{CasterError, GetCasterError};
use syrette::provider::threadsafe::{
    AsyncBoxedProvider,
    AsyncBoxedTransient,
    AsyncFunctionProvider,
    AsyncProvidable,
    AsyncSingletonProvider,
    AsyncTransientTypeProvider,
    ProvidableFunctionKind,
};
use syrette::ptr::{SomeThreadsafePtr, TransientPtr};
use syrette::ptr_buffer::{Kind, SmartPtr};

#[test]
fn dependency_trace_highlights_failed_dependency()
{
    let trace = create_dependency_trace(&["Foo", "Bar", "Baz"], "Bar");

    assert_eq!(trace, "Foo -> \x1b[1mBar\x1b[22m -> Baz");
}

#[test]
fn dependency_trace_edge_cases()
{
    assert_eq!(create_dependency_trace(&[], "Bar"), "");
    assert_eq!(create_dependency_trace(&["Bar"], "Bar"), "\x1b[1mBar\x1b[22m");
    assert_eq!(create_dependency_trace(&["Foo", "Foo"], "Bar"), "Foo -> Foo");
    assert_eq!(
        create_dependency_trace(&["Bar", "Foo", "Bar"], "Bar"),
        "\x1b[1mBar\x1b[22m -> Foo -> \x1b[1mBar\x1b[22m"
    );
}

#[test]
fn fast_hasher_folds_short_input_big_endian()
{
    let mut hasher = FastHasher::default();

    hasher.write(&[1, 2, 3]);

    assert_eq!(hasher.finish(), 0x0001_0203);

    hasher.write(&[0, 0, 1]);

    assert_eq!(hasher.finish(), 0x0001_0202);

    let mut empty = FastHasher(77);

    empty.write(&[]);

    assert_eq!(empty.finish(), 77);
}

#[test]
fn fast_hasher_reads_words_of_long_input()
{
    let bytes: Vec<u8> = (1..=20).collect();

    let mut hasher = FastHasher(5);

    hasher.write(&bytes);

    let first = u64::from_ne_bytes(bytes[0..8].try_into().unwrap());
    let second = u64::from_ne_bytes(bytes[8..16].try_into().unwrap());
    let tail = 0x1112_1314_u64;

    assert_eq!(hasher.finish(), 5 ^ first ^ second ^ tail);
}

#[test]
fn fast_hasher_keeps_eight_bytes_as_tail()
{
    let bytes = [1u8, 2, 3, 4, 5, 6, 7, 8];

    let mut hasher = FastHasher(0);

    hasher.write_bytes(&bytes);

    assert_eq!(hasher.finish_value(), 0x0102_0304_0506_0708);
}

#[test]
fn smart_ptr_kind_follows_variant()
{
    let boxed: SmartPtr<u8> = SmartPtr::from(Box::new(1u8));
    let rc: SmartPtr<u8> = SmartPtr::from(std::rc::Rc::new(1u8));
    let arc: SmartPtr<u8> = SmartPtr::from(Arc::new(1u8));

    assert_eq!(boxed.kind(), Kind::Box);
    assert_eq!(rc.kind(), Kind::Rc);
    assert_eq!(arc.kind(), Kind::Arc);
}

#[test]
fn threadsafe_ptr_variants()
{
    let transient: SomeThreadsafePtr<u8> = SomeThreadsafePtr::Transient(Box::new(1));
    let singleton: SomeThreadsafePtr<u8> = SomeThreadsafePtr::ThreadsafeSingleton(Arc::new(2));
    let factory: SomeThreadsafePtr<u8> = SomeThreadsafePtr::ThreadsafeFactory(Arc::new(3));

    assert_eq!(transient.variant_name(), "Transient");
    assert_eq!(singleton.variant_name(), "ThreadsafeSingleton");
    assert_eq!(factory.variant_name(), "ThreadsafeFactory");

    assert_eq!(*singleton.threadsafe_singleton().unwrap(), 2);
    assert!(matches!(
        transient.threadsafe_factory(),
        Err(SomeThreadsafePtrError::WrongPtrType {
            expected: "ThreadsafeFactory",
            found: "Transient"
        })
    ));
    assert!(matches!(
        factory.transient(),
        Err(SomeThreadsafePtrError::WrongPtrType {
            expected: "Transient",
            found: "ThreadsafeFactory"
        })
    ));
}

trait IAsyncProvider
{
    fn name(&self) -> &'static str;
}

struct NamedProvider(&'static str);

impl IAsyncProvider for NamedProvider
{
    fn name(&self) -> &'static str
    {
        self.0
    }
}

type TestFunction = dyn Fn() -> u8 + Send + Sync;

impl<Implementation> IAsyncProvider for AsyncTransientTypeProvider<Implementation, ()>
{
    fn name(&self) -> &'static str
    {
        "transient"
    }
}

impl IAsyncProvider for AsyncSingletonProvider<u32, ()>
{
    fn name(&self) -> &'static str
    {
        "singleton"
    }
}

impl IAsyncProvider for AsyncFunctionProvider<TestFunction>
{
    fn name(&self) -> &'static str
    {
        match self.provide::<u32>() {
            Ok(AsyncProvidable::Function(_, ProvidableFunctionKind::UserCalled)) => "factory",
            Ok(AsyncProvidable::Function(_, ProvidableFunctionKind::Instant)) => {
                "default factory"
            }
            Ok(AsyncProvidable::Function(_, ProvidableFunctionKind::AsyncInstant)) => {
                "async default factory"
            }
            _ => "function",
        }
    }
}

impl AsyncBoxedProvider for dyn IAsyncProvider
{
    type DIContainer = ();
    type Injectable = u32;
    type Function = TestFunction;

    fn from_singleton(provider: AsyncSingletonProvider<u32, ()>) -> Box<Self>
    {
        Box::new(provider)
    }

    fn from_function(provider: AsyncFunctionProvider<TestFunction>) -> Box<Self>
    {
        Box::new(provider)
    }
}

impl<Implementation: 'static> AsyncBoxedTransient<Implementation> for dyn IAsyncProvider
{
    fn from_transient(provider: AsyncTransientTypeProvider<Implementation, ()>) -> Box<Self>
    {
        Box::new(provider)
    }
}

fn test_function() -> Arc<TestFunction>
{
    Arc::new(|| 8u8)
}

fn id<Interface: ?Sized + 'static>(name: &'static str) -> InterfaceId
{
    InterfaceId::new(TypeId::of::<Interface>(), name)
}

#[test]
fn async_container_binding_bookkeeping()
{
    let mut di_container = AsyncDIContainer::<dyn IAsyncProvider>::new();

    assert!(!di_container.has_binding(id::<u8>("u8"), BindingOptions::new()));

    di_container.set_binding(id::<u8>("u8"), BindingOptions::new(), Box::new(NamedProvider("a")));

    assert!(di_container.has_binding(id::<u8>("u8"), BindingOptions::new()));
    assert_eq!(
        di_container
            .get_binding_provider(id::<u8>("u8"), BindingOptions::new())
            .unwrap()
            .name(),
        "a"
    );

    assert!(matches!(
        di_container.get_binding_provider(id::<u8>("u8"), BindingOptions::new().name("x")),
        Err(AsyncDIContainerError::BindingNotFound { interface: "u8", name: Some("x") })
    ));

    assert_eq!(
        di_container
            .remove_binding(id::<u8>("u8"), BindingOptions::new())
            .map(|provider| provider.name()),
        Some("a")
    );
    assert!(!di_container.has_binding(id::<u8>("u8"), BindingOptions::new()));
}

#[test]
fn async_builder_binds_and_names()
{
    let mut di_container = AsyncDIContainer::<dyn IAsyncProvider>::default();

    di_container
        .bind::<u8>(id::<u8>("u8"))
        .to::<u8>()
        .unwrap()
        .in_singleton_scope(Ok(Arc::new(2820)))
        .unwrap()
        .when_named("cool")
        .unwrap();

    assert!(!di_container.has_binding(id::<u8>("u8"), BindingOptions::new()));
    assert_eq!(
        di_container
            .get_binding_provider(id::<u8>("u8"), BindingOptions::new().name("cool"))
            .unwrap()
            .name(),
        "singleton"
    );

    di_container
        .bind::<u16>(id::<u16>("u16"))
        .to_async_factory(test_function())
        .unwrap();

    assert_eq!(
        di_container
            .get_binding_provider(id::<u16>("u16"), BindingOptions::new())
            .unwrap()
            .name(),
        "factory"
    );

    let again = di_container
        .bind::<u16>(id::<u16>("u16"))
        .to_default_factory(test_function());

    assert!(matches!(
        again,
        Err(AsyncBindingBuilderError::BindingAlreadyExists("u16"))
    ));
}

#[test]
fn async_configurators_report_errors()
{
    let mut di_container = AsyncDIContainer::<dyn IAsyncProvider>::new();

    let when_configurator =
        AsyncBindingWhenConfigurator::<u8, dyn IAsyncProvider>::new(&mut di_container, id::<u8>("u8"));

    assert!(matches!(
        when_configurator.when_named("cool"),
        Err(AsyncBindingWhenConfiguratorError::BindingNotFound("u8"))
    ));

    let scope_configurator = AsyncBindingScopeConfigurator::<u8, u8, dyn IAsyncProvider>::new(
        &mut di_container,
        id::<u8>("u8"),
    );

    assert!(matches!(
        scope_configurator.in_singleton_scope(Err(InjectableError::DetectedCircular {
            dependency_history: vec!["u8"]
        })),
        Err(AsyncBindingScopeConfiguratorError::SingletonResolveFailed(_))
    ));

    assert!(!di_container.has_binding(id::<u8>("u8"), BindingOptions::new()));

    let scope_configurator = AsyncBindingScopeConfigurator::<u8, u8, dyn IAsyncProvider>::new(
        &mut di_container,
        id::<u8>("u8"),
    );

    scope_configurator
        .in_transient_scope()
        .when_named("named")
        .unwrap();

    assert!(di_container.has_binding(id::<u8>("u8"), BindingOptions::new().name("named")));
}

#[test]
fn async_cast_results_are_mapped()
{
    let ok = AsyncDIContainer::<dyn IAsyncProvider>::handle_cast_result(
        Ok::<u8, CastError>(4),
        "u8",
        "transient",
    );

    assert!(matches!(ok, Ok(4)));

    let not_async = AsyncDIContainer::<dyn IAsyncProvider>::handle_cast_result(
        Err::<u8, CastError>(CastError::NotArcCastable("dyn Foo")),
        "u8",
        "singleton",
    );

    assert!(matches!(
        not_async,
        Err(AsyncDIContainerError::InterfaceNotAsync("u8"))
    ));

    let not_found = AsyncDIContainer::<dyn IAsyncProvider>::handle_cast_result(
        Err::<u8, CastError>(CastError::GetCasterFailed(GetCasterError::NotFound)),
        "u8",
        "factory",
    );

    assert!(matches!(
        not_found,
        Err(AsyncDIContainerError::CastFailed { interface: "u8", binding_kind: "factory" })
    ));

    let failed = AsyncDIContainer::<dyn IAsyncProvider>::handle_cast_result(
        Err::<u8, CastError>(CastError::CastFailed {
            source: CasterError::CastArcFailed,
            from: "a",
            to: "b",
        }),
        "u8",
        "singleton",
    );

    assert!(matches!(
        failed,
        Err(AsyncDIContainerError::CastFailed { interface: "u8", binding_kind: "singleton" })
    ));
}

#[test]
fn async_resolve_failure_is_wrapped()
{
    let res = AsyncDIContainer::<dyn IAsyncProvider>::resolve_providable::<u8>(
        id::<u8>("u8"),
        Err(InjectableError::DetectedCircular { dependency_history: vec!["u8"] }),
    );

    assert!(matches!(
        res,
        Err(AsyncDIContainerError::BindingResolveFailed {
            reason: InjectableError::DetectedCircular { .. },
            interface: "u8"
        })
    ));

    let ok = AsyncDIContainer::<dyn IAsyncProvider>::resolve_providable::<u8>(id::<u8>("u8"), Ok(9));

    assert!(matches!(ok, Ok(9)));
}

#[test]
fn async_transient_type_provider_passes_on_resolved()
{
    let provider = AsyncTransientTypeProvider::<u8, ()>::new();

    assert!(matches!(
        provider.provide_resolved::<u8, ()>(Ok(Box::new(3u8))),
        Ok(AsyncProvidable::Transient(value)) if *value == 3
    ));

    assert!(matches!(
        provider.provide_resolved::<u8, ()>(Err(InjectableError::DetectedCircular {
            dependency_history: Vec::new()
        })),
        Err(InjectableError::DetectedCircular { .. })
    ));
}

#[test]
fn async_singleton_provider_gives_same_instance()
{
    let singleton = Arc::new(2820u32);
    let provider = AsyncSingletonProvider::<u32, ()>::new(singleton.clone());

    let first = provider.provide::<()>().unwrap();
    let second = provider.provide::<()>().unwrap();

    match (first, second) {
        (AsyncProvidable::Singleton(first), AsyncProvidable::Singleton(second)) => {
            assert!(Arc::ptr_eq(&first, &second));
            assert!(Arc::ptr_eq(&first, &singleton));
        }
        _ => panic!("The provided type is not a singleton"),
    }
}

#[test]
fn async_function_provider_gives_function_and_kind()
{
    type Func = dyn Fn() -> TransientPtr<u8> + Send + Sync;

    let function: Arc<Func> = Arc::new(|| Box::new(8u8));

    for kind in [
        ProvidableFunctionKind::UserCalled,
        ProvidableFunctionKind::Instant,
        ProvidableFunctionKind::AsyncInstant,
    ] {
        let provider = AsyncFunctionProvider::new(function.clone(), kind);

        match provider.provide::<u8>() {
            Ok(AsyncProvidable::Function(provided, provided_kind)) => {
                assert_eq!(provided_kind, kind);
                assert_eq!(*(*provided)(), 8);
            }
            _ => panic!("The provided type is not an AsyncProvidable::Function"),
        }
    }
}

#[test]
fn mod_has_binding_works()
{
    let mut di_container = AsyncDIContainer::<dyn IAsyncProvider>::new();

    // No binding is present yet
    assert!(!di_container.has_binding(id::<u32>("u32"), BindingOptions::new()));

    di_container.set_binding(
        id::<u32>("u32"),
        BindingOptions::new(),
        Box::new(NamedProvider("number")),
    );

    assert!(di_container.has_binding(id::<u32>("u32"), BindingOptions::new()));
}

#[test]
fn mod_set_binding_works()
{
    let mut di_container = AsyncDIContainer::<dyn IAsyncProvider>::new();

    di_container.set_binding(
        id::<String>("String"),
        BindingOptions::new(),
        Box::new(NamedProvider("user manager")),
    );

    assert!(di_container.has_binding(id::<String>("String"), BindingOptions::new()));
}

#[test]
fn mod_remove_binding_works()
{
    let mut di_container = AsyncDIContainer::<dyn IAsyncProvider>::new();

    di_container.set_binding(
        id::<String>("String"),
        BindingOptions::new(),
        Box::new(NamedProvider("user manager")),
    );

    assert!(di_container
        .remove_binding(id::<String>("String"), BindingOptions::new())
        .is_some());

    assert!(!di_container.has_binding(id::<String>("String"), BindingOptions::new()));
}

#[test]
fn can_bind_to_async_factory()
{
    let mut di_container = AsyncDIContainer::<dyn IAsyncProvider>::new();

    di_container
        .bind::<u64>(id::<u64>("u64"))
        .to_async_factory(test_function())
        .unwrap();

    assert!(di_container.has_binding(id::<u64>("u64"), BindingOptions::new()));
}

#[test]
fn can_bind_to_default_factory()
{
    let mut di_container = AsyncDIContainer::<dyn IAsyncProvider>::new();

    di_container
        .bind::<u64>(id::<u64>("u64"))
        .to_default_factory(test_function())
        .unwrap();

    assert!(di_container.has_binding(id::<u64>("u64"), BindingOptions::new()));
}

#[test]
fn can_bind_to_async_default_factory()
{
    let mut di_container = AsyncDIContainer::<dyn IAsyncProvider>::new();

    di_container
        .bind::<u64>(id::<u64>("u64"))
        .to_async_default_factory(test_function())
        .unwrap();

    assert!(di_container.has_binding(id::<u64>("u64"), BindingOptions::new()));
    assert_eq!(
        di_container
            .get_binding_provider(id::<u64>("u64"), BindingOptions::new())
            .unwrap()
            .name(),
        "async default factory"
    );
}

fn handle_u8(providable: AsyncProvidable<u8, u8>, fail: bool) -> AsyncResolution<u8, u8>
{
    AsyncDIContainer::<dyn IAsyncProvider>::handle_binding_providable::<u8, u8, u8, u8, _, _, _, _>(
        "u8",
        "u8 value function",
        "u8 async value function",
        providable,
        |transient: Box<u8>| -> Result<Box<u8>, CastError> {
            if fail {
                Err(CastError::GetCasterFailed(GetCasterError::NotFound))
            } else {
                Ok(transient)
            }
        },
        |singleton: Arc<u8>| -> Result<Arc<u8>, CastError> {
            if fail {
                Err(CastError::NotArcCastable("u8"))
            } else {
                Ok(singleton)
            }
        },
        |function: Arc<u8>| -> Result<Box<u8>, CastError> {
            if fail {
                Err(CastError::GetCasterFailed(GetCasterError::DowncastFailed))
            } else {
                Ok(Box::new(*function + 1))
            }
        },
        |function: Arc<u8>| -> Result<Arc<u8>, CastError> {
            if fail {
                Err(CastError::NotArcCastable("u8"))
            } else {
                Ok(function)
            }
        },
    )
}

#[test]
fn async_binding_providable_is_handled_by_kind()
{
    assert!(matches!(
        handle_u8(AsyncProvidable::Transient(Box::new(3)), false),
        AsyncResolution::Done(Ok(SomeThreadsafePtr::Transient(value))) if *value == 3
    ));
    assert!(matches!(
        handle_u8(AsyncProvidable::Singleton(Arc::new(4)), false),
        AsyncResolution::Done(Ok(SomeThreadsafePtr::ThreadsafeSingleton(value))) if *value == 4
    ));
    assert!(matches!(
        handle_u8(
            AsyncProvidable::Function(Arc::new(5), ProvidableFunctionKind::UserCalled),
            false
        ),
        AsyncResolution::Done(Ok(SomeThreadsafePtr::ThreadsafeFactory(value))) if *value == 6
    ));
    assert!(matches!(
        handle_u8(
            AsyncProvidable::Function(Arc::new(7), ProvidableFunctionKind::Instant),
            false
        ),
        AsyncResolution::Done(Ok(SomeThreadsafePtr::Transient(value))) if *value == 8
    ));
    assert!(matches!(
        handle_u8(
            AsyncProvidable::Function(Arc::new(9), ProvidableFunctionKind::AsyncInstant),
            false
        ),
        AsyncResolution::AwaitValue(function) if *function == 9
    ));
}

#[test]
fn async_binding_providable_cast_failures()
{
    assert!(matches!(
        handle_u8(AsyncProvidable::Transient(Box::new(3)), true),
        AsyncResolution::Done(Err(AsyncDIContainerError::CastFailed {
            interface: "u8",
            binding_kind: "transient"
        }))
    ));
    assert!(matches!(
        handle_u8(AsyncProvidable::Singleton(Arc::new(4)), true),
        AsyncResolution::Done(Err(AsyncDIContainerError::InterfaceNotAsync("u8")))
    ));
    assert!(matches!(
        handle_u8(
            AsyncProvidable::Function(Arc::new(5), ProvidableFunctionKind::UserCalled),
            true
        ),
        AsyncResolution::Done(Err(AsyncDIContainerError::CastFailed {
            interface: "u8",
            binding_kind: "factory"
        }))
    ));
    assert!(matches!(
        handle_u8(
            AsyncProvidable::Function(Arc::new(7), ProvidableFunctionKind::Instant),
            true
        ),
        AsyncResolution::Done(Err(AsyncDIContainerError::CastFailed {
            interface: "u8 value function",
            binding_kind: "default factory"
        }))
    ));
    assert!(matches!(
        handle_u8(
            AsyncProvidable::Function(Arc::new(9), ProvidableFunctionKind::AsyncInstant),
            true
        ),
        AsyncResolution::Done(Err(AsyncDIContainerError::InterfaceNotAsync("u8 async value function")))
    ));
}

#[test]
fn async_transient_cast_failure_is_always_cast_failed()
{
    let res = AsyncDIContainer::<dyn IAsyncProvider>::handle_binding_providable::<u8, u8, u8, u8, _, _, _, _>(
        "u8",
        "u8 value function",
        "u8 async value function",
        AsyncProvidable::Transient(Box::new(3u8)),
        |_transient: Box<u8>| -> Result<Box<u8>, CastError> {
            Err(CastError::NotArcCastable("u8"))
        },
        |singleton: Arc<u8>| -> Result<Arc<u8>, CastError> { Ok(singleton) },
        |function: Arc<u8>| -> Result<Box<u8>, CastError> { Ok(Box::new(*function)) },
        |function: Arc<u8>| -> Result<Arc<u8>, CastError> { Ok(function) },
    );

    assert!(matches!(
        res,
        AsyncResolution::Done(Err(AsyncDIContainerError::CastFailed {
            interface: "u8",
            binding_kind: "transient"
        }))
    ));
}
