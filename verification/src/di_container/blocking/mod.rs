//! Blocking dependency injection container.
use vstd::prelude::*;

use crate::di_container::binding_storage::{BindingKeyView, DIContainerBindingStorage};
use crate::di_container::blocking::binding::builder::BindingBuilder;
use crate::di_container::{BindingOptions, InterfaceId};
use crate::errors::di_container::DIContainerError;
use crate::errors::injectable::InjectableError;
use crate::interfaces::factory::IFactory;
use crate::provider::blocking::{Providable, ProvidableFunctionKind};
use crate::ptr::{rc_from_box, SingletonPtr, SomePtr, TransientPtr};
use crate::ptr_buffer::{Kind, PtrBuffer};
use std::rc::Rc;

pub mod binding;

verus! {

/// The view of an optional owned name.
pub open spec fn name_view(name: Option<String>) -> Option<Seq<char>> {
    match name {
        Some(name) => Some(name@),
        None => None,
    }
}

/// The name of the variant of `SomePtr` that a providable of each kind resolves to.
pub open spec fn resolved_variant_name(providable: Providable) -> &'static str {
    match providable {
        Providable::Transient(_) => "Transient",
        Providable::Singleton(_) => "Singleton",
        Providable::Function(_, ProvidableFunctionKind::UserCalled) => "Factory",
        Providable::Function(_, ProvidableFunctionKind::Instant) => "Transient",
    }
}

/// The kind of pointer that a providable of each kind must hold to be cast.
pub open spec fn required_pointer_kind(providable: Providable) -> Kind {
    match providable {
        Providable::Singleton(_) => Kind::Rc,
        _ => Kind::Box,
    }
}

/// The kind of the pointer that a providable holds.
pub open spec fn providable_pointer_kind(providable: Providable) -> Kind {
    match providable {
        Providable::Transient(buffer) => buffer.spec_kind(),
        Providable::Singleton(buffer) => buffer.spec_kind(),
        Providable::Function(buffer, _) => buffer.spec_kind(),
    }
}

/// What holds of the outcome `res` of resolving `interface` with the binding named `name`
/// (or the unnamed one) in a container with the bindings `bindings`, whatever the
/// providers and the casts give: without such a binding the outcome is
/// `BindingNotFound` for it; with one it never is, and every other error names
/// `interface`.
pub open spec fn spec_get_bound_outcome<Provider: ?Sized, Interface: ?Sized + 'static>(
    bindings: Map<BindingKeyView, Box<Provider>>,
    interface: InterfaceId,
    name: Option<Seq<char>>,
    res: Result<SomePtr<Interface>, DIContainerError>,
) -> bool {
    &&& !bindings.contains_key((interface.type_id, name)) ==> (res matches Err(
        DIContainerError::BindingNotFound { interface: not_found, name: not_found_name },
    ) && not_found == interface.name && name_view(not_found_name) == name)
    &&& bindings.contains_key((interface.type_id, name)) ==> !(res matches Err(
        DIContainerError::BindingNotFound { .. },
    ))
    &&& res matches Err(DIContainerError::BindingResolveFailed { interface: failed, .. }) ==> failed
        == interface.name
    &&& res matches Err(DIContainerError::CastFailed { interface: failed, .. }) ==> failed
        == interface.name
}

/// What resolving a binding for `interface` gives, `res`, when its provider gave
/// `provided`: a failure of the provider becomes `BindingResolveFailed`; a providable
/// becomes a pointer of the variant for its kind, or `CastFailed` for its kind, and
/// always `CastFailed` when the providable holds a pointer of the wrong kind.
pub open spec fn spec_provided_outcome<Interface: ?Sized + 'static>(
    interface: InterfaceId,
    provided: Result<Providable, InjectableError>,
    res: Result<SomePtr<Interface>, DIContainerError>,
) -> bool {
    match provided {
        Err(reason) => res == Err::<SomePtr<Interface>, DIContainerError>(
            DIContainerError::BindingResolveFailed { reason, interface: interface.name },
        ),
        Ok(providable) => {
            &&& res matches Ok(ptr) ==> ptr.spec_variant_name() == resolved_variant_name(
                providable,
            )
            &&& res matches Err(err) ==> err == (DIContainerError::CastFailed {
                interface: interface.name,
                binding_kind: providable.spec_binding_kind(),
            })
            &&& providable_pointer_kind(providable) != required_pointer_kind(providable)
                ==> res is Err
            &&& exists|cast: CastProvidable<Interface>| #[trigger]
                spec_cast_of(providable, cast) && spec_cast_outcome(interface, cast, res)
        },
    }
}

/// What casting the pointer that a binding provided gave: for a transient or a
/// singleton the cast pointer, for a factory or a dynamic value function what the cast
/// function made; `None` where the cast failed.
pub enum CastProvidable<Interface: ?Sized + 'static> {
    /// The cast pointer of a transient binding.
    Transient(Option<TransientPtr<Interface>>),
    /// The cast pointer of a singleton binding.
    Singleton(Option<SingletonPtr<Interface>>),
    /// What the factory of a factory binding made.
    Factory(Option<TransientPtr<Interface>>),
    /// What the function of a dynamic value binding made.
    DynamicValue(Option<TransientPtr<Interface>>),
}

/// `cast` is what casting the pointer of `providable` can give: the variant of its kind
/// of binding, and a failure when the pointer is of the wrong kind.
pub open spec fn spec_cast_of<Interface: ?Sized + 'static>(
    providable: Providable,
    cast: CastProvidable<Interface>,
) -> bool {
    match (providable, cast) {
        (Providable::Transient(buffer), CastProvidable::Transient(cast)) => buffer.spec_kind()
            != Kind::Box ==> cast is None,
        (Providable::Singleton(buffer), CastProvidable::Singleton(cast)) => buffer.spec_kind()
            != Kind::Rc ==> cast is None,
        (
            Providable::Function(buffer, ProvidableFunctionKind::UserCalled),
            CastProvidable::Factory(made),
        ) => buffer.spec_kind() != Kind::Box ==> made is None,
        (
            Providable::Function(buffer, ProvidableFunctionKind::Instant),
            CastProvidable::DynamicValue(made),
        ) => buffer.spec_kind() != Kind::Box ==> made is None,
        _ => false,
    }
}

/// What resolving a binding for `interface` gives, `res`, when casting its pointer gave
/// `cast`.
pub open spec fn spec_cast_outcome<Interface: ?Sized + 'static>(
    interface: InterfaceId,
    cast: CastProvidable<Interface>,
    res: Result<SomePtr<Interface>, DIContainerError>,
) -> bool {
    match cast {
        CastProvidable::Transient(Some(transient)) => res == Ok::<
            SomePtr<Interface>,
            DIContainerError,
        >(SomePtr::Transient(transient)),
        CastProvidable::Singleton(Some(singleton)) => res == Ok::<
            SomePtr<Interface>,
            DIContainerError,
        >(SomePtr::Singleton(singleton)),
        CastProvidable::Factory(Some(made)) => res matches Ok(SomePtr::Factory(factory)) && &*factory
            == &*made,
        CastProvidable::DynamicValue(Some(value)) => res == Ok::<
            SomePtr<Interface>,
            DIContainerError,
        >(SomePtr::Transient(value)),
        CastProvidable::Transient(None) => res == Err::<SomePtr<Interface>, DIContainerError>(
            DIContainerError::CastFailed { interface: interface.name, binding_kind: "transient" },
        ),
        CastProvidable::Singleton(None) => res == Err::<SomePtr<Interface>, DIContainerError>(
            DIContainerError::CastFailed { interface: interface.name, binding_kind: "singleton" },
        ),
        CastProvidable::Factory(None) => res == Err::<SomePtr<Interface>, DIContainerError>(
            DIContainerError::CastFailed { interface: interface.name, binding_kind: "factory" },
        ),
        CastProvidable::DynamicValue(None) => res == Err::<SomePtr<Interface>, DIContainerError>(
            DIContainerError::CastFailed {
                interface: interface.name,
                binding_kind: "dynamic value function",
            },
        ),
    }
}

/// `fails` tells whether casting `buffer` to a `Box<Dest>` gave nothing, for some
/// outcome of that cast.
pub open spec fn spec_boxed_cast_fails<Dest: ?Sized + 'static>(buffer: PtrBuffer, fails: bool) -> bool {
    exists|cast: Option<Box<Dest>>| #[trigger]
        call_ensures(PtrBuffer::cast_into_boxed::<Dest>, (buffer,), cast) && (cast is None)
            == fails
}

/// `cast` is what casting the pointer of `providable` to `Interface` gave: the boxed
/// or reference-counted pointer that the cast of a transient or a singleton returned,
/// and for a function what its cast to a factory of `Interface` for `DIContainerT` made,
/// nothing exactly when that cast gave nothing.
pub open spec fn spec_cast_by<Interface: ?Sized + 'static, DIContainerT: 'static>(
    providable: Providable,
    cast: CastProvidable<Interface>,
) -> bool {
    match (providable, cast) {
        (Providable::Transient(buffer), CastProvidable::Transient(cast)) => call_ensures(
            PtrBuffer::cast_into_boxed::<Interface>,
            (buffer,),
            cast,
        ),
        (Providable::Singleton(buffer), CastProvidable::Singleton(cast)) => call_ensures(
            PtrBuffer::cast_into_rc::<Interface>,
            (buffer,),
            cast,
        ),
        (
            Providable::Function(buffer, ProvidableFunctionKind::UserCalled),
            CastProvidable::Factory(made),
        ) => spec_boxed_cast_fails::<dyn IFactory<Interface, DIContainerT>>(buffer, made is None),
        (
            Providable::Function(buffer, ProvidableFunctionKind::Instant),
            CastProvidable::DynamicValue(made),
        ) => spec_boxed_cast_fails::<dyn IFactory<Interface, DIContainerT>>(buffer, made is None),
        _ => false,
    }
}

/// What resolving a binding for `interface` gives, `res`, when its provider gave
/// `provided`, in terms of the cast that was made: a failure of the provider becomes
/// `BindingResolveFailed`, and a providable becomes what casting its pointer to
/// `Interface` gave.
pub open spec fn spec_provided_by_casting<Interface: ?Sized + 'static, DIContainerT: 'static>(
    interface: InterfaceId,
    provided: Result<Providable, InjectableError>,
    res: Result<SomePtr<Interface>, DIContainerError>,
) -> bool {
    match provided {
        Err(reason) => res == Err::<SomePtr<Interface>, DIContainerError>(
            DIContainerError::BindingResolveFailed { reason, interface: interface.name },
        ),
        Ok(providable) => exists|cast: CastProvidable<Interface>| #[trigger]
            spec_cast_by::<Interface, DIContainerT>(providable, cast) && spec_cast_outcome(
                interface,
                cast,
                res,
            ),
    }
}

/// Casts `buffer` to a `Box<Dest>`.
fn cast_boxed<Dest: ?Sized + 'static>(buffer: PtrBuffer) -> (res: Option<Box<Dest>>)
    ensures
        call_ensures(PtrBuffer::cast_into_boxed::<Dest>, (buffer,), res),
        spec_boxed_cast_fails::<Dest>(buffer, res is None),
        buffer.spec_kind() != Kind::Box ==> res is None,
{
    let cast_into_boxed = PtrBuffer::cast_into_boxed::<Dest>;
    cast_into_boxed(buffer)
}

/// Casts `buffer` to an `Rc<Dest>`.
fn cast_rc<Dest: ?Sized + 'static>(buffer: PtrBuffer) -> (res: Option<Rc<Dest>>)
    ensures
        call_ensures(PtrBuffer::cast_into_rc::<Dest>, (buffer,), res),
        buffer.spec_kind() != Kind::Rc ==> res is None,
{
    let cast_into_rc = PtrBuffer::cast_into_rc::<Dest>;
    cast_into_rc(buffer)
}

/// Blocking dependency injection container: at most one binding of a provider of type
/// `Provider` for each interface and binding name.
pub struct DIContainer<Provider: ?Sized + 'static> {
    binding_storage: DIContainerBindingStorage<Provider>,
}

impl<Provider: ?Sized + 'static> View for DIContainer<Provider> {
    type V = Map<BindingKeyView, Box<Provider>>;

    closed spec fn view(&self) -> Map<BindingKeyView, Box<Provider>> {
        self.binding_storage@
    }
}

impl<Provider: ?Sized + 'static> DIContainer<Provider> {
    /// Returns a new `DIContainer` without bindings.
    pub fn new() -> (di_container: Self)
        ensures
            di_container@ == Map::<BindingKeyView, Box<Provider>>::empty(),
            di_container@.dom().finite(),
    {
        Self { binding_storage: DIContainerBindingStorage::new() }
    }

    /// Returns a new [`BindingBuilder`] for the interface `interface`.
    pub fn bind<'di_container, Interface>(&'di_container mut self, interface: InterfaceId) -> (builder:
        BindingBuilder<'di_container, Interface, Provider>) where Interface: 'static + ?Sized
        ensures
            builder.interface == interface,
            *builder.di_container == *old(self),
            *final(builder.di_container) == *final(self),
    {
        BindingBuilder::new(self, interface)
    }

    /// Returns the value bound to `interface`. `di_container` is the container that the
    /// provider and a factory are handed, and `provide` makes a provider give its value.
    ///
    /// # Errors
    /// Will return `Err` if:
    /// - No binding for `interface` exists
    /// - Resolving the binding for `interface` fails
    /// - Casting the binding for `interface` fails
    pub fn get<Interface, DIContainerT: 'static, ProvideFn>(
        &self,
        di_container: &DIContainerT,
        provide: ProvideFn,
        interface: InterfaceId,
    ) -> (res: Result<SomePtr<Interface>, DIContainerError>) where
        Interface: 'static + ?Sized,
        ProvideFn: Fn(&Provider, &DIContainerT, Vec<&'static str>) -> Result<
            Providable,
            InjectableError,
        >,

        requires
            forall|provider: &Provider, c: &DIContainerT, history: Vec<&'static str>| #[trigger]
                provide.requires((provider, c, history)),
        ensures
            spec_get_bound_outcome(self@, interface, None, res),
            self@.contains_key((interface.type_id, None)) ==> exists|
                history: Vec<&'static str>,
                provided: Result<Providable, InjectableError>,
            | #[trigger]
                provide.ensures(
                    (&*self@[(interface.type_id, None)], di_container, history),
                    provided,
                ) && history@ == Seq::<&'static str>::empty() && spec_provided_outcome(
                    interface,
                    provided,
                    res,
                ) && spec_provided_by_casting::<Interface, DIContainerT>(interface, provided, res),
    {
        self.get_bound::<Interface, DIContainerT, ProvideFn>(
            di_container,
            provide,
            interface,
            Vec::new(),
            BindingOptions::new(),
        )
    }

    /// Returns the value bound to `interface` with the name `name`.
    ///
    /// # Errors
    /// Will return `Err` if:
    /// - No binding for `interface` with name `name` exists
    /// - Resolving the binding for `interface` fails
    /// - Casting the binding for `interface` fails
    pub fn get_named<Interface, DIContainerT: 'static, ProvideFn>(
        &self,
        di_container: &DIContainerT,
        provide: ProvideFn,
        interface: InterfaceId,
        name: &'static str,
    ) -> (res: Result<SomePtr<Interface>, DIContainerError>) where
        Interface: 'static + ?Sized,
        ProvideFn: Fn(&Provider, &DIContainerT, Vec<&'static str>) -> Result<
            Providable,
            InjectableError,
        >,

        requires
            forall|provider: &Provider, c: &DIContainerT, history: Vec<&'static str>| #[trigger]
                provide.requires((provider, c, history)),
        ensures
            spec_get_bound_outcome(self@, interface, Some(name@), res),
            self@.contains_key((interface.type_id, Some(name@))) ==> exists|
                history: Vec<&'static str>,
                provided: Result<Providable, InjectableError>,
            | #[trigger]
                provide.ensures(
                    (&*self@[(interface.type_id, Some(name@))], di_container, history),
                    provided,
                ) && history@ == Seq::<&'static str>::empty() && spec_provided_outcome(
                    interface,
                    provided,
                    res,
                ) && spec_provided_by_casting::<Interface, DIContainerT>(interface, provided, res),
    {
        self.get_bound::<Interface, DIContainerT, ProvideFn>(
            di_container,
            provide,
            interface,
            Vec::new(),
            BindingOptions::new().name(name),
        )
    }

    /// Returns the value bound to `interface` with the options `binding_options`.
    /// `dependency_history` is passed to the bound type when it is being resolved.
    ///
    /// # Errors
    /// Will return `Err` if:
    /// - No binding for `interface` exists
    /// - Resolving the binding for `interface` fails
    /// - Casting the binding for `interface` fails
    pub fn get_bound<Interface, DIContainerT: 'static, ProvideFn>(
        &self,
        di_container: &DIContainerT,
        provide: ProvideFn,
        interface: InterfaceId,
        dependency_history: Vec<&'static str>,
        binding_options: BindingOptions,
    ) -> (res: Result<SomePtr<Interface>, DIContainerError>) where
        Interface: 'static + ?Sized,
        ProvideFn: Fn(&Provider, &DIContainerT, Vec<&'static str>) -> Result<
            Providable,
            InjectableError,
        >,

        requires
            forall|provider: &Provider, c: &DIContainerT, history: Vec<&'static str>| #[trigger]
                provide.requires((provider, c, history)),
        ensures
            spec_get_bound_outcome(self@, interface, binding_options@, res),
            self@.contains_key((interface.type_id, binding_options@)) ==> exists|
                provided: Result<Providable, InjectableError>,
            | #[trigger]
                provide.ensures(
                    (&*self@[(interface.type_id, binding_options@)], di_container, dependency_history),
                    provided,
                ) && spec_provided_outcome(interface, provided, res)
                    && spec_provided_by_casting::<Interface, DIContainerT>(interface, provided, res),
    {
        let provider = match self.get_binding_provider(interface, binding_options) {
            Ok(provider) => provider,
            Err(err) => return Err(err),
        };
        let binding_providable = match Self::resolve_providable(
            interface,
            provide(&**provider, di_container, dependency_history),
        ) {
            Ok(providable) => providable,
            Err(err) => return Err(err),
        };
        Self::handle_binding_providable::<Interface, DIContainerT>(
            interface,
            binding_providable,
            di_container,
        )
    }

    /// Returns whether a binding exists for `interface` with `binding_options`.
    pub fn has_binding(&self, interface: InterfaceId, binding_options: BindingOptions) -> (res: bool)
        ensures
            res == self@.contains_key((interface.type_id, binding_options@)),
    {
        self.binding_storage.has(interface.type_id, binding_options)
    }

    /// Binds `provider` to `interface` with `binding_options`, replacing the binding
    /// that was there.
    pub fn set_binding(
        &mut self,
        interface: InterfaceId,
        binding_options: BindingOptions<'static>,
        provider: Box<Provider>,
    )
        ensures
            final(self)@ == old(self)@.insert((interface.type_id, binding_options@), provider),
            final(self)@.dom().finite(),
    {
        self.binding_storage.set(interface.type_id, binding_options, provider);
    }

    /// Removes the binding for `interface` with `binding_options` and returns its
    /// provider.
    pub fn remove_binding(&mut self, interface: InterfaceId, binding_options: BindingOptions<'static>) -> (res:
        Option<Box<Provider>>)
        ensures
            final(self)@ == old(self)@.remove((interface.type_id, binding_options@)),
            final(self)@.dom().finite(),
            res is Some == old(self)@.contains_key((interface.type_id, binding_options@)),
            res matches Some(provider) ==> provider == old(self)@[(
                interface.type_id,
                binding_options@,
            )],
    {
        self.binding_storage.remove(interface.type_id, binding_options)
    }

    /// Returns the provider of the binding for `interface` with `binding_options`.
    ///
    /// # Errors
    /// Will return `Err` if no such binding exists.
    pub fn get_binding_provider<'this>(
        &'this self,
        interface: InterfaceId,
        binding_options: BindingOptions<'this>,
    ) -> (res: Result<&'this Box<Provider>, DIContainerError>)
        ensures
            res matches Ok(provider) ==> self@.contains_key((interface.type_id, binding_options@))
                && *provider == self@[(interface.type_id, binding_options@)],
            !self@.contains_key((interface.type_id, binding_options@)) ==> (res matches Err(
                DIContainerError::BindingNotFound { interface: not_found, name },
            ) && not_found == interface.name && name_view(name) == binding_options@),
            self@.contains_key((interface.type_id, binding_options@)) ==> res is Ok,
    {
        let name = binding_options.name;
        match self.binding_storage.get(interface.type_id, binding_options) {
            Some(provider) => Ok(provider),
            None => {
                let name = match name {
                    Some(name) => Some(name.to_owned()),
                    None => None,
                };
                Err(DIContainerError::BindingNotFound { interface: interface.name, name })
            },
        }
    }

    /// Turns what the provider of the binding for `interface` gave into what resolving
    /// the binding gives: a failure to resolve becomes `BindingResolveFailed`.
    ///
    /// # Errors
    /// Will return `Err` if the provider failed.
    pub fn resolve_providable(
        interface: InterfaceId,
        provided: Result<Providable, InjectableError>,
    ) -> (res: Result<Providable, DIContainerError>)
        ensures
            match provided {
                Ok(providable) => res == Ok::<Providable, DIContainerError>(providable),
                Err(reason) => res == Err::<Providable, DIContainerError>(
                    DIContainerError::BindingResolveFailed { reason, interface: interface.name },
                ),
            },
    {
        match provided {
            Ok(providable) => Ok(providable),
            Err(reason) => Err(
                DIContainerError::BindingResolveFailed { reason, interface: interface.name },
            ),
        }
    }

    /// Turns what a binding for `interface` provided into the value asked for: the
    /// type-erased pointer is cast to `Interface` (a function is cast to a factory for
    /// `di_container` and called, unless the user calls it), and a pointer of the wrong
    /// kind or to another type gives `CastFailed`.
    ///
    /// # Errors
    /// Will return `Err` if the cast fails.
    pub fn handle_binding_providable<Interface, DIContainerT: 'static>(
        interface: InterfaceId,
        binding_providable: Providable,
        di_container: &DIContainerT,
    ) -> (res: Result<SomePtr<Interface>, DIContainerError>) where Interface: 'static + ?Sized
        ensures
            res matches Ok(ptr) ==> ptr.spec_variant_name() == resolved_variant_name(
                binding_providable,
            ),
            res matches Err(err) ==> err == (DIContainerError::CastFailed {
                interface: interface.name,
                binding_kind: binding_providable.spec_binding_kind(),
            }),
            providable_pointer_kind(binding_providable) != required_pointer_kind(
                binding_providable,
            ) ==> res is Err,
            exists|cast: CastProvidable<Interface>| #[trigger]
                spec_cast_of(binding_providable, cast) && spec_cast_outcome(
                    interface,
                    cast,
                    res,
                ),
            spec_provided_by_casting::<Interface, DIContainerT>(
                interface,
                Ok(binding_providable),
                res,
            ),
    {
        let cast = match binding_providable {
            Providable::Transient(buffer) => CastProvidable::Transient(
                cast_boxed::<Interface>(buffer),
            ),
            Providable::Singleton(buffer) => CastProvidable::Singleton(cast_rc::<Interface>(buffer)),
            Providable::Function(buffer, ProvidableFunctionKind::UserCalled) => {
                let made = match cast_boxed::<dyn IFactory<Interface, DIContainerT>>(buffer) {
                    Some(factory) => Some(factory.call(di_container)),
                    None => None,
                };
                CastProvidable::Factory(made)
            },
            Providable::Function(buffer, ProvidableFunctionKind::Instant) => {
                let made = match cast_boxed::<dyn IFactory<Interface, DIContainerT>>(buffer) {
                    Some(dynamic_value_function) => Some(dynamic_value_function.call(di_container)),
                    None => None,
                };
                CastProvidable::DynamicValue(made)
            },
        };
        assert(spec_cast_of(binding_providable, cast));
        assert(spec_cast_by::<Interface, DIContainerT>(binding_providable, cast));
        Self::handle_cast_providable(interface, cast)
    }

    /// Turns what casting the pointer of a binding for `interface` gave, `cast`, into
    /// the value asked for: a cast pointer becomes the pointer of the variant for its
    /// kind of binding (what a factory made is shared as the factory), and a failed
    /// cast gives `CastFailed` for that kind of binding.
    ///
    /// # Errors
    /// Will return `Err` if the cast failed.
    pub fn handle_cast_providable<Interface>(
        interface: InterfaceId,
        cast: CastProvidable<Interface>,
    ) -> (res: Result<SomePtr<Interface>, DIContainerError>) where Interface: 'static + ?Sized
        ensures
            spec_cast_outcome(interface, cast, res),
    {
        match cast {
            CastProvidable::Transient(Some(transient)) => Ok(SomePtr::Transient(transient)),
            CastProvidable::Singleton(Some(singleton)) => Ok(SomePtr::Singleton(singleton)),
            CastProvidable::Factory(Some(factory)) => Ok(SomePtr::Factory(rc_from_box(factory))),
            CastProvidable::DynamicValue(Some(value)) => Ok(SomePtr::Transient(value)),
            CastProvidable::Transient(None) => Err(
                DIContainerError::CastFailed { interface: interface.name, binding_kind: "transient" },
            ),
            CastProvidable::Singleton(None) => Err(
                DIContainerError::CastFailed { interface: interface.name, binding_kind: "singleton" },
            ),
            CastProvidable::Factory(None) => Err(
                DIContainerError::CastFailed { interface: interface.name, binding_kind: "factory" },
            ),
            CastProvidable::DynamicValue(None) => Err(
                DIContainerError::CastFailed {
                    interface: interface.name,
                    binding_kind: "dynamic value function",
                },
            ),
        }
    }
}

/// A new container resolves nothing: asking it for any interface, by any name, gives
/// `BindingNotFound` for that interface and name.
pub proof fn law_new_container_resolves_nothing<Provider: ?Sized + 'static, Interface: ?Sized + 'static>(
    di_container: DIContainer<Provider>,
    interface: InterfaceId,
    name: Option<Seq<char>>,
    res: Result<SomePtr<Interface>, DIContainerError>,
)
    requires
        di_container@ == Map::<BindingKeyView, Box<Provider>>::empty(),
        spec_get_bound_outcome(di_container@, interface, name, res),
    ensures
        res matches Err(DIContainerError::BindingNotFound { interface: not_found, name: not_found_name })
            && not_found == interface.name && name_view(not_found_name) == name,
{
}

/// A bound interface is found: once a binding for `interface` (unnamed, or named
/// `name`) exists, resolving it never gives `BindingNotFound`.
pub proof fn law_bound_interface_is_found<Provider: ?Sized + 'static, Interface: ?Sized + 'static>(
    before: DIContainer<Provider>,
    after: DIContainer<Provider>,
    interface: InterfaceId,
    name: Option<Seq<char>>,
    provider: Box<Provider>,
    res: Result<SomePtr<Interface>, DIContainerError>,
)
    requires
        after@ == before@.insert((interface.type_id, name), provider),
        spec_get_bound_outcome(after@, interface, name, res),
    ensures
        !(res matches Err(DIContainerError::BindingNotFound { .. })),
{
    assert(after@.contains_key((interface.type_id, name)));
}

/// Resolving reads back what binding wrote: once `provider` is bound to `interface` (with
/// the name `name`, or none), resolving that interface hands `provider` to `provide` and
/// turns what it gave into the result, whatever was bound before.
pub proof fn law_resolving_uses_bound_provider<
    Provider: ?Sized + 'static,
    Interface: ?Sized + 'static,
    DIContainerT,
    ProvideFn: Fn(&Provider, &DIContainerT, Vec<&'static str>) -> Result<
        Providable,
        InjectableError,
    >,
>(
    before: DIContainer<Provider>,
    after: DIContainer<Provider>,
    interface: InterfaceId,
    name: Option<Seq<char>>,
    provider: Box<Provider>,
    provide: ProvideFn,
    di_container: &DIContainerT,
    dependency_history: Vec<&'static str>,
    res: Result<SomePtr<Interface>, DIContainerError>,
)
    requires
        after@ == before@.insert((interface.type_id, name), provider),
        spec_get_bound_outcome(after@, interface, name, res),
        after@.contains_key((interface.type_id, name)) ==> exists|
            provided: Result<Providable, InjectableError>,
        | #[trigger]
            provide.ensures(
                (&*after@[(interface.type_id, name)], di_container, dependency_history),
                provided,
            ) && spec_provided_outcome(interface, provided, res),
    ensures
        exists|provided: Result<Providable, InjectableError>| #[trigger]
            provide.ensures((&*provider, di_container, dependency_history), provided)
                && spec_provided_outcome(interface, provided, res),
        !(res matches Err(DIContainerError::BindingNotFound { .. })),
{
    assert(after@.contains_key((interface.type_id, name)));
    assert(after@[(interface.type_id, name)] == provider);
}

/// Naming a binding moves it: after `to` binds an unbound interface and `when_named`
/// names that binding `name`, resolving the interface without a name gives
/// `BindingNotFound`, and resolving it by `name` finds the binding, whose provider is the
/// one that `to` was given.
pub proof fn law_named_binding_is_found_only_by_name<
    Provider: ?Sized + 'static,
    Interface: ?Sized + 'static,
>(
    before: DIContainer<Provider>,
    bound: DIContainer<Provider>,
    named: DIContainer<Provider>,
    interface: InterfaceId,
    name: Seq<char>,
    provider: Box<Provider>,
    res_unnamed: Result<SomePtr<Interface>, DIContainerError>,
    res_named: Result<SomePtr<Interface>, DIContainerError>,
)
    requires
        !before@.contains_key((interface.type_id, None)),
        bound@ == before@.insert((interface.type_id, None), provider),
        named@ == bound@.remove((interface.type_id, None)).insert(
            (interface.type_id, Some(name)),
            bound@[(interface.type_id, None)],
        ),
        spec_get_bound_outcome(named@, interface, None, res_unnamed),
        spec_get_bound_outcome(named@, interface, Some(name), res_named),
    ensures
        res_unnamed matches Err(DIContainerError::BindingNotFound { interface: not_found, name: not_found_name })
            && not_found == interface.name && name_view(not_found_name) is None,
        !(res_named matches Err(DIContainerError::BindingNotFound { .. })),
        named@[(interface.type_id, Some(name))] == provider,
{
    assert(!named@.contains_key((interface.type_id, None)));
    assert(named@.contains_key((interface.type_id, Some(name))));
}

/// Resolving a singleton gives what casting it gives, whatever the dependency history:
/// when the provider bound to `interface` with `binding_options` gives the singleton
/// pointer `buffer` for the history `dependency_history`, `get_bound` gives the
/// reference-counted pointer that casting `buffer` to `Interface` returned, as a
/// singleton, and `CastFailed` for a singleton only when that cast returned nothing.
pub proof fn law_singleton_resolves_to_its_cast<
    Provider: ?Sized + 'static,
    Interface: ?Sized + 'static,
    DIContainerT: 'static,
    ProvideFn: Fn(&Provider, &DIContainerT, Vec<&'static str>) -> Result<
        Providable,
        InjectableError,
    >,
>(
    di_container: &DIContainer<Provider>,
    container: &DIContainerT,
    provide: ProvideFn,
    interface: InterfaceId,
    dependency_history: Vec<&'static str>,
    binding_options: BindingOptions,
    buffer: PtrBuffer,
    res: Result<SomePtr<Interface>, DIContainerError>,
)
    requires
        call_ensures(
            DIContainer::<Provider>::get_bound::<Interface, DIContainerT, ProvideFn>,
            (di_container, container, provide, interface, dependency_history, binding_options),
            res,
        ),
        di_container@.contains_key((interface.type_id, binding_options@)),
        forall|provided: Result<Providable, InjectableError>| #[trigger]
            provide.ensures(
                (
                    &*di_container@[(interface.type_id, binding_options@)],
                    container,
                    dependency_history,
                ),
                provided,
            ) ==> provided == Ok::<Providable, InjectableError>(Providable::Singleton(buffer)),
    ensures
        exists|cast: Option<Rc<Interface>>| #[trigger]
            call_ensures(PtrBuffer::cast_into_rc::<Interface>, (buffer,), cast) && match cast {
                Some(singleton) => res == Ok::<SomePtr<Interface>, DIContainerError>(
                    SomePtr::Singleton(singleton),
                ),
                None => res == Err::<SomePtr<Interface>, DIContainerError>(
                    DIContainerError::CastFailed { interface: interface.name, binding_kind: "singleton" },
                ),
            },
{
    let provided = choose|provided: Result<Providable, InjectableError>| #[trigger]
        provide.ensures(
            (&*di_container@[(interface.type_id, binding_options@)], container, dependency_history),
            provided,
        ) && spec_provided_by_casting::<Interface, DIContainerT>(interface, provided, res);
    assert(provided == Ok::<Providable, InjectableError>(Providable::Singleton(buffer)));
    let cast = choose|cast: CastProvidable<Interface>| #[trigger]
        spec_cast_by::<Interface, DIContainerT>(Providable::Singleton(buffer), cast)
            && spec_cast_outcome(interface, cast, res);
    if let CastProvidable::Singleton(singleton) = cast {
        assert(call_ensures(PtrBuffer::cast_into_rc::<Interface>, (buffer,), singleton));
    }
}

/// Resolving a transient gives what casting it gives, whatever the dependency history:
/// when the provider bound to `interface` with `binding_options` gives the new instance
/// `buffer` for the history `dependency_history`, `get_bound` gives the boxed
/// pointer that casting `buffer` to `Interface` returned, as a transient, and
/// `CastFailed` for a transient only when that cast returned nothing.
pub proof fn law_transient_resolves_to_its_cast<
    Provider: ?Sized + 'static,
    Interface: ?Sized + 'static,
    DIContainerT: 'static,
    ProvideFn: Fn(&Provider, &DIContainerT, Vec<&'static str>) -> Result<
        Providable,
        InjectableError,
    >,
>(
    di_container: &DIContainer<Provider>,
    container: &DIContainerT,
    provide: ProvideFn,
    interface: InterfaceId,
    dependency_history: Vec<&'static str>,
    binding_options: BindingOptions,
    buffer: PtrBuffer,
    res: Result<SomePtr<Interface>, DIContainerError>,
)
    requires
        call_ensures(
            DIContainer::<Provider>::get_bound::<Interface, DIContainerT, ProvideFn>,
            (di_container, container, provide, interface, dependency_history, binding_options),
            res,
        ),
        di_container@.contains_key((interface.type_id, binding_options@)),
        forall|provided: Result<Providable, InjectableError>| #[trigger]
            provide.ensures(
                (
                    &*di_container@[(interface.type_id, binding_options@)],
                    container,
                    dependency_history,
                ),
                provided,
            ) ==> provided == Ok::<Providable, InjectableError>(Providable::Transient(buffer)),
    ensures
        exists|cast: Option<Box<Interface>>| #[trigger]
            call_ensures(PtrBuffer::cast_into_boxed::<Interface>, (buffer,), cast) && match cast {
                Some(transient) => res == Ok::<SomePtr<Interface>, DIContainerError>(
                    SomePtr::Transient(transient),
                ),
                None => res == Err::<SomePtr<Interface>, DIContainerError>(
                    DIContainerError::CastFailed { interface: interface.name, binding_kind: "transient" },
                ),
            },
{
    let provided = choose|provided: Result<Providable, InjectableError>| #[trigger]
        provide.ensures(
            (&*di_container@[(interface.type_id, binding_options@)], container, dependency_history),
            provided,
        ) && spec_provided_by_casting::<Interface, DIContainerT>(interface, provided, res);
    assert(provided == Ok::<Providable, InjectableError>(Providable::Transient(buffer)));
    let cast = choose|cast: CastProvidable<Interface>| #[trigger]
        spec_cast_by::<Interface, DIContainerT>(Providable::Transient(buffer), cast)
            && spec_cast_outcome(interface, cast, res);
    if let CastProvidable::Transient(transient) = cast {
        assert(call_ensures(PtrBuffer::cast_into_boxed::<Interface>, (buffer,), transient));
    }
}

impl<Provider: ?Sized + 'static> Default for DIContainer<Provider> {
    fn default() -> (di_container: Self)
        ensures
            di_container@ == Map::<BindingKeyView, Box<Provider>>::empty(),
    {
        Self::new()
    }
}

} // verus!
