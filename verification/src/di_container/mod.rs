//! Dependency injection container types.
use std::any::TypeId;

use vstd::prelude::*;

pub mod binding_storage;
pub mod asynchronous;
pub mod blocking;

verus! {

/// DI container binding options.
#[derive(Debug, Clone, Copy)]
pub struct BindingOptions<'a> {
    /// The name of the binding, if it has one.
    pub name: Option<&'a str>,
}

impl<'a> View for BindingOptions<'a> {
    type V = Option<Seq<char>>;

    open spec fn view(&self) -> Option<Seq<char>> {
        match self.name {
            Some(name) => Some(name@),
            None => None,
        }
    }
}

impl<'a> BindingOptions<'a> {
    /// Returns a new `BindingOptions`.
    pub fn new() -> (options: Self)
        ensures
            options.name is None,
    {
        Self { name: None }
    }

    /// Returns `Self` with the specified name set.
    pub fn name(self, name: &'a str) -> (options: Self)
        ensures
            options.name == Some(name),
    {
        let mut this = self;
        this.name = Some(name);
        this
    }
}

impl<'a> Default for BindingOptions<'a> {
    fn default() -> (options: Self)
        ensures
            options.name is None,
    {
        Self::new()
    }
}

/// The identity and the name of an interface type: what the container reads of the
/// type it is asked to bind or to resolve.
#[derive(Debug, Clone, Copy)]
pub struct InterfaceId {
    /// The identity of the type.
    pub type_id: TypeId,
    /// The name of the type, as error messages show it.
    pub name: &'static str,
}

impl InterfaceId {
    /// Returns the identity of the interface with the type identity `type_id` and the
    /// name `name`.
    pub fn new(type_id: TypeId, name: &'static str) -> (id: Self)
        ensures
            id.type_id == type_id,
            id.name == name,
    {
        Self { type_id, name }
    }
}

} // verus!
