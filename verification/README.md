# syrette

A dependency injection and inversion of control library, with its core verified by
Verus.

## Layout

- `src/` is the verified library:
  - `di_container/binding_storage.rs`: the storage of bindings, at most one provider
    per interface and binding name, kept in an `ahash::AHashMap` index over a vector of
    slots; its view is a map from (interface, name) to provider, and the laws of
    reading back what was set, overwriting, and removing are proved there.
  - `di_container/blocking/`: the blocking container, its binding builder and scope
    and name configurators, and the resolution of a binding: asking the bound provider
    and casting what it gave to the interface asked for.
  - `di_container/asynchronous/`: the bookkeeping and the decisions of the asynchronous
    container: which provider to ask, what a failure to resolve or to cast becomes, and
    what is done with each kind of providable.
  - `provider/`: the providers of transient values, singletons and functions, and the
    traits by which a container's provider type boxes each kind of provider; the
    builders pick the kind of provider each binding gets.
  - `ptr_buffer.rs`: a type-erased smart pointer that can be cast back to the pointer
    it was made of.
  - `libs/intertrait/`: casting a `Box`, `Rc` or `Arc` between trait objects with a
    caster found for the concrete type, and the hasher for type identities.
  - `dependency_trace.rs`: the rendering of a chain of dependencies.
- `tests/` runs the library on concrete values.
- `app/` holds what stands around the verified core: the containers' front ends keyed
  by Rust types, the provider traits they store and the boxing of providers as them, the link-time registry of casters, the providers that await, and error
  types that implement `std::error::Error`.
