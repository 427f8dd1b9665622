//! Types for building & configurating asynchronous DI container bindings.
pub mod builder;
pub mod scope_configurator;
pub mod when_configurator;
