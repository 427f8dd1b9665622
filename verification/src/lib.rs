//! Dependency injection & inversion of control utilities.
pub mod di_container;
pub mod errors;
pub mod ptr;
pub mod typeinfo;
pub mod libs;
pub mod dependency_trace;
pub mod ptr_buffer;
pub mod castable_factory;
pub mod interfaces;
pub mod provider;
