//! Factories that can be stored in a DI container.
pub mod blocking;
pub mod threadsafe;
