//! Providers: what a binding of a DI container holds.
pub mod blocking;
pub mod threadsafe;
