//! Various useful interfaces.
pub mod any_factory;
pub mod factory;
pub mod injectable;
