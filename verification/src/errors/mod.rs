//! Error types for the components of the library.
pub mod async_di_container;
pub mod di_container;
pub mod injectable;
pub mod ptr;
