//! Libraries that the container builds on.
pub mod intertrait;
