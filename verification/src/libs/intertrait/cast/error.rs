//! The error of a cast between trait objects.
use vstd::prelude::*;

use crate::libs::intertrait::{CasterError, GetCasterError};

verus! {

/// Error of a cast between trait objects.
#[derive(Debug, Clone, Copy, PartialEq, Eq)]
pub enum CastError {
    /// No usable caster was found.
    GetCasterFailed(GetCasterError),
    /// The caster failed.
    CastFailed {
        /// The error of the caster.
        source: CasterError,
        /// The name of the type cast from.
        from: &'static str,
        /// The name of the type cast to.
        to: &'static str,
    },
    /// The type cannot be cast to an `Arc`.
    NotArcCastable(&'static str),
}

} // verus!
