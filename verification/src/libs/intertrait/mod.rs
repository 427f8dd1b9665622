//! Support for casting between trait objects: casters, found by the concrete type of a
//! value and the type to cast to, and the errors of finding and using them.
use vstd::prelude::*;

pub mod cast;
pub mod hasher;

verus! {

/// A `Caster` knows how to cast a type or trait to one specific type or trait `Trait`, for
/// one specific concrete type: `cast_box` casts a `Box`, `cast_rc` an `Rc`, and
/// `opt_cast_arc`, where the concrete type is shareable between threads, an `Arc`.
pub struct Caster<CastBoxFn, CastRcFn, CastArcFn> {
    /// Casts a `Box` holding the concrete type.
    pub cast_box: CastBoxFn,
    /// Casts an `Rc` holding the concrete type.
    pub cast_rc: CastRcFn,
    /// Casts an `Arc` holding the concrete type, if it can be shared between threads.
    pub opt_cast_arc: Option<CastArcFn>,
}

impl<CastBoxFn, CastRcFn, CastArcFn> Caster<CastBoxFn, CastRcFn, CastArcFn> {
    /// Returns a caster that cannot cast an `Arc`.
    pub fn new(cast_box: CastBoxFn, cast_rc: CastRcFn) -> (caster: Self)
        ensures
            caster.cast_box == cast_box,
            caster.cast_rc == cast_rc,
            caster.opt_cast_arc is None,
    {
        Self { cast_box, cast_rc, opt_cast_arc: None }
    }

    /// Returns a caster that can also cast an `Arc`.
    pub fn new_sync(cast_box: CastBoxFn, cast_rc: CastRcFn, cast_arc: CastArcFn) -> (caster: Self)
        ensures
            caster.cast_box == cast_box,
            caster.cast_rc == cast_rc,
            caster.opt_cast_arc == Some(cast_arc),
    {
        Self { cast_box, cast_rc, opt_cast_arc: Some(cast_arc) }
    }
}

/// Error of a caster.
#[derive(Debug, Clone, Copy, PartialEq, Eq)]
pub enum CasterError {
    /// Failed to cast a `Box`.
    CastBoxFailed,
    /// Failed to cast an `Rc`.
    CastRcFailed,
    /// Failed to cast an `Arc`.
    CastArcFailed,
}

/// Error of finding a caster.
#[derive(Debug, Clone, Copy, PartialEq, Eq)]
pub enum GetCasterError {
    /// No caster was registered for the pair of types.
    NotFound,
    /// The registered caster had another type.
    DowncastFailed,
}

} // verus!
