//! Casting smart pointers between trait objects with the registered casters.
use vstd::prelude::*;

use crate::libs::intertrait::cast::error::CastError;
use crate::libs::intertrait::{Caster, CasterError, GetCasterError};

pub mod error;

verus! {

/// Casts the `Box` `from` (of the type named `from_name`) with the caster that was
/// looked up, `caster`, to a `Box` of the type named `to_name`.
///
/// # Errors
/// Will return `Err` if no caster was found or the caster fails.
pub fn cast_box<From, To, CastBoxFn, CastRcFn, CastArcFn>(
    caster: Result<&Caster<CastBoxFn, CastRcFn, CastArcFn>, GetCasterError>,
    from: From,
    from_name: &'static str,
    to_name: &'static str,
) -> (res: Result<To, CastError>) where CastBoxFn: Fn(From) -> Result<To, CasterError>
    requires
        caster matches Ok(caster) ==> caster.cast_box.requires((from,)),
    ensures
        caster matches Err(err) ==> res == Err::<To, CastError>(CastError::GetCasterFailed(err)),
        caster matches Ok(caster) ==> exists|cast: Result<To, CasterError>| #[trigger]
            caster.cast_box.ensures((from,), cast) && match cast {
                Ok(to) => res == Ok::<To, CastError>(to),
                Err(source) => res == Err::<To, CastError>(
                    CastError::CastFailed { source, from: from_name, to: to_name },
                ),
            },
{
    let caster = match caster {
        Ok(caster) => caster,
        Err(err) => return Err(CastError::GetCasterFailed(err)),
    };
    match (caster.cast_box)(from) {
        Ok(to) => Ok(to),
        Err(source) => Err(CastError::CastFailed { source, from: from_name, to: to_name }),
    }
}

/// Casts the `Rc` `from` (of the type named `from_name`) with the caster that was
/// looked up, `caster`, to an `Rc` of the type named `to_name`.
///
/// # Errors
/// Will return `Err` if no caster was found or the caster fails.
pub fn cast_rc<From, To, CastBoxFn, CastRcFn, CastArcFn>(
    caster: Result<&Caster<CastBoxFn, CastRcFn, CastArcFn>, GetCasterError>,
    from: From,
    from_name: &'static str,
    to_name: &'static str,
) -> (res: Result<To, CastError>) where CastRcFn: Fn(From) -> Result<To, CasterError>
    requires
        caster matches Ok(caster) ==> caster.cast_rc.requires((from,)),
    ensures
        caster matches Err(err) ==> res == Err::<To, CastError>(CastError::GetCasterFailed(err)),
        caster matches Ok(caster) ==> exists|cast: Result<To, CasterError>| #[trigger]
            caster.cast_rc.ensures((from,), cast) && match cast {
                Ok(to) => res == Ok::<To, CastError>(to),
                Err(source) => res == Err::<To, CastError>(
                    CastError::CastFailed { source, from: from_name, to: to_name },
                ),
            },
{
    let caster = match caster {
        Ok(caster) => caster,
        Err(err) => return Err(CastError::GetCasterFailed(err)),
    };
    match (caster.cast_rc)(from) {
        Ok(to) => Ok(to),
        Err(source) => Err(CastError::CastFailed { source, from: from_name, to: to_name }),
    }
}

/// Casts the `Arc` `from` (of the type named `from_name`) with the caster that was
/// looked up, `caster`, to an `Arc` of the type named `to_name`.
///
/// # Errors
/// Will return `Err` if no caster was found, the caster cannot cast an `Arc`, or the
/// caster fails.
pub fn cast_arc<From, To, CastBoxFn, CastRcFn, CastArcFn>(
    caster: Result<&Caster<CastBoxFn, CastRcFn, CastArcFn>, GetCasterError>,
    from: From,
    from_name: &'static str,
    to_name: &'static str,
) -> (res: Result<To, CastError>) where CastArcFn: Fn(From) -> Result<To, CasterError>
    requires
        caster matches Ok(caster) ==> (caster.opt_cast_arc matches Some(cast_arc)
            ==> cast_arc.requires((from,))),
    ensures
        caster matches Err(err) ==> res == Err::<To, CastError>(CastError::GetCasterFailed(err)),
        caster matches Ok(caster) ==> (caster.opt_cast_arc is None ==> res == Err::<
            To,
            CastError,
        >(CastError::NotArcCastable(to_name))),
        caster matches Ok(caster) ==> (caster.opt_cast_arc matches Some(cast_arc) ==> exists|
            cast: Result<To, CasterError>,
        | #[trigger]
            cast_arc.ensures((from,), cast) && match cast {
                Ok(to) => res == Ok::<To, CastError>(to),
                Err(source) => res == Err::<To, CastError>(
                    CastError::CastFailed { source, from: from_name, to: to_name },
                ),
            }),
{
    let caster = match caster {
        Ok(caster) => caster,
        Err(err) => return Err(CastError::GetCasterFailed(err)),
    };
    let cast_arc = match &caster.opt_cast_arc {
        Some(cast_arc) => cast_arc,
        None => return Err(CastError::NotArcCastable(to_name)),
    };
    match cast_arc(from) {
        Ok(to) => Ok(to),
        Err(source) => Err(CastError::CastFailed { source, from: from_name, to: to_name }),
    }
}

} // verus!
