//! Identities and names of Rust types.
use std::any::TypeId;

use vstd::prelude::*;

verus! {

/// `std::any::TypeId` is opaque to the verifier: its values are only compared.
#[verifier::external_type_specification]
#[verifier::external_body]
pub struct ExTypeId(TypeId);

/// Calls `std::any::TypeId::of`. Nothing is stated of the result: the verifier cannot
/// name the type argument, so two calls with the same type are not known to agree.
#[verifier::external_body]
pub(crate) fn type_id_of<T: ?Sized + 'static>() -> TypeId {
    TypeId::of::<T>()
}

/// Calls `<TypeId as PartialEq>::eq`; std documents that two `TypeId`s are equal exactly
/// when they identify the same type, which is stated as equality of the values.
#[verifier::external_body]
pub(crate) fn type_id_eq(a: &TypeId, b: &TypeId) -> (res: bool)
    ensures
        res == (*a == *b),
{
    *a == *b
}

} // verus!
