//! A type-erased smart pointer that can be turned back into the pointer it was made of.
use std::any::{Any, TypeId};
use std::rc::Rc;
use std::sync::Arc;

use vstd::prelude::*;
use vstd::std_specs::convert::FromSpecImpl;

use crate::typeinfo::{type_id_eq, type_id_of};

verus! {

/// The kinds of smart pointer that a [`PtrBuffer`] can hold.
#[derive(Debug, Clone, Copy, PartialEq, Eq)]
pub enum Kind {
    /// `Box`.
    Box,
    /// `Rc`.
    Rc,
    /// `Arc`.
    Arc,
}

/// Smart pointers supported as input to [`PtrBuffer`].
#[derive(Debug)]
pub enum SmartPtr<Value: ?Sized + 'static> {
    /// Box.
    Box(Box<Value>),
    /// Rc.
    Rc(Rc<Value>),
    /// Arc.
    Arc(Arc<Value>),
}

impl<Value: ?Sized + 'static> SmartPtr<Value> {
    /// The kind of the smart pointer.
    pub open spec fn spec_kind(&self) -> Kind {
        match self {
            SmartPtr::Box(_) => Kind::Box,
            SmartPtr::Rc(_) => Kind::Rc,
            SmartPtr::Arc(_) => Kind::Arc,
        }
    }

    /// Returns the kind of the smart pointer.
    pub fn kind(&self) -> (kind: Kind)
        ensures
            kind == self.spec_kind(),
    {
        match self {
            SmartPtr::Box(_) => Kind::Box,
            SmartPtr::Rc(_) => Kind::Rc,
            SmartPtr::Arc(_) => Kind::Arc,
        }
    }
}

impl<Value: ?Sized + 'static> From<Box<Value>> for SmartPtr<Value> {
    fn from(value: Box<Value>) -> Self {
        SmartPtr::Box(value)
    }
}

impl<Value: ?Sized + 'static> FromSpecImpl<Box<Value>> for SmartPtr<Value> {
    open spec fn obeys_from_spec() -> bool {
        true
    }

    open spec fn from_spec(v: Box<Value>) -> Self {
        SmartPtr::Box(v)
    }
}

impl<Value: ?Sized + 'static> From<Rc<Value>> for SmartPtr<Value> {
    fn from(value: Rc<Value>) -> Self {
        SmartPtr::Rc(value)
    }
}

impl<Value: ?Sized + 'static> FromSpecImpl<Rc<Value>> for SmartPtr<Value> {
    open spec fn obeys_from_spec() -> bool {
        true
    }

    open spec fn from_spec(v: Rc<Value>) -> Self {
        SmartPtr::Rc(v)
    }
}

impl<Value: ?Sized + 'static> From<Arc<Value>> for SmartPtr<Value> {
    fn from(value: Arc<Value>) -> Self {
        SmartPtr::Arc(value)
    }
}

impl<Value: ?Sized + 'static> FromSpecImpl<Arc<Value>> for SmartPtr<Value> {
    open spec fn obeys_from_spec() -> bool {
        true
    }

    open spec fn from_spec(v: Arc<Value>) -> Self {
        SmartPtr::Arc(v)
    }
}

/// A smart pointer whose pointee type has been erased. It holds a `Box<dyn Any>` of the
/// `SmartPtr` it was made of; the verifier does not support `dyn Any`, so the struct is
/// opaque to it.
#[verifier::external_body]
struct ErasedSmartPtr {
    inner: Box<dyn Any>,
}

/// Boxes `ptr` as a `Box<dyn Any>` (an unsizing coercion). Nothing is stated: the erased
/// value has no view.
#[verifier::external_body]
fn erase<Value: ?Sized + 'static>(ptr: SmartPtr<Value>) -> ErasedSmartPtr {
    ErasedSmartPtr { inner: Box::new(ptr) }
}

/// Calls `Box::<dyn Any>::downcast` for `SmartPtr<Value>`. The result is `Some` exactly
/// when the erased value is a `SmartPtr<Value>`; the verifier cannot name that type, so
/// nothing is stated of the result.
#[verifier::external_body]
fn unerase<Value: ?Sized + 'static>(erased: ErasedSmartPtr) -> Option<SmartPtr<Value>> {
    match erased.inner.downcast::<SmartPtr<Value>>() {
        Ok(ptr) => Some(*ptr),
        Err(_) => None,
    }
}

/// `buffer` is what erasing some smart pointer to a `Value` gave.
pub open spec fn spec_erased_from<Value: ?Sized + 'static>(buffer: PtrBuffer) -> bool {
    exists|value: SmartPtr<Value>| #[trigger]
        call_ensures(PtrBuffer::from_smart_ptr::<Value>, (value,), buffer)
}

/// A type-erased smart pointer: the pointer, the identity of the pointed-to type and
/// the kind of the pointer.
pub struct PtrBuffer {
    erased: ErasedSmartPtr,
    type_id: TypeId,
    kind: Kind,
}

impl PtrBuffer {
    /// The kind of the smart pointer held.
    pub closed spec fn spec_kind(&self) -> Kind {
        self.kind
    }

    /// Returns a buffer holding `value`.
    pub fn new_from<Value, ValuePtr>(value: ValuePtr) -> (buffer: Self) where
        Value: ?Sized + 'static,
        ValuePtr: Into<SmartPtr<Value>>,

        ensures
            exists|ptr: SmartPtr<Value>| #[trigger]
                call_ensures(ValuePtr::into, (value,), ptr) && buffer.spec_kind()
                    == ptr.spec_kind(),
    {
        Self::from_smart_ptr(value.into())
    }

    /// Returns a buffer holding the smart pointer `value`.
    pub fn from_smart_ptr<Value: ?Sized + 'static>(value: SmartPtr<Value>) -> (buffer: Self)
        ensures
            buffer.spec_kind() == value.spec_kind(),
    {
        let kind = value.kind();
        let type_id = type_id_of::<Value>();
        Self { erased: erase(value), type_id, kind }
    }

    /// Returns a buffer holding the smart pointer `value`, known to be what erasing a
    /// smart pointer to a `Value` gave.
    pub fn erase_smart_ptr<Value: ?Sized + 'static>(value: SmartPtr<Value>) -> (buffer: Self)
        ensures
            buffer.spec_kind() == value.spec_kind(),
            spec_erased_from::<Value>(buffer),
    {
        let from_smart_ptr = PtrBuffer::from_smart_ptr::<Value>;
        from_smart_ptr(value)
    }

    /// Returns the held pointer as a `Box<Dest>`, or `None` when it is not a `Box` or does
    /// not point to a `Dest`.
    pub fn cast_into_boxed<Dest>(self) -> (res: Option<Box<Dest>>) where Dest: ?Sized + 'static
        ensures
            self.spec_kind() != Kind::Box ==> res is None,
    {
        if !matches!(self.kind, Kind::Box) {
            return None;
        }
        match self.cast_into::<Dest>() {
            Some(SmartPtr::Box(ptr)) => Some(ptr),
            _ => None,
        }
    }

    /// Returns the held pointer as an `Rc<Dest>`, or `None` when it is not an `Rc` or does
    /// not point to a `Dest`.
    pub fn cast_into_rc<Dest>(self) -> (res: Option<Rc<Dest>>) where Dest: ?Sized + 'static
        ensures
            self.spec_kind() != Kind::Rc ==> res is None,
    {
        if !matches!(self.kind, Kind::Rc) {
            return None;
        }
        match self.cast_into::<Dest>() {
            Some(SmartPtr::Rc(ptr)) => Some(ptr),
            _ => None,
        }
    }

    /// Returns the held pointer as an `Arc<Dest>`, or `None` when it is not an `Arc` or
    /// does not point to a `Dest`.
    pub fn cast_into_arc<Dest>(self) -> (res: Option<Arc<Dest>>) where Dest: ?Sized + 'static
        ensures
            self.spec_kind() != Kind::Arc ==> res is None,
    {
        if !matches!(self.kind, Kind::Arc) {
            return None;
        }
        match self.cast_into::<Dest>() {
            Some(SmartPtr::Arc(ptr)) => Some(ptr),
            _ => None,
        }
    }

    /// Returns the held pointer as a pointer to `Dest`, of the kind of pointer that was
    /// held, or `None` when the pointed-to type is not `Dest`.
    pub fn cast_into<Dest>(self) -> (res: Option<SmartPtr<Dest>>) where Dest: ?Sized + 'static
        ensures
            res matches Some(ptr) ==> ptr.spec_kind() == self.spec_kind(),
    {
        let dest_type_id = type_id_of::<Dest>();
        if !type_id_eq(&dest_type_id, &self.type_id) {
            return None;
        }
        Self::cast_unerased(self.kind, unerase::<Dest>(self.erased))
    }

    /// Returns the pointer that the type-erased pointer of a buffer holding a pointer of
    /// the kind `kind` gave back, `unerased`, when it is of that kind, else `None`.
    pub fn cast_unerased<Dest>(kind: Kind, unerased: Option<SmartPtr<Dest>>) -> (res: Option<
        SmartPtr<Dest>,
    >) where Dest: ?Sized + 'static
        ensures
            (unerased matches Some(ptr) && ptr.spec_kind() == kind) ==> res == unerased,
            !(unerased matches Some(ptr) && ptr.spec_kind() == kind) ==> res is None,
    {
        match (kind, unerased) {
            (Kind::Box, Some(SmartPtr::Box(ptr))) => Some(SmartPtr::Box(ptr)),
            (Kind::Rc, Some(SmartPtr::Rc(ptr))) => Some(SmartPtr::Rc(ptr)),
            (Kind::Arc, Some(SmartPtr::Arc(ptr))) => Some(SmartPtr::Arc(ptr)),
            _ => None,
        }
    }
}

} // verus!
