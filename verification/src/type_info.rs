//! The type-identity protocol.
//!
//! Every native wrapper type implements [`PyTypeInfo`]: it declares its
//! canonical foreign type name, its owning module if the type is importable,
//! how to obtain the foreign runtime's type object for the wrapper, and two
//! membership predicates over arbitrary foreign objects. The generic
//! membership and downcast operations on [`PyAny`] and [`PyObject`] go
//! through this protocol.

use crate::runtime::DowncastError;
use crate::runtime::PyAny;
use crate::runtime::PyObject;
use crate::runtime::PyType;
use crate::runtime::Python;
use vstd::prelude::*;

verus! {

/// Does a reported module name match the declared one: both absent, or both
/// present with the same characters?
pub open spec fn module_matches(r: Option<&'static str>, m: Option<Seq<char>>) -> bool {
    match (r, m) {
        (Option::None, Option::None) => true,
        (Option::Some(a), Option::Some(b)) => a@ == b,
        _ => false,
    }
}

/// The contract every native wrapper type implements to report its foreign
/// type and to test membership of arbitrary foreign objects.
pub trait PyTypeInfo: Sized {
    /// The canonical name of the wrapper's foreign type.
    spec fn spec_name() -> Seq<char>;

    /// The name of the module the foreign type can be imported from, or
    /// `None` where the type belongs to no importable module.
    spec fn spec_module() -> Option<Seq<char>>;

    /// The identity of the wrapper's foreign type object under a token.
    spec fn spec_type_id(py: Python) -> u64;

    /// Membership: the object is an instance of the wrapper's type,
    /// subtypes included.
    spec fn spec_is_type_of(py: Python, obj: PyAny) -> bool;

    /// Exact membership: the object's type is the wrapper's type itself.
    spec fn spec_is_exact_type_of(py: Python, obj: PyAny) -> bool;

    /// Validity of a wrapper value under a token: what a successful
    /// downcast establishes about the value it returns.
    spec fn spec_valid(self, py: Python) -> bool;

    /// Report the canonical foreign type name.
    fn name() -> (r: &'static str)
        ensures
            r@ == Self::spec_name(),
    ;

    /// Report the owning module name, if any.
    fn module() -> (r: Option<&'static str>)
        ensures
            module_matches(r, Self::spec_module()),
    ;

    /// The raw identity of the wrapper's foreign type object.
    fn type_object_raw(py: &Python) -> (r: u64)
        requires
            py.wf(),
        ensures
            r == Self::spec_type_id(*py),
    ;

    /// The wrapper's foreign type object.
    fn type_object(py: &Python) -> (r: PyType)
        requires
            py.wf(),
        ensures
            r.id() == Self::spec_type_id(*py),
    ;

    /// Test general membership of an arbitrary foreign object.
    fn is_type_of(py: &Python, obj: &PyAny) -> (r: bool)
        requires
            py.wf(),
        ensures
            r == Self::spec_is_type_of(*py, *obj),
    ;

    /// Test exact membership of an arbitrary foreign object.
    fn is_exact_type_of(py: &Python, obj: &PyAny) -> (r: bool)
        requires
            py.wf(),
        ensures
            r == Self::spec_is_exact_type_of(*py, *obj),
    ;

    /// Downcast an arbitrary foreign object to this wrapper type. Succeeds
    /// exactly when the object is an instance of the wrapper's type, and
    /// then returns a valid wrapper for that object; fails with a
    /// type-mismatch condition otherwise.
    fn downcast_from(py: &Python, obj: &PyAny) -> (r: Result<Self, DowncastError>)
        requires
            py.wf(),
            obj.wf_for(*py),
        ensures
            r is Ok <==> Self::spec_is_type_of(*py, *obj),
            r matches Ok(t) ==> t.spec_valid(*py),
    ;
}

impl PyAny {
    /// Is this object an instance of `T`'s foreign type, subtypes included?
    pub fn is_instance_of<T: PyTypeInfo>(&self, py: &Python) -> (r: bool)
        requires
            py.wf(),
        ensures
            r == T::spec_is_type_of(*py, *self),
    {
        T::is_type_of(py, self)
    }

    /// Is this object's type exactly `T`'s foreign type?
    pub fn is_exact_instance_of<T: PyTypeInfo>(&self, py: &Python) -> (r: bool)
        requires
            py.wf(),
        ensures
            r == T::spec_is_exact_type_of(*py, *self),
    {
        T::is_exact_type_of(py, self)
    }

    /// Downcast this object to the wrapper type `T`, failing with a
    /// type-mismatch condition when the object is not an instance of `T`'s
    /// foreign type.
    pub fn downcast<T: PyTypeInfo>(&self, py: &Python) -> (r: Result<T, DowncastError>)
        requires
            py.wf(),
            self.wf_for(*py),
        ensures
            r is Ok <==> T::spec_is_type_of(*py, *self),
            r matches Ok(t) ==> t.spec_valid(*py),
    {
        T::downcast_from(py, self)
    }
}

impl PyObject {
    /// Downcast the object this handle refers to, as [`PyAny::downcast`]
    /// does for a borrowed reference.
    pub fn downcast<T: PyTypeInfo>(&self, py: &Python) -> (r: Result<T, DowncastError>)
        requires
            py.wf(),
            self@.wf_for(*py),
        ensures
            r is Ok <==> T::spec_is_type_of(*py, self@),
            r matches Ok(t) ==> t.spec_valid(*py),
    {
        let obj = self.as_any();
        T::downcast_from(py, &obj)
    }
}

} // verus!
