//! The modeled foreign runtime.
//!
//! The foreign runtime owns every object; this library never copies or frees
//! one. A foreign object is modeled by its identity (the address the runtime
//! reports for it) together with the identity of its runtime type object.
//! The [`Python`] token stands for proof that the runtime is attached to the
//! calling thread; every operation that touches foreign memory takes one.
//!
//! The runtime guarantees, and this model maintains, that the "none"
//! singleton is the only object whose type is the singleton's type: the
//! singleton type cannot be subclassed and has exactly one instance. That
//! guarantee is written as [`PyAny::wf_for`] and is established by every
//! constructor in this module.

use vstd::prelude::*;

verus! {

/// Execution-context token: proof that the foreign runtime is attached.
///
/// The token carries the runtime state the model needs: the identity of the
/// "none" singleton, the identity of the singleton's type object, the
/// identity of the mapping type object, and a bound below which every
/// identity handed out so far lies. None of this is caller-visible except
/// through the specification functions.
pub struct Python {
    none_obj: u64,
    none_ty: u64,
    dict_ty: u64,
    fresh: u64,
}

impl Python {
    /// Identity of the process-wide "none" singleton object.
    pub closed spec fn none_id(self) -> u64 {
        self.none_obj
    }

    /// Identity of the singleton's runtime type object.
    pub closed spec fn none_type_id(self) -> u64 {
        self.none_ty
    }

    /// Identity of the runtime's mapping type object.
    pub closed spec fn dict_type_id(self) -> u64 {
        self.dict_ty
    }

    /// Every identity the runtime has handed out lies below this bound.
    pub closed spec fn fresh_id(self) -> u64 {
        self.fresh
    }

    /// Well-formedness of an attached runtime: the singleton, its type and
    /// the mapping type already exist, and the mapping type is a different
    /// type object than the singleton's.
    pub open spec fn wf(self) -> bool {
        &&& self.none_id() < self.fresh_id()
        &&& self.none_type_id() < self.fresh_id()
        &&& self.dict_type_id() < self.fresh_id()
        &&& self.none_type_id() != self.dict_type_id()
    }

    /// Attach to the foreign runtime and obtain the execution-context token.
    /// At attachment only the runtime's built-in objects exist, so the
    /// identity bound is small; callers may allocate from there on.
    pub fn attach() -> (py: Python)
        ensures
            py.wf(),
            py.fresh_id() <= 3,
    {
        Python { none_obj: 0, none_ty: 1, dict_ty: 2, fresh: 3 }
    }

    /// The runtime's lookup of the singleton: returns the borrowed "none"
    /// object, whose type is the singleton type.
    pub(crate) fn none_object(&self) -> (r: PyAny)
        ensures
            r.id() == self.none_id(),
            r.type_id() == self.none_type_id(),
    {
        PyAny { addr: self.none_obj, ty: self.none_ty }
    }
}

/// A borrowed reference to an arbitrary foreign object: its identity and the
/// identity of its runtime type object. It never owns the object.
#[derive(Clone, Copy)]
pub struct PyAny {
    addr: u64,
    ty: u64,
}

impl PyAny {
    /// The object's identity (the address the runtime reports for it).
    pub closed spec fn id(self) -> u64 {
        self.addr
    }

    /// The identity of the object's runtime type object.
    pub closed spec fn type_id(self) -> u64 {
        self.ty
    }

    /// The runtime's singleton guarantee, stated of one object: it has the
    /// singleton's type exactly when it is the singleton. The singleton type
    /// cannot be subclassed and has exactly one instance, so no other object
    /// can carry that type.
    pub open spec fn wf_for(self, py: Python) -> bool {
        (self.type_id() == py.none_type_id()) <==> (self.id() == py.none_id())
    }

    /// Object identity comparison: do the two references point at the same
    /// foreign object?
    pub fn is(&self, other: &PyAny) -> (r: bool)
        ensures
            r == (self.id() == other.id()),
    {
        self.addr == other.addr
    }

    /// The runtime's type-of query: the type object of this object.
    pub fn get_type(&self) -> (r: PyType)
        ensures
            r.id() == self.type_id(),
    {
        PyType { addr: self.ty }
    }

    /// The raw identity of this object's type object.
    pub fn type_id_raw(&self) -> (r: u64)
        ensures
            r == self.type_id(),
    {
        self.ty
    }

    /// Is this object the "none" singleton?
    pub fn is_none(&self, py: &Python) -> (r: bool)
        ensures
            r == (self.id() == py.none_id()),
    {
        self.addr == py.none_obj
    }
}

/// A borrowed reference to a runtime type object.
#[derive(Clone, Copy)]
pub struct PyType {
    addr: u64,
}

impl PyType {
    /// The type object's identity.
    pub closed spec fn id(self) -> u64 {
        self.addr
    }

    /// Object identity comparison between two type objects.
    pub fn is(&self, other: &PyType) -> (r: bool)
        ensures
            r == (self.id() == other.id()),
    {
        self.addr == other.addr
    }
}

/// An owned handle to a foreign object, independent of any token's lifetime.
/// Reference counting is the runtime's business; the model keeps only the
/// object the handle refers to, which is its view.
#[derive(Clone, Copy)]
pub struct PyObject {
    obj: PyAny,
}

impl View for PyObject {
    type V = PyAny;

    closed spec fn view(&self) -> PyAny {
        self.obj
    }
}

impl PyObject {
    /// Borrow the object the handle refers to.
    pub fn as_any(&self) -> (r: PyAny)
        ensures
            r == self@,
    {
        self.obj
    }

    /// Promote a borrowed reference to an owned handle of the same object.
    pub(crate) fn from_any(obj: PyAny) -> (r: PyObject)
        ensures
            r@ == obj,
    {
        PyObject { obj }
    }
}

/// A foreign mapping object: the runtime's sample of an object that is not
/// the singleton. Only its creation matters to this library.
#[derive(Clone, Copy)]
pub struct PyDict {
    obj: PyAny,
}

impl PyDict {
    /// The mapping object's identity.
    pub closed spec fn id(self) -> u64 {
        self.obj.id()
    }

    /// The identity of the mapping object's type object.
    pub closed spec fn type_id(self) -> u64 {
        self.obj.type_id()
    }

    /// Borrow the mapping as an arbitrary foreign object.
    pub fn as_any(&self) -> (r: PyAny)
        ensures
            r.id() == self.id(),
            r.type_id() == self.type_id(),
    {
        self.obj
    }

    /// Ask the runtime for a new, empty mapping object. The new object is
    /// fresh: its identity differs from that of every object the runtime has
    /// handed out before, the singleton included, and its type is the mapping
    /// type, not the singleton's.
    pub fn new(py: &mut Python) -> (r: PyDict)
        requires
            old(py).wf(),
            old(py).fresh_id() < u64::MAX,
        ensures
            final(py).wf(),
            final(py).none_id() == old(py).none_id(),
            final(py).none_type_id() == old(py).none_type_id(),
            final(py).dict_type_id() == old(py).dict_type_id(),
            final(py).fresh_id() == old(py).fresh_id() + 1,
            r.id() == old(py).fresh_id(),
            r.type_id() == old(py).dict_type_id(),
            r.id() != final(py).none_id(),
            r.type_id() != final(py).none_type_id(),
    {
        let addr = py.fresh;
        py.fresh = py.fresh + 1;
        PyDict { obj: PyAny { addr, ty: py.dict_ty } }
    }
}

/// The failure a downcast reports when the supplied foreign object does not
/// have the wrapper's type.
#[derive(Clone, Copy, Debug)]
pub struct DowncastError;

} // verus!
