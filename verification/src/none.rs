//! The native wrapper for the foreign runtime's "none" singleton.
//!
//! A [`PyNone`] is a typed view of the one process-wide "no value" object.
//! The only construction paths are [`PyNone::get`], which asks the runtime
//! for the singleton, and a downcast through the type-identity protocol,
//! which validates the candidate first: a wrapper for any other foreign
//! object cannot exist.

use crate::runtime::DowncastError;
use crate::runtime::PyAny;
use crate::runtime::PyObject;
use crate::runtime::PyType;
use crate::runtime::Python;
use crate::type_info::PyTypeInfo;
use vstd::prelude::*;

verus! {

/// The typed wrapper for the "none" singleton: a borrowed reference with a
/// narrower meaning.
#[derive(Clone, Copy)]
pub struct PyNone {
    obj: PyAny,
}

impl PyNone {
    /// The identity of the object the wrapper refers to.
    pub closed spec fn id(self) -> u64 {
        self.obj.id()
    }

    /// The identity of that object's runtime type object.
    pub closed spec fn type_id(self) -> u64 {
        self.obj.type_id()
    }

    /// A valid wrapper refers to the singleton itself and reports the
    /// singleton's type.
    pub open spec fn is_valid(self, py: Python) -> bool {
        self.id() == py.none_id() && self.type_id() == py.none_type_id()
    }

    /// Return the "none" singleton: an infallible runtime lookup.
    pub fn get(py: &Python) -> (r: PyNone)
        ensures
            r.is_valid(*py),
    {
        PyNone { obj: py.none_object() }
    }

    /// Borrow the wrapper as an arbitrary foreign object.
    pub fn as_any(&self) -> (r: PyAny)
        ensures
            r.id() == self.id(),
            r.type_id() == self.type_id(),
    {
        self.obj
    }

    /// Promote this borrowed reference to an owned handle of the same
    /// object, independent of the token's lifetime.
    pub fn into_py(self, _py: &Python) -> (r: PyObject)
        ensures
            r@.id() == self.id(),
            r@.type_id() == self.type_id(),
    {
        PyObject::from_any(self.obj)
    }
}

impl PyTypeInfo for PyNone {
    /// The singleton type's canonical name.
    open spec fn spec_name() -> Seq<char> {
        "NoneType"@
    }

    /// The singleton type belongs to no importable module.
    open spec fn spec_module() -> Option<Seq<char>> {
        Option::None
    }

    /// The wrapper's type object is the singleton's own type.
    open spec fn spec_type_id(py: Python) -> u64 {
        py.none_type_id()
    }

    /// Membership collapses to identity with the singleton: the type has
    /// exactly one instance and cannot be subclassed.
    open spec fn spec_is_type_of(py: Python, obj: PyAny) -> bool {
        obj.id() == py.none_id()
    }

    /// Exact membership is identity with the singleton.
    open spec fn spec_is_exact_type_of(py: Python, obj: PyAny) -> bool {
        obj.id() == py.none_id()
    }

    open spec fn spec_valid(self, py: Python) -> bool {
        self.is_valid(py)
    }

    fn name() -> (r: &'static str) {
        "NoneType"
    }

    fn module() -> (r: Option<&'static str>) {
        Option::None
    }

    fn type_object_raw(py: &Python) -> (r: u64) {
        let none = PyNone::get(py);
        none.as_any().type_id_raw()
    }

    fn type_object(py: &Python) -> (r: PyType) {
        // The type object is queried from the live singleton instance, not
        // looked up statically: the runtime guarantees one canonical type
        // object per process but no importable name for it.
        let none = PyNone::get(py);
        none.as_any().get_type()
    }

    fn is_type_of(py: &Python, obj: &PyAny) -> (r: bool) {
        // The singleton type is not usable as a base type, so general
        // membership degenerates to exact membership.
        Self::is_exact_type_of(py, obj)
    }

    fn is_exact_type_of(py: &Python, obj: &PyAny) -> (r: bool) {
        let none = PyNone::get(py);
        obj.is(&none.as_any())
    }

    fn downcast_from(py: &Python, obj: &PyAny) -> (r: Result<PyNone, DowncastError>) {
        if Self::is_type_of(py, obj) {
            Ok(PyNone { obj: *obj })
        } else {
            Err(DowncastError)
        }
    }
}

} // verus!
