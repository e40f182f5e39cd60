//! Conversion adapters from host values to foreign objects.
//!
//! The two traits here are the conversion surface generic host code goes
//! through: one borrows the host value, the other consumes it. Both are
//! total for the types that implement them. The host "unit" value — the
//! absence of a value — converts to the "none" singleton and only to it, on
//! both paths.

use crate::none::PyNone;
use crate::runtime::PyObject;
use crate::runtime::Python;
use vstd::prelude::*;

verus! {

/// Conversion of a borrowed host value to an owned foreign handle.
pub trait ToPyObject {
    /// The identity of the foreign object the conversion produces.
    spec fn spec_id(&self, py: Python) -> u64;

    /// The identity of that object's runtime type object.
    spec fn spec_type_id(&self, py: Python) -> u64;

    /// Convert the host value to an owned handle; infallible.
    fn to_object(&self, py: &Python) -> (r: PyObject)
        requires
            py.wf(),
        ensures
            r@.id() == self.spec_id(*py),
            r@.type_id() == self.spec_type_id(*py),
            r@.wf_for(*py),
    ;
}

/// Conversion that consumes a host value into an owned foreign handle.
pub trait IntoPy: Sized {
    /// The identity of the foreign object the conversion produces.
    spec fn spec_id(self, py: Python) -> u64;

    /// The identity of that object's runtime type object.
    spec fn spec_type_id(self, py: Python) -> u64;

    /// Convert the host value into an owned handle; infallible.
    fn into_py(self, py: &Python) -> (r: PyObject)
        requires
            py.wf(),
        ensures
            r@.id() == self.spec_id(*py),
            r@.type_id() == self.spec_type_id(*py),
            r@.wf_for(*py),
    ;
}

/// The host "unit" value converts to the "none" singleton.
impl ToPyObject for () {
    open spec fn spec_id(&self, py: Python) -> u64 {
        py.none_id()
    }

    open spec fn spec_type_id(&self, py: Python) -> u64 {
        py.none_type_id()
    }

    fn to_object(&self, py: &Python) -> (r: PyObject) {
        PyNone::get(py).into_py(py)
    }
}

/// The host "unit" value converts to the "none" singleton on this path too.
impl IntoPy for () {
    open spec fn spec_id(self, py: Python) -> u64 {
        py.none_id()
    }

    open spec fn spec_type_id(self, py: Python) -> u64 {
        py.none_type_id()
    }

    fn into_py(self, py: &Python) -> (r: PyObject) {
        PyNone::get(py).into_py(py)
    }
}

} // verus!
