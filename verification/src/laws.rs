//! Laws of the singleton wrapper, stated once and proved from the public
//! contracts' specification functions.

use crate::convert::IntoPy;
use crate::convert::ToPyObject;
use crate::none::PyNone;
use crate::runtime::PyAny;
use crate::runtime::PyType;
use crate::runtime::Python;
use crate::type_info::PyTypeInfo;
use vstd::prelude::*;

verus! {

/// The singleton returned by the lookup reports exactly the type object the
/// wrapper's type-object query returns: for every token, a valid singleton
/// reference's type is the wrapper's type object.
pub proof fn lemma_get_reports_type_object(py: Python, n: PyNone, t: PyType)
    requires
        py.wf(),
        n.is_valid(py),
        t.id() == <PyNone as PyTypeInfo>::spec_type_id(py),
    ensures
        n.type_id() == t.id(),
{
}

/// Both membership predicates hold of the singleton reference against its
/// own wrapper type: `a` is the singleton viewed as an arbitrary foreign
/// object, as borrowing the wrapper produces it.
pub proof fn lemma_singleton_is_instance(py: Python, n: PyNone, a: PyAny)
    requires
        n.is_valid(py),
        a.id() == n.id(),
    ensures
        <PyNone as PyTypeInfo>::spec_is_type_of(py, a),
        <PyNone as PyTypeInfo>::spec_is_exact_type_of(py, a),
{
}

/// General and exact membership agree on every foreign object: the
/// singleton type has exactly one instance, so the general test cannot
/// accept anything the exact test rejects.
pub proof fn lemma_membership_agrees(py: Python, obj: PyAny)
    ensures
        <PyNone as PyTypeInfo>::spec_is_type_of(py, obj) == <PyNone as PyTypeInfo>::spec_is_exact_type_of(py, obj),
{
}

/// Collapsing membership to identity is sound: for every object the runtime
/// can hand out, membership in the singleton's type is the same as having
/// the singleton's type object. Identity with the singleton is what the
/// implementation tests; type equality is what membership means.
pub proof fn lemma_membership_is_type_equality(py: Python, obj: PyAny)
    requires
        obj.wf_for(py),
    ensures
        <PyNone as PyTypeInfo>::spec_is_type_of(py, obj) == (obj.type_id() == <PyNone as PyTypeInfo>::spec_type_id(py)),
{
}

/// Every foreign object other than the singleton itself fails both
/// membership predicates — objects that merely compare equal by value
/// included, since only identity enters the predicates. A downcast of such
/// an object therefore fails.
pub proof fn lemma_non_singleton_rejected(py: Python, obj: PyAny)
    requires
        obj.id() != py.none_id(),
    ensures
        !<PyNone as PyTypeInfo>::spec_is_type_of(py, obj),
        !<PyNone as PyTypeInfo>::spec_is_exact_type_of(py, obj),
{
}

/// Converting the host "unit" value to an owned handle yields the
/// singleton: the handle's object passes membership for the singleton
/// wrapper, so downcasting it succeeds.
pub proof fn lemma_unit_handle_is_singleton(py: Python, obj: PyAny)
    requires
        obj.id() == <() as ToPyObject>::spec_id(&(), py),
    ensures
        <PyNone as PyTypeInfo>::spec_is_type_of(py, obj),
{
}

/// The two conversion adapters for the host "unit" value are observably
/// equivalent: both paths produce the singleton, with the same identity and
/// the same reported type.
pub proof fn lemma_conversion_paths_agree(py: Python)
    ensures
        <() as ToPyObject>::spec_id(&(), py) == <() as IntoPy>::spec_id((), py),
        <() as ToPyObject>::spec_type_id(&(), py) == <() as IntoPy>::spec_type_id((), py),
        <() as ToPyObject>::spec_id(&(), py) == py.none_id(),
        <() as ToPyObject>::spec_type_id(&(), py) == py.none_type_id(),
{
}

/// There is one singleton per token: any two valid singleton references are
/// the same foreign object, identity included — never merely equal by
/// value.
pub proof fn lemma_singleton_unique(py: Python, a: PyNone, b: PyNone)
    requires
        a.is_valid(py),
        b.is_valid(py),
    ensures
        a.id() == b.id(),
{
}

} // verus!
