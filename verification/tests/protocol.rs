use pynone::IntoPy;
use pynone::PyDict;
use pynone::PyNone;
use pynone::PyObject;
use pynone::PyTypeInfo;
use pynone::Python;
use pynone::ToPyObject;

#[test]
fn test_get_twice_is_same_object() {
    let py = Python::attach();
    let first = PyNone::get(&py);
    let second = PyNone::get(&py);
    assert!(first.as_any().is(&second.as_any()));
}

#[test]
fn test_get_reports_type_object() {
    let py = Python::attach();
    let reported = PyNone::get(&py).as_any().get_type();
    assert!(reported.is(&PyNone::type_object(&py)));
    assert_eq!(
        PyNone::type_object_raw(&py),
        PyNone::get(&py).as_any().type_id_raw()
    );
}

#[test]
fn test_type_name_and_module() {
    assert_eq!(PyNone::name(), "NoneType");
    assert!(PyNone::module().is_none());
}

#[test]
fn test_none_is_none_directly() {
    let py = Python::attach();
    assert!(PyNone::get(&py).as_any().is_none(&py));
}

#[test]
fn test_dict_fails_every_membership_test() {
    let mut py = Python::attach();
    let dict = PyDict::new(&mut py);
    assert!(!dict.as_any().is_instance_of::<PyNone>(&py));
    assert!(!dict.as_any().is_exact_instance_of::<PyNone>(&py));
    assert!(!dict.as_any().is_none(&py));
}

#[test]
fn test_two_dicts_are_distinct_objects() {
    let mut py = Python::attach();
    let first = PyDict::new(&mut py);
    let second = PyDict::new(&mut py);
    assert!(!first.as_any().is(&second.as_any()));
}

#[test]
fn test_downcast_returns_the_singleton() {
    let py = Python::attach();
    let handle: PyObject = ().to_object(&py);
    let none = handle.downcast::<PyNone>(&py).unwrap();
    assert!(none.as_any().is(&PyNone::get(&py).as_any()));
}

#[test]
fn test_conversion_paths_agree() {
    let py = Python::attach();
    let borrowed_path: PyObject = ().to_object(&py);
    let consuming_path: PyObject = ().into_py(&py);
    assert!(borrowed_path.as_any().is(&consuming_path.as_any()));
    assert!(consuming_path.downcast::<PyNone>(&py).is_ok());
}

#[test]
fn test_promoted_singleton_keeps_identity() {
    let py = Python::attach();
    let none = PyNone::get(&py);
    let owned = none.into_py(&py);
    assert!(owned.as_any().is(&none.as_any()));
    assert!(owned.as_any().is_none(&py));
}
