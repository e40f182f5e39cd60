use pynone::IntoPy;
use pynone::PyDict;
use pynone::PyNone;
use pynone::PyObject;
use pynone::PyTypeInfo;
use pynone::Python;
use pynone::ToPyObject;

#[test]
fn test_none_is_itself() {
    let py = Python::attach();
    assert!(PyNone::get(&py).as_any().is_instance_of::<PyNone>(&py));
    assert!(PyNone::get(&py).as_any().is_exact_instance_of::<PyNone>(&py));
}

#[test]
fn test_none_type_object_consistent() {
    let py = Python::attach();
    assert!(PyNone::get(&py).as_any().get_type().is(&PyNone::type_object(&py)));
}

#[test]
fn test_none_is_none() {
    let py = Python::attach();
    let none = PyNone::get(&py).as_any().downcast::<PyNone>(&py).unwrap();
    assert!(none.as_any().is_none(&py));
}

#[test]
fn test_unit_to_object_is_none() {
    let py = Python::attach();
    assert!(().to_object(&py).downcast::<PyNone>(&py).is_ok());
}

#[test]
fn test_unit_into_py_is_none() {
    let py = Python::attach();
    let obj: PyObject = ().into_py(&py);
    assert!(obj.downcast::<PyNone>(&py).is_ok());
}

#[test]
fn test_dict_is_not_none() {
    let mut py = Python::attach();
    assert!(PyDict::new(&mut py).as_any().downcast::<PyNone>(&py).is_err());
}
