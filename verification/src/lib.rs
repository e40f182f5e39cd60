//! A verified model of a binding layer's "none" singleton.
//!
//! The library models a foreign runtime that owns a process-wide "no value"
//! object. An execution-context token ([`runtime::Python`]) stands for proof
//! that the runtime is attached; foreign objects are referred to by their
//! identity and carry the identity of their runtime type. On top of that
//! model, [`none::PyNone`] is the typed wrapper for the singleton,
//! [`type_info::PyTypeInfo`] is the type-identity protocol every wrapper
//! implements, [`convert`] holds the adapters from the host "unit" value to
//! the singleton, and [`laws`] proves the properties that relate them.

pub mod convert;
pub mod laws;
pub mod none;
pub mod runtime;
pub mod type_info;

pub use convert::IntoPy;
pub use convert::ToPyObject;
pub use none::PyNone;
pub use runtime::DowncastError;
pub use runtime::PyAny;
pub use runtime::PyDict;
pub use runtime::PyObject;
pub use runtime::PyType;
pub use runtime::Python;
pub use type_info::PyTypeInfo;
