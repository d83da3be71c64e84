//! The calls into the embedded Python interpreter.
//!
//! Each function attaches to the interpreter for the length of its call (a
//! nested attach, when `attached` already holds it), and the interpreter
//! initialises itself on first use. Python objects are opaque
//! here: what they hold is read only through these functions, and since a
//! script decides what it returns, none of them promises anything of it.
use pyo3::types::{PyAny, PyList, PyListMethods, PyModule, PyString};
use pyo3::{Py, PyErr, Python};
use vstd::prelude::*;

verus! {

#[verifier::external_type_specification]
#[verifier::external_body]
#[verifier::reject_recursive_types(T)]
pub struct ExPy<T>(pyo3::Py<T>);

#[verifier::external_type_specification]
#[verifier::external_body]
pub struct ExPyAny(pyo3::types::PyAny);

#[verifier::external_type_specification]
#[verifier::external_body]
pub struct ExPyList(pyo3::types::PyList);

#[verifier::external_type_specification]
#[verifier::external_body]
pub struct ExPyString(pyo3::types::PyString);

#[verifier::external_type_specification]
#[verifier::external_body]
pub struct ExPyModule(pyo3::types::PyModule);

#[verifier::external_type_specification]
#[verifier::external_body]
pub struct ExPyErr(pyo3::PyErr);

/// Relies on `pyo3::Python::attach`: runs `f` once while attached to the
/// interpreter and hands back what it returned. The calls made inside `f`
/// find the interpreter already held, so `f` runs as one scoped acquisition,
/// released on every exit.
#[verifier::external_body]
pub(crate) fn attached<R, F: FnOnce() -> R>(f: F) -> (r: R)
    requires
        f.requires(()),
    ensures
        f.ensures((), r),
{
    Python::attach(|_py| f())
}

/// Relies on `pyo3::types::PyModule::import`: runs `import name` and hands
/// back the object that the import produced, or the exception it raised.
#[verifier::external_body]
pub(crate) fn import_module(name: &str) -> Result<Py<PyAny>, PyErr> {
    Python::attach(|py| PyModule::import(py, name).map(|m| m.into_any().unbind()))
}

/// Relies on `pyo3::Py::getattr`: reads the attribute `name` of `obj`.
#[verifier::external_body]
pub(crate) fn attribute(obj: &Py<PyAny>, name: &str) -> Result<Py<PyAny>, PyErr> {
    Python::attach(|py| obj.getattr(py, name))
}

/// Relies on `pyo3::Py::cast_bound`: `Some` exactly when `obj` is a module.
#[verifier::external_body]
pub(crate) fn as_module(obj: &Py<PyAny>) -> Option<Py<PyModule>> {
    Python::attach(|py| obj.cast_bound::<PyModule>(py).ok().map(|m| m.clone().unbind()))
}

/// Relies on `pyo3::Py::cast_bound`: `Some` exactly when `obj` is a `list`.
#[verifier::external_body]
pub(crate) fn as_list(obj: &Py<PyAny>) -> Option<Py<PyList>> {
    Python::attach(|py| obj.cast_bound::<PyList>(py).ok().map(|l| l.clone().unbind()))
}

/// Relies on `pyo3::Py::cast_bound`: `Some` exactly when `obj` is a `str`.
#[verifier::external_body]
pub(crate) fn as_text(obj: &Py<PyAny>) -> Option<Py<PyString>> {
    Python::attach(|py| obj.cast_bound::<PyString>(py).ok().map(|s| s.clone().unbind()))
}

/// Relies on `pyo3::Py::<PyString>::to_str`: the characters of `s`, or the
/// `UnicodeEncodeError` raised for a `str` that holds lone surrogates.
#[verifier::external_body]
pub(crate) fn text_content(s: &Py<PyString>) -> Result<String, PyErr> {
    Python::attach(|py| s.to_str(py).map(|t| t.to_string()))
}

/// Relies on `pyo3::types::PyListMethods::iter`: the elements of `list` at
/// the moment of the call, in order.
#[verifier::external_body]
pub(crate) fn list_items(list: &Py<PyList>) -> Vec<Py<PyAny>> {
    Python::attach(|py| list.bind(py).iter().map(|item| item.unbind()).collect())
}

/// Relies on `pyo3::types::PyListMethods::insert`: inserts the `str` `item`
/// into `list` before position `index`.
#[verifier::external_body]
pub(crate) fn list_insert(list: &Py<PyList>, index: usize, item: &str) -> Result<(), PyErr> {
    Python::attach(|py| list.bind(py).insert(index, item))
}

/// Relies on `pyo3::Py::call_method0`: calls `obj.name()`.
#[verifier::external_body]
pub(crate) fn call_method0(obj: &Py<PyModule>, name: &str) -> Result<Py<PyAny>, PyErr> {
    Python::attach(|py| obj.call_method0(py, name))
}

/// Relies on `pyo3::Py::call_method1`: calls `obj.name(arg)` with `arg` as a `str`.
#[verifier::external_body]
pub(crate) fn call_method1(obj: &Py<PyModule>, name: &str, arg: &str) -> Result<Py<PyAny>, PyErr> {
    Python::attach(|py| obj.call_method1(py, name, (arg,)))
}

/// Relies on `pyo3::PyErr::display`: prints the exception and its traceback
/// to `sys.stderr`, and returns, whatever the exception (`SystemExit`
/// included: unlike `PyErr::print`, it does not exit the process).
#[verifier::external_body]
pub(crate) fn print_error(e: &PyErr) {
    Python::attach(|py| e.display(py))
}

} // verus!
