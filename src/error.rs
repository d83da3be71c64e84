use crate::interpreter::print_error;
use pyo3::PyErr;
use vstd::prelude::*;

verus! {

/// How an operation of a Python-backed category fails.
#[derive(Debug, Clone, Copy, PartialEq, Eq)]
pub enum PythonError {
    /// The stored module handle is not a module: a defect of the host.
    InternalError,
    /// The interpreter raised an exception, which has been printed to `sys.stderr`.
    ScriptError,
    /// A value read from the interpreter does not have the expected shape.
    IncorrectReturnType(&'static str),
    /// The host environment failed, outside the script.
    MiscError(&'static str),
}

/// Every exception becomes `ScriptError`, once its traceback has been printed.
impl From<PyErr> for PythonError {
    fn from(e: PyErr) -> (r: PythonError)
        ensures
            r == PythonError::ScriptError,
    {
        print_error(&e);
        PythonError::ScriptError
    }
}

impl vstd::std_specs::convert::FromSpecImpl<PyErr> for PythonError {
    open spec fn obeys_from_spec() -> bool {
        true
    }

    open spec fn from_spec(v: PyErr) -> PythonError {
        PythonError::ScriptError
    }
}

} // verus!
