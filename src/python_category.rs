//! A category whose name, entries and launch action come from a Python module
//! that defines `get_name()`, `get_entries()` and `launch_entry(entry)`.
use crate::category::{Category, Entry};
use crate::error::PythonError;
use crate::interpreter::{
    as_list, as_module, as_text, attached, attribute, call_method0, call_method1, import_module,
    list_insert, list_items, text_content,
};
use crate::reply::{
    entries_from_call, entries_view, name_from_call, spec_entries_call, spec_name_call, ScriptValue,
};
use pyo3::types::PyAny;
use pyo3::{Py, PyErr};
use vstd::prelude::*;

verus! {

/// Reason given when `sys.path` is not a `list`.
pub const SEARCH_PATH_NOT_A_LIST: &'static str = "sys.path should be a list!";

/// Reason given when the working directory cannot be resolved.
pub const NO_WORKING_DIR: &'static str = "Could not get the current directory!";

/// Reason given when the working directory is not valid Unicode.
pub const WORKING_DIR_NOT_UNICODE: &'static str = "No working directory found";

/// Why the process's working directory could not be had as text.
#[derive(Debug, Clone, Copy, PartialEq, Eq)]
pub enum WorkingDirError {
    /// The operating system could not resolve it.
    Unresolvable,
    /// It is not valid Unicode.
    NotUnicode,
}

/// The error that a working directory failure becomes.
pub open spec fn working_dir_failure(e: WorkingDirError) -> PythonError {
    match e {
        WorkingDirError::Unresolvable => PythonError::MiscError(NO_WORKING_DIR),
        WorkingDirError::NotUnicode => PythonError::MiscError(WORKING_DIR_NOT_UNICODE),
    }
}

/// The directory to put first on the module search path: the working
/// directory, once the search path has been found to be a `list`.
pub fn search_path_entry(search_path_is_list: bool, working_dir: Result<String, WorkingDirError>) -> (r:
    Result<String, PythonError>)
    ensures
        !search_path_is_list ==> r == Err::<String, PythonError>(
            PythonError::IncorrectReturnType(SEARCH_PATH_NOT_A_LIST),
        ),
        search_path_is_list ==> match working_dir {
            Ok(dir) => r == Ok::<String, PythonError>(dir),
            Err(e) => r == Err::<String, PythonError>(working_dir_failure(e)),
        },
{
    if !search_path_is_list {
        return Err(PythonError::IncorrectReturnType(SEARCH_PATH_NOT_A_LIST));
    }
    match working_dir {
        Ok(dir) => Ok(dir),
        Err(WorkingDirError::Unresolvable) => Err(PythonError::MiscError(NO_WORKING_DIR)),
        Err(WorkingDirError::NotUnicode) => Err(PythonError::MiscError(WORKING_DIR_NOT_UNICODE)),
    }
}

/// Reads a value as a `str`, or as `Other`.
fn read_text(obj: &Py<PyAny>) -> (r: ScriptValue)
    ensures
        r is Text || r is Other,
{
    match as_text(obj) {
        Some(s) => ScriptValue::Text(text_content(&s)),
        None => ScriptValue::Other,
    }
}

/// Reads a value as a `list` whose elements are read as `str`, or as `Other`.
fn read_list(obj: &Py<PyAny>) -> (r: ScriptValue)
    ensures
        r is List || r is Other,
{
    match as_list(obj) {
        Some(list) => {
            let objs = list_items(&list);
            let mut items: Vec<ScriptValue> = Vec::new();
            let mut i: usize = 0;
            while i < objs.len()
                invariant
                    i <= objs.len(),
                decreases objs.len() - i,
            {
                items.push(read_text(&objs[i]));
                i = i + 1;
            }
            ScriptValue::List(items)
        },
        None => ScriptValue::Other,
    }
}

/// A category backed by an imported Python module, which it holds for its
/// whole life. Nothing else is kept: every query calls into the module anew.
pub struct PythonCategory {
    module_object: Py<PyAny>,
}

impl PythonCategory {
    /// The imported module object that the category holds.
    pub closed spec fn handle(&self) -> Py<PyAny> {
        self.module_object
    }

    /// Puts the process's working directory (`working_dir`, as the caller
    /// resolved it) first on `sys.path`, then imports the module
    /// `module_name`, all in one acquisition of the interpreter. A `sys.path`
    /// that is not a `list` is reported before a working directory failure.
    /// The directory is put on `sys.path` again by every call, and stays there.
    pub fn new(module_name: &str, working_dir: Result<String, WorkingDirError>) -> (r: Result<
        PythonCategory,
        PythonError,
    >)
        ensures
            working_dir is Err ==> r is Err,
            r matches Err(e) ==> (e == PythonError::ScriptError || e
                == PythonError::IncorrectReturnType(SEARCH_PATH_NOT_A_LIST) || (working_dir matches Err(
                w) && e == working_dir_failure(w))),
    {
        let load = move || -> (r: Result<PythonCategory, PythonError>)
            ensures
                working_dir is Err ==> r is Err,
                r matches Err(e) ==> (e == PythonError::ScriptError || e
                    == PythonError::IncorrectReturnType(SEARCH_PATH_NOT_A_LIST) || (
                working_dir matches Err(w) && e == working_dir_failure(w))),
        {
            Self::load(module_name, working_dir)
        };
        attached(load)
    }

    /// The body of `new`, run while attached.
    fn load(module_name: &str, working_dir: Result<String, WorkingDirError>) -> (r: Result<
        PythonCategory,
        PythonError,
    >)
        ensures
            working_dir is Err ==> r is Err,
            r matches Err(e) ==> (e == PythonError::ScriptError || e
                == PythonError::IncorrectReturnType(SEARCH_PATH_NOT_A_LIST) || (working_dir matches Err(
                w) && e == working_dir_failure(w))),
    {
        let sys = match import_module("sys") {
            Ok(m) => m,
            Err(e) => return Err(PythonError::from(e)),
        };
        let search_path = match attribute(&sys, "path") {
            Ok(p) => p,
            Err(e) => return Err(PythonError::from(e)),
        };
        let list = as_list(&search_path);
        let dir = match search_path_entry(list.is_some(), working_dir) {
            Ok(dir) => dir,
            Err(e) => return Err(e),
        };
        if let Some(list) = list {
            if let Err(e) = list_insert(&list, 0, dir.as_str()) {
                return Err(PythonError::from(e));
            }
        }
        Self::from_import(import_module(module_name))
    }

    /// The category for what an import produced: an exception that the import
    /// raised becomes `ScriptError`, and no category.
    pub fn from_import(imported: Result<Py<PyAny>, PyErr>) -> (r: Result<PythonCategory, PythonError>)
        ensures
            imported is Ok <==> r is Ok,
            imported is Err ==> r == Err::<PythonCategory, PythonError>(PythonError::ScriptError),
            imported matches Ok(m) ==> (r matches Ok(c) && c.handle() == m),
    {
        match imported {
            Ok(module_object) => Ok(PythonCategory { module_object }),
            Err(e) => Err(PythonError::from(e)),
        }
    }

    /// The body of `name`, run while attached.
    fn name_attached(&self) -> (r: Result<String, PythonError>)
        ensures
            r == Err::<String, PythonError>(PythonError::InternalError) || exists|
                called: Result<ScriptValue, PyErr>,
            | #[trigger] spec_name_call(called) == r,
    {
        let module = match as_module(&self.module_object) {
            Some(m) => m,
            None => return Err(PythonError::InternalError),
        };
        let called = match call_method0(&module, "get_name") {
            Ok(reply) => Ok(read_text(&reply)),
            Err(e) => Err(e),
        };
        let ghost given = called;
        let r = name_from_call(called);
        assert(spec_name_call(given) == r);
        r
    }

    /// The body of `get_entries`, run while attached.
    fn entries_attached(&self) -> (r: Result<Vec<Entry>, PythonError>)
        ensures
            r == Err::<Vec<Entry>, PythonError>(PythonError::InternalError) || exists|
                called: Result<ScriptValue, PyErr>,
            | #[trigger] spec_entries_call(called) == entries_view(r),
    {
        let module = match as_module(&self.module_object) {
            Some(m) => m,
            None => return Err(PythonError::InternalError),
        };
        let called = match call_method0(&module, "get_entries") {
            Ok(reply) => Ok(read_list(&reply)),
            Err(e) => Err(e),
        };
        let ghost given = called;
        let r = entries_from_call(called);
        assert(spec_entries_call(given) == entries_view(r));
        r
    }

    /// The body of `launch`, run while attached.
    fn launch_attached(&self, entry: &Entry) -> (r: Result<(), PythonError>)
        ensures
            r matches Err(e) ==> (e == PythonError::InternalError || e == PythonError::ScriptError),
    {
        let module = match as_module(&self.module_object) {
            Some(m) => m,
            None => return Err(PythonError::InternalError),
        };
        launch_outcome(call_method1(&module, "launch_entry", entry.as_str()))
    }
}

/// The outcome of `launch` for what the call of `launch_entry` produced: what
/// it returned is ignored, an exception it raised (printed) is a `ScriptError`.
pub fn launch_outcome(called: Result<Py<PyAny>, PyErr>) -> (r: Result<(), PythonError>)
    ensures
        called is Ok <==> r is Ok,
        called is Err ==> r == Err::<(), PythonError>(PythonError::ScriptError),
{
    match called {
        Ok(_) => Ok(()),
        Err(e) => Err(PythonError::from(e)),
    }
}

/// Each operation holds the interpreter for its whole length, and calls one
/// function of the module. Only the module's handle is kept, so each call
/// asks the module anew.
impl Category for PythonCategory {
    type Error = PythonError;

    /// Calls `get_name()`, which must return a `str`: the result is
    /// `InternalError`, or what `name_from_call` gives for what the call produced.
    fn name(&self) -> (r: Result<String, PythonError>)
        ensures
            r == Err::<String, PythonError>(PythonError::InternalError) || exists|
                called: Result<ScriptValue, PyErr>,
            | #[trigger] spec_name_call(called) == r,
    {
        let run = || -> (r: Result<String, PythonError>)
            ensures
                r == Err::<String, PythonError>(PythonError::InternalError) || exists|
                    called: Result<ScriptValue, PyErr>,
                | #[trigger] spec_name_call(called) == r,
        {
            self.name_attached()
        };
        attached(run)
    }

    /// Calls `get_entries()`, which must return a `list` of `str`: the result
    /// is `InternalError`, or what `entries_from_call` gives for what the call
    /// produced.
    fn get_entries(&self) -> (r: Result<Vec<Entry>, PythonError>)
        ensures
            r == Err::<Vec<Entry>, PythonError>(PythonError::InternalError) || exists|
                called: Result<ScriptValue, PyErr>,
            | #[trigger] spec_entries_call(called) == entries_view(r),
    {
        let run = || -> (r: Result<Vec<Entry>, PythonError>)
            ensures
                r == Err::<Vec<Entry>, PythonError>(PythonError::InternalError) || exists|
                    called: Result<ScriptValue, PyErr>,
                | #[trigger] spec_entries_call(called) == entries_view(r),
        {
            self.entries_attached()
        };
        attached(run)
    }

    /// Calls `launch_entry(entry)`, whatever `entry` is, and ignores what it
    /// returns: only whether it raised counts (see `launch_outcome`).
    fn launch(&self, entry: &Entry) -> (r: Result<(), PythonError>)
        ensures
            r matches Err(e) ==> (e == PythonError::InternalError || e == PythonError::ScriptError),
    {
        let run = || -> (r: Result<(), PythonError>)
            ensures
                r matches Err(e) ==> (e == PythonError::InternalError || e == PythonError::ScriptError),
        {
            self.launch_attached(entry)
        };
        attached(run)
    }
}

} // verus!
