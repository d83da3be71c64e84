use launcher_categories::python_category::{
    search_path_entry, NO_WORKING_DIR, SEARCH_PATH_NOT_A_LIST, WORKING_DIR_NOT_UNICODE,
};
use launcher_categories::python_category::launch_outcome;
use launcher_categories::reply::{
    entries_from, entries_from_call, name_from, name_from_call, ENTRIES_NOT_A_LIST, ENTRY_NOT_TEXT, NAME_NOT_TEXT,
};
use launcher_categories::{PythonError, ScriptValue, WorkingDirError};
use pyo3::exceptions::{PyRuntimeError, PyUnicodeEncodeError};
use pyo3::PyErr;

fn text(s: &str) -> ScriptValue {
    ScriptValue::Text(Ok(s.to_string()))
}

fn unreadable() -> ScriptValue {
    ScriptValue::Text(Err(PyErr::new::<PyUnicodeEncodeError, _>("surrogates not allowed")))
}

#[test]
fn name_from_text_is_unchanged() {
    assert_eq!(name_from(text("Games")).unwrap(), "Games");
    assert_eq!(name_from(text("")).unwrap(), "");
}

#[test]
fn name_from_other_value_is_rejected() {
    assert_eq!(
        name_from(ScriptValue::Other).unwrap_err(),
        PythonError::IncorrectReturnType(NAME_NOT_TEXT)
    );
    assert_eq!(
        name_from(ScriptValue::List(vec![text("Games")])).unwrap_err(),
        PythonError::IncorrectReturnType(NAME_NOT_TEXT)
    );
}

#[test]
fn name_from_unreadable_text_is_a_script_error() {
    assert_eq!(name_from(unreadable()).unwrap_err(), PythonError::ScriptError);
}

#[test]
fn entries_from_texts_keep_order() {
    let entries = entries_from(ScriptValue::List(vec![text("Chess"), text("Go")])).unwrap();
    assert_eq!(entries, vec!["Chess".to_string(), "Go".to_string()]);
}

#[test]
fn entries_from_keeps_duplicates() {
    let entries = entries_from(ScriptValue::List(vec![text("Go"), text("Go")])).unwrap();
    assert_eq!(entries, vec!["Go".to_string(), "Go".to_string()]);
}

#[test]
fn entries_from_empty_list_is_empty() {
    assert_eq!(entries_from(ScriptValue::List(vec![])).unwrap(), Vec::<String>::new());
}

#[test]
fn entries_from_non_list_is_rejected() {
    assert_eq!(
        entries_from(ScriptValue::Other).unwrap_err(),
        PythonError::IncorrectReturnType(ENTRIES_NOT_A_LIST)
    );
    assert_eq!(
        entries_from(text("Chess")).unwrap_err(),
        PythonError::IncorrectReturnType(ENTRIES_NOT_A_LIST)
    );
}

#[test]
fn entries_from_non_text_element_rejects_all() {
    assert_eq!(
        entries_from(ScriptValue::List(vec![text("A"), ScriptValue::Other])).unwrap_err(),
        PythonError::IncorrectReturnType(ENTRY_NOT_TEXT)
    );
    assert_eq!(
        entries_from(ScriptValue::List(vec![ScriptValue::Other, text("A")])).unwrap_err(),
        PythonError::IncorrectReturnType(ENTRY_NOT_TEXT)
    );
}

#[test]
fn entries_from_non_text_wins_over_unreadable_text() {
    assert_eq!(
        entries_from(ScriptValue::List(vec![unreadable(), ScriptValue::Other])).unwrap_err(),
        PythonError::IncorrectReturnType(ENTRY_NOT_TEXT)
    );
}

#[test]
fn entries_from_unreadable_text_is_a_script_error() {
    assert_eq!(
        entries_from(ScriptValue::List(vec![text("A"), unreadable()])).unwrap_err(),
        PythonError::ScriptError
    );
}

#[test]
fn search_path_entry_is_the_working_dir() {
    assert_eq!(search_path_entry(true, Ok("/srv/apps".to_string())).unwrap(), "/srv/apps");
}

#[test]
fn search_path_entry_needs_a_list() {
    assert_eq!(
        search_path_entry(false, Ok("/srv/apps".to_string())).unwrap_err(),
        PythonError::IncorrectReturnType(SEARCH_PATH_NOT_A_LIST)
    );
    assert_eq!(
        search_path_entry(false, Err(WorkingDirError::Unresolvable)).unwrap_err(),
        PythonError::IncorrectReturnType(SEARCH_PATH_NOT_A_LIST)
    );
}

#[test]
fn search_path_entry_reports_working_dir_failures() {
    assert_eq!(
        search_path_entry(true, Err(WorkingDirError::Unresolvable)).unwrap_err(),
        PythonError::MiscError(NO_WORKING_DIR)
    );
    assert_eq!(
        search_path_entry(true, Err(WorkingDirError::NotUnicode)).unwrap_err(),
        PythonError::MiscError(WORKING_DIR_NOT_UNICODE)
    );
}

fn raised() -> PyErr {
    PyErr::new::<PyRuntimeError, _>("script failed")
}

#[test]
fn name_from_call_reads_the_reply() {
    assert_eq!(name_from_call(Ok(text("Games"))).unwrap(), "Games");
    assert_eq!(
        name_from_call(Ok(ScriptValue::Other)).unwrap_err(),
        PythonError::IncorrectReturnType(NAME_NOT_TEXT)
    );
}

#[test]
fn name_from_call_that_raised_is_a_script_error() {
    assert_eq!(name_from_call(Err(raised())).unwrap_err(), PythonError::ScriptError);
}

#[test]
fn entries_from_call_reads_the_reply() {
    let entries = entries_from_call(Ok(ScriptValue::List(vec![text("Chess"), text("Go")]))).unwrap();
    assert_eq!(entries, vec!["Chess".to_string(), "Go".to_string()]);
    assert_eq!(
        entries_from_call(Ok(ScriptValue::List(vec![text("A"), ScriptValue::Other]))).unwrap_err(),
        PythonError::IncorrectReturnType(ENTRY_NOT_TEXT)
    );
}

#[test]
fn entries_from_call_that_raised_is_a_script_error() {
    assert_eq!(entries_from_call(Err(raised())).unwrap_err(), PythonError::ScriptError);
}

#[test]
fn launch_outcome_that_raised_is_a_script_error() {
    assert_eq!(launch_outcome(Err(raised())).unwrap_err(), PythonError::ScriptError);
}
