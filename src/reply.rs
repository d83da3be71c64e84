//! What a script function returned, as the host reads it, and the rules that
//! turn it into a category's name or entries.
use crate::error::PythonError;
use pyo3::PyErr;
use vstd::prelude::*;

verus! {

/// Reason given when `get_name` returns something other than a `str`.
pub const NAME_NOT_TEXT: &'static str = "The category name must be a string";

/// Reason given when `get_entries` returns something other than a `list`.
pub const ENTRIES_NOT_A_LIST: &'static str = "You must return a list of entries";

/// Reason given when an element of the entries list is not a `str`.
pub const ENTRY_NOT_TEXT: &'static str = "Each entry must be a string";

/// What the host has read of a value that a script function returned.
///
/// A value is read only as far as its use asks: `Other` stands for a value
/// that was read neither as a `str` nor as a `list`.
#[derive(Debug)]
pub enum ScriptValue {
    /// A `str`: its characters, or the exception raised when they could not
    /// be read (a `str` holding lone surrogates).
    Text(Result<String, PyErr>),
    /// A `list`, with what was read of each element in order.
    List(Vec<ScriptValue>),
    /// Any other value.
    Other,
}

/// A `str` whose characters were read.
pub open spec fn is_readable_text(v: ScriptValue) -> bool {
    v matches ScriptValue::Text(Ok(_))
}

/// The characters of a readable `str`.
pub open spec fn text_of(v: ScriptValue) -> String {
    match v {
        ScriptValue::Text(Ok(s)) => s,
        _ => arbitrary(),
    }
}

/// Every element is a `str`.
pub open spec fn all_text(items: Seq<ScriptValue>) -> bool {
    forall|i: int| 0 <= i < items.len() ==> (#[trigger] items[i]) is Text
}

/// Every element is a `str` whose characters were read.
pub open spec fn all_readable(items: Seq<ScriptValue>) -> bool {
    forall|i: int| 0 <= i < items.len() ==> is_readable_text(#[trigger] items[i])
}

/// The name that a `get_name` reply gives, or why it gives none.
pub open spec fn spec_name(v: ScriptValue) -> Result<String, PythonError> {
    match v {
        ScriptValue::Text(Ok(s)) => Ok(s),
        ScriptValue::Text(Err(_)) => Err(PythonError::ScriptError),
        _ => Err(PythonError::IncorrectReturnType(NAME_NOT_TEXT)),
    }
}

/// The entries that a `get_entries` reply gives, or why it gives none: a
/// non-`str` element anywhere rejects the whole list, before any `str` whose
/// characters could not be read.
pub open spec fn spec_entries(v: ScriptValue) -> Result<Seq<String>, PythonError> {
    match v {
        ScriptValue::List(items) => {
            if !all_text(items@) {
                Err(PythonError::IncorrectReturnType(ENTRY_NOT_TEXT))
            } else if !all_readable(items@) {
                Err(PythonError::ScriptError)
            } else {
                Ok(items@.map_values(|x: ScriptValue| text_of(x)))
            }
        },
        _ => Err(PythonError::IncorrectReturnType(ENTRIES_NOT_A_LIST)),
    }
}

/// A list of entries as a sequence.
pub open spec fn entries_view(r: Result<Vec<String>, PythonError>) -> Result<Seq<String>, PythonError> {
    match r {
        Ok(es) => Ok(es@),
        Err(e) => Err(e),
    }
}

/// The name that a call of `get_name` gives: an exception raised by the
/// call is a `ScriptError`, a reply goes by `spec_name`.
pub open spec fn spec_name_call(called: Result<ScriptValue, PyErr>) -> Result<String, PythonError> {
    match called {
        Ok(v) => spec_name(v),
        Err(_) => Err(PythonError::ScriptError),
    }
}

/// The entries that a call of `get_entries` gives: an exception raised by
/// the call is a `ScriptError`, a reply goes by `spec_entries`.
pub open spec fn spec_entries_call(called: Result<ScriptValue, PyErr>) -> Result<
    Seq<String>,
    PythonError,
> {
    match called {
        Ok(v) => spec_entries(v),
        Err(_) => Err(PythonError::ScriptError),
    }
}

/// The category name for what a call of `get_name` produced: the exception
/// it raised (printed), or the reply as read.
pub fn name_from_call(called: Result<ScriptValue, PyErr>) -> (r: Result<String, PythonError>)
    ensures
        r == spec_name_call(called),
{
    match called {
        Ok(value) => name_from(value),
        Err(e) => Err(PythonError::from(e)),
    }
}

/// The entries for what a call of `get_entries` produced: the exception it
/// raised (printed), or the reply as read.
pub fn entries_from_call(called: Result<ScriptValue, PyErr>) -> (r: Result<Vec<String>, PythonError>)
    ensures
        entries_view(r) == spec_entries_call(called),
{
    match called {
        Ok(value) => entries_from(value),
        Err(e) => Err(PythonError::from(e)),
    }
}

/// The category name in a `get_name` reply. The exception of an unreadable
/// `str` is printed.
pub fn name_from(value: ScriptValue) -> (r: Result<String, PythonError>)
    ensures
        r == spec_name(value),
{
    match value {
        ScriptValue::Text(Ok(s)) => Ok(s),
        ScriptValue::Text(Err(e)) => Err(PythonError::from(e)),
        _ => Err(PythonError::IncorrectReturnType(NAME_NOT_TEXT)),
    }
}

/// The entries in a `get_entries` reply, all or none. The exception of the
/// first unreadable `str` is printed.
pub fn entries_from(value: ScriptValue) -> (r: Result<Vec<String>, PythonError>)
    ensures
        entries_view(r) == spec_entries(value),
{
    match value {
        ScriptValue::List(mut items) => {
            let ghost given = items@;
            assert(value matches ScriptValue::List(v) && v@ == given);
            let mut i: usize = 0;
            while i < items.len()
                invariant
                    i <= items.len(),
                    items@ == given,
                    value matches ScriptValue::List(v) && v@ == given,
                    forall|j: int| 0 <= j < i ==> (#[trigger] items@[j]) is Text,
                decreases items.len() - i,
            {
                match &items[i] {
                    ScriptValue::Text(_) => {},
                    _ => {
                        assert(!(items@[i as int] is Text));
                        assert(!all_text(given));
                        return Err(PythonError::IncorrectReturnType(ENTRY_NOT_TEXT));
                    },
                }
                i = i + 1;
            }
            assert(all_text(given));
            let mut texts: Vec<String> = Vec::new();
            let mut i: usize = 0;
            while i < items.len()
                invariant
                    i <= items.len(),
                    items@ == given,
                    value matches ScriptValue::List(v) && v@ == given,
                    all_text(given),
                    texts@.len() == i,
                    forall|j: int| 0 <= j < i ==> is_readable_text(#[trigger] items@[j]),
                    forall|j: int| 0 <= j < i ==> texts@[j] == text_of(#[trigger] items@[j]),
                decreases items.len() - i,
            {
                match &items[i] {
                    ScriptValue::Text(Ok(s)) => {
                        texts.push(s.clone());
                    },
                    _ => {
                        assert(!is_readable_text(items@[i as int]));
                        assert(!all_readable(given));
                        let unreadable = items.remove(i);
                        return match unreadable {
                            ScriptValue::Text(Err(e)) => Err(PythonError::from(e)),
                            _ => Err(PythonError::ScriptError),
                        };
                    },
                }
                i = i + 1;
            }
            assert(all_readable(given));
            assert(texts@ =~= given.map_values(|x: ScriptValue| text_of(x)));
            Ok(texts)
        },
        _ => Err(PythonError::IncorrectReturnType(ENTRIES_NOT_A_LIST)),
    }
}

/// A `get_name` reply that is a readable `str` gives exactly its characters.
pub proof fn lemma_text_name_passes_through(s: String)
    ensures
        spec_name(ScriptValue::Text(Ok(s))) == Ok::<String, PythonError>(s),
{
}

/// A `get_entries` reply that is a list of readable `str` values gives
/// exactly their characters, one entry per element, in the list's order.
pub proof fn lemma_text_entries_pass_through(items: Vec<ScriptValue>)
    requires
        all_readable(items@),
    ensures
        spec_entries(ScriptValue::List(items)) matches Ok(es) && es.len() == items@.len() && forall|
            i: int,
        | 0 <= i < es.len() ==> items@[i] == ScriptValue::Text(Ok(#[trigger] es[i])),
{
    assert(all_text(items@)) by {
        assert forall|i: int| 0 <= i < items@.len() implies (#[trigger] items@[i]) is Text by {
            assert(is_readable_text(items@[i]));
        }
    }
    let es = items@.map_values(|x: ScriptValue| text_of(x));
    assert forall|i: int| 0 <= i < es.len() implies items@[i] == ScriptValue::Text(
        Ok(#[trigger] es[i]),
    ) by {
        assert(is_readable_text(items@[i]));
    }
}

/// A `get_entries` reply that is not a `list` is rejected as such, with no entries.
pub proof fn lemma_non_list_rejected(v: ScriptValue)
    requires
        !(v is List),
    ensures
        spec_entries(v) == Err::<Seq<String>, PythonError>(
            PythonError::IncorrectReturnType(ENTRIES_NOT_A_LIST),
        ),
{
}

/// One element that is not a `str`, wherever it stands, rejects the whole
/// list: none of the entries before it is given.
pub proof fn lemma_non_text_element_rejects_all(items: Vec<ScriptValue>, i: int)
    requires
        0 <= i < items@.len(),
        !(items@[i] is Text),
    ensures
        spec_entries(ScriptValue::List(items)) == Err::<Seq<String>, PythonError>(
            PythonError::IncorrectReturnType(ENTRY_NOT_TEXT),
        ),
{
    assert(!all_text(items@));
}

} // verus!
