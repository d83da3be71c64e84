//! Categories of launchable entries, and a category whose name, entries and
//! launch action come from a Python module.

pub mod category;
pub mod error;
mod interpreter;
pub mod python_category;
pub mod reply;

pub use category::{Category, Entry};
pub use error::PythonError;
pub use python_category::{PythonCategory, WorkingDirError};
pub use reply::ScriptValue;
