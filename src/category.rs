use vstd::prelude::*;

verus! {

/// An entry: the text that names one launchable item of a category.
pub type Entry = String;

/// A named, ordered collection of launchable entries.
///
/// Each provider has its own error type.
pub trait Category {
    type Error;

    /// The category's display name.
    fn name(&self) -> Result<String, Self::Error>;

    /// The entries available now, in the provider's order; computed anew on each call.
    fn get_entries(&self) -> Result<Vec<Entry>, Self::Error>;

    /// Dispatches the provider's action for `entry`.
    fn launch(&self, entry: &Entry) -> Result<(), Self::Error>;
}

} // verus!
