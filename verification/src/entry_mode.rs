//! The kind of an entry.

use vstd::prelude::*;

verus! {

/// What an entry is: a file, a directory, or something the backend could not
/// tell.
#[derive(Debug, Clone, Copy, PartialEq, Eq, Structural)]
pub enum EntryMode {
    /// The entry is a file and holds data.
    FILE,
    /// The entry is a directory and may hold other entries.
    DIR,
    /// The backend did not say what the entry is.
    Unknown,
}

impl EntryMode {
    /// Whether this is [`EntryMode::FILE`].
    pub fn is_file(&self) -> (r: bool)
        ensures
            r == (*self == EntryMode::FILE),
    {
        matches!(self, EntryMode::FILE)
    }

    /// Whether this is [`EntryMode::DIR`].
    pub fn is_dir(&self) -> (r: bool)
        ensures
            r == (*self == EntryMode::DIR),
    {
        matches!(self, EntryMode::DIR)
    }
}

} // verus!
