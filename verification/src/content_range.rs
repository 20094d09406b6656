//! The byte range that a piece of content covers.

use vstd::prelude::*;

verus! {

/// Which bytes of a whole a response carries, as far as the backend said.
///
/// A record stores and returns such a value as it is; nothing here reads it.
#[derive(Debug, Clone, Copy, PartialEq, Eq, Structural)]
pub struct BytesContentRange {
    /// Position of the first byte, where known.
    pub start: Option<u64>,
    /// Position of the last byte, where known.
    pub end: Option<u64>,
    /// Size of the whole content, where known.
    pub size: Option<u64>,
}

} // verus!
