//! Metadata records for the entries of a storage service, where each record
//! keeps track of which of its attributes the producing operation filled in.
//!
//! Backends answer a listing with less than they answer a full stat, so a
//! record distinguishes "never fetched" from "fetched and absent". The set of
//! fetched attributes is a [`MetakeySet`]; the record itself is [`Metadata`].

pub mod content_range;
pub mod entry_mode;
pub mod metadata;
pub mod metakey;

pub use crate::content_range::BytesContentRange;
pub use crate::entry_mode::EntryMode;
pub use crate::metadata::Metadata;
pub use crate::metadata::MetadataView;
pub use crate::metakey::Metakey;
pub use crate::metakey::MetakeySet;
