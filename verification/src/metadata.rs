//! The metadata record.
//!
//! A [`Metadata`] holds the mode of an entry, up to nine further attributes,
//! and the set of keys that says which of them a producer filled in. Its
//! contracts speak of its view, a [`MetadataView`].

use chrono::NaiveDateTime;
use vstd::prelude::*;
use vstd::std_specs::cmp::PartialEqSpec;

use crate::content_range::BytesContentRange;
use crate::entry_mode::EntryMode;
use crate::metakey::covers;
use crate::metakey::covers_all;
use crate::metakey::Metakey;
use crate::metakey::MetakeySet;

verus! {

/// chrono's date and time without a zone. A record carries it through
/// untouched and reads it as UTC; nothing is claimed of what it holds.
#[verifier::external_type_specification]
#[verifier::external_body]
pub struct ExNaiveDateTime(NaiveDateTime);

/// Metadata of one entry.
///
/// `bit` says which of the other fields the producer filled in. A field whose
/// key is missing there was never fetched, which is not the same as fetched
/// and absent. A getter therefore asks that the record answers for its key:
/// that the key is set, or [`Metakey::Complete`] is. Verus holds verified
/// callers to that. Other callers test with [`Metadata::contains_bit`] first:
/// a getter never fails, and hands out what is stored whatever the keys say.
#[derive(Debug, Eq)]
pub struct Metadata {
    bit: MetakeySet,
    mode: EntryMode,
    cache_control: Option<String>,
    content_disposition: Option<String>,
    content_length: Option<u64>,
    content_md5: Option<String>,
    content_range: Option<BytesContentRange>,
    content_type: Option<String>,
    etag: Option<String>,
    last_modified: Option<NaiveDateTime>,
    version: Option<String>,
}

/// What a [`Metadata`] holds, with each string as the sequence of its
/// characters and the key set as the set of its members.
pub struct MetadataView {
    pub bit: Set<Metakey>,
    pub mode: EntryMode,
    pub cache_control: Option<Seq<char>>,
    pub content_disposition: Option<Seq<char>>,
    pub content_length: Option<u64>,
    pub content_md5: Option<Seq<char>>,
    pub content_range: Option<BytesContentRange>,
    pub content_type: Option<Seq<char>>,
    pub etag: Option<Seq<char>>,
    pub last_modified: Option<NaiveDateTime>,
    pub version: Option<Seq<char>>,
}

/// The characters of an optional string.
pub open spec fn chars_of(s: Option<String>) -> Option<Seq<char>> {
    match s {
        Some(s) => Some(s@),
        None => None,
    }
}

/// The characters of an optional string slice.
pub open spec fn chars_of_str(s: Option<&str>) -> Option<Seq<char>> {
    match s {
        Some(s) => Some(s@),
        None => None,
    }
}

impl View for Metadata {
    type V = MetadataView;

    closed spec fn view(&self) -> MetadataView {
        MetadataView {
            bit: self.bit@,
            mode: self.mode,
            cache_control: chars_of(self.cache_control),
            content_disposition: chars_of(self.content_disposition),
            content_length: self.content_length,
            content_md5: chars_of(self.content_md5),
            content_range: self.content_range,
            content_type: chars_of(self.content_type),
            etag: chars_of(self.etag),
            last_modified: self.last_modified,
            version: chars_of(self.version),
        }
    }
}

impl MetadataView {
    /// A record as [`Metadata::new`] makes it: the mode is set, no other
    /// attribute is stored, and a directory counts as complete.
    pub open spec fn fresh(mode: EntryMode) -> MetadataView {
        MetadataView {
            bit: if mode == EntryMode::DIR {
                set![Metakey::Mode, Metakey::Complete]
            } else {
                set![Metakey::Mode]
            },
            mode: mode,
            cache_control: None,
            content_disposition: None,
            content_length: None,
            content_md5: None,
            content_range: None,
            content_type: None,
            etag: None,
            last_modified: None,
            version: None,
        }
    }

    /// Whether the record answers for `key`, so that the attribute under it
    /// may be read: the key is in `bit`, or [`Metakey::Complete`] is.
    pub open spec fn has(self, key: Metakey) -> bool {
        covers(self.bit, key)
    }

    /// Whether the record answers for every one of `keys`:
    /// [`Metakey::Complete`] is in `bit`, or all of `keys` are.
    pub open spec fn has_all(self, keys: Set<Metakey>) -> bool {
        covers_all(self.bit, keys)
    }

    /// The record with `key` added to its key set and nothing else changed.
    /// Every setter ends in this step.
    pub open spec fn marked(self, key: Metakey) -> MetadataView {
        MetadataView { bit: self.bit.insert(key), ..self }
    }

    /// The record with its key set replaced by `bit`.
    pub open spec fn with_bit(self, bit: Set<Metakey>) -> MetadataView {
        MetadataView { bit: bit, ..self }
    }

    /// The record after its mode was set to `v`.
    pub open spec fn with_mode(self, v: EntryMode) -> MetadataView {
        (MetadataView { mode: v, ..self }).marked(Metakey::Mode)
    }

    /// The record after its cache control was set to `v`.
    pub open spec fn with_cache_control(self, v: Seq<char>) -> MetadataView {
        (MetadataView { cache_control: Some(v), ..self }).marked(Metakey::CacheControl)
    }

    /// The record after its content length was set to `v`.
    pub open spec fn with_content_length(self, v: u64) -> MetadataView {
        (MetadataView { content_length: Some(v), ..self }).marked(Metakey::ContentLength)
    }

    /// The record after its content MD5 was set to `v`.
    pub open spec fn with_content_md5(self, v: Seq<char>) -> MetadataView {
        (MetadataView { content_md5: Some(v), ..self }).marked(Metakey::ContentMd5)
    }

    /// The record after its content type was set to `v`.
    pub open spec fn with_content_type(self, v: Seq<char>) -> MetadataView {
        (MetadataView { content_type: Some(v), ..self }).marked(Metakey::ContentType)
    }

    /// The record after its content range was set to `v`.
    pub open spec fn with_content_range(self, v: BytesContentRange) -> MetadataView {
        (MetadataView { content_range: Some(v), ..self }).marked(Metakey::ContentRange)
    }

    /// The record after its time of last modification was set to `v`.
    pub open spec fn with_last_modified(self, v: NaiveDateTime) -> MetadataView {
        (MetadataView { last_modified: Some(v), ..self }).marked(Metakey::LastModified)
    }

    /// The record after its ETag was set to `v`.
    pub open spec fn with_etag(self, v: Seq<char>) -> MetadataView {
        (MetadataView { etag: Some(v), ..self }).marked(Metakey::Etag)
    }

    /// The record after its content disposition was set to `v`.
    pub open spec fn with_content_disposition(self, v: Seq<char>) -> MetadataView {
        (MetadataView { content_disposition: Some(v), ..self }).marked(Metakey::ContentDisposition)
    }

    /// The record after its version was set to `v`.
    pub open spec fn with_version(self, v: Seq<char>) -> MetadataView {
        (MetadataView { version: Some(v), ..self }).marked(Metakey::Version)
    }

    /// The content length that the getter hands out: the stored one, or 0
    /// where none is stored.
    pub open spec fn content_length_or_zero(self) -> u64 {
        match self.content_length {
            Some(v) => v,
            None => 0,
        }
    }
}

impl Metadata {
    /// Creates the metadata of an entry of the given mode.
    ///
    /// The mode counts as set. A directory has no further attributes to
    /// fetch, so it is marked complete from the start.
    pub fn new(mode: EntryMode) -> (r: Metadata)
        ensures
            r@ == MetadataView::fresh(mode),
    {
        let mut bit = MetakeySet::from(Metakey::Mode);
        if mode.is_dir() {
            bit.insert(Metakey::Complete);
        }
        let r = Metadata {
            bit,
            mode,
            cache_control: None,
            content_disposition: None,
            content_length: None,
            content_md5: None,
            content_range: None,
            content_type: None,
            etag: None,
            last_modified: None,
            version: None,
        };
        assert(r@.bit =~= MetadataView::fresh(mode).bit);
        r
    }

    /// The set of keys whose attributes were filled in.
    pub fn bit(&self) -> (r: MetakeySet)
        ensures
            r@ == self@.bit,
    {
        self.bit
    }

    /// Replaces the key set as a whole and leaves the attributes alone.
    pub fn with_bit(self, bit: MetakeySet) -> (r: Metadata)
        ensures
            r@ == self@.with_bit(bit@),
    {
        let mut r = self;
        r.bit = bit;
        r
    }

    /// Whether the record answers for every key of `bit`: it is complete, or
    /// each of them is set. For one key, hand in the set made from it.
    pub fn contains_bit(&self, bit: MetakeySet) -> (r: bool)
        ensures
            r == self@.has_all(bit@),
    {
        self.bit.contains_all(bit)
    }

    /// The mode of the entry.
    ///
    /// To be read from a record that answers for [`Metakey::Mode`].
    pub fn mode(&self) -> (r: EntryMode)
        requires
            self@.has(Metakey::Mode),
        ensures
            r == self@.mode,
    {
        self.mode
    }

    /// Whether the entry is a file.
    pub fn is_file(&self) -> (r: bool)
        ensures
            r == (self@.mode == EntryMode::FILE),
    {
        self.mode.is_file()
    }

    /// Whether the entry is a directory.
    pub fn is_dir(&self) -> (r: bool)
        ensures
            r == (self@.mode == EntryMode::DIR),
    {
        self.mode.is_dir()
    }

    /// Sets the mode of the entry. The key set gains [`Metakey::Mode`] and
    /// nothing else, whatever the mode.
    pub fn set_mode(&mut self, v: EntryMode) -> (r: &mut Metadata)
        ensures
            r@ == old(self)@.with_mode(v),
            *final(self) == *final(r),
    {
        self.mode = v;
        self.bit.insert(Metakey::Mode);
        self
    }

    /// Sets the mode of the entry. The key set gains [`Metakey::Mode`] and
    /// nothing else, whatever the mode.
    pub fn with_mode(self, v: EntryMode) -> (r: Metadata)
        ensures
            r@ == self@.with_mode(v),
    {
        let mut r = self;
        r.set_mode(v);
        r
    }

    /// Cache control of the entry, as a `Cache-Control` header carries it.
    ///
    /// To be read from a record that answers for [`Metakey::CacheControl`].
    pub fn cache_control(&self) -> (r: Option<&str>)
        requires
            self@.has(Metakey::CacheControl),
        ensures
            chars_of_str(r) == self@.cache_control,
    {
        match &self.cache_control {
            Some(v) => Some(v.as_str()),
            None => None,
        }
    }

    /// Sets the cache control of the entry to a copy of `v`, character for
    /// character.
    pub fn set_cache_control(&mut self, v: &str) -> (r: &mut Metadata)
        ensures
            r@ == old(self)@.with_cache_control(v@),
            *final(self) == *final(r),
    {
        self.cache_control = Some(v.to_string());
        self.bit.insert(Metakey::CacheControl);
        self
    }

    /// Sets the cache control of the entry to `v`, character for character.
    pub fn with_cache_control(self, v: String) -> (r: Metadata)
        ensures
            r@ == self@.with_cache_control(v@),
    {
        let mut r = self;
        r.cache_control = Some(v);
        r.bit.insert(Metakey::CacheControl);
        r
    }

    /// The content length of the entry in bytes.
    ///
    /// To be read from a record that answers for [`Metakey::ContentLength`].
    /// A complete record with no length stored hands out 0.
    pub fn content_length(&self) -> (r: u64)
        requires
            self@.has(Metakey::ContentLength),
        ensures
            r == self@.content_length_or_zero(),
    {
        match self.content_length {
            Some(v) => v,
            None => 0,
        }
    }

    /// The content length as stored, whether or not its key is set.
    pub fn content_length_raw(&self) -> (r: Option<u64>)
        ensures
            r == self@.content_length,
    {
        self.content_length
    }

    /// Sets the content length of the entry.
    pub fn set_content_length(&mut self, v: u64) -> (r: &mut Metadata)
        ensures
            r@ == old(self)@.with_content_length(v),
            *final(self) == *final(r),
    {
        self.content_length = Some(v);
        self.bit.insert(Metakey::ContentLength);
        self
    }

    /// Sets the content length of the entry.
    pub fn with_content_length(self, v: u64) -> (r: Metadata)
        ensures
            r@ == self@.with_content_length(v),
    {
        let mut r = self;
        r.set_content_length(v);
        r
    }

    /// Content MD5 of the entry.
    ///
    /// Backends report it on a best-effort basis: it need not be the MD5 of
    /// the content.
    ///
    /// To be read from a record that answers for [`Metakey::ContentMd5`].
    pub fn content_md5(&self) -> (r: Option<&str>)
        requires
            self@.has(Metakey::ContentMd5),
        ensures
            chars_of_str(r) == self@.content_md5,
    {
        match &self.content_md5 {
            Some(v) => Some(v.as_str()),
            None => None,
        }
    }

    /// Sets the content MD5 of the entry to a copy of `v`, character for
    /// character.
    pub fn set_content_md5(&mut self, v: &str) -> (r: &mut Metadata)
        ensures
            r@ == old(self)@.with_content_md5(v@),
            *final(self) == *final(r),
    {
        self.content_md5 = Some(v.to_string());
        self.bit.insert(Metakey::ContentMd5);
        self
    }

    /// Sets the content MD5 of the entry to `v`, character for character.
    pub fn with_content_md5(self, v: String) -> (r: Metadata)
        ensures
            r@ == self@.with_content_md5(v@),
    {
        let mut r = self;
        r.content_md5 = Some(v);
        r.bit.insert(Metakey::ContentMd5);
        r
    }

    /// Content type of the entry, as a `Content-Type` header carries it.
    ///
    /// To be read from a record that answers for [`Metakey::ContentType`].
    pub fn content_type(&self) -> (r: Option<&str>)
        requires
            self@.has(Metakey::ContentType),
        ensures
            chars_of_str(r) == self@.content_type,
    {
        match &self.content_type {
            Some(v) => Some(v.as_str()),
            None => None,
        }
    }

    /// Sets the content type of the entry to a copy of `v`, character for
    /// character.
    pub fn set_content_type(&mut self, v: &str) -> (r: &mut Metadata)
        ensures
            r@ == old(self)@.with_content_type(v@),
            *final(self) == *final(r),
    {
        self.content_type = Some(v.to_string());
        self.bit.insert(Metakey::ContentType);
        self
    }

    /// Sets the content type of the entry to `v`, character for character.
    pub fn with_content_type(self, v: String) -> (r: Metadata)
        ensures
            r@ == self@.with_content_type(v@),
    {
        let mut r = self;
        r.content_type = Some(v);
        r.bit.insert(Metakey::ContentType);
        r
    }

    /// Content range of the entry.
    ///
    /// To be read from a record that answers for [`Metakey::ContentRange`].
    pub fn content_range(&self) -> (r: Option<BytesContentRange>)
        requires
            self@.has(Metakey::ContentRange),
        ensures
            r == self@.content_range,
    {
        self.content_range
    }

    /// Sets the content range of the entry.
    pub fn set_content_range(&mut self, v: BytesContentRange) -> (r: &mut Metadata)
        ensures
            r@ == old(self)@.with_content_range(v),
            *final(self) == *final(r),
    {
        self.content_range = Some(v);
        self.bit.insert(Metakey::ContentRange);
        self
    }

    /// Sets the content range of the entry.
    pub fn with_content_range(self, v: BytesContentRange) -> (r: Metadata)
        ensures
            r@ == self@.with_content_range(v),
    {
        let mut r = self;
        r.set_content_range(v);
        r
    }

    /// Time of the last modification of the entry, as the date and time in UTC.
    ///
    /// To be read from a record that answers for [`Metakey::LastModified`].
    pub fn last_modified(&self) -> (r: Option<NaiveDateTime>)
        requires
            self@.has(Metakey::LastModified),
        ensures
            r == self@.last_modified,
    {
        self.last_modified
    }

    /// Sets the time of the last modification of the entry.
    pub fn set_last_modified(&mut self, v: NaiveDateTime) -> (r: &mut Metadata)
        ensures
            r@ == old(self)@.with_last_modified(v),
            *final(self) == *final(r),
    {
        self.last_modified = Some(v);
        self.bit.insert(Metakey::LastModified);
        self
    }

    /// Sets the time of the last modification of the entry.
    pub fn with_last_modified(self, v: NaiveDateTime) -> (r: Metadata)
        ensures
            r@ == self@.with_last_modified(v),
    {
        let mut r = self;
        r.set_last_modified(v);
        r
    }

    /// ETag of the entry, exactly as it was stored.
    ///
    /// The quotes are part of an ETag, and so is the `W/` of a weak one:
    /// `"33a64df551425fcc55e4d42a148795d9f25f89d4"` and `W/"0815"` come back
    /// as they went in.
    ///
    /// To be read from a record that answers for [`Metakey::Etag`].
    pub fn etag(&self) -> (r: Option<&str>)
        requires
            self@.has(Metakey::Etag),
        ensures
            chars_of_str(r) == self@.etag,
    {
        match &self.etag {
            Some(v) => Some(v.as_str()),
            None => None,
        }
    }

    /// Sets the ETag of the entry to a copy of `v`, character for
    /// character.
    pub fn set_etag(&mut self, v: &str) -> (r: &mut Metadata)
        ensures
            r@ == old(self)@.with_etag(v@),
            *final(self) == *final(r),
    {
        self.etag = Some(v.to_string());
        self.bit.insert(Metakey::Etag);
        self
    }

    /// Sets the ETag of the entry to `v`, character for character.
    pub fn with_etag(self, v: String) -> (r: Metadata)
        ensures
            r@ == self@.with_etag(v@),
    {
        let mut r = self;
        r.etag = Some(v);
        r.bit.insert(Metakey::Etag);
        r
    }

    /// Content disposition of the entry, exactly as it was stored, such as
    /// `inline` or `attachment; filename="filename.jpg"`.
    ///
    /// To be read from a record that answers for [`Metakey::ContentDisposition`].
    pub fn content_disposition(&self) -> (r: Option<&str>)
        requires
            self@.has(Metakey::ContentDisposition),
        ensures
            chars_of_str(r) == self@.content_disposition,
    {
        match &self.content_disposition {
            Some(v) => Some(v.as_str()),
            None => None,
        }
    }

    /// Sets the content disposition of the entry to a copy of `v`, character for
    /// character.
    pub fn set_content_disposition(&mut self, v: &str) -> (r: &mut Metadata)
        ensures
            r@ == old(self)@.with_content_disposition(v@),
            *final(self) == *final(r),
    {
        self.content_disposition = Some(v.to_string());
        self.bit.insert(Metakey::ContentDisposition);
        self
    }

    /// Sets the content disposition of the entry to `v`, character for character.
    pub fn with_content_disposition(self, v: String) -> (r: Metadata)
        ensures
            r@ == self@.with_content_disposition(v@),
    {
        let mut r = self;
        r.content_disposition = Some(v);
        r.bit.insert(Metakey::ContentDisposition);
        r
    }

    /// Version of the entry, as the backend's object versioning names it.
    ///
    /// To be read from a record that answers for [`Metakey::Version`].
    pub fn version(&self) -> (r: Option<&str>)
        requires
            self@.has(Metakey::Version),
        ensures
            chars_of_str(r) == self@.version,
    {
        match &self.version {
            Some(v) => Some(v.as_str()),
            None => None,
        }
    }

    /// Sets the version of the entry to a copy of `v`, character for
    /// character.
    pub fn set_version(&mut self, v: &str) -> (r: &mut Metadata)
        ensures
            r@ == old(self)@.with_version(v@),
            *final(self) == *final(r),
    {
        self.version = Some(v.to_string());
        self.bit.insert(Metakey::Version);
        self
    }

    /// Sets the version of the entry to `v`, character for character.
    pub fn with_version(self, v: String) -> (r: Metadata)
        ensures
            r@ == self@.with_version(v@),
    {
        let mut r = self;
        r.version = Some(v);
        r.bit.insert(Metakey::Version);
        r
    }
}

/// Calls chrono's `==` on two `NaiveDateTime`s. chrono compares the date and
/// the time of day that they hold, so the answer is true of one and the same
/// value and of no two different ones.
#[verifier::external_body]
fn same_time(a: &NaiveDateTime, b: &NaiveDateTime) -> (r: bool)
    ensures
        r == (*a == *b),
{
    a == b
}

/// Whether two optional times are both absent or both the same time.
fn same_optional_time(a: &Option<NaiveDateTime>, b: &Option<NaiveDateTime>) -> (r: bool)
    ensures
        r == (*a == *b),
{
    match (a, b) {
        (Some(x), Some(y)) => same_time(x, y),
        (None, None) => true,
        _ => false,
    }
}

/// Whether two optional strings are both absent or made of the same
/// characters.
fn same_text(a: &Option<String>, b: &Option<String>) -> (r: bool)
    ensures
        r == (chars_of(*a) == chars_of(*b)),
{
    match (a, b) {
        (Some(x), Some(y)) => *x == *y,
        (None, None) => true,
        _ => false,
    }
}

/// A copy of an optional string.
fn copy_of_text(a: &Option<String>) -> (r: Option<String>)
    ensures
        r == *a,
{
    match a {
        Some(x) => Some(x.clone()),
        None => None,
    }
}

impl Clone for Metadata {
    /// A second record with the same keys and the same attributes.
    fn clone(&self) -> (r: Metadata)
        ensures
            r == *self,
    {
        Metadata {
            bit: self.bit,
            mode: self.mode,
            cache_control: copy_of_text(&self.cache_control),
            content_disposition: copy_of_text(&self.content_disposition),
            content_length: self.content_length,
            content_md5: copy_of_text(&self.content_md5),
            content_range: self.content_range,
            content_type: copy_of_text(&self.content_type),
            etag: copy_of_text(&self.etag),
            last_modified: self.last_modified,
            version: copy_of_text(&self.version),
        }
    }
}

impl PartialEq for Metadata {
    /// Two records are equal when they have the same keys set and store the
    /// same attributes, read or not: when their views are the same.
    fn eq(&self, other: &Metadata) -> (r: bool) {
        proof {
            use_type_invariant(self.bit);
            use_type_invariant(other.bit);
            MetakeySet::lemma_equal_by_members(self.bit, other.bit);
        }
        self.bit == other.bit
            && self.mode == other.mode
            && same_text(&self.cache_control, &other.cache_control)
            && same_text(&self.content_disposition, &other.content_disposition)
            && self.content_length == other.content_length
            && same_text(&self.content_md5, &other.content_md5)
            && self.content_range == other.content_range
            && same_text(&self.content_type, &other.content_type)
            && same_text(&self.etag, &other.etag)
            && same_optional_time(&self.last_modified, &other.last_modified)
            && same_text(&self.version, &other.version)
    }
}

impl vstd::std_specs::cmp::PartialEqSpecImpl for Metadata {
    open spec fn obeys_eq_spec() -> bool {
        true
    }

    open spec fn eq_spec(&self, other: &Metadata) -> bool {
        self@ == other@
    }
}

impl MetadataView {
    /// A new record has its mode set, and to the mode it was made with.
    pub proof fn lemma_fresh_mode(mode: EntryMode)
        ensures
            Self::fresh(mode).has(Metakey::Mode),
            Self::fresh(mode).mode == mode,
    {
    }

    /// A new directory answers for every key and for every set of keys,
    /// though none of its attributes is stored: each getter may be called,
    /// and hands out nothing, or zero for the content length.
    pub proof fn lemma_fresh_directory_is_complete()
        ensures
            forall|key: Metakey| Self::fresh(EntryMode::DIR).has(key),
            forall|keys: Set<Metakey>| Self::fresh(EntryMode::DIR).has_all(keys),
            Self::fresh(EntryMode::DIR).cache_control.is_none(),
            Self::fresh(EntryMode::DIR).content_disposition.is_none(),
            Self::fresh(EntryMode::DIR).content_length_or_zero() == 0,
            Self::fresh(EntryMode::DIR).content_md5.is_none(),
            Self::fresh(EntryMode::DIR).content_range.is_none(),
            Self::fresh(EntryMode::DIR).content_type.is_none(),
            Self::fresh(EntryMode::DIR).etag.is_none(),
            Self::fresh(EntryMode::DIR).last_modified.is_none(),
            Self::fresh(EntryMode::DIR).version.is_none(),
    {
    }

    /// A new record that is no directory answers for its mode and for no
    /// other key.
    pub proof fn lemma_fresh_answers_for_mode_only(mode: EntryMode, key: Metakey)
        requires
            mode != EntryMode::DIR,
        ensures
            Self::fresh(mode).has(key) == (key == Metakey::Mode),
    {
    }

    /// Marking a key sets it and keeps what was set. Unless the key is
    /// [`Metakey::Complete`], no other key is answered for that was not
    /// before. Marking twice is marking once.
    pub proof fn lemma_marked(self, key: Metakey)
        ensures
            self.marked(key).has(key),
            forall|k: Metakey| self.has(k) ==> self.marked(key).has(k),
            key != Metakey::Complete ==> forall|k: Metakey|
                k != key ==> self.marked(key).has(k) == self.has(k),
            self.marked(key).marked(key) == self.marked(key),
    {
        assert(self.bit.insert(key).insert(key) =~= self.bit.insert(key));
    }

    /// Once the content length is set, its key is set and the getter hands
    /// out the length that was stored.
    pub proof fn lemma_content_length_after_set(self, v: u64)
        ensures
            self.with_content_length(v).has(Metakey::ContentLength),
            self.with_content_length(v).content_length == Some(v),
            self.with_content_length(v).content_length_or_zero() == v,
    {
    }

    /// Once the ETag is set, its key is set and the ETag stored is the one
    /// given, character for character.
    pub proof fn lemma_etag_after_set(self, v: Seq<char>)
        ensures
            self.with_etag(v).has(Metakey::Etag),
            self.with_etag(v).etag == Some(v),
    {
    }

    /// A record that answers for [`Metakey::Complete`] answers for every
    /// key and for every set of keys, whether they were set or not.
    pub proof fn lemma_complete_answers_for_all(self)
        requires
            self.has(Metakey::Complete),
        ensures
            forall|key: Metakey| self.has(key),
            forall|keys: Set<Metakey>| self.has_all(keys),
    {
    }

    /// Setting the mode twice is setting it to the second value once: the
    /// key set gains [`Metakey::Mode`] and nothing more, and the mode is the
    /// one written last.
    pub proof fn lemma_mode_set_twice(self, first: EntryMode, second: EntryMode)
        ensures
            self.with_mode(first).with_mode(second) == self.with_mode(second),
            self.with_mode(first).with_mode(second).bit == self.bit.insert(Metakey::Mode),
            self.with_mode(first).with_mode(second).mode == second,
    {
        assert(self.bit.insert(Metakey::Mode).insert(Metakey::Mode) =~= self.bit.insert(
            Metakey::Mode,
        ));
    }
}

/// The consuming and the in-place form of a setter end in equal records:
/// two records that both hold what `from` holds after the content length was
/// set to `v` compare equal.
pub proof fn lemma_setter_forms_agree(built: Metadata, set: Metadata, from: MetadataView, v: u64)
    requires
        built@ == from.with_content_length(v),
        set@ == from.with_content_length(v),
    ensures
        built.eq_spec(&set),
{
}

} // verus!
