//! Attribute keys and sets of them.
//!
//! A [`MetakeySet`] is a machine word with one bit per [`Metakey`]. Contracts
//! never speak of the bits: they speak of the view, a `Set<Metakey>`.

use vstd::prelude::*;
use vstd::std_specs::convert::FromSpecImpl;

verus! {

/// Names one attribute of a metadata record, or, with
/// [`Metakey::Complete`], all of them at once.
#[derive(Debug, Clone, Copy, PartialEq, Eq, Structural)]
pub enum Metakey {
    /// Sentinel: a set that holds it answers for every key.
    Complete,
    /// Key for the entry mode.
    Mode,
    /// Key for cache control.
    CacheControl,
    /// Key for content disposition.
    ContentDisposition,
    /// Key for content length.
    ContentLength,
    /// Key for content md5.
    ContentMd5,
    /// Key for content range.
    ContentRange,
    /// Key for content type.
    ContentType,
    /// Key for etag.
    Etag,
    /// Key for the time of last modification.
    LastModified,
    /// Key for version.
    Version,
}

/// The bits that stand for a key: the low eleven.
const KEY_BITS: u64 = 0x7ff;

/// How many keys there are.
const KEY_COUNT: u64 = 11;

impl Metakey {
    /// Position of the key in the enumeration, counted from zero.
    pub open spec fn index(self) -> u64 {
        match self {
            Metakey::Complete => 0,
            Metakey::Mode => 1,
            Metakey::CacheControl => 2,
            Metakey::ContentDisposition => 3,
            Metakey::ContentLength => 4,
            Metakey::ContentMd5 => 5,
            Metakey::ContentRange => 6,
            Metakey::ContentType => 7,
            Metakey::Etag => 8,
            Metakey::LastModified => 9,
            Metakey::Version => 10,
        }
    }

    /// The word with only this key's bit set: the bit at the key's position.
    spec fn mask(self) -> u64 {
        1u64 << self.index()
    }

    /// The key at position `i`.
    fn at(i: u64) -> (r: Metakey)
        requires
            i < KEY_COUNT,
        ensures
            r.index() == i,
    {
        if i == 0 {
            Metakey::Complete
        } else if i == 1 {
            Metakey::Mode
        } else if i == 2 {
            Metakey::CacheControl
        } else if i == 3 {
            Metakey::ContentDisposition
        } else if i == 4 {
            Metakey::ContentLength
        } else if i == 5 {
            Metakey::ContentMd5
        } else if i == 6 {
            Metakey::ContentRange
        } else if i == 7 {
            Metakey::ContentType
        } else if i == 8 {
            Metakey::Etag
        } else if i == 9 {
            Metakey::LastModified
        } else {
            Metakey::Version
        }
    }

    /// The word with only this key's bit set.
    fn bit(self) -> (r: u64)
        ensures
            r == self.mask(),
            r & !KEY_BITS == 0,
    {
        let i: u64 = match self {
            Metakey::Complete => 0,
            Metakey::Mode => 1,
            Metakey::CacheControl => 2,
            Metakey::ContentDisposition => 3,
            Metakey::ContentLength => 4,
            Metakey::ContentMd5 => 5,
            Metakey::ContentRange => 6,
            Metakey::ContentType => 7,
            Metakey::Etag => 8,
            Metakey::LastModified => 9,
            Metakey::Version => 10,
        };
        assert((1u64 << i) & !KEY_BITS == 0) by (bit_vector)
            requires
                i < KEY_COUNT,
        ;
        1u64 << i
    }
}

/// Whether a set with the members `keys` answers for `key`: the key is a
/// member, or the sentinel is.
pub open spec fn covers(keys: Set<Metakey>, key: Metakey) -> bool {
    keys.contains(key) || keys.contains(Metakey::Complete)
}

/// Whether a set with the members `keys` answers for all of `wanted`: the
/// sentinel is a member, or every wanted key is.
pub open spec fn covers_all(keys: Set<Metakey>, wanted: Set<Metakey>) -> bool {
    keys.contains(Metakey::Complete) || wanted.subset_of(keys)
}

/// A set of attribute keys.
///
/// The view is the set of members. [`Metakey::Complete`] is stored like any
/// other key; it is the membership tests that treat it as standing for all.
#[derive(Debug, Clone, Copy, PartialEq, Eq, Structural)]
pub struct MetakeySet {
    bits: u64,
}

impl View for MetakeySet {
    type V = Set<Metakey>;

    closed spec fn view(&self) -> Set<Metakey> {
        Set::new(|k: Metakey| self.bits & k.mask() != 0)
    }
}

/// Two one-bit words overlap exactly when they are the same word.
proof fn lemma_one_bit_words(i: u64, j: u64)
    by (bit_vector)
    requires
        i < 64,
        j < 64,
    ensures
        ((1u64 << i) & (1u64 << j) != 0) <==> i == j,
{
}

/// A word of key bits lies within another exactly when each key whose bit it
/// has set has its bit set in the other too.
proof fn lemma_within(a: u64, b: u64)
    requires
        b & !KEY_BITS == 0,
    ensures
        (a & b == b) <==> (forall|k: Metakey| b & #[trigger] k.mask() != 0 ==> a & k.mask() != 0),
{
    if a & b == b {
        assert forall|k: Metakey| b & #[trigger] k.mask() != 0 implies a & k.mask() != 0 by {
            let m = k.mask();
            assert(b & m != 0 ==> a & m != 0) by (bit_vector)
                requires
                    a & b == b,
            ;
        }
    }
    if forall|k: Metakey| b & #[trigger] k.mask() != 0 ==> a & k.mask() != 0 {
        assert(b & Metakey::Complete.mask() != 0 ==> a & Metakey::Complete.mask() != 0);
        assert(b & Metakey::Mode.mask() != 0 ==> a & Metakey::Mode.mask() != 0);
        assert(b & Metakey::CacheControl.mask() != 0 ==> a & Metakey::CacheControl.mask() != 0);
        assert(b & Metakey::ContentDisposition.mask() != 0 ==> a
            & Metakey::ContentDisposition.mask() != 0);
        assert(b & Metakey::ContentLength.mask() != 0 ==> a & Metakey::ContentLength.mask() != 0);
        assert(b & Metakey::ContentMd5.mask() != 0 ==> a & Metakey::ContentMd5.mask() != 0);
        assert(b & Metakey::ContentRange.mask() != 0 ==> a & Metakey::ContentRange.mask() != 0);
        assert(b & Metakey::ContentType.mask() != 0 ==> a & Metakey::ContentType.mask() != 0);
        assert(b & Metakey::Etag.mask() != 0 ==> a & Metakey::Etag.mask() != 0);
        assert(b & Metakey::LastModified.mask() != 0 ==> a & Metakey::LastModified.mask() != 0);
        assert(b & Metakey::Version.mask() != 0 ==> a & Metakey::Version.mask() != 0);
        assert(a & b == b) by (bit_vector)
            requires
                b & !KEY_BITS == 0,
                b & (1u64 << 0u64) != 0 ==> a & (1u64 << 0u64) != 0,
                b & (1u64 << 1u64) != 0 ==> a & (1u64 << 1u64) != 0,
                b & (1u64 << 2u64) != 0 ==> a & (1u64 << 2u64) != 0,
                b & (1u64 << 3u64) != 0 ==> a & (1u64 << 3u64) != 0,
                b & (1u64 << 4u64) != 0 ==> a & (1u64 << 4u64) != 0,
                b & (1u64 << 5u64) != 0 ==> a & (1u64 << 5u64) != 0,
                b & (1u64 << 6u64) != 0 ==> a & (1u64 << 6u64) != 0,
                b & (1u64 << 7u64) != 0 ==> a & (1u64 << 7u64) != 0,
                b & (1u64 << 8u64) != 0 ==> a & (1u64 << 8u64) != 0,
                b & (1u64 << 9u64) != 0 ==> a & (1u64 << 9u64) != 0,
                b & (1u64 << 10u64) != 0 ==> a & (1u64 << 10u64) != 0,
        ;
    }
}

impl MetakeySet {
    /// Only bits that stand for a key are ever set.
    #[verifier::type_invariant]
    pub closed spec fn wf(self) -> bool {
        self.bits & !KEY_BITS == 0
    }

    /// The set whose only member is `key`.
    pub closed spec fn single(key: Metakey) -> MetakeySet {
        MetakeySet { bits: key.mask() }
    }

    /// [`MetakeySet::single`] has the one member it is named for.
    pub proof fn lemma_single(key: Metakey)
        ensures
            Self::single(key)@ == set![key],
            Self::single(key).wf(),
    {
        assert forall|k: Metakey| Self::single(key)@.contains(k) == (k == key) by {
            lemma_one_bit_words(key.index(), k.index());
        }
        assert(Self::single(key)@ =~= set![key]);
        let i = key.index();
        assert((1u64 << i) & !KEY_BITS == 0) by (bit_vector)
            requires
                i < KEY_COUNT,
        ;
    }

    /// The set with no keys.
    pub fn empty() -> (r: MetakeySet)
        ensures
            r@ == Set::<Metakey>::empty(),
    {
        assert(0u64 & !KEY_BITS == 0) by (bit_vector);
        let r = MetakeySet { bits: 0 };
        proof {
            assert forall|k: Metakey| !r@.contains(k) by {
                let m = k.mask();
                assert(0u64 & m == 0) by (bit_vector);
            }
            assert(r@ =~= Set::<Metakey>::empty());
        }
        r
    }

    /// The set that holds the keys of both.
    pub fn union(self, other: MetakeySet) -> (r: MetakeySet)
        ensures
            r@ == self@.union(other@),
    {
        proof {
            use_type_invariant(self);
            use_type_invariant(other);
        }
        let a: u64 = self.bits;
        let b: u64 = other.bits;
        assert((a | b) & !KEY_BITS == 0) by (bit_vector)
            requires
                a & !KEY_BITS == 0,
                b & !KEY_BITS == 0,
        ;
        let r = MetakeySet { bits: a | b };
        proof {
            assert forall|k: Metakey| r@.contains(k) == (self@.contains(k) || other@.contains(k)) by {
                let m = k.mask();
                assert(((a | b) & m != 0) == (a & m != 0 || b & m != 0)) by (bit_vector);
            }
            assert(r@ =~= self@.union(other@));
        }
        r
    }

    /// Adds `key` to the set. Adding a member again changes nothing.
    pub fn insert(&mut self, key: Metakey)
        ensures
            final(self)@ == old(self)@.insert(key),
    {
        let with_key = self.union(MetakeySet::from(key));
        assert(with_key@ =~= self@.insert(key));
        *self = with_key;
    }

    /// Whether the set answers for `key`: `key` is a member, or
    /// [`Metakey::Complete`] is.
    pub fn contains(self, key: Metakey) -> (r: bool)
        ensures
            r == covers(self@, key),
    {
        (self.bits & Metakey::Complete.bit()) != 0 || (self.bits & key.bit()) != 0
    }

    /// The members of the set, each once, in the order of the enumeration.
    pub fn keys(self) -> (r: Vec<Metakey>)
        ensures
            forall|k: Metakey| r@.contains(k) <==> self@.contains(k),
            forall|i: int, j: int| 0 <= i < j < r.len() ==> r[i].index() < r[j].index(),
    {
        let mut members: Vec<Metakey> = Vec::new();
        let mut i: u64 = 0;
        while i < KEY_COUNT
            invariant
                i <= KEY_COUNT,
                forall|k: Metakey|
                    members@.contains(k) <==> (self@.contains(k) && k.index() < i),
                forall|a: int, b: int|
                    0 <= a < b < members.len() ==> members[a].index() < members[b].index(),
                forall|a: int| 0 <= a < members.len() ==> members[a].index() < i,
            decreases KEY_COUNT - i,
        {
            let key = Metakey::at(i);
            let ghost before = members@;
            if (self.bits & key.bit()) != 0 {
                members.push(key);
                assert(members@[before.len() as int] == key);
            }
            assert forall|k: Metakey| members@.contains(k) <==> (self@.contains(k) && k.index() < i
                + 1) by {
                if k.index() == i {
                    assert(k == key);
                }
                if before.contains(k) {
                    let at = choose|at: int| 0 <= at < before.len() && before[at] == k;
                    assert(members@[at] == k);
                }
                if members@.contains(k) && k != key {
                    let at = choose|at: int| 0 <= at < members@.len() && members@[at] == k;
                    assert(before[at] == k);
                    assert(before.contains(k));
                }
            }
            i += 1;
        }
        members
    }

    /// Whether the set answers for every key of `other`:
    /// [`Metakey::Complete`] is a member, or all of `other`'s keys are.
    pub fn contains_all(self, other: MetakeySet) -> (r: bool)
        ensures
            r == covers_all(self@, other@),
    {
        proof {
            use_type_invariant(other);
            lemma_within(self.bits, other.bits);
            if other@.subset_of(self@) {
                assert forall|k: Metakey| other.bits & #[trigger] k.mask() != 0 implies self.bits
                    & k.mask() != 0 by {
                    assert(other@.contains(k));
                }
            }
            if self.bits & other.bits == other.bits {
                assert forall|k: Metakey| other@.contains(k) implies self@.contains(k) by {
                    assert(other.bits & k.mask() != 0);
                }
            }
        }
        (self.bits & Metakey::Complete.bit()) != 0 || (self.bits & other.bits) == other.bits
    }

    /// Two sets are the same value exactly when they have the same members.
    pub proof fn lemma_equal_by_members(a: MetakeySet, b: MetakeySet)
        requires
            a.wf(),
            b.wf(),
        ensures
            (a == b) <==> (a@ == b@),
    {
        if a@ == b@ {
            assert forall|k: Metakey| a.bits & #[trigger] k.mask() != 0 implies b.bits & k.mask()
                != 0 by {
                assert(a@.contains(k));
            }
            assert forall|k: Metakey| b.bits & #[trigger] k.mask() != 0 implies a.bits & k.mask()
                != 0 by {
                assert(b@.contains(k));
            }
            lemma_within(a.bits, b.bits);
            lemma_within(b.bits, a.bits);
            let x = a.bits;
            let y = b.bits;
            assert(x == y) by (bit_vector)
                requires
                    x & y == y,
                    y & x == x,
            ;
        }
    }
}

/// A union answers for a key exactly when one of its parts does.
pub proof fn lemma_union_covers(a: Set<Metakey>, b: Set<Metakey>, key: Metakey)
    ensures
        covers(a.union(b), key) == (covers(a, key) || covers(b, key)),
{
}

/// A set that answers for [`Metakey::Complete`] answers for every key, and
/// for every set of keys.
pub proof fn lemma_complete_covers(keys: Set<Metakey>)
    requires
        covers(keys, Metakey::Complete),
    ensures
        forall|key: Metakey| covers(keys, key),
        forall|wanted: Set<Metakey>| covers_all(keys, wanted),
{
}

/// Answering for a one-key set is answering for that key.
pub proof fn lemma_covers_single(keys: Set<Metakey>, key: Metakey)
    ensures
        covers_all(keys, set![key]) == covers(keys, key),
{
    if keys.contains(key) {
        assert(set![key].subset_of(keys));
    }
    if set![key].subset_of(keys) {
        assert(set![key].contains(key));
    }
}

impl From<Metakey> for MetakeySet {
    /// The set whose only member is `key`.
    fn from(key: Metakey) -> (r: MetakeySet)
        ensures
            r@ == set![key],
            // Follows from the first clause; said so that it is at hand
            // where a caller asks what the set is a part of.
            r@.contains(key),
    {
        proof {
            MetakeySet::lemma_single(key);
        }
        MetakeySet { bits: key.bit() }
    }
}

impl FromSpecImpl<Metakey> for MetakeySet {
    open spec fn obeys_from_spec() -> bool {
        true
    }

    open spec fn from_spec(key: Metakey) -> MetakeySet {
        MetakeySet::single(key)
    }
}

} // verus!
