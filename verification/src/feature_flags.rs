//! The set of optional kernel features.

use crate::bitset::lemma_positions_and;
use crate::bitset::lemma_positions_and_not;
use crate::bitset::lemma_positions_empty;
use crate::bitset::lemma_positions_injective;
use crate::bitset::lemma_positions_intersects;
use crate::bitset::lemma_positions_or;
use crate::bitset::lemma_positions_subset;
use crate::bitset::lemma_within;
use crate::bitset::lemma_within_is_subset;
use crate::bitset::positions;
use crate::bitset::within;
use crate::raw::UFFD_FEATURE_EVENT_FORK;
use crate::raw::UFFD_FEATURE_EVENT_REMAP;
use crate::raw::UFFD_FEATURE_EVENT_REMOVE;
use crate::raw::UFFD_FEATURE_EVENT_UNMAP;
use crate::raw::UFFD_FEATURE_MISSING_HUGETLBFS;
use crate::raw::UFFD_FEATURE_MISSING_SHMEM;
use crate::raw::UFFD_FEATURE_PAGEFAULT_FLAG_WP;
use crate::raw::UFFD_FEATURE_SIGBUS;
use crate::raw::UFFD_FEATURE_THREAD_ID;
use vstd::prelude::*;

verus! {

/// Every feature bit that this crate knows.
pub const FEATURE_MASK: u64 = 0x1FF;

/// Optional capabilities of the kernel: what a builder asks for, and what a
/// descriptor has enabled.
///
/// The view is the set of the positions of the feature bits, as
/// `<linux/userfaultfd.h>` numbers them.
#[derive(Clone, Copy, Debug, PartialEq, Eq, Hash, Structural)]
pub struct FeatureFlags {
    bits: u64,
}

impl View for FeatureFlags {
    type V = Set<nat>;

    open spec fn view(&self) -> Set<nat> {
        positions(self.spec_bits())
    }
}

impl FeatureFlags {
    #[verifier::type_invariant]
    spec fn only_known_bits(self) -> bool {
        within(self.bits, FEATURE_MASK)
    }

    /// The mask that the kernel uses for this set.
    pub closed spec fn spec_bits(&self) -> u64 {
        self.bits
    }

    /// The set of the known members that `bits` names.
    pub closed spec fn spec_from_bits_truncate(bits: u64) -> FeatureFlags {
        FeatureFlags { bits: bits & FEATURE_MASK }
    }

    /// The members of either set.
    pub open spec fn spec_union(self, other: FeatureFlags) -> FeatureFlags {
        Self::spec_from_bits_truncate(self.spec_bits() | other.spec_bits())
    }

    /// The members of both sets.
    pub open spec fn spec_intersection(self, other: FeatureFlags) -> FeatureFlags {
        Self::spec_from_bits_truncate(self.spec_bits() & other.spec_bits())
    }

    /// The members of this set that are not in `other`.
    pub open spec fn spec_difference(self, other: FeatureFlags) -> FeatureFlags {
        Self::spec_from_bits_truncate(self.spec_bits() & !other.spec_bits())
    }

    /// Whether every feature of `other` is in this set.
    pub open spec fn spec_contains(&self, other: FeatureFlags) -> bool {
        other@.subset_of(self@)
    }

    /// Whether this set holds every feature that `mask` names.
    pub open spec fn has(&self, mask: u64) -> bool {
        positions(mask).subset_of(self@)
    }

    /// Whether `bits` names no feature that this crate does not know.
    pub open spec fn recognizes(bits: u64) -> bool {
        positions(bits).subset_of(positions(FEATURE_MASK))
    }

    /// The mask of the set that a mask is cut down to.
    pub broadcast proof fn lemma_from_bits_truncate(bits: u64)
        ensures
            (#[trigger] Self::spec_from_bits_truncate(bits)).spec_bits() == bits & FEATURE_MASK,
            Self::spec_from_bits_truncate(bits)@ == positions(bits).intersect(positions(FEATURE_MASK)),
            Self::recognizes(bits) ==> Self::spec_from_bits_truncate(bits).spec_bits() == bits,
    {
        lemma_positions_and(bits, FEATURE_MASK);
        lemma_within_is_subset(bits, FEATURE_MASK);
        lemma_within(bits, bits, FEATURE_MASK);
    }

    /// Each named mask lies within the known bits.
    pub proof fn lemma_named_masks()
        ensures
            within(UFFD_FEATURE_PAGEFAULT_FLAG_WP, FEATURE_MASK),
            within(UFFD_FEATURE_EVENT_FORK, FEATURE_MASK),
            within(UFFD_FEATURE_EVENT_REMAP, FEATURE_MASK),
            within(UFFD_FEATURE_EVENT_REMOVE, FEATURE_MASK),
            within(UFFD_FEATURE_MISSING_HUGETLBFS, FEATURE_MASK),
            within(UFFD_FEATURE_MISSING_SHMEM, FEATURE_MASK),
            within(UFFD_FEATURE_EVENT_UNMAP, FEATURE_MASK),
            within(UFFD_FEATURE_SIGBUS, FEATURE_MASK),
            within(UFFD_FEATURE_THREAD_ID, FEATURE_MASK),
    {
        assert(0x001u64 & !0x1FFu64 == 0 && 0x002u64 & !0x1FFu64 == 0 && 0x004u64 & !0x1FFu64 == 0
            && 0x008u64 & !0x1FFu64 == 0 && 0x010u64 & !0x1FFu64 == 0 && 0x020u64 & !0x1FFu64 == 0
            && 0x040u64 & !0x1FFu64 == 0 && 0x080u64 & !0x1FFu64 == 0 && 0x100u64 & !0x1FFu64
            == 0) by (bit_vector);
    }

    fn named(mask: u64) -> (r: FeatureFlags)
        requires
            within(mask, FEATURE_MASK),
        ensures
            r.spec_bits() == mask,
            r@ == positions(mask),
    {
        FeatureFlags { bits: mask }
    }

    /// The empty set.
    pub fn empty() -> (r: FeatureFlags)
        ensures
            r.spec_bits() == 0,
            r@ == Set::<nat>::empty(),
    {
        proof {
            lemma_positions_empty(0);
            lemma_within(0, 0, FEATURE_MASK);
        }
        FeatureFlags { bits: 0 }
    }

    /// The set of every known feature.
    pub fn all() -> (r: FeatureFlags)
        ensures
            r.spec_bits() == FEATURE_MASK,
            r@ == positions(FEATURE_MASK),
    {
        proof {
            lemma_within(0, 0, FEATURE_MASK);
        }
        FeatureFlags { bits: FEATURE_MASK }
    }

    /// Page-fault messages tell write-protect faults from missing ones.
    pub fn pagefault_flag_wp() -> (r: FeatureFlags)
        ensures
            r.spec_bits() == UFFD_FEATURE_PAGEFAULT_FLAG_WP,
            r@ == positions(UFFD_FEATURE_PAGEFAULT_FLAG_WP),
    {
        proof {
            Self::lemma_named_masks();
        }
        Self::named(UFFD_FEATURE_PAGEFAULT_FLAG_WP)
    }

    /// Fork notifications.
    pub fn event_fork() -> (r: FeatureFlags)
        ensures
            r.spec_bits() == UFFD_FEATURE_EVENT_FORK,
            r@ == positions(UFFD_FEATURE_EVENT_FORK),
    {
        proof {
            Self::lemma_named_masks();
        }
        Self::named(UFFD_FEATURE_EVENT_FORK)
    }

    /// Remap notifications.
    pub fn event_remap() -> (r: FeatureFlags)
        ensures
            r.spec_bits() == UFFD_FEATURE_EVENT_REMAP,
            r@ == positions(UFFD_FEATURE_EVENT_REMAP),
    {
        proof {
            Self::lemma_named_masks();
        }
        Self::named(UFFD_FEATURE_EVENT_REMAP)
    }

    /// Remove notifications.
    pub fn event_remove() -> (r: FeatureFlags)
        ensures
            r.spec_bits() == UFFD_FEATURE_EVENT_REMOVE,
            r@ == positions(UFFD_FEATURE_EVENT_REMOVE),
    {
        proof {
            Self::lemma_named_masks();
        }
        Self::named(UFFD_FEATURE_EVENT_REMOVE)
    }

    /// Missing faults on hugetlbfs mappings.
    pub fn missing_hugetlbfs() -> (r: FeatureFlags)
        ensures
            r.spec_bits() == UFFD_FEATURE_MISSING_HUGETLBFS,
            r@ == positions(UFFD_FEATURE_MISSING_HUGETLBFS),
    {
        proof {
            Self::lemma_named_masks();
        }
        Self::named(UFFD_FEATURE_MISSING_HUGETLBFS)
    }

    /// Missing faults on shared-memory mappings.
    pub fn missing_shmem() -> (r: FeatureFlags)
        ensures
            r.spec_bits() == UFFD_FEATURE_MISSING_SHMEM,
            r@ == positions(UFFD_FEATURE_MISSING_SHMEM),
    {
        proof {
            Self::lemma_named_masks();
        }
        Self::named(UFFD_FEATURE_MISSING_SHMEM)
    }

    /// Unmap notifications.
    pub fn event_unmap() -> (r: FeatureFlags)
        ensures
            r.spec_bits() == UFFD_FEATURE_EVENT_UNMAP,
            r@ == positions(UFFD_FEATURE_EVENT_UNMAP),
    {
        proof {
            Self::lemma_named_masks();
        }
        Self::named(UFFD_FEATURE_EVENT_UNMAP)
    }

    /// Faults raise `SIGBUS` instead of a message.
    pub fn sigbus() -> (r: FeatureFlags)
        ensures
            r.spec_bits() == UFFD_FEATURE_SIGBUS,
            r@ == positions(UFFD_FEATURE_SIGBUS),
    {
        proof {
            Self::lemma_named_masks();
        }
        Self::named(UFFD_FEATURE_SIGBUS)
    }

    /// Page-fault messages carry the faulting thread's id.
    pub fn thread_id() -> (r: FeatureFlags)
        ensures
            r.spec_bits() == UFFD_FEATURE_THREAD_ID,
            r@ == positions(UFFD_FEATURE_THREAD_ID),
    {
        proof {
            Self::lemma_named_masks();
        }
        Self::named(UFFD_FEATURE_THREAD_ID)
    }


    /// The mask that the kernel uses for this set.
    #[verifier::when_used_as_spec(spec_bits)]
    pub fn bits(&self) -> (r: u64)
        ensures
            r == self.spec_bits(),
            Self::recognizes(r),
    {
        proof {
            use_type_invariant(self);
            lemma_within_is_subset(self.bits, FEATURE_MASK);
        }
        self.bits
    }

    /// The set that a mask stands for, unless the mask has a bit that stands
    /// for no known feature.
    pub fn from_bits(bits: u64) -> (r: Option<FeatureFlags>)
        ensures
            Self::recognizes(bits) ==> r is Some && r->Some_0.spec_bits() == bits,
            !Self::recognizes(bits) ==> r is None,
    {
        proof {
            lemma_within_is_subset(bits, FEATURE_MASK);
        }
        if bits & !FEATURE_MASK == 0 {
            Some(FeatureFlags { bits })
        } else {
            None
        }
    }

    /// The known members among those that a mask names.
    #[verifier::when_used_as_spec(spec_from_bits_truncate)]
    pub fn from_bits_truncate(bits: u64) -> (r: FeatureFlags)
        ensures
            r == Self::spec_from_bits_truncate(bits),
            r.spec_bits() == bits & FEATURE_MASK,
            r@ == positions(bits).intersect(positions(FEATURE_MASK)),
    {
        proof {
            lemma_positions_and(bits, FEATURE_MASK);
            lemma_within(bits, bits, FEATURE_MASK);
        }
        FeatureFlags { bits: bits & FEATURE_MASK }
    }

    /// Whether the set has no member.
    pub fn is_empty(&self) -> (r: bool)
        ensures
            r == (self@ == Set::<nat>::empty()),
    {
        proof {
            lemma_positions_empty(self.bits);
        }
        self.bits == 0
    }

    /// Whether every known feature is in the set.
    pub fn is_all(&self) -> (r: bool)
        ensures
            r == (self@ == positions(FEATURE_MASK)),
    {
        proof {
            if self@ == positions(FEATURE_MASK) {
                lemma_positions_injective(self.bits, FEATURE_MASK);
            }
        }
        self.bits == FEATURE_MASK
    }

    /// Whether the two sets share a member.
    pub fn intersects(&self, other: FeatureFlags) -> (r: bool)
        ensures
            r == !self@.disjoint(other@),
    {
        proof {
            lemma_positions_intersects(self.bits, other.bits);
        }
        self.bits & other.bits != 0
    }

    /// Whether every feature of `other` is in this set.
    #[verifier::when_used_as_spec(spec_contains)]
    pub fn contains(&self, other: FeatureFlags) -> (r: bool)
        ensures
            r == self.spec_contains(other),
    {
        proof {
            lemma_positions_subset(self.bits, other.bits);
        }
        self.bits & other.bits == other.bits
    }

    /// The members of either set.
    #[verifier::when_used_as_spec(spec_union)]
    pub fn union(self, other: FeatureFlags) -> (r: FeatureFlags)
        ensures
            r == self.spec_union(other),
            r@ == self@.union(other@),
            r.spec_bits() == self.spec_bits() | other.spec_bits(),
    {
        let a = self.bits;
        let b = other.bits;
        proof {
            use_type_invariant(self);
            use_type_invariant(other);
            lemma_positions_or(a, b);
            lemma_within(a, b, FEATURE_MASK);
            lemma_within(a | b, a | b, FEATURE_MASK);
        }
        FeatureFlags { bits: a | b }
    }

    /// The members of both sets.
    #[verifier::when_used_as_spec(spec_intersection)]
    pub fn intersection(self, other: FeatureFlags) -> (r: FeatureFlags)
        ensures
            r == self.spec_intersection(other),
            r@ == self@.intersect(other@),
            r.spec_bits() == self.spec_bits() & other.spec_bits(),
    {
        let a = self.bits;
        let b = other.bits;
        proof {
            use_type_invariant(self);
            lemma_positions_and(a, b);
            lemma_within(a, b, FEATURE_MASK);
            lemma_within(a & b, a & b, FEATURE_MASK);
        }
        FeatureFlags { bits: a & b }
    }

    /// The members of this set that are not in `other`.
    #[verifier::when_used_as_spec(spec_difference)]
    pub fn difference(self, other: FeatureFlags) -> (r: FeatureFlags)
        ensures
            r == self.spec_difference(other),
            r@ == self@.difference(other@),
            r.spec_bits() == self.spec_bits() & !other.spec_bits(),
    {
        let a = self.bits;
        let b = other.bits;
        proof {
            use_type_invariant(self);
            lemma_positions_and_not(a, b);
            lemma_within(a, b, FEATURE_MASK);
            lemma_within(a & !b, a & !b, FEATURE_MASK);
        }
        FeatureFlags { bits: a & !b }
    }

    /// Adds the members of `other` to this set.
    pub fn insert(&mut self, other: FeatureFlags)
        ensures
            *final(self) == old(self).spec_union(other),
            final(self)@ == old(self)@.union(other@),
    {
        *self = self.union(other);
    }

    /// Takes the members of `other` out of this set.
    pub fn remove(&mut self, other: FeatureFlags)
        ensures
            *final(self) == old(self).spec_difference(other),
            final(self)@ == old(self)@.difference(other@),
    {
        *self = self.difference(other);
    }
}

} // verus!
