//! The fault classes that a range is registered for.

use crate::bitset::lemma_positions_and;
use crate::bitset::lemma_positions_and_not;
use crate::bitset::lemma_positions_empty;
use crate::bitset::lemma_positions_injective;
use crate::bitset::lemma_positions_intersects;
use crate::bitset::lemma_positions_or;
use crate::bitset::lemma_positions_subset;
use crate::bitset::lemma_within;
use crate::bitset::lemma_within_is_subset;
use crate::bitset::positions;
use crate::bitset::within;
use crate::raw::UFFDIO_REGISTER_MODE_MISSING;
use crate::raw::UFFDIO_REGISTER_MODE_WP;
use vstd::prelude::*;

verus! {

/// Every register-mode bit that this crate knows.
pub const MODE_MASK: u64 = 0x3;

/// The registration mode used when registering an address range.
///
/// The view is the set of the positions of the mode bits.
#[derive(Clone, Copy, Debug, PartialEq, Eq, Hash, Structural)]
pub struct RegisterMode {
    bits: u64,
}

impl View for RegisterMode {
    type V = Set<nat>;

    open spec fn view(&self) -> Set<nat> {
        positions(self.spec_bits())
    }
}

impl RegisterMode {
    #[verifier::type_invariant]
    spec fn only_known_bits(self) -> bool {
        within(self.bits, MODE_MASK)
    }

    /// The mask that the kernel uses for this set.
    pub closed spec fn spec_bits(&self) -> u64 {
        self.bits
    }

    /// The set of the known members that `bits` names.
    pub closed spec fn spec_from_bits_truncate(bits: u64) -> RegisterMode {
        RegisterMode { bits: bits & MODE_MASK }
    }

    /// The members of either set.
    pub open spec fn spec_union(self, other: RegisterMode) -> RegisterMode {
        Self::spec_from_bits_truncate(self.spec_bits() | other.spec_bits())
    }

    /// The members of both sets.
    pub open spec fn spec_intersection(self, other: RegisterMode) -> RegisterMode {
        Self::spec_from_bits_truncate(self.spec_bits() & other.spec_bits())
    }

    /// The members of this set that are not in `other`.
    pub open spec fn spec_difference(self, other: RegisterMode) -> RegisterMode {
        Self::spec_from_bits_truncate(self.spec_bits() & !other.spec_bits())
    }

    /// Whether every mode of `other` is in this set.
    pub open spec fn spec_contains(&self, other: RegisterMode) -> bool {
        other@.subset_of(self@)
    }

    /// Whether `bits` names no mode that this crate does not know.
    pub open spec fn recognizes(bits: u64) -> bool {
        positions(bits).subset_of(positions(MODE_MASK))
    }

    /// Each named mask lies within the known bits.
    pub proof fn lemma_named_masks()
        ensures
            within(UFFDIO_REGISTER_MODE_MISSING, MODE_MASK),
            within(UFFDIO_REGISTER_MODE_WP, MODE_MASK),
    {
        crate::linux5_7::lemma_register_modes();
        assert(0x1u64 & !0x3u64 == 0 && 0x2u64 & !0x3u64 == 0) by (bit_vector);
    }

    fn named(mask: u64) -> (r: RegisterMode)
        requires
            within(mask, MODE_MASK),
        ensures
            r.spec_bits() == mask,
            r@ == positions(mask),
    {
        RegisterMode { bits: mask }
    }

    /// The empty set.
    pub fn empty() -> (r: RegisterMode)
        ensures
            r.spec_bits() == 0,
            r@ == Set::<nat>::empty(),
    {
        proof {
            lemma_positions_empty(0);
            lemma_within(0, 0, MODE_MASK);
        }
        RegisterMode { bits: 0 }
    }

    /// The set of every known mode.
    pub fn all() -> (r: RegisterMode)
        ensures
            r.spec_bits() == MODE_MASK,
            r@ == positions(MODE_MASK),
    {
        proof {
            lemma_within(0, 0, MODE_MASK);
        }
        RegisterMode { bits: MODE_MASK }
    }

    /// Registers the range for missing page faults.
    pub fn missing() -> (r: RegisterMode)
        ensures
            r.spec_bits() == UFFDIO_REGISTER_MODE_MISSING,
            r@ == positions(UFFDIO_REGISTER_MODE_MISSING),
    {
        proof {
            Self::lemma_named_masks();
        }
        Self::named(UFFDIO_REGISTER_MODE_MISSING)
    }

    /// Registers the range for write faults.
    pub fn write_protect() -> (r: RegisterMode)
        ensures
            r.spec_bits() == UFFDIO_REGISTER_MODE_WP,
            r@ == positions(UFFDIO_REGISTER_MODE_WP),
    {
        proof {
            Self::lemma_named_masks();
        }
        Self::named(UFFDIO_REGISTER_MODE_WP)
    }


    /// The mask that the kernel uses for this set.
    #[verifier::when_used_as_spec(spec_bits)]
    pub fn bits(&self) -> (r: u64)
        ensures
            r == self.spec_bits(),
            Self::recognizes(r),
    {
        proof {
            use_type_invariant(self);
            lemma_within_is_subset(self.bits, MODE_MASK);
        }
        self.bits
    }

    /// The set that a mask stands for, unless the mask has a bit that stands
    /// for no known mode.
    pub fn from_bits(bits: u64) -> (r: Option<RegisterMode>)
        ensures
            Self::recognizes(bits) ==> r is Some && r->Some_0.spec_bits() == bits,
            !Self::recognizes(bits) ==> r is None,
    {
        proof {
            lemma_within_is_subset(bits, MODE_MASK);
        }
        if bits & !MODE_MASK == 0 {
            Some(RegisterMode { bits })
        } else {
            None
        }
    }

    /// The known members among those that a mask names.
    #[verifier::when_used_as_spec(spec_from_bits_truncate)]
    pub fn from_bits_truncate(bits: u64) -> (r: RegisterMode)
        ensures
            r == Self::spec_from_bits_truncate(bits),
            r.spec_bits() == bits & MODE_MASK,
            r@ == positions(bits).intersect(positions(MODE_MASK)),
    {
        proof {
            lemma_positions_and(bits, MODE_MASK);
            lemma_within(bits, bits, MODE_MASK);
        }
        RegisterMode { bits: bits & MODE_MASK }
    }

    /// Whether the set has no member.
    pub fn is_empty(&self) -> (r: bool)
        ensures
            r == (self@ == Set::<nat>::empty()),
    {
        proof {
            lemma_positions_empty(self.bits);
        }
        self.bits == 0
    }

    /// Whether every known mode is in the set.
    pub fn is_all(&self) -> (r: bool)
        ensures
            r == (self@ == positions(MODE_MASK)),
    {
        proof {
            if self@ == positions(MODE_MASK) {
                lemma_positions_injective(self.bits, MODE_MASK);
            }
        }
        self.bits == MODE_MASK
    }

    /// Whether the two sets share a member.
    pub fn intersects(&self, other: RegisterMode) -> (r: bool)
        ensures
            r == !self@.disjoint(other@),
    {
        proof {
            lemma_positions_intersects(self.bits, other.bits);
        }
        self.bits & other.bits != 0
    }

    /// Whether every mode of `other` is in this set.
    #[verifier::when_used_as_spec(spec_contains)]
    pub fn contains(&self, other: RegisterMode) -> (r: bool)
        ensures
            r == self.spec_contains(other),
    {
        proof {
            lemma_positions_subset(self.bits, other.bits);
        }
        self.bits & other.bits == other.bits
    }

    /// The members of either set.
    #[verifier::when_used_as_spec(spec_union)]
    pub fn union(self, other: RegisterMode) -> (r: RegisterMode)
        ensures
            r == self.spec_union(other),
            r@ == self@.union(other@),
            r.spec_bits() == self.spec_bits() | other.spec_bits(),
    {
        let a = self.bits;
        let b = other.bits;
        proof {
            use_type_invariant(self);
            use_type_invariant(other);
            lemma_positions_or(a, b);
            lemma_within(a, b, MODE_MASK);
            lemma_within(a | b, a | b, MODE_MASK);
        }
        RegisterMode { bits: a | b }
    }

    /// The members of both sets.
    #[verifier::when_used_as_spec(spec_intersection)]
    pub fn intersection(self, other: RegisterMode) -> (r: RegisterMode)
        ensures
            r == self.spec_intersection(other),
            r@ == self@.intersect(other@),
            r.spec_bits() == self.spec_bits() & other.spec_bits(),
    {
        let a = self.bits;
        let b = other.bits;
        proof {
            use_type_invariant(self);
            lemma_positions_and(a, b);
            lemma_within(a, b, MODE_MASK);
            lemma_within(a & b, a & b, MODE_MASK);
        }
        RegisterMode { bits: a & b }
    }

    /// The members of this set that are not in `other`.
    #[verifier::when_used_as_spec(spec_difference)]
    pub fn difference(self, other: RegisterMode) -> (r: RegisterMode)
        ensures
            r == self.spec_difference(other),
            r@ == self@.difference(other@),
            r.spec_bits() == self.spec_bits() & !other.spec_bits(),
    {
        let a = self.bits;
        let b = other.bits;
        proof {
            use_type_invariant(self);
            lemma_positions_and_not(a, b);
            lemma_within(a, b, MODE_MASK);
            lemma_within(a & !b, a & !b, MODE_MASK);
        }
        RegisterMode { bits: a & !b }
    }

    /// Adds the members of `other` to this set.
    pub fn insert(&mut self, other: RegisterMode)
        ensures
            *final(self) == old(self).spec_union(other),
            final(self)@ == old(self)@.union(other@),
    {
        *self = self.union(other);
    }

    /// Takes the members of `other` out of this set.
    pub fn remove(&mut self, other: RegisterMode)
        ensures
            *final(self) == old(self).spec_difference(other),
            final(self)@ == old(self)@.difference(other@),
    {
        *self = self.difference(other);
    }
}

} // verus!
