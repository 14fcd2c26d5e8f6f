//! The set of control calls that the kernel accepts.

use crate::bitset::lemma_positions_and;
use crate::bitset::lemma_positions_and_not;
use crate::bitset::lemma_positions_empty;
use crate::bitset::lemma_positions_injective;
use crate::bitset::lemma_positions_intersects;
use crate::bitset::lemma_positions_or;
use crate::bitset::lemma_positions_single;
use crate::bitset::lemma_positions_subset;
use crate::bitset::lemma_within;
use crate::bitset::lemma_within_is_subset;
use crate::bitset::positions;
use crate::bitset::within;
use crate::raw::_UFFDIO_API;
use crate::raw::_UFFDIO_COPY;
use crate::raw::_UFFDIO_REGISTER;
use crate::raw::_UFFDIO_UNREGISTER;
use crate::raw::_UFFDIO_WAKE;
use crate::raw::_UFFDIO_WRITEPROTECT;
use crate::raw::_UFFDIO_ZEROPAGE;
use vstd::prelude::*;

verus! {

/// Every bit that stands for a control call this crate knows:
/// register, unregister, wake, copy, zero-page, write-protect and API.
pub const IOCTL_MASK: u64 = 0x8000_0000_0000_005F;

/// Which control calls are available, for a descriptor or for a registered
/// range.
///
/// The kernel reports them as a mask with bit `n` set for the call numbered
/// `n`.  The view is the set of those numbers.
#[derive(Clone, Copy, Debug, PartialEq, Eq, Hash, Structural)]
pub struct IoctlFlags {
    bits: u64,
}

impl View for IoctlFlags {
    type V = Set<nat>;

    open spec fn view(&self) -> Set<nat> {
        positions(self.spec_bits())
    }
}

impl IoctlFlags {
    #[verifier::type_invariant]
    spec fn only_known_bits(self) -> bool {
        within(self.bits, IOCTL_MASK)
    }

    /// The mask that the kernel uses for this set.
    pub closed spec fn spec_bits(&self) -> u64 {
        self.bits
    }

    /// The set of the known members that `bits` names.
    pub closed spec fn spec_from_bits_truncate(bits: u64) -> IoctlFlags {
        IoctlFlags { bits: bits & IOCTL_MASK }
    }

    /// The members of either set.
    pub open spec fn spec_union(self, other: IoctlFlags) -> IoctlFlags {
        Self::spec_from_bits_truncate(self.spec_bits() | other.spec_bits())
    }

    /// The members of both sets.
    pub open spec fn spec_intersection(self, other: IoctlFlags) -> IoctlFlags {
        Self::spec_from_bits_truncate(self.spec_bits() & other.spec_bits())
    }

    /// The members of this set that are not in `other`.
    pub open spec fn spec_difference(self, other: IoctlFlags) -> IoctlFlags {
        Self::spec_from_bits_truncate(self.spec_bits() & !other.spec_bits())
    }

    /// Whether every call of `other` is in this set.
    pub open spec fn spec_contains(&self, other: IoctlFlags) -> bool {
        other@.subset_of(self@)
    }

    /// Whether `bits` names no call that this crate does not know.
    pub open spec fn recognizes(bits: u64) -> bool {
        positions(bits).subset_of(positions(IOCTL_MASK))
    }

    /// The mask of the set that a mask is cut down to.
    pub broadcast proof fn lemma_from_bits_truncate(bits: u64)
        ensures
            (#[trigger] Self::spec_from_bits_truncate(bits)).spec_bits() == bits & IOCTL_MASK,
            Self::spec_from_bits_truncate(bits)@ == positions(bits).intersect(positions(IOCTL_MASK)),
            Self::recognizes(bits) ==> Self::spec_from_bits_truncate(bits).spec_bits() == bits,
    {
        lemma_positions_and(bits, IOCTL_MASK);
        lemma_within_is_subset(bits, IOCTL_MASK);
        lemma_within(bits, bits, IOCTL_MASK);
    }

    /// Two sets with the same members are the same value.
    pub proof fn lemma_view_injective(a: IoctlFlags, b: IoctlFlags)
        requires
            a@ == b@,
        ensures
            a == b,
    {
        lemma_positions_injective(a.bits, b.bits);
    }

    /// Each named mask lies within the known bits.
    pub proof fn lemma_named_masks()
        ensures
            within(1u64 << _UFFDIO_REGISTER, IOCTL_MASK),
            within(1u64 << _UFFDIO_UNREGISTER, IOCTL_MASK),
            within(1u64 << _UFFDIO_WAKE, IOCTL_MASK),
            within(1u64 << _UFFDIO_COPY, IOCTL_MASK),
            within(1u64 << _UFFDIO_ZEROPAGE, IOCTL_MASK),
            within(1u64 << _UFFDIO_WRITEPROTECT, IOCTL_MASK),
            within(1u64 << _UFFDIO_API, IOCTL_MASK),
    {
        assert((1u64 << 0x00u64) & !0x8000_0000_0000_005Fu64 == 0 && (1u64 << 0x01u64)
            & !0x8000_0000_0000_005Fu64 == 0 && (1u64 << 0x02u64) & !0x8000_0000_0000_005Fu64 == 0
            && (1u64 << 0x03u64) & !0x8000_0000_0000_005Fu64 == 0 && (1u64 << 0x04u64)
            & !0x8000_0000_0000_005Fu64 == 0 && (1u64 << 0x06u64) & !0x8000_0000_0000_005Fu64 == 0
            && (1u64 << 0x3Fu64) & !0x8000_0000_0000_005Fu64 == 0) by (bit_vector);
    }

    fn named(mask: u64) -> (r: IoctlFlags)
        requires
            within(mask, IOCTL_MASK),
        ensures
            r.spec_bits() == mask,
            r@ == positions(mask),
    {
        IoctlFlags { bits: mask }
    }

    /// The empty set.
    pub fn empty() -> (r: IoctlFlags)
        ensures
            r.spec_bits() == 0,
            r@ == Set::<nat>::empty(),
    {
        proof {
            lemma_positions_empty(0);
            lemma_within(0, 0, IOCTL_MASK);
        }
        IoctlFlags { bits: 0 }
    }

    /// The set of every known call.
    pub fn all() -> (r: IoctlFlags)
        ensures
            r.spec_bits() == IOCTL_MASK,
            r@ == positions(IOCTL_MASK),
    {
        proof {
            lemma_within(0, 0, IOCTL_MASK);
        }
        IoctlFlags { bits: IOCTL_MASK }
    }

    /// The register call alone.
    pub fn register() -> (r: IoctlFlags)
        ensures
            r.spec_bits() == 1u64 << _UFFDIO_REGISTER,
            r@ == set![_UFFDIO_REGISTER as nat],
    {
        proof {
            Self::lemma_named_masks();
            lemma_positions_single(_UFFDIO_REGISTER as nat);
        }
        Self::named(1u64 << _UFFDIO_REGISTER)
    }

    /// The unregister call alone.
    pub fn unregister() -> (r: IoctlFlags)
        ensures
            r.spec_bits() == 1u64 << _UFFDIO_UNREGISTER,
            r@ == set![_UFFDIO_UNREGISTER as nat],
    {
        proof {
            Self::lemma_named_masks();
            lemma_positions_single(_UFFDIO_UNREGISTER as nat);
        }
        Self::named(1u64 << _UFFDIO_UNREGISTER)
    }

    /// The wake call alone.
    pub fn wake() -> (r: IoctlFlags)
        ensures
            r.spec_bits() == 1u64 << _UFFDIO_WAKE,
            r@ == set![_UFFDIO_WAKE as nat],
    {
        proof {
            Self::lemma_named_masks();
            lemma_positions_single(_UFFDIO_WAKE as nat);
        }
        Self::named(1u64 << _UFFDIO_WAKE)
    }

    /// The copy call alone.
    pub fn copy() -> (r: IoctlFlags)
        ensures
            r.spec_bits() == 1u64 << _UFFDIO_COPY,
            r@ == set![_UFFDIO_COPY as nat],
    {
        proof {
            Self::lemma_named_masks();
            lemma_positions_single(_UFFDIO_COPY as nat);
        }
        Self::named(1u64 << _UFFDIO_COPY)
    }

    /// The zero-page call alone.
    pub fn zeropage() -> (r: IoctlFlags)
        ensures
            r.spec_bits() == 1u64 << _UFFDIO_ZEROPAGE,
            r@ == set![_UFFDIO_ZEROPAGE as nat],
    {
        proof {
            Self::lemma_named_masks();
            lemma_positions_single(_UFFDIO_ZEROPAGE as nat);
        }
        Self::named(1u64 << _UFFDIO_ZEROPAGE)
    }

    /// The write-protect call alone.
    pub fn write_protect() -> (r: IoctlFlags)
        ensures
            r.spec_bits() == 1u64 << _UFFDIO_WRITEPROTECT,
            r@ == set![_UFFDIO_WRITEPROTECT as nat],
    {
        proof {
            Self::lemma_named_masks();
            lemma_positions_single(_UFFDIO_WRITEPROTECT as nat);
        }
        Self::named(1u64 << _UFFDIO_WRITEPROTECT)
    }

    /// The API handshake alone.
    pub fn api() -> (r: IoctlFlags)
        ensures
            r.spec_bits() == 1u64 << _UFFDIO_API,
            r@ == set![_UFFDIO_API as nat],
    {
        proof {
            Self::lemma_named_masks();
            lemma_positions_single(_UFFDIO_API as nat);
        }
        Self::named(1u64 << _UFFDIO_API)
    }


    /// The mask that the kernel uses for this set.
    #[verifier::when_used_as_spec(spec_bits)]
    pub fn bits(&self) -> (r: u64)
        ensures
            r == self.spec_bits(),
            Self::recognizes(r),
    {
        proof {
            use_type_invariant(self);
            lemma_within_is_subset(self.bits, IOCTL_MASK);
        }
        self.bits
    }

    /// The set that a mask stands for, unless the mask has a bit that stands
    /// for no known call.
    pub fn from_bits(bits: u64) -> (r: Option<IoctlFlags>)
        ensures
            Self::recognizes(bits) ==> r is Some && r->Some_0.spec_bits() == bits,
            !Self::recognizes(bits) ==> r is None,
    {
        proof {
            lemma_within_is_subset(bits, IOCTL_MASK);
        }
        if bits & !IOCTL_MASK == 0 {
            Some(IoctlFlags { bits })
        } else {
            None
        }
    }

    /// The known members among those that a mask names.
    #[verifier::when_used_as_spec(spec_from_bits_truncate)]
    pub fn from_bits_truncate(bits: u64) -> (r: IoctlFlags)
        ensures
            r == Self::spec_from_bits_truncate(bits),
            r.spec_bits() == bits & IOCTL_MASK,
            r@ == positions(bits).intersect(positions(IOCTL_MASK)),
    {
        proof {
            lemma_positions_and(bits, IOCTL_MASK);
            lemma_within(bits, bits, IOCTL_MASK);
        }
        IoctlFlags { bits: bits & IOCTL_MASK }
    }

    /// Whether the set has no member.
    pub fn is_empty(&self) -> (r: bool)
        ensures
            r == (self@ == Set::<nat>::empty()),
    {
        proof {
            lemma_positions_empty(self.bits);
        }
        self.bits == 0
    }

    /// Whether every known call is in the set.
    pub fn is_all(&self) -> (r: bool)
        ensures
            r == (self@ == positions(IOCTL_MASK)),
    {
        proof {
            if self@ == positions(IOCTL_MASK) {
                lemma_positions_injective(self.bits, IOCTL_MASK);
            }
        }
        self.bits == IOCTL_MASK
    }

    /// Whether the two sets share a member.
    pub fn intersects(&self, other: IoctlFlags) -> (r: bool)
        ensures
            r == !self@.disjoint(other@),
    {
        proof {
            lemma_positions_intersects(self.bits, other.bits);
        }
        self.bits & other.bits != 0
    }

    /// Whether every call of `other` is in this set.
    #[verifier::when_used_as_spec(spec_contains)]
    pub fn contains(&self, other: IoctlFlags) -> (r: bool)
        ensures
            r == self.spec_contains(other),
    {
        proof {
            lemma_positions_subset(self.bits, other.bits);
        }
        self.bits & other.bits == other.bits
    }

    /// The members of either set.
    #[verifier::when_used_as_spec(spec_union)]
    pub fn union(self, other: IoctlFlags) -> (r: IoctlFlags)
        ensures
            r == self.spec_union(other),
            r@ == self@.union(other@),
            r.spec_bits() == self.spec_bits() | other.spec_bits(),
    {
        let a = self.bits;
        let b = other.bits;
        proof {
            use_type_invariant(self);
            use_type_invariant(other);
            lemma_positions_or(a, b);
            lemma_within(a, b, IOCTL_MASK);
            lemma_within(a | b, a | b, IOCTL_MASK);
        }
        IoctlFlags { bits: a | b }
    }

    /// The members of both sets.
    #[verifier::when_used_as_spec(spec_intersection)]
    pub fn intersection(self, other: IoctlFlags) -> (r: IoctlFlags)
        ensures
            r == self.spec_intersection(other),
            r@ == self@.intersect(other@),
            r.spec_bits() == self.spec_bits() & other.spec_bits(),
    {
        let a = self.bits;
        let b = other.bits;
        proof {
            use_type_invariant(self);
            lemma_positions_and(a, b);
            lemma_within(a, b, IOCTL_MASK);
            lemma_within(a & b, a & b, IOCTL_MASK);
        }
        IoctlFlags { bits: a & b }
    }

    /// The members of this set that are not in `other`.
    #[verifier::when_used_as_spec(spec_difference)]
    pub fn difference(self, other: IoctlFlags) -> (r: IoctlFlags)
        ensures
            r == self.spec_difference(other),
            r@ == self@.difference(other@),
            r.spec_bits() == self.spec_bits() & !other.spec_bits(),
    {
        let a = self.bits;
        let b = other.bits;
        proof {
            use_type_invariant(self);
            lemma_positions_and_not(a, b);
            lemma_within(a, b, IOCTL_MASK);
            lemma_within(a & !b, a & !b, IOCTL_MASK);
        }
        IoctlFlags { bits: a & !b }
    }

    /// Adds the members of `other` to this set.
    pub fn insert(&mut self, other: IoctlFlags)
        ensures
            *final(self) == old(self).spec_union(other),
            final(self)@ == old(self)@.union(other@),
    {
        *self = self.union(other);
    }

    /// Takes the members of `other` out of this set.
    pub fn remove(&mut self, other: IoctlFlags)
        ensures
            *final(self) == old(self).spec_difference(other),
            final(self)@ == old(self)@.difference(other@),
    {
        *self = self.difference(other);
    }
}

} // verus!
