//! Bit masks read as sets of bit positions.
//!
//! The kernel reports capabilities as 64-bit masks.  The flag-set types of this
//! crate state their set algebra over the positions of the bits that are set;
//! the lemmas here connect the machine operations on masks with the operations
//! on those sets.

use vstd::prelude::*;

verus! {

/// Whether the bit at position `i` (0 is the least significant) is set in `bits`.
pub open spec fn has_bit(bits: u64, i: nat) -> bool {
    i < 64 && (bits >> (i as u64)) & 1 == 1
}

/// The positions of the bits that are set in `bits`.
pub open spec fn positions(bits: u64) -> Set<nat> {
    Set::new(|i: nat| has_bit(bits, i))
}

/// Whether `bits` has no bit set outside `mask`.
pub open spec fn within(bits: u64, mask: u64) -> bool {
    bits & !mask == 0
}

/// The mask whose set bits are exactly the positions below `n`.
spec fn low_mask(n: nat) -> u64 {
    if n >= 64 {
        0xffff_ffff_ffff_ffffu64
    } else {
        ((1u64 << (n as u64)) - 1) as u64
    }
}

/// How the bit at position `k` of a combined mask follows from the operands.
proof fn lemma_bit_of(a: u64, b: u64, k: u64)
    by (bit_vector)
    requires
        k < 64,
    ensures
        ((a | b) >> k) & 1 == 1 <==> ((a >> k) & 1 == 1 || (b >> k) & 1 == 1),
        ((a & b) >> k) & 1 == 1 <==> ((a >> k) & 1 == 1 && (b >> k) & 1 == 1),
        ((a & !b) >> k) & 1 == 1 <==> ((a >> k) & 1 == 1 && (b >> k) & 1 != 1),
        ((a ^ b) >> k) & 1 == 1 <==> !(((a >> k) & 1 == 1) <==> ((b >> k) & 1 == 1)),
        (0u64 >> k) & 1 != 1,
{
}

/// Facts about whole masks.
proof fn lemma_words(a: u64, b: u64)
    by (bit_vector)
    ensures
        a ^ b == 0 ==> a == b,
        a & 0xffff_ffff_ffff_ffffu64 == 0 ==> a == 0,
        a & (((1u64 << 0u64) - 1) as u64) == 0,
        (a & b == b) <==> (b & !a == 0),
{
}

/// What stays within a mask.
pub proof fn lemma_within(a: u64, b: u64, mask: u64)
    by (bit_vector)
    ensures
        0u64 & !mask == 0,
        mask & !mask == 0,
        (a & mask) & !mask == 0,
        a & !mask == 0 && b & !mask == 0 ==> (a | b) & !mask == 0,
        a & !mask == 0 ==> (a & b) & !mask == 0,
        a & !mask == 0 ==> (a & !b) & !mask == 0,
        (a & !mask == 0) <==> (mask & a == a),
        (a & !mask == 0) <==> (a & mask == a),
{
}

proof fn lemma_low_bits_clear(x: u64, n: nat)
    requires
        n <= 64,
        forall|i: nat| i < n ==> !has_bit(x, i),
    ensures
        x & low_mask(n) == 0,
    decreases n,
{
    if n == 0 {
        lemma_words(x, x);
    } else {
        let k = (n - 1) as u64;
        let m = low_mask((n - 1) as nat);
        let m2 = low_mask(n);
        lemma_low_bits_clear(x, (n - 1) as nat);
        assert(!has_bit(x, (n - 1) as nat));
        assert(x & m2 == 0) by (bit_vector)
            requires
                k < 64,
                m == ((1u64 << k) - 1) as u64,
                m2 == (if k == 63 {
                    0xffff_ffff_ffff_ffffu64
                } else {
                    ((1u64 << ((k + 1) as u64)) - 1) as u64
                }),
                x & m == 0,
                (x >> k) & 1 != 1,
        ;
    }
}

/// A mask with no bit set at any position is zero.
pub proof fn lemma_no_bits_is_zero(x: u64)
    requires
        forall|i: nat| i < 64 ==> !has_bit(x, i),
    ensures
        x == 0,
{
    lemma_low_bits_clear(x, 64);
    lemma_words(x, x);
}

/// Two masks with the same positions are the same mask.
pub proof fn lemma_positions_injective(a: u64, b: u64)
    requires
        positions(a) == positions(b),
    ensures
        a == b,
{
    let x = a ^ b;
    assert forall|i: nat| i < 64 implies !has_bit(x, i) by {
        assert(positions(a).contains(i) == has_bit(a, i));
        assert(positions(b).contains(i) == has_bit(b, i));
        lemma_bit_of(a, b, i as u64);
    }
    lemma_no_bits_is_zero(x);
    lemma_words(a, b);
}

/// The zero mask has no positions, and it is the only such mask.
pub proof fn lemma_positions_empty(a: u64)
    ensures
        positions(a) == Set::<nat>::empty() <==> a == 0,
{
    assert forall|i: nat| !has_bit(0, i) by {
        if i < 64 {
            lemma_bit_of(0, 0, i as u64);
        }
    }
    assert(positions(0) =~= Set::<nat>::empty());
    if positions(a) == Set::<nat>::empty() {
        lemma_positions_injective(a, 0);
    }
}

/// The mask `1 << i` has the single position `i`.
pub proof fn lemma_positions_single(i: nat)
    requires
        i < 64,
    ensures
        positions(1u64 << (i as u64)) == set![i],
{
    let k = i as u64;
    let m = 1u64 << k;
    assert forall|j: nat| has_bit(m, j) == (j == i) by {
        if j < 64 {
            let l = j as u64;
            assert(((1u64 << k) >> l) & 1 == 1 <==> l == k) by (bit_vector)
                requires
                    k < 64,
                    l < 64,
            ;
        }
    }
    assert(positions(m) =~= set![i]);
}

/// `|` on masks is union on positions.
pub proof fn lemma_positions_or(a: u64, b: u64)
    ensures
        positions(a | b) == positions(a).union(positions(b)),
{
    assert forall|i: nat| has_bit(a | b, i) == (has_bit(a, i) || has_bit(b, i)) by {
        if i < 64 {
            lemma_bit_of(a, b, i as u64);
        }
    }
    assert(positions(a | b) =~= positions(a).union(positions(b)));
}

/// `&` on masks is intersection on positions.
pub proof fn lemma_positions_and(a: u64, b: u64)
    ensures
        positions(a & b) == positions(a).intersect(positions(b)),
{
    assert forall|i: nat| has_bit(a & b, i) == (has_bit(a, i) && has_bit(b, i)) by {
        if i < 64 {
            lemma_bit_of(a, b, i as u64);
        }
    }
    assert(positions(a & b) =~= positions(a).intersect(positions(b)));
}

/// `& !` on masks is difference on positions.
pub proof fn lemma_positions_and_not(a: u64, b: u64)
    ensures
        positions(a & !b) == positions(a).difference(positions(b)),
{
    assert forall|i: nat| has_bit(a & !b, i) == (has_bit(a, i) && !has_bit(b, i)) by {
        if i < 64 {
            lemma_bit_of(a, b, i as u64);
        }
    }
    assert(positions(a & !b) =~= positions(a).difference(positions(b)));
}

/// `a & b == b` says that every position of `b` is a position of `a`.
pub proof fn lemma_positions_subset(a: u64, b: u64)
    ensures
        (a & b == b) <==> positions(b).subset_of(positions(a)),
{
    lemma_positions_and_not(b, a);
    lemma_positions_empty(b & !a);
    lemma_words(a, b);
    if positions(b).subset_of(positions(a)) {
        assert(positions(b).difference(positions(a)) =~= Set::<nat>::empty());
    }
    if b & !a == 0 {
        assert forall|i: nat| positions(b).contains(i) implies positions(a).contains(i) by {
            assert(!positions(b).difference(positions(a)).contains(i));
        }
    }
}

/// `a & b != 0` says that `a` and `b` share a position.
pub proof fn lemma_positions_intersects(a: u64, b: u64)
    ensures
        (a & b != 0) <==> !positions(a).disjoint(positions(b)),
{
    lemma_positions_and(a, b);
    lemma_positions_empty(a & b);
    if positions(a).disjoint(positions(b)) {
        assert(positions(a).intersect(positions(b)) =~= Set::<nat>::empty());
    }
    if a & b == 0 {
        assert forall|i: nat| !(positions(a).contains(i) && positions(b).contains(i)) by {
            assert(!positions(a).intersect(positions(b)).contains(i));
        }
    }
}

/// A mask lies within `mask` exactly when its positions are positions of `mask`.
pub proof fn lemma_within_is_subset(bits: u64, mask: u64)
    ensures
        within(bits, mask) <==> positions(bits).subset_of(positions(mask)),
{
    lemma_positions_subset(mask, bits);
    lemma_within(bits, bits, mask);
}

} // verus!
