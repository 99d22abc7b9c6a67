//! Bit-level facts about 64-bit masks.
//!
//! Everything the rest of the crate knows about shifts and masks is stated
//! here as lemmas over [`has_bit`], so that other modules reason about
//! membership of a square index in a mask and never about bit patterns.

use vstd::prelude::*;
use vstd::std_specs::bits::{u64_leading_zeros, u64_trailing_zeros};

verus! {

/// Bit `i` of `bb` is set. False for every `i` outside `0..64`.
pub open spec fn has_bit(bb: u64, i: int) -> bool {
    0 <= i < 64 && (bb >> (i as u64)) & 1 == 1
}

/// The number of set bits of `bb` among the positions below `n`.
pub open spec fn count_below(bb: u64, n: int) -> nat
    decreases n,
{
    if n <= 0 {
        0
    } else {
        count_below(bb, n - 1) + if has_bit(bb, n - 1) {
            1nat
        } else {
            0nat
        }
    }
}

/// The number of set bits of `bb`.
pub open spec fn popcount(bb: u64) -> nat {
    count_below(bb, 64)
}

proof fn bv_mask_test(bb: u64, i: u64)
    by (bit_vector)
    requires
        i < 64,
    ensures
        ((bb & (1u64 << i)) != 0) == ((bb >> i) & 1 == 1),
{
}

proof fn bv_set_bit(bb: u64, i: u64, j: u64)
    by (bit_vector)
    requires
        i < 64,
        j < 64,
    ensures
        (((bb | (1u64 << i)) >> j) & 1 == 1) == (j == i || (bb >> j) & 1 == 1),
{
}

proof fn bv_clear_bit(bb: u64, i: u64, j: u64)
    by (bit_vector)
    requires
        i < 64,
        j < 64,
    ensures
        (((bb & !(1u64 << i)) >> j) & 1 == 1) == (j != i && (bb >> j) & 1 == 1),
{
}

proof fn bv_or(a: u64, b: u64, j: u64)
    by (bit_vector)
    requires
        j < 64,
    ensures
        (((a | b) >> j) & 1 == 1) == ((a >> j) & 1 == 1 || (b >> j) & 1 == 1),
{
}

proof fn bv_and(a: u64, b: u64, j: u64)
    by (bit_vector)
    requires
        j < 64,
    ensures
        (((a & b) >> j) & 1 == 1) == ((a >> j) & 1 == 1 && (b >> j) & 1 == 1),
{
}

proof fn bv_xor(a: u64, b: u64, j: u64)
    by (bit_vector)
    requires
        j < 64,
    ensures
        (((a ^ b) >> j) & 1 == 1) == (((a >> j) & 1 == 1) != ((b >> j) & 1 == 1)),
{
}

proof fn bv_zero(j: u64)
    by (bit_vector)
    requires
        j < 64,
    ensures
        (0u64 >> j) & 1 == 0,
{
}

proof fn bv_single(i: u64, j: u64)
    by (bit_vector)
    requires
        i < 64,
        j < 64,
    ensures
        (((1u64 << i) >> j) & 1 == 1) == (i == j),
{
}

proof fn bv_row_mask(r: u64, j: u64)
    by (bit_vector)
    requires
        r < 8,
        j < 64,
    ensures
        (((0xFFu64 << (8 * r)) >> j) & 1 == 1) == (j / 8 == r),
{
}

proof fn bv_col_mask(c: u64, j: u64)
    by (bit_vector)
    requires
        c < 8,
        j < 64,
    ensures
        (((0x0101010101010101u64 << c) >> j) & 1 == 1) == (j % 8 == c),
{
}

proof fn bv_differ(a: u64, b: u64, j: u64)
    by (bit_vector)
    requires
        j < 64,
        ((a ^ b) >> j) & 1 == 1,
    ensures
        ((a >> j) & 1 == 1) != ((b >> j) & 1 == 1),
{
}

proof fn bv_xor_zero(a: u64, b: u64)
    by (bit_vector)
    requires
        a ^ b == 0,
    ensures
        a == b,
{
}

proof fn bv_not_one_is_zero(x: u64)
    by (bit_vector)
    requires
        x & 1 != 1,
    ensures
        x & 1 == 0,
{
}

/// Testing a mask against a one-bit mask reads the bit.
pub proof fn lemma_mask_test(bb: u64, i: int)
    requires
        0 <= i < 64,
    ensures
        ((bb & (1u64 << (i as u64))) != 0) == has_bit(bb, i),
{
    bv_mask_test(bb, i as u64);
}

/// Setting bit `i` adds `i` and changes nothing else.
pub proof fn lemma_set_bit(bb: u64, i: int)
    requires
        0 <= i < 64,
    ensures
        forall|j: int| #[trigger]
            has_bit(bb | (1u64 << (i as u64)), j) == (j == i || has_bit(bb, j)),
{
    assert forall|j: int| #[trigger]
        has_bit(bb | (1u64 << (i as u64)), j) == (j == i || has_bit(bb, j)) by {
        if 0 <= j < 64 {
            bv_set_bit(bb, i as u64, j as u64);
        }
    }
}

/// Clearing bit `i` removes `i` and changes nothing else.
pub proof fn lemma_clear_bit(bb: u64, i: int)
    requires
        0 <= i < 64,
    ensures
        forall|j: int| #[trigger]
            has_bit(bb & !(1u64 << (i as u64)), j) == (j != i && has_bit(bb, j)),
{
    assert forall|j: int| #[trigger]
        has_bit(bb & !(1u64 << (i as u64)), j) == (j != i && has_bit(bb, j)) by {
        if 0 <= j < 64 {
            bv_clear_bit(bb, i as u64, j as u64);
        }
    }
}

/// The union of two masks holds what either holds.
pub proof fn lemma_or(a: u64, b: u64)
    ensures
        forall|j: int| #[trigger] has_bit(a | b, j) == (has_bit(a, j) || has_bit(b, j)),
{
    assert forall|j: int| #[trigger] has_bit(a | b, j) == (has_bit(a, j) || has_bit(b, j)) by {
        if 0 <= j < 64 {
            bv_or(a, b, j as u64);
        }
    }
}

/// The intersection of two masks holds what both hold.
pub proof fn lemma_and(a: u64, b: u64)
    ensures
        forall|j: int| #[trigger] has_bit(a & b, j) == (has_bit(a, j) && has_bit(b, j)),
{
    assert forall|j: int| #[trigger] has_bit(a & b, j) == (has_bit(a, j) && has_bit(b, j)) by {
        if 0 <= j < 64 {
            bv_and(a, b, j as u64);
        }
    }
}

/// The symmetric difference of two masks holds what exactly one holds.
pub proof fn lemma_xor(a: u64, b: u64)
    ensures
        forall|j: int| #[trigger] has_bit(a ^ b, j) == (has_bit(a, j) != has_bit(b, j)),
{
    assert forall|j: int| #[trigger] has_bit(a ^ b, j) == (has_bit(a, j) != has_bit(b, j)) by {
        if 0 <= j < 64 {
            bv_xor(a, b, j as u64);
        }
    }
}

/// The empty mask holds nothing.
pub proof fn lemma_zero()
    ensures
        forall|j: int| !#[trigger] has_bit(0u64, j),
{
    assert forall|j: int| !#[trigger] has_bit(0u64, j) by {
        if 0 <= j < 64 {
            bv_zero(j as u64);
        }
    }
}

/// A one-bit mask holds its own index only.
pub proof fn lemma_single(i: int)
    requires
        0 <= i < 64,
    ensures
        forall|j: int| #[trigger] has_bit(1u64 << (i as u64), j) == (j == i),
{
    assert forall|j: int| #[trigger] has_bit(1u64 << (i as u64), j) == (j == i) by {
        if 0 <= j < 64 {
            bv_single(i as u64, j as u64);
        }
    }
}

/// The mask of board row `r` holds the indices `8 * r .. 8 * r + 8`.
pub proof fn lemma_row_mask(r: int)
    requires
        0 <= r < 8,
    ensures
        forall|j: int| #[trigger]
            has_bit(0xFFu64 << ((8 * r) as u64), j) == (0 <= j < 64 && j / 8 == r),
{
    assert forall|j: int| #[trigger]
        has_bit(0xFFu64 << ((8 * r) as u64), j) == (0 <= j < 64 && j / 8 == r) by {
        if 0 <= j < 64 {
            let ru = r as u64;
            let ju = j as u64;
            bv_row_mask(ru, ju);
            assert(8 * ru == (8 * r) as u64);
            assert(ju / 8 == j / 8);
        }
    }
}

/// The mask of board column `c` holds the indices that are `c` modulo 8.
pub proof fn lemma_col_mask(c: int)
    requires
        0 <= c < 8,
    ensures
        forall|j: int| #[trigger]
            has_bit(0x0101010101010101u64 << (c as u64), j) == (0 <= j < 64 && j % 8 == c),
{
    assert forall|j: int| #[trigger]
        has_bit(0x0101010101010101u64 << (c as u64), j) == (0 <= j < 64 && j % 8 == c) by {
        if 0 <= j < 64 {
            let ju = j as u64;
            bv_col_mask(c as u64, ju);
            assert(ju % 8 == j % 8);
        }
    }
}

/// A non-empty mask has a lowest member, at the count of its trailing zeros.
pub proof fn lemma_lowest(bb: u64)
    requires
        bb != 0,
    ensures
        u64_trailing_zeros(bb) < 64,
        has_bit(bb, u64_trailing_zeros(bb) as int),
        forall|j: int| 0 <= j < u64_trailing_zeros(bb) ==> !#[trigger] has_bit(bb, j),
{
    vstd::std_specs::bits::axiom_u64_trailing_zeros(bb);
    let t = u64_trailing_zeros(bb);
    assert forall|j: int| 0 <= j < t implies !#[trigger] has_bit(bb, j) by {
        let ju = j as u64;
        assert((bb >> ju) & 1u64 == 0u64);
    }
}

/// A non-empty mask has a highest member, at 63 less the count of its leading zeros.
pub proof fn lemma_highest(bb: u64)
    requires
        bb != 0,
    ensures
        u64_leading_zeros(bb) < 64,
        has_bit(bb, 63 - u64_leading_zeros(bb)),
        forall|j: int| 63 - u64_leading_zeros(bb) < j < 64 ==> !#[trigger] has_bit(bb, j),
{
    vstd::std_specs::bits::axiom_u64_leading_zeros(bb);
    let z = u64_leading_zeros(bb);
    let h = (63 - z) as u64;
    assert((bb >> h) & 1u64 != 0u64);
    assert((bb >> h) & 1u64 == 1u64) by {
        if (bb >> h) & 1u64 != 1u64 {
            bv_not_one_is_zero(bb >> h);
        }
    }
    assert forall|j: int| 63 - z < j < 64 implies !#[trigger] has_bit(bb, j) by {
        let ju = j as u64;
        assert((bb >> ju) & 1u64 == 0u64);
    }
}

/// Two masks with the same members are the same mask.
pub proof fn lemma_ext(a: u64, b: u64)
    requires
        forall|j: int| 0 <= j < 64 ==> has_bit(a, j) == has_bit(b, j),
    ensures
        a == b,
{
    let x = a ^ b;
    if x != 0 {
        lemma_lowest(x);
        let t = u64_trailing_zeros(x) as int;
        bv_differ(a, b, t as u64);
        assert(has_bit(a, t) != has_bit(b, t));
    } else {
        bv_xor_zero(a, b);
    }
}

/// A mask without members is the empty mask.
pub proof fn lemma_empty(a: u64)
    requires
        forall|j: int| 0 <= j < 64 ==> !has_bit(a, j),
    ensures
        a == 0,
{
    lemma_zero();
    lemma_ext(a, 0);
}

} // verus!
