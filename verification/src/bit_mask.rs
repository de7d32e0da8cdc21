//! Construction of a contiguous mask of one-bits at a given offset.
//!
//! The ground truth is the loop of [`ones_up_to`] followed by a truncating
//! left shift, captured by [`mask_ref`]: bits shifted past the top of the
//! word are silently dropped, a shift offset at or above the word width
//! drops every bit and yields `0`, and a count at or above the word width
//! saturates at the all-ones word. Every builder here is total: the
//! full-width-shift hazard of the closed-form variant is neutralized
//! algebraically with the zero-test predicate, not with a trap.

use vstd::prelude::*;

use crate::zero_test::greater_zero_ret_zero;

verus! {

/// Bit `j` of the word `w`, as a boolean, for `j` below the word width.
pub open spec fn nth_bit(w: u64, j: u64) -> bool {
    (w >> j) & 1u64 == 1u64
}

/// Setting bit `bit` of a 64-bit word: a bit at or above the word width
/// does not exist, so setting it is a no-op (the word is arithmetic
/// modulo `2^64`).
pub open spec fn set_bit(mask: u64, bit: u64) -> u64 {
    if bit < 64 {
        mask | (1u64 << bit)
    } else {
        mask
    }
}

/// The reference loop: starting from zero, set bits `0 .. ones_cnt - 1`
/// one by one.
pub open spec fn ones_up_to(ones_cnt: u64) -> u64
    decreases ones_cnt,
{
    if ones_cnt == 0 {
        0u64
    } else {
        set_bit(ones_up_to((ones_cnt - 1) as u64), (ones_cnt - 1) as u64)
    }
}

/// Reference semantics of the mask constructor: the low block of
/// `ones_cnt` one-bits, shifted left by `offset` with natural truncation.
/// An offset at or above the word width shifts every bit out and leaves
/// `0`.
pub open spec fn mask_ref(offset: u64, ones_cnt: u64) -> u64 {
    if offset < 64 {
        ones_up_to(ones_cnt) << offset
    } else {
        0u64
    }
}

/// Closed form of the reference loop: below the word width the block of
/// ones is `2^ones_cnt - 1`, and from the word width on it saturates at
/// the all-ones word.
pub proof fn lemma_ones_up_to_closed(ones_cnt: u64)
    ensures
        ones_cnt < 64 ==> ones_up_to(ones_cnt) == (1u64 << ones_cnt) - 1,
        ones_cnt >= 64 ==> ones_up_to(ones_cnt) == 0xffff_ffff_ffff_ffffu64,
    decreases ones_cnt,
{
    if ones_cnt == 0 {
        assert((1u64 << 0u64) - 1 == 0) by (bit_vector);
    } else {
        let b = (ones_cnt - 1) as u64;
        lemma_ones_up_to_closed(b);
        let m = ones_up_to(b);
        if b < 63 {
            assert((m | (1u64 << b)) == (1u64 << ones_cnt) - 1) by (bit_vector)
                requires
                    b < 63,
                    ones_cnt == b + 1,
                    m == (1u64 << b) - 1,
            ;
        } else if b == 63 {
            assert((m | (1u64 << 63u64)) == 0xffff_ffff_ffff_ffffu64) by (bit_vector)
                requires
                    m == (1u64 << 63u64) - 1,
            ;
        }
    }
}

/// Bit-level reading of the reference loop: bit `j` of the block is set
/// exactly when `j` is below the count.
pub proof fn lemma_ones_up_to_bit(ones_cnt: u64, j: u64)
    requires
        j < 64,
    ensures
        nth_bit(ones_up_to(ones_cnt), j) <==> j < ones_cnt,
    decreases ones_cnt,
{
    if ones_cnt == 0 {
        assert((0u64 >> j) & 1u64 == 0u64) by (bit_vector);
    } else {
        let b = (ones_cnt - 1) as u64;
        lemma_ones_up_to_bit(b, j);
        let m = ones_up_to(b);
        if b < 64 {
            assert((((m | (1u64 << b)) >> j) & 1u64 == 1u64) <==> ((m >> j) & 1u64 == 1u64 || j
                == b)) by (bit_vector)
                requires
                    j < 64,
                    b < 64,
            ;
        }
    }
}

/// Mask correctness, read bit by bit: bit `j` of the constructed word is
/// set exactly when `j` lies in the block `[offset, offset + ones_cnt)`.
/// This holds for every input pair, including a count at the word width,
/// a block truncated at the top of the word, and an offset past the word
/// width.
pub proof fn lemma_mask_ref_bit(offset: u64, ones_cnt: u64, j: u64)
    requires
        j < 64,
    ensures
        nth_bit(mask_ref(offset, ones_cnt), j) <==> (offset <= j && j < offset + ones_cnt),
{
    if offset >= 64 {
        assert((0u64 >> j) & 1u64 == 0u64) by (bit_vector);
    } else {
        let u = ones_up_to(ones_cnt);
        if j < offset {
            assert(((u << offset) >> j) & 1u64 == 0u64) by (bit_vector)
                requires
                    j < offset < 64,
            ;
        } else {
            let k = (j - offset) as u64;
            assert((((u << offset) >> j) & 1u64) == ((u >> k) & 1u64)) by (bit_vector)
                requires
                    offset < 64,
                    j < 64,
                    offset <= j,
                    k == j - offset,
            ;
            lemma_ones_up_to_bit(ones_cnt, k);
        }
    }
}

/// A zero count yields the zero word, whatever the offset.
pub proof fn lemma_mask_zero_count(offset: u64)
    ensures
        mask_ref(offset, 0) == 0,
{
    if offset < 64 {
        assert(0u64 << offset == 0u64) by (bit_vector);
    }
}

/// The reference builder: sets the bits of the block one by one, then
/// shifts the block to its offset. The loop stops at the word width (a
/// bit at or above it does not exist and setting it would change
/// nothing), and an offset at or above the word width yields `0`, so the
/// builder is total.
pub fn build_bit_mask(offset: u64, ones_cnt: u64) -> (mask: u64)
    ensures
        mask == mask_ref(offset, ones_cnt),
{
    let mut mask: u64 = 0;
    let mut bit: u64 = 0;
    while bit < ones_cnt && bit < 64
        invariant
            bit <= 64,
            bit <= ones_cnt,
            mask == ones_up_to(bit),
        decreases 64 - bit,
    {
        mask |= 1u64 << bit;
        bit += 1;
    }
    proof {
        if ones_cnt > 64 {
            lemma_ones_up_to_closed(ones_cnt);
            lemma_ones_up_to_closed(64);
        }
    }
    if offset < 64 {
        mask << offset
    } else {
        0
    }
}

/// The branchless builder. The block of ones comes from the standard
/// trick `(1 << ones_cnt) - 1`, which is undefined at a full-width
/// count, so the shift amount is clamped below the width and a
/// correction word — all ones exactly when the count reaches the width —
/// is OR-ed in. An offset past the width is neutralized the same way,
/// with a keep word that is all ones exactly while the offset is in
/// range. Both correction words come from the zero-test complement; its
/// arguments can exceed half the word range here, which is why the
/// complement reads the borrow indicator and not a top data bit.
pub fn build_bit_mask2(offset: u64, ones_cnt: u64) -> (mask: u64)
    ensures
        mask == mask_ref(offset, ones_cnt),
{
    let word_bits: u64 = 64;
    let cnt_high: u64 = ones_cnt & !(word_bits - 1);
    let off_high: u64 = offset & !(word_bits - 1);
    proof {
        assert((ones_cnt & !63u64) == 0 <==> ones_cnt < 64) by (bit_vector);
        assert((offset & !63u64) == 0 <==> offset < 64) by (bit_vector);
        assert(ones_cnt & 63u64 < 64) by (bit_vector);
        assert(offset & 63u64 < 64) by (bit_vector);
        assert(ones_cnt < 64 ==> ones_cnt & 63u64 == ones_cnt) by (bit_vector);
        assert(offset < 64 ==> offset & 63u64 == offset) by (bit_vector);
        assert(1u64 << (ones_cnt & 63u64) >= 1) by (bit_vector);
    }
    let low: u64 = (1u64 << (ones_cnt & (word_bits - 1))) - 1;
    let full: u64 = (1 - greater_zero_ret_zero(cnt_high)) * u64::MAX;
    let keep: u64 = greater_zero_ret_zero(off_high) * u64::MAX;
    proof {
        lemma_ones_up_to_closed(ones_cnt);
        if ones_cnt < 64 {
            assert(low | 0u64 == low) by (bit_vector);
        } else {
            assert(low | 0xffff_ffff_ffff_ffffu64 == 0xffff_ffff_ffff_ffffu64) by (bit_vector);
        }
        let combined = low | full;
        let shifted = combined << (offset & 63u64);
        assert(shifted & 0xffff_ffff_ffff_ffffu64 == shifted) by (bit_vector);
        assert(shifted & 0u64 == 0u64) by (bit_vector);
    }
    ((low | full) << (offset & (word_bits - 1))) & keep
}

/// The reference loop once more, word for word: the duplicate the
/// exhaustive comparison drives against [`build_bit_mask`].
pub fn simple_build_bit_mask(offset: u64, ones_cnt: u64) -> (mask: u64)
    ensures
        mask == mask_ref(offset, ones_cnt),
{
    let mut mask: u64 = 0;
    let mut bit: u64 = 0;
    while bit < ones_cnt && bit < 64
        invariant
            bit <= 64,
            bit <= ones_cnt,
            mask == ones_up_to(bit),
        decreases 64 - bit,
    {
        mask |= 1u64 << bit;
        bit += 1;
    }
    proof {
        if ones_cnt > 64 {
            lemma_ones_up_to_closed(ones_cnt);
            lemma_ones_up_to_closed(64);
        }
    }
    if offset < 64 {
        mask << offset
    } else {
        0
    }
}

/// The exhaustive comparison drive: for every offset and count below the
/// word width, the two loop builders agree. The agreement is established
/// statically from their contracts; the drive remains as the runnable
/// harness shape.
pub fn test_build_bit_mask_valid() {
    let mut off: u64 = 0;
    while off < 64
        decreases 64 - off,
    {
        let mut cnt: u64 = 0;
        while cnt < 64
            decreases 64 - cnt,
        {
            let reference = simple_build_bit_mask(off, cnt);
            let built = build_bit_mask(off, cnt);
            assert(reference == built);
            cnt += 1;
        }
        off += 1;
    }
}

} // verus!

