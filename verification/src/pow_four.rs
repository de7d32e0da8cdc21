//! Four raised to a power, saturating instead of overflowing: `4^e` no
//! longer fits in a 64-bit word once the exponent reaches half the word
//! width, and every helper here returns `0` from that point on rather
//! than trapping or wrapping. One variant clamps with a comparison, one
//! clamps branchlessly through the zero-test predicate.

use vstd::prelude::*;

use crate::zero_test::greater_zero_ret_one_4;
use crate::zero_test::greater_zero_ret_zero;

verus! {

/// `4^e` as a mathematical integer.
pub open spec fn pow4(e: nat) -> nat {
    vstd::arithmetic::power::pow(4, e) as nat
}

/// What every power-of-four helper returns: `4^e` while it fits in a
/// word — that is, while the exponent is below half the word width — and
/// `0` for every larger exponent.
pub open spec fn four_to_pow_spec(e: u64) -> nat {
    if e < 32 {
        pow4(e as nat)
    } else {
        0
    }
}

/// `4^e` is `2^(2e)`.
pub proof fn lemma_pow4_is_pow2(e: nat)
    ensures
        pow4(e) == vstd::arithmetic::power2::pow2(2 * e),
{
    vstd::arithmetic::power::lemma_pow_multiplies(2, 2, e);
    vstd::arithmetic::power2::lemma_pow2(2 * e);
    assert(vstd::arithmetic::power::pow(2, 2) == 4) by {
        reveal_with_fuel(vstd::arithmetic::power::pow, 3);
    }
    vstd::arithmetic::power::lemma_pow_positive(4, e);
}

/// Below half the word width, `4^e` fits in the word: it is at most
/// `2^62`.
pub proof fn lemma_pow4_fits(e: u64)
    requires
        e < 32,
    ensures
        pow4(e as nat) == vstd::arithmetic::power2::pow2(2 * e as nat),
        pow4(e as nat) <= 0x4000_0000_0000_0000,
{
    lemma_pow4_is_pow2(e as nat);
    vstd::arithmetic::power2::lemma2_to64_rest();
    if 2 * e < 62 {
        vstd::arithmetic::power2::lemma_pow2_strictly_increases(2 * e as nat, 62);
    }
}

/// `4^pow` by repeated multiplication, clamped to `0` once the exponent
/// is out of range.
pub fn four_to_pow(pow: u64) -> (r: u64)
    ensures
        r == four_to_pow_spec(pow),
{
    if pow >= 32 {
        return 0;
    }
    let mut acc: u64 = 1;
    let mut i: u64 = 0;
    proof {
        assert(pow4(0) == 1) by {
            reveal_with_fuel(vstd::arithmetic::power::pow, 1);
        }
    }
    while i < pow
        invariant
            i <= pow,
            pow < 32,
            acc == pow4(i as nat),
        decreases pow - i,
    {
        proof {
            lemma_pow4_fits(pow);
            lemma_pow4_fits((i + 1) as u64);
            assert(pow4((i + 1) as nat) == 4 * pow4(i as nat)) by {
                reveal_with_fuel(vstd::arithmetic::power::pow, 2);
                vstd::arithmetic::power::lemma_pow_positive(4, i as nat);
            }
            vstd::arithmetic::power::lemma_pow_increases(4, (i + 1) as nat, pow as nat);
        }
        acc = acc * 4;
        i += 1;
    }
    acc
}

/// `4^pow` as a left shift of `1` by `2 * pow`, clamped to `0` by a
/// comparison once the exponent is out of range.
pub fn four_to_pow_v2(pow: u64) -> (r: u64)
    ensures
        r == four_to_pow_spec(pow),
{
    let word_bits: u64 = 64;
    if pow >= word_bits / 2 {
        return 0;
    }
    proof {
        lemma_pow4_fits(pow);
        vstd::bits::lemma_u64_pow2_no_overflow(2 * pow as nat);
        vstd::bits::lemma_u64_shl_is_mul(1, (2 * pow) as u64);
    }
    1u64 << (2 * pow)
}

/// `4^pow` as a left shift, clamped branchlessly: the bits of the
/// exponent at or above half the word width are masked out ahead of the
/// shift, so the shift amount always stays in range, and a keep word —
/// all ones exactly while the exponent is in range — zeroes the result
/// for every out-of-range exponent. Both correction words come from the
/// borrow-based zero test, which is exact even for exponents above half
/// the word range.
pub fn four_to_pow_v3(pow: u64) -> (r: u64)
    ensures
        r == four_to_pow_spec(pow),
{
    let word_bits: u64 = 64;
    let exceeds: u64 = pow & !(word_bits / 2 - 1);
    let z: u64 = greater_zero_ret_one_4(exceeds);
    let clamped: u64 = pow & !(z * u64::MAX);
    let keep: u64 = greater_zero_ret_zero(exceeds) * u64::MAX;
    proof {
        assert((pow & !31u64) == 0 <==> pow < 32) by (bit_vector);
        assert(pow & !0u64 == pow) by (bit_vector);
        assert(pow & !0xffff_ffff_ffff_ffffu64 == 0) by (bit_vector);
        if pow < 32 {
            lemma_pow4_fits(pow);
            vstd::bits::lemma_u64_pow2_no_overflow(2 * pow as nat);
            vstd::bits::lemma_u64_shl_is_mul(1, (2 * pow) as u64);
            assert((1u64 << (2 * clamped)) & 0xffff_ffff_ffff_ffffu64 == (1u64 << (2
                * clamped))) by (bit_vector)
                requires
                    clamped < 32,
            ;
        } else {
            assert((1u64 << (2 * clamped)) & 0u64 == 0u64) by (bit_vector)
                requires
                    clamped < 32,
            ;
        }
    }
    (1u64 << (2 * clamped)) & keep
}

} // verus!
