//! Branchless integer primitives over 64-bit machine words: a zero/non-zero
//! predicate family that returns `0` or `1` without relying on comparison
//! results flowing through control flow, a contiguous bit-mask constructor
//! that stays defined at the full-width-shift boundary, and a saturating
//! power-of-four helper built on the same predicate.
//!
//! The word type is `u64` throughout, so the word width `W` is 64 and the
//! bit-level contracts are stated over a fixed width.

pub mod bit_mask;
pub mod pow_four;

pub use crate::bit_mask::build_bit_mask;
pub use crate::bit_mask::build_bit_mask2;
pub use crate::bit_mask::simple_build_bit_mask;
pub use crate::bit_mask::test_build_bit_mask_valid;
pub use crate::pow_four::four_to_pow;
pub use crate::pow_four::four_to_pow_v2;
pub use crate::pow_four::four_to_pow_v3;
pub use crate::zero_test::greater_zero_ret_one;
pub use crate::zero_test::greater_zero_ret_one_2;
pub use crate::zero_test::greater_zero_ret_one_3;
pub use crate::zero_test::greater_zero_ret_one_4;
pub use crate::zero_test::greater_zero_ret_zero;
pub use crate::zero_test::sub_with_borrow;
