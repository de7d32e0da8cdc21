use branchless_bits::build_bit_mask;
use branchless_bits::build_bit_mask2;
use branchless_bits::four_to_pow;
use branchless_bits::four_to_pow_v2;
use branchless_bits::four_to_pow_v3;
use branchless_bits::greater_zero_ret_one;
use branchless_bits::greater_zero_ret_one_2;
use branchless_bits::greater_zero_ret_one_3;
use branchless_bits::greater_zero_ret_one_4;
use branchless_bits::greater_zero_ret_zero;
use branchless_bits::simple_build_bit_mask;
use branchless_bits::sub_with_borrow;
use branchless_bits::test_build_bit_mask_valid;

#[test]
fn zero_test_variants_match_reference() {
    let samples: [u64; 9] = [
        0,
        1,
        2,
        3,
        42,
        0x8000_0000_0000_0000,
        0x8000_0000_0000_0001,
        u64::MAX - 1,
        u64::MAX,
    ];
    for &num in samples.iter() {
        let expected: u64 = if num > 0 { 1 } else { 0 };
        assert_eq!(greater_zero_ret_one(num), expected);
        assert_eq!(greater_zero_ret_one_2(num), expected);
        assert_eq!(greater_zero_ret_one_3(num), expected);
        assert_eq!(greater_zero_ret_one_4(num), expected);
    }
}

#[test]
fn borrow_formulation_is_exact_above_half_the_range() {
    // The top bit of `0 - num` stops carrying the answer above 2^63;
    // the borrow indicator keeps carrying it.
    assert_eq!(greater_zero_ret_one_3(0x8000_0000_0000_0000), 1);
    assert_eq!(greater_zero_ret_one_3(0x8000_0000_0000_0001), 1);
    assert_eq!(greater_zero_ret_one_3(u64::MAX), 1);
    assert_eq!(greater_zero_ret_one_4(0x8000_0000_0000_0001), 1);
    assert_eq!(greater_zero_ret_one_4(u64::MAX), 1);
}

#[test]
fn complement_law_on_samples() {
    let samples: [u64; 7] = [0, 1, 2, 63, 0x8000_0000_0000_0000, u64::MAX - 1, u64::MAX];
    for &num in samples.iter() {
        assert_eq!(greater_zero_ret_one_4(num) + greater_zero_ret_zero(num), 1);
        assert_eq!(greater_zero_ret_one(num) + greater_zero_ret_zero(num), 1);
    }
    assert_eq!(greater_zero_ret_zero(0), 1);
    assert_eq!(greater_zero_ret_zero(7), 0);
    assert_eq!(greater_zero_ret_zero(u64::MAX), 0);
}

#[test]
fn sub_with_borrow_reports_the_borrow() {
    assert_eq!(sub_with_borrow(5, 3), (2, false));
    assert_eq!(sub_with_borrow(3, 5), (u64::MAX - 1, true));
    assert_eq!(sub_with_borrow(0, 1), (u64::MAX, true));
    assert_eq!(sub_with_borrow(0, 0), (0, false));
    assert_eq!(sub_with_borrow(0, u64::MAX), (1, true));
}

#[test]
fn mask_builders_agree_with_the_reference_loop() {
    for off in 0u64..=66 {
        for cnt in 0u64..=66 {
            let mut block: u64 = 0;
            let mut bit: u64 = 0;
            while bit < cnt && bit < 64 {
                block |= 1u64 << bit;
                bit += 1;
            }
            let expected: u64 = if off < 64 { block << off } else { 0 };
            assert_eq!(build_bit_mask(off, cnt), expected);
            assert_eq!(simple_build_bit_mask(off, cnt), expected);
            assert_eq!(build_bit_mask2(off, cnt), expected);
        }
    }
}

#[test]
fn mask_scenarios() {
    assert_eq!(build_bit_mask(0, 0), 0);
    assert_eq!(build_bit_mask(2, 3), 0b11100);
    assert_eq!(build_bit_mask2(2, 3), 0b11100);
    assert_eq!(build_bit_mask(0, 64), u64::MAX);
    assert_eq!(build_bit_mask2(0, 64), u64::MAX);
    assert_eq!(build_bit_mask(63, 1), 1u64 << 63);
    // A block reaching past the top of the word is truncated.
    assert_eq!(build_bit_mask(60, 8), 0xf000_0000_0000_0000);
    assert_eq!(build_bit_mask2(60, 8), 0xf000_0000_0000_0000);
    // A count past the word width saturates the block.
    assert_eq!(build_bit_mask(0, 100), u64::MAX);
    assert_eq!(build_bit_mask2(0, 100), u64::MAX);
    assert_eq!(build_bit_mask2(0, u64::MAX), u64::MAX);
    // An offset past the word width shifts every bit out.
    assert_eq!(build_bit_mask(64, 5), 0);
    assert_eq!(build_bit_mask2(64, 5), 0);
    assert_eq!(build_bit_mask2(100, 100), 0);
    assert_eq!(build_bit_mask2(u64::MAX, 3), 0);
}

#[test]
fn mask_zero_count_is_zero_for_any_offset() {
    for off in 0u64..=70 {
        assert_eq!(build_bit_mask(off, 0), 0);
        assert_eq!(build_bit_mask2(off, 0), 0);
        assert_eq!(simple_build_bit_mask(off, 0), 0);
    }
    assert_eq!(build_bit_mask(u64::MAX, 0), 0);
    assert_eq!(build_bit_mask2(u64::MAX, 0), 0);
}

#[test]
fn four_to_pow_exact_values_and_clamp() {
    assert_eq!(four_to_pow(0), 1);
    assert_eq!(four_to_pow(1), 4);
    assert_eq!(four_to_pow(2), 16);
    assert_eq!(four_to_pow(3), 64);
    assert_eq!(four_to_pow(31), 1u64 << 62);
    // From half the word width on, the result saturates to zero.
    assert_eq!(four_to_pow(32), 0);
    assert_eq!(four_to_pow(33), 0);
    assert_eq!(four_to_pow(u64::MAX), 0);
}

#[test]
fn four_to_pow_variants_agree() {
    for e in 0u64..=70 {
        let expected: u64 = if e < 32 { 1u64 << (2 * e) } else { 0 };
        assert_eq!(four_to_pow(e), expected);
        assert_eq!(four_to_pow_v2(e), expected);
        assert_eq!(four_to_pow_v3(e), expected);
    }
    assert_eq!(four_to_pow_v2(u64::MAX), 0);
    assert_eq!(four_to_pow_v3(u64::MAX), 0);
    assert_eq!(four_to_pow_v3(0x8000_0000_0000_0020), 0);
}

#[test]
fn exhaustive_builder_harness_runs() {
    test_build_bit_mask_valid();
}
