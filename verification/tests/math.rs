use cw_curve::error::{ArithmeticError, ContractError};
use cw_curve::math::{
    add_u128, add_u32, add_u64, div_u256, mul_pct_u128, mul_ratio_u128, mul_u256, pow10,
    sub_u128, U256, PCT_SCALE,
};

fn overflow<T>() -> Result<T, ContractError> {
    Err(ContractError::Arithmetic(ArithmeticError::Overflow))
}

#[test]
fn add_u128_is_exact_or_overflows() {
    assert_eq!(add_u128(2, 3), Ok(5));
    assert_eq!(add_u128(u128::MAX - 1, 1), Ok(u128::MAX));
    assert_eq!(add_u128(u128::MAX, 1), overflow());
    assert_eq!(add_u128(u128::MAX, 0), Ok(u128::MAX));
}

#[test]
fn sub_u128_is_exact_or_underflows() {
    assert_eq!(sub_u128(5, 3), Ok(2));
    assert_eq!(sub_u128(5, 5), Ok(0));
    assert_eq!(sub_u128(5, 6), Err(ContractError::Arithmetic(ArithmeticError::Underflow)));
}

#[test]
fn counters_are_exact_or_overflow() {
    assert_eq!(add_u32(41, 1), Ok(42));
    assert_eq!(add_u32(u32::MAX, 1), overflow());
    assert_eq!(add_u64(41, 1), Ok(42));
    assert_eq!(add_u64(u64::MAX, 1), overflow());
}

#[test]
fn mul_u256_is_the_exact_product() {
    assert_eq!(mul_u256(0, 12345), U256 { hi: 0, lo: 0 });
    assert_eq!(mul_u256(6, 7), U256 { hi: 0, lo: 42 });
    // 2^64 * 2^64 = 2^128
    assert_eq!(mul_u256(1 << 64, 1 << 64), U256 { hi: 1, lo: 0 });
    // (2^128 - 1)^2 = 2^256 - 2^129 + 1
    assert_eq!(mul_u256(u128::MAX, u128::MAX), U256 { hi: u128::MAX - 1, lo: 1 });
    // (2^128 - 1) * 2 = 2^129 - 2
    assert_eq!(mul_u256(u128::MAX, 2), U256 { hi: 1, lo: u128::MAX - 1 });
}

#[test]
fn div_u256_rounds_down() {
    assert_eq!(div_u256(U256 { hi: 0, lo: 1_000_000_000 }, 1_100), Ok(U256 { hi: 0, lo: 909_090 }));
    assert_eq!(div_u256(U256 { hi: 0, lo: 7 }, 8), Ok(U256 { hi: 0, lo: 0 }));
    // 2^128 / 2 = 2^127
    assert_eq!(div_u256(U256 { hi: 1, lo: 0 }, 2), Ok(U256 { hi: 0, lo: 1 << 127 }));
    // (2^256 - 2^129 + 1) / (2^128 - 1) = 2^128 - 1
    assert_eq!(
        div_u256(U256 { hi: u128::MAX - 1, lo: 1 }, u128::MAX),
        Ok(U256 { hi: 0, lo: u128::MAX })
    );
    // the quotient may itself need more than 128 bits
    assert_eq!(div_u256(U256 { hi: 6, lo: 9 }, 3), Ok(U256 { hi: 2, lo: 3 }));
    assert_eq!(div_u256(U256 { hi: 5, lo: 4 }, 1), Ok(U256 { hi: 5, lo: 4 }));
}

#[test]
fn div_u256_by_zero_fails() {
    assert_eq!(
        div_u256(U256 { hi: 0, lo: 7 }, 0),
        Err(ContractError::Arithmetic(ArithmeticError::DivideByZero))
    );
    assert_eq!(
        div_u256(U256 { hi: 0, lo: 0 }, 0),
        Err(ContractError::Arithmetic(ArithmeticError::DivideByZero))
    );
}

#[test]
fn u256_converts_to_and_from_u128() {
    assert_eq!(U256::from_u128(77), U256 { hi: 0, lo: 77 });
    assert_eq!(U256 { hi: 0, lo: u128::MAX }.to_u128(), Some(u128::MAX));
    assert_eq!(U256 { hi: 1, lo: 0 }.to_u128(), None);
    assert!(U256 { hi: 0, lo: 0 }.is_zero());
    assert!(!U256 { hi: 1, lo: 0 }.is_zero());
    assert!(!U256 { hi: 0, lo: 1 }.is_zero());
}

#[test]
fn mul_ratio_rounds_down() {
    assert_eq!(mul_ratio_u128(5, 99, 100), Ok(4));
    assert_eq!(mul_ratio_u128(1_000, 1_000_000, 1_000_000), Ok(1_000));
    assert_eq!(mul_ratio_u128(0, 5, 7), Ok(0));
    assert_eq!(mul_ratio_u128(10, 0, 7), Ok(0));
}

#[test]
fn mul_ratio_forms_the_product_in_256_bits() {
    assert_eq!(mul_ratio_u128(u128::MAX, 2, 2), Ok(u128::MAX));
    assert_eq!(mul_ratio_u128(u128::MAX, u128::MAX, u128::MAX), Ok(u128::MAX));
    assert_eq!(mul_ratio_u128(1 << 127, 4, 8), Ok(1 << 126));
}

#[test]
fn mul_ratio_fails_on_zero_divisor_and_on_overflow() {
    assert_eq!(
        mul_ratio_u128(5, 5, 0),
        Err(ContractError::Arithmetic(ArithmeticError::DivideByZero))
    );
    // the zero divisor is seen first
    assert_eq!(
        mul_ratio_u128(u128::MAX, u128::MAX, 0),
        Err(ContractError::Arithmetic(ArithmeticError::DivideByZero))
    );
    assert_eq!(mul_ratio_u128(u128::MAX, 2, 1), overflow());
}

#[test]
fn mul_pct_is_parts_per_million_rounded_down() {
    assert_eq!(PCT_SCALE, 1_000_000);
    assert_eq!(mul_pct_u128(1_000, 10_000), Ok(10));
    assert_eq!(mul_pct_u128(999, 10_000), Ok(9));
    assert_eq!(mul_pct_u128(99, 10_000), Ok(0));
    assert_eq!(mul_pct_u128(12_345, 0), Ok(0));
    assert_eq!(mul_pct_u128(12_345, 1_000_000), Ok(12_345));
    assert_eq!(mul_pct_u128(u128::MAX, 1_000_000), Ok(u128::MAX));
    assert_eq!(mul_pct_u128(u128::MAX, 500_000), Ok(u128::MAX / 2));
    assert_eq!(mul_pct_u128(u128::MAX, 1_000_001), overflow());
}

#[test]
fn pow10_is_exact_up_to_38() {
    assert_eq!(pow10(0), Ok(1));
    assert_eq!(pow10(1), Ok(10));
    assert_eq!(pow10(6), Ok(1_000_000));
    assert_eq!(pow10(38), Ok(100_000_000_000_000_000_000_000_000_000_000_000_000));
    assert_eq!(pow10(39), overflow());
    assert_eq!(pow10(255), overflow());
}
