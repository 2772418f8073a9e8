use cw_curve::curve::Curve;
use cw_curve::error::{ArithmeticError, ContractError};
use cw_curve::math::{mul_u256, U256};

fn pool(base_reserve: u128, quote_reserve: u128) -> Curve {
    Curve {
        k: mul_u256(base_reserve, quote_reserve),
        base_reserve,
        base_decimals: 6,
        quote_reserve,
        quote_decimals: 6,
    }
}

#[test]
fn buy_moves_reserves_along_the_curve() {
    let mut curve = pool(1_000_000, 1_000);
    assert_eq!(curve.k, U256 { hi: 0, lo: 1_000_000_000 });
    let out = curve.buy(100, None);
    assert_eq!(out, Ok(90_910));
    assert_eq!(curve.quote_reserve, 1_100);
    assert_eq!(curve.base_reserve, 909_090);
    assert_eq!(curve.k, U256 { hi: 0, lo: 1_000_000_000 });
}

#[test]
fn sell_moves_reserves_along_the_curve() {
    let mut curve = pool(1_000_000, 1_000);
    let out = curve.sell(250_000, None);
    // 1_000_000_000 / 1_250_000 = 800
    assert_eq!(out, Ok(200));
    assert_eq!(curve.base_reserve, 1_250_000);
    assert_eq!(curve.quote_reserve, 800);
}

#[test]
fn buy_rounds_in_the_pools_favor() {
    let mut curve = pool(1_000_000, 1_000);
    curve.buy(100, None).unwrap();
    let product = curve.base_reserve * curve.quote_reserve;
    assert_eq!(product, 999_999_000);
    assert!(product <= 1_000_000_000);
    assert!(1_000_000_000 - product < curve.quote_reserve);
}

#[test]
fn sell_rounds_in_the_pools_favor() {
    let mut curve = pool(1_000_000, 1_000);
    assert_eq!(curve.sell(7, None), Ok(1));
    assert_eq!(curve.base_reserve, 1_000_007);
    assert_eq!(curve.quote_reserve, 999);
    let product = curve.base_reserve * curve.quote_reserve;
    assert_eq!(product, 999_006_993);
    assert!(product <= 1_000_000_000);
    // the shortfall is below the base reserve, though not below the quote reserve
    assert_eq!(1_000_000_000 - product, 993_007);
    assert!(1_000_000_000 - product < curve.base_reserve);
}

#[test]
fn product_bound_holds_along_a_history() {
    let mut curve = pool(5_000_000_000, 3_000_000);
    let k: u128 = 5_000_000_000 * 3_000_000;
    for step in 0u128..40 {
        if step % 3 == 2 {
            curve.sell(1_000 + 77 * step, None).unwrap();
            let product = curve.base_reserve * curve.quote_reserve;
            assert!(product <= k);
            assert!(k - product < curve.base_reserve);
        } else {
            curve.buy(10 + 13 * step, None).unwrap();
            let product = curve.base_reserve * curve.quote_reserve;
            assert!(product <= k);
            assert!(k - product < curve.quote_reserve);
        }
        assert_eq!(curve.k, U256 { hi: 0, lo: k });
    }
}

#[test]
fn buy_below_the_bound_is_refused_after_the_reserves_moved() {
    let mut curve = pool(1_000_000, 1_000);
    assert_eq!(curve.buy(100, Some(90_911)), Err(ContractError::TooMuchSlippage {}));
    assert_eq!(curve.quote_reserve, 1_100);
    assert_eq!(curve.base_reserve, 909_090);
}

#[test]
fn buy_at_the_bound_passes() {
    let mut curve = pool(1_000_000, 1_000);
    assert_eq!(curve.buy(100, Some(90_910)), Ok(90_910));
}

#[test]
fn sell_below_the_bound_is_refused_after_the_reserves_moved() {
    let mut curve = pool(1_000_000, 1_000);
    assert_eq!(curve.sell(250_000, Some(201)), Err(ContractError::TooMuchSlippage {}));
    assert_eq!(curve.base_reserve, 1_250_000);
    assert_eq!(curve.quote_reserve, 800);
    let mut curve = pool(1_000_000, 1_000);
    assert_eq!(curve.sell(250_000, Some(200)), Ok(200));
}

#[test]
fn buy_overflowing_the_quote_reserve_changes_nothing() {
    let mut curve = pool(1_000_000, u128::MAX);
    let before = curve;
    assert_eq!(curve.buy(1, None), Err(ContractError::Arithmetic(ArithmeticError::Overflow)));
    assert_eq!(curve, before);
}

#[test]
fn sell_overflowing_the_base_reserve_changes_nothing() {
    let mut curve = pool(u128::MAX, 1_000);
    let before = curve;
    assert_eq!(curve.sell(1, None), Err(ContractError::Arithmetic(ArithmeticError::Overflow)));
    assert_eq!(curve, before);
}

#[test]
fn buy_into_an_empty_quote_reserve_with_nothing_divides_by_zero() {
    let mut curve = pool(1_000_000, 0);
    let before = curve;
    assert_eq!(curve.buy(0, None), Err(ContractError::Arithmetic(ArithmeticError::DivideByZero)));
    assert_eq!(curve, before);
    let mut curve = pool(0, 1_000);
    assert_eq!(curve.sell(0, None), Err(ContractError::Arithmetic(ArithmeticError::DivideByZero)));
}

#[test]
fn swap_that_would_grow_the_other_reserve_underflows() {
    // k stands for more than the reserves hold
    let mut curve = Curve {
        k: U256 { hi: 0, lo: 1_000_000_000 },
        base_reserve: 10,
        base_decimals: 6,
        quote_reserve: 10,
        quote_decimals: 6,
    };
    let before = curve;
    assert_eq!(curve.buy(1, None), Err(ContractError::Arithmetic(ArithmeticError::Underflow)));
    assert_eq!(curve, before);
    assert_eq!(curve.sell(1, None), Err(ContractError::Arithmetic(ArithmeticError::Underflow)));
    assert_eq!(curve, before);
}

#[test]
fn quotient_beyond_128_bits_underflows() {
    let mut curve = Curve {
        k: U256 { hi: 5, lo: 0 },
        base_reserve: u128::MAX,
        base_decimals: 6,
        quote_reserve: 1,
        quote_decimals: 6,
    };
    let before = curve;
    assert_eq!(curve.buy(1, None), Err(ContractError::Arithmetic(ArithmeticError::Underflow)));
    assert_eq!(curve, before);
}

#[test]
fn buy_with_a_256_bit_product() {
    // k = 2^100 * 2^100 = 2^200
    let base: u128 = 1 << 100;
    let quote: u128 = 1 << 100;
    let mut curve = pool(base, quote);
    assert_eq!(curve.k, U256 { hi: 1 << 72, lo: 0 });
    // the quote reserve doubles, so the base reserve halves
    assert_eq!(curve.buy(quote, None), Ok(1 << 99));
    assert_eq!(curve.base_reserve, 1 << 99);
    assert_eq!(curve.quote_reserve, 1 << 101);
}

#[test]
fn zero_buy_pays_nothing_out() {
    let mut curve = pool(1_000_000, 1_000);
    assert_eq!(curve.buy(0, None), Ok(0));
    assert_eq!(curve, pool(1_000_000, 1_000));
}

#[test]
fn quote_price_is_quote_per_base_scaled() {
    let curve = pool(1_000_000, 1_000);
    // 1_000 * 10^6 / 1_000_000
    assert_eq!(curve.calculate_quote_price(), Ok(1_000));
    let curve = pool(3, 2);
    // 2 * 10^6 / 3, rounded down
    assert_eq!(curve.calculate_quote_price(), Ok(666_666));
}

#[test]
fn base_price_is_base_per_quote_scaled_by_quote_decimals() {
    let curve = Curve {
        k: mul_u256(1_000_000, 1_000),
        base_reserve: 1_000_000,
        base_decimals: 2,
        quote_reserve: 1_000,
        quote_decimals: 6,
    };
    // 1_000_000 * 10^6 / 1_000
    assert_eq!(curve.calculate_base_price(), Ok(1_000_000_000));
}

#[test]
fn amounts_convert_at_the_present_price() {
    let curve = Curve {
        k: mul_u256(1_000_000, 1_000),
        base_reserve: 1_000_000,
        base_decimals: 2,
        quote_reserve: 1_000,
        quote_decimals: 6,
    };
    // 5 * 10^6 / 1_000_000_000, rounded down
    assert_eq!(curve.to_base_amount(5), Ok(0));
    // 5_000 * 10^6 / 1_000_000_000
    assert_eq!(curve.to_base_amount(5_000), Ok(5));
    // 7_000 * 10^2 / 1_000
    assert_eq!(curve.to_quote_amount(7_000), Ok(700));
    // 7 * 10^2 / 1_000, rounded down
    assert_eq!(curve.to_quote_amount(7), Ok(0));
}

#[test]
fn price_of_an_empty_reserve_divides_by_zero() {
    let curve = pool(0, 1_000);
    assert_eq!(
        curve.calculate_quote_price(),
        Err(ContractError::Arithmetic(ArithmeticError::DivideByZero))
    );
    // the quote price is the divisor of the conversion
    assert_eq!(
        curve.to_quote_amount(1),
        Err(ContractError::Arithmetic(ArithmeticError::DivideByZero))
    );
    let curve = pool(1_000, 0);
    assert_eq!(
        curve.calculate_base_price(),
        Err(ContractError::Arithmetic(ArithmeticError::DivideByZero))
    );
    assert_eq!(
        curve.to_base_amount(1),
        Err(ContractError::Arithmetic(ArithmeticError::DivideByZero))
    );
}

#[test]
fn price_with_a_zero_price_as_divisor_divides_by_zero() {
    // quote price rounds down to zero
    let curve = Curve {
        k: mul_u256(u128::MAX, 1),
        base_reserve: u128::MAX,
        base_decimals: 0,
        quote_reserve: 1,
        quote_decimals: 0,
    };
    assert_eq!(curve.calculate_quote_price(), Ok(0));
    assert_eq!(
        curve.to_quote_amount(10),
        Err(ContractError::Arithmetic(ArithmeticError::DivideByZero))
    );
}

#[test]
fn too_many_decimals_overflow() {
    let curve = Curve {
        k: mul_u256(1_000_000, 1_000),
        base_reserve: 1_000_000,
        base_decimals: 39,
        quote_reserve: 1_000,
        quote_decimals: 39,
    };
    let overflow = Err(ContractError::Arithmetic(ArithmeticError::Overflow));
    assert_eq!(curve.calculate_quote_price(), overflow);
    assert_eq!(curve.calculate_base_price(), overflow);
    assert_eq!(curve.to_base_amount(1), overflow);
    assert_eq!(curve.to_quote_amount(1), overflow);
}

#[test]
fn price_too_large_overflows() {
    let curve = Curve {
        k: mul_u256(1, u128::MAX),
        base_reserve: 1,
        base_decimals: 6,
        quote_reserve: u128::MAX,
        quote_decimals: 6,
    };
    assert_eq!(
        curve.calculate_quote_price(),
        Err(ContractError::Arithmetic(ArithmeticError::Overflow))
    );
}
