//! Checked integer arithmetic over 128-bit amounts and a 256-bit product.
//!
//! Amounts are `u128`. The product of two amounts needs 256 bits and is held
//! in [`U256`], whose view is the number it stands for. Every operation says
//! in its contract which number it returns and on which inputs it fails.

use vstd::prelude::*;
use vstd::arithmetic::power::{pow, lemma_pow0, lemma_pow_increases};
use crate::error::{ArithmeticError, ContractError, lift};
use crate::outside::{uint128_checked_multiply_ratio, uint128_full_mul, uint256_checked_div};

verus! {

/// Two to the power 128: the weight of the high half of a [`U256`].
pub open spec fn two_pow_128() -> nat {
    0x1_0000_0000_0000_0000_0000_0000_0000_0000nat
}

/// Parts per million in a whole: the scale of a fee fraction.
pub const PCT_SCALE: u128 = 1_000_000;

/// An unsigned 256-bit integer, as two 128-bit halves.
#[derive(Clone, Copy, Debug, PartialEq, Eq, Structural)]
pub struct U256 {
    /// The upper 128 bits.
    pub hi: u128,
    /// The lower 128 bits.
    pub lo: u128,
}

impl View for U256 {
    type V = nat;

    open spec fn view(&self) -> nat {
        self.hi as nat * two_pow_128() + self.lo as nat
    }
}

impl U256 {
    /// The 256-bit integer with the value of `x`.
    pub fn from_u128(x: u128) -> (r: U256)
        ensures
            r@ == x,
            r == (U256 { hi: 0, lo: x }),
    {
        U256 { hi: 0, lo: x }
    }

    /// The value as a `u128`, where it fits in one.
    pub fn to_u128(&self) -> (r: Option<u128>)
        ensures
            self@ <= u128::MAX ==> r == Some(self@ as u128),
            self@ > u128::MAX ==> r is None,
    {
        proof {
            lemma_high_half_dominates(*self);
        }
        if self.hi == 0 {
            Some(self.lo)
        } else {
            None
        }
    }

    /// Whether the value is zero.
    pub fn is_zero(&self) -> (r: bool)
        ensures
            r == (self@ == 0),
    {
        proof {
            lemma_high_half_dominates(*self);
        }
        self.hi == 0 && self.lo == 0
    }
}

/// A `U256` is below two to the 128 exactly when its high half is zero, and
/// is then its low half.
pub proof fn lemma_high_half_dominates(x: U256)
    ensures
        x.hi == 0 ==> x@ == x.lo,
        x.hi != 0 ==> x@ > u128::MAX,
{
    if x.hi != 0 {
        assert(x.hi as nat * two_pow_128() >= two_pow_128()) by (nonlinear_arith)
            requires
                x.hi >= 1,
        ;
    }
}

/// Two `U256` values that stand for the same number are the same value.
pub proof fn lemma_view_injective(x: U256, y: U256)
    requires
        x@ == y@,
    ensures
        x == y,
{
    let p = two_pow_128() as int;
    let (xh, xl, yh, yl) = (x.hi as int, x.lo as int, y.hi as int, y.lo as int);
    assert(xh == yh) by (nonlinear_arith)
        requires
            xh * p + xl == yh * p + yl,
            0 <= xl < p,
            0 <= yl < p,
            p > 0,
    ;
    assert(xh * p == yh * p);
}

/// The exact sum, or `Overflow` where it does not fit in 128 bits.
pub open spec fn spec_add_u128(a: u128, b: u128) -> Result<u128, ArithmeticError> {
    if a + b > u128::MAX {
        Err(ArithmeticError::Overflow)
    } else {
        Ok((a + b) as u128)
    }
}

/// The exact difference, or `Underflow` where it is negative.
pub open spec fn spec_sub_u128(a: u128, b: u128) -> Result<u128, ArithmeticError> {
    if a < b {
        Err(ArithmeticError::Underflow)
    } else {
        Ok((a - b) as u128)
    }
}

/// The exact sum, or `Overflow` where it does not fit in 32 bits.
pub open spec fn spec_add_u32(a: u32, b: u32) -> Result<u32, ArithmeticError> {
    if a + b > u32::MAX {
        Err(ArithmeticError::Overflow)
    } else {
        Ok((a + b) as u32)
    }
}

/// The exact sum, or `Overflow` where it does not fit in 64 bits.
pub open spec fn spec_add_u64(a: u64, b: u64) -> Result<u64, ArithmeticError> {
    if a + b > u64::MAX {
        Err(ArithmeticError::Overflow)
    } else {
        Ok((a + b) as u64)
    }
}

/// `a * n / d` rounded down, computed without intermediate overflow:
/// `DivideByZero` where `d` is zero, `Overflow` where the quotient does not
/// fit in 128 bits.
pub open spec fn spec_mul_ratio_u128(a: u128, n: u128, d: u128) -> Result<u128, ArithmeticError> {
    if d == 0 {
        Err(ArithmeticError::DivideByZero)
    } else if (a * n) / (d as int) > u128::MAX {
        Err(ArithmeticError::Overflow)
    } else {
        Ok(((a * n) / (d as int)) as u128)
    }
}

/// The share `pct` parts per million of `amount`, rounded down.
pub open spec fn spec_mul_pct_u128(amount: u128, pct: u128) -> Result<u128, ArithmeticError> {
    spec_mul_ratio_u128(amount, pct, PCT_SCALE)
}

/// Ten to the power `decimals`, or `Overflow` where it does not fit in 128
/// bits (from 39 decimals on).
pub open spec fn spec_pow10(decimals: u8) -> Result<u128, ArithmeticError> {
    if pow(10, decimals as nat) > u128::MAX {
        Err(ArithmeticError::Overflow)
    } else {
        Ok(pow(10, decimals as nat) as u128)
    }
}

/// The 256-bit quotient `k / d` rounded down, or `DivideByZero`.
pub open spec fn spec_div_u256(k: U256, d: u128) -> Result<nat, ArithmeticError> {
    if d == 0 {
        Err(ArithmeticError::DivideByZero)
    } else {
        Ok(k@ / (d as nat))
    }
}

/// Adds two amounts, failing on overflow.
pub fn add_u128(a: u128, b: u128) -> (r: Result<u128, ContractError>)
    ensures
        r == lift(spec_add_u128(a, b)),
{
    match a.checked_add(b) {
        Some(v) => Ok(v),
        None => Err(ContractError::Arithmetic(ArithmeticError::Overflow)),
    }
}

/// Subtracts `b` from `a`, failing where `b` is the larger.
pub fn sub_u128(a: u128, b: u128) -> (r: Result<u128, ContractError>)
    ensures
        r == lift(spec_sub_u128(a, b)),
{
    match a.checked_sub(b) {
        Some(v) => Ok(v),
        None => Err(ContractError::Arithmetic(ArithmeticError::Underflow)),
    }
}

/// Adds two 32-bit counters, failing on overflow.
pub fn add_u32(a: u32, b: u32) -> (r: Result<u32, ContractError>)
    ensures
        r == lift(spec_add_u32(a, b)),
{
    match a.checked_add(b) {
        Some(v) => Ok(v),
        None => Err(ContractError::Arithmetic(ArithmeticError::Overflow)),
    }
}

/// Adds two 64-bit counters, failing on overflow.
pub fn add_u64(a: u64, b: u64) -> (r: Result<u64, ContractError>)
    ensures
        r == lift(spec_add_u64(a, b)),
{
    match a.checked_add(b) {
        Some(v) => Ok(v),
        None => Err(ContractError::Arithmetic(ArithmeticError::Overflow)),
    }
}

/// The exact 256-bit product of two amounts.
pub fn mul_u256(a: u128, b: u128) -> (r: U256)
    ensures
        r@ == a as nat * b as nat,
{
    uint128_full_mul(a, b)
}

/// Divides a 256-bit number by an amount, rounding down.
pub fn div_u256(k: U256, d: u128) -> (r: Result<U256, ContractError>)
    ensures
        match spec_div_u256(k, d) {
            Ok(q) => r is Ok && r->Ok_0@ == q,
            Err(e) => r == Err::<U256, ContractError>(ContractError::Arithmetic(e)),
        },
{
    match uint256_checked_div(k, d) {
        Some(q) => Ok(q),
        None => Err(ContractError::Arithmetic(ArithmeticError::DivideByZero)),
    }
}

/// `a * n / d` rounded down, with the product formed in 256 bits.
pub fn mul_ratio_u128(a: u128, n: u128, d: u128) -> (r: Result<u128, ContractError>)
    ensures
        r == lift(spec_mul_ratio_u128(a, n, d)),
{
    match uint128_checked_multiply_ratio(a, n, d) {
        Ok(v) => Ok(v),
        Err(e) => Err(ContractError::Arithmetic(e)),
    }
}

/// The share `pct` parts per million of `amount`, rounded down.
pub fn mul_pct_u128(amount: u128, pct: u128) -> (r: Result<u128, ContractError>)
    ensures
        r == lift(spec_mul_pct_u128(amount, pct)),
        pct <= PCT_SCALE ==> r is Ok && r->Ok_0 <= amount,
{
    proof {
        if pct <= PCT_SCALE {
            lemma_share_is_bounded(amount, pct);
        }
    }
    mul_ratio_u128(amount, pct, PCT_SCALE)
}

/// A share of at most the whole is at most the amount it is a share of: it
/// can always be computed, and it can always be taken off the amount.
pub proof fn lemma_share_is_bounded(amount: u128, pct: u128)
    requires
        pct <= PCT_SCALE,
    ensures
        (amount * pct) / (PCT_SCALE as int) <= amount,
        spec_mul_pct_u128(amount, pct) is Ok,
        spec_mul_pct_u128(amount, pct)->Ok_0 <= amount,
        spec_sub_u128(amount, spec_mul_pct_u128(amount, pct)->Ok_0) is Ok,
{
    let (a, p, s) = (amount as int, pct as int, PCT_SCALE as int);
    assert(a * p <= a * s) by (nonlinear_arith)
        requires
            0 <= a,
            0 <= p <= s,
    ;
    assert((a * p) / s <= a) by (nonlinear_arith)
        requires
            a * p <= a * s,
            s > 0,
    ;
}

/// Ten to the power `decimals`, failing where it does not fit in 128 bits.
pub fn pow10(decimals: u8) -> (r: Result<u128, ContractError>)
    ensures
        r == lift(spec_pow10(decimals)),
{
    let mut acc: u128 = 1;
    let mut i: u8 = 0;
    proof {
        lemma_pow0(10);
    }
    while i < decimals
        invariant
            i <= decimals,
            acc == pow(10, i as nat),
        decreases decimals - i,
    {
        proof {
            lemma_pow_step(10, i as nat);
        }
        match acc.checked_mul(10) {
            Some(v) => {
                acc = v;
            },
            None => {
                proof {
                    lemma_pow_increases(10, (i + 1) as nat, decimals as nat);
                }
                return Err(ContractError::Arithmetic(ArithmeticError::Overflow));
            },
        }
        i = i + 1;
    }
    Ok(acc)
}

/// One more factor: `pow(b, e + 1)` is `b * pow(b, e)`.
pub proof fn lemma_pow_step(b: int, e: nat)
    ensures
        pow(b, e + 1) == b * pow(b, e),
{
    reveal(pow);
}

} // verus!
