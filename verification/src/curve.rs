//! The constant-product curve: two reserves whose product is held at `k`,
//! rounding in the pool's favour.

use vstd::prelude::*;
use vstd::arithmetic::div_mod::{lemma_fundamental_div_mod, lemma_mod_bound};
use vstd::arithmetic::mul::lemma_mul_is_commutative;
use crate::error::{ArithmeticError, ContractError, lift};
use crate::math::{
    add_u128, div_u256, mul_ratio_u128, pow10, spec_mul_ratio_u128, spec_pow10, sub_u128, U256,
};

verus! {

/// The pool: the product `k` fixed at creation, and the two reserves with
/// the number of decimals of each asset.
#[derive(Clone, Copy, Debug, PartialEq, Eq, Structural)]
pub struct Curve {
    /// The constant product.
    pub k: U256,
    /// Units of the base asset in the pool.
    pub base_reserve: u128,
    /// Decimals of the base asset.
    pub base_decimals: u8,
    /// Units of the quote asset in the pool, the virtual offset included.
    pub quote_reserve: u128,
    /// Decimals of the quote asset.
    pub quote_decimals: u8,
}

/// What a swap does to the pool: the reserves after it and the amount paid
/// out.
pub struct SwapQuote {
    /// The pool after the swap.
    pub curve: Curve,
    /// What leaves the pool.
    pub out_amount: u128,
}

/// The share of the price formulas: `amount * 10^decimals / divisor`, the
/// power checked first.
pub open spec fn spec_scaled_ratio(amount: u128, decimals: u8, divisor: u128) -> Result<
    u128,
    ArithmeticError,
> {
    match spec_pow10(decimals) {
        Err(e) => Err(e),
        Ok(scale) => spec_mul_ratio_u128(amount, scale, divisor),
    }
}

impl Curve {
    /// The product of the two reserves.
    pub open spec fn product(self) -> nat {
        self.base_reserve as nat * self.quote_reserve as nat
    }

    /// The reserves never stand for more than `k`.
    pub open spec fn in_pool_favor(self) -> bool {
        self.product() <= self.k@
    }

    /// What rounding has cost the trader: `k` less the product of the
    /// reserves.
    pub open spec fn rounding_loss(self) -> int {
        self.k@ - self.product()
    }

    /// A buy of `in_amount` quote units, before the slippage bound is
    /// applied: the quote reserve grows by the input, the base reserve
    /// becomes `k` divided by the new quote reserve, and the difference is
    /// paid out.
    pub open spec fn spec_buy(self, in_amount: u128) -> Result<SwapQuote, ArithmeticError> {
        let new_quote = self.quote_reserve + in_amount;
        if new_quote > u128::MAX {
            Err(ArithmeticError::Overflow)
        } else if new_quote == 0 {
            Err(ArithmeticError::DivideByZero)
        } else {
            let new_base = self.k@ / (new_quote as nat);
            if new_base > self.base_reserve {
                Err(ArithmeticError::Underflow)
            } else {
                Ok(
                    SwapQuote {
                        curve: Curve {
                            base_reserve: new_base as u128,
                            quote_reserve: new_quote as u128,
                            ..self
                        },
                        out_amount: (self.base_reserve - new_base) as u128,
                    },
                )
            }
        }
    }

    /// A sell of `in_amount` base units, before the slippage bound is
    /// applied: as a buy, with the roles of the reserves exchanged.
    pub open spec fn spec_sell(self, in_amount: u128) -> Result<SwapQuote, ArithmeticError> {
        let new_base = self.base_reserve + in_amount;
        if new_base > u128::MAX {
            Err(ArithmeticError::Overflow)
        } else if new_base == 0 {
            Err(ArithmeticError::DivideByZero)
        } else {
            let new_quote = self.k@ / (new_base as nat);
            if new_quote > self.quote_reserve {
                Err(ArithmeticError::Underflow)
            } else {
                Ok(
                    SwapQuote {
                        curve: Curve {
                            base_reserve: new_base as u128,
                            quote_reserve: new_quote as u128,
                            ..self
                        },
                        out_amount: (self.quote_reserve - new_quote) as u128,
                    },
                )
            }
        }
    }

    /// The price of one base unit in quote units, scaled by the quote
    /// decimals.
    pub open spec fn spec_quote_price(self) -> Result<u128, ArithmeticError> {
        spec_scaled_ratio(self.quote_reserve, self.quote_decimals, self.base_reserve)
    }

    /// The price of one quote unit in base units, scaled by the quote
    /// decimals.
    pub open spec fn spec_base_price(self) -> Result<u128, ArithmeticError> {
        spec_scaled_ratio(self.base_reserve, self.quote_decimals, self.quote_reserve)
    }

    /// What `quote_amount` is worth in base units at the present price.
    pub open spec fn spec_to_base_amount(self, quote_amount: u128) -> Result<
        u128,
        ArithmeticError,
    > {
        match spec_pow10(self.quote_decimals) {
            Err(e) => Err(e),
            Ok(scale) => match self.spec_base_price() {
                Err(e) => Err(e),
                Ok(price) => spec_mul_ratio_u128(quote_amount, scale, price),
            },
        }
    }

    /// What `base_amount` is worth in quote units at the present price.
    pub open spec fn spec_to_quote_amount(self, base_amount: u128) -> Result<
        u128,
        ArithmeticError,
    > {
        match spec_pow10(self.base_decimals) {
            Err(e) => Err(e),
            Ok(scale) => match self.spec_quote_price() {
                Err(e) => Err(e),
                Ok(price) => spec_mul_ratio_u128(base_amount, scale, price),
            },
        }
    }

    /// Swaps `in_amount` quote units into the pool for base units.
    ///
    /// On an arithmetic failure the pool is left as it was. Otherwise the
    /// reserves are moved, also where the output then falls short of
    /// `min_amount_out` and the call fails with `TooMuchSlippage`: the caller
    /// discards the pool with the rest of the operation.
    pub fn buy(&mut self, in_amount: u128, min_amount_out: Option<u128>) -> (r: Result<
        u128,
        ContractError,
    >)
        ensures
            match old(self).spec_buy(in_amount) {
                Err(e) => {
                    &&& r == Err::<u128, ContractError>(ContractError::Arithmetic(e))
                    &&& *final(self) == *old(self)
                },
                Ok(quote) => {
                    &&& *final(self) == quote.curve
                    &&& r == if min_amount_out is Some && quote.out_amount < min_amount_out->0 {
                        Err::<u128, ContractError>(ContractError::TooMuchSlippage {  })
                    } else {
                        Ok::<u128, ContractError>(quote.out_amount)
                    }
                    &&& final(self).in_pool_favor()
                    &&& final(self).rounding_loss() < final(self).quote_reserve
                },
            },
    {
        let new_quote_reserve: u128 = add_u128(self.quote_reserve, in_amount)?;
        let new_base_reserve: u128 = match div_u256(self.k, new_quote_reserve)?.to_u128() {
            Some(v) => v,
            None => {
                return Err(ContractError::Arithmetic(ArithmeticError::Underflow));
            },
        };
        let out_amount: u128 = sub_u128(self.base_reserve, new_base_reserve)?;
        proof {
            lemma_quotient_bounds(self.k@, new_quote_reserve as nat);
        }

        self.base_reserve = new_base_reserve;
        self.quote_reserve = new_quote_reserve;

        if let Some(min_amount_out) = min_amount_out {
            if out_amount < min_amount_out {
                return Err(ContractError::TooMuchSlippage {  });
            }
        }
        Ok(out_amount)
    }

    /// Swaps `in_amount` base units into the pool for quote units.
    ///
    /// On an arithmetic failure the pool is left as it was. Otherwise the
    /// reserves are moved, also where the output then falls short of
    /// `min_amount_out` and the call fails with `TooMuchSlippage`.
    pub fn sell(&mut self, in_amount: u128, min_amount_out: Option<u128>) -> (r: Result<
        u128,
        ContractError,
    >)
        ensures
            match old(self).spec_sell(in_amount) {
                Err(e) => {
                    &&& r == Err::<u128, ContractError>(ContractError::Arithmetic(e))
                    &&& *final(self) == *old(self)
                },
                Ok(quote) => {
                    &&& *final(self) == quote.curve
                    &&& r == if min_amount_out is Some && quote.out_amount < min_amount_out->0 {
                        Err::<u128, ContractError>(ContractError::TooMuchSlippage {  })
                    } else {
                        Ok::<u128, ContractError>(quote.out_amount)
                    }
                    &&& final(self).in_pool_favor()
                    &&& final(self).rounding_loss() < final(self).base_reserve
                },
            },
    {
        let new_base_reserve: u128 = add_u128(self.base_reserve, in_amount)?;
        let new_quote_reserve: u128 = match div_u256(self.k, new_base_reserve)?.to_u128() {
            Some(v) => v,
            None => {
                return Err(ContractError::Arithmetic(ArithmeticError::Underflow));
            },
        };
        let out_amount: u128 = sub_u128(self.quote_reserve, new_quote_reserve)?;
        proof {
            lemma_quotient_bounds(self.k@, new_base_reserve as nat);
            lemma_mul_is_commutative(new_base_reserve as int, new_quote_reserve as int);
        }

        self.base_reserve = new_base_reserve;
        self.quote_reserve = new_quote_reserve;

        if let Some(min_amount_out) = min_amount_out {
            if out_amount < min_amount_out {
                return Err(ContractError::TooMuchSlippage {  });
            }
        }
        Ok(out_amount)
    }

    /// The price of one base unit in quote units:
    /// `quote_reserve * 10^quote_decimals / base_reserve`, rounded down.
    pub fn calculate_quote_price(&self) -> (r: Result<u128, ContractError>)
        ensures
            r == lift(self.spec_quote_price()),
    {
        let scale: u128 = pow10(self.quote_decimals)?;
        mul_ratio_u128(self.quote_reserve, scale, self.base_reserve)
    }

    /// What `quote_amount` is worth in base units:
    /// `quote_amount * 10^quote_decimals / base_price`, rounded down.
    pub fn to_base_amount(&self, quote_amount: u128) -> (r: Result<u128, ContractError>)
        ensures
            r == lift(self.spec_to_base_amount(quote_amount)),
    {
        let scale: u128 = pow10(self.quote_decimals)?;
        let price: u128 = self.calculate_base_price()?;
        mul_ratio_u128(quote_amount, scale, price)
    }

    /// What `base_amount` is worth in quote units:
    /// `base_amount * 10^base_decimals / quote_price`, rounded down.
    pub fn to_quote_amount(&self, base_amount: u128) -> (r: Result<u128, ContractError>)
        ensures
            r == lift(self.spec_to_quote_amount(base_amount)),
    {
        let scale: u128 = pow10(self.base_decimals)?;
        let price: u128 = self.calculate_quote_price()?;
        mul_ratio_u128(base_amount, scale, price)
    }

    /// The price of one quote unit in base units:
    /// `base_reserve * 10^quote_decimals / quote_reserve`, rounded down.
    pub fn calculate_base_price(&self) -> (r: Result<u128, ContractError>)
        ensures
            r == lift(self.spec_base_price()),
    {
        let scale: u128 = pow10(self.quote_decimals)?;
        mul_ratio_u128(self.base_reserve, scale, self.quote_reserve)
    }
}

/// A quotient rounded down, times the divisor, is at most the dividend and
/// misses it by less than the divisor.
pub proof fn lemma_quotient_bounds(k: nat, d: nat)
    requires
        d > 0,
    ensures
        (k / d) * d <= k,
        k - (k / d) * d < d,
        k - (k / d) * d == k % d,
{
    lemma_fundamental_div_mod(k as int, d as int);
    lemma_mod_bound(k as int, d as int);
    lemma_mul_is_commutative((k / d) as int, d as int);
}

/// After every buy that moves the reserves, their product is at most `k`
/// and falls short of it by less than the quote reserve.
pub proof fn lemma_buy_keeps_product(curve: Curve, in_amount: u128)
    requires
        curve.spec_buy(in_amount) is Ok,
    ensures
        ({
            let after = curve.spec_buy(in_amount)->Ok_0.curve;
            &&& after.k == curve.k
            &&& after.product() <= after.k@
            &&& after.k@ - after.product() < after.quote_reserve
        }),
{
    lemma_quotient_bounds(curve.k@, (curve.quote_reserve + in_amount) as nat);
}

/// After every sell that moves the reserves, their product is at most `k`
/// and falls short of it by less than the base reserve. The shortfall is
/// `k` modulo the new base reserve, so it stays below the quote reserve too
/// exactly when that remainder is below the new quote reserve.
pub proof fn lemma_sell_keeps_product(curve: Curve, in_amount: u128)
    requires
        curve.spec_sell(in_amount) is Ok,
    ensures
        ({
            let after = curve.spec_sell(in_amount)->Ok_0.curve;
            &&& after.k == curve.k
            &&& after.product() <= after.k@
            &&& after.k@ - after.product() < after.base_reserve
            &&& after.k@ - after.product() == curve.k@ % (after.base_reserve as nat)
            &&& (after.k@ - after.product() < after.quote_reserve <==> curve.k@ % (
            after.base_reserve as nat) < after.quote_reserve)
        }),
{
    let new_base = (curve.base_reserve + in_amount) as nat;
    lemma_quotient_bounds(curve.k@, new_base);
    lemma_mul_is_commutative(new_base as int, (curve.k@ / new_base) as int);
}

} // verus!
