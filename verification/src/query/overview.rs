//! The overview query: fees, global statistics and the pool.

use vstd::prelude::*;
use vstd::string::*;
use crate::error::{ArithmeticError, ContractError, ContractErrorView};
use crate::math::sub_u128;
use crate::msg::{CurveAmmOverview, CurveFeeOverview, CurveStatsOverview, OverviewResponse};
use crate::query::ReadonlyContext;
use crate::state::State;

verus! {

/// That `overview` describes `state`: every entry is the state's own, and
/// the redeemable quote reserve is the quote reserve less the virtual
/// offset.
pub open spec fn spec_is_overview_of(overview: OverviewResponse, state: State) -> bool {
    &&& state.base_token is Some
    &&& overview.amm.base_token == state.base_token->0
    &&& overview.amm.base_reserve == state.curve.base_reserve
    &&& overview.amm.base_decimals == state.curve.base_decimals
    &&& overview.amm.quote_token == state.quote_token
    &&& overview.amm.quote_reserve_real == state.curve.quote_reserve - state.quote_reserve_virtual
    &&& overview.amm.quote_reserve_virtual == state.quote_reserve_virtual
    &&& overview.amm.quote_decimals == state.curve.quote_decimals
    &&& overview.amm.constant_product == state.curve.k
    &&& overview.fees.recipient == state.fee_addr
    &&& overview.fees.taker_pct == state.fee_pct_buy
    &&& overview.fees.maker_pct == state.fee_pct_sell
    &&& overview.stats.bids == state.taker_stats
    &&& overview.stats.asks == state.maker_stats
    &&& overview.stats.net_maker_fee == state.net_maker_fee
    &&& overview.stats.net_taker_fee == state.net_taker_fee
}

/// That `r` answers the overview query on `state`: a failure while the base
/// asset does not exist, else a failure where the quote reserve has fallen
/// below the virtual offset, else the overview of the state.
pub open spec fn is_overview_outcome(state: State, r: Result<OverviewResponse, ContractError>) -> bool {
    if state.base_token is None {
        r is Err && r->Err_0@ == (ContractErrorView::NotFound { kind: "base_token"@ })
    } else if state.curve.quote_reserve < state.quote_reserve_virtual {
        r is Err && r->Err_0@ == ContractErrorView::Arithmetic(ArithmeticError::Underflow)
    } else {
        r is Ok && spec_is_overview_of(r->Ok_0, state)
    }
}

/// The fees, the global statistics and the pool.
///
/// The query fails while the base asset does not exist, and where the quote
/// reserve has fallen below the virtual offset.
pub fn query_overview(ctx: ReadonlyContext) -> (r: Result<OverviewResponse, ContractError>)
    ensures
        is_overview_outcome(*ctx.state, r),
{
    let state = ctx.state;
    let curve = state.curve;
    let vl: u128 = state.quote_reserve_virtual;
    let base_token = match &state.base_token {
        Some(token) => token.clone(),
        None => {
            return Err(ContractError::NotFound { kind: String::from_str("base_token") });
        },
    };
    Ok(
        OverviewResponse {
            amm: CurveAmmOverview {
                base_token,
                base_reserve: curve.base_reserve,
                base_decimals: curve.base_decimals,
                quote_token: state.quote_token.clone(),
                quote_reserve_real: sub_u128(curve.quote_reserve, vl)?,
                quote_reserve_virtual: vl,
                quote_decimals: curve.quote_decimals,
                constant_product: curve.k,
            },
            fees: CurveFeeOverview {
                recipient: state.fee_addr.clone(),
                taker_pct: state.fee_pct_buy,
                maker_pct: state.fee_pct_sell,
            },
            stats: CurveStatsOverview {
                bids: state.taker_stats.clone(),
                asks: state.maker_stats.clone(),
                net_maker_fee: state.net_maker_fee,
                net_taker_fee: state.net_taker_fee,
            },
        },
    )
}

} // verus!
