//! The account query.

use vstd::prelude::*;
use vstd::string::*;
use crate::error::{ContractError, ContractErrorView};
use crate::msg::AccountResponse;
use crate::query::ReadonlyContext;
use crate::state::State;

verus! {

/// That `r` answers the account query for `address` on `state`: the
/// statistics kept for it, or a failure where none are kept.
pub open spec fn is_account_outcome(
    state: State,
    address: Seq<char>,
    r: Result<AccountResponse, ContractError>,
) -> bool {
    if state.account_stats@.contains_key(address) {
        r == Ok::<AccountResponse, ContractError>(
            AccountResponse { stats: state.account_stats@[address] },
        )
    } else {
        r is Err && r->Err_0@ == (ContractErrorView::NotFound { kind: "account_stats"@ })
    }
}

/// The statistics kept for `address`. An account that was never touched has
/// none, and the query fails.
pub fn query_account(ctx: ReadonlyContext, address: String) -> (r: Result<
    AccountResponse,
    ContractError,
>)
    ensures
        is_account_outcome(*ctx.state, address@, r),
{
    match ctx.state.account_stats.get(address.as_str()) {
        Some(stats) => Ok(AccountResponse { stats: *stats }),
        None => Err(ContractError::NotFound { kind: String::from_str("account_stats") }),
    }
}

} // verus!
