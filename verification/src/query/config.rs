//! The configuration query.

use vstd::prelude::*;
use crate::error::ContractError;
use crate::models::config::Config;
use crate::msg::ConfigResponse;
use crate::query::ReadonlyContext;

verus! {

/// The configuration, which holds nothing yet.
pub fn query_config(ctx: ReadonlyContext) -> (r: Result<ConfigResponse, ContractError>)
    ensures
        r == Ok::<ConfigResponse, ContractError>(ConfigResponse(Config {  })),
{
    Ok(ConfigResponse(Config {  }))
}

} // verus!
