//! Changing the configuration, which holds nothing yet.

use vstd::prelude::*;
use crate::context::Context;
use crate::error::ContractError;
use crate::models::config::Config;
use crate::response::{Action, Response, ResponseView};
use crate::state::State;

verus! {

/// Takes the new configuration. As the configuration holds nothing, the
/// state stays as it is.
pub fn exec_set_config(state: &mut State, ctx: Context, config: Config) -> (r: Result<
    Response,
    ContractError,
>)
    ensures
        r is Ok,
        r->Ok_0@ == ResponseView::of_action(Action::SetConfig),
        *final(state) == *old(state),
{
    Ok(Response::of_action(Action::SetConfig))
}

} // verus!
