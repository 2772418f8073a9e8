//! The questions the curve answers. None of them changes the state.

pub mod account;
pub mod config;
pub mod overview;

use vstd::prelude::*;
use crate::context::Timestamp;
use crate::state::State;

verus! {

/// What a query sees: the state, and the time at which it is asked.
pub struct ReadonlyContext<'a> {
    pub state: &'a State,
    pub time: Timestamp,
}

} // verus!
