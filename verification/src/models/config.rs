//! The adjustable configuration. It holds nothing yet.

use vstd::prelude::*;

verus! {

/// The configuration that `SetConfig` carries and the configuration query
/// returns.
#[derive(Clone, Copy, Debug, PartialEq, Eq, Structural)]
pub struct Config {}

} // verus!
