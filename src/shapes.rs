use vstd::prelude::*;

verus! {

/// Resource through which systems ask for debug shapes; drawing them is not
/// implemented, so it carries no state.
#[derive(Debug, Clone, Copy, Default)]
pub struct DebugShape2D;

} // verus!
