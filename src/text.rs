use vstd::prelude::*;

verus! {

/// Handle of a loaded font.
pub struct Font {
    pub handle: usize,
}

impl Font {
    pub fn new(handle: usize) -> (r: Font)
        ensures
            r.handle == handle,
    {
        Font { handle }
    }
}

/// Resource through which systems ask for debug text; drawing it is not
/// implemented, so it carries no state.
#[derive(Debug, Clone, Copy, Default)]
pub struct DebugText;

} // verus!
