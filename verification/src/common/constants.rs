use vstd::prelude::*;

verus! {

/// Number of columns a tab character occupies on screen.
pub const TAB_WIDTH_SPACES: usize = 4;

} // verus!
