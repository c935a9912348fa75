//! The distance between neighbouring tiles along one axis.

use vstd::prelude::*;

verus! {

/// The stride that stands in where none was chosen.
pub const DEFAULT_OFFSET: u32 = 32;

/// A stride along one axis: a chosen number of pixels, or the default.
#[derive(Clone, Copy, Debug, PartialEq, Eq, Structural)]
pub enum SplitOffset {
    Random,
    Val(u32),
}

impl SplitOffset {
    /// The stride in pixels.
    pub open spec fn value(self) -> u32 {
        match self {
            SplitOffset::Random => DEFAULT_OFFSET,
            SplitOffset::Val(x) => x,
        }
    }

    pub fn get_value(&self) -> (stride: u32)
        ensures
            stride == self.value(),
    {
        match *self {
            SplitOffset::Random => DEFAULT_OFFSET,
            SplitOffset::Val(x) => x,
        }
    }
}

} // verus!
