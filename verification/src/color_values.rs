//! Target colours that a raster's pixels are compared against.

use vstd::prelude::*;

verus! {

/// A colour of one of the two supported pixel layouts: three 8-bit channels
/// or a single 8-bit channel.
#[derive(Clone, Copy, Debug, Eq, Hash)]
pub enum ColorValues {
    RGB([u8; 3]),
    LUMA([u8; 1]),
}

impl PartialEq for ColorValues {
    fn eq(&self, other: &ColorValues) -> (same: bool) {
        match (self, other) {
            (ColorValues::RGB(a), ColorValues::RGB(b)) => {
                assert(a =~= b <==> a[0] == b[0] && a[1] == b[1] && a[2] == b[2]);
                a[0] == b[0] && a[1] == b[1] && a[2] == b[2]
            },
            (ColorValues::LUMA(a), ColorValues::LUMA(b)) => {
                assert(a =~= b <==> a[0] == b[0]);
                a[0] == b[0]
            },
            _ => false,
        }
    }
}

impl vstd::std_specs::cmp::PartialEqSpecImpl for ColorValues {
    open spec fn obeys_eq_spec() -> bool {
        true
    }

    open spec fn eq_spec(&self, other: &ColorValues) -> bool {
        *self == *other
    }
}

impl ColorValues {
    /// The channel values of the colour, whatever its layout.
    pub open spec fn channels(self) -> Seq<u8> {
        match self {
            ColorValues::RGB(c) => c@,
            ColorValues::LUMA(c) => c@,
        }
    }

    /// Two colours of one layout with the same channel values are the same
    /// colour.
    pub proof fn lemma_channels_decide(self, other: ColorValues)
        requires
            self.channels() == other.channels(),
        ensures
            self == other,
    {
        match (self, other) {
            (ColorValues::RGB(a), ColorValues::RGB(b)) => {
                assert(a =~= b);
            },
            (ColorValues::LUMA(a), ColorValues::LUMA(b)) => {
                assert(a =~= b);
            },
            (ColorValues::RGB(a), ColorValues::LUMA(b)) => {
                assert(a@.len() == 3 && b@.len() == 1);
            },
            (ColorValues::LUMA(a), ColorValues::RGB(b)) => {
                assert(a@.len() == 1 && b@.len() == 3);
            },
        }
    }

    /// Whether `c` is this single-channel colour. A three-channel colour
    /// equals no single-channel pixel.
    pub fn compare(&self, c: [u8; 1]) -> (same: bool)
        ensures
            same == (*self matches ColorValues::LUMA(cv) && cv[0] == c[0]),
    {
        match self {
            ColorValues::LUMA(cv) => c[0] == cv[0],
            ColorValues::RGB(_) => false,
        }
    }

    pub fn rgb(color: [u8; 3]) -> (cv: ColorValues)
        ensures
            cv == ColorValues::RGB(color),
    {
        ColorValues::RGB(color)
    }

    pub fn luma(color: [u8; 1]) -> (cv: ColorValues)
        ensures
            cv == ColorValues::LUMA(color),
    {
        ColorValues::LUMA(color)
    }

    pub fn black_rgb() -> (cv: ColorValues)
        ensures
            cv.channels() == seq![0u8, 0u8, 0u8],
            cv is RGB,
    {
        ColorValues::rgb([0, 0, 0])
    }

    pub fn white_rgb() -> (cv: ColorValues)
        ensures
            cv.channels() == seq![255u8, 255u8, 255u8],
            cv is RGB,
    {
        ColorValues::rgb([255, 255, 255])
    }

    pub fn black_luma() -> (cv: ColorValues)
        ensures
            cv.channels() == seq![0u8],
            cv is LUMA,
    {
        ColorValues::luma([0])
    }

    pub fn white_luma() -> (cv: ColorValues)
        ensures
            cv.channels() == seq![255u8],
            cv is LUMA,
    {
        ColorValues::luma([255])
    }
}

} // verus!
