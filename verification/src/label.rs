//! The classes a tile can be assigned to.

use vstd::prelude::*;

verus! {

/// The class of a tile.
#[derive(Clone, Copy, Debug, PartialEq, Eq, Structural)]
pub enum Label {
    Sick,
    Fuzzy,
    Healthy,
}

/// The set of labels that a run works with.
#[derive(Clone, Copy, Debug, PartialEq, Eq, Structural)]
pub enum LabelScheme {
    /// `Healthy`, `Sick` and `Fuzzy`.
    ThreeClass,
    /// `Healthy` and `Sick` only.
    TwoClass,
}

impl Label {
    /// The name under which the label appears in file names.
    pub open spec fn display_name(self) -> Seq<char> {
        match self {
            Label::Sick => seq!['S', 'i', 'c', 'k'],
            Label::Fuzzy => seq!['F', 'u', 'z', 'z', 'y'],
            Label::Healthy => seq!['H', 'e', 'a', 'l', 't', 'h', 'y'],
        }
    }

    pub fn name(&self) -> (name: &'static str)
        ensures
            name@ == self.display_name(),
    {
        proof {
            reveal_strlit("Sick");
            reveal_strlit("Fuzzy");
            reveal_strlit("Healthy");
        }
        let name = match self {
            Label::Sick => "Sick",
            Label::Fuzzy => "Fuzzy",
            Label::Healthy => "Healthy",
        };
        name
    }

    /// The intensity that foreground pixels of a written mask tile get.
    /// With three classes: 255 for `Sick`, 127 for `Fuzzy`, and 0, the
    /// background, for `Healthy`. With two classes the mask is binary: 1
    /// for `Sick` and 0 for every other label.
    pub open spec fn mask_intensity(self, scheme: LabelScheme) -> u8 {
        match scheme {
            LabelScheme::ThreeClass => match self {
                Label::Sick => 255,
                Label::Fuzzy => 127,
                Label::Healthy => 0,
            },
            LabelScheme::TwoClass => match self {
                Label::Sick => 1,
                _ => 0,
            },
        }
    }

    pub fn intensity(&self, scheme: LabelScheme) -> (value: u8)
        ensures
            value == self.mask_intensity(scheme),
    {
        match scheme {
            LabelScheme::ThreeClass => match self {
                Label::Sick => 255,
                Label::Fuzzy => 127,
                Label::Healthy => 0,
            },
            LabelScheme::TwoClass => match self {
                Label::Sick => 1,
                _ => 0,
            },
        }
    }
}

} // verus!
