//! Label classification: from the share of foreground pixels of a tile to
//! its label.

use vstd::prelude::*;
use crate::label::Label;
use crate::ratio::Ratio;

verus! {

/// A classification policy. The decision depends on the ratio alone: asking
/// twice with one ratio gives one answer, and asking changes no later
/// answer.
pub trait FindLabel {
    /// The label that the policy gives to a ratio; nothing where the tile
    /// is to be dropped.
    spec fn policy(&self, r: Ratio) -> Option<Label>;

    /// The ratio that was asked about last.
    spec fn stored(&self) -> Option<Ratio>;

    /// Records `r` and classifies it.
    fn label(&mut self, r: Ratio) -> (l: Option<Label>)
        ensures
            l == old(self).policy(r),
            final(self).stored() == Some(r),
            forall|q: Ratio| #[trigger] final(self).policy(q) == old(self).policy(q),
    ;

    /// Classifies the recorded ratio; nothing where none was recorded.
    fn label_fn(&self) -> (l: Option<Label>)
        ensures
            l == match self.stored() {
                Some(r) => self.policy(r),
                None => None,
            },
    ;
}

/// The decisions of a policy as a function of the ratio.
pub open spec fn policy_of<T: FindLabel>(p: T) -> spec_fn(Ratio) -> Option<Label> {
    |q: Ratio| p.policy(q)
}

/// The standard policy of two bands: a share of at most one fifth is
/// `Healthy`, a share from four fifths up to the whole is `Sick`, and
/// everything between or beyond is dropped.
pub open spec fn two_band(r: Ratio) -> Option<Label> {
    if r.spec_num() * 5 <= r.spec_den() {
        Some(Label::Healthy)
    } else if 4 * r.spec_den() <= r.spec_num() * 5 && r.spec_num() <= r.spec_den() {
        Some(Label::Sick)
    } else {
        None
    }
}

/// Classifies a ratio by the standard policy of two bands.
pub fn two_band_label(r: &Ratio) -> (l: Option<Label>)
    ensures
        l == two_band(*r),
{
    let num = r.num() as u128;
    let den = r.den() as u128;
    if num * 5 <= den {
        Some(Label::Healthy)
    } else if 4 * den <= num * 5 && num <= den {
        Some(Label::Sick)
    } else {
        None
    }
}

/// The policy of the grid scan.
#[derive(Clone, Copy, Debug)]
pub struct Split {
    pub ratio: Option<Ratio>,
}

/// The policy of biased sampling.
#[derive(Clone, Copy, Debug)]
pub struct Oversample {
    pub ratio: Option<Ratio>,
}

impl FindLabel for Split {
    open spec fn policy(&self, r: Ratio) -> Option<Label> {
        two_band(r)
    }

    open spec fn stored(&self) -> Option<Ratio> {
        self.ratio
    }

    fn label(&mut self, r: Ratio) -> (l: Option<Label>) {
        self.ratio = Some(r);
        self.label_fn()
    }

    fn label_fn(&self) -> (l: Option<Label>) {
        match &self.ratio {
            Some(r) => two_band_label(r),
            None => None,
        }
    }
}

impl FindLabel for Oversample {
    open spec fn policy(&self, r: Ratio) -> Option<Label> {
        two_band(r)
    }

    open spec fn stored(&self) -> Option<Ratio> {
        self.ratio
    }

    fn label(&mut self, r: Ratio) -> (l: Option<Label>) {
        self.ratio = Some(r);
        self.label_fn()
    }

    fn label_fn(&self) -> (l: Option<Label>) {
        match &self.ratio {
            Some(r) => two_band_label(r),
            None => None,
        }
    }
}

} // verus!
