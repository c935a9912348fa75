//! Exact fractions: the share of a tile that a colour covers, the thresholds
//! it is held against, and the multiplier of a sample size.

use vstd::prelude::*;
use vstd::arithmetic::div_mod::lemma_fundamental_div_mod;
use vstd::arithmetic::div_mod::lemma_fundamental_div_mod_converse;

verus! {

/// A non-negative fraction `num / den` with a positive denominator.
#[derive(Clone, Copy, Debug)]
pub struct Ratio {
    num: u64,
    den: u64,
}

impl Ratio {
    #[verifier::type_invariant]
    spec fn well_formed(self) -> bool {
        self.den > 0
    }

    pub closed spec fn spec_num(self) -> nat {
        self.num as nat
    }

    pub closed spec fn spec_den(self) -> nat {
        self.den as nat
    }

    /// `self <= other` as fractions, by cross multiplication.
    pub open spec fn spec_le(self, other: Ratio) -> bool {
        self.spec_num() * other.spec_den() <= other.spec_num() * self.spec_den()
    }

    /// `self < other` as fractions.
    pub open spec fn spec_lt(self, other: Ratio) -> bool {
        self.spec_num() * other.spec_den() < other.spec_num() * self.spec_den()
    }

    /// The fraction `num / den`.
    pub closed spec fn of(num: u64, den: u64) -> Ratio {
        Ratio { num, den }
    }

    /// The parts of `Ratio::of(num, den)` are `num` and `den`.
    pub broadcast proof fn lemma_of(num: u64, den: u64)
        ensures
            (#[trigger] Ratio::of(num, den)).spec_num() == num,
            Ratio::of(num, den).spec_den() == den,
    {
    }

    /// `num / den`, or nothing where `den` is zero.
    pub fn new(num: u64, den: u64) -> (made: Option<Ratio>)
        ensures
            made is Some <==> den > 0,
            made matches Some(r) ==> r == Ratio::of(num, den) && r.spec_num() == num
                && r.spec_den() == den,
    {
        if den > 0 {
            Some(Ratio { num, den })
        } else {
            None
        }
    }

    pub fn num(&self) -> (n: u64)
        ensures
            n == self.spec_num(),
            self.spec_den() > 0,
    {
        proof {
            use_type_invariant(self);
        }
        self.num
    }

    pub fn den(&self) -> (d: u64)
        ensures
            d == self.spec_den(),
            d > 0,
    {
        proof {
            use_type_invariant(self);
        }
        self.den
    }

    /// Whether `self <= other` as fractions.
    pub fn le(&self, other: &Ratio) -> (holds: bool)
        ensures
            holds == self.spec_le(*other),
    {
        proof {
            lemma_product_fits(self.num, other.den);
            lemma_product_fits(other.num, self.den);
        }
        (self.num as u128) * (other.den as u128) <= (other.num as u128) * (self.den as u128)
    }

    /// Whether `self < other` as fractions.
    pub fn lt(&self, other: &Ratio) -> (holds: bool)
        ensures
            holds == self.spec_lt(*other),
    {
        proof {
            lemma_product_fits(self.num, other.den);
            lemma_product_fits(other.num, self.den);
        }
        (self.num as u128) * (other.den as u128) < (other.num as u128) * (self.den as u128)
    }

    /// `round(self * n)`, halves rounded up, as a mathematical integer.
    pub open spec fn spec_scale(self, n: nat) -> nat {
        ((2 * (self.spec_num() * n) + self.spec_den()) / (2 * self.spec_den())) as nat
    }

    /// `round(self * n)`, halves rounded up.
    pub fn scale(&self, n: u64) -> (scaled: u128)
        ensures
            scaled == self.spec_scale(n as nat),
    {
        proof {
            use_type_invariant(self);
            lemma_product_fits(self.num, n);
        }
        let product: u128 = (self.num as u128) * (n as u128);
        let den: u128 = self.den as u128;
        let whole: u128 = product / den;
        let rest: u128 = product % den;
        proof {
            let p = product as int;
            let d = den as int;
            lemma_fundamental_div_mod(p, d);
            if 2 * rest >= den {
                assert(2 * p + d == (whole + 1) * (2 * d) + (2 * rest - d)) by (nonlinear_arith)
                    requires
                        p == whole * d + rest,
                ;
                lemma_fundamental_div_mod_converse(2 * p + d, 2 * d, whole + 1, 2 * rest - d);
            } else {
                assert(2 * p + d == whole * (2 * d) + (2 * rest + d)) by (nonlinear_arith)
                    requires
                        p == whole * d + rest,
                ;
                lemma_fundamental_div_mod_converse(2 * p + d, 2 * d, whole as int, 2 * rest + d);
            }
        }
        if 2 * rest >= den {
            whole + 1
        } else {
            whole
        }
    }
}

/// The product of two 64-bit values fits 128 bits.
pub proof fn lemma_product_fits(a: u64, b: u64)
    ensures
        0 <= (a as int) * (b as int) <= 0xffff_ffff_ffff_ffff * 0xffff_ffff_ffff_ffff,
{
    assert(0 <= (a as int) * (b as int) <= 0xffff_ffff_ffff_ffff * 0xffff_ffff_ffff_ffff)
        by (nonlinear_arith)
        requires
            0 <= a <= 0xffff_ffff_ffff_ffff,
            0 <= b <= 0xffff_ffff_ffff_ffff,
    ;
}

} // verus!
