//! Rates as exact fractions.

use vstd::prelude::*;

verus! {

/// A fraction with a positive denominator.
#[derive(Clone, Copy, Debug)]
pub struct Ratio {
    pub numerator: u128,
    pub denominator: u128,
}

impl Ratio {
    /// The fraction `part / whole`, or zero (0 / 1) where `whole` is zero.
    pub open spec fn spec_of(part: nat, whole: nat) -> Ratio {
        if whole == 0 {
            Ratio { numerator: 0, denominator: 1 }
        } else {
            Ratio { numerator: part as u128, denominator: whole as u128 }
        }
    }

    /// The fraction `part / whole`, or zero (0 / 1) where `whole` is zero.
    pub fn of(part: u128, whole: u128) -> (r: Ratio)
        ensures
            r == Ratio::spec_of(part as nat, whole as nat),
            r.denominator > 0,
    {
        if whole == 0 {
            Ratio { numerator: 0, denominator: 1 }
        } else {
            Ratio { numerator: part, denominator: whole }
        }
    }
}

} // verus!
