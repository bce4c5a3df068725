//! The numeric measurement type of the reasoning model.
//!
//! Observations, thresholds and percentages are fixed-point decimals with two
//! fractional places, held in hundredths.  That keeps every comparison and
//! every percentage computation exact.

use vstd::prelude::*;
use vstd::string::StringExecFns;

use crate::types::text::dec_text;
use crate::types::text::frac_text;
use crate::types::text::frac_to_text;
use crate::types::text::u64_to_text;

verus! {

/// Identifies a reasoning element.
pub type IdentificationValue = u64;

/// A human-readable description of a reasoning element.
pub type DescriptionValue = String;

/// A fixed-point decimal with two fractional places, stored in hundredths.
#[derive(Debug, Clone, Copy, PartialEq, Eq, Structural, PartialOrd, Ord, Hash)]
pub struct NumericalValue {
    hundredths: i64,
}

/// The decimal rendering of a value held in `h` hundredths: the whole part,
/// a point, and exactly two fraction digits, with a leading minus sign for
/// negative values.
pub open spec fn numerical_text(h: int) -> Seq<char> {
    if h < 0 {
        seq!['-'] + dec_text(((-h) / 100) as nat) + seq!['.'] + frac_text(((-h) % 100) as nat)
    } else {
        dec_text((h / 100) as nat) + seq!['.'] + frac_text((h % 100) as nat)
    }
}

impl NumericalValue {
    /// The stored value, in hundredths.
    pub closed spec fn spec_hundredths(&self) -> int {
        self.hundredths as int
    }

    /// A value given in hundredths: `from_hundredths(78)` is `0.78`.
    pub fn from_hundredths(hundredths: i64) -> (v: NumericalValue)
        ensures
            v.spec_hundredths() == hundredths,
    {
        NumericalValue { hundredths }
    }

    /// A whole value: `from_units(100)` is `100.00`.
    pub fn from_units(units: i64) -> (v: NumericalValue)
        requires
            -92233720368547758 <= units <= 92233720368547758,
        ensures
            v.spec_hundredths() == units * 100,
    {
        NumericalValue { hundredths: units * 100 }
    }

    /// Zero.
    pub fn zero() -> (v: NumericalValue)
        ensures
            v.spec_hundredths() == 0,
    {
        NumericalValue { hundredths: 0 }
    }

    /// The value in hundredths.
    pub fn hundredths(&self) -> (h: i64)
        ensures
            h == self.spec_hundredths(),
    {
        self.hundredths
    }

    /// Greater-or-equal comparison.
    pub fn ge(&self, other: &NumericalValue) -> (r: bool)
        ensures
            r == (self.spec_hundredths() >= other.spec_hundredths()),
    {
        self.hundredths >= other.hundredths
    }

    /// Strictly-greater comparison.
    pub fn gt(&self, other: &NumericalValue) -> (r: bool)
        ensures
            r == (self.spec_hundredths() > other.spec_hundredths()),
    {
        self.hundredths > other.hundredths
    }

    /// Equality by value.
    pub fn eq_value(&self, other: &NumericalValue) -> (r: bool)
        ensures
            r == (self.spec_hundredths() == other.spec_hundredths()),
    {
        self.hundredths == other.hundredths
    }

    /// The decimal rendering, such as `0.78` or `-3.50`.
    pub fn to_text(&self) -> (s: String)
        ensures
            s@ == numerical_text(self.spec_hundredths()),
    {
        if self.hundredths < 0 {
            let magnitude: u64 = ((-(self.hundredths + 1)) as u64) + 1;
            proof {
                assert(magnitude == -(self.spec_hundredths()));
            }
            let mut s = String::from_str("-");
            let whole = u64_to_text(magnitude / 100);
            s.append(whole.as_str());
            s.append(".");
            let frac = frac_to_text(magnitude % 100);
            s.append(frac.as_str());
            proof {
                reveal_strlit("-");
                reveal_strlit(".");
                assert(s@ =~= numerical_text(self.spec_hundredths()));
            }
            s
        } else {
            let mut s = u64_to_text((self.hundredths / 100) as u64);
            s.append(".");
            let frac = frac_to_text((self.hundredths % 100) as u64);
            s.append(frac.as_str());
            proof {
                reveal_strlit(".");
                assert(s@ =~= numerical_text(self.spec_hundredths()));
            }
            s
        }
    }
}

} // verus!
