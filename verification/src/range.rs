//! The numeric-range lattice element and its two core operations:
//! containment of a concrete width, and intersection (the meet).

use vstd::prelude::*;
use crate::bound::{FloatWidth, SignDemand};
use crate::width::{capacity, spec_is_signed, spec_is_superset, IntLitWidth, IntSignedness};

verus! {

/// An open lower bound placed on a number because of its literal value:
/// e.g. `-5` cannot be unsigned, and `300` does not fit in a `U8`.
///
/// The carried width is always a minimum capacity requirement, never a
/// final answer. The four variants combine an integer-vs-any-numeric axis
/// with a signed-vs-either-sign axis.
#[derive(Clone, Copy, PartialEq, Eq, Structural, Debug)]
pub enum NumericRange {
    IntAtLeastSigned(IntLitWidth),
    IntAtLeastEitherSign(IntLitWidth),
    NumAtLeastSigned(IntLitWidth),
    NumAtLeastEitherSign(IntLitWidth),
}

/// The outcome of comparing a `NumericRange` against a concrete type
/// shape.
#[derive(Clone, Copy, PartialEq, Eq, Structural, Debug)]
pub enum MatchResult {
    /// The range < the content, for example <U8, I8> < Int *.
    RangeInContent,
    /// The content < the range, for example I8 < <U8, I8>.
    ContentInRange,
    /// The range and the content do not intersect.
    NoIntersection,
    /// The content is not comparable.
    DifferentContent,
}

/// `ContentInRange` when the containment test succeeded, `NoIntersection`
/// otherwise.
pub open spec fn spec_from_content_in_range(result: bool) -> MatchResult {
    if result {
        MatchResult::ContentInRange
    } else {
        MatchResult::NoIntersection
    }
}

pub fn from_content_in_range(result: bool) -> (r: MatchResult)
    ensures
        r == spec_from_content_in_range(result),
{
    if result {
        MatchResult::ContentInRange
    } else {
        MatchResult::NoIntersection
    }
}

impl NumericRange {
    /// The lower-bound width the range carries.
    pub open spec fn spec_width(self) -> IntLitWidth {
        match self {
            NumericRange::IntAtLeastSigned(w)
            | NumericRange::IntAtLeastEitherSign(w)
            | NumericRange::NumAtLeastSigned(w)
            | NumericRange::NumAtLeastEitherSign(w) => w,
        }
    }

    /// Whether the range demands a signed type.
    pub open spec fn demands_signed(self) -> bool {
        match self {
            NumericRange::IntAtLeastSigned(_) | NumericRange::NumAtLeastSigned(_) => true,
            NumericRange::IntAtLeastEitherSign(_) | NumericRange::NumAtLeastEitherSign(_) => false,
        }
    }

    /// Whether the range admits integer widths only, excluding the float
    /// family.
    pub open spec fn is_int_only(self) -> bool {
        match self {
            NumericRange::IntAtLeastSigned(_) | NumericRange::IntAtLeastEitherSign(_) => true,
            NumericRange::NumAtLeastSigned(_) | NumericRange::NumAtLeastEitherSign(_) => false,
        }
    }
}

/// Whether the concrete width `w` satisfies the range `r`: `w` meets the
/// sign demand, and its capacity reaches the range's lower bound.
pub open spec fn spec_contains_int_width(r: NumericRange, w: IntLitWidth) -> bool {
    &&& r.demands_signed() ==> spec_is_signed(w)
    &&& capacity(w) >= capacity(r.spec_width())
}

/// Float widths are never excluded: float-width narrowing is deliberately
/// not performed here and is left to the surrounding checker.
pub open spec fn spec_contains_float_width(r: NumericRange, w: FloatWidth) -> bool {
    true
}

/// The variant with the given axes, carrying `w` as lower bound.
pub open spec fn spec_make_range(int_only: bool, signed: bool, w: IntLitWidth) -> NumericRange {
    if int_only {
        if signed {
            NumericRange::IntAtLeastSigned(w)
        } else {
            NumericRange::IntAtLeastEitherSign(w)
        }
    } else {
        if signed {
            NumericRange::NumAtLeastSigned(w)
        } else {
            NumericRange::NumAtLeastEitherSign(w)
        }
    }
}

/// The meet of two ranges.
///
/// The result is integer-only if either operand is, and demands a sign if
/// either operand does; a sign demand forces the comparison onto the
/// negative side of zero. If the comparison is on the negative side and
/// either lower bound cannot itself be signed there is no intersection: an
/// unsigned-only bound can never satisfy a signed demand. Otherwise the
/// broader of the two lower-bound widths on the chosen side is kept — the
/// numerically greater lower bound, i.e. the stronger constraint — and if
/// neither width is a superset of the other there is no intersection.
pub open spec fn spec_intersection(a: NumericRange, b: NumericRange) -> Option<NumericRange> {
    let left = a.spec_width();
    let right = b.spec_width();
    let int_only = a.is_int_only() || b.is_int_only();
    let is_negative = a.demands_signed() || b.demands_signed();
    if is_negative && (!spec_is_signed(left) || !spec_is_signed(right)) {
        None
    } else if spec_is_superset(left, right, is_negative) {
        Some(spec_make_range(int_only, is_negative, left))
    } else if spec_is_superset(right, left, is_negative) {
        Some(spec_make_range(int_only, is_negative, right))
    } else {
        None
    }
}

fn make_range(int_only: bool, signed: bool, w: IntLitWidth) -> (r: NumericRange)
    ensures
        r == spec_make_range(int_only, signed, w),
{
    if int_only {
        if signed {
            NumericRange::IntAtLeastSigned(w)
        } else {
            NumericRange::IntAtLeastEitherSign(w)
        }
    } else {
        if signed {
            NumericRange::NumAtLeastSigned(w)
        } else {
            NumericRange::NumAtLeastEitherSign(w)
        }
    }
}

impl NumericRange {
    /// The lower-bound width the range carries.
    pub fn width(&self) -> (r: IntLitWidth)
        ensures
            r == self.spec_width(),
    {
        match self {
            NumericRange::IntAtLeastSigned(w)
            | NumericRange::IntAtLeastEitherSign(w)
            | NumericRange::NumAtLeastSigned(w)
            | NumericRange::NumAtLeastEitherSign(w) => *w,
        }
    }

    /// Whether float-family width `_width` satisfies this range. Always
    /// true: float-width narrowing is deliberately not performed here.
    pub fn contains_float_width(&self, _width: FloatWidth) -> (r: bool)
        ensures
            r == spec_contains_float_width(*self, _width),
    {
        true
    }

    /// Whether the concrete width `width` satisfies this range: a width
    /// that is unsigned while the range demands a sign is rejected
    /// outright, independent of capacity; otherwise `width` must have at
    /// least the lower bound's capacity.
    pub fn contains_int_width(&self, width: IntLitWidth) -> (r: bool)
        ensures
            r == spec_contains_int_width(*self, width),
    {
        let (range_signedness, at_least_width) = match self {
            NumericRange::IntAtLeastSigned(w) => (SignDemand::Signed, *w),
            NumericRange::IntAtLeastEitherSign(w) => (SignDemand::NoDemand, *w),
            NumericRange::NumAtLeastSigned(w) => (SignDemand::Signed, *w),
            NumericRange::NumAtLeastEitherSign(w) => (SignDemand::NoDemand, *w),
        };
        let (actual_signedness, _) = width.signedness_and_width();
        if let (IntSignedness::Unsigned, SignDemand::Signed) = (actual_signedness, range_signedness)
        {
            return false;
        }
        width.signedness_and_width().1 >= at_least_width.signedness_and_width().1
    }

    /// Returns the intersection of `self` and `other`, i.e. the greatest
    /// lower bound of both, or `None` if there is no common lower bound.
    pub fn intersection(&self, other: &Self) -> (r: Option<Self>)
        ensures
            r == spec_intersection(*self, *other),
    {
        let left = self.width();
        let right = other.width();
        let int_only = matches!(
            self,
            NumericRange::IntAtLeastSigned(_) | NumericRange::IntAtLeastEitherSign(_)
        ) || matches!(
            other,
            NumericRange::IntAtLeastSigned(_) | NumericRange::IntAtLeastEitherSign(_)
        );
        let is_negative = matches!(
            self,
            NumericRange::IntAtLeastSigned(_) | NumericRange::NumAtLeastSigned(_)
        ) || matches!(
            other,
            NumericRange::IntAtLeastSigned(_) | NumericRange::NumAtLeastSigned(_)
        );
        // If the intersection must be signed but one of the lower bounds
        // isn't signed, then there is no intersection.
        if is_negative && (!left.is_signed() || !right.is_signed()) {
            None
        }
        // Otherwise, keep the greater lower bound on the chosen side.
        else if left.is_superset(&right, is_negative) {
            Some(make_range(int_only, is_negative, left))
        } else if right.is_superset(&left, is_negative) {
            Some(make_range(int_only, is_negative, right))
        } else {
            None
        }
    }
}

} // verus!
