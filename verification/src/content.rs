//! A model of the type shapes the unifier hands to the containment check.
//!
//! The surrounding type checker stores shapes behind type variables in a
//! substitution store; here a shape is carried as a self-contained tree in
//! which every variable has already been replaced by the shape currently
//! bound to it, which is exactly what the containment check reads.

use vstd::prelude::*;
use crate::range::{
    from_content_in_range, spec_contains_float_width, spec_contains_int_width,
    spec_from_content_in_range, spec_intersection, MatchResult, NumericRange,
};
use crate::bound::FloatWidth;
use crate::width::IntLitWidth;

verus! {

/// A built-in numeric type name, resolved by identity against the symbol
/// table of the surrounding checker.
#[derive(Clone, Copy, PartialEq, Eq, Structural, Debug)]
pub enum NumSymbol {
    /// A concrete type name identified with the given width on the shared
    /// capacity scale (the unsigned, signed and platform-sized widths).
    IntType(IntLitWidth),
    /// A concrete float-family type name.
    FloatType(FloatWidth),
    /// The generic floating-point family marker, with no fixed width yet.
    FloatingPoint,
    /// The one-argument any-number wrapper.
    Num,
    /// The one-argument integer wrapper.
    Int,
    /// Any other type name.
    Other,
}

/// The shape currently bound to a type variable, with every nested
/// variable already resolved to its own shape.
///
/// An `Alias` carries its symbol, the resolved shape of its first type
/// argument, and the resolved shape of the type it stands for. Only the
/// `Num` and `Int` wrappers read the two nested shapes; for every other
/// symbol they are ignored. A numeric wrapper takes exactly one type
/// argument, and the shape fixes that arity by construction, standing in
/// for a defensive arity check.
#[derive(Debug)]
pub enum Content {
    /// A number still constrained only by a pending numeric range.
    RangedNumber(NumericRange),
    /// An alias for a (possibly built-in) type.
    Alias(NumSymbol, Box<Content>, Box<Content>),
    /// An unbound, unconstrained type variable.
    FlexVar,
    /// An unbound type variable bound by a user-written annotation.
    RigidVar,
    /// Any shape the numeric-containment check cannot compare against.
    Structure,
}

/// What comparing the range `r` against the shape `c` yields.
///
/// - Against a pending range, the intersection decides: absent means no
///   overlap; present and equal to the other range means the content is
///   already fully captured by `r`; present and unequal means `r` lies
///   inside the content.
/// - Against a built-in concrete type name, containment of that width
///   decides between content-inside-range and no overlap.
/// - Against the generic float-family marker, an integer-only range is
///   incomparable and a numeric range accepts the content.
/// - Against a `Num`/`Int` wrapper whose argument is still an unbound
///   variable, the wrapper is the weaker constraint, so the range lies
///   inside the content; otherwise the comparison recurses on the type
///   the wrapper stands for.
/// - Anything else is incomparable.
pub open spec fn spec_match_content(r: NumericRange, c: Content) -> MatchResult
    decreases c,
{
    match c {
        Content::RangedNumber(other_range) => match spec_intersection(r, other_range) {
            Some(m) => if m == other_range {
                MatchResult::ContentInRange
            } else {
                MatchResult::RangeInContent
            },
            None => MatchResult::NoIntersection,
        },
        Content::Alias(symbol, arg, real_type) => match symbol {
            NumSymbol::IntType(w) => spec_from_content_in_range(spec_contains_int_width(r, w)),
            NumSymbol::FloatType(w) => spec_from_content_in_range(
                spec_contains_float_width(r, w),
            ),
            NumSymbol::FloatingPoint => if r.is_int_only() {
                MatchResult::DifferentContent
            } else {
                MatchResult::ContentInRange
            },
            NumSymbol::Num | NumSymbol::Int => match *arg {
                Content::FlexVar | Content::RigidVar => MatchResult::RangeInContent,
                _ => spec_match_content(r, *real_type),
            },
            NumSymbol::Other => MatchResult::DifferentContent,
        },
        _ => MatchResult::DifferentContent,
    }
}

impl NumericRange {
    /// Compares this range against a concrete type shape discovered by
    /// the unifier.
    pub fn match_content(&self, content: &Content) -> (r: MatchResult)
        ensures
            r == spec_match_content(*self, *content),
        decreases *content,
    {
        match content {
            Content::RangedNumber(other_range) => match self.intersection(other_range) {
                Some(m) => if m == *other_range {
                    MatchResult::ContentInRange
                } else {
                    MatchResult::RangeInContent
                },
                None => MatchResult::NoIntersection,
            },
            Content::Alias(symbol, arg, real_type) => match symbol {
                NumSymbol::IntType(w) => from_content_in_range(self.contains_int_width(*w)),
                NumSymbol::FloatType(w) => from_content_in_range(self.contains_float_width(*w)),
                NumSymbol::FloatingPoint => match self {
                    NumericRange::IntAtLeastSigned(_) | NumericRange::IntAtLeastEitherSign(_) => {
                        MatchResult::DifferentContent
                    },
                    NumericRange::NumAtLeastSigned(_) | NumericRange::NumAtLeastEitherSign(_) => {
                        MatchResult::ContentInRange
                    },
                },
                NumSymbol::Num | NumSymbol::Int => match &**arg {
                    Content::FlexVar | Content::RigidVar => MatchResult::RangeInContent,
                    _ => self.match_content(&**real_type),
                },
                NumSymbol::Other => MatchResult::DifferentContent,
            },
            _ => MatchResult::DifferentContent,
        }
    }
}

} // verus!
