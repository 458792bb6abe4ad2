//! The algebraic laws of the numeric-range lattice.

use vstd::prelude::*;
use crate::content::{Content, NumSymbol};
use crate::range::{
    spec_contains_int_width, spec_intersection, MatchResult, NumericRange,
};
use crate::content::spec_match_content;
use crate::width::{capacity, spec_is_signed, IntLitWidth};

verus! {

/// Intersection is commutative.
///
/// Two distinct widths can share a signedness and a capacity (the
/// platform-sized width against the 64-bit unsigned one, and the 128-bit
/// fixed-point width against the 128-bit signed one). When the lower
/// bounds are two such widths each is a superset of the other, each order
/// keeps its own side's width, and the two orders disagree — unless a
/// sign demand meets unsigned bounds, in which case both orders agree on
/// absence. Every other pair commutes.
pub proof fn lemma_intersection_commutative(a: NumericRange, b: NumericRange)
    requires
        a.spec_width() == b.spec_width()
            || capacity(a.spec_width()) != capacity(b.spec_width())
            || spec_is_signed(a.spec_width()) != spec_is_signed(b.spec_width())
            || ((a.demands_signed() || b.demands_signed()) && !spec_is_signed(a.spec_width())),
    ensures
        spec_intersection(a, b) == spec_intersection(b, a),
{
}

/// Intersecting a range with itself changes nothing, provided the range
/// is coherent: a range that demands a sign its own lower bound cannot
/// carry is satisfied by no width at all, and meets even itself in
/// nothing.
pub proof fn lemma_intersection_idempotent(a: NumericRange)
    requires
        a.demands_signed() ==> spec_is_signed(a.spec_width()),
    ensures
        spec_intersection(a, a) == Some(a),
{
}

/// The intersection is the meet: a width satisfies the intersection of
/// two ranges exactly when it satisfies both of them. In particular the
/// intersection's constraint is at least as strong as either operand's.
pub proof fn lemma_intersection_meet(
    a: NumericRange,
    b: NumericRange,
    c: NumericRange,
    w: IntLitWidth,
)
    requires
        spec_intersection(a, b) == Some(c),
    ensures
        spec_contains_int_width(c, w) <==> spec_contains_int_width(a, w)
            && spec_contains_int_width(b, w),
{
}

/// Signed-demand absorption: when either range demands a signed type,
/// a lower bound that cannot itself be signed leaves nothing in common.
pub proof fn lemma_signed_demand_absorption(a: NumericRange, b: NumericRange)
    requires
        a.demands_signed() || b.demands_signed(),
        !spec_is_signed(a.spec_width()) || !spec_is_signed(b.spec_width()),
    ensures
        spec_intersection(a, b) is None,
{
}

/// Containment consistency: matching a range against the name of a
/// concrete type of width `w` answers content-inside-range exactly when
/// the range contains `w`, and no-overlap otherwise.
pub proof fn lemma_containment_consistency(
    r: NumericRange,
    w: IntLitWidth,
    arg: Box<Content>,
    real_type: Box<Content>,
)
    ensures
        spec_contains_int_width(r, w) <==> spec_match_content(
            r,
            Content::Alias(NumSymbol::IntType(w), arg, real_type),
        ) == MatchResult::ContentInRange,
        !spec_contains_int_width(r, w) <==> spec_match_content(
            r,
            Content::Alias(NumSymbol::IntType(w), arg, real_type),
        ) == MatchResult::NoIntersection,
{
}

} // verus!
