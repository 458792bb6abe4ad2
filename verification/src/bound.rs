//! Bound descriptors: the constraint attached to a literal by earlier
//! analysis, before it is turned into a `NumericRange`.

use vstd::prelude::*;
use crate::width::IntLitWidth;

verus! {

/// The three float-family widths, for constraints that must stay within
/// the floating-point family.
#[derive(Clone, Copy, PartialEq, Eq, Structural, Debug)]
pub enum FloatWidth {
    Dec,
    F32,
    F64,
}

/// A demand on the signedness of a literal's eventual type.
#[derive(Clone, Copy, PartialEq, Eq, Structural, Debug)]
pub enum SignDemand {
    /// Can be signed or unsigned.
    NoDemand,
    /// Must be signed.
    Signed,
}

/// A bound on the width of an integer literal.
#[derive(Clone, Copy, PartialEq, Eq, Structural, Debug)]
pub enum IntBound {
    /// There is no bound on the width.
    Unbounded,
    /// Must have an exact width.
    Exact(IntLitWidth),
    /// Must have a certain sign and a minimum width.
    AtLeast { sign: SignDemand, width: IntLitWidth },
}

/// A bound on the width of a fractional literal.
#[derive(Clone, Copy, PartialEq, Eq, Structural, Debug)]
pub enum FloatBound {
    Unbounded,
    Exact(FloatWidth),
}

/// A bound on a literal that may still be either an integer or a float.
#[derive(Clone, Copy, PartialEq, Eq, Structural, Debug)]
pub enum NumBound {
    Unbounded,
    /// Must be an integer of a certain size, or any float.
    AtLeastIntOrFloat { sign: SignDemand, width: IntLitWidth },
}

} // verus!
