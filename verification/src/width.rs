//! The closed set of concrete numeric storage widths, and the capacity
//! scale on which all of them are compared.
//!
//! Integer widths report their bit count; the three float-family widths
//! (`F32`, `F64`, `Dec`) report the bit count of the largest integer they
//! can represent without precision loss (24 / 53 / 128), so that
//! cross-family capacity comparisons happen on a single numeric scale.

use vstd::prelude::*;

verus! {

/// Whether a width stores a sign bit.
#[derive(Clone, Copy, PartialEq, Eq, Structural, Debug)]
pub enum IntSignedness {
    Unsigned,
    Signed,
}

/// A concrete numeric storage width that a literal may resolve to.
///
/// `Nat` is the platform-sized unsigned width; its capacity is fixed here
/// at 64 bits, a documented platform-dependence caveat that is never
/// corrected dynamically. `F32`, `F64` and `Dec` are the float-family
/// widths, carrying the largest integer magnitude each can represent
/// exactly rather than its storage size.
#[derive(Clone, Copy, PartialEq, Eq, Structural, Debug)]
pub enum IntLitWidth {
    U8,
    U16,
    U32,
    U64,
    U128,
    I8,
    I16,
    I32,
    I64,
    I128,
    Nat,
    F32,
    F64,
    Dec,
}

/// Whether a width can represent negative values.
pub open spec fn spec_is_signed(w: IntLitWidth) -> bool {
    match w {
        IntLitWidth::U8
        | IntLitWidth::U16
        | IntLitWidth::U32
        | IntLitWidth::U64
        | IntLitWidth::U128
        | IntLitWidth::Nat => false,
        IntLitWidth::I8
        | IntLitWidth::I16
        | IntLitWidth::I32
        | IntLitWidth::I64
        | IntLitWidth::I128
        | IntLitWidth::F32
        | IntLitWidth::F64
        | IntLitWidth::Dec => true,
    }
}

/// A width's position on the uniform capacity scale: bits for integer
/// widths, exact-integer-precision bits for the float-family widths.
pub open spec fn capacity(w: IntLitWidth) -> nat {
    match w {
        IntLitWidth::U8 => 8,
        IntLitWidth::U16 => 16,
        IntLitWidth::U32 => 32,
        IntLitWidth::U64 => 64,
        IntLitWidth::U128 => 128,
        IntLitWidth::I8 => 8,
        IntLitWidth::I16 => 16,
        IntLitWidth::I32 => 32,
        IntLitWidth::I64 => 64,
        IntLitWidth::I128 => 128,
        IntLitWidth::Nat => 64,
        IntLitWidth::F32 => 24,
        IntLitWidth::F64 => 53,
        IntLitWidth::Dec => 128,
    }
}

/// The largest value a width can represent; for the float-family widths,
/// the largest integer representable without precision loss.
pub open spec fn spec_max_value(w: IntLitWidth) -> nat {
    match w {
        IntLitWidth::U8 => 0xff,
        IntLitWidth::U16 => 0xffff,
        IntLitWidth::U32 => 0xffff_ffff,
        IntLitWidth::U64 => 0xffff_ffff_ffff_ffff,
        IntLitWidth::U128 => 0xffff_ffff_ffff_ffff_ffff_ffff_ffff_ffff,
        IntLitWidth::I8 => 0x7f,
        IntLitWidth::I16 => 0x7fff,
        IntLitWidth::I32 => 0x7fff_ffff,
        IntLitWidth::I64 => 0x7fff_ffff_ffff_ffff,
        IntLitWidth::I128 => 0x7fff_ffff_ffff_ffff_ffff_ffff_ffff_ffff,
        IntLitWidth::Nat => 0xffff_ffff_ffff_ffff,
        IntLitWidth::F32 => 16_777_216,
        IntLitWidth::F64 => 9_007_199_254_740_992,
        IntLitWidth::Dec => 0x7fff_ffff_ffff_ffff_ffff_ffff_ffff_ffff,
    }
}

/// The smallest value a width can represent; for the float-family widths,
/// the smallest integer representable without precision loss.
pub open spec fn spec_min_value(w: IntLitWidth) -> int {
    match w {
        IntLitWidth::U8
        | IntLitWidth::U16
        | IntLitWidth::U32
        | IntLitWidth::U64
        | IntLitWidth::U128
        | IntLitWidth::Nat => 0,
        IntLitWidth::I8 => -0x80,
        IntLitWidth::I16 => -0x8000,
        IntLitWidth::I32 => -0x8000_0000,
        IntLitWidth::I64 => -0x8000_0000_0000_0000,
        IntLitWidth::I128 => -0x8000_0000_0000_0000_0000_0000_0000_0000,
        IntLitWidth::F32 => -16_777_216,
        IntLitWidth::F64 => -9_007_199_254_740_992,
        IntLitWidth::Dec => -0x8000_0000_0000_0000_0000_0000_0000_0000,
    }
}

/// The canonical display name of a width.
pub open spec fn spec_type_str(w: IntLitWidth) -> Seq<char> {
    match w {
        IntLitWidth::U8 => "U8"@,
        IntLitWidth::U16 => "U16"@,
        IntLitWidth::U32 => "U32"@,
        IntLitWidth::U64 => "U64"@,
        IntLitWidth::U128 => "U128"@,
        IntLitWidth::I8 => "I8"@,
        IntLitWidth::I16 => "I16"@,
        IntLitWidth::I32 => "I32"@,
        IntLitWidth::I64 => "I64"@,
        IntLitWidth::I128 => "I128"@,
        IntLitWidth::Nat => "Nat"@,
        IntLitWidth::F32 => "F32"@,
        IntLitWidth::F64 => "F64"@,
        IntLitWidth::Dec => "Dec"@,
    }
}

/// Whether the integers `a` can represent, on one side of zero, are a
/// superset of those `b` can represent on the same side.
///
/// On the negative side an unsigned width represents only `{0}`, so it is
/// never a superset of a signed width and trivially a superset of another
/// unsigned one. On the positive side an n-bit unsigned width covers twice
/// the positive range of an n-bit signed width, so unsigned-over-signed
/// compares capacity directly while signed-over-unsigned demands strictly
/// greater capacity.
pub open spec fn spec_is_superset(a: IntLitWidth, b: IntLitWidth, is_negative: bool) -> bool {
    if is_negative {
        match (spec_is_signed(a), spec_is_signed(b)) {
            (true, true) => capacity(a) >= capacity(b),
            (false, true) => false,
            (true, false) => true,
            (false, false) => true,
        }
    } else {
        match (spec_is_signed(a), spec_is_signed(b)) {
            (true, true) => capacity(a) >= capacity(b),
            (false, false) => capacity(a) >= capacity(b),
            (false, true) => capacity(a) >= capacity(b),
            (true, false) => capacity(a) > capacity(b),
        }
    }
}

/// The capacity-scale definition of the superset relation coincides with
/// the value-range one: on the negative side `a` covers `b` exactly when
/// `a` reaches at least as far below zero, and on the positive side
/// exactly when `a` reaches at least as far above it.
pub proof fn lemma_is_superset_values(a: IntLitWidth, b: IntLitWidth, is_negative: bool)
    ensures
        spec_is_superset(a, b, is_negative) == (if is_negative {
            spec_min_value(a) <= spec_min_value(b)
        } else {
            spec_max_value(a) >= spec_max_value(b)
        }),
{
}

impl IntLitWidth {
    /// The signedness and the capacity of a width, as one lookup.
    pub fn signedness_and_width(&self) -> (r: (IntSignedness, u32))
        ensures
            (r.0 == IntSignedness::Signed) == spec_is_signed(*self),
            r.1 == capacity(*self),
    {
        match self {
            IntLitWidth::U8 => (IntSignedness::Unsigned, 8),
            IntLitWidth::U16 => (IntSignedness::Unsigned, 16),
            IntLitWidth::U32 => (IntSignedness::Unsigned, 32),
            IntLitWidth::U64 => (IntSignedness::Unsigned, 64),
            IntLitWidth::U128 => (IntSignedness::Unsigned, 128),
            IntLitWidth::I8 => (IntSignedness::Signed, 8),
            IntLitWidth::I16 => (IntSignedness::Signed, 16),
            IntLitWidth::I32 => (IntSignedness::Signed, 32),
            IntLitWidth::I64 => (IntSignedness::Signed, 64),
            IntLitWidth::I128 => (IntSignedness::Signed, 128),
            // The platform-sized width is treated as unsigned/64 everywhere.
            IntLitWidth::Nat => (IntSignedness::Unsigned, 64),
            IntLitWidth::F32 => (IntSignedness::Signed, 24),
            IntLitWidth::F64 => (IntSignedness::Signed, 53),
            IntLitWidth::Dec => (IntSignedness::Signed, 128),
        }
    }

    pub fn is_signed(&self) -> (r: bool)
        ensures
            r == spec_is_signed(*self),
    {
        let (s, _) = self.signedness_and_width();
        matches!(s, IntSignedness::Signed)
    }

    /// The canonical display name of the width, for diagnostics.
    pub fn type_str(&self) -> (r: &'static str)
        ensures
            r@ == spec_type_str(*self),
    {
        match self {
            IntLitWidth::U8 => "U8",
            IntLitWidth::U16 => "U16",
            IntLitWidth::U32 => "U32",
            IntLitWidth::U64 => "U64",
            IntLitWidth::U128 => "U128",
            IntLitWidth::I8 => "I8",
            IntLitWidth::I16 => "I16",
            IntLitWidth::I32 => "I32",
            IntLitWidth::I64 => "I64",
            IntLitWidth::I128 => "I128",
            IntLitWidth::Nat => "Nat",
            IntLitWidth::F32 => "F32",
            IntLitWidth::F64 => "F64",
            IntLitWidth::Dec => "Dec",
        }
    }

    /// The inclusive upper bound of the width's representable values.
    pub fn max_value(&self) -> (r: u128)
        ensures
            r == spec_max_value(*self),
    {
        match self {
            IntLitWidth::U8 => 0xff,
            IntLitWidth::U16 => 0xffff,
            IntLitWidth::U32 => 0xffff_ffff,
            IntLitWidth::U64 => 0xffff_ffff_ffff_ffff,
            IntLitWidth::U128 => 0xffff_ffff_ffff_ffff_ffff_ffff_ffff_ffff,
            IntLitWidth::I8 => 0x7f,
            IntLitWidth::I16 => 0x7fff,
            IntLitWidth::I32 => 0x7fff_ffff,
            IntLitWidth::I64 => 0x7fff_ffff_ffff_ffff,
            IntLitWidth::I128 => 0x7fff_ffff_ffff_ffff_ffff_ffff_ffff_ffff,
            // The platform-sized width is treated as 64-bit everywhere.
            IntLitWidth::Nat => 0xffff_ffff_ffff_ffff,
            // Largest integer exactly representable in a 32-bit float: 2^24.
            IntLitWidth::F32 => 16_777_216,
            // Largest integer exactly representable in a 64-bit float: 2^53.
            IntLitWidth::F64 => 9_007_199_254_740_992,
            IntLitWidth::Dec => 0x7fff_ffff_ffff_ffff_ffff_ffff_ffff_ffff,
        }
    }

    /// The inclusive lower bound of the width's representable values.
    pub fn min_value(&self) -> (r: i128)
        ensures
            r == spec_min_value(*self),
    {
        match self {
            IntLitWidth::U8 | IntLitWidth::U16 | IntLitWidth::U32 | IntLitWidth::U64 | IntLitWidth::U128 | IntLitWidth::Nat => 0,
            IntLitWidth::I8 => -0x80,
            IntLitWidth::I16 => -0x8000,
            IntLitWidth::I32 => -0x8000_0000,
            IntLitWidth::I64 => -0x8000_0000_0000_0000,
            IntLitWidth::I128 => -0x8000_0000_0000_0000_0000_0000_0000_0000,
            IntLitWidth::F32 => -16_777_216,
            IntLitWidth::F64 => -9_007_199_254_740_992,
            IntLitWidth::Dec => -0x8000_0000_0000_0000_0000_0000_0000_0000,
        }
    }

    /// Checks whether `self` represents a superset of the integers that
    /// `lower_bound` represents, on one side of zero: the negative side
    /// when `is_negative` holds, the positive side otherwise.
    pub fn is_superset(&self, lower_bound: &Self, is_negative: bool) -> (r: bool)
        ensures
            r == spec_is_superset(*self, *lower_bound, is_negative),
            is_negative ==> r == (spec_min_value(*self) <= spec_min_value(*lower_bound)),
            !is_negative ==> r == (spec_max_value(*self) >= spec_max_value(*lower_bound)),
    {
        proof {
            lemma_is_superset_values(*self, *lower_bound, is_negative);
        }
        if is_negative {
            match (self.signedness_and_width(), lower_bound.signedness_and_width()) {
                ((IntSignedness::Signed, us), (IntSignedness::Signed, lb)) => us >= lb,
                // An unsigned width represents no negative number; a signed
                // one always represents some.
                ((IntSignedness::Unsigned, _), (IntSignedness::Signed, _)) => false,
                ((IntSignedness::Signed, _), (IntSignedness::Unsigned, _)) => true,
                // Both represent only 0 on this side.
                ((IntSignedness::Unsigned, _), (IntSignedness::Unsigned, _)) => true,
            }
        } else {
            match (self.signedness_and_width(), lower_bound.signedness_and_width()) {
                ((IntSignedness::Signed, us), (IntSignedness::Signed, lb)) | ((IntSignedness::Unsigned, us), (IntSignedness::Unsigned, lb)) => us >= lb,
                // An n-bit unsigned width covers twice the positive range of
                // an n-bit signed width.
                ((IntSignedness::Unsigned, us), (IntSignedness::Signed, lb)) => us >= lb,
                // ...so a signed width covers an unsigned one only with
                // strictly greater capacity: IntLitWidth::I16 covers IntLitWidth::U8 but not IntLitWidth::U16.
                ((IntSignedness::Signed, us), (IntSignedness::Unsigned, lb)) => us > lb,
            }
        }
    }
}

} // verus!
