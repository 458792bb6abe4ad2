//! Type-variable handles for the built-in numeric types, and the four
//! fixed ascending-capacity defaulting tables over them.

use vstd::prelude::*;
use crate::bound::FloatWidth;
use crate::range::NumericRange;
use crate::width::{capacity, spec_is_signed, IntLitWidth};

verus! {

/// The type-variable handle reserved for a built-in numeric type in the
/// surrounding substitution store.
#[derive(Clone, Copy, PartialEq, Eq, Structural, Debug)]
pub enum Variable {
    U8,
    U16,
    U32,
    U64,
    U128,
    I8,
    I16,
    I32,
    I64,
    I128,
    Nat,
    F32,
    F64,
    Dec,
}

/// The reserved type variable of the built-in type for a width.
pub open spec fn spec_int_lit_width_to_variable(w: IntLitWidth) -> Variable {
    match w {
        IntLitWidth::U8 => Variable::U8,
        IntLitWidth::U16 => Variable::U16,
        IntLitWidth::U32 => Variable::U32,
        IntLitWidth::U64 => Variable::U64,
        IntLitWidth::U128 => Variable::U128,
        IntLitWidth::I8 => Variable::I8,
        IntLitWidth::I16 => Variable::I16,
        IntLitWidth::I32 => Variable::I32,
        IntLitWidth::I64 => Variable::I64,
        IntLitWidth::I128 => Variable::I128,
        IntLitWidth::Nat => Variable::Nat,
        IntLitWidth::F32 => Variable::F32,
        IntLitWidth::F64 => Variable::F64,
        IntLitWidth::Dec => Variable::Dec,
    }
}

pub fn int_lit_width_to_variable(w: IntLitWidth) -> (r: Variable)
    ensures
        r == spec_int_lit_width_to_variable(w),
{
    match w {
        IntLitWidth::U8 => Variable::U8,
        IntLitWidth::U16 => Variable::U16,
        IntLitWidth::U32 => Variable::U32,
        IntLitWidth::U64 => Variable::U64,
        IntLitWidth::U128 => Variable::U128,
        IntLitWidth::I8 => Variable::I8,
        IntLitWidth::I16 => Variable::I16,
        IntLitWidth::I32 => Variable::I32,
        IntLitWidth::I64 => Variable::I64,
        IntLitWidth::I128 => Variable::I128,
        IntLitWidth::Nat => Variable::Nat,
        IntLitWidth::F32 => Variable::F32,
        IntLitWidth::F64 => Variable::F64,
        IntLitWidth::Dec => Variable::Dec,
    }
}

/// The reserved type variable of the built-in type for a float-family
/// width.
pub open spec fn spec_float_width_to_variable(w: FloatWidth) -> Variable {
    match w {
        FloatWidth::Dec => Variable::Dec,
        FloatWidth::F32 => Variable::F32,
        FloatWidth::F64 => Variable::F64,
    }
}

pub fn float_width_to_variable(w: FloatWidth) -> (r: Variable)
    ensures
        r == spec_float_width_to_variable(w),
{
    match w {
        FloatWidth::Dec => Variable::Dec,
        FloatWidth::F32 => Variable::F32,
        FloatWidth::F64 => Variable::F64,
    }
}

/// All int-or-float widths, ascending by capacity. The platform-sized
/// width sits at its fixed 64-bit position, whatever the actual platform.
pub open spec fn all_int_or_float_table() -> Seq<Variable> {
    seq![
        Variable::I8,
        Variable::U8,
        Variable::I16,
        Variable::U16,
        Variable::F32,
        Variable::I32,
        Variable::U32,
        Variable::F64,
        Variable::I64,
        Variable::Nat,
        Variable::U64,
        Variable::I128,
        Variable::Dec,
        Variable::U128,
    ]
}

/// Signed int-or-float widths, ascending by capacity.
pub open spec fn signed_int_or_float_table() -> Seq<Variable> {
    seq![
        Variable::I8,
        Variable::I16,
        Variable::F32,
        Variable::I32,
        Variable::F64,
        Variable::I64,
        Variable::I128,
        Variable::Dec,
    ]
}

/// All integer widths, ascending by capacity.
pub open spec fn all_int_table() -> Seq<Variable> {
    seq![
        Variable::I8,
        Variable::U8,
        Variable::I16,
        Variable::U16,
        Variable::I32,
        Variable::U32,
        Variable::I64,
        Variable::Nat,
        Variable::U64,
        Variable::I128,
        Variable::U128,
    ]
}

/// Signed integer widths, ascending by capacity.
pub open spec fn signed_int_table() -> Seq<Variable> {
    seq![Variable::I8, Variable::I16, Variable::I32, Variable::I64, Variable::I128]
}

/// The defaulting table matching a range's variant family.
pub open spec fn spec_table_of(r: NumericRange) -> Seq<Variable> {
    match r {
        NumericRange::IntAtLeastSigned(_) => signed_int_table(),
        NumericRange::IntAtLeastEitherSign(_) => all_int_table(),
        NumericRange::NumAtLeastSigned(_) => signed_int_or_float_table(),
        NumericRange::NumAtLeastEitherSign(_) => all_int_or_float_table(),
    }
}

/// The width whose reserved type variable a handle names.
pub open spec fn spec_variable_width(v: Variable) -> IntLitWidth {
    match v {
        Variable::U8 => IntLitWidth::U8,
        Variable::U16 => IntLitWidth::U16,
        Variable::U32 => IntLitWidth::U32,
        Variable::U64 => IntLitWidth::U64,
        Variable::U128 => IntLitWidth::U128,
        Variable::I8 => IntLitWidth::I8,
        Variable::I16 => IntLitWidth::I16,
        Variable::I32 => IntLitWidth::I32,
        Variable::I64 => IntLitWidth::I64,
        Variable::I128 => IntLitWidth::I128,
        Variable::Nat => IntLitWidth::Nat,
        Variable::F32 => IntLitWidth::F32,
        Variable::F64 => IntLitWidth::F64,
        Variable::Dec => IntLitWidth::Dec,
    }
}

/// Every defaulting table lists widths in ascending capacity order, so a
/// suffix of one never drops below the capacity at which it starts.
pub proof fn lemma_table_ascending(r: NumericRange)
    ensures
        forall|i: int, j: int|
            0 <= i <= j < spec_table_of(r).len() ==> capacity(
                spec_variable_width(spec_table_of(r)[i]),
            ) <= capacity(spec_variable_width(spec_table_of(r)[j])),
{
}

/// The defaulting tables of the sign-demanding range families hold signed
/// widths only.
pub proof fn lemma_signed_table_signed(r: NumericRange)
    requires
        r.demands_signed(),
    ensures
        forall|i: int|
            0 <= i < spec_table_of(r).len() ==> spec_is_signed(
                spec_variable_width(spec_table_of(r)[i]),
            ),
{
}

/// The position of the first occurrence of `v` in `t`; `t.len()` when `v`
/// does not occur.
pub open spec fn table_position(t: Seq<Variable>, v: Variable) -> int
    decreases t.len(),
{
    if t.len() == 0 {
        0
    } else if t[0] == v {
        0
    } else {
        1 + table_position(t.skip(1), v)
    }
}

/// When `v` occurs in `t`, its first position lies inside `t` and holds
/// `v`, and nothing before it does.
pub proof fn lemma_table_position(t: Seq<Variable>, v: Variable)
    requires
        t.contains(v),
    ensures
        0 <= table_position(t, v) < t.len(),
        t[table_position(t, v)] == v,
        forall|j: int| 0 <= j < table_position(t, v) ==> t[j] != v,
    decreases t.len(),
{
    if t.len() > 0 && t[0] != v {
        assert(t.skip(1).contains(v)) by {
            let i = choose|i: int| 0 <= i < t.len() && t[i] == v;
            assert(t.skip(1)[i - 1] == v);
        }
        lemma_table_position(t.skip(1), v);
        assert forall|j: int| 0 <= j < table_position(t, v) implies t[j] != v by {
            if j > 0 {
                assert(t.skip(1)[j - 1] != v);
            }
        }
    }
}

impl NumericRange {
    /// Whether the range's lower-bound width appears in its family's
    /// defaulting table — the invariant every well-formed range keeps.
    pub open spec fn slice_in_table(self) -> bool {
        spec_table_of(self).contains(spec_int_lit_width_to_variable(self.spec_width()))
    }

    /// Every concrete width that still satisfies this range's lower
    /// bound, in ascending preference order: the suffix of the range's
    /// defaulting table that begins at the lower-bound width itself.
    ///
    /// A lower-bound width absent from its family's table would be a
    /// malformed range; such a range is excluded here rather than
    /// defaulted silently.
    pub fn variable_slice(&self) -> (r: Vec<Variable>)
        requires
            self.slice_in_table(),
        ensures
            r@ == spec_table_of(*self).skip(
                table_position(spec_table_of(*self), spec_int_lit_width_to_variable(self.spec_width())),
            ),
            r@.len() > 0,
            r@[0] == spec_int_lit_width_to_variable(self.spec_width()),
            forall|k: int|
                0 <= k < r@.len() ==> crate::range::spec_contains_int_width(
                    *self,
                    spec_variable_width(r@[k]),
                ),
    {
        let table = match self {
            NumericRange::IntAtLeastSigned(_) => signed_int_variables(),
            NumericRange::IntAtLeastEitherSign(_) => all_int_variables(),
            NumericRange::NumAtLeastSigned(_) => signed_int_or_float_variables(),
            NumericRange::NumAtLeastEitherSign(_) => all_int_or_float_variables(),
        };
        let target = int_lit_width_to_variable(self.width());
        proof {
            lemma_table_position(table@, target);
        }
        let ghost start_pos = table_position(table@, target);
        let mut start: usize = 0;
        while start < table.len() && table[start] != target
            invariant
                0 <= start <= table@.len(),
                table@ == spec_table_of(*self),
                target == spec_int_lit_width_to_variable(self.spec_width()),
                forall|j: int| 0 <= j < start ==> table@[j] != target,
                start <= start_pos,
                0 <= start_pos < table@.len(),
                table@[start_pos] == target,
                start_pos == table_position(table@, target),
            decreases table@.len() - start,
        {
            start = start + 1;
        }
        assert(start == start_pos);
        let mut out: Vec<Variable> = Vec::new();
        let mut i: usize = start;
        while i < table.len()
            invariant
                start <= i <= table@.len(),
                out@ == table@.subrange(start as int, i as int),
            decreases table@.len() - i,
        {
            out.push(table[i]);
            i = i + 1;
        }
        assert(out@ =~= table@.skip(start as int));
        proof {
            lemma_table_ascending(*self);
            if self.demands_signed() {
                lemma_signed_table_signed(*self);
            }
            assert(spec_variable_width(table@[start as int]) == self.spec_width());
            assert forall|k: int|
                0 <= k < out@.len() implies crate::range::spec_contains_int_width(
                *self,
                spec_variable_width(out@[k]),
            ) by {
                assert(out@[k] == table@[start + k]);
            }
        }
        out
    }
}

fn all_int_or_float_variables() -> (r: Vec<Variable>)
    ensures
        r@ == all_int_or_float_table(),
{
    let mut v: Vec<Variable> = Vec::new();
    v.push(Variable::I8);
    v.push(Variable::U8);
    v.push(Variable::I16);
    v.push(Variable::U16);
    v.push(Variable::F32);
    v.push(Variable::I32);
    v.push(Variable::U32);
    v.push(Variable::F64);
    v.push(Variable::I64);
    v.push(Variable::Nat);
    v.push(Variable::U64);
    v.push(Variable::I128);
    v.push(Variable::Dec);
    v.push(Variable::U128);
    assert(v@ =~= all_int_or_float_table());
    v
}

fn signed_int_or_float_variables() -> (r: Vec<Variable>)
    ensures
        r@ == signed_int_or_float_table(),
{
    let mut v: Vec<Variable> = Vec::new();
    v.push(Variable::I8);
    v.push(Variable::I16);
    v.push(Variable::F32);
    v.push(Variable::I32);
    v.push(Variable::F64);
    v.push(Variable::I64);
    v.push(Variable::I128);
    v.push(Variable::Dec);
    assert(v@ =~= signed_int_or_float_table());
    v
}

fn all_int_variables() -> (r: Vec<Variable>)
    ensures
        r@ == all_int_table(),
{
    let mut v: Vec<Variable> = Vec::new();
    v.push(Variable::I8);
    v.push(Variable::U8);
    v.push(Variable::I16);
    v.push(Variable::U16);
    v.push(Variable::I32);
    v.push(Variable::U32);
    v.push(Variable::I64);
    v.push(Variable::Nat);
    v.push(Variable::U64);
    v.push(Variable::I128);
    v.push(Variable::U128);
    assert(v@ =~= all_int_table());
    v
}

fn signed_int_variables() -> (r: Vec<Variable>)
    ensures
        r@ == signed_int_table(),
{
    let mut v: Vec<Variable> = Vec::new();
    v.push(Variable::I8);
    v.push(Variable::I16);
    v.push(Variable::I32);
    v.push(Variable::I64);
    v.push(Variable::I128);
    assert(v@ =~= signed_int_table());
    v
}

} // verus!

