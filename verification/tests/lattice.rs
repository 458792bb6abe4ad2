use numeric_range::bound::FloatWidth;
use numeric_range::range::NumericRange::{IntAtLeastEitherSign, IntAtLeastSigned, NumAtLeastEitherSign, NumAtLeastSigned};
use numeric_range::range::{MatchResult, NumericRange};
use numeric_range::width::IntLitWidth::{Dec, F32, F64, I128, I16, I32, I64, I8, Nat, U128, U16, U32, U64, U8};
use numeric_range::width::IntLitWidth;

#[test]
fn intersection_keeps_stronger_signed_bound() {
    // A literal like -5 seeds a signed-integer range at least 8 bits; an
    // independently derived either-sign integer range at least 16 bits
    // merges into a signed-integer range at least 16 bits.
    let a = NumericRange::IntAtLeastSigned(IntLitWidth::I8);
    let b = NumericRange::IntAtLeastEitherSign(IntLitWidth::I16);
    assert_eq!(a.intersection(&b), Some(NumericRange::IntAtLeastSigned(IntLitWidth::I16)));
    assert_eq!(b.intersection(&a), Some(NumericRange::IntAtLeastSigned(IntLitWidth::I16)));
}

#[test]
fn intersection_signed_demand_absorbs_unsigned_bound() {
    // An unsigned-only lower bound can never satisfy a signed demand.
    let signed = NumericRange::IntAtLeastSigned(IntLitWidth::I8);
    let unsigned_bound = NumericRange::IntAtLeastEitherSign(IntLitWidth::U8);
    assert_eq!(signed.intersection(&unsigned_bound), None);
    assert_eq!(unsigned_bound.intersection(&signed), None);
    let num_signed = NumericRange::NumAtLeastSigned(IntLitWidth::F32);
    let nat_bound = NumericRange::NumAtLeastEitherSign(IntLitWidth::Nat);
    assert_eq!(num_signed.intersection(&nat_bound), None);
}

#[test]
fn intersection_is_idempotent() {
    for r in [
        NumericRange::IntAtLeastSigned(IntLitWidth::I32),
        NumericRange::IntAtLeastEitherSign(IntLitWidth::U16),
        NumericRange::NumAtLeastSigned(IntLitWidth::F64),
        NumericRange::NumAtLeastEitherSign(IntLitWidth::U128),
    ] {
        assert_eq!(r.intersection(&r), Some(r));
    }
}

#[test]
fn intersection_is_commutative_on_samples() {
    let samples = [
        NumericRange::IntAtLeastSigned(IntLitWidth::I8),
        NumericRange::IntAtLeastEitherSign(IntLitWidth::U32),
        NumericRange::NumAtLeastSigned(IntLitWidth::I64),
        NumericRange::NumAtLeastEitherSign(IntLitWidth::U8),
        NumericRange::NumAtLeastEitherSign(IntLitWidth::F64),
    ];
    for a in samples {
        for b in samples {
            assert_eq!(a.intersection(&b), b.intersection(&a));
        }
    }
}

#[test]
fn intersection_variant_pairings() {
    // Either operand being a signed integer range forces a signed integer
    // result.
    assert_eq!(
        NumAtLeastSigned(I8).intersection(&IntAtLeastEitherSign(I32)),
        Some(IntAtLeastSigned(I32))
    );
    // Two signed number ranges stay in the number family.
    assert_eq!(
        NumAtLeastSigned(I8).intersection(&NumAtLeastSigned(I64)),
        Some(NumAtLeastSigned(I64))
    );
    assert_eq!(
        NumAtLeastSigned(I8).intersection(&NumAtLeastEitherSign(I16)),
        Some(NumAtLeastSigned(I16))
    );
    // Either-sign integer ranges absorb either-sign number ranges.
    assert_eq!(
        IntAtLeastEitherSign(U8).intersection(&NumAtLeastEitherSign(U32)),
        Some(IntAtLeastEitherSign(U32))
    );
    assert_eq!(
        NumAtLeastEitherSign(U8).intersection(&NumAtLeastEitherSign(U16)),
        Some(NumAtLeastEitherSign(U16))
    );
    // On the positive side an unsigned width covers the signed width of
    // the same capacity, so the unsigned lower bound is the stronger one.
    assert_eq!(
        IntAtLeastEitherSign(I128).intersection(&IntAtLeastEitherSign(U128)),
        Some(IntAtLeastEitherSign(U128))
    );
}

#[test]
fn contains_int_width_checks_sign_then_capacity() {
    // A literal like 5 seeds an either-sign integer range at least U8;
    // the 64-bit signed integer type satisfies it.
    let r = NumericRange::IntAtLeastEitherSign(U8);
    assert!(r.contains_int_width(I64));
    assert!(r.contains_int_width(U8));
    // A signed demand rejects unsigned widths whatever their capacity.
    let s = NumericRange::IntAtLeastSigned(I32);
    assert!(!s.contains_int_width(U128));
    assert!(s.contains_int_width(I32));
    assert!(!s.contains_int_width(I16));
    // Capacity comparison crosses families: a number range at least F64
    // needs 53 bits of exact-integer precision.
    let n = NumericRange::NumAtLeastSigned(F64);
    assert!(n.contains_int_width(I64));
    assert!(!n.contains_int_width(I32));
}

#[test]
fn contains_float_width_always_accepts() {
    let r = NumericRange::IntAtLeastSigned(IntLitWidth::I128);
    assert!(r.contains_float_width(FloatWidth::F32));
    assert!(r.contains_float_width(FloatWidth::F64));
    assert!(r.contains_float_width(FloatWidth::Dec));
}

#[test]
fn width_projection() {
    assert_eq!(NumericRange::NumAtLeastSigned(IntLitWidth::F32).width(), IntLitWidth::F32);
    assert_eq!(NumericRange::IntAtLeastEitherSign(IntLitWidth::U64).width(), IntLitWidth::U64);
}

#[test]
fn match_result_partial_eq() {
    assert_eq!(MatchResult::NoIntersection, MatchResult::NoIntersection);
    assert_ne!(MatchResult::RangeInContent, MatchResult::ContentInRange);
}
