use numeric_range::width::IntLitWidth::{Dec, F32, F64, I128, I16, I32, I64, I8, Nat, U128, U16, U32, U64, U8};
use numeric_range::width::{IntLitWidth, IntSignedness};

#[test]
fn signedness_and_width_table() {
    let cases: &[(IntLitWidth, IntSignedness, u32)] = &[
        (U8, IntSignedness::Unsigned, 8),
        (U16, IntSignedness::Unsigned, 16),
        (U32, IntSignedness::Unsigned, 32),
        (U64, IntSignedness::Unsigned, 64),
        (U128, IntSignedness::Unsigned, 128),
        (I8, IntSignedness::Signed, 8),
        (I16, IntSignedness::Signed, 16),
        (I32, IntSignedness::Signed, 32),
        (I64, IntSignedness::Signed, 64),
        (I128, IntSignedness::Signed, 128),
        (Nat, IntSignedness::Unsigned, 64),
        (F32, IntSignedness::Signed, 24),
        (F64, IntSignedness::Signed, 53),
        (Dec, IntSignedness::Signed, 128),
    ];
    for (w, sign, bits) in cases {
        assert_eq!(w.signedness_and_width(), (*sign, *bits));
        assert_eq!(w.is_signed(), *sign == IntSignedness::Signed);
    }
}

#[test]
fn max_values() {
    assert_eq!(U8.max_value(), u8::MAX as u128);
    assert_eq!(U16.max_value(), u16::MAX as u128);
    assert_eq!(U32.max_value(), u32::MAX as u128);
    assert_eq!(U64.max_value(), u64::MAX as u128);
    assert_eq!(U128.max_value(), u128::MAX);
    assert_eq!(I8.max_value(), i8::MAX as u128);
    assert_eq!(I16.max_value(), i16::MAX as u128);
    assert_eq!(I32.max_value(), i32::MAX as u128);
    assert_eq!(I64.max_value(), i64::MAX as u128);
    assert_eq!(I128.max_value(), i128::MAX as u128);
    assert_eq!(Nat.max_value(), u64::MAX as u128);
    assert_eq!(F32.max_value(), 16_777_216);
    assert_eq!(F64.max_value(), 9_007_199_254_740_992);
    assert_eq!(Dec.max_value(), i128::MAX as u128);
}

#[test]
fn min_values() {
    for w in [U8, U16, U32, U64, U128, Nat] {
        assert_eq!(w.min_value(), 0);
    }
    assert_eq!(I8.min_value(), i8::MIN as i128);
    assert_eq!(I16.min_value(), i16::MIN as i128);
    assert_eq!(I32.min_value(), i32::MIN as i128);
    assert_eq!(I64.min_value(), i64::MIN as i128);
    assert_eq!(I128.min_value(), i128::MIN);
    assert_eq!(F32.min_value(), -16_777_216);
    assert_eq!(F64.min_value(), -9_007_199_254_740_992);
    assert_eq!(Dec.min_value(), i128::MIN);
}

#[test]
fn type_strings() {
    let cases: &[(IntLitWidth, &str)] = &[
        (U8, "U8"),
        (U16, "U16"),
        (U32, "U32"),
        (U64, "U64"),
        (U128, "U128"),
        (I8, "I8"),
        (I16, "I16"),
        (I32, "I32"),
        (I64, "I64"),
        (I128, "I128"),
        (Nat, "Nat"),
        (F32, "F32"),
        (F64, "F64"),
        (Dec, "Dec"),
    ];
    for (w, s) in cases {
        assert_eq!(w.type_str(), *s);
    }
}

#[test]
fn superset_positive_side_edge_cases() {
    // A signed width covers an unsigned one on the positive side only
    // with strictly greater capacity.
    assert!(I16.is_superset(&U8, false));
    assert!(!I16.is_superset(&U16, false));
    // An unsigned width covers a signed one of the same capacity.
    assert!(U16.is_superset(&I8, false));
    assert!(U16.is_superset(&I16, false));
    // Same-signedness comparisons go by capacity.
    assert!(I32.is_superset(&I32, false));
    assert!(!I8.is_superset(&I16, false));
    // Cross-family: a 64-bit float holds integers up to 2^53.
    assert!(F64.is_superset(&U32, false));
    assert!(!F64.is_superset(&U64, false));
}

#[test]
fn superset_negative_side() {
    // Unsigned widths represent no negative number.
    assert!(!U64.is_superset(&I8, true));
    // Any signed width covers any unsigned one below zero.
    assert!(I8.is_superset(&U128, true));
    // Both unsigned: both represent only zero below zero.
    assert!(U8.is_superset(&U128, true));
    // Signed against signed goes by capacity.
    assert!(I16.is_superset(&I8, true));
    assert!(!I8.is_superset(&I16, true));
    assert!(Dec.is_superset(&I128, true));
}
