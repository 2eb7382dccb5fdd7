use errcode::ErrorCode;

#[test]
fn positive_code_equals_matching_unsigned() {
    let c = ErrorCode::new(22);
    assert!(c.eq_u16(22));
    assert!(c.eq_u32(22));
    assert!(c.eq_u64(22));
    assert!(c.eq_usize(22));
    assert!(!c.eq_u16(23));
    assert!(!c.eq_u32(0));
    assert!(!c.eq_u64(21));
    assert!(!c.eq_usize(65536));
}

#[test]
fn positive_code_equals_only_strictly_positive_signed() {
    let c = ErrorCode::new(22);
    assert!(c.eq_i16(22));
    assert!(c.eq_i32(22));
    assert!(c.eq_i64(22));
    assert!(c.eq_isize(22));
    assert!(!c.eq_i32(0));
    assert!(!c.eq_i32(-22));
    assert!(!c.eq_i64(-22));
    assert!(!c.eq_i16(-22));
    assert!(!c.eq_isize(-22));
    assert!(!c.eq_i64(i64::MIN));
}

#[test]
fn large_magnitude_never_equals_a_narrow_signed_value() {
    // 40000 does not fit in i16, so no i16 can equal it.
    let c = ErrorCode::new(40000);
    assert!(!c.eq_i16(i16::MAX));
    assert!(!c.eq_i16(-25536)); // the wrapped bit pattern of 40000
    assert!(c.eq_i32(40000));
    assert!(c.eq_u16(40000));
}

#[test]
fn negated_code_never_equals_unsigned() {
    let n = ErrorCode::new(22).negate();
    assert!(!n.eq_u16(22));
    assert!(!n.eq_u32(22));
    assert!(!n.eq_u64(22));
    assert!(!n.eq_usize(22));
    assert!(!n.eq_u32(0));
    // Not even the unsigned reinterpretation of the negative bit pattern.
    assert!(!n.eq_u32((-22i32) as u32));
    assert!(!n.eq_u64((-22i64) as u64));
}

#[test]
fn negated_code_equals_only_strictly_negative_signed() {
    let n = ErrorCode::new(22).negate();
    assert!(n.eq_i16(-22));
    assert!(n.eq_i32(-22));
    assert!(n.eq_i64(-22));
    assert!(n.eq_isize(-22));
    assert!(!n.eq_i32(22));
    assert!(!n.eq_i32(0));
    assert!(!n.eq_i64(-23));
    assert!(!n.eq_i64(i64::MIN));
}

#[test]
fn negated_large_magnitude_via_wide_signed_only() {
    // -40000 does not fit in i16; the comparison widens instead of wrapping.
    let n = ErrorCode::new(40000).negate();
    assert!(!n.eq_i16(i16::MIN));
    assert!(n.eq_i32(-40000));
    let m = ErrorCode::new(30000).negate();
    assert!(m.eq_i16(-30000));
    assert!(!m.eq_i16(30000));
}
