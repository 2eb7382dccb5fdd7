use errcode::ErrorCode;

#[test]
fn new_wraps_the_given_magnitude() {
    let c = ErrorCode::new(22);
    assert_eq!(c.as_u16(), 22);
    let one = ErrorCode::new(1);
    assert_eq!(one.as_u16(), 1);
    let max = ErrorCode::new(65535);
    assert_eq!(max.as_u16(), 65535);
}

#[test]
fn conversions_are_lossless_at_every_width() {
    for m in [1u16, 22, 200, 32767, 32768, 65535] {
        let c = ErrorCode::new(m);
        assert_eq!(c.as_u16(), m);
        assert_eq!(c.as_u32(), u32::from(m));
        assert_eq!(c.as_u64(), u64::from(m));
        assert_eq!(c.as_usize(), usize::from(m));
        assert_eq!(c.as_i32(), i32::from(m));
        assert_eq!(c.as_i64(), i64::from(m));
        assert_eq!(c.as_isize(), m as isize);
    }
}

#[test]
fn negation_is_a_self_inverse() {
    for m in [1u16, 22, 65535] {
        let c = ErrorCode::new(m);
        let n = c.negate();
        assert_eq!(n.as_u16(), m);
        let back = n.negate();
        assert_eq!(back, c);
        assert_eq!(back.as_u16(), m);
    }
}

#[test]
fn same_type_equality_is_magnitude_identity() {
    let a = ErrorCode::new(5);
    let b = ErrorCode::new(5);
    let c = ErrorCode::new(6);
    assert_eq!(a, b);
    assert_ne!(a, c);
    assert_eq!(a.negate(), b.negate());
    assert_ne!(a.negate(), c.negate());
}
