use errcode::ErrorCode;

#[test]
fn positive_decimal_prints_the_magnitude() {
    assert_eq!(ErrorCode::new(22).to_decimal_string(), "22");
    assert_eq!(ErrorCode::new(1).to_decimal_string(), "1");
    assert_eq!(ErrorCode::new(65535).to_decimal_string(), "65535");
    assert_eq!(ErrorCode::new(100).to_decimal_string(), "100");
}

#[test]
fn positive_binary_and_hex() {
    let c = ErrorCode::new(22);
    assert_eq!(c.to_binary_string(), "10110");
    assert_eq!(c.to_lower_hex_string(), "16");
    assert_eq!(c.to_upper_hex_string(), "16");
    let x = ErrorCode::new(255);
    assert_eq!(x.to_lower_hex_string(), "ff");
    assert_eq!(x.to_upper_hex_string(), "FF");
    assert_eq!(x.to_binary_string(), "11111111");
    let max = ErrorCode::new(65535);
    assert_eq!(max.to_lower_hex_string(), "ffff");
    assert_eq!(max.to_upper_hex_string(), "FFFF");
    let mixed = ErrorCode::new(0x1A2B);
    assert_eq!(mixed.to_lower_hex_string(), "1a2b");
    assert_eq!(mixed.to_upper_hex_string(), "1A2B");
}

#[test]
fn negated_decimal_prints_the_negative_value() {
    let n = ErrorCode::new(22).negate();
    assert_eq!(n.to_decimal_string(), "-22");
}

#[test]
fn negated_hex_is_signed_not_a_bit_pattern() {
    let n = ErrorCode::new(22).negate();
    assert_eq!(n.to_lower_hex_string(), "-16");
    assert_eq!(n.to_upper_hex_string(), "-16");
    assert_eq!(n.to_binary_string(), "-10110");
    let m = ErrorCode::new(255).negate();
    assert_eq!(m.to_lower_hex_string(), "-ff");
    assert_eq!(m.to_upper_hex_string(), "-FF");
}
