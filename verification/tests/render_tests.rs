use guest_abi::variant::Variant;
use guest_abi::variant::Vector2i;

#[test]
fn nil_renders_as_the_fixed_literal() {
    assert_eq!(Variant::new_nil().to_string().unwrap(), "nil");
}

#[test]
fn booleans_render_as_words() {
    assert_eq!(Variant::new_bool(true).to_string().unwrap(), "true");
    assert_eq!(Variant::new_bool(false).to_string().unwrap(), "false");
}

#[test]
fn integers_render_in_decimal() {
    assert_eq!(Variant::new_integer(0).to_string().unwrap(), "0");
    assert_eq!(Variant::new_integer(7).to_string().unwrap(), "7");
    assert_eq!(Variant::new_integer(42).to_string().unwrap(), "42");
    assert_eq!(Variant::new_integer(-1).to_string().unwrap(), "-1");
    assert_eq!(
        Variant::new_integer(1234567890).to_string().unwrap(),
        "1234567890"
    );
    assert_eq!(
        Variant::new_integer(i64::MAX).to_string().unwrap(),
        "9223372036854775807"
    );
    assert_eq!(
        Variant::new_integer(i64::MIN).to_string().unwrap(),
        "-9223372036854775808"
    );
}

#[test]
fn unreadable_payloads_render_to_nothing() {
    assert_eq!(Variant::new_float(3.14f64.to_bits()).to_string(), None);
    assert_eq!((Variant::Str { lo: 1, hi: 2 }).to_string(), None);
    assert_eq!(Variant::new_vec2i(Vector2i::new(1, 2)).to_string(), None);
}
