use guest_abi::variant::Rect2;
use guest_abi::variant::Rect2i;
use guest_abi::variant::TypeMismatch;
use guest_abi::variant::Variant;
use guest_abi::variant::VariantType;
use guest_abi::variant::Vector2;
use guest_abi::variant::Vector2i;
use guest_abi::variant::Vector3;
use guest_abi::variant::Vector3i;
use guest_abi::variant::Vector4;
use guest_abi::variant::Vector4i;
use guest_abi::variant::tag_code;
use guest_abi::variant::tag_from_code;

#[test]
fn tag_codes_follow_declaration_order() {
    assert_eq!(tag_code(VariantType::Nil), 0);
    assert_eq!(tag_code(VariantType::Bool), 1);
    assert_eq!(tag_code(VariantType::Integer), 2);
    assert_eq!(tag_code(VariantType::Float), 3);
    assert_eq!(tag_code(VariantType::Str), 4);
    assert_eq!(tag_code(VariantType::Vector2), 5);
    assert_eq!(tag_code(VariantType::Vector2i), 6);
    assert_eq!(tag_code(VariantType::Vector3), 7);
    assert_eq!(tag_code(VariantType::Vector3i), 8);
    assert_eq!(tag_code(VariantType::Rect2), 9);
    assert_eq!(tag_code(VariantType::Rect2i), 10);
    assert_eq!(tag_code(VariantType::Vector4), 11);
    assert_eq!(tag_code(VariantType::Vector4i), 12);
}

#[test]
fn tag_code_round_trips() {
    for n in 0u32..13 {
        let t = tag_from_code(n).unwrap();
        assert_eq!(tag_code(t), n);
    }
    assert_eq!(tag_from_code(13), None);
    assert_eq!(tag_from_code(u32::MAX), None);
}

#[test]
fn bool_round_trip() {
    assert_eq!(Variant::new_bool(true).to_bool(), Ok(true));
    assert_eq!(Variant::new_bool(false).to_bool(), Ok(false));
}

#[test]
fn integer_round_trip() {
    for i in [0i64, 42, -1, i64::MIN, i64::MAX] {
        assert_eq!(Variant::new_integer(i).to_integer(), Ok(i));
    }
}

#[test]
fn float_round_trip() {
    for f in [0.0f64, 3.14, -2.5, f64::INFINITY] {
        let v = Variant::new_float(f.to_bits());
        assert_eq!(v.to_float(), Ok(f.to_bits()));
        assert_eq!(f64::from_bits(v.to_float().unwrap()), f);
    }
}

#[test]
fn geometric_round_trips() {
    let v2 = Vector2::new(1.5f32.to_bits(), (-2.0f32).to_bits());
    assert_eq!(Variant::new_vec2(v2).to_vec2(), Ok(v2));
    let v2i = Vector2i::new(-7, 9);
    assert_eq!(Variant::new_vec2i(v2i).to_vec2i(), Ok(v2i));
    let v3 = Vector3::new(1f32.to_bits(), 2f32.to_bits(), 3f32.to_bits());
    assert_eq!(Variant::new_vec3(v3).to_vec3(), Ok(v3));
    let v3i = Vector3i::new(i32::MIN, 0, i32::MAX);
    assert_eq!(Variant::new_vec3i(v3i).to_vec3i(), Ok(v3i));
    let r2 = Rect2::new(v2, Vector2::new(4f32.to_bits(), 5f32.to_bits()));
    assert_eq!(Variant::new_rect2(r2).to_rect2(), Ok(r2));
    let r2i = Rect2i::new(v2i, Vector2i::new(10, 20));
    assert_eq!(Variant::new_rect2i(r2i).to_rect2i(), Ok(r2i));
    let v4 = Vector4::new(1f32.to_bits(), 2f32.to_bits(), 3f32.to_bits(), 4f32.to_bits());
    assert_eq!(Variant::new_vec4(v4).to_vec4(), Ok(v4));
    let v4i = Vector4i::new(-1, -2, -3, -4);
    assert_eq!(Variant::new_vec4i(v4i).to_vec4i(), Ok(v4i));
}

#[test]
fn extractor_rejects_other_tags() {
    let i = Variant::new_integer(1);
    assert_eq!(
        i.to_bool(),
        Err(TypeMismatch { expected: VariantType::Bool, actual: VariantType::Integer })
    );
    assert_eq!(
        i.to_float(),
        Err(TypeMismatch { expected: VariantType::Float, actual: VariantType::Integer })
    );
    let b = Variant::new_bool(true);
    assert_eq!(
        b.to_integer(),
        Err(TypeMismatch { expected: VariantType::Integer, actual: VariantType::Bool })
    );
    let nil = Variant::new_nil();
    assert_eq!(
        nil.to_vec2(),
        Err(TypeMismatch { expected: VariantType::Vector2, actual: VariantType::Nil })
    );
    assert_eq!(
        nil.to_vec2i(),
        Err(TypeMismatch { expected: VariantType::Vector2i, actual: VariantType::Nil })
    );
    assert_eq!(
        nil.to_vec3(),
        Err(TypeMismatch { expected: VariantType::Vector3, actual: VariantType::Nil })
    );
    assert_eq!(
        nil.to_vec3i(),
        Err(TypeMismatch { expected: VariantType::Vector3i, actual: VariantType::Nil })
    );
    assert_eq!(
        nil.to_rect2(),
        Err(TypeMismatch { expected: VariantType::Rect2, actual: VariantType::Nil })
    );
    assert_eq!(
        nil.to_rect2i(),
        Err(TypeMismatch { expected: VariantType::Rect2i, actual: VariantType::Nil })
    );
    assert_eq!(
        nil.to_vec4(),
        Err(TypeMismatch { expected: VariantType::Vector4, actual: VariantType::Nil })
    );
    assert_eq!(
        nil.to_vec4i(),
        Err(TypeMismatch { expected: VariantType::Vector4i, actual: VariantType::Nil })
    );
    let s = Variant::Str { lo: 1, hi: 2 };
    assert_eq!(
        s.to_integer(),
        Err(TypeMismatch { expected: VariantType::Integer, actual: VariantType::Str })
    );
}

#[test]
fn no_coercion_between_integer_and_float() {
    let f = Variant::new_float(2.0f64.to_bits());
    assert!(f.to_integer().is_err());
    let i = Variant::new_integer(2);
    assert!(i.to_float().is_err());
}

#[test]
fn tags_are_reported() {
    assert_eq!(Variant::new_nil().tag(), VariantType::Nil);
    assert_eq!(Variant::new_bool(false).tag(), VariantType::Bool);
    assert_eq!(Variant::new_integer(5).tag(), VariantType::Integer);
    assert_eq!(Variant::new_float(0).tag(), VariantType::Float);
    assert_eq!((Variant::Str { lo: 0, hi: 0 }).tag(), VariantType::Str);
}
