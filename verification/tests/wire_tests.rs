use guest_abi::variant::Rect2;
use guest_abi::variant::Rect2i;
use guest_abi::variant::Variant;
use guest_abi::variant::Vector2;
use guest_abi::variant::Vector2i;
use guest_abi::variant::Vector3;
use guest_abi::variant::Vector3i;
use guest_abi::variant::Vector4;
use guest_abi::variant::Vector4i;
use guest_abi::wire::VARIANT_SIZE;

fn all_kinds() -> Vec<Variant> {
    vec![
        Variant::Nil,
        Variant::Bool(true),
        Variant::Integer(-42),
        Variant::Float(3.14f64.to_bits()),
        Variant::Str { lo: 0x1122334455667788, hi: 0x99aabbccddeeff00 },
        Variant::Vector2(Vector2::new(1.0f32.to_bits(), 2.0f32.to_bits())),
        Variant::Vector2i(Vector2i::new(-1, 2)),
        Variant::Vector3(Vector3::new(1.0f32.to_bits(), 2.0f32.to_bits(), 3.0f32.to_bits())),
        Variant::Vector3i(Vector3i::new(1, -2, 3)),
        Variant::Rect2(Rect2::new(
            Vector2::new(0.5f32.to_bits(), 1.5f32.to_bits()),
            Vector2::new(2.5f32.to_bits(), 3.5f32.to_bits()),
        )),
        Variant::Rect2i(Rect2i::new(Vector2i::new(1, 2), Vector2i::new(3, 4))),
        Variant::Vector4(Vector4::new(1, 2, 3, 4)),
        Variant::Vector4i(Vector4i::new(i32::MIN, -1, 0, i32::MAX)),
    ]
}

#[test]
fn every_image_is_the_agreed_size() {
    for v in all_kinds() {
        let img = v.to_bytes();
        assert_eq!(img.len(), VARIANT_SIZE);
        assert_eq!(img.len(), 24);
        // padding between tag word and payload region is zero
        assert_eq!(&img[4..8], &[0, 0, 0, 0]);
    }
}

#[test]
fn integer_image_exact_bytes() {
    let img = Variant::new_integer(42).to_bytes();
    let mut expected = vec![2u8, 0, 0, 0, 0, 0, 0, 0, 42];
    expected.resize(24, 0);
    assert_eq!(img, expected);
}

#[test]
fn negative_integer_image_is_twos_complement() {
    let img = Variant::new_integer(-1).to_bytes();
    let mut expected = vec![2u8, 0, 0, 0, 0, 0, 0, 0];
    expected.extend_from_slice(&[0xff; 8]);
    expected.resize(24, 0);
    assert_eq!(img, expected);
}

#[test]
fn float_image_carries_ieee_bits() {
    let bits = 3.14f64.to_bits();
    assert_eq!(bits, 0x4009_1EB8_51EB_851F);
    let img = Variant::new_float(bits).to_bytes();
    assert_eq!(img[0], 3);
    assert_eq!(&img[8..16], &bits.to_le_bytes());
    assert_eq!(&img[16..24], &[0; 8]);
}

#[test]
fn bool_image_uses_one_byte_flag() {
    let img = Variant::new_bool(true).to_bytes();
    assert_eq!(img[0], 1);
    assert_eq!(img[8], 1);
    assert_eq!(&img[9..24], &[0; 15]);
    let img = Variant::new_bool(false).to_bytes();
    assert_eq!(img[8], 0);
}

#[test]
fn vector2i_image_packs_components() {
    let img = Variant::new_vec2i(Vector2i::new(-1, 7)).to_bytes();
    assert_eq!(img[0], 6);
    assert_eq!(&img[8..12], &[0xff, 0xff, 0xff, 0xff]);
    assert_eq!(&img[12..16], &[7, 0, 0, 0]);
    assert_eq!(&img[16..24], &[0; 8]);
}

#[test]
fn codec_round_trips_every_kind() {
    for v in all_kinds() {
        let img = v.to_bytes();
        assert_eq!(Variant::from_bytes(&img), Some(v));
    }
}

#[test]
fn parser_rejects_wrong_length() {
    assert_eq!(Variant::from_bytes(&[]), None);
    assert_eq!(Variant::from_bytes(&[0u8; 23]), None);
    assert_eq!(Variant::from_bytes(&[0u8; 25]), None);
}

#[test]
fn parser_rejects_unknown_tag() {
    let mut img = [0u8; 24];
    img[0] = 13;
    assert_eq!(Variant::from_bytes(&img), None);
}

#[test]
fn parser_rejects_nonzero_padding() {
    let mut img = Variant::new_integer(1).to_bytes();
    img[5] = 1;
    assert_eq!(Variant::from_bytes(&img), None);
}

#[test]
fn parser_rejects_malformed_bool_byte() {
    let mut img = Variant::new_bool(true).to_bytes();
    img[8] = 2;
    assert_eq!(Variant::from_bytes(&img), None);
}

#[test]
fn parser_rejects_nonzero_unused_payload() {
    let mut img = Variant::new_integer(1).to_bytes();
    img[23] = 9;
    assert_eq!(Variant::from_bytes(&img), None);
    let mut img = Variant::new_nil().to_bytes();
    img[8] = 1;
    assert_eq!(Variant::from_bytes(&img), None);
}

#[test]
fn parser_accepts_host_written_string_image() {
    let mut img = vec![4u8, 0, 0, 0, 0, 0, 0, 0];
    img.extend_from_slice(&0xdeadbeefu64.to_le_bytes());
    img.extend_from_slice(&0x1234u64.to_le_bytes());
    assert_eq!(
        Variant::from_bytes(&img),
        Some(Variant::Str { lo: 0xdeadbeef, hi: 0x1234 })
    );
}
