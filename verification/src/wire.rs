//! The fixed binary image a `Variant` assumes at the trap boundary.
//!
//! Guest and host agree on one layout per ABI generation; this build
//! targets the generation with 64-bit integer and float payloads and the
//! geometric aggregate tags. Its image is [`VARIANT_SIZE`] bytes: the tag's
//! number as a little-endian 32-bit word at offset 0, four padding bytes,
//! and a 16-byte payload region at offset [`PAYLOAD_OFFSET`]. Any size or
//! offset disagreement with the host silently corrupts every crossing
//! value, so the layout is pinned here once, as executable codecs with the
//! image as their specification.

use vstd::bytes::lemma_auto_spec_u32_to_from_le_bytes;
use vstd::bytes::lemma_auto_spec_u64_to_from_le_bytes;
use vstd::bytes::spec_u32_from_le_bytes;
use vstd::bytes::spec_u32_to_le_bytes;
use vstd::bytes::spec_u64_from_le_bytes;
use vstd::bytes::spec_u64_to_le_bytes;
use vstd::bytes::u32_from_le_bytes;
use vstd::bytes::u32_to_le_bytes;
use vstd::bytes::u64_from_le_bytes;
use vstd::bytes::u64_to_le_bytes;
use vstd::prelude::*;
use vstd::slice::slice_subrange;

use crate::variant::Rect2;
use crate::variant::Rect2i;
use crate::variant::Variant;
use crate::variant::VariantType;
use crate::variant::Vector2;
use crate::variant::Vector2i;
use crate::variant::Vector3;
use crate::variant::Vector3i;
use crate::variant::Vector4;
use crate::variant::Vector4i;
use crate::variant::tag_code;
use crate::variant::tag_from_code;
use crate::variant::tag_of_value;
use crate::variant::tag_value;

verus! {

/// Total size of a variant's boundary image, in bytes.
pub const VARIANT_SIZE: usize = 24;

/// Offset of the payload region inside the image.
pub const PAYLOAD_OFFSET: usize = 8;

/// Size of the payload region: the largest payload is a rectangle, two
/// 2-component single-precision vectors.
pub const PAYLOAD_SIZE: usize = 16;

/// `n` zero bytes.
pub open spec fn zeros(n: nat) -> Seq<u8> {
    Seq::new(n, |i: int| 0u8)
}

/// Every byte of `s` is zero.
pub open spec fn all_zero(s: Seq<u8>) -> bool {
    forall|i: int| 0 <= i < s.len() ==> s[i] == 0u8
}

/// The unsigned word holding the two's-complement bit pattern of `i`.
pub open spec fn i64_bits(i: i64) -> u64 {
    if i >= 0 {
        i as u64
    } else {
        (i + 0x1_0000_0000_0000_0000) as u64
    }
}

/// The signed value whose two's-complement bit pattern is `b`: the inverse
/// of [`i64_bits`].
pub open spec fn bits_as_i64(b: u64) -> i64 {
    if b < 0x8000_0000_0000_0000 {
        b as i64
    } else {
        (b - 0x1_0000_0000_0000_0000) as i64
    }
}

/// The unsigned word holding the two's-complement bit pattern of `i`.
pub open spec fn i32_bits(i: i32) -> u32 {
    if i >= 0 {
        i as u32
    } else {
        (i + 0x1_0000_0000) as u32
    }
}

/// The signed value whose two's-complement bit pattern is `b`: the inverse
/// of [`i32_bits`].
pub open spec fn bits_as_i32(b: u32) -> i32 {
    if b < 0x8000_0000 {
        b as i32
    } else {
        (b - 0x1_0000_0000) as i32
    }
}

/// The two 64-bit directions invert each other.
pub proof fn lemma_i64_bits_inverse(i: i64, b: u64)
    ensures
        bits_as_i64(i64_bits(i)) == i,
        i64_bits(bits_as_i64(b)) == b,
{
}

/// The two 32-bit directions invert each other.
pub proof fn lemma_i32_bits_inverse(i: i32, b: u32)
    ensures
        bits_as_i32(i32_bits(i)) == i,
        i32_bits(bits_as_i32(b)) == b,
{
}

/// Executable mirror of [`i64_bits`].
pub fn i64_to_bits(i: i64) -> (r: u64)
    ensures
        r == i64_bits(i),
{
    if i >= 0 {
        i as u64
    } else {
        let m: u64 = ((-(i + 1)) as u64) + 1;
        (u64::MAX - m) + 1
    }
}

/// Executable mirror of [`bits_as_i64`].
pub fn bits_to_i64(b: u64) -> (r: i64)
    ensures
        r == bits_as_i64(b),
{
    if b < 0x8000_0000_0000_0000 {
        b as i64
    } else {
        let d: u64 = u64::MAX - b;
        -(d as i64) - 1
    }
}

/// Executable mirror of [`i32_bits`].
pub fn i32_to_bits(i: i32) -> (r: u32)
    ensures
        r == i32_bits(i),
{
    if i >= 0 {
        i as u32
    } else {
        let m: u32 = ((-(i + 1)) as u32) + 1;
        (u32::MAX - m) + 1
    }
}

/// Executable mirror of [`bits_as_i32`].
pub fn bits_to_i32(b: u32) -> (r: i32)
    ensures
        r == bits_as_i32(b),
{
    if b < 0x8000_0000 {
        b as i32
    } else {
        let d: u32 = u32::MAX - b;
        -(d as i32) - 1
    }
}

/// The 16 payload bytes of a variant's image: the payload under the type's
/// natural little-endian bit representation, zero-padded to the region's
/// size.
pub open spec fn payload_bytes(v: Variant) -> Seq<u8> {
    match v {
        Variant::Nil => zeros(16),
        Variant::Bool(b) => seq![if b { 1u8 } else { 0u8 }] + zeros(15),
        Variant::Integer(i) => spec_u64_to_le_bytes(i64_bits(i)) + zeros(8),
        Variant::Float(f) => spec_u64_to_le_bytes(f) + zeros(8),
        Variant::Str { lo, hi } => spec_u64_to_le_bytes(lo) + spec_u64_to_le_bytes(hi),
        Variant::Vector2(u) => spec_u32_to_le_bytes(u.x) + spec_u32_to_le_bytes(u.y) + zeros(8),
        Variant::Vector2i(u) => spec_u32_to_le_bytes(i32_bits(u.x)) + spec_u32_to_le_bytes(
            i32_bits(u.y),
        ) + zeros(8),
        Variant::Vector3(u) => spec_u32_to_le_bytes(u.x) + spec_u32_to_le_bytes(u.y)
            + spec_u32_to_le_bytes(u.z) + zeros(4),
        Variant::Vector3i(u) => spec_u32_to_le_bytes(i32_bits(u.x)) + spec_u32_to_le_bytes(
            i32_bits(u.y),
        ) + spec_u32_to_le_bytes(i32_bits(u.z)) + zeros(4),
        Variant::Rect2(r) => spec_u32_to_le_bytes(r.position.x) + spec_u32_to_le_bytes(
            r.position.y,
        ) + spec_u32_to_le_bytes(r.size.x) + spec_u32_to_le_bytes(r.size.y),
        Variant::Rect2i(r) => spec_u32_to_le_bytes(i32_bits(r.position.x)) + spec_u32_to_le_bytes(
            i32_bits(r.position.y),
        ) + spec_u32_to_le_bytes(i32_bits(r.size.x)) + spec_u32_to_le_bytes(i32_bits(r.size.y)),
        Variant::Vector4(u) => spec_u32_to_le_bytes(u.x) + spec_u32_to_le_bytes(u.y)
            + spec_u32_to_le_bytes(u.z) + spec_u32_to_le_bytes(u.w),
        Variant::Vector4i(u) => spec_u32_to_le_bytes(i32_bits(u.x)) + spec_u32_to_le_bytes(
            i32_bits(u.y),
        ) + spec_u32_to_le_bytes(i32_bits(u.z)) + spec_u32_to_le_bytes(i32_bits(u.w)),
    }
}

/// The full boundary image of a variant: tag word, padding, payload.
pub open spec fn variant_image(v: Variant) -> Seq<u8> {
    spec_u32_to_le_bytes(tag_value(v.tag_spec())) + zeros(4) + payload_bytes(v)
}

/// The layout contract of the active ABI generation: every image is
/// exactly [`VARIANT_SIZE`] bytes, the tag word sits at offset 0, and the
/// payload region of [`PAYLOAD_SIZE`] bytes sits at [`PAYLOAD_OFFSET`] —
/// for every variant, not merely for some.
pub proof fn lemma_image_layout(v: Variant)
    ensures
        variant_image(v).len() == VARIANT_SIZE,
        payload_bytes(v).len() == PAYLOAD_SIZE,
        variant_image(v).subrange(0, 4) == spec_u32_to_le_bytes(tag_value(v.tag_spec())),
        all_zero(variant_image(v).subrange(4, PAYLOAD_OFFSET as int)),
        variant_image(v).subrange(PAYLOAD_OFFSET as int, VARIANT_SIZE as int) == payload_bytes(v),
{
    lemma_auto_spec_u32_to_from_le_bytes();
    lemma_auto_spec_u64_to_from_le_bytes();
    assert(payload_bytes(v).len() == PAYLOAD_SIZE);
    assert(variant_image(v).subrange(0, 4) =~= spec_u32_to_le_bytes(tag_value(v.tag_spec())));
    assert(variant_image(v).subrange(PAYLOAD_OFFSET as int, VARIANT_SIZE as int) =~= payload_bytes(
        v,
    ));
}

/// Appends `n` zero bytes.
pub fn push_zeros(out: &mut Vec<u8>, n: usize)
    ensures
        final(out)@ == old(out)@ + zeros(n as nat),
{
    let mut k: usize = 0;
    while k < n
        invariant
            k <= n,
            out@ == old(out)@ + zeros(k as nat),
        decreases n - k,
    {
        out.push(0);
        proof {
            assert(old(out)@ + zeros(k as nat) + seq![0u8] =~= old(out)@ + zeros((k + 1) as nat));
        }
        k = k + 1;
    }
    proof {
        assert(out@ =~= old(out)@ + zeros(n as nat));
    }
}

/// Appends the little-endian bytes of `x`.
pub fn push_u32_le(out: &mut Vec<u8>, x: u32)
    ensures
        final(out)@ == old(out)@ + spec_u32_to_le_bytes(x),
{
    let mut p = u32_to_le_bytes(x);
    out.append(&mut p);
}

/// Appends the little-endian bytes of `x`.
pub fn push_u64_le(out: &mut Vec<u8>, x: u64)
    ensures
        final(out)@ == old(out)@ + spec_u64_to_le_bytes(x),
{
    let mut p = u64_to_le_bytes(x);
    out.append(&mut p);
}

/// The payload region of `v`'s image, as the bytes the host will read.
pub fn payload_to_bytes(v: &Variant) -> (r: Vec<u8>)
    ensures
        r@ == payload_bytes(*v),
{
    let mut out: Vec<u8> = Vec::new();
    match v {
        Variant::Nil => {
            push_zeros(&mut out, 16);
        },
        Variant::Bool(b) => {
            out.push(if *b {
                1u8
            } else {
                0u8
            });
            push_zeros(&mut out, 15);
        },
        Variant::Integer(i) => {
            push_u64_le(&mut out, i64_to_bits(*i));
            push_zeros(&mut out, 8);
        },
        Variant::Float(f) => {
            push_u64_le(&mut out, *f);
            push_zeros(&mut out, 8);
        },
        Variant::Str { lo, hi } => {
            push_u64_le(&mut out, *lo);
            push_u64_le(&mut out, *hi);
        },
        Variant::Vector2(u) => {
            push_u32_le(&mut out, u.x);
            push_u32_le(&mut out, u.y);
            push_zeros(&mut out, 8);
        },
        Variant::Vector2i(u) => {
            push_u32_le(&mut out, i32_to_bits(u.x));
            push_u32_le(&mut out, i32_to_bits(u.y));
            push_zeros(&mut out, 8);
        },
        Variant::Vector3(u) => {
            push_u32_le(&mut out, u.x);
            push_u32_le(&mut out, u.y);
            push_u32_le(&mut out, u.z);
            push_zeros(&mut out, 4);
        },
        Variant::Vector3i(u) => {
            push_u32_le(&mut out, i32_to_bits(u.x));
            push_u32_le(&mut out, i32_to_bits(u.y));
            push_u32_le(&mut out, i32_to_bits(u.z));
            push_zeros(&mut out, 4);
        },
        Variant::Rect2(r) => {
            push_u32_le(&mut out, r.position.x);
            push_u32_le(&mut out, r.position.y);
            push_u32_le(&mut out, r.size.x);
            push_u32_le(&mut out, r.size.y);
        },
        Variant::Rect2i(r) => {
            push_u32_le(&mut out, i32_to_bits(r.position.x));
            push_u32_le(&mut out, i32_to_bits(r.position.y));
            push_u32_le(&mut out, i32_to_bits(r.size.x));
            push_u32_le(&mut out, i32_to_bits(r.size.y));
        },
        Variant::Vector4(u) => {
            push_u32_le(&mut out, u.x);
            push_u32_le(&mut out, u.y);
            push_u32_le(&mut out, u.z);
            push_u32_le(&mut out, u.w);
        },
        Variant::Vector4i(u) => {
            push_u32_le(&mut out, i32_to_bits(u.x));
            push_u32_le(&mut out, i32_to_bits(u.y));
            push_u32_le(&mut out, i32_to_bits(u.z));
            push_u32_le(&mut out, i32_to_bits(u.w));
        },
    }
    proof {
        assert(out@ =~= payload_bytes(*v));
    }
    out
}

/// The variant, if any, whose payload region reads back under `t`: the
/// payload under the tag's natural bit representation, with every unused
/// byte zero and a boolean byte of exactly 0 or 1.
pub open spec fn parse_payload(t: VariantType, p: Seq<u8>) -> Option<Variant>
    recommends
        p.len() == PAYLOAD_SIZE,
{
    match t {
        VariantType::Nil => if all_zero(p) {
            Some(Variant::Nil)
        } else {
            None
        },
        VariantType::Bool => if p[0] == 0u8 && all_zero(p.subrange(1, 16)) {
            Some(Variant::Bool(false))
        } else if p[0] == 1u8 && all_zero(p.subrange(1, 16)) {
            Some(Variant::Bool(true))
        } else {
            None
        },
        VariantType::Integer => if all_zero(p.subrange(8, 16)) {
            Some(Variant::Integer(bits_as_i64(spec_u64_from_le_bytes(p.subrange(0, 8)))))
        } else {
            None
        },
        VariantType::Float => if all_zero(p.subrange(8, 16)) {
            Some(Variant::Float(spec_u64_from_le_bytes(p.subrange(0, 8))))
        } else {
            None
        },
        VariantType::Str => Some(
            Variant::Str {
                lo: spec_u64_from_le_bytes(p.subrange(0, 8)),
                hi: spec_u64_from_le_bytes(p.subrange(8, 16)),
            },
        ),
        VariantType::Vector2 => if all_zero(p.subrange(8, 16)) {
            Some(
                Variant::Vector2(
                    Vector2 {
                        x: spec_u32_from_le_bytes(p.subrange(0, 4)),
                        y: spec_u32_from_le_bytes(p.subrange(4, 8)),
                    },
                ),
            )
        } else {
            None
        },
        VariantType::Vector2i => if all_zero(p.subrange(8, 16)) {
            Some(
                Variant::Vector2i(
                    Vector2i {
                        x: bits_as_i32(spec_u32_from_le_bytes(p.subrange(0, 4))),
                        y: bits_as_i32(spec_u32_from_le_bytes(p.subrange(4, 8))),
                    },
                ),
            )
        } else {
            None
        },
        VariantType::Vector3 => if all_zero(p.subrange(12, 16)) {
            Some(
                Variant::Vector3(
                    Vector3 {
                        x: spec_u32_from_le_bytes(p.subrange(0, 4)),
                        y: spec_u32_from_le_bytes(p.subrange(4, 8)),
                        z: spec_u32_from_le_bytes(p.subrange(8, 12)),
                    },
                ),
            )
        } else {
            None
        },
        VariantType::Vector3i => if all_zero(p.subrange(12, 16)) {
            Some(
                Variant::Vector3i(
                    Vector3i {
                        x: bits_as_i32(spec_u32_from_le_bytes(p.subrange(0, 4))),
                        y: bits_as_i32(spec_u32_from_le_bytes(p.subrange(4, 8))),
                        z: bits_as_i32(spec_u32_from_le_bytes(p.subrange(8, 12))),
                    },
                ),
            )
        } else {
            None
        },
        VariantType::Rect2 => Some(
            Variant::Rect2(
                Rect2 {
                    position: Vector2 {
                        x: spec_u32_from_le_bytes(p.subrange(0, 4)),
                        y: spec_u32_from_le_bytes(p.subrange(4, 8)),
                    },
                    size: Vector2 {
                        x: spec_u32_from_le_bytes(p.subrange(8, 12)),
                        y: spec_u32_from_le_bytes(p.subrange(12, 16)),
                    },
                },
            ),
        ),
        VariantType::Rect2i => Some(
            Variant::Rect2i(
                Rect2i {
                    position: Vector2i {
                        x: bits_as_i32(spec_u32_from_le_bytes(p.subrange(0, 4))),
                        y: bits_as_i32(spec_u32_from_le_bytes(p.subrange(4, 8))),
                    },
                    size: Vector2i {
                        x: bits_as_i32(spec_u32_from_le_bytes(p.subrange(8, 12))),
                        y: bits_as_i32(spec_u32_from_le_bytes(p.subrange(12, 16))),
                    },
                },
            ),
        ),
        VariantType::Vector4 => Some(
            Variant::Vector4(
                Vector4 {
                    x: spec_u32_from_le_bytes(p.subrange(0, 4)),
                    y: spec_u32_from_le_bytes(p.subrange(4, 8)),
                    z: spec_u32_from_le_bytes(p.subrange(8, 12)),
                    w: spec_u32_from_le_bytes(p.subrange(12, 16)),
                },
            ),
        ),
        VariantType::Vector4i => Some(
            Variant::Vector4i(
                Vector4i {
                    x: bits_as_i32(spec_u32_from_le_bytes(p.subrange(0, 4))),
                    y: bits_as_i32(spec_u32_from_le_bytes(p.subrange(4, 8))),
                    z: bits_as_i32(spec_u32_from_le_bytes(p.subrange(8, 12))),
                    w: bits_as_i32(spec_u32_from_le_bytes(p.subrange(12, 16))),
                },
            ),
        ),
    }
}

/// The variant, if any, that a 24-byte image denotes: a known tag word,
/// zero padding, and a payload region that [`parse_payload`] accepts.
pub open spec fn parse_image(b: Seq<u8>) -> Option<Variant> {
    if b.len() != VARIANT_SIZE {
        None
    } else if !all_zero(b.subrange(4, 8)) {
        None
    } else {
        match tag_of_value(spec_u32_from_le_bytes(b.subrange(0, 4))) {
            Some(t) => parse_payload(t, b.subrange(8, 24)),
            None => None,
        }
    }
}

/// Codec round trip: reading back the image of any variant gives the
/// variant, so the host sees exactly the value the guest meant.
pub proof fn lemma_image_roundtrip(v: Variant)
    ensures
        parse_image(variant_image(v)) == Some(v),
{
    lemma_auto_spec_u32_to_from_le_bytes();
    lemma_auto_spec_u64_to_from_le_bytes();
    crate::variant::lemma_tag_value_inverse(v.tag_spec());
    let b = variant_image(v);
    let p = b.subrange(8, 24);
    assert(b.subrange(0, 4) =~= spec_u32_to_le_bytes(tag_value(v.tag_spec())));
    assert(all_zero(b.subrange(4, 8)));
    assert(p =~= payload_bytes(v));
    match v {
        Variant::Nil => {
            assert(all_zero(p));
        },
        Variant::Bool(x) => {
            assert(all_zero(p.subrange(1, 16)));
        },
        Variant::Integer(i) => {
            assert(p.subrange(0, 8) =~= spec_u64_to_le_bytes(i64_bits(i)));
            assert(all_zero(p.subrange(8, 16)));
            lemma_i64_bits_inverse(i, 0);
        },
        Variant::Float(f) => {
            assert(p.subrange(0, 8) =~= spec_u64_to_le_bytes(f));
            assert(all_zero(p.subrange(8, 16)));
        },
        Variant::Str { lo, hi } => {
            assert(p.subrange(0, 8) =~= spec_u64_to_le_bytes(lo));
            assert(p.subrange(8, 16) =~= spec_u64_to_le_bytes(hi));
        },
        Variant::Vector2(u) => {
            assert(p.subrange(0, 4) =~= spec_u32_to_le_bytes(u.x));
            assert(p.subrange(4, 8) =~= spec_u32_to_le_bytes(u.y));
            assert(all_zero(p.subrange(8, 16)));
        },
        Variant::Vector2i(u) => {
            assert(p.subrange(0, 4) =~= spec_u32_to_le_bytes(i32_bits(u.x)));
            assert(p.subrange(4, 8) =~= spec_u32_to_le_bytes(i32_bits(u.y)));
            assert(all_zero(p.subrange(8, 16)));
            lemma_i32_bits_inverse(u.x, 0);
            lemma_i32_bits_inverse(u.y, 0);
        },
        Variant::Vector3(u) => {
            assert(p.subrange(0, 4) =~= spec_u32_to_le_bytes(u.x));
            assert(p.subrange(4, 8) =~= spec_u32_to_le_bytes(u.y));
            assert(p.subrange(8, 12) =~= spec_u32_to_le_bytes(u.z));
            assert(all_zero(p.subrange(12, 16)));
        },
        Variant::Vector3i(u) => {
            assert(p.subrange(0, 4) =~= spec_u32_to_le_bytes(i32_bits(u.x)));
            assert(p.subrange(4, 8) =~= spec_u32_to_le_bytes(i32_bits(u.y)));
            assert(p.subrange(8, 12) =~= spec_u32_to_le_bytes(i32_bits(u.z)));
            assert(all_zero(p.subrange(12, 16)));
            lemma_i32_bits_inverse(u.x, 0);
            lemma_i32_bits_inverse(u.y, 0);
            lemma_i32_bits_inverse(u.z, 0);
        },
        Variant::Rect2(r) => {
            assert(p.subrange(0, 4) =~= spec_u32_to_le_bytes(r.position.x));
            assert(p.subrange(4, 8) =~= spec_u32_to_le_bytes(r.position.y));
            assert(p.subrange(8, 12) =~= spec_u32_to_le_bytes(r.size.x));
            assert(p.subrange(12, 16) =~= spec_u32_to_le_bytes(r.size.y));
        },
        Variant::Rect2i(r) => {
            assert(p.subrange(0, 4) =~= spec_u32_to_le_bytes(i32_bits(r.position.x)));
            assert(p.subrange(4, 8) =~= spec_u32_to_le_bytes(i32_bits(r.position.y)));
            assert(p.subrange(8, 12) =~= spec_u32_to_le_bytes(i32_bits(r.size.x)));
            assert(p.subrange(12, 16) =~= spec_u32_to_le_bytes(i32_bits(r.size.y)));
            lemma_i32_bits_inverse(r.position.x, 0);
            lemma_i32_bits_inverse(r.position.y, 0);
            lemma_i32_bits_inverse(r.size.x, 0);
            lemma_i32_bits_inverse(r.size.y, 0);
        },
        Variant::Vector4(u) => {
            assert(p.subrange(0, 4) =~= spec_u32_to_le_bytes(u.x));
            assert(p.subrange(4, 8) =~= spec_u32_to_le_bytes(u.y));
            assert(p.subrange(8, 12) =~= spec_u32_to_le_bytes(u.z));
            assert(p.subrange(12, 16) =~= spec_u32_to_le_bytes(u.w));
        },
        Variant::Vector4i(u) => {
            assert(p.subrange(0, 4) =~= spec_u32_to_le_bytes(i32_bits(u.x)));
            assert(p.subrange(4, 8) =~= spec_u32_to_le_bytes(i32_bits(u.y)));
            assert(p.subrange(8, 12) =~= spec_u32_to_le_bytes(i32_bits(u.z)));
            assert(p.subrange(12, 16) =~= spec_u32_to_le_bytes(i32_bits(u.w)));
            lemma_i32_bits_inverse(u.x, 0);
            lemma_i32_bits_inverse(u.y, 0);
            lemma_i32_bits_inverse(u.z, 0);
            lemma_i32_bits_inverse(u.w, 0);
        },
    }
}

/// Codec canonicity: the parser accepts nothing but the canonical image of
/// some variant, so together with [`lemma_image_roundtrip`] the two forms
/// are in exact one-to-one correspondence.
pub proof fn lemma_image_canonical(b: Seq<u8>, v: Variant)
    requires
        parse_image(b) == Some(v),
    ensures
        variant_image(v) == b,
{
    lemma_auto_spec_u32_to_from_le_bytes();
    lemma_auto_spec_u64_to_from_le_bytes();
    let tagw = spec_u32_from_le_bytes(b.subrange(0, 4));
    crate::variant::lemma_tag_of_value_recognizes(tagw);
    let p = b.subrange(8, 24);
    match tag_of_value(tagw) {
        None => {
            assert(false);
        },
        Some(t) => {
            assert(parse_payload(t, p) == Some(v));
            match t {
                VariantType::Nil => {
                    assert(payload_bytes(v) =~= p);
                },
                VariantType::Bool => {
                    let f: u8 = if v == Variant::Bool(true) {
                        1u8
                    } else {
                        0u8
                    };
                    assert(p[0] == f);
                    assert forall|i: int| 0 <= i < 16 implies p[i] == payload_bytes(v)[i] by {
                        if i >= 1 {
                            assert(p.subrange(1, 16)[i - 1] == p[i]);
                        }
                    }
                    assert(payload_bytes(v) =~= p);
                },
                VariantType::Integer => {
                    lemma_i64_bits_inverse(0, spec_u64_from_le_bytes(p.subrange(0, 8)));
                    assert(p.subrange(8, 16) =~= zeros(8));
                    assert(p =~= p.subrange(0, 8) + p.subrange(8, 16));
                    assert(payload_bytes(v) == p.subrange(0, 8) + p.subrange(8, 16));
                },
                VariantType::Float => {
                    assert(p.subrange(8, 16) =~= zeros(8));
                    assert(p =~= p.subrange(0, 8) + p.subrange(8, 16));
                    assert(payload_bytes(v) == p.subrange(0, 8) + p.subrange(8, 16));
                },
                VariantType::Str => {
                    assert(p =~= p.subrange(0, 8) + p.subrange(8, 16));
                    assert(payload_bytes(v) == p.subrange(0, 8) + p.subrange(8, 16));
                },
                VariantType::Vector2 => {
                    assert(p.subrange(8, 16) =~= zeros(8));
                    assert(p =~= p.subrange(0, 4) + p.subrange(4, 8) + p.subrange(8, 16));
                    assert(payload_bytes(v) == p.subrange(0, 4) + p.subrange(4, 8) + p.subrange(
                        8,
                        16,
                    ));
                },
                VariantType::Vector2i => {
                    lemma_i32_bits_inverse(0, spec_u32_from_le_bytes(p.subrange(0, 4)));
                    lemma_i32_bits_inverse(0, spec_u32_from_le_bytes(p.subrange(4, 8)));
                    assert(p.subrange(8, 16) =~= zeros(8));
                    assert(p =~= p.subrange(0, 4) + p.subrange(4, 8) + p.subrange(8, 16));
                    assert(payload_bytes(v) == p.subrange(0, 4) + p.subrange(4, 8) + p.subrange(
                        8,
                        16,
                    ));
                },
                VariantType::Vector3 => {
                    assert(p.subrange(12, 16) =~= zeros(4));
                    assert(p =~= p.subrange(0, 4) + p.subrange(4, 8) + p.subrange(8, 12)
                        + p.subrange(12, 16));
                    assert(payload_bytes(v) == p.subrange(0, 4) + p.subrange(4, 8) + p.subrange(
                        8,
                        12,
                    ) + p.subrange(12, 16));
                },
                VariantType::Vector3i => {
                    lemma_i32_bits_inverse(0, spec_u32_from_le_bytes(p.subrange(0, 4)));
                    lemma_i32_bits_inverse(0, spec_u32_from_le_bytes(p.subrange(4, 8)));
                    lemma_i32_bits_inverse(0, spec_u32_from_le_bytes(p.subrange(8, 12)));
                    assert(p.subrange(12, 16) =~= zeros(4));
                    assert(p =~= p.subrange(0, 4) + p.subrange(4, 8) + p.subrange(8, 12)
                        + p.subrange(12, 16));
                    assert(payload_bytes(v) == p.subrange(0, 4) + p.subrange(4, 8) + p.subrange(
                        8,
                        12,
                    ) + p.subrange(12, 16));
                },
                VariantType::Rect2 => {
                    assert(p =~= p.subrange(0, 4) + p.subrange(4, 8) + p.subrange(8, 12)
                        + p.subrange(12, 16));
                    assert(payload_bytes(v) == p.subrange(0, 4) + p.subrange(4, 8) + p.subrange(
                        8,
                        12,
                    ) + p.subrange(12, 16));
                },
                VariantType::Rect2i => {
                    lemma_i32_bits_inverse(0, spec_u32_from_le_bytes(p.subrange(0, 4)));
                    lemma_i32_bits_inverse(0, spec_u32_from_le_bytes(p.subrange(4, 8)));
                    lemma_i32_bits_inverse(0, spec_u32_from_le_bytes(p.subrange(8, 12)));
                    lemma_i32_bits_inverse(0, spec_u32_from_le_bytes(p.subrange(12, 16)));
                    assert(p =~= p.subrange(0, 4) + p.subrange(4, 8) + p.subrange(8, 12)
                        + p.subrange(12, 16));
                    assert(payload_bytes(v) == p.subrange(0, 4) + p.subrange(4, 8) + p.subrange(
                        8,
                        12,
                    ) + p.subrange(12, 16));
                },
                VariantType::Vector4 => {
                    assert(p =~= p.subrange(0, 4) + p.subrange(4, 8) + p.subrange(8, 12)
                        + p.subrange(12, 16));
                    assert(payload_bytes(v) == p.subrange(0, 4) + p.subrange(4, 8) + p.subrange(
                        8,
                        12,
                    ) + p.subrange(12, 16));
                },
                VariantType::Vector4i => {
                    lemma_i32_bits_inverse(0, spec_u32_from_le_bytes(p.subrange(0, 4)));
                    lemma_i32_bits_inverse(0, spec_u32_from_le_bytes(p.subrange(4, 8)));
                    lemma_i32_bits_inverse(0, spec_u32_from_le_bytes(p.subrange(8, 12)));
                    lemma_i32_bits_inverse(0, spec_u32_from_le_bytes(p.subrange(12, 16)));
                    assert(p =~= p.subrange(0, 4) + p.subrange(4, 8) + p.subrange(8, 12)
                        + p.subrange(12, 16));
                    assert(payload_bytes(v) == p.subrange(0, 4) + p.subrange(4, 8) + p.subrange(
                        8,
                        12,
                    ) + p.subrange(12, 16));
                },
            }
            assert(payload_bytes(v) == p);
            assert(v.tag_spec() == t);
            lemma_image_layout(v);
            assert(spec_u32_to_le_bytes(spec_u32_from_le_bytes(b.subrange(0, 4))) == b.subrange(
                0,
                4,
            ));
            assert forall|i: int| 0 <= i < 24 implies variant_image(v)[i] == b[i] by {
                if i < 4 {
                    assert(variant_image(v)[i] == spec_u32_to_le_bytes(tagw)[i]);
                    assert(b.subrange(0, 4)[i] == b[i]);
                } else if i < 8 {
                    assert(variant_image(v)[i] == 0u8);
                    assert(b.subrange(4, 8)[i - 4] == b[i]);
                } else {
                    assert(variant_image(v)[i] == payload_bytes(v)[i - 8]);
                    assert(p[i - 8] == b[i]);
                }
            }
            assert(variant_image(v) =~= b);
        },
    }
}

/// True when every byte of `bytes[from..to]` is zero.
fn range_is_zero(bytes: &[u8], from: usize, to: usize) -> (r: bool)
    requires
        from <= to <= bytes@.len(),
    ensures
        r == all_zero(bytes@.subrange(from as int, to as int)),
{
    let mut k: usize = from;
    while k < to
        invariant
            from <= k <= to <= bytes@.len(),
            forall|i: int| from <= i < k ==> bytes@[i] == 0u8,
        decreases to - k,
    {
        if *vstd::slice::slice_index_get(bytes, k) != 0 {
            proof {
                assert(bytes@.subrange(from as int, to as int)[k - from] != 0u8);
            }
            return false;
        }
        k = k + 1;
    }
    proof {
        assert forall|i: int|
            0 <= i < bytes@.subrange(from as int, to as int).len() implies bytes@.subrange(
            from as int,
            to as int,
        )[i] == 0u8 by {
            assert(bytes@[from + i] == 0u8);
        }
    }
    true
}

/// Little-endian word at `bytes[at..at + 4]`.
fn read_u32_le(bytes: &[u8], at: usize) -> (r: u32)
    requires
        at + 4 <= bytes@.len(),
    ensures
        r == spec_u32_from_le_bytes(bytes@.subrange(at as int, at + 4)),
{
    let _ = bytes.len();
    u32_from_le_bytes(slice_subrange(bytes, at, at + 4))
}

/// Little-endian word at `bytes[at..at + 8]`.
fn read_u64_le(bytes: &[u8], at: usize) -> (r: u64)
    requires
        at + 8 <= bytes@.len(),
    ensures
        r == spec_u64_from_le_bytes(bytes@.subrange(at as int, at + 8)),
{
    let _ = bytes.len();
    u64_from_le_bytes(slice_subrange(bytes, at, at + 8))
}

impl Variant {
    /// Reads a variant back from a boundary image, as after the host has
    /// written one into guest memory. Rejects anything that is not the
    /// canonical image of some variant: a wrong length, an unknown tag
    /// word, nonzero padding, or a malformed boolean byte.
    pub fn from_bytes(bytes: &[u8]) -> (r: Option<Variant>)
        ensures
            r == parse_image(bytes@),
    {
        if bytes.len() != VARIANT_SIZE {
            return None;
        }
        if !range_is_zero(bytes, 4, 8) {
            return None;
        }
        let tag_word = read_u32_le(bytes, 0);
        let t = match tag_from_code(tag_word) {
            Some(t) => t,
            None => {
                return None;
            },
        };
        proof {
            let p = bytes@.subrange(8, 24);
            assert(p.subrange(0, 8) =~= bytes@.subrange(8, 16));
            assert(p.subrange(8, 16) =~= bytes@.subrange(16, 24));
            assert(p.subrange(0, 4) =~= bytes@.subrange(8, 12));
            assert(p.subrange(4, 8) =~= bytes@.subrange(12, 16));
            assert(p.subrange(8, 12) =~= bytes@.subrange(16, 20));
            assert(p.subrange(12, 16) =~= bytes@.subrange(20, 24));
            assert(p.subrange(1, 16) =~= bytes@.subrange(9, 24));
            assert(p =~= bytes@.subrange(8, 24));
            assert(p[0] == bytes@[8]);
        }
        match t {
            VariantType::Nil => {
                if range_is_zero(bytes, 8, 24) {
                    Some(Variant::Nil)
                } else {
                    None
                }
            },
            VariantType::Bool => {
                let b0 = *vstd::slice::slice_index_get(bytes, 8);
                if b0 <= 1 && range_is_zero(bytes, 9, 24) {
                    Some(Variant::Bool(b0 == 1))
                } else {
                    None
                }
            },
            VariantType::Integer => {
                if range_is_zero(bytes, 16, 24) {
                    Some(Variant::Integer(bits_to_i64(read_u64_le(bytes, 8))))
                } else {
                    None
                }
            },
            VariantType::Float => {
                if range_is_zero(bytes, 16, 24) {
                    Some(Variant::Float(read_u64_le(bytes, 8)))
                } else {
                    None
                }
            },
            VariantType::Str => {
                Some(Variant::Str { lo: read_u64_le(bytes, 8), hi: read_u64_le(bytes, 16) })
            },
            VariantType::Vector2 => {
                if range_is_zero(bytes, 16, 24) {
                    Some(
                        Variant::Vector2(
                            Vector2 { x: read_u32_le(bytes, 8), y: read_u32_le(bytes, 12) },
                        ),
                    )
                } else {
                    None
                }
            },
            VariantType::Vector2i => {
                if range_is_zero(bytes, 16, 24) {
                    Some(
                        Variant::Vector2i(
                            Vector2i {
                                x: bits_to_i32(read_u32_le(bytes, 8)),
                                y: bits_to_i32(read_u32_le(bytes, 12)),
                            },
                        ),
                    )
                } else {
                    None
                }
            },
            VariantType::Vector3 => {
                if range_is_zero(bytes, 20, 24) {
                    Some(
                        Variant::Vector3(
                            Vector3 {
                                x: read_u32_le(bytes, 8),
                                y: read_u32_le(bytes, 12),
                                z: read_u32_le(bytes, 16),
                            },
                        ),
                    )
                } else {
                    None
                }
            },
            VariantType::Vector3i => {
                if range_is_zero(bytes, 20, 24) {
                    Some(
                        Variant::Vector3i(
                            Vector3i {
                                x: bits_to_i32(read_u32_le(bytes, 8)),
                                y: bits_to_i32(read_u32_le(bytes, 12)),
                                z: bits_to_i32(read_u32_le(bytes, 16)),
                            },
                        ),
                    )
                } else {
                    None
                }
            },
            VariantType::Rect2 => {
                Some(
                    Variant::Rect2(
                        Rect2 {
                            position: Vector2 {
                                x: read_u32_le(bytes, 8),
                                y: read_u32_le(bytes, 12),
                            },
                            size: Vector2 { x: read_u32_le(bytes, 16), y: read_u32_le(bytes, 20) },
                        },
                    ),
                )
            },
            VariantType::Rect2i => {
                Some(
                    Variant::Rect2i(
                        Rect2i {
                            position: Vector2i {
                                x: bits_to_i32(read_u32_le(bytes, 8)),
                                y: bits_to_i32(read_u32_le(bytes, 12)),
                            },
                            size: Vector2i {
                                x: bits_to_i32(read_u32_le(bytes, 16)),
                                y: bits_to_i32(read_u32_le(bytes, 20)),
                            },
                        },
                    ),
                )
            },
            VariantType::Vector4 => {
                Some(
                    Variant::Vector4(
                        Vector4 {
                            x: read_u32_le(bytes, 8),
                            y: read_u32_le(bytes, 12),
                            z: read_u32_le(bytes, 16),
                            w: read_u32_le(bytes, 20),
                        },
                    ),
                )
            },
            VariantType::Vector4i => {
                Some(
                    Variant::Vector4i(
                        Vector4i {
                            x: bits_to_i32(read_u32_le(bytes, 8)),
                            y: bits_to_i32(read_u32_le(bytes, 12)),
                            z: bits_to_i32(read_u32_le(bytes, 16)),
                            w: bits_to_i32(read_u32_le(bytes, 20)),
                        },
                    ),
                )
            },
        }
    }
}

impl Variant {
    /// The full boundary image: what the host reads when this variant is
    /// passed by reference across the trap.
    pub fn to_bytes(&self) -> (r: Vec<u8>)
        ensures
            r@ == variant_image(*self),
    {
        let mut out: Vec<u8> = Vec::new();
        push_u32_le(&mut out, tag_code(self.tag()));
        push_zeros(&mut out, 4);
        let mut p = payload_to_bytes(self);
        out.append(&mut p);
        proof {
            assert(out@ =~= variant_image(*self));
        }
        out
    }
}

} // verus!
