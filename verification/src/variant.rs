//! The tagged value carrier exchanged with the host.
//!
//! A `Variant` is a closed sum of the payload kinds the host understands.
//! At this surface each kind carries its payload as a natively typed field;
//! the fixed-layout binary form used at the trap boundary lives in the
//! `wire` module. Floating-point payloads are carried as their IEEE-754 bit
//! patterns (`u64` for doubles, `u32` for the single-precision vector
//! components): the bits are what crosses the boundary, and the guest never
//! computes on them here.

use vstd::prelude::*;

verus! {

/// Discriminant naming the active payload kind of a [`Variant`].
///
/// The host assigns each kind a fixed number ([`tag_value`]): declaration
/// order, starting at zero. The numbering is part of the binary contract
/// and must not be reordered.
#[derive(Clone, Copy, Debug, PartialEq, Eq, Structural)]
pub enum VariantType {
    Nil,
    Bool,
    Integer,
    Float,
    Str,
    Vector2,
    Vector2i,
    Vector3,
    Vector3i,
    Rect2,
    Rect2i,
    Vector4,
    Vector4i,
}

/// The numeric discriminant written into a variant's leading tag field,
/// as agreed with the host.
pub open spec fn tag_value(t: VariantType) -> u32 {
    match t {
        VariantType::Nil => 0,
        VariantType::Bool => 1,
        VariantType::Integer => 2,
        VariantType::Float => 3,
        VariantType::Str => 4,
        VariantType::Vector2 => 5,
        VariantType::Vector2i => 6,
        VariantType::Vector3 => 7,
        VariantType::Vector3i => 8,
        VariantType::Rect2 => 9,
        VariantType::Rect2i => 10,
        VariantType::Vector4 => 11,
        VariantType::Vector4i => 12,
    }
}

/// The tag, if any, whose numeric discriminant is `n`: the inverse of
/// [`tag_value`].
pub open spec fn tag_of_value(n: u32) -> Option<VariantType> {
    if n == 0 {
        Some(VariantType::Nil)
    } else if n == 1 {
        Some(VariantType::Bool)
    } else if n == 2 {
        Some(VariantType::Integer)
    } else if n == 3 {
        Some(VariantType::Float)
    } else if n == 4 {
        Some(VariantType::Str)
    } else if n == 5 {
        Some(VariantType::Vector2)
    } else if n == 6 {
        Some(VariantType::Vector2i)
    } else if n == 7 {
        Some(VariantType::Vector3)
    } else if n == 8 {
        Some(VariantType::Vector3i)
    } else if n == 9 {
        Some(VariantType::Rect2)
    } else if n == 10 {
        Some(VariantType::Rect2i)
    } else if n == 11 {
        Some(VariantType::Vector4)
    } else if n == 12 {
        Some(VariantType::Vector4i)
    } else {
        None
    }
}

/// The two directions of the tag numbering agree on every tag.
pub proof fn lemma_tag_value_inverse(t: VariantType)
    ensures
        tag_of_value(tag_value(t)) == Some(t),
{
}

/// A recognized tag word is the number of the tag it denotes.
pub proof fn lemma_tag_of_value_recognizes(n: u32)
    ensures
        tag_of_value(n) matches Some(t) ==> tag_value(t) == n,
{
}

/// Executable mirror of [`tag_value`].
pub fn tag_code(t: VariantType) -> (r: u32)
    ensures
        r == tag_value(t),
{
    match t {
        VariantType::Nil => 0,
        VariantType::Bool => 1,
        VariantType::Integer => 2,
        VariantType::Float => 3,
        VariantType::Str => 4,
        VariantType::Vector2 => 5,
        VariantType::Vector2i => 6,
        VariantType::Vector3 => 7,
        VariantType::Vector3i => 8,
        VariantType::Rect2 => 9,
        VariantType::Rect2i => 10,
        VariantType::Vector4 => 11,
        VariantType::Vector4i => 12,
    }
}

/// Executable mirror of [`tag_of_value`].
pub fn tag_from_code(n: u32) -> (r: Option<VariantType>)
    ensures
        r == tag_of_value(n),
{
    if n == 0 {
        Some(VariantType::Nil)
    } else if n == 1 {
        Some(VariantType::Bool)
    } else if n == 2 {
        Some(VariantType::Integer)
    } else if n == 3 {
        Some(VariantType::Float)
    } else if n == 4 {
        Some(VariantType::Str)
    } else if n == 5 {
        Some(VariantType::Vector2)
    } else if n == 6 {
        Some(VariantType::Vector2i)
    } else if n == 7 {
        Some(VariantType::Vector3)
    } else if n == 8 {
        Some(VariantType::Vector3i)
    } else if n == 9 {
        Some(VariantType::Rect2)
    } else if n == 10 {
        Some(VariantType::Rect2i)
    } else if n == 11 {
        Some(VariantType::Vector4)
    } else if n == 12 {
        Some(VariantType::Vector4i)
    } else {
        None
    }
}

/// 2-component single-precision vector; each component is the IEEE-754 bit
/// pattern of the host's `float`.
#[derive(Clone, Copy, Debug, PartialEq, Eq, Structural)]
pub struct Vector2 {
    pub x: u32,
    pub y: u32,
}

/// 2-component 32-bit integer vector.
#[derive(Clone, Copy, Debug, PartialEq, Eq, Structural)]
pub struct Vector2i {
    pub x: i32,
    pub y: i32,
}

/// 3-component single-precision vector, components as IEEE-754 bits.
#[derive(Clone, Copy, Debug, PartialEq, Eq, Structural)]
pub struct Vector3 {
    pub x: u32,
    pub y: u32,
    pub z: u32,
}

/// 3-component 32-bit integer vector.
#[derive(Clone, Copy, Debug, PartialEq, Eq, Structural)]
pub struct Vector3i {
    pub x: i32,
    pub y: i32,
    pub z: i32,
}

/// Axis-aligned rectangle over single-precision coordinates: a corner and
/// an extent.
#[derive(Clone, Copy, Debug, PartialEq, Eq, Structural)]
pub struct Rect2 {
    pub position: Vector2,
    pub size: Vector2,
}

/// Axis-aligned rectangle over 32-bit integer coordinates.
#[derive(Clone, Copy, Debug, PartialEq, Eq, Structural)]
pub struct Rect2i {
    pub position: Vector2i,
    pub size: Vector2i,
}

/// 4-component single-precision vector, components as IEEE-754 bits.
#[derive(Clone, Copy, Debug, PartialEq, Eq, Structural)]
pub struct Vector4 {
    pub x: u32,
    pub y: u32,
    pub z: u32,
    pub w: u32,
}

/// 4-component 32-bit integer vector.
#[derive(Clone, Copy, Debug, PartialEq, Eq, Structural)]
pub struct Vector4i {
    pub x: i32,
    pub y: i32,
    pub z: i32,
    pub w: i32,
}

impl Vector2 {
    pub fn new(x: u32, y: u32) -> (r: Vector2)
        ensures
            r == (Vector2 { x, y }),
    {
        Vector2 { x, y }
    }
}

impl Vector2i {
    pub fn new(x: i32, y: i32) -> (r: Vector2i)
        ensures
            r == (Vector2i { x, y }),
    {
        Vector2i { x, y }
    }
}

impl Vector3 {
    pub fn new(x: u32, y: u32, z: u32) -> (r: Vector3)
        ensures
            r == (Vector3 { x, y, z }),
    {
        Vector3 { x, y, z }
    }
}

impl Vector3i {
    pub fn new(x: i32, y: i32, z: i32) -> (r: Vector3i)
        ensures
            r == (Vector3i { x, y, z }),
    {
        Vector3i { x, y, z }
    }
}

impl Rect2 {
    pub fn new(position: Vector2, size: Vector2) -> (r: Rect2)
        ensures
            r == (Rect2 { position, size }),
    {
        Rect2 { position, size }
    }
}

impl Rect2i {
    pub fn new(position: Vector2i, size: Vector2i) -> (r: Rect2i)
        ensures
            r == (Rect2i { position, size }),
    {
        Rect2i { position, size }
    }
}

impl Vector4 {
    pub fn new(x: u32, y: u32, z: u32, w: u32) -> (r: Vector4)
        ensures
            r == (Vector4 { x, y, z, w }),
    {
        Vector4 { x, y, z, w }
    }
}

impl Vector4i {
    pub fn new(x: i32, y: i32, z: i32, w: i32) -> (r: Vector4i)
        ensures
            r == (Vector4i { x, y, z, w }),
    {
        Vector4i { x, y, z, w }
    }
}

/// The value carrier: one arm per supported tag, each holding its payload
/// in the guest's native form.
///
/// A string-tagged variant holds the two payload words the host wrote when
/// it created the value; the guest treats them as opaque and only hands
/// them back across the boundary.
#[derive(Clone, Copy, Debug, PartialEq, Eq, Structural)]
pub enum Variant {
    Nil,
    Bool(bool),
    Integer(i64),
    Float(u64),
    Str { lo: u64, hi: u64 },
    Vector2(Vector2),
    Vector2i(Vector2i),
    Vector3(Vector3),
    Vector3i(Vector3i),
    Rect2(Rect2),
    Rect2i(Rect2i),
    Vector4(Vector4),
    Vector4i(Vector4i),
}

/// Failure of a typed extractor: the variant's tag was not the one the
/// extractor expects. Detected before any payload is read, so a payload is
/// never interpreted under the wrong tag.
#[derive(Clone, Copy, Debug, PartialEq, Eq, Structural)]
pub struct TypeMismatch {
    pub expected: VariantType,
    pub actual: VariantType,
}

impl Variant {
    /// The tag under which the payload is stored.
    pub open spec fn tag_spec(self) -> VariantType {
        match self {
            Variant::Nil => VariantType::Nil,
            Variant::Bool(_) => VariantType::Bool,
            Variant::Integer(_) => VariantType::Integer,
            Variant::Float(_) => VariantType::Float,
            Variant::Str { .. } => VariantType::Str,
            Variant::Vector2(_) => VariantType::Vector2,
            Variant::Vector2i(_) => VariantType::Vector2i,
            Variant::Vector3(_) => VariantType::Vector3,
            Variant::Vector3i(_) => VariantType::Vector3i,
            Variant::Rect2(_) => VariantType::Rect2,
            Variant::Rect2i(_) => VariantType::Rect2i,
            Variant::Vector4(_) => VariantType::Vector4,
            Variant::Vector4i(_) => VariantType::Vector4i,
        }
    }

    /// Tag inspection, the one operation valid under every tag.
    pub fn tag(&self) -> (t: VariantType)
        ensures
            t == self.tag_spec(),
    {
        match self {
            Variant::Nil => VariantType::Nil,
            Variant::Bool(_) => VariantType::Bool,
            Variant::Integer(_) => VariantType::Integer,
            Variant::Float(_) => VariantType::Float,
            Variant::Str { .. } => VariantType::Str,
            Variant::Vector2(_) => VariantType::Vector2,
            Variant::Vector2i(_) => VariantType::Vector2i,
            Variant::Vector3(_) => VariantType::Vector3,
            Variant::Vector3i(_) => VariantType::Vector3i,
            Variant::Rect2(_) => VariantType::Rect2,
            Variant::Rect2i(_) => VariantType::Rect2i,
            Variant::Vector4(_) => VariantType::Vector4,
            Variant::Vector4i(_) => VariantType::Vector4i,
        }
    }

    pub fn new_nil() -> (v: Variant)
        ensures
            v == Variant::Nil,
    {
        Variant::Nil
    }

    pub fn new_bool(b: bool) -> (v: Variant)
        ensures
            v == Variant::Bool(b),
    {
        Variant::Bool(b)
    }

    pub fn new_integer(i: i64) -> (v: Variant)
        ensures
            v == Variant::Integer(i),
    {
        Variant::Integer(i)
    }

    /// `f` is the IEEE-754 double-precision bit pattern of the value.
    pub fn new_float(f: u64) -> (v: Variant)
        ensures
            v == Variant::Float(f),
    {
        Variant::Float(f)
    }

    pub fn new_vec2(v: Vector2) -> (r: Variant)
        ensures
            r == Variant::Vector2(v),
    {
        Variant::Vector2(v)
    }

    pub fn new_vec2i(v: Vector2i) -> (r: Variant)
        ensures
            r == Variant::Vector2i(v),
    {
        Variant::Vector2i(v)
    }

    pub fn new_vec3(v: Vector3) -> (r: Variant)
        ensures
            r == Variant::Vector3(v),
    {
        Variant::Vector3(v)
    }

    pub fn new_vec3i(v: Vector3i) -> (r: Variant)
        ensures
            r == Variant::Vector3i(v),
    {
        Variant::Vector3i(v)
    }

    pub fn new_rect2(r: Rect2) -> (v: Variant)
        ensures
            v == Variant::Rect2(r),
    {
        Variant::Rect2(r)
    }

    pub fn new_rect2i(r: Rect2i) -> (v: Variant)
        ensures
            v == Variant::Rect2i(r),
    {
        Variant::Rect2i(r)
    }

    pub fn new_vec4(v: Vector4) -> (r: Variant)
        ensures
            r == Variant::Vector4(v),
    {
        Variant::Vector4(v)
    }

    pub fn new_vec4i(v: Vector4i) -> (r: Variant)
        ensures
            r == Variant::Vector4i(v),
    {
        Variant::Vector4i(v)
    }
}

/// What [`Variant::to_bool`] returns: the payload under the `Bool` tag,
/// the mismatch under every other.
pub open spec fn extract_bool(v: Variant) -> Result<bool, TypeMismatch> {
    match v {
        Variant::Bool(b) => Ok(b),
        _ => Err(TypeMismatch { expected: VariantType::Bool, actual: v.tag_spec() }),
    }
}

/// What [`Variant::to_integer`] returns.
pub open spec fn extract_integer(v: Variant) -> Result<i64, TypeMismatch> {
    match v {
        Variant::Integer(i) => Ok(i),
        _ => Err(TypeMismatch { expected: VariantType::Integer, actual: v.tag_spec() }),
    }
}

/// What [`Variant::to_float`] returns.
pub open spec fn extract_float(v: Variant) -> Result<u64, TypeMismatch> {
    match v {
        Variant::Float(f) => Ok(f),
        _ => Err(TypeMismatch { expected: VariantType::Float, actual: v.tag_spec() }),
    }
}

/// What [`Variant::to_vec2`] returns.
pub open spec fn extract_vec2(v: Variant) -> Result<Vector2, TypeMismatch> {
    match v {
        Variant::Vector2(x) => Ok(x),
        _ => Err(TypeMismatch { expected: VariantType::Vector2, actual: v.tag_spec() }),
    }
}

/// What [`Variant::to_vec2i`] returns.
pub open spec fn extract_vec2i(v: Variant) -> Result<Vector2i, TypeMismatch> {
    match v {
        Variant::Vector2i(x) => Ok(x),
        _ => Err(TypeMismatch { expected: VariantType::Vector2i, actual: v.tag_spec() }),
    }
}

/// What [`Variant::to_vec3`] returns.
pub open spec fn extract_vec3(v: Variant) -> Result<Vector3, TypeMismatch> {
    match v {
        Variant::Vector3(x) => Ok(x),
        _ => Err(TypeMismatch { expected: VariantType::Vector3, actual: v.tag_spec() }),
    }
}

/// What [`Variant::to_vec3i`] returns.
pub open spec fn extract_vec3i(v: Variant) -> Result<Vector3i, TypeMismatch> {
    match v {
        Variant::Vector3i(x) => Ok(x),
        _ => Err(TypeMismatch { expected: VariantType::Vector3i, actual: v.tag_spec() }),
    }
}

/// What [`Variant::to_rect2`] returns.
pub open spec fn extract_rect2(v: Variant) -> Result<Rect2, TypeMismatch> {
    match v {
        Variant::Rect2(x) => Ok(x),
        _ => Err(TypeMismatch { expected: VariantType::Rect2, actual: v.tag_spec() }),
    }
}

/// What [`Variant::to_rect2i`] returns.
pub open spec fn extract_rect2i(v: Variant) -> Result<Rect2i, TypeMismatch> {
    match v {
        Variant::Rect2i(x) => Ok(x),
        _ => Err(TypeMismatch { expected: VariantType::Rect2i, actual: v.tag_spec() }),
    }
}

/// What [`Variant::to_vec4`] returns.
pub open spec fn extract_vec4(v: Variant) -> Result<Vector4, TypeMismatch> {
    match v {
        Variant::Vector4(x) => Ok(x),
        _ => Err(TypeMismatch { expected: VariantType::Vector4, actual: v.tag_spec() }),
    }
}

/// What [`Variant::to_vec4i`] returns.
pub open spec fn extract_vec4i(v: Variant) -> Result<Vector4i, TypeMismatch> {
    match v {
        Variant::Vector4i(x) => Ok(x),
        _ => Err(TypeMismatch { expected: VariantType::Vector4i, actual: v.tag_spec() }),
    }
}

impl Variant {
    /// The payload, if the variant is `Bool`-tagged; the mismatch otherwise.
    /// The tag is checked before any payload is touched.
    pub fn to_bool(&self) -> (r: Result<bool, TypeMismatch>)
        ensures
            r == extract_bool(*self),
    {
        match self {
            Variant::Bool(b) => Ok(*b),
            _ => Err(TypeMismatch { expected: VariantType::Bool, actual: self.tag() }),
        }
    }

    /// The payload, if the variant is `Integer`-tagged; the mismatch otherwise.
    pub fn to_integer(&self) -> (r: Result<i64, TypeMismatch>)
        ensures
            r == extract_integer(*self),
    {
        match self {
            Variant::Integer(i) => Ok(*i),
            _ => Err(TypeMismatch { expected: VariantType::Integer, actual: self.tag() }),
        }
    }

    /// The payload bits, if the variant is `Float`-tagged; the mismatch
    /// otherwise. The bits are the value's IEEE-754 double pattern.
    pub fn to_float(&self) -> (r: Result<u64, TypeMismatch>)
        ensures
            r == extract_float(*self),
    {
        match self {
            Variant::Float(f) => Ok(*f),
            _ => Err(TypeMismatch { expected: VariantType::Float, actual: self.tag() }),
        }
    }

    /// The payload, if the variant is `Vector2`-tagged; the mismatch otherwise.
    pub fn to_vec2(&self) -> (r: Result<Vector2, TypeMismatch>)
        ensures
            r == extract_vec2(*self),
    {
        match self {
            Variant::Vector2(x) => Ok(*x),
            _ => Err(TypeMismatch { expected: VariantType::Vector2, actual: self.tag() }),
        }
    }

    /// The payload, if the variant is `Vector2i`-tagged; the mismatch otherwise.
    pub fn to_vec2i(&self) -> (r: Result<Vector2i, TypeMismatch>)
        ensures
            r == extract_vec2i(*self),
    {
        match self {
            Variant::Vector2i(x) => Ok(*x),
            _ => Err(TypeMismatch { expected: VariantType::Vector2i, actual: self.tag() }),
        }
    }

    /// The payload, if the variant is `Vector3`-tagged; the mismatch otherwise.
    pub fn to_vec3(&self) -> (r: Result<Vector3, TypeMismatch>)
        ensures
            r == extract_vec3(*self),
    {
        match self {
            Variant::Vector3(x) => Ok(*x),
            _ => Err(TypeMismatch { expected: VariantType::Vector3, actual: self.tag() }),
        }
    }

    /// The payload, if the variant is `Vector3i`-tagged; the mismatch otherwise.
    pub fn to_vec3i(&self) -> (r: Result<Vector3i, TypeMismatch>)
        ensures
            r == extract_vec3i(*self),
    {
        match self {
            Variant::Vector3i(x) => Ok(*x),
            _ => Err(TypeMismatch { expected: VariantType::Vector3i, actual: self.tag() }),
        }
    }

    /// The payload, if the variant is `Rect2`-tagged; the mismatch otherwise.
    pub fn to_rect2(&self) -> (r: Result<Rect2, TypeMismatch>)
        ensures
            r == extract_rect2(*self),
    {
        match self {
            Variant::Rect2(x) => Ok(*x),
            _ => Err(TypeMismatch { expected: VariantType::Rect2, actual: self.tag() }),
        }
    }

    /// The payload, if the variant is `Rect2i`-tagged; the mismatch otherwise.
    pub fn to_rect2i(&self) -> (r: Result<Rect2i, TypeMismatch>)
        ensures
            r == extract_rect2i(*self),
    {
        match self {
            Variant::Rect2i(x) => Ok(*x),
            _ => Err(TypeMismatch { expected: VariantType::Rect2i, actual: self.tag() }),
        }
    }

    /// The payload, if the variant is `Vector4`-tagged; the mismatch otherwise.
    pub fn to_vec4(&self) -> (r: Result<Vector4, TypeMismatch>)
        ensures
            r == extract_vec4(*self),
    {
        match self {
            Variant::Vector4(x) => Ok(*x),
            _ => Err(TypeMismatch { expected: VariantType::Vector4, actual: self.tag() }),
        }
    }

    /// The payload, if the variant is `Vector4i`-tagged; the mismatch otherwise.
    pub fn to_vec4i(&self) -> (r: Result<Vector4i, TypeMismatch>)
        ensures
            r == extract_vec4i(*self),
    {
        match self {
            Variant::Vector4i(x) => Ok(*x),
            _ => Err(TypeMismatch { expected: VariantType::Vector4i, actual: self.tag() }),
        }
    }
}

/// Round-trip identity: extracting under the tag a value was constructed
/// with yields the value back, for every payload kind that the guest
/// constructs on its own.
pub proof fn lemma_extract_construct(
    b: bool,
    i: i64,
    f: u64,
    v2: Vector2,
    v2i: Vector2i,
    v3: Vector3,
    v3i: Vector3i,
    r2: Rect2,
    r2i: Rect2i,
    v4: Vector4,
    v4i: Vector4i,
)
    ensures
        extract_bool(Variant::Bool(b)) == Ok::<bool, TypeMismatch>(b),
        extract_integer(Variant::Integer(i)) == Ok::<i64, TypeMismatch>(i),
        extract_float(Variant::Float(f)) == Ok::<u64, TypeMismatch>(f),
        extract_vec2(Variant::Vector2(v2)) == Ok::<Vector2, TypeMismatch>(v2),
        extract_vec2i(Variant::Vector2i(v2i)) == Ok::<Vector2i, TypeMismatch>(v2i),
        extract_vec3(Variant::Vector3(v3)) == Ok::<Vector3, TypeMismatch>(v3),
        extract_vec3i(Variant::Vector3i(v3i)) == Ok::<Vector3i, TypeMismatch>(v3i),
        extract_rect2(Variant::Rect2(r2)) == Ok::<Rect2, TypeMismatch>(r2),
        extract_rect2i(Variant::Rect2i(r2i)) == Ok::<Rect2i, TypeMismatch>(r2i),
        extract_vec4(Variant::Vector4(v4)) == Ok::<Vector4, TypeMismatch>(v4),
        extract_vec4i(Variant::Vector4i(v4i)) == Ok::<Vector4i, TypeMismatch>(v4i),
{
}

/// Tag safety: an extractor applied to a variant carrying any other tag
/// reports exactly the expected and actual tags, and yields no value.
pub proof fn lemma_extract_checks_tag(v: Variant)
    ensures
        v.tag_spec() != VariantType::Bool ==> extract_bool(v) == Err::<bool, TypeMismatch>(
            TypeMismatch { expected: VariantType::Bool, actual: v.tag_spec() },
        ),
        v.tag_spec() != VariantType::Integer ==> extract_integer(v) == Err::<i64, TypeMismatch>(
            TypeMismatch { expected: VariantType::Integer, actual: v.tag_spec() },
        ),
        v.tag_spec() != VariantType::Float ==> extract_float(v) == Err::<u64, TypeMismatch>(
            TypeMismatch { expected: VariantType::Float, actual: v.tag_spec() },
        ),
        v.tag_spec() != VariantType::Vector2 ==> extract_vec2(v) == Err::<Vector2, TypeMismatch>(
            TypeMismatch { expected: VariantType::Vector2, actual: v.tag_spec() },
        ),
        v.tag_spec() != VariantType::Vector2i ==> extract_vec2i(v) == Err::<
            Vector2i,
            TypeMismatch,
        >(TypeMismatch { expected: VariantType::Vector2i, actual: v.tag_spec() }),
        v.tag_spec() != VariantType::Vector3 ==> extract_vec3(v) == Err::<Vector3, TypeMismatch>(
            TypeMismatch { expected: VariantType::Vector3, actual: v.tag_spec() },
        ),
        v.tag_spec() != VariantType::Vector3i ==> extract_vec3i(v) == Err::<
            Vector3i,
            TypeMismatch,
        >(TypeMismatch { expected: VariantType::Vector3i, actual: v.tag_spec() }),
        v.tag_spec() != VariantType::Rect2 ==> extract_rect2(v) == Err::<Rect2, TypeMismatch>(
            TypeMismatch { expected: VariantType::Rect2, actual: v.tag_spec() },
        ),
        v.tag_spec() != VariantType::Rect2i ==> extract_rect2i(v) == Err::<Rect2i, TypeMismatch>(
            TypeMismatch { expected: VariantType::Rect2i, actual: v.tag_spec() },
        ),
        v.tag_spec() != VariantType::Vector4 ==> extract_vec4(v) == Err::<Vector4, TypeMismatch>(
            TypeMismatch { expected: VariantType::Vector4, actual: v.tag_spec() },
        ),
        v.tag_spec() != VariantType::Vector4i ==> extract_vec4i(v) == Err::<
            Vector4i,
            TypeMismatch,
        >(TypeMismatch { expected: VariantType::Vector4i, actual: v.tag_spec() }),
{
}

} // verus!
