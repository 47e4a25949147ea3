//! Encoding of host operations as numbered, register-passed system calls.
//!
//! Every operation is one synchronous trap: a call number in the number
//! register and up to three positional arguments. This module builds the
//! register image and, for the print operation, the contiguous buffer of
//! variant images the host reads. The trap instruction itself is the
//! embedder's: it takes a [`HostCall`], places the fields in the
//! platform's registers, and traps; addresses therefore enter here as
//! plain machine words supplied by the caller.

use vstd::prelude::*;
use vstd::slice::slice_index_get;

use crate::variant::Variant;
use crate::variant::VariantType;
use crate::variant::tag_value;
use crate::wire::VARIANT_SIZE;
use crate::wire::variant_image;

verus! {

/// Call number of the print operation: `a0` points at a contiguous array
/// of variant images, `a1` holds the element count.
pub const SYSCALL_PRINT: u64 = 500;

/// Call number of the host-visible error raise; the trap does not return
/// normally.
pub const SYSCALL_THROW: u64 = 511;

/// Call number of the editor-context query: no arguments, the result comes
/// back in `a0`.
pub const SYSCALL_IS_EDITOR: u64 = 512;

/// Call number of string-variant creation: `a0` points at the output
/// variant slot, `a1` carries the target tag, `a2` points at the
/// `GuestStdString`.
pub const SYSCALL_VCREATE: u64 = 517;

/// The register image of one synchronous trap: the call number and the
/// three positional argument registers, zero where an operation takes
/// fewer.
#[derive(Clone, Copy, Debug, PartialEq, Eq, Structural)]
pub struct HostCall {
    pub number: u64,
    pub a0: u64,
    pub a1: u64,
    pub a2: u64,
}

/// A marshaled print request: the contiguous buffer of variant images the
/// host will read, and the element count to report beside its address.
pub struct PrintCall {
    pub buffer: Vec<u8>,
    pub count: usize,
}

/// The concatenated boundary images of `vs`, in order.
pub open spec fn images_concat(vs: Seq<Variant>) -> Seq<u8>
    decreases vs.len(),
{
    if vs.len() == 0 {
        Seq::empty()
    } else {
        images_concat(vs.drop_last()) + variant_image(vs.last())
    }
}

/// A print buffer is exactly [`VARIANT_SIZE`] bytes per element: the array
/// the host reads is contiguous with that stride.
pub proof fn lemma_images_concat_len(vs: Seq<Variant>)
    ensures
        images_concat(vs).len() == vs.len() * VARIANT_SIZE,
    decreases vs.len(),
{
    if vs.len() == 0 {
    } else {
        lemma_images_concat_len(vs.drop_last());
        crate::wire::lemma_image_layout(vs.last());
    }
}

/// Each element's image sits at its index times the stride.
pub proof fn lemma_images_concat_index(vs: Seq<Variant>, i: int)
    requires
        0 <= i < vs.len(),
    ensures
        images_concat(vs).subrange(i * VARIANT_SIZE, (i + 1) * VARIANT_SIZE) == variant_image(
            vs[i],
        ),
    decreases vs.len(),
{
    lemma_images_concat_len(vs);
    lemma_images_concat_len(vs.drop_last());
    crate::wire::lemma_image_layout(vs.last());
    if i == vs.len() - 1 {
        assert(images_concat(vs).subrange(i * VARIANT_SIZE, (i + 1) * VARIANT_SIZE)
            =~= variant_image(vs[i]));
    } else {
        lemma_images_concat_index(vs.drop_last(), i);
        assert(images_concat(vs).subrange(i * VARIANT_SIZE, (i + 1) * VARIANT_SIZE)
            =~= images_concat(vs.drop_last()).subrange(i * VARIANT_SIZE, (i + 1) * VARIANT_SIZE));
    }
}

impl PrintCall {
    /// The registers of the trap that sends this request, once the
    /// embedder knows the buffer's address.
    pub fn regs(&self, buffer_addr: u64) -> (r: HostCall)
        ensures
            r == (HostCall {
                number: SYSCALL_PRINT,
                a0: buffer_addr,
                a1: self.count as u64,
                a2: 0u64,
            }),
    {
        HostCall { number: SYSCALL_PRINT, a0: buffer_addr, a1: self.count as u64, a2: 0 }
    }
}

/// Marshals a print of every variant in `vs`, in order: one contiguous
/// buffer of boundary images with stride [`VARIANT_SIZE`], and the element
/// count the host reads beside the buffer's address.
pub fn print(vs: &[Variant]) -> (r: PrintCall)
    ensures
        r.count == vs@.len(),
        r.buffer@ == images_concat(vs@),
        r.buffer@.len() == vs@.len() * VARIANT_SIZE,
{
    let n = vs.len();
    let mut buffer: Vec<u8> = Vec::new();
    let mut i: usize = 0;
    while i < n
        invariant
            i <= n == vs@.len(),
            buffer@ == images_concat(vs@.subrange(0, i as int)),
        decreases n - i,
    {
        let v = *slice_index_get(vs, i);
        let mut img = v.to_bytes();
        buffer.append(&mut img);
        proof {
            assert(vs@.subrange(0, i + 1).drop_last() =~= vs@.subrange(0, i as int));
            assert(vs@.subrange(0, i + 1).last() == vs@[i as int]);
        }
        i = i + 1;
    }
    proof {
        assert(vs@.subrange(0, n as int) =~= vs@);
        lemma_images_concat_len(vs@);
    }
    PrintCall { buffer, count: n }
}

/// Marshals a print of one variant: the image alone, count one.
pub fn print1(v: &Variant) -> (r: PrintCall)
    ensures
        r.count == 1,
        r.buffer@ == variant_image(*v),
        r.buffer@.len() == VARIANT_SIZE,
{
    let buffer = v.to_bytes();
    proof {
        crate::wire::lemma_image_layout(*v);
    }
    PrintCall { buffer, count: 1 }
}

/// The demonstration request: an integer, a double given by its IEEE-754
/// bits, and a string variant the host created earlier, marshaled as one
/// three-element print.
pub fn test_print(hello: &Variant) -> (r: PrintCall)
    ensures
        r.count == 3,
        r.buffer@ == variant_image(Variant::Integer(42)) + variant_image(
            Variant::Float(0x4009_1EB8_51EB_851F),
        ) + variant_image(*hello),
{
    let v1 = Variant::new_integer(42);
    // IEEE-754 double bits of 3.14
    let v2 = Variant::new_float(0x4009_1EB8_51EB_851F);
    let mut items: Vec<Variant> = Vec::new();
    items.push(v1);
    items.push(v2);
    items.push(*hello);
    let r = print(items.as_slice());
    proof {
        let s = items@;
        let e = Seq::<Variant>::empty();
        let s1 = seq![v1];
        let s2 = seq![v1, v2];
        assert(images_concat(e) == Seq::<u8>::empty());
        assert(s1.drop_last() =~= e);
        assert(s1.last() == v1);
        assert(images_concat(s1) == images_concat(e) + variant_image(v1));
        assert(images_concat(s1) =~= variant_image(v1));
        assert(s2.drop_last() =~= s1);
        assert(s2.last() == v2);
        assert(images_concat(s2) == images_concat(s1) + variant_image(v2));
        assert(images_concat(s2) =~= variant_image(v1) + variant_image(v2));
        assert(s.drop_last() =~= s2);
        assert(s.last() == *hello);
        assert(images_concat(s) == images_concat(s2) + variant_image(*hello));
        assert(r.buffer@ =~= variant_image(Variant::Integer(42)) + variant_image(
            Variant::Float(0x4009_1EB8_51EB_851F),
        ) + variant_image(*hello));
    }
    r
}

/// The registers of the string-variant creation trap: the host reads the
/// `GuestStdString` at `string_addr`, creates a string-tagged variant from
/// it, and writes the variant's image into the [`VARIANT_SIZE`] bytes at
/// `out_addr`. From the moment the trap returns, the string's bytes are
/// the host's: the guest must not assume the host still reads the source
/// address afterwards.
pub fn string_create_call(out_addr: u64, string_addr: u64) -> (r: HostCall)
    ensures
        r == (HostCall {
            number: SYSCALL_VCREATE,
            a0: out_addr,
            a1: tag_value(VariantType::Str) as u64,
            a2: string_addr,
        }),
{
    HostCall {
        number: SYSCALL_VCREATE,
        a0: out_addr,
        a1: crate::variant::tag_code(VariantType::Str) as u64,
        a2: string_addr,
    }
}

/// Host introspection queries.
pub struct Engine {}

impl Engine {
    /// The registers of the editor-context query: no argument payload.
    pub fn is_editor_hint_call() -> (r: HostCall)
        ensures
            r == (HostCall { number: SYSCALL_IS_EDITOR, a0: 0u64, a1: 0u64, a2: 0u64 }),
    {
        HostCall { number: SYSCALL_IS_EDITOR, a0: 0, a1: 0, a2: 0 }
    }

    /// Reads the query's answer out of the returned register: nonzero
    /// means the guest runs under an editor or tooling context.
    pub fn is_editor_hint_result(a0: u64) -> (r: bool)
        ensures
            r == (a0 != 0),
    {
        a0 != 0
    }
}

} // verus!
