//! The small-string-optimized shape a string takes at the moment it
//! crosses the boundary.
//!
//! The host's native string keeps short contents inline: pointer, length,
//! and a 16-byte union that holds either the heap capacity or the bytes
//! themselves, selected implicitly by comparing the length against the
//! inline threshold. A `GuestStdString` reproduces that shape field for
//! field. It is built transiently just before the creation trap and never
//! read back by the guest.

use vstd::bytes::spec_u64_to_le_bytes;
use vstd::prelude::*;
use vstd::slice::slice_index_get;

use crate::wire::push_u64_le;
use crate::wire::push_zeros;
use crate::wire::zeros;

verus! {

/// Longest byte count the inline buffer holds; above it the union member
/// is the heap capacity.
pub const SSO_CAPACITY: usize = 16;

/// Total size of the structure's boundary form: two machine words plus the
/// 16-byte union.
pub const GUEST_STRING_SIZE: usize = 32;

/// The union slot after pointer and length. Which member is active is not
/// recorded anywhere in the structure: the host decides by comparing the
/// length field against [`SSO_CAPACITY`], so a well-formed value must pair
/// the member with the matching length range.
pub enum CapacityOrSSO {
    /// The string's bytes, stored inline and zero-padded to 16 bytes.
    Sso(Vec<u8>),
    /// The heap capacity of an out-of-line string.
    Cap(u64),
}

/// The argument shape of the string-variant creation trap.
pub struct GuestStdString {
    /// Address of the first byte of the source string.
    pub ptr: u64,
    /// Byte count of the source string.
    pub len: u64,
    /// Inline bytes or capacity, per the length.
    pub cap_or_sso: CapacityOrSSO,
}

impl GuestStdString {
    /// The implicit union discriminant agrees with the length, and the
    /// inline buffer is exactly the union's size.
    pub open spec fn wf(self) -> bool {
        match self.cap_or_sso {
            CapacityOrSSO::Sso(b) => self.len <= SSO_CAPACITY && b@.len() == SSO_CAPACITY,
            CapacityOrSSO::Cap(_) => self.len > SSO_CAPACITY,
        }
    }

    /// Lays a borrowed byte sequence out for transmission. Short contents
    /// are copied into the inline buffer and zero-padded; the pointer
    /// field still carries the source address, matching the host's own
    /// convention. Long contents stay where they are: the pointer and the
    /// capacity member describe them exactly.
    pub fn new(s: &[u8], data_addr: u64) -> (r: GuestStdString)
        ensures
            r.wf(),
            r.ptr == data_addr,
            r.len == s@.len(),
            s@.len() <= SSO_CAPACITY ==> (r.cap_or_sso matches CapacityOrSSO::Sso(b) && (forall|
                i: int,
            |
                0 <= i < s@.len() ==> b@[i] == s@[i]) && (forall|i: int|
                s@.len() <= i < SSO_CAPACITY ==> b@[i] == 0u8)),
            s@.len() > SSO_CAPACITY ==> r.cap_or_sso == CapacityOrSSO::Cap(s@.len() as u64),
    {
        let n = s.len();
        if n <= SSO_CAPACITY {
            let mut sso: Vec<u8> = Vec::new();
            let mut i: usize = 0;
            while i < n
                invariant
                    i <= n == s@.len() <= SSO_CAPACITY,
                    sso@.len() == i,
                    forall|j: int| 0 <= j < i ==> sso@[j] == s@[j],
                decreases n - i,
            {
                sso.push(*slice_index_get(s, i));
                i = i + 1;
            }
            while sso.len() < SSO_CAPACITY
                invariant
                    n == s@.len(),
                    n <= sso@.len() <= SSO_CAPACITY,
                    forall|j: int| 0 <= j < n ==> sso@[j] == s@[j],
                    forall|j: int| n <= j < sso@.len() ==> sso@[j] == 0u8,
                decreases SSO_CAPACITY - sso@.len(),
            {
                sso.push(0);
            }
            GuestStdString { ptr: data_addr, len: n as u64, cap_or_sso: CapacityOrSSO::Sso(sso) }
        } else {
            GuestStdString {
                ptr: data_addr,
                len: n as u64,
                cap_or_sso: CapacityOrSSO::Cap(n as u64),
            }
        }
    }
}

/// The boundary form of the structure: pointer word, length word, then the
/// union's 16 bytes — inline contents as they stand, or the capacity word
/// followed by zeros.
pub open spec fn guest_string_bytes(g: GuestStdString) -> Seq<u8>
    recommends
        g.wf(),
{
    spec_u64_to_le_bytes(g.ptr) + spec_u64_to_le_bytes(g.len) + (match g.cap_or_sso {
        CapacityOrSSO::Sso(b) => b@,
        CapacityOrSSO::Cap(c) => spec_u64_to_le_bytes(c) + zeros(8),
    })
}

/// The structure's boundary form is exactly [`GUEST_STRING_SIZE`] bytes
/// for every well-formed value.
pub proof fn lemma_guest_string_layout(g: GuestStdString)
    requires
        g.wf(),
    ensures
        guest_string_bytes(g).len() == GUEST_STRING_SIZE,
{
    vstd::bytes::lemma_auto_spec_u64_to_from_le_bytes();
}

impl GuestStdString {
    /// The bytes the host reads at the address this structure is passed
    /// under.
    pub fn to_bytes(&self) -> (r: Vec<u8>)
        requires
            self.wf(),
        ensures
            r@ == guest_string_bytes(*self),
            r@.len() == GUEST_STRING_SIZE,
    {
        let mut out: Vec<u8> = Vec::new();
        push_u64_le(&mut out, self.ptr);
        push_u64_le(&mut out, self.len);
        match &self.cap_or_sso {
            CapacityOrSSO::Sso(b) => {
                let mut inline = b.clone();
                out.append(&mut inline);
            },
            CapacityOrSSO::Cap(c) => {
                push_u64_le(&mut out, *c);
                push_zeros(&mut out, 8);
            },
        }
        proof {
            lemma_guest_string_layout(*self);
            assert(out@ =~= guest_string_bytes(*self));
        }
        out
    }
}

} // verus!
