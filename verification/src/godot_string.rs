//! Reference-handle form of host-side string objects.
//!
//! Beside the by-value string marshaling, the host also keeps whole string
//! objects on its own side and lets the guest address one by a numeric
//! reference. The guest-side handle is nothing but that number; creating a
//! host string and reading one back are traps of the surrounding runtime,
//! which adopts the returned reference through [`GodotString::from_ref`].

use vstd::prelude::*;

verus! {

/// Sentinel reference of a handle that refers to no host string yet.
pub const NO_REFERENCE: i32 = i32::MIN;

/// A guest-side handle to a string object the host owns.
#[derive(Clone, Copy, Debug, PartialEq, Eq, Structural)]
pub struct GodotString {
    pub reference: i32,
}

impl GodotString {
    /// A handle that refers to nothing: the sentinel reference.
    pub fn new() -> (r: GodotString)
        ensures
            r.reference == NO_REFERENCE,
    {
        GodotString { reference: NO_REFERENCE }
    }

    /// Adopts a reference the host returned from a string-creating trap.
    pub fn from_ref(var_ref: i32) -> (r: GodotString)
        ensures
            r.reference == var_ref,
    {
        GodotString { reference: var_ref }
    }
}

} // verus!
