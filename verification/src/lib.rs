//! Guest-side runtime support for a program that runs inside an isolated
//! virtual CPU and exchanges dynamically typed values with a host engine
//! through numbered, register-passed system calls.
//!
//! The library covers the three layers whose correctness rests on exact
//! binary agreement with the host:
//!
//! * [`variant`] — the tagged value carrier (`Variant`), its typed
//!   constructors and tag-checked extractors;
//! * [`wire`] — the fixed 24-byte boundary image of a `Variant` and the
//!   codec between the two forms;
//! * [`guest_string`] — the small-string-optimized string shape handed to
//!   the host when a string crosses the boundary;
//! * [`syscall`] — the encoding of each host operation as a call number
//!   plus argument registers, and the marshaling of print buffers;
//! * [`render`] — the textual rendering of the payloads a guest can read
//!   on its own;
//! * [`godot_string`] — the reference-handle form of host-side string
//!   objects.
//!
//! The trap instruction itself, and everything that needs real addresses,
//! lives outside the library: callers hand addresses in as plain machine
//! words and perform the trap with the encoded call this library returns.

pub mod godot_string;
pub mod guest_string;
pub mod syscall;
pub mod render;
pub mod variant;
pub mod wire;
