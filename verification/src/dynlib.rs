//! The verified half of the boundary-call protocol: the shape of a
//! boundary call's return value, and the release step for foreign-owned
//! strings.
//!
//! The surrounding program owns the actual native module (loading it,
//! resolving its entry points, and making the raw calls); this module pins
//! down what must happen to the values those calls hand back.

use vstd::prelude::*;

use crate::primitives::CsString;

verus! {

/// What a boundary decompile call returns: a foreign-owned string handle
/// and a one-byte error code (zero means success).
pub struct ReturnValue {
    pub string: CsString,
    pub error: u8,
}

/// Releases a foreign-owned string handle.
///
/// Consuming the handle makes a second release impossible. The returned
/// address is the exact value to pass to the boundary's matching release
/// entry point; it is produced without reading the handle's bytes, so a
/// zero-length handle is accepted like any other.
pub fn free_cs_string(string: CsString) -> (addr: usize)
    ensures
        addr == string.addr_spec(),
{
    string.addr_value()
}

} // verus!
