//! A foreign-owned string handle: bytes that were allocated on the other
//! side of the module boundary.
//!
//! The handle is a single-use value. Its bytes may be read (and must be
//! revalidated as UTF-8) only while the handle is alive; releasing it
//! consumes the handle, so the release can happen at most once, and yields
//! the raw address that must be handed back to the boundary's own release
//! entry point. An empty string is a zero-length handle whose address is
//! never dereferenced but is still valid to pass to release.

use vstd::prelude::*;

use crate::error::Error;
use crate::text::utf8_to_str;

verus! {

/// A handle to a string allocated by the other side of the boundary.
#[derive(Debug)]
pub struct CsString {
    addr: usize,
    bytes: Vec<u8>,
}

impl CsString {
    /// The raw address of the foreign allocation, kept only so it can be
    /// handed back to the matching release entry point.
    pub closed spec fn addr_spec(&self) -> usize {
        self.addr
    }

    /// The bytes readable through the handle.
    pub closed spec fn bytes_view(&self) -> Seq<u8> {
        self.bytes@
    }

    /// Rebuilds a handle from the raw address of a foreign allocation and
    /// the bytes readable through it.
    pub fn from_raw_parts(addr: usize, bytes: Vec<u8>) -> (r: Self)
        ensures
            r.addr_spec() == addr,
            r.bytes_view() == bytes@,
    {
        CsString { addr, bytes }
    }

    /// Reads the raw address of the foreign allocation.
    pub fn addr_value(&self) -> (r: usize)
        ensures
            r == self.addr_spec(),
    {
        self.addr
    }

    /// Revalidates the handle's bytes as UTF-8 and views them as a string.
    ///
    /// Failure is a distinct error, not a corruption of the handle: the
    /// handle is still intact and must still be released.
    pub fn to_str(&self) -> (r: Result<&str, Error>)
        ensures
            r is Ok <==> vstd::utf8::valid_utf8(self.bytes_view()),
            r is Ok ==> r.unwrap()@ == vstd::utf8::decode_utf8(self.bytes_view()),
            r is Err ==> {
                &&& r.unwrap_err().message_view() == "returned bytes are not valid UTF-8"@
                &&& r.unwrap_err().contexts_view() =~= seq!["validating UTF-8"@]
            },
    {
        match utf8_to_str(self.bytes.as_slice()) {
            Some(s) => Ok(s),
            None => Err(
                Error::new("returned bytes are not valid UTF-8".to_owned()).push_context(
                    "validating UTF-8".to_owned(),
                ),
            ),
        }
    }
}

} // verus!
