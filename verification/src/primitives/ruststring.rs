//! A borrowed string view: a read-only window into string data owned by
//! the source graph. It carries no ownership and never mutates, so it is
//! safe to hand across the boundary for the lifetime of its source.

use vstd::prelude::*;

verus! {

/// A borrowed view of a UTF-8 string owned elsewhere.
#[derive(Debug, Clone, Copy)]
pub struct RustStr<'a> {
    s: &'a str,
}

impl<'a> View for RustStr<'a> {
    type V = Seq<char>;

    closed spec fn view(&self) -> Seq<char> {
        self.s@
    }
}

impl<'a> RustStr<'a> {
    /// Wraps an existing string slice.
    pub fn from_str(string: &'a str) -> (r: Self)
        ensures
            r@ == string@,
    {
        RustStr { s: string }
    }

    /// The defined empty view.
    pub fn empty() -> (r: Self)
        ensures
            r@ =~= Seq::<char>::empty(),
    {
        proof {
            reveal_strlit("");
        }
        RustStr { s: "" }
    }

    /// Reads the underlying string slice.
    pub fn as_str(&self) -> (r: &'a str)
        ensures
            r@ == self@,
    {
        self.s
    }
}

} // verus!
