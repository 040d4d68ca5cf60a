//! The fixed-layout snapshot of a function entity.

use vstd::prelude::*;

use crate::gamedata::FunctionEntry;
use crate::primitives::RustStr;

verus! {

/// A function snapshot: just the borrowed name. Absence of a function is
/// represented by an explicit "null" sentinel with an empty name.
#[derive(Debug, Clone, Copy)]
pub struct Function<'a> {
    pub name: RustStr<'a>,
}

/// Whether a function snapshot is built from the given source entity.
pub open spec fn fn_snapshot_matches(s: Function, f: FunctionEntry) -> bool {
    s.name@ == f.name@
}

/// Whether a function snapshot is the explicit "null" sentinel.
pub open spec fn fn_snapshot_null(s: Function) -> bool {
    s.name@ == Seq::<char>::empty()
}

impl<'a> Function<'a> {
    /// Builds a snapshot around an already-borrowed name.
    pub fn new(name: RustStr<'a>) -> (r: Self)
        ensures
            r.name@ == name@,
    {
        Function { name }
    }

    /// The explicit "null" sentinel, for instructions that carry no
    /// function reference.
    pub fn null() -> (r: Self)
        ensures
            fn_snapshot_null(r),
    {
        Function { name: RustStr::empty() }
    }

    /// Snapshots a source function entity.
    pub fn from_libgm(function: &'a FunctionEntry) -> (r: Self)
        ensures
            fn_snapshot_matches(r, *function),
    {
        Function::new(RustStr::from_str(function.name.as_str()))
    }
}

} // verus!
