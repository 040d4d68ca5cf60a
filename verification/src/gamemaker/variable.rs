//! The fixed-layout snapshot of a variable entity.

use vstd::prelude::*;

use crate::gamedata::VariableEntry;
use crate::primitives::RustStr;

verus! {

/// A variable snapshot: borrowed name, numeric id and instance-type code.
/// Absence of a variable is represented by an explicit "null" sentinel
/// with an empty name and zero ids.
#[derive(Debug, Clone, Copy)]
pub struct Variable<'a> {
    pub name: RustStr<'a>,
    pub variable_id: i32,
    pub instance_type: i16,
}

/// Whether a variable snapshot is built from the given source entity:
/// the name matches, and the numeric fields come from the entity's
/// version-dependent data, defaulting to zero when that data is absent.
pub open spec fn var_snapshot_matches(s: Variable, v: VariableEntry) -> bool {
    &&& s.name@ == v.name@
    &&& match v.modern_data {
        Some(modern) => s.variable_id == modern.variable_id && s.instance_type
            == modern.instance_type,
        None => s.variable_id == 0 && s.instance_type == 0,
    }
}

/// Whether a variable snapshot is the explicit "null" sentinel.
pub open spec fn var_snapshot_null(s: Variable) -> bool {
    &&& s.name@ == Seq::<char>::empty()
    &&& s.variable_id == 0
    &&& s.instance_type == 0
}

impl<'a> Variable<'a> {
    /// Builds a snapshot from its parts.
    pub fn new(name: RustStr<'a>, variable_id: i32, instance_type: i16) -> (r: Self)
        ensures
            r.name@ == name@,
            r.variable_id == variable_id,
            r.instance_type == instance_type,
    {
        Variable { name, variable_id, instance_type }
    }

    /// The explicit "null" sentinel, for instructions that carry no
    /// variable reference.
    pub fn null() -> (r: Self)
        ensures
            var_snapshot_null(r),
    {
        Variable { name: RustStr::empty(), variable_id: 0, instance_type: 0 }
    }

    /// Snapshots a source variable entity.
    pub fn from_libgm(variable: &'a VariableEntry) -> (r: Self)
        ensures
            var_snapshot_matches(r, *variable),
    {
        let name = RustStr::from_str(variable.name.as_str());
        match &variable.modern_data {
            Some(modern) => Variable::new(name, modern.variable_id, modern.instance_type),
            None => Variable::new(name, 0, 0),
        }
    }
}

} // verus!
