//! The source graph model: the read-only, reference-validated data the
//! snapshot builders consume. Every entity is held as plain values — names
//! as owned strings, cross references as table indexes — so that the
//! builders' behaviour can be stated and checked entirely over this model.

use vstd::prelude::*;

mod instruction;

pub use instruction::CodeVariable;
pub use instruction::ComparisonType;
pub use instruction::DataType;
pub use instruction::GmInstruction;
pub use instruction::PushValue;
pub use instruction::VariableType;

verus! {

/// The GameMaker release branch a data file was produced on.
#[derive(Clone, Copy, PartialEq, Eq, Structural, Debug)]
pub enum LtsBranch {
    PreLts,
    Lts,
    PostLts,
}

/// A decoded version quadruple plus the release branch.
#[derive(Clone, Copy, PartialEq, Eq, Structural, Debug)]
pub struct GmVersion {
    pub major: u32,
    pub minor: u32,
    pub release: u32,
    pub build: u32,
    pub branch: LtsBranch,
}

/// Per-file metadata of the source graph.
#[derive(Clone, Debug)]
pub struct GeneralInfo {
    /// The name of the game, used in error context notes.
    pub game_name: String,
    /// The studio version the data file was made in.
    pub version: GmVersion,
    /// The format revision byte; nested code entries exist from revision
    /// fifteen upward.
    pub wad_version: u8,
}

/// A named function entity, referenced by index from instructions.
#[derive(Clone, Debug)]
pub struct FunctionEntry {
    pub name: String,
}

/// Version-dependent extra data of a variable entity.
#[derive(Clone, Copy, PartialEq, Eq, Structural, Debug)]
pub struct VariableModernData {
    pub variable_id: i32,
    pub instance_type: i16,
}

/// A named variable entity, referenced by index from instructions.
#[derive(Clone, Debug)]
pub struct VariableEntry {
    pub name: String,
    pub modern_data: Option<VariableModernData>,
}

/// Version-dependent extra data of a code entry.
#[derive(Clone, Copy, PartialEq, Eq, Structural, Debug)]
pub struct CodeModernData {
    /// The byte offset where execution starts within the entry.
    pub offset: u32,
    /// The declared argument count.
    pub arguments_count: u16,
    /// The declared local-variable count.
    pub locals_count: u16,
    /// The index of the parent code entry, when this is a child entry.
    pub parent: Option<u32>,
}

/// A named sequence of instructions with optional metadata.
#[derive(Clone, Debug)]
pub struct CodeEntry {
    pub name: String,
    pub instructions: Vec<GmInstruction>,
    pub modern_data: Option<CodeModernData>,
}

impl CodeEntry {
    /// The index of this entry's parent code entry, if it has one. Absent
    /// before the child-supporting format revision.
    pub open spec fn spec_parent(&self) -> Option<u32> {
        match self.modern_data {
            Some(modern) => modern.parent,
            None => None,
        }
    }

    /// The index of this entry's parent code entry, if it has one.
    pub fn parent(&self) -> (r: Option<u32>)
        ensures
            r == self.spec_parent(),
    {
        match &self.modern_data {
            Some(modern) => modern.parent,
            None => None,
        }
    }

    /// Whether this entry has no parent code entry.
    pub fn is_root(&self) -> (r: bool)
        ensures
            r == (self.spec_parent() is None),
    {
        self.parent().is_none()
    }
}

/// The source graph root: per-file metadata and the indexed tables of
/// assets, code entries, functions and variables.
#[derive(Clone, Debug)]
pub struct GameData {
    pub general_info: GeneralInfo,
    pub codes: Vec<CodeEntry>,
    pub functions: Vec<FunctionEntry>,
    pub variables: Vec<VariableEntry>,
    pub game_objects: Vec<String>,
    pub sprites: Vec<String>,
    pub sounds: Vec<String>,
    pub rooms: Vec<String>,
    pub backgrounds: Vec<String>,
    pub paths: Vec<String>,
    pub scripts: Vec<String>,
    pub fonts: Vec<String>,
    pub timelines: Vec<String>,
    pub shaders: Vec<String>,
    pub sequences: Vec<String>,
    pub animation_curves: Vec<String>,
    pub particle_systems: Vec<String>,
}

} // verus!
