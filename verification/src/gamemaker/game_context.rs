//! The game-context snapshot: an immutable, fixed-layout digest of the
//! source graph that is built once and then shared, read-only, across
//! decompile calls. It holds the decoded version quadruple, the format
//! revision, the release-branch tag, two feature flags derived by scanning
//! the whole instruction corpus, and one borrowed-name array per asset
//! category.

use vstd::prelude::*;

use crate::error::Error;
use crate::gamedata::GameData;
use crate::gamedata::LtsBranch;
use crate::primitives::RawArray;
use crate::primitives::RustStr;

verus! {

/// The release-branch tag in its one-byte boundary encoding.
#[derive(Clone, Copy, PartialEq, Eq, Structural, Debug)]
pub enum RawBranch {
    Pre2022,
    Lts2022,
    Post2022,
}

impl RawBranch {
    /// The byte value this tag crosses the boundary as.
    pub open spec fn spec_code(self) -> u8 {
        match self {
            RawBranch::Pre2022 => 1,
            RawBranch::Lts2022 => 2,
            RawBranch::Post2022 => 3,
        }
    }

    /// The byte value this tag crosses the boundary as.
    pub fn code(self) -> (r: u8)
        ensures
            r == self.spec_code(),
    {
        match self {
            RawBranch::Pre2022 => 1,
            RawBranch::Lts2022 => 2,
            RawBranch::Post2022 => 3,
        }
    }
}

/// The boundary tag corresponding to a source branch value.
pub open spec fn spec_branch(branch: LtsBranch) -> RawBranch {
    match branch {
        LtsBranch::PreLts => RawBranch::Pre2022,
        LtsBranch::Lts => RawBranch::Lts2022,
        LtsBranch::PostLts => RawBranch::Post2022,
    }
}

/// Whether some instruction anywhere in the code corpus is a logical
/// and/or over two boolean operands.
pub open spec fn spec_has_bool_and_or(data: GameData) -> bool {
    exists|ci: int, ii: int|
        0 <= ci < data.codes@.len() && 0 <= ii < data.codes@[ci].instructions@.len()
            && (#[trigger] data.codes@[ci].instructions@[ii]).spec_is_bool_and_or()
}

/// Whether some instruction anywhere in the code corpus is the
/// ownership-marking instruction.
pub open spec fn spec_has_set_array_owner(data: GameData) -> bool {
    exists|ci: int, ii: int|
        0 <= ci < data.codes@.len() && 0 <= ii < data.codes@[ci].instructions@.len()
            && (#[trigger] data.codes@[ci].instructions@[ii]).spec_is_set_array_owner()
}

/// Whether a borrowed-name array mirrors a source name table exactly,
/// element for element, in order.
pub open spec fn names_match(snapshot: Seq<RustStr>, names: Seq<String>) -> bool {
    &&& snapshot.len() == names.len()
    &&& forall|k: int| 0 <= k < names.len() ==> (#[trigger] snapshot[k])@ == names[k]@
}

/// The game-context snapshot handed across the boundary.
pub struct GameContext<'a> {
    pub ver_major: u32,
    pub ver_minor: u32,
    pub ver_release: u32,
    pub ver_build: u32,
    pub wad_version: u8,
    pub lts_branch: RawBranch,
    pub short_curcuit: bool,
    pub array_cow: bool,
    pub asset_object_names: RawArray<RustStr<'a>>,
    pub asset_sprite_names: RawArray<RustStr<'a>>,
    pub asset_sound_names: RawArray<RustStr<'a>>,
    pub asset_room_names: RawArray<RustStr<'a>>,
    pub asset_background_names: RawArray<RustStr<'a>>,
    pub asset_path_names: RawArray<RustStr<'a>>,
    pub asset_script_names: RawArray<RustStr<'a>>,
    pub asset_font_names: RawArray<RustStr<'a>>,
    pub asset_timeline_names: RawArray<RustStr<'a>>,
    pub asset_shader_names: RawArray<RustStr<'a>>,
    pub asset_sequence_names: RawArray<RustStr<'a>>,
    pub asset_animcurve_names: RawArray<RustStr<'a>>,
    pub asset_particlesystem_names: RawArray<RustStr<'a>>,
}

/// Whether a game-context snapshot is exactly the digest of the source
/// data: decoded version fields, mapped branch tag, the two derived
/// feature flags, and every asset-name table mirrored in order.
pub open spec fn context_snapshot_ok(ctx: GameContext, data: GameData) -> bool {
    &&& ctx.ver_major == data.general_info.version.major
    &&& ctx.ver_minor == data.general_info.version.minor
    &&& ctx.ver_release == data.general_info.version.release
    &&& ctx.ver_build == data.general_info.version.build
    &&& ctx.wad_version == data.general_info.wad_version
    &&& ctx.lts_branch == spec_branch(data.general_info.version.branch)
    &&& ctx.short_curcuit == !spec_has_bool_and_or(data)
    &&& ctx.array_cow == spec_has_set_array_owner(data)
    &&& names_match(ctx.asset_object_names@, data.game_objects@)
    &&& names_match(ctx.asset_sprite_names@, data.sprites@)
    &&& names_match(ctx.asset_sound_names@, data.sounds@)
    &&& names_match(ctx.asset_room_names@, data.rooms@)
    &&& names_match(ctx.asset_background_names@, data.backgrounds@)
    &&& names_match(ctx.asset_path_names@, data.paths@)
    &&& names_match(ctx.asset_script_names@, data.scripts@)
    &&& names_match(ctx.asset_font_names@, data.fonts@)
    &&& names_match(ctx.asset_timeline_names@, data.timelines@)
    &&& names_match(ctx.asset_shader_names@, data.shaders@)
    &&& names_match(ctx.asset_sequence_names@, data.sequences@)
    &&& names_match(ctx.asset_animcurve_names@, data.animation_curves@)
    &&& names_match(ctx.asset_particlesystem_names@, data.particle_systems@)
}

impl<'a> GameContext<'a> {
    /// Digests the source data into a game-context snapshot. This walks
    /// the whole instruction corpus to derive the two feature flags, so it
    /// should be built once and reused across decompile calls.
    pub(crate) fn try_from_libgm(data: &'a GameData) -> (r: Result<Self, Error>)
        ensures
            r is Ok,
            context_snapshot_ok(r.unwrap(), *data),
    {
        let branch = match data.general_info.version.branch {
            LtsBranch::PreLts => RawBranch::Pre2022,
            LtsBranch::Lts => RawBranch::Lts2022,
            LtsBranch::PostLts => RawBranch::Post2022,
        };
        Ok(
            GameContext {
                ver_major: data.general_info.version.major,
                ver_minor: data.general_info.version.minor,
                ver_release: data.general_info.version.release,
                ver_build: data.general_info.version.build,
                wad_version: data.general_info.wad_version,
                lts_branch: branch,
                short_curcuit: find_short_curcuit(data),
                array_cow: find_array_cow(data),
                asset_object_names: get_asset_names(&data.game_objects),
                asset_sprite_names: get_asset_names(&data.sprites),
                asset_sound_names: get_asset_names(&data.sounds),
                asset_room_names: get_asset_names(&data.rooms),
                asset_background_names: get_asset_names(&data.backgrounds),
                asset_path_names: get_asset_names(&data.paths),
                asset_script_names: get_asset_names(&data.scripts),
                asset_font_names: get_asset_names(&data.fonts),
                asset_timeline_names: get_asset_names(&data.timelines),
                asset_shader_names: get_asset_names(&data.shaders),
                asset_sequence_names: get_asset_names(&data.sequences),
                asset_animcurve_names: get_asset_names(&data.animation_curves),
                asset_particlesystem_names: get_asset_names(&data.particle_systems),
            },
        )
    }
}

/// Scans every instruction of every code entry for a logical and/or over
/// two boolean operands. Such an instruction shows the compiler did not
/// short-circuit, so the flag is true exactly when none is present.
fn find_short_curcuit(data: &GameData) -> (r: bool)
    ensures
        r == !spec_has_bool_and_or(*data),
{
    let mut ci: usize = 0;
    while ci < data.codes.len()
        invariant
            ci <= data.codes@.len(),
            forall|c: int, k: int|
                0 <= c < ci as int && 0 <= k < data.codes@[c].instructions@.len() ==> !(
                #[trigger] data.codes@[c].instructions@[k]).spec_is_bool_and_or(),
        decreases data.codes@.len() - ci,
    {
        let code = &data.codes[ci];
        let mut ii: usize = 0;
        while ii < code.instructions.len()
            invariant
                0 <= ci < data.codes@.len(),
                ii <= code.instructions@.len(),
                code == data.codes@[ci as int],
                forall|k: int|
                    0 <= k < ii as int ==> !(
                    #[trigger] code.instructions@[k]).spec_is_bool_and_or(),
            decreases code.instructions@.len() - ii,
        {
            if is_bool_and_or(&code.instructions[ii]) {
                return false;
            }
            ii += 1;
        }
        ci += 1;
    }
    true
}

/// Scans every instruction of every code entry for the ownership-marking
/// instruction; its presence means array copy-on-write semantics are
/// active.
fn find_array_cow(data: &GameData) -> (r: bool)
    ensures
        r == spec_has_set_array_owner(*data),
{
    let mut ci: usize = 0;
    while ci < data.codes.len()
        invariant
            ci <= data.codes@.len(),
            forall|c: int, k: int|
                0 <= c < ci as int && 0 <= k < data.codes@[c].instructions@.len() ==> !(
                #[trigger] data.codes@[c].instructions@[k]).spec_is_set_array_owner(),
        decreases data.codes@.len() - ci,
    {
        let code = &data.codes[ci];
        let mut ii: usize = 0;
        while ii < code.instructions.len()
            invariant
                0 <= ci < data.codes@.len(),
                ii <= code.instructions@.len(),
                code == data.codes@[ci as int],
                forall|k: int|
                    0 <= k < ii as int ==> !(
                    #[trigger] code.instructions@[k]).spec_is_set_array_owner(),
            decreases code.instructions@.len() - ii,
        {
            match &code.instructions[ii] {
                crate::gamedata::GmInstruction::SetArrayOwner => {
                    return true;
                },
                _ => {},
            }
            ii += 1;
        }
        ci += 1;
    }
    false
}

/// Whether one instruction is a logical and/or over two boolean operands.
fn is_bool_and_or(instr: &crate::gamedata::GmInstruction) -> (r: bool)
    ensures
        r == instr.spec_is_bool_and_or(),
{
    match instr {
        crate::gamedata::GmInstruction::And {
            lhs: crate::gamedata::DataType::Bool,
            rhs: crate::gamedata::DataType::Bool,
        } => true,
        crate::gamedata::GmInstruction::Or {
            lhs: crate::gamedata::DataType::Bool,
            rhs: crate::gamedata::DataType::Bool,
        } => true,
        _ => false,
    }
}

/// Mirrors a source name table into an array of borrowed string views.
fn get_asset_names<'a>(names: &'a Vec<String>) -> (r: RawArray<RustStr<'a>>)
    ensures
        names_match(r@, names@),
{
    let mut vector: Vec<RustStr<'a>> = Vec::new();
    let mut k: usize = 0;
    while k < names.len()
        invariant
            k <= names@.len(),
            vector@.len() == k,
            forall|j: int| 0 <= j < k as int ==> (#[trigger] vector@[j])@ == names@[j]@,
        decreases names@.len() - k,
    {
        vector.push(RustStr::from_str(names[k].as_str()));
        k += 1;
    }
    RawArray::from_vec(vector)
}

} // verus!
