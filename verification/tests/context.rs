use underanalyzer::gamedata::CodeEntry;
use underanalyzer::gamedata::DataType;
use underanalyzer::gamedata::GameData;
use underanalyzer::gamedata::GeneralInfo;
use underanalyzer::gamedata::GmInstruction;
use underanalyzer::gamedata::GmVersion;
use underanalyzer::gamedata::LtsBranch;
use underanalyzer::gamemaker::game_context::RawBranch;
use underanalyzer::GameContext;

fn data_with(branch: LtsBranch, codes: Vec<CodeEntry>) -> GameData {
    GameData {
        general_info: GeneralInfo {
            game_name: "testgame".to_owned(),
            version: GmVersion { major: 2023, minor: 8, release: 1, build: 4, branch },
            wad_version: 17,
        },
        codes,
        functions: Vec::new(),
        variables: Vec::new(),
        game_objects: vec!["obj_player".to_owned(), "obj_wall".to_owned()],
        sprites: vec!["spr_player".to_owned()],
        sounds: vec!["snd_jump".to_owned()],
        rooms: vec!["rm_start".to_owned()],
        backgrounds: vec!["bg_sky".to_owned()],
        paths: vec!["pth_patrol".to_owned()],
        scripts: vec!["scr_util".to_owned()],
        fonts: vec!["fnt_main".to_owned()],
        timelines: vec!["tl_intro".to_owned()],
        shaders: vec!["sh_blur".to_owned()],
        sequences: vec!["seq_cut".to_owned()],
        animation_curves: vec!["ac_ease".to_owned()],
        particle_systems: vec!["ps_rain".to_owned()],
    }
}

fn plain_code(instructions: Vec<GmInstruction>) -> CodeEntry {
    CodeEntry { name: "gml_Object_test".to_owned(), instructions, modern_data: None }
}

#[test]
fn version_fields_are_copied() {
    let data = data_with(LtsBranch::PostLts, Vec::new());
    let ctx = GameContext::new(&data).unwrap();
    assert_eq!(ctx.ver_major, 2023);
    assert_eq!(ctx.ver_minor, 8);
    assert_eq!(ctx.ver_release, 1);
    assert_eq!(ctx.ver_build, 4);
    assert_eq!(ctx.wad_version, 17);
}

#[test]
fn branch_tags_map_one_to_one() {
    let data = data_with(LtsBranch::PreLts, Vec::new());
    let ctx = GameContext::new(&data).unwrap();
    assert_eq!(ctx.lts_branch, RawBranch::Pre2022);
    assert_eq!(ctx.lts_branch.code(), 1);
    let data = data_with(LtsBranch::Lts, Vec::new());
    let ctx = GameContext::new(&data).unwrap();
    assert_eq!(ctx.lts_branch, RawBranch::Lts2022);
    assert_eq!(ctx.lts_branch.code(), 2);
    let data = data_with(LtsBranch::PostLts, Vec::new());
    let ctx = GameContext::new(&data).unwrap();
    assert_eq!(ctx.lts_branch, RawBranch::Post2022);
    assert_eq!(ctx.lts_branch.code(), 3);
}

#[test]
fn bool_and_disproves_short_circuiting() {
    let codes = vec![plain_code(vec![
        GmInstruction::Exit,
        GmInstruction::And { lhs: DataType::Bool, rhs: DataType::Bool },
    ])];
    let data = data_with(LtsBranch::PostLts, codes);
    let ctx = GameContext::new(&data).unwrap();
    assert!(!ctx.short_curcuit);
}

#[test]
fn bool_or_disproves_short_circuiting() {
    let codes = vec![
        plain_code(Vec::new()),
        plain_code(vec![GmInstruction::Or { lhs: DataType::Bool, rhs: DataType::Bool }]),
    ];
    let data = data_with(LtsBranch::PostLts, codes);
    let ctx = GameContext::new(&data).unwrap();
    assert!(!ctx.short_curcuit);
}

#[test]
fn clean_corpus_keeps_short_circuiting() {
    let codes = vec![plain_code(vec![
        GmInstruction::And { lhs: DataType::Int32, rhs: DataType::Bool },
        GmInstruction::Or { lhs: DataType::Bool, rhs: DataType::Int64 },
        GmInstruction::Exit,
    ])];
    let data = data_with(LtsBranch::PostLts, codes);
    let ctx = GameContext::new(&data).unwrap();
    assert!(ctx.short_curcuit);
}

#[test]
fn set_array_owner_enables_copy_on_write() {
    let codes = vec![plain_code(vec![GmInstruction::SetArrayOwner])];
    let data = data_with(LtsBranch::PostLts, codes);
    let ctx = GameContext::new(&data).unwrap();
    assert!(ctx.array_cow);
}

#[test]
fn copy_on_write_defaults_to_false() {
    let codes = vec![plain_code(vec![GmInstruction::Exit])];
    let data = data_with(LtsBranch::PostLts, codes);
    let ctx = GameContext::new(&data).unwrap();
    assert!(!ctx.array_cow);
}

#[test]
fn asset_name_tables_are_mirrored() {
    let data = data_with(LtsBranch::PostLts, Vec::new());
    let ctx = GameContext::new(&data).unwrap();
    assert_eq!(ctx.asset_object_names.len(), 2);
    assert_eq!(ctx.asset_object_names.get(0).as_str(), "obj_player");
    assert_eq!(ctx.asset_object_names.get(1).as_str(), "obj_wall");
    assert_eq!(ctx.asset_sprite_names.get(0).as_str(), "spr_player");
    assert_eq!(ctx.asset_sound_names.get(0).as_str(), "snd_jump");
    assert_eq!(ctx.asset_room_names.get(0).as_str(), "rm_start");
    assert_eq!(ctx.asset_background_names.get(0).as_str(), "bg_sky");
    assert_eq!(ctx.asset_path_names.get(0).as_str(), "pth_patrol");
    assert_eq!(ctx.asset_script_names.get(0).as_str(), "scr_util");
    assert_eq!(ctx.asset_font_names.get(0).as_str(), "fnt_main");
    assert_eq!(ctx.asset_timeline_names.get(0).as_str(), "tl_intro");
    assert_eq!(ctx.asset_shader_names.get(0).as_str(), "sh_blur");
    assert_eq!(ctx.asset_sequence_names.get(0).as_str(), "seq_cut");
    assert_eq!(ctx.asset_animcurve_names.get(0).as_str(), "ac_ease");
    assert_eq!(ctx.asset_particlesystem_names.get(0).as_str(), "ps_rain");
}
