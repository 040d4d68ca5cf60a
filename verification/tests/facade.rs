use underanalyzer::dynlib::ReturnValue;
use underanalyzer::gamedata::CodeEntry;
use underanalyzer::gamedata::CodeModernData;
use underanalyzer::gamedata::GameData;
use underanalyzer::gamedata::GeneralInfo;
use underanalyzer::gamedata::GmInstruction;
use underanalyzer::gamedata::GmVersion;
use underanalyzer::gamedata::LtsBranch;
use underanalyzer::gamedata::PushValue;
use underanalyzer::primitives::CsString;
use underanalyzer::GameContext;

fn ret(error: u8, bytes: &[u8]) -> ReturnValue {
    ReturnValue { string: CsString::from_raw_parts(0xBEEF, bytes.to_vec()), error }
}

fn small_data() -> GameData {
    GameData {
        general_info: GeneralInfo {
            game_name: "testgame".to_owned(),
            version: GmVersion { major: 2, minor: 0, release: 0, build: 0, branch: LtsBranch::PreLts },
            wad_version: 15,
        },
        codes: vec![CodeEntry {
            name: "gml_Script_test".to_owned(),
            instructions: vec![GmInstruction::Push { value: PushValue::Double(3.14f64.to_bits()) }],
            modern_data: Some(CodeModernData {
                offset: 0,
                arguments_count: 0,
                locals_count: 0,
                parent: None,
            }),
        }],
        functions: Vec::new(),
        variables: Vec::new(),
        game_objects: Vec::new(),
        sprites: Vec::new(),
        sounds: Vec::new(),
        rooms: Vec::new(),
        backgrounds: Vec::new(),
        paths: Vec::new(),
        scripts: Vec::new(),
        fonts: Vec::new(),
        timelines: Vec::new(),
        shaders: Vec::new(),
        sequences: Vec::new(),
        animation_curves: Vec::new(),
        particle_systems: Vec::new(),
    }
}

#[test]
fn success_copies_the_returned_string_and_releases() {
    let (result, addr) = GameContext::decompile_result(ret(0, b"var x = 3;"));
    assert_eq!(result.unwrap(), "var x = 3;");
    assert_eq!(addr, 0xBEEF, "the handle's address must come back for release");
}

#[test]
fn error_code_one_is_the_message_itself() {
    let (result, addr) = GameContext::decompile_result(ret(1, b"stack underflow"));
    let err = result.unwrap_err();
    assert_eq!(err.message().as_str(), "stack underflow");
    assert_eq!(err.contexts(), &vec!["decompiling code entry using Underanalyzer".to_owned()]);
    assert_eq!(addr, 0xBEEF);
}

#[test]
fn other_error_codes_report_code_and_detail() {
    let (result, addr) = GameContext::decompile_result(ret(7, b"x"));
    let err = result.unwrap_err();
    assert_eq!(err.message().as_str(), "Decompilation failed with error code 7: x");
    assert!(err.message().contains('7'));
    assert!(err.message().contains('x'));
    assert_eq!(addr, 0xBEEF);
}

#[test]
fn error_code_two_hundred_fifty_five_renders_in_decimal() {
    let (result, _) = GameContext::decompile_result(ret(255, b"detail"));
    let err = result.unwrap_err();
    assert_eq!(err.message().as_str(), "Decompilation failed with error code 255: detail");
}

#[test]
fn invalid_utf8_is_a_transport_error_and_still_releases() {
    let (result, addr) = GameContext::decompile_result(ret(0, &[0xC3, 0x28]));
    let err = result.unwrap_err();
    assert_eq!(err.message().as_str(), "returned bytes are not valid UTF-8");
    assert_eq!(
        err.contexts(),
        &vec![
            "validating UTF-8".to_owned(),
            "constructing string from return value of Underanalyzer DecompileToString".to_owned(),
        ],
    );
    assert_eq!(addr, 0xBEEF, "the handle is released on the error path too");
}

#[test]
fn empty_success_string() {
    let (result, addr) = GameContext::decompile_result(ret(0, b""));
    assert_eq!(result.unwrap(), "");
    assert_eq!(addr, 0xBEEF);
}

#[test]
fn request_builds_the_snapshot_for_a_valid_entry() {
    let data = small_data();
    let ctx = GameContext::new(&data).unwrap();
    let code = ctx.decompile_request(0, &data).unwrap();
    assert_eq!(code.name.as_str(), "gml_Script_test");
    assert_eq!(code.instructions.len(), 1);
    assert_eq!(f64::from_bits(code.instructions.get(0).value_double_bits), 3.14);
    assert_eq!(code.instructions.get(0).value_string.as_str(), "");
    assert_eq!(code.instructions.get(0).value_int, 0);
    assert_eq!(code.instructions.get(0).value_long, 0);
    assert_eq!(code.instructions.get(0).value_short, 0);
}

#[test]
fn request_failure_names_the_entry() {
    let data = small_data();
    let ctx = GameContext::new(&data).unwrap();
    let err = ctx.decompile_request(7, &data).unwrap_err();
    assert_eq!(err.message().as_str(), "could not resolve code entry reference #7");
    assert_eq!(
        err.contexts().last().unwrap().as_str(),
        "converting LibGM code entry #7 into FFI struct",
    );
}
