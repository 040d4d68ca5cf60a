use underanalyzer::gamedata::CodeEntry;
use underanalyzer::gamedata::CodeModernData;
use underanalyzer::gamedata::CodeVariable;
use underanalyzer::gamedata::ComparisonType;
use underanalyzer::gamedata::DataType;
use underanalyzer::gamedata::FunctionEntry;
use underanalyzer::gamedata::GameData;
use underanalyzer::gamedata::GeneralInfo;
use underanalyzer::gamedata::GmInstruction;
use underanalyzer::gamedata::GmVersion;
use underanalyzer::gamedata::LtsBranch;
use underanalyzer::gamedata::PushValue;
use underanalyzer::gamedata::VariableEntry;
use underanalyzer::gamedata::VariableModernData;
use underanalyzer::gamedata::VariableType;
use underanalyzer::gamemaker::Code;
use underanalyzer::gamemaker::Function;
use underanalyzer::gamemaker::Instruction;
use underanalyzer::gamemaker::Variable;

fn empty_data(wad_version: u8) -> GameData {
    GameData {
        general_info: GeneralInfo {
            game_name: "testgame".to_owned(),
            version: GmVersion { major: 2, minor: 3, release: 0, build: 0, branch: LtsBranch::PostLts },
            wad_version,
        },
        codes: Vec::new(),
        functions: Vec::new(),
        variables: Vec::new(),
        game_objects: Vec::new(),
        sprites: Vec::new(),
        sounds: Vec::new(),
        rooms: Vec::new(),
        backgrounds: Vec::new(),
        paths: Vec::new(),
        scripts: Vec::new(),
        fonts: Vec::new(),
        timelines: Vec::new(),
        shaders: Vec::new(),
        sequences: Vec::new(),
        animation_curves: Vec::new(),
        particle_systems: Vec::new(),
    }
}

fn entry(name: &str, instructions: Vec<GmInstruction>, parent: Option<u32>) -> CodeEntry {
    CodeEntry {
        name: name.to_owned(),
        instructions,
        modern_data: Some(CodeModernData {
            offset: 0,
            arguments_count: 0,
            locals_count: 0,
            parent,
        }),
    }
}

#[test]
fn function_snapshot_name_matches_source() {
    let source = FunctionEntry { name: "scr_step".to_owned() };
    let snapshot = Function::from_libgm(&source);
    assert_eq!(snapshot.name.as_str(), "scr_step");
}

#[test]
fn variable_snapshot_with_modern_data() {
    let source = VariableEntry {
        name: "hp".to_owned(),
        modern_data: Some(VariableModernData { variable_id: 42, instance_type: -5 }),
    };
    let snapshot = Variable::from_libgm(&source);
    assert_eq!(snapshot.name.as_str(), "hp");
    assert_eq!(snapshot.variable_id, 42);
    assert_eq!(snapshot.instance_type, -5);
}

#[test]
fn variable_snapshot_defaults_to_zero_without_modern_data() {
    let source = VariableEntry { name: "hp".to_owned(), modern_data: None };
    let snapshot = Variable::from_libgm(&source);
    assert_eq!(snapshot.name.as_str(), "hp");
    assert_eq!(snapshot.variable_id, 0);
    assert_eq!(snapshot.instance_type, 0);
}

#[test]
fn push_double_populates_only_the_double_slot() {
    let data = empty_data(15);
    let instr = GmInstruction::Push { value: PushValue::Double(3.14f64.to_bits()) };
    let snapshot = Instruction::try_from_libgm(&instr, &data).unwrap();
    assert_eq!(f64::from_bits(snapshot.value_double_bits), 3.14);
    assert_eq!(snapshot.value_string.as_str(), "");
    assert_eq!(snapshot.value_long, 0);
    assert_eq!(snapshot.value_int, 0);
    assert_eq!(snapshot.value_short, 0);
    assert_eq!(snapshot.branch_offset, 0);
    assert_eq!(snapshot.argument_count, 0);
    assert_eq!(snapshot.asset_reference, 0);
    assert_eq!(snapshot.opcode, 0xC0);
    assert_eq!(snapshot.type1, 0, "a pushed double has data type code zero");
    assert_eq!(snapshot.variable.name.as_str(), "");
    assert_eq!(snapshot.variable.variable_id, 0);
    assert_eq!(snapshot.function.name.as_str(), "");
}

#[test]
fn push_operand_slots() {
    let data = empty_data(15);

    let push_str = GmInstruction::Push { value: PushValue::Str("hi".to_owned()) };
    let s = Instruction::try_from_libgm(&push_str, &data).unwrap();
    assert_eq!(s.value_string.as_str(), "hi");
    assert_eq!(s.type1, 6);

    let s = Instruction::try_from_libgm(
        &GmInstruction::Push { value: PushValue::Int64(-7) },
        &data,
    )
    .unwrap();
    assert_eq!(s.value_long, -7);
    assert_eq!(s.type1, 3);

    let s = Instruction::try_from_libgm(
        &GmInstruction::Push { value: PushValue::Int32(1234) },
        &data,
    )
    .unwrap();
    assert_eq!(s.value_int, 1234);
    assert_eq!(s.type1, 2);

    let s = Instruction::try_from_libgm(
        &GmInstruction::Push { value: PushValue::Int16(-2) },
        &data,
    )
    .unwrap();
    assert_eq!(s.value_short, -2);
    assert_eq!(s.type1, 15);

    let s = Instruction::try_from_libgm(&GmInstruction::PushImmediate { integer: 9 }, &data)
        .unwrap();
    assert_eq!(s.value_short, 9);
    assert_eq!(s.opcode, 0x84);
}

#[test]
fn branch_offsets_are_scaled_by_four() {
    let data = empty_data(15);
    let cases: Vec<(GmInstruction, i32, u8)> = vec![
        (GmInstruction::Branch { jump_offset: 5 }, 20, 0xB6),
        (GmInstruction::BranchIf { jump_offset: -3 }, -12, 0xB7),
        (GmInstruction::BranchUnless { jump_offset: 0 }, 0, 0xB8),
        (GmInstruction::PushWithContext { jump_offset: 1 }, 4, 0xBA),
        (GmInstruction::PopWithContext { jump_offset: 250 }, 1000, 0xBB),
    ];
    for (instr, expected, opcode) in cases {
        let snapshot = Instruction::try_from_libgm(&instr, &data).unwrap();
        assert_eq!(snapshot.branch_offset, expected);
        assert_eq!(snapshot.opcode, opcode);
    }
}

#[test]
fn call_and_compare_and_stack_shapes() {
    let mut data = empty_data(15);
    data.functions.push(FunctionEntry { name: "scr_fire".to_owned() });

    let s = Instruction::try_from_libgm(
        &GmInstruction::Call { function: 0, arg_count: 2 },
        &data,
    )
    .unwrap();
    assert_eq!(s.argument_count, 2);
    assert_eq!(s.function.name.as_str(), "scr_fire");
    assert_eq!(s.opcode, 0xD9);

    let s = Instruction::try_from_libgm(&GmInstruction::CallVariable { arg_count: 3 }, &data)
        .unwrap();
    assert_eq!(s.argument_count, 3);
    assert_eq!(s.opcode, 0x99);

    let s = Instruction::try_from_libgm(
        &GmInstruction::Compare {
            lhs: DataType::Variable,
            rhs: DataType::Int32,
            comparison_type: ComparisonType::Equal,
        },
        &data,
    )
    .unwrap();
    assert_eq!(s.comparison_kind, 3);
    assert_eq!(s.opcode, 0x15);
    assert_eq!(s.type1, 2, "type one is the right-hand side");
    assert_eq!(s.type2, 5, "type two is the left-hand side");

    let s = Instruction::try_from_libgm(
        &GmInstruction::Duplicate { data_type: DataType::Int64, size: 4 },
        &data,
    )
    .unwrap();
    assert_eq!(s.duplication_size, 4);
    assert_eq!(s.duplication_size2, 0);
    assert_eq!(s.opcode, 0x86);

    let s = Instruction::try_from_libgm(
        &GmInstruction::DuplicateSwap { data_type: DataType::Variable, size1: 1, size2: 2 },
        &data,
    )
    .unwrap();
    assert_eq!(s.duplication_size, 1);
    assert_eq!(s.duplication_size2, 2);

    let s = Instruction::try_from_libgm(&GmInstruction::PopSwap { is_array: false }, &data)
        .unwrap();
    assert_eq!(s.pop_swap_size, 5);
    let s = Instruction::try_from_libgm(&GmInstruction::PopSwap { is_array: true }, &data)
        .unwrap();
    assert_eq!(s.pop_swap_size, 6);

    let s = Instruction::try_from_libgm(&GmInstruction::PopWithContextExit, &data).unwrap();
    assert_eq!(s.pop_with_context_exit, 1);
    assert_eq!(s.opcode, 0xBB);

    let s = Instruction::try_from_libgm(&GmInstruction::SetArrayOwner, &data).unwrap();
    assert_eq!(s.extended_kind, -5);
    assert_eq!(s.opcode, 0xFF);

    let s = Instruction::try_from_libgm(
        &GmInstruction::PushReference { asset_reference: 0x0500_0001, function: None },
        &data,
    )
    .unwrap();
    assert_eq!(s.asset_reference, 0x0500_0001);
    assert_eq!(s.extended_kind, -11);
}

#[test]
fn variable_references_resolve_through_the_table() {
    let mut data = empty_data(15);
    data.variables.push(VariableEntry {
        name: "score".to_owned(),
        modern_data: Some(VariableModernData { variable_id: 7, instance_type: -1 }),
    });
    let code_var = CodeVariable {
        variable: 0,
        variable_type: VariableType::Normal,
        instance_type: -5,
        is_int32: false,
    };
    let pop = GmInstruction::Pop {
        variable: code_var,
        type1: DataType::Int32,
        type2: DataType::Variable,
    };
    let s = Instruction::try_from_libgm(&pop, &data).unwrap();
    assert_eq!(s.variable.name.as_str(), "score");
    assert_eq!(s.variable.variable_id, 7);
    assert_eq!(s.variable.instance_type, -1, "the embedded snapshot uses the table's tag");
    assert_eq!(s.instance_type, -5, "the flat slot uses the reference's own tag");
    assert_eq!(s.variable_type, 0xA0);
    assert_eq!(s.opcode, 0x45);
}

#[test]
fn dangling_variable_reference_is_reported() {
    let data = empty_data(15);
    let code_var = CodeVariable {
        variable: 5,
        variable_type: VariableType::Array,
        instance_type: -1,
        is_int32: false,
    };
    let err = Instruction::try_from_libgm(
        &GmInstruction::PushLocal { variable: code_var },
        &data,
    )
    .unwrap_err();
    assert_eq!(err.message().as_str(), "could not resolve variable reference #5");
}

#[test]
fn dangling_function_reference_is_reported() {
    let data = empty_data(15);
    let err = Instruction::try_from_libgm(
        &GmInstruction::Call { function: 12, arg_count: 0 },
        &data,
    )
    .unwrap_err();
    assert_eq!(err.message().as_str(), "could not resolve function reference #12");
}

#[test]
fn code_snapshot_name_and_totals() {
    let mut data = empty_data(15);
    data.codes.push(CodeEntry {
        name: "gml_Script_test".to_owned(),
        instructions: vec![
            GmInstruction::Push { value: PushValue::Double(1.5f64.to_bits()) },
            GmInstruction::PushImmediate { integer: 3 },
            GmInstruction::Exit,
        ],
        modern_data: Some(CodeModernData {
            offset: 24,
            arguments_count: 2,
            locals_count: 5,
            parent: None,
        }),
    });
    let snapshot = Code::try_from_libgm(0, &data).unwrap();
    assert_eq!(snapshot.name.as_str(), "gml_Script_test");
    assert_eq!(snapshot.instructions.len(), 3);
    // push.d is twelve bytes, pushim four, exit four.
    assert_eq!(snapshot.length, 20);
    assert_eq!(snapshot.start_offset, 24);
    assert_eq!(snapshot.argument_count, 2);
    assert_eq!(snapshot.local_count, 5);
    assert_eq!(snapshot.children.len(), 0);
}

#[test]
fn code_snapshot_defaults_without_modern_data() {
    let mut data = empty_data(14);
    data.codes.push(CodeEntry {
        name: "legacy".to_owned(),
        instructions: Vec::new(),
        modern_data: None,
    });
    let snapshot = Code::try_from_libgm(0, &data).unwrap();
    assert_eq!(snapshot.start_offset, 0);
    assert_eq!(snapshot.argument_count, 0);
    assert_eq!(snapshot.local_count, 0);
    assert_eq!(snapshot.length, 0);
}

#[test]
fn children_follow_parent_references_in_table_order() {
    let mut data = empty_data(15);
    data.codes.push(entry("root", Vec::new(), None));
    data.codes.push(entry("child_a", Vec::new(), Some(0)));
    data.codes.push(entry("stranger", Vec::new(), None));
    data.codes.push(entry("child_b", Vec::new(), Some(0)));
    let snapshot = Code::try_from_libgm(0, &data).unwrap();
    assert_eq!(snapshot.children.len(), 2);
    assert_eq!(snapshot.children[0].name.as_str(), "child_a");
    assert_eq!(snapshot.children[1].name.as_str(), "child_b");
}

#[test]
fn grandchildren_are_built_recursively() {
    let mut data = empty_data(15);
    data.codes.push(entry("root", Vec::new(), None));
    data.codes.push(entry("child", Vec::new(), Some(0)));
    data.codes.push(entry("grandchild", Vec::new(), Some(1)));
    let snapshot = Code::try_from_libgm(0, &data).unwrap();
    assert_eq!(snapshot.children.len(), 1);
    assert_eq!(snapshot.children[0].children.len(), 1);
    assert_eq!(snapshot.children[0].children[0].name.as_str(), "grandchild");
}

#[test]
fn no_children_before_the_supporting_revision() {
    let mut data = empty_data(14);
    data.codes.push(entry("root", Vec::new(), None));
    data.codes.push(entry("would_be_child", Vec::new(), Some(0)));
    let snapshot = Code::try_from_libgm(0, &data).unwrap();
    assert_eq!(
        snapshot.children.len(),
        0,
        "below the child-supporting revision the children array stays empty",
    );
}

#[test]
fn dangling_code_reference_is_reported() {
    let data = empty_data(15);
    let err = Code::try_from_libgm(99, &data).unwrap_err();
    assert_eq!(err.message().as_str(), "could not resolve code entry reference #99");
}

#[test]
fn dangling_reference_inside_a_child_fails_the_parent_build() {
    let mut data = empty_data(15);
    data.codes.push(entry("root", Vec::new(), None));
    data.codes.push(entry(
        "child",
        vec![GmInstruction::Call { function: 3, arg_count: 0 }],
        Some(0),
    ));
    let err = Code::try_from_libgm(0, &data).unwrap_err();
    assert_eq!(err.message().as_str(), "could not resolve function reference #3");
}
