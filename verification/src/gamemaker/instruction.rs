//! The fixed-layout snapshot of one instruction: a single struct with a
//! slot for every possible operand across all opcode shapes. Only the
//! slots relevant to the actual shape are populated; every other slot
//! holds its documented zero/empty default.

use vstd::prelude::*;

use crate::error::Error;
use crate::gamedata::GameData;
use crate::gamedata::GmInstruction;
use crate::gamedata::PushValue;
use crate::gamemaker::function::fn_snapshot_matches;
use crate::gamemaker::function::fn_snapshot_null;
use crate::gamemaker::function::Function;
use crate::gamemaker::variable::var_snapshot_matches;
use crate::gamemaker::variable::var_snapshot_null;
use crate::gamemaker::variable::Variable;
use crate::primitives::RustStr;
use crate::text::decimal_string;
use crate::text::spec_decimal;

verus! {

/// The flat instruction snapshot handed across the boundary.
///
/// The opcode byte is the discriminator the far side consults before
/// reading shape-specific slots. The branch offset is already scaled from
/// instruction-slot units to bytes. The double operand is carried as its
/// IEEE 754 bit pattern.
#[derive(Debug)]
pub struct Instruction<'a> {
    pub variable: Variable<'a>,
    pub function: Function<'a>,
    pub value_string: RustStr<'a>,
    pub value_double_bits: u64,
    pub value_long: i64,
    pub value_int: i32,
    pub branch_offset: i32,
    pub argument_count: i32,
    pub asset_reference: i32,
    pub value_short: i16,
    pub extended_kind: i16,
    pub instance_type: i16,
    pub opcode: u8,
    pub type1: u8,
    pub type2: u8,
    pub comparison_kind: u8,
    pub duplication_size: u8,
    pub duplication_size2: u8,
    pub variable_type: u8,
    pub pop_swap_size: u8,
    pub pop_with_context_exit: u8,
}

/// The string operand: the pushed string for a push-string instruction,
/// empty otherwise.
pub open spec fn spec_string_operand(instr: GmInstruction) -> Seq<char> {
    match instr {
        GmInstruction::Push { value: PushValue::Str(s) } => s@,
        _ => Seq::<char>::empty(),
    }
}

/// The double operand as an IEEE 754 bit pattern, zero when absent.
pub open spec fn spec_double_operand(instr: GmInstruction) -> u64 {
    match instr {
        GmInstruction::Push { value: PushValue::Double(bits) } => bits,
        _ => 0,
    }
}

/// The 64-bit integer operand, zero when absent.
pub open spec fn spec_long_operand(instr: GmInstruction) -> i64 {
    match instr {
        GmInstruction::Push { value: PushValue::Int64(long) } => long,
        _ => 0,
    }
}

/// The 32-bit integer operand, zero when absent.
pub open spec fn spec_int_operand(instr: GmInstruction) -> i32 {
    match instr {
        GmInstruction::Push { value: PushValue::Int32(number) } => number,
        _ => 0,
    }
}

/// The 16-bit integer operand, zero when absent.
pub open spec fn spec_short_operand(instr: GmInstruction) -> i16 {
    match instr {
        GmInstruction::Push { value: PushValue::Int16(integer) } => integer,
        GmInstruction::PushImmediate { integer } => integer,
        _ => 0,
    }
}

/// The call argument count, zero when the instruction is no call.
pub open spec fn spec_argument_count(instr: GmInstruction) -> i32 {
    match instr {
        GmInstruction::Call { arg_count, .. } => arg_count as i32,
        GmInstruction::CallVariable { arg_count } => arg_count as i32,
        _ => 0,
    }
}

/// The encoded asset reference, zero when absent.
pub open spec fn spec_asset_reference(instr: GmInstruction) -> i32 {
    match instr {
        GmInstruction::PushReference { asset_reference, .. } => asset_reference,
        _ => 0,
    }
}

/// The comparison-kind byte, zero when the instruction is no comparison.
pub open spec fn spec_comparison_kind(instr: GmInstruction) -> u8 {
    match instr {
        GmInstruction::Compare { comparison_type, .. } => comparison_type.spec_code(),
        _ => 0,
    }
}

/// The (first) duplication size operand, zero when absent.
pub open spec fn spec_dupsize(instr: GmInstruction) -> u8 {
    match instr {
        GmInstruction::Duplicate { size, .. } => size,
        GmInstruction::DuplicateSwap { size1, .. } => size1,
        _ => 0,
    }
}

/// The second duplication size operand, zero when absent.
pub open spec fn spec_dupsize2(instr: GmInstruction) -> u8 {
    match instr {
        GmInstruction::DuplicateSwap { size2, .. } => size2,
        _ => 0,
    }
}

/// The pop/swap size: five for the plain swap, six for the array swap,
/// zero for any other instruction.
pub open spec fn spec_popswap_size(instr: GmInstruction) -> u8 {
    match instr {
        GmInstruction::PopSwap { is_array: false } => 5,
        GmInstruction::PopSwap { is_array: true } => 6,
        _ => 0,
    }
}

/// The jump offset in instruction-slot units, zero when absent.
pub open spec fn spec_jump_or_zero(instr: GmInstruction) -> i32 {
    match instr.spec_jump_offset() {
        Some(offset) => offset,
        None => 0,
    }
}

/// Whether a jump offset, if present, can be scaled to bytes without
/// leaving the 32-bit range. This is a machine limit, not a format rule.
pub open spec fn spec_jump_in_range(instr: GmInstruction) -> bool {
    match instr.spec_jump_offset() {
        Some(offset) => i32::MIN / 4 <= offset && offset <= i32::MAX / 4,
        None => true,
    }
}

/// Whether every table reference the instruction carries resolves inside
/// the source root's tables.
pub open spec fn instr_refs_ok(instr: GmInstruction, data: GameData) -> bool {
    &&& match instr.spec_variable() {
        Some(code_var) => (code_var.variable as int) < data.variables@.len(),
        None => true,
    }
    &&& match instr.spec_function() {
        Some(function) => (function as int) < data.functions@.len(),
        None => true,
    }
}

/// The message of the error reported for a dangling variable reference.
pub open spec fn var_err_msg(index: int) -> Seq<char> {
    "could not resolve variable reference #"@ + spec_decimal(index)
}

/// The message of the error reported for a dangling function reference.
pub open spec fn fn_err_msg(index: int) -> Seq<char> {
    "could not resolve function reference #"@ + spec_decimal(index)
}

/// Whether the snapshot `s` is exactly the flattening of `instr`: every
/// slot relevant to the instruction's shape carries the operand, every
/// other slot carries its zero/empty default, and the branch offset is the
/// source offset scaled by four.
pub open spec fn instr_snapshot_ok(s: Instruction, instr: GmInstruction, data: GameData) -> bool {
    &&& match instr.spec_variable() {
        Some(code_var) => (code_var.variable as int) < data.variables@.len()
            && var_snapshot_matches(s.variable, data.variables@[code_var.variable as int]),
        None => var_snapshot_null(s.variable),
    }
    &&& match instr.spec_function() {
        Some(function) => (function as int) < data.functions@.len() && fn_snapshot_matches(
            s.function,
            data.functions@[function as int],
        ),
        None => fn_snapshot_null(s.function),
    }
    &&& s.value_string@ == spec_string_operand(instr)
    &&& s.value_double_bits == spec_double_operand(instr)
    &&& s.value_long == spec_long_operand(instr)
    &&& s.value_int == spec_int_operand(instr)
    &&& s.branch_offset as int == 4 * (spec_jump_or_zero(instr) as int)
    &&& s.argument_count == spec_argument_count(instr)
    &&& s.asset_reference == spec_asset_reference(instr)
    &&& s.value_short == spec_short_operand(instr)
    &&& s.extended_kind == instr.spec_extended_kind()
    &&& s.instance_type == match instr.spec_variable() {
        Some(code_var) => code_var.instance_type,
        None => 0i16,
    }
    &&& s.opcode == instr.spec_opcode()
    &&& s.type1 == match instr.spec_type1() {
        Some(data_type) => data_type.spec_code(),
        None => 0u8,
    }
    &&& s.type2 == match instr.spec_type2() {
        Some(data_type) => data_type.spec_code(),
        None => 0u8,
    }
    &&& s.comparison_kind == spec_comparison_kind(instr)
    &&& s.duplication_size == spec_dupsize(instr)
    &&& s.duplication_size2 == spec_dupsize2(instr)
    &&& s.variable_type == match instr.spec_variable() {
        Some(code_var) => code_var.variable_type.spec_code(),
        None => 0u8,
    }
    &&& s.pop_swap_size == spec_popswap_size(instr)
    &&& s.pop_with_context_exit == match instr {
        GmInstruction::PopWithContextExit => 1u8,
        _ => 0u8,
    }
}

impl<'a> Instruction<'a> {
    /// Flattens one source instruction into the snapshot layout, resolving
    /// its variable and function references through the source root.
    ///
    /// Succeeds exactly when every reference the instruction carries is in
    /// bounds; a dangling reference yields an error naming the reference
    /// and the entity kind.
    pub fn try_from_libgm(instr: &'a GmInstruction, data: &'a GameData) -> (r: Result<
        Self,
        Error,
    >)
        requires
            spec_jump_in_range(*instr),
        ensures
            r is Ok <==> instr_refs_ok(*instr, *data),
            r is Ok ==> instr_snapshot_ok(r.unwrap(), *instr, *data),
            r is Err ==> r.unwrap_err().message_view() == {
                match instr.spec_variable() {
                    Some(code_var) if (code_var.variable as int) >= data.variables@.len()
                        => var_err_msg(code_var.variable as int),
                    _ => fn_err_msg(instr.spec_function().unwrap() as int),
                }
            },
            r is Err ==> r.unwrap_err().contexts_view() =~= Seq::<Seq<char>>::empty(),
    {
        let variable = extract_variable(instr, data)?;
        let function = extract_function(instr, data)?;
        let jump = match instr.jump_offset() {
            Some(offset) => offset,
            None => 0,
        };
        Ok(
            Instruction {
                variable,
                function,
                value_string: extract_string(instr),
                value_double_bits: extract_double_bits(instr),
                value_long: extract_long(instr),
                value_int: extract_int(instr),
                branch_offset: 4 * jump,
                argument_count: extract_argument_count(instr),
                asset_reference: extract_asset_reference(instr),
                value_short: extract_short(instr),
                extended_kind: instr.extended_kind(),
                instance_type: match instr.variable() {
                    Some(code_var) => code_var.instance_type,
                    None => 0,
                },
                opcode: instr.opcode(),
                type1: match instr.type1() {
                    Some(data_type) => data_type.code(),
                    None => 0,
                },
                type2: match instr.type2() {
                    Some(data_type) => data_type.code(),
                    None => 0,
                },
                comparison_kind: extract_comparison_kind(instr),
                duplication_size: extract_dupsize(instr),
                duplication_size2: extract_dupsize2(instr),
                variable_type: match instr.variable() {
                    Some(code_var) => code_var.variable_type.code(),
                    None => 0,
                },
                pop_swap_size: extract_popswap_size(instr),
                pop_with_context_exit: extract_pop_with_context_exit(instr),
            },
        )
    }
}

/// Resolves the instruction's variable reference, or yields the null
/// sentinel when it carries none.
fn extract_variable<'a>(instr: &GmInstruction, data: &'a GameData) -> (r: Result<
    Variable<'a>,
    Error,
>)
    ensures
        r is Ok <==> match instr.spec_variable() {
            Some(code_var) => (code_var.variable as int) < data.variables@.len(),
            None => true,
        },
        r is Ok ==> match instr.spec_variable() {
            Some(code_var) => var_snapshot_matches(
                r.unwrap(),
                data.variables@[code_var.variable as int],
            ),
            None => var_snapshot_null(r.unwrap()),
        },
        r is Err ==> {
            &&& r.unwrap_err().message_view() == var_err_msg(
                instr.spec_variable().unwrap().variable as int,
            )
            &&& r.unwrap_err().contexts_view() =~= Seq::<Seq<char>>::empty()
        },
{
    match instr.variable() {
        Some(code_var) => {
            let index = code_var.variable;
            if (index as usize) < data.variables.len() {
                Ok(Variable::from_libgm(&data.variables[index as usize]))
            } else {
                let mut message = "could not resolve variable reference #".to_owned();
                crate::text::append_str(&mut message, decimal_string(index).as_str());
                Err(Error::new(message))
            }
        },
        None => Ok(Variable::null()),
    }
}

/// Resolves the instruction's function reference, or yields the null
/// sentinel when it carries none.
fn extract_function<'a>(instr: &GmInstruction, data: &'a GameData) -> (r: Result<
    Function<'a>,
    Error,
>)
    ensures
        r is Ok <==> match instr.spec_function() {
            Some(function) => (function as int) < data.functions@.len(),
            None => true,
        },
        r is Ok ==> match instr.spec_function() {
            Some(function) => fn_snapshot_matches(r.unwrap(), data.functions@[function as int]),
            None => fn_snapshot_null(r.unwrap()),
        },
        r is Err ==> {
            &&& r.unwrap_err().message_view() == fn_err_msg(instr.spec_function().unwrap() as int)
            &&& r.unwrap_err().contexts_view() =~= Seq::<Seq<char>>::empty()
        },
{
    match instr.function() {
        Some(index) => {
            if (index as usize) < data.functions.len() {
                Ok(Function::from_libgm(&data.functions[index as usize]))
            } else {
                let mut message = "could not resolve function reference #".to_owned();
                crate::text::append_str(&mut message, decimal_string(index).as_str());
                Err(Error::new(message))
            }
        },
        None => Ok(Function::null()),
    }
}

/// The string operand, or the empty view.
fn extract_string<'a>(instr: &'a GmInstruction) -> (r: RustStr<'a>)
    ensures
        r@ == spec_string_operand(*instr),
{
    match instr {
        GmInstruction::Push { value: PushValue::Str(string) } => RustStr::from_str(
            string.as_str(),
        ),
        _ => RustStr::empty(),
    }
}

/// The double operand's bit pattern, or zero.
fn extract_double_bits(instr: &GmInstruction) -> (r: u64)
    ensures
        r == spec_double_operand(*instr),
{
    match instr {
        GmInstruction::Push { value: PushValue::Double(bits) } => *bits,
        _ => 0,
    }
}

/// The 64-bit integer operand, or zero.
fn extract_long(instr: &GmInstruction) -> (r: i64)
    ensures
        r == spec_long_operand(*instr),
{
    match instr {
        GmInstruction::Push { value: PushValue::Int64(long) } => *long,
        _ => 0,
    }
}

/// The 32-bit integer operand, or zero.
fn extract_int(instr: &GmInstruction) -> (r: i32)
    ensures
        r == spec_int_operand(*instr),
{
    match instr {
        GmInstruction::Push { value: PushValue::Int32(number) } => *number,
        _ => 0,
    }
}

/// The 16-bit integer operand, or zero.
fn extract_short(instr: &GmInstruction) -> (r: i16)
    ensures
        r == spec_short_operand(*instr),
{
    match instr {
        GmInstruction::Push { value: PushValue::Int16(integer) } => *integer,
        GmInstruction::PushImmediate { integer } => *integer,
        _ => 0,
    }
}

/// The call argument count, or zero.
fn extract_argument_count(instr: &GmInstruction) -> (r: i32)
    ensures
        r == spec_argument_count(*instr),
{
    match instr {
        GmInstruction::Call { arg_count, .. } => *arg_count as i32,
        GmInstruction::CallVariable { arg_count } => *arg_count as i32,
        _ => 0,
    }
}

/// The encoded asset reference, or zero.
fn extract_asset_reference(instr: &GmInstruction) -> (r: i32)
    ensures
        r == spec_asset_reference(*instr),
{
    match instr {
        GmInstruction::PushReference { asset_reference, .. } => *asset_reference,
        _ => 0,
    }
}

/// The comparison-kind byte, or zero.
fn extract_comparison_kind(instr: &GmInstruction) -> (r: u8)
    ensures
        r == spec_comparison_kind(*instr),
{
    match instr {
        GmInstruction::Compare { comparison_type, .. } => comparison_type.code(),
        _ => 0,
    }
}

/// The first duplication size, or zero.
fn extract_dupsize(instr: &GmInstruction) -> (r: u8)
    ensures
        r == spec_dupsize(*instr),
{
    match instr {
        GmInstruction::Duplicate { size, .. } => *size,
        GmInstruction::DuplicateSwap { size1, .. } => *size1,
        _ => 0,
    }
}

/// The second duplication size, or zero.
fn extract_dupsize2(instr: &GmInstruction) -> (r: u8)
    ensures
        r == spec_dupsize2(*instr),
{
    match instr {
        GmInstruction::DuplicateSwap { size2, .. } => *size2,
        _ => 0,
    }
}

/// The pop/swap size, or zero.
fn extract_popswap_size(instr: &GmInstruction) -> (r: u8)
    ensures
        r == spec_popswap_size(*instr),
{
    match instr {
        GmInstruction::PopSwap { is_array: false } => 5,
        GmInstruction::PopSwap { is_array: true } => 6,
        _ => 0,
    }
}

/// One exactly when the instruction is the context-exiting pop.
fn extract_pop_with_context_exit(instr: &GmInstruction) -> (r: u8)
    ensures
        r == match *instr {
            GmInstruction::PopWithContextExit => 1u8,
            _ => 0u8,
        },
{
    match instr {
        GmInstruction::PopWithContextExit => 1,
        _ => 0,
    }
}

} // verus!
