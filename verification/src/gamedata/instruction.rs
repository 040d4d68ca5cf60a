//! The source-side instruction model: a tagged variant over the opcode
//! shapes, each carrying only the operand fields relevant to that opcode,
//! together with the encoding attributes the snapshot layer reads off an
//! instruction (opcode byte, type codes, stack sizes, jump offsets).

use vstd::prelude::*;

verus! {

/// A primitive data type used in instructions.
#[derive(Clone, Copy, PartialEq, Eq, Structural, Debug)]
pub enum DataType {
    Int16,
    Int32,
    Int64,
    Double,
    Bool,
    String,
    Variable,
}

impl DataType {
    /// The raw byte this data type is encoded as.
    pub open spec fn spec_code(self) -> u8 {
        match self {
            DataType::Double => 0,
            DataType::Int32 => 2,
            DataType::Int64 => 3,
            DataType::Bool => 4,
            DataType::Variable => 5,
            DataType::String => 6,
            DataType::Int16 => 15,
        }
    }

    /// The raw byte this data type is encoded as.
    pub fn code(self) -> (r: u8)
        ensures
            r == self.spec_code(),
    {
        match self {
            DataType::Double => 0,
            DataType::Int32 => 2,
            DataType::Int64 => 3,
            DataType::Bool => 4,
            DataType::Variable => 5,
            DataType::String => 6,
            DataType::Int16 => 15,
        }
    }

    /// The size of a value of this data type on the VM stack, in 4-byte
    /// slots.
    pub open spec fn spec_size4(self) -> u32 {
        match self {
            DataType::Int16 | DataType::Int32 | DataType::Bool | DataType::String => 1,
            DataType::Int64 | DataType::Double => 2,
            DataType::Variable => 4,
        }
    }
}

/// How a comparison instruction compares its two operands.
#[derive(Clone, Copy, PartialEq, Eq, Structural, Debug)]
pub enum ComparisonType {
    LessThan,
    LessOrEqual,
    Equal,
    NotEqual,
    GreaterOrEqual,
    GreaterThan,
}

impl ComparisonType {
    /// The raw byte this comparison kind is encoded as.
    pub open spec fn spec_code(self) -> u8 {
        match self {
            ComparisonType::LessThan => 1,
            ComparisonType::LessOrEqual => 2,
            ComparisonType::Equal => 3,
            ComparisonType::NotEqual => 4,
            ComparisonType::GreaterOrEqual => 5,
            ComparisonType::GreaterThan => 6,
        }
    }

    /// The raw byte this comparison kind is encoded as.
    pub fn code(self) -> (r: u8)
        ensures
            r == self.spec_code(),
    {
        match self {
            ComparisonType::LessThan => 1,
            ComparisonType::LessOrEqual => 2,
            ComparisonType::Equal => 3,
            ComparisonType::NotEqual => 4,
            ComparisonType::GreaterOrEqual => 5,
            ComparisonType::GreaterThan => 6,
        }
    }
}

/// How a variable reference addresses its variable.
#[derive(Clone, Copy, PartialEq, Eq, Structural, Debug)]
pub enum VariableType {
    Normal,
    Array,
    StackTop,
    Instance,
    MultiPush,
    MultiPop,
}

impl VariableType {
    /// The raw byte this reference mode is encoded as.
    pub open spec fn spec_code(self) -> u8 {
        match self {
            VariableType::Normal => 0xA0,
            VariableType::Array => 0x00,
            VariableType::StackTop => 0x80,
            VariableType::Instance => 0xE0,
            VariableType::MultiPush => 0x10,
            VariableType::MultiPop => 0x90,
        }
    }

    /// The raw byte this reference mode is encoded as.
    pub fn code(self) -> (r: u8)
        ensures
            r == self.spec_code(),
    {
        match self {
            VariableType::Normal => 0xA0,
            VariableType::Array => 0x00,
            VariableType::StackTop => 0x80,
            VariableType::Instance => 0xE0,
            VariableType::MultiPush => 0x10,
            VariableType::MultiPop => 0x90,
        }
    }
}

/// A variable reference inside an instruction: the index of the variable
/// in the source root's variable table, the reference mode, the encoded
/// instance-type tag, and whether the value is treated as a 32-bit integer.
#[derive(Clone, Copy, PartialEq, Eq, Structural, Debug)]
pub struct CodeVariable {
    pub variable: u32,
    pub variable_type: VariableType,
    pub instance_type: i16,
    pub is_int32: bool,
}

/// A constant value pushed onto the VM stack. A double-precision operand
/// is carried as its IEEE 754 bit pattern.
#[derive(Clone, PartialEq, Debug)]
pub enum PushValue {
    Int16(i16),
    Int32(i32),
    Int64(i64),
    Double(u64),
    Bool(bool),
    Str(String),
    Variable(CodeVariable),
    Function(u32),
}

impl PushValue {
    /// The data type this pushed value has on the stack.
    pub open spec fn spec_data_type(&self) -> DataType {
        match self {
            PushValue::Int16(_) => DataType::Int16,
            PushValue::Int32(_) => DataType::Int32,
            PushValue::Function(_) => DataType::Int32,
            PushValue::Variable(var) => if var.is_int32 {
                DataType::Int32
            } else {
                DataType::Variable
            },
            PushValue::Int64(_) => DataType::Int64,
            PushValue::Double(_) => DataType::Double,
            PushValue::Bool(_) => DataType::Bool,
            PushValue::Str(_) => DataType::String,
        }
    }

    /// The data type this pushed value has on the stack.
    pub fn data_type(&self) -> (r: DataType)
        ensures
            r == self.spec_data_type(),
    {
        match self {
            PushValue::Int16(_) => DataType::Int16,
            PushValue::Int32(_) => DataType::Int32,
            PushValue::Function(_) => DataType::Int32,
            PushValue::Variable(var) => if var.is_int32 {
                DataType::Int32
            } else {
                DataType::Variable
            },
            PushValue::Int64(_) => DataType::Int64,
            PushValue::Double(_) => DataType::Double,
            PushValue::Bool(_) => DataType::Bool,
            PushValue::Str(_) => DataType::String,
        }
    }
}

/// A VM instruction of the source graph, tagged by opcode shape.
///
/// Branch-style offsets are in 4-byte instruction-slot units. Table
/// references (functions, variables) are indexes into the source root's
/// tables. A `PushReference` carries the already-encoded 32-bit asset
/// reference, plus the function index when the reference names a function.
#[derive(Clone, PartialEq, Debug)]
pub enum GmInstruction {
    Convert { from: DataType, to: DataType },
    Multiply { lhs: DataType, rhs: DataType },
    Divide { lhs: DataType, rhs: DataType },
    Remainder { lhs: DataType, rhs: DataType },
    Modulus { lhs: DataType, rhs: DataType },
    Add { lhs: DataType, rhs: DataType },
    Subtract { lhs: DataType, rhs: DataType },
    And { lhs: DataType, rhs: DataType },
    Or { lhs: DataType, rhs: DataType },
    Xor { lhs: DataType, rhs: DataType },
    Negate { data_type: DataType },
    Not { data_type: DataType },
    ShiftLeft { lhs: DataType, rhs: DataType },
    ShiftRight { lhs: DataType, rhs: DataType },
    Compare { lhs: DataType, rhs: DataType, comparison_type: ComparisonType },
    Pop { variable: CodeVariable, type1: DataType, type2: DataType },
    PopSwap { is_array: bool },
    Duplicate { data_type: DataType, size: u8 },
    DuplicateSwap { data_type: DataType, size1: u8, size2: u8 },
    Return,
    Exit,
    PopDiscard { data_type: DataType },
    Branch { jump_offset: i32 },
    BranchIf { jump_offset: i32 },
    BranchUnless { jump_offset: i32 },
    PushWithContext { jump_offset: i32 },
    PopWithContext { jump_offset: i32 },
    PopWithContextExit,
    Push { value: PushValue },
    PushLocal { variable: CodeVariable },
    PushGlobal { variable: CodeVariable },
    PushBuiltin { variable: CodeVariable },
    PushImmediate { integer: i16 },
    Call { function: u32, arg_count: u16 },
    CallVariable { arg_count: u16 },
    CheckArrayIndex,
    PushArrayFinal,
    PopArrayFinal,
    PushArrayContainer,
    SetArrayOwner,
    HasStaticInitialized,
    SetStaticInitialized,
    SaveArrayReference,
    RestoreArrayReference,
    IsNullishValue,
    PushReference { asset_reference: i32, function: Option<u32> },
}

pub const OP_CONV: u8 = 0x07;

pub const OP_MUL: u8 = 0x08;

pub const OP_DIV: u8 = 0x09;

pub const OP_REM: u8 = 0x0A;

pub const OP_MOD: u8 = 0x0B;

pub const OP_ADD: u8 = 0x0C;

pub const OP_SUB: u8 = 0x0D;

pub const OP_AND: u8 = 0x0E;

pub const OP_OR: u8 = 0x0F;

pub const OP_XOR: u8 = 0x10;

pub const OP_NEG: u8 = 0x11;

pub const OP_NOT: u8 = 0x12;

pub const OP_SHL: u8 = 0x13;

pub const OP_SHR: u8 = 0x14;

pub const OP_CMP: u8 = 0x15;

pub const OP_POP: u8 = 0x45;

pub const OP_DUP: u8 = 0x86;

pub const OP_RET: u8 = 0x9C;

pub const OP_EXIT: u8 = 0x9D;

pub const OP_POPZ: u8 = 0x9E;

pub const OP_BR: u8 = 0xB6;

pub const OP_BT: u8 = 0xB7;

pub const OP_BF: u8 = 0xB8;

pub const OP_PUSHENV: u8 = 0xBA;

pub const OP_POPENV: u8 = 0xBB;

pub const OP_PUSH: u8 = 0xC0;

pub const OP_PUSHLOC: u8 = 0xC1;

pub const OP_PUSHGLB: u8 = 0xC2;

pub const OP_PUSHBLTN: u8 = 0xC3;

pub const OP_PUSHIM: u8 = 0x84;

pub const OP_CALL: u8 = 0xD9;

pub const OP_CALLVAR: u8 = 0x99;

pub const OP_EXTENDED: u8 = 0xFF;

impl GmInstruction {
    /// The normalized opcode byte of the instruction.
    pub open spec fn spec_opcode(&self) -> u8 {
        match self {
            GmInstruction::Convert { .. } => OP_CONV,
            GmInstruction::Multiply { .. } => OP_MUL,
            GmInstruction::Divide { .. } => OP_DIV,
            GmInstruction::Remainder { .. } => OP_REM,
            GmInstruction::Modulus { .. } => OP_MOD,
            GmInstruction::Add { .. } => OP_ADD,
            GmInstruction::Subtract { .. } => OP_SUB,
            GmInstruction::And { .. } => OP_AND,
            GmInstruction::Or { .. } => OP_OR,
            GmInstruction::Xor { .. } => OP_XOR,
            GmInstruction::Negate { .. } => OP_NEG,
            GmInstruction::Not { .. } => OP_NOT,
            GmInstruction::ShiftLeft { .. } => OP_SHL,
            GmInstruction::ShiftRight { .. } => OP_SHR,
            GmInstruction::Compare { .. } => OP_CMP,
            GmInstruction::Pop { .. } | GmInstruction::PopSwap { .. } => OP_POP,
            GmInstruction::Duplicate { .. } | GmInstruction::DuplicateSwap { .. } => OP_DUP,
            GmInstruction::Return => OP_RET,
            GmInstruction::Exit => OP_EXIT,
            GmInstruction::PopDiscard { .. } => OP_POPZ,
            GmInstruction::Branch { .. } => OP_BR,
            GmInstruction::BranchIf { .. } => OP_BT,
            GmInstruction::BranchUnless { .. } => OP_BF,
            GmInstruction::PushWithContext { .. } => OP_PUSHENV,
            GmInstruction::PopWithContext { .. } | GmInstruction::PopWithContextExit => OP_POPENV,
            GmInstruction::Push { .. } => OP_PUSH,
            GmInstruction::PushLocal { .. } => OP_PUSHLOC,
            GmInstruction::PushGlobal { .. } => OP_PUSHGLB,
            GmInstruction::PushBuiltin { .. } => OP_PUSHBLTN,
            GmInstruction::PushImmediate { .. } => OP_PUSHIM,
            GmInstruction::Call { .. } => OP_CALL,
            GmInstruction::CallVariable { .. } => OP_CALLVAR,
            _ => OP_EXTENDED,
        }
    }

    /// The normalized opcode byte of the instruction.
    pub fn opcode(&self) -> (r: u8)
        ensures
            r == self.spec_opcode(),
    {
        match self {
            GmInstruction::Convert { .. } => OP_CONV,
            GmInstruction::Multiply { .. } => OP_MUL,
            GmInstruction::Divide { .. } => OP_DIV,
            GmInstruction::Remainder { .. } => OP_REM,
            GmInstruction::Modulus { .. } => OP_MOD,
            GmInstruction::Add { .. } => OP_ADD,
            GmInstruction::Subtract { .. } => OP_SUB,
            GmInstruction::And { .. } => OP_AND,
            GmInstruction::Or { .. } => OP_OR,
            GmInstruction::Xor { .. } => OP_XOR,
            GmInstruction::Negate { .. } => OP_NEG,
            GmInstruction::Not { .. } => OP_NOT,
            GmInstruction::ShiftLeft { .. } => OP_SHL,
            GmInstruction::ShiftRight { .. } => OP_SHR,
            GmInstruction::Compare { .. } => OP_CMP,
            GmInstruction::Pop { .. } | GmInstruction::PopSwap { .. } => OP_POP,
            GmInstruction::Duplicate { .. } | GmInstruction::DuplicateSwap { .. } => OP_DUP,
            GmInstruction::Return => OP_RET,
            GmInstruction::Exit => OP_EXIT,
            GmInstruction::PopDiscard { .. } => OP_POPZ,
            GmInstruction::Branch { .. } => OP_BR,
            GmInstruction::BranchIf { .. } => OP_BT,
            GmInstruction::BranchUnless { .. } => OP_BF,
            GmInstruction::PushWithContext { .. } => OP_PUSHENV,
            GmInstruction::PopWithContext { .. } | GmInstruction::PopWithContextExit => OP_POPENV,
            GmInstruction::Push { .. } => OP_PUSH,
            GmInstruction::PushLocal { .. } => OP_PUSHLOC,
            GmInstruction::PushGlobal { .. } => OP_PUSHGLB,
            GmInstruction::PushBuiltin { .. } => OP_PUSHBLTN,
            GmInstruction::PushImmediate { .. } => OP_PUSHIM,
            GmInstruction::Call { .. } => OP_CALL,
            GmInstruction::CallVariable { .. } => OP_CALLVAR,
            _ => OP_EXTENDED,
        }
    }

    /// The extended ("break") opcode kind, or zero when this is not an
    /// extended instruction.
    pub open spec fn spec_extended_kind(&self) -> i16 {
        match self {
            GmInstruction::CheckArrayIndex => -1i16,
            GmInstruction::PushArrayFinal => -2i16,
            GmInstruction::PopArrayFinal => -3i16,
            GmInstruction::PushArrayContainer => -4i16,
            GmInstruction::SetArrayOwner => -5i16,
            GmInstruction::HasStaticInitialized => -6i16,
            GmInstruction::SetStaticInitialized => -7i16,
            GmInstruction::SaveArrayReference => -8i16,
            GmInstruction::RestoreArrayReference => -9i16,
            GmInstruction::IsNullishValue => -10i16,
            GmInstruction::PushReference { .. } => -11i16,
            _ => 0i16,
        }
    }

    /// The extended ("break") opcode kind, or zero when this is not an
    /// extended instruction.
    pub fn extended_kind(&self) -> (r: i16)
        ensures
            r == self.spec_extended_kind(),
    {
        match self {
            GmInstruction::CheckArrayIndex => -1,
            GmInstruction::PushArrayFinal => -2,
            GmInstruction::PopArrayFinal => -3,
            GmInstruction::PushArrayContainer => -4,
            GmInstruction::SetArrayOwner => -5,
            GmInstruction::HasStaticInitialized => -6,
            GmInstruction::SetStaticInitialized => -7,
            GmInstruction::SaveArrayReference => -8,
            GmInstruction::RestoreArrayReference => -9,
            GmInstruction::IsNullishValue => -10,
            GmInstruction::PushReference { .. } => -11,
            _ => 0,
        }
    }

    /// The jump offset carried by branch-style instructions, in 4-byte
    /// instruction-slot units.
    pub open spec fn spec_jump_offset(&self) -> Option<i32> {
        match self {
            GmInstruction::Branch { jump_offset } => Some(*jump_offset),
            GmInstruction::BranchIf { jump_offset } => Some(*jump_offset),
            GmInstruction::BranchUnless { jump_offset } => Some(*jump_offset),
            GmInstruction::PushWithContext { jump_offset } => Some(*jump_offset),
            GmInstruction::PopWithContext { jump_offset } => Some(*jump_offset),
            _ => None,
        }
    }

    /// The jump offset carried by branch-style instructions, in 4-byte
    /// instruction-slot units.
    pub fn jump_offset(&self) -> (r: Option<i32>)
        ensures
            r == self.spec_jump_offset(),
    {
        match self {
            GmInstruction::Branch { jump_offset }
            | GmInstruction::BranchIf { jump_offset }
            | GmInstruction::BranchUnless { jump_offset }
            | GmInstruction::PushWithContext { jump_offset }
            | GmInstruction::PopWithContext { jump_offset } => Some(*jump_offset),
            _ => None,
        }
    }

    /// The variable reference carried by the instruction, if any.
    pub open spec fn spec_variable(&self) -> Option<CodeVariable> {
        match self {
            GmInstruction::Pop { variable, .. } => Some(*variable),
            GmInstruction::Push { value: PushValue::Variable(variable) } => Some(*variable),
            GmInstruction::PushLocal { variable } => Some(*variable),
            GmInstruction::PushGlobal { variable } => Some(*variable),
            GmInstruction::PushBuiltin { variable } => Some(*variable),
            _ => None,
        }
    }

    /// The variable reference carried by the instruction, if any.
    pub fn variable(&self) -> (r: Option<&CodeVariable>)
        ensures
            r is Some <==> self.spec_variable() is Some,
            r is Some ==> *r.unwrap() == self.spec_variable().unwrap(),
    {
        match self {
            GmInstruction::Pop { variable, .. }
            | GmInstruction::Push { value: PushValue::Variable(variable) }
            | GmInstruction::PushLocal { variable }
            | GmInstruction::PushGlobal { variable }
            | GmInstruction::PushBuiltin { variable } => Some(variable),
            _ => None,
        }
    }

    /// The function table index carried by the instruction, if any.
    pub open spec fn spec_function(&self) -> Option<u32> {
        match self {
            GmInstruction::Push { value: PushValue::Function(function) } => Some(*function),
            GmInstruction::Call { function, .. } => Some(*function),
            GmInstruction::PushReference { function: Some(function), .. } => Some(*function),
            _ => None,
        }
    }

    /// The function table index carried by the instruction, if any.
    pub fn function(&self) -> (r: Option<u32>)
        ensures
            r == self.spec_function(),
    {
        match self {
            GmInstruction::Push { value: PushValue::Function(function) }
            | GmInstruction::Call { function, .. }
            | GmInstruction::PushReference { function: Some(function), .. } => Some(*function),
            _ => None,
        }
    }

    /// The first (or only) relevant data type of the instruction; for
    /// binary operations this is the right-hand side.
    pub open spec fn spec_type1(&self) -> Option<DataType> {
        match self {
            GmInstruction::Convert { from, .. } => Some(*from),
            GmInstruction::Multiply { rhs, .. } => Some(*rhs),
            GmInstruction::Divide { rhs, .. } => Some(*rhs),
            GmInstruction::Remainder { rhs, .. } => Some(*rhs),
            GmInstruction::Modulus { rhs, .. } => Some(*rhs),
            GmInstruction::Add { rhs, .. } => Some(*rhs),
            GmInstruction::Subtract { rhs, .. } => Some(*rhs),
            GmInstruction::And { rhs, .. } => Some(*rhs),
            GmInstruction::Or { rhs, .. } => Some(*rhs),
            GmInstruction::Xor { rhs, .. } => Some(*rhs),
            GmInstruction::ShiftLeft { rhs, .. } => Some(*rhs),
            GmInstruction::ShiftRight { rhs, .. } => Some(*rhs),
            GmInstruction::Compare { rhs, .. } => Some(*rhs),
            GmInstruction::Negate { data_type } => Some(*data_type),
            GmInstruction::Not { data_type } => Some(*data_type),
            GmInstruction::Duplicate { data_type, .. } => Some(*data_type),
            GmInstruction::DuplicateSwap { data_type, .. } => Some(*data_type),
            GmInstruction::PopDiscard { data_type } => Some(*data_type),
            GmInstruction::Pop { type1, .. } => Some(*type1),
            GmInstruction::Push { value } => Some(value.spec_data_type()),
            GmInstruction::PushLocal { .. } => Some(DataType::Variable),
            GmInstruction::PushGlobal { .. } => Some(DataType::Variable),
            GmInstruction::PushBuiltin { .. } => Some(DataType::Variable),
            GmInstruction::PushImmediate { .. } => Some(DataType::Int16),
            GmInstruction::Call { .. } => Some(DataType::Int32),
            GmInstruction::CallVariable { .. } => Some(DataType::Variable),
            _ => None,
        }
    }

    /// The first (or only) relevant data type of the instruction; for
    /// binary operations this is the right-hand side.
    pub fn type1(&self) -> (r: Option<DataType>)
        ensures
            r == self.spec_type1(),
    {
        match self {
            GmInstruction::Convert { from, .. } => Some(*from),
            GmInstruction::Multiply { rhs, .. }
            | GmInstruction::Divide { rhs, .. }
            | GmInstruction::Remainder { rhs, .. }
            | GmInstruction::Modulus { rhs, .. }
            | GmInstruction::Add { rhs, .. }
            | GmInstruction::Subtract { rhs, .. }
            | GmInstruction::And { rhs, .. }
            | GmInstruction::Or { rhs, .. }
            | GmInstruction::Xor { rhs, .. }
            | GmInstruction::ShiftLeft { rhs, .. }
            | GmInstruction::ShiftRight { rhs, .. }
            | GmInstruction::Compare { rhs, .. } => Some(*rhs),
            GmInstruction::Negate { data_type }
            | GmInstruction::Not { data_type }
            | GmInstruction::Duplicate { data_type, .. }
            | GmInstruction::DuplicateSwap { data_type, .. }
            | GmInstruction::PopDiscard { data_type } => Some(*data_type),
            GmInstruction::Pop { type1, .. } => Some(*type1),
            GmInstruction::Push { value } => Some(value.data_type()),
            GmInstruction::PushLocal { .. }
            | GmInstruction::PushGlobal { .. }
            | GmInstruction::PushBuiltin { .. } => Some(DataType::Variable),
            GmInstruction::PushImmediate { .. } => Some(DataType::Int16),
            GmInstruction::Call { .. } => Some(DataType::Int32),
            GmInstruction::CallVariable { .. } => Some(DataType::Variable),
            _ => None,
        }
    }

    /// The second relevant data type of the instruction; for binary
    /// operations this is the left-hand side.
    pub open spec fn spec_type2(&self) -> Option<DataType> {
        match self {
            GmInstruction::Convert { to, .. } => Some(*to),
            GmInstruction::Multiply { lhs, .. } => Some(*lhs),
            GmInstruction::Divide { lhs, .. } => Some(*lhs),
            GmInstruction::Remainder { lhs, .. } => Some(*lhs),
            GmInstruction::Modulus { lhs, .. } => Some(*lhs),
            GmInstruction::Add { lhs, .. } => Some(*lhs),
            GmInstruction::Subtract { lhs, .. } => Some(*lhs),
            GmInstruction::And { lhs, .. } => Some(*lhs),
            GmInstruction::Or { lhs, .. } => Some(*lhs),
            GmInstruction::Xor { lhs, .. } => Some(*lhs),
            GmInstruction::ShiftLeft { lhs, .. } => Some(*lhs),
            GmInstruction::ShiftRight { lhs, .. } => Some(*lhs),
            GmInstruction::Compare { lhs, .. } => Some(*lhs),
            GmInstruction::Pop { type2, .. } => Some(*type2),
            _ => None,
        }
    }

    /// The second relevant data type of the instruction; for binary
    /// operations this is the left-hand side.
    pub fn type2(&self) -> (r: Option<DataType>)
        ensures
            r == self.spec_type2(),
    {
        match self {
            GmInstruction::Convert { to, .. } => Some(*to),
            GmInstruction::Multiply { lhs, .. }
            | GmInstruction::Divide { lhs, .. }
            | GmInstruction::Remainder { lhs, .. }
            | GmInstruction::Modulus { lhs, .. }
            | GmInstruction::Add { lhs, .. }
            | GmInstruction::Subtract { lhs, .. }
            | GmInstruction::And { lhs, .. }
            | GmInstruction::Or { lhs, .. }
            | GmInstruction::Xor { lhs, .. }
            | GmInstruction::ShiftLeft { lhs, .. }
            | GmInstruction::ShiftRight { lhs, .. }
            | GmInstruction::Compare { lhs, .. } => Some(*lhs),
            GmInstruction::Pop { type2, .. } => Some(*type2),
            _ => None,
        }
    }

    /// The encoded size of the instruction, in 4-byte slots.
    pub open spec fn spec_size4(&self) -> u32 {
        match self {
            GmInstruction::Push { value } => match value {
                PushValue::Int16(_) => 1,
                PushValue::Int64(_) => 3,
                PushValue::Double(_) => 3,
                _ => 2,
            },
            GmInstruction::Pop { .. } => 2,
            GmInstruction::PushLocal { .. } => 2,
            GmInstruction::PushGlobal { .. } => 2,
            GmInstruction::PushBuiltin { .. } => 2,
            GmInstruction::Call { .. } => 2,
            GmInstruction::PushReference { .. } => 2,
            _ => 1,
        }
    }

    /// The encoded size of the instruction, in 4-byte slots.
    pub fn size4(&self) -> (r: u32)
        ensures
            r == self.spec_size4(),
            r <= 3,
    {
        match self {
            GmInstruction::Push { value } => match value {
                PushValue::Int16(_) => 1,
                PushValue::Int64(_) | PushValue::Double(_) => 3,
                _ => 2,
            },
            GmInstruction::Pop { .. }
            | GmInstruction::PushLocal { .. }
            | GmInstruction::PushGlobal { .. }
            | GmInstruction::PushBuiltin { .. }
            | GmInstruction::Call { .. }
            | GmInstruction::PushReference { .. } => 2,
            _ => 1,
        }
    }

    /// The encoded size of the instruction, in bytes.
    pub fn size(&self) -> (r: u32)
        ensures
            r == 4 * self.spec_size4(),
            r <= 12,
    {
        self.size4() * 4
    }

    /// Whether this is a logical and/or over two boolean operands: the
    /// tell-tale pattern of a compiler that did not short-circuit.
    pub open spec fn spec_is_bool_and_or(&self) -> bool {
        match self {
            GmInstruction::And { lhs: DataType::Bool, rhs: DataType::Bool } => true,
            GmInstruction::Or { lhs: DataType::Bool, rhs: DataType::Bool } => true,
            _ => false,
        }
    }

    /// Whether this is the ownership-marking instruction whose presence
    /// implies copy-on-write array semantics.
    pub open spec fn spec_is_set_array_owner(&self) -> bool {
        match self {
            GmInstruction::SetArrayOwner => true,
            _ => false,
        }
    }
}

} // verus!
