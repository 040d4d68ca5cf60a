//! Snapshot builders: pure, fallible transformations from the source
//! graph's entities into the fixed-layout, boundary-safe snapshot types.

pub mod code;
pub mod game_context;
pub mod function;
pub mod instruction;
pub mod variable;

pub use code::Code;
pub use game_context::GameContext;
pub use function::Function;
pub use instruction::Instruction;
pub use variable::Variable;
