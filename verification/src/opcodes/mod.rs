//! The instruction set: its table, its meaning, and the interpreter.
pub mod alu_instructions;
mod bit_instructions;
mod control_flow_instructions;
mod dispatch;
pub mod instruction;
pub mod laws;
mod load_instructions;
mod miscellaneous_instructions;
pub mod opcode;
pub mod semantics;

pub use instruction::{
    AluOp, Condition, Instruction, Operand, Reg16, Reg8, ShiftOp, StackReg,
};
pub use alu_instructions::alu_helper;
pub use semantics::ALUOP;
pub use opcode::OPCode;
