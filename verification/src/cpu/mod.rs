//! The 8088 execution unit: registers, arithmetic, operand access and the
//! opcode dispatcher.

pub mod alu;
pub mod bcd;
pub mod bus;
pub mod exec_alu;
pub mod exec_flow;
pub mod exec_group;
pub mod exec_io;
pub mod exec_mov;
pub mod exec_string;
pub mod execute;
pub mod instruction;
pub mod laws;
pub mod machine;
pub mod muldiv;
pub mod opcode;
pub mod operand;
pub mod registers;
pub mod rep;
pub mod shift;
pub mod stack;
pub mod string;
pub mod validate;
