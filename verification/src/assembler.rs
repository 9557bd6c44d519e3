//! The assembler and disassembler.

pub mod assemble;
pub mod disassemble;
pub mod errors;
pub mod expressions;
pub mod find_op_code;
pub mod label;
pub mod tokenizer;
