//! An Intel 8080 toolchain: assembler, disassembler and emulator.
//!
//! The assembler translates 8080 assembly source (with a small
//! macro/meta-instruction layer) into a flat binary image; the disassembler
//! turns a byte image back into text; the emulator executes such images.
//! All three share one opcode metadata table.

pub mod assembler;
pub mod cli;
pub mod meta;
pub mod sys;
pub mod util;
