//! The toolchain's command surface, as plain data.
//!
//! The host front end parses real command lines into these records (and
//! supplies file paths and I/O); the library only reads the knobs that
//! bear on assembly and emulation.

use vstd::prelude::*;

verus! {

/// Options of the assembler: append a final HLT, the load address baked
/// into label values, and whether the standard register EQUs (B=0 through
/// A=7) are predefined.
#[derive(Debug, Clone, Copy, PartialEq, Eq, Structural)]
pub struct AssembleArgs {
    pub hlt: bool,
    pub load_at: u16,
    pub register_definitions: bool,
}

/// Options of the emulator run.
#[derive(Debug, Clone, Copy, PartialEq, Eq, Structural)]
pub struct RunArgs {
    pub load_at: Option<u16>,
    pub randomize: bool,
    pub interactive: bool,
    pub assemble: bool,
    pub no_console: bool,
    pub emulate_clock_speed: bool,
}

/// Options of the disassembler (the host adds the file paths).
#[derive(Debug, Clone, Copy, PartialEq, Eq, Structural)]
pub struct DisassembleArgs {
    pub output_to_file: bool,
}

/// The chosen subcommand.
#[derive(Debug, Clone, Copy, PartialEq, Eq, Structural)]
pub enum Commands {
    Run(RunArgs),
    Assemble(AssembleArgs),
    Disassemble(DisassembleArgs),
}

/// A whole parsed command line.
#[derive(Debug, Clone, Copy, PartialEq, Eq, Structural)]
pub struct Cli {
    pub command: Commands,
}

} // verus!
