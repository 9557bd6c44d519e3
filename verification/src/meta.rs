//! Metadata for the 8080 instruction set and the assembler's
//! meta-instructions.
//!
//! One record per code: the 256 real opcodes live at 0x00..=0xff and the
//! eleven meta-instructions (DB, DW, DS, EQU, SET, ORG, END, IF, ENDIF,
//! MACRO, ENDM) at 0x100..=0x10a.  This table is the single source of truth
//! shared by the assembler, the disassembler and the emulator: the mnemonic,
//! how many arguments the assembly form takes, whether the binary form
//! carries an immediate byte (`argb`) or little-endian word (`argw`), the
//! `define`/`labelled` directive flags, and the base cycle cost.

use vstd::prelude::*;
use vstd::string::StringSliceAdditionalSpecFns;

verus! {

/// Highest table index plus one: 256 opcodes and 11 meta-instructions.
pub const OP_META_COUNT: u16 = 0x10b;

#[derive(Clone, Copy, Debug)]
pub struct OpMeta {
    pub op: &'static str,
    pub asm_arg_count: usize,
    pub argb: bool,
    pub argw: bool,
    pub define: bool,
    pub labelled: bool,
    pub cycles: u8,
}

/// The ghost image of an [`OpMeta`] record, with the mnemonic kept apart
/// (see [`op_name`]).
pub ghost struct OpInfo {
    pub arg_count: usize,
    pub argb: bool,
    pub argw: bool,
    pub define: bool,
    pub labelled: bool,
    pub cycles: u8,
}

/// Bytes the binary form of a code occupies: opcode plus immediate.
pub open spec fn spec_op_width(i: OpInfo) -> usize {
    if i.argw { 3 } else if i.argb { 2 } else { 1 }
}

impl OpMeta {
    pub open spec fn matches(self, code: u16) -> bool {
        &&& self.op.spec_bytes() == op_name(code)
        &&& self.asm_arg_count == op_info(code).arg_count
        &&& self.argb == op_info(code).argb
        &&& self.argw == op_info(code).argw
        &&& self.define == op_info(code).define
        &&& self.labelled == op_info(code).labelled
        &&& self.cycles == op_info(code).cycles
    }

    pub fn empty() -> (m: OpMeta)
        ensures
            m.op.spec_bytes() == Seq::<u8>::empty(),
            m.asm_arg_count == 0 && !m.argb && !m.argw && !m.define && !m.labelled
                && m.cycles == 0,
    {
        let m = OpMeta { op: "", asm_arg_count: 0, argb: false, argw: false, define: false,
            labelled: false, cycles: 0 };
        proof {
            reveal_strlit("");
            assert(m.op.spec_bytes() =~= Seq::<u8>::empty());
        }
        m
    }

    pub fn new_no_args(op: &'static str, asm_arg_count: usize, cycles: u8) -> (m: OpMeta)
        ensures
            m == (OpMeta { op, asm_arg_count, argb: false, argw: false, define: false,
                labelled: false, cycles }),
    {
        OpMeta { op, asm_arg_count, argb: false, argw: false, define: false,
            labelled: false, cycles }
    }

    pub fn new_argb(op: &'static str, asm_arg_count: usize, cycles: u8) -> (m: OpMeta)
        ensures
            m == (OpMeta { op, asm_arg_count, argb: true, argw: false, define: false,
                labelled: false, cycles }),
    {
        OpMeta { op, asm_arg_count, argb: true, argw: false, define: false,
            labelled: false, cycles }
    }

    pub fn new_argw(op: &'static str, asm_arg_count: usize, cycles: u8) -> (m: OpMeta)
        ensures
            m == (OpMeta { op, asm_arg_count, argb: false, argw: true, define: false,
                labelled: false, cycles }),
    {
        OpMeta { op, asm_arg_count, argb: false, argw: true, define: false,
            labelled: false, cycles }
    }

    pub fn new_define(op: &'static str, asm_arg_count: usize) -> (m: OpMeta)
        ensures
            m == (OpMeta { op, asm_arg_count, argb: false, argw: false, define: true,
                labelled: false, cycles: 0 }),
    {
        OpMeta { op, asm_arg_count, argb: false, argw: false, define: true,
            labelled: false, cycles: 0 }
    }

    pub fn new_labelled(op: &'static str, asm_arg_count: usize) -> (m: OpMeta)
        ensures
            m == (OpMeta { op, asm_arg_count, argb: false, argw: false, define: false,
                labelled: true, cycles: 0 }),
    {
        OpMeta { op, asm_arg_count, argb: false, argw: false, define: false,
            labelled: true, cycles: 0 }
    }

    pub fn width(&self) -> (w: usize)
        ensures
            w == (if self.argw { 3int } else if self.argb { 2 } else { 1 }),
    {
        if self.argw {
            3
        } else if self.argb {
            2
        } else {
            1
        }
    }
}

#[verifier::opaque]
pub open spec fn op_name_0(code: u16) -> Seq<u8> {
    match code {
        0x0 => "NOP".spec_bytes(),
        0x1 => "LXI B".spec_bytes(),
        0x2 => "STAX B".spec_bytes(),
        0x3 => "INX B".spec_bytes(),
        0x4 => "INR B".spec_bytes(),
        0x5 => "DCR B".spec_bytes(),
        0x6 => "MVI B".spec_bytes(),
        0x7 => "RLD".spec_bytes(),
        0x8 => "---".spec_bytes(),
        0x9 => "DAD B".spec_bytes(),
        0xa => "LDAX B".spec_bytes(),
        0xb => "DCX B".spec_bytes(),
        0xc => "INR C".spec_bytes(),
        0xd => "DCR C".spec_bytes(),
        0xe => "MVI C".spec_bytes(),
        0xf => "RRC".spec_bytes(),
        0x10 => "---".spec_bytes(),
        0x11 => "LXI D".spec_bytes(),
        0x12 => "STAX D".spec_bytes(),
        0x13 => "INX D".spec_bytes(),
        0x14 => "INR D".spec_bytes(),
        0x15 => "DCR D".spec_bytes(),
        0x16 => "MVI D".spec_bytes(),
        0x17 => "RAL".spec_bytes(),
        0x18 => "---".spec_bytes(),
        0x19 => "DAD D".spec_bytes(),
        0x1a => "LDAX D".spec_bytes(),
        0x1b => "DCX D".spec_bytes(),
        0x1c => "INR E".spec_bytes(),
        0x1d => "DCR E".spec_bytes(),
        0x1e => "MVI E".spec_bytes(),
        0x1f => "RAR".spec_bytes(),
        0x20 => "---".spec_bytes(),
        0x21 => "LXI H".spec_bytes(),
        0x22 => "SHDL".spec_bytes(),
        0x23 => "INX H".spec_bytes(),
        0x24 => "INR H".spec_bytes(),
        0x25 => "DCR H".spec_bytes(),
        0x26 => "MVI H".spec_bytes(),
        0x27 => "DAA".spec_bytes(),
        0x28 => "---".spec_bytes(),
        0x29 => "DAD H".spec_bytes(),
        0x2a => "LHDL".spec_bytes(),
        0x2b => "DCX H".spec_bytes(),
        0x2c => "INR L".spec_bytes(),
        0x2d => "DCR L".spec_bytes(),
        0x2e => "MVI L".spec_bytes(),
        0x2f => "CMA".spec_bytes(),
        0x30 => "---".spec_bytes(),
        0x31 => "LXI SP".spec_bytes(),
        0x32 => "STA".spec_bytes(),
        0x33 => "INX SP".spec_bytes(),
        0x34 => "INR M".spec_bytes(),
        0x35 => "DCR M".spec_bytes(),
        0x36 => "MVI M".spec_bytes(),
        0x37 => "STC".spec_bytes(),
        0x38 => "---".spec_bytes(),
        0x39 => "DAD SP".spec_bytes(),
        0x3a => "LDA".spec_bytes(),
        0x3b => "DCX SP".spec_bytes(),
        0x3c => "INR A".spec_bytes(),
        0x3d => "DCR A".spec_bytes(),
        0x3e => "MVI A".spec_bytes(),
        0x3f => "CMC".spec_bytes(),
        _ => Seq::<u8>::empty(),
    }
}

#[verifier::opaque]
pub open spec fn op_info_0(code: u16) -> OpInfo {
    match code {
        0x0 => OpInfo { arg_count: 0, argb: false, argw: false, define: false, labelled: false, cycles: 4 },
        0x1 => OpInfo { arg_count: 2, argb: false, argw: true, define: false, labelled: false, cycles: 4 },
        0x2 => OpInfo { arg_count: 1, argb: false, argw: false, define: false, labelled: false, cycles: 7 },
        0x3 => OpInfo { arg_count: 1, argb: false, argw: false, define: false, labelled: false, cycles: 5 },
        0x4 => OpInfo { arg_count: 1, argb: false, argw: false, define: false, labelled: false, cycles: 5 },
        0x5 => OpInfo { arg_count: 1, argb: false, argw: false, define: false, labelled: false, cycles: 5 },
        0x6 => OpInfo { arg_count: 2, argb: true, argw: false, define: false, labelled: false, cycles: 7 },
        0x7 => OpInfo { arg_count: 0, argb: false, argw: false, define: false, labelled: false, cycles: 4 },
        0x8 => OpInfo { arg_count: 0, argb: false, argw: false, define: false, labelled: false, cycles: 4 },
        0x9 => OpInfo { arg_count: 2, argb: true, argw: false, define: false, labelled: false, cycles: 10 },
        0xa => OpInfo { arg_count: 1, argb: false, argw: false, define: false, labelled: false, cycles: 7 },
        0xb => OpInfo { arg_count: 1, argb: false, argw: false, define: false, labelled: false, cycles: 5 },
        0xc => OpInfo { arg_count: 1, argb: false, argw: false, define: false, labelled: false, cycles: 5 },
        0xd => OpInfo { arg_count: 1, argb: false, argw: false, define: false, labelled: false, cycles: 5 },
        0xe => OpInfo { arg_count: 2, argb: true, argw: false, define: false, labelled: false, cycles: 7 },
        0xf => OpInfo { arg_count: 0, argb: false, argw: false, define: false, labelled: false, cycles: 4 },
        0x10 => OpInfo { arg_count: 0, argb: false, argw: false, define: false, labelled: false, cycles: 4 },
        0x11 => OpInfo { arg_count: 2, argb: false, argw: true, define: false, labelled: false, cycles: 4 },
        0x12 => OpInfo { arg_count: 1, argb: false, argw: false, define: false, labelled: false, cycles: 7 },
        0x13 => OpInfo { arg_count: 1, argb: false, argw: false, define: false, labelled: false, cycles: 5 },
        0x14 => OpInfo { arg_count: 1, argb: false, argw: false, define: false, labelled: false, cycles: 5 },
        0x15 => OpInfo { arg_count: 1, argb: false, argw: false, define: false, labelled: false, cycles: 5 },
        0x16 => OpInfo { arg_count: 2, argb: true, argw: false, define: false, labelled: false, cycles: 7 },
        0x17 => OpInfo { arg_count: 0, argb: false, argw: false, define: false, labelled: false, cycles: 4 },
        0x18 => OpInfo { arg_count: 0, argb: false, argw: false, define: false, labelled: false, cycles: 4 },
        0x19 => OpInfo { arg_count: 2, argb: true, argw: false, define: false, labelled: false, cycles: 10 },
        0x1a => OpInfo { arg_count: 1, argb: false, argw: false, define: false, labelled: false, cycles: 7 },
        0x1b => OpInfo { arg_count: 1, argb: false, argw: false, define: false, labelled: false, cycles: 5 },
        0x1c => OpInfo { arg_count: 1, argb: false, argw: false, define: false, labelled: false, cycles: 5 },
        0x1d => OpInfo { arg_count: 1, argb: false, argw: false, define: false, labelled: false, cycles: 5 },
        0x1e => OpInfo { arg_count: 2, argb: true, argw: false, define: false, labelled: false, cycles: 7 },
        0x1f => OpInfo { arg_count: 0, argb: false, argw: false, define: false, labelled: false, cycles: 4 },
        0x20 => OpInfo { arg_count: 0, argb: false, argw: false, define: false, labelled: false, cycles: 4 },
        0x21 => OpInfo { arg_count: 2, argb: false, argw: true, define: false, labelled: false, cycles: 4 },
        0x22 => OpInfo { arg_count: 1, argb: false, argw: true, define: false, labelled: false, cycles: 16 },
        0x23 => OpInfo { arg_count: 1, argb: false, argw: false, define: false, labelled: false, cycles: 5 },
        0x24 => OpInfo { arg_count: 1, argb: false, argw: false, define: false, labelled: false, cycles: 5 },
        0x25 => OpInfo { arg_count: 1, argb: false, argw: false, define: false, labelled: false, cycles: 5 },
        0x26 => OpInfo { arg_count: 2, argb: true, argw: false, define: false, labelled: false, cycles: 7 },
        0x27 => OpInfo { arg_count: 0, argb: false, argw: false, define: false, labelled: false, cycles: 4 },
        0x28 => OpInfo { arg_count: 0, argb: false, argw: false, define: false, labelled: false, cycles: 4 },
        0x29 => OpInfo { arg_count: 2, argb: true, argw: false, define: false, labelled: false, cycles: 10 },
        0x2a => OpInfo { arg_count: 1, argb: false, argw: true, define: false, labelled: false, cycles: 16 },
        0x2b => OpInfo { arg_count: 1, argb: false, argw: false, define: false, labelled: false, cycles: 5 },
        0x2c => OpInfo { arg_count: 1, argb: false, argw: false, define: false, labelled: false, cycles: 5 },
        0x2d => OpInfo { arg_count: 1, argb: false, argw: false, define: false, labelled: false, cycles: 5 },
        0x2e => OpInfo { arg_count: 2, argb: true, argw: false, define: false, labelled: false, cycles: 7 },
        0x2f => OpInfo { arg_count: 0, argb: false, argw: false, define: false, labelled: false, cycles: 4 },
        0x30 => OpInfo { arg_count: 0, argb: false, argw: false, define: false, labelled: false, cycles: 4 },
        0x31 => OpInfo { arg_count: 2, argb: false, argw: true, define: false, labelled: false, cycles: 4 },
        0x32 => OpInfo { arg_count: 1, argb: false, argw: true, define: false, labelled: false, cycles: 13 },
        0x33 => OpInfo { arg_count: 1, argb: false, argw: false, define: false, labelled: false, cycles: 5 },
        0x34 => OpInfo { arg_count: 1, argb: false, argw: false, define: false, labelled: false, cycles: 10 },
        0x35 => OpInfo { arg_count: 1, argb: false, argw: false, define: false, labelled: false, cycles: 10 },
        0x36 => OpInfo { arg_count: 2, argb: true, argw: false, define: false, labelled: false, cycles: 10 },
        0x37 => OpInfo { arg_count: 0, argb: false, argw: false, define: false, labelled: false, cycles: 4 },
        0x38 => OpInfo { arg_count: 0, argb: false, argw: false, define: false, labelled: false, cycles: 4 },
        0x39 => OpInfo { arg_count: 2, argb: true, argw: false, define: false, labelled: false, cycles: 10 },
        0x3a => OpInfo { arg_count: 1, argb: false, argw: true, define: false, labelled: false, cycles: 13 },
        0x3b => OpInfo { arg_count: 1, argb: false, argw: false, define: false, labelled: false, cycles: 5 },
        0x3c => OpInfo { arg_count: 1, argb: false, argw: false, define: false, labelled: false, cycles: 5 },
        0x3d => OpInfo { arg_count: 1, argb: false, argw: false, define: false, labelled: false, cycles: 5 },
        0x3e => OpInfo { arg_count: 2, argb: true, argw: false, define: false, labelled: false, cycles: 7 },
        0x3f => OpInfo { arg_count: 0, argb: false, argw: false, define: false, labelled: false, cycles: 4 },
        _ => OpInfo { arg_count: 0, argb: false, argw: false, define: false, labelled: false, cycles: 0 },
    }
}

#[verifier::opaque]
pub open spec fn op_name_1(code: u16) -> Seq<u8> {
    match code {
        0x40 => "MOV B, B".spec_bytes(),
        0x41 => "MOV B, C".spec_bytes(),
        0x42 => "MOV B, D".spec_bytes(),
        0x43 => "MOV B, E".spec_bytes(),
        0x44 => "MOV B, H".spec_bytes(),
        0x45 => "MOV B, L".spec_bytes(),
        0x46 => "MOV B, M".spec_bytes(),
        0x47 => "MOV B, A".spec_bytes(),
        0x48 => "MOV C, B".spec_bytes(),
        0x49 => "MOV C, C".spec_bytes(),
        0x4a => "MOV C, D".spec_bytes(),
        0x4b => "MOV C, E".spec_bytes(),
        0x4c => "MOV C, H".spec_bytes(),
        0x4d => "MOV C, L".spec_bytes(),
        0x4e => "MOV C, M".spec_bytes(),
        0x4f => "MOV C, A".spec_bytes(),
        0x50 => "MOV D, B".spec_bytes(),
        0x51 => "MOV D, C".spec_bytes(),
        0x52 => "MOV D, D".spec_bytes(),
        0x53 => "MOV D, E".spec_bytes(),
        0x54 => "MOV D, H".spec_bytes(),
        0x55 => "MOV D, L".spec_bytes(),
        0x56 => "MOV D, M".spec_bytes(),
        0x57 => "MOV D, A".spec_bytes(),
        0x58 => "MOV E, B".spec_bytes(),
        0x59 => "MOV E, C".spec_bytes(),
        0x5a => "MOV E, D".spec_bytes(),
        0x5b => "MOV E, E".spec_bytes(),
        0x5c => "MOV E, H".spec_bytes(),
        0x5d => "MOV E, L".spec_bytes(),
        0x5e => "MOV E, M".spec_bytes(),
        0x5f => "MOV E, A".spec_bytes(),
        0x60 => "MOV H, B".spec_bytes(),
        0x61 => "MOV H, C".spec_bytes(),
        0x62 => "MOV H, D".spec_bytes(),
        0x63 => "MOV H, E".spec_bytes(),
        0x64 => "MOV H, H".spec_bytes(),
        0x65 => "MOV H, L".spec_bytes(),
        0x66 => "MOV H, M".spec_bytes(),
        0x67 => "MOV H, A".spec_bytes(),
        0x68 => "MOV L, B".spec_bytes(),
        0x69 => "MOV L, C".spec_bytes(),
        0x6a => "MOV L, D".spec_bytes(),
        0x6b => "MOV L, E".spec_bytes(),
        0x6c => "MOV L, H".spec_bytes(),
        0x6d => "MOV L, L".spec_bytes(),
        0x6e => "MOV L, M".spec_bytes(),
        0x6f => "MOV L, A".spec_bytes(),
        0x70 => "MOV M, B".spec_bytes(),
        0x71 => "MOV M, C".spec_bytes(),
        0x72 => "MOV M, D".spec_bytes(),
        0x73 => "MOV M, E".spec_bytes(),
        0x74 => "MOV M, H".spec_bytes(),
        0x75 => "MOV M, L".spec_bytes(),
        0x76 => "HLT".spec_bytes(),
        0x77 => "MOV M, A".spec_bytes(),
        0x78 => "MOV A, B".spec_bytes(),
        0x79 => "MOV A, C".spec_bytes(),
        0x7a => "MOV A, D".spec_bytes(),
        0x7b => "MOV A, E".spec_bytes(),
        0x7c => "MOV A, H".spec_bytes(),
        0x7d => "MOV A, L".spec_bytes(),
        0x7e => "MOV A, M".spec_bytes(),
        0x7f => "MOV A, A".spec_bytes(),
        _ => Seq::<u8>::empty(),
    }
}

#[verifier::opaque]
pub open spec fn op_info_1(code: u16) -> OpInfo {
    match code {
        0x40 => OpInfo { arg_count: 2, argb: false, argw: false, define: false, labelled: false, cycles: 5 },
        0x41 => OpInfo { arg_count: 2, argb: false, argw: false, define: false, labelled: false, cycles: 5 },
        0x42 => OpInfo { arg_count: 2, argb: false, argw: false, define: false, labelled: false, cycles: 5 },
        0x43 => OpInfo { arg_count: 2, argb: false, argw: false, define: false, labelled: false, cycles: 5 },
        0x44 => OpInfo { arg_count: 2, argb: false, argw: false, define: false, labelled: false, cycles: 5 },
        0x45 => OpInfo { arg_count: 2, argb: false, argw: false, define: false, labelled: false, cycles: 5 },
        0x46 => OpInfo { arg_count: 2, argb: false, argw: false, define: false, labelled: false, cycles: 7 },
        0x47 => OpInfo { arg_count: 2, argb: false, argw: false, define: false, labelled: false, cycles: 5 },
        0x48 => OpInfo { arg_count: 2, argb: false, argw: false, define: false, labelled: false, cycles: 5 },
        0x49 => OpInfo { arg_count: 2, argb: false, argw: false, define: false, labelled: false, cycles: 5 },
        0x4a => OpInfo { arg_count: 2, argb: false, argw: false, define: false, labelled: false, cycles: 5 },
        0x4b => OpInfo { arg_count: 2, argb: false, argw: false, define: false, labelled: false, cycles: 5 },
        0x4c => OpInfo { arg_count: 2, argb: false, argw: false, define: false, labelled: false, cycles: 5 },
        0x4d => OpInfo { arg_count: 2, argb: false, argw: false, define: false, labelled: false, cycles: 5 },
        0x4e => OpInfo { arg_count: 2, argb: false, argw: false, define: false, labelled: false, cycles: 7 },
        0x4f => OpInfo { arg_count: 2, argb: false, argw: false, define: false, labelled: false, cycles: 5 },
        0x50 => OpInfo { arg_count: 2, argb: false, argw: false, define: false, labelled: false, cycles: 5 },
        0x51 => OpInfo { arg_count: 2, argb: false, argw: false, define: false, labelled: false, cycles: 5 },
        0x52 => OpInfo { arg_count: 2, argb: false, argw: false, define: false, labelled: false, cycles: 5 },
        0x53 => OpInfo { arg_count: 2, argb: false, argw: false, define: false, labelled: false, cycles: 5 },
        0x54 => OpInfo { arg_count: 2, argb: false, argw: false, define: false, labelled: false, cycles: 5 },
        0x55 => OpInfo { arg_count: 2, argb: false, argw: false, define: false, labelled: false, cycles: 5 },
        0x56 => OpInfo { arg_count: 2, argb: false, argw: false, define: false, labelled: false, cycles: 7 },
        0x57 => OpInfo { arg_count: 2, argb: false, argw: false, define: false, labelled: false, cycles: 5 },
        0x58 => OpInfo { arg_count: 2, argb: false, argw: false, define: false, labelled: false, cycles: 5 },
        0x59 => OpInfo { arg_count: 2, argb: false, argw: false, define: false, labelled: false, cycles: 5 },
        0x5a => OpInfo { arg_count: 2, argb: false, argw: false, define: false, labelled: false, cycles: 5 },
        0x5b => OpInfo { arg_count: 2, argb: false, argw: false, define: false, labelled: false, cycles: 5 },
        0x5c => OpInfo { arg_count: 2, argb: false, argw: false, define: false, labelled: false, cycles: 5 },
        0x5d => OpInfo { arg_count: 2, argb: false, argw: false, define: false, labelled: false, cycles: 5 },
        0x5e => OpInfo { arg_count: 2, argb: false, argw: false, define: false, labelled: false, cycles: 7 },
        0x5f => OpInfo { arg_count: 2, argb: false, argw: false, define: false, labelled: false, cycles: 5 },
        0x60 => OpInfo { arg_count: 2, argb: false, argw: false, define: false, labelled: false, cycles: 5 },
        0x61 => OpInfo { arg_count: 2, argb: false, argw: false, define: false, labelled: false, cycles: 5 },
        0x62 => OpInfo { arg_count: 2, argb: false, argw: false, define: false, labelled: false, cycles: 5 },
        0x63 => OpInfo { arg_count: 2, argb: false, argw: false, define: false, labelled: false, cycles: 5 },
        0x64 => OpInfo { arg_count: 2, argb: false, argw: false, define: false, labelled: false, cycles: 5 },
        0x65 => OpInfo { arg_count: 2, argb: false, argw: false, define: false, labelled: false, cycles: 5 },
        0x66 => OpInfo { arg_count: 2, argb: false, argw: false, define: false, labelled: false, cycles: 7 },
        0x67 => OpInfo { arg_count: 2, argb: false, argw: false, define: false, labelled: false, cycles: 5 },
        0x68 => OpInfo { arg_count: 2, argb: false, argw: false, define: false, labelled: false, cycles: 5 },
        0x69 => OpInfo { arg_count: 2, argb: false, argw: false, define: false, labelled: false, cycles: 5 },
        0x6a => OpInfo { arg_count: 2, argb: false, argw: false, define: false, labelled: false, cycles: 5 },
        0x6b => OpInfo { arg_count: 2, argb: false, argw: false, define: false, labelled: false, cycles: 5 },
        0x6c => OpInfo { arg_count: 2, argb: false, argw: false, define: false, labelled: false, cycles: 5 },
        0x6d => OpInfo { arg_count: 2, argb: false, argw: false, define: false, labelled: false, cycles: 5 },
        0x6e => OpInfo { arg_count: 2, argb: false, argw: false, define: false, labelled: false, cycles: 7 },
        0x6f => OpInfo { arg_count: 2, argb: false, argw: false, define: false, labelled: false, cycles: 5 },
        0x70 => OpInfo { arg_count: 2, argb: false, argw: false, define: false, labelled: false, cycles: 7 },
        0x71 => OpInfo { arg_count: 2, argb: false, argw: false, define: false, labelled: false, cycles: 7 },
        0x72 => OpInfo { arg_count: 2, argb: false, argw: false, define: false, labelled: false, cycles: 7 },
        0x73 => OpInfo { arg_count: 2, argb: false, argw: false, define: false, labelled: false, cycles: 7 },
        0x74 => OpInfo { arg_count: 2, argb: false, argw: false, define: false, labelled: false, cycles: 7 },
        0x75 => OpInfo { arg_count: 2, argb: false, argw: false, define: false, labelled: false, cycles: 7 },
        0x76 => OpInfo { arg_count: 0, argb: false, argw: false, define: false, labelled: false, cycles: 7 },
        0x77 => OpInfo { arg_count: 2, argb: false, argw: false, define: false, labelled: false, cycles: 7 },
        0x78 => OpInfo { arg_count: 2, argb: false, argw: false, define: false, labelled: false, cycles: 5 },
        0x79 => OpInfo { arg_count: 2, argb: false, argw: false, define: false, labelled: false, cycles: 5 },
        0x7a => OpInfo { arg_count: 2, argb: false, argw: false, define: false, labelled: false, cycles: 5 },
        0x7b => OpInfo { arg_count: 2, argb: false, argw: false, define: false, labelled: false, cycles: 5 },
        0x7c => OpInfo { arg_count: 2, argb: false, argw: false, define: false, labelled: false, cycles: 5 },
        0x7d => OpInfo { arg_count: 2, argb: false, argw: false, define: false, labelled: false, cycles: 5 },
        0x7e => OpInfo { arg_count: 2, argb: false, argw: false, define: false, labelled: false, cycles: 7 },
        0x7f => OpInfo { arg_count: 2, argb: false, argw: false, define: false, labelled: false, cycles: 5 },
        _ => OpInfo { arg_count: 0, argb: false, argw: false, define: false, labelled: false, cycles: 0 },
    }
}

#[verifier::opaque]
pub open spec fn op_name_2(code: u16) -> Seq<u8> {
    match code {
        0x80 => "ADD B".spec_bytes(),
        0x81 => "ADD C".spec_bytes(),
        0x82 => "ADD D".spec_bytes(),
        0x83 => "ADD E".spec_bytes(),
        0x84 => "ADD H".spec_bytes(),
        0x85 => "ADD L".spec_bytes(),
        0x86 => "ADD M".spec_bytes(),
        0x87 => "ADD A".spec_bytes(),
        0x88 => "ADC B".spec_bytes(),
        0x89 => "ADC C".spec_bytes(),
        0x8a => "ADC D".spec_bytes(),
        0x8b => "ADC E".spec_bytes(),
        0x8c => "ADC H".spec_bytes(),
        0x8d => "ADC L".spec_bytes(),
        0x8e => "ADC M".spec_bytes(),
        0x8f => "ADC A".spec_bytes(),
        0x90 => "SUB B".spec_bytes(),
        0x91 => "SUB C".spec_bytes(),
        0x92 => "SUB D".spec_bytes(),
        0x93 => "SUB E".spec_bytes(),
        0x94 => "SUB H".spec_bytes(),
        0x95 => "SUB L".spec_bytes(),
        0x96 => "SUB M".spec_bytes(),
        0x97 => "SUB A".spec_bytes(),
        0x98 => "SBB B".spec_bytes(),
        0x99 => "SBB C".spec_bytes(),
        0x9a => "SBB D".spec_bytes(),
        0x9b => "SBB E".spec_bytes(),
        0x9c => "SBB H".spec_bytes(),
        0x9d => "SBB L".spec_bytes(),
        0x9e => "SBB M".spec_bytes(),
        0x9f => "SBB A".spec_bytes(),
        0xa0 => "ANA B".spec_bytes(),
        0xa1 => "ANA C".spec_bytes(),
        0xa2 => "ANA D".spec_bytes(),
        0xa3 => "ANA E".spec_bytes(),
        0xa4 => "ANA H".spec_bytes(),
        0xa5 => "ANA L".spec_bytes(),
        0xa6 => "ANA M".spec_bytes(),
        0xa7 => "ANA A".spec_bytes(),
        0xa8 => "XRA B".spec_bytes(),
        0xa9 => "XRA C".spec_bytes(),
        0xaa => "XRA D".spec_bytes(),
        0xab => "XRA E".spec_bytes(),
        0xac => "XRA H".spec_bytes(),
        0xad => "XRA L".spec_bytes(),
        0xae => "XRA M".spec_bytes(),
        0xaf => "XRA A".spec_bytes(),
        0xb0 => "ORA B".spec_bytes(),
        0xb1 => "ORA C".spec_bytes(),
        0xb2 => "ORA D".spec_bytes(),
        0xb3 => "ORA E".spec_bytes(),
        0xb4 => "ORA H".spec_bytes(),
        0xb5 => "ORA L".spec_bytes(),
        0xb6 => "ORA M".spec_bytes(),
        0xb7 => "ORA A".spec_bytes(),
        0xb8 => "CMP B".spec_bytes(),
        0xb9 => "CMP C".spec_bytes(),
        0xba => "CMP D".spec_bytes(),
        0xbb => "CMP E".spec_bytes(),
        0xbc => "CMP H".spec_bytes(),
        0xbd => "CMP L".spec_bytes(),
        0xbe => "CMP M".spec_bytes(),
        0xbf => "CMP A".spec_bytes(),
        _ => Seq::<u8>::empty(),
    }
}

#[verifier::opaque]
pub open spec fn op_info_2(code: u16) -> OpInfo {
    match code {
        0x80 => OpInfo { arg_count: 1, argb: false, argw: false, define: false, labelled: false, cycles: 4 },
        0x81 => OpInfo { arg_count: 1, argb: false, argw: false, define: false, labelled: false, cycles: 4 },
        0x82 => OpInfo { arg_count: 1, argb: false, argw: false, define: false, labelled: false, cycles: 4 },
        0x83 => OpInfo { arg_count: 1, argb: false, argw: false, define: false, labelled: false, cycles: 4 },
        0x84 => OpInfo { arg_count: 1, argb: false, argw: false, define: false, labelled: false, cycles: 4 },
        0x85 => OpInfo { arg_count: 1, argb: false, argw: false, define: false, labelled: false, cycles: 4 },
        0x86 => OpInfo { arg_count: 1, argb: false, argw: false, define: false, labelled: false, cycles: 7 },
        0x87 => OpInfo { arg_count: 1, argb: false, argw: false, define: false, labelled: false, cycles: 4 },
        0x88 => OpInfo { arg_count: 1, argb: false, argw: false, define: false, labelled: false, cycles: 4 },
        0x89 => OpInfo { arg_count: 1, argb: false, argw: false, define: false, labelled: false, cycles: 4 },
        0x8a => OpInfo { arg_count: 1, argb: false, argw: false, define: false, labelled: false, cycles: 4 },
        0x8b => OpInfo { arg_count: 1, argb: false, argw: false, define: false, labelled: false, cycles: 4 },
        0x8c => OpInfo { arg_count: 1, argb: false, argw: false, define: false, labelled: false, cycles: 4 },
        0x8d => OpInfo { arg_count: 1, argb: false, argw: false, define: false, labelled: false, cycles: 4 },
        0x8e => OpInfo { arg_count: 1, argb: false, argw: false, define: false, labelled: false, cycles: 7 },
        0x8f => OpInfo { arg_count: 1, argb: false, argw: false, define: false, labelled: false, cycles: 4 },
        0x90 => OpInfo { arg_count: 1, argb: false, argw: false, define: false, labelled: false, cycles: 4 },
        0x91 => OpInfo { arg_count: 1, argb: false, argw: false, define: false, labelled: false, cycles: 4 },
        0x92 => OpInfo { arg_count: 1, argb: false, argw: false, define: false, labelled: false, cycles: 4 },
        0x93 => OpInfo { arg_count: 1, argb: false, argw: false, define: false, labelled: false, cycles: 4 },
        0x94 => OpInfo { arg_count: 1, argb: false, argw: false, define: false, labelled: false, cycles: 4 },
        0x95 => OpInfo { arg_count: 1, argb: false, argw: false, define: false, labelled: false, cycles: 4 },
        0x96 => OpInfo { arg_count: 1, argb: false, argw: false, define: false, labelled: false, cycles: 7 },
        0x97 => OpInfo { arg_count: 1, argb: false, argw: false, define: false, labelled: false, cycles: 4 },
        0x98 => OpInfo { arg_count: 1, argb: false, argw: false, define: false, labelled: false, cycles: 4 },
        0x99 => OpInfo { arg_count: 1, argb: false, argw: false, define: false, labelled: false, cycles: 4 },
        0x9a => OpInfo { arg_count: 1, argb: false, argw: false, define: false, labelled: false, cycles: 4 },
        0x9b => OpInfo { arg_count: 1, argb: false, argw: false, define: false, labelled: false, cycles: 4 },
        0x9c => OpInfo { arg_count: 1, argb: false, argw: false, define: false, labelled: false, cycles: 4 },
        0x9d => OpInfo { arg_count: 1, argb: false, argw: false, define: false, labelled: false, cycles: 4 },
        0x9e => OpInfo { arg_count: 1, argb: false, argw: false, define: false, labelled: false, cycles: 7 },
        0x9f => OpInfo { arg_count: 1, argb: false, argw: false, define: false, labelled: false, cycles: 4 },
        0xa0 => OpInfo { arg_count: 1, argb: false, argw: false, define: false, labelled: false, cycles: 4 },
        0xa1 => OpInfo { arg_count: 1, argb: false, argw: false, define: false, labelled: false, cycles: 4 },
        0xa2 => OpInfo { arg_count: 1, argb: false, argw: false, define: false, labelled: false, cycles: 4 },
        0xa3 => OpInfo { arg_count: 1, argb: false, argw: false, define: false, labelled: false, cycles: 4 },
        0xa4 => OpInfo { arg_count: 1, argb: false, argw: false, define: false, labelled: false, cycles: 4 },
        0xa5 => OpInfo { arg_count: 1, argb: false, argw: false, define: false, labelled: false, cycles: 4 },
        0xa6 => OpInfo { arg_count: 1, argb: false, argw: false, define: false, labelled: false, cycles: 7 },
        0xa7 => OpInfo { arg_count: 1, argb: false, argw: false, define: false, labelled: false, cycles: 4 },
        0xa8 => OpInfo { arg_count: 1, argb: false, argw: false, define: false, labelled: false, cycles: 4 },
        0xa9 => OpInfo { arg_count: 1, argb: false, argw: false, define: false, labelled: false, cycles: 4 },
        0xaa => OpInfo { arg_count: 1, argb: false, argw: false, define: false, labelled: false, cycles: 4 },
        0xab => OpInfo { arg_count: 1, argb: false, argw: false, define: false, labelled: false, cycles: 4 },
        0xac => OpInfo { arg_count: 1, argb: false, argw: false, define: false, labelled: false, cycles: 4 },
        0xad => OpInfo { arg_count: 1, argb: false, argw: false, define: false, labelled: false, cycles: 4 },
        0xae => OpInfo { arg_count: 1, argb: false, argw: false, define: false, labelled: false, cycles: 7 },
        0xaf => OpInfo { arg_count: 1, argb: false, argw: false, define: false, labelled: false, cycles: 4 },
        0xb0 => OpInfo { arg_count: 1, argb: false, argw: false, define: false, labelled: false, cycles: 4 },
        0xb1 => OpInfo { arg_count: 1, argb: false, argw: false, define: false, labelled: false, cycles: 4 },
        0xb2 => OpInfo { arg_count: 1, argb: false, argw: false, define: false, labelled: false, cycles: 4 },
        0xb3 => OpInfo { arg_count: 1, argb: false, argw: false, define: false, labelled: false, cycles: 4 },
        0xb4 => OpInfo { arg_count: 1, argb: false, argw: false, define: false, labelled: false, cycles: 4 },
        0xb5 => OpInfo { arg_count: 1, argb: false, argw: false, define: false, labelled: false, cycles: 4 },
        0xb6 => OpInfo { arg_count: 1, argb: false, argw: false, define: false, labelled: false, cycles: 7 },
        0xb7 => OpInfo { arg_count: 1, argb: false, argw: false, define: false, labelled: false, cycles: 4 },
        0xb8 => OpInfo { arg_count: 1, argb: false, argw: false, define: false, labelled: false, cycles: 4 },
        0xb9 => OpInfo { arg_count: 1, argb: false, argw: false, define: false, labelled: false, cycles: 4 },
        0xba => OpInfo { arg_count: 1, argb: false, argw: false, define: false, labelled: false, cycles: 4 },
        0xbb => OpInfo { arg_count: 1, argb: false, argw: false, define: false, labelled: false, cycles: 4 },
        0xbc => OpInfo { arg_count: 1, argb: false, argw: false, define: false, labelled: false, cycles: 4 },
        0xbd => OpInfo { arg_count: 1, argb: false, argw: false, define: false, labelled: false, cycles: 4 },
        0xbe => OpInfo { arg_count: 1, argb: false, argw: false, define: false, labelled: false, cycles: 7 },
        0xbf => OpInfo { arg_count: 1, argb: false, argw: false, define: false, labelled: false, cycles: 4 },
        _ => OpInfo { arg_count: 0, argb: false, argw: false, define: false, labelled: false, cycles: 0 },
    }
}

#[verifier::opaque]
pub open spec fn op_name_3(code: u16) -> Seq<u8> {
    match code {
        0xc0 => "RNZ".spec_bytes(),
        0xc1 => "POP B".spec_bytes(),
        0xc2 => "JNZ".spec_bytes(),
        0xc3 => "JMP".spec_bytes(),
        0xc4 => "CNZ".spec_bytes(),
        0xc5 => "PUSH B".spec_bytes(),
        0xc6 => "ADI".spec_bytes(),
        0xc7 => "RST 0".spec_bytes(),
        0xc8 => "RZ".spec_bytes(),
        0xc9 => "RET".spec_bytes(),
        0xca => "JZ".spec_bytes(),
        0xcb => "---".spec_bytes(),
        0xcc => "CZ".spec_bytes(),
        0xcd => "CALL".spec_bytes(),
        0xce => "ACI".spec_bytes(),
        0xcf => "RST 1".spec_bytes(),
        0xd0 => "RNC".spec_bytes(),
        0xd1 => "POP D".spec_bytes(),
        0xd2 => "JNC".spec_bytes(),
        0xd3 => "OUT".spec_bytes(),
        0xd4 => "CNC".spec_bytes(),
        0xd5 => "PUSH D".spec_bytes(),
        0xd6 => "SUI".spec_bytes(),
        0xd7 => "RST 2".spec_bytes(),
        0xd8 => "RC".spec_bytes(),
        0xd9 => "---".spec_bytes(),
        0xda => "JC".spec_bytes(),
        0xdb => "IN".spec_bytes(),
        0xdc => "CC".spec_bytes(),
        0xdd => "---".spec_bytes(),
        0xde => "SBI".spec_bytes(),
        0xdf => "RST 3".spec_bytes(),
        0xe0 => "RPO".spec_bytes(),
        0xe1 => "POP H".spec_bytes(),
        0xe2 => "JPO".spec_bytes(),
        0xe3 => "XTHL".spec_bytes(),
        0xe4 => "CPO".spec_bytes(),
        0xe5 => "PUSH H".spec_bytes(),
        0xe6 => "ANI".spec_bytes(),
        0xe7 => "RST 4".spec_bytes(),
        0xe8 => "RPE".spec_bytes(),
        0xe9 => "PCHL".spec_bytes(),
        0xea => "JPE".spec_bytes(),
        0xeb => "XCHG".spec_bytes(),
        0xec => "CPE".spec_bytes(),
        0xed => "---".spec_bytes(),
        0xee => "XRI".spec_bytes(),
        0xef => "RST 5".spec_bytes(),
        0xf0 => "RP".spec_bytes(),
        0xf1 => "POP PSW".spec_bytes(),
        0xf2 => "JP".spec_bytes(),
        0xf3 => "DI".spec_bytes(),
        0xf4 => "CP".spec_bytes(),
        0xf5 => "PUSH PSW".spec_bytes(),
        0xf6 => "ORI".spec_bytes(),
        0xf7 => "RST 6".spec_bytes(),
        0xf8 => "RM".spec_bytes(),
        0xf9 => "SPHL".spec_bytes(),
        0xfa => "JM".spec_bytes(),
        0xfb => "EI".spec_bytes(),
        0xfc => "CM".spec_bytes(),
        0xfd => "---".spec_bytes(),
        0xfe => "CPI".spec_bytes(),
        0xff => "RST 7".spec_bytes(),
        0x100 => "DB".spec_bytes(),
        0x101 => "DW".spec_bytes(),
        0x102 => "DS".spec_bytes(),
        0x103 => "EQU".spec_bytes(),
        0x104 => "SET".spec_bytes(),
        0x105 => "ORG".spec_bytes(),
        0x106 => "END".spec_bytes(),
        0x107 => "IF".spec_bytes(),
        0x108 => "ENDIF".spec_bytes(),
        0x109 => "MACRO".spec_bytes(),
        0x10a => "ENDM".spec_bytes(),
        _ => Seq::<u8>::empty(),
    }
}

#[verifier::opaque]
pub open spec fn op_info_3(code: u16) -> OpInfo {
    match code {
        0xc0 => OpInfo { arg_count: 1, argb: false, argw: false, define: false, labelled: false, cycles: 5 },
        0xc1 => OpInfo { arg_count: 1, argb: false, argw: false, define: false, labelled: false, cycles: 10 },
        0xc2 => OpInfo { arg_count: 1, argb: false, argw: true, define: false, labelled: false, cycles: 10 },
        0xc3 => OpInfo { arg_count: 1, argb: false, argw: true, define: false, labelled: false, cycles: 10 },
        0xc4 => OpInfo { arg_count: 1, argb: false, argw: true, define: false, labelled: false, cycles: 11 },
        0xc5 => OpInfo { arg_count: 1, argb: false, argw: false, define: false, labelled: false, cycles: 11 },
        0xc6 => OpInfo { arg_count: 1, argb: true, argw: false, define: false, labelled: false, cycles: 7 },
        0xc7 => OpInfo { arg_count: 1, argb: false, argw: false, define: false, labelled: false, cycles: 11 },
        0xc8 => OpInfo { arg_count: 1, argb: false, argw: false, define: false, labelled: false, cycles: 5 },
        0xc9 => OpInfo { arg_count: 1, argb: false, argw: false, define: false, labelled: false, cycles: 10 },
        0xca => OpInfo { arg_count: 1, argb: false, argw: true, define: false, labelled: false, cycles: 10 },
        0xcb => OpInfo { arg_count: 0, argb: false, argw: false, define: false, labelled: false, cycles: 4 },
        0xcc => OpInfo { arg_count: 1, argb: false, argw: true, define: false, labelled: false, cycles: 11 },
        0xcd => OpInfo { arg_count: 1, argb: false, argw: true, define: false, labelled: false, cycles: 17 },
        0xce => OpInfo { arg_count: 1, argb: true, argw: false, define: false, labelled: false, cycles: 7 },
        0xcf => OpInfo { arg_count: 1, argb: false, argw: false, define: false, labelled: false, cycles: 11 },
        0xd0 => OpInfo { arg_count: 1, argb: false, argw: false, define: false, labelled: false, cycles: 5 },
        0xd1 => OpInfo { arg_count: 1, argb: false, argw: false, define: false, labelled: false, cycles: 10 },
        0xd2 => OpInfo { arg_count: 1, argb: false, argw: true, define: false, labelled: false, cycles: 10 },
        0xd3 => OpInfo { arg_count: 1, argb: true, argw: false, define: false, labelled: false, cycles: 10 },
        0xd4 => OpInfo { arg_count: 1, argb: false, argw: true, define: false, labelled: false, cycles: 11 },
        0xd5 => OpInfo { arg_count: 1, argb: false, argw: false, define: false, labelled: false, cycles: 11 },
        0xd6 => OpInfo { arg_count: 1, argb: true, argw: false, define: false, labelled: false, cycles: 7 },
        0xd7 => OpInfo { arg_count: 1, argb: false, argw: false, define: false, labelled: false, cycles: 11 },
        0xd8 => OpInfo { arg_count: 1, argb: false, argw: false, define: false, labelled: false, cycles: 5 },
        0xd9 => OpInfo { arg_count: 0, argb: false, argw: false, define: false, labelled: false, cycles: 4 },
        0xda => OpInfo { arg_count: 1, argb: false, argw: true, define: false, labelled: false, cycles: 10 },
        0xdb => OpInfo { arg_count: 1, argb: true, argw: false, define: false, labelled: false, cycles: 10 },
        0xdc => OpInfo { arg_count: 1, argb: false, argw: true, define: false, labelled: false, cycles: 11 },
        0xdd => OpInfo { arg_count: 0, argb: false, argw: false, define: false, labelled: false, cycles: 4 },
        0xde => OpInfo { arg_count: 1, argb: true, argw: false, define: false, labelled: false, cycles: 7 },
        0xdf => OpInfo { arg_count: 1, argb: false, argw: false, define: false, labelled: false, cycles: 11 },
        0xe0 => OpInfo { arg_count: 1, argb: false, argw: false, define: false, labelled: false, cycles: 5 },
        0xe1 => OpInfo { arg_count: 1, argb: false, argw: false, define: false, labelled: false, cycles: 10 },
        0xe2 => OpInfo { arg_count: 1, argb: false, argw: true, define: false, labelled: false, cycles: 10 },
        0xe3 => OpInfo { arg_count: 0, argb: false, argw: false, define: false, labelled: false, cycles: 18 },
        0xe4 => OpInfo { arg_count: 1, argb: false, argw: true, define: false, labelled: false, cycles: 11 },
        0xe5 => OpInfo { arg_count: 1, argb: false, argw: false, define: false, labelled: false, cycles: 11 },
        0xe6 => OpInfo { arg_count: 1, argb: true, argw: false, define: false, labelled: false, cycles: 7 },
        0xe7 => OpInfo { arg_count: 1, argb: false, argw: false, define: false, labelled: false, cycles: 11 },
        0xe8 => OpInfo { arg_count: 1, argb: false, argw: false, define: false, labelled: false, cycles: 5 },
        0xe9 => OpInfo { arg_count: 0, argb: false, argw: false, define: false, labelled: false, cycles: 5 },
        0xea => OpInfo { arg_count: 1, argb: false, argw: true, define: false, labelled: false, cycles: 10 },
        0xeb => OpInfo { arg_count: 0, argb: false, argw: false, define: false, labelled: false, cycles: 4 },
        0xec => OpInfo { arg_count: 1, argb: false, argw: true, define: false, labelled: false, cycles: 11 },
        0xed => OpInfo { arg_count: 0, argb: false, argw: false, define: false, labelled: false, cycles: 4 },
        0xee => OpInfo { arg_count: 1, argb: true, argw: false, define: false, labelled: false, cycles: 7 },
        0xef => OpInfo { arg_count: 1, argb: false, argw: false, define: false, labelled: false, cycles: 11 },
        0xf0 => OpInfo { arg_count: 1, argb: false, argw: false, define: false, labelled: false, cycles: 5 },
        0xf1 => OpInfo { arg_count: 1, argb: false, argw: false, define: false, labelled: false, cycles: 10 },
        0xf2 => OpInfo { arg_count: 1, argb: false, argw: true, define: false, labelled: false, cycles: 10 },
        0xf3 => OpInfo { arg_count: 0, argb: false, argw: false, define: false, labelled: false, cycles: 4 },
        0xf4 => OpInfo { arg_count: 1, argb: false, argw: true, define: false, labelled: false, cycles: 11 },
        0xf5 => OpInfo { arg_count: 1, argb: false, argw: false, define: false, labelled: false, cycles: 11 },
        0xf6 => OpInfo { arg_count: 1, argb: true, argw: false, define: false, labelled: false, cycles: 7 },
        0xf7 => OpInfo { arg_count: 1, argb: false, argw: false, define: false, labelled: false, cycles: 11 },
        0xf8 => OpInfo { arg_count: 1, argb: false, argw: false, define: false, labelled: false, cycles: 5 },
        0xf9 => OpInfo { arg_count: 0, argb: false, argw: false, define: false, labelled: false, cycles: 5 },
        0xfa => OpInfo { arg_count: 1, argb: false, argw: true, define: false, labelled: false, cycles: 10 },
        0xfb => OpInfo { arg_count: 0, argb: false, argw: false, define: false, labelled: false, cycles: 4 },
        0xfc => OpInfo { arg_count: 1, argb: false, argw: true, define: false, labelled: false, cycles: 11 },
        0xfd => OpInfo { arg_count: 0, argb: false, argw: false, define: false, labelled: false, cycles: 4 },
        0xfe => OpInfo { arg_count: 1, argb: true, argw: false, define: false, labelled: false, cycles: 7 },
        0xff => OpInfo { arg_count: 1, argb: false, argw: false, define: false, labelled: false, cycles: 11 },
        0x100 => OpInfo { arg_count: 0, argb: false, argw: false, define: true, labelled: false, cycles: 0 },
        0x101 => OpInfo { arg_count: 0, argb: false, argw: false, define: true, labelled: false, cycles: 0 },
        0x102 => OpInfo { arg_count: 1, argb: true, argw: false, define: true, labelled: false, cycles: 0 },
        0x103 => OpInfo { arg_count: 1, argb: false, argw: true, define: false, labelled: true, cycles: 0 },
        0x104 => OpInfo { arg_count: 1, argb: false, argw: true, define: false, labelled: true, cycles: 0 },
        0x105 => OpInfo { arg_count: 1, argb: false, argw: true, define: false, labelled: false, cycles: 0 },
        0x106 => OpInfo { arg_count: 0, argb: false, argw: false, define: false, labelled: false, cycles: 0 },
        0x107 => OpInfo { arg_count: 1, argb: true, argw: false, define: false, labelled: false, cycles: 0 },
        0x108 => OpInfo { arg_count: 0, argb: false, argw: false, define: false, labelled: false, cycles: 0 },
        0x109 => OpInfo { arg_count: 0, argb: false, argw: false, define: false, labelled: true, cycles: 0 },
        0x10a => OpInfo { arg_count: 0, argb: false, argw: false, define: false, labelled: true, cycles: 0 },
        _ => OpInfo { arg_count: 0, argb: false, argw: false, define: false, labelled: false, cycles: 0 },
    }
}

/// The mnemonic of a table entry, as its bytes; empty for codes outside the
/// table.
pub open spec fn op_name(code: u16) -> Seq<u8> {
    if code < 0x40 { op_name_0(code) }
    else if code < 0x80 { op_name_1(code) }
    else if code < 0xc0 { op_name_2(code) }
    else { op_name_3(code) }
}

/// Every field of a table entry but the mnemonic; the all-zero record for
/// codes outside the table.
pub open spec fn op_info(code: u16) -> OpInfo {
    if code < 0x40 { op_info_0(code) }
    else if code < 0x80 { op_info_1(code) }
    else if code < 0xc0 { op_info_2(code) }
    else { op_info_3(code) }
}

fn op_meta_0(code: u16) -> (m: OpMeta)
    requires
        code < 0x40,
    ensures
        m.matches(code),
{
    proof {
        reveal(op_name_0);
        reveal(op_info_0);
    }
    match code {
        0x0 => OpMeta::new_no_args("NOP", 0, 4),
        0x1 => OpMeta::new_argw("LXI B", 2, 4),
        0x2 => OpMeta::new_no_args("STAX B", 1, 7),
        0x3 => OpMeta::new_no_args("INX B", 1, 5),
        0x4 => OpMeta::new_no_args("INR B", 1, 5),
        0x5 => OpMeta::new_no_args("DCR B", 1, 5),
        0x6 => OpMeta::new_argb("MVI B", 2, 7),
        0x7 => OpMeta::new_no_args("RLD", 0, 4),
        0x8 => OpMeta::new_no_args("---", 0, 4),
        0x9 => OpMeta::new_argb("DAD B", 2, 10),
        0xa => OpMeta::new_no_args("LDAX B", 1, 7),
        0xb => OpMeta::new_no_args("DCX B", 1, 5),
        0xc => OpMeta::new_no_args("INR C", 1, 5),
        0xd => OpMeta::new_no_args("DCR C", 1, 5),
        0xe => OpMeta::new_argb("MVI C", 2, 7),
        0xf => OpMeta::new_no_args("RRC", 0, 4),
        0x10 => OpMeta::new_no_args("---", 0, 4),
        0x11 => OpMeta::new_argw("LXI D", 2, 4),
        0x12 => OpMeta::new_no_args("STAX D", 1, 7),
        0x13 => OpMeta::new_no_args("INX D", 1, 5),
        0x14 => OpMeta::new_no_args("INR D", 1, 5),
        0x15 => OpMeta::new_no_args("DCR D", 1, 5),
        0x16 => OpMeta::new_argb("MVI D", 2, 7),
        0x17 => OpMeta::new_no_args("RAL", 0, 4),
        0x18 => OpMeta::new_no_args("---", 0, 4),
        0x19 => OpMeta::new_argb("DAD D", 2, 10),
        0x1a => OpMeta::new_no_args("LDAX D", 1, 7),
        0x1b => OpMeta::new_no_args("DCX D", 1, 5),
        0x1c => OpMeta::new_no_args("INR E", 1, 5),
        0x1d => OpMeta::new_no_args("DCR E", 1, 5),
        0x1e => OpMeta::new_argb("MVI E", 2, 7),
        0x1f => OpMeta::new_no_args("RAR", 0, 4),
        0x20 => OpMeta::new_no_args("---", 0, 4),
        0x21 => OpMeta::new_argw("LXI H", 2, 4),
        0x22 => OpMeta::new_argw("SHDL", 1, 16),
        0x23 => OpMeta::new_no_args("INX H", 1, 5),
        0x24 => OpMeta::new_no_args("INR H", 1, 5),
        0x25 => OpMeta::new_no_args("DCR H", 1, 5),
        0x26 => OpMeta::new_argb("MVI H", 2, 7),
        0x27 => OpMeta::new_no_args("DAA", 0, 4),
        0x28 => OpMeta::new_no_args("---", 0, 4),
        0x29 => OpMeta::new_argb("DAD H", 2, 10),
        0x2a => OpMeta::new_argw("LHDL", 1, 16),
        0x2b => OpMeta::new_no_args("DCX H", 1, 5),
        0x2c => OpMeta::new_no_args("INR L", 1, 5),
        0x2d => OpMeta::new_no_args("DCR L", 1, 5),
        0x2e => OpMeta::new_argb("MVI L", 2, 7),
        0x2f => OpMeta::new_no_args("CMA", 0, 4),
        0x30 => OpMeta::new_no_args("---", 0, 4),
        0x31 => OpMeta::new_argw("LXI SP", 2, 4),
        0x32 => OpMeta::new_argw("STA", 1, 13),
        0x33 => OpMeta::new_no_args("INX SP", 1, 5),
        0x34 => OpMeta::new_no_args("INR M", 1, 10),
        0x35 => OpMeta::new_no_args("DCR M", 1, 10),
        0x36 => OpMeta::new_argb("MVI M", 2, 10),
        0x37 => OpMeta::new_no_args("STC", 0, 4),
        0x38 => OpMeta::new_no_args("---", 0, 4),
        0x39 => OpMeta::new_argb("DAD SP", 2, 10),
        0x3a => OpMeta::new_argw("LDA", 1, 13),
        0x3b => OpMeta::new_no_args("DCX SP", 1, 5),
        0x3c => OpMeta::new_no_args("INR A", 1, 5),
        0x3d => OpMeta::new_no_args("DCR A", 1, 5),
        0x3e => OpMeta::new_argb("MVI A", 2, 7),
        0x3f => OpMeta::new_no_args("CMC", 0, 4),
        _ => OpMeta::empty(),
    }
}

fn op_meta_1(code: u16) -> (m: OpMeta)
    requires
        0x40 <= code < 0x80,
    ensures
        m.matches(code),
{
    proof {
        reveal(op_name_1);
        reveal(op_info_1);
    }
    match code {
        0x40 => OpMeta::new_no_args("MOV B, B", 2, 5),
        0x41 => OpMeta::new_no_args("MOV B, C", 2, 5),
        0x42 => OpMeta::new_no_args("MOV B, D", 2, 5),
        0x43 => OpMeta::new_no_args("MOV B, E", 2, 5),
        0x44 => OpMeta::new_no_args("MOV B, H", 2, 5),
        0x45 => OpMeta::new_no_args("MOV B, L", 2, 5),
        0x46 => OpMeta::new_no_args("MOV B, M", 2, 7),
        0x47 => OpMeta::new_no_args("MOV B, A", 2, 5),
        0x48 => OpMeta::new_no_args("MOV C, B", 2, 5),
        0x49 => OpMeta::new_no_args("MOV C, C", 2, 5),
        0x4a => OpMeta::new_no_args("MOV C, D", 2, 5),
        0x4b => OpMeta::new_no_args("MOV C, E", 2, 5),
        0x4c => OpMeta::new_no_args("MOV C, H", 2, 5),
        0x4d => OpMeta::new_no_args("MOV C, L", 2, 5),
        0x4e => OpMeta::new_no_args("MOV C, M", 2, 7),
        0x4f => OpMeta::new_no_args("MOV C, A", 2, 5),
        0x50 => OpMeta::new_no_args("MOV D, B", 2, 5),
        0x51 => OpMeta::new_no_args("MOV D, C", 2, 5),
        0x52 => OpMeta::new_no_args("MOV D, D", 2, 5),
        0x53 => OpMeta::new_no_args("MOV D, E", 2, 5),
        0x54 => OpMeta::new_no_args("MOV D, H", 2, 5),
        0x55 => OpMeta::new_no_args("MOV D, L", 2, 5),
        0x56 => OpMeta::new_no_args("MOV D, M", 2, 7),
        0x57 => OpMeta::new_no_args("MOV D, A", 2, 5),
        0x58 => OpMeta::new_no_args("MOV E, B", 2, 5),
        0x59 => OpMeta::new_no_args("MOV E, C", 2, 5),
        0x5a => OpMeta::new_no_args("MOV E, D", 2, 5),
        0x5b => OpMeta::new_no_args("MOV E, E", 2, 5),
        0x5c => OpMeta::new_no_args("MOV E, H", 2, 5),
        0x5d => OpMeta::new_no_args("MOV E, L", 2, 5),
        0x5e => OpMeta::new_no_args("MOV E, M", 2, 7),
        0x5f => OpMeta::new_no_args("MOV E, A", 2, 5),
        0x60 => OpMeta::new_no_args("MOV H, B", 2, 5),
        0x61 => OpMeta::new_no_args("MOV H, C", 2, 5),
        0x62 => OpMeta::new_no_args("MOV H, D", 2, 5),
        0x63 => OpMeta::new_no_args("MOV H, E", 2, 5),
        0x64 => OpMeta::new_no_args("MOV H, H", 2, 5),
        0x65 => OpMeta::new_no_args("MOV H, L", 2, 5),
        0x66 => OpMeta::new_no_args("MOV H, M", 2, 7),
        0x67 => OpMeta::new_no_args("MOV H, A", 2, 5),
        0x68 => OpMeta::new_no_args("MOV L, B", 2, 5),
        0x69 => OpMeta::new_no_args("MOV L, C", 2, 5),
        0x6a => OpMeta::new_no_args("MOV L, D", 2, 5),
        0x6b => OpMeta::new_no_args("MOV L, E", 2, 5),
        0x6c => OpMeta::new_no_args("MOV L, H", 2, 5),
        0x6d => OpMeta::new_no_args("MOV L, L", 2, 5),
        0x6e => OpMeta::new_no_args("MOV L, M", 2, 7),
        0x6f => OpMeta::new_no_args("MOV L, A", 2, 5),
        0x70 => OpMeta::new_no_args("MOV M, B", 2, 7),
        0x71 => OpMeta::new_no_args("MOV M, C", 2, 7),
        0x72 => OpMeta::new_no_args("MOV M, D", 2, 7),
        0x73 => OpMeta::new_no_args("MOV M, E", 2, 7),
        0x74 => OpMeta::new_no_args("MOV M, H", 2, 7),
        0x75 => OpMeta::new_no_args("MOV M, L", 2, 7),
        0x76 => OpMeta::new_no_args("HLT", 0, 7),
        0x77 => OpMeta::new_no_args("MOV M, A", 2, 7),
        0x78 => OpMeta::new_no_args("MOV A, B", 2, 5),
        0x79 => OpMeta::new_no_args("MOV A, C", 2, 5),
        0x7a => OpMeta::new_no_args("MOV A, D", 2, 5),
        0x7b => OpMeta::new_no_args("MOV A, E", 2, 5),
        0x7c => OpMeta::new_no_args("MOV A, H", 2, 5),
        0x7d => OpMeta::new_no_args("MOV A, L", 2, 5),
        0x7e => OpMeta::new_no_args("MOV A, M", 2, 7),
        0x7f => OpMeta::new_no_args("MOV A, A", 2, 5),
        _ => OpMeta::empty(),
    }
}

fn op_meta_2(code: u16) -> (m: OpMeta)
    requires
        0x80 <= code < 0xc0,
    ensures
        m.matches(code),
{
    proof {
        reveal(op_name_2);
        reveal(op_info_2);
    }
    match code {
        0x80 => OpMeta::new_no_args("ADD B", 1, 4),
        0x81 => OpMeta::new_no_args("ADD C", 1, 4),
        0x82 => OpMeta::new_no_args("ADD D", 1, 4),
        0x83 => OpMeta::new_no_args("ADD E", 1, 4),
        0x84 => OpMeta::new_no_args("ADD H", 1, 4),
        0x85 => OpMeta::new_no_args("ADD L", 1, 4),
        0x86 => OpMeta::new_no_args("ADD M", 1, 7),
        0x87 => OpMeta::new_no_args("ADD A", 1, 4),
        0x88 => OpMeta::new_no_args("ADC B", 1, 4),
        0x89 => OpMeta::new_no_args("ADC C", 1, 4),
        0x8a => OpMeta::new_no_args("ADC D", 1, 4),
        0x8b => OpMeta::new_no_args("ADC E", 1, 4),
        0x8c => OpMeta::new_no_args("ADC H", 1, 4),
        0x8d => OpMeta::new_no_args("ADC L", 1, 4),
        0x8e => OpMeta::new_no_args("ADC M", 1, 7),
        0x8f => OpMeta::new_no_args("ADC A", 1, 4),
        0x90 => OpMeta::new_no_args("SUB B", 1, 4),
        0x91 => OpMeta::new_no_args("SUB C", 1, 4),
        0x92 => OpMeta::new_no_args("SUB D", 1, 4),
        0x93 => OpMeta::new_no_args("SUB E", 1, 4),
        0x94 => OpMeta::new_no_args("SUB H", 1, 4),
        0x95 => OpMeta::new_no_args("SUB L", 1, 4),
        0x96 => OpMeta::new_no_args("SUB M", 1, 7),
        0x97 => OpMeta::new_no_args("SUB A", 1, 4),
        0x98 => OpMeta::new_no_args("SBB B", 1, 4),
        0x99 => OpMeta::new_no_args("SBB C", 1, 4),
        0x9a => OpMeta::new_no_args("SBB D", 1, 4),
        0x9b => OpMeta::new_no_args("SBB E", 1, 4),
        0x9c => OpMeta::new_no_args("SBB H", 1, 4),
        0x9d => OpMeta::new_no_args("SBB L", 1, 4),
        0x9e => OpMeta::new_no_args("SBB M", 1, 7),
        0x9f => OpMeta::new_no_args("SBB A", 1, 4),
        0xa0 => OpMeta::new_no_args("ANA B", 1, 4),
        0xa1 => OpMeta::new_no_args("ANA C", 1, 4),
        0xa2 => OpMeta::new_no_args("ANA D", 1, 4),
        0xa3 => OpMeta::new_no_args("ANA E", 1, 4),
        0xa4 => OpMeta::new_no_args("ANA H", 1, 4),
        0xa5 => OpMeta::new_no_args("ANA L", 1, 4),
        0xa6 => OpMeta::new_no_args("ANA M", 1, 7),
        0xa7 => OpMeta::new_no_args("ANA A", 1, 4),
        0xa8 => OpMeta::new_no_args("XRA B", 1, 4),
        0xa9 => OpMeta::new_no_args("XRA C", 1, 4),
        0xaa => OpMeta::new_no_args("XRA D", 1, 4),
        0xab => OpMeta::new_no_args("XRA E", 1, 4),
        0xac => OpMeta::new_no_args("XRA H", 1, 4),
        0xad => OpMeta::new_no_args("XRA L", 1, 4),
        0xae => OpMeta::new_no_args("XRA M", 1, 7),
        0xaf => OpMeta::new_no_args("XRA A", 1, 4),
        0xb0 => OpMeta::new_no_args("ORA B", 1, 4),
        0xb1 => OpMeta::new_no_args("ORA C", 1, 4),
        0xb2 => OpMeta::new_no_args("ORA D", 1, 4),
        0xb3 => OpMeta::new_no_args("ORA E", 1, 4),
        0xb4 => OpMeta::new_no_args("ORA H", 1, 4),
        0xb5 => OpMeta::new_no_args("ORA L", 1, 4),
        0xb6 => OpMeta::new_no_args("ORA M", 1, 7),
        0xb7 => OpMeta::new_no_args("ORA A", 1, 4),
        0xb8 => OpMeta::new_no_args("CMP B", 1, 4),
        0xb9 => OpMeta::new_no_args("CMP C", 1, 4),
        0xba => OpMeta::new_no_args("CMP D", 1, 4),
        0xbb => OpMeta::new_no_args("CMP E", 1, 4),
        0xbc => OpMeta::new_no_args("CMP H", 1, 4),
        0xbd => OpMeta::new_no_args("CMP L", 1, 4),
        0xbe => OpMeta::new_no_args("CMP M", 1, 7),
        0xbf => OpMeta::new_no_args("CMP A", 1, 4),
        _ => OpMeta::empty(),
    }
}

fn op_meta_3(code: u16) -> (m: OpMeta)
    requires
        0xc0 <= code < 0x10b,
    ensures
        m.matches(code),
{
    proof {
        reveal(op_name_3);
        reveal(op_info_3);
    }
    match code {
        0xc0 => OpMeta::new_no_args("RNZ", 1, 5),
        0xc1 => OpMeta::new_no_args("POP B", 1, 10),
        0xc2 => OpMeta::new_argw("JNZ", 1, 10),
        0xc3 => OpMeta::new_argw("JMP", 1, 10),
        0xc4 => OpMeta::new_argw("CNZ", 1, 11),
        0xc5 => OpMeta::new_no_args("PUSH B", 1, 11),
        0xc6 => OpMeta::new_argb("ADI", 1, 7),
        0xc7 => OpMeta::new_no_args("RST 0", 1, 11),
        0xc8 => OpMeta::new_no_args("RZ", 1, 5),
        0xc9 => OpMeta::new_no_args("RET", 1, 10),
        0xca => OpMeta::new_argw("JZ", 1, 10),
        0xcb => OpMeta::new_no_args("---", 0, 4),
        0xcc => OpMeta::new_argw("CZ", 1, 11),
        0xcd => OpMeta::new_argw("CALL", 1, 17),
        0xce => OpMeta::new_argb("ACI", 1, 7),
        0xcf => OpMeta::new_no_args("RST 1", 1, 11),
        0xd0 => OpMeta::new_no_args("RNC", 1, 5),
        0xd1 => OpMeta::new_no_args("POP D", 1, 10),
        0xd2 => OpMeta::new_argw("JNC", 1, 10),
        0xd3 => OpMeta::new_argb("OUT", 1, 10),
        0xd4 => OpMeta::new_argw("CNC", 1, 11),
        0xd5 => OpMeta::new_no_args("PUSH D", 1, 11),
        0xd6 => OpMeta::new_argb("SUI", 1, 7),
        0xd7 => OpMeta::new_no_args("RST 2", 1, 11),
        0xd8 => OpMeta::new_no_args("RC", 1, 5),
        0xd9 => OpMeta::new_no_args("---", 0, 4),
        0xda => OpMeta::new_argw("JC", 1, 10),
        0xdb => OpMeta::new_argb("IN", 1, 10),
        0xdc => OpMeta::new_argw("CC", 1, 11),
        0xdd => OpMeta::new_no_args("---", 0, 4),
        0xde => OpMeta::new_argb("SBI", 1, 7),
        0xdf => OpMeta::new_no_args("RST 3", 1, 11),
        0xe0 => OpMeta::new_no_args("RPO", 1, 5),
        0xe1 => OpMeta::new_no_args("POP H", 1, 10),
        0xe2 => OpMeta::new_argw("JPO", 1, 10),
        0xe3 => OpMeta::new_no_args("XTHL", 0, 18),
        0xe4 => OpMeta::new_argw("CPO", 1, 11),
        0xe5 => OpMeta::new_no_args("PUSH H", 1, 11),
        0xe6 => OpMeta::new_argb("ANI", 1, 7),
        0xe7 => OpMeta::new_no_args("RST 4", 1, 11),
        0xe8 => OpMeta::new_no_args("RPE", 1, 5),
        0xe9 => OpMeta::new_no_args("PCHL", 0, 5),
        0xea => OpMeta::new_argw("JPE", 1, 10),
        0xeb => OpMeta::new_no_args("XCHG", 0, 4),
        0xec => OpMeta::new_argw("CPE", 1, 11),
        0xed => OpMeta::new_no_args("---", 0, 4),
        0xee => OpMeta::new_argb("XRI", 1, 7),
        0xef => OpMeta::new_no_args("RST 5", 1, 11),
        0xf0 => OpMeta::new_no_args("RP", 1, 5),
        0xf1 => OpMeta::new_no_args("POP PSW", 1, 10),
        0xf2 => OpMeta::new_argw("JP", 1, 10),
        0xf3 => OpMeta::new_no_args("DI", 0, 4),
        0xf4 => OpMeta::new_argw("CP", 1, 11),
        0xf5 => OpMeta::new_no_args("PUSH PSW", 1, 11),
        0xf6 => OpMeta::new_argb("ORI", 1, 7),
        0xf7 => OpMeta::new_no_args("RST 6", 1, 11),
        0xf8 => OpMeta::new_no_args("RM", 1, 5),
        0xf9 => OpMeta::new_no_args("SPHL", 0, 5),
        0xfa => OpMeta::new_argw("JM", 1, 10),
        0xfb => OpMeta::new_no_args("EI", 0, 4),
        0xfc => OpMeta::new_argw("CM", 1, 11),
        0xfd => OpMeta::new_no_args("---", 0, 4),
        0xfe => OpMeta::new_argb("CPI", 1, 7),
        0xff => OpMeta::new_no_args("RST 7", 1, 11),
        0x100 => OpMeta::new_define("DB", 0),
        0x101 => OpMeta::new_define("DW", 0),
        0x102 => { let mut m = OpMeta::new_define("DS", 1); m.argb = true; m },
        0x103 => { let mut m = OpMeta::new_labelled("EQU", 1); m.argw = true; m },
        0x104 => { let mut m = OpMeta::new_labelled("SET", 1); m.argw = true; m },
        0x105 => OpMeta::new_argw("ORG", 1, 0),
        0x106 => OpMeta::new_no_args("END", 0, 0),
        0x107 => OpMeta::new_argb("IF", 1, 0),
        0x108 => OpMeta::new_no_args("ENDIF", 0, 0),
        0x109 => OpMeta::new_labelled("MACRO", 0),
        0x10a => OpMeta::new_labelled("ENDM", 0),
        _ => OpMeta::empty(),
    }
}

/// Look one code up in the table.  Codes outside the table give the empty
/// record (empty mnemonic, no arguments, zero cycles).
pub fn op_meta(code: u16) -> (m: OpMeta)
    ensures
        m.matches(code),
{
    if code < 0x40 {
        op_meta_0(code)
    } else if code < 0x80 {
        op_meta_1(code)
    } else if code < 0xc0 {
        op_meta_2(code)
    } else if code < 0x10b {
        op_meta_3(code)
    } else {
        proof {
            reveal(op_name_3);
            reveal(op_info_3);
        }
        let m = OpMeta::empty();
        m
    }
}

/// The whole table as a vector indexed by code.
pub fn i8080_instruction_meta() -> (t: Vec<OpMeta>)
    ensures
        t.len() == OP_META_COUNT,
        forall|i: int| 0 <= i < t.len() ==> (#[trigger] t[i]).matches(i as u16),
{
    let mut t: Vec<OpMeta> = Vec::new();
    let mut code: u16 = 0;
    while code < OP_META_COUNT
        invariant
            code <= OP_META_COUNT,
            t.len() == code,
            forall|i: int| 0 <= i < t.len() ==> (#[trigger] t[i]).matches(i as u16),
        decreases OP_META_COUNT - code,
    {
        t.push(op_meta(code));
        code = code + 1;
    }
    t
}

} // verus!
