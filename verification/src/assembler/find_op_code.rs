//! Find the operation code for a mnemonic and its register arguments.
//!
//! Register-family mnemonics collapse over the register space: `MOV r1,r2`
//! is `0x40 + r1*8 + r2` with B=0, C=1, D=2, E=3, H=4, L=5, M=6, A=7; the
//! single-register families stride by 8 or 1 from a fixed base; the
//! word-register families accept B, D, H and SP (or PSW for the stack
//! pair), striding by 0x10; `LDAX`/`STAX` accept only B and D.  Anything
//! else is looked up in the table by its full mnemonic — which, before
//! expression resolution, gives a tentative code with all register
//! arguments read as zero.

use vstd::prelude::*;
use vstd::string::StringSliceAdditionalSpecFns;

use crate::assembler::errors::{OpParseError, OpParseErrorV};
use crate::meta::{op_meta, op_name, OP_META_COUNT};

verus! {

/// A register-to-register family: the code at base + arg0*8 + arg1.
pub open spec fn spec_with_all_regs(start: u16, arg0: u16, arg1: u16, extra: bool) -> Result<
    usize,
    OpParseErrorV,
> {
    if extra || arg0 > 7 || arg1 > 7 {
        Err(OpParseErrorV::UnknownRegister)
    } else {
        Ok((start + arg0 * 8 + arg1) as usize)
    }
}

/// A family over the B and D pairs alone: base, or base + 0x10.
pub open spec fn spec_with_b_or_d(start: u16, arg0: u16, extra: bool) -> Result<
    usize,
    OpParseErrorV,
> {
    if extra {
        Err(OpParseErrorV::InvalidRegister)
    } else if arg0 == 0 || arg0 == 2 {
        Ok((start + (arg0 / 2) * 0x10) as usize)
    } else {
        Err(OpParseErrorV::InvalidRegister)
    }
}

/// A word-register family: B, D, H stride by 0x10; SP or PSW is the fourth
/// slot.
pub open spec fn spec_with_word_regs(start: u16, arg0: u16, extra: bool) -> Result<
    usize,
    OpParseErrorV,
> {
    if extra {
        Ok((start + 3 * 0x10) as usize)
    } else if arg0 == 0 || arg0 == 2 || arg0 == 4 {
        Ok((start + (arg0 / 2) * 0x10) as usize)
    } else {
        Err(OpParseErrorV::InvalidRegister)
    }
}

/// The lowest table code at or above `code` whose mnemonic is the given
/// bytes.
pub open spec fn spec_find_by_name(inst: Seq<u8>, code: int) -> Option<int>
    decreases OP_META_COUNT - code,
{
    if code < 0 || code >= OP_META_COUNT {
        None
    } else if op_name(code as u16) == inst {
        Some(code)
    } else {
        spec_find_by_name(inst, code + 1)
    }
}

/// The code a mnemonic with resolved register arguments denotes, or why it
/// denotes none.  `MOV M, M` falls on the halt opcode and is rejected.
#[verifier::opaque]
pub open spec fn spec_from_args_and_sp_psw(
    inst: Seq<u8>,
    arg0: u16,
    arg1: u16,
    sp: bool,
    psw: bool,
) -> Result<usize, OpParseErrorV> {
    let extra = sp || psw;
    if inst == "MOV".spec_bytes() {
        match spec_with_all_regs(0x40, arg0, arg1, extra) {
            Ok(code) => if code == 0x76 {
                Err(OpParseErrorV::MovAsHalt)
            } else {
                Ok(code)
            },
            Err(e) => Err(e),
        }
    } else if inst == "MVI".spec_bytes() {
        spec_with_all_regs(0x06, arg0, 0, extra)
    } else if inst == "ADD".spec_bytes() {
        spec_with_all_regs(0x80, 0, arg0, extra)
    } else if inst == "ADC".spec_bytes() {
        spec_with_all_regs(0x88, 0, arg0, extra)
    } else if inst == "SUB".spec_bytes() {
        spec_with_all_regs(0x90, 0, arg0, extra)
    } else if inst == "SBB".spec_bytes() {
        spec_with_all_regs(0x98, 0, arg0, extra)
    } else if inst == "ANA".spec_bytes() {
        spec_with_all_regs(0xa0, 0, arg0, extra)
    } else if inst == "XRA".spec_bytes() {
        spec_with_all_regs(0xa8, 0, arg0, extra)
    } else if inst == "ORA".spec_bytes() {
        spec_with_all_regs(0xb0, 0, arg0, extra)
    } else if inst == "CMP".spec_bytes() {
        spec_with_all_regs(0xb8, 0, arg0, extra)
    } else if inst == "INR".spec_bytes() {
        spec_with_all_regs(0x04, arg0, 0, extra)
    } else if inst == "DCR".spec_bytes() {
        spec_with_all_regs(0x05, arg0, 0, extra)
    } else if inst == "RST".spec_bytes() {
        spec_with_all_regs(0xc7, arg0, 0, extra)
    } else if inst == "LXI".spec_bytes() {
        spec_with_word_regs(0x01, arg0, sp)
    } else if inst == "DAD".spec_bytes() {
        spec_with_word_regs(0x09, arg0, sp)
    } else if inst == "INX".spec_bytes() {
        spec_with_word_regs(0x03, arg0, sp)
    } else if inst == "DCX".spec_bytes() {
        spec_with_word_regs(0x0b, arg0, sp)
    } else if inst == "PUSH".spec_bytes() {
        spec_with_word_regs(0xc5, arg0, psw)
    } else if inst == "POP".spec_bytes() {
        spec_with_word_regs(0xc1, arg0, psw)
    } else if inst == "LDAX".spec_bytes() {
        spec_with_b_or_d(0x0a, arg0, extra)
    } else if inst == "STAX".spec_bytes() {
        spec_with_b_or_d(0x02, arg0, extra)
    } else {
        match spec_find_by_name(inst, 0) {
            Some(code) => Ok(code as usize),
            None => Err(OpParseErrorV::NoSuchInstruction(inst)),
        }
    }
}

fn with_all_regs(start: u16, arg0: u16, arg1: u16, extra: bool) -> (r: Result<usize, OpParseError>)
    requires
        start <= 0x100,
    ensures
        match spec_with_all_regs(start, arg0, arg1, extra) {
            Ok(c) => r is Ok && r->Ok_0 == c,
            Err(e) => r is Err && r->Err_0@ == e,
        },
{
    if extra || arg0 > 7 || arg1 > 7 {
        Err(OpParseError::UnknownRegister)
    } else {
        let idx = start + arg0 * 8 + arg1;
        Ok(idx as usize)
    }
}

fn with_b_or_d(start: u16, arg0: u16, extra: bool) -> (r: Result<usize, OpParseError>)
    requires
        start <= 0x100,
    ensures
        match spec_with_b_or_d(start, arg0, extra) {
            Ok(c) => r is Ok && r->Ok_0 == c,
            Err(e) => r is Err && r->Err_0@ == e,
        },
{
    if extra {
        Err(OpParseError::InvalidRegister)
    } else if arg0 == 0 || arg0 == 2 {
        let idx = start + (arg0 / 2) * 0x10;
        Ok(idx as usize)
    } else {
        Err(OpParseError::InvalidRegister)
    }
}

fn with_word_regs(start: u16, arg0: u16, extra: bool) -> (r: Result<usize, OpParseError>)
    requires
        start <= 0x100,
    ensures
        match spec_with_word_regs(start, arg0, extra) {
            Ok(c) => r is Ok && r->Ok_0 == c,
            Err(e) => r is Err && r->Err_0@ == e,
        },
{
    let offset: u16 = if extra {
        3
    } else if arg0 == 0 || arg0 == 2 || arg0 == 4 {
        arg0 / 2
    } else {
        return Err(OpParseError::InvalidRegister);
    };
    let idx = start + offset * 0x10;
    Ok(idx as usize)
}

/// The code for a mnemonic whose register arguments resolved to the given
/// values, with zero for both special flags.
pub fn from_args(inst: &Vec<u8>, arg0: u16, arg1: u16) -> (r: Result<usize, OpParseError>)
    ensures
        match spec_from_args_and_sp_psw(inst@, arg0, arg1, false, false) {
            Ok(c) => r is Ok && r->Ok_0 == c,
            Err(e) => r is Err && r->Err_0@ == e,
        },
{
    from_args_and_sp_psw(inst, arg0, arg1, false, false)
}

/// The code for a mnemonic whose register arguments resolved to the given
/// values, with the `SP` and `PSW` expression flags.
#[verifier::rlimit(100)]
pub fn from_args_and_sp_psw(inst: &Vec<u8>, arg0: u16, arg1: u16, sp: bool, psw: bool) -> (r:
    Result<usize, OpParseError>)
    ensures
        match spec_from_args_and_sp_psw(inst@, arg0, arg1, sp, psw) {
            Ok(c) => r is Ok && r->Ok_0 == c,
            Err(e) => r is Err && r->Err_0@ == e,
        },
{
    proof {
        reveal(spec_from_args_and_sp_psw);
    }
    let extra = sp || psw;
    if crate::util::bytes_eq(inst.as_slice(), "MOV".as_bytes()) {
        match with_all_regs(0x40, arg0, arg1, extra) {
            Ok(meta) => {
                if meta == 0x76 {
                    Err(OpParseError::MovAsHalt)
                } else {
                    Ok(meta)
                }
            },
            Err(e) => Err(e),
        }
    } else if crate::util::bytes_eq(inst.as_slice(), "MVI".as_bytes()) {
        with_all_regs(0x06, arg0, 0, extra)
    } else if crate::util::bytes_eq(inst.as_slice(), "ADD".as_bytes()) {
        with_all_regs(0x80, 0, arg0, extra)
    } else if crate::util::bytes_eq(inst.as_slice(), "ADC".as_bytes()) {
        with_all_regs(0x88, 0, arg0, extra)
    } else if crate::util::bytes_eq(inst.as_slice(), "SUB".as_bytes()) {
        with_all_regs(0x90, 0, arg0, extra)
    } else if crate::util::bytes_eq(inst.as_slice(), "SBB".as_bytes()) {
        with_all_regs(0x98, 0, arg0, extra)
    } else if crate::util::bytes_eq(inst.as_slice(), "ANA".as_bytes()) {
        with_all_regs(0xa0, 0, arg0, extra)
    } else if crate::util::bytes_eq(inst.as_slice(), "XRA".as_bytes()) {
        with_all_regs(0xa8, 0, arg0, extra)
    } else if crate::util::bytes_eq(inst.as_slice(), "ORA".as_bytes()) {
        with_all_regs(0xb0, 0, arg0, extra)
    } else if crate::util::bytes_eq(inst.as_slice(), "CMP".as_bytes()) {
        with_all_regs(0xb8, 0, arg0, extra)
    } else if crate::util::bytes_eq(inst.as_slice(), "INR".as_bytes()) {
        with_all_regs(0x04, arg0, 0, extra)
    } else if crate::util::bytes_eq(inst.as_slice(), "DCR".as_bytes()) {
        with_all_regs(0x05, arg0, 0, extra)
    } else if crate::util::bytes_eq(inst.as_slice(), "RST".as_bytes()) {
        with_all_regs(0xc7, arg0, 0, extra)
    } else if crate::util::bytes_eq(inst.as_slice(), "LXI".as_bytes()) {
        with_word_regs(0x01, arg0, sp)
    } else if crate::util::bytes_eq(inst.as_slice(), "DAD".as_bytes()) {
        with_word_regs(0x09, arg0, sp)
    } else if crate::util::bytes_eq(inst.as_slice(), "INX".as_bytes()) {
        with_word_regs(0x03, arg0, sp)
    } else if crate::util::bytes_eq(inst.as_slice(), "DCX".as_bytes()) {
        with_word_regs(0x0b, arg0, sp)
    } else if crate::util::bytes_eq(inst.as_slice(), "PUSH".as_bytes()) {
        with_word_regs(0xc5, arg0, psw)
    } else if crate::util::bytes_eq(inst.as_slice(), "POP".as_bytes()) {
        with_word_regs(0xc1, arg0, psw)
    } else if crate::util::bytes_eq(inst.as_slice(), "LDAX".as_bytes()) {
        with_b_or_d(0x0a, arg0, extra)
    } else if crate::util::bytes_eq(inst.as_slice(), "STAX".as_bytes()) {
        with_b_or_d(0x02, arg0, extra)
    } else {
        match find_by_name(inst) {
            Some(code) => Ok(code as usize),
            None => Err(OpParseError::NoSuchInstruction(crate::util::bytes_copy(inst))),
        }
    }
}

/// The lowest table code whose mnemonic is the given bytes.
fn find_by_name(inst: &Vec<u8>) -> (r: Option<u16>)
    ensures
        match spec_find_by_name(inst@, 0) {
            Some(code) => r is Some && r->0 == code,
            None => r is None,
        },
{
    let mut code: u16 = 0;
    while code < OP_META_COUNT
        invariant
            code <= OP_META_COUNT,
            spec_find_by_name(inst@, 0) == spec_find_by_name(inst@, code as int),
        decreases OP_META_COUNT - code,
    {
        let m = op_meta(code);
        if crate::util::bytes_eq(inst.as_slice(), m.op.as_bytes()) {
            return Some(code);
        }
        code = code + 1;
    }
    None
}

} // verus!
