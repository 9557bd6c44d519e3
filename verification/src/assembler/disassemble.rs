//! The disassembler: read a byte image back as text, one instruction at a
//! time.
//!
//! No structural recovery is attempted: data bytes disassemble as whatever
//! instructions they happen to spell.  An immediate byte is appended as
//! `0xnn`, an immediate word as `0xnnnn`, with a comma first when the
//! mnemonic already carries an operand.

use vstd::prelude::*;
use vstd::string::StringSliceAdditionalSpecFns;

use crate::assembler::errors::{DisassembleError, DisassembleErrorV};
use crate::meta::{op_info, op_meta, op_name, spec_op_width};
use crate::sys::registers::spec_pair;

verus! {

/// The lowercase hex digit of a value below 16.
pub open spec fn spec_hex_digit(d: u8) -> u8 {
    if d < 10 {
        (48 + d) as u8
    } else {
        (97 + (d - 10)) as u8
    }
}

/// A byte formatted `0xnn`.
pub open spec fn spec_hex_byte(b: u8) -> Seq<u8> {
    seq![48u8, 120u8, spec_hex_digit(b / 16), spec_hex_digit(b % 16)]
}

/// A word formatted `0xnnnn`.
pub open spec fn spec_hex_word(w: u16) -> Seq<u8> {
    seq![
        48u8,
        120u8,
        spec_hex_digit((w / 0x1000) as u8),
        spec_hex_digit(((w / 0x100) % 16) as u8),
        spec_hex_digit(((w / 16) % 16) as u8),
        spec_hex_digit((w % 16) as u8),
    ]
}

/// The text of the instruction at an offset and the bytes it occupies: the
/// mnemonic, then the formatted immediate if the opcode carries one.
pub open spec fn spec_disassemble_instruction(v: Seq<u8>, from: int) -> Result<
    (Seq<u8>, int),
    DisassembleErrorV,
> {
    if from < 0 || from >= v.len() {
        Err(DisassembleErrorV::NoRemainingBytes(from as usize))
    } else {
        let inst = v[from];
        let info = op_info(inst as u16);
        let w = spec_op_width(info);
        if v.len() - from < w {
            Err(
                DisassembleErrorV::NotEnoughBytes(
                    from as usize,
                    op_name(inst as u16),
                    v.subrange(from, v.len() as int),
                ),
            )
        } else {
            let comma: Seq<u8> = if info.arg_count == 2 {
                seq![44u8]
            } else {
                Seq::empty()
            };
            let text = if info.argb {
                op_name(inst as u16) + comma + seq![32u8] + spec_hex_byte(v[from + 1])
            } else if info.argw {
                op_name(inst as u16) + comma + seq![32u8] + spec_hex_word(
                    spec_pair(v[from + 2], v[from + 1]),
                )
            } else {
                op_name(inst as u16)
            };
            Ok((text, w as int))
        }
    }
}

/// The whole image disassembled from an offset.
pub open spec fn spec_disassemble_vec(v: Seq<u8>, from: int, acc: Seq<Seq<u8>>) -> Result<
    Seq<Seq<u8>>,
    DisassembleErrorV,
>
    decreases v.len() - from,
{
    if from < 0 || from >= v.len() {
        Ok(acc)
    } else {
        match spec_disassemble_instruction(v, from) {
            Err(e) => Err(e),
            Ok((text, w)) => spec_disassemble_vec(v, from + w, acc.push(text)),
        }
    }
}

pub(crate) fn hex_digit(d: u8) -> (r: u8)
    requires
        d < 16,
    ensures
        r == spec_hex_digit(d),
{
    if d < 10 {
        48 + d
    } else {
        97 + (d - 10)
    }
}

/// Disassemble the instruction at an offset: its text and its width.
pub fn disassemble_instruction(v: &[u8], from: usize) -> (r: Result<
    (Vec<u8>, usize),
    DisassembleError,
>)
    ensures
        match spec_disassemble_instruction(v@, from as int) {
            Ok((text, w)) => r is Ok && r->Ok_0.0@ == text && r->Ok_0.1 == w,
            Err(e) => r is Err && r->Err_0@ == e,
        },
{
    if from >= v.len() {
        return Err(DisassembleError::NoRemainingBytes(from));
    }
    let inst = v[from];
    let meta = op_meta(inst as u16);
    let w = meta.width();
    if v.len() - from < w {
        let mut tail: Vec<u8> = Vec::new();
        let mut i = from;
        while i < v.len()
            invariant
                from <= i <= v.len(),
                tail@ =~= v@.subrange(from as int, i as int),
            decreases v.len() - i,
        {
            tail.push(v[i]);
            i = i + 1;
        }
        proof {
            assert(tail@ =~= v@.subrange(from as int, v@.len() as int));
        }
        return Err(DisassembleError::NotEnoughBytes(from, meta.op, tail));
    }
    let mut text: Vec<u8> = Vec::new();
    crate::util::push_bytes(&mut text, meta.op.as_bytes());
    proof {
        assert(text@ =~= op_name(inst as u16));
    }
    if meta.argb {
        if meta.asm_arg_count == 2 {
            text.push(44);
        }
        text.push(32);
        let b = v[from + 1];
        text.push(48);
        text.push(120);
        text.push(hex_digit(b / 16));
        text.push(hex_digit(b % 16));
        proof {
            assert(text@ =~= spec_disassemble_instruction(v@, from as int)->Ok_0.0);
        }
    } else if meta.argw {
        if meta.asm_arg_count == 2 {
            text.push(44);
        }
        text.push(32);
        let word: u16 = (v[from + 2] as u16) << 8 | v[from + 1] as u16;
        text.push(48);
        text.push(120);
        text.push(hex_digit((word / 0x1000) as u8));
        text.push(hex_digit(((word / 0x100) % 16) as u8));
        text.push(hex_digit(((word / 16) % 16) as u8));
        text.push(hex_digit((word % 16) as u8));
        proof {
            assert(text@ =~= spec_disassemble_instruction(v@, from as int)->Ok_0.0);
        }
    }
    Ok((text, w))
}

/// Disassemble a whole image into one text line per instruction.
pub fn disassemble_vec(v: &Vec<u8>) -> (r: Result<Vec<Vec<u8>>, DisassembleError>)
    ensures
        match spec_disassemble_vec(v@, 0, Seq::empty()) {
            Ok(lines) => r is Ok && crate::assembler::tokenizer::view_args(r->Ok_0@) == lines,
            Err(e) => r is Err && r->Err_0@ == e,
        },
{
    let ghost goal = spec_disassemble_vec(v@, 0, Seq::empty());
    let mut strings: Vec<Vec<u8>> = Vec::new();
    let mut from: usize = 0;
    proof {
        assert(crate::assembler::tokenizer::view_args(strings@) =~= Seq::<Seq<u8>>::empty());
    }
    while from < v.len()
        invariant
            goal == spec_disassemble_vec(v@, 0, Seq::empty()),
            from <= v.len(),
            goal == spec_disassemble_vec(
                v@,
                from as int,
                crate::assembler::tokenizer::view_args(strings@),
            ),
        decreases v.len() - from,
    {
        match disassemble_instruction(v.as_slice(), from) {
            Ok((s, width)) => {
                proof {
                    assert(crate::assembler::tokenizer::view_args(strings@.push(s))
                        =~= crate::assembler::tokenizer::view_args(strings@).push(s@));
                }
                strings.push(s);
                from = from + width;
            },
            Err(e) => {
                return Err(e);
            },
        }
    }
    Ok(strings)
}

/// Law: the text of any generated real instruction starts with that
/// opcode's own mnemonic, and disassembly consumes exactly its width — so
/// disassembling an assembled image walks instruction by instruction and
/// restores every real opcode mnemonic.
pub proof fn lemma_disassemble_restores_mnemonic(bytes: Seq<u8>, from: int)
    requires
        0 <= from < bytes.len(),
        bytes.len() - from >= spec_op_width(op_info(bytes[from] as u16)),
    ensures
        spec_disassemble_instruction(bytes, from) is Ok,
        spec_disassemble_instruction(bytes, from)->Ok_0.1 == spec_op_width(
            op_info(bytes[from] as u16),
        ),
        spec_disassemble_instruction(bytes, from)->Ok_0.0.subrange(
            0,
            op_name(bytes[from] as u16).len() as int,
        ) == op_name(bytes[from] as u16),
{
    let text = spec_disassemble_instruction(bytes, from)->Ok_0.0;
    let name = op_name(bytes[from] as u16);
    assert(text.subrange(0, name.len() as int) =~= name);
}

} // verus!
