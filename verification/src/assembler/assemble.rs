//! The assembler driver: three ordered passes over the tokenized line
//! stream.
//!
//! Pass one walks the lines resolving addresses and widths, evaluating the
//! immediate directives (`IF`, `EQU`, `SET`, `ORG`, the data widths),
//! filling the label table and capturing macro bodies.  Pass two generates
//! the byte cache of every macro body and marks the bodies that read the
//! program counter.  Pass three emits every resolved line into a flat
//! image of `prog_width` bytes — a macro whose body reads `$` is
//! regenerated at each call site instead of spliced from its cache.

use vstd::prelude::*;
use vstd::string::StringSliceAdditionalSpecFns;

use crate::assembler::errors::{
    AssemblerError, AssemblerErrorV, CodeGenError, CodeGenErrorV, ExpressionErrorV, ParserError,
    ParserErrorV,
};
use crate::assembler::expressions::lexer::ExprFlags;
use crate::assembler::expressions::parser::{
    parse_expression, parse_expression_u16, spec_parse_expression, spec_parse_expression_u16,
};
use crate::assembler::find_op_code;
use crate::assembler::label::{Label, LabelTable};
use crate::assembler::tokenizer::{self, LineMeta, LineMetaV};
use crate::cli::AssembleArgs;
use crate::meta::{op_info, op_meta, spec_op_width};
use crate::util::{spec_le_u16, spec_u16_le};

verus! {

/// A captured macro: its body lines, the byte cache pass two filled, the
/// body's total width, and whether any body expression read `$`.  The
/// cache is authoritative only when `uses_pc` is false; otherwise each
/// call site regenerates the body at its own address.
#[derive(Debug)]
pub struct Macro {
    pub lines: Vec<LineMeta>,
    pub bytes: Vec<u8>,
    pub width: u16,
    pub uses_pc: bool,
}

/// The ghost image of a [`Macro`].
#[verifier::ext_equal]
pub ghost struct MacroV {
    pub lines: Seq<LineMetaV>,
    pub bytes: Seq<u8>,
    pub width: u16,
    pub uses_pc: bool,
}

pub open spec fn lines_view(s: Seq<LineMeta>) -> Seq<LineMetaV> {
    s.map_values(|l: LineMeta| l@)
}

impl View for Macro {
    type V = MacroV;

    open spec fn view(&self) -> MacroV {
        MacroV {
            lines: lines_view(self.lines@),
            bytes: self.bytes@,
            width: self.width,
            uses_pc: self.uses_pc,
        }
    }
}

impl Macro {
    pub fn new() -> (m: Macro)
        ensures
            m@ == (MacroV {
                lines: Seq::<LineMetaV>::empty(),
                bytes: Seq::<u8>::empty(),
                width: 0,
                uses_pc: false,
            }),
    {
        let m = Macro { lines: Vec::new(), bytes: Vec::new(), width: 0, uses_pc: false };
        proof {
            assert(m@.lines =~= Seq::<LineMetaV>::empty());
            assert(m@.bytes =~= Seq::<u8>::empty());
        }
        m
    }
}

impl Clone for Macro {
    /// A deep copy; the image is unchanged.
    fn clone(&self) -> (r: Macro)
        ensures
            r@ == self@,
    {
        let mut lines: Vec<LineMeta> = Vec::new();
        let mut i: usize = 0;
        while i < self.lines.len()
            invariant
                i <= self.lines.len(),
                lines@.len() == i,
                forall|j: int| 0 <= j < i ==> lines@[j]@ == self.lines@[j]@,
            decreases self.lines.len() - i,
        {
            lines.push(self.lines[i].clone());
            i = i + 1;
        }
        let r = Macro {
            lines,
            bytes: crate::util::bytes_copy(&self.bytes),
            width: self.width,
            uses_pc: self.uses_pc,
        };
        proof {
            assert(r@.lines =~= self@.lines);
        }
        r
    }
}

/// The macro table: named macros in definition order (pass two fills their
/// caches in this order, so a body may splice only macros defined before
/// it, as the language requires).
pub struct MacroTable {
    pub entries: Vec<(Vec<u8>, Macro)>,
}

pub open spec fn macro_entries_view(s: Seq<(Vec<u8>, Macro)>) -> Seq<(Seq<u8>, MacroV)> {
    s.map_values(|e: (Vec<u8>, Macro)| (e.0@, e.1@))
}

impl View for MacroTable {
    type V = Seq<(Seq<u8>, MacroV)>;

    open spec fn view(&self) -> Seq<(Seq<u8>, MacroV)> {
        macro_entries_view(self.entries@)
    }
}

/// The macro a name denotes: the latest entry with that name.
pub open spec fn spec_macro_lookup(entries: Seq<(Seq<u8>, MacroV)>, name: Seq<u8>) -> Option<
    MacroV,
>
    decreases entries.len(),
{
    if entries.len() == 0 {
        None
    } else if entries.last().0 == name {
        Some(entries.last().1)
    } else {
        spec_macro_lookup(entries.drop_last(), name)
    }
}

impl MacroTable {
    pub fn new() -> (t: MacroTable)
        ensures
            t@ == Seq::<(Seq<u8>, MacroV)>::empty(),
    {
        let t = MacroTable { entries: Vec::new() };
        proof {
            assert(t@ =~= Seq::<(Seq<u8>, MacroV)>::empty());
        }
        t
    }

    pub fn insert(&mut self, name: Vec<u8>, m: Macro)
        ensures
            final(self)@ == old(self)@.push((name@, m@)),
    {
        self.entries.push((name, m));
        proof {
            assert(self@ =~= old(self)@.push((self.entries@.last().0@, self.entries@.last().1@)));
        }
    }

    /// Look a macro up by name; the copy is the latest entry's.
    pub fn get(&self, name: &[u8]) -> (r: Option<Macro>)
        ensures
            match spec_macro_lookup(self@, name@) {
                Some(m) => r is Some && r->0@ == m,
                None => r is None,
            },
    {
        let mut i = self.entries.len();
        proof {
            assert(macro_entries_view(self.entries@.subrange(0, self.entries@.len() as int))
                =~= self@);
        }
        while i > 0
            invariant
                i <= self.entries.len(),
                spec_macro_lookup(self@, name@) == spec_macro_lookup(
                    macro_entries_view(self.entries@.subrange(0, i as int)),
                    name@,
                ),
            decreases i,
        {
            proof {
                assert(macro_entries_view(self.entries@.subrange(0, i as int)).drop_last()
                    =~= macro_entries_view(self.entries@.subrange(0, i as int - 1)));
                assert(macro_entries_view(self.entries@.subrange(0, i as int)).last() == (
                self.entries@[i as int - 1].0@,
                self.entries@[i as int - 1].1@,
                ));
            }
            i = i - 1;
            if crate::util::bytes_eq(self.entries[i].0.as_slice(), name) {
                return Some(self.entries[i].1.clone());
            }
        }
        proof {
            assert(macro_entries_view(self.entries@.subrange(0, 0)) =~= Seq::<(
                Seq<u8>,
                MacroV,
            )>::empty());
        }
        None
    }

    pub fn contains_key(&self, name: &[u8]) -> (r: bool)
        ensures
            r == (spec_macro_lookup(self@, name@) is Some),
    {
        self.get(name).is_some()
    }

    pub fn len(&self) -> (n: usize)
        ensures
            n == self@.len(),
    {
        self.entries.len()
    }

    /// Replace the entry at an index.
    pub fn set_entry(&mut self, i: usize, name: Vec<u8>, m: Macro)
        requires
            i < old(self)@.len(),
        ensures
            final(self)@ == old(self)@.update(i as int, (name@, m@)),
    {
        self.entries.set(i, (name, m));
        proof {
            assert(self@ =~= old(self)@.update(i as int, (name@, m@)));
        }
    }
}

} // verus!

verus! {

/// Every argument expression of a line evaluated at one address.
pub open spec fn spec_parse_args(
    labels: Map<Seq<u8>, Label>,
    args: Seq<Seq<u8>>,
    i: int,
    address: u16,
    acc: Seq<(Seq<u8>, ExprFlags)>,
) -> Result<Seq<(Seq<u8>, ExprFlags)>, ExpressionErrorV>
    decreases args.len() - i,
{
    if i < 0 || i >= args.len() {
        Ok(acc)
    } else {
        match spec_parse_expression(args[i], address, labels) {
            Err(e) => Err(e),
            Ok(p) => spec_parse_args(labels, args, i + 1, address, acc.push(p)),
        }
    }
}

/// Whether any evaluated argument read the program counter.
pub open spec fn spec_any_pc(parsed: Seq<(Seq<u8>, ExprFlags)>) -> bool {
    exists|i: int| 0 <= i < parsed.len() && (#[trigger] parsed[i]).1.pc
}

pub open spec fn spec_any_sp(parsed: Seq<(Seq<u8>, ExprFlags)>) -> bool {
    exists|i: int| 0 <= i < parsed.len() && (#[trigger] parsed[i]).1.sp
}

pub open spec fn spec_any_psw(parsed: Seq<(Seq<u8>, ExprFlags)>) -> bool {
    exists|i: int| 0 <= i < parsed.len() && (#[trigger] parsed[i]).1.psw
}

/// The bytes a `DB` line emits: strings expand, everything else
/// contributes its low byte (an empty result reads as zero).
pub open spec fn spec_db_bytes(parsed: Seq<(Seq<u8>, ExprFlags)>, i: int, acc: Seq<u8>) -> Seq<u8>
    decreases parsed.len() - i,
{
    if i < 0 || i >= parsed.len() {
        acc
    } else {
        let (e, f) = parsed[i];
        let add: Seq<u8> = if f.string {
            e
        } else if e.len() > 0 {
            seq![e[0]]
        } else {
            seq![0u8]
        };
        spec_db_bytes(parsed, i + 1, acc + add)
    }
}

/// The bytes a `DW` line emits: each argument's first word, little endian.
pub open spec fn spec_dw_bytes(parsed: Seq<(Seq<u8>, ExprFlags)>, i: int, acc: Seq<u8>) -> Seq<u8>
    decreases parsed.len() - i,
{
    if i < 0 || i >= parsed.len() {
        acc
    } else {
        spec_dw_bytes(parsed, i + 1, acc + spec_u16_le(spec_le_u16(parsed[i].0)))
    }
}

/// A byte sequence padded with zeros up to a length and cut to it: the
/// immediate bytes an instruction takes from an evaluated argument.
pub open spec fn spec_imm_byte(e: Seq<u8>, i: int) -> u8 {
    if 0 <= i < e.len() {
        e[i]
    } else {
        0u8
    }
}

/// The bytes of one real instruction: the concrete opcode recomputed from
/// the resolved argument values and the `SP`/`PSW` flags, then its
/// immediate byte or little-endian word.
pub open spec fn spec_gen_opcode(inst: Seq<u8>, parsed: Seq<(Seq<u8>, ExprFlags)>) -> Result<
    Seq<u8>,
    CodeGenErrorV,
> {
    let sp = spec_any_sp(parsed);
    let psw = spec_any_psw(parsed);
    let arg0 = if parsed.len() > 0 {
        spec_le_u16(parsed[0].0)
    } else {
        0u16
    };
    let arg1 = if parsed.len() > 1 {
        spec_le_u16(parsed[1].0)
    } else {
        0u16
    };
    match find_op_code::spec_from_args_and_sp_psw(inst, arg0, arg1, sp, psw) {
        Err(e) => Err(CodeGenErrorV::ParserError(ParserErrorV::NoInstructionFound(e))),
        Ok(code) => {
            let info = op_info(code as u16);
            if info.argb || info.argw {
                let idx: int = if info.arg_count >= 1 {
                    info.arg_count - 1
                } else {
                    0
                };
                if parsed.len() <= idx {
                    Err(
                        CodeGenErrorV::ParserError(
                            ParserErrorV::WrongNumberOfArgs(idx as usize, parsed.len() as usize),
                        ),
                    )
                } else {
                    let b = parsed[idx].0;
                    if info.argb {
                        Ok(seq![code as u8, spec_imm_byte(b, 0)])
                    } else {
                        Ok(seq![code as u8, spec_imm_byte(b, 0), spec_imm_byte(b, 1)])
                    }
                }
            } else {
                Ok(seq![code as u8])
            }
        },
    }
}

/// The bytes one real-instruction or data line emits at an address, and
/// whether its expressions read `$`.
pub open spec fn spec_gen_for_instruction(
    labels: Map<Seq<u8>, Label>,
    line: LineMetaV,
    address: u16,
) -> Result<(Seq<u8>, bool), CodeGenErrorV> {
    let inst = match line.inst {
        Some(s) => s,
        None => Seq::<u8>::empty(),
    };
    match spec_parse_args(labels, line.args_list, 0, address, Seq::empty()) {
        Err(e) => Err(CodeGenErrorV::ParserError(ParserErrorV::ExpressionError(e))),
        Ok(parsed) => {
            let uses_pc = spec_any_pc(parsed);
            if inst == "DB".spec_bytes() {
                Ok((spec_db_bytes(parsed, 0, Seq::empty()), uses_pc))
            } else if inst == "DW".spec_bytes() {
                Ok((spec_dw_bytes(parsed, 0, Seq::empty()), uses_pc))
            } else if inst == "DS".spec_bytes() {
                if parsed.len() == 0 {
                    Err(CodeGenErrorV::ParserError(ParserErrorV::NoArgsForVariadic))
                } else {
                    Ok((Seq::new(spec_le_u16(parsed[0].0) as nat, |k: int| 0u8), uses_pc))
                }
            } else {
                match spec_gen_opcode(inst, parsed) {
                    Err(e) => Err(e),
                    Ok(b) => Ok((b, uses_pc)),
                }
            }
        },
    }
}

/// The bytes one line emits at an address: a line with a resolved opcode
/// is an instruction or data line, anything else a macro invocation.
pub open spec fn spec_gen_for_line(
    labels: Map<Seq<u8>, Label>,
    macros: Seq<(Seq<u8>, MacroV)>,
    line: LineMetaV,
    address: u16,
    inside_macro: bool,
) -> Result<(Seq<u8>, bool), CodeGenErrorV>
    decreases (if inside_macro { 1int } else { 3int }), 2int, 0int,
{
    if line.op_code is Some {
        spec_gen_for_instruction(labels, line, address)
    } else {
        spec_gen_for_macro_call(labels, macros, line, address, inside_macro)
    }
}

/// The bytes a macro invocation emits.  A body that never read `$` splices
/// its cache; one that did is regenerated at the call site's address — but
/// not from inside another macro body, where the final address is unknown.
pub open spec fn spec_gen_for_macro_call(
    labels: Map<Seq<u8>, Label>,
    macros: Seq<(Seq<u8>, MacroV)>,
    line: LineMetaV,
    address: u16,
    inside_macro: bool,
) -> Result<(Seq<u8>, bool), CodeGenErrorV>
    decreases (if inside_macro { 1int } else { 3int }), 1int, 0int,
{
    let name = match line.inst {
        Some(s) => s,
        None => Seq::<u8>::empty(),
    };
    match spec_macro_lookup(macros, name) {
        None => Err(CodeGenErrorV::ParserError(ParserErrorV::MacroUseBeforeCreation)),
        Some(m) => {
            if m.uses_pc {
                if inside_macro {
                    Err(CodeGenErrorV::ParserError(ParserErrorV::MacroCallInMacroUsesSp))
                } else {
                    match spec_gen_for_macro_at(labels, macros, m, address, 0, Seq::empty()) {
                        Err(e) => Err(e),
                        Ok(bytes) => Ok((bytes, true)),
                    }
                }
            } else {
                Ok((m.bytes, false))
            }
        },
    }
}

/// A macro body regenerated line by line: each body line is generated at
/// the invocation address plus the line's own offset within the body.
pub open spec fn spec_gen_for_macro_at(
    labels: Map<Seq<u8>, Label>,
    macros: Seq<(Seq<u8>, MacroV)>,
    m: MacroV,
    addr: u16,
    i: int,
    acc: Seq<u8>,
) -> Result<Seq<u8>, CodeGenErrorV>
    decreases 2int, 0int, m.lines.len() - i,
{
    if i < 0 || i >= m.lines.len() {
        Ok(acc)
    } else {
        let line = m.lines[i];
        match spec_gen_for_line(
            labels,
            macros,
            line,
            ((line.address + addr) % 0x10000) as u16,
            true,
        ) {
            Err(e) => Err(e),
            Ok((b, _)) => spec_gen_for_macro_at(labels, macros, m, addr, i + 1, acc + b),
        }
    }
}

} // verus!

verus! {

/// The ghost image of evaluated arguments.
pub open spec fn parsed_view(s: Seq<(Vec<u8>, ExprFlags)>) -> Seq<(Seq<u8>, ExprFlags)> {
    s.map_values(|p: (Vec<u8>, ExprFlags)| (p.0@, p.1))
}

/// Pushing one evaluated argument extends each any-flag by that argument's
/// flag.
pub proof fn lemma_any_push(parsed: Seq<(Seq<u8>, ExprFlags)>, p: (Seq<u8>, ExprFlags))
    ensures
        spec_any_pc(parsed.push(p)) == (spec_any_pc(parsed) || p.1.pc),
        spec_any_sp(parsed.push(p)) == (spec_any_sp(parsed) || p.1.sp),
        spec_any_psw(parsed.push(p)) == (spec_any_psw(parsed) || p.1.psw),
{
    let q = parsed.push(p);
    assert(q[parsed.len() as int] == p);
    assert forall|i: int| 0 <= i < parsed.len() implies q[i] == parsed[i] by {}
    if spec_any_pc(parsed) {
        let i = choose|i: int| 0 <= i < parsed.len() && (#[trigger] parsed[i]).1.pc;
        assert(q[i].1.pc);
    }
    if spec_any_pc(q) {
        let i = choose|i: int| 0 <= i < q.len() && (#[trigger] q[i]).1.pc;
        if i < parsed.len() {
            assert(parsed[i].1.pc);
        }
    }
    if spec_any_sp(parsed) {
        let i = choose|i: int| 0 <= i < parsed.len() && (#[trigger] parsed[i]).1.sp;
        assert(q[i].1.sp);
    }
    if spec_any_sp(q) {
        let i = choose|i: int| 0 <= i < q.len() && (#[trigger] q[i]).1.sp;
        if i < parsed.len() {
            assert(parsed[i].1.sp);
        }
    }
    if spec_any_psw(parsed) {
        let i = choose|i: int| 0 <= i < parsed.len() && (#[trigger] parsed[i]).1.psw;
        assert(q[i].1.psw);
    }
    if spec_any_psw(q) {
        let i = choose|i: int| 0 <= i < q.len() && (#[trigger] q[i]).1.psw;
        if i < parsed.len() {
            assert(parsed[i].1.psw);
        }
    }
}

/// The standard register constants: B through A as the addresses 0
/// through 7.
fn get_reg_defs() -> (t: LabelTable)
    ensures
        t@ == Map::<Seq<u8>, Label>::empty().insert(
            "B".spec_bytes(),
            Label { value: Some(0u16), is_addr: true, is_eq: false, is_set: false },
        ).insert(
            "C".spec_bytes(),
            Label { value: Some(1u16), is_addr: true, is_eq: false, is_set: false },
        ).insert(
            "D".spec_bytes(),
            Label { value: Some(2u16), is_addr: true, is_eq: false, is_set: false },
        ).insert(
            "E".spec_bytes(),
            Label { value: Some(3u16), is_addr: true, is_eq: false, is_set: false },
        ).insert(
            "H".spec_bytes(),
            Label { value: Some(4u16), is_addr: true, is_eq: false, is_set: false },
        ).insert(
            "L".spec_bytes(),
            Label { value: Some(5u16), is_addr: true, is_eq: false, is_set: false },
        ).insert(
            "M".spec_bytes(),
            Label { value: Some(6u16), is_addr: true, is_eq: false, is_set: false },
        ).insert(
            "A".spec_bytes(),
            Label { value: Some(7u16), is_addr: true, is_eq: false, is_set: false },
        ),
{
    let mut t = LabelTable::new();
    t.insert(crate::util::str_to_vec("B"), Label::new_addr(Some(0)));
    t.insert(crate::util::str_to_vec("C"), Label::new_addr(Some(1)));
    t.insert(crate::util::str_to_vec("D"), Label::new_addr(Some(2)));
    t.insert(crate::util::str_to_vec("E"), Label::new_addr(Some(3)));
    t.insert(crate::util::str_to_vec("H"), Label::new_addr(Some(4)));
    t.insert(crate::util::str_to_vec("L"), Label::new_addr(Some(5)));
    t.insert(crate::util::str_to_vec("M"), Label::new_addr(Some(6)));
    t.insert(crate::util::str_to_vec("A"), Label::new_addr(Some(7)));
    t
}

/// The two-pass assembler and its state.
pub struct Assembler {
    pub args: AssembleArgs,
    pub lines: Vec<LineMeta>,
    pub macros: MacroTable,
    pub labels: LabelTable,
    pub prog_width: u16,
    pub erroring_line: Option<LineMeta>,
}

impl Assembler {
    pub fn new(args: AssembleArgs) -> (a: Assembler)
        ensures
            a.args == args,
            a.lines@ =~= Seq::<LineMeta>::empty(),
            a.macros@ == Seq::<(Seq<u8>, MacroV)>::empty(),
            a.labels@ == Map::<Seq<u8>, Label>::empty(),
            a.prog_width == 0,
    {
        let a = Assembler {
            args,
            lines: Vec::new(),
            macros: MacroTable::new(),
            labels: LabelTable::new(),
            prog_width: 0,
            erroring_line: None,
        };
        a
    }

    /// Evaluate every argument of a line at one address.
    fn parse_args(&self, args: &Vec<Vec<u8>>, address: u16) -> (r: Result<
        Vec<(Vec<u8>, ExprFlags)>,
        CodeGenError,
    >)
        ensures
            match spec_parse_args(
                self.labels@,
                tokenizer::view_args(args@),
                0,
                address,
                Seq::empty(),
            ) {
                Ok(parsed) => r is Ok && parsed_view(r->Ok_0@) == parsed,
                Err(e) => r is Err && r->Err_0@ == CodeGenErrorV::ParserError(
                    ParserErrorV::ExpressionError(e),
                ),
            },
    {
        let ghost argsv = tokenizer::view_args(args@);
        let mut parsed: Vec<(Vec<u8>, ExprFlags)> = Vec::new();
        let mut i: usize = 0;
        proof {
            assert(parsed_view(parsed@) =~= Seq::<(Seq<u8>, ExprFlags)>::empty());
        }
        while i < args.len()
            invariant
                i <= args.len(),
                argsv == tokenizer::view_args(args@),
                spec_parse_args(self.labels@, argsv, 0, address, Seq::empty())
                    == spec_parse_args(self.labels@, argsv, i as int, address, parsed_view(parsed@)),
            decreases args.len() - i,
        {
            proof {
                assert(argsv[i as int] == args@[i as int]@);
            }
            match parse_expression(&args[i], address, &self.labels) {
                Ok(p) => {
                    proof {
                        assert(parsed_view(parsed@.push((p.0, p.1))) =~= parsed_view(
                            parsed@,
                        ).push((p.0@, p.1)));
                    }
                    parsed.push(p);
                },
                Err(e) => {
                    return Err(CodeGenError::ParserError(ParserError::ExpressionError(e)));
                },
            }
            i = i + 1;
        }
        Ok(parsed)
    }

    /// The `SP`, `PSW` and `$` flags over all evaluated arguments.
    fn parsed_flags(parsed: &Vec<(Vec<u8>, ExprFlags)>) -> (r: (bool, bool, bool))
        ensures
            r.0 == spec_any_pc(parsed_view(parsed@)),
            r.1 == spec_any_sp(parsed_view(parsed@)),
            r.2 == spec_any_psw(parsed_view(parsed@)),
    {
        let mut uses_pc = false;
        let mut sp = false;
        let mut psw = false;
        let mut k: usize = 0;
        while k < parsed.len()
            invariant
                k <= parsed.len(),
                uses_pc == spec_any_pc(parsed_view(parsed@).subrange(0, k as int)),
                sp == spec_any_sp(parsed_view(parsed@).subrange(0, k as int)),
                psw == spec_any_psw(parsed_view(parsed@).subrange(0, k as int)),
            decreases parsed.len() - k,
        {
            proof {
                assert(parsed_view(parsed@).subrange(0, k + 1) =~= parsed_view(
                    parsed@,
                ).subrange(0, k as int).push(parsed_view(parsed@)[k as int]));
                lemma_any_push(
                    parsed_view(parsed@).subrange(0, k as int),
                    parsed_view(parsed@)[k as int],
                );
            }
            if parsed[k].1.pc {
                uses_pc = true;
            }
            if parsed[k].1.sp {
                sp = true;
            }
            if parsed[k].1.psw {
                psw = true;
            }
            k = k + 1;
        }
        proof {
            assert(parsed_view(parsed@).subrange(0, parsed@.len() as int) =~= parsed_view(
                parsed@,
            ));
        }
        (uses_pc, sp, psw)
    }

    /// The bytes a `DB` line emits.
    fn gen_db_bytes(parsed: &Vec<(Vec<u8>, ExprFlags)>) -> (r: Vec<u8>)
        ensures
            r@ == spec_db_bytes(parsed_view(parsed@), 0, Seq::empty()),
    {
        let mut bytes: Vec<u8> = Vec::new();
        let mut j: usize = 0;
        proof {
            assert(bytes@ =~= Seq::<u8>::empty());
        }
        while j < parsed.len()
            invariant
                j <= parsed.len(),
                spec_db_bytes(parsed_view(parsed@), 0, Seq::empty()) == spec_db_bytes(
                    parsed_view(parsed@),
                    j as int,
                    bytes@,
                ),
            decreases parsed.len() - j,
        {
            let ghost pre = bytes@;
            if parsed[j].1.string {
                crate::util::push_bytes(&mut bytes, parsed[j].0.as_slice());
            } else if parsed[j].0.len() > 0 {
                bytes.push(parsed[j].0[0]);
                proof {
                    assert(bytes@ =~= pre + seq![parsed_view(parsed@)[j as int].0[0]]);
                }
            } else {
                bytes.push(0);
                proof {
                    assert(bytes@ =~= pre + seq![0u8]);
                }
            }
            j = j + 1;
        }
        bytes
    }

    /// The bytes a `DW` line emits.
    fn gen_dw_bytes(parsed: &Vec<(Vec<u8>, ExprFlags)>) -> (r: Vec<u8>)
        ensures
            r@ == spec_dw_bytes(parsed_view(parsed@), 0, Seq::empty()),
    {
        let mut bytes: Vec<u8> = Vec::new();
        let mut j: usize = 0;
        proof {
            assert(bytes@ =~= Seq::<u8>::empty());
        }
        while j < parsed.len()
            invariant
                j <= parsed.len(),
                spec_dw_bytes(parsed_view(parsed@), 0, Seq::empty()) == spec_dw_bytes(
                    parsed_view(parsed@),
                    j as int,
                    bytes@,
                ),
            decreases parsed.len() - j,
        {
            let ghost pre = bytes@;
            let pair = crate::util::vec_u8_to_u16(parsed[j].0.as_slice());
            bytes.push((pair & 0xff) as u8);
            bytes.push((pair >> 8) as u8);
            proof {
                assert((pair & 0xff) as u8 == (pair as u8)) by (bit_vector);
                assert(bytes@ =~= pre + spec_u16_le(spec_le_u16(
                    parsed_view(parsed@)[j as int].0,
                )));
            }
            j = j + 1;
        }
        bytes
    }

    /// The bytes of one real instruction from its evaluated arguments.
    #[verifier::rlimit(100)]
    fn gen_opcode_bytes(inst: &Vec<u8>, parsed: &Vec<(Vec<u8>, ExprFlags)>, sp: bool, psw: bool)
        -> (r: Result<Vec<u8>, CodeGenError>)
        requires
            sp == spec_any_sp(parsed_view(parsed@)),
            psw == spec_any_psw(parsed_view(parsed@)),
        ensures
            match spec_gen_opcode(inst@, parsed_view(parsed@)) {
                Ok(b) => r is Ok && r->Ok_0@ == b,
                Err(e) => r is Err && r->Err_0@ == e,
            },
    {
        let arg0 = if parsed.len() > 0 {
            crate::util::vec_u8_to_u16(parsed[0].0.as_slice())
        } else {
            0
        };
        let arg1 = if parsed.len() > 1 {
            crate::util::vec_u8_to_u16(parsed[1].0.as_slice())
        } else {
            0
        };
        proof {
            let pv = parsed_view(parsed@);
            assert(arg0 == if pv.len() > 0 {
                spec_le_u16(pv[0].0)
            } else {
                0u16
            });
            assert(arg1 == if pv.len() > 1 {
                spec_le_u16(pv[1].0)
            } else {
                0u16
            });
        }
        match find_op_code::from_args_and_sp_psw(inst, arg0, arg1, sp, psw) {
            Ok(code) => {
                let mut inst_bytes: Vec<u8> = vec![code as u8];
                let meta = op_meta(code as u16);
                if meta.argb || meta.argw {
                    let idx: usize = if meta.asm_arg_count >= 1 {
                        meta.asm_arg_count - 1
                    } else {
                        0
                    };
                    if parsed.len() <= idx {
                        return Err(
                            CodeGenError::ParserError(
                                ParserError::WrongNumberOfArgs(idx, parsed.len()),
                            ),
                        );
                    }
                    let b = &parsed[idx].0;
                    let b0: u8 = if b.len() > 0 {
                        b[0]
                    } else {
                        0
                    };
                    if meta.argb {
                        inst_bytes.push(b0);
                        proof {
                            assert(inst_bytes@ =~= seq![
                                (code as u8),
                                spec_imm_byte(parsed_view(parsed@)[idx as int].0, 0),
                            ]);
                        }
                    } else {
                        let b1: u8 = if b.len() > 1 {
                            b[1]
                        } else {
                            0
                        };
                        inst_bytes.push(b0);
                        inst_bytes.push(b1);
                        proof {
                            assert(inst_bytes@ =~= seq![
                                (code as u8),
                                spec_imm_byte(parsed_view(parsed@)[idx as int].0, 0),
                                spec_imm_byte(parsed_view(parsed@)[idx as int].0, 1),
                            ]);
                        }
                    }
                } else {
                    proof {
                        assert(inst_bytes@ =~= seq![(code as u8)]);
                    }
                }
                Ok(inst_bytes)
            },
            Err(e) => Err(CodeGenError::ParserError(ParserError::NoInstructionFound(e))),
        }
    }

    /// The bytes one real-instruction or data line emits at an address, and
    /// whether its expressions read the program counter.
    #[verifier::rlimit(100)]
    pub fn gen_for_instruction(&self, line: &LineMeta, address: u16) -> (r: Result<
        (Vec<u8>, bool),
        CodeGenError,
    >)
        ensures
            match spec_gen_for_instruction(self.labels@, line@, address) {
                Ok((bytes, pc)) => r is Ok && r->Ok_0.0@ == bytes && r->Ok_0.1 == pc,
                Err(e) => r is Err && r->Err_0@ == e,
            },
    {
        let empty_inst: Vec<u8> = Vec::new();
        let inst: &Vec<u8> = match &line.inst {
            Some(s) => s,
            None => &empty_inst,
        };
        proof {
            assert(inst@ == match line@.inst {
                Some(s) => s,
                None => Seq::<u8>::empty(),
            });
        }
        let parsed = match self.parse_args(&line.args_list, address) {
            Ok(p) => p,
            Err(e) => {
                return Err(e);
            },
        };
        let (uses_pc, sp, psw) = Self::parsed_flags(&parsed);
        if crate::util::bytes_eq(inst.as_slice(), "DB".as_bytes()) {
            Ok((Self::gen_db_bytes(&parsed), uses_pc))
        } else if crate::util::bytes_eq(inst.as_slice(), "DW".as_bytes()) {
            Ok((Self::gen_dw_bytes(&parsed), uses_pc))
        } else if crate::util::bytes_eq(inst.as_slice(), "DS".as_bytes()) {
            if parsed.len() == 0 {
                return Err(CodeGenError::ParserError(ParserError::NoArgsForVariadic));
            }
            let len = crate::util::vec_u8_to_u16(parsed[0].0.as_slice());
            let bytes: Vec<u8> = vec![0u8; len as usize];
            proof {
                assert(bytes@ =~= Seq::new(
                    spec_le_u16(parsed_view(parsed@)[0].0) as nat,
                    |k: int| 0u8,
                ));
            }
            Ok((bytes, uses_pc))
        } else {
            match Self::gen_opcode_bytes(inst, &parsed, sp, psw) {
                Ok(b) => Ok((b, uses_pc)),
                Err(e) => Err(e),
            }
        }
    }

    /// The bytes one line emits: an instruction or data line by itself, any
    /// other a macro invocation.    /// The bytes one line emits: an instruction or data line by itself, any
    /// other a macro invocation.
    pub fn gen_for_line(&self, line: &LineMeta, address: u16, inside_macro: bool) -> (r: Result<
        (Vec<u8>, bool),
        CodeGenError,
    >)
        ensures
            match spec_gen_for_line(self.labels@, self.macros@, line@, address, inside_macro) {
                Ok((bytes, pc)) => r is Ok && r->Ok_0.0@ == bytes && r->Ok_0.1 == pc,
                Err(e) => r is Err && r->Err_0@ == e,
            },
        decreases (if inside_macro { 1int } else { 3int }), 2int, 0int,
    {
        if line.op_code.is_some() {
            self.gen_for_instruction(line, address)
        } else {
            self.gen_for_macro_call(line, address, inside_macro)
        }
    }

    /// The bytes a macro invocation emits: the cache for a body without
    /// `$`, a fresh generation at the call site otherwise.
    pub fn gen_for_macro_call(&self, line: &LineMeta, address: u16, inside_macro: bool) -> (r:
        Result<(Vec<u8>, bool), CodeGenError>)
        ensures
            match spec_gen_for_macro_call(
                self.labels@,
                self.macros@,
                line@,
                address,
                inside_macro,
            ) {
                Ok((bytes, pc)) => r is Ok && r->Ok_0.0@ == bytes && r->Ok_0.1 == pc,
                Err(e) => r is Err && r->Err_0@ == e,
            },
        decreases (if inside_macro { 1int } else { 3int }), 1int, 0int,
    {
        let empty_inst: Vec<u8> = Vec::new();
        let name: &Vec<u8> = match &line.inst {
            Some(s) => s,
            None => &empty_inst,
        };
        proof {
            assert(name@ == match line@.inst {
                Some(s) => s,
                None => Seq::<u8>::empty(),
            });
        }
        match self.macros.get(name.as_slice()) {
            None => Err(CodeGenError::ParserError(ParserError::MacroUseBeforeCreation)),
            Some(m) => {
                if m.uses_pc {
                    if inside_macro {
                        Err(CodeGenError::ParserError(ParserError::MacroCallInMacroUsesSp))
                    } else {
                        match self.gen_for_macro_at(&m, address) {
                            Ok(bytes) => Ok((bytes, true)),
                            Err(e) => Err(e),
                        }
                    }
                } else {
                    Ok((m.bytes, false))
                }
            },
        }
    }

    /// A macro body regenerated line by line at an invocation address.
    pub fn gen_for_macro_at(&self, m: &Macro, addr: u16) -> (r: Result<Vec<u8>, CodeGenError>)
        ensures
            match spec_gen_for_macro_at(self.labels@, self.macros@, m@, addr, 0, Seq::empty()) {
                Ok(bytes) => r is Ok && r->Ok_0@ == bytes,
                Err(e) => r is Err && r->Err_0@ == e,
            },
        decreases 2int, 0int, 0int,
    {
        let mut bytes: Vec<u8> = Vec::new();
        let mut i: usize = 0;
        proof {
            assert(bytes@ =~= Seq::<u8>::empty());
        }
        while i < m.lines.len()
            invariant
                i <= m.lines.len(),
                spec_gen_for_macro_at(self.labels@, self.macros@, m@, addr, 0, Seq::empty())
                    == spec_gen_for_macro_at(
                    self.labels@,
                    self.macros@,
                    m@,
                    addr,
                    i as int,
                    bytes@,
                ),
            decreases m.lines.len() - i,
        {
            let line = &m.lines[i];
            proof {
                assert(m@.lines[i as int] == m.lines@[i as int]@);
            }
            let at = ((line.address as u32 + addr as u32) % 0x10000) as u16;
            match self.gen_for_line(line, at, true) {
                Ok((mut b, _)) => {
                    let ghost pre = bytes@;
                    crate::util::push_bytes(&mut bytes, b.as_slice());
                },
                Err(e) => {
                    return Err(e);
                },
            }
            i = i + 1;
        }
        Ok(bytes)
    }
}

} // verus!

verus! {

/// The width a `DB` line occupies: strings their length, anything else one
/// byte; wider than the address space is rejected.
pub open spec fn spec_db_width(
    labels: Map<Seq<u8>, Label>,
    inst: Seq<u8>,
    args: Seq<Seq<u8>>,
    i: int,
    acc: int,
) -> Result<int, ParserErrorV>
    decreases args.len() - i,
{
    if i < 0 || i >= args.len() {
        Ok(acc)
    } else {
        match spec_parse_expression(args[i], 0, labels) {
            Err(e) => Err(ParserErrorV::ExpressionError(e)),
            Ok((bytes, flags)) => {
                let add: int = if flags.string {
                    bytes.len() as int
                } else {
                    1
                };
                if acc + add > 0xffff {
                    Err(ParserErrorV::InvalidArgument(inst, args[i]))
                } else {
                    spec_db_width(labels, inst, args, i + 1, acc + add)
                }
            },
        }
    }
}

/// The width a data directive occupies: `DB` sums its arguments, `DW`
/// doubles their count, `DS` reserves the value of its one expression (a
/// string argument is rejected).  A width beyond the 16-bit address space
/// is rejected as an invalid argument.
pub open spec fn spec_width_of_data_storage(
    labels: Map<Seq<u8>, Label>,
    inst: Seq<u8>,
    args: Seq<Seq<u8>>,
) -> Result<int, ParserErrorV> {
    if inst == "DB".spec_bytes() {
        spec_db_width(labels, inst, args, 0, 0)
    } else if inst == "DW".spec_bytes() {
        if args.len() * 2 > 0xffff {
            Err(ParserErrorV::InvalidArgument(inst, Seq::empty()))
        } else {
            Ok(args.len() * 2int)
        }
    } else if inst == "DS".spec_bytes() {
        if args.len() == 0 {
            Err(ParserErrorV::NoArgsForVariadic)
        } else {
            match spec_parse_expression(args[0], 0, labels) {
                Err(e) => Err(ParserErrorV::ExpressionError(e)),
                Ok((bytes, flags)) => {
                    if flags.string {
                        Err(ParserErrorV::InvalidArgument(inst, args[0]))
                    } else {
                        Ok(spec_le_u16(bytes) as int)
                    }
                },
            }
        }
    } else {
        Err(ParserErrorV::UnknownDefine(inst))
    }
}

/// The label table after one line's label joins it: `EQU` and `SET` carry
/// their evaluated value, anything else the current address; redefinition
/// is allowed only of a `SET` label by another `SET`.
pub open spec fn spec_pass_one_labels(
    labels: Map<Seq<u8>, Label>,
    line: LineMetaV,
    address: u16,
) -> Result<Map<Seq<u8>, Label>, ParserErrorV> {
    let inst0 = spec_inst_of(line);
    match line.label {
        None => Ok(labels),
        Some(label) => {
            if labels.dom().contains(label) && !(labels[label].is_set && line.inst is Some
                && inst0 == "SET".spec_bytes()) {
                Err(ParserErrorV::LabelAlreadyDefined(label, labels[label]))
            } else if !line.label_only && line.inst is Some && (inst0 == "SET".spec_bytes()
                || inst0 == "EQU".spec_bytes()) {
                if line.args_list.len() == 0 {
                    Err(ParserErrorV::WrongNumberOfArgs(1, 0))
                } else {
                    match spec_parse_expression_u16(line.args_list[0], address, labels) {
                        Err(e) => Err(ParserErrorV::ExpressionError(e)),
                        Ok((val, _)) => Ok(
                            labels.insert(
                                label,
                                if inst0 == "EQU".spec_bytes() {
                                    Label { value: Some(val), is_addr: false, is_eq: true,
                                        is_set: false }
                                } else {
                                    Label { value: Some(val), is_addr: false, is_eq: false,
                                        is_set: true }
                                },
                            ),
                        ),
                    }
                }
            } else {
                Ok(
                    labels.insert(
                        label,
                        Label { value: Some(address), is_addr: true, is_eq: false,
                            is_set: false },
                    ),
                )
            }
        },
    }
}

/// The width one stream line occupies: a real opcode by the table (data
/// directives by the data rules, with their argument counts checked), any
/// other mnemonic as an invocation of an already-defined macro.
pub open spec fn spec_pass_one_width(
    labels: Map<Seq<u8>, Label>,
    macros: Seq<(Seq<u8>, MacroV)>,
    cur_name: Option<Seq<u8>>,
    line: LineMetaV,
) -> Result<int, ParserErrorV> {
    let inst0 = spec_inst_of(line);
    match line.op_code {
        Some(code) => {
            let info = op_info(code);
            if info.labelled && line.label is None {
                Err(ParserErrorV::OperationRequiresLabel(inst0))
            } else if info.define {
                if line.args_list.len() < 1 {
                    Err(ParserErrorV::NoArgsForVariadic)
                } else {
                    spec_width_of_data_storage(labels, inst0, line.args_list)
                }
            } else if info.arg_count != line.args_list.len() {
                Err(ParserErrorV::WrongNumberOfArgs(info.arg_count, line.args_list.len() as usize))
            } else {
                Ok(spec_op_width(info) as int)
            }
        },
        None => {
            if line.args_list.len() != 0 {
                Err(ParserErrorV::WrongNumberOfArgs(0, line.args_list.len() as usize))
            } else if cur_name == Some(inst0) {
                Err(ParserErrorV::RecursiveMacro)
            } else {
                match spec_macro_lookup(macros, inst0) {
                    Some(m) => Ok(m.width as int),
                    None => Err(ParserErrorV::MacroUseBeforeCreation),
                }
            }
        },
    }
}

/// The walking state of pass one.
#[verifier::ext_equal]
pub ghost struct PassOne {
    pub labels: Map<Seq<u8>, Label>,
    pub macros: Seq<(Seq<u8>, MacroV)>,
    pub cur_macro: Option<(Seq<u8>, MacroV)>,
    pub resolved: Seq<LineMetaV>,
    pub address: u16,
    pub macro_address: u16,
    pub highest: u16,
    pub inside_if: bool,
    pub skip: bool,
    pub done: bool,
}

/// The state pass one starts from.
pub open spec fn spec_pass_one_init(labels: Map<Seq<u8>, Label>, load_address: u16) -> PassOne {
    PassOne {
        labels,
        macros: Seq::empty(),
        cur_macro: None,
        resolved: Seq::empty(),
        address: load_address,
        macro_address: load_address,
        highest: load_address,
        inside_if: false,
        skip: false,
        done: false,
    }
}

pub open spec fn spec_inst_of(line: LineMetaV) -> Seq<u8> {
    match line.inst {
        Some(s) => s,
        None => Seq::empty(),
    }
}

/// One line of pass one.  In order: `IF`/`ENDIF`/`END` control which lines
/// count; skipped lines fall away; a label joins the table (an `EQU` or
/// `SET` with its evaluated value, anything else with the current
/// address; redefinition is allowed only from `SET` to `SET`);
/// `MACRO`/`ENDM`/`ORG` and the immediate directives manage structure; any
/// other line gets its width — from the table for a real opcode, from the
/// data rules for a directive, from the macro table for an invocation —
/// and lands in the open macro body or in the resolved stream, advancing
/// the corresponding address.
pub open spec fn spec_pass_one_step(st: PassOne, line: LineMetaV, load_address: u16) -> Result<
    PassOne,
    ParserErrorV,
> {
    let inst0 = spec_inst_of(line);
    let st1_res: Result<PassOne, ParserErrorV> = if line.inst is Some && inst0 == "IF".spec_bytes() {
        if st.inside_if {
            Err(ParserErrorV::NestedIf)
        } else if line.args_list.len() == 0 {
            Err(ParserErrorV::WrongNumberOfArgs(1, 0))
        } else {
            match spec_parse_expression_u16(line.args_list[0], st.address, st.labels) {
                Err(e) => Err(ParserErrorV::ExpressionError(e)),
                Ok((val, _)) => Ok(PassOne { inside_if: true, skip: !(val > 0), ..st }),
            }
        }
    } else if line.inst is Some && inst0 == "ENDIF".spec_bytes() {
        if !st.inside_if {
            Err(ParserErrorV::NotInIf)
        } else {
            Ok(PassOne { inside_if: false, skip: false, ..st })
        }
    } else if line.inst is Some && inst0 == "END".spec_bytes() {
        Ok(PassOne { done: true, ..st })
    } else {
        Ok(st)
    };
    match st1_res {
        Err(e) => Err(e),
        Ok(st1) => {
            if st1.done || st1.skip {
                Ok(st1)
            } else {
                match spec_pass_one_labels(st1.labels, line, st1.address) {
                    Err(e) => Err(e),
                    Ok(labels2) => {
                        let st2 = PassOne { labels: labels2, ..st1 };
                        if line.label_only {
                            let nl = LineMetaV { address: st2.address, width: 0, ..line };
                            match st2.cur_macro {
                                Some((nm, m)) => Ok(
                                    PassOne {
                                        cur_macro: Some(
                                            (nm, MacroV { lines: m.lines.push(nl), ..m }),
                                        ),
                                        ..st2
                                    },
                                ),
                                None => Ok(PassOne { resolved: st2.resolved.push(nl), ..st2 }),
                            }
                        } else if inst0 == "MACRO".spec_bytes() {
                            match line.label {
                                None => Err(ParserErrorV::OperationRequiresLabel(inst0)),
                                Some(label) => {
                                    if st2.cur_macro is Some {
                                        Err(ParserErrorV::NestedMacro)
                                    } else {
                                        Ok(
                                            PassOne {
                                                cur_macro: Some(
                                                    (
                                                        label,
                                                        MacroV {
                                                            lines: Seq::empty(),
                                                            bytes: Seq::empty(),
                                                            width: 0,
                                                            uses_pc: false,
                                                        },
                                                    ),
                                                ),
                                                ..st2
                                            },
                                        )
                                    }
                                },
                            }
                        } else if inst0 == "ENDM".spec_bytes() {
                            match st2.cur_macro {
                                None => Err(ParserErrorV::NotInMacro),
                                Some((nm, m)) => Ok(
                                    PassOne {
                                        cur_macro: None,
                                        macros: st2.macros.push((nm, m)),
                                        macro_address: load_address,
                                        ..st2
                                    },
                                ),
                            }
                        } else if inst0 == "ORG".spec_bytes() {
                            if st2.cur_macro is Some {
                                Err(ParserErrorV::OrigInMacro)
                            } else if line.args_list.len() == 0 {
                                Err(ParserErrorV::WrongNumberOfArgs(1, 0))
                            } else {
                                match spec_parse_expression_u16(
                                    line.args_list[0],
                                    st2.address,
                                    st2.labels,
                                ) {
                                    Err(e) => Err(ParserErrorV::ExpressionError(e)),
                                    Ok((val, _)) => Ok(
                                        PassOne {
                                            address: val,
                                            highest: if val > st2.highest {
                                                val
                                            } else {
                                                st2.highest
                                            },
                                            ..st2
                                        },
                                    ),
                                }
                            }
                        } else if inst0 == "IF".spec_bytes() || inst0 == "ENDIF".spec_bytes()
                            || inst0 == "SET".spec_bytes() || inst0 == "EQU".spec_bytes() {
                            Ok(st2)
                        } else {
                            match spec_pass_one_width(
                                st2.labels,
                                st2.macros,
                                match st2.cur_macro {
                                    Some((nm, _)) => Some(nm),
                                    None => None,
                                },
                                line,
                            ) {
                                Err(e) => Err(e),
                                Ok(width) => {
                                    match st2.cur_macro {
                                        Some((nm, m)) => {
                                            if inst0 == "DB".spec_bytes() || inst0
                                                == "DW".spec_bytes() || inst0
                                                == "DS".spec_bytes() {
                                                Err(ParserErrorV::DefineInMacro)
                                            } else if st2.inside_if {
                                                Err(ParserErrorV::IfAndMacroMix)
                                            } else if m.width + width > 0xffff {
                                                Err(
                                                    ParserErrorV::InvalidArgument(
                                                        inst0,
                                                        Seq::empty(),
                                                    ),
                                                )
                                            } else {
                                                let nl = LineMetaV {
                                                    address: st2.macro_address,
                                                    width: width as usize,
                                                    ..line
                                                };
                                                Ok(
                                                    PassOne {
                                                        cur_macro: Some(
                                                            (
                                                                nm,
                                                                MacroV {
                                                                    lines: m.lines.push(nl),
                                                                    width: (m.width
                                                                        + width) as u16,
                                                                    ..m
                                                                },
                                                            ),
                                                        ),
                                                        macro_address: ((st2.macro_address
                                                            + width) % 0x10000) as u16,
                                                        ..st2
                                                    },
                                                )
                                            }
                                        },
                                        None => {
                                            let nl = LineMetaV {
                                                address: st2.address,
                                                width: width as usize,
                                                ..line
                                            };
                                            let addr2 = ((st2.address + width)
                                                % 0x10000) as u16;
                                            Ok(
                                                PassOne {
                                                    resolved: st2.resolved.push(nl),
                                                    address: addr2,
                                                    highest: if addr2 > st2.highest {
                                                        addr2
                                                    } else {
                                                        st2.highest
                                                    },
                                                    ..st2
                                                },
                                            )
                                        },
                                    }
                                },
                            }
                        }
                    },
                }
            }
        },
    }
}

/// The whole of pass one: every line stepped through, `END` stopping
/// early; an open `IF` or `MACRO` at the end is an error.
pub open spec fn spec_pass_one_run(st: PassOne, lines: Seq<LineMetaV>, i: int, load_address: u16) -> Result<
    PassOne,
    ParserErrorV,
>
    decreases lines.len() - i,
{
    if i < 0 || i >= lines.len() {
        if st.inside_if {
            Err(ParserErrorV::NoEndIf)
        } else if st.cur_macro is Some {
            Err(ParserErrorV::NoEndMacro)
        } else {
            Ok(st)
        }
    } else {
        match spec_pass_one_step(st, lines[i], load_address) {
            Err(e) => Err(e),
            Ok(st2) => {
                if st2.done {
                    if st2.inside_if {
                        Err(ParserErrorV::NoEndIf)
                    } else if st2.cur_macro is Some {
                        Err(ParserErrorV::NoEndMacro)
                    } else {
                        Ok(st2)
                    }
                } else {
                    spec_pass_one_run(st2, lines, i + 1, load_address)
                }
            },
        }
    }
}

} // verus!

verus! {

/// The ghost image of the macro being captured.
pub open spec fn cmv(c: Option<(Vec<u8>, Macro)>) -> Option<(Seq<u8>, MacroV)> {
    match c {
        Some((n, m)) => Some((n@, m@)),
        None => None,
    }
}

pub proof fn lemma_lines_view_push(s: Seq<LineMeta>, l: LineMeta)
    ensures
        lines_view(s.push(l)) =~= lines_view(s).push(l@),
{
}

impl Assembler {
    /// The width a data directive occupies, its expressions evaluated
    /// against the current labels at address zero.
    pub fn width_of_data_storage(&self, inst: &Vec<u8>, args: &Vec<Vec<u8>>) -> (r: Result<
        usize,
        ParserError,
    >)
        ensures
            match spec_width_of_data_storage(self.labels@, inst@, tokenizer::view_args(args@)) {
                Ok(w) => r is Ok && r->Ok_0 == w && w <= 0xffff,
                Err(e) => r is Err && r->Err_0@ == e,
            },
    {
        let ghost argsv = tokenizer::view_args(args@);
        if crate::util::bytes_eq(inst.as_slice(), "DB".as_bytes()) {
            let mut width: usize = 0;
            let mut i: usize = 0;
            while i < args.len()
                invariant
                    i <= args.len(),
                    width <= 0xffff,
                    argsv == tokenizer::view_args(args@),
                    inst@ == "DB".spec_bytes(),
                    spec_db_width(self.labels@, inst@, argsv, 0, 0) == spec_db_width(
                        self.labels@,
                        inst@,
                        argsv,
                        i as int,
                        width as int,
                    ),
                decreases args.len() - i,
            {
                proof {
                    assert(argsv[i as int] == args@[i as int]@);
                }
                match parse_expression(&args[i], 0, &self.labels) {
                    Err(e) => {
                        return Err(ParserError::ExpressionError(e));
                    },
                    Ok((bytes, flags)) => {
                        let add: usize = if flags.string {
                            bytes.len()
                        } else {
                            1
                        };
                        if add > 0xffff - width {
                            return Err(
                                ParserError::InvalidArgument(
                                    crate::util::bytes_copy(inst),
                                    crate::util::bytes_copy(&args[i]),
                                ),
                            );
                        }
                        width = width + add;
                    },
                }
                i = i + 1;
            }
            Ok(width)
        } else if crate::util::bytes_eq(inst.as_slice(), "DW".as_bytes()) {
            if args.len() > 0x7fff {
                let empty: Vec<u8> = Vec::new();
                proof {
                    assert(empty@ =~= Seq::<u8>::empty());
                }
                return Err(ParserError::InvalidArgument(crate::util::bytes_copy(inst), empty));
            }
            Ok(args.len() * 2)
        } else if crate::util::bytes_eq(inst.as_slice(), "DS".as_bytes()) {
            if args.len() == 0 {
                return Err(ParserError::NoArgsForVariadic);
            }
            proof {
                assert(argsv[0] == args@[0]@);
            }
            match parse_expression(&args[0], 0, &self.labels) {
                Err(e) => Err(ParserError::ExpressionError(e)),
                Ok((bytes, flags)) => {
                    if flags.string {
                        Err(
                            ParserError::InvalidArgument(
                                crate::util::bytes_copy(inst),
                                crate::util::bytes_copy(&args[0]),
                            ),
                        )
                    } else {
                        Ok(crate::util::vec_u8_to_u16(bytes.as_slice()) as usize)
                    }
                },
            }
        } else {
            Err(ParserError::UnknownDefine(crate::util::bytes_copy(inst)))
        }
    }
}

} // verus!

verus! {

impl Assembler {
    /// One line's label handling of pass one.
    #[verifier::rlimit(100)]
    fn pass_one_labels(&mut self, line: &LineMeta, address: u16) -> (r: Result<(), ParserError>)
        ensures
            final(self).args == old(self).args,
            final(self).macros@ == old(self).macros@,
            final(self).lines@ == old(self).lines@,
            final(self).prog_width == old(self).prog_width,
            match spec_pass_one_labels(old(self).labels@, line@, address) {
                Ok(m) => r is Ok && final(self).labels@ == m,
                Err(e) => r is Err && r->Err_0@ == e && final(self).labels@ == old(self).labels@,
            },
    {
        let is_set = match &line.inst {
            Some(v) => crate::util::bytes_eq(v.as_slice(), "SET".as_bytes()),
            None => false,
        };
        let is_equ = match &line.inst {
            Some(v) => crate::util::bytes_eq(v.as_slice(), "EQU".as_bytes()),
            None => false,
        };
        if let Some(label) = &line.label {
            let existing = self.labels.get(label.as_slice());
            if existing.is_some() && !(existing.unwrap().is_set && is_set) {
                let e = self.labels.get(label.as_slice()).unwrap();
                return Err(ParserError::LabelAlreadyDefined(crate::util::bytes_copy(label), e));
            }
            if !line.label_only && (is_set || is_equ) {
                if line.args_list.len() == 0 {
                    return Err(ParserError::WrongNumberOfArgs(1, 0));
                }
                proof {
                    assert(line@.args_list[0] == line.args_list@[0]@);
                }
                match parse_expression_u16(&line.args_list[0], address, &self.labels) {
                    Err(e) => {
                        return Err(ParserError::ExpressionError(e));
                    },
                    Ok((val, _)) => {
                        if is_equ {
                            self.labels.insert(
                                crate::util::bytes_copy(label),
                                Label::new_equ(Some(val)),
                            );
                        } else {
                            self.labels.insert(
                                crate::util::bytes_copy(label),
                                Label::new_set(Some(val)),
                            );
                        }
                    },
                }
            } else {
                self.labels.insert(crate::util::bytes_copy(label), Label::new_addr(Some(address)));
            }
        }
        Ok(())
    }

    /// One line's width in pass one.
    fn pass_one_width(&self, macros: &MacroTable, cur_macro: &Option<(Vec<u8>, Macro)>, line: &LineMeta)
        -> (r: Result<usize, ParserError>)
        ensures
            match spec_pass_one_width(
                self.labels@,
                macros@,
                match cmv(*cur_macro) {
                    Some((n, _)) => Some(n),
                    None => None,
                },
                line@,
            ) {
                Ok(w) => r is Ok && r->Ok_0 == w && w <= 0xffff,
                Err(e) => r is Err && r->Err_0@ == e,
            },
    {
        let empty_inst: Vec<u8> = Vec::new();
        let inst: &Vec<u8> = match &line.inst {
            Some(s) => s,
            None => &empty_inst,
        };
        proof {
            assert(inst@ == spec_inst_of(line@));
        }
        match line.op_code {
            Some(code) => {
                let meta = op_meta(code);
                if meta.labelled && line.label.is_none() {
                    return Err(ParserError::OperationRequiresLabel(crate::util::bytes_copy(inst)));
                }
                if meta.define {
                    if line.args_list.len() < 1 {
                        return Err(ParserError::NoArgsForVariadic);
                    }
                    self.width_of_data_storage(inst, &line.args_list)
                } else if meta.asm_arg_count != line.args_list.len() {
                    Err(ParserError::WrongNumberOfArgs(meta.asm_arg_count, line.args_list.len()))
                } else {
                    Ok(meta.width())
                }
            },
            None => {
                if line.args_list.len() != 0 {
                    return Err(ParserError::WrongNumberOfArgs(0, line.args_list.len()));
                }
                let recursive = match cur_macro {
                    Some((nm, _)) => crate::util::bytes_eq(nm.as_slice(), inst.as_slice()),
                    None => false,
                };
                if recursive {
                    return Err(ParserError::RecursiveMacro);
                }
                match macros.get(inst.as_slice()) {
                    Some(m) => Ok(m.width as usize),
                    None => Err(ParserError::MacroUseBeforeCreation),
                }
            },
        }
    }

    /// Pass one from address zero.
    pub fn parse(&mut self, lines: Vec<LineMeta>) -> (r: Result<(), ParserError>)
        requires
            forall|i: int|
                0 <= i < lines@.len() ==> (#[trigger] lines@[i])@.label_only || lines@[i]@.inst
                    is Some,
        ensures
            final(self).args == old(self).args,
            match spec_pass_one_run(spec_pass_one_init(old(self).labels@, 0), lines_view(lines@), 0, 0) {
                Ok(st) => r is Ok && final(self).labels@ == st.labels && final(self).macros@
                    == st.macros && lines_view(final(self).lines@) == st.resolved
                    && final(self).prog_width == st.highest,
                Err(e) => r is Err && r->Err_0@ == e,
            },
    {
        self.parse_at(lines, 0)
    }

    /// Pass one: walk the tokenized lines resolving addresses, widths,
    /// labels and macro bodies against a load address.
    #[verifier::rlimit(100)]
    pub fn parse_at(&mut self, lines: Vec<LineMeta>, load_address: u16) -> (r: Result<
        (),
        ParserError,
    >)
        requires
            forall|i: int|
                0 <= i < lines@.len() ==> (#[trigger] lines@[i])@.label_only || lines@[i]@.inst
                    is Some,
        ensures
            final(self).args == old(self).args,
            match spec_pass_one_run(
                spec_pass_one_init(old(self).labels@, load_address),
                lines_view(lines@),
                0,
                load_address,
            ) {
                Ok(st) => r is Ok && final(self).labels@ == st.labels && final(self).macros@
                    == st.macros && lines_view(final(self).lines@) == st.resolved
                    && final(self).prog_width == st.highest,
                Err(e) => r is Err && r->Err_0@ == e,
            },
    {
        let ghost linesv = lines_view(lines@);
        let ghost goal = spec_pass_one_run(
            spec_pass_one_init(old(self).labels@, load_address),
            linesv,
            0,
            load_address,
        );
        let mut resolved_lines: Vec<LineMeta> = Vec::new();
        let mut macros = MacroTable::new();
        let mut cur_macro: Option<(Vec<u8>, Macro)> = None;
        let mut inside_if: bool = false;
        let mut skip: bool = false;
        let mut address: u16 = load_address;
        let mut macro_address: u16 = load_address;
        let mut highest: u16 = load_address;
        let mut i: usize = 0;
        proof {
            assert(lines_view(resolved_lines@) =~= Seq::<LineMetaV>::empty());
            assert(spec_pass_one_init(old(self).labels@, load_address) =~= (PassOne {
                labels: self.labels@,
                macros: macros@,
                cur_macro: cmv(cur_macro),
                resolved: lines_view(resolved_lines@),
                address,
                macro_address,
                highest,
                inside_if,
                skip,
                done: false,
            }));
        }
        while i < lines.len()
            invariant_except_break
                goal == spec_pass_one_run(
                    PassOne {
                        labels: self.labels@,
                        macros: macros@,
                        cur_macro: cmv(cur_macro),
                        resolved: lines_view(resolved_lines@),
                        address,
                        macro_address,
                        highest,
                        inside_if,
                        skip,
                        done: false,
                    },
                    linesv,
                    i as int,
                    load_address,
                ),
            invariant
                i <= lines.len(),
                linesv == lines_view(lines@),
                forall|k: int|
                    0 <= k < lines@.len() ==> (#[trigger] lines@[k])@.label_only
                        || lines@[k]@.inst is Some,
                goal == spec_pass_one_run(
                    spec_pass_one_init(old(self).labels@, load_address),
                    linesv,
                    0,
                    load_address,
                ),
                self.args == old(self).args,
            ensures
                self.args == old(self).args,
                goal == if inside_if {
                    Err::<PassOne, ParserErrorV>(ParserErrorV::NoEndIf)
                } else if cmv(cur_macro) is Some {
                    Err::<PassOne, ParserErrorV>(ParserErrorV::NoEndMacro)
                } else {
                    Ok::<PassOne, ParserErrorV>(
                        PassOne {
                            labels: self.labels@,
                            macros: macros@,
                            cur_macro: cmv(cur_macro),
                            resolved: lines_view(resolved_lines@),
                            address,
                            macro_address,
                            highest,
                            inside_if,
                            skip,
                            done: goal is Ok && goal->Ok_0.done,
                        },
                    )
                },
            decreases lines.len() - i,
        {
            let ghost pre = PassOne {
                labels: self.labels@,
                macros: macros@,
                cur_macro: cmv(cur_macro),
                resolved: lines_view(resolved_lines@),
                address,
                macro_address,
                highest,
                inside_if,
                skip,
                done: false,
            };
            let ghost linev = linesv[i as int];
            proof {
                assert(linev == lines@[i as int]@);
            }
            let ghost step = spec_pass_one_step(pre, linev, load_address);
            let line = &lines[i];
            self.erroring_line = Some(LineMeta::erroring(line));
            let is_if = match &line.inst {
                Some(v) => crate::util::bytes_eq(v.as_slice(), "IF".as_bytes()),
                None => false,
            };
            let is_endif = match &line.inst {
                Some(v) => crate::util::bytes_eq(v.as_slice(), "ENDIF".as_bytes()),
                None => false,
            };
            let is_end = match &line.inst {
                Some(v) => crate::util::bytes_eq(v.as_slice(), "END".as_bytes()),
                None => false,
            };
            let is_set = match &line.inst {
                Some(v) => crate::util::bytes_eq(v.as_slice(), "SET".as_bytes()),
                None => false,
            };
            let is_equ = match &line.inst {
                Some(v) => crate::util::bytes_eq(v.as_slice(), "EQU".as_bytes()),
                None => false,
            };
            let is_macro = match &line.inst {
                Some(v) => crate::util::bytes_eq(v.as_slice(), "MACRO".as_bytes()),
                None => false,
            };
            let is_endm = match &line.inst {
                Some(v) => crate::util::bytes_eq(v.as_slice(), "ENDM".as_bytes()),
                None => false,
            };
            let is_org = match &line.inst {
                Some(v) => crate::util::bytes_eq(v.as_slice(), "ORG".as_bytes()),
                None => false,
            };
            // IF / ENDIF / END control which lines count
            if is_if {
                if inside_if {
                    return Err(ParserError::NestedIf);
                }
                if line.args_list.len() == 0 {
                    return Err(ParserError::WrongNumberOfArgs(1, 0));
                }
                proof {
                    assert(linev.args_list[0] == line.args_list@[0]@);
                }
                match parse_expression_u16(&line.args_list[0], address, &self.labels) {
                    Err(e) => {
                        return Err(ParserError::ExpressionError(e));
                    },
                    Ok((val, _)) => {
                        inside_if = true;
                        skip = !(val > 0);
                    },
                }
            } else if is_endif {
                if !inside_if {
                    return Err(ParserError::NotInIf);
                }
                inside_if = false;
                skip = false;
            } else if is_end {
                proof {
                    assert(step == Ok::<PassOne, ParserErrorV>(PassOne { done: true, ..pre }));
                }
                break ;
            }
            let ghost st1 = if is_if || is_endif {
                step->Ok_0
            } else {
                pre
            };
            if skip {
                i = i + 1;
                continue ;
            }
            // labels join the table
            match self.pass_one_labels(line, address) {
                Ok(()) => {},
                Err(e) => {
                    return Err(e);
                },
            }
            let ghost st2 = PassOne { labels: self.labels@, ..st1 };
            // a bare label marks the current address
            if line.label_only {
                let mut nl = line.clone();
                nl.address = address;
                nl.width = 0;
                proof {
                    assert(nl@ == (LineMetaV { address: st2.address, width: 0, ..linev }));
                }
                match cur_macro {
                    Some((nm, mut m)) => {
                        proof {
                            lemma_lines_view_push(m.lines@, nl);
                        }
                        m.lines.push(nl);
                        cur_macro = Some((nm, m));
                    },
                    None => {
                        proof {
                            lemma_lines_view_push(resolved_lines@, nl);
                        }
                        resolved_lines.push(nl);
                        cur_macro = None;
                    },
                }
                i = i + 1;
                continue ;
            }
            // structure: macro capture, origin changes
            if is_macro {
                if line.label.is_none() {
                    let empty_inst: Vec<u8> = Vec::new();
                    let instc = match &line.inst {
                        Some(v) => crate::util::bytes_copy(v),
                        None => empty_inst,
                    };
                    return Err(ParserError::OperationRequiresLabel(instc));
                }
                if cur_macro.is_some() {
                    return Err(ParserError::NestedMacro);
                }
                let label = match &line.label {
                    Some(l) => crate::util::bytes_copy(l),
                    None => Vec::new(),
                };
                cur_macro = Some((label, Macro::new()));
                i = i + 1;
                continue ;
            }
            if is_endm {
                match cur_macro {
                    None => {
                        return Err(ParserError::NotInMacro);
                    },
                    Some((nm, m)) => {
                        macros.insert(nm, m);
                        cur_macro = None;
                        macro_address = load_address;
                    },
                }
                i = i + 1;
                continue ;
            }
            if is_org {
                if cur_macro.is_some() {
                    return Err(ParserError::OrigInMacro);
                }
                if line.args_list.len() == 0 {
                    return Err(ParserError::WrongNumberOfArgs(1, 0));
                }
                proof {
                    assert(linev.args_list[0] == line.args_list@[0]@);
                }
                match parse_expression_u16(&line.args_list[0], address, &self.labels) {
                    Err(e) => {
                        return Err(ParserError::ExpressionError(e));
                    },
                    Ok((val, _)) => {
                        address = val;
                        if address > highest {
                            highest = address;
                        }
                    },
                }
                i = i + 1;
                continue ;
            }
            if is_if || is_endif || is_set || is_equ {
                i = i + 1;
                continue ;
            }
            // anything else has a width and lands in the stream
            let width: usize = match self.pass_one_width(&macros, &cur_macro, line) {
                Ok(w) => w,
                Err(e) => {
                    return Err(e);
                },
            };
            let empty_inst: Vec<u8> = Vec::new();
            let inst: &Vec<u8> = match &line.inst {
                Some(s) => s,
                None => &empty_inst,
            };
            proof {
                assert(inst@ == spec_inst_of(linev));
            }
            let is_db = crate::util::bytes_eq(inst.as_slice(), "DB".as_bytes());
            let is_dw = crate::util::bytes_eq(inst.as_slice(), "DW".as_bytes());
            let is_ds = crate::util::bytes_eq(inst.as_slice(), "DS".as_bytes());
            match cur_macro {
                Some((nm, mut m)) => {
                    if is_db || is_dw || is_ds {
                        return Err(ParserError::DefineInMacro);
                    }
                    if inside_if {
                        return Err(ParserError::IfAndMacroMix);
                    }
                    if m.width as usize > 0xffff - width {
                        let instc = crate::util::bytes_copy(inst);
                        let empty: Vec<u8> = Vec::new();
                        proof {
                            assert(empty@ =~= Seq::<u8>::empty());
                        }
                        return Err(ParserError::InvalidArgument(instc, empty));
                    }
                    let mut nl = line.clone();
                    nl.width = width;
                    nl.address = macro_address;
                    proof {
                        assert(nl@ == (LineMetaV {
                            address: macro_address,
                            width: width as usize,
                            ..linev
                        }));
                        lemma_lines_view_push(m.lines@, nl);
                    }
                    m.lines.push(nl);
                    m.width = m.width + width as u16;
                    cur_macro = Some((nm, m));
                    macro_address = ((macro_address as u32 + width as u32) % 0x10000) as u16;
                },
                None => {
                    cur_macro = None;
                    let mut nl = line.clone();
                    nl.width = width;
                    nl.address = address;
                    proof {
                        assert(nl@ == (LineMetaV {
                            address: address,
                            width: width as usize,
                            ..linev
                        }));
                        lemma_lines_view_push(resolved_lines@, nl);
                    }
                    resolved_lines.push(nl);
                    address = ((address as u32 + width as u32) % 0x10000) as u16;
                    if address > highest {
                        highest = address;
                    }
                },
            }
            proof {
                assert(step is Ok && step->Ok_0 =~= (PassOne {
                    labels: self.labels@,
                    macros: macros@,
                    cur_macro: cmv(cur_macro),
                    resolved: lines_view(resolved_lines@),
                    address,
                    macro_address,
                    highest,
                    inside_if,
                    skip,
                    done: false,
                }));
            }
            i = i + 1;
        }
        if inside_if {
            return Err(ParserError::NoEndIf);
        }
        if cur_macro.is_some() {
            return Err(ParserError::NoEndMacro);
        }
        self.macros = macros;
        self.lines = resolved_lines;
        self.prog_width = highest;
        Ok(())
    }
}

} // verus!

verus! {

/// One macro body generated at its captured offsets: the updated body
/// lines (each marked if its expressions read `$`), the produced bytes,
/// and whether any line read `$`.  Each line must produce exactly the
/// width pass one recorded.
pub open spec fn spec_gen_macro_body(
    labels: Map<Seq<u8>, Label>,
    entries: Seq<(Seq<u8>, MacroV)>,
    m: MacroV,
    j: int,
    lines_acc: Seq<LineMetaV>,
    bytes_acc: Seq<u8>,
    upc: bool,
) -> Result<(Seq<LineMetaV>, Seq<u8>, bool), CodeGenErrorV>
    decreases m.lines.len() - j,
{
    if j < 0 || j >= m.lines.len() {
        Ok((lines_acc, bytes_acc, upc))
    } else {
        let line = m.lines[j];
        match spec_gen_for_line(labels, entries, line, line.address, true) {
            Err(e) => Err(e),
            Ok((b, pc)) => {
                if b.len() != line.width {
                    Err(CodeGenErrorV::UnexpectedLength(line.width, b.len() as usize))
                } else {
                    let line2 = LineMetaV { uses_pc: line.uses_pc || pc, ..line };
                    spec_gen_macro_body(
                        labels,
                        entries,
                        m,
                        j + 1,
                        lines_acc.push(line2),
                        bytes_acc + b,
                        upc || line2.uses_pc,
                    )
                }
            },
        }
    }
}

/// Pass two over the whole table, in definition order: each macro's cache
/// is generated against the macros before it (so a body may splice only
/// macros defined earlier, as invocations must follow definitions).
pub open spec fn spec_gen_macros(
    labels: Map<Seq<u8>, Label>,
    entries: Seq<(Seq<u8>, MacroV)>,
    i: int,
) -> Result<Seq<(Seq<u8>, MacroV)>, CodeGenErrorV>
    decreases entries.len() - i,
{
    if i < 0 || i >= entries.len() {
        Ok(entries)
    } else {
        let (name, m) = entries[i];
        match spec_gen_macro_body(labels, entries, m, 0, Seq::empty(), Seq::empty(), false) {
            Err(e) => Err(e),
            Ok((lines2, bytes, upc)) => {
                let m2 = MacroV {
                    lines: lines2,
                    bytes: m.bytes + bytes,
                    width: m.width,
                    uses_pc: m.uses_pc || upc,
                };
                spec_gen_macros(labels, entries.update(i, (name, m2)), i + 1)
            },
        }
    }
}

/// Pass three: every resolved line emitted into the image at its own
/// address, out-of-image bytes dropped; a line whose bytes differ from its
/// recorded width is an internal error.
pub open spec fn spec_generate_prog(
    labels: Map<Seq<u8>, Label>,
    macros: Seq<(Seq<u8>, MacroV)>,
    lines: Seq<LineMetaV>,
    i: int,
    image: Seq<u8>,
) -> Result<Seq<u8>, CodeGenErrorV>
    decreases lines.len() - i,
{
    if i < 0 || i >= lines.len() {
        Ok(image)
    } else {
        let line = lines[i];
        match spec_gen_for_line(labels, macros, line, line.address, false) {
            Err(e) => Err(e),
            Ok((b, _)) => {
                if b.len() != line.width {
                    Err(CodeGenErrorV::UnexpectedLength(line.width, b.len() as usize))
                } else {
                    spec_generate_prog(
                        labels,
                        macros,
                        lines,
                        i + 1,
                        crate::sys::memory::spec_load(image, line.address as int, b),
                    )
                }
            },
        }
    }
}

/// Law: pass three never changes the image's length, so a successful
/// assembly is exactly `prog_width` bytes before the optional trailing
/// halt.
pub proof fn lemma_generate_prog_len(
    labels: Map<Seq<u8>, Label>,
    macros: Seq<(Seq<u8>, MacroV)>,
    lines: Seq<LineMetaV>,
    i: int,
    image: Seq<u8>,
)
    ensures
        spec_generate_prog(labels, macros, lines, i, image) is Ok
            ==> spec_generate_prog(labels, macros, lines, i, image)->Ok_0.len() == image.len(),
    decreases lines.len() - i,
{
    if i < 0 || i >= lines.len() {
    } else {
        let line = lines[i];
        match spec_gen_for_line(labels, macros, line, line.address, false) {
            Err(e) => {},
            Ok((b, _)) => {
                if b.len() != line.width {
                } else {
                    lemma_generate_prog_len(
                        labels,
                        macros,
                        lines,
                        i + 1,
                        crate::sys::memory::spec_load(image, line.address as int, b),
                    );
                }
            },
        }
    }
}

/// Law: when pass three succeeds, every resolved line (here the one at
/// any index `j`) emitted exactly the width pass one computed for it.
#[verifier::rlimit(100)]
pub proof fn lemma_generate_prog_widths(
    labels: Map<Seq<u8>, Label>,
    macros: Seq<(Seq<u8>, MacroV)>,
    lines: Seq<LineMetaV>,
    i: int,
    image: Seq<u8>,
    j: int,
)
    ensures
        (0 <= i && spec_generate_prog(labels, macros, lines, i, image) is Ok && i <= j
            < lines.len()) ==> ({
            let g = spec_gen_for_line(labels, macros, lines[j], lines[j].address, false);
            g is Ok && g->Ok_0.0.len() == lines[j].width
        }),
    decreases lines.len() - i,
{
    if i < 0 || i >= lines.len() {
    } else {
        let line = lines[i];
        match spec_gen_for_line(labels, macros, line, line.address, false) {
            Err(e) => {},
            Ok((b, _)) => {
                if b.len() != line.width {
                } else {
                    lemma_generate_prog_widths(
                        labels,
                        macros,
                        lines,
                        i + 1,
                        crate::sys::memory::spec_load(image, line.address as int, b),
                        j,
                    );
                }
            },
        }
    }
}

/// Law: a macro whose body never read `$` emits its cached bytes at every
/// call site, whatever the address.
pub proof fn lemma_macro_without_pc_splices_cache(
    labels: Map<Seq<u8>, Label>,
    macros: Seq<(Seq<u8>, MacroV)>,
    line: LineMetaV,
    a1: u16,
    a2: u16,
    inside1: bool,
    inside2: bool,
)
    requires
        line.op_code is None,
        spec_macro_lookup(macros, spec_inst_of(line)) is Some,
        !spec_macro_lookup(macros, spec_inst_of(line))->0.uses_pc,
    ensures
        spec_gen_for_line(labels, macros, line, a1, inside1) == Ok::<(Seq<u8>, bool), CodeGenErrorV>(
            (spec_macro_lookup(macros, spec_inst_of(line))->0.bytes, false),
        ),
        spec_gen_for_line(labels, macros, line, a1, inside1) == spec_gen_for_line(
            labels,
            macros,
            line,
            a2,
            inside2,
        ),
{
}

/// Law: a macro whose body read `$` is regenerated at its call site: the
/// invocation's bytes are the body lines' own generations, each at the
/// call address plus the line's offset inside the body, concatenated in
/// order.
pub proof fn lemma_macro_with_pc_regenerates(
    labels: Map<Seq<u8>, Label>,
    macros: Seq<(Seq<u8>, MacroV)>,
    m: MacroV,
    addr: u16,
    i: int,
    acc: Seq<u8>,
)
    requires
        0 <= i < m.lines.len(),
        spec_gen_for_macro_at(labels, macros, m, addr, i, acc) is Ok,
    ensures
        spec_gen_for_line(
            labels,
            macros,
            m.lines[i],
            ((m.lines[i].address + addr) % 0x10000) as u16,
            true,
        ) is Ok,
        spec_gen_for_macro_at(labels, macros, m, addr, i, acc) == spec_gen_for_macro_at(
            labels,
            macros,
            m,
            addr,
            i + 1,
            acc + spec_gen_for_line(
                labels,
                macros,
                m.lines[i],
                ((m.lines[i].address + addr) % 0x10000) as u16,
                true,
            )->Ok_0.0,
        ),
{
}

} // verus!

verus! {

/// Write a byte run into the image at an address; bytes that would fall
/// past the end are dropped.
fn splice(bytes: &mut Vec<u8>, addr: u16, src: &Vec<u8>)
    ensures
        final(bytes)@ == crate::sys::memory::spec_load(old(bytes)@, addr as int, src@),
{
    let offset = addr as usize;
    let n = if offset > bytes.len() {
        0
    } else if src.len() > bytes.len() - offset {
        bytes.len() - offset
    } else {
        src.len()
    };
    let mut i: usize = 0;
    while i < n
        invariant
            n <= src.len(),
            n == 0 || offset + n <= bytes.len(),
            i <= n,
            bytes@.len() == old(bytes)@.len(),
            forall|j: int|
                0 <= j < bytes@.len() ==> bytes@[j] == if offset <= j < offset + i {
                    src@[j - offset]
                } else {
                    old(bytes)@[j]
                },
        decreases n - i,
    {
        bytes.set(offset + i, src[i]);
        i = i + 1;
    }
    proof {
        assert(bytes@ =~= crate::sys::memory::spec_load(old(bytes)@, addr as int, src@));
    }
}

impl Assembler {
    /// One macro body generated at its captured offsets.
    #[verifier::rlimit(100)]
    fn gen_macro_body(&self, m: &Macro) -> (r: Result<(Vec<LineMeta>, Vec<u8>, bool), CodeGenError>)
        ensures
            match spec_gen_macro_body(
                self.labels@,
                self.macros@,
                m@,
                0,
                Seq::empty(),
                Seq::empty(),
                false,
            ) {
                Ok((lines2, b, upc)) => r is Ok && lines_view(r->Ok_0.0@) == lines2 && r->Ok_0.1@
                    == b && r->Ok_0.2 == upc,
                Err(e) => r is Err && r->Err_0@ == e,
            },
    {
        let mut new_lines: Vec<LineMeta> = Vec::new();
        let mut new_bytes: Vec<u8> = Vec::new();
        let mut upc = false;
        let mut j: usize = 0;
        proof {
            assert(lines_view(new_lines@) =~= Seq::<LineMetaV>::empty());
            assert(new_bytes@ =~= Seq::<u8>::empty());
        }
        while j < m.lines.len()
            invariant
                j <= m.lines.len(),
                spec_gen_macro_body(
                    self.labels@,
                    self.macros@,
                    m@,
                    0,
                    Seq::empty(),
                    Seq::empty(),
                    false,
                ) == spec_gen_macro_body(
                    self.labels@,
                    self.macros@,
                    m@,
                    j as int,
                    lines_view(new_lines@),
                    new_bytes@,
                    upc,
                ),
            decreases m.lines.len() - j,
        {
            let line = &m.lines[j];
            proof {
                assert(m@.lines[j as int] == m.lines@[j as int]@);
            }
            match self.gen_for_line(line, line.address, true) {
                Err(e) => {
                    return Err(e);
                },
                Ok((b, pc)) => {
                    if b.len() != line.width {
                        return Err(CodeGenError::UnexpectedLength(line.width, b.len()));
                    }
                    let mut nl = line.clone();
                    if pc {
                        nl.uses_pc = true;
                    }
                    proof {
                        assert(nl@ == (LineMetaV {
                            uses_pc: m@.lines[j as int].uses_pc || pc,
                            ..m@.lines[j as int]
                        }));
                        lemma_lines_view_push(new_lines@, nl);
                    }
                    if nl.uses_pc {
                        upc = true;
                    }
                    new_lines.push(nl);
                    crate::util::push_bytes(&mut new_bytes, b.as_slice());
                },
            }
            j = j + 1;
        }
        Ok((new_lines, new_bytes, upc))
    }

    /// Pass two: fill every macro's byte cache and mark the bodies whose
    /// expressions read the program counter.
    #[verifier::rlimit(100)]
    pub fn gen_macros(&mut self) -> (r: Result<(), CodeGenError>)
        ensures
            final(self).args == old(self).args,
            final(self).labels@ == old(self).labels@,
            final(self).lines@ == old(self).lines@,
            final(self).prog_width == old(self).prog_width,
            match spec_gen_macros(old(self).labels@, old(self).macros@, 0) {
                Ok(entries) => r is Ok && final(self).macros@ == entries,
                Err(e) => r is Err && r->Err_0@ == e,
            },
    {
        let ghost goal = spec_gen_macros(self.labels@, self.macros@, 0);
        let mut i: usize = 0;
        while i < self.macros.len()
            invariant
                i <= self.macros@.len(),
                self.args == old(self).args,
                self.labels@ == old(self).labels@,
                self.lines@ == old(self).lines@,
                self.prog_width == old(self).prog_width,
                self.erroring_line == old(self).erroring_line,
                goal == spec_gen_macros(old(self).labels@, old(self).macros@, 0),
                goal == spec_gen_macros(self.labels@, self.macros@, i as int),
            decreases self.macros@.len() - i,
        {
            let name = crate::util::bytes_copy(&self.macros.entries[i].0);
            let m = self.macros.entries[i].1.clone();
            proof {
                assert(self.macros@[i as int] == (self.macros.entries@[i as int].0@,
                self.macros.entries@[i as int].1@));
            }
            let (new_lines, new_bytes, upc) = match self.gen_macro_body(&m) {
                Ok(t) => t,
                Err(e) => {
                    return Err(e);
                },
            };
            let mut m2_bytes = crate::util::bytes_copy(&m.bytes);
            crate::util::push_bytes(&mut m2_bytes, new_bytes.as_slice());
            let m2 = Macro {
                lines: new_lines,
                bytes: m2_bytes,
                width: m.width,
                uses_pc: m.uses_pc || upc,
            };
            self.macros.set_entry(i, name, m2);
            i = i + 1;
        }
        Ok(())
    }

    /// Pass three: emit every resolved line into a fresh image of
    /// `prog_width` bytes, and append the optional trailing halt opcode.
    #[verifier::rlimit(100)]
    pub fn generate_prog(&self) -> (r: Result<Vec<u8>, CodeGenError>)
        ensures
            match spec_generate_prog(
                self.labels@,
                self.macros@,
                lines_view(self.lines@),
                0,
                Seq::new(self.prog_width as nat, |k: int| 0u8),
            ) {
                Ok(img) => r is Ok && r->Ok_0@ == if self.args.hlt {
                    img.push(0x76u8)
                } else {
                    img
                },
                Err(e) => r is Err && r->Err_0@ == e,
            },
    {
        let ghost linesv = lines_view(self.lines@);
        let ghost img0 = Seq::new(self.prog_width as nat, |k: int| 0u8);
        let ghost goal = spec_generate_prog(self.labels@, self.macros@, linesv, 0, img0);
        let mut bytes: Vec<u8> = vec![0u8; self.prog_width as usize];
        proof {
            assert(bytes@ =~= img0);
        }
        let mut i: usize = 0;
        while i < self.lines.len()
            invariant
                i <= self.lines@.len(),
                linesv == lines_view(self.lines@),
                img0 == Seq::new(self.prog_width as nat, |k: int| 0u8),
                goal == spec_generate_prog(self.labels@, self.macros@, linesv, 0, img0),
                goal == spec_generate_prog(self.labels@, self.macros@, linesv, i as int, bytes@),
            decreases self.lines@.len() - i,
        {
            let line = &self.lines[i];
            proof {
                assert(line@ == linesv[i as int]);
            }
            match self.gen_for_line(line, line.address, false) {
                Err(e) => {
                    return Err(e);
                },
                Ok((line_bytes, _)) => {
                    if line_bytes.len() != line.width {
                        return Err(CodeGenError::UnexpectedLength(line.width, line_bytes.len()));
                    }
                    splice(&mut bytes, line.address, &line_bytes);
                },
            }
            i = i + 1;
        }
        if self.args.hlt {
            bytes.push(0x76);
        }
        Ok(bytes)
    }
}

} // verus!

verus! {

/// The standard register constants as a map: B through A as the addresses
/// zero through seven.
pub open spec fn spec_reg_defs() -> Map<Seq<u8>, Label> {
    Map::<Seq<u8>, Label>::empty().insert(
        "B".spec_bytes(),
        Label { value: Some(0u16), is_addr: true, is_eq: false, is_set: false },
    ).insert(
        "C".spec_bytes(),
        Label { value: Some(1u16), is_addr: true, is_eq: false, is_set: false },
    ).insert(
        "D".spec_bytes(),
        Label { value: Some(2u16), is_addr: true, is_eq: false, is_set: false },
    ).insert(
        "E".spec_bytes(),
        Label { value: Some(3u16), is_addr: true, is_eq: false, is_set: false },
    ).insert(
        "H".spec_bytes(),
        Label { value: Some(4u16), is_addr: true, is_eq: false, is_set: false },
    ).insert(
        "L".spec_bytes(),
        Label { value: Some(5u16), is_addr: true, is_eq: false, is_set: false },
    ).insert(
        "M".spec_bytes(),
        Label { value: Some(6u16), is_addr: true, is_eq: false, is_set: false },
    ).insert(
        "A".spec_bytes(),
        Label { value: Some(7u16), is_addr: true, is_eq: false, is_set: false },
    )
}

/// The whole source tokenized: each non-blank line's record, numbered from
/// one.
pub open spec fn spec_tokenize_all(source: Seq<Seq<u8>>, i: int, acc: Seq<LineMetaV>) -> Result<
    Seq<LineMetaV>,
    ParserErrorV,
>
    decreases source.len() - i,
{
    if i < 0 || i >= source.len() {
        Ok(acc)
    } else {
        match tokenizer::spec_tokenize(source[i]) {
            Err(e) => Err(e),
            Ok(None) => spec_tokenize_all(source, i + 1, acc),
            Ok(Some(lm)) => spec_tokenize_all(
                source,
                i + 1,
                acc.push(LineMetaV { line_no: (i + 1) as usize, ..lm }),
            ),
        }
    }
}

/// What assembling a source text yields: the flat image, or the first
/// error of tokenizing, pass one, pass two or pass three.  With register
/// definitions on, the label table starts from the standard register
/// constants; the image is `highest_address` bytes (pass one's result)
/// plus the optional trailing halt.
pub open spec fn spec_assemble(
    args: AssembleArgs,
    labels0: Map<Seq<u8>, Label>,
    source: Seq<Seq<u8>>,
) -> Result<Seq<u8>, AssemblerErrorV> {
    let labels1 = if args.register_definitions {
        spec_reg_defs()
    } else {
        labels0
    };
    match spec_tokenize_all(source, 0, Seq::empty()) {
        Err(e) => Err(AssemblerErrorV::ParserError(e)),
        Ok(lines) => match spec_pass_one_run(
            spec_pass_one_init(labels1, args.load_at),
            lines,
            0,
            args.load_at,
        ) {
            Err(e) => Err(AssemblerErrorV::ParserError(e)),
            Ok(st) => match spec_gen_macros(st.labels, st.macros, 0) {
                Err(e) => Err(AssemblerErrorV::CodeGenError(e)),
                Ok(entries) => match spec_generate_prog(
                    st.labels,
                    entries,
                    st.resolved,
                    0,
                    Seq::new(st.highest as nat, |k: int| 0u8),
                ) {
                    Err(e) => Err(AssemblerErrorV::CodeGenError(e)),
                    Ok(img) => Ok(
                        if args.hlt {
                            img.push(0x76u8)
                        } else {
                            img
                        },
                    ),
                },
            },
        },
    }
}

impl Assembler {
    /// Assemble a source text, one entry per line, into a flat binary
    /// image.  The image is exactly `prog_width` (the highest address pass
    /// one reached) bytes, plus one when a trailing halt was asked for.
    #[verifier::rlimit(100)]
    pub fn assemble(&mut self, source: &Vec<Vec<u8>>) -> (r: Result<Vec<u8>, AssemblerError>)
        ensures
            match spec_assemble(old(self).args, old(self).labels@, tokenizer::view_args(source@)) {
                Ok(bytes) => r is Ok && r->Ok_0@ == bytes,
                Err(e) => r is Err && r->Err_0@ == e,
            },
            final(self).args == old(self).args,
            r is Ok ==> r->Ok_0.len() == final(self).prog_width + (if old(self).args.hlt {
                1int
            } else {
                0int
            }),
    {
        let ghost sourcev = tokenizer::view_args(source@);
        if self.args.register_definitions {
            self.labels = get_reg_defs();
        }
        let mut line_vec: Vec<LineMeta> = Vec::new();
        let mut i: usize = 0;
        proof {
            assert(lines_view(line_vec@) =~= Seq::<LineMetaV>::empty());
        }
        while i < source.len()
            invariant
                i <= source.len(),
                sourcev == tokenizer::view_args(source@),
                self.args == old(self).args,
                self.labels@ == if old(self).args.register_definitions {
                    spec_reg_defs()
                } else {
                    old(self).labels@
                },
                spec_tokenize_all(sourcev, 0, Seq::empty()) == spec_tokenize_all(
                    sourcev,
                    i as int,
                    lines_view(line_vec@),
                ),
                forall|k: int|
                    0 <= k < line_vec@.len() ==> (#[trigger] line_vec@[k])@.label_only
                        || line_vec@[k]@.inst is Some,
            decreases source.len() - i,
        {
            proof {
                assert(sourcev[i as int] == source@[i as int]@);
            }
            match tokenizer::tokenize(&source[i]) {
                Err(e) => {
                    return Err(AssemblerError::ParserError(e));
                },
                Ok(None) => {},
                Ok(Some(mut lm)) => {
                    lm.line_no = i + 1;
                    proof {
                        lemma_lines_view_push(line_vec@, lm);
                    }
                    line_vec.push(lm);
                },
            }
            i = i + 1;
        }
        match self.parse_at(line_vec, self.args.load_at) {
            Err(e) => {
                return Err(AssemblerError::ParserError(e));
            },
            Ok(()) => {},
        }
        match self.gen_macros() {
            Err(e) => {
                return Err(AssemblerError::CodeGenError(e));
            },
            Ok(()) => {},
        }
        match self.generate_prog() {
            Err(e) => Err(AssemblerError::CodeGenError(e)),
            Ok(bytes) => {
                proof {
                    lemma_generate_prog_len(
                        self.labels@,
                        self.macros@,
                        lines_view(self.lines@),
                        0,
                        Seq::new(self.prog_width as nat, |k: int| 0u8),
                    );
                }
                Ok(bytes)
            },
        }
    }
}

} // verus!
