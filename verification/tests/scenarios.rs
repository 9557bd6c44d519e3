use rs_8080::assembler::assemble::Assembler;
use rs_8080::assembler::disassemble::{disassemble_instruction, disassemble_vec};
use rs_8080::assembler::errors::{
    AssemblerError, CodeGenError, DisassembleError, ExpressionError, OpParseError, ParserError,
};
use rs_8080::assembler::expressions::parser::parse_expression;
use rs_8080::assembler::find_op_code::from_args;
use rs_8080::assembler::label::LabelTable;
use rs_8080::cli::AssembleArgs;
use rs_8080::sys::console_device::ConsoleDevice;
use rs_8080::sys::device::{RxDevice, TxDevice};
use rs_8080::sys::i8080::I8080;

fn b(s: &str) -> Vec<u8> {
    s.as_bytes().to_vec()
}

fn source(lines: &[&str]) -> Vec<Vec<u8>> {
    lines.iter().map(|l| b(l)).collect()
}

fn assemble(hlt: bool, load_at: u16, lines: &[&str]) -> Vec<u8> {
    let mut ass = Assembler::new(AssembleArgs {
        hlt,
        load_at,
        register_definitions: true,
    });
    ass.assemble(&source(lines)).expect("source should assemble")
}

#[test]
fn assemble_simple_program() {
    let out = assemble(true, 0, &["MVI A, 0xde", "MVI B, 0xad", "ADD  B"]);
    assert_eq!(out, vec![0x3e, 0xde, 0x06, 0xad, 0x80, 0x76]);
}

#[test]
fn mod_assemble_simple_program() {
    let out = assemble(true, 0, &["MVI A, 0xde", "MVI B, 0xad", "ADD  B"]);
    assert_eq!(
        out,
        vec![
            0x3e, 0xde, // MVI A, 0xde
            0x06, 0xad, // MVI B, 0xad
            0x80, // ADD B
            0x76, // HLT
        ]
    );
}

fn hello_world_source() -> Vec<&'static str> {
    vec![
        "      LXI H, _hello",
        "_do:  MOV A, M",
        "      OUT 0",
        "      CPI 0x00",
        "      JZ _done",
        "      INX H",
        "      JMP _do",
        "_done: HLT",
        "_hello: DB 'hello world', 0",
    ]
}

fn hello_world_image() -> Vec<u8> {
    let mut exp = vec![
        /*        */ 0x21, 0x10, 0x00, // LXI H _hello
        /* _do:   */ 0x7e, // MOV A, M
        /*        */ 0xd3, 0x00, // OUT 0
        /*        */ 0xfe, 0x00, // CPI 0x00
        /*        */ 0xca, 0x0f, 0x00, // JZ _done
        /*        */ 0x23, // INX H
        /*        */ 0xc3, 0x03, 0x00, // JMP _do
        /* _done: */ 0x76, // HLT
    ];
    exp.append(&mut b("hello world"));
    exp.push(0x00);
    exp
}

#[test]
fn assemble_hello_world() {
    let out = assemble(false, 0, &hello_world_source());
    assert_eq!(out, hello_world_image());
}

#[test]
fn mod_assemble_hello_world() {
    let out = assemble(false, 0, &hello_world_source());
    assert_eq!(out, hello_world_image());
}

fn disassembled_simple_program() -> Vec<Vec<u8>> {
    disassemble_vec(&vec![0x3e, 0xde, 0x06, 0xad, 0x80, 0x76]).expect("should disassemble")
}

#[test]
fn simple_program_disassemble() {
    assert_eq!(
        disassembled_simple_program(),
        vec![b("MVI A, 0xde"), b("MVI B, 0xad"), b("ADD B"), b("HLT")]
    );
}

#[test]
fn mod_simple_program_disassemble() {
    assert_eq!(
        disassembled_simple_program(),
        vec![b("MVI A, 0xde"), b("MVI B, 0xad"), b("ADD B"), b("HLT")]
    );
}

#[test]
fn assembled_hello_world_runs() {
    let program = assemble(false, 0, &hello_world_source());
    let tx = TxDevice::new(0x04);
    let mut cpu = I8080::new(vec![], vec![tx]);
    cpu.load(0, program);
    cpu.run(100_000);
    assert!(cpu.halted, "program should halt");
    let mut sent = cpu.tx_devices[0].data.clone();
    // the NUL terminator goes out before the loop sees it, and HLT appends
    // the end-of-transmission byte
    assert_eq!(sent.pop(), Some(0x04));
    assert_eq!(sent.pop(), Some(0x00));
    assert_eq!(sent, b("hello world"));
    let console = ConsoleDevice::new(false);
    let shown = console.run(&cpu.tx_devices[0].data);
    let mut expected = b("hello world");
    expected.push(0x00);
    assert_eq!(shown, expected);
}

#[test]
fn org_leaves_gaps_zero() {
    let out = assemble(false, 0, &["MVI A, 0x11", "ORG 0x0005", "DB 0x22"]);
    assert_eq!(out, vec![0x3e, 0x11, 0x00, 0x00, 0x00, 0x22]);
}

#[test]
fn load_address_bakes_labels() {
    let out = assemble(false, 0x100, &["_top: JMP _top"]);
    assert_eq!(out[0x100..], [0xc3, 0x00, 0x01]);
    assert_eq!(out.len(), 0x103);
}

#[test]
fn if_zero_excludes_block() {
    let out = assemble(false, 0, &["IF 12 XOR 12", "MVI A, 0x01", "ENDIF", "MVI B, 0x02"]);
    assert_eq!(out, vec![0x06, 0x02]);
}

#[test]
fn if_nonzero_includes_block() {
    let out = assemble(false, 0, &["IF 12 XOR 13", "MVI A, 0x01", "ENDIF", "MVI B, 0x02"]);
    assert_eq!(out, vec![0x3e, 0x01, 0x06, 0x02]);
}

#[test]
fn mov_m_m_is_halt_error() {
    let e = from_args(&b("MOV"), 6, 6).expect_err("MOV M, M is rejected");
    assert!(matches!(e, OpParseError::MovAsHalt));
}

#[test]
fn word_family_rejects_odd_register() {
    let e = from_args(&b("LXI"), 3, 0).expect_err("LXI E is rejected");
    assert!(matches!(e, OpParseError::InvalidRegister));
}

#[test]
fn byte_family_rejects_large_register() {
    let e = from_args(&b("INR"), 9, 0).expect_err("register 9 is rejected");
    assert!(matches!(e, OpParseError::UnknownRegister));
}

#[test]
fn unknown_mnemonic_is_no_instruction() {
    let e = from_args(&b("FROB"), 0, 0).expect_err("unknown mnemonic");
    assert!(matches!(e, OpParseError::NoSuchInstruction(_)));
}

#[test]
fn division_by_zero_is_calculation_error() {
    let e = parse_expression(&b("2 / 0"), 0, &LabelTable::new()).unwrap_err();
    assert!(matches!(e, ExpressionError::CalculationError));
}

#[test]
fn unknown_identifier_is_rejected() {
    let e = parse_expression(&b("_nowhere"), 0, &LabelTable::new()).unwrap_err();
    assert!(matches!(e, ExpressionError::UnknownIdentifier(_)));
}

#[test]
fn unmatched_quote_is_rejected() {
    let e = parse_expression(&b("'open"), 0, &LabelTable::new()).unwrap_err();
    assert!(matches!(e, ExpressionError::UnmatchedQuote(_)));
}

#[test]
fn unknown_escape_is_rejected() {
    let e = parse_expression(&b("'a\\qb'"), 0, &LabelTable::new()).unwrap_err();
    assert!(matches!(e, ExpressionError::UnknownEscape(113)));
}

#[test]
fn unmatched_parens_are_rejected() {
    let e = parse_expression(&b("(1 + 2"), 0, &LabelTable::new()).unwrap_err();
    assert!(matches!(e, ExpressionError::UnmatchedParens));
    let e = parse_expression(&b("1 + 2)"), 0, &LabelTable::new()).unwrap_err();
    assert!(matches!(e, ExpressionError::UnmatchedParens));
}

#[test]
fn number_overflow_is_rejected() {
    let e = parse_expression(&b("99999999999999999999"), 0, &LabelTable::new()).unwrap_err();
    assert!(matches!(e, ExpressionError::NumberParseError));
}

#[test]
fn unprocessable_char_is_rejected() {
    let e = parse_expression(&b("1 ? 2"), 0, &LabelTable::new()).unwrap_err();
    assert!(matches!(e, ExpressionError::UnprocessableChar(63)));
}

#[test]
fn disassemble_empty_input() {
    let e = disassemble_instruction(&[], 0).unwrap_err();
    assert!(matches!(e, DisassembleError::NoRemainingBytes(0)));
}

#[test]
fn disassemble_truncated_word() {
    let e = disassemble_instruction(&[0xc3, 0x00], 0).unwrap_err();
    assert!(matches!(e, DisassembleError::NotEnoughBytes(0, _, _)));
}

#[test]
fn cycle_advances_pc_by_width() {
    let mut cpu = I8080::new(vec![], vec![]);
    cpu.load(0, vec![0x00, 0x3e, 0x42, 0xc3, 0x00, 0x00]);
    cpu.cycle(); // NOP, one byte
    assert_eq!(cpu.registers.pc, 1);
    cpu.cycle(); // MVI A, two bytes
    assert_eq!(cpu.registers.pc, 3);
    assert_eq!(cpu.registers.a, 0x42);
    cpu.cycle(); // JMP moves PC itself
    assert_eq!(cpu.registers.pc, 0);
}

#[test]
fn inr_preserves_carry_and_ana_clears_it() {
    let mut cpu = I8080::new(vec![], vec![]);
    cpu.flags.carry = true;
    cpu.execute(0x04); // INR B
    assert!(cpu.flags.carry, "INR must keep carry");
    cpu.execute(0x05); // DCR B
    assert!(cpu.flags.carry, "DCR must keep carry");
    cpu.registers.a = 0xf0;
    cpu.execute(0xa7); // ANA A
    assert!(!cpu.flags.carry, "ANA must clear carry");
    cpu.flags.carry = true;
    cpu.flags.aux_carry = true;
    cpu.execute(0xaf); // XRA A
    assert!(!cpu.flags.carry && !cpu.flags.aux_carry, "XRA clears carry and aux");
    cpu.flags.carry = true;
    cpu.flags.aux_carry = true;
    cpu.execute(0xb0); // ORA B
    assert!(!cpu.flags.carry && !cpu.flags.aux_carry, "ORA clears carry and aux");
}

#[test]
fn dad_touches_only_carry() {
    let mut cpu = I8080::new(vec![], vec![]);
    cpu.registers.set_hl(0xffff);
    cpu.registers.set_bc(0x0002);
    cpu.flags.zero = true;
    cpu.flags.sign = true;
    cpu.execute(0x09); // DAD B
    assert_eq!(cpu.registers.get_hl(), 0x0001);
    assert!(cpu.flags.carry, "the add wrapped");
    assert!(cpu.flags.zero && cpu.flags.sign, "other flags untouched");
}

#[test]
fn push_pop_psw_is_identity() {
    let mut cpu = I8080::new(vec![], vec![]);
    cpu.registers.sp = 0x1000;
    cpu.registers.a = 0x5a;
    cpu.flags.sign = true;
    cpu.flags.parity = true;
    cpu.flags.carry = true;
    let flags_before = cpu.flags;
    cpu.execute(0xf5); // PUSH PSW
    cpu.registers.a = 0;
    cpu.flags.sign = false;
    cpu.flags.parity = false;
    cpu.flags.carry = false;
    cpu.execute(0xf1); // POP PSW
    assert_eq!(cpu.registers.a, 0x5a);
    assert_eq!(cpu.flags, flags_before);
    assert_eq!(cpu.registers.sp, 0x1000);
}

#[test]
fn dev_in_reads_queue_or_all_ones() {
    let rx = RxDevice::new(vec![0x10, 0x20]);
    let mut cpu = I8080::new(vec![rx], vec![]);
    cpu.load(0, vec![0xdb, 0x00, 0xdb, 0x00, 0xdb, 0x00, 0xdb, 0x01]);
    cpu.cycle();
    assert_eq!(cpu.registers.a, 0x10);
    cpu.cycle();
    assert_eq!(cpu.registers.a, 0x20);
    cpu.cycle();
    assert_eq!(cpu.registers.a, 0xff, "an empty queue reads all ones");
    cpu.cycle();
    assert_eq!(cpu.registers.a, 0xff, "a missing device reads all ones");
}

#[test]
fn interrupt_opcode_is_consumed_once() {
    let mut cpu = I8080::new(vec![], vec![]);
    cpu.load(0, vec![0x00, 0x00]);
    cpu.issue_interrupt(0x3c); // INR A
    cpu.cycle();
    assert_eq!(cpu.registers.a, 1, "the interrupt opcode ran");
    assert_eq!(cpu.registers.pc, 0, "no PC advance on an interrupt");
    cpu.cycle();
    assert_eq!(cpu.registers.a, 1, "back to fetching NOPs");
    assert_eq!(cpu.registers.pc, 1);
}

#[test]
fn console_flush_and_bell() {
    let console = ConsoleDevice::new(false);
    let mut input = b("abc");
    input.push(0x17); // flush empties the buffer
    input.extend_from_slice(&b("de"));
    input.push(0x07); // bell leaves it alone
    input.push(0x04);
    assert_eq!(console.run(&input), b("de"));
}

#[test]
fn expression_single_char_string_is_its_code() {
    let (v, flags) = parse_expression(&b("'A' + 1"), 0, &LabelTable::new()).expect("valid");
    assert_eq!(v, vec![0x42, 0x00]);
    assert!(!flags.string);
}

#[test]
fn macro_using_pc_cannot_be_called_from_a_macro() {
    let mut ass = Assembler::new(AssembleArgs {
        hlt: false,
        load_at: 0,
        register_definitions: true,
    });
    let e = ass
        .assemble(&source(&[
            "_ma: MACRO",
            "     SHDL $",
            "     ENDM",
            "_mb: MACRO",
            "     _ma",
            "     ENDM",
            "     _mb",
        ]))
        .expect_err("a $-using macro may not be invoked from inside a macro");
    assert!(matches!(
        e,
        AssemblerError::CodeGenError(CodeGenError::ParserError(
            ParserError::MacroCallInMacroUsesSp
        ))
    ));
}

#[test]
fn randomize_keeps_pc_and_memory_size() {
    let mut cpu = I8080::new(vec![], vec![]);
    cpu.registers.pc = 0x1234;
    cpu.randomize();
    assert_eq!(cpu.registers.pc, 0x1234, "PC survives randomizing");
    assert_eq!(cpu.memory.mem.len(), 0x10000, "memory size survives");
    assert!(!cpu.halted);
}

#[test]
fn describe_system_renders_registers_and_flags() {
    let mut cpu = I8080::new(vec![], vec![]);
    cpu.registers.pc = 0x1234;
    cpu.registers.sp = 0xfffe;
    cpu.registers.a = 0x0b;
    cpu.flags.carry = true;
    let text = String::from_utf8(cpu.describe_system()).expect("plain text");
    assert_eq!(
        text,
        "PC 0x1234  SP 0xfffe\nB 0x00 C 0x00  D 0x00 E 0x00  H 0x00 L 0x00  A 0x0b\nS 0 Z 0 AC 0 P 0 C 1"
    );
}
