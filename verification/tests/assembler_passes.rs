use rs_8080::assembler::assemble::{Assembler, Macro, MacroTable};
use rs_8080::assembler::errors::ParserError;
use rs_8080::assembler::label::Label;
use rs_8080::assembler::tokenizer::LineMeta;
use rs_8080::cli::AssembleArgs;

fn b(s: &str) -> Vec<u8> {
    s.as_bytes().to_vec()
}

fn fresh_assembler() -> Assembler {
    Assembler::new(AssembleArgs {
        hlt: false,
        load_at: 0,
        register_definitions: false,
    })
}

fn line_meta_for_parse(inst: &str, op: u16, args: Vec<&str>, label: Option<&str>) -> LineMeta {
    let mut lm = LineMeta::default();
    lm.inst = Some(b(inst));
    lm.op_code = Some(op);
    lm.label = label.map(b);
    lm.args_list = args.iter().map(|s| b(s)).collect();
    lm
}

fn macro_call(name: &str) -> LineMeta {
    let mut lm = LineMeta::default();
    lm.inst = Some(b(name));
    lm
}

#[test]
fn parse_no_meta() {
    let mut ass = fresh_assembler();

    let raw_lines = vec![
        line_meta_for_parse("MOV", 0x40, vec!["A", "B"], Some("_l1")),
        line_meta_for_parse("DCR", 0x05, vec!["B"], None),
        line_meta_for_parse("SHDL", 0x22, vec!["0x1234"], None),
        line_meta_for_parse("DS", 0x102, vec!["_l1"], None),
        line_meta_for_parse("ADI", 0xc6, vec!["0x22"], None),
    ];
    let len = raw_lines.len();

    ass.parse(raw_lines).expect("should parse");
    assert_eq!(ass.prog_width, 7);

    assert_eq!(ass.lines.len(), len, "no meta instructions");

    let l0 = &ass.lines[0];
    assert_eq!(l0.width, 1, "MOV A, B is one byte");
    assert_eq!(l0.address, 0, "MOV A, B address");

    let l1 = &ass.lines[1];
    assert_eq!(l1.width, 1, "DCR B is one byte");
    assert_eq!(l1.address, 1, "DCR B address");

    let l2 = &ass.lines[2];
    assert_eq!(l2.width, 3, "SHDL takes a u16");
    assert_eq!(l2.address, 2, "SHDL address");

    let l3 = &ass.lines[3];
    assert_eq!(l3.width, 0, "_l1 refers to address 0");
    assert_eq!(l3.address, 5, "SHDL address");

    let l4 = &ass.lines[4];
    assert_eq!(l4.width, 2, "ADI takes a u8");
    assert_eq!(l4.address, 5, "DS shouldn't have added to address");
}

#[test]
fn parse_if_endif() {
    let mut ass = fresh_assembler();

    let raw_lines = vec![
        line_meta_for_parse("MOV", 0x40, vec!["A", "B"], Some("_l1")),
        line_meta_for_parse("IF", 0x107, vec!["2"], None),
        line_meta_for_parse("SHDL", 0x22, vec!["0x0000"], None),
        line_meta_for_parse("ENDIF", 0x108, vec![], None),
        line_meta_for_parse("IF", 0x107, vec!["0"], None),
        line_meta_for_parse("SHDL", 0x22, vec!["0x1111"], None),
        line_meta_for_parse("ENDIF", 0x108, vec![], None),
        line_meta_for_parse("MOV", 0x40, vec!["A", "B"], None),
    ];

    ass.parse(raw_lines).expect("should parse");
    assert_eq!(ass.prog_width, 5);

    assert_eq!(ass.lines.len(), 3, "meta not included");

    let l0 = &ass.lines[0];
    assert_eq!(l0.address, 0, "MOV A, B address");

    let l1 = &ass.lines[1];
    assert_eq!(l1.address, 1, "IF and ENDIF shouldn't affect address");
    assert_eq!(l1.args_list, vec![b("0x0000")], "SHDL with 0x0000 included");

    let l2 = &ass.lines[2];
    assert_eq!(l2.address, 4, "continue loading after ENDIF");
}

#[test]
fn parse_nested_if_fails() {
    let mut ass = fresh_assembler();

    let raw_lines = vec![
        line_meta_for_parse("IF", 0x107, vec!["2"], None),
        line_meta_for_parse("IF", 0x107, vec!["0"], None),
        line_meta_for_parse("SHDL", 0x22, vec!["0x1111"], None),
        line_meta_for_parse("ENDIF", 0x108, vec![], None),
        line_meta_for_parse("ENDIF", 0x108, vec![], None),
    ];

    let e = ass.parse(raw_lines).expect_err("nested IFs should fail");
    assert!(matches!(e, ParserError::NestedIf));
}

#[test]
fn parse_no_if_for_endif() {
    let mut ass = fresh_assembler();

    let raw_lines = vec![line_meta_for_parse("ENDIF", 0x108, vec![], None)];

    let e = ass
        .parse(raw_lines)
        .expect_err("ENDIF without IF should fail");
    assert!(matches!(e, ParserError::NotInIf));
}

#[test]
fn parse_no_endif_for_if() {
    let mut ass = fresh_assembler();

    let raw_lines = vec![line_meta_for_parse("IF", 0x107, vec!["2"], None)];

    let e = ass
        .parse(raw_lines)
        .expect_err("IF without ENDIF should fail");
    assert!(matches!(e, ParserError::NoEndIf));
}

#[test]
fn parse_macro_endm() {
    let mut ass = fresh_assembler();

    let raw_lines = vec![
        line_meta_for_parse("MOV", 0x40, vec!["A", "B"], None),
        line_meta_for_parse("MACRO", 0x109, vec![], Some("_m1")),
        line_meta_for_parse("SHDL", 0x22, vec!["0x1111"], None),
        line_meta_for_parse("ENDM", 0x10a, vec![], None),
        line_meta_for_parse("MOV", 0x40, vec!["A", "B"], None),
    ];

    ass.parse(raw_lines).expect("should parse");
    assert_eq!(ass.prog_width, 2);

    assert_eq!(ass.lines.len(), 2, "meta not included");

    let l0 = &ass.lines[0];
    assert_eq!(l0.address, 0, "MOV A, B address");

    let l1 = &ass.lines[1];
    assert_eq!(l1.address, 1, "continue loading after ENDM");
}

#[test]
fn call_a_macro() {
    let mut ass = fresh_assembler();

    let raw_lines = vec![
        line_meta_for_parse("MACRO", 0x109, vec![], Some("_m1")),
        line_meta_for_parse("MOV", 0x40, vec!["A", "B"], None),
        line_meta_for_parse("MOV", 0x40, vec!["A", "B"], None),
        line_meta_for_parse("SHDL", 0x22, vec!["0x1111"], None),
        line_meta_for_parse("ENDM", 0x10a, vec![], None),
        macro_call("_m1"),
        line_meta_for_parse("SHDL", 0x22, vec!["0x1111"], None),
    ];

    ass.parse(raw_lines).expect("should parse");
    assert_eq!(ass.prog_width, 8);

    assert_eq!(ass.lines.len(), 2, "macro not included");

    let l0 = &ass.lines[0];
    assert_eq!(l0.address, 0, "should be first instruction");
    assert_eq!(l0.width, 5, "should replace with macro width");

    let l1 = &ass.lines[1];
    assert_eq!(l1.address, 5, "SHDL should be after macro width");
}

#[test]
fn load_address_with_macro() {
    let mut ass = fresh_assembler();

    let raw_lines = vec![
        line_meta_for_parse("MACRO", 0x109, vec![], Some("_m1")),
        line_meta_for_parse("MOV", 0x40, vec!["A", "B"], None),
        line_meta_for_parse("MOV", 0x40, vec!["A", "B"], None),
        line_meta_for_parse("SHDL", 0x22, vec!["0x1111"], None),
        line_meta_for_parse("ENDM", 0x10a, vec![], None),
        macro_call("_m1"),
        line_meta_for_parse("SHDL", 0x22, vec!["0x1111"], None),
    ];

    ass.parse_at(raw_lines, 200).expect("should parse");
    assert_eq!(ass.prog_width, 208);

    assert_eq!(ass.lines.len(), 2, "macro not included");

    let l0 = &ass.lines[0];
    assert_eq!(l0.address, 200, "should be first instruction");
    assert_eq!(l0.width, 5, "should replace with macro width");

    let l1 = &ass.lines[1];
    assert_eq!(l1.address, 205, "SHDL should be after macro width");
}

#[test]
fn parse_nested_macro_fails() {
    let mut ass = fresh_assembler();

    let raw_lines = vec![
        line_meta_for_parse("MACRO", 0x109, vec![], Some("_m1")),
        line_meta_for_parse("MACRO", 0x109, vec![], Some("_m2")),
        line_meta_for_parse("SHDL", 0x22, vec!["0x1111"], None),
        line_meta_for_parse("ENDM", 0x10a, vec![], None),
        line_meta_for_parse("ENDM", 0x10a, vec![], None),
    ];

    let e = ass.parse(raw_lines).expect_err("nested MACROs should fail");
    assert!(matches!(e, ParserError::NestedMacro));
}

#[test]
fn parse_no_macro_for_endm() {
    let mut ass = fresh_assembler();

    let raw_lines = vec![line_meta_for_parse("ENDM", 0x10a, vec![], None)];

    let e = ass
        .parse(raw_lines)
        .expect_err("ENDM without MACRO should fail");
    assert!(matches!(e, ParserError::NotInMacro));
}

#[test]
fn parse_no_endm_for_macro() {
    let mut ass = fresh_assembler();
    let raw_lines = vec![line_meta_for_parse("MACRO", 0x109, vec![], Some("_m1"))];
    let e = ass
        .parse(raw_lines)
        .expect_err("MACRO without ENDM should fail");
    assert!(matches!(e, ParserError::NoEndMacro));
}

#[test]
fn parse_use_of_org_in_macro() {
    let mut ass = fresh_assembler();

    let raw_lines = vec![
        line_meta_for_parse("MACRO", 0x109, vec![], Some("_m1")),
        line_meta_for_parse("ORG", 0x105, vec!["0x0000"], None),
        line_meta_for_parse("ENDM", 0x10a, vec![], None),
    ];

    let e = ass
        .parse(raw_lines)
        .expect_err("ORG not permitted in macro");
    assert!(matches!(e, ParserError::OrigInMacro));
}

#[test]
fn parse_org_sets_the_address() {
    let mut ass = fresh_assembler();

    let raw_lines = vec![
        line_meta_for_parse("MOV", 0x40, vec!["A", "B"], None),
        line_meta_for_parse("ORG", 0x105, vec!["0X1000"], None),
        line_meta_for_parse("SHDL", 0x22, vec!["0x1111"], None),
    ];

    ass.parse(raw_lines).expect("should parse");

    assert_eq!(ass.lines.len(), 2, "no meta instructions");

    let l0 = &ass.lines[0];
    assert_eq!(l0.width, 1, "MOV A, B is one byte");
    assert_eq!(l0.address, 0, "MOV A, B address");

    let l1 = &ass.lines[1];
    assert_eq!(l1.width, 3, "SHDL takes a u16");
    assert_eq!(l1.address, 0x1000, "SHDL address");
}

#[test]
fn parse_label_repeats() {
    let mut ass = fresh_assembler();

    let raw_lines = vec![
        line_meta_for_parse("MOV", 0x40, vec!["A", "B"], Some("_l1")),
        line_meta_for_parse("MOV", 0x40, vec!["A", "B"], Some("_l1")),
    ];

    let err = ass.parse(raw_lines).expect_err("cannot repeat labels");
    assert!(matches!(err, ParserError::LabelAlreadyDefined(_, _)));
    if let ParserError::LabelAlreadyDefined(label, val) = err {
        assert_eq!(label, b("_l1"), "'_l1' already defined");
        assert_eq!(val.value, Some(0), "previous definition is 0");
    }
}

#[test]
fn parse_equ_no_repeat() {
    let mut ass = fresh_assembler();

    let raw_lines = vec![
        line_meta_for_parse("EQU", 0x103, vec!["200"], Some("label")),
        line_meta_for_parse("EQU", 0x103, vec!["200"], Some("label")),
    ];

    let err = ass.parse(raw_lines).expect_err("cannot repeat EQU");
    assert!(matches!(err, ParserError::LabelAlreadyDefined(_, _)));
    if let ParserError::LabelAlreadyDefined(label, val) = err {
        assert_eq!(label, b("label"), "'label' already defined");
        assert_eq!(val.value, Some(200), "previous definition is 200");
    }
}

#[test]
fn parse_set_can_be_repeated() {
    let mut ass = fresh_assembler();

    let raw_lines = vec![
        line_meta_for_parse("SET", 0x104, vec!["200"], Some("label")),
        line_meta_for_parse("SET", 0x104, vec!["201"], Some("label")),
    ];

    ass.parse(raw_lines).expect("should parse");

    let label = ass.labels.get(&b("label")).expect("'label' should exist");
    assert_eq!(label.is_set, true, "label is from SET");
    assert_eq!(label.value, Some(201), "label is updated value");
}

#[test]
fn use_of_eq_and_set() {
    let mut ass = fresh_assembler();

    let raw_lines = vec![
        line_meta_for_parse("EQU", 0x103, vec!["200"], Some("EQ200")),
        line_meta_for_parse("SET", 0x104, vec!["201"], Some("SET20X")),
        line_meta_for_parse("SET", 0x104, vec!["EQ200"], Some("SET20X")),
    ];

    ass.parse(raw_lines).expect("should parse");

    assert_eq!(ass.lines.len(), 0, "no generate-able lines");

    let eq200 = ass.labels.get(&b("EQ200")).expect("'EQ200' should exist");
    assert_eq!(eq200.is_eq, true, "EQ200 is from EQU");
    assert_eq!(eq200.value, Some(200), "EQ200 is updated value");

    let set20x = ass.labels.get(&b("SET20X")).expect("'SET20X' should exist");
    assert_eq!(set20x.is_set, true, "SET20X is from SET");
    assert_eq!(set20x.value, Some(200), "SET20X is updated value");
}

fn line_meta_for_gen(
    inst: &str,
    op: u16,
    args: Vec<&str>,
    label: Option<&str>,
    address: u16,
    width: usize,
) -> LineMeta {
    let mut lm = line_meta_for_parse(inst, op, args, label);
    lm.address = address;
    lm.width = width;
    lm
}

#[test]
fn gen_for_instruction_no_args() {
    let line = line_meta_for_gen("MOV", 0x40, vec!["1", "2"], None, 0, 1);
    let ass = fresh_assembler();
    let (bytes, pc) = ass.gen_for_instruction(&line, 0).expect("should generate");
    assert!(!pc, "pc ($) was not used");
    assert_eq!(bytes, vec![0x4a]);
}

#[test]
fn gen_for_instruction_argb() {
    // The line is loaded with the first MVI (0x06) but resolves to the true
    // code once the register argument is known (0x2e).
    let line = line_meta_for_gen("MVI", 0x06, vec!["5", "0X12"], None, 0, 2);
    let ass = fresh_assembler();
    let (bytes, pc) = ass.gen_for_instruction(&line, 0).expect("should generate");
    assert!(!pc, "pc ($) was not used");
    assert_eq!(bytes, vec![0x2e, 0x12]);
}

#[test]
fn gen_for_instruction_argw() {
    let line = line_meta_for_gen("JMP", 0xc3, vec!["0X1234"], None, 0, 3);
    let ass = fresh_assembler();
    let (bytes, pc) = ass.gen_for_instruction(&line, 0).expect("should generate");
    assert!(!pc, "pc ($) was not used");
    assert_eq!(bytes, vec![0xc3, 0x34, 0x12]);
}

#[test]
fn gen_for_instruction_argb_with_sp() {
    let line = line_meta_for_gen("IN", 0xdb, vec!["$ + 2"], None, 0x212, 2);
    let ass = fresh_assembler();
    let (bytes, pc) = ass
        .gen_for_instruction(&line, 0x212)
        .expect("should generate");
    assert!(pc, "pc ($) was used");
    assert_eq!(bytes, vec![0xdb, 0x14]);
}

#[test]
fn gen_for_instruction_db() {
    let line = line_meta_for_gen("DB", 0x100, vec!["0X10", "'ABAB'", "$"], None, 0, 4);
    let ass = fresh_assembler();
    let (bytes, pc) = ass.gen_for_instruction(&line, 0).expect("should generate");
    assert!(pc, "pc ($) not used");
    assert_eq!(
        bytes,
        vec![0x10, b'A', b'B', b'A', b'B', 0x00]
    );
}

#[test]
fn gen_for_instruction_dw() {
    let line = line_meta_for_gen("DW", 0x101, vec!["0X1234", "0X10", "'ABPP'"], None, 0, 6);
    let ass = fresh_assembler();
    let (bytes, pc) = ass.gen_for_instruction(&line, 0).expect("should generate");
    assert!(!pc, "pc ($) was not used");
    assert_eq!(bytes, vec![0x34, 0x12, 0x10, 0x00, b'A', b'B']);
}

#[test]
fn gen_for_instruction_ds() {
    let line = line_meta_for_gen("DS", 0x102, vec!["10"], None, 0, 10);
    let ass = fresh_assembler();
    let (bytes, pc) = ass.gen_for_instruction(&line, 0).expect("should generate");
    assert!(!pc, "pc ($) was not used");
    assert_eq!(bytes, vec![0x00; 10]);
}

fn macro_no_pc() -> Macro {
    Macro {
        lines: vec![
            line_meta_for_gen("MOV", 0x40, vec!["0", "0"], None, 0x00, 1),
            line_meta_for_gen("MOV", 0x40, vec!["0", "1"], None, 0x01, 1),
            line_meta_for_gen("SHDL", 0x22, vec!["0X1111"], None, 0x02, 3),
        ],
        bytes: vec![],
        width: 5,
        uses_pc: false,
    }
}

#[test]
fn gen_macro_no_pc() {
    let mut ass = fresh_assembler();
    ass.macros = MacroTable {
        entries: vec![(b("_m1"), macro_no_pc())],
    };
    ass.gen_macros().expect("macro should compile");
    let m1 = ass.macros.get(&b("_m1")).expect("macro should exist");
    assert_eq!(m1.bytes, vec![0x40, 0x41, 0x22, 0x11, 0x11]);
    assert!(!m1.uses_pc, "shouldn't use PC");
}

fn macro_with_pc() -> Macro {
    Macro {
        lines: vec![
            line_meta_for_gen("MOV", 0x40, vec!["0", "0"], None, 0x00, 1),
            line_meta_for_gen("MOV", 0x40, vec!["0", "1"], None, 0x01, 1),
            line_meta_for_gen("SHDL", 0x22, vec!["$"], None, 0x02, 3),
        ],
        bytes: vec![],
        width: 5,
        uses_pc: false,
    }
}

#[test]
fn gen_macro_with_pc() {
    let mut ass = fresh_assembler();
    ass.macros = MacroTable {
        entries: vec![(b("_m1"), macro_with_pc())],
    };
    ass.gen_macros().expect("macro should compile");
    let m1 = ass.macros.get(&b("_m1")).expect("macro should exist");
    assert_eq!(m1.bytes, vec![0x40, 0x41, 0x22, 0x02, 0x00]);
    assert!(m1.uses_pc, "should use PC");
}

#[test]
fn gen_prog_with_macro_no_pc() {
    let mut ass = fresh_assembler();

    ass.macros = MacroTable {
        entries: vec![(b("_m1"), macro_no_pc())],
    };
    ass.gen_macros().expect("macro should compile");

    ass.labels.insert(b("B"), Label::new_equ(Some(0)));
    ass.labels.insert(b("C"), Label::new_equ(Some(1)));
    ass.labels.insert(b("D"), Label::new_equ(Some(2)));

    let mut call = macro_call("_m1");
    call.width = 5;
    call.address = 0x01;
    ass.lines = vec![
        line_meta_for_gen("MOV", 0x40, vec!["B", "C"], None, 0x00, 1),
        call,
        line_meta_for_gen("SHDL", 0x22, vec!["$"], None, 0x06, 3),
    ];
    ass.prog_width = 9;

    let bytes = ass.generate_prog().expect("should compile");
    assert_eq!(
        bytes,
        vec![0x41, 0x40, 0x41, 0x22, 0x11, 0x11, 0x22, 0x06, 0x00]
    );
}

#[test]
fn gen_prog_with_macro_with_pc() {
    let mut ass = fresh_assembler();

    ass.macros = MacroTable {
        entries: vec![(b("_m1"), macro_with_pc())],
    };
    ass.gen_macros().expect("macro should compile");

    ass.labels.insert(b("B"), Label::new_equ(Some(0)));
    ass.labels.insert(b("C"), Label::new_equ(Some(1)));
    ass.labels.insert(b("D"), Label::new_equ(Some(2)));

    let mut call = macro_call("_m1");
    call.width = 5;
    call.address = 0x01;
    ass.lines = vec![
        line_meta_for_gen("MOV", 0x40, vec!["B", "C"], None, 0x00, 1),
        call,
        line_meta_for_gen("SHDL", 0x22, vec!["$"], None, 0x06, 3),
    ];
    ass.prog_width = 9;

    let bytes = ass.generate_prog().expect("should compile");
    assert_eq!(
        bytes,
        vec![
            0x41, 0x40, 0x41, 0x22,
            // the SHDL inside the macro now sits at address 3
            0x03, 0x00, 0x22, 0x06, 0x00
        ]
    );
}
