use rs_8080::assembler::expressions::lexer::{ExprFlags, Lexer};
use rs_8080::assembler::expressions::parser::parse_expression;
use rs_8080::assembler::expressions::token::Token;
use rs_8080::assembler::errors::{ExpressionError, ParserError};
use rs_8080::assembler::label::{Label, LabelTable};
use rs_8080::assembler::tokenizer::tokenize;
use rs_8080::cli::AssembleArgs;
use rs_8080::meta::{i8080_instruction_meta, op_meta};
use rs_8080::sys::console_device::ConsoleDevice;
use rs_8080::sys::i8080::I8080;
use rs_8080::sys::memory::Memory;
use rs_8080::util::{u16_to_vec_u8, vec_u8_to_u16};

fn b(s: &str) -> Vec<u8> {
    s.as_bytes().to_vec()
}

fn no_labels() -> LabelTable {
    LabelTable::new()
}

#[test]
fn u16_to_vec_u8_tests() {
    let v = u16_to_vec_u8(0xdead);
    assert_eq!(v[0], 0xad);
    assert_eq!(v[1], 0xde);
}

#[test]
fn vec_u8_to_u16_tests() {
    let vec: Vec<u8> = vec![0xad, 0xde];
    assert_eq!(vec_u8_to_u16(&vec), 0xdead);
}

#[test]
fn util_u16_to_vec_u8_tests() {
    let v = u16_to_vec_u8(0xdead);
    assert_eq!(v[0], 0xad);
    assert_eq!(v[1], 0xde);
}

#[test]
fn util_vec_u8_to_u16_tests() {
    let vec: Vec<u8> = vec![0xad, 0xde];
    assert_eq!(vec_u8_to_u16(&vec), 0xdead);
}

fn is_valid_and_vec(line: &str, expected: Vec<u8>) -> ExprFlags {
    let r = parse_expression(&b(line), 0, &no_labels());
    let (v, flags) = r.expect("expression should be valid");
    assert_eq!(v, expected);
    flags
}

#[test]
fn simple_sum() {
    let flags = is_valid_and_vec("2 + 3", vec![0x05, 0x00]);
    assert_eq!(flags, ExprFlags::new());
}

#[test]
fn unary_minus() {
    assert_eq!(is_valid_and_vec("NEG 3", vec![0xfd, 0xff]), ExprFlags::new());
    assert_eq!(is_valid_and_vec("NOT NEG 3", vec![0x02, 0x00]), ExprFlags::new());
    assert_eq!(is_valid_and_vec("NOT NEG (1 + 2)", vec![0x02, 0x00]), ExprFlags::new());
}

#[test]
fn simple_sum_with_pc() {
    let (v, flags) = parse_expression(&b("2 + $"), 3, &no_labels()).expect("valid");
    assert_eq!(v, vec![0x05, 0x00]);
    let mut f = ExprFlags::new();
    f.pc = true;
    assert_eq!(flags, f);
}

#[test]
fn sums_with_brackets() {
    is_valid_and_vec("2 * (4 - 2)", vec![0x04, 0x00]);
    is_valid_and_vec("(4 - 2) * 2", vec![0x04, 0x00]);
    is_valid_and_vec("(4 - 2) * (4 - 2)", vec![0x04, 0x00]);
}

#[test]
fn psw_and_sp() {
    let flags = is_valid_and_vec("SP", vec![]);
    let mut f = ExprFlags::new();
    f.sp = true;
    assert_eq!(flags, f);
    let flags = is_valid_and_vec("PSW", vec![]);
    let mut f = ExprFlags::new();
    f.psw = true;
    assert_eq!(flags, f);
    let e = parse_expression(&b("PSW + 2"), 0, &no_labels()).unwrap_err();
    assert!(matches!(e, ExpressionError::MetaUsedInCalculation(_)));
    if let ExpressionError::MetaUsedInCalculation(val) = e {
        assert_eq!(val, b("PSW"));
    }
}

#[test]
fn not_as_a_unary() {
    is_valid_and_vec("NOT 0XF12F", vec![0xd0, 0x0e]);
    is_valid_and_vec("NOT NOT 0XF12F", vec![0x2f, 0xf1]);
    is_valid_and_vec("NOT (0XF12D + 2)", vec![0xd0, 0x0e]);
    is_valid_and_vec("12 XOR NOT (0XF12D + 2)", vec![0xdc, 0x0e]);
}

#[test]
fn all_together() {
    let mut labels = LabelTable::new();
    labels.insert(b("_ident"), Label::new_addr(Some(0xf12d)));
    let (v, _) = parse_expression(&b("12 XOR NOT (_ident + 2)"), 0, &labels).expect("valid");
    assert_eq!(v, vec![0xdc, 0x0e]);
}

#[test]
fn empty_line() {
    let meta = tokenize(&b("")).expect("tokenizer failed");
    assert!(meta.is_none(), "empty string should be no line");
}

#[test]
fn mov() {
    let meta = tokenize(&b("MOV")).expect("tokenizer failed").expect("valid line");
    assert!(!meta.label_only);
    assert!(meta.comment.is_none());
    assert_eq!(meta.raw_line, b("MOV"));
    assert_eq!(meta.op_code, Some(0x40));
    assert_eq!(meta.args_list, Vec::<Vec<u8>>::new());
}

#[test]
fn mov_a_b() {
    let meta = tokenize(&b("MOV A, B")).expect("tokenizer failed").expect("valid line");
    assert!(!meta.label_only);
    assert!(meta.comment.is_none());
    assert_eq!(meta.raw_line, b("MOV A, B"));
    assert_eq!(meta.op_code, Some(0x40));
    assert_eq!(meta.args_list, vec![b("A"), b("B")]);
}

#[test]
fn label_and_comment_with_line() {
    let line = "SOME_LABEL: MOV A, B, C ; comment";
    let meta = tokenize(&b(line)).expect("tokenizer failed").expect("valid line");
    assert!(!meta.label_only);
    assert_eq!(meta.label, Some(b("SOME_LABEL")));
    assert_eq!(meta.comment, Some(b("comment")));
    assert_eq!(meta.raw_line, b(line));
    assert_eq!(meta.op_code, Some(0x40));
    assert_eq!(meta.args_list, vec![b("A"), b("B"), b("C")]);
}

#[test]
fn label_and_comment_only() {
    let meta = tokenize(&b("SOME_LABEL:;comment")).expect("tokenizer failed").expect("valid");
    assert!(meta.label_only);
    assert_eq!(meta.label, Some(b("SOME_LABEL")));
    assert_eq!(meta.comment, Some(b("comment")));
}

#[test]
fn space_in_label() {
    let meta = tokenize(&b("SOME LABEL: MOV")).expect_err("label with space not permitted");
    assert!(matches!(meta, ParserError::InvalidLabel(_)));
}

#[test]
fn string_arg() {
    let meta = tokenize(&b("MOV 'fish', B")).expect("tokenizer failed").expect("valid");
    assert_eq!(meta.args_list, vec![b("'fish'"), b("B")]);
}

#[test]
fn string_arg_with_comma() {
    let meta = tokenize(&b("MOV 'fish, other fish', B")).expect("ok").expect("valid");
    assert_eq!(meta.args_list, vec![b("'fish, other fish'"), b("B")]);
}

#[test]
fn string_arg_with_other_phrases() {
    let meta = tokenize(&b("MOV XOR 'fish' + 1, B")).expect("ok").expect("valid");
    assert_eq!(meta.args_list, vec![b("XOR 'fish' + 1"), b("B")]);
}

#[test]
fn labels_insts_and_args_are_made_uppercase() {
    let line = "some_label: mov xor 'fish', b ; lowercase";
    let meta = tokenize(&b(line)).expect("ok").expect("valid");
    assert!(!meta.label_only);
    assert_eq!(meta.label, Some(b("SOME_LABEL")));
    assert_eq!(meta.comment, Some(b("lowercase")));
    assert_eq!(meta.raw_line, b(line));
    assert_eq!(meta.op_code, Some(0x40));
    assert_eq!(meta.inst, Some(b("MOV")));
    assert_eq!(meta.args_list, vec![b("XOR 'fish'"), b("B")]);
}

#[test]
fn load_full() {
    let mut mem = Memory { mem: vec![0; 10] };
    mem.load(0, (0..10).collect());
    for i in 0..10 {
        assert_eq!(mem.read_byte(i), i as u8);
    }
    assert_eq!(mem.read_byte(10), 0xff);
}

#[test]
fn load_partial() {
    let mut mem = Memory { mem: vec![0; 10] };
    mem.load(0, (0..5).collect());
    for i in 0..5 {
        assert_eq!(mem.read_byte(i), i as u8);
    }
    for i in 5..10 {
        assert_eq!(mem.read_byte(i), 0);
    }
    assert_eq!(mem.read_byte(10), 0xff);
}

#[test]
fn load_offset() {
    let mut mem = Memory { mem: vec![0; 10] };
    mem.load(3, (0..5).collect());
    for i in 0..3 {
        assert_eq!(mem.read_byte(i), 0);
    }
    for i in 3..8 {
        assert_eq!(mem.read_byte(i), (i - 3) as u8);
    }
    for i in 8..10 {
        assert_eq!(mem.read_byte(i), 0);
    }
    assert_eq!(mem.read_byte(10), 0xff);
}

#[test]
fn load_offset_overlapping() {
    let mut mem = Memory { mem: vec![0; 10] };
    mem.load(6, (0..5).collect());
    for i in 0..6 {
        assert_eq!(mem.read_byte(i), 0);
    }
    for i in 6..10 {
        assert_eq!(mem.read_byte(i), (i - 6) as u8);
    }
    assert_eq!(mem.read_byte(10), 0xff);
}

#[test]
fn simple_string() {
    let mut input = b("Hello");
    input.push(0x04);
    let console = ConsoleDevice { echo: false };
    assert_eq!(console.run(&input), b("Hello"));
}

#[test]
fn newline_string() {
    let mut input = b("Hello\nthere");
    input.push(0x04);
    let console = ConsoleDevice { echo: false };
    assert_eq!(console.run(&input), b("Hello\nthere"));
}

#[test]
fn newline_with_cr() {
    let mut input = b("Hello\nthe\rre");
    input.push(0x04);
    let console = ConsoleDevice { echo: false };
    assert_eq!(console.run(&input), b("Hello\nree"));
}

#[test]
fn backspace() {
    let mut input = b("Hello");
    input.push(0x08);
    input.extend_from_slice(b("scape").as_slice());
    input.push(0x04);
    let console = ConsoleDevice { echo: false };
    assert_eq!(console.run(&input), b("Hellscape"));
}

#[test]
fn pop_and_push() {
    let mut i8080 = I8080::new(vec![], vec![]);
    i8080.load(
        0x00,
        vec![
            0x31, 0xff, 0xff, // LXI SP 0xffff
            0x01, 0xad, 0xde, // LXI B 0xdead (immediate words are little-endian)
            0xc5, // PUSH B
            0xd1, // POP D
        ],
    );
    i8080.cycle();
    i8080.cycle();
    assert_eq!(i8080.registers.get_bc(), 0xdead, "BC is 0xdead");
    i8080.cycle();
    assert_eq!(i8080.registers.sp, 0xfffd, "SP is initial value - 2");
    assert_eq!(
        i8080.memory.read_word_big_endian(i8080.registers.sp),
        0xdead,
        "[SP] is 0xdead"
    );
    i8080.cycle();
    assert_eq!(i8080.registers.sp, 0xffff, "SP is initial value");
    assert_eq!(i8080.registers.get_de(), 0xdead, "DE is 0xdead");
}

#[test]
fn all_full() {
    for i in 0x00..=0xffu16 {
        let m = op_meta(i);
        assert!(!m.op.is_empty(), "name not set: {:#04x}", i);
        assert!(m.cycles != 0, "cycles not set: {:#04x}", i);
    }
}

#[test]
fn op_meta_all_full() {
    for i in 0x00..=0xffu16 {
        let m = op_meta(i);
        assert!(m.op.len() > 0, "name not set: {:#04x}", i);
        assert!(m.cycles != 0, "cycles not set: {:#04x}", i);
    }
}

#[test]
fn meta_all_full() {
    let t = i8080_instruction_meta();
    for i in 0x00..=0xffusize {
        assert!(!t[i].op.is_empty(), "name not set: {:#04x}", i);
        assert!(t[i].cycles != 0, "cycles not set: {:#04x}", i);
    }
}

#[test]
fn instruction_meta_all_full() {
    let t = i8080_instruction_meta();
    for i in 0x00..=0xffusize {
        assert!(t[i].op.len() > 0, "name not set: {:#04x}", i);
        assert!(t[i].cycles != 0, "cycles not set: {:#04x}", i);
    }
}

#[test]
fn identifiers() {
    let mut lexer = Lexer::new();
    lexer.set_input(b("_ident ident __id__ent__ other"), 0);
    assert_eq!(lexer.consume_identifier(), b("_ident"));
    lexer.pos += 1;
    assert_eq!(lexer.consume_identifier(), b("ident"));
    lexer.pos += 1;
    assert_eq!(lexer.consume_identifier(), b("__id__ent__"));
    assert_eq!(lexer.input[lexer.pos], 0x20, "' other' should remain");
    lexer.set_input(b("_ident8080"), 0);
    assert_eq!(lexer.consume_identifier(), b("_ident8080"));
    assert_eq!(lexer.pos, lexer.input.len(), "numerics consumed too");
}

#[test]
fn strings() {
    let mut lexer = Lexer::new();
    lexer.set_input(b("'hello' 'hello\\ngoodbye' 'split\\'up' 'this\\\\that'"), 0);
    assert_eq!(lexer.consume_string().expect("valid string"), b("hello"));
    lexer.pos += 1;
    assert_eq!(lexer.consume_string().expect("valid string"), b("hello\ngoodbye"));
    lexer.pos += 1;
    assert_eq!(lexer.consume_string().expect("valid string"), b("split'up"));
    lexer.pos += 1;
    assert_eq!(lexer.consume_string().expect("valid string"), b("this\\that"));
}

fn is_number_of_value(t: &Token, exp: u16, mes: &str) {
    assert!(matches!(t, Token::Number(_)));
    if let Token::Number(n) = t {
        assert_eq!(*n, exp, "{}", mes);
    }
}

#[test]
fn numerics() {
    let mut lexer = Lexer::new();
    let out = lexer.lex(&b("0B10 0O10 10 0X10 0XFF"), 0, &no_labels());
    let (tokens, flags) = out.expect("lexing failed");
    assert_eq!(tokens.len(), 5);
    assert_eq!(flags, ExprFlags::new());
    is_number_of_value(&tokens[0], 2, "binary parse");
    is_number_of_value(&tokens[1], 8, "octal parse");
    is_number_of_value(&tokens[2], 10, "decimal parse");
    is_number_of_value(&tokens[3], 16, "hexadecimal parse");
    is_number_of_value(&tokens[4], 0xff, "hexadecimal parse");
}

fn is_op_of_code(t: &Token, exp: u8) {
    assert!(matches!(t, Token::Operator(_, _, _)));
    if let Token::Operator(op, _, _) = t {
        assert_eq!(*op, exp);
    }
}

#[test]
fn lex() {
    let mut lexer = Lexer::new();
    let mut labels = LabelTable::new();
    labels.insert(b("_ident"), Label::new_addr(Some(3213)));
    let out = lexer.lex(&b("'hello' XOR+17 _ident"), 0, &labels);
    let (tokens, flags) = out.expect("lexing failed");
    assert_eq!(tokens.len(), 5);
    let mut f = ExprFlags::new();
    f.string = true;
    assert_eq!(flags, f);
    assert!(matches!(&tokens[0], Token::String(_)));
    if let Token::String(s) = &tokens[0] {
        assert_eq!(*s, b("hello"));
    }
    is_op_of_code(&tokens[1], b'^');
    is_op_of_code(&tokens[2], b'+');
    is_number_of_value(&tokens[3], 17, "");
    is_number_of_value(&tokens[4], 3213, "");
}

fn fresh_assembler() -> rs_8080::assembler::assemble::Assembler {
    rs_8080::assembler::assemble::Assembler::new(AssembleArgs {
        hlt: false,
        load_at: 0,
        register_definitions: false,
    })
}

#[test]
fn width_of_vararg_db() {
    let ass = fresh_assembler();
    let width = ass.width_of_data_storage(&b("DB"), &vec![b("13")]).expect("should parse");
    assert_eq!(width, 1, "a byte of any value should be width 1");
    let width = ass
        .width_of_data_storage(&b("DB"), &vec![b("13"), b("12")])
        .expect("should parse");
    assert_eq!(width, 2, "a list of bytes should return the length");
    let width = ass
        .width_of_data_storage(&b("DB"), &vec![b("'this-string'")])
        .expect("should parse");
    assert_eq!(width, 11, "'this-string' is eleven chars");
}

#[test]
fn width_of_vararg_dw() {
    let ass = fresh_assembler();
    let width = ass
        .width_of_data_storage(&b("DW"), &vec![b("13"), b("fish")])
        .expect("should parse");
    assert_eq!(width, 4, "double the numbers of args");
}

#[test]
fn width_of_vararg_ds() {
    let mut ass = fresh_assembler();
    let width = ass.width_of_data_storage(&b("DS"), &vec![b("13")]).expect("should parse");
    assert_eq!(width, 13, "the result of the expression");
    let e = ass.width_of_data_storage(&b("DS"), &vec![b("'hello'")]).unwrap_err();
    assert!(matches!(e, ParserError::InvalidArgument(_, _)));
    if let ParserError::InvalidArgument(_, s) = e {
        assert_eq!(s, b("'hello'"), "erroring arg should be 'hello'");
    }
    ass.labels.insert(b("_ident"), Label::new_addr(Some(2)));
    let width = ass.width_of_data_storage(&b("DS"), &vec![b("_ident")]).expect("labels");
    assert_eq!(width, 2, "the result of the expression");
}
