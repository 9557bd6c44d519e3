//! The expression lexer.
//!
//! Turns the byte text of one expression into tokens: numeric literals with
//! `0x`/`0o`/`0b` radix prefixes, single-quoted strings with C-style
//! escapes, identifiers resolved from the label table, the special
//! identifiers `PSW` and `SP`, the current-address token `$`, operators and
//! parentheses.  The flags record whether `SP`, `PSW`, `$` or a multi-byte
//! string occurred.

use vstd::prelude::*;
use vstd::string::StringSliceAdditionalSpecFns;

use crate::assembler::errors::{ExpressionError, ExpressionErrorV};
use crate::assembler::expressions::token::{TokV, Token, LEFT_ASSOC};
use crate::assembler::label::{Label, LabelTable};

verus! {

/// Which special identifiers an expression used.
#[derive(Debug, Clone, Copy, PartialEq, Eq, Structural)]
pub struct ExprFlags {
    pub sp: bool,
    pub psw: bool,
    pub pc: bool,
    pub string: bool,
}

impl ExprFlags {
    pub fn new() -> (f: ExprFlags)
        ensures
            f == (ExprFlags { sp: false, psw: false, pc: false, string: false }),
    {
        ExprFlags { sp: false, psw: false, pc: false, string: false }
    }
}

pub open spec fn is_space(b: u8) -> bool {
    b == 32 || b == 9 || b == 10 || b == 13 || b == 11 || b == 12
}

pub open spec fn is_digit(b: u8) -> bool {
    48 <= b <= 57
}

pub open spec fn is_alpha(b: u8) -> bool {
    (65 <= b <= 90) || (97 <= b <= 122)
}

/// The value of one digit byte; 16 marks a byte that is no digit at all.
pub open spec fn spec_digit_val(b: u8) -> int {
    if 48 <= b <= 57 {
        b - 48
    } else if 65 <= b <= 70 {
        b - 65 + 10
    } else {
        16
    }
}

/// The unbounded value of a digit string in a radix.
pub open spec fn spec_radix_val(s: Seq<u8>, radix: int) -> int
    decreases s.len(),
{
    if s.len() == 0 {
        0
    } else {
        spec_radix_val(s.drop_last(), radix) * radix + spec_digit_val(s.last())
    }
}

/// Every byte of the digit string is a digit of the radix.
pub open spec fn spec_digits_ok(s: Seq<u8>, radix: int) -> bool {
    forall|i: int| 0 <= i < s.len() ==> spec_digit_val(#[trigger] s[i]) < radix
}

/// The largest value the number parser accepts before reporting overflow.
pub open spec fn spec_number_limit() -> int {
    0x7fff_ffff_ffff_ffff
}

/// A scanned numeric literal: the digit bytes, the radix, and the position
/// after it.  A lone leading zero followed by `X`, `B` or `O` switches the
/// radix; `A` through `F` count as digits only in radix 16.
pub open spec fn spec_consume_number(input: Seq<u8>, pos: int, s: Seq<u8>, radix: int) -> (
    Seq<u8>,
    int,
    int,
)
    decreases input.len() - pos,
{
    if pos < 0 || pos >= input.len() {
        (s, radix, pos)
    } else {
        let c = input[pos];
        if is_digit(c) {
            spec_consume_number(input, pos + 1, s.push(c), radix)
        } else if radix == 16 && 65 <= c <= 70 {
            spec_consume_number(input, pos + 1, s.push(c), radix)
        } else if s.len() == 1 && s[0] == 48 {
            if c == 88 {
                spec_consume_number(input, pos + 1, s, 16)
            } else if c == 66 {
                spec_consume_number(input, pos + 1, s, 2)
            } else if c == 79 {
                spec_consume_number(input, pos + 1, s, 8)
            } else {
                (s, radix, pos)
            }
        } else {
            (s, radix, pos)
        }
    }
}

/// A scanned identifier: letters, digits and underscores.
pub open spec fn spec_consume_ident(input: Seq<u8>, pos: int, s: Seq<u8>) -> (Seq<u8>, int)
    decreases input.len() - pos,
{
    if pos < 0 || pos >= input.len() {
        (s, pos)
    } else {
        let c = input[pos];
        if is_alpha(c) || c == 95 || is_digit(c) {
            spec_consume_ident(input, pos + 1, s.push(c))
        } else {
            (s, pos)
        }
    }
}

/// One escape character mapped to the byte it denotes; anything outside
/// the set `\\ \' n r t` is no escape.
pub open spec fn spec_escape(c: u8) -> Option<u8> {
    if c == 92 {
        Some(92u8)
    } else if c == 39 {
        Some(39u8)
    } else if c == 110 {
        Some(10u8)
    } else if c == 114 {
        Some(13u8)
    } else if c == 116 {
        Some(9u8)
    } else {
        None
    }
}

/// A scanned string body, starting after the opening quote: the content
/// bytes and the position after the closing quote, or the error an
/// unknown escape or a missing closing quote gives.
pub open spec fn spec_consume_string(input: Seq<u8>, pos: int, s: Seq<u8>, escaped: bool) -> Result<
    (Seq<u8>, int),
    ExpressionErrorV,
>
    decreases input.len() - pos,
{
    if pos < 0 || pos >= input.len() {
        Err(ExpressionErrorV::UnmatchedQuote(s))
    } else {
        let c = input[pos];
        if escaped {
            match spec_escape(c) {
                Some(e) => spec_consume_string(input, pos + 1, s.push(e), false),
                None => Err(ExpressionErrorV::UnknownEscape(c)),
            }
        } else if c == 39 {
            Ok((s, pos + 1))
        } else if c == 92 {
            spec_consume_string(input, pos + 1, s, true)
        } else {
            spec_consume_string(input, pos + 1, s.push(c), false)
        }
    }
}

/// The token an identifier stands for when it names an operator: the
/// bitwise binaries `XOR`, `AND`, `OR` and the unaries `NOT`, `NEG`.
pub open spec fn spec_functions(ident: Seq<u8>) -> Option<TokV> {
    if ident == "XOR".spec_bytes() {
        Some(TokV::Operator(94, LEFT_ASSOC, 4))
    } else if ident == "AND".spec_bytes() {
        Some(TokV::Operator(38, LEFT_ASSOC, 4))
    } else if ident == "OR".spec_bytes() {
        Some(TokV::Operator(124, LEFT_ASSOC, 4))
    } else if ident == "NOT".spec_bytes() || ident == "NEG".spec_bytes() {
        Some(TokV::Unary(ident))
    } else {
        None
    }
}

/// The ghost image of a token vector.
pub open spec fn toks_view(s: Seq<Token>) -> Seq<TokV> {
    s.map_values(|t: Token| t@)
}

pub proof fn lemma_toks_view_push(s: Seq<Token>, t: Token)
    ensures
        toks_view(s.push(t)) =~= toks_view(s).push(t@),
{
}

/// The whole lexer, one token per step.
pub open spec fn spec_lex(
    input: Seq<u8>,
    pos: int,
    address: u16,
    labels: Map<Seq<u8>, Label>,
    toks: Seq<TokV>,
    flags: ExprFlags,
) -> Result<(Seq<TokV>, ExprFlags), ExpressionErrorV>
    decreases input.len() - pos,
{
    if pos < 0 || pos >= input.len() {
        Ok((toks, flags))
    } else {
        let c = input[pos];
        if is_space(c) {
            spec_lex(input, pos + 1, address, labels, toks, flags)
        } else if is_digit(c) {
            let (digits, radix, after) = spec_consume_number(input, pos + 1, seq![c], 10);
            if !spec_digits_ok(digits, radix) || spec_radix_val(digits, radix)
                > spec_number_limit() {
                Err(ExpressionErrorV::NumberParseError)
            } else if after <= pos || after > input.len() {
                Err(ExpressionErrorV::NumberParseError)
            } else {
                spec_lex(
                    input,
                    after,
                    address,
                    labels,
                    toks.push(TokV::Number((spec_radix_val(digits, radix) % 0x10000) as u16)),
                    flags,
                )
            }
        } else if is_alpha(c) || c == 95 {
            let (ident, after) = spec_consume_ident(input, pos + 1, seq![c]);
            if after <= pos || after > input.len() {
                Err(ExpressionErrorV::UnknownIdentifier(ident))
            } else {
                match spec_functions(ident) {
                    Some(t) => spec_lex(input, after, address, labels, toks.push(t), flags),
                    None => {
                        if ident == "PSW".spec_bytes() {
                            spec_lex(
                                input,
                                after,
                                address,
                                labels,
                                toks.push(TokV::MetaIdentifier(ident)),
                                ExprFlags { psw: true, ..flags },
                            )
                        } else if ident == "SP".spec_bytes() {
                            spec_lex(
                                input,
                                after,
                                address,
                                labels,
                                toks.push(TokV::MetaIdentifier(ident)),
                                ExprFlags { sp: true, ..flags },
                            )
                        } else if labels.dom().contains(ident) && labels[ident].value is Some {
                            spec_lex(
                                input,
                                after,
                                address,
                                labels,
                                toks.push(
                                    TokV::Number(
                                        match labels[ident].value {
                                            Some(v) => v,
                                            None => 0u16,
                                        },
                                    ),
                                ),
                                flags,
                            )
                        } else {
                            Err(ExpressionErrorV::UnknownIdentifier(ident))
                        }
                    },
                }
            }
        } else if c == 39 {
            match spec_consume_string(input, pos + 1, Seq::empty(), false) {
                Err(e) => Err(e),
                Ok((s, after)) => {
                    if after <= pos || after > input.len() {
                        Err(ExpressionErrorV::UnmatchedQuote(s))
                    } else if s.len() == 1 {
                        spec_lex(
                            input,
                            after,
                            address,
                            labels,
                            toks.push(TokV::Number(s[0] as u16)),
                            flags,
                        )
                    } else {
                        spec_lex(
                            input,
                            after,
                            address,
                            labels,
                            toks.push(TokV::String(s)),
                            ExprFlags { string: true, ..flags },
                        )
                    }
                },
            }
        } else if c == 36 {
            spec_lex(
                input,
                pos + 1,
                address,
                labels,
                toks.push(TokV::Number(address)),
                ExprFlags { pc: true, ..flags },
            )
        } else if c == 43 || c == 45 {
            spec_lex(input, pos + 1, address, labels, toks.push(TokV::Operator(c, 1, 2)), flags)
        } else if c == 42 || c == 47 {
            spec_lex(input, pos + 1, address, labels, toks.push(TokV::Operator(c, 1, 3)), flags)
        } else if c == 40 {
            spec_lex(input, pos + 1, address, labels, toks.push(TokV::LParen), flags)
        } else if c == 41 {
            spec_lex(input, pos + 1, address, labels, toks.push(TokV::RParen), flags)
        } else {
            Err(ExpressionErrorV::UnprocessableChar(c))
        }
    }
}

pub struct Lexer {
    pub input: Vec<u8>,
    pub pos: usize,
    pub address: u16,
}

impl Lexer {
    pub fn new() -> (l: Lexer)
        ensures
            l.input@ == Seq::<u8>::empty(),
            l.pos == 0,
            l.address == 0,
    {
        let l = Lexer { input: Vec::new(), pos: 0, address: 0 };
        proof {
            assert(l.input@ =~= Seq::<u8>::empty());
        }
        l
    }

    pub fn set_input(&mut self, raw: Vec<u8>, address: u16)
        ensures
            final(self).input@ == raw@,
            final(self).pos == 0,
            final(self).address == address,
    {
        self.input = raw;
        self.pos = 0;
        self.address = address;
    }

    /// Scan a numeric literal at the cursor: its digit bytes and radix.
    pub fn consume_number(&mut self) -> (r: (Vec<u8>, u32))
        requires
            old(self).pos < old(self).input.len(),
            is_digit(old(self).input[old(self).pos as int]),
        ensures
            final(self).input == old(self).input,
            final(self).address == old(self).address,
            (r.0@, r.1 as int, final(self).pos as int) == spec_consume_number(
                old(self).input@,
                old(self).pos + 1,
                seq![old(self).input[old(self).pos as int]],
                10,
            ),
            old(self).pos < final(self).pos <= final(self).input.len(),
            2 <= r.1 <= 16,
    {
        let mut s: Vec<u8> = Vec::new();
        s.push(self.input[self.pos]);
        let mut radix: u32 = 10;
        self.pos = self.pos + 1;
        proof {
            assert(s@ =~= seq![old(self).input@[old(self).pos as int]]);
        }
        loop
            invariant
                self.input == old(self).input,
                self.address == old(self).address,
                old(self).pos < self.pos <= self.input.len(),
                2 <= radix <= 16,
                spec_consume_number(
                    old(self).input@,
                    old(self).pos + 1,
                    seq![old(self).input@[old(self).pos as int]],
                    10,
                ) == spec_consume_number(self.input@, self.pos as int, s@, radix as int),
            ensures
                self.input == old(self).input,
                self.address == old(self).address,
                old(self).pos < self.pos <= self.input.len(),
                2 <= radix <= 16,
                (s@, radix as int, self.pos as int) == spec_consume_number(
                    old(self).input@,
                    old(self).pos + 1,
                    seq![old(self).input@[old(self).pos as int]],
                    10,
                ),
            decreases self.input.len() - self.pos,
        {
            if self.pos >= self.input.len() {
                break ;
            }
            let c = self.input[self.pos];
            if c >= 48 && c <= 57 {
                s.push(c);
            } else if radix == 16 && c >= 65 && c <= 70 {
                s.push(c);
            } else if s.len() == 1 && s[0] == 48 {
                if c == 88 {
                    radix = 16;
                } else if c == 66 {
                    radix = 2;
                } else if c == 79 {
                    radix = 8;
                } else {
                    break ;
                }
            } else {
                break ;
            }
            self.pos = self.pos + 1;
        }
        (s, radix)
    }

    /// Scan an identifier at the cursor.
    pub fn consume_identifier(&mut self) -> (r: Vec<u8>)
        requires
            old(self).pos <= old(self).input.len(),
        ensures
            final(self).input == old(self).input,
            final(self).address == old(self).address,
            (r@, final(self).pos as int) == spec_consume_ident(
                old(self).input@,
                old(self).pos as int,
                Seq::empty(),
            ),
            old(self).pos <= final(self).pos <= final(self).input.len(),
    {
        let mut s: Vec<u8> = Vec::new();
        proof {
            assert(s@ =~= Seq::<u8>::empty());
        }
        loop
            invariant
                self.input == old(self).input,
                self.address == old(self).address,
                old(self).pos <= self.pos <= self.input.len(),
                spec_consume_ident(old(self).input@, old(self).pos as int, Seq::empty())
                    == spec_consume_ident(self.input@, self.pos as int, s@),
            ensures
                self.input == old(self).input,
                self.address == old(self).address,
                old(self).pos <= self.pos <= self.input.len(),
                (s@, self.pos as int) == spec_consume_ident(
                    old(self).input@,
                    old(self).pos as int,
                    Seq::empty(),
                ),
            decreases self.input.len() - self.pos,
        {
            if self.pos >= self.input.len() {
                break ;
            }
            let c = self.input[self.pos];
            if (c >= 65 && c <= 90) || (c >= 97 && c <= 122) || c == 95 || (c >= 48 && c <= 57) {
                s.push(c);
                self.pos = self.pos + 1;
            } else {
                break ;
            }
        }
        s
    }

    /// Scan a single-quoted string whose opening quote sits at the cursor.
    pub fn consume_string(&mut self) -> (r: Result<Vec<u8>, ExpressionError>)
        requires
            old(self).pos < old(self).input.len(),
        ensures
            final(self).input == old(self).input,
            final(self).address == old(self).address,
            final(self).pos <= final(self).input.len(),
            match spec_consume_string(old(self).input@, old(self).pos + 1, Seq::empty(), false) {
                Ok((s, after)) => r is Ok && r->Ok_0@ == s && final(self).pos == after && after > old(
                    self,
                ).pos,
                Err(e) => r is Err && r->Err_0@ == e,
            },
    {
        self.pos = self.pos + 1;
        let mut s: Vec<u8> = Vec::new();
        let mut escaped = false;
        proof {
            assert(s@ =~= Seq::<u8>::empty());
        }
        loop
            invariant
                self.input == old(self).input,
                self.address == old(self).address,
                old(self).pos < self.pos <= self.input.len(),
                spec_consume_string(old(self).input@, old(self).pos + 1, Seq::empty(), false)
                    == spec_consume_string(self.input@, self.pos as int, s@, escaped),
            ensures
                self.input == old(self).input,
                self.address == old(self).address,
                old(self).pos < self.pos <= self.input.len(),
                self.pos == self.input.len(),
                spec_consume_string(old(self).input@, old(self).pos + 1, Seq::empty(), false)
                    == spec_consume_string(self.input@, self.pos as int, s@, escaped),
            decreases self.input.len() - self.pos,
        {
            if self.pos >= self.input.len() {
                break ;
            }
            let c = self.input[self.pos];
            if escaped {
                escaped = false;
                let e: u8 = if c == 92 {
                    92
                } else if c == 39 {
                    39
                } else if c == 110 {
                    10
                } else if c == 114 {
                    13
                } else if c == 116 {
                    9
                } else {
                    return Err(ExpressionError::UnknownEscape(c));
                };
                s.push(e);
                self.pos = self.pos + 1;
            } else if c == 39 {
                self.pos = self.pos + 1;
                return Ok(s);
            } else if c == 92 {
                escaped = true;
                self.pos = self.pos + 1;
            } else {
                s.push(c);
                self.pos = self.pos + 1;
            }
        }
        Err(ExpressionError::UnmatchedQuote(s))
    }

    /// Lex a whole expression against an address for `$` and a label table
    /// for identifiers.
    pub fn lex(&mut self, raw_str: &Vec<u8>, address: u16, labels: &LabelTable) -> (r: Result<
        (Vec<Token>, ExprFlags),
        ExpressionError,
    >)
        ensures
            match spec_lex(
                raw_str@,
                0,
                address,
                labels@,
                Seq::empty(),
                ExprFlags { sp: false, psw: false, pc: false, string: false },
            ) {
                Ok((ts, fl)) => r is Ok && toks_view(r->Ok_0.0@) == ts && r->Ok_0.1 == fl,
                Err(e) => r is Err && r->Err_0@ == e,
            },
    {
        self.input = raw_str.clone();
        self.pos = 0;
        self.address = address;
        proof {
            assert(self.input@ =~= raw_str@);
        }
        let ghost goal = spec_lex(
            raw_str@,
            0,
            address,
            labels@,
            Seq::empty(),
            ExprFlags { sp: false, psw: false, pc: false, string: false },
        );
        let mut flags: ExprFlags = ExprFlags::new();
        let mut tokens: Vec<Token> = Vec::new();
        proof {
            assert(toks_view(tokens@) =~= Seq::<TokV>::empty());
        }
        loop
            invariant
                self.input@ == raw_str@,
                self.address == address,
                self.pos <= self.input.len(),
                goal == spec_lex(
                    raw_str@,
                    0,
                    address,
                    labels@,
                    Seq::empty(),
                    ExprFlags { sp: false, psw: false, pc: false, string: false },
                ),
                goal == spec_lex(
                    self.input@,
                    self.pos as int,
                    address,
                    labels@,
                    toks_view(tokens@),
                    flags,
                ),
            ensures
                goal == spec_lex(
                    raw_str@,
                    0,
                    address,
                    labels@,
                    Seq::empty(),
                    ExprFlags { sp: false, psw: false, pc: false, string: false },
                ),
                goal is Ok,
                toks_view(tokens@) == goal->Ok_0.0 && flags == goal->Ok_0.1,
            decreases self.input.len() - self.pos,
        {
            if self.pos >= self.input.len() {
                break ;
            }
            let c = self.input[self.pos];
            if c == 32 || c == 9 || c == 10 || c == 13 || c == 11 || c == 12 {
                self.pos = self.pos + 1;
            } else if c >= 48 && c <= 57 {
                let (digits, radix) = self.consume_number();
                match Self::parse_number_value(digits.as_slice(), radix) {
                    Some(v) => {
                        let t = Token::Number(v);
                        proof {
                            lemma_toks_view_push(tokens@, t);
                        }
                        tokens.push(t);
                    },
                    None => {
                        return Err(ExpressionError::NumberParseError);
                    },
                }
            } else if (c >= 65 && c <= 90) || (c >= 97 && c <= 122) || c == 95 {
                self.pos = self.pos + 1;
                let ghost start = self.pos as int;
                let mut ident: Vec<u8> = vec![c];
                let mut rest = self.consume_identifier();
                proof {
                    assert(ident@ =~= seq![c]);
                    lemma_consume_ident_seed(self.input@, start, seq![c]);
                }
                ident.append(&mut rest);
                proof {
                    assert(ident@ == spec_consume_ident(self.input@, start, seq![c]).0);
                    assert(self.pos as int == spec_consume_ident(self.input@, start, seq![c]).1);
                }
                let t: Token = if crate::util::bytes_eq(ident.as_slice(), "XOR".as_bytes()) {
                    Token::Operator(94, LEFT_ASSOC, 4)
                } else if crate::util::bytes_eq(ident.as_slice(), "AND".as_bytes()) {
                    Token::Operator(38, LEFT_ASSOC, 4)
                } else if crate::util::bytes_eq(ident.as_slice(), "OR".as_bytes()) {
                    Token::Operator(124, LEFT_ASSOC, 4)
                } else if crate::util::bytes_eq(ident.as_slice(), "NOT".as_bytes())
                    || crate::util::bytes_eq(ident.as_slice(), "NEG".as_bytes()) {
                    Token::Unary(ident)
                } else if crate::util::bytes_eq(ident.as_slice(), "PSW".as_bytes()) {
                    flags.psw = true;
                    Token::MetaIdentifier(ident)
                } else if crate::util::bytes_eq(ident.as_slice(), "SP".as_bytes()) {
                    flags.sp = true;
                    Token::MetaIdentifier(ident)
                } else {
                    match labels.get(ident.as_slice()) {
                        Some(label) => match label.value {
                            Some(v) => Token::Number(v),
                            None => {
                                return Err(ExpressionError::UnknownIdentifier(ident));
                            },
                        },
                        None => {
                            return Err(ExpressionError::UnknownIdentifier(ident));
                        },
                    }
                };
                proof {
                    lemma_toks_view_push(tokens@, t);
                }
                tokens.push(t);
            } else if c == 39 {
                match self.consume_string() {
                    Ok(s) => {
                        let t: Token = if s.len() == 1 {
                            Token::Number(s[0] as u16)
                        } else {
                            flags.string = true;
                            Token::String(s)
                        };
                        proof {
                            lemma_toks_view_push(tokens@, t);
                        }
                        tokens.push(t);
                    },
                    Err(e) => {
                        return Err(e);
                    },
                }
            } else if c == 36 {
                flags.pc = true;
                let t = Token::Number(self.address);
                proof {
                    lemma_toks_view_push(tokens@, t);
                }
                tokens.push(t);
                self.pos = self.pos + 1;
            } else if c == 43 || c == 45 {
                let t = Token::Operator(c, 1, 2);
                proof {
                    lemma_toks_view_push(tokens@, t);
                }
                tokens.push(t);
                self.pos = self.pos + 1;
            } else if c == 42 || c == 47 {
                let t = Token::Operator(c, 1, 3);
                proof {
                    lemma_toks_view_push(tokens@, t);
                }
                tokens.push(t);
                self.pos = self.pos + 1;
            } else if c == 40 {
                let t = Token::LParen;
                proof {
                    lemma_toks_view_push(tokens@, t);
                }
                tokens.push(t);
                self.pos = self.pos + 1;
            } else if c == 41 {
                let t = Token::RParen;
                proof {
                    lemma_toks_view_push(tokens@, t);
                }
                tokens.push(t);
                self.pos = self.pos + 1;
            } else {
                return Err(ExpressionError::UnprocessableChar(c));
            }
        }
        Ok((tokens, flags))
    }

    /// The numeric value of scanned digits, low 16 bits; `None` when a
    /// digit does not fit the radix or the value exceeds the parser's
    /// limit.
    fn parse_number_value(digits: &[u8], radix: u32) -> (r: Option<u16>)
        requires
            2 <= radix <= 16,
        ensures
            r == if !spec_digits_ok(digits@, radix as int) || spec_radix_val(
                digits@,
                radix as int,
            ) > spec_number_limit() {
                None::<u16>
            } else {
                Some((spec_radix_val(digits@, radix as int) % 0x10000) as u16)
            },
    {
        let mut acc: u128 = 0;
        let mut big = false;
        let mut i: usize = 0;
        proof {
            assert(digits@.subrange(0, 0) =~= Seq::<u8>::empty());
        }
        while i < digits.len()
            invariant
                2 <= radix <= 16,
                i <= digits.len(),
                spec_digits_ok(digits@.subrange(0, i as int), radix as int),
                !big ==> acc == spec_radix_val(digits@.subrange(0, i as int), radix as int) && acc
                    <= spec_number_limit(),
                big ==> spec_radix_val(digits@.subrange(0, i as int), radix as int)
                    > spec_number_limit(),
            decreases digits.len() - i,
        {
            let b = digits[i];
            let d: u32 = if b >= 48 && b <= 57 {
                (b - 48) as u32
            } else if b >= 65 && b <= 70 {
                (b - 65 + 10) as u32
            } else {
                16
            };
            if d >= radix {
                return None;
            }
            proof {
                assert(digits@.subrange(0, i + 1).drop_last() =~= digits@.subrange(0, i as int));
                assert(digits@.subrange(0, i + 1).last() == digits@[i as int]);
            }
            let ghost pre_val = spec_radix_val(digits@.subrange(0, i as int), radix as int);
            if big {
                proof {
                    let r = radix as int;
                    let dd = spec_digit_val(digits@[i as int]);
                    assert(pre_val * r + dd > spec_number_limit()) by (nonlinear_arith)
                        requires
                            pre_val > spec_number_limit(),
                            r >= 2,
                            dd >= 0,
                    ;
                }
            } else {
                proof {
                    let r = radix as int;
                    assert(acc * r <= spec_number_limit() * 16) by (nonlinear_arith)
                        requires
                            0 <= acc <= spec_number_limit(),
                            2 <= r <= 16,
                    ;
                }
                acc = acc * (radix as u128) + (d as u128);
                if acc > 0x7fff_ffff_ffff_ffff {
                    big = true;
                }
            }
            i = i + 1;
        }
        proof {
            assert(digits@.subrange(0, digits@.len() as int) =~= digits@);
        }
        if big {
            None
        } else {
            Some((acc % 0x10000) as u16)
        }
    }
}

/// Scanning an identifier with seed bytes yields the seed followed by the
/// scan with an empty seed, ending at the same place.
pub proof fn lemma_consume_ident_seed(input: Seq<u8>, pos: int, s: Seq<u8>)
    ensures
        spec_consume_ident(input, pos, s).0 == s + spec_consume_ident(input, pos, Seq::empty()).0,
        spec_consume_ident(input, pos, s).1 == spec_consume_ident(input, pos, Seq::empty()).1,
    decreases input.len() - pos,
{
    if pos < 0 || pos >= input.len() {
        assert(spec_consume_ident(input, pos, s).0 =~= s + Seq::<u8>::empty());
    } else {
        let c = input[pos];
        if is_alpha(c) || c == 95 || is_digit(c) {
            lemma_consume_ident_seed(input, pos + 1, s.push(c));
            lemma_consume_ident_seed(input, pos + 1, seq![c]);
            assert(s.push(c) =~= s + seq![c]);
            assert(s + (seq![c] + spec_consume_ident(input, pos + 1, Seq::empty()).0) =~= (s
                + seq![c]) + spec_consume_ident(input, pos + 1, Seq::empty()).0);
        } else {
            assert(spec_consume_ident(input, pos, s).0 =~= s + Seq::<u8>::empty());
        }
    }
}


/// Scanning an identifier that runs to the end of the input consumes it
/// whole.
pub proof fn lemma_consume_ident_all(input: Seq<u8>, pos: int, s: Seq<u8>)
    requires
        0 <= pos <= input.len(),
        forall|j: int|
            pos <= j < input.len() ==> is_alpha(#[trigger] input[j]) || input[j] == 95 || is_digit(
                input[j],
            ),
    ensures
        spec_consume_ident(input, pos, s).0 == s + input.subrange(pos, input.len() as int),
        spec_consume_ident(input, pos, s).1 == input.len() as int,
    decreases input.len() - pos,
{
    if pos >= input.len() {
        assert(s + input.subrange(pos, input.len() as int) =~= s);
    } else {
        lemma_consume_ident_all(input, pos + 1, s.push(input[pos]));
        assert(s.push(input[pos]) + input.subrange(pos + 1, input.len() as int) =~= s
            + input.subrange(pos, input.len() as int));
    }
}

/// Once the program-counter flag stands in the accumulator it stands in
/// the result.
pub proof fn lemma_lex_pc_monotonic(
    input: Seq<u8>,
    pos: int,
    address: u16,
    labels: Map<Seq<u8>, Label>,
    toks: Seq<TokV>,
    flags: ExprFlags,
)
    ensures
        ({
            let r = spec_lex(input, pos, address, labels, toks, flags);
            r is Ok && flags.pc ==> r->Ok_0.1.pc
        }),
    decreases input.len() - pos,
{
    if pos < 0 || pos >= input.len() {
    } else {
        let c = input[pos];
        if is_space(c) {
            lemma_lex_pc_monotonic(input, pos + 1, address, labels, toks, flags);
        } else if is_digit(c) {
            let (digits, radix, after) = spec_consume_number(input, pos + 1, seq![c], 10);
            if !spec_digits_ok(digits, radix) || spec_radix_val(digits, radix)
                > spec_number_limit() {
            } else if after <= pos || after > input.len() {
            } else {
                lemma_lex_pc_monotonic(
                    input,
                    after,
                    address,
                    labels,
                    toks.push(TokV::Number((spec_radix_val(digits, radix) % 0x10000) as u16)),
                    flags,
                );
            }
        } else if is_alpha(c) || c == 95 {
            let (ident, after) = spec_consume_ident(input, pos + 1, seq![c]);
            if after <= pos || after > input.len() {
            } else {
                match spec_functions(ident) {
                    Some(t) => {
                        lemma_lex_pc_monotonic(input, after, address, labels, toks.push(t), flags);
                    },
                    None => {
                        if ident == "PSW".spec_bytes() {
                            lemma_lex_pc_monotonic(
                                input,
                                after,
                                address,
                                labels,
                                toks.push(TokV::MetaIdentifier(ident)),
                                ExprFlags { psw: true, ..flags },
                            );
                        } else if ident == "SP".spec_bytes() {
                            lemma_lex_pc_monotonic(
                                input,
                                after,
                                address,
                                labels,
                                toks.push(TokV::MetaIdentifier(ident)),
                                ExprFlags { sp: true, ..flags },
                            );
                        } else if labels.dom().contains(ident) && labels[ident].value is Some {
                            lemma_lex_pc_monotonic(
                                input,
                                after,
                                address,
                                labels,
                                toks.push(
                                    TokV::Number(
                                        match labels[ident].value {
                                            Some(v) => v,
                                            None => 0u16,
                                        },
                                    ),
                                ),
                                flags,
                            );
                        }
                    },
                }
            }
        } else if c == 39 {
            match spec_consume_string(input, pos + 1, Seq::empty(), false) {
                Err(e) => {},
                Ok((str_bytes, after)) => {
                    if after <= pos || after > input.len() {
                    } else if str_bytes.len() == 1 {
                        lemma_lex_pc_monotonic(
                            input,
                            after,
                            address,
                            labels,
                            toks.push(TokV::Number(str_bytes[0] as u16)),
                            flags,
                        );
                    } else {
                        lemma_lex_pc_monotonic(
                            input,
                            after,
                            address,
                            labels,
                            toks.push(TokV::String(str_bytes)),
                            ExprFlags { string: true, ..flags },
                        );
                    }
                },
            }
        } else if c == 36 {
            lemma_lex_pc_monotonic(
                input,
                pos + 1,
                address,
                labels,
                toks.push(TokV::Number(address)),
                ExprFlags { pc: true, ..flags },
            );
        } else if c == 43 || c == 45 {
            lemma_lex_pc_monotonic(
                input,
                pos + 1,
                address,
                labels,
                toks.push(TokV::Operator(c, 1, 2)),
                flags,
            );
        } else if c == 42 || c == 47 {
            lemma_lex_pc_monotonic(
                input,
                pos + 1,
                address,
                labels,
                toks.push(TokV::Operator(c, 1, 3)),
                flags,
            );
        } else if c == 40 {
            lemma_lex_pc_monotonic(input, pos + 1, address, labels, toks.push(TokV::LParen), flags);
        } else if c == 41 {
            lemma_lex_pc_monotonic(input, pos + 1, address, labels, toks.push(TokV::RParen), flags);
        }
    }
}

/// Law: an expression that never read `$` lexes to the same tokens and
/// flags at every address — only the `$` branch ever injects the address.
pub proof fn lemma_lex_addr_independent(
    input: Seq<u8>,
    pos: int,
    a1: u16,
    a2: u16,
    labels: Map<Seq<u8>, Label>,
    toks: Seq<TokV>,
    flags: ExprFlags,
)
    ensures
        ({
            let r = spec_lex(input, pos, a1, labels, toks, flags);
            r is Ok && !r->Ok_0.1.pc ==> spec_lex(input, pos, a2, labels, toks, flags) == r
        }),
    decreases input.len() - pos,
{
    if pos < 0 || pos >= input.len() {
    } else {
        let c = input[pos];
        if is_space(c) {
            lemma_lex_addr_independent(input, pos + 1, a1, a2, labels, toks, flags);
        } else if is_digit(c) {
            let (digits, radix, after) = spec_consume_number(input, pos + 1, seq![c], 10);
            if !spec_digits_ok(digits, radix) || spec_radix_val(digits, radix)
                > spec_number_limit() {
            } else if after <= pos || after > input.len() {
            } else {
                lemma_lex_addr_independent(
                    input,
                    after,
                    a1,
                    a2,
                    labels,
                    toks.push(TokV::Number((spec_radix_val(digits, radix) % 0x10000) as u16)),
                    flags,
                );
            }
        } else if is_alpha(c) || c == 95 {
            let (ident, after) = spec_consume_ident(input, pos + 1, seq![c]);
            if after <= pos || after > input.len() {
            } else {
                match spec_functions(ident) {
                    Some(t) => {
                        lemma_lex_addr_independent(input, after, a1, a2, labels, toks.push(t), flags);
                    },
                    None => {
                        if ident == "PSW".spec_bytes() {
                            lemma_lex_addr_independent(
                                input,
                                after,
                                a1,
                                a2,
                                labels,
                                toks.push(TokV::MetaIdentifier(ident)),
                                ExprFlags { psw: true, ..flags },
                            );
                        } else if ident == "SP".spec_bytes() {
                            lemma_lex_addr_independent(
                                input,
                                after,
                                a1,
                                a2,
                                labels,
                                toks.push(TokV::MetaIdentifier(ident)),
                                ExprFlags { sp: true, ..flags },
                            );
                        } else if labels.dom().contains(ident) && labels[ident].value is Some {
                            lemma_lex_addr_independent(
                                input,
                                after,
                                a1,
                                a2,
                                labels,
                                toks.push(
                                    TokV::Number(
                                        match labels[ident].value {
                                            Some(v) => v,
                                            None => 0u16,
                                        },
                                    ),
                                ),
                                flags,
                            );
                        }
                    },
                }
            }
        } else if c == 39 {
            match spec_consume_string(input, pos + 1, Seq::empty(), false) {
                Err(e) => {},
                Ok((str_bytes, after)) => {
                    if after <= pos || after > input.len() {
                    } else if str_bytes.len() == 1 {
                        lemma_lex_addr_independent(
                            input,
                            after,
                            a1,
                            a2,
                            labels,
                            toks.push(TokV::Number(str_bytes[0] as u16)),
                            flags,
                        );
                    } else {
                        lemma_lex_addr_independent(
                            input,
                            after,
                            a1,
                            a2,
                            labels,
                            toks.push(TokV::String(str_bytes)),
                            ExprFlags { string: true, ..flags },
                        );
                    }
                },
            }
        } else if c == 36 {
            // `$` raises the flag for good: the result cannot be flag-free
            lemma_lex_pc_monotonic(
                input,
                pos + 1,
                a1,
                labels,
                toks.push(TokV::Number(a1)),
                ExprFlags { pc: true, ..flags },
            );
        } else if c == 43 || c == 45 {
            lemma_lex_addr_independent(
                input,
                pos + 1,
                a1,
                a2,
                labels,
                toks.push(TokV::Operator(c, 1, 2)),
                flags,
            );
        } else if c == 42 || c == 47 {
            lemma_lex_addr_independent(
                input,
                pos + 1,
                a1,
                a2,
                labels,
                toks.push(TokV::Operator(c, 1, 3)),
                flags,
            );
        } else if c == 40 {
            lemma_lex_addr_independent(
                input,
                pos + 1,
                a1,
                a2,
                labels,
                toks.push(TokV::LParen),
                flags,
            );
        } else if c == 41 {
            lemma_lex_addr_independent(
                input,
                pos + 1,
                a1,
                a2,
                labels,
                toks.push(TokV::RParen),
                flags,
            );
        }
    }
}

} // verus!
