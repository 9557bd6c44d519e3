//! Expression evaluation: lex, transform to reverse Polish order, evaluate.
//!
//! The result of an expression is a byte sequence: a multi-byte string
//! yields its bytes, everything else the little-endian two bytes of its
//! 16-bit value.  The special identifiers `PSW` and `SP` yield no bytes and
//! only raise their flags; they may not take part in arithmetic.

use vstd::prelude::*;
use vstd::string::StringSliceAdditionalSpecFns;

use crate::assembler::errors::{ExpressionError, ExpressionErrorV};
use crate::assembler::expressions::lexer::{spec_lex, toks_view, ExprFlags, Lexer};
use crate::assembler::expressions::rpn;
use crate::assembler::expressions::shunting_yard;
use crate::assembler::expressions::token::{TokV, Token};
use crate::assembler::label::{Label, LabelTable};
use crate::util::{spec_le_u16, spec_u16_le};

verus! {

pub type ExprOutput = (Vec<u8>, ExprFlags);

/// The first special identifier among the tokens, if any.
pub open spec fn spec_first_meta(toks: Seq<TokV>, i: int) -> Option<Seq<u8>>
    decreases toks.len() - i,
{
    if i < 0 || i >= toks.len() {
        None
    } else {
        match toks[i] {
            TokV::MetaIdentifier(s) => Some(s),
            _ => spec_first_meta(toks, i + 1),
        }
    }
}

/// What evaluating an expression yields: its bytes and its flags, or the
/// first error on the way.  No tokens give no bytes; a single token gives
/// its own bytes (a number its two little-endian bytes, a string its
/// content, a special identifier nothing); more tokens make a calculation,
/// in which no special identifier may stand.
pub open spec fn spec_parse_expression(
    exp: Seq<u8>,
    addr: u16,
    labels: Map<Seq<u8>, Label>,
) -> Result<(Seq<u8>, ExprFlags), ExpressionErrorV> {
    match spec_lex(
        exp,
        0,
        addr,
        labels,
        Seq::empty(),
        ExprFlags { sp: false, psw: false, pc: false, string: false },
    ) {
        Err(e) => Err(e),
        Ok((toks, flags)) => {
            if toks.len() == 0 {
                Ok((Seq::empty(), flags))
            } else if toks.len() == 1 {
                match toks[0] {
                    TokV::Number(v) => Ok((spec_u16_le(v), flags)),
                    TokV::String(s) => Ok((s, flags)),
                    TokV::MetaIdentifier(_) => Ok((Seq::empty(), flags)),
                    t => Err(ExpressionErrorV::NotANumber(t)),
                }
            } else {
                match spec_first_meta(toks, 0) {
                    Some(name) => Err(ExpressionErrorV::MetaUsedInCalculation(name)),
                    None => match shunting_yard::spec_transform(
                        toks,
                        0,
                        Seq::empty(),
                        Seq::empty(),
                    ) {
                        Err(e) => Err(e),
                        Ok(out) => match rpn::spec_calculate(out, 0, Seq::empty()) {
                            Err(e) => Err(e),
                            Ok(v) => Ok((spec_u16_le(v), flags)),
                        },
                    },
                }
            }
        },
    }
}

/// The same evaluation read back as one word: the first two result bytes,
/// little endian; one byte alone is the value; no bytes are zero.
pub open spec fn spec_parse_expression_u16(
    exp: Seq<u8>,
    addr: u16,
    labels: Map<Seq<u8>, Label>,
) -> Result<(u16, ExprFlags), ExpressionErrorV> {
    match spec_parse_expression(exp, addr, labels) {
        Err(e) => Err(e),
        Ok((bytes, flags)) => Ok((spec_le_u16(bytes), flags)),
    }
}

/// Evaluate an expression to its bytes and flags.
pub fn parse_expression(exp: &Vec<u8>, addr: u16, labels: &LabelTable) -> (r: Result<
    ExprOutput,
    ExpressionError,
>)
    ensures
        match spec_parse_expression(exp@, addr, labels@) {
            Ok((bytes, flags)) => r is Ok && r->Ok_0.0@ == bytes && r->Ok_0.1 == flags,
            Err(e) => r is Err && r->Err_0@ == e,
        },
{
    let mut lexer = Lexer::new();
    let (mut tokens, flags) = match lexer.lex(exp, addr, labels) {
        Ok(out) => out,
        Err(e) => {
            return Err(e);
        },
    };
    if tokens.len() == 0 {
        let empty: Vec<u8> = Vec::new();
        proof {
            assert(empty@ =~= Seq::<u8>::empty());
        }
        Ok((empty, flags))
    } else if tokens.len() == 1 {
        let t = tokens.remove(0);
        proof {
            assert(t@ == toks_view(tokens@.insert(0, t))[0]);
        }
        match t {
            Token::Number(v) => Ok((crate::util::u16_to_vec_u8(v), flags)),
            Token::String(s) => Ok((s, flags)),
            Token::MetaIdentifier(_) => {
                let empty: Vec<u8> = Vec::new();
                proof {
                    assert(empty@ =~= Seq::<u8>::empty());
                }
                Ok((empty, flags))
            },
            tok => Err(ExpressionError::NotANumber(tok)),
        }
    } else {
        let mut j: usize = 0;
        while j < tokens.len()
            invariant
                j <= tokens.len(),
                tokens.len() >= 2,
                spec_lex(
                    exp@,
                    0,
                    addr,
                    labels@,
                    Seq::empty(),
                    ExprFlags { sp: false, psw: false, pc: false, string: false },
                ) == Ok::<_, ExpressionErrorV>((toks_view(tokens@), flags)),
                spec_first_meta(toks_view(tokens@), 0) == spec_first_meta(
                    toks_view(tokens@),
                    j as int,
                ),
            decreases tokens.len() - j,
        {
            if let Token::MetaIdentifier(val) = &tokens[j] {
                proof {
                    assert(toks_view(tokens@)[j as int] == tokens@[j as int]@);
                    assert(tokens@[j as int]@ == TokV::MetaIdentifier(val@));
                    assert(spec_first_meta(toks_view(tokens@), j as int) == Some(val@));
                }
                return Err(ExpressionError::MetaUsedInCalculation(crate::util::bytes_copy(val)));
            }
            proof {
                assert(toks_view(tokens@)[j as int] == tokens@[j as int]@);
            }
            j = j + 1;
        }
        let output_queue = match shunting_yard::transform(tokens) {
            Ok(out) => out,
            Err(e) => {
                return Err(e);
            },
        };
        match rpn::calculate(&output_queue) {
            Ok(v) => Ok((crate::util::u16_to_vec_u8(v), flags)),
            Err(e) => Err(e),
        }
    }
}

/// Evaluate an expression to one word and its flags.
pub fn parse_expression_u16(exp: &Vec<u8>, addr: u16, labels: &LabelTable) -> (r: Result<
    (u16, ExprFlags),
    ExpressionError,
>)
    ensures
        match spec_parse_expression_u16(exp@, addr, labels@) {
            Ok((v, flags)) => r is Ok && r->Ok_0.0 == v && r->Ok_0.1 == flags,
            Err(e) => r is Err && r->Err_0@ == e,
        },
{
    match parse_expression(exp, addr, labels) {
        Ok((bytes, flags)) => Ok((crate::util::vec_u8_to_u16(bytes.as_slice()), flags)),
        Err(e) => Err(e),
    }
}


/// Law: an expression whose evaluation never read `$` evaluates the same
/// at every address.  (`PSW` and `SP` only raise flags and never reach a
/// calculation, so the address is the one outside input.)
pub proof fn lemma_expression_addr_independent(
    exp: Seq<u8>,
    x: u16,
    y: u16,
    labels: Map<Seq<u8>, Label>,
)
    ensures
        ({
            let r = spec_parse_expression(exp, x, labels);
            r is Ok && !r->Ok_0.1.pc ==> spec_parse_expression(exp, y, labels) == r
        }),
        ({
            let r = spec_parse_expression_u16(exp, x, labels);
            r is Ok && !r->Ok_0.1.pc ==> spec_parse_expression_u16(exp, y, labels) == r
        }),
{
    crate::assembler::expressions::lexer::lemma_lex_addr_independent(
        exp,
        0,
        x,
        y,
        labels,
        Seq::empty(),
        ExprFlags { sp: false, psw: false, pc: false, string: false },
    );
}

/// A plain label name: it starts with a letter or underscore, goes on in
/// letters, digits and underscores, and is none of the words the
/// expression language reserves.
pub open spec fn spec_plain_label_name(name: Seq<u8>) -> bool {
    &&& name.len() > 0
    &&& crate::assembler::expressions::lexer::is_alpha(name[0]) || name[0] == 95
    &&& forall|j: int|
        0 <= j < name.len() ==> crate::assembler::expressions::lexer::is_alpha(
            #[trigger] name[j],
        ) || name[j] == 95 || crate::assembler::expressions::lexer::is_digit(name[j])
    &&& name != "XOR".spec_bytes()
    &&& name != "AND".spec_bytes()
    &&& name != "OR".spec_bytes()
    &&& name != "NOT".spec_bytes()
    &&& name != "NEG".spec_bytes()
    &&& name != "PSW".spec_bytes()
    &&& name != "SP".spec_bytes()
}

/// Law: the expression that is exactly the name of a resolved label
/// evaluates, at any address, to that label's stored value, with no flags
/// raised.
pub proof fn lemma_label_resolves_to_value(
    name: Seq<u8>,
    addr: u16,
    labels: Map<Seq<u8>, Label>,
    v: u16,
)
    requires
        spec_plain_label_name(name),
        labels.dom().contains(name),
        labels[name].value == Some(v),
    ensures
        spec_parse_expression_u16(name, addr, labels) == Ok::<(u16, ExprFlags), ExpressionErrorV>(
            (v, ExprFlags { sp: false, psw: false, pc: false, string: false }),
        ),
{
    let flags0 = ExprFlags { sp: false, psw: false, pc: false, string: false };
    crate::assembler::expressions::lexer::lemma_consume_ident_all(name, 1, seq![name[0]]);
    let (ident, after) = crate::assembler::expressions::lexer::spec_consume_ident(
        name,
        1,
        seq![name[0]],
    );
    assert(ident =~= name);
    assert(after == name.len());
    let toks1 = Seq::<TokV>::empty().push(TokV::Number(v));
    assert(spec_lex(name, 0, addr, labels, Seq::empty(), flags0) == spec_lex(
        name,
        after,
        addr,
        labels,
        toks1,
        flags0,
    ));
    assert(spec_lex(name, after, addr, labels, toks1, flags0) == Ok::<
        (Seq<TokV>, ExprFlags),
        ExpressionErrorV,
    >((toks1, flags0)));
    crate::util::lemma_u16_le_round_trip(v);
}

} // verus!
