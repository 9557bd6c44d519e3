//! The shunting-yard transform from a token stream to reverse Polish order.

use vstd::prelude::*;

use crate::assembler::errors::{ExpressionError, ExpressionErrorV};
use crate::assembler::expressions::lexer::{lemma_toks_view_push, toks_view};
use crate::assembler::expressions::token::{TokV, Token, LEFT_ASSOC, RIGHT_ASSOC};

verus! {

/// Operators (and pending unaries) moved from the stack to the output
/// before a new binary operator goes on the stack.
pub open spec fn spec_pop_ops(out: Seq<TokV>, stack: Seq<TokV>, assoc1: u32, prec1: u32) -> (
    Seq<TokV>,
    Seq<TokV>,
)
    decreases stack.len(),
{
    if stack.len() == 0 {
        (out, stack)
    } else {
        match stack.last() {
            TokV::Operator(_, _, prec2) => {
                if (assoc1 == LEFT_ASSOC && prec1 <= prec2) || (assoc1 == RIGHT_ASSOC && prec1 < prec2) {
                    spec_pop_ops(out.push(stack.last()), stack.drop_last(), assoc1, prec1)
                } else {
                    (out, stack)
                }
            },
            TokV::Unary(_) => spec_pop_ops(out.push(stack.last()), stack.drop_last(), assoc1, prec1),
            _ => (out, stack),
        }
    }
}

/// The stack drained to the output down to its innermost open parenthesis,
/// which a closing parenthesis discharges.
pub open spec fn spec_pop_until_lparen(out: Seq<TokV>, stack: Seq<TokV>) -> Result<
    (Seq<TokV>, Seq<TokV>),
    ExpressionErrorV,
>
    decreases stack.len(),
{
    if stack.len() == 0 {
        Err(ExpressionErrorV::UnmatchedParens)
    } else if stack.last() is LParen {
        Ok((out, stack.drop_last()))
    } else {
        spec_pop_until_lparen(out.push(stack.last()), stack.drop_last())
    }
}

/// The stack drained at the end of the input; a parenthesis still on it is
/// unmatched.
pub open spec fn spec_drain(out: Seq<TokV>, stack: Seq<TokV>) -> Result<Seq<TokV>, ExpressionErrorV>
    decreases stack.len(),
{
    if stack.len() == 0 {
        Ok(out)
    } else if stack.last() is LParen || stack.last() is RParen {
        Err(ExpressionErrorV::UnmatchedParens)
    } else {
        spec_drain(out.push(stack.last()), stack.drop_last())
    }
}

/// The whole transform: numbers go straight out, unaries and open
/// parentheses go on the stack, binary operators displace their elders,
/// closing parentheses drain to the match; strings and special identifiers
/// fall away.
pub open spec fn spec_transform(input: Seq<TokV>, i: int, out: Seq<TokV>, stack: Seq<TokV>) -> Result<
    Seq<TokV>,
    ExpressionErrorV,
>
    decreases input.len() - i,
{
    if i < 0 || i >= input.len() {
        spec_drain(out, stack)
    } else {
        match input[i] {
            TokV::Number(n) => spec_transform(input, i + 1, out.push(TokV::Number(n)), stack),
            TokV::Unary(u) => spec_transform(input, i + 1, out, stack.push(TokV::Unary(u))),
            TokV::Operator(o, a, p) => {
                let (out2, stack2) = spec_pop_ops(out, stack, a, p);
                spec_transform(input, i + 1, out2, stack2.push(TokV::Operator(o, a, p)))
            },
            TokV::LParen => spec_transform(input, i + 1, out, stack.push(TokV::LParen)),
            TokV::RParen => match spec_pop_until_lparen(out, stack) {
                Ok((out2, stack2)) => spec_transform(input, i + 1, out2, stack2),
                Err(e) => Err(e),
            },
            _ => spec_transform(input, i + 1, out, stack),
        }
    }
}

/// Rearrange a lexed token stream into reverse Polish order.
pub fn transform(input_queue: Vec<Token>) -> (r: Result<Vec<Token>, ExpressionError>)
    ensures
        match spec_transform(toks_view(input_queue@), 0, Seq::empty(), Seq::empty()) {
            Ok(out) => r is Ok && toks_view(r->Ok_0@) == out,
            Err(e) => r is Err && r->Err_0@ == e,
        },
{
    let ghost goal = spec_transform(toks_view(input_queue@), 0, Seq::empty(), Seq::empty());
    let mut output_queue: Vec<Token> = Vec::new();
    let mut stack: Vec<Token> = Vec::new();
    let mut i: usize = 0;
    proof {
        assert(toks_view(output_queue@) =~= Seq::<TokV>::empty());
        assert(toks_view(stack@) =~= Seq::<TokV>::empty());
    }
    while i < input_queue.len()
        invariant
            goal == spec_transform(toks_view(input_queue@), 0, Seq::empty(), Seq::empty()),
            i <= input_queue.len(),
            goal == spec_transform(
                toks_view(input_queue@),
                i as int,
                toks_view(output_queue@),
                toks_view(stack@),
            ),
        decreases input_queue.len() - i,
    {
        let ghost pre_out = toks_view(output_queue@);
        let ghost pre_stack = toks_view(stack@);
        proof {
            assert(toks_view(input_queue@)[i as int] == input_queue@[i as int]@);
        }
        let tok = &input_queue[i];
        match tok {
            Token::Number(n) => {
                let t = Token::Number(*n);
                proof {
                    lemma_toks_view_push(output_queue@, t);
                }
                output_queue.push(t);
            },
            Token::Unary(u) => {
                let t = Token::Unary(crate::util::bytes_copy(u));
                proof {
                    lemma_toks_view_push(stack@, t);
                    assert(t@ == toks_view(input_queue@)[i as int]);
                }
                stack.push(t);
            },
            Token::Operator(o1, o1_associativity, o1_precedence) => {
                let o: u8 = *o1;
                let a: u32 = *o1_associativity;
                let p: u32 = *o1_precedence;
                loop
                    invariant
                        goal == spec_transform(
                            toks_view(input_queue@),
                            0,
                            Seq::empty(),
                            Seq::empty(),
                        ),
                        spec_pop_ops(pre_out, pre_stack, a, p) == spec_pop_ops(
                            toks_view(output_queue@),
                            toks_view(stack@),
                            a,
                            p,
                        ),
                    ensures
                        (toks_view(output_queue@), toks_view(stack@)) == spec_pop_ops(
                            pre_out,
                            pre_stack,
                            a,
                            p,
                        ),
                    decreases stack.len(),
                {
                    if stack.len() == 0 {
                        break ;
                    }
                    let top_is_op_to_move: bool = match &stack[stack.len() - 1] {
                        Token::Operator(_, _, prec2) => (a == LEFT_ASSOC && p <= *prec2) || (a
                            == RIGHT_ASSOC && p < *prec2),
                        Token::Unary(_) => true,
                        _ => false,
                    };
                    proof {
                        assert(toks_view(stack@).last() == stack@.last()@);
                    }
                    if !top_is_op_to_move {
                        break ;
                    }
                    let ghost sb = toks_view(stack@);
                    let ghost ob = toks_view(output_queue@);
                    let top = stack.pop().unwrap();
                    proof {
                        assert(sb =~= toks_view(stack@).push(top@));
                        assert(sb.drop_last() =~= toks_view(stack@));
                        lemma_toks_view_push(output_queue@, top);
                        assert(spec_pop_ops(ob, sb, a, p) == spec_pop_ops(
                            ob.push(top@),
                            sb.drop_last(),
                            a,
                            p,
                        ));
                    }
                    output_queue.push(top);
                }
                let t = Token::Operator(o, a, p);
                proof {
                    lemma_toks_view_push(stack@, t);
                }
                stack.push(t);
            },
            Token::LParen => {
                let t = Token::LParen;
                proof {
                    lemma_toks_view_push(stack@, t);
                }
                stack.push(t);
            },
            Token::RParen => {
                loop
                    invariant_except_break
                        spec_pop_until_lparen(pre_out, pre_stack) == spec_pop_until_lparen(
                            toks_view(output_queue@),
                            toks_view(stack@),
                        ),
                    invariant
                        goal == spec_transform(
                            toks_view(input_queue@),
                            0,
                            Seq::empty(),
                            Seq::empty(),
                        ),
                        0 <= i < input_queue.len(),
                        toks_view(input_queue@)[i as int] is RParen,
                        goal == spec_transform(toks_view(input_queue@), i as int, pre_out, pre_stack),
                    ensures
                        match spec_pop_until_lparen(pre_out, pre_stack) {
                            Ok((out2, stack2)) => toks_view(output_queue@) == out2 && toks_view(
                                stack@,
                            ) == stack2,
                            Err(_) => false,
                        },
                    decreases stack.len(),
                {
                    if stack.len() == 0 {
                        proof {
                            assert(spec_pop_until_lparen(
                                toks_view(output_queue@),
                                toks_view(stack@),
                            ) is Err);
                        }
                        return Err(ExpressionError::UnmatchedParens);
                    }
                    let is_lparen = matches!(&stack[stack.len() - 1], Token::LParen);
                    proof {
                        assert(toks_view(stack@).last() == stack@.last()@);
                    }
                    let ghost sb = toks_view(stack@);
                    let ghost ob = toks_view(output_queue@);
                    let top = stack.pop().unwrap();
                    proof {
                        assert(sb =~= toks_view(stack@).push(top@));
                        assert(sb.drop_last() =~= toks_view(stack@));
                    }
                    if is_lparen {
                        break ;
                    }
                    proof {
                        lemma_toks_view_push(output_queue@, top);
                        assert(spec_pop_until_lparen(ob, sb) == spec_pop_until_lparen(
                            ob.push(top@),
                            sb.drop_last(),
                        ));
                    }
                    output_queue.push(top);
                }
            },
            _ => {},
        }
        i = i + 1;
    }
    // The input is exhausted: drain what operators remain.
    let ghost pre_out = toks_view(output_queue@);
    let ghost pre_stack = toks_view(stack@);
    proof {
        assert(goal == spec_drain(pre_out, pre_stack));
    }
    loop
        invariant
            goal == spec_transform(toks_view(input_queue@), 0, Seq::empty(), Seq::empty()),
            goal == spec_drain(pre_out, pre_stack),
            spec_drain(pre_out, pre_stack) == spec_drain(
                toks_view(output_queue@),
                toks_view(stack@),
            ),
        ensures
            match goal {
                Ok(out) => toks_view(output_queue@) == out && stack@.len() == 0,
                Err(e) => false,
            },
        decreases stack.len(),
    {
        if stack.len() == 0 {
            break ;
        }
        let is_paren = matches!(&stack[stack.len() - 1], Token::LParen | Token::RParen);
        proof {
            assert(toks_view(stack@).last() == stack@.last()@);
        }
        let ghost sb = toks_view(stack@);
        let ghost ob = toks_view(output_queue@);
        let top = stack.pop().unwrap();
        proof {
            assert(sb =~= toks_view(stack@).push(top@));
            assert(sb.drop_last() =~= toks_view(stack@));
        }
        if is_paren {
            return Err(ExpressionError::UnmatchedParens);
        }
        proof {
            lemma_toks_view_push(output_queue@, top);
            assert(spec_drain(ob, sb) == spec_drain(ob.push(top@), sb.drop_last()));
        }
        output_queue.push(top);
    }
    Ok(output_queue)
}

} // verus!
