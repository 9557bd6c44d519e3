//! Evaluation of a token stream in reverse Polish order, over unsigned
//! 16-bit wrapping arithmetic.

use vstd::prelude::*;
use vstd::string::StringSliceAdditionalSpecFns;

use crate::assembler::errors::{ExpressionError, ExpressionErrorV};
use crate::assembler::expressions::lexer::toks_view;
use crate::assembler::expressions::token::{TokV, Token};

verus! {

/// One binary operator applied to two words.  Division by zero yields zero
/// (the evaluator rejects it before applying the operator); an unknown
/// operator symbol yields zero, as the evaluator admits none.
pub open spec fn spec_operate(o: u8, left: u16, right: u16) -> u16 {
    if o == 43 {
        left.wrapping_add(right)
    } else if o == 45 {
        left.wrapping_sub(right)
    } else if o == 42 {
        left.wrapping_mul(right)
    } else if o == 47 {
        if right == 0 {
            0u16
        } else {
            left / right
        }
    } else if o == 38 {
        left & right
    } else if o == 94 {
        left ^ right
    } else if o == 124 {
        left | right
    } else {
        0u16
    }
}

pub fn operate(operator: u8, left: u16, right: u16) -> (r: u16)
    ensures
        r == spec_operate(operator, left, right),
{
    if operator == 43 {
        left.wrapping_add(right)
    } else if operator == 45 {
        left.wrapping_sub(right)
    } else if operator == 42 {
        left.wrapping_mul(right)
    } else if operator == 47 {
        if right == 0 {
            0
        } else {
            left / right
        }
    } else if operator == 38 {
        left & right
    } else if operator == 94 {
        left ^ right
    } else if operator == 124 {
        left | right
    } else {
        0
    }
}

/// The final answer once the input is exhausted: the number on top of the
/// stack; an empty stack is a calculation error.
pub open spec fn spec_calc_final(stack: Seq<TokV>) -> Result<u16, ExpressionErrorV> {
    if stack.len() == 0 {
        Err(ExpressionErrorV::CalculationError)
    } else {
        match stack.last() {
            TokV::Number(n) => Ok(n),
            t => Err(ExpressionErrorV::NotANumber(t)),
        }
    }
}

/// The evaluator.  Numbers go on the stack; a binary operator takes the two
/// topmost numbers (a shortfall ends evaluation early, both operands
/// consumed); `NOT` and `NEG` rewrite the topmost number in place and
/// quietly drop a topmost non-number; everything else is skipped.  Division
/// by zero is a calculation error.
pub open spec fn spec_calculate(input: Seq<TokV>, i: int, stack: Seq<TokV>) -> Result<
    u16,
    ExpressionErrorV,
>
    decreases input.len() - i,
{
    if i < 0 || i >= input.len() {
        spec_calc_final(stack)
    } else {
        match input[i] {
            TokV::Number(n) => spec_calculate(input, i + 1, stack.push(TokV::Number(n))),
            TokV::Operator(o, a, p) => {
                if stack.len() >= 2 && stack.last() is Number && stack[stack.len() - 2]
                    is Number {
                    let right = stack.last()->Number_0;
                    let left = stack[stack.len() - 2]->Number_0;
                    if o == 47 && right == 0 {
                        Err(ExpressionErrorV::CalculationError)
                    } else {
                        spec_calculate(
                            input,
                            i + 1,
                            stack.drop_last().drop_last().push(
                                TokV::Number(spec_operate(o, left, right)),
                            ),
                        )
                    }
                } else {
                    // both popped operands are consumed before the early end
                    spec_calc_final(
                        if stack.len() >= 2 {
                            stack.drop_last().drop_last()
                        } else {
                            Seq::empty()
                        },
                    )
                }
            },
            TokV::Unary(u) => {
                if u == "NOT".spec_bytes() {
                    if stack.len() > 0 && stack.last() is Number {
                        let n = stack.last()->Number_0;
                        spec_calculate(input, i + 1, stack.drop_last().push(TokV::Number(!n)))
                    } else if stack.len() > 0 {
                        spec_calculate(input, i + 1, stack.drop_last())
                    } else {
                        spec_calculate(input, i + 1, stack)
                    }
                } else if u == "NEG".spec_bytes() {
                    if stack.len() > 0 && stack.last() is Number {
                        let n = stack.last()->Number_0;
                        spec_calculate(
                            input,
                            i + 1,
                            stack.drop_last().push(TokV::Number(0u16.wrapping_sub(n))),
                        )
                    } else if stack.len() > 0 {
                        spec_calculate(input, i + 1, stack.drop_last())
                    } else {
                        spec_calculate(input, i + 1, stack)
                    }
                } else {
                    Err(ExpressionErrorV::UnknownUnary(u))
                }
            },
            _ => spec_calculate(input, i + 1, stack),
        }
    }
}

/// Evaluate a reverse-Polish token stream to one word.
pub fn calculate(input_queue: &Vec<Token>) -> (r: Result<u16, ExpressionError>)
    ensures
        match spec_calculate(toks_view(input_queue@), 0, Seq::empty()) {
            Ok(v) => r is Ok && r->Ok_0 == v,
            Err(e) => r is Err && r->Err_0@ == e,
        },
{
    let ghost goal = spec_calculate(toks_view(input_queue@), 0, Seq::empty());
    let mut stack: Vec<u16> = Vec::new();
    let mut i: usize = 0;
    proof {
        assert(nums_view(stack@) =~= Seq::<TokV>::empty());
    }
    while i < input_queue.len()
        invariant
            goal == spec_calculate(toks_view(input_queue@), 0, Seq::empty()),
            i <= input_queue.len(),
            goal == spec_calculate(toks_view(input_queue@), i as int, nums_view(stack@)),
        decreases input_queue.len() - i,
    {
        let ghost pre = nums_view(stack@);
        proof {
            assert(toks_view(input_queue@)[i as int] == input_queue@[i as int]@);
        }
        let tok = &input_queue[i];
        match tok {
            Token::Number(n) => {
                proof {
                    assert(nums_view(stack@.push(*n)) =~= nums_view(stack@).push(
                        TokV::Number(*n),
                    ));
                }
                stack.push(*n);
            },
            Token::Operator(o, _, _) => {
                if stack.len() >= 2 {
                    proof {
                        assert(pre.last() == TokV::Number(stack@.last()));
                        assert(pre[pre.len() - 2] == TokV::Number(stack@[stack@.len() - 2]));
                    }
                    let right = stack.pop().unwrap();
                    let left = stack.pop().unwrap();
                    if *o == 47 && right == 0 {
                        return Err(ExpressionError::CalculationError);
                    }
                    let v = operate(*o, left, right);
                    proof {
                        assert(nums_view(stack@) =~= pre.drop_last().drop_last());
                        assert(nums_view(stack@.push(v)) =~= nums_view(stack@).push(
                            TokV::Number(v),
                        ));
                    }
                    stack.push(v);
                } else {
                    // operands missing: what exists is consumed and the
                    // empty stack ends evaluation early
                    return Err(ExpressionError::CalculationError);
                }
            },
            Token::Unary(u) => {
                if crate::util::bytes_eq(u.as_slice(), "NOT".as_bytes()) {
                    if stack.len() > 0 {
                        proof {
                            assert(pre.last() == TokV::Number(stack@.last()));
                        }
                        let n = stack.pop().unwrap();
                        let v = !n;
                        proof {
                            assert(nums_view(stack@) =~= pre.drop_last());
                            assert(nums_view(stack@.push(v)) =~= nums_view(stack@).push(
                                TokV::Number(v),
                            ));
                        }
                        stack.push(v);
                    }
                } else if crate::util::bytes_eq(u.as_slice(), "NEG".as_bytes()) {
                    if stack.len() > 0 {
                        proof {
                            assert(pre.last() == TokV::Number(stack@.last()));
                        }
                        let n = stack.pop().unwrap();
                        let v = 0u16.wrapping_sub(n);
                        proof {
                            assert(nums_view(stack@) =~= pre.drop_last());
                            assert(nums_view(stack@.push(v)) =~= nums_view(stack@).push(
                                TokV::Number(v),
                            ));
                        }
                        stack.push(v);
                    }
                } else {
                    return Err(ExpressionError::UnknownUnary(crate::util::bytes_copy(u)));
                }
            },
            _ => {},
        }
        i = i + 1;
    }
    // the stack's top is the answer
    if stack.len() == 0 {
        proof {
            assert(goal == spec_calc_final(nums_view(stack@)));
        }
        Err(ExpressionError::CalculationError)
    } else {
        let v = stack[stack.len() - 1];
        proof {
            assert(nums_view(stack@).last() == TokV::Number(v));
            assert(goal == spec_calc_final(nums_view(stack@)));
        }
        Ok(v)
    }
}

/// The evaluator's stack only ever holds numbers; this is its token image.
pub open spec fn nums_view(s: Seq<u16>) -> Seq<TokV> {
    s.map_values(|n: u16| TokV::Number(n))
}

} // verus!
