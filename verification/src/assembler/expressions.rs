//! The expression engine: lexer, shunting-yard transform and RPN evaluator
//! over unsigned 16-bit wrapping arithmetic.

pub mod lexer;
pub mod parser;
pub mod rpn;
pub mod shunting_yard;
pub mod token;
