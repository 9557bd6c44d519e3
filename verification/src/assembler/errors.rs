//! Errors of the assembler, its expression engine and the disassembler.
//!
//! Each enum has a ghost image with sequence-valued payloads, so that
//! contracts can state exactly which error an input produces.

use vstd::prelude::*;
use vstd::string::StringSliceAdditionalSpecFns;

use crate::assembler::expressions::token::{Token, TokV};
use crate::assembler::label::Label;

verus! {

#[derive(Debug, Clone, PartialEq)]
pub enum ExpressionError {
    UnprocessableChar(u8),
    UnknownIdentifier(Vec<u8>),
    NumberParseError,
    UnmatchedQuote(Vec<u8>),
    UnmatchedParens,
    UnknownEscape(u8),
    CalculationError,
    UnknownUnary(Vec<u8>),
    NotANumber(Token),
    MetaUsedInCalculation(Vec<u8>),
}

pub ghost enum ExpressionErrorV {
    UnprocessableChar(u8),
    UnknownIdentifier(Seq<u8>),
    NumberParseError,
    UnmatchedQuote(Seq<u8>),
    UnmatchedParens,
    UnknownEscape(u8),
    CalculationError,
    UnknownUnary(Seq<u8>),
    NotANumber(TokV),
    MetaUsedInCalculation(Seq<u8>),
}

impl View for ExpressionError {
    type V = ExpressionErrorV;

    open spec fn view(&self) -> ExpressionErrorV {
        match self {
            ExpressionError::UnprocessableChar(c) => ExpressionErrorV::UnprocessableChar(*c),
            ExpressionError::UnknownIdentifier(s) => ExpressionErrorV::UnknownIdentifier(s@),
            ExpressionError::NumberParseError => ExpressionErrorV::NumberParseError,
            ExpressionError::UnmatchedQuote(s) => ExpressionErrorV::UnmatchedQuote(s@),
            ExpressionError::UnmatchedParens => ExpressionErrorV::UnmatchedParens,
            ExpressionError::UnknownEscape(c) => ExpressionErrorV::UnknownEscape(*c),
            ExpressionError::CalculationError => ExpressionErrorV::CalculationError,
            ExpressionError::UnknownUnary(s) => ExpressionErrorV::UnknownUnary(s@),
            ExpressionError::NotANumber(t) => ExpressionErrorV::NotANumber(t@),
            ExpressionError::MetaUsedInCalculation(s) => ExpressionErrorV::MetaUsedInCalculation(
                s@,
            ),
        }
    }
}

#[derive(Debug, Clone, PartialEq)]
pub enum OpParseError {
    UnknownRegister,
    InvalidRegister,
    MovAsHalt,
    NoSuchInstruction(Vec<u8>),
}

pub ghost enum OpParseErrorV {
    UnknownRegister,
    InvalidRegister,
    MovAsHalt,
    NoSuchInstruction(Seq<u8>),
}

impl View for OpParseError {
    type V = OpParseErrorV;

    open spec fn view(&self) -> OpParseErrorV {
        match self {
            OpParseError::UnknownRegister => OpParseErrorV::UnknownRegister,
            OpParseError::InvalidRegister => OpParseErrorV::InvalidRegister,
            OpParseError::MovAsHalt => OpParseErrorV::MovAsHalt,
            OpParseError::NoSuchInstruction(s) => OpParseErrorV::NoSuchInstruction(s@),
        }
    }
}

#[derive(Debug, Clone, PartialEq)]
pub enum ParserError {
    ExpressionError(ExpressionError),
    UnknownDefine(Vec<u8>),
    NoArgsForVariadic,
    WrongNumberOfArgs(usize, usize),
    OperationRequiresLabel(Vec<u8>),
    InvalidArgument(Vec<u8>, Vec<u8>),
    UnterminatedString(Vec<u8>),
    InvalidLabel(Vec<u8>),
    LabelAlreadyDefined(Vec<u8>, Label),
    NoInstructionFound(OpParseError),
    OrigInMacro,
    DefineInMacro,
    NotInMacro,
    NestedMacro,
    MacroCallInMacroUsesSp,
    MacroUseBeforeCreation,
    RecursiveMacro,
    NoEndMacro,
    IfAndMacroMix,
    NestedIf,
    NotInIf,
    NoEndIf,
}

pub ghost enum ParserErrorV {
    ExpressionError(ExpressionErrorV),
    UnknownDefine(Seq<u8>),
    NoArgsForVariadic,
    WrongNumberOfArgs(usize, usize),
    OperationRequiresLabel(Seq<u8>),
    InvalidArgument(Seq<u8>, Seq<u8>),
    UnterminatedString(Seq<u8>),
    InvalidLabel(Seq<u8>),
    LabelAlreadyDefined(Seq<u8>, Label),
    NoInstructionFound(OpParseErrorV),
    OrigInMacro,
    DefineInMacro,
    NotInMacro,
    NestedMacro,
    MacroCallInMacroUsesSp,
    MacroUseBeforeCreation,
    RecursiveMacro,
    NoEndMacro,
    IfAndMacroMix,
    NestedIf,
    NotInIf,
    NoEndIf,
}

impl View for ParserError {
    type V = ParserErrorV;

    open spec fn view(&self) -> ParserErrorV {
        match self {
            ParserError::ExpressionError(e) => ParserErrorV::ExpressionError(e@),
            ParserError::UnknownDefine(s) => ParserErrorV::UnknownDefine(s@),
            ParserError::NoArgsForVariadic => ParserErrorV::NoArgsForVariadic,
            ParserError::WrongNumberOfArgs(a, b) => ParserErrorV::WrongNumberOfArgs(*a, *b),
            ParserError::OperationRequiresLabel(s) => ParserErrorV::OperationRequiresLabel(s@),
            ParserError::InvalidArgument(a, b) => ParserErrorV::InvalidArgument(a@, b@),
            ParserError::UnterminatedString(s) => ParserErrorV::UnterminatedString(s@),
            ParserError::InvalidLabel(s) => ParserErrorV::InvalidLabel(s@),
            ParserError::LabelAlreadyDefined(s, l) => ParserErrorV::LabelAlreadyDefined(s@, *l),
            ParserError::NoInstructionFound(e) => ParserErrorV::NoInstructionFound(e@),
            ParserError::OrigInMacro => ParserErrorV::OrigInMacro,
            ParserError::DefineInMacro => ParserErrorV::DefineInMacro,
            ParserError::NotInMacro => ParserErrorV::NotInMacro,
            ParserError::NestedMacro => ParserErrorV::NestedMacro,
            ParserError::MacroCallInMacroUsesSp => ParserErrorV::MacroCallInMacroUsesSp,
            ParserError::MacroUseBeforeCreation => ParserErrorV::MacroUseBeforeCreation,
            ParserError::RecursiveMacro => ParserErrorV::RecursiveMacro,
            ParserError::NoEndMacro => ParserErrorV::NoEndMacro,
            ParserError::IfAndMacroMix => ParserErrorV::IfAndMacroMix,
            ParserError::NestedIf => ParserErrorV::NestedIf,
            ParserError::NotInIf => ParserErrorV::NotInIf,
            ParserError::NoEndIf => ParserErrorV::NoEndIf,
        }
    }
}

#[derive(Debug, Clone, PartialEq)]
pub enum CodeGenError {
    ParserError(ParserError),
    UnexpectedLength(usize, usize),
}

pub ghost enum CodeGenErrorV {
    ParserError(ParserErrorV),
    UnexpectedLength(usize, usize),
}

impl View for CodeGenError {
    type V = CodeGenErrorV;

    open spec fn view(&self) -> CodeGenErrorV {
        match self {
            CodeGenError::ParserError(e) => CodeGenErrorV::ParserError(e@),
            CodeGenError::UnexpectedLength(a, b) => CodeGenErrorV::UnexpectedLength(*a, *b),
        }
    }
}

#[derive(Debug, Clone, PartialEq)]
pub enum AssemblerError {
    ParserError(ParserError),
    CodeGenError(CodeGenError),
}

pub ghost enum AssemblerErrorV {
    ParserError(ParserErrorV),
    CodeGenError(CodeGenErrorV),
}

impl View for AssemblerError {
    type V = AssemblerErrorV;

    open spec fn view(&self) -> AssemblerErrorV {
        match self {
            AssemblerError::ParserError(e) => AssemblerErrorV::ParserError(e@),
            AssemblerError::CodeGenError(e) => AssemblerErrorV::CodeGenError(e@),
        }
    }
}

#[derive(Debug, Clone, PartialEq)]
pub enum DisassembleError {
    NoRemainingBytes(usize),
    NotEnoughBytes(usize, &'static str, Vec<u8>),
    UnknownError(usize, Vec<u8>),
}

pub ghost enum DisassembleErrorV {
    NoRemainingBytes(usize),
    NotEnoughBytes(usize, Seq<u8>, Seq<u8>),
    UnknownError(usize, Seq<u8>),
}

impl View for DisassembleError {
    type V = DisassembleErrorV;

    open spec fn view(&self) -> DisassembleErrorV {
        match self {
            DisassembleError::NoRemainingBytes(a) => DisassembleErrorV::NoRemainingBytes(*a),
            DisassembleError::NotEnoughBytes(a, s, v) => DisassembleErrorV::NotEnoughBytes(
                *a,
                s.spec_bytes(),
                v@,
            ),
            DisassembleError::UnknownError(a, v) => DisassembleErrorV::UnknownError(*a, v@),
        }
    }
}

} // verus!
