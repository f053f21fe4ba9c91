//! The lexical categories of the assembly language, and their spec-level
//! model over character sequences.

use vstd::prelude::*;

use crate::instruction::Opcode;

verus! {

/// One lexical token. Tokens are immutable values; equality is structural.
#[derive(Debug, PartialEq)]
pub enum Token {
    /// An operation mnemonic, already resolved through the mnemonic table.
    Op { code: Opcode },
    /// `$` followed by digits: a register index.
    Register { reg_num: u8 },
    /// `#` followed by optionally signed digits: an integer literal.
    IntegerOperand { value: i32 },
    /// An identifier immediately followed by `:` at the head of a line.
    LabelDeclaration { name: String },
    /// `@` followed by an identifier, used where a value is expected.
    LabelUsage { name: String },
    /// `.` followed by a word: an assembler directive.
    Directive { name: String },
    /// A single-quote-delimited string constant, without escape processing.
    IrString { name: String },
}

/// The mathematical model of a token: the same shape, with names as
/// character sequences.
pub enum TokenModel {
    Op { code: Opcode },
    Register { reg_num: u8 },
    IntegerOperand { value: i32 },
    LabelDeclaration { name: Seq<char> },
    LabelUsage { name: Seq<char> },
    Directive { name: Seq<char> },
    IrString { name: Seq<char> },
}

impl View for Token {
    type V = TokenModel;

    open spec fn view(&self) -> TokenModel {
        match self {
            Token::Op { code } => TokenModel::Op { code: *code },
            Token::Register { reg_num } => TokenModel::Register { reg_num: *reg_num },
            Token::IntegerOperand { value } => TokenModel::IntegerOperand { value: *value },
            Token::LabelDeclaration { name } => TokenModel::LabelDeclaration { name: name@ },
            Token::LabelUsage { name } => TokenModel::LabelUsage { name: name@ },
            Token::Directive { name } => TokenModel::Directive { name: name@ },
            Token::IrString { name } => TokenModel::IrString { name: name@ },
        }
    }
}

/// The model of an optional token.
pub open spec fn opt_token_view(t: Option<Token>) -> Option<TokenModel> {
    match t {
        Some(tok) => Some(tok@),
        None => None,
    }
}

/// The model of a parser result: the parsed value's view, with the resume
/// position widened to `int`.
pub open spec fn parsed_view<T: View>(r: Option<(T, usize)>) -> Option<(T::V, int)> {
    match r {
        Some((t, p)) => Some((t@, p as int)),
        None => None,
    }
}

} // verus!
