//! Structured diagnostics. Grammar failures and the section-count check are
//! fail-fast; the other kinds are accumulated during the first pass so the
//! caller receives a complete batch in one report.

use vstd::prelude::*;

verus! {

/// One assembly diagnostic.
#[derive(Debug, PartialEq)]
pub enum AssemblerError {
    /// The source text could not be parsed into a program at all.
    ParseError { error: String },
    /// A label was declared before any section directive was seen; carries
    /// the offending instruction index.
    NoSegmentDeclarationFound { instruction: u32 },
    /// An `.asciiz` directive has no label of its own; carries the offending
    /// instruction index.
    StringConstantDeclaredWithoutLabel { instruction: u32 },
    /// A label name collides with an existing symbol table entry.
    SymbolAlreadyDeclared,
    /// The program does not contain exactly two section directives.
    InsufficientSections,
}

/// The mathematical model of a diagnostic.
pub enum ErrorModel {
    ParseError { error: Seq<char> },
    NoSegmentDeclarationFound { instruction: u32 },
    StringConstantDeclaredWithoutLabel { instruction: u32 },
    SymbolAlreadyDeclared,
    InsufficientSections,
}

impl View for AssemblerError {
    type V = ErrorModel;

    open spec fn view(&self) -> ErrorModel {
        match self {
            AssemblerError::ParseError { error } => ErrorModel::ParseError { error: error@ },
            AssemblerError::NoSegmentDeclarationFound { instruction } =>
                ErrorModel::NoSegmentDeclarationFound { instruction: *instruction },
            AssemblerError::StringConstantDeclaredWithoutLabel { instruction } =>
                ErrorModel::StringConstantDeclaredWithoutLabel { instruction: *instruction },
            AssemblerError::SymbolAlreadyDeclared => ErrorModel::SymbolAlreadyDeclared,
            AssemblerError::InsufficientSections => ErrorModel::InsufficientSections,
        }
    }
}

impl Clone for AssemblerError {
    /// A clone is equal to the original.
    fn clone(&self) -> (r: Self)
        ensures
            r == *self,
    {
        match self {
            AssemblerError::ParseError { error } => AssemblerError::ParseError {
                error: error.clone(),
            },
            AssemblerError::NoSegmentDeclarationFound { instruction } =>
                AssemblerError::NoSegmentDeclarationFound { instruction: *instruction },
            AssemblerError::StringConstantDeclaredWithoutLabel { instruction } =>
                AssemblerError::StringConstantDeclaredWithoutLabel { instruction: *instruction },
            AssemblerError::SymbolAlreadyDeclared => AssemblerError::SymbolAlreadyDeclared,
            AssemblerError::InsufficientSections => AssemblerError::InsufficientSections,
        }
    }
}

/// The model of a diagnostic list.
pub open spec fn errors_view(v: Seq<AssemblerError>) -> Seq<ErrorModel> {
    Seq::new(v.len(), |i: int| v[i]@)
}

/// Copies a diagnostic list, so the accumulated batch can be handed to the
/// caller while the assembler keeps its state.
pub fn clone_errors(v: &Vec<AssemblerError>) -> (r: Vec<AssemblerError>)
    ensures
        r@.len() == v@.len(),
        errors_view(r@) =~= errors_view(v@),
{
    let mut out: Vec<AssemblerError> = Vec::new();
    let n = v.len();
    let mut i: usize = 0;
    while i < n
        invariant
            n == v@.len(),
            i <= n,
            out@.len() == i,
            forall|j: int| 0 <= j < i ==> out@[j] == v@[j],
        decreases n - i,
    {
        out.push(v[i].clone());
        i = i + 1;
    }
    out
}

} // verus!
