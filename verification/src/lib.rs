//! A two-pass assembler for a small register machine.
//!
//! Source text is tokenized and parsed into a sequence of instructions,
//! labels are resolved through a symbol table in a first pass, and a second
//! pass serializes each opcode instruction into a fixed-width four-byte word,
//! prefixed by a fixed-format header.

use vstd::prelude::*;

pub mod assembler;
pub mod directive_parsers;
pub mod errors;
pub mod instruction;
pub mod instruction_parsers;
pub mod label_parsers;
pub mod laws;
pub mod opcode_parsers;
pub mod operand_parsers;
pub mod program_parsers;
pub mod symbols;
pub mod text;
pub mod tokens;

verus! {

/// The magic bytes that open every assembled artifact.
pub const PIE_HEADER_PREFIX: [u8; 4] = [45, 50, 49, 45];

/// Offset of the last zero-padding byte of the header; the body starts one
/// byte after it.
pub const PIE_HEADER_LENGTH: usize = 64;

} // verus!
