//! Parser for directive-form instructions such as `hello: .asciiz 'Hi'`.
//!
//! A directive's name is open-ended text: only `.data`, `.code` and
//! `.asciiz` have defined semantics, but any `.` followed by a word parses.

use vstd::prelude::*;
use vstd::string::StrSliceExecFns;

use crate::instruction_parsers::{
    label_prefix, parse_operands3, spec_label_prefix, spec_parse_operands, AssemblerInstruction,
    InstructionModel,
};
use crate::text::{scan_alpha, skip_ws, spec_scan_alpha, spec_skip_ws};
use crate::tokens::{opt_token_view, parsed_view, Token, TokenModel};

verus! {

/// The directive form after the label prefix: `.`, a word, then up to three
/// operands, then trailing whitespace.
pub open spec fn spec_directive_tail(s: Seq<char>, lab: Option<TokenModel>, i2: int) -> Option<
    (InstructionModel, int),
> {
    if 0 <= i2 < s.len() && s[i2] == '.' {
        let j = spec_scan_alpha(s, i2 + 1);
        if j == i2 + 1 {
            None
        } else {
            let (o1, o2, o3, k) = spec_parse_operands(s, j);
            let k2 = spec_skip_ws(s, k);
            Some(
                (
                    InstructionModel {
                        opcode: None,
                        label: lab,
                        directive: Some(TokenModel::Directive { name: s.subrange(i2 + 1, j) }),
                        operand1: o1,
                        operand2: o2,
                        operand3: o3,
                    },
                    k2,
                ),
            )
        }
    } else {
        None
    }
}

/// A directive-form instruction: `[label:] .word [operand]{0,3}`.
pub open spec fn spec_directive_combined(s: Seq<char>, i0: int) -> Option<
    (InstructionModel, int),
> {
    let (lab, i2) = spec_label_prefix(s, i0);
    spec_directive_tail(s, lab, i2)
}

/// Parses the directive form after an already-parsed label prefix.
pub fn directive_tail(s: &str, len: usize, lab: Option<Token>, at: usize) -> (r: Option<
    (AssemblerInstruction, usize),
>)
    requires
        len == s@.len(),
        at <= len,
    ensures
        parsed_view(r) == spec_directive_tail(s@, opt_token_view(lab), at as int),
        r is Some ==> at < r.unwrap().1 <= len,
{
    if at < len && s.get_char(at) == '.' {
        let j = scan_alpha(s, len, at + 1);
        if j == at + 1 {
            return None;
        }
        let name = s.substring_char(at + 1, j).to_owned();
        let (o1, o2, o3, k) = parse_operands3(s, len, j);
        let k2 = skip_ws(s, len, k);
        Some(
            (
                AssemblerInstruction {
                    opcode: None,
                    label: lab,
                    directive: Some(Token::Directive { name }),
                    operand1: o1,
                    operand2: o2,
                    operand3: o3,
                },
                k2,
            ),
        )
    } else {
        None
    }
}

/// Parser for directive-form instructions such as `test: .asciiz 'Hello'`.
pub fn directive_combined(s: &str, from: usize) -> (r: Option<(AssemblerInstruction, usize)>)
    requires
        from <= s@.len(),
    ensures
        parsed_view(r) == spec_directive_combined(s@, from as int),
        r is Some ==> from < r.unwrap().1 <= s@.len(),
{
    let len = s.unicode_len();
    let (lab, i2) = label_prefix(s, len, from);
    directive_tail(s, len, lab, i2)
}

} // verus!
