//! Parser for operation mnemonics.

use vstd::prelude::*;
use vstd::string::StrSliceExecFns;

use crate::instruction::{opcode_from_name, opcode_of};
use crate::text::{scan_alpha, skip_ws, spec_scan_alpha, spec_skip_ws};
use crate::tokens::{parsed_view, Token, TokenModel};

verus! {

/// An opcode token at `i`: at least one letter, resolved through the
/// mnemonic table. An unrecognized word still parses, as the illegal
/// sentinel opcode.
pub open spec fn spec_parse_opcode(s: Seq<char>, i: int) -> Option<(TokenModel, int)> {
    let j = spec_scan_alpha(s, i);
    if i < j {
        Some((TokenModel::Op { code: opcode_of(s.subrange(i, j)) }, j))
    } else {
        None
    }
}

/// Parses an opcode token at `at`, without skipping whitespace.
pub fn opcode_at(s: &str, len: usize, at: usize) -> (r: Option<(Token, usize)>)
    requires
        len == s@.len(),
        at <= len,
    ensures
        parsed_view(r) == spec_parse_opcode(s@, at as int),
        r is Some ==> at < r.unwrap().1 <= len,
{
    let j = scan_alpha(s, len, at);
    if at < j {
        let word = s.substring_char(at, j);
        Some((Token::Op { code: opcode_from_name(word) }, j))
    } else {
        None
    }
}

/// Parser for opcode tokens such as `load`, skipping leading whitespace and
/// comments.
pub fn opcode(s: &str, from: usize) -> (r: Option<(Token, usize)>)
    requires
        from <= s@.len(),
    ensures
        ({
            let i = spec_skip_ws(s@, from as int);
            parsed_view(r) == spec_parse_opcode(s@, i)
        }),
{
    let len = s.unicode_len();
    let i = skip_ws(s, len, from);
    opcode_at(s, len, i)
}

} // verus!
