//! Parser for label declarations: an identifier immediately followed by `:`
//! at the head of an instruction.

use vstd::prelude::*;
use vstd::string::StrSliceExecFns;

use crate::text::{scan_ident, skip_ws, spec_scan_ident, spec_skip_ws};
use crate::tokens::{parsed_view, Token, TokenModel};

verus! {

/// A label declaration at `i`: at least one identifier character, then `:`.
pub open spec fn spec_parse_label_decl(s: Seq<char>, i: int) -> Option<(Seq<char>, int)> {
    let j = spec_scan_ident(s, i);
    if i < j && j < s.len() && s[j] == ':' {
        Some((s.subrange(i, j), j + 1))
    } else {
        None
    }
}

/// Parses a label declaration at `at`, without skipping whitespace.
pub fn label_decl_at(s: &str, len: usize, at: usize) -> (r: Option<(String, usize)>)
    requires
        len == s@.len(),
        at <= len,
    ensures
        parsed_view(r) == spec_parse_label_decl(s@, at as int),
        r is Some ==> at < r.unwrap().1 <= len,
{
    let j = scan_ident(s, len, at);
    if at < j && j < len && s.get_char(j) == ':' {
        let name = s.substring_char(at, j).to_owned();
        Some((name, j + 1))
    } else {
        None
    }
}

/// Parser for label declarations such as `test:`, skipping leading
/// whitespace and comments.
pub fn label_declaration(s: &str, from: usize) -> (r: Option<(Token, usize)>)
    requires
        from <= s@.len(),
    ensures
        ({
            let i = spec_skip_ws(s@, from as int);
            parsed_view(r) == match spec_parse_label_decl(s@, i) {
                Some((n, j)) => Some((TokenModel::LabelDeclaration { name: n }, j)),
                None => None::<(TokenModel, int)>,
            }
        }),
{
    let len = s.unicode_len();
    let i = skip_ws(s, len, from);
    match label_decl_at(s, len, i) {
        Some((n, j)) => Some((Token::LabelDeclaration { name: n }, j)),
        None => None,
    }
}

} // verus!
