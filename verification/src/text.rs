//! Character classes and low-level text scanning shared by the parsers.
//!
//! Every executable scanner here mirrors a specification function over the
//! string's view, so the grammar's meaning lives entirely at the spec level.

use vstd::prelude::*;
use vstd::string::StrSliceExecFns;

verus! {

/// Whitespace between tokens: space, tab, carriage return, newline.
pub open spec fn is_space_char(c: char) -> bool {
    c == ' ' || c == '\t' || c == '\r' || c == '\n'
}

/// An ASCII decimal digit.
pub open spec fn is_digit_char(c: char) -> bool {
    '0' <= c && c <= '9'
}

/// An ASCII letter.
pub open spec fn is_alpha_char(c: char) -> bool {
    ('a' <= c && c <= 'z') || ('A' <= c && c <= 'Z')
}

/// A character allowed inside a label identifier.
pub open spec fn is_ident_char(c: char) -> bool {
    is_alpha_char(c) || is_digit_char(c) || c == '_'
}

pub fn ex_is_space(c: char) -> (r: bool)
    ensures
        r == is_space_char(c),
{
    c == ' ' || c == '\t' || c == '\r' || c == '\n'
}

pub fn ex_is_digit(c: char) -> (r: bool)
    ensures
        r == is_digit_char(c),
{
    '0' <= c && c <= '9'
}

pub fn ex_is_alpha(c: char) -> (r: bool)
    ensures
        r == is_alpha_char(c),
{
    ('a' <= c && c <= 'z') || ('A' <= c && c <= 'Z')
}

pub fn ex_is_ident(c: char) -> (r: bool)
    ensures
        r == is_ident_char(c),
{
    ex_is_alpha(c) || ex_is_digit(c) || c == '_'
}

/// Whether two string slices hold the same characters.
pub fn str_eq(a: &str, b: &str) -> (r: bool)
    ensures
        r == (a@ == b@),
{
    let la = a.unicode_len();
    let lb = b.unicode_len();
    if la != lb {
        assert(a@ != b@);
        return false;
    }
    let mut i: usize = 0;
    while i < la
        invariant
            la == a@.len(),
            la == b@.len(),
            i <= la,
            forall|j: int| 0 <= j < i ==> a@[j] == b@[j],
        decreases la - i,
    {
        if a.get_char(i) != b.get_char(i) {
            return false;
        }
        i = i + 1;
    }
    assert(a@ =~= b@);
    true
}

/// Position of the first character at or after `i` that is neither
/// whitespace nor inside a comment; a `;` opens a comment that runs to the
/// end of the line.
pub open spec fn spec_skip_ws(s: Seq<char>, i: int) -> int
    decreases s.len() - i,
{
    if 0 <= i < s.len() {
        if is_space_char(s[i]) {
            spec_skip_ws(s, i + 1)
        } else if s[i] == ';' {
            spec_skip_comment(s, i + 1)
        } else {
            i
        }
    } else {
        i
    }
}

/// Position scanning inside a comment: everything up to and including the
/// next newline belongs to the comment.
pub open spec fn spec_skip_comment(s: Seq<char>, i: int) -> int
    decreases s.len() - i,
{
    if 0 <= i < s.len() {
        if s[i] == '\n' {
            spec_skip_ws(s, i + 1)
        } else {
            spec_skip_comment(s, i + 1)
        }
    } else {
        i
    }
}

/// End of the run of identifier characters starting at `i`.
pub open spec fn spec_scan_ident(s: Seq<char>, i: int) -> int
    decreases s.len() - i,
{
    if 0 <= i < s.len() && is_ident_char(s[i]) {
        spec_scan_ident(s, i + 1)
    } else {
        i
    }
}

/// End of the run of letters starting at `i`.
pub open spec fn spec_scan_alpha(s: Seq<char>, i: int) -> int
    decreases s.len() - i,
{
    if 0 <= i < s.len() && is_alpha_char(s[i]) {
        spec_scan_alpha(s, i + 1)
    } else {
        i
    }
}

/// End of the run of digits starting at `i`.
pub open spec fn spec_scan_digits(s: Seq<char>, i: int) -> int
    decreases s.len() - i,
{
    if 0 <= i < s.len() && is_digit_char(s[i]) {
        spec_scan_digits(s, i + 1)
    } else {
        i
    }
}

/// Position of the first `'` at or after `i`, or the end of the text.
pub open spec fn spec_scan_quote(s: Seq<char>, i: int) -> int
    decreases s.len() - i,
{
    if 0 <= i < s.len() {
        if s[i] == '\'' {
            i
        } else {
            spec_scan_quote(s, i + 1)
        }
    } else {
        i
    }
}

pub proof fn lemma_skip_ws_bounds(s: Seq<char>, i: int)
    requires
        0 <= i <= s.len(),
    ensures
        i <= spec_skip_ws(s, i) <= s.len(),
    decreases s.len() - i,
{
    if i < s.len() {
        if is_space_char(s[i]) {
            lemma_skip_ws_bounds(s, i + 1);
        } else if s[i] == ';' {
            lemma_skip_comment_bounds(s, i + 1);
        }
    }
}

pub proof fn lemma_skip_comment_bounds(s: Seq<char>, i: int)
    requires
        0 <= i <= s.len(),
    ensures
        i <= spec_skip_comment(s, i) <= s.len(),
    decreases s.len() - i,
{
    if i < s.len() {
        if s[i] == '\n' {
            lemma_skip_ws_bounds(s, i + 1);
        } else {
            lemma_skip_comment_bounds(s, i + 1);
        }
    }
}

/// Skips whitespace and comments starting at `from`.
pub fn skip_ws(s: &str, len: usize, from: usize) -> (r: usize)
    requires
        len == s@.len(),
        from <= len,
    ensures
        r == spec_skip_ws(s@, from as int),
        from <= r <= len,
{
    let mut i: usize = from;
    let mut in_comment: bool = false;
    loop
        invariant
            len == s@.len(),
            from <= i <= len,
            if in_comment {
                spec_skip_ws(s@, from as int) == spec_skip_comment(s@, i as int)
            } else {
                spec_skip_ws(s@, from as int) == spec_skip_ws(s@, i as int)
            },
        decreases 2 * (len - i) + (if in_comment { 1int } else { 0int }),
    {
        if i == len {
            proof {
                if in_comment {
                    lemma_skip_comment_bounds(s@, i as int);
                } else {
                    lemma_skip_ws_bounds(s@, i as int);
                }
            }
            return i;
        }
        let c = s.get_char(i);
        if in_comment {
            if c == '\n' {
                in_comment = false;
            }
            i = i + 1;
        } else {
            if ex_is_space(c) {
                i = i + 1;
            } else if c == ';' {
                in_comment = true;
                i = i + 1;
            } else {
                return i;
            }
        }
    }
}

/// End of the identifier-character run starting at `from`.
pub fn scan_ident(s: &str, len: usize, from: usize) -> (r: usize)
    requires
        len == s@.len(),
        from <= len,
    ensures
        r == spec_scan_ident(s@, from as int),
        from <= r <= len,
{
    let mut i: usize = from;
    while i < len && ex_is_ident(s.get_char(i))
        invariant
            len == s@.len(),
            from <= i <= len,
            spec_scan_ident(s@, from as int) == spec_scan_ident(s@, i as int),
        decreases len - i,
    {
        i = i + 1;
    }
    i
}

/// End of the letter run starting at `from`.
pub fn scan_alpha(s: &str, len: usize, from: usize) -> (r: usize)
    requires
        len == s@.len(),
        from <= len,
    ensures
        r == spec_scan_alpha(s@, from as int),
        from <= r <= len,
{
    let mut i: usize = from;
    while i < len && ex_is_alpha(s.get_char(i))
        invariant
            len == s@.len(),
            from <= i <= len,
            spec_scan_alpha(s@, from as int) == spec_scan_alpha(s@, i as int),
        decreases len - i,
    {
        i = i + 1;
    }
    i
}

/// Position of the first `'` at or after `from`, or the end of the text.
pub fn scan_quote(s: &str, len: usize, from: usize) -> (r: usize)
    requires
        len == s@.len(),
        from <= len,
    ensures
        r == spec_scan_quote(s@, from as int),
        from <= r <= len,
{
    let mut i: usize = from;
    while i < len && s.get_char(i) != '\''
        invariant
            len == s@.len(),
            from <= i <= len,
            spec_scan_quote(s@, from as int) == spec_scan_quote(s@, i as int),
        decreases len - i,
    {
        i = i + 1;
    }
    i
}

} // verus!
