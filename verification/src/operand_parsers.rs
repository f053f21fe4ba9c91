//! Parsers for operand tokens: integer literals, label usages, registers and
//! string constants. Each operand form opens with an unambiguous sigil
//! (`#`, `@`, `$`, `'`), and the alternation order is integer, label usage,
//! register, string.

use vstd::prelude::*;
use vstd::string::StrSliceExecFns;

use crate::text::{
    ex_is_digit, is_digit_char, scan_ident, scan_quote, skip_ws, spec_scan_digits, spec_scan_ident,
    spec_scan_quote, spec_skip_ws,
};
use crate::tokens::{parsed_view, Token, TokenModel};

verus! {

/// The value of the digit run `s[i..j]`, read in base ten.
pub open spec fn spec_digits_value(s: Seq<char>, i: int, j: int) -> int
    decreases j - i,
{
    if i < j {
        spec_digits_value(s, i, j - 1) * 10 + (s[j - 1] as int - 48)
    } else {
        0
    }
}

pub proof fn lemma_digits_value_nonneg(s: Seq<char>, i: int, j: int)
    requires
        0 <= i <= j <= s.len(),
        forall|k: int| i <= k < j ==> is_digit_char(s[k]),
    ensures
        spec_digits_value(s, i, j) >= 0,
    decreases j - i,
{
    if i < j {
        lemma_digits_value_nonneg(s, i, j - 1);
        assert(spec_digits_value(s, i, j - 1) * 10 >= 0) by (nonlinear_arith)
            requires
                spec_digits_value(s, i, j - 1) >= 0,
        ;
    }
}

/// Scans the digit run starting at `from` and accumulates its value.
/// Returns the end of the run, the value, and an overflow mark; when the
/// mark is set the true value exceeds `0x8000_0000`.
pub fn scan_digits_value(s: &str, len: usize, from: usize) -> (r: (usize, u64, bool))
    requires
        len == s@.len(),
        from <= len,
    ensures
        r.0 == spec_scan_digits(s@, from as int),
        from <= r.0 <= len,
        forall|k: int| from <= k < r.0 ==> is_digit_char(s@[k]),
        !r.2 ==> r.1 == spec_digits_value(s@, from as int, r.0 as int) && r.1 <= 0x8000_0000,
        r.2 ==> spec_digits_value(s@, from as int, r.0 as int) > 0x8000_0000,
{
    let mut i: usize = from;
    let mut acc: u64 = 0;
    let mut over: bool = false;
    while i < len && ex_is_digit(s.get_char(i))
        invariant
            len == s@.len(),
            from <= i <= len,
            spec_scan_digits(s@, from as int) == spec_scan_digits(s@, i as int),
            forall|k: int| from <= k < i ==> is_digit_char(s@[k]),
            !over ==> acc == spec_digits_value(s@, from as int, i as int) && acc <= 0x8000_0000,
            over ==> spec_digits_value(s@, from as int, i as int) > 0x8000_0000,
        decreases len - i,
    {
        let c = s.get_char(i);
        let d: u64 = (c as u64) - 48;
        proof {
            assert(spec_digits_value(s@, from as int, i + 1) == spec_digits_value(
                s@,
                from as int,
                i as int,
            ) * 10 + (s@[i as int] as int - 48));
        }
        if over {
            proof {
                assert(spec_digits_value(s@, from as int, i + 1) > 0x8000_0000) by (
                nonlinear_arith)
                    requires
                        spec_digits_value(s@, from as int, i as int) > 0x8000_0000,
                        spec_digits_value(s@, from as int, i + 1) == spec_digits_value(
                            s@,
                            from as int,
                            i as int,
                        ) * 10 + (s@[i as int] as int - 48),
                        s@[i as int] as int - 48 >= 0,
                ;
            }
        } else {
            let next: u64 = acc * 10 + d;
            if next > 0x8000_0000 {
                over = true;
            } else {
                acc = next;
            }
        }
        i = i + 1;
    }
    (i, acc, over)
}

/// An integer literal at `i`: `#`, an optional `-`, then at least one digit.
/// The value must fit a 32-bit signed integer; range reduction to 16 bits
/// happens at encode time, not here.
pub open spec fn spec_parse_integer(s: Seq<char>, i: int) -> Option<(i32, int)> {
    if 0 <= i < s.len() && s[i] == '#' {
        let neg = i + 1 < s.len() && s[i + 1] == '-';
        let d0 = if neg {
            i + 2
        } else {
            i + 1
        };
        let j = spec_scan_digits(s, d0);
        if j == d0 {
            None
        } else {
            let mag = spec_digits_value(s, d0, j);
            let v = if neg {
                -mag
            } else {
                mag
            };
            if -0x8000_0000 <= v <= 0x7FFF_FFFF {
                Some((v as i32, j))
            } else {
                None
            }
        }
    } else {
        None
    }
}

fn parse_integer_at(s: &str, len: usize, at: usize) -> (r: Option<(i32, usize)>)
    requires
        len == s@.len(),
        at <= len,
    ensures
        parsed_view_i32(r) == spec_parse_integer(s@, at as int),
        r is Some ==> at < r.unwrap().1 <= len,
{
    if at >= len || s.get_char(at) != '#' {
        return None;
    }
    let neg = at + 1 < len && s.get_char(at + 1) == '-';
    let d0 = if neg {
        at + 2
    } else {
        at + 1
    };
    let (end, acc, over) = scan_digits_value(s, len, d0);
    if end == d0 {
        return None;
    }
    proof {
        lemma_digits_value_nonneg(s@, d0 as int, end as int);
    }
    if over {
        return None;
    }
    if neg {
        let v: i32 = if acc == 0x8000_0000 {
            i32::MIN
        } else {
            -(acc as i32)
        };
        Some((v, end))
    } else {
        if acc <= 0x7FFF_FFFF {
            Some((acc as i32, end))
        } else {
            None
        }
    }
}

/// The view of an integer parser result.
pub open spec fn parsed_view_i32(r: Option<(i32, usize)>) -> Option<(i32, int)> {
    match r {
        Some((v, p)) => Some((v, p as int)),
        None => None,
    }
}

/// The view of a register parser result.
pub open spec fn parsed_view_u8(r: Option<(u8, usize)>) -> Option<(u8, int)> {
    match r {
        Some((v, p)) => Some((v, p as int)),
        None => None,
    }
}

/// A register operand at `i`: `$` then at least one digit; the index must
/// fit a byte.
pub open spec fn spec_parse_register(s: Seq<char>, i: int) -> Option<(u8, int)> {
    if 0 <= i < s.len() && s[i] == '$' {
        let j = spec_scan_digits(s, i + 1);
        if j == i + 1 {
            None
        } else {
            let v = spec_digits_value(s, i + 1, j);
            if v <= 255 {
                Some((v as u8, j))
            } else {
                None
            }
        }
    } else {
        None
    }
}

fn parse_register_at(s: &str, len: usize, at: usize) -> (r: Option<(u8, usize)>)
    requires
        len == s@.len(),
        at <= len,
    ensures
        parsed_view_u8(r) == spec_parse_register(s@, at as int),
        r is Some ==> at < r.unwrap().1 <= len,
{
    if at >= len || s.get_char(at) != '$' {
        return None;
    }
    let (end, acc, over) = scan_digits_value(s, len, at + 1);
    if end == at + 1 {
        return None;
    }
    proof {
        lemma_digits_value_nonneg(s@, at + 1, end as int);
    }
    if over || acc > 255 {
        return None;
    }
    Some((acc as u8, end))
}

/// A label usage at `i`: `@` then at least one identifier character.
pub open spec fn spec_parse_label_usage(s: Seq<char>, i: int) -> Option<(Seq<char>, int)> {
    if 0 <= i < s.len() && s[i] == '@' {
        let j = spec_scan_ident(s, i + 1);
        if j == i + 1 {
            None
        } else {
            Some((s.subrange(i + 1, j), j))
        }
    } else {
        None
    }
}

fn parse_label_usage_at(s: &str, len: usize, at: usize) -> (r: Option<(String, usize)>)
    requires
        len == s@.len(),
        at <= len,
    ensures
        parsed_view(r) == spec_parse_label_usage(s@, at as int),
        r is Some ==> at < r.unwrap().1 <= len,
{
    if at >= len || s.get_char(at) != '@' {
        return None;
    }
    let j = scan_ident(s, len, at + 1);
    if j == at + 1 {
        return None;
    }
    let name = s.substring_char(at + 1, j).to_owned();
    Some((name, j))
}

/// A string constant at `i`: a `'`, the content, then the closing `'`.
/// There is no escape processing; a missing closing quote fails the match.
pub open spec fn spec_parse_irstring(s: Seq<char>, i: int) -> Option<(Seq<char>, int)> {
    if 0 <= i < s.len() && s[i] == '\'' {
        let q = spec_scan_quote(s, i + 1);
        if q < s.len() {
            Some((s.subrange(i + 1, q), q + 1))
        } else {
            None
        }
    } else {
        None
    }
}

fn parse_irstring_at(s: &str, len: usize, at: usize) -> (r: Option<(String, usize)>)
    requires
        len == s@.len(),
        at <= len,
    ensures
        parsed_view(r) == spec_parse_irstring(s@, at as int),
        r is Some ==> at < r.unwrap().1 <= len,
{
    if at >= len || s.get_char(at) != '\'' {
        return None;
    }
    let q = scan_quote(s, len, at + 1);
    if q >= len {
        return None;
    }
    let name = s.substring_char(at + 1, q).to_owned();
    Some((name, q + 1))
}

/// Any operand after optional whitespace. The alternation order is integer,
/// label usage, register, string; the sigils are disjoint, so the order only
/// fixes which parser runs, never which token results.
pub open spec fn spec_parse_operand(s: Seq<char>, i0: int) -> Option<(TokenModel, int)> {
    let i = spec_skip_ws(s, i0);
    match spec_parse_integer(s, i) {
        Some((v, j)) => Some((TokenModel::IntegerOperand { value: v }, j)),
        None => match spec_parse_label_usage(s, i) {
            Some((n, j)) => Some((TokenModel::LabelUsage { name: n }, j)),
            None => match spec_parse_register(s, i) {
                Some((v, j)) => Some((TokenModel::Register { reg_num: v }, j)),
                None => match spec_parse_irstring(s, i) {
                    Some((n, j)) => Some((TokenModel::IrString { name: n }, j)),
                    None => None,
                },
            },
        },
    }
}

/// Parses one operand, skipping leading whitespace and comments.
pub fn operand_at(s: &str, len: usize, from: usize) -> (r: Option<(Token, usize)>)
    requires
        len == s@.len(),
        from <= len,
    ensures
        parsed_view(r) == spec_parse_operand(s@, from as int),
        r is Some ==> from <= r.unwrap().1 <= len,
{
    let i = skip_ws(s, len, from);
    if let Some((v, j)) = parse_integer_at(s, len, i) {
        return Some((Token::IntegerOperand { value: v }, j));
    }
    if let Some((n, j)) = parse_label_usage_at(s, len, i) {
        return Some((Token::LabelUsage { name: n }, j));
    }
    if let Some((v, j)) = parse_register_at(s, len, i) {
        return Some((Token::Register { reg_num: v }, j));
    }
    if let Some((n, j)) = parse_irstring_at(s, len, i) {
        return Some((Token::IrString { name: n }, j));
    }
    None
}

/// Parser for integer literal operands such as `#100`.
pub fn integer_operand(s: &str, from: usize) -> (r: Option<(Token, usize)>)
    requires
        from <= s@.len(),
    ensures
        ({
            let i = spec_skip_ws(s@, from as int);
            parsed_view(r) == match spec_parse_integer(s@, i) {
                Some((v, j)) => Some((TokenModel::IntegerOperand { value: v }, j)),
                None => None::<(TokenModel, int)>,
            }
        }),
{
    let len = s.unicode_len();
    let i = skip_ws(s, len, from);
    match parse_integer_at(s, len, i) {
        Some((v, j)) => Some((Token::IntegerOperand { value: v }, j)),
        None => None,
    }
}

/// Parser for register operands such as `$31`.
pub fn register(s: &str, from: usize) -> (r: Option<(Token, usize)>)
    requires
        from <= s@.len(),
    ensures
        ({
            let i = spec_skip_ws(s@, from as int);
            parsed_view(r) == match spec_parse_register(s@, i) {
                Some((v, j)) => Some((TokenModel::Register { reg_num: v }, j)),
                None => None::<(TokenModel, int)>,
            }
        }),
{
    let len = s.unicode_len();
    let i = skip_ws(s, len, from);
    match parse_register_at(s, len, i) {
        Some((v, j)) => Some((Token::Register { reg_num: v }, j)),
        None => None,
    }
}

/// Parser for string constants such as `'Hello'`.
pub fn irstring(s: &str, from: usize) -> (r: Option<(Token, usize)>)
    requires
        from <= s@.len(),
    ensures
        ({
            let i = spec_skip_ws(s@, from as int);
            parsed_view(r) == match spec_parse_irstring(s@, i) {
                Some((n, j)) => Some((TokenModel::IrString { name: n }, j)),
                None => None::<(TokenModel, int)>,
            }
        }),
{
    let len = s.unicode_len();
    let i = skip_ws(s, len, from);
    match parse_irstring_at(s, len, i) {
        Some((n, j)) => Some((Token::IrString { name: n }, j)),
        None => None,
    }
}

/// Parser for any operand form.
pub fn operand(s: &str, from: usize) -> (r: Option<(Token, usize)>)
    requires
        from <= s@.len(),
    ensures
        parsed_view(r) == spec_parse_operand(s@, from as int),
{
    let len = s.unicode_len();
    operand_at(s, len, from)
}

} // verus!
