//! One logical source line: an optional label declaration, an opcode or a
//! directive (never both), and up to three operands — together with its
//! serialization into one fixed-width binary word.

use vstd::prelude::*;
use vstd::string::StrSliceExecFns;

use crate::instruction::opcode_value;
use crate::label_parsers::{label_decl_at, spec_parse_label_decl};
use crate::opcode_parsers::{opcode_at, spec_parse_opcode};
use crate::operand_parsers::{operand_at, spec_parse_operand};
use crate::symbols::{spec_lookup, SymbolModel, SymbolTable};
use crate::text::{skip_ws, spec_skip_ws};
use crate::tokens::{opt_token_view, parsed_view, Token, TokenModel};

verus! {

/// One parsed source line. Exactly one of `opcode` and `directive` is set by
/// the grammar; both absent never parses.
#[derive(Debug, PartialEq)]
pub struct AssemblerInstruction {
    pub opcode: Option<Token>,
    pub label: Option<Token>,
    pub directive: Option<Token>,
    pub operand1: Option<Token>,
    pub operand2: Option<Token>,
    pub operand3: Option<Token>,
}

/// The mathematical model of an instruction.
pub struct InstructionModel {
    pub opcode: Option<TokenModel>,
    pub label: Option<TokenModel>,
    pub directive: Option<TokenModel>,
    pub operand1: Option<TokenModel>,
    pub operand2: Option<TokenModel>,
    pub operand3: Option<TokenModel>,
}

impl View for AssemblerInstruction {
    type V = InstructionModel;

    open spec fn view(&self) -> InstructionModel {
        InstructionModel {
            opcode: opt_token_view(self.opcode),
            label: opt_token_view(self.label),
            directive: opt_token_view(self.directive),
            operand1: opt_token_view(self.operand1),
            operand2: opt_token_view(self.operand2),
            operand3: opt_token_view(self.operand3),
        }
    }
}

/// The name declared by an instruction's label token, if any.
pub open spec fn spec_label_name(i: InstructionModel) -> Option<Seq<char>> {
    match i.label {
        Some(TokenModel::LabelDeclaration { name }) => Some(name),
        _ => None,
    }
}

/// The string constant carried by an instruction's first operand, if any.
pub open spec fn spec_string_constant(i: InstructionModel) -> Option<Seq<char>> {
    match i.operand1 {
        Some(TokenModel::IrString { name }) => Some(name),
        _ => None,
    }
}

/// The name of an instruction's directive token, if any.
pub open spec fn spec_directive_name(i: InstructionModel) -> Option<Seq<char>> {
    match i.directive {
        Some(TokenModel::Directive { name }) => Some(name),
        _ => None,
    }
}

/// The low sixteen bits of a 32-bit integer, as a value in `0..=65535`.
pub open spec fn int_low16(v: i32) -> int {
    if v >= 0 {
        (v as int) % 0x10000
    } else {
        0xFFFF - ((-(v as int) - 1) % 0x10000)
    }
}

/// An integer operand's two bytes: its low sixteen bits, high byte first.
pub open spec fn spec_integer_bytes(v: i32) -> Seq<u8> {
    seq![(int_low16(v) / 0x100) as u8, (int_low16(v) % 0x100) as u8]
}

/// A resolved label operand's two bytes: the offset's low sixteen bits, high
/// byte first. Offsets beyond 65535 are truncated; this caps directly
/// addressable offsets and is a documented format limitation.
pub open spec fn spec_offset_bytes(off: u32) -> Seq<u8> {
    seq![(((off as int) / 0x100) % 0x100) as u8, ((off as int) % 0x100) as u8]
}

/// The bytes one operand contributes to the instruction word. A label usage
/// that the symbol table cannot resolve contributes nothing, as does a token
/// of a kind that never encodes; neither aborts the run.
pub open spec fn spec_operand_bytes(t: TokenModel, syms: Seq<SymbolModel>) -> Seq<u8> {
    match t {
        TokenModel::Register { reg_num } => seq![reg_num],
        TokenModel::IntegerOperand { value } => spec_integer_bytes(value),
        TokenModel::LabelUsage { name } => match spec_lookup(syms, name) {
            Some(off) => spec_offset_bytes(off),
            None => Seq::<u8>::empty(),
        },
        _ => Seq::<u8>::empty(),
    }
}

/// The bytes of an optional operand slot.
pub open spec fn spec_opt_operand_bytes(t: Option<TokenModel>, syms: Seq<SymbolModel>) -> Seq<
    u8,
> {
    match t {
        Some(tok) => spec_operand_bytes(tok, syms),
        None => Seq::<u8>::empty(),
    }
}

/// An instruction's binary word: the opcode byte, then each operand's bytes
/// in order, zero-padded to at least four bytes.
pub open spec fn spec_instruction_bytes(i: InstructionModel, syms: Seq<SymbolModel>) -> Seq<u8> {
    let body = (match i.opcode {
        Some(TokenModel::Op { code }) => seq![opcode_value(code)],
        _ => Seq::<u8>::empty(),
    }) + spec_opt_operand_bytes(i.operand1, syms) + spec_opt_operand_bytes(i.operand2, syms)
        + spec_opt_operand_bytes(i.operand3, syms);
    if body.len() < 4 {
        body + Seq::new((4 - body.len()) as nat, |k: int| 0u8)
    } else {
        body
    }
}

impl AssemblerInstruction {
    /// Whether this line declares a label.
    pub fn is_label(&self) -> (r: bool)
        ensures
            r == (self@.label is Some),
    {
        self.label.is_some()
    }

    /// Whether this line carries an opcode.
    pub fn is_opcode(&self) -> (r: bool)
        ensures
            r == (self@.opcode is Some),
    {
        self.opcode.is_some()
    }

    /// Whether this line carries a directive.
    pub fn is_directive(&self) -> (r: bool)
        ensures
            r == (self@.directive is Some),
    {
        self.directive.is_some()
    }

    /// The declared label's name, if the label slot holds a declaration.
    pub fn get_label_name(&self) -> (r: Option<String>)
        ensures
            match (r, spec_label_name(self@)) {
                (Some(s), Some(n)) => s@ == n,
                (None, None) => true,
                _ => false,
            },
    {
        match &self.label {
            Some(Token::LabelDeclaration { name }) => Some(name.clone()),
            _ => None,
        }
    }

    /// The declared label's name; a synonym kept for callers of the older
    /// spelling.
    pub fn label_name(&self) -> (r: Option<String>)
        ensures
            match (r, spec_label_name(self@)) {
                (Some(s), Some(n)) => s@ == n,
                (None, None) => true,
                _ => false,
            },
    {
        self.get_label_name()
    }

    /// The string constant in the first operand slot, if any.
    pub fn get_string_constant(&self) -> (r: Option<String>)
        ensures
            match (r, spec_string_constant(self@)) {
                (Some(s), Some(n)) => s@ == n,
                (None, None) => true,
                _ => false,
            },
    {
        match &self.operand1 {
            Some(Token::IrString { name }) => Some(name.clone()),
            _ => None,
        }
    }

    /// The directive's name, if this line carries a directive.
    pub fn get_directive_name(&self) -> (r: Option<String>)
        ensures
            match (r, spec_directive_name(self@)) {
                (Some(s), Some(n)) => s@ == n,
                (None, None) => true,
                _ => false,
            },
    {
        match &self.directive {
            Some(Token::Directive { name }) => Some(name.clone()),
            _ => None,
        }
    }

    /// Serializes this instruction into its binary word, resolving label
    /// usages through `symbols`.
    pub fn to_bytes(&self, symbols: &SymbolTable) -> (r: Vec<u8>)
        ensures
            r@ == spec_instruction_bytes(self@, symbols@),
    {
        let mut results: Vec<u8> = Vec::new();
        match &self.opcode {
            Some(Token::Op { code }) => {
                results.push(code.value());
            },
            // A non-opcode token in the opcode slot encodes nothing; the
            // slot only ever holds an opcode for parsed programs.
            Some(_) => {},
            None => {},
        }
        if let Some(t) = &self.operand1 {
            AssemblerInstruction::extract_operand(t, &mut results, symbols);
        }
        if let Some(t) = &self.operand2 {
            AssemblerInstruction::extract_operand(t, &mut results, symbols);
        }
        if let Some(t) = &self.operand3 {
            AssemblerInstruction::extract_operand(t, &mut results, symbols);
        }
        let ghost body = (match self@.opcode {
            Some(TokenModel::Op { code }) => seq![opcode_value(code)],
            _ => Seq::<u8>::empty(),
        }) + spec_opt_operand_bytes(self@.operand1, symbols@) + spec_opt_operand_bytes(
            self@.operand2,
            symbols@,
        ) + spec_opt_operand_bytes(self@.operand3, symbols@);
        assert(results@ == body);
        while results.len() < 4
            invariant
                body.len() <= results@.len(),
                results@.len() <= 4 || results@.len() == body.len(),
                results@ == body + Seq::new((results@.len() - body.len()) as nat, |k: int| 0u8),
            decreases 4 - results.len(),
        {
            results.push(0);
            proof {
                assert(results@ == body + Seq::new(
                    (results@.len() - body.len()) as nat,
                    |k: int| 0u8,
                ));
            }
        }
        proof {
            if body.len() < 4 {
                assert(results@.len() == 4);
            } else {
                assert(results@ =~= body);
            }
            assert(results@ == spec_instruction_bytes(self@, symbols@));
        }
        results
    }

    /// Appends one operand's bytes to `results`.
    fn extract_operand(t: &Token, results: &mut Vec<u8>, symbols: &SymbolTable)
        ensures
            final(results)@ == old(results)@ + spec_operand_bytes(t@, symbols@),
    {
        match t {
            Token::Register { reg_num } => {
                results.push(*reg_num);
                assert(results@ =~= old(results)@ + spec_operand_bytes(t@, symbols@));
            },
            Token::IntegerOperand { value } => {
                let lv: i64 = *value as i64;
                let m: i64 = if lv >= 0 {
                    lv % 65536
                } else {
                    65535 - ((-lv - 1) % 65536)
                };
                assert(m == int_low16(*value));
                results.push((m / 256) as u8);
                results.push((m % 256) as u8);
                assert(results@ =~= old(results)@ + spec_operand_bytes(t@, symbols@));
            },
            Token::LabelUsage { name } => {
                match symbols.symbol_value(name.as_str()) {
                    Some(offset) => {
                        results.push(((offset / 256) % 256) as u8);
                        results.push((offset % 256) as u8);
                        assert(results@ =~= old(results)@ + spec_operand_bytes(t@, symbols@));
                    },
                    None => {
                        // An unresolved label reference is tolerated here by
                        // design: the operand contributes no bytes and the
                        // run continues.
                        assert(results@ =~= old(results)@ + spec_operand_bytes(t@, symbols@));
                    },
                }
            },
            _ => {
                // A token of any other kind never encodes; nothing is
                // appended.
                assert(results@ =~= old(results)@ + spec_operand_bytes(t@, symbols@));
            },
        }
    }
}

/// An optional label declaration followed by optional whitespace: the common
/// prefix of both instruction forms. Returns the label and the position of
/// what follows it.
pub open spec fn spec_label_prefix(s: Seq<char>, i0: int) -> (Option<TokenModel>, int) {
    let i1 = spec_skip_ws(s, i0);
    match spec_parse_label_decl(s, i1) {
        Some((n, j)) => (Some(TokenModel::LabelDeclaration { name: n }), spec_skip_ws(s, j)),
        None => (None, i1),
    }
}

/// Up to three operands in sequence, each preceded by optional whitespace.
pub open spec fn spec_parse_operands(s: Seq<char>, i: int) -> (
    Option<TokenModel>,
    Option<TokenModel>,
    Option<TokenModel>,
    int,
) {
    match spec_parse_operand(s, i) {
        None => (None, None, None, i),
        Some((t1, i1)) => match spec_parse_operand(s, i1) {
            None => (Some(t1), None, None, i1),
            Some((t2, i2)) => match spec_parse_operand(s, i2) {
                None => (Some(t1), Some(t2), None, i2),
                Some((t3, i3)) => (Some(t1), Some(t2), Some(t3), i3),
            },
        },
    }
}

/// The opcode form after the label prefix: a mnemonic, then up to three
/// operands, then trailing whitespace.
pub open spec fn spec_opcode_tail(s: Seq<char>, lab: Option<TokenModel>, i2: int) -> Option<
    (InstructionModel, int),
> {
    match spec_parse_opcode(s, i2) {
        None => None,
        Some((op, j)) => {
            let (o1, o2, o3, k) = spec_parse_operands(s, j);
            let k2 = spec_skip_ws(s, k);
            Some(
                (
                    InstructionModel {
                        opcode: Some(op),
                        label: lab,
                        directive: None,
                        operand1: o1,
                        operand2: o2,
                        operand3: o3,
                    },
                    k2,
                ),
            )
        },
    }
}

/// An opcode-form instruction: `[label:] mnemonic [operand]{0,3}`.
pub open spec fn spec_instruction_combined(s: Seq<char>, i0: int) -> Option<
    (InstructionModel, int),
> {
    let (lab, i2) = spec_label_prefix(s, i0);
    spec_opcode_tail(s, lab, i2)
}

/// Either instruction form: after the label prefix, a `.` opens a directive
/// and anything else must be a mnemonic.
pub open spec fn spec_parse_instruction(s: Seq<char>, i0: int) -> Option<
    (InstructionModel, int),
> {
    let (lab, i2) = spec_label_prefix(s, i0);
    if 0 <= i2 < s.len() && s[i2] == '.' {
        crate::directive_parsers::spec_directive_tail(s, lab, i2)
    } else {
        spec_opcode_tail(s, lab, i2)
    }
}

/// Parses the optional label-declaration prefix.
pub fn label_prefix(s: &str, len: usize, from: usize) -> (r: (Option<Token>, usize))
    requires
        len == s@.len(),
        from <= len,
    ensures
        ({
            let (lab, i2) = spec_label_prefix(s@, from as int);
            opt_token_view(r.0) == lab && r.1 == i2
        }),
        from <= r.1 <= len,
{
    let i1 = skip_ws(s, len, from);
    match label_decl_at(s, len, i1) {
        Some((n, j)) => {
            let i2 = skip_ws(s, len, j);
            (Some(Token::LabelDeclaration { name: n }), i2)
        },
        None => (None, i1),
    }
}

/// Parses up to three operands.
pub fn parse_operands3(s: &str, len: usize, from: usize) -> (r: (
    Option<Token>,
    Option<Token>,
    Option<Token>,
    usize,
))
    requires
        len == s@.len(),
        from <= len,
    ensures
        ({
            let (o1, o2, o3, k) = spec_parse_operands(s@, from as int);
            opt_token_view(r.0) == o1 && opt_token_view(r.1) == o2 && opt_token_view(r.2) == o3
                && r.3 == k
        }),
        from <= r.3 <= len,
{
    match operand_at(s, len, from) {
        None => (None, None, None, from),
        Some((t1, i1)) => match operand_at(s, len, i1) {
            None => (Some(t1), None, None, i1),
            Some((t2, i2)) => match operand_at(s, len, i2) {
                None => (Some(t1), Some(t2), None, i2),
                Some((t3, i3)) => (Some(t1), Some(t2), Some(t3), i3),
            },
        },
    }
}

/// Parses the opcode form after an already-parsed label prefix.
pub fn opcode_tail(s: &str, len: usize, lab: Option<Token>, at: usize) -> (r: Option<
    (AssemblerInstruction, usize),
>)
    requires
        len == s@.len(),
        at <= len,
    ensures
        parsed_view(r) == spec_opcode_tail(s@, opt_token_view(lab), at as int),
        r is Some ==> at < r.unwrap().1 <= len,
{
    match opcode_at(s, len, at) {
        None => None,
        Some((op, j)) => {
            let (o1, o2, o3, k) = parse_operands3(s, len, j);
            let k2 = skip_ws(s, len, k);
            Some(
                (
                    AssemblerInstruction {
                        opcode: Some(op),
                        label: lab,
                        directive: None,
                        operand1: o1,
                        operand2: o2,
                        operand3: o3,
                    },
                    k2,
                ),
            )
        },
    }
}

/// Parser for opcode-form instructions such as `test: load $0 #100`.
pub fn instruction_combined(s: &str, from: usize) -> (r: Option<(AssemblerInstruction, usize)>)
    requires
        from <= s@.len(),
    ensures
        parsed_view(r) == spec_instruction_combined(s@, from as int),
        r is Some ==> from < r.unwrap().1 <= s@.len(),
{
    let len = s.unicode_len();
    let (lab, i2) = label_prefix(s, len, from);
    opcode_tail(s, len, lab, i2)
}

/// Parses one instruction of either form at `from`.
pub fn instruction_at(s: &str, len: usize, from: usize) -> (r: Option<
    (AssemblerInstruction, usize),
>)
    requires
        len == s@.len(),
        from <= len,
    ensures
        parsed_view(r) == spec_parse_instruction(s@, from as int),
        r is Some ==> from < r.unwrap().1 <= len,
{
    let (lab, i2) = label_prefix(s, len, from);
    if i2 < len && s.get_char(i2) == '.' {
        crate::directive_parsers::directive_tail(s, len, lab, i2)
    } else {
        opcode_tail(s, len, lab, i2)
    }
}

/// Parser for one instruction of either form.
pub fn instruction(s: &str, from: usize) -> (r: Option<(AssemblerInstruction, usize)>)
    requires
        from <= s@.len(),
    ensures
        parsed_view(r) == spec_parse_instruction(s@, from as int),
        r is Some ==> from < r.unwrap().1 <= s@.len(),
{
    let len = s.unicode_len();
    instruction_at(s, len, from)
}

} // verus!
