//! A whole program: one or more instructions, parsed greedily until the
//! source text is exhausted. Trailing text that no instruction matches fails
//! the whole parse; there is no partial-success mode.

use vstd::prelude::*;
use vstd::string::StrSliceExecFns;

use crate::instruction_parsers::{
    instruction_at, spec_instruction_bytes, spec_parse_instruction, AssemblerInstruction,
    InstructionModel,
};
use crate::symbols::{SymbolModel, SymbolTable};

verus! {

/// An ordered sequence of instructions; insertion order is source order.
#[derive(Debug, PartialEq)]
pub struct Program {
    pub instructions: Vec<AssemblerInstruction>,
}

impl View for Program {
    type V = Seq<InstructionModel>;

    open spec fn view(&self) -> Seq<InstructionModel> {
        Seq::new(self.instructions@.len(), |i: int| self.instructions@[i]@)
    }
}

/// The instructions parsed from `s[i..]`, with the final resume position;
/// `None` when no instruction matches or text would remain unconsumed.
pub open spec fn spec_program_rec(s: Seq<char>, i: int) -> Option<(Seq<InstructionModel>, int)>
    decreases s.len() - i,
{
    match spec_parse_instruction(s, i) {
        None => None,
        Some((ins, j)) => {
            if j >= s.len() {
                Some((seq![ins], j))
            } else if i < j <= s.len() {
                match spec_program_rec(s, j) {
                    None => None,
                    Some((rest, k)) => Some((seq![ins] + rest, k)),
                }
            } else {
                // Never reached: a parsed instruction always advances and
                // never runs past the end of the text.
                None
            }
        },
    }
}

/// The program a source text parses to, if the whole text is consumed.
pub open spec fn spec_parse_program(s: Seq<char>) -> Option<Seq<InstructionModel>> {
    match spec_program_rec(s, 0) {
        Some((instrs, _)) => Some(instrs),
        None => None,
    }
}

/// The concatenation of the binary words of `instrs[i..]`.
pub open spec fn spec_program_bytes_from(
    instrs: Seq<InstructionModel>,
    syms: Seq<SymbolModel>,
    i: int,
) -> Seq<u8>
    decreases instrs.len() - i,
{
    if 0 <= i < instrs.len() {
        spec_instruction_bytes(instrs[i], syms) + spec_program_bytes_from(instrs, syms, i + 1)
    } else {
        Seq::<u8>::empty()
    }
}

/// The concatenation of every instruction's binary word, in source order.
pub open spec fn spec_program_bytes(instrs: Seq<InstructionModel>, syms: Seq<SymbolModel>) -> Seq<
    u8,
> {
    spec_program_bytes_from(instrs, syms, 0)
}

impl Program {
    /// Flattens the program to bytes by delegating to each instruction's
    /// encoder, concatenating in source order. No validation happens here;
    /// validation is the assembler driver's job.
    pub fn to_bytes(&self, symbols: &SymbolTable) -> (r: Vec<u8>)
        ensures
            r@ == spec_program_bytes(self@, symbols@),
    {
        let mut out: Vec<u8> = Vec::new();
        let n = self.instructions.len();
        let mut i: usize = 0;
        while i < n
            invariant
                n == self.instructions@.len(),
                i <= n,
                spec_program_bytes(self@, symbols@) == out@ + spec_program_bytes_from(
                    self@,
                    symbols@,
                    i as int,
                ),
            decreases n - i,
        {
            let mut bytes = self.instructions[i].to_bytes(symbols);
            proof {
                assert(out@ + (bytes@ + spec_program_bytes_from(self@, symbols@, i + 1)) =~= (out@
                    + bytes@) + spec_program_bytes_from(self@, symbols@, i + 1));
            }
            out.append(&mut bytes);
            i = i + 1;
        }
        proof {
            assert(out@ + spec_program_bytes_from(self@, symbols@, n as int) =~= out@);
        }
        out
    }
}

/// Parses a whole source text into a program. The parse succeeds only when
/// at least one instruction matches and the text is fully consumed.
pub fn program(s: &str) -> (r: Option<Program>)
    ensures
        match spec_parse_program(s@) {
            Some(instrs) => r is Some && r.unwrap()@ == instrs && instrs.len() <= s@.len(),
            None => r is None,
        },
{
    let len = s.unicode_len();
    let mut acc: Vec<AssemblerInstruction> = Vec::new();
    let mut cur: usize = 0;
    loop
        invariant
            len == s@.len(),
            cur <= len,
            acc@.len() <= cur,
            match spec_program_rec(s@, cur as int) {
                None => spec_program_rec(s@, 0) is None,
                Some((rest, e)) => spec_program_rec(s@, 0) == Some(
                    (Seq::new(acc@.len(), |i: int| acc@[i]@) + rest, e),
                ),
            },
        decreases len - cur,
    {
        match instruction_at(s, len, cur) {
            None => {
                return None;
            },
            Some((ins, j)) => {
                let ghost pre = Seq::new(acc@.len(), |i: int| acc@[i]@);
                acc.push(ins);
                proof {
                    assert(Seq::new(acc@.len(), |i: int| acc@[i]@) =~= pre.push(ins@));
                }
                if j >= len {
                    let p = Program { instructions: acc };
                    proof {
                        assert(pre.push(ins@) =~= pre + seq![ins@]);
                    }
                    return Some(p);
                }
                proof {
                    assert(match spec_program_rec(s@, j as int) {
                        None => spec_program_rec(s@, 0) is None,
                        Some((rest, e)) => spec_program_rec(s@, 0) == Some(
                            (pre.push(ins@) + rest, e),
                        ),
                    }) by {
                        match spec_program_rec(s@, j as int) {
                            None => {},
                            Some((rest, e)) => {
                                assert(pre + (seq![ins@] + rest) =~= pre.push(ins@) + rest);
                            },
                        }
                    }
                }
                cur = j;
            },
        }
    }
}

} // verus!
