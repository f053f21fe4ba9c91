//! The machine's operation codes and their fixed mnemonic table.

use vstd::prelude::*;

verus! {

/// One machine operation. `IGL` is the sentinel for a mnemonic outside the
/// table: an unrecognized word still tokenizes, and its illegality surfaces
/// only when the engine decodes the byte.
#[derive(Debug, PartialEq, Eq, Clone, Copy, Structural)]
#[allow(non_camel_case_types)]
pub enum Opcode {
    LOAD,
    ADD,
    SUB,
    MUL,
    DIV,
    HLT,
    JMP,
    JMPF,
    JMPB,
    EQ,
    NEQ,
    GTE,
    LTE,
    LT,
    GT,
    JMPE,
    NOP,
    ALOC,
    INC,
    DEC,
    DJMPE,
    PRTS,
    CLOOP,
    LOOP,
    CALL,
    RET,
    IGL,
}

/// The numeric value of an opcode: byte 0 of every encoded instruction word.
pub open spec fn opcode_value(op: Opcode) -> u8 {
    match op {
        Opcode::LOAD => 0,
        Opcode::ADD => 1,
        Opcode::SUB => 2,
        Opcode::MUL => 3,
        Opcode::DIV => 4,
        Opcode::HLT => 5,
        Opcode::JMP => 6,
        Opcode::JMPF => 7,
        Opcode::JMPB => 8,
        Opcode::EQ => 9,
        Opcode::NEQ => 10,
        Opcode::GTE => 11,
        Opcode::LTE => 12,
        Opcode::LT => 13,
        Opcode::GT => 14,
        Opcode::JMPE => 15,
        Opcode::NOP => 16,
        Opcode::ALOC => 17,
        Opcode::INC => 18,
        Opcode::DEC => 19,
        Opcode::DJMPE => 20,
        Opcode::PRTS => 21,
        Opcode::CLOOP => 22,
        Opcode::LOOP => 23,
        Opcode::CALL => 24,
        Opcode::RET => 25,
        Opcode::IGL => 100,
    }
}

impl Opcode {
    /// The numeric value of this opcode, as the execution engine decodes it.
    pub fn value(&self) -> (r: u8)
        ensures
            r == opcode_value(*self),
    {
        match self {
            Opcode::LOAD => 0,
            Opcode::ADD => 1,
            Opcode::SUB => 2,
            Opcode::MUL => 3,
            Opcode::DIV => 4,
            Opcode::HLT => 5,
            Opcode::JMP => 6,
            Opcode::JMPF => 7,
            Opcode::JMPB => 8,
            Opcode::EQ => 9,
            Opcode::NEQ => 10,
            Opcode::GTE => 11,
            Opcode::LTE => 12,
            Opcode::LT => 13,
            Opcode::GT => 14,
            Opcode::JMPE => 15,
            Opcode::NOP => 16,
            Opcode::ALOC => 17,
            Opcode::INC => 18,
            Opcode::DEC => 19,
            Opcode::DJMPE => 20,
            Opcode::PRTS => 21,
            Opcode::CLOOP => 22,
            Opcode::LOOP => 23,
            Opcode::CALL => 24,
            Opcode::RET => 25,
            Opcode::IGL => 100,
        }
    }
}

/// Maps a mnemonic to its opcode; any word outside the table maps to `IGL`.
pub open spec fn opcode_of(name: Seq<char>) -> Opcode {
    if name == "load"@ {
        Opcode::LOAD
    } else if name == "add"@ {
        Opcode::ADD
    } else if name == "sub"@ {
        Opcode::SUB
    } else if name == "mul"@ {
        Opcode::MUL
    } else if name == "div"@ {
        Opcode::DIV
    } else if name == "hlt"@ {
        Opcode::HLT
    } else if name == "jmp"@ {
        Opcode::JMP
    } else if name == "jmpf"@ {
        Opcode::JMPF
    } else if name == "jmpb"@ {
        Opcode::JMPB
    } else if name == "eq"@ {
        Opcode::EQ
    } else if name == "neq"@ {
        Opcode::NEQ
    } else if name == "gte"@ {
        Opcode::GTE
    } else if name == "lte"@ {
        Opcode::LTE
    } else if name == "lt"@ {
        Opcode::LT
    } else if name == "gt"@ {
        Opcode::GT
    } else if name == "jmpe"@ {
        Opcode::JMPE
    } else if name == "nop"@ {
        Opcode::NOP
    } else if name == "aloc"@ {
        Opcode::ALOC
    } else if name == "inc"@ {
        Opcode::INC
    } else if name == "dec"@ {
        Opcode::DEC
    } else if name == "djmpe"@ {
        Opcode::DJMPE
    } else if name == "prts"@ {
        Opcode::PRTS
    } else if name == "cloop"@ {
        Opcode::CLOOP
    } else if name == "loop"@ {
        Opcode::LOOP
    } else if name == "call"@ {
        Opcode::CALL
    } else if name == "ret"@ {
        Opcode::RET
    } else {
        Opcode::IGL
    }
}

/// Looks a mnemonic up in the fixed table.
pub fn opcode_from_name(name: &str) -> (r: Opcode)
    ensures
        r == opcode_of(name@),
{
    if crate::text::str_eq(name, "load") {
        Opcode::LOAD
    } else if crate::text::str_eq(name, "add") {
        Opcode::ADD
    } else if crate::text::str_eq(name, "sub") {
        Opcode::SUB
    } else if crate::text::str_eq(name, "mul") {
        Opcode::MUL
    } else if crate::text::str_eq(name, "div") {
        Opcode::DIV
    } else if crate::text::str_eq(name, "hlt") {
        Opcode::HLT
    } else if crate::text::str_eq(name, "jmp") {
        Opcode::JMP
    } else if crate::text::str_eq(name, "jmpf") {
        Opcode::JMPF
    } else if crate::text::str_eq(name, "jmpb") {
        Opcode::JMPB
    } else if crate::text::str_eq(name, "eq") {
        Opcode::EQ
    } else if crate::text::str_eq(name, "neq") {
        Opcode::NEQ
    } else if crate::text::str_eq(name, "gte") {
        Opcode::GTE
    } else if crate::text::str_eq(name, "lte") {
        Opcode::LTE
    } else if crate::text::str_eq(name, "lt") {
        Opcode::LT
    } else if crate::text::str_eq(name, "gt") {
        Opcode::GT
    } else if crate::text::str_eq(name, "jmpe") {
        Opcode::JMPE
    } else if crate::text::str_eq(name, "nop") {
        Opcode::NOP
    } else if crate::text::str_eq(name, "aloc") {
        Opcode::ALOC
    } else if crate::text::str_eq(name, "inc") {
        Opcode::INC
    } else if crate::text::str_eq(name, "dec") {
        Opcode::DEC
    } else if crate::text::str_eq(name, "djmpe") {
        Opcode::DJMPE
    } else if crate::text::str_eq(name, "prts") {
        Opcode::PRTS
    } else if crate::text::str_eq(name, "cloop") {
        Opcode::CLOOP
    } else if crate::text::str_eq(name, "loop") {
        Opcode::LOOP
    } else if crate::text::str_eq(name, "call") {
        Opcode::CALL
    } else if crate::text::str_eq(name, "ret") {
        Opcode::RET
    } else {
        Opcode::IGL
    }
}

} // verus!
