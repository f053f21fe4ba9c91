//! The library's laws: properties of whole assembly runs, proved from the
//! specification functions that the public contracts are stated over.

use vstd::prelude::*;

use crate::assembler::{
    pass1_initial, section_of, spec_assemble, spec_body_bytes, spec_body_from, spec_header,
    spec_pass1, spec_pass1_from, spec_pass1_step, Pass1Model,
};
use crate::errors::ErrorModel;
use crate::instruction_parsers::{
    int_low16, spec_directive_name, spec_instruction_bytes, spec_label_name, spec_operand_bytes,
    InstructionModel,
};
use crate::program_parsers::spec_parse_program;
use crate::symbols::{spec_lookup, spec_lookup_from, spec_set_offset_from, SymbolModel};
use crate::tokens::TokenModel;

verus! {

/// Law: assembly is deterministic. The outcome of a run — bytes or
/// diagnostics — is a function of the source text alone, so assembling the
/// same text twice yields identical results.
pub proof fn lemma_assemble_deterministic(
    src: Seq<char>,
    r1: Result<Seq<u8>, Seq<ErrorModel>>,
    r2: Result<Seq<u8>, Seq<ErrorModel>>,
)
    requires
        r1 == spec_assemble(src),
        r2 == spec_assemble(src),
    ensures
        r1 == r2,
{
}

/// Law: every successful assembly opens with the four magic bytes, and the
/// body begins exactly after the fixed-format header.
pub proof fn lemma_header_invariant(src: Seq<char>, out: Seq<u8>)
    requires
        spec_assemble(src) == Ok::<Seq<u8>, Seq<ErrorModel>>(out),
    ensures
        out.len() >= 65,
        out.subrange(0, 4) =~= seq![45u8, 50u8, 49u8, 45u8],
        out.subrange(0, 65) =~= spec_header(),
        out.skip(65) =~= spec_body_bytes(
            spec_parse_program(src).unwrap(),
            spec_pass1(spec_parse_program(src).unwrap()).symbols,
        ),
{
    let instrs = spec_parse_program(src).unwrap();
    let st = spec_pass1(instrs);
    assert(out == spec_header() + spec_body_bytes(instrs, st.symbols));
}

/// Law: a register operand's byte is the register index itself, so decoding
/// the byte recovers the index.
pub proof fn lemma_register_roundtrip(r: u8, syms: Seq<SymbolModel>)
    ensures
        spec_operand_bytes(TokenModel::Register { reg_num: r }, syms) =~= seq![r],
{
}

/// Law: an integer operand encodes to two bytes that, read high byte first,
/// recover exactly its low sixteen bits; a value already within sixteen bits
/// is recovered unchanged.
pub proof fn lemma_integer_roundtrip(v: i32, syms: Seq<SymbolModel>)
    ensures
        ({
            let b = spec_operand_bytes(TokenModel::IntegerOperand { value: v }, syms);
            b.len() == 2 && (b[0] as int) * 256 + (b[1] as int) == int_low16(v)
        }),
        0 <= v <= 0xFFFF ==> int_low16(v) == v,
{
    let low = int_low16(v);
    assert(0 <= low < 0x10000);
    vstd::arithmetic::div_mod::lemma_fundamental_div_mod(low, 0x100);
}

/// How many opcode instructions `instrs[i..]` holds.
pub open spec fn spec_opcode_count(instrs: Seq<InstructionModel>, i: int) -> int
    decreases instrs.len() - i,
{
    if 0 <= i < instrs.len() {
        (if instrs[i].opcode is Some {
            1int
        } else {
            0int
        }) + spec_opcode_count(instrs, i + 1)
    } else {
        0
    }
}

/// The `j`-th opcode instruction of `instrs[i..]`, counting from zero.
pub open spec fn spec_nth_opcode(instrs: Seq<InstructionModel>, i: int, j: int) -> InstructionModel
    decreases instrs.len() - i,
{
    if 0 <= i < instrs.len() {
        if instrs[i].opcode is Some {
            if j == 0 {
                instrs[i]
            } else {
                spec_nth_opcode(instrs, i + 1, j - 1)
            }
        } else {
            spec_nth_opcode(instrs, i + 1, j)
        }
    } else {
        arbitrary()
    }
}

proof fn lemma_body_from_aligned(instrs: Seq<InstructionModel>, syms: Seq<SymbolModel>, i: int)
    requires
        0 <= i <= instrs.len(),
        forall|k: int| #![auto]
            i <= k < instrs.len() && instrs[k].opcode is Some ==> spec_instruction_bytes(
                instrs[k],
                syms,
            ).len() == 4,
    ensures
        spec_opcode_count(instrs, i) >= 0,
        spec_body_from(instrs, syms, i).len() == 4 * spec_opcode_count(instrs, i),
        forall|j: int| #![auto]
            0 <= j < spec_opcode_count(instrs, i) ==> spec_body_from(instrs, syms, i).subrange(
                4 * j,
                4 * j + 4,
            ) == spec_instruction_bytes(spec_nth_opcode(instrs, i, j), syms),
    decreases instrs.len() - i,
{
    if i < instrs.len() {
        lemma_body_from_aligned(instrs, syms, i + 1);
        let rest = spec_body_from(instrs, syms, i + 1);
        if instrs[i].opcode is Some {
            let head = spec_instruction_bytes(instrs[i], syms);
            assert(spec_body_from(instrs, syms, i) == head + rest);
            assert(spec_opcode_count(instrs, i) == 1 + spec_opcode_count(instrs, i + 1));
            assert forall|j: int| #![auto]
                0 <= j < spec_opcode_count(instrs, i) implies spec_body_from(
                instrs,
                syms,
                i,
            ).subrange(4 * j, 4 * j + 4) == spec_instruction_bytes(
                spec_nth_opcode(instrs, i, j),
                syms,
            ) by {
                if j == 0 {
                    assert((head + rest).subrange(0, 4) =~= head);
                    assert(spec_nth_opcode(instrs, i, 0) == instrs[i as int]);
                } else {
                    assert(0 <= j - 1 < spec_opcode_count(instrs, i + 1));
                    assert(rest.subrange(4 * (j - 1), 4 * (j - 1) + 4)
                        == spec_instruction_bytes(spec_nth_opcode(instrs, i + 1, j - 1), syms));
                    assert((head + rest).subrange(4 * j, 4 * j + 4) =~= rest.subrange(
                        4 * (j - 1),
                        4 * (j - 1) + 4,
                    ));
                    assert(spec_nth_opcode(instrs, i, j) == spec_nth_opcode(instrs, i + 1, j - 1));
                }
            }
        } else {
            assert(spec_body_from(instrs, syms, i) == Seq::<u8>::empty() + rest);
            assert(Seq::<u8>::empty() + rest =~= rest);
            assert forall|j: int| #![auto]
                0 <= j < spec_opcode_count(instrs, i) implies spec_body_from(
                instrs,
                syms,
                i,
            ).subrange(4 * j, 4 * j + 4) == spec_instruction_bytes(
                spec_nth_opcode(instrs, i, j),
                syms,
            ) by {
                assert(rest.subrange(4 * j, 4 * j + 4) == spec_instruction_bytes(
                    spec_nth_opcode(instrs, i + 1, j),
                    syms,
                ));
                assert(spec_nth_opcode(instrs, i, j) == spec_nth_opcode(instrs, i + 1, j));
            }
        }
    }
}

/// Law: in a successful assembly whose opcode instructions each encode to
/// exactly one word, the body is word-aligned and its `j`-th four-byte group
/// is exactly the `j`-th opcode instruction's word, in source order. An
/// instruction whose operands overflow the word (such as two integer
/// operands) breaks the premise, so the law is stated under it.
pub proof fn lemma_word_alignment(src: Seq<char>, out: Seq<u8>)
    requires
        spec_assemble(src) == Ok::<Seq<u8>, Seq<ErrorModel>>(out),
        forall|k: int| #![auto]
            0 <= k < spec_parse_program(src).unwrap().len() && spec_parse_program(
                src,
            ).unwrap()[k].opcode is Some ==> spec_instruction_bytes(
                spec_parse_program(src).unwrap()[k],
                spec_pass1(spec_parse_program(src).unwrap()).symbols,
            ).len() == 4,
    ensures
        ({
            let instrs = spec_parse_program(src).unwrap();
            &&& out.len() == 65 + 4 * spec_opcode_count(instrs, 0)
            &&& (out.len() - 65) % 4 == 0
            &&& forall|j: int| #![auto]
                0 <= j < spec_opcode_count(instrs, 0) ==> out.subrange(
                    65 + 4 * j,
                    65 + 4 * j + 4,
                ) == spec_instruction_bytes(
                    spec_nth_opcode(instrs, 0, j),
                    spec_pass1(instrs).symbols,
                )
        }),
{
    let instrs = spec_parse_program(src).unwrap();
    let st = spec_pass1(instrs);
    let body = spec_body_bytes(instrs, st.symbols);
    lemma_body_from_aligned(instrs, st.symbols, 0);
    assert(out == spec_header() + body);
    let c = spec_opcode_count(instrs, 0);
    assert((4 * c) % 4 == 0) by (nonlinear_arith);
    assert forall|j: int| #![auto] 0 <= j < c implies out.subrange(65 + 4 * j, 65 + 4 * j + 4)
        == spec_instruction_bytes(spec_nth_opcode(instrs, 0, j), st.symbols) by {
        assert(out.subrange(65 + 4 * j, 65 + 4 * j + 4) =~= body.subrange(4 * j, 4 * j + 4));
    }
}

/// Pass one over the first `k` instructions only: the driver state just
/// before instruction `k` is processed.
pub open spec fn spec_pass1_upto(instrs: Seq<InstructionModel>, k: int) -> Pass1Model
    decreases k,
{
    if k <= 0 {
        pass1_initial()
    } else {
        spec_pass1_step(spec_pass1_upto(instrs, k - 1), instrs[k - 1], k - 1)
    }
}

proof fn lemma_pass1_decompose(instrs: Seq<InstructionModel>, k: int)
    requires
        0 <= k <= instrs.len(),
    ensures
        spec_pass1(instrs) == spec_pass1_from(instrs, spec_pass1_upto(instrs, k), k),
    decreases k,
{
    if k > 0 {
        lemma_pass1_decompose(instrs, k - 1);
    }
}

proof fn lemma_lookup_from_iff_exists(s: Seq<SymbolModel>, n: Seq<char>, i: int)
    requires
        0 <= i <= s.len(),
    ensures
        (spec_lookup_from(s, n, i) is Some) <==> (exists|k: int|
            i <= k < s.len() && s[k].name == n),
    decreases s.len() - i,
{
    if i < s.len() {
        lemma_lookup_from_iff_exists(s, n, i + 1);
        if s[i].name == n {
            assert(i <= i < s.len() && s[i].name == n);
        }
    }
}

proof fn lemma_set_offset_names(s: Seq<SymbolModel>, n: Seq<char>, off: u32, k: int)
    requires
        0 <= k <= s.len(),
    ensures
        spec_set_offset_from(s, n, off, k).len() == s.len(),
        forall|i: int| #![auto]
            0 <= i < s.len() ==> spec_set_offset_from(s, n, off, k)[i].name == s[i].name,
    decreases s.len() - k,
{
    if k < s.len() && s[k].name != n {
        lemma_set_offset_names(s, n, off, k + 1);
    }
}

proof fn lemma_presence_push(s: Seq<SymbolModel>, x: SymbolModel, n: Seq<char>)
    requires
        spec_lookup(s, n) is Some,
    ensures
        spec_lookup(s.push(x), n) is Some,
{
    lemma_lookup_from_iff_exists(s, n, 0);
    lemma_lookup_from_iff_exists(s.push(x), n, 0);
    let k = choose|k: int| 0 <= k < s.len() && s[k].name == n;
    assert(s.push(x)[k].name == n);
}

proof fn lemma_presence_set_offset(s: Seq<SymbolModel>, m: Seq<char>, off: u32, n: Seq<char>)
    requires
        spec_lookup(s, n) is Some,
    ensures
        spec_lookup(spec_set_offset_from(s, m, off, 0), n) is Some,
{
    lemma_set_offset_names(s, m, off, 0);
    lemma_lookup_from_iff_exists(s, n, 0);
    lemma_lookup_from_iff_exists(spec_set_offset_from(s, m, off, 0), n, 0);
    let k = choose|k: int| 0 <= k < s.len() && s[k].name == n;
    assert(spec_set_offset_from(s, m, off, 0)[k].name == n);
}

proof fn lemma_step_preserves_symbol(st: Pass1Model, ins: InstructionModel, idx: int, n: Seq<char>)
    requires
        spec_lookup(st.symbols, n) is Some,
    ensures
        spec_lookup(spec_pass1_step(st, ins, idx).symbols, n) is Some,
{
    let st1 = if ins.label is Some {
        crate::assembler::spec_label_step(st, ins, idx)
    } else {
        st
    };
    if ins.label is Some && !(st.current_section is None) {
        match spec_label_name(ins) {
            Some(name) => {
                if !(spec_lookup(st.symbols, name) is Some) {
                    lemma_presence_push(
                        st.symbols,
                        SymbolModel { name, offset: (4 * idx) as u32 },
                        n,
                    );
                }
            },
            None => {},
        }
    }
    assert(spec_lookup(st1.symbols, n) is Some);
    if ins.directive is Some {
        match spec_directive_name(ins) {
            Some(dname) => {
                if dname == "asciiz"@ {
                    match crate::instruction_parsers::spec_string_constant(ins) {
                        Some(_) => match spec_label_name(ins) {
                            Some(lname) => {
                                lemma_presence_set_offset(
                                    st1.symbols,
                                    lname,
                                    crate::assembler::ro_patch_offset(st1.ro.len() as int),
                                    n,
                                );
                            },
                            None => {},
                        },
                        None => {},
                    }
                }
            },
            None => {},
        }
    }
}

proof fn lemma_upto_preserves_symbol(instrs: Seq<InstructionModel>, k1: int, k2: int, n: Seq<char>)
    requires
        0 <= k1 <= k2 <= instrs.len(),
        spec_lookup(spec_pass1_upto(instrs, k1).symbols, n) is Some,
    ensures
        spec_lookup(spec_pass1_upto(instrs, k2).symbols, n) is Some,
    decreases k2 - k1,
{
    if k1 < k2 {
        lemma_upto_preserves_symbol(instrs, k1, k2 - 1, n);
        lemma_step_preserves_symbol(
            spec_pass1_upto(instrs, k2 - 1),
            instrs[k2 - 1],
            k2 - 1,
            n,
        );
    }
}

proof fn lemma_step_preserves_error(st: Pass1Model, ins: InstructionModel, idx: int, e: ErrorModel)
    requires
        st.errors.contains(e),
    ensures
        spec_pass1_step(st, ins, idx).errors.contains(e),
{
    let k = choose|k: int| 0 <= k < st.errors.len() && st.errors[k] == e;
    let after = spec_pass1_step(st, ins, idx).errors;
    assert(after[k] == e);
}

proof fn lemma_upto_preserves_error(instrs: Seq<InstructionModel>, k1: int, k2: int, e: ErrorModel)
    requires
        0 <= k1 <= k2 <= instrs.len(),
        spec_pass1_upto(instrs, k1).errors.contains(e),
    ensures
        spec_pass1_upto(instrs, k2).errors.contains(e),
    decreases k2 - k1,
{
    if k1 < k2 {
        lemma_upto_preserves_error(instrs, k1, k2 - 1, e);
        lemma_step_preserves_error(spec_pass1_upto(instrs, k2 - 1), instrs[k2 - 1], k2 - 1, e);
    }
}

/// Law: a program that declares the same label name twice, each time with a
/// section open, fails with a "symbol already declared" diagnostic and
/// produces no bytecode. (With no section open a duplicate is reported as
/// "no segment declared" instead, so the law is stated for open sections.)
pub proof fn lemma_symbol_uniqueness(
    src: Seq<char>,
    instrs: Seq<InstructionModel>,
    i: int,
    j: int,
    name: Seq<char>,
)
    requires
        spec_parse_program(src) == Some(instrs),
        0 <= i < j < instrs.len(),
        spec_label_name(instrs[i]) == Some(name),
        spec_label_name(instrs[j]) == Some(name),
        spec_pass1_upto(instrs, i).current_section is Some,
        spec_pass1_upto(instrs, j).current_section is Some,
    ensures
        spec_pass1(instrs).errors.contains(ErrorModel::SymbolAlreadyDeclared),
        spec_assemble(src) is Err,
{
    let st_i = spec_pass1_upto(instrs, i);
    if spec_lookup(st_i.symbols, name) is Some {
        // The collision is already visible at instruction `i`.
        let st1 = crate::assembler::spec_label_step(st_i, instrs[i], i);
        assert(st1.errors[st1.errors.len() - 1] == ErrorModel::SymbolAlreadyDeclared);
        assert(st1.errors.contains(ErrorModel::SymbolAlreadyDeclared));
        lemma_label_then_directive_keeps_error(
            st_i,
            instrs[i],
            i,
            ErrorModel::SymbolAlreadyDeclared,
        );
        lemma_upto_preserves_error(
            instrs,
            i + 1,
            instrs.len() as int,
            ErrorModel::SymbolAlreadyDeclared,
        );
    } else {
        // The name enters the table at `i` and is still there at `j`.
        let st1 = crate::assembler::spec_label_step(st_i, instrs[i], i);
        lemma_lookup_from_iff_exists(st1.symbols, name, 0);
        assert(st1.symbols[st1.symbols.len() - 1].name == name);
        assert(spec_lookup(st1.symbols, name) is Some);
        lemma_label_then_directive_keeps_symbol(st_i, instrs[i], i, name);
        lemma_upto_preserves_symbol(instrs, i + 1, j, name);
        let st_j = spec_pass1_upto(instrs, j);
        let stj1 = crate::assembler::spec_label_step(st_j, instrs[j], j);
        assert(stj1.errors[stj1.errors.len() - 1] == ErrorModel::SymbolAlreadyDeclared);
        assert(stj1.errors.contains(ErrorModel::SymbolAlreadyDeclared));
        lemma_label_then_directive_keeps_error(
            st_j,
            instrs[j],
            j,
            ErrorModel::SymbolAlreadyDeclared,
        );
        lemma_upto_preserves_error(
            instrs,
            j + 1,
            instrs.len() as int,
            ErrorModel::SymbolAlreadyDeclared,
        );
    }
    lemma_pass1_decompose(instrs, instrs.len() as int);
    assert(spec_pass1(instrs).errors.contains(ErrorModel::SymbolAlreadyDeclared));
    assert(spec_pass1(instrs).errors.len() > 0);
}

proof fn lemma_label_then_directive_keeps_error(
    st: Pass1Model,
    ins: InstructionModel,
    idx: int,
    e: ErrorModel,
)
    requires
        ins.label is Some,
        crate::assembler::spec_label_step(st, ins, idx).errors.contains(e),
    ensures
        spec_pass1_step(st, ins, idx).errors.contains(e),
{
    let st1 = crate::assembler::spec_label_step(st, ins, idx);
    if ins.directive is Some {
        let k = choose|k: int| 0 <= k < st1.errors.len() && st1.errors[k] == e;
        assert(crate::assembler::spec_directive_step(st1, ins, idx).errors[k] == e);
    }
}

proof fn lemma_label_then_directive_keeps_symbol(
    st: Pass1Model,
    ins: InstructionModel,
    idx: int,
    n: Seq<char>,
)
    requires
        ins.label is Some,
        spec_lookup(crate::assembler::spec_label_step(st, ins, idx).symbols, n) is Some,
    ensures
        spec_lookup(spec_pass1_step(st, ins, idx).symbols, n) is Some,
{
    let st1 = crate::assembler::spec_label_step(st, ins, idx);
    if ins.directive is Some {
        match spec_directive_name(ins) {
            Some(dname) => {
                if dname == "asciiz"@ {
                    match crate::instruction_parsers::spec_string_constant(ins) {
                        Some(_) => match spec_label_name(ins) {
                            Some(lname) => {
                                lemma_presence_set_offset(
                                    st1.symbols,
                                    lname,
                                    crate::assembler::ro_patch_offset(st1.ro.len() as int),
                                    n,
                                );
                            },
                            None => {},
                        },
                        None => {},
                    }
                }
            },
            None => {},
        }
    }
}


/// Whether an instruction's directive declares a known section.
pub open spec fn spec_is_section_header(ins: InstructionModel) -> bool {
    match spec_directive_name(ins) {
        Some(name) => !(section_of(name) is Unknown),
        None => false,
    }
}

/// How many known section headers `instrs[i..]` holds.
pub open spec fn spec_section_count(instrs: Seq<InstructionModel>, i: int) -> int
    decreases instrs.len() - i,
{
    if 0 <= i < instrs.len() {
        (if instrs[i].directive is Some && spec_is_section_header(instrs[i]) {
            1int
        } else {
            0int
        }) + spec_section_count(instrs, i + 1)
    } else {
        0
    }
}

proof fn lemma_step_sections_len(st: Pass1Model, ins: InstructionModel, idx: int)
    ensures
        spec_pass1_step(st, ins, idx).sections.len() == st.sections.len() + (
        if ins.directive is Some && spec_is_section_header(ins) {
            1int
        } else {
            0int
        }),
{
    broadcast use vstd::string::group_string_axioms;

    reveal_strlit("asciiz");
    reveal_strlit("data");
    reveal_strlit("code");
    assert("asciiz"@.len() == 6 && "data"@.len() == 4 && "code"@.len() == 4);
    assert("asciiz"@ != "data"@ && "asciiz"@ != "code"@);
}

proof fn lemma_pass1_sections_count(instrs: Seq<InstructionModel>, st: Pass1Model, k: int)
    requires
        0 <= k <= instrs.len(),
    ensures
        spec_pass1_from(instrs, st, k).sections.len() == st.sections.len() + spec_section_count(
            instrs,
            k,
        ),
    decreases instrs.len() - k,
{
    if k < instrs.len() {
        lemma_step_sections_len(st, instrs[k], k);
        lemma_pass1_sections_count(instrs, spec_pass1_step(st, instrs[k], k), k + 1);
    }
}

/// Law: when the first pass reports no diagnostics, a program with exactly
/// two section headers assembles successfully, and one with any other count
/// fails with exactly the "insufficient sections" diagnostic.
pub proof fn lemma_section_count_enforcement(src: Seq<char>, instrs: Seq<InstructionModel>)
    requires
        spec_parse_program(src) == Some(instrs),
        spec_pass1(instrs).errors.len() == 0,
    ensures
        spec_section_count(instrs, 0) != 2 ==> spec_assemble(src) == Err::<
            Seq<u8>,
            Seq<ErrorModel>,
        >(seq![ErrorModel::InsufficientSections]),
        spec_section_count(instrs, 0) == 2 ==> spec_assemble(src) is Ok,
{
    lemma_pass1_sections_count(instrs, pass1_initial(), 0);
    let st = spec_pass1(instrs);
    assert(st.sections.len() == spec_section_count(instrs, 0));
    if spec_section_count(instrs, 0) != 2 {
        assert(st.errors.push(ErrorModel::InsufficientSections) =~= seq![
            ErrorModel::InsufficientSections,
        ]);
    }
}

} // verus!
