//! The assembler driver: the two-pass protocol over a parsed program.
//!
//! Pass one walks the program with a four-byte address cursor, registering
//! labels in the symbol table, tracking sections, laying out string
//! constants in the read-only buffer, and accumulating diagnostics. If any
//! diagnostics exist, or the number of sections seen is not exactly two, the
//! run fails with the complete batch and pass two never executes. Pass two
//! serializes each opcode instruction through the now-complete symbol table;
//! the artifact is a fixed-format header followed by that body.

use vstd::prelude::*;
use vstd::string::StringExecFns;
use vstd::utf8::encode_utf8;

use crate::errors::{clone_errors, errors_view, AssemblerError, ErrorModel};
use crate::instruction_parsers::{
    spec_directive_name, spec_instruction_bytes, spec_label_name, spec_string_constant,
    AssemblerInstruction, InstructionModel,
};
use crate::program_parsers::{spec_parse_program, Program};
use crate::symbols::{
    spec_lookup, spec_set_offset, Symbol, SymbolModel, SymbolTable, SymbolType,
};
use crate::text::str_eq;

verus! {

/// Which pass the assembler is in. The transition happens exactly once,
/// after pass one completes.
#[derive(Debug, PartialEq, Eq, Clone, Copy, Structural)]
pub enum AssemblerPhase {
    First,
    Second,
}

impl Default for AssemblerPhase {
    /// A fresh assembler starts in the first phase.
    fn default() -> (r: Self)
        ensures
            r == AssemblerPhase::First,
    {
        AssemblerPhase::First
    }
}

/// A section of the program, optionally carrying its starting instruction
/// index.
#[derive(Debug, PartialEq, Clone, Copy)]
pub enum AssemblerSection {
    Data { starting_instruction: Option<u32> },
    Code { starting_instruction: Option<u32> },
    Unknown,
}

impl Default for AssemblerSection {
    /// A section of no known kind.
    fn default() -> (r: Self)
        ensures
            r == AssemblerSection::Unknown,
    {
        AssemblerSection::Unknown
    }
}

/// The section a header name declares: `data` and `code` are the known
/// kinds; anything else is unknown.
pub open spec fn section_of(name: Seq<char>) -> AssemblerSection {
    if name == "data"@ {
        AssemblerSection::Data { starting_instruction: None }
    } else if name == "code"@ {
        AssemblerSection::Code { starting_instruction: None }
    } else {
        AssemblerSection::Unknown
    }
}

impl<'a> From<&'a str> for AssemblerSection {
    fn from(name: &'a str) -> (r: AssemblerSection) {
        if str_eq(name, "data") {
            AssemblerSection::Data { starting_instruction: None }
        } else if str_eq(name, "code") {
            AssemblerSection::Code { starting_instruction: None }
        } else {
            AssemblerSection::Unknown
        }
    }
}

impl<'a> vstd::std_specs::convert::FromSpecImpl<&'a str> for AssemblerSection {
    open spec fn obeys_from_spec() -> bool {
        true
    }

    open spec fn from_spec(name: &'a str) -> AssemblerSection {
        section_of(name@)
    }
}

/// The driver state pass one folds over: the symbol table, the read-only
/// buffer, the diagnostics, and the sections seen so far.
#[verifier::ext_equal]
pub struct Pass1Model {
    pub symbols: Seq<SymbolModel>,
    pub ro: Seq<u8>,
    pub errors: Seq<ErrorModel>,
    pub sections: Seq<AssemblerSection>,
    pub current_section: Option<AssemblerSection>,
}

/// The state a fresh assembler starts pass one from.
pub open spec fn pass1_initial() -> Pass1Model {
    Pass1Model {
        symbols: Seq::<SymbolModel>::empty(),
        ro: Seq::<u8>::empty(),
        errors: Seq::<ErrorModel>::empty(),
        sections: Seq::<AssemblerSection>::empty(),
        current_section: None,
    }
}

/// The read-only cursor for a buffer of `n` bytes: its length, reduced to
/// the 32-bit offset space of the symbol table.
pub open spec fn ro_patch_offset(n: int) -> u32 {
    (n % 0x1_0000_0000) as u32
}

/// Pass one on one label declaration, a section being open: a fresh name is
/// registered at the address cursor (four bytes per instruction); a name
/// collision is a "symbol already declared" diagnostic; a label token
/// without a name is a "string constant declared without label" diagnostic.
pub open spec fn spec_label_decl_step(st: Pass1Model, ins: InstructionModel, idx: int) -> Pass1Model {
    match spec_label_name(ins) {
        None => Pass1Model {
            errors: st.errors.push(
                ErrorModel::StringConstantDeclaredWithoutLabel { instruction: idx as u32 },
            ),
            ..st
        },
        Some(name) => {
            if spec_lookup(st.symbols, name) is Some {
                Pass1Model { errors: st.errors.push(ErrorModel::SymbolAlreadyDeclared), ..st }
            } else {
                Pass1Model {
                    symbols: st.symbols.push(
                        SymbolModel { name, offset: (4 * idx) as u32 },
                    ),
                    ..st
                }
            }
        },
    }
}

/// Pass one on one label declaration: declaring a label with no section open
/// is a "no segment declared" diagnostic.
pub open spec fn spec_label_step(st: Pass1Model, ins: InstructionModel, idx: int) -> Pass1Model {
    if st.current_section is None {
        Pass1Model {
            errors: st.errors.push(
                ErrorModel::NoSegmentDeclarationFound { instruction: idx as u32 },
            ),
            ..st
        }
    } else {
        spec_label_decl_step(st, ins, idx)
    }
}

/// Pass one on one section header: a known section is pushed onto the seen
/// list and becomes current; an unknown name is ignored and changes nothing.
pub open spec fn spec_section_step(st: Pass1Model, name: Seq<char>) -> Pass1Model {
    let sec = section_of(name);
    if sec is Unknown {
        st
    } else {
        Pass1Model { sections: st.sections.push(sec), current_section: Some(sec), ..st }
    }
}

/// Pass one on one `.asciiz` directive: the instruction's own label is
/// patched to the read-only cursor (the start of the string), then the
/// string's bytes and a single terminating zero byte are appended. A missing
/// label is a diagnostic; a missing string constant changes nothing.
pub open spec fn spec_asciiz_step(st: Pass1Model, ins: InstructionModel, idx: int) -> Pass1Model {
    match spec_string_constant(ins) {
        None => st,
        Some(content) => match spec_label_name(ins) {
            None => Pass1Model {
                errors: st.errors.push(
                    ErrorModel::StringConstantDeclaredWithoutLabel { instruction: idx as u32 },
                ),
                ..st
            },
            Some(name) => Pass1Model {
                symbols: spec_set_offset(st.symbols, name, ro_patch_offset(st.ro.len() as int)),
                ro: st.ro + encode_utf8(content) + seq![0u8],
                ..st
            },
        },
    }
}

/// Pass one on one directive: `.asciiz` lays out a string constant; every
/// other directive is treated as a section header, known or not.
pub open spec fn spec_directive_step(st: Pass1Model, ins: InstructionModel, idx: int) -> Pass1Model {
    match spec_directive_name(ins) {
        None => st,
        Some(name) => {
            if name == "asciiz"@ {
                spec_asciiz_step(st, ins, idx)
            } else {
                spec_section_step(st, name)
            }
        },
    }
}

/// Pass one on one instruction: its label first, then its directive; the
/// address cursor advances by one word either way.
pub open spec fn spec_pass1_step(st: Pass1Model, ins: InstructionModel, idx: int) -> Pass1Model {
    let st1 = if ins.label is Some {
        spec_label_step(st, ins, idx)
    } else {
        st
    };
    if ins.directive is Some {
        spec_directive_step(st1, ins, idx)
    } else {
        st1
    }
}

/// Pass one over `instrs[k..]`, starting from state `st`.
pub open spec fn spec_pass1_from(instrs: Seq<InstructionModel>, st: Pass1Model, k: int) -> Pass1Model
    decreases instrs.len() - k,
{
    if 0 <= k < instrs.len() {
        spec_pass1_from(instrs, spec_pass1_step(st, instrs[k], k), k + 1)
    } else {
        st
    }
}

/// Pass one over a whole program, from a fresh assembler.
pub open spec fn spec_pass1(instrs: Seq<InstructionModel>) -> Pass1Model {
    spec_pass1_from(instrs, pass1_initial(), 0)
}

/// Pass two over `instrs[i..]`: the binary words of the opcode instructions,
/// concatenated in source order; directives and bare labels produce nothing.
pub open spec fn spec_body_from(
    instrs: Seq<InstructionModel>,
    syms: Seq<SymbolModel>,
    i: int,
) -> Seq<u8>
    decreases instrs.len() - i,
{
    if 0 <= i < instrs.len() {
        (if instrs[i].opcode is Some {
            spec_instruction_bytes(instrs[i], syms)
        } else {
            Seq::<u8>::empty()
        }) + spec_body_from(instrs, syms, i + 1)
    } else {
        Seq::<u8>::empty()
    }
}

/// The body of the artifact: pass two over the whole program.
pub open spec fn spec_body_bytes(instrs: Seq<InstructionModel>, syms: Seq<SymbolModel>) -> Seq<u8> {
    spec_body_from(instrs, syms, 0)
}

/// The fixed-format header: the four magic bytes, zero-padded through the
/// header length offset inclusive.
pub open spec fn spec_header() -> Seq<u8> {
    seq![45u8, 50u8, 49u8, 45u8] + Seq::new(61, |i: int| 0u8)
}

/// The diagnostic text of a whole-program grammar failure.
pub open spec fn parse_failure_note() -> Seq<char> {
    "could not parse the source text"@
}

/// The result of one whole assembly run over a source text: either the
/// header followed by the body, or the complete non-empty diagnostic batch.
pub open spec fn spec_assemble(src: Seq<char>) -> Result<Seq<u8>, Seq<ErrorModel>> {
    match spec_parse_program(src) {
        None => Err(seq![ErrorModel::ParseError { error: parse_failure_note() }]),
        Some(instrs) => {
            let st = spec_pass1(instrs);
            if st.errors.len() > 0 {
                Err(st.errors)
            } else if st.sections.len() != 2 {
                Err(st.errors.push(ErrorModel::InsufficientSections))
            } else {
                Ok(spec_header() + spec_body_bytes(instrs, st.symbols))
            }
        },
    }
}

/// The model of an assembly result.
pub open spec fn result_view(res: Result<Vec<u8>, Vec<AssemblerError>>) -> Result<
    Seq<u8>,
    Seq<ErrorModel>,
> {
    match res {
        Ok(v) => Ok(v@),
        Err(e) => Err(errors_view(e@)),
    }
}

/// The mathematical model of the driver state.
#[verifier::ext_equal]
pub struct AssemblerModel {
    pub phase: AssemblerPhase,
    pub symbols: Seq<SymbolModel>,
    pub ro: Seq<u8>,
    pub bytecode: Seq<u8>,
    pub ro_offset: u32,
    pub sections: Seq<AssemblerSection>,
    pub current_section: Option<AssemblerSection>,
    pub current_instruction: u32,
    pub errors: Seq<ErrorModel>,
}

/// The symbol table after every labeled instruction of `instrs[k..]` is
/// registered at four bytes per instruction, unconditionally.
pub open spec fn spec_extract_labels_from(
    instrs: Seq<InstructionModel>,
    syms: Seq<SymbolModel>,
    k: int,
) -> Seq<SymbolModel>
    decreases instrs.len() - k,
{
    if 0 <= k < instrs.len() {
        spec_extract_labels_from(
            instrs,
            match spec_label_name(instrs[k]) {
                Some(name) => syms.push(SymbolModel { name, offset: (4 * k) as u32 }),
                None => syms,
            },
            k + 1,
        )
    } else {
        syms
    }
}

/// The pass-one view of the driver state.
pub open spec fn pass1_model(m: AssemblerModel) -> Pass1Model {
    Pass1Model {
        symbols: m.symbols,
        ro: m.ro,
        errors: m.errors,
        sections: m.sections,
        current_section: m.current_section,
    }
}

/// A fresh driver: first phase, everything empty.
pub open spec fn is_initial(m: AssemblerModel) -> bool {
    &&& m.phase == AssemblerPhase::First
    &&& m.symbols =~= Seq::<SymbolModel>::empty()
    &&& m.ro =~= Seq::<u8>::empty()
    &&& m.bytecode =~= Seq::<u8>::empty()
    &&& m.ro_offset == 0
    &&& m.sections =~= Seq::<AssemblerSection>::empty()
    &&& m.current_section is None
    &&& m.current_instruction == 0
    &&& m.errors =~= Seq::<ErrorModel>::empty()
}

/// The assembler driver. Its state lives for one run and is discarded after
/// the run produces its result.
#[derive(Debug)]
pub struct Assembler {
    /// Tracks which phase the assembler is in.
    phase: AssemblerPhase,
    /// Symbol table for labels.
    pub symbols: SymbolTable,
    /// The read-only data section constants are put in.
    pub ro: Vec<u8>,
    /// The compiled bytecode generated from the assembly instructions.
    pub bytecode: Vec<u8>,
    /// Tracks the current offset of the read-only section.
    ro_offset: u32,
    /// A list of all the sections seen in the code.
    sections: Vec<AssemblerSection>,
    /// The current section the assembler is in.
    current_section: Option<AssemblerSection>,
    /// The index of the instruction the assembler is processing.
    current_instruction: u32,
    /// Diagnostics found along the way, presented to the caller at the end.
    errors: Vec<AssemblerError>,
}

impl View for Assembler {
    type V = AssemblerModel;

    closed spec fn view(&self) -> AssemblerModel {
        AssemblerModel {
            phase: self.phase,
            symbols: self.symbols@,
            ro: self.ro@,
            bytecode: self.bytecode@,
            ro_offset: self.ro_offset,
            sections: self.sections@,
            current_section: self.current_section,
            current_instruction: self.current_instruction,
            errors: errors_view(self.errors@),
        }
    }
}

impl Assembler {
    /// The read-only cursor mirrors the read-only buffer's length.
    pub open spec fn wf(&self) -> bool {
        self@.ro_offset == ro_patch_offset(self@.ro.len() as int)
    }

    /// A fresh assembler, ready for one run.
    pub fn new() -> (r: Assembler)
        ensures
            is_initial(r@),
            r.wf(),
    {
        Assembler {
            current_instruction: 0,
            ro_offset: 0,
            ro: Vec::new(),
            bytecode: Vec::new(),
            sections: Vec::new(),
            errors: Vec::new(),
            phase: AssemblerPhase::First,
            symbols: SymbolTable::new(),
            current_section: None,
        }
    }

    /// Assembles a source text into the artifact bytes, or the complete
    /// batch of diagnostics. The length bound keeps every address cursor
    /// value inside the 32-bit offset space.
    pub fn assemble(&mut self, raw: &str) -> (res: Result<Vec<u8>, Vec<AssemblerError>>)
        requires
            is_initial(old(self)@),
            raw@.len() < 0x4000_0000,
        ensures
            result_view(res) == spec_assemble(raw@),
            spec_parse_program(raw@) is None ==> final(self)@ == old(self)@,
            spec_parse_program(raw@) is Some ==> final(self)@.symbols == spec_pass1(
                spec_parse_program(raw@).unwrap(),
            ).symbols && final(self)@.ro == spec_pass1(spec_parse_program(raw@).unwrap()).ro,
    {
        match crate::program_parsers::program(raw) {
            None => {
                let mut errs: Vec<AssemblerError> = Vec::new();
                errs.push(
                    AssemblerError::ParseError {
                        error: String::from_str("could not parse the source text"),
                    },
                );
                proof {
                    assert(errors_view(errs@) =~= seq![
                        ErrorModel::ParseError { error: parse_failure_note() },
                    ]);
                }
                Err(errs)
            },
            Some(prog) => {
                let mut out = self.write_pie_header();
                self.process_first_phase(&prog);
                proof {
                    assert(pass1_model(old(self)@) =~= pass1_initial());
                }
                if self.errors.len() > 0 {
                    return Err(clone_errors(&self.errors));
                }
                if self.sections.len() != 2 {
                    let ghost errs_before = self@.errors;
                    self.errors.push(AssemblerError::InsufficientSections);
                    proof {
                        assert(self@.errors =~= errs_before.push(ErrorModel::InsufficientSections));
                    }
                    return Err(clone_errors(&self.errors));
                }
                let mut body = self.process_second_phase(&prog);
                out.append(&mut body);
                Ok(out)
            },
        }
    }

    /// Runs the first pass over the program: labels into the symbol table,
    /// sections tracked, string constants laid out, diagnostics accumulated.
    /// Afterwards the assembler is in the second phase.
    pub fn process_first_phase(&mut self, p: &Program)
        requires
            old(self)@.phase == AssemblerPhase::First,
            old(self)@.current_instruction == 0,
            old(self).wf(),
            p@.len() < 0x4000_0000,
        ensures
            pass1_model(final(self)@) == spec_pass1_from(p@, pass1_model(old(self)@), 0),
            final(self)@.phase == AssemblerPhase::Second,
            final(self)@.current_instruction == p@.len(),
            final(self)@.bytecode == old(self)@.bytecode,
            final(self).wf(),
    {
        let n = p.instructions.len();
        let mut i: usize = 0;
        while i < n
            invariant
                n == p@.len(),
                n < 0x4000_0000,
                i <= n,
                self@.current_instruction == i,
                self@.phase == old(self)@.phase,
                self@.phase == AssemblerPhase::First,
                self@.bytecode == old(self)@.bytecode,
                self.wf(),
                spec_pass1_from(p@, pass1_model(old(self)@), 0) == spec_pass1_from(
                    p@,
                    pass1_model(self@),
                    i as int,
                ),
            decreases n - i,
        {
            let ins = &p.instructions[i];
            let ghost st_before = pass1_model(self@);
            if ins.is_label() {
                if self.current_section.is_some() {
                    self.process_label_declaration(ins);
                } else {
                    self.errors.push(
                        AssemblerError::NoSegmentDeclarationFound {
                            instruction: self.current_instruction,
                        },
                    );
                    proof {
                        assert(pass1_model(self@) =~= Pass1Model {
                            errors: st_before.errors.push(
                                ErrorModel::NoSegmentDeclarationFound {
                                    instruction: i as u32,
                                },
                            ),
                            ..st_before
                        });
                    }
                }
            }
            proof {
                assert(pass1_model(self@) == (if p@[i as int].label is Some {
                    spec_label_step(st_before, p@[i as int], i as int)
                } else {
                    st_before
                }));
            }
            if ins.is_directive() {
                self.process_directive(ins);
            }
            proof {
                assert(pass1_model(self@) == spec_pass1_step(st_before, p@[i as int], i as int));
            }
            self.current_instruction = self.current_instruction + 1;
            i = i + 1;
        }
        self.phase = AssemblerPhase::Second;
    }

    /// Registers one label declaration: a fresh name at the address cursor,
    /// a collision as a diagnostic.
    fn process_label_declaration(&mut self, i: &AssemblerInstruction)
        requires
            old(self)@.current_instruction < 0x4000_0000,
        ensures
            pass1_model(final(self)@) == spec_label_decl_step(
                pass1_model(old(self)@),
                i@,
                old(self)@.current_instruction as int,
            ),
            final(self)@.phase == old(self)@.phase,
            final(self)@.current_instruction == old(self)@.current_instruction,
            final(self)@.bytecode == old(self)@.bytecode,
            final(self)@.ro_offset == old(self)@.ro_offset,
    {
        let ghost st = pass1_model(old(self)@);
        let name = match i.get_label_name() {
            Some(name) => name,
            None => {
                self.errors.push(
                    AssemblerError::StringConstantDeclaredWithoutLabel {
                        instruction: self.current_instruction,
                    },
                );
                proof {
                    assert(pass1_model(self@) =~= spec_label_decl_step(
                        st,
                        i@,
                        old(self)@.current_instruction as int,
                    ));
                }
                return ;
            },
        };
        if self.symbols.has_symbol(name.as_str()) {
            self.errors.push(AssemblerError::SymbolAlreadyDeclared);
            proof {
                assert(pass1_model(self@) =~= spec_label_decl_step(
                    st,
                    i@,
                    old(self)@.current_instruction as int,
                ));
            }
            return ;
        }
        let offset = self.current_instruction * 4;
        let symbol = Symbol::new(name, SymbolType::Label, offset);
        self.symbols.add_symbol(symbol);
        proof {
            assert(pass1_model(self@) =~= spec_label_decl_step(
                st,
                i@,
                old(self)@.current_instruction as int,
            ));
        }
    }

    /// Handles one directive: `.asciiz` lays out its string constant; any
    /// other name is treated as a section header.
    fn process_directive(&mut self, i: &AssemblerInstruction)
        requires
            old(self).wf(),
            old(self)@.phase == AssemblerPhase::First,
        ensures
            pass1_model(final(self)@) == (match spec_directive_name(i@) {
                None => pass1_model(old(self)@),
                Some(name) => spec_directive_step(
                    pass1_model(old(self)@),
                    i@,
                    old(self)@.current_instruction as int,
                ),
            }),
            final(self)@.phase == old(self)@.phase,
            final(self)@.current_instruction == old(self)@.current_instruction,
            final(self)@.bytecode == old(self)@.bytecode,
            final(self).wf(),
    {
        let name = match i.get_directive_name() {
            Some(name) => name,
            None => {
                return ;
            },
        };
        if str_eq(name.as_str(), "asciiz") {
            self.handle_asciiz(i);
        } else {
            self.process_section_header(name.as_str());
        }
    }

    /// Handles a section header declaration such as `.code`: a known section
    /// is recorded and becomes current; an unknown name changes nothing.
    fn process_section_header(&mut self, header_name: &str)
        ensures
            pass1_model(final(self)@) == spec_section_step(pass1_model(old(self)@), header_name@),
            final(self)@.phase == old(self)@.phase,
            final(self)@.current_instruction == old(self)@.current_instruction,
            final(self)@.bytecode == old(self)@.bytecode,
            final(self)@.ro == old(self)@.ro,
            final(self)@.ro_offset == old(self)@.ro_offset,
    {
        let new_section: AssemblerSection = AssemblerSection::from(header_name);
        if let AssemblerSection::Unknown = new_section {
            return ;
        }
        self.sections.push(new_section.clone());
        self.current_section = Some(new_section);
        proof {
            assert(pass1_model(self@) =~= spec_section_step(
                pass1_model(old(self)@),
                header_name@,
            ));
        }
    }

    /// Handles a null-terminated string declaration such as
    /// `hello: .asciiz 'Hello!'`. Only the first phase lays out content; the
    /// second phase treats the directive as already handled.
    fn handle_asciiz(&mut self, i: &AssemblerInstruction)
        requires
            old(self).wf(),
        ensures
            pass1_model(final(self)@) == (if old(self)@.phase == AssemblerPhase::First {
                spec_asciiz_step(
                    pass1_model(old(self)@),
                    i@,
                    old(self)@.current_instruction as int,
                )
            } else {
                pass1_model(old(self)@)
            }),
            final(self)@.phase == old(self)@.phase,
            final(self)@.current_instruction == old(self)@.current_instruction,
            final(self)@.bytecode == old(self)@.bytecode,
            final(self).wf(),
    {
        if self.phase != AssemblerPhase::First {
            return ;
        }
        let ghost st = pass1_model(old(self)@);
        let content = match i.get_string_constant() {
            Some(content) => content,
            None => {
                return ;
            },
        };
        match i.get_label_name() {
            Some(name) => {
                self.symbols.set_symbol_offset(name.as_str(), self.ro_offset);
                let bs = content.as_str().as_bytes();
                let m = bs.len();
                let mut k: usize = 0;
                while k < m
                    invariant
                        m == bs@.len(),
                        k <= m,
                        self@.ro == st.ro + bs@.subrange(0, k as int),
                        self@.phase == old(self)@.phase,
                        self@.current_instruction == old(self)@.current_instruction,
                        self@.bytecode == old(self)@.bytecode,
                        self@.ro_offset == old(self)@.ro_offset,
                        self@.symbols == spec_set_offset(
                            st.symbols,
                            spec_label_name(i@).unwrap(),
                            ro_patch_offset(st.ro.len() as int),
                        ),
                        self@.errors == st.errors,
                        self@.sections == st.sections,
                        self@.current_section == st.current_section,
                    decreases m - k,
                {
                    self.ro.push(bs[k]);
                    proof {
                        assert(self@.ro =~= st.ro + bs@.subrange(0, k + 1));
                    }
                    k = k + 1;
                }
                self.ro.push(0);
                let cursor = self.ro.len();
                self.ro_offset = ((cursor as u64) % 0x1_0000_0000) as u32;
                proof {
                    assert(self@.ro =~= st.ro + encode_utf8(content@) + seq![0u8]);
                    assert(pass1_model(self@) =~= spec_asciiz_step(
                        st,
                        i@,
                        old(self)@.current_instruction as int,
                    ));
                }
            },
            None => {
                self.errors.push(
                    AssemblerError::StringConstantDeclaredWithoutLabel {
                        instruction: self.current_instruction,
                    },
                );
                proof {
                    assert(pass1_model(self@) =~= spec_asciiz_step(
                        st,
                        i@,
                        old(self)@.current_instruction as int,
                    ));
                }
            },
        }
    }

    /// Runs the second pass: every opcode instruction is serialized through
    /// the symbol table and appended to the body; directives and bare labels
    /// produce no bytes. Section re-tracking would have no observable effect
    /// here, so the pass leaves the section state alone.
    pub fn process_second_phase(&mut self, p: &Program) -> (r: Vec<u8>)
        requires
            p@.len() < 0x1_0000_0000,
        ensures
            r@ == spec_body_bytes(p@, old(self)@.symbols),
            final(self)@ == (AssemblerModel {
                current_instruction: p@.len() as u32,
                ..old(self)@
            }),
    {
        self.current_instruction = 0;
        let n = p.instructions.len();
        let mut out: Vec<u8> = Vec::new();
        let mut i: usize = 0;
        while i < n
            invariant
                n == p@.len(),
                n < 0x1_0000_0000,
                i <= n,
                self@ == (AssemblerModel { current_instruction: i as u32, ..old(self)@ }),
                spec_body_bytes(p@, old(self)@.symbols) == out@ + spec_body_from(
                    p@,
                    old(self)@.symbols,
                    i as int,
                ),
            decreases n - i,
        {
            let ins = &p.instructions[i];
            if ins.is_opcode() {
                let mut bytes = ins.to_bytes(&self.symbols);
                proof {
                    assert(out@ + (bytes@ + spec_body_from(p@, old(self)@.symbols, i + 1)) =~= (
                    out@ + bytes@) + spec_body_from(p@, old(self)@.symbols, i + 1));
                }
                out.append(&mut bytes);
            } else {
                proof {
                    assert(out@ + (Seq::<u8>::empty() + spec_body_from(
                        p@,
                        old(self)@.symbols,
                        i + 1,
                    )) =~= out@ + spec_body_from(p@, old(self)@.symbols, i + 1));
                }
            }
            self.current_instruction = self.current_instruction + 1;
            i = i + 1;
        }
        proof {
            assert(out@ + spec_body_from(p@, old(self)@.symbols, n as int) =~= out@);
        }
        out
    }

    /// Registers every label declaration of the program at four bytes per
    /// instruction, without section or collision checks: a bulk variant of
    /// the first pass's label handling.
    pub fn extract_labels(&mut self, p: &Program)
        requires
            p@.len() < 0x4000_0000,
        ensures
            final(self)@ == (AssemblerModel {
                symbols: spec_extract_labels_from(p@, old(self)@.symbols, 0),
                ..old(self)@
            }),
    {
        let n = p.instructions.len();
        let mut c: u32 = 0;
        let mut i: usize = 0;
        while i < n
            invariant
                n == p@.len(),
                n < 0x4000_0000,
                i <= n,
                c == 4 * i,
                self@ == (AssemblerModel {
                    symbols: self@.symbols,
                    ..old(self)@
                }),
                spec_extract_labels_from(p@, old(self)@.symbols, 0) == spec_extract_labels_from(
                    p@,
                    self@.symbols,
                    i as int,
                ),
            decreases n - i,
        {
            let ins = &p.instructions[i];
            if ins.is_label() {
                match ins.label_name() {
                    Some(name) => {
                        let symbol = Symbol::new(name, SymbolType::Label, c);
                        self.symbols.add_symbol(symbol);
                    },
                    None => {},
                }
            }
            c = c + 4;
            i = i + 1;
        }
    }

    /// The fixed-format header: the magic prefix, zero-padded through the
    /// header length offset inclusive.
    pub fn write_pie_header(&self) -> (r: Vec<u8>)
        ensures
            r@ == spec_header(),
            r@.len() == 65,
    {
        let mut header: Vec<u8> = Vec::new();
        header.push(45);
        header.push(50);
        header.push(49);
        header.push(45);
        while header.len() <= crate::PIE_HEADER_LENGTH
            invariant
                4 <= header@.len() <= 65,
                header@ == seq![45u8, 50u8, 49u8, 45u8] + Seq::new(
                    (header@.len() - 4) as nat,
                    |i: int| 0u8,
                ),
            decreases 65 - header.len(),
        {
            header.push(0);
            proof {
                assert(header@ =~= seq![45u8, 50u8, 49u8, 45u8] + Seq::new(
                    (header@.len() - 4) as nat,
                    |i: int| 0u8,
                ));
            }
        }
        proof {
            assert(header@ =~= spec_header());
        }
        header
    }
}

} // verus!
