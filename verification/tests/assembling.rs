//! Tests for the symbol table, the two-pass driver, and the binary encoding.

use iridium_asm::assembler::Assembler;
use iridium_asm::errors::AssemblerError;
use iridium_asm::instruction::Opcode;
use iridium_asm::instruction_parsers::AssemblerInstruction;
use iridium_asm::symbols::{Symbol, SymbolTable, SymbolType};
use iridium_asm::tokens::Token;
use iridium_asm::{PIE_HEADER_LENGTH, PIE_HEADER_PREFIX};

#[test]
fn test_symbol_table() {
    let mut sym = SymbolTable::new();
    let new_symbol = Symbol::new("test".to_string(), SymbolType::Label, 12);
    sym.add_symbol(new_symbol);
    assert_eq!(sym.len(), 1);
    let v = sym.symbol_value("test");
    assert_eq!(true, v.is_some());
    let v = v.unwrap();
    assert_eq!(v, 12);
    let v = sym.symbol_value("does_not_exist");
    assert_eq!(v.is_some(), false);
}

#[test]
fn test_symbol_offset_patching() {
    let mut sym = SymbolTable::new();
    sym.add_symbol(Symbol::new("msg".to_string(), SymbolType::Label, 4));
    assert_eq!(sym.set_symbol_offset("msg", 0), true);
    assert_eq!(sym.symbol_value("msg"), Some(0));
    assert_eq!(sym.set_symbol_offset("other", 9), false);
}

#[test]
fn test_assemble_program() {
    // A counting loop inside a valid two-section wrapper: seven opcode
    // words follow the fixed header.
    let mut assembler = Assembler::new();
    let test_string =
        ".data\n.code\nload $0 #100\nload $1 #1\nload $2 #0\ntest: inc $0\nneq $0 $2\njmpe @test\nhlt";
    let program = assembler.assemble(test_string).unwrap();
    assert_eq!(program.len(), 65 + 7 * 4);
    // `test:` sits at instruction index 5, so it resolves to 20, and the
    // `jmpe` operand carries that offset high byte first.
    let jmpe_value: u8 = Opcode::JMPE.value();
    assert_eq!(&program[65 + 20..65 + 24], &[jmpe_value, 0, 20, 0]);
}

#[test]
fn test_assemble_twice_is_identical() {
    let src = ".data\nmsg: .asciiz 'Hi'\n.code\nhello: inc $0\njmp @hello\nhlt";
    let mut a1 = Assembler::new();
    let mut a2 = Assembler::new();
    let r1 = a1.assemble(src);
    let r2 = a2.assemble(src);
    assert_eq!(r1, r2);
    assert!(r1.is_ok());
}

#[test]
fn test_header_prefix_and_body_offset() {
    let mut assembler = Assembler::new();
    let out = assembler.assemble(".data\n.code\nhlt").unwrap();
    assert_eq!(&out[0..4], &PIE_HEADER_PREFIX);
    // Zero padding runs through the header length offset inclusive; the body
    // starts right after it.
    for i in 4..=PIE_HEADER_LENGTH {
        assert_eq!(out[i], 0);
    }
    assert_eq!(out.len(), PIE_HEADER_LENGTH + 1 + 4);
    assert_eq!(&out[PIE_HEADER_LENGTH + 1..], &[Opcode::HLT.value(), 0, 0, 0]);
}

#[test]
fn test_body_word_alignment() {
    let mut assembler = Assembler::new();
    let out = assembler
        .assemble(".data\n.code\nload $0 #7\nadd $0 $0 $0\nhlt")
        .unwrap();
    assert_eq!((out.len() - 65) % 4, 0);
    assert_eq!(out.len() - 65, 3 * 4);
}

#[test]
fn test_duplicate_symbol_fails() {
    let mut assembler = Assembler::new();
    let res = assembler.assemble(".data\n.code\ntest: hlt\ntest: hlt");
    let errs = res.unwrap_err();
    assert!(errs.contains(&AssemblerError::SymbolAlreadyDeclared));
}

#[test]
fn test_section_count_enforcement() {
    // Zero sections.
    let mut assembler = Assembler::new();
    let res = assembler.assemble("hlt");
    assert_eq!(res.unwrap_err(), vec![AssemblerError::InsufficientSections]);
    // One section.
    let mut assembler = Assembler::new();
    let res = assembler.assemble(".data\nhlt");
    assert_eq!(res.unwrap_err(), vec![AssemblerError::InsufficientSections]);
    // Three sections.
    let mut assembler = Assembler::new();
    let res = assembler.assemble(".data\n.code\n.data\nhlt");
    assert_eq!(res.unwrap_err(), vec![AssemblerError::InsufficientSections]);
    // Exactly two sections succeed, holding other content constant.
    let mut assembler = Assembler::new();
    assert!(assembler.assemble(".data\n.code\nhlt").is_ok());
}

#[test]
fn test_label_resolution_end_to_end() {
    let mut assembler = Assembler::new();
    let out = assembler
        .assemble(".data\n.code\nhello: inc $0\njmp @hello\nhlt")
        .unwrap();
    // `hello:` sits at instruction index 2, so it resolves to 8; the `jmp`
    // word is the second body word and carries the offset high byte first.
    assert_eq!(assembler.symbols.symbol_value("hello"), Some(8));
    assert_eq!(&out[65 + 4..65 + 8], &[Opcode::JMP.value(), 0, 8, 0]);
}

#[test]
fn test_string_constant_placement() {
    let mut assembler = Assembler::new();
    let res = assembler.assemble(".data\nmsg: .asciiz 'Hi'\n.code\nhlt");
    assert!(res.is_ok());
    // `msg` is patched from its address-cursor value to the start of the
    // string in the read-only segment.
    assert_eq!(assembler.symbols.symbol_value("msg"), Some(0));
    assert_eq!(assembler.ro, vec![b'H', b'i', 0]);
}

#[test]
fn test_register_encode_roundtrip() {
    // Every register index written by the encoder is the raw byte, so the
    // engine's decoding recovers it.
    let symbols = SymbolTable::new();
    for reg in 0u8..=31 {
        let ins = AssemblerInstruction {
            opcode: Some(Token::Op { code: Opcode::INC }),
            label: None,
            directive: None,
            operand1: Some(Token::Register { reg_num: reg }),
            operand2: None,
            operand3: None,
        };
        let bytes = ins.to_bytes(&symbols);
        assert_eq!(bytes, vec![Opcode::INC.value(), reg, 0, 0]);
    }
}

#[test]
fn test_integer_encode_roundtrip() {
    let symbols = SymbolTable::new();
    for value in [0i32, 1, 100, 255, 256, 32767, 65535, -1, -32768] {
        let ins = AssemblerInstruction {
            opcode: Some(Token::Op { code: Opcode::LOAD }),
            label: None,
            directive: None,
            operand1: Some(Token::Register { reg_num: 0 }),
            operand2: Some(Token::IntegerOperand { value }),
            operand3: None,
        };
        let bytes = ins.to_bytes(&symbols);
        assert_eq!(bytes.len(), 4);
        // High byte first, then low byte: together the low sixteen bits.
        let decoded = ((bytes[2] as u32) << 8) | bytes[3] as u32;
        assert_eq!(decoded, (value as u32) & 0xFFFF);
    }
}

#[test]
fn test_no_segment_declared() {
    let mut assembler = Assembler::new();
    let res = assembler.assemble("test: hlt\n.data\n.code");
    assert_eq!(
        res.unwrap_err(),
        vec![AssemblerError::NoSegmentDeclarationFound { instruction: 0 }]
    );
}

#[test]
fn test_string_constant_without_label() {
    let mut assembler = Assembler::new();
    let res = assembler.assemble(".data\n.asciiz 'Hi'\n.code\nhlt");
    assert_eq!(
        res.unwrap_err(),
        vec![AssemblerError::StringConstantDeclaredWithoutLabel { instruction: 1 }]
    );
}

#[test]
fn test_parse_error_is_reported() {
    let mut assembler = Assembler::new();
    let res = assembler.assemble("???");
    let errs = res.unwrap_err();
    assert_eq!(errs.len(), 1);
    assert!(matches!(errs[0], AssemblerError::ParseError { .. }));
}

#[test]
fn test_unknown_directive_is_ignored() {
    let mut assembler = Assembler::new();
    // `.foo` parses but declares no known section and is skipped.
    let res = assembler.assemble(".data\n.code\n.foo\nhlt");
    assert!(res.is_ok());
}

#[test]
fn test_unknown_mnemonic_encodes_sentinel() {
    let mut assembler = Assembler::new();
    let out = assembler.assemble(".data\n.code\naold").unwrap();
    assert_eq!(&out[65..], &[Opcode::IGL.value(), 0, 0, 0]);
}

#[test]
fn test_unresolved_label_is_tolerated() {
    // An unresolved label reference is logged-and-continued by design: the
    // operand contributes no bytes and the word is zero-padded.
    let mut assembler = Assembler::new();
    let out = assembler.assemble(".data\n.code\njmp @nowhere").unwrap();
    assert_eq!(&out[65..], &[Opcode::JMP.value(), 0, 0, 0]);
}

#[test]
fn test_negative_integer_encoding() {
    let mut assembler = Assembler::new();
    let out = assembler.assemble(".data\n.code\nload $0 #-1").unwrap();
    assert_eq!(&out[65..], &[Opcode::LOAD.value(), 0, 255, 255]);
}

#[test]
fn test_extract_labels() {
    let mut assembler = Assembler::new();
    let p = iridium_asm::program_parsers::program("nop\ntest: hlt").unwrap();
    assembler.extract_labels(&p);
    assert_eq!(assembler.symbols.symbol_value("test"), Some(4));
}
