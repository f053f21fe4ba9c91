//! Tests for the tokenizer and the instruction/program grammar.

use iridium_asm::directive_parsers::directive_combined;
use iridium_asm::instruction::Opcode;
use iridium_asm::instruction_parsers::{instruction, instruction_combined, AssemblerInstruction};
use iridium_asm::label_parsers::label_declaration;
use iridium_asm::operand_parsers::operand;
use iridium_asm::opcode_parsers::opcode;
use iridium_asm::operand_parsers::{integer_operand, irstring, register};
use iridium_asm::program_parsers::program;
use iridium_asm::symbols::SymbolTable;
use iridium_asm::tokens::Token;

#[test]
fn test_opcode_load() {
    // First tests that the opcode is detected and parsed correctly
    let result = opcode("load", 0);
    assert_eq!(result.is_some(), true);
    let (token, rest) = result.unwrap();
    assert_eq!(token, Token::Op { code: Opcode::LOAD });
    assert_eq!(rest, 4);

    // An unknown mnemonic still tokenizes, as the illegal sentinel opcode;
    // its illegality surfaces only when the engine decodes the byte.
    let result = opcode("aold", 0);
    assert_eq!(result.unwrap().0, Token::Op { code: Opcode::IGL });
}

#[test]
fn test_parse_integer_operand() {
    // Test a valid integer operand
    let result = integer_operand("#10", 0);
    assert_eq!(result.is_some(), true);
    let (value, rest) = result.unwrap();
    assert_eq!(rest, 3);
    assert_eq!(value, Token::IntegerOperand { value: 10 });

    // Test an invalid one (missing the #)
    let result = integer_operand("10", 0);
    assert_eq!(result.is_some(), false);
}

#[test]
fn test_parse_string_operand() {
    let result = irstring("'This is a test'", 0);
    assert_eq!(result.is_some(), true);
}

#[test]
fn test_parse_register() {
    let result = register("$31", 0);
    assert_eq!(result, Some((Token::Register { reg_num: 31 }, 3)));
    // A register index beyond one byte does not match.
    let result = register("$300", 0);
    assert_eq!(result.is_some(), false);
    // Missing the sigil.
    let result = register("31", 0);
    assert_eq!(result.is_some(), false);
}

#[test]
fn test_parse_instruction_form_one() {
    let s = "load $0 #100\n";
    let result = instruction_combined(s, 0);
    assert_eq!(
        result,
        Some((
            AssemblerInstruction {
                opcode: Some(Token::Op { code: Opcode::LOAD }),
                label: None,
                directive: None,
                operand1: Some(Token::Register { reg_num: 0 }),
                operand2: Some(Token::IntegerOperand { value: 100 }),
                operand3: None
            },
            s.len()
        ))
    );
}

#[test]
fn test_parse_instruction_form_one_with_label() {
    let s = "load $0 @test1\n";
    let result = instruction_combined(s, 0);
    assert_eq!(
        result,
        Some((
            AssemblerInstruction {
                opcode: Some(Token::Op { code: Opcode::LOAD }),
                label: None,
                directive: None,
                operand1: Some(Token::Register { reg_num: 0 }),
                operand2: Some(Token::LabelUsage {
                    name: "test1".to_string()
                }),
                operand3: None
            },
            s.len()
        ))
    );
}

#[test]
fn test_parse_instruction_form_two() {
    let s = "hlt";
    let result = instruction_combined(s, 0);
    assert_eq!(
        result,
        Some((
            AssemblerInstruction {
                opcode: Some(Token::Op { code: Opcode::HLT }),
                label: None,
                directive: None,
                operand1: None,
                operand2: None,
                operand3: None
            },
            s.len()
        ))
    );
}

#[test]
fn test_parse_instruction_form_three() {
    let s = "add $0 $1 $2\n";
    let result = instruction_combined(s, 0);
    assert_eq!(
        result,
        Some((
            AssemblerInstruction {
                opcode: Some(Token::Op { code: Opcode::ADD }),
                label: None,
                directive: None,
                operand1: Some(Token::Register { reg_num: 0 }),
                operand2: Some(Token::Register { reg_num: 1 }),
                operand3: Some(Token::Register { reg_num: 2 }),
            },
            s.len()
        ))
    );
}

#[test]
fn test_parse_instruction_with_comment_one() {
    let s = "; this is a test\nadd $0 $1 $2\n";
    let result = instruction_combined(s, 0);
    assert_eq!(
        result,
        Some((
            AssemblerInstruction {
                opcode: Some(Token::Op { code: Opcode::ADD }),
                label: None,
                directive: None,
                operand1: Some(Token::Register { reg_num: 0 }),
                operand2: Some(Token::Register { reg_num: 1 }),
                operand3: Some(Token::Register { reg_num: 2 }),
            },
            s.len()
        ))
    );
}

#[test]
fn test_parse_instruction_with_comment_two() {
    let s = "add $0 $1 $2 ; this is a test\n";
    let result = instruction_combined(s, 0);
    assert_eq!(
        result,
        Some((
            AssemblerInstruction {
                opcode: Some(Token::Op { code: Opcode::ADD }),
                label: None,
                directive: None,
                operand1: Some(Token::Register { reg_num: 0 }),
                operand2: Some(Token::Register { reg_num: 1 }),
                operand3: Some(Token::Register { reg_num: 2 }),
            },
            s.len()
        ))
    );
}

#[test]
fn test_parse_cloop() {
    let s = "cloop #10\n";
    let result = instruction_combined(s, 0);
    assert_eq!(
        result,
        Some((
            AssemblerInstruction {
                opcode: Some(Token::Op { code: Opcode::CLOOP }),
                label: None,
                directive: None,
                operand1: Some(Token::IntegerOperand { value: 10 }),
                operand2: None,
                operand3: None
            },
            s.len()
        ))
    );
}

#[test]
fn test_parse_call() {
    let s = "call @test\n";
    let result = instruction_combined(s, 0);
    assert_eq!(
        result,
        Some((
            AssemblerInstruction {
                opcode: Some(Token::Op { code: Opcode::CALL }),
                label: None,
                directive: None,
                operand1: Some(Token::LabelUsage {
                    name: "test".to_string()
                }),
                operand2: None,
                operand3: None
            },
            s.len()
        ))
    );
}

#[test]
fn test_string_directive() {
    let result = directive_combined("test: .asciiz 'Hello'", 0);
    assert_eq!(result.is_some(), true);
    let (directive, _) = result.unwrap();

    // Yes, this is the what the result should be
    let correct_instruction = AssemblerInstruction {
        opcode: None,
        label: Some(Token::LabelDeclaration {
            name: "test".to_string(),
        }),
        directive: Some(Token::Directive {
            name: "asciiz".to_string(),
        }),
        operand1: Some(Token::IrString {
            name: "Hello".to_string(),
        }),
        operand2: None,
        operand3: None,
    };

    assert_eq!(directive, correct_instruction);
}

#[test]
fn test_parse_program() {
    let result = program("load $0 #100\n");
    assert_eq!(result.is_some(), true);
    let p = result.unwrap();
    assert_eq!(1, p.instructions.len());
    assert_eq!(
        p.instructions[0].opcode,
        Some(Token::Op { code: Opcode::LOAD })
    );
}

#[test]
fn test_program_to_bytes() {
    let result = program("load $0 #100\n");
    assert_eq!(result.is_some(), true);
    let p = result.unwrap();
    let symbols = SymbolTable::new();
    let bytecode = p.to_bytes(&symbols);
    assert_eq!(bytecode.len(), 4);
    println!("{:?}", bytecode);
}

#[test]
fn test_complete_program() {
    let result = program(".data\nhello: .asciiz 'Hello everyone!'\n.code\nhlt");
    assert_eq!(result.is_some(), true);
}

#[test]
fn test_program_rejects_trailing_garbage() {
    // A program that cannot be fully consumed is a whole-program failure.
    let result = program("load $0 #100\n???");
    assert_eq!(result.is_some(), false);
    // An empty text holds no instruction at all.
    let result = program("");
    assert_eq!(result.is_some(), false);
}

#[test]
fn test_parse_any_operand() {
    // The alternation order is integer, label usage, register, string.
    assert_eq!(
        operand(" #7", 0),
        Some((Token::IntegerOperand { value: 7 }, 3))
    );
    assert_eq!(
        operand("@loop_top", 0),
        Some((
            Token::LabelUsage {
                name: "loop_top".to_string()
            },
            9
        ))
    );
    assert_eq!(operand("$3", 0), Some((Token::Register { reg_num: 3 }, 2)));
    assert_eq!(
        operand("'hi'", 0),
        Some((Token::IrString { name: "hi".to_string() }, 4))
    );
    assert_eq!(operand("hlt", 0), None);
}

#[test]
fn test_parse_label_declaration() {
    assert_eq!(
        label_declaration("test1: inc $0", 0),
        Some((
            Token::LabelDeclaration {
                name: "test1".to_string()
            },
            6
        ))
    );
    assert_eq!(label_declaration("inc $0", 0), None);
}

#[test]
fn test_parse_either_instruction_form() {
    // The unified parser takes opcode and directive lines alike.
    let s = ".data\n";
    let (ins, rest) = instruction(s, 0).unwrap();
    assert_eq!(
        ins.directive,
        Some(Token::Directive {
            name: "data".to_string()
        })
    );
    assert_eq!(rest, s.len());
    let s = "hlt\n";
    let (ins, rest) = instruction(s, 0).unwrap();
    assert_eq!(ins.opcode, Some(Token::Op { code: Opcode::HLT }));
    assert_eq!(rest, s.len());
}

#[test]
fn test_integer_operand_signed_and_range() {
    // The grammar accepts an optional sign.
    let result = integer_operand("#-1", 0);
    assert_eq!(result.unwrap().0, Token::IntegerOperand { value: -1 });
    // A literal beyond 32 bits does not match.
    let result = integer_operand("#99999999999", 0);
    assert_eq!(result.is_some(), false);
}
