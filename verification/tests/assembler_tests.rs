use roc_cpu::assembler::assemble;
use roc_cpu::assembler::tokenize;
use roc_cpu::assembler::translate_asm_to_opcode;
use roc_cpu::assembler::AsmError;
use roc_cpu::assembler::Operation;
use roc_cpu::assembler::Program;
use roc_cpu::assembler::RocCPULiteral;
use roc_cpu::assembler::Token;
use roc_cpu::types::RocCPUInstruction;
use roc_cpu::types::RocCPURegister;

#[test]
fn tokenize_simple_statement() {
    let tokens = tokenize(b"PUT $ax,5;").unwrap();
    assert_eq!(tokens.len(), 6);
    assert!(matches!(&tokens[0], Token::Ident(name) if name == b"PUT"));
    assert!(matches!(&tokens[1], Token::Dollar));
    assert!(matches!(&tokens[2], Token::Ident(name) if name == b"ax"));
    assert!(matches!(&tokens[3], Token::Comma));
    assert!(matches!(&tokens[4], Token::Number(5)));
    assert!(matches!(&tokens[5], Token::Semicolon));
}

#[test]
fn tokenize_hex_and_comments() {
    let tokens = tokenize(b"// red pixel\nPUTMEM 0x80, 0x00, 0xFF; // trailing\n").unwrap();
    assert_eq!(tokens.len(), 7);
    assert!(matches!(&tokens[1], Token::Number(0x80)));
    assert!(matches!(&tokens[3], Token::Number(0x00)));
    assert!(matches!(&tokens[5], Token::Number(0xFF)));
}

#[test]
fn tokenize_rejects_stray_byte() {
    assert_eq!(tokenize(b"PUT # 5;"), Err(AsmError::UnexpectedCharacter));
}

#[test]
fn parse_records_label_indexes() {
    let tokens = tokenize(b"EXIT; @a NOP; @b EXIT;").unwrap();
    let prgm = Program::parse(&tokens).unwrap();
    assert_eq!(prgm.operations.len(), 3);
    assert_eq!(prgm.labels.len(), 2);
    assert_eq!(prgm.labels[0].name, b"a".to_vec());
    assert_eq!(prgm.labels[0].index, 1);
    assert_eq!(prgm.labels[1].name, b"b".to_vec());
    assert_eq!(prgm.labels[1].index, 2);
}

#[test]
fn translate_label_declaration_emits_nothing() {
    let label = Operation::LabelOperation {
        label: RocCPULiteral::Label(b"spot".to_vec()),
    };
    assert_eq!(translate_asm_to_opcode(&label, &Vec::new()), Ok(None));
}

#[test]
fn assemble_basic_program() {
    let program = assemble(b"PUT $ax,5; PUT $bx,7; ADD $ax,$bx; MOV $ret,$ax; EXIT;").unwrap();
    assert_eq!(
        program,
        vec![
            RocCPUInstruction::Put(RocCPURegister::GeneralPurposeA, 5),
            RocCPUInstruction::Put(RocCPURegister::GeneralPurposeB, 7),
            RocCPUInstruction::Add(
                RocCPURegister::GeneralPurposeA,
                RocCPURegister::GeneralPurposeB
            ),
            RocCPUInstruction::Mov(
                RocCPURegister::ReturnValue,
                RocCPURegister::GeneralPurposeA
            ),
            RocCPUInstruction::Exit,
        ]
    );
}

#[test]
fn assemble_resolves_forward_and_backward_references() {
    // @skip is referenced before its declaration, @t after its own.
    let program = assemble(b"JUMP @skip; @t SETRET 7; EXIT; @skip JUMP @t;").unwrap();
    assert_eq!(
        program,
        vec![
            RocCPUInstruction::Jump(0, 3),
            RocCPUInstruction::SetRet(7),
            RocCPUInstruction::Exit,
            RocCPUInstruction::Jump(0, 1),
        ]
    );
}

#[test]
fn assemble_accepts_raw_two_byte_jump_form() {
    let program = assemble(b"JUMP 1, 4; CALL 0, 2; JZ 0, 0;").unwrap();
    assert_eq!(
        program,
        vec![
            RocCPUInstruction::Jump(1, 4),
            RocCPUInstruction::Call(0, 2),
            RocCPUInstruction::JumpIfZero(0, 0),
        ]
    );
}

#[test]
fn assemble_rejects_unknown_mnemonic() {
    assert_eq!(assemble(b"FLY $ax;"), Err(AsmError::UnknownMnemonic));
    assert_eq!(assemble(b"HALT;"), Err(AsmError::UnknownMnemonic));
}

#[test]
fn assemble_rejects_wrong_arity() {
    assert_eq!(assemble(b"ADD $ax;"), Err(AsmError::ArityMismatch));
    assert_eq!(assemble(b"EXIT 1;"), Err(AsmError::ArityMismatch));
    assert_eq!(assemble(b"PUSH $ax,$bx;"), Err(AsmError::ArityMismatch));
}

#[test]
fn assemble_rejects_unknown_register() {
    assert_eq!(assemble(b"PUSH $zz;"), Err(AsmError::UnknownRegister));
    assert_eq!(assemble(b"ADD $ax,$foo;"), Err(AsmError::UnknownRegister));
}

#[test]
fn assemble_rejects_undefined_label() {
    assert_eq!(assemble(b"JUMP @nowhere;"), Err(AsmError::UndefinedLabel));
}

#[test]
fn assemble_rejects_label_outside_control_position() {
    assert_eq!(assemble(b"PUSH @l; @l EXIT;"), Err(AsmError::MisplacedLabel));
    assert_eq!(
        assemble(b"SETRET @l; @l EXIT;"),
        Err(AsmError::MisplacedLabel)
    );
}

#[test]
fn assemble_rejects_wrong_operand_kind() {
    assert_eq!(assemble(b"JUMP 5;"), Err(AsmError::InvalidOperand));
    assert_eq!(assemble(b"SETRET $ax;"), Err(AsmError::InvalidOperand));
    assert_eq!(assemble(b"ADD $ax,3;"), Err(AsmError::InvalidOperand));
}

#[test]
fn assemble_rejects_out_of_range_immediate() {
    assert_eq!(assemble(b"SETRET 256;"), Err(AsmError::ImmediateOutOfRange));
    assert_eq!(assemble(b"PUT $ax,999;"), Err(AsmError::ImmediateOutOfRange));
    assert_eq!(
        assemble(b"PUTMEM 0x100,0,0;"),
        Err(AsmError::ImmediateOutOfRange)
    );
}

#[test]
fn assemble_rejects_duplicate_label() {
    assert_eq!(assemble(b"@a EXIT; @a NOP;"), Err(AsmError::DuplicateLabel));
}

#[test]
fn assemble_rejects_malformed_statements() {
    assert_eq!(assemble(b"ADD $ax $bx;"), Err(AsmError::SyntaxError));
    assert_eq!(assemble(b"5;"), Err(AsmError::SyntaxError));
    assert_eq!(assemble(b"PUT $ax,5"), Err(AsmError::SyntaxError));
}

#[test]
fn assemble_rejects_bare_hex_prefix() {
    assert_eq!(assemble(b"SETRET 0x;"), Err(AsmError::SyntaxError));
}

#[test]
fn assemble_rejects_hex_immediate_over_byte_range() {
    assert_eq!(
        assemble(b"SETRET 0x1FF;"),
        Err(AsmError::ImmediateOutOfRange)
    );
}

#[test]
fn assemble_rejects_number_glued_to_letters() {
    assert_eq!(assemble(b"SETRET 12ab;"), Err(AsmError::SyntaxError));
}

#[test]
fn assemble_empty_source_gives_empty_program() {
    assert_eq!(assemble(b""), Ok(Vec::new()));
    assert_eq!(assemble(b"  // nothing here\n"), Ok(Vec::new()));
}
