use roc_cpu::encode::decode_program;
use roc_cpu::encode::CPUProgramEncode;
use roc_cpu::encode::DecodeError;
use roc_cpu::encode::ProgramDecodable;
use roc_cpu::encode::ProgramEncodable;
use roc_cpu::types::RocCPUInstruction;
use roc_cpu::types::RocCPURegister;

#[test]
fn u8_encodes_to_itself() {
    assert_eq!(7u8.encode(), vec![7u8]);
    assert_eq!(u8::decode(9), 9);
}

#[test]
fn register_encodes_to_its_discriminant() {
    assert_eq!(RocCPURegister::GeneralPurposeA.encode(), vec![0x01]);
    assert_eq!(RocCPURegister::GeneralPurposeD.encode(), vec![0x04]);
    assert_eq!(RocCPURegister::ReturnValue.encode(), vec![0x10]);
    assert_eq!(RocCPURegister::FunctionParameter1.encode(), vec![0x20]);
    assert_eq!(RocCPURegister::FunctionParameter4.encode(), vec![0x23]);
    assert_eq!(RocCPURegister::FunctionReturn.encode(), vec![0x30]);
}

#[test]
fn instruction_encodes_to_tag_and_operands() {
    assert_eq!(
        RocCPUInstruction::Put(RocCPURegister::GeneralPurposeA, 5).encode(),
        vec![0x21, 0x01, 0x05]
    );
    assert_eq!(
        RocCPUInstruction::Add(
            RocCPURegister::GeneralPurposeA,
            RocCPURegister::GeneralPurposeB
        )
        .encode(),
        vec![0x01, 0x01, 0x02]
    );
    assert_eq!(RocCPUInstruction::Exit.encode(), vec![0x80]);
    assert_eq!(RocCPUInstruction::Call(1, 2).encode(), vec![0xB0, 0x01, 0x02]);
    assert_eq!(
        RocCPUInstruction::PutMem(0x87, 0x4D, 0xFF).encode(),
        vec![0x40, 0x87, 0x4D, 0xFF]
    );
    assert_eq!(RocCPUInstruction::Wait(3).encode(), vec![0xF1, 0x03]);
}

#[test]
fn encode_to_program_concatenates() {
    let program = vec![
        RocCPUInstruction::SetRet(7),
        RocCPUInstruction::Exit,
    ];
    let bytes = RocCPUInstruction::encode_to_program(program);
    assert_eq!(bytes, vec![0x20, 0x07, 0x80]);
}

#[test]
fn variant_names_match_the_mnemonics() {
    assert_eq!(
        RocCPUInstruction::variants_to_string(RocCPUInstruction::Add(
            RocCPURegister::GeneralPurposeA,
            RocCPURegister::GeneralPurposeB
        )),
        "ADD"
    );
    assert_eq!(
        RocCPUInstruction::variants_to_string(RocCPUInstruction::JumpIfZero(0, 1)),
        "JZ"
    );
    assert_eq!(
        RocCPUInstruction::variants_to_string(RocCPUInstruction::Exit),
        "EXIT"
    );
}

#[test]
fn decode_reverses_encode() {
    let program = vec![
        RocCPUInstruction::Put(RocCPURegister::GeneralPurposeA, 5),
        RocCPUInstruction::Put(RocCPURegister::GeneralPurposeB, 7),
        RocCPUInstruction::Add(
            RocCPURegister::GeneralPurposeA,
            RocCPURegister::GeneralPurposeB,
        ),
        RocCPUInstruction::Cmp(
            RocCPURegister::GeneralPurposeA,
            RocCPURegister::GeneralPurposeD,
        ),
        RocCPUInstruction::JumpIfZero(0, 9),
        RocCPUInstruction::Push(RocCPURegister::FunctionParameter2),
        RocCPUInstruction::Pop(RocCPURegister::FunctionParameter2),
        RocCPUInstruction::PutMem(0x80, 0x00, 0xAA),
        RocCPUInstruction::Call(0, 11),
        RocCPUInstruction::Return,
        RocCPUInstruction::Render,
        RocCPUInstruction::Wait(1),
        RocCPUInstruction::SetRet(255),
        RocCPUInstruction::Nop,
        RocCPUInstruction::Exit,
    ];
    let bytes = RocCPUInstruction::encode_to_program(program.clone());
    assert_eq!(decode_program(&bytes), Ok(program));
}

#[test]
fn decode_rejects_unknown_tag() {
    assert_eq!(decode_program(&[0xFF]), Err(DecodeError::UnknownOpcodeTag));
    assert_eq!(decode_program(&[0x09]), Err(DecodeError::UnknownOpcodeTag));
}

#[test]
fn decode_rejects_truncated_input() {
    assert_eq!(decode_program(&[0x01, 0x01]), Err(DecodeError::Truncated));
    assert_eq!(decode_program(&[0x20]), Err(DecodeError::Truncated));
    assert_eq!(
        decode_program(&[0x40, 0x80, 0x00]),
        Err(DecodeError::Truncated)
    );
}

#[test]
fn decode_rejects_bad_register_byte() {
    assert_eq!(
        decode_program(&[0x01, 0x99, 0x01]),
        Err(DecodeError::UnknownRegisterTag)
    );
    assert_eq!(
        decode_program(&[0x41, 0x00]),
        Err(DecodeError::UnknownRegisterTag)
    );
}

#[test]
fn decode_of_empty_input_is_the_empty_program() {
    assert_eq!(decode_program(&[]), Ok(Vec::new()));
}
