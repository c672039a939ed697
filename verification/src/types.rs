//! The register file and the instruction set.
//!
//! Every instruction has a fixed numeric tag and a fixed operand list;
//! the pairing is the binary contract of the machine and is stated once
//! here, as the tag and arity functions.

use vstd::prelude::*;

verus! {

/// The closed set of ten register names.
#[derive(Clone, Copy, Debug, PartialEq, Eq, Structural)]
pub enum RocCPURegister {
    GeneralPurposeA,
    GeneralPurposeB,
    GeneralPurposeC,
    GeneralPurposeD,
    ReturnValue,
    FunctionParameter1,
    FunctionParameter2,
    FunctionParameter3,
    FunctionParameter4,
    FunctionReturn,
}

/// One machine instruction, with its operands resolved.
///
/// The arithmetic-with-immediate and multiply/divide variants are
/// reserved slots of the tag table: the assembler never emits them and
/// the virtual machine treats them as no-ops.
#[derive(Clone, Copy, Debug, PartialEq, Eq, Structural)]
pub enum RocCPUInstruction {
    Add(RocCPURegister, RocCPURegister),
    AddI(RocCPURegister, u8),
    Sub(RocCPURegister, RocCPURegister),
    SubI(RocCPURegister, u8),
    Mul(RocCPURegister, RocCPURegister),
    MulI(RocCPURegister, u8),
    Div(RocCPURegister, RocCPURegister),
    DivI(RocCPURegister, u8),
    SetRet(u8),
    Put(RocCPURegister, u8),
    Mov(RocCPURegister, RocCPURegister),
    PutMem(u8, u8, u8),
    Push(RocCPURegister),
    Pop(RocCPURegister),
    Exit,
    Nop,
    Cmp(RocCPURegister, RocCPURegister),
    Jump(u8, u8),
    JumpIfZero(u8, u8),
    Call(u8, u8),
    Return,
    Render,
    Wait(u8),
}

/// The fixed discriminant byte of each register, used by the encoder.
pub open spec fn spec_register_tag(r: RocCPURegister) -> u8 {
    match r {
        RocCPURegister::GeneralPurposeA => 0x01,
        RocCPURegister::GeneralPurposeB => 0x02,
        RocCPURegister::GeneralPurposeC => 0x03,
        RocCPURegister::GeneralPurposeD => 0x04,
        RocCPURegister::ReturnValue => 0x10,
        RocCPURegister::FunctionParameter1 => 0x20,
        RocCPURegister::FunctionParameter2 => 0x21,
        RocCPURegister::FunctionParameter3 => 0x22,
        RocCPURegister::FunctionParameter4 => 0x23,
        RocCPURegister::FunctionReturn => 0x30,
    }
}

pub fn register_tag(r: RocCPURegister) -> (t: u8)
    ensures
        t == spec_register_tag(r),
{
    match r {
        RocCPURegister::GeneralPurposeA => 0x01,
        RocCPURegister::GeneralPurposeB => 0x02,
        RocCPURegister::GeneralPurposeC => 0x03,
        RocCPURegister::GeneralPurposeD => 0x04,
        RocCPURegister::ReturnValue => 0x10,
        RocCPURegister::FunctionParameter1 => 0x20,
        RocCPURegister::FunctionParameter2 => 0x21,
        RocCPURegister::FunctionParameter3 => 0x22,
        RocCPURegister::FunctionParameter4 => 0x23,
        RocCPURegister::FunctionReturn => 0x30,
    }
}

/// The inverse of the register discriminant table.
pub open spec fn spec_register_from_tag(t: u8) -> Option<RocCPURegister> {
    if t == 0x01 {
        Some(RocCPURegister::GeneralPurposeA)
    } else if t == 0x02 {
        Some(RocCPURegister::GeneralPurposeB)
    } else if t == 0x03 {
        Some(RocCPURegister::GeneralPurposeC)
    } else if t == 0x04 {
        Some(RocCPURegister::GeneralPurposeD)
    } else if t == 0x10 {
        Some(RocCPURegister::ReturnValue)
    } else if t == 0x20 {
        Some(RocCPURegister::FunctionParameter1)
    } else if t == 0x21 {
        Some(RocCPURegister::FunctionParameter2)
    } else if t == 0x22 {
        Some(RocCPURegister::FunctionParameter3)
    } else if t == 0x23 {
        Some(RocCPURegister::FunctionParameter4)
    } else if t == 0x30 {
        Some(RocCPURegister::FunctionReturn)
    } else {
        None
    }
}

pub fn register_from_tag(t: u8) -> (r: Option<RocCPURegister>)
    ensures
        r == spec_register_from_tag(t),
{
    if t == 0x01 {
        Some(RocCPURegister::GeneralPurposeA)
    } else if t == 0x02 {
        Some(RocCPURegister::GeneralPurposeB)
    } else if t == 0x03 {
        Some(RocCPURegister::GeneralPurposeC)
    } else if t == 0x04 {
        Some(RocCPURegister::GeneralPurposeD)
    } else if t == 0x10 {
        Some(RocCPURegister::ReturnValue)
    } else if t == 0x20 {
        Some(RocCPURegister::FunctionParameter1)
    } else if t == 0x21 {
        Some(RocCPURegister::FunctionParameter2)
    } else if t == 0x22 {
        Some(RocCPURegister::FunctionParameter3)
    } else if t == 0x23 {
        Some(RocCPURegister::FunctionParameter4)
    } else if t == 0x30 {
        Some(RocCPURegister::FunctionReturn)
    } else {
        None
    }
}

/// The discriminant table is injective, so decoding undoes encoding.
pub proof fn lemma_register_tag_round_trip(r: RocCPURegister)
    ensures
        spec_register_from_tag(spec_register_tag(r)) == Some(r),
{
}

/// The opcode tag of each instruction, the first byte of its encoding.
pub open spec fn spec_opcode_tag(i: RocCPUInstruction) -> u8 {
    match i {
        RocCPUInstruction::Add(_, _) => 0x01,
        RocCPUInstruction::AddI(_, _) => 0x02,
        RocCPUInstruction::Sub(_, _) => 0x03,
        RocCPUInstruction::SubI(_, _) => 0x04,
        RocCPUInstruction::Mul(_, _) => 0x05,
        RocCPUInstruction::MulI(_, _) => 0x06,
        RocCPUInstruction::Div(_, _) => 0x07,
        RocCPUInstruction::DivI(_, _) => 0x08,
        RocCPUInstruction::SetRet(_) => 0x20,
        RocCPUInstruction::Put(_, _) => 0x21,
        RocCPUInstruction::Mov(_, _) => 0x22,
        RocCPUInstruction::PutMem(_, _, _) => 0x40,
        RocCPUInstruction::Push(_) => 0x41,
        RocCPUInstruction::Pop(_) => 0x42,
        RocCPUInstruction::Exit => 0x80,
        RocCPUInstruction::Nop => 0x81,
        RocCPUInstruction::Cmp(_, _) => 0x82,
        RocCPUInstruction::Jump(_, _) => 0xA0,
        RocCPUInstruction::JumpIfZero(_, _) => 0xA1,
        RocCPUInstruction::Call(_, _) => 0xB0,
        RocCPUInstruction::Return => 0xB1,
        RocCPUInstruction::Render => 0xF0,
        RocCPUInstruction::Wait(_) => 0xF1,
    }
}

pub fn opcode_tag(i: RocCPUInstruction) -> (t: u8)
    ensures
        t == spec_opcode_tag(i),
{
    match i {
        RocCPUInstruction::Add(_, _) => 0x01,
        RocCPUInstruction::AddI(_, _) => 0x02,
        RocCPUInstruction::Sub(_, _) => 0x03,
        RocCPUInstruction::SubI(_, _) => 0x04,
        RocCPUInstruction::Mul(_, _) => 0x05,
        RocCPUInstruction::MulI(_, _) => 0x06,
        RocCPUInstruction::Div(_, _) => 0x07,
        RocCPUInstruction::DivI(_, _) => 0x08,
        RocCPUInstruction::SetRet(_) => 0x20,
        RocCPUInstruction::Put(_, _) => 0x21,
        RocCPUInstruction::Mov(_, _) => 0x22,
        RocCPUInstruction::PutMem(_, _, _) => 0x40,
        RocCPUInstruction::Push(_) => 0x41,
        RocCPUInstruction::Pop(_) => 0x42,
        RocCPUInstruction::Exit => 0x80,
        RocCPUInstruction::Nop => 0x81,
        RocCPUInstruction::Cmp(_, _) => 0x82,
        RocCPUInstruction::Jump(_, _) => 0xA0,
        RocCPUInstruction::JumpIfZero(_, _) => 0xA1,
        RocCPUInstruction::Call(_, _) => 0xB0,
        RocCPUInstruction::Return => 0xB1,
        RocCPUInstruction::Render => 0xF0,
        RocCPUInstruction::Wait(_) => 0xF1,
    }
}

/// How many operand bytes follow an instruction's tag byte.
pub open spec fn spec_operand_arity(i: RocCPUInstruction) -> nat {
    match i {
        RocCPUInstruction::Add(_, _) => 2,
        RocCPUInstruction::AddI(_, _) => 2,
        RocCPUInstruction::Sub(_, _) => 2,
        RocCPUInstruction::SubI(_, _) => 2,
        RocCPUInstruction::Mul(_, _) => 2,
        RocCPUInstruction::MulI(_, _) => 2,
        RocCPUInstruction::Div(_, _) => 2,
        RocCPUInstruction::DivI(_, _) => 2,
        RocCPUInstruction::SetRet(_) => 1,
        RocCPUInstruction::Put(_, _) => 2,
        RocCPUInstruction::Mov(_, _) => 2,
        RocCPUInstruction::PutMem(_, _, _) => 3,
        RocCPUInstruction::Push(_) => 1,
        RocCPUInstruction::Pop(_) => 1,
        RocCPUInstruction::Exit => 0,
        RocCPUInstruction::Nop => 0,
        RocCPUInstruction::Cmp(_, _) => 2,
        RocCPUInstruction::Jump(_, _) => 2,
        RocCPUInstruction::JumpIfZero(_, _) => 2,
        RocCPUInstruction::Call(_, _) => 2,
        RocCPUInstruction::Return => 0,
        RocCPUInstruction::Render => 0,
        RocCPUInstruction::Wait(_) => 1,
    }
}

} // verus!
