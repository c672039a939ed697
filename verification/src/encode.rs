//! Byte-level encoding and decoding of instructions.
//!
//! An instruction is serialized as its tag byte followed by one byte
//! per operand, in declared order; a register operand contributes its
//! fixed discriminant byte.  Decoding mirrors the same table: the
//! leading tag byte selects the variant and fixes how many operand
//! bytes follow.

use vstd::prelude::*;

use crate::types::RocCPUInstruction;
use crate::types::RocCPURegister;
use crate::types::opcode_tag;
use crate::types::register_from_tag;
use crate::types::register_tag;
use crate::types::spec_opcode_tag;
use crate::types::spec_register_from_tag;
use crate::types::spec_register_tag;

verus! {

/// A value that serializes itself into a byte sequence.
pub trait ProgramEncodable: Sized {
    /// The byte sequence this value encodes to.
    spec fn spec_encode(&self) -> Seq<u8>;

    fn encode(&self) -> (r: Vec<u8>)
        ensures
            r@ == self.spec_encode(),
    ;
}

/// A value that can be read back from its single encoded byte.
pub trait ProgramDecodable: Sized {
    /// The value a byte decodes to.
    spec fn spec_decode(value: u8) -> Self;

    fn decode(value: u8) -> (r: Self)
        ensures
            r == Self::spec_decode(value),
    ;
}

impl ProgramEncodable for u8 {
    open spec fn spec_encode(&self) -> Seq<u8> {
        seq![*self]
    }

    fn encode(&self) -> (r: Vec<u8>) {
        let mut out: Vec<u8> = Vec::new();
        out.push(*self);
        proof {
            assert(out@ =~= self.spec_encode());
        }
        out
    }
}

impl ProgramDecodable for u8 {
    open spec fn spec_decode(value: u8) -> u8 {
        value
    }

    fn decode(value: u8) -> (r: Self) {
        value
    }
}

impl ProgramEncodable for RocCPURegister {
    open spec fn spec_encode(&self) -> Seq<u8> {
        seq![spec_register_tag(*self)]
    }

    fn encode(&self) -> (r: Vec<u8>) {
        let mut out: Vec<u8> = Vec::new();
        out.push(register_tag(*self));
        proof {
            assert(out@ =~= self.spec_encode());
        }
        out
    }
}

/// The encoding of one instruction: tag byte, then operand bytes.
pub open spec fn spec_encode_instruction(i: RocCPUInstruction) -> Seq<u8> {
    match i {
        RocCPUInstruction::Add(a, b) => seq![
            spec_opcode_tag(i),
            spec_register_tag(a),
            spec_register_tag(b),
        ],
        RocCPUInstruction::Sub(a, b) => seq![
            spec_opcode_tag(i),
            spec_register_tag(a),
            spec_register_tag(b),
        ],
        RocCPUInstruction::Mul(a, b) => seq![
            spec_opcode_tag(i),
            spec_register_tag(a),
            spec_register_tag(b),
        ],
        RocCPUInstruction::Div(a, b) => seq![
            spec_opcode_tag(i),
            spec_register_tag(a),
            spec_register_tag(b),
        ],
        RocCPUInstruction::Mov(a, b) => seq![
            spec_opcode_tag(i),
            spec_register_tag(a),
            spec_register_tag(b),
        ],
        RocCPUInstruction::Cmp(a, b) => seq![
            spec_opcode_tag(i),
            spec_register_tag(a),
            spec_register_tag(b),
        ],
        RocCPUInstruction::AddI(a, n) => seq![spec_opcode_tag(i), spec_register_tag(a), n],
        RocCPUInstruction::SubI(a, n) => seq![spec_opcode_tag(i), spec_register_tag(a), n],
        RocCPUInstruction::MulI(a, n) => seq![spec_opcode_tag(i), spec_register_tag(a), n],
        RocCPUInstruction::DivI(a, n) => seq![spec_opcode_tag(i), spec_register_tag(a), n],
        RocCPUInstruction::Put(a, n) => seq![spec_opcode_tag(i), spec_register_tag(a), n],
        RocCPUInstruction::SetRet(n) => seq![spec_opcode_tag(i), n],
        RocCPUInstruction::Wait(n) => seq![spec_opcode_tag(i), n],
        RocCPUInstruction::Push(a) => seq![spec_opcode_tag(i), spec_register_tag(a)],
        RocCPUInstruction::Pop(a) => seq![spec_opcode_tag(i), spec_register_tag(a)],
        RocCPUInstruction::PutMem(h, l, v) => seq![spec_opcode_tag(i), h, l, v],
        RocCPUInstruction::Jump(h, l) => seq![spec_opcode_tag(i), h, l],
        RocCPUInstruction::JumpIfZero(h, l) => seq![spec_opcode_tag(i), h, l],
        RocCPUInstruction::Call(h, l) => seq![spec_opcode_tag(i), h, l],
        RocCPUInstruction::Exit => seq![spec_opcode_tag(i)],
        RocCPUInstruction::Nop => seq![spec_opcode_tag(i)],
        RocCPUInstruction::Return => seq![spec_opcode_tag(i)],
        RocCPUInstruction::Render => seq![spec_opcode_tag(i)],
    }
}

impl ProgramEncodable for RocCPUInstruction {
    open spec fn spec_encode(&self) -> Seq<u8> {
        spec_encode_instruction(*self)
    }

    fn encode(&self) -> (r: Vec<u8>) {
        let mut out: Vec<u8> = Vec::new();
        out.push(opcode_tag(*self));
        match *self {
            RocCPUInstruction::Add(a, b)
            | RocCPUInstruction::Sub(a, b)
            | RocCPUInstruction::Mul(a, b)
            | RocCPUInstruction::Div(a, b)
            | RocCPUInstruction::Mov(a, b)
            | RocCPUInstruction::Cmp(a, b) => {
                out.push(register_tag(a));
                out.push(register_tag(b));
            },
            RocCPUInstruction::AddI(a, n)
            | RocCPUInstruction::SubI(a, n)
            | RocCPUInstruction::MulI(a, n)
            | RocCPUInstruction::DivI(a, n)
            | RocCPUInstruction::Put(a, n) => {
                out.push(register_tag(a));
                out.push(n);
            },
            RocCPUInstruction::SetRet(n) | RocCPUInstruction::Wait(n) => {
                out.push(n);
            },
            RocCPUInstruction::Push(a) | RocCPUInstruction::Pop(a) => {
                out.push(register_tag(a));
            },
            RocCPUInstruction::PutMem(h, l, v) => {
                out.push(h);
                out.push(l);
                out.push(v);
            },
            RocCPUInstruction::Jump(h, l)
            | RocCPUInstruction::JumpIfZero(h, l)
            | RocCPUInstruction::Call(h, l) => {
                out.push(h);
                out.push(l);
            },
            RocCPUInstruction::Exit
            | RocCPUInstruction::Nop
            | RocCPUInstruction::Return
            | RocCPUInstruction::Render => {},
        }
        proof {
            assert(out@ =~= self.spec_encode());
        }
        out
    }
}

/// Why a byte sequence failed to decode.
#[derive(Clone, Copy, Debug, PartialEq, Eq, Structural)]
pub enum DecodeError {
    /// The leading byte of an instruction is not a known opcode tag.
    UnknownOpcodeTag,
    /// A register operand byte is not a known register discriminant.
    UnknownRegisterTag,
    /// The sequence ends before the tag's declared operand count is met.
    Truncated,
}

pub open spec fn spec_is_reg_reg_tag(t: u8) -> bool {
    t == 0x01 || t == 0x03 || t == 0x05 || t == 0x07 || t == 0x22 || t == 0x82
}

pub open spec fn spec_is_reg_imm_tag(t: u8) -> bool {
    t == 0x02 || t == 0x04 || t == 0x06 || t == 0x08 || t == 0x21
}

pub open spec fn spec_is_imm_tag(t: u8) -> bool {
    t == 0x20 || t == 0xF1
}

pub open spec fn spec_is_reg_tag(t: u8) -> bool {
    t == 0x41 || t == 0x42
}

pub open spec fn spec_is_imm_imm_tag(t: u8) -> bool {
    t == 0xA0 || t == 0xA1 || t == 0xB0
}

pub open spec fn spec_is_no_operand_tag(t: u8) -> bool {
    t == 0x80 || t == 0x81 || t == 0xB1 || t == 0xF0
}

pub open spec fn spec_build_reg_reg(t: u8, a: RocCPURegister, b: RocCPURegister) -> RocCPUInstruction {
    if t == 0x01 {
        RocCPUInstruction::Add(a, b)
    } else if t == 0x03 {
        RocCPUInstruction::Sub(a, b)
    } else if t == 0x05 {
        RocCPUInstruction::Mul(a, b)
    } else if t == 0x07 {
        RocCPUInstruction::Div(a, b)
    } else if t == 0x22 {
        RocCPUInstruction::Mov(a, b)
    } else {
        RocCPUInstruction::Cmp(a, b)
    }
}

pub open spec fn spec_build_reg_imm(t: u8, a: RocCPURegister, n: u8) -> RocCPUInstruction {
    if t == 0x02 {
        RocCPUInstruction::AddI(a, n)
    } else if t == 0x04 {
        RocCPUInstruction::SubI(a, n)
    } else if t == 0x06 {
        RocCPUInstruction::MulI(a, n)
    } else if t == 0x08 {
        RocCPUInstruction::DivI(a, n)
    } else {
        RocCPUInstruction::Put(a, n)
    }
}

pub open spec fn spec_build_imm(t: u8, n: u8) -> RocCPUInstruction {
    if t == 0x20 {
        RocCPUInstruction::SetRet(n)
    } else {
        RocCPUInstruction::Wait(n)
    }
}

pub open spec fn spec_build_reg(t: u8, a: RocCPURegister) -> RocCPUInstruction {
    if t == 0x41 {
        RocCPUInstruction::Push(a)
    } else {
        RocCPUInstruction::Pop(a)
    }
}

pub open spec fn spec_build_imm_imm(t: u8, h: u8, l: u8) -> RocCPUInstruction {
    if t == 0xA0 {
        RocCPUInstruction::Jump(h, l)
    } else if t == 0xA1 {
        RocCPUInstruction::JumpIfZero(h, l)
    } else {
        RocCPUInstruction::Call(h, l)
    }
}

pub open spec fn spec_build_no_operand(t: u8) -> RocCPUInstruction {
    if t == 0x80 {
        RocCPUInstruction::Exit
    } else if t == 0x81 {
        RocCPUInstruction::Nop
    } else if t == 0xB1 {
        RocCPUInstruction::Return
    } else {
        RocCPUInstruction::Render
    }
}

/// Decode the instruction whose tag byte stands at position `i`.
pub open spec fn spec_decode_one(s: Seq<u8>, i: int) -> Result<RocCPUInstruction, DecodeError> {
    if !(0 <= i < s.len()) {
        Err(DecodeError::Truncated)
    } else {
        let t = s[i];
        if spec_is_reg_reg_tag(t) {
            if i + 3 > s.len() {
                Err(DecodeError::Truncated)
            } else {
                match (spec_register_from_tag(s[i + 1]), spec_register_from_tag(s[i + 2])) {
                    (Some(a), Some(b)) => Ok(spec_build_reg_reg(t, a, b)),
                    _ => Err(DecodeError::UnknownRegisterTag),
                }
            }
        } else if spec_is_reg_imm_tag(t) {
            if i + 3 > s.len() {
                Err(DecodeError::Truncated)
            } else {
                match spec_register_from_tag(s[i + 1]) {
                    Some(a) => Ok(spec_build_reg_imm(t, a, s[i + 2])),
                    None => Err(DecodeError::UnknownRegisterTag),
                }
            }
        } else if spec_is_imm_tag(t) {
            if i + 2 > s.len() {
                Err(DecodeError::Truncated)
            } else {
                Ok(spec_build_imm(t, s[i + 1]))
            }
        } else if spec_is_reg_tag(t) {
            if i + 2 > s.len() {
                Err(DecodeError::Truncated)
            } else {
                match spec_register_from_tag(s[i + 1]) {
                    Some(a) => Ok(spec_build_reg(t, a)),
                    None => Err(DecodeError::UnknownRegisterTag),
                }
            }
        } else if spec_is_imm_imm_tag(t) {
            if i + 3 > s.len() {
                Err(DecodeError::Truncated)
            } else {
                Ok(spec_build_imm_imm(t, s[i + 1], s[i + 2]))
            }
        } else if t == 0x40 {
            if i + 4 > s.len() {
                Err(DecodeError::Truncated)
            } else {
                Ok(RocCPUInstruction::PutMem(s[i + 1], s[i + 2], s[i + 3]))
            }
        } else if spec_is_no_operand_tag(t) {
            Ok(spec_build_no_operand(t))
        } else {
            Err(DecodeError::UnknownOpcodeTag)
        }
    }
}

/// Decode the whole byte sequence from position `i` to its end.
pub open spec fn spec_decode_from(s: Seq<u8>, i: int) -> Result<
    Seq<RocCPUInstruction>,
    DecodeError,
>
    decreases s.len() - i,
{
    if i >= s.len() {
        Ok(Seq::empty())
    } else {
        match spec_decode_one(s, i) {
            Err(e) => Err(e),
            Ok(ins) => {
                let next = i + 1 + crate::types::spec_operand_arity(ins);
                if i < next <= s.len() {
                    match spec_decode_from(s, next) {
                        Err(e) => Err(e),
                        Ok(rest) => Ok(seq![ins] + rest),
                    }
                } else {
                    Err(DecodeError::Truncated)
                }
            },
        }
    }
}

fn build_reg_reg(t: u8, a: RocCPURegister, b: RocCPURegister) -> (r: RocCPUInstruction)
    ensures
        r == spec_build_reg_reg(t, a, b),
{
    if t == 0x01 {
        RocCPUInstruction::Add(a, b)
    } else if t == 0x03 {
        RocCPUInstruction::Sub(a, b)
    } else if t == 0x05 {
        RocCPUInstruction::Mul(a, b)
    } else if t == 0x07 {
        RocCPUInstruction::Div(a, b)
    } else if t == 0x22 {
        RocCPUInstruction::Mov(a, b)
    } else {
        RocCPUInstruction::Cmp(a, b)
    }
}

fn build_reg_imm(t: u8, a: RocCPURegister, n: u8) -> (r: RocCPUInstruction)
    ensures
        r == spec_build_reg_imm(t, a, n),
{
    if t == 0x02 {
        RocCPUInstruction::AddI(a, n)
    } else if t == 0x04 {
        RocCPUInstruction::SubI(a, n)
    } else if t == 0x06 {
        RocCPUInstruction::MulI(a, n)
    } else if t == 0x08 {
        RocCPUInstruction::DivI(a, n)
    } else {
        RocCPUInstruction::Put(a, n)
    }
}

fn build_imm_imm(t: u8, h: u8, l: u8) -> (r: RocCPUInstruction)
    ensures
        r == spec_build_imm_imm(t, h, l),
{
    if t == 0xA0 {
        RocCPUInstruction::Jump(h, l)
    } else if t == 0xA1 {
        RocCPUInstruction::JumpIfZero(h, l)
    } else {
        RocCPUInstruction::Call(h, l)
    }
}

fn build_no_operand(t: u8) -> (r: RocCPUInstruction)
    ensures
        r == spec_build_no_operand(t),
{
    if t == 0x80 {
        RocCPUInstruction::Exit
    } else if t == 0x81 {
        RocCPUInstruction::Nop
    } else if t == 0xB1 {
        RocCPUInstruction::Return
    } else {
        RocCPUInstruction::Render
    }
}

/// Decode one instruction and report the position just past it.
fn decode_one(s: &[u8], i: usize) -> (r: Result<(RocCPUInstruction, usize), DecodeError>)
    requires
        i < s@.len(),
    ensures
        match r {
            Ok(p) => spec_decode_one(s@, i as int) == Ok::<RocCPUInstruction, DecodeError>(p.0)
                && p.1 == i + 1 + crate::types::spec_operand_arity(p.0) && p.1 <= s@.len(),
            Err(e) => spec_decode_one(s@, i as int) == Err::<RocCPUInstruction, DecodeError>(e),
        },
{
    let t = s[i];
    let n = s.len();
    if t == 0x01 || t == 0x03 || t == 0x05 || t == 0x07 || t == 0x22 || t == 0x82 {
        if n - i < 3 {
            return Err(DecodeError::Truncated);
        }
        match (register_from_tag(s[i + 1]), register_from_tag(s[i + 2])) {
            (Some(a), Some(b)) => Ok((build_reg_reg(t, a, b), i + 3)),
            _ => Err(DecodeError::UnknownRegisterTag),
        }
    } else if t == 0x02 || t == 0x04 || t == 0x06 || t == 0x08 || t == 0x21 {
        if n - i < 3 {
            return Err(DecodeError::Truncated);
        }
        match register_from_tag(s[i + 1]) {
            Some(a) => Ok((build_reg_imm(t, a, s[i + 2]), i + 3)),
            None => Err(DecodeError::UnknownRegisterTag),
        }
    } else if t == 0x20 || t == 0xF1 {
        if n - i < 2 {
            return Err(DecodeError::Truncated);
        }
        if t == 0x20 {
            Ok((RocCPUInstruction::SetRet(s[i + 1]), i + 2))
        } else {
            Ok((RocCPUInstruction::Wait(s[i + 1]), i + 2))
        }
    } else if t == 0x41 || t == 0x42 {
        if n - i < 2 {
            return Err(DecodeError::Truncated);
        }
        match register_from_tag(s[i + 1]) {
            Some(a) => {
                if t == 0x41 {
                    Ok((RocCPUInstruction::Push(a), i + 2))
                } else {
                    Ok((RocCPUInstruction::Pop(a), i + 2))
                }
            },
            None => Err(DecodeError::UnknownRegisterTag),
        }
    } else if t == 0xA0 || t == 0xA1 || t == 0xB0 {
        if n - i < 3 {
            return Err(DecodeError::Truncated);
        }
        Ok((build_imm_imm(t, s[i + 1], s[i + 2]), i + 3))
    } else if t == 0x40 {
        if n - i < 4 {
            return Err(DecodeError::Truncated);
        }
        Ok((RocCPUInstruction::PutMem(s[i + 1], s[i + 2], s[i + 3]), i + 4))
    } else if t == 0x80 || t == 0x81 || t == 0xB1 || t == 0xF0 {
        Ok((build_no_operand(t), i + 1))
    } else {
        Err(DecodeError::UnknownOpcodeTag)
    }
}

fn decode_from(s: &[u8], i: usize, out: &mut Vec<RocCPUInstruction>) -> (r: Result<
    (),
    DecodeError,
>)
    requires
        i <= s@.len(),
    ensures
        match spec_decode_from(s@, i as int) {
            Ok(rest) => r is Ok && final(out)@ == old(out)@ + rest,
            Err(e) => r == Err::<(), DecodeError>(e),
        },
    decreases s@.len() - i,
{
    if i >= s.len() {
        proof {
            assert(old(out)@ + Seq::<RocCPUInstruction>::empty() =~= old(out)@);
        }
        return Ok(());
    }
    match decode_one(s, i) {
        Err(e) => Err(e),
        Ok((ins, next)) => {
            out.push(ins);
            match decode_from(s, next, out) {
                Err(e) => Err(e),
                Ok(()) => {
                    proof {
                        let rest = spec_decode_from(s@, next as int)->Ok_0;
                        assert(old(out)@ + (seq![ins] + rest) =~= old(out)@.push(ins) + rest);
                    }
                    Ok(())
                },
            }
        },
    }
}

/// The concatenated encodings of a sequence of values.
pub open spec fn spec_encode_seq<T: ProgramEncodable>(s: Seq<T>) -> Seq<u8>
    decreases s.len(),
{
    if s.len() == 0 {
        Seq::empty()
    } else {
        s[0].spec_encode() + spec_encode_seq(s.drop_first())
    }
}

pub proof fn lemma_encode_seq_push<T: ProgramEncodable>(s: Seq<T>, x: T)
    ensures
        spec_encode_seq(s.push(x)) == spec_encode_seq(s) + x.spec_encode(),
    decreases s.len(),
{
    let sx = s.push(x);
    if s.len() == 0 {
        assert(sx.len() == 1);
        assert(sx[0] == x);
        assert(sx.drop_first() =~= Seq::<T>::empty());
        assert(spec_encode_seq(sx) == x.spec_encode() + spec_encode_seq(Seq::<T>::empty()));
        assert(spec_encode_seq(sx) =~= spec_encode_seq(s) + x.spec_encode());
    } else {
        lemma_encode_seq_push(s.drop_first(), x);
        assert(sx[0] == s[0]);
        assert(sx.drop_first() =~= s.drop_first().push(x));
        assert(spec_encode_seq(sx) == s[0].spec_encode() + (spec_encode_seq(s.drop_first())
            + x.spec_encode()));
        assert(spec_encode_seq(sx) =~= spec_encode_seq(s) + x.spec_encode());
    }
}

proof fn lemma_register_round_trip_all()
    ensures
        forall|r: RocCPURegister| #[trigger]
            spec_register_from_tag(spec_register_tag(r)) == Some(r),
{
    assert forall|r: RocCPURegister| #[trigger]
        spec_register_from_tag(spec_register_tag(r)) == Some(r) by {
        crate::types::lemma_register_tag_round_trip(r);
    }
}

/// Decoding at a position where an instruction's encoding begins
/// recovers that instruction.
proof fn lemma_decode_one_of_encoding(s: Seq<u8>, i: int, head: RocCPUInstruction)
    requires
        0 <= i,
        i + spec_encode_instruction(head).len() <= s.len(),
        forall|k: int|
            0 <= k < spec_encode_instruction(head).len() ==> s[i + k] == spec_encode_instruction(
                head,
            )[k],
    ensures
        spec_decode_one(s, i) == Ok::<RocCPUInstruction, DecodeError>(head),
{
    lemma_register_round_trip_all();
    let e = spec_encode_instruction(head);
    assert(s[i + 0] == e[0]);
    match head {
        RocCPUInstruction::Add(_, _)
        | RocCPUInstruction::Sub(_, _)
        | RocCPUInstruction::Mul(_, _)
        | RocCPUInstruction::Div(_, _)
        | RocCPUInstruction::Mov(_, _)
        | RocCPUInstruction::Cmp(_, _)
        | RocCPUInstruction::AddI(_, _)
        | RocCPUInstruction::SubI(_, _)
        | RocCPUInstruction::MulI(_, _)
        | RocCPUInstruction::DivI(_, _)
        | RocCPUInstruction::Put(_, _)
        | RocCPUInstruction::Jump(_, _)
        | RocCPUInstruction::JumpIfZero(_, _)
        | RocCPUInstruction::Call(_, _) => {
            assert(s[i + 1] == e[1]);
            assert(s[i + 2] == e[2]);
        },
        RocCPUInstruction::SetRet(_)
        | RocCPUInstruction::Wait(_)
        | RocCPUInstruction::Push(_)
        | RocCPUInstruction::Pop(_) => {
            assert(s[i + 1] == e[1]);
        },
        RocCPUInstruction::PutMem(_, _, _) => {
            assert(s[i + 1] == e[1]);
            assert(s[i + 2] == e[2]);
            assert(s[i + 3] == e[3]);
        },
        _ => {},
    }
}

/// Decoding from position `i` of a buffer whose tail is exactly the
/// encoding of `instrs` recovers `instrs`.
proof fn lemma_decode_from_encoding(s: Seq<u8>, i: int, instrs: Seq<RocCPUInstruction>)
    requires
        0 <= i <= s.len(),
        s.skip(i) == spec_encode_seq(instrs),
    ensures
        spec_decode_from(s, i) == Ok::<Seq<RocCPUInstruction>, DecodeError>(instrs),
    decreases instrs.len(),
{
    if instrs.len() == 0 {
        assert(s.skip(i).len() == s.len() - i);
        assert(i == s.len());
        assert(instrs =~= Seq::<RocCPUInstruction>::empty());
    } else {
        let head = instrs[0];
        let rest = instrs.drop_first();
        let e = spec_encode_instruction(head);
        assert(spec_encode_seq(instrs) == e + spec_encode_seq(rest));
        assert forall|k: int| 0 <= k < e.len() implies s[i + k] == e[k] by {
            assert(s.skip(i)[k] == s[i + k]);
            assert((e + spec_encode_seq(rest))[k] == e[k]);
        }
        assert(s.len() - i == e.len() + spec_encode_seq(rest).len());
        lemma_decode_one_of_encoding(s, i, head);
        let next = i + 1 + crate::types::spec_operand_arity(head);
        assert(e.len() == 1 + crate::types::spec_operand_arity(head));
        assert(next <= s.len());
        assert(s.skip(next) =~= spec_encode_seq(rest)) by {
            assert forall|k: int| 0 <= k < s.len() - next implies s.skip(next)[k]
                == spec_encode_seq(rest)[k] by {
                assert(s.skip(next)[k] == s[next + k]);
                assert(s.skip(i)[e.len() + k] == s[i + e.len() + k]);
                assert((e + spec_encode_seq(rest))[e.len() + k] == spec_encode_seq(rest)[k]);
            }
        }
        lemma_decode_from_encoding(s, next, rest);
        assert(seq![head] + rest =~= instrs);
    }
}

/// Round trip: decoding an encoded program yields the program back.
/// This pins the decoder as the exact inverse of the encoder.
pub proof fn lemma_decode_encode_round_trip(instrs: Seq<RocCPUInstruction>)
    ensures
        spec_decode_from(spec_encode_seq(instrs), 0) == Ok::<
            Seq<RocCPUInstruction>,
            DecodeError,
        >(instrs),
{
    let s = spec_encode_seq(instrs);
    assert(s.skip(0) =~= s);
    lemma_decode_from_encoding(s, 0, instrs);
}

/// A whole program encoded as one byte stream, and a name for each
/// instruction variant.
pub trait CPUProgramEncode: Sized {
    type Instruction: ProgramEncodable;

    /// The mnemonic spelled by `variants_to_string`.
    spec fn spec_variant_name(variant: Self) -> Seq<char>;

    fn variants_to_string(variant: Self) -> (r: String)
        ensures
            r@ == Self::spec_variant_name(variant),
    ;

    fn encode_to_program(instructions: Vec<Self::Instruction>) -> (r: Vec<u8>)
        ensures
            r@ == spec_encode_seq(instructions@),
    ;
}

/// The decoding side of [`CPUProgramEncode`]; `decode_program` is its
/// one operation here.
pub trait CPUProgramDecode {

}

pub open spec fn spec_instruction_name(i: RocCPUInstruction) -> Seq<char> {
    match i {
        RocCPUInstruction::Add(_, _) => "ADD"@,
        RocCPUInstruction::AddI(_, _) => "ADDI"@,
        RocCPUInstruction::Sub(_, _) => "SUB"@,
        RocCPUInstruction::SubI(_, _) => "SUBI"@,
        RocCPUInstruction::Mul(_, _) => "MUL"@,
        RocCPUInstruction::MulI(_, _) => "MULI"@,
        RocCPUInstruction::Div(_, _) => "DIV"@,
        RocCPUInstruction::DivI(_, _) => "DIVI"@,
        RocCPUInstruction::SetRet(_) => "SETRET"@,
        RocCPUInstruction::Put(_, _) => "PUT"@,
        RocCPUInstruction::Mov(_, _) => "MOV"@,
        RocCPUInstruction::PutMem(_, _, _) => "PUTMEM"@,
        RocCPUInstruction::Push(_) => "PUSH"@,
        RocCPUInstruction::Pop(_) => "POP"@,
        RocCPUInstruction::Exit => "EXIT"@,
        RocCPUInstruction::Nop => "NOP"@,
        RocCPUInstruction::Cmp(_, _) => "CMP"@,
        RocCPUInstruction::Jump(_, _) => "JUMP"@,
        RocCPUInstruction::JumpIfZero(_, _) => "JZ"@,
        RocCPUInstruction::Call(_, _) => "CALL"@,
        RocCPUInstruction::Return => "RETURN"@,
        RocCPUInstruction::Render => "RENDER"@,
        RocCPUInstruction::Wait(_) => "WAIT"@,
    }
}

impl CPUProgramEncode for RocCPUInstruction {
    type Instruction = RocCPUInstruction;

    open spec fn spec_variant_name(variant: Self) -> Seq<char> {
        spec_instruction_name(variant)
    }

    fn variants_to_string(variant: Self) -> (r: String) {
        match variant {
            RocCPUInstruction::Add(_, _) => String::from_str("ADD"),
            RocCPUInstruction::AddI(_, _) => String::from_str("ADDI"),
            RocCPUInstruction::Sub(_, _) => String::from_str("SUB"),
            RocCPUInstruction::SubI(_, _) => String::from_str("SUBI"),
            RocCPUInstruction::Mul(_, _) => String::from_str("MUL"),
            RocCPUInstruction::MulI(_, _) => String::from_str("MULI"),
            RocCPUInstruction::Div(_, _) => String::from_str("DIV"),
            RocCPUInstruction::DivI(_, _) => String::from_str("DIVI"),
            RocCPUInstruction::SetRet(_) => String::from_str("SETRET"),
            RocCPUInstruction::Put(_, _) => String::from_str("PUT"),
            RocCPUInstruction::Mov(_, _) => String::from_str("MOV"),
            RocCPUInstruction::PutMem(_, _, _) => String::from_str("PUTMEM"),
            RocCPUInstruction::Push(_) => String::from_str("PUSH"),
            RocCPUInstruction::Pop(_) => String::from_str("POP"),
            RocCPUInstruction::Exit => String::from_str("EXIT"),
            RocCPUInstruction::Nop => String::from_str("NOP"),
            RocCPUInstruction::Cmp(_, _) => String::from_str("CMP"),
            RocCPUInstruction::Jump(_, _) => String::from_str("JUMP"),
            RocCPUInstruction::JumpIfZero(_, _) => String::from_str("JZ"),
            RocCPUInstruction::Call(_, _) => String::from_str("CALL"),
            RocCPUInstruction::Return => String::from_str("RETURN"),
            RocCPUInstruction::Render => String::from_str("RENDER"),
            RocCPUInstruction::Wait(_) => String::from_str("WAIT"),
        }
    }

    fn encode_to_program(instructions: Vec<Self::Instruction>) -> (r: Vec<u8>) {
        let mut out: Vec<u8> = Vec::new();
        let n = instructions.len();
        for k in 0..n
            invariant
                n == instructions@.len(),
                out@ == spec_encode_seq(instructions@.take(k as int)),
        {
            let mut piece = instructions[k].encode();
            out.append(&mut piece);
            proof {
                lemma_encode_seq_push(instructions@.take(k as int), instructions@[k as int]);
                assert(instructions@.take(k as int).push(instructions@[k as int]) =~= instructions@.take(
                    k + 1,
                ));
            }
        }
        proof {
            assert(instructions@.take(n as int) =~= instructions@);
        }
        out
    }
}

impl CPUProgramDecode for RocCPUInstruction {

}

/// Decode a whole byte sequence into the instruction sequence it
/// spells, mirroring the encoder's table exactly.
pub fn decode_program(bytes: &[u8]) -> (r: Result<Vec<RocCPUInstruction>, DecodeError>)
    ensures
        match spec_decode_from(bytes@, 0) {
            Ok(p) => r matches Ok(v) && v@ == p,
            Err(e) => r == Err::<Vec<RocCPUInstruction>, DecodeError>(e),
        },
{
    let mut out: Vec<RocCPUInstruction> = Vec::new();
    match decode_from(bytes, 0, &mut out) {
        Ok(()) => Ok(out),
        Err(e) => Err(e),
    }
}

} // verus!
