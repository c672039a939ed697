//! The machine's stated laws, each proved against the spec-level step
//! function and assembler that the executable code is verified to
//! follow.

use vstd::prelude::*;

use crate::assembler::AsmError;
use crate::assembler::LabelBindingV;
use crate::assembler::LiteralV;
use crate::assembler::OperationV;
use crate::assembler::Mnemonic;
use crate::assembler::spec_lookup_label;
use crate::assembler::spec_mnemonic;
use crate::assembler::spec_resolve;
use crate::assembler::spec_translate;
use crate::types::RocCPUInstruction;
use crate::types::RocCPURegister;
use crate::vm::MachineView;
use crate::vm::RuntimeFault;
use crate::vm::STACK_SIZE;
use crate::vm::spec_cycle;
use crate::vm::spec_execute_opcode;
use crate::vm::spec_register_index;
use crate::vm::spec_run;
use crate::vm::wf_view;

verus! {

/// Once the machine has halted, further cycles change nothing.
pub proof fn lemma_halted_stable(
    prog: Seq<RocCPUInstruction>,
    s0: MachineView,
    m: nat,
    n: nat,
)
    requires
        m <= n,
        spec_run(prog, s0, m) matches Ok(s) && !s.running,
    ensures
        spec_run(prog, s0, n) == spec_run(prog, s0, m),
    decreases n,
{
    if n > m {
        lemma_halted_stable(prog, s0, m, (n - 1) as nat);
    }
}

/// Once a run has faulted, it stays faulted.
pub proof fn lemma_fault_stable(prog: Seq<RocCPUInstruction>, s0: MachineView, m: nat, n: nat)
    requires
        m <= n,
        spec_run(prog, s0, m) is Err,
    ensures
        spec_run(prog, s0, n) == spec_run(prog, s0, m),
    decreases n,
{
    if n > m {
        lemma_fault_stable(prog, s0, m, (n - 1) as nat);
    }
}

/// For every byte `v`, running `SetRet v; Exit;` from any well-formed
/// start of a run halts after two cycles with exit register `v`, never
/// faults, and every halted state it can reach shows `v`.
pub proof fn lemma_set_ret_exit(v: u8, s0: MachineView)
    requires
        wf_view(s0),
        s0.pc == 0,
        !s0.pc_set,
        s0.running,
    ensures
        ({
            let prog = seq![RocCPUInstruction::SetRet(v), RocCPUInstruction::Exit];
            let ret = spec_register_index(RocCPURegister::ReturnValue);
            &&& (spec_run(prog, s0, 2) matches Ok(sf) && !sf.running && sf.regs[ret] == v)
            &&& forall|n: nat, sf: MachineView|
                spec_run(prog, s0, n) == Ok::<MachineView, RuntimeFault>(sf) && !sf.running
                    ==> sf.regs[ret] == v
            &&& forall|n: nat| !(spec_run(prog, s0, n) is Err)
        }),
{
    let prog = seq![RocCPUInstruction::SetRet(v), RocCPUInstruction::Exit];
    let ret = spec_register_index(RocCPURegister::ReturnValue);
    let s1 = spec_cycle(prog, s0)->Ok_0;
    assert(prog[0] == RocCPUInstruction::SetRet(v));
    assert(prog[1] == RocCPUInstruction::Exit);
    assert(spec_cycle(prog, s0) == Ok::<MachineView, RuntimeFault>(s1));
    assert(s1.running && s1.pc == 1 && !s1.pc_set && s1.regs == s0.regs.update(ret, v));
    let s2 = spec_cycle(prog, s1)->Ok_0;
    assert(spec_cycle(prog, s1) == Ok::<MachineView, RuntimeFault>(s2));
    assert(!s2.running && s2.regs[ret] == v);
    assert(spec_run(prog, s0, 0) == Ok::<MachineView, RuntimeFault>(s0));
    assert(spec_run(prog, s0, 1) == Ok::<MachineView, RuntimeFault>(s1));
    assert(spec_run(prog, s0, 2) == Ok::<MachineView, RuntimeFault>(s2));
    assert forall|n: nat| n >= 2 implies spec_run(prog, s0, n) == Ok::<
        MachineView,
        RuntimeFault,
    >(s2) by {
        lemma_halted_stable(prog, s0, 2, n);
    }
    assert forall|n: nat, sf: MachineView|
        spec_run(prog, s0, n) == Ok::<MachineView, RuntimeFault>(sf)
            && !sf.running implies sf.regs[ret] == v by {
        if n >= 2 {
            assert(spec_run(prog, s0, n) == Ok::<MachineView, RuntimeFault>(s2));
        }
    }
    assert forall|n: nat| !(spec_run(prog, s0, n) is Err) by {
        if n >= 2 {
            assert(spec_run(prog, s0, n) == Ok::<MachineView, RuntimeFault>(s2));
        }
    }
}

/// Arithmetic wraps modulo 256 and sets the zero flag exactly when the
/// wrapped result is zero, for `Add` and for `Sub` alike.
pub proof fn lemma_arithmetic_wraps(s: MachineView, dst: RocCPURegister, src: RocCPURegister)
    requires
        wf_view(s),
    ensures
        ({
            let d = spec_register_index(dst);
            let x = spec_register_index(src);
            let sum = ((s.regs[d] + s.regs[x]) % 256) as u8;
            let diff = ((s.regs[d] + 256 - s.regs[x]) % 256) as u8;
            &&& (spec_execute_opcode(s, RocCPUInstruction::Add(dst, src)) matches Ok(s2)
                && s2.regs[d] == sum && s2.zero == (sum == 0) && s2.sp == s.sp && s2.pc == s.pc)
            &&& (spec_execute_opcode(s, RocCPUInstruction::Sub(dst, src)) matches Ok(s3)
                && s3.regs[d] == diff && s3.zero == (diff == 0))
        }),
{
}

/// Stack round trip: a push followed by a pop of the same register
/// restores the register file and the stack pointer.
pub proof fn lemma_push_pop_round_trip(s: MachineView, r: RocCPURegister)
    requires
        wf_view(s),
        s.sp < STACK_SIZE,
    ensures
        spec_execute_opcode(s, RocCPUInstruction::Push(r)) matches Ok(s1) && spec_execute_opcode(
            s1,
            RocCPUInstruction::Pop(r),
        ) matches Ok(s2) && s2.regs == s.regs && s2.sp == s.sp && s2.zero == s.zero && s2.pc == s.pc
            && s2.mem == s.mem && s2.effects == s.effects,
{
    let s1 = spec_execute_opcode(s, RocCPUInstruction::Push(r))->Ok_0;
    let s2 = spec_execute_opcode(s1, RocCPUInstruction::Pop(r))->Ok_0;
    let d = spec_register_index(r);
    assert(s1.stack[s1.sp - 1] == s.regs[d]);
    assert(s2.regs =~= s.regs);
}

/// Calling convention: `Call` pushes the return address low byte then
/// high byte and jumps; `Return`, run later from any state whose stack
/// and stack pointer are as `Call` left them, pops in mirror order and
/// sets the counter to the instruction just after the `Call`.
pub proof fn lemma_call_return(s: MachineView, hi: u8, lo: u8)
    requires
        wf_view(s),
        s.sp + 2 <= STACK_SIZE,
        s.pc + 1 < 0x10000,
    ensures
        spec_execute_opcode(s, RocCPUInstruction::Call(hi, lo)) matches Ok(s1) && s1.pc == (
        hi as nat) * 256 + lo && s1.pc_set && s1.sp == s.sp + 2 && forall|t: MachineView|
            wf_view(t) && t.stack == s1.stack && t.sp == s1.sp ==> (spec_execute_opcode(
                t,
                RocCPUInstruction::Return,
            ) matches Ok(s2) && s2.pc == s.pc + 1 && s2.pc_set && s2.sp == s.sp),
{
    let s1 = spec_execute_opcode(s, RocCPUInstruction::Call(hi, lo))->Ok_0;
    let ret = s.pc + 1;
    let pc_lo = (ret % 256) as u8;
    let pc_hi = ((ret / 256) % 256) as u8;
    assert(ret / 256 < 256) by (nonlinear_arith)
        requires ret < 0x10000
    ;
    assert((pc_hi as nat) * 256 + pc_lo == ret) by (nonlinear_arith)
        requires
            ret < 0x10000,
            pc_hi == (ret / 256) % 256,
            pc_lo == ret % 256,
            ret / 256 < 256,
    ;
    assert forall|t: MachineView|
        wf_view(t) && t.stack == s1.stack && t.sp == s1.sp implies (spec_execute_opcode(
        t,
        RocCPUInstruction::Return,
    ) matches Ok(s2) && s2.pc == s.pc + 1 && s2.pc_set && s2.sp == s.sp) by {
        assert(t.stack[t.sp - 1] == pc_hi);
        assert(t.stack[t.sp - 2] == pc_lo);
    }
}

/// A push faults exactly when the stack already holds `STACK_SIZE`
/// bytes, and a pop exactly when it is empty; the faults are the two
/// stated ones.  With a cleared stack, `STACK_SIZE` consecutive pushes
/// therefore succeed and one more is the overflow fault.
pub proof fn lemma_stack_fault_conditions(s: MachineView, r: RocCPURegister)
    requires
        wf_view(s),
    ensures
        spec_execute_opcode(s, RocCPUInstruction::Push(r)) is Err <==> s.sp == STACK_SIZE,
        spec_execute_opcode(s, RocCPUInstruction::Push(r)) is Err ==> spec_execute_opcode(
            s,
            RocCPUInstruction::Push(r),
        ) == Err::<MachineView, RuntimeFault>(RuntimeFault::StackOverflow),
        spec_execute_opcode(s, RocCPUInstruction::Pop(r)) is Err <==> s.sp == 0,
        spec_execute_opcode(s, RocCPUInstruction::Pop(r)) is Err ==> spec_execute_opcode(
            s,
            RocCPUInstruction::Pop(r),
        ) == Err::<MachineView, RuntimeFault>(RuntimeFault::StackUnderflow),
{
}

/// Label resolution depends on the completed label table alone: a
/// reference resolves to the table's index wherever the declaration
/// stood, before or after the reference.  The index is split into the
/// address high and low bytes for each control-transfer mnemonic.
pub proof fn lemma_label_resolution(labels: Seq<LabelBindingV>, name: Seq<u8>, k: nat)
    requires
        spec_lookup_label(labels, name) == Some(k),
        k < 0x10000,
    ensures
        ({
            let hi = (k / 256) as u8;
            let lo = (k % 256) as u8;
            &&& spec_translate(
                OperationV::OperationOneArg {
                    op_name: seq![74u8, 85u8, 77u8, 80u8],  // JUMP
                    value_arg1: LiteralV::Label(name),
                },
                labels,
            ) == Ok::<Option<RocCPUInstruction>, AsmError>(
                Some(RocCPUInstruction::Jump(hi, lo)),
            )
            &&& spec_translate(
                OperationV::OperationOneArg {
                    op_name: seq![74u8, 90u8],  // JZ
                    value_arg1: LiteralV::Label(name),
                },
                labels,
            ) == Ok::<Option<RocCPUInstruction>, AsmError>(
                Some(RocCPUInstruction::JumpIfZero(hi, lo)),
            )
            &&& spec_translate(
                OperationV::OperationOneArg {
                    op_name: seq![67u8, 65u8, 76u8, 76u8],  // CALL
                    value_arg1: LiteralV::Label(name),
                },
                labels,
            ) == Ok::<Option<RocCPUInstruction>, AsmError>(
                Some(RocCPUInstruction::Call(hi, lo)),
            )
        }),
{
    assert(k % 0x10000 == k);
}


/// Assembly rejects what the table does not declare: an unknown
/// mnemonic is the stated error whatever its operand count, and a known
/// mnemonic invoked at an operand count the table does not declare for
/// it is the arity error.
pub proof fn lemma_unknown_or_misarity_rejected(op: OperationV, labels: Seq<LabelBindingV>)
    ensures
        (match op {
            OperationV::OperationNoArgs { op_name } => spec_mnemonic(op_name) is None
                ==> spec_translate(op, labels) == Err::<Option<RocCPUInstruction>, AsmError>(
                AsmError::UnknownMnemonic,
            ),
            OperationV::OperationOneArg { op_name, .. } => spec_mnemonic(op_name) is None
                ==> spec_translate(op, labels) == Err::<Option<RocCPUInstruction>, AsmError>(
                AsmError::UnknownMnemonic,
            ),
            OperationV::OperationTwoArg { op_name, .. } => spec_mnemonic(op_name) is None
                ==> spec_translate(op, labels) == Err::<Option<RocCPUInstruction>, AsmError>(
                AsmError::UnknownMnemonic,
            ),
            OperationV::OperationThreeArg { op_name, .. } => spec_mnemonic(op_name) is None
                ==> spec_translate(op, labels) == Err::<Option<RocCPUInstruction>, AsmError>(
                AsmError::UnknownMnemonic,
            ),
            OperationV::LabelOperation { .. } => true,
        }),
        (op matches OperationV::OperationNoArgs { op_name } && spec_mnemonic(op_name) matches Some(
            m,
        ) && m != Mnemonic::Exit && m != Mnemonic::Nop && m != Mnemonic::Render && m
            != Mnemonic::Return ==> spec_translate(op, labels) == Err::<
            Option<RocCPUInstruction>,
            AsmError,
        >(AsmError::ArityMismatch)),
        (op matches OperationV::OperationThreeArg { op_name, .. } && spec_mnemonic(op_name)
            matches Some(m) && m != Mnemonic::PutMem ==> spec_translate(op, labels) == Err::<
            Option<RocCPUInstruction>,
            AsmError,
        >(AsmError::ArityMismatch)),
{
}

/// A statement that does not translate abandons the whole pass: no
/// instruction sequence is produced for any operation list holding it.
pub proof fn lemma_resolve_error_propagates(
    ops: Seq<OperationV>,
    labels: Seq<LabelBindingV>,
    i: int,
)
    requires
        0 <= i < ops.len(),
        spec_translate(ops[i], labels) is Err,
    ensures
        spec_resolve(ops, labels) is Err,
    decreases ops.len(),
{
    if i > 0 {
        if !(spec_translate(ops[0], labels) is Err) {
            lemma_resolve_error_propagates(ops.drop_first(), labels, i - 1);
        }
    }
}

} // verus!
