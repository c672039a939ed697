//! The virtual machine: a register file, addressable memory, a call
//! stack, and the fetch-execute loop over a resolved instruction
//! sequence.
//!
//! The machine's behaviour is stated as a pure step function over an
//! abstract machine state ([`spec_execute_opcode`], [`spec_cycle`]) and
//! the executable interpreter is proved to follow it cycle by cycle.
//! Rendering and waiting are recorded as effects in order, so a caller
//! can replay them against a real display once a run completes.

use vstd::prelude::*;

use crate::types::RocCPUInstruction;
use crate::types::RocCPURegister;

verus! {

/// Number of byte-wide registers.
pub const REGISTER_COUNT: usize = 10;

/// Size of the addressable memory.
pub const MEMORY_SIZE: usize = 0x10000;

/// Capacity of the call stack.
pub const STACK_SIZE: usize = 0xFF;

/// First memory address of the framebuffer.
pub const DISPLAY_MEMORY_START: usize = 0x8000;

/// Bytes of memory the framebuffer occupies: 40 x 32 pixels, 3 bytes each.
pub const DISPLAY_MEMORY_USAGE: usize = 3 * 40 * 32;

/// One past the last framebuffer address.
pub const DISPLAY_MEMORY_END: usize = 0x8000 + 3 * 40 * 32;

/// A fatal fault raised during execution; the run aborts at once.
#[derive(Clone, Copy, Debug, PartialEq, Eq, Structural)]
pub enum RuntimeFault {
    /// A push onto a stack already holding `STACK_SIZE` bytes.
    StackOverflow,
    /// A pop from an empty stack.
    StackUnderflow,
}

/// An outward-visible action the machine performed, in order.
pub enum Effect {
    /// The `Render` opcode handed this copy of the framebuffer to the
    /// display sink.
    Frame(Vec<u8>),
    /// The `Wait` opcode asked for a pause of this many whole seconds.
    Pause(u8),
}

/// The abstract value of an [`Effect`].
pub enum EffectView {
    Frame(Seq<u8>),
    Pause(u8),
}

impl View for Effect {
    type V = EffectView;

    open spec fn view(&self) -> EffectView {
        match self {
            Effect::Frame(bytes) => EffectView::Frame(bytes@),
            Effect::Pause(secs) => EffectView::Pause(*secs),
        }
    }
}

pub open spec fn spec_effects(s: Seq<Effect>) -> Seq<EffectView> {
    s.map_values(|e: Effect| e@)
}

/// The abstract machine state: everything an instruction can read or
/// change.  The loaded program stands outside it, since execution never
/// changes the program.
#[verifier::ext_equal]
pub struct MachineView {
    /// Register file, one byte per register, indexed by `spec_register_index`.
    pub regs: Seq<u8>,
    /// The 65,536-byte memory.
    pub mem: Seq<u8>,
    /// The 255-byte call stack array.
    pub stack: Seq<u8>,
    /// Index of the next free stack slot.
    pub sp: nat,
    /// Index into the instruction sequence of the next fetch.
    pub pc: nat,
    /// Whether the instruction just executed set the counter itself.
    pub pc_set: bool,
    /// The zero flag.
    pub zero: bool,
    /// False once `Exit` has run or the counter ran off the end.
    pub running: bool,
    /// Render and wait actions recorded so far, oldest first.
    pub effects: Seq<EffectView>,
}

/// The storage slot of each register.
pub open spec fn spec_register_index(r: RocCPURegister) -> int {
    match r {
        RocCPURegister::GeneralPurposeA => 0,
        RocCPURegister::GeneralPurposeB => 1,
        RocCPURegister::GeneralPurposeC => 2,
        RocCPURegister::GeneralPurposeD => 3,
        RocCPURegister::ReturnValue => 4,
        RocCPURegister::FunctionParameter1 => 5,
        RocCPURegister::FunctionParameter2 => 6,
        RocCPURegister::FunctionParameter3 => 7,
        RocCPURegister::FunctionParameter4 => 8,
        RocCPURegister::FunctionReturn => 9,
    }
}

/// Well-formedness of a machine state: the fixed array sizes, and the
/// stack pointer inside the stack.
pub open spec fn wf_view(v: MachineView) -> bool {
    &&& v.regs.len() == REGISTER_COUNT
    &&& v.mem.len() == MEMORY_SIZE
    &&& v.stack.len() == STACK_SIZE
    &&& v.sp <= STACK_SIZE
}

/// What one instruction does to the machine state, or the fault it
/// raises.  The program counter is left as is unless the instruction
/// transfers control, in which case `pc_set` marks the transfer; the
/// surrounding cycle adds the automatic increment.
pub open spec fn spec_execute_opcode(v: MachineView, op: RocCPUInstruction) -> Result<
    MachineView,
    RuntimeFault,
> {
    match op {
        RocCPUInstruction::Add(dst, src) => {
            let d = spec_register_index(dst);
            let s = spec_register_index(src);
            let val = ((v.regs[d] + v.regs[s]) % 256) as u8;
            Ok(MachineView { regs: v.regs.update(d, val), zero: val == 0, ..v })
        },
        RocCPUInstruction::Sub(dst, src) => {
            let d = spec_register_index(dst);
            let s = spec_register_index(src);
            let val = ((v.regs[d] + 256 - v.regs[s]) % 256) as u8;
            Ok(MachineView { regs: v.regs.update(d, val), zero: val == 0, ..v })
        },
        RocCPUInstruction::SetRet(val) => Ok(
            MachineView {
                regs: v.regs.update(spec_register_index(RocCPURegister::ReturnValue), val),
                ..v
            },
        ),
        RocCPUInstruction::Put(reg, val) => Ok(
            MachineView { regs: v.regs.update(spec_register_index(reg), val), ..v },
        ),
        RocCPUInstruction::Mov(dst, src) => Ok(
            MachineView {
                regs: v.regs.update(
                    spec_register_index(dst),
                    v.regs[spec_register_index(src)],
                ),
                ..v
            },
        ),
        RocCPUInstruction::Exit => Ok(MachineView { running: false, ..v }),
        RocCPUInstruction::Cmp(reg1, reg2) => {
            // No borrow flag is modeled: the flag records equality and
            // nothing else, exactly what a borrow-free subtraction shows.
            let equal = v.regs[spec_register_index(reg1)] == v.regs[spec_register_index(reg2)];
            Ok(MachineView { zero: equal, ..v })
        },
        RocCPUInstruction::PutMem(hi, lo, val) => {
            let address = (hi as int) * 256 + (lo as int);
            Ok(MachineView { mem: v.mem.update(address, val), ..v })
        },
        RocCPUInstruction::Push(reg) => {
            if v.sp >= STACK_SIZE {
                Err(RuntimeFault::StackOverflow)
            } else {
                Ok(
                    MachineView {
                        stack: v.stack.update(v.sp as int, v.regs[spec_register_index(reg)]),
                        sp: (v.sp + 1) as nat,
                        ..v
                    },
                )
            }
        },
        RocCPUInstruction::Pop(reg) => {
            if v.sp == 0 {
                Err(RuntimeFault::StackUnderflow)
            } else {
                Ok(
                    MachineView {
                        regs: v.regs.update(spec_register_index(reg), v.stack[v.sp - 1]),
                        sp: (v.sp - 1) as nat,
                        ..v
                    },
                )
            }
        },
        RocCPUInstruction::Render => Ok(
            MachineView {
                effects: v.effects.push(
                    EffectView::Frame(
                        v.mem.subrange(DISPLAY_MEMORY_START as int, DISPLAY_MEMORY_END as int),
                    ),
                ),
                ..v
            },
        ),
        RocCPUInstruction::Wait(secs) => Ok(
            MachineView { effects: v.effects.push(EffectView::Pause(secs)), ..v },
        ),
        RocCPUInstruction::Jump(hi, lo) => {
            let address = ((hi as int) * 256 + (lo as int)) as nat;
            Ok(MachineView { pc: address, pc_set: true, ..v })
        },
        RocCPUInstruction::JumpIfZero(hi, lo) => {
            if v.zero {
                let address = ((hi as int) * 256 + (lo as int)) as nat;
                Ok(MachineView { pc: address, pc_set: true, ..v })
            } else {
                Ok(v)
            }
        },
        RocCPUInstruction::Call(hi, lo) => {
            let address = ((hi as int) * 256 + (lo as int)) as nat;
            // Return address: low byte pushed first, then high byte.
            let to_return_to = v.pc + 1;
            let pc_lo = (to_return_to % 256) as u8;
            let pc_hi = ((to_return_to / 256) % 256) as u8;
            if v.sp + 2 > STACK_SIZE {
                Err(RuntimeFault::StackOverflow)
            } else {
                Ok(
                    MachineView {
                        stack: v.stack.update(v.sp as int, pc_lo).update(v.sp as int + 1, pc_hi),
                        sp: (v.sp + 2) as nat,
                        pc: address,
                        pc_set: true,
                        ..v
                    },
                )
            }
        },
        RocCPUInstruction::Return => {
            // Mirror order: high byte popped first, then low byte.
            if v.sp < 2 {
                Err(RuntimeFault::StackUnderflow)
            } else {
                let hi = v.stack[v.sp - 1];
                let lo = v.stack[v.sp - 2];
                let address = ((hi as int) * 256 + (lo as int)) as nat;
                Ok(MachineView { sp: (v.sp - 2) as nat, pc: address, pc_set: true, ..v })
            }
        },
        // Reserved tag-table slots without executable semantics, and Nop:
        // no-ops when reached.
        _ => Ok(v),
    }
}

/// One fetch-execute cycle: implicit halt past the end of the program,
/// else execute the fetched instruction and advance the counter unless
/// the instruction set it itself.  Halted states are fixed points.
pub open spec fn spec_cycle(prog: Seq<RocCPUInstruction>, v: MachineView) -> Result<
    MachineView,
    RuntimeFault,
> {
    if !v.running {
        Ok(v)
    } else if v.pc >= prog.len() {
        Ok(
            MachineView {
                regs: v.regs.update(spec_register_index(RocCPURegister::ReturnValue), 255u8),
                running: false,
                ..v
            },
        )
    } else {
        match spec_execute_opcode(v, prog[v.pc as int]) {
            Err(f) => Err(f),
            Ok(v2) => {
                if !v2.running {
                    Ok(v2)
                } else {
                    Ok(
                        MachineView {
                            pc: if v2.pc_set {
                                v2.pc
                            } else {
                                v2.pc + 1
                            },
                            pc_set: false,
                            ..v2
                        },
                    )
                }
            },
        }
    }
}

/// The machine state after `n` cycles, or the first fault on the way.
pub open spec fn spec_run(prog: Seq<RocCPUInstruction>, s: MachineView, n: nat) -> Result<
    MachineView,
    RuntimeFault,
>
    decreases n,
{
    if n == 0 {
        Ok(s)
    } else {
        match spec_run(prog, s, (n - 1) as nat) {
            Err(f) => Err(f),
            Ok(v) => spec_cycle(prog, v),
        }
    }
}

/// What `execute` does before a run: counter to the start, stack and
/// stack pointer cleared, effect log emptied.  Registers, memory and
/// the zero flag deliberately carry over from the previous run.
pub open spec fn spec_reset(v: MachineView) -> MachineView {
    MachineView {
        pc: 0,
        pc_set: false,
        running: true,
        sp: 0,
        stack: Seq::new(STACK_SIZE as nat, |k: int| 0u8),
        effects: Seq::empty(),
        ..v
    }
}

/// The machine state every fresh interpreter starts from.
pub open spec fn spec_initial() -> MachineView {
    MachineView {
        regs: Seq::new(REGISTER_COUNT as nat, |k: int| 0u8),
        mem: Seq::new(MEMORY_SIZE as nat, |k: int| 0u8),
        stack: Seq::new(STACK_SIZE as nat, |k: int| 0u8),
        sp: 0,
        pc: 0,
        pc_set: false,
        zero: false,
        running: true,
        effects: Seq::empty(),
    }
}

/// The interpreter.  One instance exclusively owns its registers,
/// memory, stack and effect log; instances are fully independent.
pub struct RocCPURunner {
    pub registers: Vec<u8>,
    pub program: Option<Vec<RocCPUInstruction>>,
    pub memory: Vec<u8>,
    pub stack: Vec<u8>,
    pub should_continue: bool,
    pub program_counter: usize,
    /// Points one slot past the most recently pushed stack value.
    pub stack_pointer: usize,
    pub pc_manually_set: bool,
    pub zero_flag: bool,
    pub effects: Vec<Effect>,
}

impl View for RocCPURunner {
    type V = MachineView;

    open spec fn view(&self) -> MachineView {
        MachineView {
            regs: self.registers@,
            mem: self.memory@,
            stack: self.stack@,
            sp: self.stack_pointer as nat,
            pc: self.program_counter as nat,
            pc_set: self.pc_manually_set,
            zero: self.zero_flag,
            running: self.should_continue,
            effects: spec_effects(self.effects@),
        }
    }
}

fn new_zero_vec(n: usize) -> (r: Vec<u8>)
    ensures
        r@ == Seq::new(n as nat, |k: int| 0u8),
{
    let mut v: Vec<u8> = Vec::new();
    let mut i: usize = 0;
    while i < n
        invariant
            i <= n,
            v@ == Seq::new(i as nat, |k: int| 0u8),
        decreases n - i,
    {
        v.push(0);
        i = i + 1;
        proof {
            assert(v@ =~= Seq::new(i as nat, |k: int| 0u8));
        }
    }
    v
}

fn clone_program(p: &Vec<RocCPUInstruction>) -> (r: Vec<RocCPUInstruction>)
    ensures
        r@ == p@,
{
    let r = p.clone();
    proof {
        assert(r@ =~= p@);
    }
    r
}

impl RocCPURunner {
    /// Well-formedness carried by every constructor and method.
    pub open spec fn wf(&self) -> bool {
        wf_view(self@)
    }

    fn get_register_idx(&self, register: RocCPURegister) -> (i: usize)
        ensures
            i == spec_register_index(register),
    {
        match register {
            RocCPURegister::GeneralPurposeA => 0,
            RocCPURegister::GeneralPurposeB => 1,
            RocCPURegister::GeneralPurposeC => 2,
            RocCPURegister::GeneralPurposeD => 3,
            RocCPURegister::ReturnValue => 4,
            RocCPURegister::FunctionParameter1 => 5,
            RocCPURegister::FunctionParameter2 => 6,
            RocCPURegister::FunctionParameter3 => 7,
            RocCPURegister::FunctionParameter4 => 8,
            RocCPURegister::FunctionReturn => 9,
        }
    }

    fn get_register_value(&self, register: RocCPURegister) -> (v: u8)
        requires
            self.wf(),
        ensures
            v == self@.regs[spec_register_index(register)],
    {
        let idx = self.get_register_idx(register);
        self.registers[idx]
    }

    fn set_register_value(&mut self, register: RocCPURegister, value: u8)
        requires
            old(self).wf(),
        ensures
            final(self).wf(),
            final(self).program == old(self).program,
            final(self)@ == (MachineView {
                regs: old(self)@.regs.update(spec_register_index(register), value),
                ..old(self)@
            }),
    {
        let idx = self.get_register_idx(register);
        self.registers[idx] = value;
        proof {
            assert(self@ =~= (MachineView {
                regs: old(self)@.regs.update(spec_register_index(register), value),
                ..old(self)@
            }));
        }
    }
}

impl Default for RocCPURunner {
    /// A fresh machine: everything zeroed, no program loaded.
    fn default() -> (s: Self)
        ensures
            s.wf(),
            s@ == spec_initial(),
            s.program is None,
    {
        let s = RocCPURunner {
            registers: new_zero_vec(REGISTER_COUNT),
            program: None,
            memory: new_zero_vec(MEMORY_SIZE),
            stack: new_zero_vec(STACK_SIZE),
            should_continue: true,
            program_counter: 0,
            stack_pointer: 0,
            pc_manually_set: false,
            zero_flag: false,
            effects: Vec::new(),
        };
        proof {
            assert(s@ =~= spec_initial());
        }
        s
    }
}

impl RocCPURunner {
    /// A fresh machine, optionally with a program already loaded.
    pub fn new(program: Option<&Vec<RocCPUInstruction>>) -> (s: Self)
        ensures
            s.wf(),
            s@ == spec_initial(),
            (match program {
                None => s.program is None,
                Some(p) => s.program matches Some(q) && q@ == p@,
            }),
    {
        let mut s = Self::default();
        match program {
            Some(p) => {
                s.program = Some(clone_program(p));
            },
            None => {},
        }
        s
    }

    /// Replace the loaded program.  CPU state is untouched; only
    /// `execute` resets the stack and the counter.
    pub fn load_program(&mut self, program: &Vec<RocCPUInstruction>)
        requires
            old(self).wf(),
        ensures
            final(self).wf(),
            final(self)@ == old(self)@,
            final(self).program matches Some(p) && p@ == program@,
    {
        self.program = Some(clone_program(program));
    }

    /// Drop the loaded program.  CPU state is untouched.
    pub fn unload_program(&mut self)
        requires
            old(self).wf(),
        ensures
            final(self).wf(),
            final(self)@ == old(self)@,
            final(self).program is None,
    {
        self.program = None;
    }

    fn push_value_to_stack(&mut self, val: u8) -> (r: Result<(), RuntimeFault>)
        requires
            old(self).wf(),
        ensures
            final(self).wf(),
            final(self).program == old(self).program,
            (if old(self)@.sp >= STACK_SIZE {
                r == Err::<(), RuntimeFault>(RuntimeFault::StackOverflow) && *final(self) == *old(self)
            } else {
                r is Ok && final(self)@ == (MachineView {
                    stack: old(self)@.stack.update(old(self)@.sp as int, val),
                    sp: (old(self)@.sp + 1) as nat,
                    ..old(self)@
                })
            }),
    {
        if self.stack_pointer == self.stack.len() {
            return Err(RuntimeFault::StackOverflow);
        }
        self.stack[self.stack_pointer] = val;
        self.stack_pointer = self.stack_pointer + 1;
        proof {
            assert(self@ =~= (MachineView {
                stack: old(self)@.stack.update(old(self)@.sp as int, val),
                sp: (old(self)@.sp + 1) as nat,
                ..old(self)@
            }));
        }
        Ok(())
    }

    fn pop_value_from_stack(&mut self) -> (r: Result<u8, RuntimeFault>)
        requires
            old(self).wf(),
        ensures
            final(self).wf(),
            final(self).program == old(self).program,
            (if old(self)@.sp == 0 {
                r == Err::<u8, RuntimeFault>(RuntimeFault::StackUnderflow) && *final(self) == *old(self)
            } else {
                r == Ok::<u8, RuntimeFault>(old(self)@.stack[old(self)@.sp - 1]) && final(self)@
                    == (MachineView { sp: (old(self)@.sp - 1) as nat, ..old(self)@ })
            }),
    {
        if self.stack_pointer == 0 {
            return Err(RuntimeFault::StackUnderflow);
        }
        self.stack_pointer = self.stack_pointer - 1;
        proof {
            assert(self@ =~= (MachineView { sp: (old(self)@.sp - 1) as nat, ..old(self)@ }));
        }
        Ok(self.stack[self.stack_pointer])
    }

    fn op_add(&mut self, dst: RocCPURegister, src: RocCPURegister)
        requires
            old(self).wf(),
        ensures
            final(self).wf(),
            final(self).program == old(self).program,
            spec_execute_opcode(old(self)@, RocCPUInstruction::Add(dst, src)) == Ok::<
                MachineView,
                RuntimeFault,
            >(final(self)@),
    {
        let dst_val = self.get_register_value(dst);
        let src_val = self.get_register_value(src);
        let retval: u8 = ((dst_val as u16 + src_val as u16) % 256) as u8;
        self.set_register_value(dst, retval);
        self.zero_flag = retval == 0;
        proof {
            assert(self@ =~= spec_execute_opcode(
                old(self)@,
                RocCPUInstruction::Add(dst, src),
            )->Ok_0);
        }
    }

    fn op_sub(&mut self, dst: RocCPURegister, src: RocCPURegister)
        requires
            old(self).wf(),
        ensures
            final(self).wf(),
            final(self).program == old(self).program,
            spec_execute_opcode(old(self)@, RocCPUInstruction::Sub(dst, src)) == Ok::<
                MachineView,
                RuntimeFault,
            >(final(self)@),
    {
        let dst_val = self.get_register_value(dst);
        let src_val = self.get_register_value(src);
        let retval: u8 = ((dst_val as u16 + 256 - src_val as u16) % 256) as u8;
        self.set_register_value(dst, retval);
        self.zero_flag = retval == 0;
        proof {
            assert(self@ =~= spec_execute_opcode(
                old(self)@,
                RocCPUInstruction::Sub(dst, src),
            )->Ok_0);
        }
    }

    fn op_cmp(&mut self, reg1: RocCPURegister, reg2: RocCPURegister)
        requires
            old(self).wf(),
        ensures
            final(self).wf(),
            final(self).program == old(self).program,
            spec_execute_opcode(old(self)@, RocCPUInstruction::Cmp(reg1, reg2)) == Ok::<
                MachineView,
                RuntimeFault,
            >(final(self)@),
    {
        let val1 = self.get_register_value(reg1);
        let val2 = self.get_register_value(reg2);
        self.zero_flag = val1 == val2;
        proof {
            assert(self@ =~= spec_execute_opcode(
                old(self)@,
                RocCPUInstruction::Cmp(reg1, reg2),
            )->Ok_0);
        }
    }

    fn op_put_mem(&mut self, hi: u8, lo: u8, val: u8)
        requires
            old(self).wf(),
        ensures
            final(self).wf(),
            final(self).program == old(self).program,
            spec_execute_opcode(old(self)@, RocCPUInstruction::PutMem(hi, lo, val)) == Ok::<
                MachineView,
                RuntimeFault,
            >(final(self)@),
    {
        let address = (hi as usize) * 256 + (lo as usize);
        self.memory[address] = val;
        proof {
            assert(self@ =~= spec_execute_opcode(
                old(self)@,
                RocCPUInstruction::PutMem(hi, lo, val),
            )->Ok_0);
        }
    }

    fn op_push(&mut self, reg: RocCPURegister) -> (r: Result<(), RuntimeFault>)
        requires
            old(self).wf(),
        ensures
            final(self).wf(),
            final(self).program == old(self).program,
            (match spec_execute_opcode(old(self)@, RocCPUInstruction::Push(reg)) {
                Ok(v2) => r is Ok && final(self)@ == v2,
                Err(f) => r == Err::<(), RuntimeFault>(f),
            }),
    {
        let val = self.get_register_value(reg);
        self.push_value_to_stack(val)
    }

    fn op_pop(&mut self, reg: RocCPURegister) -> (r: Result<(), RuntimeFault>)
        requires
            old(self).wf(),
        ensures
            final(self).wf(),
            final(self).program == old(self).program,
            (match spec_execute_opcode(old(self)@, RocCPUInstruction::Pop(reg)) {
                Ok(v2) => r is Ok && final(self)@ == v2,
                Err(f) => r == Err::<(), RuntimeFault>(f),
            }),
    {
        match self.pop_value_from_stack() {
            Ok(val) => {
                self.set_register_value(reg, val);
                proof {
                    assert(self@ =~= spec_execute_opcode(
                        old(self)@,
                        RocCPUInstruction::Pop(reg),
                    )->Ok_0);
                }
                Ok(())
            },
            Err(f) => Err(f),
        }
    }

    fn op_render(&mut self)
        requires
            old(self).wf(),
        ensures
            final(self).wf(),
            final(self).program == old(self).program,
            spec_execute_opcode(old(self)@, RocCPUInstruction::Render) == Ok::<
                MachineView,
                RuntimeFault,
            >(final(self)@),
    {
        let mut frame: Vec<u8> = Vec::new();
        let mut k: usize = 0;
        while k < DISPLAY_MEMORY_USAGE
            invariant
                k <= DISPLAY_MEMORY_USAGE,
                self.wf(),
                self == old(self),
                frame@ == self.memory@.subrange(
                    DISPLAY_MEMORY_START as int,
                    DISPLAY_MEMORY_START as int + k,
                ),
            decreases DISPLAY_MEMORY_USAGE - k,
        {
            frame.push(self.memory[DISPLAY_MEMORY_START + k]);
            k = k + 1;
            proof {
                assert(frame@ =~= self.memory@.subrange(
                    DISPLAY_MEMORY_START as int,
                    DISPLAY_MEMORY_START as int + k,
                ));
            }
        }
        self.effects.push(Effect::Frame(frame));
        proof {
            assert(spec_effects(self.effects@) =~= spec_effects(old(self).effects@).push(
                EffectView::Frame(
                    old(self)@.mem.subrange(DISPLAY_MEMORY_START as int, DISPLAY_MEMORY_END as int),
                ),
            ));
            assert(self@ =~= spec_execute_opcode(old(self)@, RocCPUInstruction::Render)->Ok_0);
        }
    }

    fn op_wait(&mut self, secs: u8)
        requires
            old(self).wf(),
        ensures
            final(self).wf(),
            final(self).program == old(self).program,
            spec_execute_opcode(old(self)@, RocCPUInstruction::Wait(secs)) == Ok::<
                MachineView,
                RuntimeFault,
            >(final(self)@),
    {
        self.effects.push(Effect::Pause(secs));
        proof {
            assert(spec_effects(self.effects@) =~= spec_effects(old(self).effects@).push(
                EffectView::Pause(secs),
            ));
            assert(self@ =~= spec_execute_opcode(old(self)@, RocCPUInstruction::Wait(secs))->Ok_0);
        }
    }

    fn op_jump(&mut self, hi: u8, lo: u8)
        requires
            old(self).wf(),
        ensures
            final(self).wf(),
            final(self).program == old(self).program,
            spec_execute_opcode(old(self)@, RocCPUInstruction::Jump(hi, lo)) == Ok::<
                MachineView,
                RuntimeFault,
            >(final(self)@),
    {
        let address = (hi as usize) * 256 + (lo as usize);
        self.program_counter = address;
        self.pc_manually_set = true;
        proof {
            assert(self@ =~= spec_execute_opcode(
                old(self)@,
                RocCPUInstruction::Jump(hi, lo),
            )->Ok_0);
        }
    }

    fn op_jump_if_zero(&mut self, hi: u8, lo: u8)
        requires
            old(self).wf(),
        ensures
            final(self).wf(),
            final(self).program == old(self).program,
            spec_execute_opcode(old(self)@, RocCPUInstruction::JumpIfZero(hi, lo)) == Ok::<
                MachineView,
                RuntimeFault,
            >(final(self)@),
    {
        if self.zero_flag {
            let address = (hi as usize) * 256 + (lo as usize);
            self.program_counter = address;
            self.pc_manually_set = true;
            proof {
                assert(self@ =~= spec_execute_opcode(
                    old(self)@,
                    RocCPUInstruction::JumpIfZero(hi, lo),
                )->Ok_0);
            }
        }
    }

    fn op_call(&mut self, hi: u8, lo: u8) -> (r: Result<(), RuntimeFault>)
        requires
            old(self).wf(),
            old(self).program_counter < usize::MAX,
        ensures
            final(self).wf(),
            final(self).program == old(self).program,
            (match spec_execute_opcode(old(self)@, RocCPUInstruction::Call(hi, lo)) {
                Ok(v2) => r is Ok && final(self)@ == v2,
                Err(f) => r == Err::<(), RuntimeFault>(f),
            }),
    {
        let address = (hi as usize) * 256 + (lo as usize);
        let to_return_to = self.program_counter + 1;
        let pc_lo = (to_return_to % 256) as u8;
        let pc_hi = ((to_return_to / 256) % 256) as u8;
        match self.push_value_to_stack(pc_lo) {
            Ok(()) => {},
            Err(f) => {
                return Err(f);
            },
        }
        match self.push_value_to_stack(pc_hi) {
            Ok(()) => {},
            Err(f) => {
                return Err(f);
            },
        }
        self.program_counter = address;
        self.pc_manually_set = true;
        proof {
            assert(self@ =~= spec_execute_opcode(
                old(self)@,
                RocCPUInstruction::Call(hi, lo),
            )->Ok_0);
        }
        Ok(())
    }

    fn op_return(&mut self) -> (r: Result<(), RuntimeFault>)
        requires
            old(self).wf(),
        ensures
            final(self).wf(),
            final(self).program == old(self).program,
            (match spec_execute_opcode(old(self)@, RocCPUInstruction::Return) {
                Ok(v2) => r is Ok && final(self)@ == v2,
                Err(f) => r == Err::<(), RuntimeFault>(f),
            }),
    {
        let hi = match self.pop_value_from_stack() {
            Ok(v) => v,
            Err(f) => {
                return Err(f);
            },
        };
        let lo = match self.pop_value_from_stack() {
            Ok(v) => v,
            Err(f) => {
                return Err(f);
            },
        };
        let address = (hi as usize) * 256 + (lo as usize);
        self.program_counter = address;
        self.pc_manually_set = true;
        proof {
            assert(self@ =~= spec_execute_opcode(old(self)@, RocCPUInstruction::Return)->Ok_0);
        }
        Ok(())
    }

    /// Execute one fetched instruction against the machine state.
    fn execute_opcode(&mut self, opcode: RocCPUInstruction) -> (r: Result<(), RuntimeFault>)
        requires
            old(self).wf(),
            old(self).program_counter < usize::MAX,
        ensures
            final(self).wf(),
            final(self).program == old(self).program,
            (match spec_execute_opcode(old(self)@, opcode) {
                Ok(v2) => r is Ok && final(self)@ == v2,
                Err(f) => r == Err::<(), RuntimeFault>(f),
            }),
    {
        match opcode {
            RocCPUInstruction::Add(dst, src) => {
                self.op_add(dst, src);
                Ok(())
            },
            RocCPUInstruction::Sub(dst, src) => {
                self.op_sub(dst, src);
                Ok(())
            },
            RocCPUInstruction::SetRet(val) => {
                self.set_register_value(RocCPURegister::ReturnValue, val);
                Ok(())
            },
            RocCPUInstruction::Put(reg, val) => {
                self.set_register_value(reg, val);
                Ok(())
            },
            RocCPUInstruction::Mov(dst, src) => {
                let val = self.get_register_value(src);
                self.set_register_value(dst, val);
                Ok(())
            },
            RocCPUInstruction::Exit => {
                self.should_continue = false;
                proof {
                    assert(self@ =~= spec_execute_opcode(old(self)@, opcode)->Ok_0);
                }
                Ok(())
            },
            RocCPUInstruction::Cmp(reg1, reg2) => {
                self.op_cmp(reg1, reg2);
                Ok(())
            },
            RocCPUInstruction::PutMem(hi, lo, val) => {
                self.op_put_mem(hi, lo, val);
                Ok(())
            },
            RocCPUInstruction::Push(reg) => self.op_push(reg),
            RocCPUInstruction::Pop(reg) => self.op_pop(reg),
            RocCPUInstruction::Render => {
                self.op_render();
                Ok(())
            },
            RocCPUInstruction::Wait(secs) => {
                self.op_wait(secs);
                Ok(())
            },
            RocCPUInstruction::Jump(hi, lo) => {
                self.op_jump(hi, lo);
                Ok(())
            },
            RocCPUInstruction::JumpIfZero(hi, lo) => {
                self.op_jump_if_zero(hi, lo);
                Ok(())
            },
            RocCPUInstruction::Call(hi, lo) => self.op_call(hi, lo),
            RocCPUInstruction::Return => self.op_return(),
            _ => Ok(()),
        }
    }

    fn reset_execution_stuff(&mut self)
        requires
            old(self).wf(),
        ensures
            final(self).wf(),
            final(self).program == old(self).program,
            final(self)@ == spec_reset(old(self)@),
    {
        self.program_counter = 0;
        self.should_continue = true;
        self.pc_manually_set = false;
        self.stack_pointer = 0;
        self.stack = new_zero_vec(STACK_SIZE);
        self.effects = Vec::new();
        proof {
            assert(spec_effects(self.effects@) =~= Seq::<EffectView>::empty());
            assert(self@ =~= spec_reset(old(self)@));
        }
    }

    /// Run the fetch-execute loop until the machine halts or faults.
    ///
    /// The loop carries a cycle budget of `u64::MAX` so that it
    /// provably terminates; a program still running after that many
    /// cycles — unreachable in any real run — is stopped where it
    /// stands, which the contract states as the `n == u64::MAX` case.
    fn execution_mainloop(&mut self) -> (r: Result<(), RuntimeFault>)
        requires
            old(self).wf(),
            old(self).program is Some,
            old(self).should_continue,
            !old(self).pc_manually_set,
        ensures
            final(self).wf(),
            final(self).program == old(self).program,
            (match r {
                Ok(()) => exists|n: nat|
                    spec_run(old(self).program->Some_0@, old(self)@, n) == Ok::<
                        MachineView,
                        RuntimeFault,
                    >(final(self)@) && (!final(self)@.running || n == u64::MAX as nat),
                Err(f) => exists|n: nat|
                    spec_run(old(self).program->Some_0@, old(self)@, n) == Err::<
                        MachineView,
                        RuntimeFault,
                    >(f),
            }),
    {
        let ghost prog: Seq<RocCPUInstruction> = self.program->Some_0@;
        let ghost s0 = self@;
        let ghost mut n: nat = 0;
        let mut fuel: u64 = u64::MAX;
        loop
            invariant
                self.wf(),
                self.program is Some,
                self.program == old(self).program,
                self.program->Some_0@ == prog,
                s0 == old(self)@,
                self.should_continue,
                !self.pc_manually_set,
                n + fuel == u64::MAX as nat,
                spec_run(prog, s0, n) == Ok::<MachineView, RuntimeFault>(self@),
            decreases fuel,
        {
            if fuel == 0 {
                proof {
                    assert(spec_run(prog, s0, n) == Ok::<MachineView, RuntimeFault>(self@));
                }
                return Ok(());
            }
            let ghost pre = self@;
            let program_length = match &self.program {
                Some(p) => p.len(),
                None => vstd::pervasive::unreached(),
            };
            if program_length <= self.program_counter {
                self.set_register_value(RocCPURegister::ReturnValue, 255);
                self.should_continue = false;
                proof {
                    n = n + 1;
                    assert(spec_cycle(prog, pre) == Ok::<MachineView, RuntimeFault>(self@)) by {
                        assert(self@ =~= spec_cycle(prog, pre)->Ok_0);
                    }
                    assert(spec_run(prog, s0, n) == Ok::<MachineView, RuntimeFault>(self@));
                }
                return Ok(());
            }
            let opcode = match &self.program {
                Some(p) => p[self.program_counter],
                None => vstd::pervasive::unreached(),
            };
            match self.execute_opcode(opcode) {
                Err(f) => {
                    proof {
                        n = n + 1;
                        assert(spec_cycle(prog, pre) == Err::<MachineView, RuntimeFault>(f));
                        assert(spec_run(prog, s0, n) == Err::<MachineView, RuntimeFault>(f));
                    }
                    return Err(f);
                },
                Ok(()) => {},
            }
            if !self.should_continue {
                proof {
                    n = n + 1;
                    assert(spec_cycle(prog, pre) == Ok::<MachineView, RuntimeFault>(self@));
                    assert(spec_run(prog, s0, n) == Ok::<MachineView, RuntimeFault>(self@));
                }
                return Ok(());
            }
            if !self.pc_manually_set {
                self.program_counter = self.program_counter + 1;
            }
            self.pc_manually_set = false;
            fuel = fuel - 1;
            proof {
                n = n + 1;
                assert(spec_cycle(prog, pre) == Ok::<MachineView, RuntimeFault>(self@)) by {
                    assert(self@ =~= spec_cycle(prog, pre)->Ok_0);
                }
                assert(spec_run(prog, s0, n) == Ok::<MachineView, RuntimeFault>(self@));
            }
        }
    }

    /// Run the loaded program from the start and hand back the final
    /// value of the return-value register, or the fault that aborted
    /// the run.  The stack, stack pointer and effect log are cleared
    /// first; registers, memory and the zero flag carry over from any
    /// previous run.  With no program loaded the exit code is 0.
    ///
    /// A run that is still going after `u64::MAX` cycles stops where it
    /// stands; the contract names that case explicitly, and no real
    /// program reaches it.
    pub fn execute(&mut self) -> (r: Result<u8, RuntimeFault>)
        requires
            old(self).wf(),
        ensures
            final(self).wf(),
            final(self).program == old(self).program,
            (match old(self).program {
                None => r == Ok::<u8, RuntimeFault>(0) && final(self)@ == spec_reset(old(self)@),
                Some(p) => (match r {
                    Ok(code) => exists|n: nat|
                        spec_run(p@, spec_reset(old(self)@), n) == Ok::<
                            MachineView,
                            RuntimeFault,
                        >(final(self)@) && (!final(self)@.running || n == u64::MAX as nat) && code
                            == final(self)@.regs[
                            spec_register_index(RocCPURegister::ReturnValue)
                        ],
                    Err(f) => exists|n: nat|
                        spec_run(p@, spec_reset(old(self)@), n) == Err::<
                            MachineView,
                            RuntimeFault,
                        >(f),
                }),
            }),
    {
        self.reset_execution_stuff();
        if self.program.is_none() {
            return Ok(0);
        }
        match self.execution_mainloop() {
            Ok(()) => Ok(self.get_register_value(RocCPURegister::ReturnValue)),
            Err(f) => Err(f),
        }
    }

    /// The render and wait actions of the most recent run, in order.
    pub fn effects(&self) -> (e: &Vec<Effect>)
        ensures
            spec_effects(e@) == self@.effects,
    {
        &self.effects
    }
}

} // verus!
