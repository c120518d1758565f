//! The simulator driver: fetches instructions from the program, advances
//! IP, accumulates clock estimates, and dispatches to the semantic
//! handlers; RET stops the run.
//!
//! The whole run is specified by `spec_step`, a one-instruction transition
//! function on [`SimSnapshot`]: `exec` ensures that the final state is
//! reached from the initial one by a chain of `spec_step` transitions, that
//! a successful run stopped at the end of the program or just past a RET,
//! and that a failed run stopped exactly where `spec_step` fails, with no
//! partial state committed for the failing instruction. The driver carries
//! a step budget of the largest `usize`; reporting it exhausted is only
//! allowed after a certified chain of that many steps, so the budget error
//! is never a way out of executing.

use vstd::prelude::*;

use crate::cpu::{Clocks8086, Clocks8088, Flags, Memory, Registers};
use crate::fields::{EffectiveAddress, Operand, Operation};
use crate::handlers::{
    handle_arithmetic, handle_logical, handle_mov, spec_handle_arithmetic, spec_handle_logical,
    spec_handle_mov, ArithmeticOp, ExecError, LogicalOp,
};
use crate::program::{spec_byte_offset, Instruction, Program};

verus! {

/// A point-in-time image of the machine: registers, flags, byte IP, the
/// two clock accumulators, the memory image, and the program cursor (in
/// instruction units).
pub struct SimSnapshot {
    pub registers: Registers,
    pub flags: Flags,
    pub ip: u16,
    pub estimate_cycles: bool,
    pub cycles_8086: int,
    pub cycles_8088: int,
    pub memory: Seq<u8>,
    pub cursor: int,
}

/// The memory operand of an instruction, if it has one.
pub open spec fn spec_find_ea(inst: Instruction) -> Option<EffectiveAddress> {
    match inst.first {
        Some(Operand::EffectiveAddress(ea)) => Some(ea),
        _ => match inst.second {
            Some(Operand::EffectiveAddress(ea)) => Some(ea),
            _ => None,
        },
    }
}

/// The cursor that a signed byte delta reaches from `cursor`: the unique
/// instruction boundary at the target byte offset, or `None` when the
/// target is off-boundary.
pub open spec fn spec_cursor_after(insts: Seq<Instruction>, cursor: int, nbytes: int) -> Option<
    int,
> {
    let target = spec_byte_offset(insts, cursor) + nbytes;
    if exists|k: int| 0 <= k <= insts.len() && spec_byte_offset(insts, k) == target {
        Some(choose|k: int| 0 <= k <= insts.len() && spec_byte_offset(insts, k) == target)
    } else {
        None
    }
}

/// Boundaries are unique: two cursors with one byte offset are the same
/// cursor, because offsets are strictly increasing.
pub proof fn lemma_boundary_unique(insts: Seq<Instruction>, k1: int, k2: int)
    requires
        forall|k: int| 0 <= k < insts.len() ==> (#[trigger] insts[k]).size >= 1,
        0 <= k1 <= insts.len(),
        0 <= k2 <= insts.len(),
        spec_byte_offset(insts, k1) == spec_byte_offset(insts, k2),
    ensures
        k1 == k2,
{
    if k1 < k2 {
        crate::program::lemma_byte_offset_monotonic(insts, k1, k2);
    } else if k2 < k1 {
        crate::program::lemma_byte_offset_monotonic(insts, k2, k1);
    }
}

/// What a conditional advance does from the state after the ordinary IP
/// advance: with cycle estimation on, the jump must carry a clock pair;
/// taken, the cursor and IP move together by the increment's signed byte
/// delta and the taken clocks accrue; not taken, only the not-taken clocks
/// accrue.
#[verifier::opaque]
pub open spec fn spec_cond_advance(
    insts: Seq<Instruction>,
    inst: Instruction,
    s: SimSnapshot,
    regs: Registers,
    ip1: u16,
    cond: bool,
) -> Result<SimSnapshot, ExecError> {
    let clocks = if s.estimate_cycles {
        match inst.spec_clocks_for_coditional_advance() {
            Ok(p) => Ok((p.0.0 as int, p.1.0 as int)),
            Err(e) => Err(e),
        }
    } else {
        Ok((0int, 0int))
    };
    match clocks {
        Err(e) => Err(e),
        Ok((taken, not_taken)) => if cond {
            match inst.first {
                None => Err(ExecError::MissingOperand),
                Some(Operand::Increment(inc)) => {
                    let nbytes = inc.spec_to_i16() as int;
                    if !(0 <= ip1 + nbytes <= 0xFFFF) {
                        Err(ExecError::IpOverflow)
                    } else if s.cycles_8086 + taken > usize::MAX || s.cycles_8088 + taken
                        > usize::MAX {
                        Err(ExecError::ClockOverflow)
                    } else {
                        match spec_cursor_after(insts, s.cursor + 1, nbytes) {
                            None => Err(ExecError::BranchOffBoundary),
                            Some(k) => Ok(
                                SimSnapshot {
                                    registers: regs,
                                    ip: (ip1 + nbytes) as u16,
                                    cycles_8086: s.cycles_8086 + taken,
                                    cycles_8088: s.cycles_8088 + taken,
                                    cursor: k,
                                    ..s
                                },
                            ),
                        }
                    }
                },
                Some(_) => Err(ExecError::UnsupportedOperands),
            }
        } else {
            if s.cycles_8086 + not_taken > usize::MAX || s.cycles_8088 + not_taken
                > usize::MAX {
                Err(ExecError::ClockOverflow)
            } else {
                Ok(
                    SimSnapshot {
                        registers: regs,
                        ip: ip1,
                        cycles_8086: s.cycles_8086 + not_taken,
                        cycles_8088: s.cycles_8088 + not_taken,
                        cursor: s.cursor + 1,
                        ..s
                    },
                )
            }
        },
    }
}

/// The non-branch clock accrual: nothing with estimation off; otherwise
/// the instruction's memory operand (if any) decides alignment, the
/// instruction must carry a clock estimate, and both accumulators take
/// their counts.
#[verifier::opaque]
pub open spec fn spec_accrue_clocks(s: SimSnapshot, inst: Instruction) -> Result<
    (int, int),
    ExecError,
> {
    if !s.estimate_cycles {
        Ok((s.cycles_8086, s.cycles_8088))
    } else {
        let is_odd = match spec_find_ea(inst) {
            Some(ea) => s.registers.spec_calculate_eff_addr(ea) % 2 != 0,
            None => false,
        };
        match crate::clocks::spec_instruction_clocks(inst, is_odd) {
            Err(e) => Err(e),
            Ok(pair) => if s.cycles_8086 + pair.0 > usize::MAX || s.cycles_8088 + pair.1
                > usize::MAX {
                Err(ExecError::ClockOverflow)
            } else {
                Ok((s.cycles_8086 + pair.0, s.cycles_8088 + pair.1))
            },
        }
    }
}

/// One fetch-execute step from a state whose cursor is on an instruction.
/// RET only advances the cursor (the driver stops there). Every other
/// simulated operation advances IP by the instruction size, accrues
/// clocks, and dispatches; an unsimulated operation is an error, and an
/// erring step commits nothing.
#[verifier::opaque]
pub open spec fn spec_step(insts: Seq<Instruction>, s: SimSnapshot) -> Result<
    SimSnapshot,
    ExecError,
> {
    let inst = insts[s.cursor];
    if inst.operation == Operation::Ret {
        Ok(SimSnapshot { cursor: s.cursor + 1, ..s })
    } else {
        let sz16 = (inst.size % 0x10000) as u16;
        if s.ip + sz16 > 0xFFFF {
            Err(ExecError::IpOverflow)
        } else {
            let ip1 = (s.ip + sz16) as u16;
            if inst.spec_is_conditional_advance() {
                match inst.operation {
                    Operation::JNE => spec_cond_advance(
                        insts,
                        inst,
                        s,
                        s.registers,
                        ip1,
                        !s.flags.zero,
                    ),
                    Operation::JE => spec_cond_advance(
                        insts,
                        inst,
                        s,
                        s.registers,
                        ip1,
                        s.flags.zero,
                    ),
                    Operation::JB => spec_cond_advance(
                        insts,
                        inst,
                        s,
                        s.registers,
                        ip1,
                        s.flags.carry,
                    ),
                    Operation::JP => spec_cond_advance(
                        insts,
                        inst,
                        s,
                        s.registers,
                        ip1,
                        s.flags.parity,
                    ),
                    _ => Err(ExecError::UnsupportedOperation),
                }
            } else if inst.operation == Operation::LOOP || inst.operation == Operation::LOOPNZ {
                match spec_accrue_clocks(s, inst) {
                    Err(e) => Err(e),
                    Ok(_) => if s.registers.cx < 1 {
                        Err(ExecError::CxUnderflow)
                    } else {
                        let regs2 = Registers { cx: (s.registers.cx - 1) as u16, ..s.registers };
                        let cond = if inst.operation == Operation::LOOP {
                            regs2.cx != 0
                        } else {
                            regs2.cx != 0 && !s.flags.zero
                        };
                        spec_cond_advance(insts, inst, s, regs2, ip1, cond)
                    },
                }
            } else {
                spec_step_plain(inst, s, ip1)
            }
        }
    }
}

/// The non-branching part of a step: clock accrual, dispatch to the MOV,
/// arithmetic or logical handler, and the joint commit of IP, clocks and
/// the handler's state; an unsimulated operation is an error.
/// The arithmetic operation a mnemonic dispatches to, if any.
pub open spec fn spec_op_to_arith(op: Operation) -> Option<ArithmeticOp> {
    match op {
        Operation::Add => Some(ArithmeticOp::Add),
        Operation::Sub => Some(ArithmeticOp::Sub),
        Operation::Cmp => Some(ArithmeticOp::Cmp),
        Operation::INC => Some(ArithmeticOp::Inc),
        Operation::DEC => Some(ArithmeticOp::Dec),
        _ => None,
    }
}

/// The logical operation a mnemonic dispatches to, if any.
pub open spec fn spec_op_to_logical(op: Operation) -> Option<LogicalOp> {
    match op {
        Operation::TEST => Some(LogicalOp::Test),
        Operation::XOR => Some(LogicalOp::Xor),
        Operation::SHR => Some(LogicalOp::Shr),
        _ => None,
    }
}

/// The handler dispatch of one step: what the instruction's operation does
/// to registers, flags and memory, or why it fails; operations outside the
/// MOV, arithmetic and logical families have no simulation.
#[verifier::opaque]
pub open spec fn spec_dispatch(
    inst: Instruction,
    regs: Registers,
    flags: Flags,
    mem: Seq<u8>,
) -> Result<(Registers, Flags, Seq<u8>), ExecError> {
    if inst.operation == Operation::Mov {
        match spec_handle_mov(regs, mem, inst) {
            Ok((regs2, mem2)) => Ok((regs2, flags, mem2)),
            Err(e) => Err(e),
        }
    } else if spec_op_to_arith(inst.operation) is Some {
        spec_handle_arithmetic(spec_op_to_arith(inst.operation)->0, regs, flags, mem, inst)
    } else if spec_op_to_logical(inst.operation) is Some {
        match spec_handle_logical(spec_op_to_logical(inst.operation)->0, regs, flags, inst) {
            Ok((regs2, flags2)) => Ok((regs2, flags2, mem)),
            Err(e) => Err(e),
        }
    } else {
        Err(ExecError::UnsupportedOperation)
    }
}

/// The non-branching part of a step: clock accrual, handler dispatch, and
/// the joint commit of IP, clocks and the handler's state.
#[verifier::opaque]
pub open spec fn spec_step_plain(inst: Instruction, s: SimSnapshot, ip1: u16) -> Result<
    SimSnapshot,
    ExecError,
> {
    match spec_accrue_clocks(s, inst) {
        Err(e) => Err(e),
        Ok((c86, c88)) => match spec_dispatch(inst, s.registers, s.flags, s.memory) {
            Ok((regs2, flags2, mem2)) => Ok(
                SimSnapshot {
                    registers: regs2,
                    flags: flags2,
                    memory: mem2,
                    ip: ip1,
                    cycles_8086: c86,
                    cycles_8088: c88,
                    cursor: s.cursor + 1,
                    ..s
                },
            ),
            Err(e) => Err(e),
        },
    }
}

/// One valid transition: the cursor is on an instruction and the step
/// yields the second state.
pub open spec fn spec_step_ok(insts: Seq<Instruction>, a: SimSnapshot, b: SimSnapshot) -> bool {
    &&& 0 <= a.cursor < insts.len()
    &&& spec_step(insts, a) == Ok::<SimSnapshot, ExecError>(b)
}

/// The second state is reached from the first by a chain of valid steps.
pub open spec fn spec_reaches(insts: Seq<Instruction>, s0: SimSnapshot, s1: SimSnapshot) -> bool {
    exists|trace: Seq<SimSnapshot>|
        {
            &&& trace.len() >= 1
            &&& trace.first() == s0
            &&& trace.last() == s1
            &&& forall|i: int|
                0 <= i < trace.len() - 1 ==> spec_step_ok(insts, #[trigger] trace[i], trace[i + 1])
        }
}

/// The second state is reached from the first by a chain of exactly `n`
/// valid steps.
pub open spec fn spec_reaches_n(
    insts: Seq<Instruction>,
    s0: SimSnapshot,
    s1: SimSnapshot,
    n: nat,
) -> bool {
    exists|trace: Seq<SimSnapshot>|
        {
            &&& trace.len() == n + 1
            &&& trace.first() == s0
            &&& trace.last() == s1
            &&& forall|i: int|
                0 <= i < trace.len() - 1 ==> spec_step_ok(insts, #[trigger] trace[i], trace[i + 1])
        }
}

/// Every state reaches itself in zero steps.
pub proof fn lemma_reaches_n_refl(insts: Seq<Instruction>, s: SimSnapshot)
    ensures
        spec_reaches_n(insts, s, s, 0),
{
    let trace = seq![s];
    assert(trace.len() == 1 && trace.first() == s && trace.last() == s);
    assert(forall|i: int|
        0 <= i < trace.len() - 1 ==> spec_step_ok(insts, #[trigger] trace[i], trace[i + 1]));
}

/// Counted reachability extends by one valid step.
pub proof fn lemma_reaches_n_step(
    insts: Seq<Instruction>,
    s0: SimSnapshot,
    s1: SimSnapshot,
    s2: SimSnapshot,
    n: nat,
)
    requires
        spec_reaches_n(insts, s0, s1, n),
        spec_step_ok(insts, s1, s2),
    ensures
        spec_reaches_n(insts, s0, s2, n + 1),
{
    let trace = choose|trace: Seq<SimSnapshot>|
        {
            &&& trace.len() == n + 1
            &&& trace.first() == s0
            &&& trace.last() == s1
            &&& forall|i: int|
                0 <= i < trace.len() - 1 ==> spec_step_ok(insts, #[trigger] trace[i], trace[i + 1])
        };
    let trace2 = trace.push(s2);
    assert(trace2.len() == n + 2);
    assert(trace2.last() == s2);
    assert(trace2.first() == s0);
    assert forall|i: int|
        0 <= i < trace2.len() - 1 implies spec_step_ok(insts, #[trigger] trace2[i], trace2[i + 1]) by {
        if i < trace.len() - 1 {
            assert(trace2[i] == trace[i] && trace2[i + 1] == trace[i + 1]);
        } else {
            assert(trace2[i] == trace.last() && trace2[i + 1] == s2);
        }
    }
}

/// A chain of some exact length is a chain.
pub proof fn lemma_reaches_n_reaches(
    insts: Seq<Instruction>,
    s0: SimSnapshot,
    s1: SimSnapshot,
    n: nat,
)
    requires
        spec_reaches_n(insts, s0, s1, n),
    ensures
        spec_reaches(insts, s0, s1),
{
    let trace = choose|trace: Seq<SimSnapshot>|
        {
            &&& trace.len() == n + 1
            &&& trace.first() == s0
            &&& trace.last() == s1
            &&& forall|i: int|
                0 <= i < trace.len() - 1 ==> spec_step_ok(insts, #[trigger] trace[i], trace[i + 1])
        };
    assert(trace.len() >= 1);
}

/// The functional simulator: registers, flags, a byte IP, the 64 KiB
/// memory, and optional clock estimation.
pub struct Simulator {
    pub registers: Registers,
    pub flags: Flags,
    pub ip: u16,
    pub log_ip: bool,
    pub estimate_cycles: bool,
    pub cycles_8086: Clocks8086,
    pub cycles_8088: Clocks8088,
    pub memory: Memory,
}

impl Default for Simulator {
    /// A fresh machine: everything zero, no IP logging, no cycle
    /// estimation.
    fn default() -> (r: Simulator)
        ensures
            r.wf(),
            r.registers == (Registers {
                ax: 0,
                bx: 0,
                cx: 0,
                dx: 0,
                sp: 0,
                bp: 0,
                si: 0,
                di: 0,
                es: 0,
                ss: 0,
                ds: 0,
                cs: 0,
            }),
            r.flags == (Flags {
                zero: false,
                sign: false,
                parity: false,
                carry: false,
                overflow: false,
                auxiliary: false,
            }),
            r.ip == 0,
            !r.log_ip,
            !r.estimate_cycles,
            r.cycles_8086.0 == 0,
            r.cycles_8088.0 == 0,
            forall|i: int| 0 <= i < 0x10000 ==> r.memory.0@[i] == 0u8,
    {
        Simulator {
            registers: Registers::default(),
            flags: Flags::default(),
            ip: 0,
            log_ip: false,
            estimate_cycles: false,
            cycles_8086: Clocks8086(0),
            cycles_8088: Clocks8088(0),
            memory: Memory::default(),
        }
    }
}

impl Simulator {
    /// The memory image is well-formed.
    pub open spec fn wf(self) -> bool {
        self.memory.wf()
    }

    /// This machine state as a snapshot, together with a program cursor.
    pub open spec fn spec_snapshot(self, cursor: int) -> SimSnapshot {
        SimSnapshot {
            registers: self.registers,
            flags: self.flags,
            ip: self.ip,
            estimate_cycles: self.estimate_cycles,
            cycles_8086: self.cycles_8086.0 as int,
            cycles_8088: self.cycles_8088.0 as int,
            memory: self.memory.0@,
            cursor,
        }
    }

    /// Includes IP in the state report.
    pub fn enable_ip_log(&mut self)
        ensures
            *final(self) == (Simulator { log_ip: true, ..*old(self) }),
    {
        self.log_ip = true;
    }

    /// Turns on per-instruction clock estimation.
    pub fn enable_cycle_estimation(&mut self)
        ensures
            *final(self) == (Simulator { estimate_cycles: true, ..*old(self) }),
    {
        self.estimate_cycles = true;
    }

    /// The accumulated 8086 clock count.
    pub fn clocks_8086(&self) -> (r: usize)
        ensures
            r == self.cycles_8086.0,
    {
        self.cycles_8086.0
    }

    /// The accumulated 8088 clock count.
    pub fn clocks_8088(&self) -> (r: usize)
        ensures
            r == self.cycles_8088.0,
    {
        self.cycles_8088.0
    }

    /// A copy of the 64 KiB memory image, for a caller-side sink.
    pub fn dump_memory(&self) -> (r: Vec<u8>)
        requires
            self.wf(),
        ensures
            r@ == self.memory.0@,
    {
        let mut out: Vec<u8> = Vec::new();
        let mut i: usize = 0;
        while i < self.memory.0.len()
            invariant
                self.wf(),
                i <= self.memory.0@.len(),
                out@ == self.memory.0@.take(i as int),
            decreases self.memory.0@.len() - i,
        {
            out.push(self.memory.0[i]);
            proof {
                assert(out@ =~= self.memory.0@.take(i as int + 1));
            }
            i = i + 1;
        }
        proof {
            assert(out@ =~= self.memory.0@);
        }
        out
    }
}


fn find_ea(inst: &Instruction) -> (r: Option<EffectiveAddress>)
    ensures
        r == spec_find_ea(*inst),
{
    match inst.first {
        Some(Operand::EffectiveAddress(ea)) => Some(ea),
        _ => match inst.second {
            Some(Operand::EffectiveAddress(ea)) => Some(ea),
            _ => None,
        },
    }
}

/// The arithmetic operation a mnemonic dispatches to, if any.
fn op_to_arith(op: Operation) -> (r: Option<ArithmeticOp>)
    ensures
        r == spec_op_to_arith(op),
{
    match op {
        Operation::Add => Some(ArithmeticOp::Add),
        Operation::Sub => Some(ArithmeticOp::Sub),
        Operation::Cmp => Some(ArithmeticOp::Cmp),
        Operation::INC => Some(ArithmeticOp::Inc),
        Operation::DEC => Some(ArithmeticOp::Dec),
        _ => None,
    }
}

/// The logical operation a mnemonic dispatches to, if any.
fn op_to_logical(op: Operation) -> (r: Option<LogicalOp>)
    ensures
        r == spec_op_to_logical(op),
{
    match op {
        Operation::TEST => Some(LogicalOp::Test),
        Operation::XOR => Some(LogicalOp::Xor),
        Operation::SHR => Some(LogicalOp::Shr),
        _ => None,
    }
}

impl Simulator {
    /// The non-branch clock accrual; read-only, the caller commits the
    /// counts.
    fn accrue_clocks(&self, inst: Instruction, cursor: Ghost<int>) -> (r: Result<
        (usize, usize),
        ExecError,
    >)
        ensures
            spec_accrue_clocks(self.spec_snapshot(cursor@), inst) == (match r {
                Ok(pair) => Ok::<(int, int), ExecError>((pair.0 as int, pair.1 as int)),
                Err(e) => Err::<(int, int), ExecError>(e),
            }),
    {
        proof {
            reveal(spec_accrue_clocks);
        }
        if !self.estimate_cycles {
            return Ok((self.cycles_8086.0, self.cycles_8088.0));
        }
        let odd = match find_ea(&inst) {
            Some(ea) => self.registers.calculate_eff_addr(ea) % 2 != 0,
            None => false,
        };
        let pair = match inst.clocks(odd) {
            Ok(p) => p,
            Err(e) => {
                return Err(e);
            },
        };
        let a = match self.cycles_8086.0.checked_add(pair.0) {
            Some(v) => v,
            None => {
                return Err(ExecError::ClockOverflow);
            },
        };
        let b = match self.cycles_8088.0.checked_add(pair.1) {
            Some(v) => v,
            None => {
                return Err(ExecError::ClockOverflow);
            },
        };
        Ok((a, b))
    }

    /// The handler dispatch of one step; commits exactly what the matched
    /// handler commits.
    #[verifier::spinoff_prover]
    #[verifier::rlimit(100)]
    fn dispatch_handlers(&mut self, inst: Instruction) -> (r: Result<(), ExecError>)
        requires
            old(self).wf(),
        ensures
            final(self).wf(),
            final(self).ip == old(self).ip,
            final(self).cycles_8086 == old(self).cycles_8086,
            final(self).cycles_8088 == old(self).cycles_8088,
            final(self).log_ip == old(self).log_ip,
            final(self).estimate_cycles == old(self).estimate_cycles,
            ({
                let d = spec_dispatch(inst, old(self).registers, old(self).flags, old(self).memory.0@);
                match r {
                    Ok(_) => d == Ok::<(Registers, Flags, Seq<u8>), ExecError>(
                        (final(self).registers, final(self).flags, final(self).memory.0@),
                    ),
                    Err(e) => {
                        &&& d == Err::<(Registers, Flags, Seq<u8>), ExecError>(e)
                        &&& final(self).registers == old(self).registers
                        &&& final(self).flags == old(self).flags
                        &&& final(self).memory.0@ == old(self).memory.0@
                    },
                }
            }),
    {
        proof {
            reveal(spec_dispatch);
        }
        if matches!(inst.operation, Operation::Mov) {
            handle_mov(&inst, &mut self.registers, &mut self.memory)
        } else if let Some(aop) = op_to_arith(inst.operation) {
            handle_arithmetic(aop, &inst, &mut self.registers, &mut self.flags, &mut self.memory)
        } else if let Some(lop) = op_to_logical(inst.operation) {
            handle_logical(lop, &inst, &mut self.registers, &mut self.flags, &mut self.memory)
        } else {
            Err(ExecError::UnsupportedOperation)
        }
    }

    /// One non-branching step: accrue clocks, dispatch the handler, and
    /// commit IP and clocks together. On failure nothing changes.
    #[verifier::spinoff_prover]
    #[verifier::rlimit(100)]
    fn step_plain(&mut self, inst: Instruction, ip1: u16, cursor: Ghost<int>) -> (r: Result<
        (),
        ExecError,
    >)
        requires
            old(self).wf(),
        ensures
            final(self).wf(),
            final(self).log_ip == old(self).log_ip,
            final(self).estimate_cycles == old(self).estimate_cycles,
            match r {
                Ok(_) => spec_step_plain(inst, old(self).spec_snapshot(cursor@), ip1) == Ok::<
                    SimSnapshot,
                    ExecError,
                >(final(self).spec_snapshot(cursor@ + 1)),
                Err(e) => spec_step_plain(inst, old(self).spec_snapshot(cursor@), ip1) == Err::<
                    SimSnapshot,
                    ExecError,
                >(e),
            },
            r is Err ==> final(self).spec_snapshot(cursor@) == old(self).spec_snapshot(
                cursor@,
            ),
    {
        proof {
            reveal(spec_step_plain);
        }
        let (c86, c88) = match self.accrue_clocks(inst, cursor) {
            Ok(pair) => pair,
            Err(e) => {
                return Err(e);
            },
        };
        match self.dispatch_handlers(inst) {
            Ok(_) => {},
            Err(e) => {
                return Err(e);
            },
        }
        self.ip = ip1;
        self.cycles_8086 = Clocks8086(c86);
        self.cycles_8088 = Clocks8088(c88);
        Ok(())
    }

    /// The shared tail of every branching operation: clock selection, the
    /// condition, the joint cursor-and-IP move, and the commit. On failure
    /// nothing changes.
    #[verifier::spinoff_prover]
    #[verifier::rlimit(100)]
    fn cond_advance(
        &mut self,
        inst: Instruction,
        program: &mut Program,
        new_regs: Registers,
        ip1: u16,
        cond: bool,
    ) -> (r: Result<(), ExecError>)
        requires
            old(self).wf(),
            old(program).wf(),
            old(program).ip >= 1,
        ensures
            final(self).wf(),
            final(program).wf(),
            final(program).instructions@ == old(program).instructions@,
            final(self).log_ip == old(self).log_ip,
            final(self).estimate_cycles == old(self).estimate_cycles,
            final(self).memory == old(self).memory,
            ({
                let insts = old(program).instructions@;
                let s = old(self).spec_snapshot(old(program).ip - 1);
                match r {
                    Ok(_) => spec_cond_advance(insts, inst, s, new_regs, ip1, cond) == Ok::<
                        SimSnapshot,
                        ExecError,
                    >(final(self).spec_snapshot(final(program).ip as int)),
                    Err(e) => {
                        &&& spec_cond_advance(insts, inst, s, new_regs, ip1, cond) == Err::<
                            SimSnapshot,
                            ExecError,
                        >(e)
                        &&& *final(self) == *old(self)
                        &&& final(program).ip == old(program).ip
                        &&& final(program).instructions@ == old(program).instructions@
                    },
                }
            }),
    {
        proof {
            reveal(spec_cond_advance);
        }
        let (taken, not_taken): (usize, usize) = if self.estimate_cycles {
            if inst.is_conditional_advance() {
                match inst.clocks_for_coditional_advance() {
                    Ok(p) => ((p.0).0, (p.1).0),
                    Err(e) => {
                        return Err(e);
                    },
                }
            } else {
                // the LOOP family reaches here only with estimation off,
                // but mirror the missing estimate for completeness
                return Err(ExecError::UnsupportedClocks);
            }
        } else {
            (0, 0)
        };
        if cond {
            let first = match inst.first {
                Some(f) => f,
                None => {
                    return Err(ExecError::MissingOperand);
                },
            };
            let inc = match first {
                Operand::Increment(i) => i,
                _ => {
                    return Err(ExecError::UnsupportedOperands);
                },
            };
            let nbytes = inc.to_i16();
            let ip2 = match ip1.checked_add_signed(nbytes) {
                Some(v) => v,
                None => {
                    return Err(ExecError::IpOverflow);
                },
            };
            let c86 = match self.cycles_8086.0.checked_add(taken) {
                Some(v) => v,
                None => {
                    return Err(ExecError::ClockOverflow);
                },
            };
            let c88 = match self.cycles_8088.0.checked_add(taken) {
                Some(v) => v,
                None => {
                    return Err(ExecError::ClockOverflow);
                },
            };
            match program.advance_by(nbytes) {
                Ok(_) => {},
                Err(_) => {
                    return Err(ExecError::BranchOffBoundary);
                },
            }
            proof {
                let insts = old(program).instructions@;
                let c = old(program).ip as int;
                let target = spec_byte_offset(insts, c) + nbytes;
                let fip = program.ip as int;
                assert(spec_byte_offset(insts, fip) == target);
                assert(0 <= fip <= insts.len());
                assert(spec_cursor_after(insts, c, nbytes as int) is Some);
                let k0 = spec_cursor_after(insts, c, nbytes as int)->0;
                lemma_boundary_unique(insts, k0, fip);
            }
            self.registers = new_regs;
            self.ip = ip2;
            self.cycles_8086 = Clocks8086(c86);
            self.cycles_8088 = Clocks8088(c88);
            Ok(())
        } else {
            let c86 = match self.cycles_8086.0.checked_add(not_taken) {
                Some(v) => v,
                None => {
                    return Err(ExecError::ClockOverflow);
                },
            };
            let c88 = match self.cycles_8088.0.checked_add(not_taken) {
                Some(v) => v,
                None => {
                    return Err(ExecError::ClockOverflow);
                },
            };
            self.registers = new_regs;
            self.ip = ip1;
            self.cycles_8086 = Clocks8086(c86);
            self.cycles_8088 = Clocks8088(c88);
            Ok(())
        }
    }

    /// Runs the program: fetches, advances IP, accumulates clocks,
    /// dispatches; stops cleanly at RET or at the end of the program.
    ///
    /// On success the final machine state is reached from the initial one
    /// by [`spec_step`] transitions and the cursor rests at the end of the
    /// program or just past a RET. On failure the final state is a reached
    /// state on which [`spec_step`] fails with exactly the reported error —
    /// the failing instruction (the one under the final cursor) commits
    /// nothing — unless the error is the step budget running out, which is
    /// only allowed together with a chain of exactly `usize::MAX` steps
    /// from the initial to the final state.
    #[verifier::rlimit(100)]
    #[verifier::spinoff_prover]
    pub fn exec(&mut self, program: &mut Program) -> (r: Result<(), ExecError>)
        requires
            old(self).wf(),
            old(program).wf(),
        ensures
            final(self).wf(),
            final(program).wf(),
            final(program).instructions@ == old(program).instructions@,
            final(self).log_ip == old(self).log_ip,
            final(self).estimate_cycles == old(self).estimate_cycles,
            ({
                let insts = old(program).instructions@;
                let s0 = old(self).spec_snapshot(old(program).ip as int);
                let s1 = final(self).spec_snapshot(final(program).ip as int);
                &&& spec_reaches(insts, s0, s1)
                &&& match r {
                    Ok(_) => s1.cursor == insts.len() || (s1.cursor >= 1 && insts[s1.cursor
                        - 1].operation == Operation::Ret),
                    Err(e) => (e == ExecError::StepLimit && spec_reaches_n(
                        insts,
                        s0,
                        s1,
                        usize::MAX as nat,
                    )) || (0 <= s1.cursor < insts.len() && spec_step(insts, s1) == Err::<
                        SimSnapshot,
                        ExecError,
                    >(e)),
                }
            }),
    {
        let ghost insts = program.instructions@;
        let ghost s0 = old(self).spec_snapshot(old(program).ip as int);
        proof {
            lemma_reaches_n_refl(insts, s0);
        }
        let mut fuel: usize = usize::MAX;
        loop
            invariant_except_break
                spec_reaches_n(
                    insts,
                    s0,
                    self.spec_snapshot(program.ip as int),
                    (usize::MAX - fuel) as nat,
                ),
            invariant
                self.wf(),
                program.wf(),
                program.instructions@ == insts,
                insts == old(program).instructions@,
                self.log_ip == old(self).log_ip,
                self.estimate_cycles == old(self).estimate_cycles,
                s0 == old(self).spec_snapshot(old(program).ip as int),
            ensures
                self.wf(),
                program.wf(),
                program.instructions@ == insts,
                self.log_ip == old(self).log_ip,
                self.estimate_cycles == old(self).estimate_cycles,
                spec_reaches(insts, s0, self.spec_snapshot(program.ip as int)),
                program.ip == insts.len() || (program.ip >= 1 && insts[program.ip
                    - 1].operation == Operation::Ret),
            decreases fuel,
        {
            let ghost steps0 = (usize::MAX - fuel) as nat;
            if fuel == 0 {
                proof {
                    lemma_reaches_n_reaches(
                        insts,
                        s0,
                        self.spec_snapshot(program.ip as int),
                        steps0,
                    );
                }
                return Err(ExecError::StepLimit);
            }
            fuel = fuel - 1;
            let ghost s_pre = self.spec_snapshot(program.ip as int);
            let c0: usize = program.ip;
            let inst = match program.next_instruction() {
                Some(i) => i,
                None => {
                    proof {
                        lemma_reaches_n_reaches(
                            insts,
                            s0,
                            self.spec_snapshot(program.ip as int),
                            steps0,
                        );
                    }
                    break;
                },
            };
            if matches!(inst.operation, Operation::Ret) {
                proof {
                    let s_post = self.spec_snapshot(program.ip as int);
                    assert(spec_step(insts, s_pre) == Ok::<SimSnapshot, ExecError>(s_post)) by {
                        reveal(spec_step);
                    }
                    lemma_reaches_n_step(insts, s0, s_pre, s_post, steps0);
                    lemma_reaches_n_reaches(insts, s0, s_post, steps0 + 1);
                }
                break;
            }
            let szm: usize = inst.size % 0x10000;
            let sz16: u16 = szm as u16;
            let ip1 = match self.ip.checked_add(sz16) {
                Some(v) => v,
                None => {
                    program.ip = c0;
                    proof {
                        assert(spec_step(insts, s_pre) == Err::<SimSnapshot, ExecError>(
                            ExecError::IpOverflow,
                        )) by {
                            reveal(spec_step);
                        }
                        lemma_reaches_n_reaches(insts, s0, s_pre, steps0);
                    }
                    return Err(ExecError::IpOverflow);
                },
            };
            if inst.is_conditional_advance() {
                let outcome = match inst.operation {
                    Operation::JNE => {
                        let c = !self.flags.zero;
                        self.cond_advance(inst, program, self.registers, ip1, c)
                    },
                    Operation::JE => {
                        let c = self.flags.zero;
                        self.cond_advance(inst, program, self.registers, ip1, c)
                    },
                    Operation::JB => {
                        let c = self.flags.carry;
                        self.cond_advance(inst, program, self.registers, ip1, c)
                    },
                    Operation::JP => {
                        let c = self.flags.parity;
                        self.cond_advance(inst, program, self.registers, ip1, c)
                    },
                    _ => Err(ExecError::UnsupportedOperation),
                };
                match outcome {
                    Ok(_) => {
                        proof {
                            let s_post = self.spec_snapshot(program.ip as int);
                            assert(spec_step(insts, s_pre) == Ok::<SimSnapshot, ExecError>(
                                s_post,
                            )) by {
                                reveal(spec_step);
                            }
                            lemma_reaches_n_step(insts, s0, s_pre, s_post, steps0);
                        }
                    },
                    Err(e) => {
                        program.ip = c0;
                        proof {
                            assert(spec_step(insts, s_pre) == Err::<SimSnapshot, ExecError>(
                                e,
                            )) by {
                                reveal(spec_step);
                            }
                            lemma_reaches_n_reaches(insts, s0, s_pre, steps0);
                        }
                        return Err(e);
                    },
                }
            } else if matches!(inst.operation, Operation::LOOP | Operation::LOOPNZ) {
                match self.accrue_clocks(inst, Ghost(c0 as int)) {
                    Ok(_) => {},
                    Err(e) => {
                        program.ip = c0;
                        proof {
                            assert(spec_step(insts, s_pre) == Err::<SimSnapshot, ExecError>(
                                e,
                            )) by {
                                reveal(spec_step);
                            }
                            lemma_reaches_n_reaches(insts, s0, s_pre, steps0);
                        }
                        return Err(e);
                    },
                }
                let cx0 = self.registers.cx();
                if cx0 == 0 {
                    program.ip = c0;
                    proof {
                        assert(spec_step(insts, s_pre) == Err::<SimSnapshot, ExecError>(
                            ExecError::CxUnderflow,
                        )) by {
                            reveal(spec_step);
                        }
                        lemma_reaches_n_reaches(insts, s0, s_pre, steps0);
                    }
                    return Err(ExecError::CxUnderflow);
                }
                let regs2 = Registers { cx: cx0 - 1, ..self.registers };
                let c = if matches!(inst.operation, Operation::LOOP) {
                    regs2.cx != 0
                } else {
                    regs2.cx != 0 && !self.flags.zero
                };
                match self.cond_advance(inst, program, regs2, ip1, c) {
                    Ok(_) => {
                        proof {
                            let s_post = self.spec_snapshot(program.ip as int);
                            assert(spec_step(insts, s_pre) == Ok::<SimSnapshot, ExecError>(
                                s_post,
                            )) by {
                                reveal(spec_step);
                            }
                            lemma_reaches_n_step(insts, s0, s_pre, s_post, steps0);
                        }
                    },
                    Err(e) => {
                        program.ip = c0;
                        proof {
                            assert(spec_step(insts, s_pre) == Err::<SimSnapshot, ExecError>(
                                e,
                            )) by {
                                reveal(spec_step);
                            }
                            lemma_reaches_n_reaches(insts, s0, s_pre, steps0);
                        }
                        return Err(e);
                    },
                }
            } else {
                match self.step_plain(inst, ip1, Ghost(c0 as int)) {
                    Ok(_) => {
                        proof {
                            let s_post = self.spec_snapshot(program.ip as int);
                            assert(spec_step(insts, s_pre) == Ok::<SimSnapshot, ExecError>(
                                s_post,
                            )) by {
                                reveal(spec_step);
                            }
                            lemma_reaches_n_step(insts, s0, s_pre, s_post, steps0);
                        }
                    },
                    Err(e) => {
                        program.ip = c0;
                        proof {
                            assert(spec_step(insts, s_pre) == Err::<SimSnapshot, ExecError>(
                                e,
                            )) by {
                                reveal(spec_step);
                            }
                            lemma_reaches_n_reaches(insts, s0, s_pre, steps0);
                        }
                        return Err(e);
                    },
                }
            }
        }
        Ok(())
    }
}


/// Conditional branch symmetry: when a conditional advance succeeds with
/// the triggering condition, IP moves past the instruction by exactly the
/// increment's signed byte delta; without it, IP rests at the next
/// instruction (`ip1`) and the cursor at the following one.
pub proof fn lemma_branch_symmetry(
    insts: Seq<Instruction>,
    inst: Instruction,
    s: SimSnapshot,
    regs: Registers,
    ip1: u16,
    cond: bool,
)
    ensures
        spec_cond_advance(insts, inst, s, regs, ip1, cond) matches Ok(s2) ==> if cond {
            &&& inst.first matches Some(Operand::Increment(inc))
            &&& s2.ip == ip1 + (inst.first->0)->Increment_0.spec_to_i16()
        } else {
            &&& s2.ip == ip1
            &&& s2.cursor == s.cursor + 1
        },
{
    reveal(spec_cond_advance);
}

/// The LOOP invariant: a successful LOOP or LOOPNZ step decrements CX by
/// exactly one; the loop is left (IP simply moves to the next instruction)
/// exactly when CX reaches zero — or, for LOOPNZ, also when the zero flag
/// is set.
pub proof fn lemma_loop_invariant(insts: Seq<Instruction>, s: SimSnapshot)
    requires
        0 <= s.cursor < insts.len(),
        insts[s.cursor].operation == Operation::LOOP || insts[s.cursor].operation
            == Operation::LOOPNZ,
    ensures
        spec_step(insts, s) matches Ok(s2) ==> {
            let inst = insts[s.cursor];
            let ip1 = (s.ip + (inst.size % 0x10000) as u16) as u16;
            let exits = if inst.operation == Operation::LOOP {
                s2.registers.cx == 0
            } else {
                s2.registers.cx == 0 || s.flags.zero
            };
            &&& s.registers.cx >= 1
            &&& s2.registers.cx == s.registers.cx - 1
            &&& (exits ==> s2.ip == ip1 && s2.cursor == s.cursor + 1)
            &&& (!exits ==> (inst.first matches Some(Operand::Increment(inc))) && s2.ip == ip1
                + (inst.first->0)->Increment_0.spec_to_i16())
        },
{
    reveal(spec_step);
    reveal(spec_cond_advance);
    reveal(spec_accrue_clocks);
}

} // verus!
