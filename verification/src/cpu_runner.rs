//! The execution driver around the CPU: a bounded trace of the last
//! thousand instructions and register snapshots, a table of trapped program
//! counter addresses, and detection of trivial infinite loops.  The driver
//! owns the CPU; an interactive front end owns the driver and decides when
//! to pause.

use vstd::prelude::*;

verus! {

use crate::cpu::Cpu;
use crate::cpu::InvalidOpcode;
use crate::cpu_helpers::CpuState;
use crate::cpu_helpers::Instruction;
use crate::cpu_helpers::op_of;
use crate::semantics::rd8;
use crate::semantics::snapshot_of;
use crate::semantics::spec_instruction_at;
use crate::semantics::spec_step;
use crate::semantics::spec_step_cycles;

/// How many instructions and register snapshots the lossy trace holds.
pub const HISTORY_SIZE: usize = 1000;

/// What the driver observed at the current program counter before stepping.
#[derive(Debug)]
pub enum RunEvent {
    /// Nothing of note: execution may continue.
    NoEvent,
    /// The instruction would execute at the same address as the previous
    /// one: a trivial self-loop.
    LoopDetected { pc: u16 },
    /// The program counter matches a registered trap.
    TrapHit { pc: u16, message: String },
}

/// The message registered for an address, searching the table from the
/// front starting at entry `i`.
pub open spec fn trap_message_from(traps: Seq<(u16, String)>, i: int, loc: u16) -> Option<
    Seq<char>,
>
    decreases traps.len() - i,
{
    if i < 0 || i >= traps.len() {
        None
    } else if traps[i].0 == loc {
        Some(traps[i].1@)
    } else {
        trap_message_from(traps, i + 1, loc)
    }
}

/// The message registered for an address, if any.
pub open spec fn trap_message(traps: Seq<(u16, String)>, loc: u16) -> Option<Seq<char>> {
    trap_message_from(traps, 0, loc)
}

proof fn lemma_tm_first_match(t: Seq<(u16, String)>, i: int, k: int, loc: u16)
    requires
        0 <= i <= k < t.len(),
        t[k].0 == loc,
        forall|j: int| i <= j < k ==> t[j].0 != loc,
    ensures
        trap_message_from(t, i, loc) == Some(t[k].1@),
    decreases k - i,
{
    if i < k {
        lemma_tm_first_match(t, i + 1, k, loc);
    }
}

proof fn lemma_tm_no_match(t: Seq<(u16, String)>, i: int, loc: u16)
    requires
        0 <= i,
        forall|j: int| i <= j < t.len() ==> t[j].0 != loc,
    ensures
        trap_message_from(t, i, loc) is None,
    decreases t.len() - i,
{
    if i < t.len() {
        lemma_tm_no_match(t, i + 1, loc);
    }
}

proof fn lemma_tm_update_other(t: Seq<(u16, String)>, k: int, p: (u16, String), l: u16, i: int)
    requires
        0 <= k < t.len(),
        0 <= i,
        t[k].0 == p.0,
        l != p.0,
    ensures
        trap_message_from(t.update(k, p), i, l) == trap_message_from(t, i, l),
    decreases t.len() - i,
{
    if i < t.len() {
        if i != k && t[i].0 == l {
        } else {
            lemma_tm_update_other(t, k, p, l, i + 1);
        }
    }
}

proof fn lemma_tm_push_other(t: Seq<(u16, String)>, p: (u16, String), l: u16, i: int)
    requires
        0 <= i,
        l != p.0,
    ensures
        trap_message_from(t.push(p), i, l) == trap_message_from(t, i, l),
    decreases t.len() + 1 - i,
{
    if i < t.len() {
        if t[i].0 == l {
        } else {
            lemma_tm_push_other(t, p, l, i + 1);
        }
    } else if i == t.len() {
        assert(trap_message_from(t.push(p), i + 1, l) is None);
    }
}

proof fn lemma_tm_push_same(t: Seq<(u16, String)>, loc: u16, msg: String, i: int)
    requires
        0 <= i <= t.len(),
        forall|j: int| i <= j < t.len() ==> t[j].0 != loc,
    ensures
        trap_message_from(t.push((loc, msg)), i, loc) == Some(msg@),
    decreases t.len() - i,
{
    if i < t.len() {
        lemma_tm_push_same(t, loc, msg, i + 1);
    }
}

/// Drives the CPU: owns it together with the trace ring buffers and the
/// trap table.  `continuous_run` is cleared whenever a trap or a loop is
/// observed, so an interactive front end knows to pause.
pub struct CpuRunner {
    pub cpu: Cpu,
    pub op_count: usize,
    pub instruction_history: Vec<Instruction>,
    pub register_history: Vec<CpuState>,
    pub pc_traps: Vec<(u16, String)>,
    pub continuous_run: bool,
}

impl CpuRunner {
    /// The structural invariant: a well-formed CPU and full-size rings.
    pub open spec fn wf(&self) -> bool {
        &&& self.cpu.wf()
        &&& self.instruction_history@.len() == HISTORY_SIZE
        &&& self.register_history@.len() == HISTORY_SIZE
    }

    /// A fresh driver around a just-reset CPU: empty trap table, step count
    /// zero, single-step mode, and history rings filled with placeholders
    /// whose program counter sentinel matches no real address of a fresh
    /// run.
    pub fn new() -> (r: CpuRunner)
        ensures
            r.wf(),
            r.op_count == 0,
            r.continuous_run == false,
            r.pc_traps@.len() == 0,
            r.cpu@.a == 0 && r.cpu@.x == 0 && r.cpu@.y == 0,
            r.cpu@.pc == 0 && r.cpu@.sp == 0xFF && r.cpu@.sr == 0b0011_0100,
            r.cpu@.cycles == 0,
            forall|i: int| 0 <= i < 0x10000 ==> r.cpu@.mem[i] == 0,
            forall|i: int|
                0 <= i < HISTORY_SIZE ==> r.register_history@[i].pc == 0xFFFF,
    {
        let mut instruction_history: Vec<Instruction> = Vec::new();
        let mut register_history: Vec<CpuState> = Vec::new();
        let mut i: usize = 0;
        while i < HISTORY_SIZE
            invariant
                i <= HISTORY_SIZE,
                instruction_history@.len() == i,
                register_history@.len() == i,
                forall|j: int| 0 <= j < i ==> register_history@[j].pc == 0xFFFF,
            decreases HISTORY_SIZE - i,
        {
            instruction_history.push(Instruction::new());
            register_history.push(CpuState::new());
            i = i + 1;
        }
        CpuRunner {
            cpu: Cpu::new(),
            op_count: 0,
            instruction_history,
            register_history,
            pc_traps: Vec::new(),
            continuous_run: false,
        }
    }

    /// Registers (or overwrites) the message shown when execution reaches
    /// an address.
    pub fn add_trap(&mut self, loc: u16, message: String)
        requires
            old(self).wf(),
        ensures
            final(self).wf(),
            *final(self) == (CpuRunner { pc_traps: final(self).pc_traps, ..*old(self) }),
            trap_message(final(self).pc_traps@, loc) == Some(message@),
            forall|other: u16|
                other != loc ==> trap_message(final(self).pc_traps@, other) == trap_message(
                    old(self).pc_traps@,
                    other,
                ),
    {
        let mut i: usize = 0;
        let n = self.pc_traps.len();
        while i < n
            invariant
                old(self).wf(),
                i <= n,
                n == self.pc_traps@.len(),
                *self == *old(self),
                forall|j: int| 0 <= j < i ==> self.pc_traps@[j].0 != loc,
            decreases n - i,
        {
            if self.pc_traps[i].0 == loc {
                self.pc_traps[i] = (loc, message);
                proof {
                    lemma_tm_first_match(self.pc_traps@, 0, i as int, loc);
                    assert forall|other: u16| other != loc implies trap_message(
                        self.pc_traps@,
                        other,
                    ) == trap_message(old(self).pc_traps@, other) by {
                        lemma_tm_update_other(
                            old(self).pc_traps@,
                            i as int,
                            (loc, message),
                            other,
                            0,
                        );
                    }
                }
                return ;
            }
            i = i + 1;
        }
        self.pc_traps.push((loc, message));
        proof {
            lemma_tm_push_same(old(self).pc_traps@, loc, message, 0);
            assert forall|other: u16| other != loc implies trap_message(self.pc_traps@, other)
                == trap_message(old(self).pc_traps@, other) by {
                lemma_tm_push_other(old(self).pc_traps@, (loc, message), other, 0);
            }
        }
    }

    /// Looks the current program counter up in the trap table; the first
    /// matching entry wins.
    fn find_trap(&self, loc: u16) -> (r: Option<usize>)
        ensures
            match r {
                Some(i) => i < self.pc_traps@.len() && self.pc_traps@[i as int].0 == loc
                    && trap_message(self.pc_traps@, loc) == Some(self.pc_traps@[i as int].1@),
                None => trap_message(self.pc_traps@, loc) is None,
            },
    {
        let mut i: usize = 0;
        let n = self.pc_traps.len();
        while i < n
            invariant
                i <= n,
                n == self.pc_traps@.len(),
                forall|j: int| 0 <= j < i ==> self.pc_traps@[j].0 != loc,
            decreases n - i,
        {
            if self.pc_traps[i].0 == loc {
                proof {
                    lemma_tm_first_match(self.pc_traps@, 0, i as int, loc);
                }
                return Some(i);
            }
            i = i + 1;
        }
        proof {
            lemma_tm_no_match(self.pc_traps@, 0, loc);
        }
        None
    }

    /// Writes the instruction about to execute and the current register
    /// snapshot into the trace rings, at the slot of the current step.
    pub fn record_history(&mut self)
        requires
            old(self).wf(),
        ensures
            final(self).wf(),
            *final(self) == (CpuRunner {
                instruction_history: final(self).instruction_history,
                register_history: final(self).register_history,
                ..*old(self)
            }),
            final(self).instruction_history@ == old(self).instruction_history@.update(
                (old(self).op_count % HISTORY_SIZE) as int,
                spec_instruction_at(old(self).cpu@, old(self).cpu@.pc),
            ),
            final(self).register_history@ == old(self).register_history@.update(
                (old(self).op_count % HISTORY_SIZE) as int,
                snapshot_of(old(self).cpu@),
            ),
    {
        let idx = self.op_count % HISTORY_SIZE;
        let ni = self.cpu.get_next_instruction();
        self.instruction_history[idx] = ni;
        let reg = self.cpu.get_register_state();
        self.register_history[idx] = reg;
    }

    /// Checks the current program counter before stepping: a trivial
    /// self-loop (the previous snapshot sits at the same address) or a
    /// registered trap pauses continuous execution and is reported.
    pub fn check_events(&mut self) -> (ev: RunEvent)
        requires
            old(self).wf(),
        ensures
            final(self).wf(),
            *final(self) == (CpuRunner { continuous_run: final(self).continuous_run, ..*old(self) }),
            ({
                let pc = old(self).cpu@.pc;
                let n = old(self).op_count;
                if n > 0 && pc == old(self).register_history@[((n - 1) % (
                HISTORY_SIZE as int
                )) as int].pc {
                    (ev matches RunEvent::LoopDetected { pc: p } && p == pc) && final(self).continuous_run == false
                } else if trap_message(old(self).pc_traps@, pc) is Some {
                    (ev matches RunEvent::TrapHit { pc: p, message: m } && p == pc && trap_message(
                        old(self).pc_traps@,
                        pc,
                    ) == Some(m@)) && final(self).continuous_run == false
                } else {
                    (ev is NoEvent) && final(self).continuous_run == old(self).continuous_run
                }
            }),
    {
        let pc = self.cpu.pc;
        if self.op_count > 0 && pc == self.register_history[(self.op_count - 1)
            % HISTORY_SIZE].pc {
            self.continuous_run = false;
            RunEvent::LoopDetected { pc }
        } else {
            match self.find_trap(pc) {
                Some(i) => {
                    self.continuous_run = false;
                    let message = self.pc_traps[i].1.clone();
                    RunEvent::TrapHit { pc, message }
                },
                None => RunEvent::NoEvent,
            }
        }
    }

    /// Counts and executes one instruction.
    pub fn advance(&mut self) -> (r: Result<u8, InvalidOpcode>)
        requires
            old(self).wf(),
            old(self).op_count < usize::MAX,
        ensures
            final(self).wf(),
            final(self).op_count == old(self).op_count + 1,
            *final(self) == (CpuRunner {
                op_count: final(self).op_count,
                cpu: final(self).cpu,
                ..*old(self)
            }),
            ({
                let opcode = rd8(old(self).cpu@, old(self).cpu@.pc);
                if op_of(opcode) is Inv {
                    (r matches Err(e) && e.opcode == opcode && e.pc == old(self).cpu@.pc)
                        && final(self).cpu@ == old(self).cpu@
                } else {
                    (r matches Ok(c) && c == spec_step_cycles(old(self).cpu@)) && final(self).cpu@
                        == spec_step(old(self).cpu@)
                }
            }),
    {
        self.op_count = self.op_count + 1;
        self.cpu.execute_next_instruction()
    }
}

} // verus!
