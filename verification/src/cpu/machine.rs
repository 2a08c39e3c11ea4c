//! The processor's state and its mathematical model.
//!
//! [`Cpu`] is what runs; [`CpuView`] is the same state with sequences in place
//! of buffers. Every operation of the execution unit is stated as a function
//! from one `CpuView` to the next.

use vstd::prelude::*;
use std::collections::VecDeque;
use crate::cpu::instruction::{Instruction, Mnemonic, RepType};
use crate::cpu::registers::{Flags, Register16, Registers};

verus! {

/// The size of the address space: twenty address lines.
pub const MEMORY_SIZE: usize = 0x10_0000;

/// The most calls that the call-stack trace remembers.
pub const CPU_CALL_STACK_LEN: usize = 48;

/// One entry of the call-stack trace: where the call stood and where it went.
#[derive(Copy, Clone, Debug, PartialEq, Eq, Structural)]
pub enum CallStackEntry {
    /// A near call: the caller's CS and IP, and the operand (a displacement for
    /// a relative call, the target offset for an indirect one).
    Call(u16, u16, u16),
    /// A far call: the caller's CS and IP, and the target segment and offset.
    CallF(u16, u16, u16, u16),
}

/// The registers that a repeated string instruction needs to take up its work
/// again after an interrupt.
#[derive(Copy, Clone, Debug, PartialEq, Eq, Structural)]
pub enum RepState {
    NoState,
    /// ES, DI, CX.
    StosbState(u16, u16, u16),
    /// ES, DI, CX.
    StoswState(u16, u16, u16),
    /// Source segment register and its value, SI, CX.
    LodsbState(Register16, u16, u16, u16),
    /// Source segment register and its value, SI, CX.
    LodswState(Register16, u16, u16, u16),
    /// Source segment register and its value, SI, ES, DI, CX.
    MovsbState(Register16, u16, u16, u16, u16, u16),
    /// Source segment register and its value, SI, ES, DI, CX.
    MovswState(Register16, u16, u16, u16, u16, u16),
    /// ES, DI, CX.
    ScasbState(u16, u16, u16),
    /// ES, DI, CX.
    ScaswState(u16, u16, u16),
    /// Source segment register and its value, SI, ES, DI, CX.
    CmpsbState(Register16, u16, u16, u16, u16, u16),
    /// Source segment register and its value, SI, ES, DI, CX.
    CmpswState(Register16, u16, u16, u16, u16, u16),
}

/// The bus unit's clock and what it knows of the prefetch queue.
#[derive(Copy, Clone, Debug, PartialEq, Eq, Structural)]
pub struct BusTiming {
    /// Clock cycles spent so far; the count wraps.
    pub cycles: u64,
    /// Whether prefetching is suspended.
    pub fetch_suspended: bool,
    /// The cycle at which prefetching was last suspended.
    pub suspended_at: u64,
    /// The cycle at which the queue was last flushed.
    pub flushed_at: u64,
    /// How often the queue was flushed; the count wraps.
    pub flushes: u64,
}

impl BusTiming {
    /// The clock at power-on.
    pub open spec fn initial() -> BusTiming {
        BusTiming { cycles: 0, fetch_suspended: false, suspended_at: 0, flushed_at: 0, flushes: 0 }
    }

    /// The clock after `n` more cycles.
    #[verifier::opaque]
    pub open spec fn spend(self, n: int) -> BusTiming {
        BusTiming { cycles: ((self.cycles + n) % 0x1_0000_0000_0000_0000) as u64, ..self }
    }

    /// Prefetching stops, and the cycle is noted.
    pub open spec fn suspend(self) -> BusTiming {
        BusTiming { fetch_suspended: true, suspended_at: self.cycles, ..self }
    }

    /// The queue is emptied, prefetching starts again, and the cycle is noted.
    pub open spec fn flush(self) -> BusTiming {
        BusTiming {
            fetch_suspended: false,
            flushed_at: self.cycles,
            flushes: ((self.flushes + 1) % 0x1_0000_0000_0000_0000) as u64,
            ..self
        }
    }
}

/// The processor.
pub struct Cpu {
    pub r: Registers,
    pub halted: bool,
    /// Set by STI, cleared when the next instruction starts: interrupts are
    /// let in one instruction late.
    pub interrupt_inhibit: bool,
    /// Whether a repeated string instruction is under way.
    pub in_rep: bool,
    pub rep_type: RepType,
    pub rep_mnemonic: Mnemonic,
    /// How many instructions with opcode 0x00 ran in a row.
    pub opcode0_counter: u32,
    /// The offset that the last effective-address calculation gave.
    pub last_ea: u16,
    /// The decoded instruction that `execute_instruction` runs.
    pub i: Instruction,
    pub bus: BusTiming,
    pub memory: Vec<u8>,
    pub call_stack: VecDeque<CallStackEntry>,
    pub rep_state: Vec<(u16, u16, RepState)>,
}

/// The processor's state as a mathematical value.
pub struct CpuView {
    pub r: Registers,
    pub halted: bool,
    pub interrupt_inhibit: bool,
    pub in_rep: bool,
    pub rep_type: RepType,
    pub rep_mnemonic: Mnemonic,
    pub opcode0_counter: u32,
    pub last_ea: u16,
    pub i: Instruction,
    pub bus: BusTiming,
    pub memory: Seq<u8>,
    pub call_stack: Seq<CallStackEntry>,
    pub rep_state: Seq<(u16, u16, RepState)>,
}

impl View for Cpu {
    type V = CpuView;

    open spec fn view(&self) -> CpuView {
        CpuView {
            r: self.r,
            halted: self.halted,
            interrupt_inhibit: self.interrupt_inhibit,
            in_rep: self.in_rep,
            rep_type: self.rep_type,
            rep_mnemonic: self.rep_mnemonic,
            opcode0_counter: self.opcode0_counter,
            last_ea: self.last_ea,
            i: self.i,
            bus: self.bus,
            memory: self.memory@,
            call_stack: self.call_stack@,
            rep_state: self.rep_state@,
        }
    }
}

impl CpuView {
    /// The state is well formed when the memory spans the whole address space
    /// and the call-stack trace is within its bound.
    pub open spec fn wf(self) -> bool {
        &&& self.memory.len() == MEMORY_SIZE
        &&& self.call_stack.len() <= CPU_CALL_STACK_LEN
    }

    /// The state after power-on: everything zero, empty memory, nothing
    /// repeating, a NOP as the instruction.
    pub open spec fn power_on() -> CpuView {
        CpuView {
            r: Registers::zeroed(),
            halted: false,
            interrupt_inhibit: false,
            in_rep: false,
            rep_type: RepType::NoRep,
            rep_mnemonic: Mnemonic::NoOpcode,
            opcode0_counter: 0,
            last_ea: 0,
            i: Instruction::nop(),
            bus: BusTiming::initial(),
            memory: Seq::new(MEMORY_SIZE as nat, |i: int| 0u8),
            call_stack: Seq::empty(),
            rep_state: Seq::empty(),
        }
    }

    /// The state with the register file replaced.
    pub open spec fn with_regs(self, r: Registers) -> CpuView {
        CpuView { r, ..self }
    }

    /// The state with the flags replaced.
    pub open spec fn with_flags(self, flags: Flags) -> CpuView {
        CpuView { r: Registers { flags, ..self.r }, ..self }
    }

    /// The state with IP replaced.
    pub open spec fn with_ip(self, ip: u16) -> CpuView {
        CpuView { r: Registers { ip, ..self.r }, ..self }
    }

    /// `n` clock cycles pass.
    pub open spec fn spend(self, n: int) -> CpuView {
        CpuView { bus: self.bus.spend(n), ..self }
    }

    /// The bus unit stops prefetching.
    pub open spec fn suspend_fetch(self) -> CpuView {
        CpuView { bus: self.bus.suspend(), ..self }
    }

    /// The bus unit empties the prefetch queue and fetches again.
    pub open spec fn flush_queue(self) -> CpuView {
        CpuView { bus: self.bus.flush(), ..self }
    }
}

impl Cpu {
    /// Whether the memory spans the address space and the call-stack trace is
    /// within its bound.
    pub open spec fn wf(&self) -> bool {
        self@.wf()
    }

    /// Tests whether the state is well formed.
    pub fn is_well_formed(&self) -> (b: bool)
        ensures
            b == self.wf(),
    {
        self.memory.len() == MEMORY_SIZE && self.call_stack.len() <= CPU_CALL_STACK_LEN
    }

    /// A processor after power-on, with a megabyte of zeroed memory.
    pub fn new() -> (cpu: Cpu)
        ensures
            cpu.wf(),
            cpu@ == CpuView::power_on(),
    {
        let memory: Vec<u8> = vec![0u8; MEMORY_SIZE];
        let cpu = Cpu {
            r: Registers::new(),
            halted: false,
            interrupt_inhibit: false,
            in_rep: false,
            rep_type: RepType::NoRep,
            rep_mnemonic: Mnemonic::NoOpcode,
            opcode0_counter: 0,
            last_ea: 0,
            i: Instruction::new(),
            bus: BusTiming {
                cycles: 0,
                fetch_suspended: false,
                suspended_at: 0,
                flushed_at: 0,
                flushes: 0,
            },
            memory,
            call_stack: VecDeque::new(),
            rep_state: Vec::new(),
        };
        assert(cpu@.memory =~= CpuView::power_on().memory);
        assert(cpu@.call_stack =~= CpuView::power_on().call_stack);
        assert(cpu@.rep_state =~= CpuView::power_on().rep_state);
        cpu
    }

    /// Replaces the register file.
    pub fn set_regs(&mut self, r: Registers)
        ensures
            final(self)@ == old(self)@.with_regs(r),
    {
        self.r = r;
    }

    /// Replaces the flags.
    pub fn set_flags(&mut self, flags: Flags)
        ensures
            final(self)@ == old(self)@.with_flags(flags),
    {
        self.r.flags = flags;
    }

    /// Continues execution at another offset of the code segment.
    pub fn set_ip(&mut self, ip: u16)
        ensures
            final(self)@ == old(self)@.with_ip(ip),
    {
        self.r.ip = ip;
    }

    /// Spends `ct` clock cycles.
    pub fn cycles(&mut self, ct: u32)
        ensures
            final(self)@ == old(self)@.spend(ct as int),
    {
        reveal(BusTiming::spend);
        self.bus.cycles = self.bus.cycles.wrapping_add(ct as u64);
    }

    /// Spends one clock cycle.
    pub fn cycle(&mut self)
        ensures
            final(self)@ == old(self)@.spend(1),
    {
        self.cycles(1);
    }

    /// Spends the cycles of an operation whose last cycle runs while the next
    /// instruction is already being started: one fewer than `ct`.
    pub fn cycles_nx(&mut self, ct: u32)
        requires
            ct >= 1,
        ensures
            final(self)@ == old(self)@.spend(ct - 1),
    {
        self.cycles(ct - 1);
    }

    /// Tells the bus unit to stop prefetching.
    pub fn biu_suspend_fetch(&mut self)
        ensures
            final(self)@ == old(self)@.suspend_fetch(),
    {
        self.bus.fetch_suspended = true;
        self.bus.suspended_at = self.bus.cycles;
    }

    /// Tells the bus unit to empty the prefetch queue and fetch again.
    pub fn biu_queue_flush(&mut self)
        ensures
            final(self)@ == old(self)@.flush_queue(),
    {
        self.bus.fetch_suspended = false;
        self.bus.flushed_at = self.bus.cycles;
        self.bus.flushes = self.bus.flushes.wrapping_add(1);
    }
}

} // verus!
