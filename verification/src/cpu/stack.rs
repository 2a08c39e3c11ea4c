//! The hardware stack at SS:SP, the call-stack trace, and software
//! interrupts.

use vstd::prelude::*;
use crate::cpu::bus::{bus_cost, calc_linear_address, linear_address};
use crate::cpu::instruction::ReadWriteFlag;
use crate::cpu::machine::{CallStackEntry, Cpu, CpuView, CPU_CALL_STACK_LEN, MEMORY_SIZE};
use crate::cpu::operand::relative_offset;
use crate::cpu::registers::{Flags, Register16, Registers};

verus! {

impl CpuView {
    /// The physical address of the top of the stack.
    pub open spec fn stack_address(self) -> int {
        linear_address(self.r.ss, self.r.sp)
    }

    /// SP moves down by two.
    pub open spec fn grow_stack(self) -> CpuView {
        self.with_regs(Registers { sp: relative_offset(self.r.sp, -2), ..self.r })
    }

    /// SP moves up by `bytes`, wrapping within the segment.
    pub open spec fn release(self, bytes: u16) -> CpuView {
        self.with_regs(Registers { sp: relative_offset(self.r.sp, bytes as int), ..self.r })
    }

    /// A word is pushed: SP moves down by two, then the word is written at
    /// SS:SP.
    pub open spec fn push16(self, value: u16, flag: ReadWriteFlag) -> CpuView {
        let grown = self.grow_stack();
        grown.bus_write_u16(grown.stack_address(), value, flag)
    }

    /// A byte is pushed into a word's place: SP moves down by two, and the
    /// byte is written at SS:SP.
    pub open spec fn push8(self, value: u8, flag: ReadWriteFlag) -> CpuView {
        let grown = self.grow_stack();
        grown.bus_write_u8(grown.stack_address(), value, flag)
    }

    /// The word on top of the stack.
    pub open spec fn stack_top(self) -> u16 {
        self.word_at(self.stack_address())
    }

    /// The state after a word was popped: two byte transfers, and SP moved up
    /// by two.
    pub open spec fn after_pop16(self, flag: ReadWriteFlag) -> CpuView {
        self.spend(4 + bus_cost(flag)).release(2)
    }

    /// A register is pushed.
    pub open spec fn push_register16(self, reg: Register16, flag: ReadWriteFlag) -> CpuView {
        self.push16(self.r.get16(reg), flag)
    }

    /// A register is popped: SP moves first, so that a pop into SP leaves the
    /// popped value there.
    pub open spec fn pop_register16(self, reg: Register16, flag: ReadWriteFlag) -> CpuView {
        let popped = self.after_pop16(flag);
        popped.with_regs(popped.r.set16(reg, self.stack_top()))
    }

    /// The flag word is pushed.
    pub open spec fn push_flags(self, flag: ReadWriteFlag) -> CpuView {
        self.push16(self.r.flags.word() as u16, flag)
    }

    /// The flag word is popped.
    pub open spec fn pop_flags(self) -> CpuView {
        self.after_pop16(ReadWriteFlag::Normal).with_flags(
            Flags::from_word(self.stack_top() as int),
        )
    }

    /// An entry is added to the call-stack trace; when the trace is full, its
    /// oldest entry leaves first.
    pub open spec fn push_call_stack(self, entry: CallStackEntry) -> CpuView {
        let kept = if self.call_stack.len() >= CPU_CALL_STACK_LEN {
            self.call_stack.drop_first()
        } else {
            self.call_stack
        };
        CpuView { call_stack: kept.push(entry), ..self }
    }

    /// The newest entry leaves the call-stack trace, if there is one.
    pub open spec fn pop_call_stack(self) -> CpuView {
        if self.call_stack.len() > 0 {
            CpuView { call_stack: self.call_stack.drop_last(), ..self }
        } else {
            self
        }
    }

    /// The physical address of the interrupt vector's offset word.
    pub open spec fn vector_address(vector: u8) -> int {
        vector as int * 4
    }

    /// The first part of entering an interrupt: the vector's two words are
    /// read, prefetching stops, the flag word is pushed, and the interrupt
    /// and trap flags are cleared.
    pub open spec fn interrupt_frame(self) -> CpuView {
        let pushed = self.spend(16).suspend_fetch().push_flags(ReadWriteFlag::Normal);
        pushed.with_flags(Flags { interrupt: false, trap: false, ..pushed.r.flags })
    }

    /// CS and IP are pushed, CS first.
    pub open spec fn push_return_address(self) -> CpuView {
        self.push_register16(Register16::CS, ReadWriteFlag::Normal).push_register16(
            Register16::IP,
            ReadWriteFlag::Normal,
        )
    }

    /// Execution continues at `cs:ip` with an empty queue.
    pub open spec fn far_jump(self, cs: u16, ip: u16) -> CpuView {
        self.with_regs(Registers { cs, ip, ..self.r }).flush_queue()
    }

    /// A software interrupt: the frame is built, the return address is
    /// pushed, and execution continues at the address that the vector held
    /// before anything was pushed.
    pub open spec fn sw_interrupt(self, vector: u8) -> CpuView {
        self.interrupt_frame().push_return_address().far_jump(
            self.word_at(CpuView::vector_address(vector) + 2),
            self.word_at(CpuView::vector_address(vector)),
        )
    }

    /// The return from an interrupt: IP, CS and the flags are popped, and the
    /// queue is emptied.
    pub open spec fn end_interrupt(self) -> CpuView {
        self.suspend_fetch().pop_register16(Register16::IP, ReadWriteFlag::Normal).pop_register16(
            Register16::CS,
            ReadWriteFlag::Normal,
        ).pop_flags().flush_queue()
    }
}

impl Cpu {
    fn stack_pointer_address(&self) -> (addr: u32)
        ensures
            addr == self@.stack_address(),
            addr < MEMORY_SIZE,
    {
        calc_linear_address(self.r.ss, self.r.sp)
    }

    fn grow(&mut self)
        ensures
            final(self)@ == old(self)@.grow_stack(),
    {
        reveal(relative_offset);
        self.r.sp = if self.r.sp >= 2 {
            self.r.sp - 2
        } else {
            (self.r.sp as u32 + 0xFFFE) as u16
        };
    }

    /// Gives `bytes` bytes of the stack back.
    pub fn release(&mut self, bytes: u16)
        ensures
            final(self)@ == old(self)@.release(bytes),
    {
        reveal(relative_offset);
        self.r.sp = ((self.r.sp as u32 + bytes as u32) % 0x1_0000) as u16;
    }

    /// Pushes a word.
    pub fn push_u16(&mut self, value: u16, flag: ReadWriteFlag)
        requires
            old(self).wf(),
        ensures
            final(self).wf(),
            final(self)@ == old(self)@.push16(value, flag),
    {
        self.grow();
        let addr = self.stack_pointer_address();
        self.biu_write_u16(addr, value, flag);
    }

    /// Pushes a byte into a word's place.
    pub fn push_u8(&mut self, value: u8, flag: ReadWriteFlag)
        requires
            old(self).wf(),
        ensures
            final(self).wf(),
            final(self)@ == old(self)@.push8(value, flag),
    {
        self.grow();
        let addr = self.stack_pointer_address();
        self.biu_write_u8(addr, value, flag);
    }

    fn pop_word(&mut self, flag: ReadWriteFlag) -> (value: u16)
        requires
            old(self).wf(),
        ensures
            final(self).wf(),
            value == old(self)@.stack_top(),
            final(self)@ == old(self)@.after_pop16(flag),
    {
        let addr = self.stack_pointer_address();
        let value = self.biu_read_u16(addr, flag);
        self.release(2);
        value
    }

    /// Pops a word.
    pub fn pop_u16(&mut self) -> (value: u16)
        requires
            old(self).wf(),
        ensures
            final(self).wf(),
            value == old(self)@.stack_top(),
            final(self)@ == old(self)@.after_pop16(ReadWriteFlag::Normal),
    {
        self.pop_word(ReadWriteFlag::Normal)
    }

    /// Pushes a register.
    pub fn push_register16(&mut self, reg: Register16, flag: ReadWriteFlag)
        requires
            old(self).wf(),
        ensures
            final(self).wf(),
            final(self)@ == old(self)@.push_register16(reg, flag),
    {
        let value = self.r.get_register16(reg);
        self.push_u16(value, flag);
    }

    /// Pops a register.
    pub fn pop_register16(&mut self, reg: Register16, flag: ReadWriteFlag)
        requires
            old(self).wf(),
        ensures
            final(self).wf(),
            final(self)@ == old(self)@.pop_register16(reg, flag),
    {
        let value = self.pop_word(flag);
        self.r.set_register16(reg, value);
    }

    /// Pushes the flag word.
    pub fn push_flags(&mut self, flag: ReadWriteFlag)
        requires
            old(self).wf(),
        ensures
            final(self).wf(),
            final(self)@ == old(self)@.push_flags(flag),
    {
        let word = self.r.flags.load_flags();
        self.push_u16(word, flag);
    }

    /// Pops the flag word.
    pub fn pop_flags(&mut self)
        requires
            old(self).wf(),
        ensures
            final(self).wf(),
            final(self)@ == old(self)@.pop_flags(),
    {
        let word = self.pop_u16();
        self.r.flags.store_flags(word);
    }

    /// Notes a call in the call-stack trace.
    pub fn push_call_stack(&mut self, entry: CallStackEntry)
        requires
            old(self).wf(),
        ensures
            final(self).wf(),
            final(self)@ == old(self)@.push_call_stack(entry),
            final(self)@.call_stack.last() == entry,
    {
        if self.call_stack.len() >= CPU_CALL_STACK_LEN {
            let _ = self.call_stack.pop_front();
            assert(self.call_stack@ =~= old(self)@.call_stack.drop_first());
        }
        self.call_stack.push_back(entry);
    }

    /// Takes the newest call off the call-stack trace.
    pub fn pop_call_stack(&mut self)
        requires
            old(self).wf(),
        ensures
            final(self).wf(),
            final(self)@ == old(self)@.pop_call_stack(),
    {
        let _ = self.call_stack.pop_back();
        assert(old(self)@.call_stack.len() > 0 ==> self.call_stack@ =~= old(
            self,
        )@.call_stack.drop_last());
    }

    fn interrupt_frame(&mut self)
        requires
            old(self).wf(),
        ensures
            final(self).wf(),
            final(self)@ == old(self)@.interrupt_frame(),
    {
        self.cycles(16);
        self.biu_suspend_fetch();
        self.push_flags(ReadWriteFlag::Normal);
        let mut flags = self.r.flags;
        flags.interrupt = false;
        flags.trap = false;
        self.set_flags(flags);
    }

    fn push_return_address(&mut self)
        requires
            old(self).wf(),
        ensures
            final(self).wf(),
            final(self)@ == old(self)@.push_return_address(),
    {
        self.push_register16(Register16::CS, ReadWriteFlag::Normal);
        self.push_register16(Register16::IP, ReadWriteFlag::Normal);
    }

    /// Continues execution at `cs:ip` and empties the prefetch queue.
    pub fn far_jump(&mut self, cs: u16, ip: u16)
        requires
            old(self).wf(),
        ensures
            final(self).wf(),
            final(self)@ == old(self)@.far_jump(cs, ip),
    {
        let mut r = self.r;
        r.cs = cs;
        r.ip = ip;
        self.set_regs(r);
        self.biu_queue_flush();
    }

    /// Enters the handler of a software interrupt.
    pub fn sw_interrupt(&mut self, vector: u8)
        requires
            old(self).wf(),
        ensures
            final(self).wf(),
            final(self)@ == old(self)@.sw_interrupt(vector),
    {
        let vector_addr: u32 = vector as u32 * 4;
        let new_ip = self.peek_u16(vector_addr);
        let new_cs = self.peek_u16(vector_addr + 2);
        self.interrupt_frame();
        self.push_return_address();
        self.far_jump(new_cs, new_ip);
    }

    /// Returns from an interrupt handler.
    pub fn end_interrupt(&mut self)
        requires
            old(self).wf(),
        ensures
            final(self).wf(),
            final(self)@ == old(self)@.end_interrupt(),
    {
        self.biu_suspend_fetch();
        self.pop_register16(Register16::IP, ReadWriteFlag::Normal);
        self.pop_register16(Register16::CS, ReadWriteFlag::Normal);
        self.pop_flags();
        self.biu_queue_flush();
    }
}

/// The call-stack trace never grows beyond its bound, and a push onto a full
/// trace drops the oldest entry and keeps the others in order.
pub proof fn lemma_call_stack_bounded(s: CpuView, entry: CallStackEntry)
    requires
        s.wf(),
    ensures
        s.push_call_stack(entry).wf(),
        s.push_call_stack(entry).call_stack.last() == entry,
        s.call_stack.len() < CPU_CALL_STACK_LEN ==> s.push_call_stack(entry).call_stack
            == s.call_stack.push(entry),
        s.call_stack.len() == CPU_CALL_STACK_LEN ==> s.push_call_stack(entry).call_stack.len()
            == CPU_CALL_STACK_LEN && forall|k: int|
            0 <= k < CPU_CALL_STACK_LEN - 1 ==> s.push_call_stack(entry).call_stack[k]
                == s.call_stack[k + 1],
{
}

} // verus!
