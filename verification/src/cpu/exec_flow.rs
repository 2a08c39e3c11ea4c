//! The instructions that change the flow of control: jumps, loops, calls,
//! returns and interrupts. Each of them stops the prefetch, spends the cycles
//! of the transfer, and empties the queue, in that order.

use vstd::prelude::*;
use crate::cpu::instruction::{OperandType, ReadWriteFlag, SegmentOverride};
use crate::cpu::machine::{CallStackEntry, Cpu, CpuView};
use crate::cpu::operand::{
    displacement_word, readable16, readable8, relative_offset, relative_offset_u16,
    word_of_displacement,
};
use crate::cpu::registers::{Flags, Register16, Registers};

verus! {

/// The condition of a conditional jump, chosen by the low nibble of its
/// opcode and evaluated on the flags.
pub open spec fn condition_holds(f: Flags, nibble: int) -> bool {
    if nibble == 0x0 {
        f.overflow
    } else if nibble == 0x1 {
        !f.overflow
    } else if nibble == 0x2 {
        f.carry
    } else if nibble == 0x3 {
        !f.carry
    } else if nibble == 0x4 {
        f.zero
    } else if nibble == 0x5 {
        !f.zero
    } else if nibble == 0x6 {
        f.carry || f.zero
    } else if nibble == 0x7 {
        !f.carry && !f.zero
    } else if nibble == 0x8 {
        f.sign
    } else if nibble == 0x9 {
        !f.sign
    } else if nibble == 0xA {
        f.parity
    } else if nibble == 0xB {
        !f.parity
    } else if nibble == 0xC {
        f.sign != f.overflow
    } else if nibble == 0xD {
        f.sign == f.overflow
    } else if nibble == 0xE {
        f.zero || (f.sign != f.overflow)
    } else {
        !f.zero && (f.sign == f.overflow)
    }
}

/// Evaluates the condition of a conditional jump.
pub fn test_condition(f: &Flags, nibble: u8) -> (b: bool)
    ensures
        b == condition_holds(*f, nibble as int),
{
    if nibble == 0x0 {
        f.overflow
    } else if nibble == 0x1 {
        !f.overflow
    } else if nibble == 0x2 {
        f.carry
    } else if nibble == 0x3 {
        !f.carry
    } else if nibble == 0x4 {
        f.zero
    } else if nibble == 0x5 {
        !f.zero
    } else if nibble == 0x6 {
        f.carry || f.zero
    } else if nibble == 0x7 {
        !f.carry && !f.zero
    } else if nibble == 0x8 {
        f.sign
    } else if nibble == 0x9 {
        !f.sign
    } else if nibble == 0xA {
        f.parity
    } else if nibble == 0xB {
        !f.parity
    } else if nibble == 0xC {
        f.sign != f.overflow
    } else if nibble == 0xD {
        f.sign == f.overflow
    } else if nibble == 0xE {
        f.zero || (f.sign != f.overflow)
    } else {
        !f.zero && (f.sign == f.overflow)
    }
}

/// Adding a displacement as a 16-bit two's complement value moves an offset
/// as far as adding the displacement itself.
pub proof fn lemma_displacement_word_moves_alike(base: u16, d: int, more: int)
    ensures
        relative_offset(base, displacement_word(d) + more) == relative_offset(base, d + more),
{
    reveal(relative_offset);
    reveal(displacement_word);
    let w = d % 0x1_0000;
    let q = d / 0x1_0000;
    assert(d == q * 0x1_0000 + w);
    assert((base + w + more) % 0x1_0000 == (base + d + more) % 0x1_0000) by {
        vstd::arithmetic::div_mod::lemma_mod_multiples_vanish(q, base + w + more, 0x1_0000);
    }
}

/// `ip` moved by a 16-bit displacement and the length of the instruction.
pub fn offset_by(ip: u16, displacement: u16, size: u32) -> (target: u16)
    ensures
        target == relative_offset(ip, displacement + size),
{
    reveal(relative_offset);
    ((ip as u64 + displacement as u64 + size as u64) % 0x1_0000) as u16
}

impl CpuView {
    /// The offset of the instruction that follows this one.
    pub open spec fn next_ip(self) -> u16 {
        relative_offset(self.r.ip, self.i.size as int)
    }

    /// The offset that a relative jump reaches: the displacement counts from
    /// the end of the instruction.
    pub open spec fn jump_target(self, displacement: int) -> u16 {
        relative_offset(self.r.ip, displacement + self.i.size)
    }

    /// The prefetch stops, `n` cycles pass, and the queue is emptied.
    pub open spec fn refill(self, n: int) -> CpuView {
        self.suspend_fetch().spend(n).flush_queue()
    }

    /// IP moves to the target of a short relative jump, if the first operand
    /// is a short displacement.
    pub open spec fn branch_short(self) -> CpuView {
        match self.i.operand1_type {
            OperandType::Relative8(rel) => self.with_ip(self.jump_target(rel as int)),
            _ => self,
        }
    }

    /// Whether the condition of a conditional jump holds.
    pub open spec fn jump_if_taken(self) -> bool {
        condition_holds(self.r.flags, (self.i.opcode % 16) as int)
    }

    /// A conditional short jump: taken, it costs two cycles and a refill of
    /// four; not taken, one cycle.
    #[verifier::opaque]
    pub open spec fn op_jump_if(self) -> CpuView {
        if self.jump_if_taken() {
            self.branch_short().spend(2).refill(4)
        } else {
            self.spend(1)
        }
    }

    /// JMP with a short displacement.
    #[verifier::opaque]
    pub open spec fn op_jmp_short(self) -> CpuView {
        self.branch_short().refill(5).spend(2)
    }

    /// JMP with a near displacement.
    #[verifier::opaque]
    pub open spec fn op_jmp_near(self) -> CpuView {
        match self.i.operand1_type {
            OperandType::Relative16(rel) => self.with_ip(self.jump_target(rel as int)).refill(
                4,
            ).spend(2),
            _ => self,
        }
    }

    /// CS:IP is replaced by the far address that the first operand holds, if
    /// it holds one.
    pub open spec fn branch_far(self) -> CpuView {
        match self.i.operand1_type {
            OperandType::FarAddress(segment, offset) => self.with_regs(
                Registers { cs: segment, ip: offset, ..self.r },
            ),
            _ => self,
        }
    }

    /// JMP to a far address.
    #[verifier::opaque]
    pub open spec fn op_jmp_far(self) -> CpuView {
        self.branch_far().refill(4).spend(2)
    }

    /// CX is counted down, wrapping, in one cycle.
    pub open spec fn count_down(self) -> CpuView {
        self.with_regs(Registers { cx: relative_offset(self.r.cx, -1), ..self.r }).spend(1)
    }

    /// A loop instruction that jumps: IP moves if the operand is a short
    /// displacement, at a cost of one cycle and a refill of four.
    pub open spec fn loop_branch(self) -> CpuView {
        self.branch_short().spend(1).refill(4)
    }

    /// Whether LOOPNE jumps: CX is not zero after counting, and the zero flag
    /// is clear.
    pub open spec fn loopne_taken(self) -> bool {
        self.r.cx != 1 && !self.r.flags.zero
    }

    /// Whether LOOPE jumps: CX is not zero after counting, and the zero flag
    /// is set.
    pub open spec fn loope_taken(self) -> bool {
        self.r.cx != 1 && self.r.flags.zero
    }

    /// Whether LOOP jumps: CX is not zero after counting. Without a short
    /// displacement it never jumps.
    pub open spec fn loop_taken(self) -> bool {
        self.r.cx != 1 && self.i.operand1_type is Relative8
    }

    /// A loop instruction: CX is counted down; then it jumps or falls
    /// through in one cycle.
    #[verifier::opaque]
    pub open spec fn op_loop(self, taken: bool) -> CpuView {
        if taken {
            self.count_down().loop_branch()
        } else {
            self.count_down().spend(1)
        }
    }

    /// JCXZ: jumps if CX is zero.
    #[verifier::opaque]
    pub open spec fn op_jcxz(self) -> CpuView {
        if self.r.cx == 0 {
            self.loop_branch()
        } else {
            self.spend(1)
        }
    }

    /// The first part of a far call: seven cycles around the stop of the
    /// prefetch, the push of CS, and three more cycles.
    pub open spec fn call_far_prologue(self) -> CpuView {
        self.spend(1).suspend_fetch().spend(6).push_register16(
            Register16::CS,
            ReadWriteFlag::Normal,
        ).spend(3)
    }

    /// The call is noted in the call-stack trace and CS:IP moves to the far
    /// address of the first operand, if it holds one.
    pub open spec fn enter_far(self) -> CpuView {
        match self.i.operand1_type {
            OperandType::FarAddress(segment, offset) => self.push_call_stack(
                CallStackEntry::CallF(self.r.cs, self.r.ip, segment, offset),
            ).branch_far(),
            _ => self,
        }
    }

    /// The queue is emptied, four cycles pass, and the return offset is
    /// pushed.
    pub open spec fn call_far_epilogue(self, return_ip: u16) -> CpuView {
        self.flush_queue().spend(4).push16(return_ip, ReadWriteFlag::RNI)
    }

    /// CALL to a far address.
    #[verifier::opaque]
    pub open spec fn op_call_far(self) -> CpuView {
        self.call_far_prologue().enter_far().call_far_epilogue(self.next_ip())
    }

    /// IP moves to `target`, the queue is refilled, and the call is noted in
    /// the call-stack trace.
    pub open spec fn enter_near(self, target: u16, entry: CallStackEntry) -> CpuView {
        self.with_ip(target).refill(4).push_call_stack(entry)
    }

    /// CALL with a near displacement: the return offset is pushed, then the
    /// displacement is read, and the call is entered.
    #[verifier::opaque]
    pub open spec fn op_call_near(self) -> CpuView {
        let pushed = self.push16(self.next_ip(), ReadWriteFlag::Normal);
        pushed.after_read16(self.i.operand1_type).enter_near(
            self.jump_target(pushed.value1_16() as int),
            CallStackEntry::Call(self.r.cs, self.r.ip, pushed.value1_16()),
        )
    }

    /// The end of a near return: a refill of one, two cycles, and IP at the
    /// popped offset.
    pub open spec fn land(self, target: u16) -> CpuView {
        self.refill(1).spend(2).with_ip(target)
    }

    /// The count of bytes that a return releases is read and released.
    pub open spec fn release_operand(self) -> CpuView {
        self.after_read16(self.i.operand1_type).release(
            self.operand16(self.i.operand1_type, SegmentOverride::NoOverride),
        )
    }

    /// RETN.
    #[verifier::opaque]
    pub open spec fn op_retn(self) -> CpuView {
        self.after_pop16(ReadWriteFlag::Normal).land(self.stack_top()).pop_call_stack()
    }

    /// RETN with a count of bytes to release.
    #[verifier::opaque]
    pub open spec fn op_retn_release(self) -> CpuView {
        self.after_pop16(ReadWriteFlag::Normal).land(
            self.stack_top(),
        ).release_operand().pop_call_stack()
    }

    /// IP and CS are popped, the one after the other.
    pub open spec fn pop_far_address(self) -> CpuView {
        self.pop_register16(Register16::IP, ReadWriteFlag::Normal).pop_register16(
            Register16::CS,
            ReadWriteFlag::Normal,
        )
    }

    /// RETF.
    #[verifier::opaque]
    pub open spec fn op_retf(self) -> CpuView {
        self.pop_far_address().refill(1).spend(2).pop_call_stack()
    }

    /// IP is popped, the prefetch stops, three cycles pass, and CS is
    /// popped.
    pub open spec fn pop_far_address_slowly(self) -> CpuView {
        self.pop_register16(Register16::IP, ReadWriteFlag::Normal).suspend_fetch().spend(
            3,
        ).pop_register16(Register16::CS, ReadWriteFlag::Normal)
    }

    /// RETF with a count of bytes to release.
    #[verifier::opaque]
    pub open spec fn op_retf_release(self) -> CpuView {
        self.pop_far_address_slowly().release_operand().flush_queue().spend(1).pop_call_stack()
    }

    /// A software interrupt from an instruction of `length` bytes: IP moves
    /// past the instruction first, so that the handler returns behind it.
    pub open spec fn interrupt_from(self, length: int, vector: u8) -> CpuView {
        self.with_ip(relative_offset(self.r.ip, length)).sw_interrupt(vector)
    }

    /// INT 3, a one-byte instruction.
    #[verifier::opaque]
    pub open spec fn op_int3(self) -> CpuView {
        self.interrupt_from(1, 3)
    }

    /// INTO, which here raises interrupt 4 whatever the overflow flag says.
    #[verifier::opaque]
    pub open spec fn op_into(self) -> CpuView {
        self.interrupt_from(1, 4)
    }

    /// IRET.
    #[verifier::opaque]
    pub open spec fn op_iret(self) -> CpuView {
        self.end_interrupt()
    }

    /// LOOPNE.
    #[verifier::opaque]
    pub open spec fn op_loopne(self) -> CpuView {
        self.op_loop(self.loopne_taken())
    }

    /// LOOPE.
    #[verifier::opaque]
    pub open spec fn op_loope(self) -> CpuView {
        self.op_loop(self.loope_taken())
    }

    /// LOOP.
    #[verifier::opaque]
    pub open spec fn op_loop_plain(self) -> CpuView {
        self.op_loop(self.loop_taken())
    }

    /// INT with the vector as an immediate byte.
    #[verifier::opaque]
    pub open spec fn op_int(self) -> CpuView {
        self.after_read8(self.i.operand1_type).interrupt_from(2, self.immediate1())
    }
}

impl Cpu {
    fn next_ip(&self) -> (ip: u16)
        ensures
            ip == self@.next_ip(),
    {
        offset_by(self.r.ip, 0, self.i.size)
    }

    /// Moves IP past the instruction in `i`, as the caller does after an
    /// instruction that did not change the flow of control.
    pub fn advance_ip(&mut self)
        ensures
            final(self)@ == old(self)@.with_ip(old(self)@.next_ip()),
    {
        let ip = self.next_ip();
        self.set_ip(ip);
    }

    /// Stops the prefetch, spends `ct` cycles and empties the queue.
    pub fn refill(&mut self, ct: u32)
        requires
            old(self).wf(),
        ensures
            final(self).wf(),
            final(self)@ == old(self)@.refill(ct as int),
    {
        self.biu_suspend_fetch();
        self.cycles(ct);
        self.biu_queue_flush();
    }

    fn short_target(&self, rel: i8) -> (target: u16)
        ensures
            target == self@.jump_target(rel as int),
    {
        proof {
            lemma_displacement_word_moves_alike(self.r.ip, rel as int, self.i.size as int);
        }
        offset_by(self.r.ip, word_of_displacement(rel as i32), self.i.size)
    }

    fn near_target(&self, rel: i16) -> (target: u16)
        ensures
            target == self@.jump_target(rel as int),
    {
        proof {
            lemma_displacement_word_moves_alike(self.r.ip, rel as int, self.i.size as int);
        }
        offset_by(self.r.ip, word_of_displacement(rel as i32), self.i.size)
    }

    fn branch_short(&mut self)
        requires
            old(self).wf(),
        ensures
            final(self).wf(),
            final(self)@ == old(self)@.branch_short(),
    {
        if let OperandType::Relative8(rel) = self.i.operand1_type {
            let target = self.short_target(rel);
            self.set_ip(target);
        }
    }

    /// A conditional short jump. Returns whether it was taken.
    pub(crate) fn op_jump_if(&mut self) -> (taken: bool)
        requires
            old(self).wf(),
        ensures
            final(self).wf(),
            final(self)@ == old(self)@.op_jump_if(),
            taken == old(self)@.jump_if_taken(),
    {
        reveal(CpuView::op_jump_if);
        let taken = test_condition(&self.r.flags, self.i.opcode % 16);
        if taken {
            self.branch_short();
            self.cycles(2);
            self.refill(4);
        } else {
            self.cycles(1);
        }
        taken
    }

    pub(crate) fn op_jmp_short(&mut self)
        requires
            old(self).wf(),
        ensures
            final(self).wf(),
            final(self)@ == old(self)@.op_jmp_short(),
    {
        reveal(CpuView::op_jmp_short);
        self.branch_short();
        self.refill(5);
        self.cycles(2);
    }

    pub(crate) fn op_jmp_near(&mut self)
        requires
            old(self).wf(),
        ensures
            final(self).wf(),
            final(self)@ == old(self)@.op_jmp_near(),
    {
        reveal(CpuView::op_jmp_near);
        if let OperandType::Relative16(rel) = self.i.operand1_type {
            let target = self.near_target(rel);
            self.set_ip(target);
            self.refill(4);
            self.cycles(2);
        }
    }

    fn branch_far(&mut self)
        requires
            old(self).wf(),
        ensures
            final(self).wf(),
            final(self)@ == old(self)@.branch_far(),
    {
        if let OperandType::FarAddress(segment, offset) = self.i.operand1_type {
            let mut r = self.r;
            r.cs = segment;
            r.ip = offset;
            self.set_regs(r);
        }
    }

    pub(crate) fn op_jmp_far(&mut self)
        requires
            old(self).wf(),
        ensures
            final(self).wf(),
            final(self)@ == old(self)@.op_jmp_far(),
    {
        reveal(CpuView::op_jmp_far);
        self.branch_far();
        self.refill(4);
        self.cycles(2);
    }

    fn count_down(&mut self)
        requires
            old(self).wf(),
        ensures
            final(self).wf(),
            final(self)@ == old(self)@.count_down(),
    {
        let mut r = self.r;
        r.cx = relative_offset_u16(r.cx, -1);
        self.set_regs(r);
        self.cycle();
    }

    fn loop_branch(&mut self)
        requires
            old(self).wf(),
        ensures
            final(self).wf(),
            final(self)@ == old(self)@.loop_branch(),
    {
        self.branch_short();
        self.cycle();
        self.refill(4);
    }

    fn do_loop(&mut self, taken: bool)
        requires
            old(self).wf(),
        ensures
            final(self).wf(),
            final(self)@ == old(self)@.op_loop(taken),
    {
        reveal(CpuView::op_loop);
        self.count_down();
        if taken {
            self.loop_branch();
        } else {
            self.cycle();
        }
    }

    /// LOOPNE. Returns whether it jumped.
    pub(crate) fn op_loopne(&mut self) -> (taken: bool)
        requires
            old(self).wf(),
        ensures
            final(self).wf(),
            taken == old(self)@.loopne_taken(),
            final(self)@ == old(self)@.op_loopne(),
    {
        reveal(CpuView::op_loopne);
        let taken = self.r.cx != 1 && !self.r.flags.zero;
        self.do_loop(taken);
        taken
    }

    /// LOOPE. Returns whether it jumped.
    pub(crate) fn op_loope(&mut self) -> (taken: bool)
        requires
            old(self).wf(),
        ensures
            final(self).wf(),
            taken == old(self)@.loope_taken(),
            final(self)@ == old(self)@.op_loope(),
    {
        reveal(CpuView::op_loope);
        let taken = self.r.cx != 1 && self.r.flags.zero;
        self.do_loop(taken);
        taken
    }

    /// LOOP. Returns whether it jumped.
    pub(crate) fn op_loop(&mut self) -> (taken: bool)
        requires
            old(self).wf(),
        ensures
            final(self).wf(),
            taken == old(self)@.loop_taken(),
            final(self)@ == old(self)@.op_loop_plain(),
    {
        reveal(CpuView::op_loop_plain);
        let short = match self.i.operand1_type {
            OperandType::Relative8(_) => true,
            _ => false,
        };
        let taken = self.r.cx != 1 && short;
        self.do_loop(taken);
        taken
    }

    /// JCXZ. Returns whether it jumped.
    pub(crate) fn op_jcxz(&mut self) -> (taken: bool)
        requires
            old(self).wf(),
        ensures
            final(self).wf(),
            taken == (old(self)@.r.cx == 0),
            final(self)@ == old(self)@.op_jcxz(),
    {
        reveal(CpuView::op_jcxz);
        if self.r.cx == 0 {
            self.loop_branch();
            true
        } else {
            self.cycle();
            false
        }
    }

    fn call_far_prologue(&mut self)
        requires
            old(self).wf(),
        ensures
            final(self).wf(),
            final(self)@ == old(self)@.call_far_prologue(),
    {
        self.cycle();
        self.biu_suspend_fetch();
        self.cycles(6);
        assert(self@ == old(self)@.spend(1).suspend_fetch().spend(6));
        self.push_register16(Register16::CS, ReadWriteFlag::Normal);
        self.cycles(3);
    }

    fn enter_far(&mut self)
        requires
            old(self).wf(),
        ensures
            final(self).wf(),
            final(self)@ == old(self)@.enter_far(),
    {
        if let OperandType::FarAddress(segment, offset) = self.i.operand1_type {
            self.push_call_stack(CallStackEntry::CallF(self.r.cs, self.r.ip, segment, offset));
            self.branch_far();
        }
    }

    fn call_far_epilogue(&mut self, return_ip: u16)
        requires
            old(self).wf(),
        ensures
            final(self).wf(),
            final(self)@ == old(self)@.call_far_epilogue(return_ip),
    {
        self.biu_queue_flush();
        self.cycles(4);
        self.push_u16(return_ip, ReadWriteFlag::RNI);
    }

    pub(crate) fn op_call_far(&mut self)
        requires
            old(self).wf(),
        ensures
            final(self).wf(),
            final(self)@ == old(self)@.op_call_far(),
    {
        reveal(CpuView::op_call_far);
        let return_ip = self.next_ip();
        self.call_far_prologue();
        self.enter_far();
        self.call_far_epilogue(return_ip);
    }

    fn enter_near(&mut self, target: u16, entry: CallStackEntry)
        requires
            old(self).wf(),
        ensures
            final(self).wf(),
            final(self)@ == old(self)@.enter_near(target, entry),
    {
        self.set_ip(target);
        self.refill(4);
        self.push_call_stack(entry);
    }

    pub(crate) fn op_call_near(&mut self)
        requires
            old(self).wf(),
            readable16(old(self).i.operand1_type),
        ensures
            final(self).wf(),
            final(self)@ == old(self)@.op_call_near(),
    {
        reveal(CpuView::value1_16);
        reveal(CpuView::op_call_near);
        let cs = self.r.cs;
        let ip = self.r.ip;
        let return_ip = self.next_ip();
        self.push_u16(return_ip, ReadWriteFlag::Normal);
        let rel16 = self.read_operand16(self.i.operand1_type, self.i.segment_override).unwrap();
        let target = offset_by(ip, rel16, self.i.size);
        self.enter_near(target, CallStackEntry::Call(cs, ip, rel16));
    }

    fn land(&mut self, target: u16)
        requires
            old(self).wf(),
        ensures
            final(self).wf(),
            final(self)@ == old(self)@.land(target),
    {
        self.refill(1);
        self.cycles(2);
        self.set_ip(target);
    }

    fn release_operand(&mut self)
        requires
            old(self).wf(),
            readable16(old(self).i.operand1_type),
        ensures
            final(self).wf(),
            final(self)@ == old(self)@.release_operand(),
    {
        let bytes = self.read_operand16(self.i.operand1_type, SegmentOverride::NoOverride).unwrap();
        self.release(bytes);
    }

    pub(crate) fn op_retn(&mut self)
        requires
            old(self).wf(),
        ensures
            final(self).wf(),
            final(self)@ == old(self)@.op_retn(),
    {
        reveal(CpuView::op_retn);
        let target = self.pop_u16();
        self.land(target);
        self.pop_call_stack();
    }

    pub(crate) fn op_retn_release(&mut self)
        requires
            old(self).wf(),
            readable16(old(self).i.operand1_type),
        ensures
            final(self).wf(),
            final(self)@ == old(self)@.op_retn_release(),
    {
        reveal(CpuView::op_retn_release);
        let target = self.pop_u16();
        self.land(target);
        self.release_operand();
        self.pop_call_stack();
    }

    fn pop_far_address(&mut self)
        requires
            old(self).wf(),
        ensures
            final(self).wf(),
            final(self)@ == old(self)@.pop_far_address(),
    {
        self.pop_register16(Register16::IP, ReadWriteFlag::Normal);
        self.pop_register16(Register16::CS, ReadWriteFlag::Normal);
    }

    pub(crate) fn op_retf(&mut self)
        requires
            old(self).wf(),
        ensures
            final(self).wf(),
            final(self)@ == old(self)@.op_retf(),
    {
        reveal(CpuView::op_retf);
        self.pop_far_address();
        self.refill(1);
        self.cycles(2);
        self.pop_call_stack();
    }

    fn pop_far_address_slowly(&mut self)
        requires
            old(self).wf(),
        ensures
            final(self).wf(),
            final(self)@ == old(self)@.pop_far_address_slowly(),
    {
        self.pop_register16(Register16::IP, ReadWriteFlag::Normal);
        self.biu_suspend_fetch();
        self.cycles(3);
        self.pop_register16(Register16::CS, ReadWriteFlag::Normal);
    }

    pub(crate) fn op_retf_release(&mut self)
        requires
            old(self).wf(),
            readable16(old(self).i.operand1_type),
        ensures
            final(self).wf(),
            final(self)@ == old(self)@.op_retf_release(),
    {
        reveal(CpuView::op_retf_release);
        self.pop_far_address_slowly();
        self.release_operand();
        assert(self@ == old(self)@.pop_far_address_slowly().release_operand());
        self.biu_queue_flush();
        self.cycle();
        self.pop_call_stack();
    }

    /// Raises a software interrupt from an instruction of `length` bytes.
    pub(crate) fn interrupt_from(&mut self, length: u8, vector: u8)
        requires
            old(self).wf(),
        ensures
            final(self).wf(),
            final(self)@ == old(self)@.interrupt_from(length as int, vector),
    {
        let ip = relative_offset_u16(self.r.ip, length as i32);
        self.set_ip(ip);
        self.sw_interrupt(vector);
    }

    pub(crate) fn op_int3(&mut self)
        requires
            old(self).wf(),
        ensures
            final(self).wf(),
            final(self)@ == old(self)@.op_int3(),
    {
        reveal(CpuView::op_int3);
        self.interrupt_from(1, 3);
    }

    pub(crate) fn op_into(&mut self)
        requires
            old(self).wf(),
        ensures
            final(self).wf(),
            final(self)@ == old(self)@.op_into(),
    {
        reveal(CpuView::op_into);
        self.interrupt_from(1, 4);
    }

    pub(crate) fn op_iret(&mut self)
        requires
            old(self).wf(),
        ensures
            final(self).wf(),
            final(self)@ == old(self)@.op_iret(),
    {
        reveal(CpuView::op_iret);
        self.end_interrupt();
    }

    pub(crate) fn op_int(&mut self)
        requires
            old(self).wf(),
            readable8(old(self).i.operand1_type),
        ensures
            final(self).wf(),
            final(self)@ == old(self)@.op_int(),
    {
        reveal(CpuView::op_int);
        let vector = self.read_immediate1();
        self.interrupt_from(2, vector);
    }
}

/// A conditional jump that is not taken leaves IP alone; one that is taken
/// moves it to the end of the instruction plus the displacement.
pub proof fn lemma_conditional_jump_target(s: CpuView, rel: i8)
    requires
        s.i.operand1_type == OperandType::Relative8(rel),
    ensures
        !s.jump_if_taken() ==> s.op_jump_if().r == s.r,
        s.jump_if_taken() ==> s.op_jump_if().r.ip as int == (s.r.ip + s.i.size + rel) % 0x1_0000,
{
    reveal(CpuView::op_jump_if);
    reveal(relative_offset);
}

} // verus!
