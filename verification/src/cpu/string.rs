//! The string instructions. One call moves, compares, scans, loads or stores
//! one element and steps the index registers; repetition is the execution
//! unit's business.

use vstd::prelude::*;
use crate::cpu::alu::{alu16, alu8, math_op16, math_op8};
use crate::cpu::bus::{calc_linear_address, linear_address};
use crate::cpu::instruction::{
    overridden_segment, segment_override, Mnemonic, ReadWriteFlag, SegmentOverride,
};
use crate::cpu::machine::{Cpu, CpuView, MEMORY_SIZE};
use crate::cpu::operand::{relative_offset, relative_offset_u16};
use crate::cpu::registers::{Register16, Register8, Registers, Segment};

verus! {

/// The mnemonics of the string instructions.
pub open spec fn is_string_mnemonic(m: Mnemonic) -> bool {
    match m {
        Mnemonic::MOVSB
        | Mnemonic::MOVSW
        | Mnemonic::CMPSB
        | Mnemonic::CMPSW
        | Mnemonic::SCASB
        | Mnemonic::SCASW
        | Mnemonic::LODSB
        | Mnemonic::LODSW
        | Mnemonic::STOSB
        | Mnemonic::STOSW => true,
        _ => false,
    }
}

impl CpuView {
    /// How far an index register moves after an element of `width` bytes: up
    /// when the direction flag is clear, down when it is set.
    pub open spec fn index_step(self, width: int) -> int {
        if self.r.flags.direction {
            -width
        } else {
            width
        }
    }

    /// The physical address of the source element: SI in the data segment, or
    /// in the segment of the override.
    pub open spec fn source_address(self, so: SegmentOverride) -> int {
        linear_address(self.r.segment(overridden_segment(so, Segment::DS)), self.r.si)
    }

    /// The physical address of the destination element: DI in the extra
    /// segment, which no override changes.
    pub open spec fn destination_address(self) -> int {
        linear_address(self.r.es, self.r.di)
    }

    /// SI steps over an element of `width` bytes.
    pub open spec fn advance_si(self, width: int) -> CpuView {
        self.with_regs(
            Registers { si: relative_offset(self.r.si, self.index_step(width)), ..self.r },
        )
    }

    /// DI steps over an element of `width` bytes.
    pub open spec fn advance_di(self, width: int) -> CpuView {
        self.with_regs(
            Registers { di: relative_offset(self.r.di, self.index_step(width)), ..self.r },
        )
    }

    /// MOVSB: one byte goes from the source to the destination.
    pub open spec fn movsb(self, so: SegmentOverride) -> CpuView {
        self.spend(4).bus_write_u8(
            self.destination_address(),
            self.byte_at(self.source_address(so)),
            ReadWriteFlag::Normal,
        ).advance_si(1).advance_di(1)
    }

    /// MOVSW: one word goes from the source to the destination.
    pub open spec fn movsw(self, so: SegmentOverride) -> CpuView {
        self.spend(8).bus_write_u16(
            self.destination_address(),
            self.word_at(self.source_address(so)),
            ReadWriteFlag::Normal,
        ).advance_si(2).advance_di(2)
    }

    /// STOSB: AL goes to the destination.
    pub open spec fn stosb(self) -> CpuView {
        self.bus_write_u8(
            self.destination_address(),
            self.r.get8(Register8::AL),
            ReadWriteFlag::Normal,
        ).advance_di(1)
    }

    /// STOSW: AX goes to the destination.
    pub open spec fn stosw(self) -> CpuView {
        self.bus_write_u16(self.destination_address(), self.r.ax, ReadWriteFlag::Normal).advance_di(
            2,
        )
    }

    /// LODSB: the source byte goes to AL.
    pub open spec fn lodsb(self, so: SegmentOverride) -> CpuView {
        self.spend(4).with_regs(
            self.r.set8(Register8::AL, self.byte_at(self.source_address(so))),
        ).advance_si(1)
    }

    /// LODSW: the source word goes to AX.
    pub open spec fn lodsw(self, so: SegmentOverride) -> CpuView {
        self.spend(8).with_regs(
            self.r.set16(Register16::AX, self.word_at(self.source_address(so))),
        ).advance_si(2)
    }

    /// SCASB: the flags of AL minus the destination byte.
    pub open spec fn scasb(self) -> CpuView {
        self.spend(4).with_flags(
            alu8(
                Mnemonic::CMP,
                self.r.get8(Register8::AL),
                self.byte_at(self.destination_address()),
                self.r.flags,
            ).1,
        ).advance_di(1)
    }

    /// SCASW: the flags of AX minus the destination word.
    pub open spec fn scasw(self) -> CpuView {
        self.spend(8).with_flags(
            alu16(
                Mnemonic::CMP,
                self.r.ax,
                self.word_at(self.destination_address()),
                self.r.flags,
            ).1,
        ).advance_di(2)
    }

    /// CMPSB: the flags of the source byte minus the destination byte.
    pub open spec fn cmpsb(self, so: SegmentOverride) -> CpuView {
        self.spend(8).with_flags(
            alu8(
                Mnemonic::CMP,
                self.byte_at(self.source_address(so)),
                self.byte_at(self.destination_address()),
                self.r.flags,
            ).1,
        ).advance_si(1).advance_di(1)
    }

    /// CMPSW: the flags of the source word minus the destination word.
    pub open spec fn cmpsw(self, so: SegmentOverride) -> CpuView {
        self.spend(16).with_flags(
            alu16(
                Mnemonic::CMP,
                self.word_at(self.source_address(so)),
                self.word_at(self.destination_address()),
                self.r.flags,
            ).1,
        ).advance_si(2).advance_di(2)
    }

    /// One element of a string instruction. Any other mnemonic changes
    /// nothing.
    pub open spec fn string_op(self, m: Mnemonic, so: SegmentOverride) -> CpuView {
        match m {
            Mnemonic::MOVSB => self.movsb(so),
            Mnemonic::MOVSW => self.movsw(so),
            Mnemonic::STOSB => self.stosb(),
            Mnemonic::STOSW => self.stosw(),
            Mnemonic::LODSB => self.lodsb(so),
            Mnemonic::LODSW => self.lodsw(so),
            Mnemonic::SCASB => self.scasb(),
            Mnemonic::SCASW => self.scasw(),
            Mnemonic::CMPSB => self.cmpsb(so),
            Mnemonic::CMPSW => self.cmpsw(so),
            _ => self,
        }
    }
}

impl Cpu {
    fn source_pointer(&self, so: SegmentOverride) -> (addr: u32)
        ensures
            addr == self@.source_address(so),
            addr < MEMORY_SIZE,
    {
        let segment = segment_override(so, Segment::DS);
        calc_linear_address(self.r.get_segment(segment), self.r.si)
    }

    fn destination_pointer(&self) -> (addr: u32)
        ensures
            addr == self@.destination_address(),
            addr < MEMORY_SIZE,
    {
        calc_linear_address(self.r.es, self.r.di)
    }

    fn step_of(&self, width: i32) -> (step: i32)
        requires
            width == 1 || width == 2,
        ensures
            step == self@.index_step(width as int),
    {
        if self.r.flags.direction {
            -width
        } else {
            width
        }
    }

    fn advance_si(&mut self, width: i32)
        requires
            width == 1 || width == 2,
        ensures
            final(self)@ == old(self)@.advance_si(width as int),
    {
        let mut r = self.r;
        r.si = relative_offset_u16(r.si, self.step_of(width));
        self.set_regs(r);
    }

    fn advance_di(&mut self, width: i32)
        requires
            width == 1 || width == 2,
        ensures
            final(self)@ == old(self)@.advance_di(width as int),
    {
        let mut r = self.r;
        r.di = relative_offset_u16(r.di, self.step_of(width));
        self.set_regs(r);
    }

    fn movsb(&mut self, so: SegmentOverride)
        requires
            old(self).wf(),
        ensures
            final(self).wf(),
            final(self)@ == old(self)@.movsb(so),
    {
        let source = self.source_pointer(so);
        let destination = self.destination_pointer();
        let value = self.biu_read_u8(source, ReadWriteFlag::Normal);
        self.biu_write_u8(destination, value, ReadWriteFlag::Normal);
        self.advance_si(1);
        self.advance_di(1);
    }

    fn movsw(&mut self, so: SegmentOverride)
        requires
            old(self).wf(),
        ensures
            final(self).wf(),
            final(self)@ == old(self)@.movsw(so),
    {
        let source = self.source_pointer(so);
        let destination = self.destination_pointer();
        let value = self.biu_read_u16(source, ReadWriteFlag::Normal);
        self.biu_write_u16(destination, value, ReadWriteFlag::Normal);
        self.advance_si(2);
        self.advance_di(2);
    }

    fn stosb(&mut self)
        requires
            old(self).wf(),
        ensures
            final(self).wf(),
            final(self)@ == old(self)@.stosb(),
    {
        let destination = self.destination_pointer();
        let value = self.r.get_register8(Register8::AL);
        self.biu_write_u8(destination, value, ReadWriteFlag::Normal);
        self.advance_di(1);
    }

    fn stosw(&mut self)
        requires
            old(self).wf(),
        ensures
            final(self).wf(),
            final(self)@ == old(self)@.stosw(),
    {
        let destination = self.destination_pointer();
        let value = self.r.ax;
        self.biu_write_u16(destination, value, ReadWriteFlag::Normal);
        self.advance_di(2);
    }

    fn lodsb(&mut self, so: SegmentOverride)
        requires
            old(self).wf(),
        ensures
            final(self).wf(),
            final(self)@ == old(self)@.lodsb(so),
    {
        let source = self.source_pointer(so);
        let value = self.biu_read_u8(source, ReadWriteFlag::Normal);
        let mut r = self.r;
        r.set_register8(Register8::AL, value);
        self.set_regs(r);
        self.advance_si(1);
    }

    fn lodsw(&mut self, so: SegmentOverride)
        requires
            old(self).wf(),
        ensures
            final(self).wf(),
            final(self)@ == old(self)@.lodsw(so),
    {
        let source = self.source_pointer(so);
        let value = self.biu_read_u16(source, ReadWriteFlag::Normal);
        let mut r = self.r;
        r.set_register16(Register16::AX, value);
        self.set_regs(r);
        self.advance_si(2);
    }

    fn scasb(&mut self)
        requires
            old(self).wf(),
        ensures
            final(self).wf(),
            final(self)@ == old(self)@.scasb(),
    {
        let destination = self.destination_pointer();
        let al = self.r.get_register8(Register8::AL);
        let value = self.biu_read_u8(destination, ReadWriteFlag::Normal);
        let mut flags = self.r.flags;
        let _ = math_op8(&mut flags, Mnemonic::CMP, al, value);
        self.set_flags(flags);
        self.advance_di(1);
    }

    fn scasw(&mut self)
        requires
            old(self).wf(),
        ensures
            final(self).wf(),
            final(self)@ == old(self)@.scasw(),
    {
        let destination = self.destination_pointer();
        let ax = self.r.ax;
        let value = self.biu_read_u16(destination, ReadWriteFlag::Normal);
        let mut flags = self.r.flags;
        let _ = math_op16(&mut flags, Mnemonic::CMP, ax, value);
        self.set_flags(flags);
        self.advance_di(2);
    }

    fn cmpsb(&mut self, so: SegmentOverride)
        requires
            old(self).wf(),
        ensures
            final(self).wf(),
            final(self)@ == old(self)@.cmpsb(so),
    {
        let source = self.source_pointer(so);
        let destination = self.destination_pointer();
        let a = self.peek_u8(source);
        let b = self.peek_u8(destination);
        self.cycles(8);
        let mut flags = self.r.flags;
        let _ = math_op8(&mut flags, Mnemonic::CMP, a, b);
        self.set_flags(flags);
        self.advance_si(1);
        self.advance_di(1);
    }

    fn cmpsw(&mut self, so: SegmentOverride)
        requires
            old(self).wf(),
        ensures
            final(self).wf(),
            final(self)@ == old(self)@.cmpsw(so),
    {
        let source = self.source_pointer(so);
        let destination = self.destination_pointer();
        let a = self.peek_u16(source);
        let b = self.peek_u16(destination);
        self.cycles(16);
        let mut flags = self.r.flags;
        let _ = math_op16(&mut flags, Mnemonic::CMP, a, b);
        self.set_flags(flags);
        self.advance_si(2);
        self.advance_di(2);
    }

    /// Performs one element of a string instruction.
    pub fn string_op(&mut self, mnemonic: Mnemonic, so: SegmentOverride)
        requires
            old(self).wf(),
            is_string_mnemonic(mnemonic),
        ensures
            final(self).wf(),
            final(self)@ == old(self)@.string_op(mnemonic, so),
    {
        match mnemonic {
            Mnemonic::MOVSB => self.movsb(so),
            Mnemonic::MOVSW => self.movsw(so),
            Mnemonic::STOSB => self.stosb(),
            Mnemonic::STOSW => self.stosw(),
            Mnemonic::LODSB => self.lodsb(so),
            Mnemonic::LODSW => self.lodsw(so),
            Mnemonic::SCASB => self.scasb(),
            Mnemonic::SCASW => self.scasw(),
            Mnemonic::CMPSB => self.cmpsb(so),
            Mnemonic::CMPSW => self.cmpsw(so),
            _ => {},
        }
    }
}

} // verus!
