//! The instructions that move data: MOV, XCHG, PUSH, POP, LEA, LES, LDS,
//! XLAT, and the transfers between AH and the flags.

use vstd::prelude::*;
use crate::cpu::bus::{calc_linear_address, linear_address};
use crate::cpu::instruction::{
    overridden_segment, segment_override, OperandType, ReadWriteFlag, SegmentOverride,
};
use crate::cpu::machine::{Cpu, CpuView};
use crate::cpu::opcode::{segment_of_opcode, segment_register_of};
use crate::cpu::operand::{
    is_memory_operand, readable16, readable8, readable_farptr, relative_offset,
    relative_offset_u16,
};
use crate::cpu::registers::{
    register16_lut, register16_of_encoding, Register16, Register8, Registers,
    Segment,
};

verus! {

impl CpuView {
    /// The register that the low three bits of the opcode name.
    pub open spec fn encoded_register(self) -> Register16 {
        register16_of_encoding((self.i.opcode % 8) as int)
    }

    /// PUSH of a segment register.
    #[verifier::opaque]
    pub open spec fn op_push_segment(self) -> CpuView {
        self.push_register16(segment_of_opcode(self.i.opcode), ReadWriteFlag::RNI)
    }

    /// POP of a segment register.
    #[verifier::opaque]
    pub open spec fn op_pop_segment(self) -> CpuView {
        self.pop_register16(segment_of_opcode(self.i.opcode), ReadWriteFlag::RNI)
    }

    /// PUSH of a 16-bit register.
    #[verifier::opaque]
    pub open spec fn op_push_register(self) -> CpuView {
        self.spend(4).push_register16(self.encoded_register(), ReadWriteFlag::RNI)
    }

    /// POP of a 16-bit register.
    #[verifier::opaque]
    pub open spec fn op_pop_register(self) -> CpuView {
        self.pop_register16(self.encoded_register(), ReadWriteFlag::RNI)
    }

    /// The two operands take each other's bytes. The second operand is
    /// written first, so that the address of a first operand in memory is
    /// formed from registers that the exchange has not touched.
    pub open spec fn exchange8(self, v1: u8, v2: u8) -> CpuView {
        self.write8(
            self.i.operand2_type,
            self.i.segment_override,
            v1,
            ReadWriteFlag::RNI,
        ).store1_8(v2, ReadWriteFlag::Normal)
    }

    /// The two operands take each other's words, the second written first.
    pub open spec fn exchange16(self, v1: u16, v2: u16) -> CpuView {
        self.write16(
            self.i.operand2_type,
            self.i.segment_override,
            v1,
            ReadWriteFlag::RNI,
        ).store1_16(v2, ReadWriteFlag::Normal)
    }

    /// XCHG with byte operands: four cycles, and two more for memory.
    #[verifier::opaque]
    pub open spec fn op_xchg8(self) -> CpuView {
        self.read_pair8().spend(4).spend_if(is_memory_operand(self.i.operand2_type), 2).exchange8(
            self.value1_8(),
            self.value2_8(),
        )
    }

    /// XCHG with word operands.
    #[verifier::opaque]
    pub open spec fn op_xchg16(self) -> CpuView {
        self.read_pair16().spend(4).spend_if(
            is_memory_operand(self.i.operand2_type),
            2,
        ).exchange16(self.value1_16(), self.value2_16())
    }

    /// MOV between a register and a byte in a register or in memory.
    #[verifier::opaque]
    pub open spec fn op_mov8(self) -> CpuView {
        self.spend(1).after_read8(self.i.operand2_type).spend_if(
            is_memory_operand(self.i.operand1_type),
            2,
        ).store1_8(self.value2_8(), ReadWriteFlag::RNI)
    }

    /// MOV between a register and a word in a register or in memory.
    #[verifier::opaque]
    pub open spec fn op_mov16(self) -> CpuView {
        self.spend(1).after_read16(self.i.operand2_type).spend_if(
            is_memory_operand(self.i.operand1_type),
            2,
        ).store1_16(self.value2_16(), ReadWriteFlag::RNI)
    }

    /// MOV to or from a segment register.
    #[verifier::opaque]
    pub open spec fn op_mov_segment(self) -> CpuView {
        self.after_read16(self.i.operand2_type).store1_16(self.value2_16(), ReadWriteFlag::RNI)
    }

    /// LEA: the offset of the memory operand goes to the first operand. With
    /// a register in place of the memory operand, the offset that was formed
    /// last is taken, at a cost of three cycles.
    #[verifier::opaque]
    pub open spec fn op_lea(self) -> CpuView {
        match self.i.operand2_type {
            OperandType::AddressingMode(mode) => self.ea_calc(mode).write16(
                self.i.operand1_type,
                SegmentOverride::NoOverride,
                self.effective_offset(mode),
                ReadWriteFlag::Normal,
            ),
            _ => self.write16(
                self.i.operand1_type,
                SegmentOverride::NoOverride,
                self.last_ea,
                ReadWriteFlag::Normal,
            ).spend(3),
        }
    }

    /// POP to a register or to memory.
    #[verifier::opaque]
    pub open spec fn op_pop_memory(self) -> CpuView {
        self.after_pop16(ReadWriteFlag::Normal).store1_16(self.stack_top(), ReadWriteFlag::RNI)
    }

    /// XCHG of AX with a register.
    #[verifier::opaque]
    pub open spec fn op_xchg_ax(self) -> CpuView {
        self.with_regs(
            self.r.set16(Register16::AX, self.r.get16(self.encoded_register())).set16(
                self.encoded_register(),
                self.r.ax,
            ),
        ).spend(2)
    }

    /// PUSHF: four cycles, then the flag word is pushed.
    #[verifier::opaque]
    pub open spec fn op_pushf(self) -> CpuView {
        self.spend(4).push_flags(ReadWriteFlag::RNI)
    }

    /// POPF.
    #[verifier::opaque]
    pub open spec fn op_popf(self) -> CpuView {
        self.pop_flags()
    }

    /// WAIT: three cycles.
    #[verifier::opaque]
    pub open spec fn op_wait(self) -> CpuView {
        self.spend(3)
    }

    /// The opcode 0xF1: one cycle.
    #[verifier::opaque]
    pub open spec fn op_idle(self) -> CpuView {
        self.spend(1)
    }

    /// SAHF: the low byte of the flags comes from AH.
    #[verifier::opaque]
    pub open spec fn op_sahf(self) -> CpuView {
        self.with_flags(self.r.flags.with_low_byte(self.r.get8(Register8::AH) as int))
    }

    /// LAHF: AH takes the low byte of the flag word.
    #[verifier::opaque]
    pub open spec fn op_lahf(self) -> CpuView {
        self.with_regs(self.r.set8(Register8::AH, (self.r.flags.word() % 256) as u8))
    }

    /// MOV of a byte at a direct offset to AL.
    #[verifier::opaque]
    pub open spec fn op_mov_al_from_offset(self) -> CpuView {
        self.after_read8(self.i.operand2_type).with_regs(
            self.r.set8(Register8::AL, self.value2_8()),
        )
    }

    /// MOV of a word at a direct offset to AX.
    #[verifier::opaque]
    pub open spec fn op_mov_ax_from_offset(self) -> CpuView {
        self.after_read16(self.i.operand2_type).with_regs(
            self.r.set16(Register16::AX, self.value2_16()),
        )
    }

    /// MOV of AL to a direct offset.
    #[verifier::opaque]
    pub open spec fn op_mov_offset_from_al(self) -> CpuView {
        self.store1_8(self.r.get8(Register8::AL), ReadWriteFlag::RNI)
    }

    /// MOV of AX to a direct offset.
    #[verifier::opaque]
    pub open spec fn op_mov_offset_from_ax(self) -> CpuView {
        self.store1_16(self.r.ax, ReadWriteFlag::RNI)
    }

    /// MOV of an immediate byte to a register; any other pair of operands
    /// changes nothing.
    #[verifier::opaque]
    pub open spec fn op_mov_immediate8(self) -> CpuView {
        match (self.i.operand1_type, self.i.operand2_type) {
            (OperandType::Register8(reg), OperandType::Immediate8(imm)) => self.with_regs(
                self.r.set8(reg, imm),
            ),
            _ => self,
        }
    }

    /// MOV of an immediate word to a register.
    #[verifier::opaque]
    pub open spec fn op_mov_immediate16(self) -> CpuView {
        match (self.i.operand1_type, self.i.operand2_type) {
            (OperandType::Register16(reg), OperandType::Immediate16(imm)) => self.with_regs(
                self.r.set16(reg, imm),
            ),
            _ => self,
        }
    }

    /// The far pointer that the second operand names.
    #[verifier::opaque]
    pub open spec fn far_pointer2(self) -> (u16, u16) {
        self.operand_farptr(self.i.operand2_type, self.i.segment_override)
    }

    /// LES: the offset of a far pointer goes to the first operand, its
    /// segment to ES.
    #[verifier::opaque]
    pub open spec fn op_les(self) -> CpuView {
        let stored = self.after_read_farptr(self.i.operand2_type, ReadWriteFlag::Normal).store1_16(
            self.far_pointer2().1,
            ReadWriteFlag::Normal,
        );
        stored.with_regs(Registers { es: self.far_pointer2().0, ..stored.r })
    }

    /// LDS: the offset of a far pointer goes to the first operand, its
    /// segment to DS.
    #[verifier::opaque]
    pub open spec fn op_lds(self) -> CpuView {
        let stored = self.after_read_farptr(self.i.operand2_type, ReadWriteFlag::RNI).store1_16(
            self.far_pointer2().1,
            ReadWriteFlag::Normal,
        );
        stored.with_regs(Registers { ds: self.far_pointer2().0, ..stored.r })
    }

    /// MOV of an immediate byte to a register or to memory.
    #[verifier::opaque]
    pub open spec fn op_mov_memory_immediate8(self) -> CpuView {
        self.after_read8(self.i.operand2_type).spend(2).store1_8(
            self.value2_8(),
            ReadWriteFlag::RNI,
        )
    }

    /// MOV of an immediate word to a register or to memory.
    #[verifier::opaque]
    pub open spec fn op_mov_memory_immediate16(self) -> CpuView {
        self.after_read16(self.i.operand2_type).spend(2).store1_16(
            self.value2_16(),
            ReadWriteFlag::RNI,
        )
    }

    /// The physical address of the table entry that XLAT reads: BX plus AL in
    /// the data segment, or in the segment of the override.
    pub open spec fn xlat_address(self) -> int {
        linear_address(
            self.r.segment(overridden_segment(self.i.segment_override, Segment::DS)),
            relative_offset(self.r.bx, self.r.get8(Register8::AL) as int),
        )
    }

    /// XLAT: AL is replaced by the table entry that it selects.
    #[verifier::opaque]
    pub open spec fn op_xlat(self) -> CpuView {
        self.spend(4).with_regs(self.r.set8(Register8::AL, self.byte_at(self.xlat_address())))
    }

    /// ESC: an operand in memory is read and dropped.
    #[verifier::opaque]
    pub open spec fn op_esc(self) -> CpuView {
        self.after_read16(self.i.operand1_type)
    }

    /// HLT: the processor halts, in two cycles.
    #[verifier::opaque]
    pub open spec fn op_hlt(self) -> CpuView {
        CpuView { halted: true, ..self }.spend(2)
    }
}

fn is_memory(op: OperandType) -> (b: bool)
    ensures
        b == is_memory_operand(op),
{
    match op {
        OperandType::AddressingMode(_) => true,
        _ => false,
    }
}

impl Cpu {
    fn encoded_register(&self) -> (r: Register16)
        ensures
            r == self@.encoded_register(),
    {
        register16_lut(self.i.opcode % 8)
    }

    fn store_first8(&mut self, value: u8, flag: ReadWriteFlag)
        requires
            old(self).wf(),
        ensures
            final(self).wf(),
            final(self)@ == old(self)@.store1_8(value, flag),
    {
        self.write_operand8(self.i.operand1_type, self.i.segment_override, value, flag);
    }

    fn store_first16(&mut self, value: u16, flag: ReadWriteFlag)
        requires
            old(self).wf(),
        ensures
            final(self).wf(),
            final(self)@ == old(self)@.store1_16(value, flag),
    {
        self.write_operand16(self.i.operand1_type, self.i.segment_override, value, flag);
    }

    fn read_second8(&mut self) -> (value: u8)
        requires
            old(self).wf(),
            readable8(old(self).i.operand2_type),
        ensures
            final(self).wf(),
            final(self)@ == old(self)@.after_read8(old(self).i.operand2_type),
            value == old(self)@.value2_8(),
    {
        reveal(CpuView::value2_8);
        self.read_operand8(self.i.operand2_type, self.i.segment_override).unwrap()
    }

    fn read_second16(&mut self) -> (value: u16)
        requires
            old(self).wf(),
            readable16(old(self).i.operand2_type),
        ensures
            final(self).wf(),
            final(self)@ == old(self)@.after_read16(old(self).i.operand2_type),
            value == old(self)@.value2_16(),
    {
        reveal(CpuView::value2_16);
        self.read_operand16(self.i.operand2_type, self.i.segment_override).unwrap()
    }

    pub(crate) fn op_push_segment(&mut self)
        requires
            old(self).wf(),
        ensures
            final(self).wf(),
            final(self)@ == old(self)@.op_push_segment(),
    {
        reveal(CpuView::op_push_segment);
        self.push_register16(segment_register_of(self.i.opcode), ReadWriteFlag::RNI);
    }

    pub(crate) fn op_pop_segment(&mut self)
        requires
            old(self).wf(),
        ensures
            final(self).wf(),
            final(self)@ == old(self)@.op_pop_segment(),
    {
        reveal(CpuView::op_pop_segment);
        self.pop_register16(segment_register_of(self.i.opcode), ReadWriteFlag::RNI);
    }

    pub(crate) fn op_push_register(&mut self)
        requires
            old(self).wf(),
        ensures
            final(self).wf(),
            final(self)@ == old(self)@.op_push_register(),
    {
        reveal(CpuView::op_push_register);
        let reg = self.encoded_register();
        self.cycles(4);
        self.push_register16(reg, ReadWriteFlag::RNI);
    }

    pub(crate) fn op_pop_register(&mut self)
        requires
            old(self).wf(),
        ensures
            final(self).wf(),
            final(self)@ == old(self)@.op_pop_register(),
    {
        reveal(CpuView::op_pop_register);
        let reg = self.encoded_register();
        self.pop_register16(reg, ReadWriteFlag::RNI);
    }

    fn exchange8(&mut self, v1: u8, v2: u8)
        requires
            old(self).wf(),
        ensures
            final(self).wf(),
            final(self)@ == old(self)@.exchange8(v1, v2),
    {
        self.write_operand8(self.i.operand2_type, self.i.segment_override, v1, ReadWriteFlag::RNI);
        self.store_first8(v2, ReadWriteFlag::Normal);
    }

    fn exchange16(&mut self, v1: u16, v2: u16)
        requires
            old(self).wf(),
        ensures
            final(self).wf(),
            final(self)@ == old(self)@.exchange16(v1, v2),
    {
        self.write_operand16(self.i.operand2_type, self.i.segment_override, v1, ReadWriteFlag::RNI);
        self.store_first16(v2, ReadWriteFlag::Normal);
    }

    pub(crate) fn op_xchg8(&mut self)
        requires
            old(self).wf(),
            readable8(old(self).i.operand1_type),
            readable8(old(self).i.operand2_type),
        ensures
            final(self).wf(),
            final(self)@ == old(self)@.op_xchg8(),
    {
        reveal(CpuView::op_xchg8);
        let (v1, v2) = self.read_operands8();
        self.cycles(4);
        self.cycles_if(is_memory(self.i.operand2_type), 2);
        self.exchange8(v1, v2);
    }

    pub(crate) fn op_xchg16(&mut self)
        requires
            old(self).wf(),
            readable16(old(self).i.operand1_type),
            readable16(old(self).i.operand2_type),
        ensures
            final(self).wf(),
            final(self)@ == old(self)@.op_xchg16(),
    {
        reveal(CpuView::op_xchg16);
        let (v1, v2) = self.read_operands16();
        self.cycles(4);
        self.cycles_if(is_memory(self.i.operand2_type), 2);
        self.exchange16(v1, v2);
    }

    pub(crate) fn op_mov8(&mut self)
        requires
            old(self).wf(),
            readable8(old(self).i.operand2_type),
        ensures
            final(self).wf(),
            final(self)@ == old(self)@.op_mov8(),
    {
        reveal(CpuView::op_mov8);
        reveal(CpuView::value2_8);
        self.cycle();
        let value = self.read_second8();
        self.cycles_if(is_memory(self.i.operand1_type), 2);
        self.store_first8(value, ReadWriteFlag::RNI);
    }

    pub(crate) fn op_mov16(&mut self)
        requires
            old(self).wf(),
            readable16(old(self).i.operand2_type),
        ensures
            final(self).wf(),
            final(self)@ == old(self)@.op_mov16(),
    {
        reveal(CpuView::op_mov16);
        reveal(CpuView::value2_16);
        self.cycle();
        let value = self.read_second16();
        self.cycles_if(is_memory(self.i.operand1_type), 2);
        self.store_first16(value, ReadWriteFlag::RNI);
    }

    pub(crate) fn op_mov_segment(&mut self)
        requires
            old(self).wf(),
            readable16(old(self).i.operand2_type),
        ensures
            final(self).wf(),
            final(self)@ == old(self)@.op_mov_segment(),
    {
        reveal(CpuView::op_mov_segment);
        let value = self.read_second16();
        self.store_first16(value, ReadWriteFlag::RNI);
    }

    pub(crate) fn op_lea(&mut self)
        requires
            old(self).wf(),
        ensures
            final(self).wf(),
            final(self)@ == old(self)@.op_lea(),
    {
        reveal(CpuView::op_lea);
        let ea = self.load_effective_address(self.i.operand2_type);
        match ea {
            Some(value) => {
                self.write_operand16(
                    self.i.operand1_type,
                    SegmentOverride::NoOverride,
                    value,
                    ReadWriteFlag::Normal,
                );
            },
            None => {
                self.write_operand16(
                    self.i.operand1_type,
                    SegmentOverride::NoOverride,
                    self.last_ea,
                    ReadWriteFlag::Normal,
                );
                self.cycles(3);
            },
        }
    }

    pub(crate) fn op_pop_memory(&mut self)
        requires
            old(self).wf(),
        ensures
            final(self).wf(),
            final(self)@ == old(self)@.op_pop_memory(),
    {
        reveal(CpuView::op_pop_memory);
        let value = self.pop_u16();
        self.store_first16(value, ReadWriteFlag::RNI);
    }

    pub(crate) fn op_xchg_ax(&mut self)
        requires
            old(self).wf(),
        ensures
            final(self).wf(),
            final(self)@ == old(self)@.op_xchg_ax(),
    {
        reveal(CpuView::op_xchg_ax);
        let reg = self.encoded_register();
        let mut r = self.r;
        let ax_value = r.ax;
        let reg_value = r.get_register16(reg);
        r.set_register16(Register16::AX, reg_value);
        r.set_register16(reg, ax_value);
        self.set_regs(r);
        self.cycles(2);
    }

    pub(crate) fn op_pushf(&mut self)
        requires
            old(self).wf(),
        ensures
            final(self).wf(),
            final(self)@ == old(self)@.op_pushf(),
    {
        reveal(CpuView::op_pushf);
        self.cycles(4);
        self.push_flags(ReadWriteFlag::RNI);
    }

    pub(crate) fn op_popf(&mut self)
        requires
            old(self).wf(),
        ensures
            final(self).wf(),
            final(self)@ == old(self)@.op_popf(),
    {
        reveal(CpuView::op_popf);
        self.pop_flags();
    }

    pub(crate) fn op_wait(&mut self)
        requires
            old(self).wf(),
        ensures
            final(self).wf(),
            final(self)@ == old(self)@.op_wait(),
    {
        reveal(CpuView::op_wait);
        self.cycles(3);
    }

    pub(crate) fn op_idle(&mut self)
        requires
            old(self).wf(),
        ensures
            final(self).wf(),
            final(self)@ == old(self)@.op_idle(),
    {
        reveal(CpuView::op_idle);
        self.cycle();
    }

    pub(crate) fn op_sahf(&mut self)
        requires
            old(self).wf(),
        ensures
            final(self).wf(),
            final(self)@ == old(self)@.op_sahf(),
    {
        reveal(CpuView::op_sahf);
        let mut flags = self.r.flags;
        flags.store_low_byte(self.r.ah());
        self.set_flags(flags);
    }

    pub(crate) fn op_lahf(&mut self)
        requires
            old(self).wf(),
        ensures
            final(self).wf(),
            final(self)@ == old(self)@.op_lahf(),
    {
        reveal(CpuView::op_lahf);
        let word = self.r.flags.load_flags();
        let mut r = self.r;
        r.set_register8(Register8::AH, (word % 256) as u8);
        self.set_regs(r);
    }

    pub(crate) fn op_mov_al_from_offset(&mut self)
        requires
            old(self).wf(),
            readable8(old(self).i.operand2_type),
        ensures
            final(self).wf(),
            final(self)@ == old(self)@.op_mov_al_from_offset(),
    {
        reveal(CpuView::op_mov_al_from_offset);
        let value = self.read_second8();
        let mut r = self.r;
        r.set_register8(Register8::AL, value);
        self.set_regs(r);
    }

    pub(crate) fn op_mov_ax_from_offset(&mut self)
        requires
            old(self).wf(),
            readable16(old(self).i.operand2_type),
        ensures
            final(self).wf(),
            final(self)@ == old(self)@.op_mov_ax_from_offset(),
    {
        reveal(CpuView::op_mov_ax_from_offset);
        let value = self.read_second16();
        let mut r = self.r;
        r.set_register16(Register16::AX, value);
        self.set_regs(r);
    }

    pub(crate) fn op_mov_offset_from_al(&mut self)
        requires
            old(self).wf(),
        ensures
            final(self).wf(),
            final(self)@ == old(self)@.op_mov_offset_from_al(),
    {
        reveal(CpuView::op_mov_offset_from_al);
        let value = self.r.al();
        self.store_first8(value, ReadWriteFlag::RNI);
    }

    pub(crate) fn op_mov_offset_from_ax(&mut self)
        requires
            old(self).wf(),
        ensures
            final(self).wf(),
            final(self)@ == old(self)@.op_mov_offset_from_ax(),
    {
        reveal(CpuView::op_mov_offset_from_ax);
        let value = self.r.ax;
        self.store_first16(value, ReadWriteFlag::RNI);
    }

    pub(crate) fn op_mov_immediate8(&mut self)
        requires
            old(self).wf(),
        ensures
            final(self).wf(),
            final(self)@ == old(self)@.op_mov_immediate8(),
    {
        reveal(CpuView::op_mov_immediate8);
        if let OperandType::Immediate8(imm) = self.i.operand2_type {
            if let OperandType::Register8(reg) = self.i.operand1_type {
                let mut r = self.r;
                r.set_register8(reg, imm);
                self.set_regs(r);
            }
        }
    }

    pub(crate) fn op_mov_immediate16(&mut self)
        requires
            old(self).wf(),
        ensures
            final(self).wf(),
            final(self)@ == old(self)@.op_mov_immediate16(),
    {
        reveal(CpuView::op_mov_immediate16);
        if let OperandType::Immediate16(imm) = self.i.operand2_type {
            if let OperandType::Register16(reg) = self.i.operand1_type {
                let mut r = self.r;
                r.set_register16(reg, imm);
                self.set_regs(r);
            }
        }
    }

    pub(crate) fn op_les(&mut self)
        requires
            old(self).wf(),
            readable_farptr(old(self).i.operand2_type),
        ensures
            final(self).wf(),
            final(self)@ == old(self)@.op_les(),
    {
        reveal(CpuView::far_pointer2);
        reveal(CpuView::op_les);
        let (segment, offset) = self.read_operand_farptr(
            self.i.operand2_type,
            self.i.segment_override,
            ReadWriteFlag::Normal,
        ).unwrap();
        self.store_first16(offset, ReadWriteFlag::Normal);
        let mut r = self.r;
        r.es = segment;
        self.set_regs(r);
    }

    pub(crate) fn op_lds(&mut self)
        requires
            old(self).wf(),
            readable_farptr(old(self).i.operand2_type),
        ensures
            final(self).wf(),
            final(self)@ == old(self)@.op_lds(),
    {
        reveal(CpuView::far_pointer2);
        reveal(CpuView::op_lds);
        let (segment, offset) = self.read_operand_farptr(
            self.i.operand2_type,
            self.i.segment_override,
            ReadWriteFlag::RNI,
        ).unwrap();
        self.store_first16(offset, ReadWriteFlag::Normal);
        let mut r = self.r;
        r.ds = segment;
        self.set_regs(r);
    }

    pub(crate) fn op_mov_memory_immediate8(&mut self)
        requires
            old(self).wf(),
            readable8(old(self).i.operand2_type),
        ensures
            final(self).wf(),
            final(self)@ == old(self)@.op_mov_memory_immediate8(),
    {
        reveal(CpuView::op_mov_memory_immediate8);
        let value = self.read_second8();
        self.cycles(2);
        self.store_first8(value, ReadWriteFlag::RNI);
    }

    pub(crate) fn op_mov_memory_immediate16(&mut self)
        requires
            old(self).wf(),
            readable16(old(self).i.operand2_type),
        ensures
            final(self).wf(),
            final(self)@ == old(self)@.op_mov_memory_immediate16(),
    {
        reveal(CpuView::op_mov_memory_immediate16);
        let value = self.read_second16();
        self.cycles(2);
        self.store_first16(value, ReadWriteFlag::RNI);
    }

    pub(crate) fn op_xlat(&mut self)
        requires
            old(self).wf(),
        ensures
            final(self).wf(),
            final(self)@ == old(self)@.op_xlat(),
    {
        reveal(CpuView::op_xlat);
        let segment = segment_override(self.i.segment_override, Segment::DS);
        let al = self.r.al();
        let offset = relative_offset_u16(self.r.bx, al as i32);
        let addr = calc_linear_address(self.r.get_segment(segment), offset);
        let value = self.biu_read_u8(addr, ReadWriteFlag::Normal);
        let mut r = self.r;
        r.set_register8(Register8::AL, value);
        self.set_regs(r);
    }

    pub(crate) fn op_esc(&mut self)
        requires
            old(self).wf(),
        ensures
            final(self).wf(),
            final(self)@ == old(self)@.op_esc(),
    {
        reveal(CpuView::op_esc);
        let _ = self.read_operand16(self.i.operand1_type, SegmentOverride::NoOverride);
    }

    pub(crate) fn op_hlt(&mut self)
        requires
            old(self).wf(),
        ensures
            final(self).wf(),
            final(self)@ == old(self)@.op_hlt(),
    {
        reveal(CpuView::op_hlt);
        self.halted = true;
        self.cycles(2);
    }
}

} // verus!
