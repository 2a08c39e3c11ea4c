//! The opcode-extension groups 0xFE and 0xFF, where the decoder's mnemonic
//! chooses among INC, DEC, CALL, CALLF, JMP, JMPF and PUSH.
//!
//! Only INC and DEC are documented for 0xFE. The other mnemonics work on
//! bytes there as the silicon does: a byte is read where a word is meant, a
//! byte is pushed into a word's place, and the high byte of a loaded IP or CS
//! is all ones.

use vstd::prelude::*;
use crate::cpu::bus::{calc_linear_address, linear_address};
use crate::cpu::exec_flow::offset_by;
use crate::cpu::instruction::{
    AddressingMode, Mnemonic, OperandType, ReadWriteFlag, SegmentOverride,
};
use crate::cpu::machine::{CallStackEntry, Cpu, CpuView};
use crate::cpu::opcode::Outcome;
use crate::cpu::operand::{
    mode_segment, readable16, readable8, readable_farptr, relative_offset, relative_offset_u16,
};
use crate::cpu::registers::{
    lo8, low_byte, parent_register, reg8to16, Register16, Registers,
};

verus! {

/// The word whose low byte is `low` and whose high byte is all ones.
pub open spec fn high_ones(low: u8) -> u16 {
    (0xFF00 + low) as u16
}

fn with_high_ones(low: u8) -> (w: u16)
    ensures
        w == high_ones(low),
{
    0xFF00 + low as u16
}

/// The mnemonics of groups 4 and 5 that read their operand as a value.
pub open spec fn group_reads_operand(m: Mnemonic) -> bool {
    m == Mnemonic::INC || m == Mnemonic::DEC || m == Mnemonic::JMP || m == Mnemonic::PUSH
}

impl CpuView {
    /// The low byte of the offset of the next instruction.
    pub open spec fn return_byte(self) -> u8 {
        low_byte(self.next_ip())
    }

    /// The physical addresses of the two bytes that the byte forms of CALLF
    /// and JMPF read for the offset and the segment: the operand's address,
    /// and two bytes further in its segment.
    pub open spec fn far_byte_addresses(self, mode: AddressingMode) -> (
        int,
        int,
    ) {
        let segment = self.r.segment(mode_segment(mode));
        (
            linear_address(segment, self.effective_offset(mode)),
            linear_address(segment, relative_offset(self.effective_offset(mode), 2)),
        )
    }

    /// INC or DEC of a byte.
    #[verifier::opaque]
    pub open spec fn op_incdec8(self) -> CpuView {
        self.after_read8(self.i.operand1_type).compute8(self.i.mnemonic, self.value1_8(), 0, true)
    }

    /// INC or DEC of a word.
    #[verifier::opaque]
    pub open spec fn op_incdec16(self) -> CpuView {
        self.after_read16(self.i.operand1_type).compute16(
            self.i.mnemonic,
            self.value1_16(),
            0,
            true,
        )
    }

    /// The low byte of the return offset is pushed, and the queue is
    /// refilled.
    pub open spec fn call_byte_entry(self, return_byte: u8) -> CpuView {
        self.push8(return_byte, ReadWriteFlag::Normal).refill(4)
    }

    /// The byte form of CALL: the operand, a register or a byte in memory, is
    /// read, the low byte of the return offset is pushed, and IP takes the
    /// byte that was read, under a high byte of all ones. With an operand of
    /// any other kind nothing happens.
    #[verifier::opaque]
    pub open spec fn op_call_byte(self) -> CpuView {
        match self.i.operand1_type {
            OperandType::AddressingMode(_) | OperandType::Register8(_) => self.after_read8(
                self.i.operand1_type,
            ).call_byte_entry(self.return_byte()).with_ip(high_ones(self.value1_8())),
            _ => self,
        }
    }

    /// The byte form of JMP: IP takes the byte that was read, under a high
    /// byte of all ones.
    #[verifier::opaque]
    pub open spec fn op_jmp_byte(self) -> CpuView {
        self.after_read8(self.i.operand1_type).with_ip(high_ones(self.value1_8())).refill(4)
    }

    /// The byte form of PUSH.
    #[verifier::opaque]
    pub open spec fn op_push_byte(self) -> CpuView {
        self.after_read8(self.i.operand1_type).push8(self.value1_8(), ReadWriteFlag::RNI)
    }

    /// The low bytes of CS and of the return offset are pushed.
    pub open spec fn push_return_bytes(self, return_byte: u8) -> CpuView {
        self.push8(low_byte(self.r.cs), ReadWriteFlag::Normal).push8(
            return_byte,
            ReadWriteFlag::Normal,
        )
    }

    /// The offset of the operand is formed and the two bytes are read.
    pub open spec fn read_far_bytes(self, mode: AddressingMode) -> CpuView {
        self.ea_calc(mode).spend(4).spend(4)
    }

    /// Seven cycles around the stop of the prefetch, the two pushes, and
    /// seven cycles around the emptying of the queue.
    pub open spec fn call_far_byte_transfer(self, return_byte: u8) -> CpuView {
        self.spend(4).suspend_fetch().spend(3).push_return_bytes(return_byte).spend(
            4,
        ).flush_queue().spend(3)
    }

    /// CS and IP take a byte each, under high bytes of all ones.
    pub open spec fn land_on_bytes(self, segment: u8, offset: u8) -> CpuView {
        self.with_regs(Registers { cs: high_ones(segment), ip: high_ones(offset), ..self.r })
    }

    /// The byte form of CALLF. With an operand in memory, one byte of offset
    /// and one of segment are read. With a register, a byte at address 4 is
    /// read and dropped, and IP takes the word register.
    #[verifier::opaque]
    pub open spec fn op_callf_byte(self) -> CpuView {
        match self.i.operand1_type {
            OperandType::AddressingMode(mode) => self.read_far_bytes(mode).call_far_byte_transfer(
                self.return_byte(),
            ).land_on_bytes(
                self.byte_at(self.far_byte_addresses(mode).1),
                self.byte_at(self.far_byte_addresses(mode).0),
            ),
            OperandType::Register8(reg) => self.spend(4).push_return_bytes(
                self.return_byte(),
            ).refill(4).with_ip(self.r.get16(parent_register(reg))),
            _ => self,
        }
    }

    /// The byte form of JMPF.
    #[verifier::opaque]
    pub open spec fn op_jmpf_byte(self) -> CpuView {
        match self.i.operand1_type {
            OperandType::AddressingMode(mode) => self.read_far_bytes(mode).refill(4).land_on_bytes(
                self.byte_at(self.far_byte_addresses(mode).1),
                self.byte_at(self.far_byte_addresses(mode).0),
            ),
            OperandType::Register8(reg) => self.spend(4).refill(4).with_ip(
                self.r.get16(parent_register(reg)),
            ),
            _ => self,
        }
    }

    /// Whether the byte form of CALLF or JMPF reports a change of control
    /// flow: only with an operand in memory.
    pub open spec fn far_byte_jumps(self) -> bool {
        self.i.operand1_type is AddressingMode
    }

    /// Group 4.
    #[verifier::opaque]
    pub open spec fn op_group4(self) -> CpuView {
        match self.i.mnemonic {
            Mnemonic::INC | Mnemonic::DEC => self.op_incdec8(),
            Mnemonic::CALL => self.op_call_byte(),
            Mnemonic::CALLF => self.op_callf_byte(),
            Mnemonic::JMP => self.op_jmp_byte(),
            Mnemonic::JMPF => self.op_jmpf_byte(),
            Mnemonic::PUSH => self.op_push_byte(),
            _ => self,
        }
    }

    /// What group 4 reports.
    pub open spec fn group4_outcome(self) -> Outcome {
        match self.i.mnemonic {
            Mnemonic::INC | Mnemonic::DEC | Mnemonic::PUSH => Outcome::plain(),
            Mnemonic::CALL | Mnemonic::JMP => Outcome::flow(true),
            Mnemonic::CALLF | Mnemonic::JMPF => Outcome::flow(self.far_byte_jumps()),
            _ => Outcome::unsupported(),
        }
    }

    /// Indirect CALL: the return offset is pushed, the call is noted, and IP
    /// takes the word that was read.
    #[verifier::opaque]
    pub open spec fn op_call_word(self) -> CpuView {
        self.after_read16(self.i.operand1_type).push16(
            self.next_ip(),
            ReadWriteFlag::Normal,
        ).push_call_stack(
            CallStackEntry::Call(self.r.cs, self.r.ip, self.value1_16()),
        ).refill(4).with_ip(self.value1_16())
    }

    /// The far pointer that the first operand names.
    #[verifier::opaque]
    pub open spec fn far_pointer1(self) -> (u16, u16) {
        self.operand_farptr(self.i.operand1_type, self.i.segment_override)
    }

    /// Seven cycles around the stop of the prefetch, the pushes of CS and of
    /// the return offset, and seven cycles around the emptying of the queue.
    pub open spec fn call_far_transfer(self, return_ip: u16) -> CpuView {
        self.spend(4).suspend_fetch().spend(3).push_register16(
            Register16::CS,
            ReadWriteFlag::Normal,
        ).push16(return_ip, ReadWriteFlag::Normal).spend(4).flush_queue().spend(3)
    }

    /// The call is noted, and CS:IP takes the far pointer.
    pub open spec fn enter_far_pointer(self, segment: u16, offset: u16) -> CpuView {
        let noted = self.push_call_stack(
            CallStackEntry::CallF(self.r.cs, self.r.ip, segment, offset),
        );
        noted.with_regs(Registers { cs: segment, ip: offset, ..noted.r })
    }

    /// Indirect CALLF.
    #[verifier::opaque]
    pub open spec fn op_callf_word(self) -> CpuView {
        self.after_read_farptr(self.i.operand1_type, ReadWriteFlag::Normal).call_far_transfer(
            self.next_ip(),
        ).enter_far_pointer(self.far_pointer1().0, self.far_pointer1().1)
    }

    /// Indirect JMP.
    #[verifier::opaque]
    pub open spec fn op_jmp_word(self) -> CpuView {
        self.after_read16(self.i.operand1_type).with_ip(self.value1_16()).refill(4)
    }

    /// Indirect JMPF.
    #[verifier::opaque]
    pub open spec fn op_jmpf_word(self) -> CpuView {
        let read = self.after_read_farptr(self.i.operand1_type, ReadWriteFlag::Normal);
        read.with_regs(
            Registers { cs: self.far_pointer1().0, ip: self.far_pointer1().1, ..read.r },
        ).refill(4)
    }

    /// PUSH of a word in a register or in memory.
    #[verifier::opaque]
    pub open spec fn op_push_word(self) -> CpuView {
        self.after_read16(self.i.operand1_type).push16(self.value1_16(), ReadWriteFlag::RNI)
    }

    /// Group 5.
    #[verifier::opaque]
    pub open spec fn op_group5(self) -> CpuView {
        match self.i.mnemonic {
            Mnemonic::INC | Mnemonic::DEC => self.op_incdec16(),
            Mnemonic::CALL => self.op_call_word(),
            Mnemonic::CALLF => self.op_callf_word(),
            Mnemonic::JMP => self.op_jmp_word(),
            Mnemonic::JMPF => self.op_jmpf_word(),
            Mnemonic::PUSH => self.op_push_word(),
            _ => self,
        }
    }

    /// What group 5 reports.
    pub open spec fn group5_outcome(self) -> Outcome {
        match self.i.mnemonic {
            Mnemonic::INC | Mnemonic::DEC | Mnemonic::PUSH => Outcome::plain(),
            Mnemonic::CALL | Mnemonic::CALLF | Mnemonic::JMP | Mnemonic::JMPF => Outcome::flow(
                true,
            ),
            _ => Outcome::unsupported(),
        }
    }

    /// Whether group 4 finds the operands it needs.
    pub open spec fn group4_ready(self) -> bool {
        group_reads_operand(self.i.mnemonic) ==> readable8(self.i.operand1_type)
    }

    /// Whether group 5 finds the operands it needs.
    pub open spec fn group5_ready(self) -> bool {
        &&& group_reads_operand(self.i.mnemonic) || self.i.mnemonic == Mnemonic::CALL
            ==> readable16(self.i.operand1_type)
        &&& self.i.mnemonic == Mnemonic::CALLF || self.i.mnemonic == Mnemonic::JMPF
            ==> readable_farptr(self.i.operand1_type)
    }
}

impl Cpu {
    fn return_byte(&self) -> (b: u8)
        ensures
            b == self@.return_byte(),
    {
        lo8(offset_by(self.r.ip, 0, self.i.size))
    }

    fn first8(&mut self) -> (value: u8)
        requires
            old(self).wf(),
            readable8(old(self).i.operand1_type),
        ensures
            final(self).wf(),
            final(self)@ == old(self)@.after_read8(old(self).i.operand1_type),
            value == old(self)@.value1_8(),
    {
        reveal(CpuView::value1_8);
        self.read_operand8(self.i.operand1_type, self.i.segment_override).unwrap()
    }

    fn first16(&mut self) -> (value: u16)
        requires
            old(self).wf(),
            readable16(old(self).i.operand1_type),
        ensures
            final(self).wf(),
            final(self)@ == old(self)@.after_read16(old(self).i.operand1_type),
            value == old(self)@.value1_16(),
    {
        reveal(CpuView::value1_16);
        self.read_operand16(self.i.operand1_type, self.i.segment_override).unwrap()
    }

    fn op_incdec8(&mut self)
        requires
            old(self).wf(),
            readable8(old(self).i.operand1_type),
            old(self).i.mnemonic == Mnemonic::INC || old(self).i.mnemonic == Mnemonic::DEC,
        ensures
            final(self).wf(),
            final(self)@ == old(self)@.op_incdec8(),
    {
        reveal(CpuView::op_incdec8);
        let value = self.first8();
        let result = self.math_op8(self.i.mnemonic, value, 0);
        self.write_operand8(
            self.i.operand1_type,
            self.i.segment_override,
            result,
            ReadWriteFlag::RNI,
        );
    }

    fn op_incdec16(&mut self)
        requires
            old(self).wf(),
            readable16(old(self).i.operand1_type),
            old(self).i.mnemonic == Mnemonic::INC || old(self).i.mnemonic == Mnemonic::DEC,
        ensures
            final(self).wf(),
            final(self)@ == old(self)@.op_incdec16(),
    {
        reveal(CpuView::op_incdec16);
        let value = self.first16();
        let result = self.math_op16(self.i.mnemonic, value, 0);
        self.write_operand16(
            self.i.operand1_type,
            self.i.segment_override,
            result,
            ReadWriteFlag::RNI,
        );
    }

    fn call_byte_entry(&mut self, return_byte: u8)
        requires
            old(self).wf(),
        ensures
            final(self).wf(),
            final(self)@ == old(self)@.call_byte_entry(return_byte),
    {
        self.push_u8(return_byte, ReadWriteFlag::Normal);
        self.refill(4);
    }

    fn op_call_byte(&mut self)
        requires
            old(self).wf(),
        ensures
            final(self).wf(),
            final(self)@ == old(self)@.op_call_byte(),
    {
        reveal(CpuView::op_call_byte);
        let return_byte = self.return_byte();
        match self.i.operand1_type {
            OperandType::AddressingMode(_) | OperandType::Register8(_) => {
                let ptr8 = self.first8();
                self.call_byte_entry(return_byte);
                self.set_ip(with_high_ones(ptr8));
            },
            _ => {},
        }
    }

    fn op_jmp_byte(&mut self)
        requires
            old(self).wf(),
            readable8(old(self).i.operand1_type),
        ensures
            final(self).wf(),
            final(self)@ == old(self)@.op_jmp_byte(),
    {
        reveal(CpuView::op_jmp_byte);
        let ptr8 = self.first8();
        self.set_ip(with_high_ones(ptr8));
        self.refill(4);
    }

    fn op_push_byte(&mut self)
        requires
            old(self).wf(),
            readable8(old(self).i.operand1_type),
        ensures
            final(self).wf(),
            final(self)@ == old(self)@.op_push_byte(),
    {
        reveal(CpuView::op_push_byte);
        let value = self.first8();
        self.push_u8(value, ReadWriteFlag::RNI);
    }

    fn push_return_bytes(&mut self, return_byte: u8)
        requires
            old(self).wf(),
        ensures
            final(self).wf(),
            final(self)@ == old(self)@.push_return_bytes(return_byte),
    {
        self.push_u8(lo8(self.r.cs), ReadWriteFlag::Normal);
        self.push_u8(return_byte, ReadWriteFlag::Normal);
    }

    /// Reads the offset byte and the segment byte of the byte forms of CALLF
    /// and JMPF.
    fn read_far_bytes(&mut self, mode: AddressingMode) -> (bytes: (
        u8,
        u8,
    ))
        requires
            old(self).wf(),
        ensures
            final(self).wf(),
            final(self)@ == old(self)@.read_far_bytes(mode),
            bytes.0 == old(self)@.byte_at(old(self)@.far_byte_addresses(mode).0),
            bytes.1 == old(self)@.byte_at(old(self)@.far_byte_addresses(mode).1),
    {
        let ea = self.calc_effective_address(mode, SegmentOverride::NoOverride);
        let offset_addr = calc_linear_address(ea.0, ea.2);
        let segment_addr = calc_linear_address(ea.0, relative_offset_u16(ea.2, 2));
        let offset = self.biu_read_u8(offset_addr, ReadWriteFlag::Normal);
        let segment = self.biu_read_u8(segment_addr, ReadWriteFlag::Normal);
        (offset, segment)
    }

    fn call_far_byte_transfer(&mut self, return_byte: u8)
        requires
            old(self).wf(),
        ensures
            final(self).wf(),
            final(self)@ == old(self)@.call_far_byte_transfer(return_byte),
    {
        self.cycles(4);
        self.biu_suspend_fetch();
        self.cycles(3);
        self.push_return_bytes(return_byte);
        assert(self@ == old(self)@.spend(4).suspend_fetch().spend(3).push_return_bytes(
            return_byte,
        ));
        self.cycles(4);
        self.biu_queue_flush();
        self.cycles(3);
    }

    fn land_on_bytes(&mut self, segment: u8, offset: u8)
        requires
            old(self).wf(),
        ensures
            final(self).wf(),
            final(self)@ == old(self)@.land_on_bytes(segment, offset),
    {
        let mut r = self.r;
        r.cs = with_high_ones(segment);
        r.ip = with_high_ones(offset);
        self.set_regs(r);
    }

    fn op_callf_byte(&mut self)
        requires
            old(self).wf(),
        ensures
            final(self).wf(),
            final(self)@ == old(self)@.op_callf_byte(),
    {
        reveal(CpuView::op_callf_byte);
        let return_byte = self.return_byte();
        match self.i.operand1_type {
            OperandType::AddressingMode(mode) => {
                let (offset, segment) = self.read_far_bytes(mode);
                self.call_far_byte_transfer(return_byte);
                self.land_on_bytes(segment, offset);
            },
            OperandType::Register8(reg) => {
                let target = self.r.get_register16(reg8to16(reg));
                let _ = self.biu_read_u8(0x0004, ReadWriteFlag::Normal);
                self.push_return_bytes(return_byte);
                self.refill(4);
                self.set_ip(target);
            },
            _ => {},
        }
    }

    fn op_jmpf_byte(&mut self)
        requires
            old(self).wf(),
        ensures
            final(self).wf(),
            final(self)@ == old(self)@.op_jmpf_byte(),
    {
        reveal(CpuView::op_jmpf_byte);
        match self.i.operand1_type {
            OperandType::AddressingMode(mode) => {
                let (offset, segment) = self.read_far_bytes(mode);
                self.refill(4);
                self.land_on_bytes(segment, offset);
            },
            OperandType::Register8(reg) => {
                let target = self.r.get_register16(reg8to16(reg));
                let _ = self.biu_read_u8(0x0004, ReadWriteFlag::Normal);
                self.refill(4);
                self.set_ip(target);
            },
            _ => {},
        }
    }

    fn far_byte_jumps(&self) -> (b: bool)
        ensures
            b == self@.far_byte_jumps(),
    {
        match self.i.operand1_type {
            OperandType::AddressingMode(_) => true,
            _ => false,
        }
    }

    pub(crate) fn op_group4(&mut self) -> (outcome: Outcome)
        requires
            old(self).wf(),
            old(self)@.group4_ready(),
        ensures
            final(self).wf(),
            final(self)@ == old(self)@.op_group4(),
            outcome == old(self)@.group4_outcome(),
    {
        reveal(CpuView::op_group4);
        match self.i.mnemonic {
            Mnemonic::INC | Mnemonic::DEC => {
                self.op_incdec8();
                Outcome::new_plain()
            },
            Mnemonic::CALL => {
                self.op_call_byte();
                Outcome::new_flow(true)
            },
            Mnemonic::CALLF => {
                let jumps = self.far_byte_jumps();
                self.op_callf_byte();
                Outcome::new_flow(jumps)
            },
            Mnemonic::JMP => {
                self.op_jmp_byte();
                Outcome::new_flow(true)
            },
            Mnemonic::JMPF => {
                let jumps = self.far_byte_jumps();
                self.op_jmpf_byte();
                Outcome::new_flow(jumps)
            },
            Mnemonic::PUSH => {
                self.op_push_byte();
                Outcome::new_plain()
            },
            _ => Outcome::new_unsupported(),
        }
    }

    fn note_and_refill(&mut self, entry: CallStackEntry, target: u16)
        requires
            old(self).wf(),
        ensures
            final(self).wf(),
            final(self)@ == old(self)@.push_call_stack(entry).refill(4).with_ip(target),
    {
        self.push_call_stack(entry);
        self.refill(4);
        self.set_ip(target);
    }

    fn op_call_word(&mut self)
        requires
            old(self).wf(),
            readable16(old(self).i.operand1_type),
        ensures
            final(self).wf(),
            final(self)@ == old(self)@.op_call_word(),
    {
        reveal(CpuView::op_call_word);
        let cs = self.r.cs;
        let ip = self.r.ip;
        let return_ip = offset_by(ip, 0, self.i.size);
        let ptr16 = self.first16();
        self.push_u16(return_ip, ReadWriteFlag::Normal);
        self.note_and_refill(CallStackEntry::Call(cs, ip, ptr16), ptr16);
    }

    fn call_far_transfer(&mut self, return_ip: u16)
        requires
            old(self).wf(),
        ensures
            final(self).wf(),
            final(self)@ == old(self)@.call_far_transfer(return_ip),
    {
        self.cycles(4);
        self.biu_suspend_fetch();
        self.cycles(3);
        self.push_register16(Register16::CS, ReadWriteFlag::Normal);
        assert(self@ == old(self)@.spend(4).suspend_fetch().spend(3).push_register16(
            Register16::CS,
            ReadWriteFlag::Normal,
        ));
        self.push_u16(return_ip, ReadWriteFlag::Normal);
        self.cycles(4);
        self.biu_queue_flush();
        self.cycles(3);
    }

    fn enter_far_pointer(&mut self, segment: u16, offset: u16)
        requires
            old(self).wf(),
        ensures
            final(self).wf(),
            final(self)@ == old(self)@.enter_far_pointer(segment, offset),
    {
        self.push_call_stack(CallStackEntry::CallF(self.r.cs, self.r.ip, segment, offset));
        let mut r = self.r;
        r.cs = segment;
        r.ip = offset;
        self.set_regs(r);
    }

    fn op_callf_word(&mut self)
        requires
            old(self).wf(),
            readable_farptr(old(self).i.operand1_type),
        ensures
            final(self).wf(),
            final(self)@ == old(self)@.op_callf_word(),
    {
        reveal(CpuView::far_pointer1);
        reveal(CpuView::op_callf_word);
        let return_ip = offset_by(self.r.ip, 0, self.i.size);
        let (segment, offset) = self.read_operand_farptr(
            self.i.operand1_type,
            self.i.segment_override,
            ReadWriteFlag::Normal,
        ).unwrap();
        self.call_far_transfer(return_ip);
        self.enter_far_pointer(segment, offset);
    }

    fn op_jmp_word(&mut self)
        requires
            old(self).wf(),
            readable16(old(self).i.operand1_type),
        ensures
            final(self).wf(),
            final(self)@ == old(self)@.op_jmp_word(),
    {
        reveal(CpuView::op_jmp_word);
        let ptr16 = self.first16();
        self.set_ip(ptr16);
        self.refill(4);
    }

    fn op_jmpf_word(&mut self)
        requires
            old(self).wf(),
            readable_farptr(old(self).i.operand1_type),
        ensures
            final(self).wf(),
            final(self)@ == old(self)@.op_jmpf_word(),
    {
        reveal(CpuView::far_pointer1);
        reveal(CpuView::op_jmpf_word);
        let (segment, offset) = self.read_operand_farptr(
            self.i.operand1_type,
            self.i.segment_override,
            ReadWriteFlag::Normal,
        ).unwrap();
        let mut r = self.r;
        r.cs = segment;
        r.ip = offset;
        self.set_regs(r);
        self.refill(4);
    }

    fn op_push_word(&mut self)
        requires
            old(self).wf(),
            readable16(old(self).i.operand1_type),
        ensures
            final(self).wf(),
            final(self)@ == old(self)@.op_push_word(),
    {
        reveal(CpuView::op_push_word);
        let value = self.first16();
        self.push_u16(value, ReadWriteFlag::RNI);
    }

    pub(crate) fn op_group5(&mut self) -> (outcome: Outcome)
        requires
            old(self).wf(),
            old(self)@.group5_ready(),
        ensures
            final(self).wf(),
            final(self)@ == old(self)@.op_group5(),
            outcome == old(self)@.group5_outcome(),
    {
        reveal(CpuView::op_group5);
        match self.i.mnemonic {
            Mnemonic::INC | Mnemonic::DEC => {
                self.op_incdec16();
                Outcome::new_plain()
            },
            Mnemonic::CALL => {
                self.op_call_word();
                Outcome::new_flow(true)
            },
            Mnemonic::CALLF => {
                self.op_callf_word();
                Outcome::new_flow(true)
            },
            Mnemonic::JMP => {
                self.op_jmp_word();
                Outcome::new_flow(true)
            },
            Mnemonic::JMPF => {
                self.op_jmpf_word();
                Outcome::new_flow(true)
            },
            Mnemonic::PUSH => {
                self.op_push_word();
                Outcome::new_plain()
            },
            _ => Outcome::new_unsupported(),
        }
    }
}

/// The byte forms of JMP and CALL leave IP with a high byte of all ones and
/// the byte of their operand, a register or a byte in memory, as the low
/// byte, whatever that byte is.
pub proof fn lemma_byte_jump_forces_high_byte(s: CpuView)
    requires
        s.i.mnemonic == Mnemonic::JMP || s.i.mnemonic == Mnemonic::CALL,
        s.i.operand1_type is Register8 || s.i.operand1_type is AddressingMode,
    ensures
        s.op_group4().r.ip / 0x100 == 0xFF,
        s.op_group4().r.ip % 0x100 == s.value1_8(),
        s.op_group4().r.ip == high_ones(s.value1_8()),
        s.op_group4().r.flags == s.r.flags,
        s.op_group4().halted == s.halted,
{
    reveal(CpuView::op_group4);
    reveal(CpuView::op_call_byte);
    reveal(CpuView::op_jmp_byte);
}

} // verus!
