//! The arithmetic, logic, shift and adjust instructions.

use vstd::prelude::*;
use crate::cpu::alu::{alu16, alu8, is_alu_mnemonic, Width};
use crate::cpu::{alu, bcd, muldiv, shift};
use crate::cpu::bcd::{
    aaa_result, aad_result, aam_result, aas_result, daa_result, das_result,
};
use crate::cpu::instruction::{Mnemonic, OperandType, ReadWriteFlag, SegmentOverride};
use crate::cpu::machine::{Cpu, CpuView};
use crate::cpu::muldiv::{
    div_i16, div_i16_ok, div_i8, div_i8_ok, div_u16, div_u16_ok, div_u8, div_u8_ok, mul_i16,
    mul_i8, mul_u16, mul_u8,
};
use crate::cpu::opcode::Outcome;
use crate::cpu::operand::{is_memory_operand, readable16, readable8};
use crate::cpu::registers::{Flag, Register8, Registers};
use crate::cpu::shift::{is_shift_mnemonic, shift_by};

verus! {

impl CpuView {
    /// The first operand, read as a byte.
    #[verifier::opaque]
    pub open spec fn value1_8(self) -> u8 {
        self.operand8(self.i.operand1_type, self.i.segment_override)
    }

    /// The second operand, read as a byte.
    #[verifier::opaque]
    pub open spec fn value2_8(self) -> u8 {
        self.operand8(self.i.operand2_type, self.i.segment_override)
    }

    /// The first operand, read as a word.
    #[verifier::opaque]
    pub open spec fn value1_16(self) -> u16 {
        self.operand16(self.i.operand1_type, self.i.segment_override)
    }

    /// The second operand, read as a word.
    #[verifier::opaque]
    pub open spec fn value2_16(self) -> u16 {
        self.operand16(self.i.operand2_type, self.i.segment_override)
    }

    /// The state after both operands were read as bytes.
    pub open spec fn read_pair8(self) -> CpuView {
        self.after_read8(self.i.operand1_type).after_read8(self.i.operand2_type)
    }

    /// The state after both operands were read as words.
    pub open spec fn read_pair16(self) -> CpuView {
        self.after_read16(self.i.operand1_type).after_read16(self.i.operand2_type)
    }

    /// `n` cycles pass if `condition` holds.
    pub open spec fn spend_if(self, condition: bool, n: int) -> CpuView {
        if condition {
            self.spend(n)
        } else {
            self
        }
    }

    /// The flags are those of an 8-bit operation.
    pub open spec fn with_alu8(self, m: Mnemonic, a: u8, b: u8) -> CpuView {
        self.with_flags(alu8(m, a, b, self.r.flags).1)
    }

    /// The result of an 8-bit operation under the current flags.
    pub open spec fn alu8_value(self, m: Mnemonic, a: u8, b: u8) -> u8 {
        alu8(m, a, b, self.r.flags).0 as u8
    }

    /// The flags are those of a 16-bit operation.
    pub open spec fn with_alu16(self, m: Mnemonic, a: u16, b: u16) -> CpuView {
        self.with_flags(alu16(m, a, b, self.r.flags).1)
    }

    /// The result of a 16-bit operation under the current flags.
    pub open spec fn alu16_value(self, m: Mnemonic, a: u16, b: u16) -> u16 {
        alu16(m, a, b, self.r.flags).0 as u16
    }

    /// The first operand is written as a byte.
    pub open spec fn store1_8(self, value: u8, flag: ReadWriteFlag) -> CpuView {
        self.write8(self.i.operand1_type, self.i.segment_override, value, flag)
    }

    /// The first operand is written as a word.
    pub open spec fn store1_16(self, value: u16, flag: ReadWriteFlag) -> CpuView {
        self.write16(self.i.operand1_type, self.i.segment_override, value, flag)
    }

    /// An 8-bit operation on the two operands: the flags are set, and the
    /// result goes to the first operand if `keep` says so.
    pub open spec fn compute8(self, m: Mnemonic, a: u8, b: u8, keep: bool) -> CpuView {
        if keep {
            self.with_alu8(m, a, b).store1_8(self.alu8_value(m, a, b), ReadWriteFlag::RNI)
        } else {
            self.with_alu8(m, a, b)
        }
    }

    /// A 16-bit operation on the two operands.
    pub open spec fn compute16(self, m: Mnemonic, a: u16, b: u16, keep: bool) -> CpuView {
        if keep {
            self.with_alu16(m, a, b).store1_16(self.alu16_value(m, a, b), ReadWriteFlag::RNI)
        } else {
            self.with_alu16(m, a, b)
        }
    }

    /// ADD, OR, ADC, SBB, AND, SUB, XOR with byte operands: both are read,
    /// the operation takes one cycle and three more for a destination in
    /// memory, and the result is written to the first operand.
    #[verifier::opaque]
    pub open spec fn op_alu8(self) -> CpuView {
        self.read_pair8().spend(1).spend_if(
            is_memory_operand(self.i.operand1_type),
            3,
        ).compute8(self.i.mnemonic, self.value1_8(), self.value2_8(), true)
    }

    /// The same with word operands.
    #[verifier::opaque]
    pub open spec fn op_alu16(self) -> CpuView {
        self.read_pair16().spend(1).spend_if(
            is_memory_operand(self.i.operand1_type),
            3,
        ).compute16(self.i.mnemonic, self.value1_16(), self.value2_16(), true)
    }

    /// CMP with byte operands: only the flags change.
    #[verifier::opaque]
    pub open spec fn op_cmp8(self) -> CpuView {
        self.read_pair8().spend(1).compute8(
            Mnemonic::CMP,
            self.value1_8(),
            self.value2_8(),
            false,
        )
    }

    /// CMP with word operands.
    #[verifier::opaque]
    pub open spec fn op_cmp16(self) -> CpuView {
        self.read_pair16().spend(1).compute16(
            Mnemonic::CMP,
            self.value1_16(),
            self.value2_16(),
            false,
        )
    }
}

fn is_memory(op: OperandType) -> (b: bool)
    ensures
        b == is_memory_operand(op),
{
    match op {
        OperandType::AddressingMode(_) => true,
        _ => false,
    }
}

impl Cpu {
    /// Reads both operands as bytes.
    pub fn read_operands8(&mut self) -> (values: (u8, u8))
        requires
            old(self).wf(),
            readable8(old(self).i.operand1_type),
            readable8(old(self).i.operand2_type),
        ensures
            final(self).wf(),
            final(self)@ == old(self)@.read_pair8(),
            values.0 == old(self)@.value1_8(),
            values.1 == old(self)@.value2_8(),
    {
        reveal(CpuView::value1_8);
        reveal(CpuView::value2_8);
        let a = self.read_operand8(self.i.operand1_type, self.i.segment_override).unwrap();
        let b = self.read_operand8(self.i.operand2_type, self.i.segment_override).unwrap();
        (a, b)
    }

    /// Reads both operands as words.
    pub fn read_operands16(&mut self) -> (values: (u16, u16))
        requires
            old(self).wf(),
            readable16(old(self).i.operand1_type),
            readable16(old(self).i.operand2_type),
        ensures
            final(self).wf(),
            final(self)@ == old(self)@.read_pair16(),
            values.0 == old(self)@.value1_16(),
            values.1 == old(self)@.value2_16(),
    {
        reveal(CpuView::value1_16);
        reveal(CpuView::value2_16);
        let a = self.read_operand16(self.i.operand1_type, self.i.segment_override).unwrap();
        let b = self.read_operand16(self.i.operand2_type, self.i.segment_override).unwrap();
        (a, b)
    }

    /// Spends `ct` cycles if `condition` holds.
    pub fn cycles_if(&mut self, condition: bool, ct: u32)
        requires
            old(self).wf(),
        ensures
            final(self).wf(),
            final(self)@ == old(self)@.spend_if(condition, ct as int),
    {
        if condition {
            self.cycles(ct);
        }
    }

    /// Computes an 8-bit operation and sets the flags.
    pub fn math_op8(&mut self, mnemonic: Mnemonic, a: u8, b: u8) -> (r: u8)
        requires
            old(self).wf(),
            is_alu_mnemonic(mnemonic),
        ensures
            final(self).wf(),
            final(self)@ == old(self)@.with_alu8(mnemonic, a, b),
            r == old(self)@.alu8_value(mnemonic, a, b),
    {
        let mut flags = self.r.flags;
        let r = alu::math_op8(&mut flags, mnemonic, a, b);
        self.set_flags(flags);
        r
    }

    /// Computes a 16-bit operation and sets the flags.
    pub fn math_op16(&mut self, mnemonic: Mnemonic, a: u16, b: u16) -> (r: u16)
        requires
            old(self).wf(),
            is_alu_mnemonic(mnemonic),
        ensures
            final(self).wf(),
            final(self)@ == old(self)@.with_alu16(mnemonic, a, b),
            r == old(self)@.alu16_value(mnemonic, a, b),
    {
        let mut flags = self.r.flags;
        let r = alu::math_op16(&mut flags, mnemonic, a, b);
        self.set_flags(flags);
        r
    }

    fn store1_8(&mut self, value: u8, flag: ReadWriteFlag)
        requires
            old(self).wf(),
        ensures
            final(self).wf(),
            final(self)@ == old(self)@.store1_8(value, flag),
    {
        self.write_operand8(self.i.operand1_type, self.i.segment_override, value, flag);
    }

    fn store1_16(&mut self, value: u16, flag: ReadWriteFlag)
        requires
            old(self).wf(),
        ensures
            final(self).wf(),
            final(self)@ == old(self)@.store1_16(value, flag),
    {
        self.write_operand16(self.i.operand1_type, self.i.segment_override, value, flag);
    }

    fn compute8(&mut self, m: Mnemonic, a: u8, b: u8, keep: bool)
        requires
            old(self).wf(),
            is_alu_mnemonic(m),
        ensures
            final(self).wf(),
            final(self)@ == old(self)@.compute8(m, a, b, keep),
    {
        let result = self.math_op8(m, a, b);
        if keep {
            self.store1_8(result, ReadWriteFlag::RNI);
        }
    }

    fn compute16(&mut self, m: Mnemonic, a: u16, b: u16, keep: bool)
        requires
            old(self).wf(),
            is_alu_mnemonic(m),
        ensures
            final(self).wf(),
            final(self)@ == old(self)@.compute16(m, a, b, keep),
    {
        let result = self.math_op16(m, a, b);
        if keep {
            self.store1_16(result, ReadWriteFlag::RNI);
        }
    }

    pub(crate) fn op_alu8(&mut self)
        requires
            old(self).wf(),
            readable8(old(self).i.operand1_type),
            readable8(old(self).i.operand2_type),
            is_alu_mnemonic(old(self).i.mnemonic),
        ensures
            final(self).wf(),
            final(self)@ == old(self)@.op_alu8(),
    {
        reveal(CpuView::op_alu8);
        let (a, b) = self.read_operands8();
        self.cycles_nx(2);
        self.cycles_if(is_memory(self.i.operand1_type), 3);
        self.compute8(self.i.mnemonic, a, b, true);
    }

    pub(crate) fn op_alu16(&mut self)
        requires
            old(self).wf(),
            readable16(old(self).i.operand1_type),
            readable16(old(self).i.operand2_type),
            is_alu_mnemonic(old(self).i.mnemonic),
        ensures
            final(self).wf(),
            final(self)@ == old(self)@.op_alu16(),
    {
        reveal(CpuView::op_alu16);
        let (a, b) = self.read_operands16();
        self.cycles_nx(2);
        self.cycles_if(is_memory(self.i.operand1_type), 3);
        self.compute16(self.i.mnemonic, a, b, true);
    }

    pub(crate) fn op_cmp8(&mut self)
        requires
            old(self).wf(),
            readable8(old(self).i.operand1_type),
            readable8(old(self).i.operand2_type),
        ensures
            final(self).wf(),
            final(self)@ == old(self)@.op_cmp8(),
    {
        reveal(CpuView::op_cmp8);
        let (a, b) = self.read_operands8();
        self.cycles_nx(2);
        self.compute8(Mnemonic::CMP, a, b, false);
    }

    pub(crate) fn op_cmp16(&mut self)
        requires
            old(self).wf(),
            readable16(old(self).i.operand1_type),
            readable16(old(self).i.operand2_type),
        ensures
            final(self).wf(),
            final(self)@ == old(self)@.op_cmp16(),
    {
        reveal(CpuView::op_cmp16);
        let (a, b) = self.read_operands16();
        self.cycles_nx(2);
        self.compute16(Mnemonic::CMP, a, b, false);
    }
}


/// The mnemonics of group 3 that work on one operand.
pub open spec fn is_group3_unary(m: Mnemonic) -> bool {
    m == Mnemonic::NOT || m == Mnemonic::NEG || m == Mnemonic::MUL || m == Mnemonic::IMUL || m
        == Mnemonic::DIV || m == Mnemonic::IDIV
}

impl CpuView {
    /// The flags are those of an 8-bit shift or rotate by `count`.
    pub open spec fn with_shift8(self, m: Mnemonic, v: u8, count: u8) -> CpuView {
        self.with_flags(shift_by(Width::Byte, m, v as int, self.r.flags, count as nat).1)
    }

    /// The result of an 8-bit shift or rotate under the current flags.
    pub open spec fn shift8_value(self, m: Mnemonic, v: u8, count: u8) -> u8 {
        shift_by(Width::Byte, m, v as int, self.r.flags, count as nat).0 as u8
    }

    /// The flags are those of a 16-bit shift or rotate by `count`.
    pub open spec fn with_shift16(self, m: Mnemonic, v: u16, count: u8) -> CpuView {
        self.with_flags(shift_by(Width::Word, m, v as int, self.r.flags, count as nat).1)
    }

    /// The result of a 16-bit shift or rotate under the current flags.
    pub open spec fn shift16_value(self, m: Mnemonic, v: u16, count: u8) -> u16 {
        shift_by(Width::Word, m, v as int, self.r.flags, count as nat).0 as u16
    }

    /// INC of a 16-bit register: the carry flag stays.
    #[verifier::opaque]
    pub open spec fn op_inc_register(self) -> CpuView {
        self.after_read16(self.i.operand1_type).compute16(
            Mnemonic::INC,
            self.value1_16(),
            0,
            true,
        ).spend(1)
    }

    /// DEC of a 16-bit register: the carry flag stays.
    #[verifier::opaque]
    pub open spec fn op_dec_register(self) -> CpuView {
        self.after_read16(self.i.operand1_type).compute16(
            Mnemonic::DEC,
            self.value1_16(),
            0,
            true,
        ).spend(1)
    }

    /// An operation with an immediate byte; CMP leaves the operand alone.
    #[verifier::opaque]
    pub open spec fn op_alu_immediate8(self) -> CpuView {
        self.read_pair8().compute8(
            self.i.mnemonic,
            self.value1_8(),
            self.value2_8(),
            self.i.mnemonic != Mnemonic::CMP,
        )
    }

    /// An operation with an immediate word; CMP leaves the operand alone.
    #[verifier::opaque]
    pub open spec fn op_alu_immediate16(self) -> CpuView {
        self.read_pair16().compute16(
            self.i.mnemonic,
            self.value1_16(),
            self.value2_16(),
            self.i.mnemonic != Mnemonic::CMP,
        )
    }

    /// TEST with byte operands: the flags of AND, and nothing written.
    #[verifier::opaque]
    pub open spec fn op_test8(self) -> CpuView {
        self.read_pair8().compute8(Mnemonic::TEST, self.value1_8(), self.value2_8(), false).spend(
            1,
        )
    }

    /// TEST with word operands.
    #[verifier::opaque]
    pub open spec fn op_test16(self) -> CpuView {
        self.read_pair16().compute16(
            Mnemonic::TEST,
            self.value1_16(),
            self.value2_16(),
            false,
        ).spend(1)
    }

    /// TEST of AL with an immediate byte.
    #[verifier::opaque]
    pub open spec fn op_test_al(self) -> CpuView {
        self.after_read8(self.i.operand2_type).compute8(
            Mnemonic::TEST,
            self.r.get8(Register8::AL),
            self.operand8(self.i.operand2_type, SegmentOverride::NoOverride),
            false,
        )
    }

    /// TEST of AX with an immediate word.
    #[verifier::opaque]
    pub open spec fn op_test_ax(self) -> CpuView {
        self.after_read16(self.i.operand2_type).compute16(
            Mnemonic::TEST,
            self.r.ax,
            self.operand16(self.i.operand2_type, SegmentOverride::NoOverride),
            false,
        )
    }

    /// A shift or rotate of a byte by one.
    #[verifier::opaque]
    pub open spec fn op_shift8_by1(self) -> CpuView {
        let read = self.after_read8(self.i.operand1_type);
        read.with_shift8(self.i.mnemonic, self.value1_8(), 1).store1_8(
            read.shift8_value(self.i.mnemonic, self.value1_8(), 1),
            ReadWriteFlag::RNI,
        )
    }

    /// A shift or rotate of a word by one.
    #[verifier::opaque]
    pub open spec fn op_shift16_by1(self) -> CpuView {
        let read = self.after_read16(self.i.operand1_type);
        read.with_shift16(self.i.mnemonic, self.value1_16(), 1).store1_16(
            read.shift16_value(self.i.mnemonic, self.value1_16(), 1),
            ReadWriteFlag::RNI,
        )
    }

    /// The cycles of a shift by CL: six, and four for each step, less one; a
    /// count of zero takes only the six.
    pub open spec fn shift_timing(self) -> CpuView {
        self.spend(6).spend_if(
            self.r.get8(Register8::CL) > 0,
            4 * self.r.get8(Register8::CL) - 1,
        )
    }

    /// The flags and the value of a byte shifted by `count`, five cycles for
    /// an operand in memory, and the write.
    pub open spec fn shift8_and_store(self, v: u8, count: u8) -> CpuView {
        self.with_shift8(self.i.mnemonic, v, count).spend_if(
            is_memory_operand(self.i.operand1_type),
            5,
        ).store1_8(self.shift8_value(self.i.mnemonic, v, count), ReadWriteFlag::RNI)
    }

    /// The flags and the value of a word shifted by `count`, five cycles for an
    /// operand in memory, and the write.
    pub open spec fn shift16_and_store(self, v: u16, count: u8) -> CpuView {
        self.with_shift16(self.i.mnemonic, v, count).spend_if(
            is_memory_operand(self.i.operand1_type),
            5,
        ).store1_16(self.shift16_value(self.i.mnemonic, v, count), ReadWriteFlag::RNI)
    }

    /// A shift or rotate of a byte by the count that the second operand
    /// holds.
    #[verifier::opaque]
    pub open spec fn op_shift8_by_cl(self) -> CpuView {
        self.read_pair8().shift_timing().shift8_and_store(self.value1_8(), self.value2_8())
    }

    /// A shift or rotate of a word by the count that the second operand
    /// holds.
    #[verifier::opaque]
    pub open spec fn op_shift16_by_cl(self) -> CpuView {
        self.after_read16(self.i.operand1_type).after_read8(
            self.i.operand2_type,
        ).shift_timing().shift16_and_store(self.value1_16(), self.value2_8())
    }

    /// Whether a division of group 3 on bytes fails.
    #[verifier::opaque]
    pub open spec fn group3_byte_fails(self) -> bool {
        (self.i.mnemonic == Mnemonic::DIV && !div_u8_ok(self.r, self.value1_8())) || (
        self.i.mnemonic == Mnemonic::IDIV && !div_i8_ok(self.r, self.value1_8()))
    }

    /// Whether a division of group 3 on words fails.
    #[verifier::opaque]
    pub open spec fn group3_word_fails(self) -> bool {
        (self.i.mnemonic == Mnemonic::DIV && !div_u16_ok(self.r, self.value1_16())) || (
        self.i.mnemonic == Mnemonic::IDIV && !div_i16_ok(self.r, self.value1_16()))
    }

    /// The registers after MUL, IMUL, DIV or IDIV on a byte; a division that
    /// fails leaves them as they were.
    pub open spec fn muldiv8(self, m: Mnemonic, v: u8) -> Registers {
        match m {
            Mnemonic::MUL => mul_u8(self.r, v),
            Mnemonic::IMUL => mul_i8(self.r, v),
            Mnemonic::DIV => if div_u8_ok(self.r, v) {
                div_u8(self.r, v)
            } else {
                self.r
            },
            Mnemonic::IDIV => if div_i8_ok(self.r, v) {
                div_i8(self.r, v)
            } else {
                self.r
            },
            _ => self.r,
        }
    }

    /// The registers after MUL, IMUL, DIV or IDIV on a word.
    pub open spec fn muldiv16(self, m: Mnemonic, v: u16) -> Registers {
        match m {
            Mnemonic::MUL => mul_u16(self.r, v),
            Mnemonic::IMUL => mul_i16(self.r, v),
            Mnemonic::DIV => if div_u16_ok(self.r, v) {
                div_u16(self.r, v)
            } else {
                self.r
            },
            Mnemonic::IDIV => if div_i16_ok(self.r, v) {
                div_i16(self.r, v)
            } else {
                self.r
            },
            _ => self.r,
        }
    }

    /// Group 3 on bytes: TEST sets flags from both operands; NOT and NEG
    /// rewrite the operand; MUL, IMUL, DIV and IDIV work on the accumulator.
    /// Any other mnemonic changes nothing.
    #[verifier::opaque]
    pub open spec fn op_group3_byte(self) -> CpuView {
        let m = self.i.mnemonic;
        if m == Mnemonic::TEST {
            self.read_pair8().compute8(m, self.value1_8(), self.value2_8(), false)
        } else if m == Mnemonic::NOT || m == Mnemonic::NEG {
            self.after_read8(self.i.operand1_type).compute8(m, self.value1_8(), 0, true)
        } else if is_group3_unary(m) {
            self.after_read8(self.i.operand1_type).with_regs(self.muldiv8(m, self.value1_8()))
        } else {
            self
        }
    }

    /// Group 3 on words.
    #[verifier::opaque]
    pub open spec fn op_group3_word(self) -> CpuView {
        let m = self.i.mnemonic;
        if m == Mnemonic::TEST {
            self.read_pair16().compute16(m, self.value1_16(), self.value2_16(), false)
        } else if m == Mnemonic::NOT || m == Mnemonic::NEG {
            self.after_read16(self.i.operand1_type).compute16(m, self.value1_16(), 0, true)
        } else if is_group3_unary(m) {
            self.after_read16(self.i.operand1_type).with_regs(self.muldiv16(m, self.value1_16()))
        } else {
            self
        }
    }

    /// What group 3 reports: a divide error where a division fails, and no
    /// behaviour for a mnemonic outside the group.
    pub open spec fn group3_outcome(self, fails: bool) -> Outcome {
        if self.i.mnemonic == Mnemonic::TEST || is_group3_unary(self.i.mnemonic) {
            Outcome::divide(fails)
        } else {
            Outcome::unsupported()
        }
    }

    /// DAA.
    #[verifier::opaque]
    pub open spec fn op_daa(self) -> CpuView {
        self.with_regs(daa_result(self.r))
    }

    /// DAS.
    #[verifier::opaque]
    pub open spec fn op_das(self) -> CpuView {
        self.with_regs(das_result(self.r))
    }

    /// AAA.
    #[verifier::opaque]
    pub open spec fn op_aaa(self) -> CpuView {
        self.with_regs(aaa_result(self.r))
    }

    /// AAS.
    #[verifier::opaque]
    pub open spec fn op_aas(self) -> CpuView {
        self.with_regs(aas_result(self.r))
    }

    /// The immediate byte of AAM, AAD and INT.
    #[verifier::opaque]
    pub open spec fn immediate1(self) -> u8 {
        self.operand8(self.i.operand1_type, SegmentOverride::NoOverride)
    }

    /// AAM: a base of zero is a divide error and leaves the accumulator
    /// alone.
    #[verifier::opaque]
    pub open spec fn op_aam(self) -> CpuView {
        let read = self.after_read8(self.i.operand1_type);
        if self.immediate1() == 0 {
            read
        } else {
            read.with_regs(aam_result(self.r, self.immediate1()))
        }
    }

    /// AAD with the base as an immediate byte.
    #[verifier::opaque]
    pub open spec fn op_aad(self) -> CpuView {
        self.after_read8(self.i.operand1_type).with_regs(aad_result(self.r, self.immediate1()))
    }

    /// A flag is set or cleared, in one cycle.
    #[verifier::opaque]
    pub open spec fn op_set_flag(self, flag: Flag, state: bool) -> CpuView {
        self.with_flags(self.r.flags.with(flag, state)).spend(1)
    }

    /// STI: the interrupt flag is set, and interrupts stay shut out until the
    /// next instruction has started.
    #[verifier::opaque]
    pub open spec fn op_sti(self) -> CpuView {
        CpuView { interrupt_inhibit: true, ..self.op_set_flag(Flag::Interrupt, true) }
    }

    /// CMC: the carry flag is inverted.
    #[verifier::opaque]
    pub open spec fn op_cmc(self) -> CpuView {
        self.with_flags(self.r.flags.with(Flag::Carry, !self.r.flags.carry))
    }

    /// CBW: AH is filled with the sign of AL.
    #[verifier::opaque]
    pub open spec fn op_cbw(self) -> CpuView {
        self.with_regs(
            self.r.set8(Register8::AH, if self.r.get8(Register8::AL) >= 0x80 { 0xFF } else { 0 }),
        )
    }

    /// CWD: DX is filled with the sign of AX.
    #[verifier::opaque]
    pub open spec fn op_cwd(self) -> CpuView {
        self.with_regs(Registers { dx: if self.r.ax >= 0x8000 { 0xFFFF } else { 0 }, ..self.r })
    }

    /// SALC: AL is filled with the carry flag.
    #[verifier::opaque]
    pub open spec fn op_salc(self) -> CpuView {
        self.with_regs(self.r.set8(Register8::AL, if self.r.flags.carry { 0xFF } else { 0 }))
    }
}

fn group3_unary(m: Mnemonic) -> (b: bool)
    ensures
        b == is_group3_unary(m),
{
    match m {
        Mnemonic::NOT
        | Mnemonic::NEG
        | Mnemonic::MUL
        | Mnemonic::IMUL
        | Mnemonic::DIV
        | Mnemonic::IDIV => true,
        _ => false,
    }
}

impl Cpu {
    /// Shifts or rotates a byte and sets the flags.
    pub fn bitshift_op8(&mut self, mnemonic: Mnemonic, value: u8, count: u8) -> (r: u8)
        requires
            old(self).wf(),
            is_shift_mnemonic(mnemonic),
        ensures
            final(self).wf(),
            final(self)@ == old(self)@.with_shift8(mnemonic, value, count),
            r == old(self)@.shift8_value(mnemonic, value, count),
    {
        let mut flags = self.r.flags;
        let r = shift::bitshift_op8(&mut flags, mnemonic, value, count);
        self.set_flags(flags);
        r
    }

    /// Shifts or rotates a word and sets the flags.
    pub fn bitshift_op16(&mut self, mnemonic: Mnemonic, value: u16, count: u8) -> (r: u16)
        requires
            old(self).wf(),
            is_shift_mnemonic(mnemonic),
        ensures
            final(self).wf(),
            final(self)@ == old(self)@.with_shift16(mnemonic, value, count),
            r == old(self)@.shift16_value(mnemonic, value, count),
    {
        let mut flags = self.r.flags;
        let r = shift::bitshift_op16(&mut flags, mnemonic, value, count);
        self.set_flags(flags);
        r
    }

    fn read1_8(&mut self) -> (value: u8)
        requires
            old(self).wf(),
            readable8(old(self).i.operand1_type),
        ensures
            final(self).wf(),
            final(self)@ == old(self)@.after_read8(old(self).i.operand1_type),
            value == old(self)@.value1_8(),
    {
        reveal(CpuView::value1_8);
        self.read_operand8(self.i.operand1_type, self.i.segment_override).unwrap()
    }

    fn read1_16(&mut self) -> (value: u16)
        requires
            old(self).wf(),
            readable16(old(self).i.operand1_type),
        ensures
            final(self).wf(),
            final(self)@ == old(self)@.after_read16(old(self).i.operand1_type),
            value == old(self)@.value1_16(),
    {
        reveal(CpuView::value1_16);
        self.read_operand16(self.i.operand1_type, self.i.segment_override).unwrap()
    }

    pub(crate) fn op_inc_register(&mut self)
        requires
            old(self).wf(),
            readable16(old(self).i.operand1_type),
        ensures
            final(self).wf(),
            final(self)@ == old(self)@.op_inc_register(),
    {
        reveal(CpuView::op_inc_register);
        let value = self.read1_16();
        self.compute16(Mnemonic::INC, value, 0, true);
        self.cycles(1);
    }

    pub(crate) fn op_dec_register(&mut self)
        requires
            old(self).wf(),
            readable16(old(self).i.operand1_type),
        ensures
            final(self).wf(),
            final(self)@ == old(self)@.op_dec_register(),
    {
        reveal(CpuView::op_dec_register);
        let value = self.read1_16();
        self.compute16(Mnemonic::DEC, value, 0, true);
        self.cycles(1);
    }

    pub(crate) fn op_alu_immediate8(&mut self)
        requires
            old(self).wf(),
            readable8(old(self).i.operand1_type),
            readable8(old(self).i.operand2_type),
            is_alu_mnemonic(old(self).i.mnemonic),
        ensures
            final(self).wf(),
            final(self)@ == old(self)@.op_alu_immediate8(),
    {
        reveal(CpuView::op_alu_immediate8);
        let (a, b) = self.read_operands8();
        let keep = match self.i.mnemonic {
            Mnemonic::CMP => false,
            _ => true,
        };
        self.compute8(self.i.mnemonic, a, b, keep);
    }

    pub(crate) fn op_alu_immediate16(&mut self)
        requires
            old(self).wf(),
            readable16(old(self).i.operand1_type),
            readable16(old(self).i.operand2_type),
            is_alu_mnemonic(old(self).i.mnemonic),
        ensures
            final(self).wf(),
            final(self)@ == old(self)@.op_alu_immediate16(),
    {
        reveal(CpuView::op_alu_immediate16);
        let (a, b) = self.read_operands16();
        let keep = match self.i.mnemonic {
            Mnemonic::CMP => false,
            _ => true,
        };
        self.compute16(self.i.mnemonic, a, b, keep);
    }

    pub(crate) fn op_test8(&mut self)
        requires
            old(self).wf(),
            readable8(old(self).i.operand1_type),
            readable8(old(self).i.operand2_type),
        ensures
            final(self).wf(),
            final(self)@ == old(self)@.op_test8(),
    {
        reveal(CpuView::op_test8);
        let (a, b) = self.read_operands8();
        self.compute8(Mnemonic::TEST, a, b, false);
        self.cycles_nx(2);
    }

    pub(crate) fn op_test16(&mut self)
        requires
            old(self).wf(),
            readable16(old(self).i.operand1_type),
            readable16(old(self).i.operand2_type),
        ensures
            final(self).wf(),
            final(self)@ == old(self)@.op_test16(),
    {
        reveal(CpuView::op_test16);
        let (a, b) = self.read_operands16();
        self.compute16(Mnemonic::TEST, a, b, false);
        self.cycles_nx(2);
    }

    pub(crate) fn op_test_al(&mut self)
        requires
            old(self).wf(),
            readable8(old(self).i.operand2_type),
        ensures
            final(self).wf(),
            final(self)@ == old(self)@.op_test_al(),
    {
        reveal(CpuView::op_test_al);
        let al = self.r.al();
        let b = self.read_operand8(self.i.operand2_type, SegmentOverride::NoOverride).unwrap();
        self.compute8(Mnemonic::TEST, al, b, false);
    }

    pub(crate) fn op_test_ax(&mut self)
        requires
            old(self).wf(),
            readable16(old(self).i.operand2_type),
        ensures
            final(self).wf(),
            final(self)@ == old(self)@.op_test_ax(),
    {
        reveal(CpuView::op_test_ax);
        let ax = self.r.ax;
        let b = self.read_operand16(self.i.operand2_type, SegmentOverride::NoOverride).unwrap();
        self.compute16(Mnemonic::TEST, ax, b, false);
    }

    pub(crate) fn op_shift8_by1(&mut self)
        requires
            old(self).wf(),
            readable8(old(self).i.operand1_type),
            is_shift_mnemonic(old(self).i.mnemonic),
        ensures
            final(self).wf(),
            final(self)@ == old(self)@.op_shift8_by1(),
    {
        reveal(CpuView::op_shift8_by1);
        let value = self.read1_8();
        let result = self.bitshift_op8(self.i.mnemonic, value, 1);
        self.store1_8(result, ReadWriteFlag::RNI);
    }

    pub(crate) fn op_shift16_by1(&mut self)
        requires
            old(self).wf(),
            readable16(old(self).i.operand1_type),
            is_shift_mnemonic(old(self).i.mnemonic),
        ensures
            final(self).wf(),
            final(self)@ == old(self)@.op_shift16_by1(),
    {
        reveal(CpuView::op_shift16_by1);
        let value = self.read1_16();
        let result = self.bitshift_op16(self.i.mnemonic, value, 1);
        self.store1_16(result, ReadWriteFlag::RNI);
    }

    fn shift_timing(&mut self)
        requires
            old(self).wf(),
        ensures
            final(self).wf(),
            final(self)@ == old(self)@.shift_timing(),
    {
        let cl = self.r.cl();
        self.cycles(6);
        self.cycles_if(cl > 0, if cl > 0 { 4 * cl as u32 - 1 } else { 0 });
    }

    fn shift8_and_store(&mut self, value: u8, count: u8)
        requires
            old(self).wf(),
            is_shift_mnemonic(old(self).i.mnemonic),
        ensures
            final(self).wf(),
            final(self)@ == old(self)@.shift8_and_store(value, count),
    {
        let result = self.bitshift_op8(self.i.mnemonic, value, count);
        self.cycles_if(is_memory(self.i.operand1_type), 5);
        self.store1_8(result, ReadWriteFlag::RNI);
    }

    fn shift16_and_store(&mut self, value: u16, count: u8)
        requires
            old(self).wf(),
            is_shift_mnemonic(old(self).i.mnemonic),
        ensures
            final(self).wf(),
            final(self)@ == old(self)@.shift16_and_store(value, count),
    {
        let result = self.bitshift_op16(self.i.mnemonic, value, count);
        self.cycles_if(is_memory(self.i.operand1_type), 5);
        self.store1_16(result, ReadWriteFlag::RNI);
    }

    pub(crate) fn op_shift8_by_cl(&mut self)
        requires
            old(self).wf(),
            readable8(old(self).i.operand1_type),
            readable8(old(self).i.operand2_type),
            is_shift_mnemonic(old(self).i.mnemonic),
        ensures
            final(self).wf(),
            final(self)@ == old(self)@.op_shift8_by_cl(),
    {
        reveal(CpuView::op_shift8_by_cl);
        let (value, count) = self.read_operands8();
        self.shift_timing();
        self.shift8_and_store(value, count);
    }

    pub(crate) fn op_shift16_by_cl(&mut self)
        requires
            old(self).wf(),
            readable16(old(self).i.operand1_type),
            readable8(old(self).i.operand2_type),
            is_shift_mnemonic(old(self).i.mnemonic),
        ensures
            final(self).wf(),
            final(self)@ == old(self)@.op_shift16_by_cl(),
    {
        reveal(CpuView::value2_8);
        reveal(CpuView::value1_16);
        reveal(CpuView::op_shift16_by_cl);
        let value = self.read1_16();
        let count = self.read_operand8(self.i.operand2_type, self.i.segment_override).unwrap();
        self.shift_timing();
        self.shift16_and_store(value, count);
    }

    /// MUL, IMUL, DIV or IDIV on a byte. Returns whether a division failed.
    fn muldiv8(&mut self, m: Mnemonic, value: u8) -> (failed: bool)
        requires
            old(self).wf(),
            is_group3_unary(m),
            m != Mnemonic::NOT,
            m != Mnemonic::NEG,
        ensures
            final(self).wf(),
            final(self)@ == old(self)@.with_regs(old(self)@.muldiv8(m, value)),
            failed == ((m == Mnemonic::DIV && !div_u8_ok(old(self)@.r, value)) || (m
                == Mnemonic::IDIV && !div_i8_ok(old(self)@.r, value))),
    {
        let mut r = self.r;
        let ok = match m {
            Mnemonic::MUL => {
                muldiv::multiply_u8(&mut r, value);
                true
            },
            Mnemonic::IMUL => {
                muldiv::multiply_i8(&mut r, value);
                true
            },
            Mnemonic::DIV => muldiv::divide_u8(&mut r, value),
            _ => muldiv::divide_i8(&mut r, value),
        };
        self.set_regs(r);
        !ok
    }

    /// MUL, IMUL, DIV or IDIV on a word. Returns whether a division failed.
    fn muldiv16(&mut self, m: Mnemonic, value: u16) -> (failed: bool)
        requires
            old(self).wf(),
            is_group3_unary(m),
            m != Mnemonic::NOT,
            m != Mnemonic::NEG,
        ensures
            final(self).wf(),
            final(self)@ == old(self)@.with_regs(old(self)@.muldiv16(m, value)),
            failed == ((m == Mnemonic::DIV && !div_u16_ok(old(self)@.r, value)) || (m
                == Mnemonic::IDIV && !div_i16_ok(old(self)@.r, value))),
    {
        let mut r = self.r;
        let ok = match m {
            Mnemonic::MUL => {
                muldiv::multiply_u16(&mut r, value);
                true
            },
            Mnemonic::IMUL => {
                muldiv::multiply_i16(&mut r, value);
                true
            },
            Mnemonic::DIV => muldiv::divide_u16(&mut r, value),
            _ => muldiv::divide_i16(&mut r, value),
        };
        self.set_regs(r);
        !ok
    }

    pub(crate) fn op_group3_byte(&mut self) -> (outcome: Outcome)
        requires
            old(self).wf(),
            old(self).i.mnemonic == Mnemonic::TEST || is_group3_unary(old(self).i.mnemonic)
                ==> readable8(old(self).i.operand1_type),
            old(self).i.mnemonic == Mnemonic::TEST ==> readable8(old(self).i.operand2_type),
        ensures
            final(self).wf(),
            final(self)@ == old(self)@.op_group3_byte(),
            outcome == old(self)@.group3_outcome(old(self)@.group3_byte_fails()),
    {
        reveal(CpuView::group3_byte_fails);
        reveal(CpuView::op_group3_byte);
        let m = self.i.mnemonic;
        match m {
            Mnemonic::TEST => {
                let (a, b) = self.read_operands8();
                self.compute8(m, a, b, false);
                Outcome::new_divide(false)
            },
            Mnemonic::NOT | Mnemonic::NEG => {
                let value = self.read1_8();
                self.compute8(m, value, 0, true);
                Outcome::new_divide(false)
            },
            _ => {
                if group3_unary(m) {
                    let value = self.read1_8();
                    let failed = self.muldiv8(m, value);
                    Outcome::new_divide(failed)
                } else {
                    Outcome::new_unsupported()
                }
            },
        }
    }

    pub(crate) fn op_group3_word(&mut self) -> (outcome: Outcome)
        requires
            old(self).wf(),
            old(self).i.mnemonic == Mnemonic::TEST || is_group3_unary(old(self).i.mnemonic)
                ==> readable16(old(self).i.operand1_type),
            old(self).i.mnemonic == Mnemonic::TEST ==> readable16(old(self).i.operand2_type),
        ensures
            final(self).wf(),
            final(self)@ == old(self)@.op_group3_word(),
            outcome == old(self)@.group3_outcome(old(self)@.group3_word_fails()),
    {
        reveal(CpuView::group3_word_fails);
        reveal(CpuView::op_group3_word);
        let m = self.i.mnemonic;
        match m {
            Mnemonic::TEST => {
                let (a, b) = self.read_operands16();
                self.compute16(m, a, b, false);
                Outcome::new_divide(false)
            },
            Mnemonic::NOT | Mnemonic::NEG => {
                let value = self.read1_16();
                self.compute16(m, value, 0, true);
                Outcome::new_divide(false)
            },
            _ => {
                if group3_unary(m) {
                    let value = self.read1_16();
                    let failed = self.muldiv16(m, value);
                    Outcome::new_divide(failed)
                } else {
                    Outcome::new_unsupported()
                }
            },
        }
    }

    pub(crate) fn op_daa(&mut self)
        requires
            old(self).wf(),
        ensures
            final(self).wf(),
            final(self)@ == old(self)@.op_daa(),
    {
        reveal(CpuView::op_daa);
        let mut r = self.r;
        bcd::daa(&mut r);
        self.set_regs(r);
    }

    pub(crate) fn op_das(&mut self)
        requires
            old(self).wf(),
        ensures
            final(self).wf(),
            final(self)@ == old(self)@.op_das(),
    {
        reveal(CpuView::op_das);
        let mut r = self.r;
        bcd::das(&mut r);
        self.set_regs(r);
    }

    pub(crate) fn op_aaa(&mut self)
        requires
            old(self).wf(),
        ensures
            final(self).wf(),
            final(self)@ == old(self)@.op_aaa(),
    {
        reveal(CpuView::op_aaa);
        let mut r = self.r;
        bcd::aaa(&mut r);
        self.set_regs(r);
    }

    pub(crate) fn op_aas(&mut self)
        requires
            old(self).wf(),
        ensures
            final(self).wf(),
            final(self)@ == old(self)@.op_aas(),
    {
        reveal(CpuView::op_aas);
        let mut r = self.r;
        bcd::aas(&mut r);
        self.set_regs(r);
    }

    /// Reads the immediate byte that is the first operand.
    pub(crate) fn read_immediate1(&mut self) -> (value: u8)
        requires
            old(self).wf(),
            readable8(old(self).i.operand1_type),
        ensures
            final(self).wf(),
            final(self)@ == old(self)@.after_read8(old(self).i.operand1_type),
            value == old(self)@.immediate1(),
    {
        reveal(CpuView::immediate1);
        self.read_operand8(self.i.operand1_type, SegmentOverride::NoOverride).unwrap()
    }

    /// AAM. Returns whether the base was zero, which is a divide error.
    pub(crate) fn op_aam(&mut self) -> (failed: bool)
        requires
            old(self).wf(),
            readable8(old(self).i.operand1_type),
        ensures
            final(self).wf(),
            final(self)@ == old(self)@.op_aam(),
            failed == (old(self)@.immediate1() == 0),
    {
        reveal(CpuView::immediate1);
        reveal(CpuView::op_aam);
        let base = self.read_immediate1();
        if base == 0 {
            true
        } else {
            let mut r = self.r;
            bcd::aam(&mut r, base);
            self.set_regs(r);
            false
        }
    }

    pub(crate) fn op_aad(&mut self)
        requires
            old(self).wf(),
            readable8(old(self).i.operand1_type),
        ensures
            final(self).wf(),
            final(self)@ == old(self)@.op_aad(),
    {
        reveal(CpuView::op_aad);
        let base = self.read_immediate1();
        let mut r = self.r;
        bcd::aad(&mut r, base);
        self.set_regs(r);
    }

    pub(crate) fn op_set_flag(&mut self, flag: Flag, state: bool)
        requires
            old(self).wf(),
        ensures
            final(self).wf(),
            final(self)@ == old(self)@.op_set_flag(flag, state),
    {
        reveal(CpuView::op_set_flag);
        let mut flags = self.r.flags;
        flags.set_flag_state(flag, state);
        self.set_flags(flags);
        self.cycle();
    }

    pub(crate) fn op_sti(&mut self)
        requires
            old(self).wf(),
        ensures
            final(self).wf(),
            final(self)@ == old(self)@.op_sti(),
    {
        reveal(CpuView::op_sti);
        self.op_set_flag(Flag::Interrupt, true);
        self.interrupt_inhibit = true;
    }

    pub(crate) fn op_cmc(&mut self)
        requires
            old(self).wf(),
        ensures
            final(self).wf(),
            final(self)@ == old(self)@.op_cmc(),
    {
        reveal(CpuView::op_cmc);
        let mut flags = self.r.flags;
        let carry = flags.get_flag(Flag::Carry);
        flags.set_flag_state(Flag::Carry, !carry);
        self.set_flags(flags);
    }

    /// CBW: extends the sign of AL into AH.
    pub fn sign_extend_al(&mut self)
        requires
            old(self).wf(),
        ensures
            final(self).wf(),
            final(self)@ == old(self)@.op_cbw(),
    {
        reveal(CpuView::op_cbw);
        let mut r = self.r;
        let fill: u8 = if r.al() >= 0x80 { 0xFF } else { 0 };
        r.set_register8(Register8::AH, fill);
        self.set_regs(r);
    }

    /// CWD: extends the sign of AX into DX.
    pub fn sign_extend_ax(&mut self)
        requires
            old(self).wf(),
        ensures
            final(self).wf(),
            final(self)@ == old(self)@.op_cwd(),
    {
        reveal(CpuView::op_cwd);
        let mut r = self.r;
        r.dx = if r.ax >= 0x8000 { 0xFFFF } else { 0 };
        self.set_regs(r);
    }

    pub(crate) fn op_salc(&mut self)
        requires
            old(self).wf(),
        ensures
            final(self).wf(),
            final(self)@ == old(self)@.op_salc(),
    {
        reveal(CpuView::op_salc);
        let mut r = self.r;
        let fill: u8 = if r.flags.carry { 0xFF } else { 0 };
        r.set_register8(Register8::AL, fill);
        self.set_regs(r);
    }
}

} // verus!
