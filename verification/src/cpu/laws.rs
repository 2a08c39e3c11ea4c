//! What holds of every instruction of a kind, whatever the state it runs in.

use vstd::prelude::*;
use crate::cpu::alu::lemma_inc_dec_keep_carry;
use crate::cpu::exec_flow::lemma_conditional_jump_target;
use crate::cpu::exec_group::lemma_byte_jump_forces_high_byte;
use crate::cpu::execute::{family_of, OpFamily};
use crate::cpu::instruction::{
    CpuException, ExecutionResult, Mnemonic, OperandType, ReadWriteFlag, SegmentOverride,
};
use crate::cpu::machine::CpuView;
use crate::cpu::muldiv::lemma_divide_by_zero_fails;
use crate::cpu::opcode::{OpGroup, Outcome};
use crate::cpu::registers::{Register8, Registers};
use crate::io::IoBusView;

verus! {

/// Whether the instruction is CMP or TEST in any of their encodings.
pub open spec fn compares_only(s: CpuView) -> bool {
    match s.group() {
        OpGroup::Cmp8 | OpGroup::Cmp16 | OpGroup::Test8 | OpGroup::Test16 | OpGroup::TestAl
        | OpGroup::TestAx => true,
        OpGroup::AluImmediate8 | OpGroup::AluImmediate16 => s.i.mnemonic == Mnemonic::CMP,
        OpGroup::Group3Byte | OpGroup::Group3Word => s.i.mnemonic == Mnemonic::TEST,
        _ => false,
    }
}

/// Whether the instruction is INC or DEC in any of their encodings.
pub open spec fn is_inc_or_dec(s: CpuView) -> bool {
    match s.group() {
        OpGroup::IncRegister | OpGroup::DecRegister => true,
        OpGroup::Group4 | OpGroup::Group5 => s.i.mnemonic == Mnemonic::INC || s.i.mnemonic
            == Mnemonic::DEC,
        _ => false,
    }
}

/// The start of an instruction touches neither the flags nor the memory nor
/// the instruction, and without a REP prefix leaves every register alone.
pub proof fn lemma_begin_instruction_keeps(s: CpuView)
    ensures
        s.begin_instruction().r.flags == s.r.flags,
        s.begin_instruction().memory == s.memory,
        s.begin_instruction().i == s.i,
        s.begin_instruction().halted == s.halted,
        !s.i.has_rep_prefix() || !s.has_matching_snapshot() ==> s.begin_instruction().r == s.r,
        !s.i.has_rep_prefix() ==> s.begin_instruction().in_rep == s.in_rep,
{
}

/// Whether `after` differs from `before` at most in the flags, the clock and
/// the remembered offset: no register and no byte of memory has changed.
pub open spec fn only_flags_changed(before: CpuView, after: CpuView) -> bool {
    &&& after.memory == before.memory
    &&& after.r == (Registers { flags: after.r.flags, ..before.r })
    &&& after.call_stack == before.call_stack
    &&& after.rep_state == before.rep_state
    &&& after.i == before.i
}

/// Reading the operands changes neither registers nor memory.
pub proof fn lemma_reads_change_nothing(s: CpuView)
    ensures
        only_flags_changed(s, s.read_pair8()) && s.read_pair8().r.flags == s.r.flags,
        only_flags_changed(s, s.read_pair16()) && s.read_pair16().r.flags == s.r.flags,
        only_flags_changed(s, s.after_read8(s.i.operand1_type)) && s.after_read8(
            s.i.operand1_type,
        ).r.flags == s.r.flags,
        only_flags_changed(s, s.after_read16(s.i.operand1_type)) && s.after_read16(
            s.i.operand1_type,
        ).r.flags == s.r.flags,
        only_flags_changed(s, s.after_read8(s.i.operand2_type)) && s.after_read8(
            s.i.operand2_type,
        ).r.flags == s.r.flags,
        only_flags_changed(s, s.after_read16(s.i.operand2_type)) && s.after_read16(
            s.i.operand2_type,
        ).r.flags == s.r.flags,
{
}

/// An operation that is not kept only sets flags.
pub proof fn lemma_compute_without_keeping(
    s: CpuView,
    m: Mnemonic,
    a8: u8,
    b8: u8,
    a16: u16,
    b16: u16,
)
    ensures
        only_flags_changed(s, s.compute8(m, a8, b8, false)),
        only_flags_changed(s, s.compute16(m, a16, b16, false)),
        only_flags_changed(s, s.compute8(m, a8, b8, false).spend(1)),
        only_flags_changed(s, s.compute16(m, a16, b16, false).spend(1)),
{
}

/// CMP with byte or word operands only sets flags.
pub proof fn lemma_cmp_only_sets_flags(s: CpuView)
    ensures
        only_flags_changed(s, s.op_cmp8()),
        only_flags_changed(s, s.op_cmp16()),
{
    reveal(CpuView::op_cmp8);
    reveal(CpuView::op_cmp16);
    lemma_reads_change_nothing(s);
    lemma_compute_without_keeping(
        s.read_pair8().spend(1),
        Mnemonic::CMP,
        s.value1_8(),
        s.value2_8(),
        0,
        0,
    );
    lemma_compute_without_keeping(
        s.read_pair16().spend(1),
        Mnemonic::CMP,
        0,
        0,
        s.value1_16(),
        s.value2_16(),
    );
}

/// TEST with byte or word operands only sets flags.
pub proof fn lemma_test_only_sets_flags(s: CpuView)
    ensures
        only_flags_changed(s, s.op_test8()),
        only_flags_changed(s, s.op_test16()),
{
    reveal(CpuView::op_test8);
    reveal(CpuView::op_test16);
    lemma_reads_change_nothing(s);
    lemma_compute_without_keeping(
        s.read_pair8(),
        Mnemonic::TEST,
        s.value1_8(),
        s.value2_8(),
        0,
        0,
    );
    lemma_compute_without_keeping(
        s.read_pair16(),
        Mnemonic::TEST,
        0,
        0,
        s.value1_16(),
        s.value2_16(),
    );
}

/// TEST of the accumulator with an immediate only sets flags.
pub proof fn lemma_test_accumulator_only_sets_flags(s: CpuView)
    ensures
        only_flags_changed(s, s.op_test_al()),
        only_flags_changed(s, s.op_test_ax()),
{
    reveal(CpuView::op_test_al);
    reveal(CpuView::op_test_ax);
    lemma_reads_change_nothing(s);
    lemma_compute_without_keeping(
        s.after_read8(s.i.operand2_type),
        Mnemonic::TEST,
        s.r.get8(Register8::AL),
        s.operand8(s.i.operand2_type, SegmentOverride::NoOverride),
        0,
        0,
    );
    lemma_compute_without_keeping(
        s.after_read16(s.i.operand2_type),
        Mnemonic::TEST,
        0,
        0,
        s.r.ax,
        s.operand16(s.i.operand2_type, SegmentOverride::NoOverride),
    );
}

/// CMP with an immediate only sets flags.
pub proof fn lemma_cmp_immediate_only_sets_flags(s: CpuView)
    requires
        s.i.mnemonic == Mnemonic::CMP,
    ensures
        only_flags_changed(s, s.op_alu_immediate8()),
        only_flags_changed(s, s.op_alu_immediate16()),
{
    reveal(CpuView::op_alu_immediate8);
    reveal(CpuView::op_alu_immediate16);
    lemma_reads_change_nothing(s);
    lemma_compute_without_keeping(
        s.read_pair8(),
        Mnemonic::CMP,
        s.value1_8(),
        s.value2_8(),
        0,
        0,
    );
    lemma_compute_without_keeping(
        s.read_pair16(),
        Mnemonic::CMP,
        0,
        0,
        s.value1_16(),
        s.value2_16(),
    );
}

/// TEST in group 3 only sets flags.
pub proof fn lemma_group3_test_only_sets_flags(s: CpuView)
    requires
        s.i.mnemonic == Mnemonic::TEST,
    ensures
        only_flags_changed(s, s.op_group3_byte()),
        only_flags_changed(s, s.op_group3_word()),
{
    reveal(CpuView::op_group3_byte);
    reveal(CpuView::op_group3_word);
    lemma_reads_change_nothing(s);
    lemma_compute_without_keeping(
        s.read_pair8(),
        Mnemonic::TEST,
        s.value1_8(),
        s.value2_8(),
        0,
        0,
    );
    lemma_compute_without_keeping(
        s.read_pair16(),
        Mnemonic::TEST,
        0,
        0,
        s.value1_16(),
        s.value2_16(),
    );
}

/// CMP and TEST only set flags: they leave the memory and every register as
/// they were, whatever the operands hold. (A REP prefix in front of them
/// that finds a saved snapshot puts registers back before the instruction
/// runs; the law speaks of the instruction itself.)
pub proof fn lemma_cmp_and_test_only_set_flags(s: CpuView, io: IoBusView)
    requires
        compares_only(s),
        !s.i.has_rep_prefix() || !s.has_matching_snapshot(),
    ensures
        s.execute(io).cpu.memory == s.memory,
        s.execute(io).cpu.r == (Registers { flags: s.execute(io).cpu.r.flags, ..s.r }),
        s.execute(io).io == io,
{
    let b = s.begin_instruction();
    lemma_begin_instruction_keeps(s);
    lemma_cmp_only_sets_flags(b);
    lemma_test_only_sets_flags(b);
    lemma_test_accumulator_only_sets_flags(b);
    if b.i.mnemonic == Mnemonic::CMP {
        lemma_cmp_immediate_only_sets_flags(b);
    }
    if b.i.mnemonic == Mnemonic::TEST {
        lemma_group3_test_only_sets_flags(b);
    }
    assert(only_flags_changed(b, b.arithmetic_cpu())) by {
        reveal(CpuView::arithmetic_cpu);
    }
}

/// Writing the first operand leaves the flags alone.
pub proof fn lemma_store_keeps_flags(s: CpuView, v8: u8, v16: u16)
    ensures
        s.store1_8(v8, ReadWriteFlag::RNI).r.flags == s.r.flags,
        s.store1_16(v16, ReadWriteFlag::RNI).r.flags == s.r.flags,
{
}

/// An INC or DEC that is kept leaves the carry flag alone.
pub proof fn lemma_kept_inc_dec_keeps_carry(s: CpuView, m: Mnemonic, a8: u8, a16: u16)
    requires
        m == Mnemonic::INC || m == Mnemonic::DEC,
    ensures
        s.compute8(m, a8, 0, true).r.flags.carry == s.r.flags.carry,
        s.compute16(m, a16, 0, true).r.flags.carry == s.r.flags.carry,
{
    lemma_inc_dec_keep_carry(m, a8, 0, a16, 0, s.r.flags);
    lemma_store_keeps_flags(s.with_alu8(m, a8, 0), s.alu8_value(m, a8, 0), 0);
    lemma_store_keeps_flags(s.with_alu16(m, a16, 0), 0, s.alu16_value(m, a16, 0));
}

/// INC and DEC of a register or of memory leave the carry flag alone.
pub proof fn lemma_inc_dec_arms_keep_carry(s: CpuView)
    ensures
        s.op_inc_register().r.flags.carry == s.r.flags.carry,
        s.op_dec_register().r.flags.carry == s.r.flags.carry,
        s.i.mnemonic == Mnemonic::INC || s.i.mnemonic == Mnemonic::DEC ==> {
            &&& s.op_incdec8().r.flags.carry == s.r.flags.carry
            &&& s.op_incdec16().r.flags.carry == s.r.flags.carry
        },
{
    reveal(CpuView::op_inc_register);
    reveal(CpuView::op_dec_register);
    reveal(CpuView::op_incdec8);
    reveal(CpuView::op_incdec16);
    lemma_reads_change_nothing(s);
    lemma_kept_inc_dec_keeps_carry(
        s.after_read16(s.i.operand1_type),
        Mnemonic::INC,
        0,
        s.value1_16(),
    );
    lemma_kept_inc_dec_keeps_carry(
        s.after_read16(s.i.operand1_type),
        Mnemonic::DEC,
        0,
        s.value1_16(),
    );
    if s.i.mnemonic == Mnemonic::INC || s.i.mnemonic == Mnemonic::DEC {
        lemma_kept_inc_dec_keeps_carry(
            s.after_read8(s.i.operand1_type),
            s.i.mnemonic,
            s.value1_8(),
            0,
        );
        lemma_kept_inc_dec_keeps_carry(
            s.after_read16(s.i.operand1_type),
            s.i.mnemonic,
            0,
            s.value1_16(),
        );
    }
}

/// INC and DEC never change the carry flag: not on a register, not in
/// memory, not at either width, whatever the operand and whatever the carry
/// flag held.
pub proof fn lemma_inc_dec_never_touch_carry(s: CpuView, io: IoBusView)
    requires
        is_inc_or_dec(s),
    ensures
        s.execute(io).cpu.r.flags.carry == s.r.flags.carry,
{
    let b = s.begin_instruction();
    lemma_begin_instruction_keeps(s);
    lemma_inc_dec_arms_keep_carry(b);
    assert(b.arithmetic_cpu().r.flags.carry == b.r.flags.carry || family_of(b.group())
        != OpFamily::Arithmetic) by {
        reveal(CpuView::arithmetic_cpu);
    }
    assert(b.flow_cpu().r.flags.carry == b.r.flags.carry || family_of(b.group())
        != OpFamily::Flow) by {
        reveal(CpuView::flow_cpu);
        reveal(CpuView::op_group4);
        reveal(CpuView::op_group5);
    }
}

/// A division by zero in group 3 changes no register and no memory, and
/// fails.
pub proof fn lemma_group3_divide_by_zero(s: CpuView)
    requires
        s.i.mnemonic == Mnemonic::DIV || s.i.mnemonic == Mnemonic::IDIV,
    ensures
        s.value1_8() == 0 ==> s.op_group3_byte().r == s.r && s.op_group3_byte().memory == s.memory
            && s.op_group3_byte().halted == s.halted && s.op_group3_byte().in_rep == s.in_rep
            && s.group3_byte_fails(),
        s.value1_16() == 0 ==> s.op_group3_word().r == s.r && s.op_group3_word().memory
            == s.memory && s.op_group3_word().halted == s.halted && s.op_group3_word().in_rep
            == s.in_rep && s.group3_word_fails(),
{
    reveal(CpuView::op_group3_byte);
    reveal(CpuView::op_group3_word);
    reveal(CpuView::group3_byte_fails);
    reveal(CpuView::group3_word_fails);
    lemma_divide_by_zero_fails(s.r);
    lemma_reads_change_nothing(s);
}

/// A division by zero, at either width and signed or not, leaves every
/// register as it was and raises a divide error; the call ends with that
/// exception unless the processor is halted with interrupts off or a
/// repetition is still under way.
pub proof fn lemma_divide_by_zero(s: CpuView, io: IoBusView)
    requires
        s.i.mnemonic == Mnemonic::DIV || s.i.mnemonic == Mnemonic::IDIV,
        (s.group() == OpGroup::Group3Byte && s.begin_instruction().value1_8() == 0) || (s.group()
            == OpGroup::Group3Word && s.begin_instruction().value1_16() == 0),
    ensures
        s.execute(io).cpu.r == s.begin_instruction().r,
        s.execute(io).cpu.memory == s.memory,
        s.execute(io).outcome == Outcome::divide(true),
        !(s.halted && !s.r.flags.interrupt) && !s.begin_instruction().in_rep
            ==> s.execution_result(io) == ExecutionResult::ExceptionError(
            CpuException::DivideError,
        ),
{
    let b = s.begin_instruction();
    lemma_begin_instruction_keeps(s);
    lemma_group3_divide_by_zero(b);
    assert(b.arithmetic_cpu().r == b.r && b.arithmetic_cpu().memory == b.memory
        && b.arithmetic_cpu().halted == b.halted && b.arithmetic_cpu().in_rep == b.in_rep) by {
        reveal(CpuView::arithmetic_cpu);
    }
    assert(b.arithmetic_outcome() == Outcome::divide(true)) by {
        reveal(CpuView::arithmetic_outcome);
    }
}

/// AAM with a base of zero leaves every register as it was and raises a
/// divide error.
pub proof fn lemma_aam_by_zero(s: CpuView, io: IoBusView)
    requires
        s.group() == OpGroup::Aam,
        s.begin_instruction().immediate1() == 0,
    ensures
        s.execute(io).cpu.r == s.begin_instruction().r,
        s.execute(io).cpu.memory == s.memory,
        s.execute(io).outcome == Outcome::divide(true),
        !(s.halted && !s.r.flags.interrupt) && !s.begin_instruction().in_rep
            ==> s.execution_result(io) == ExecutionResult::ExceptionError(
            CpuException::DivideError,
        ),
{
    lemma_begin_instruction_keeps(s);
    reveal(CpuView::arithmetic_cpu);
    reveal(CpuView::arithmetic_outcome);
    reveal(CpuView::op_aam);
}

/// The byte forms of JMP and CALL end with a high byte of all ones in IP and
/// the byte of their operand as its low byte, whatever byte the operand, a
/// register or a byte in memory, held; the call ends as a jump unless the
/// processor is halted with interrupts off.
pub proof fn lemma_byte_jump_lands_in_top_page(s: CpuView, io: IoBusView)
    requires
        s.i.opcode == 0xFE,
        s.i.mnemonic == Mnemonic::JMP || s.i.mnemonic == Mnemonic::CALL,
        s.i.operand1_type is Register8 || s.i.operand1_type is AddressingMode,
    ensures
        s.execute(io).cpu.r.ip / 0x100 == 0xFF,
        s.execute(io).cpu.r.ip % 0x100 == s.begin_instruction().value1_8(),
        s.execute(io).outcome == Outcome::flow(true),
        !(s.halted && !s.r.flags.interrupt) ==> s.execution_result(io)
            == ExecutionResult::OkayJump,
{
    lemma_begin_instruction_keeps(s);
    lemma_byte_jump_forces_high_byte(s.begin_instruction());
    reveal(CpuView::flow_cpu);
    reveal(CpuView::flow_outcome);
}

/// A conditional jump that is not taken changes no register; one that is
/// taken moves IP by the length of the instruction and the displacement.
pub proof fn lemma_conditional_jump(s: CpuView, io: IoBusView, rel: i8)
    requires
        0x60 <= s.i.opcode < 0x80,
        s.i.operand1_type == OperandType::Relative8(rel),
        !s.i.has_rep_prefix(),
    ensures
        s.execute(io).outcome == Outcome::flow(s.jump_if_taken()),
        !s.jump_if_taken() ==> s.execute(io).cpu.r == s.r,
        s.jump_if_taken() ==> s.execute(io).cpu.r.ip as int == (s.r.ip + s.i.size + rel)
            % 0x1_0000,
{
    lemma_begin_instruction_keeps(s);
    lemma_conditional_jump_target(s.begin_instruction(), rel);
    reveal(CpuView::flow_cpu);
    reveal(CpuView::flow_outcome);
}

} // verus!
