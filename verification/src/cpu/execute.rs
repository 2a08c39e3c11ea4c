//! The execution unit: one decoded instruction in, one result out.
//!
//! The opcode chooses a behaviour group, and the groups fall into four
//! families. What an instruction does is stated family by family, as a
//! function from the state before to the state after.

use vstd::prelude::*;
use crate::cpu::alu::is_alu_mnemonic;
use crate::cpu::exec_alu::is_group3_unary;
use crate::cpu::instruction::{CpuException, ExecutionResult, Mnemonic};
use crate::cpu::machine::{Cpu, CpuView};
use crate::cpu::opcode::{op_group, op_group_of, OpGroup, Outcome};
use crate::cpu::operand::{readable16, readable8, readable_farptr};
use crate::cpu::registers::Flag;
use crate::cpu::shift::is_shift_mnemonic;
use crate::io::{IoBusInterface, IoBusView};

verus! {

/// What one instruction leaves behind: the processor, the I/O bus, and what
/// the operation reported.
pub struct Step {
    pub cpu: CpuView,
    pub io: IoBusView,
    pub outcome: Outcome,
}

/// The families of behaviour groups.
#[derive(Copy, Clone, Debug, PartialEq, Eq, Structural)]
pub enum OpFamily {
    Arithmetic,
    Transfer,
    Flow,
    StringIo,
}

/// The family of a behaviour group.
pub open spec fn family_of(g: OpGroup) -> OpFamily {
    match g {
        OpGroup::Alu8
        | OpGroup::Alu16
        | OpGroup::Daa
        | OpGroup::Das
        | OpGroup::Aaa
        | OpGroup::Aas
        | OpGroup::Cmp8
        | OpGroup::Cmp16
        | OpGroup::IncRegister
        | OpGroup::DecRegister
        | OpGroup::AluImmediate8
        | OpGroup::AluImmediate16
        | OpGroup::Test8
        | OpGroup::Test16
        | OpGroup::TestAl
        | OpGroup::TestAx
        | OpGroup::Shift8By1
        | OpGroup::Shift16By1
        | OpGroup::Shift8ByCl
        | OpGroup::Shift16ByCl
        | OpGroup::Aad
        | OpGroup::Salc
        | OpGroup::Cbw
        | OpGroup::Cwd
        | OpGroup::Cmc
        | OpGroup::Clc
        | OpGroup::Stc
        | OpGroup::Cli
        | OpGroup::Sti
        | OpGroup::Cld
        | OpGroup::Std
        | OpGroup::Group3Byte
        | OpGroup::Group3Word
        | OpGroup::Aam => OpFamily::Arithmetic,
        OpGroup::CallFar
        | OpGroup::RetnRelease
        | OpGroup::Retn
        | OpGroup::RetfRelease
        | OpGroup::Retf
        | OpGroup::Int3
        | OpGroup::Int
        | OpGroup::Into
        | OpGroup::Iret
        | OpGroup::CallNear
        | OpGroup::JmpNear
        | OpGroup::JmpFar
        | OpGroup::JmpShort
        | OpGroup::JumpIf
        | OpGroup::Loopne
        | OpGroup::Loope
        | OpGroup::Loop
        | OpGroup::Jcxz
        | OpGroup::Group4
        | OpGroup::Group5 => OpFamily::Flow,
        OpGroup::Movs
        | OpGroup::Cmps
        | OpGroup::Stos
        | OpGroup::Lods
        | OpGroup::Scas
        | OpGroup::InAlImmediate
        | OpGroup::InAxImmediate
        | OpGroup::OutImmediateAl
        | OpGroup::OutImmediateAx
        | OpGroup::InAlDx
        | OpGroup::InAxDx
        | OpGroup::OutDxAl
        | OpGroup::OutDxAx => OpFamily::StringIo,
        _ => OpFamily::Transfer,
    }
}

/// Finds the family of a behaviour group.
pub fn op_family(g: OpGroup) -> (f: OpFamily)
    ensures
        f == family_of(g),
{
    match g {
        OpGroup::Alu8
        | OpGroup::Alu16
        | OpGroup::Daa
        | OpGroup::Das
        | OpGroup::Aaa
        | OpGroup::Aas
        | OpGroup::Cmp8
        | OpGroup::Cmp16
        | OpGroup::IncRegister
        | OpGroup::DecRegister
        | OpGroup::AluImmediate8
        | OpGroup::AluImmediate16
        | OpGroup::Test8
        | OpGroup::Test16
        | OpGroup::TestAl
        | OpGroup::TestAx
        | OpGroup::Shift8By1
        | OpGroup::Shift16By1
        | OpGroup::Shift8ByCl
        | OpGroup::Shift16ByCl
        | OpGroup::Aad
        | OpGroup::Salc
        | OpGroup::Cbw
        | OpGroup::Cwd
        | OpGroup::Cmc
        | OpGroup::Clc
        | OpGroup::Stc
        | OpGroup::Cli
        | OpGroup::Sti
        | OpGroup::Cld
        | OpGroup::Std
        | OpGroup::Group3Byte
        | OpGroup::Group3Word
        | OpGroup::Aam => OpFamily::Arithmetic,
        OpGroup::CallFar
        | OpGroup::RetnRelease
        | OpGroup::Retn
        | OpGroup::RetfRelease
        | OpGroup::Retf
        | OpGroup::Int3
        | OpGroup::Int
        | OpGroup::Into
        | OpGroup::Iret
        | OpGroup::CallNear
        | OpGroup::JmpNear
        | OpGroup::JmpFar
        | OpGroup::JmpShort
        | OpGroup::JumpIf
        | OpGroup::Loopne
        | OpGroup::Loope
        | OpGroup::Loop
        | OpGroup::Jcxz
        | OpGroup::Group4
        | OpGroup::Group5 => OpFamily::Flow,
        OpGroup::Movs
        | OpGroup::Cmps
        | OpGroup::Stos
        | OpGroup::Lods
        | OpGroup::Scas
        | OpGroup::InAlImmediate
        | OpGroup::InAxImmediate
        | OpGroup::OutImmediateAl
        | OpGroup::OutImmediateAx
        | OpGroup::InAlDx
        | OpGroup::InAxDx
        | OpGroup::OutDxAl
        | OpGroup::OutDxAx => OpFamily::StringIo,
        _ => OpFamily::Transfer,
    }
}

impl CpuView {
    /// The behaviour group of the instruction in `i`.
    pub open spec fn group(self) -> OpGroup {
        op_group_of(self.i.opcode)
    }

    /// Whether both operands can be read as bytes.
    pub open spec fn reads_bytes(self) -> bool {
        readable8(self.i.operand1_type) && readable8(self.i.operand2_type)
    }

    /// Whether both operands can be read as words.
    pub open spec fn reads_words(self) -> bool {
        readable16(self.i.operand1_type) && readable16(self.i.operand2_type)
    }

    /// Whether group 3 on bytes finds the operands it needs.
    pub open spec fn group3_byte_ready(self) -> bool {
        &&& self.i.mnemonic == Mnemonic::TEST || is_group3_unary(self.i.mnemonic) ==> readable8(
            self.i.operand1_type,
        )
        &&& self.i.mnemonic == Mnemonic::TEST ==> readable8(self.i.operand2_type)
    }

    /// Whether group 3 on words finds the operands it needs.
    pub open spec fn group3_word_ready(self) -> bool {
        &&& self.i.mnemonic == Mnemonic::TEST || is_group3_unary(self.i.mnemonic) ==> readable16(
            self.i.operand1_type,
        )
        &&& self.i.mnemonic == Mnemonic::TEST ==> readable16(self.i.operand2_type)
    }

    /// Whether the decoder kept its side of the contract for an instruction of
    /// the family of arithmetic, logic, shifts, adjustments and flag
    /// instructions: the operands that the operation reads are of a kind that
    /// can be read at its width, and the mnemonic is one that the operation can
    /// run.
    #[verifier::opaque]
    pub open spec fn arithmetic_ready(self) -> bool {
        match self.group() {
            OpGroup::Alu8 => self.reads_bytes() && is_alu_mnemonic(self.i.mnemonic),
            OpGroup::Alu16 => self.reads_words() && is_alu_mnemonic(self.i.mnemonic),
            OpGroup::Cmp8 => self.reads_bytes(),
            OpGroup::Cmp16 => self.reads_words(),
            OpGroup::IncRegister => readable16(self.i.operand1_type),
            OpGroup::DecRegister => readable16(self.i.operand1_type),
            OpGroup::AluImmediate8 => self.reads_bytes() && is_alu_mnemonic(self.i.mnemonic),
            OpGroup::AluImmediate16 => self.reads_words() && is_alu_mnemonic(self.i.mnemonic),
            OpGroup::Test8 => self.reads_bytes(),
            OpGroup::Test16 => self.reads_words(),
            OpGroup::TestAl => readable8(self.i.operand2_type),
            OpGroup::TestAx => readable16(self.i.operand2_type),
            OpGroup::Shift8By1 => readable8(self.i.operand1_type) && is_shift_mnemonic(
                self.i.mnemonic,
            ),
            OpGroup::Shift16By1 => readable16(self.i.operand1_type) && is_shift_mnemonic(
                self.i.mnemonic,
            ),
            OpGroup::Shift8ByCl => self.reads_bytes() && is_shift_mnemonic(self.i.mnemonic),
            OpGroup::Shift16ByCl => readable16(self.i.operand1_type) && readable8(
                self.i.operand2_type,
            ) && is_shift_mnemonic(self.i.mnemonic),
            OpGroup::Aad => readable8(self.i.operand1_type),
            OpGroup::Group3Byte => self.group3_byte_ready(),
            OpGroup::Group3Word => self.group3_word_ready(),
            OpGroup::Aam => readable8(self.i.operand1_type),
            _ => true,
        }
    }

    /// The state that an instruction of the family of arithmetic, logic,
    /// shifts, adjustments and flag instructions leaves.
    #[verifier::opaque]
    pub open spec fn arithmetic_cpu(self) -> CpuView {
        match self.group() {
            OpGroup::Alu8 => self.op_alu8(),
            OpGroup::Alu16 => self.op_alu16(),
            OpGroup::Daa => self.op_daa(),
            OpGroup::Das => self.op_das(),
            OpGroup::Aaa => self.op_aaa(),
            OpGroup::Aas => self.op_aas(),
            OpGroup::Cmp8 => self.op_cmp8(),
            OpGroup::Cmp16 => self.op_cmp16(),
            OpGroup::IncRegister => self.op_inc_register(),
            OpGroup::DecRegister => self.op_dec_register(),
            OpGroup::AluImmediate8 => self.op_alu_immediate8(),
            OpGroup::AluImmediate16 => self.op_alu_immediate16(),
            OpGroup::Test8 => self.op_test8(),
            OpGroup::Test16 => self.op_test16(),
            OpGroup::TestAl => self.op_test_al(),
            OpGroup::TestAx => self.op_test_ax(),
            OpGroup::Shift8By1 => self.op_shift8_by1(),
            OpGroup::Shift16By1 => self.op_shift16_by1(),
            OpGroup::Shift8ByCl => self.op_shift8_by_cl(),
            OpGroup::Shift16ByCl => self.op_shift16_by_cl(),
            OpGroup::Aad => self.op_aad(),
            OpGroup::Salc => self.op_salc(),
            OpGroup::Cbw => self.op_cbw(),
            OpGroup::Cwd => self.op_cwd(),
            OpGroup::Cmc => self.op_cmc(),
            OpGroup::Clc => self.op_set_flag(Flag::Carry, false),
            OpGroup::Stc => self.op_set_flag(Flag::Carry, true),
            OpGroup::Cli => self.op_set_flag(Flag::Interrupt, false),
            OpGroup::Sti => self.op_sti(),
            OpGroup::Cld => self.op_set_flag(Flag::Direction, false),
            OpGroup::Std => self.op_set_flag(Flag::Direction, true),
            OpGroup::Group3Byte => self.op_group3_byte(),
            OpGroup::Group3Word => self.op_group3_word(),
            OpGroup::Aam => self.op_aam(),
            _ => self,
        }
    }

    /// What an instruction of the family of arithmetic, logic, shifts,
    /// adjustments and flag instructions reports.
    #[verifier::opaque]
    pub open spec fn arithmetic_outcome(self) -> Outcome {
        match self.group() {
            OpGroup::Group3Byte => self.group3_outcome(self.group3_byte_fails()),
            OpGroup::Group3Word => self.group3_outcome(self.group3_word_fails()),
            OpGroup::Aam => Outcome::divide(self.immediate1() == 0),
            _ => Outcome::plain(),
        }
    }

    /// Whether the decoder kept its side of the contract for an instruction of
    /// the family of moves, exchanges, pushes and pops: the operands that the
    /// operation reads are of a kind that can be read at its width, and the
    /// mnemonic is one that the operation can run.
    #[verifier::opaque]
    pub open spec fn transfer_ready(self) -> bool {
        match self.group() {
            OpGroup::Xchg8 => self.reads_bytes(),
            OpGroup::Xchg16 => self.reads_words(),
            OpGroup::Mov8 => readable8(self.i.operand2_type),
            OpGroup::Mov16 => readable16(self.i.operand2_type),
            OpGroup::MovSegment => readable16(self.i.operand2_type),
            OpGroup::MovAlFromOffset => readable8(self.i.operand2_type),
            OpGroup::MovAxFromOffset => readable16(self.i.operand2_type),
            OpGroup::Les => readable_farptr(self.i.operand2_type),
            OpGroup::Lds => readable_farptr(self.i.operand2_type),
            OpGroup::MovMemoryImmediate8 => readable8(self.i.operand2_type),
            OpGroup::MovMemoryImmediate16 => readable16(self.i.operand2_type),
            _ => true,
        }
    }

    /// The state that an instruction of the family of moves, exchanges, pushes
    /// and pops leaves.
    #[verifier::opaque]
    pub open spec fn transfer_cpu(self) -> CpuView {
        match self.group() {
            OpGroup::PushSegment => self.op_push_segment(),
            OpGroup::PopSegment => self.op_pop_segment(),
            OpGroup::PushRegister => self.op_push_register(),
            OpGroup::PopRegister => self.op_pop_register(),
            OpGroup::Xchg8 => self.op_xchg8(),
            OpGroup::Xchg16 => self.op_xchg16(),
            OpGroup::Mov8 => self.op_mov8(),
            OpGroup::Mov16 => self.op_mov16(),
            OpGroup::MovSegment => self.op_mov_segment(),
            OpGroup::Lea => self.op_lea(),
            OpGroup::PopMemory => self.op_pop_memory(),
            OpGroup::XchgAx => self.op_xchg_ax(),
            OpGroup::Wait => self.op_wait(),
            OpGroup::Pushf => self.op_pushf(),
            OpGroup::Popf => self.op_popf(),
            OpGroup::Sahf => self.op_sahf(),
            OpGroup::Lahf => self.op_lahf(),
            OpGroup::MovAlFromOffset => self.op_mov_al_from_offset(),
            OpGroup::MovAxFromOffset => self.op_mov_ax_from_offset(),
            OpGroup::MovOffsetFromAl => self.op_mov_offset_from_al(),
            OpGroup::MovOffsetFromAx => self.op_mov_offset_from_ax(),
            OpGroup::MovImmediate8 => self.op_mov_immediate8(),
            OpGroup::MovImmediate16 => self.op_mov_immediate16(),
            OpGroup::Les => self.op_les(),
            OpGroup::Lds => self.op_lds(),
            OpGroup::MovMemoryImmediate8 => self.op_mov_memory_immediate8(),
            OpGroup::MovMemoryImmediate16 => self.op_mov_memory_immediate16(),
            OpGroup::Xlat => self.op_xlat(),
            OpGroup::Esc => self.op_esc(),
            OpGroup::Idle => self.op_idle(),
            OpGroup::Hlt => self.op_hlt(),
            _ => self,
        }
    }

    /// What an instruction of the family of moves, exchanges, pushes and pops
    /// reports.
    #[verifier::opaque]
    pub open spec fn transfer_outcome(self) -> Outcome {
        match self.group() {
            OpGroup::Unhandled => Outcome::unsupported(),
            _ => Outcome::plain(),
        }
    }

    /// Whether the decoder kept its side of the contract for an instruction of
    /// the family of jumps, loops, calls, returns and interrupts: the operands
    /// that the operation reads are of a kind that can be read at its width,
    /// and the mnemonic is one that the operation can run.
    #[verifier::opaque]
    pub open spec fn flow_ready(self) -> bool {
        match self.group() {
            OpGroup::RetnRelease => readable16(self.i.operand1_type),
            OpGroup::RetfRelease => readable16(self.i.operand1_type),
            OpGroup::Int => readable8(self.i.operand1_type),
            OpGroup::CallNear => readable16(self.i.operand1_type),
            OpGroup::JmpNear => self.i.operand1_type is Relative16,
            OpGroup::JmpShort => self.i.operand1_type is Relative8,
            OpGroup::JumpIf => self.jump_if_taken() ==> self.i.operand1_type is Relative8,
            OpGroup::Group4 => self.group4_ready(),
            OpGroup::Group5 => self.group5_ready(),
            _ => true,
        }
    }

    /// The state that an instruction of the family of jumps, loops, calls,
    /// returns and interrupts leaves.
    #[verifier::opaque]
    pub open spec fn flow_cpu(self) -> CpuView {
        match self.group() {
            OpGroup::CallFar => self.op_call_far(),
            OpGroup::RetnRelease => self.op_retn_release(),
            OpGroup::Retn => self.op_retn(),
            OpGroup::RetfRelease => self.op_retf_release(),
            OpGroup::Retf => self.op_retf(),
            OpGroup::Int3 => self.op_int3(),
            OpGroup::Int => self.op_int(),
            OpGroup::Into => self.op_into(),
            OpGroup::Iret => self.op_iret(),
            OpGroup::CallNear => self.op_call_near(),
            OpGroup::JmpNear => self.op_jmp_near(),
            OpGroup::JmpFar => self.op_jmp_far(),
            OpGroup::JmpShort => self.op_jmp_short(),
            OpGroup::JumpIf => self.op_jump_if(),
            OpGroup::Loopne => self.op_loopne(),
            OpGroup::Loope => self.op_loope(),
            OpGroup::Loop => self.op_loop_plain(),
            OpGroup::Jcxz => self.op_jcxz(),
            OpGroup::Group4 => self.op_group4(),
            OpGroup::Group5 => self.op_group5(),
            _ => self,
        }
    }

    /// What an instruction of the family of jumps, loops, calls, returns and
    /// interrupts reports.
    #[verifier::opaque]
    pub open spec fn flow_outcome(self) -> Outcome {
        match self.group() {
            OpGroup::CallFar
            | OpGroup::RetnRelease
            | OpGroup::Retn
            | OpGroup::RetfRelease
            | OpGroup::Retf
            | OpGroup::Int3
            | OpGroup::Int
            | OpGroup::Into
            | OpGroup::Iret
            | OpGroup::CallNear
            | OpGroup::JmpNear
            | OpGroup::JmpFar
            | OpGroup::JmpShort => Outcome::flow(true),
            OpGroup::JumpIf => Outcome::flow(self.jump_if_taken()),
            OpGroup::Loopne => Outcome::flow(self.loopne_taken()),
            OpGroup::Loope => Outcome::flow(self.loope_taken()),
            OpGroup::Loop => Outcome::flow(self.loop_taken()),
            OpGroup::Jcxz => Outcome::flow(self.r.cx == 0),
            OpGroup::Group4 => self.group4_outcome(),
            OpGroup::Group5 => self.group5_outcome(),
            _ => Outcome::plain(),
        }
    }

    /// Whether the decoder kept its side of the contract for an instruction of
    /// the family of string instructions, IN and OUT: the operands that the
    /// operation reads are of a kind that can be read at its width, and the
    /// mnemonic is one that the operation can run.
    #[verifier::opaque]
    pub open spec fn string_io_ready(self) -> bool {
        match self.group() {
            OpGroup::Cmps => self.string_ready(),
            OpGroup::Stos => self.string_ready(),
            OpGroup::Lods => self.string_ready(),
            OpGroup::Scas => self.string_ready(),
            OpGroup::InAlImmediate => readable8(self.i.operand2_type),
            OpGroup::InAxImmediate => readable8(self.i.operand2_type),
            OpGroup::OutImmediateAl => self.reads_bytes(),
            OpGroup::OutImmediateAx => readable8(self.i.operand1_type) && readable16(
                self.i.operand2_type,
            ),
            OpGroup::InAlDx => readable16(self.i.operand2_type),
            OpGroup::InAxDx => readable16(self.i.operand2_type),
            OpGroup::OutDxAl => readable16(self.i.operand1_type) && readable8(self.i.operand2_type),
            OpGroup::OutDxAx => self.reads_words(),
            _ => true,
        }
    }

    /// The state that an instruction of the family of string instructions, IN
    /// and OUT leaves.
    #[verifier::opaque]
    pub open spec fn string_io_cpu(self, io: IoBusView) -> CpuView {
        match self.group() {
            OpGroup::Movs => self.op_movs(),
            OpGroup::Cmps => self.op_cmps(),
            OpGroup::Stos => self.op_stos(),
            OpGroup::Lods => self.op_lods(),
            OpGroup::Scas => self.op_scas(),
            OpGroup::InAlImmediate => self.op_in_al_immediate(io),
            OpGroup::InAxImmediate => self.op_in_ax_immediate(io),
            OpGroup::OutImmediateAl => self.op_out_immediate_al(),
            OpGroup::OutImmediateAx => self.op_out_immediate_ax(),
            OpGroup::InAlDx => self.op_in_al_dx(io),
            OpGroup::InAxDx => self.op_in_ax_dx(io),
            OpGroup::OutDxAl => self.op_out_dx_al(),
            OpGroup::OutDxAx => self.op_out_dx_ax(),
            _ => self,
        }
    }

    /// What an instruction of the family of string instructions, IN and OUT
    /// reports.
    #[verifier::opaque]
    pub open spec fn string_io_outcome(self) -> Outcome {
        match self.group() {
            _ => Outcome::plain(),
        }
    }

    /// The I/O bus that IN and OUT leave.
    #[verifier::opaque]
    pub open spec fn string_io_bus(self, io: IoBusView) -> IoBusView {
        match self.group() {
            OpGroup::InAlImmediate | OpGroup::InAxImmediate => io.after_read(
                self.in_port_immediate(),
            ),
            OpGroup::InAlDx | OpGroup::InAxDx => io.after_read(self.in_port_dx()),
            OpGroup::OutImmediateAl => io.after_write(self.out_port_immediate(), self.value2_8()),
            OpGroup::OutImmediateAx => io.after_write_word(
                self.out_port_immediate(),
                self.value2_16(),
            ),
            OpGroup::OutDxAl => io.after_write(self.out_port_dx(), self.value2_8()),
            OpGroup::OutDxAx => io.after_write_word(self.out_port_dx(), self.value2_16()),
            _ => io,
        }
    }

    /// Whether the decoder kept its side of the contract for the instruction
    /// in `i`. The execution unit is not defined on anything else.
    pub open spec fn can_dispatch(self) -> bool {
        match family_of(self.group()) {
            OpFamily::Arithmetic => self.arithmetic_ready(),
            OpFamily::Transfer => self.transfer_ready(),
            OpFamily::Flow => self.flow_ready(),
            OpFamily::StringIo => self.string_io_ready(),
        }
    }

    /// The operation of the opcode.
    pub open spec fn dispatch(self, io: IoBusView) -> Step {
        match family_of(self.group()) {
            OpFamily::Arithmetic => Step {
                cpu: self.arithmetic_cpu(),
                io,
                outcome: self.arithmetic_outcome(),
            },
            OpFamily::Transfer => Step {
                cpu: self.transfer_cpu(),
                io,
                outcome: self.transfer_outcome(),
            },
            OpFamily::Flow => Step { cpu: self.flow_cpu(), io, outcome: self.flow_outcome() },
            OpFamily::StringIo => Step {
                cpu: self.string_io_cpu(io),
                io: self.string_io_bus(io),
                outcome: self.string_io_outcome(),
            },
        }
    }

    /// How a call ends, in this order of precedence: an instruction without
    /// behaviour is unsupported; a processor that halted with interrupts off
    /// stays halted; a change of control flow is a jump; a repetition that
    /// goes on asks to be entered again; a divide error is an exception;
    /// anything else is fine.
    pub open spec fn classify(self, outcome: Outcome) -> ExecutionResult {
        if outcome.unhandled {
            ExecutionResult::UnsupportedOpcode(self.i.opcode)
        } else if self.halted && !self.r.flags.interrupt {
            ExecutionResult::Halt
        } else if outcome.jump {
            ExecutionResult::OkayJump
        } else if self.in_rep {
            ExecutionResult::OkayRep
        } else if outcome.exception == CpuException::DivideError {
            ExecutionResult::ExceptionError(CpuException::DivideError)
        } else {
            ExecutionResult::Okay
        }
    }

    /// One instruction: the work at the start of every instruction, then the
    /// operation of the opcode.
    pub open spec fn execute(self, io: IoBusView) -> Step {
        self.begin_instruction().dispatch(io)
    }

    /// The result of one instruction.
    pub open spec fn execution_result(self, io: IoBusView) -> ExecutionResult {
        self.execute(io).cpu.classify(self.execute(io).outcome)
    }

    /// Whether the instruction in `i` can be executed in this state.
    pub open spec fn can_execute(self) -> bool {
        self.begin_instruction().can_dispatch()
    }
}

impl Cpu {
    /// Runs an operation of the family of arithmetic, logic, shifts,
    /// adjustments and flag instructions.
    fn dispatch_arithmetic(&mut self, g: OpGroup) -> (outcome: Outcome)
        requires
            old(self).wf(),
            old(self)@.arithmetic_ready(),
            g == old(self)@.group(),
            family_of(g) == OpFamily::Arithmetic,
        ensures
            final(self).wf(),
            final(self)@ == old(self)@.arithmetic_cpu(),
            outcome == old(self)@.arithmetic_outcome(),
    {
        reveal(CpuView::arithmetic_ready);
        reveal(CpuView::arithmetic_cpu);
        reveal(CpuView::arithmetic_outcome);
        match g {
            OpGroup::Alu8 => {
                self.op_alu8();
                return Outcome::new_plain();
            },
            OpGroup::Alu16 => {
                self.op_alu16();
                return Outcome::new_plain();
            },
            OpGroup::Daa => {
                self.op_daa();
                return Outcome::new_plain();
            },
            OpGroup::Das => {
                self.op_das();
                return Outcome::new_plain();
            },
            OpGroup::Aaa => {
                self.op_aaa();
                return Outcome::new_plain();
            },
            OpGroup::Aas => {
                self.op_aas();
                return Outcome::new_plain();
            },
            OpGroup::Cmp8 => {
                self.op_cmp8();
                return Outcome::new_plain();
            },
            OpGroup::Cmp16 => {
                self.op_cmp16();
                return Outcome::new_plain();
            },
            OpGroup::IncRegister => {
                self.op_inc_register();
                return Outcome::new_plain();
            },
            OpGroup::DecRegister => {
                self.op_dec_register();
                return Outcome::new_plain();
            },
            OpGroup::AluImmediate8 => {
                self.op_alu_immediate8();
                return Outcome::new_plain();
            },
            OpGroup::AluImmediate16 => {
                self.op_alu_immediate16();
                return Outcome::new_plain();
            },
            OpGroup::Test8 => {
                self.op_test8();
                return Outcome::new_plain();
            },
            OpGroup::Test16 => {
                self.op_test16();
                return Outcome::new_plain();
            },
            OpGroup::TestAl => {
                self.op_test_al();
                return Outcome::new_plain();
            },
            OpGroup::TestAx => {
                self.op_test_ax();
                return Outcome::new_plain();
            },
            OpGroup::Shift8By1 => {
                self.op_shift8_by1();
                return Outcome::new_plain();
            },
            OpGroup::Shift16By1 => {
                self.op_shift16_by1();
                return Outcome::new_plain();
            },
            OpGroup::Shift8ByCl => {
                self.op_shift8_by_cl();
                return Outcome::new_plain();
            },
            OpGroup::Shift16ByCl => {
                self.op_shift16_by_cl();
                return Outcome::new_plain();
            },
            OpGroup::Aad => {
                self.op_aad();
                return Outcome::new_plain();
            },
            OpGroup::Salc => {
                self.op_salc();
                return Outcome::new_plain();
            },
            OpGroup::Cbw => {
                self.sign_extend_al();
                return Outcome::new_plain();
            },
            OpGroup::Cwd => {
                self.sign_extend_ax();
                return Outcome::new_plain();
            },
            OpGroup::Cmc => {
                self.op_cmc();
                return Outcome::new_plain();
            },
            OpGroup::Clc => {
                self.op_set_flag(Flag::Carry, false);
                return Outcome::new_plain();
            },
            OpGroup::Stc => {
                self.op_set_flag(Flag::Carry, true);
                return Outcome::new_plain();
            },
            OpGroup::Cli => {
                self.op_set_flag(Flag::Interrupt, false);
                return Outcome::new_plain();
            },
            OpGroup::Sti => {
                self.op_sti();
                return Outcome::new_plain();
            },
            OpGroup::Cld => {
                self.op_set_flag(Flag::Direction, false);
                return Outcome::new_plain();
            },
            OpGroup::Std => {
                self.op_set_flag(Flag::Direction, true);
                return Outcome::new_plain();
            },
            OpGroup::Group3Byte => {
                return self.op_group3_byte();
            },
            OpGroup::Group3Word => {
                return self.op_group3_word();
            },
            OpGroup::Aam => {
                let failed = self.op_aam();
                return Outcome::new_divide(failed);
            },
            _ => {
                return Outcome::new_plain();
            },
        }
    }

    /// Runs an operation of the family of moves, exchanges, pushes and pops.
    fn dispatch_transfer(&mut self, g: OpGroup) -> (outcome: Outcome)
        requires
            old(self).wf(),
            old(self)@.transfer_ready(),
            g == old(self)@.group(),
            family_of(g) == OpFamily::Transfer,
        ensures
            final(self).wf(),
            final(self)@ == old(self)@.transfer_cpu(),
            outcome == old(self)@.transfer_outcome(),
    {
        reveal(CpuView::transfer_ready);
        reveal(CpuView::transfer_cpu);
        reveal(CpuView::transfer_outcome);
        match g {
            OpGroup::PushSegment => {
                self.op_push_segment();
                return Outcome::new_plain();
            },
            OpGroup::PopSegment => {
                self.op_pop_segment();
                return Outcome::new_plain();
            },
            OpGroup::SegmentPrefix => {
                return Outcome::new_plain();
            },
            OpGroup::PushRegister => {
                self.op_push_register();
                return Outcome::new_plain();
            },
            OpGroup::PopRegister => {
                self.op_pop_register();
                return Outcome::new_plain();
            },
            OpGroup::Xchg8 => {
                self.op_xchg8();
                return Outcome::new_plain();
            },
            OpGroup::Xchg16 => {
                self.op_xchg16();
                return Outcome::new_plain();
            },
            OpGroup::Mov8 => {
                self.op_mov8();
                return Outcome::new_plain();
            },
            OpGroup::Mov16 => {
                self.op_mov16();
                return Outcome::new_plain();
            },
            OpGroup::MovSegment => {
                self.op_mov_segment();
                return Outcome::new_plain();
            },
            OpGroup::Lea => {
                self.op_lea();
                return Outcome::new_plain();
            },
            OpGroup::PopMemory => {
                self.op_pop_memory();
                return Outcome::new_plain();
            },
            OpGroup::XchgAx => {
                self.op_xchg_ax();
                return Outcome::new_plain();
            },
            OpGroup::Wait => {
                self.op_wait();
                return Outcome::new_plain();
            },
            OpGroup::Pushf => {
                self.op_pushf();
                return Outcome::new_plain();
            },
            OpGroup::Popf => {
                self.op_popf();
                return Outcome::new_plain();
            },
            OpGroup::Sahf => {
                self.op_sahf();
                return Outcome::new_plain();
            },
            OpGroup::Lahf => {
                self.op_lahf();
                return Outcome::new_plain();
            },
            OpGroup::MovAlFromOffset => {
                self.op_mov_al_from_offset();
                return Outcome::new_plain();
            },
            OpGroup::MovAxFromOffset => {
                self.op_mov_ax_from_offset();
                return Outcome::new_plain();
            },
            OpGroup::MovOffsetFromAl => {
                self.op_mov_offset_from_al();
                return Outcome::new_plain();
            },
            OpGroup::MovOffsetFromAx => {
                self.op_mov_offset_from_ax();
                return Outcome::new_plain();
            },
            OpGroup::MovImmediate8 => {
                self.op_mov_immediate8();
                return Outcome::new_plain();
            },
            OpGroup::MovImmediate16 => {
                self.op_mov_immediate16();
                return Outcome::new_plain();
            },
            OpGroup::Les => {
                self.op_les();
                return Outcome::new_plain();
            },
            OpGroup::Lds => {
                self.op_lds();
                return Outcome::new_plain();
            },
            OpGroup::MovMemoryImmediate8 => {
                self.op_mov_memory_immediate8();
                return Outcome::new_plain();
            },
            OpGroup::MovMemoryImmediate16 => {
                self.op_mov_memory_immediate16();
                return Outcome::new_plain();
            },
            OpGroup::Xlat => {
                self.op_xlat();
                return Outcome::new_plain();
            },
            OpGroup::Esc => {
                self.op_esc();
                return Outcome::new_plain();
            },
            OpGroup::Idle => {
                self.op_idle();
                return Outcome::new_plain();
            },
            OpGroup::Hlt => {
                self.op_hlt();
                return Outcome::new_plain();
            },
            OpGroup::Unhandled => {
                return Outcome::new_unsupported();
            },
            _ => {
                return Outcome::new_plain();
            },
        }
    }

    /// Runs an operation of the family of jumps, loops, calls, returns and interrupts.
    fn dispatch_flow(&mut self, g: OpGroup) -> (outcome: Outcome)
        requires
            old(self).wf(),
            old(self)@.flow_ready(),
            g == old(self)@.group(),
            family_of(g) == OpFamily::Flow,
        ensures
            final(self).wf(),
            final(self)@ == old(self)@.flow_cpu(),
            outcome == old(self)@.flow_outcome(),
    {
        reveal(CpuView::flow_ready);
        reveal(CpuView::flow_cpu);
        reveal(CpuView::flow_outcome);
        match g {
            OpGroup::CallFar => {
                self.op_call_far();
                return Outcome::new_flow(true);
            },
            OpGroup::RetnRelease => {
                self.op_retn_release();
                return Outcome::new_flow(true);
            },
            OpGroup::Retn => {
                self.op_retn();
                return Outcome::new_flow(true);
            },
            OpGroup::RetfRelease => {
                self.op_retf_release();
                return Outcome::new_flow(true);
            },
            OpGroup::Retf => {
                self.op_retf();
                return Outcome::new_flow(true);
            },
            OpGroup::Int3 => {
                self.op_int3();
                return Outcome::new_flow(true);
            },
            OpGroup::Int => {
                self.op_int();
                return Outcome::new_flow(true);
            },
            OpGroup::Into => {
                self.op_into();
                return Outcome::new_flow(true);
            },
            OpGroup::Iret => {
                self.op_iret();
                return Outcome::new_flow(true);
            },
            OpGroup::CallNear => {
                self.op_call_near();
                return Outcome::new_flow(true);
            },
            OpGroup::JmpNear => {
                self.op_jmp_near();
                return Outcome::new_flow(true);
            },
            OpGroup::JmpFar => {
                self.op_jmp_far();
                return Outcome::new_flow(true);
            },
            OpGroup::JmpShort => {
                self.op_jmp_short();
                return Outcome::new_flow(true);
            },
            OpGroup::JumpIf => {
                let taken = self.op_jump_if();
                return Outcome::new_flow(taken);
            },
            OpGroup::Loopne => {
                let taken = self.op_loopne();
                return Outcome::new_flow(taken);
            },
            OpGroup::Loope => {
                let taken = self.op_loope();
                return Outcome::new_flow(taken);
            },
            OpGroup::Loop => {
                let taken = self.op_loop();
                return Outcome::new_flow(taken);
            },
            OpGroup::Jcxz => {
                let taken = self.op_jcxz();
                return Outcome::new_flow(taken);
            },
            OpGroup::Group4 => {
                return self.op_group4();
            },
            OpGroup::Group5 => {
                return self.op_group5();
            },
            _ => {
                return Outcome::new_plain();
            },
        }
    }

    /// Runs an operation of the family of string instructions, IN and OUT.
    fn dispatch_string_io(&mut self, io_bus: &mut IoBusInterface, g: OpGroup) -> (outcome: Outcome)
        requires
            old(self).wf(),
            old(io_bus).wf(),
            old(self)@.string_io_ready(),
            g == old(self)@.group(),
            family_of(g) == OpFamily::StringIo,
        ensures
            final(self).wf(),
            final(io_bus).wf(),
            final(io_bus)@ == old(self)@.string_io_bus(old(io_bus)@),
            final(self)@ == old(self)@.string_io_cpu(old(io_bus)@),
            outcome == old(self)@.string_io_outcome(),
    {
        reveal(CpuView::string_io_ready);
        reveal(CpuView::string_io_cpu);
        reveal(CpuView::string_io_outcome);
        reveal(CpuView::string_io_bus);
        match g {
            OpGroup::Movs => {
                self.op_movs();
                return Outcome::new_plain();
            },
            OpGroup::Cmps => {
                self.op_cmps();
                return Outcome::new_plain();
            },
            OpGroup::Stos => {
                self.op_stos();
                return Outcome::new_plain();
            },
            OpGroup::Lods => {
                self.op_lods();
                return Outcome::new_plain();
            },
            OpGroup::Scas => {
                self.op_scas();
                return Outcome::new_plain();
            },
            OpGroup::InAlImmediate => {
                self.op_in_al_immediate(io_bus);
                return Outcome::new_plain();
            },
            OpGroup::InAxImmediate => {
                self.op_in_ax_immediate(io_bus);
                return Outcome::new_plain();
            },
            OpGroup::OutImmediateAl => {
                self.op_out_immediate_al(io_bus);
                return Outcome::new_plain();
            },
            OpGroup::OutImmediateAx => {
                self.op_out_immediate_ax(io_bus);
                return Outcome::new_plain();
            },
            OpGroup::InAlDx => {
                self.op_in_al_dx(io_bus);
                return Outcome::new_plain();
            },
            OpGroup::InAxDx => {
                self.op_in_ax_dx(io_bus);
                return Outcome::new_plain();
            },
            OpGroup::OutDxAl => {
                self.op_out_dx_al(io_bus);
                return Outcome::new_plain();
            },
            OpGroup::OutDxAx => {
                self.op_out_dx_ax(io_bus);
                return Outcome::new_plain();
            },
            _ => {
                return Outcome::new_plain();
            },
        }
    }

    /// Runs the operation of the opcode.
    fn dispatch(&mut self, io_bus: &mut IoBusInterface) -> (outcome: Outcome)
        requires
            old(self).wf(),
            old(io_bus).wf(),
            old(self)@.can_dispatch(),
        ensures
            final(self).wf(),
            final(io_bus).wf(),
            final(self)@ == old(self)@.dispatch(old(io_bus)@).cpu,
            final(io_bus)@ == old(self)@.dispatch(old(io_bus)@).io,
            outcome == old(self)@.dispatch(old(io_bus)@).outcome,
    {
        let g = op_group(self.i.opcode);
        match op_family(g) {
            OpFamily::Arithmetic => self.dispatch_arithmetic(g),
            OpFamily::Transfer => self.dispatch_transfer(g),
            OpFamily::Flow => self.dispatch_flow(g),
            OpFamily::StringIo => self.dispatch_string_io(io_bus, g),
        }
    }

    fn classify(&self, outcome: Outcome) -> (result: ExecutionResult)
        ensures
            result == self@.classify(outcome),
    {
        if outcome.unhandled {
            ExecutionResult::UnsupportedOpcode(self.i.opcode)
        } else if self.halted && !self.r.flags.interrupt {
            ExecutionResult::Halt
        } else if outcome.jump {
            ExecutionResult::OkayJump
        } else if self.in_rep {
            ExecutionResult::OkayRep
        } else {
            match outcome.exception {
                CpuException::DivideError => ExecutionResult::ExceptionError(
                    CpuException::DivideError,
                ),
                CpuException::NoException => ExecutionResult::Okay,
            }
        }
    }

    /// Executes the decoded instruction in `i`: a REP prefix is honoured and
    /// the delay after STI ends, then the operation of the opcode runs, and
    /// the way it ended is reported.
    pub fn execute_instruction(&mut self, io_bus: &mut IoBusInterface) -> (result: ExecutionResult)
        requires
            old(self).wf(),
            old(io_bus).wf(),
            old(self)@.can_execute(),
        ensures
            final(self).wf(),
            final(io_bus).wf(),
            final(self)@ == old(self)@.execute(old(io_bus)@).cpu,
            final(io_bus)@ == old(self)@.execute(old(io_bus)@).io,
            result == old(self)@.execution_result(old(io_bus)@),
    {
        self.begin_instruction();
        let outcome = self.dispatch(io_bus);
        self.classify(outcome)
    }
}

} // verus!
