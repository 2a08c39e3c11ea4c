//! What can be said of a decoded instruction before it runs: whether the
//! execution unit is defined on it, and which of its prefixes will go unused.

use vstd::prelude::*;
use crate::cpu::alu::is_alu_mnemonic;
use crate::cpu::exec_alu::is_group3_unary;
use crate::cpu::exec_flow::test_condition;
use crate::cpu::exec_group::group_reads_operand;
use crate::cpu::execute::{op_family, OpFamily};
use crate::cpu::instruction::{Mnemonic, OperandType, SegmentOverride};
use crate::cpu::machine::{Cpu, CpuView};
use crate::cpu::opcode::{op_group, OpGroup};
use crate::cpu::operand::{readable16, readable8, readable_farptr};
use crate::cpu::rep::{
    repeats_conditionally, repeats_plainly, saved_count,
};
use crate::cpu::shift::is_shift_mnemonic;
use crate::cpu::string::is_string_mnemonic;

verus! {

/// Whether the operation of a behaviour group makes use of a segment
/// override.
pub open spec fn consumes_override(g: OpGroup) -> bool {
    match g {
        OpGroup::Alu8
        | OpGroup::Alu16
        | OpGroup::Cmp8
        | OpGroup::Cmp16
        | OpGroup::IncRegister
        | OpGroup::DecRegister
        | OpGroup::AluImmediate8
        | OpGroup::AluImmediate16
        | OpGroup::Test8
        | OpGroup::Test16
        | OpGroup::Xchg8
        | OpGroup::Xchg16
        | OpGroup::Mov8
        | OpGroup::Mov16
        | OpGroup::MovSegment
        | OpGroup::PopMemory
        | OpGroup::MovAlFromOffset
        | OpGroup::MovAxFromOffset
        | OpGroup::MovOffsetFromAl
        | OpGroup::MovOffsetFromAx
        | OpGroup::Movs
        | OpGroup::Cmps
        | OpGroup::Lods
        | OpGroup::Les
        | OpGroup::Lds
        | OpGroup::MovMemoryImmediate8
        | OpGroup::MovMemoryImmediate16
        | OpGroup::Shift8By1
        | OpGroup::Shift16By1
        | OpGroup::Shift8ByCl
        | OpGroup::Shift16ByCl
        | OpGroup::Xlat
        | OpGroup::Group3Byte
        | OpGroup::Group3Word
        | OpGroup::Group4
        | OpGroup::Group5 => true,
        _ => false,
    }
}

fn group_consumes_override(g: OpGroup) -> (b: bool)
    ensures
        b == consumes_override(g),
{
    match g {
        OpGroup::Alu8
        | OpGroup::Alu16
        | OpGroup::Cmp8
        | OpGroup::Cmp16
        | OpGroup::IncRegister
        | OpGroup::DecRegister
        | OpGroup::AluImmediate8
        | OpGroup::AluImmediate16
        | OpGroup::Test8
        | OpGroup::Test16
        | OpGroup::Xchg8
        | OpGroup::Xchg16
        | OpGroup::Mov8
        | OpGroup::Mov16
        | OpGroup::MovSegment
        | OpGroup::PopMemory
        | OpGroup::MovAlFromOffset
        | OpGroup::MovAxFromOffset
        | OpGroup::MovOffsetFromAl
        | OpGroup::MovOffsetFromAx
        | OpGroup::Movs
        | OpGroup::Cmps
        | OpGroup::Lods
        | OpGroup::Les
        | OpGroup::Lds
        | OpGroup::MovMemoryImmediate8
        | OpGroup::MovMemoryImmediate16
        | OpGroup::Shift8By1
        | OpGroup::Shift16By1
        | OpGroup::Shift8ByCl
        | OpGroup::Shift16ByCl
        | OpGroup::Xlat
        | OpGroup::Group3Byte
        | OpGroup::Group3Word
        | OpGroup::Group4
        | OpGroup::Group5 => true,
        _ => false,
    }
}

fn can_read8(op: OperandType) -> (b: bool)
    ensures
        b == readable8(op),
{
    match op {
        OperandType::Immediate8(_)
        | OperandType::Offset8(_)
        | OperandType::Register8(_)
        | OperandType::AddressingMode(_) => true,
        _ => false,
    }
}

fn can_read16(op: OperandType) -> (b: bool)
    ensures
        b == readable16(op),
{
    match op {
        OperandType::Immediate16(_)
        | OperandType::Relative16(_)
        | OperandType::Offset16(_)
        | OperandType::Register16(_)
        | OperandType::AddressingMode(_) => true,
        _ => false,
    }
}

fn can_read_farptr(op: OperandType) -> (b: bool)
    ensures
        b == readable_farptr(op),
{
    match op {
        OperandType::FarAddress(_, _) | OperandType::AddressingMode(_) => true,
        _ => false,
    }
}

fn alu_mnemonic(m: Mnemonic) -> (b: bool)
    ensures
        b == is_alu_mnemonic(m),
{
    match m {
        Mnemonic::ADD
        | Mnemonic::ADC
        | Mnemonic::SUB
        | Mnemonic::SBB
        | Mnemonic::CMP
        | Mnemonic::AND
        | Mnemonic::OR
        | Mnemonic::XOR
        | Mnemonic::TEST
        | Mnemonic::NOT
        | Mnemonic::NEG
        | Mnemonic::INC
        | Mnemonic::DEC => true,
        _ => false,
    }
}

fn shift_mnemonic(m: Mnemonic) -> (b: bool)
    ensures
        b == is_shift_mnemonic(m),
{
    match m {
        Mnemonic::ROL
        | Mnemonic::ROR
        | Mnemonic::RCL
        | Mnemonic::RCR
        | Mnemonic::SHL
        | Mnemonic::SHR
        | Mnemonic::SAR => true,
        _ => false,
    }
}

fn string_mnemonic(m: Mnemonic) -> (b: bool)
    ensures
        b == is_string_mnemonic(m),
{
    match m {
        Mnemonic::MOVSB
        | Mnemonic::MOVSW
        | Mnemonic::CMPSB
        | Mnemonic::CMPSW
        | Mnemonic::SCASB
        | Mnemonic::SCASW
        | Mnemonic::LODSB
        | Mnemonic::LODSW
        | Mnemonic::STOSB
        | Mnemonic::STOSW => true,
        _ => false,
    }
}

fn unary_of_group3(m: Mnemonic) -> (b: bool)
    ensures
        b == is_group3_unary(m),
{
    match m {
        Mnemonic::NOT
        | Mnemonic::NEG
        | Mnemonic::MUL
        | Mnemonic::IMUL
        | Mnemonic::DIV
        | Mnemonic::IDIV => true,
        _ => false,
    }
}

fn reads_operand_in_group(m: Mnemonic) -> (b: bool)
    ensures
        b == group_reads_operand(m),
{
    match m {
        Mnemonic::INC | Mnemonic::DEC | Mnemonic::JMP | Mnemonic::PUSH => true,
        _ => false,
    }
}

impl CpuView {
    /// Whether a REP prefix stands in front of an instruction that cannot
    /// repeat. Such a prefix is ignored.
    pub open spec fn rep_prefix_unused(self) -> bool {
        self.i.has_rep_prefix() && !repeats_plainly(self.i.mnemonic) && !repeats_conditionally(
            self.i.mnemonic,
        )
    }

    /// Whether a segment override stands in front of an instruction that
    /// makes no use of it. Such an override is ignored.
    pub open spec fn segment_override_unused(self) -> bool {
        self.i.segment_override != SegmentOverride::NoOverride && !consumes_override(self.group())
    }

    /// Whether a repetition is under way once the instruction has started.
    pub open spec fn begun_in_rep(self) -> bool {
        self.in_rep || (self.i.has_rep_prefix() && (repeats_plainly(self.i.mnemonic)
            || repeats_conditionally(self.i.mnemonic)))
    }

    /// CX once the instruction has started: the saved count where a REP
    /// prefix finds a snapshot that holds one.
    pub open spec fn begun_cx(self) -> u16 {
        if self.i.has_rep_prefix() && self.has_matching_snapshot() {
            match saved_count(self.rep_state.last().2) {
                Some(cx) => cx,
                None => self.r.cx,
            }
        } else {
            self.r.cx
        }
    }
}

/// What the start of an instruction leaves of the state that decides whether
/// the instruction can run.
pub proof fn lemma_begun_state(s: CpuView)
    ensures
        s.begin_instruction().i == s.i,
        s.begin_instruction().r.flags == s.r.flags,
        s.begin_instruction().in_rep == s.begun_in_rep(),
        s.begin_instruction().r.cx == s.begun_cx(),
{
}

impl Cpu {
    /// Whether a REP prefix stands in front of an instruction that cannot
    /// repeat.
    pub fn rep_prefix_unused(&self) -> (b: bool)
        ensures
            b == self@.rep_prefix_unused(),
    {
        (self.i.rep1_prefix() || self.i.rep2_prefix()) && !string_mnemonic(self.i.mnemonic)
    }

    /// Whether a segment override stands in front of an instruction that
    /// makes no use of it.
    pub fn segment_override_unused(&self) -> (b: bool)
        ensures
            b == self@.segment_override_unused(),
    {
        let overridden = match self.i.segment_override {
            SegmentOverride::NoOverride => false,
            _ => true,
        };
        overridden && !group_consumes_override(op_group(self.i.opcode))
    }

    fn reads_bytes(&self) -> (b: bool)
        ensures
            b == self@.reads_bytes(),
    {
        can_read8(self.i.operand1_type) && can_read8(self.i.operand2_type)
    }

    fn reads_words(&self) -> (b: bool)
        ensures
            b == self@.reads_words(),
    {
        can_read16(self.i.operand1_type) && can_read16(self.i.operand2_type)
    }

    fn arithmetic_ready(&self, g: OpGroup) -> (b: bool)
        requires
            g == self@.group(),
        ensures
            b == self@.begin_instruction().arithmetic_ready(),
    {
        proof {
            lemma_begun_state(self@);
            reveal(CpuView::arithmetic_ready);
        }
        let m = self.i.mnemonic;
        let test = match m {
            Mnemonic::TEST => true,
            _ => false,
        };
        match g {
            OpGroup::Alu8 | OpGroup::AluImmediate8 => self.reads_bytes() && alu_mnemonic(m),
            OpGroup::Alu16 | OpGroup::AluImmediate16 => self.reads_words() && alu_mnemonic(m),
            OpGroup::Cmp8 | OpGroup::Test8 => self.reads_bytes(),
            OpGroup::Cmp16 | OpGroup::Test16 => self.reads_words(),
            OpGroup::IncRegister | OpGroup::DecRegister => can_read16(self.i.operand1_type),
            OpGroup::TestAl => can_read8(self.i.operand2_type),
            OpGroup::TestAx => can_read16(self.i.operand2_type),
            OpGroup::Shift8By1 => can_read8(self.i.operand1_type) && shift_mnemonic(m),
            OpGroup::Shift16By1 => can_read16(self.i.operand1_type) && shift_mnemonic(m),
            OpGroup::Shift8ByCl => self.reads_bytes() && shift_mnemonic(m),
            OpGroup::Shift16ByCl => can_read16(self.i.operand1_type) && can_read8(
                self.i.operand2_type,
            ) && shift_mnemonic(m),
            OpGroup::Aad | OpGroup::Aam => can_read8(self.i.operand1_type),
            OpGroup::Group3Byte => (!(test || unary_of_group3(m)) || can_read8(
                self.i.operand1_type,
            )) && (!test || can_read8(self.i.operand2_type)),
            OpGroup::Group3Word => (!(test || unary_of_group3(m)) || can_read16(
                self.i.operand1_type,
            )) && (!test || can_read16(self.i.operand2_type)),
            _ => true,
        }
    }

    fn transfer_ready(&self, g: OpGroup) -> (b: bool)
        requires
            g == self@.group(),
        ensures
            b == self@.begin_instruction().transfer_ready(),
    {
        proof {
            lemma_begun_state(self@);
            reveal(CpuView::transfer_ready);
        }
        match g {
            OpGroup::Xchg8 => self.reads_bytes(),
            OpGroup::Xchg16 => self.reads_words(),
            OpGroup::Mov8 | OpGroup::MovAlFromOffset | OpGroup::MovMemoryImmediate8 => can_read8(
                self.i.operand2_type,
            ),
            OpGroup::Mov16
            | OpGroup::MovSegment
            | OpGroup::MovAxFromOffset
            | OpGroup::MovMemoryImmediate16 => can_read16(self.i.operand2_type),
            OpGroup::Les | OpGroup::Lds => can_read_farptr(self.i.operand2_type),
            _ => true,
        }
    }

    fn flow_ready(&self, g: OpGroup) -> (b: bool)
        requires
            g == self@.group(),
        ensures
            b == self@.begin_instruction().flow_ready(),
    {
        proof {
            lemma_begun_state(self@);
            reveal(CpuView::flow_ready);
        }
        let m = self.i.mnemonic;
        let short = match self.i.operand1_type {
            OperandType::Relative8(_) => true,
            _ => false,
        };
        let near = match self.i.operand1_type {
            OperandType::Relative16(_) => true,
            _ => false,
        };
        let call = match m {
            Mnemonic::CALL => true,
            _ => false,
        };
        let far = match m {
            Mnemonic::CALLF | Mnemonic::JMPF => true,
            _ => false,
        };
        match g {
            OpGroup::RetnRelease | OpGroup::RetfRelease | OpGroup::CallNear => can_read16(
                self.i.operand1_type,
            ),
            OpGroup::Int => can_read8(self.i.operand1_type),
            OpGroup::JmpNear => near,
            OpGroup::JmpShort => short,
            OpGroup::JumpIf => !test_condition(&self.r.flags, self.i.opcode % 16) || short,
            OpGroup::Group4 => !reads_operand_in_group(m) || can_read8(self.i.operand1_type),
            OpGroup::Group5 => (!(reads_operand_in_group(m) || call) || can_read16(
                self.i.operand1_type,
            )) && (!far || can_read_farptr(self.i.operand1_type)),
            _ => true,
        }
    }

    /// Whether a repetition is under way once the instruction has started.
    fn begun_in_rep(&self) -> (b: bool)
        ensures
            b == self@.begun_in_rep(),
    {
        self.in_rep || ((self.i.rep1_prefix() || self.i.rep2_prefix()) && string_mnemonic(
            self.i.mnemonic,
        ))
    }

    /// CX once the instruction has started.
    fn begun_cx(&self) -> (cx: u16)
        ensures
            cx == self@.begun_cx(),
    {
        let n = self.rep_state.len();
        if (self.i.rep1_prefix() || self.i.rep2_prefix()) && n > 0 {
            let newest = self.rep_state[n - 1];
            if newest.0 == self.r.cs && newest.1 == self.r.ip {
                let mut r = self.r;
                crate::cpu::rep::restore_registers(&mut r, newest.2);
                return r.cx;
            }
        }
        self.r.cx
    }

    fn string_io_ready(&self, g: OpGroup) -> (b: bool)
        requires
            g == self@.group(),
        ensures
            b == self@.begin_instruction().string_io_ready(),
    {
        proof {
            lemma_begun_state(self@);
            reveal(CpuView::string_io_ready);
        }
        match g {
            OpGroup::Cmps | OpGroup::Stos | OpGroup::Lods | OpGroup::Scas => {
                let due = !self.begun_in_rep() || self.begun_cx() > 0;
                !due || string_mnemonic(self.i.mnemonic)
            },
            OpGroup::InAlImmediate | OpGroup::InAxImmediate => can_read8(self.i.operand2_type),
            OpGroup::InAlDx | OpGroup::InAxDx => can_read16(self.i.operand2_type),
            OpGroup::OutImmediateAl => self.reads_bytes(),
            OpGroup::OutImmediateAx => can_read8(self.i.operand1_type) && can_read16(
                self.i.operand2_type,
            ),
            OpGroup::OutDxAl => can_read16(self.i.operand1_type) && can_read8(
                self.i.operand2_type,
            ),
            OpGroup::OutDxAx => self.reads_words(),
            _ => true,
        }
    }

    /// Whether `execute_instruction` is defined on the instruction in `i` in
    /// this state: whether the decoder gave the operation operands that it
    /// can read and a mnemonic that it can run.
    pub fn can_execute(&self) -> (ok: bool)
        ensures
            ok == self@.can_execute(),
    {
        proof {
            lemma_begun_state(self@);
        }
        let g = op_group(self.i.opcode);
        match op_family(g) {
            OpFamily::Arithmetic => self.arithmetic_ready(g),
            OpFamily::Transfer => self.transfer_ready(g),
            OpFamily::Flow => self.flow_ready(g),
            OpFamily::StringIo => self.string_io_ready(g),
        }
    }
}

} // verus!
