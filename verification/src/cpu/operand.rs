//! Operands: how an instruction's operand descriptors are read and written,
//! and how the offset of a memory operand is formed.

use vstd::prelude::*;
use crate::cpu::bus::{
    bus_cost, calc_linear_address, linear_address, next_address, next_linear_address,
};
use crate::cpu::instruction::{
    overridden_segment, segment_override, AddressingMode, OperandType, ReadWriteFlag,
    SegmentOverride,
};
use crate::cpu::machine::{BusTiming, Cpu, CpuView, MEMORY_SIZE};
use crate::cpu::registers::{Register16, Segment};

verus! {

/// The base register of an addressing mode: BX, BP, or none.
pub open spec fn mode_base(mode: AddressingMode) -> Register16 {
    match mode {
        AddressingMode::BxSi
        | AddressingMode::BxDi
        | AddressingMode::Bx
        | AddressingMode::BxSiDisp8(_)
        | AddressingMode::BxDiDisp8(_)
        | AddressingMode::BxDisp8(_)
        | AddressingMode::BxSiDisp16(_)
        | AddressingMode::BxDiDisp16(_)
        | AddressingMode::BxDisp16(_) => Register16::BX,
        AddressingMode::BpSi
        | AddressingMode::BpDi
        | AddressingMode::BpSiDisp8(_)
        | AddressingMode::BpDiDisp8(_)
        | AddressingMode::BpDisp8(_)
        | AddressingMode::BpSiDisp16(_)
        | AddressingMode::BpDiDisp16(_)
        | AddressingMode::BpDisp16(_) => Register16::BP,
        _ => Register16::InvalidRegister,
    }
}

/// The index register of an addressing mode: SI, DI, or none.
pub open spec fn mode_index(mode: AddressingMode) -> Register16 {
    match mode {
        AddressingMode::BxSi
        | AddressingMode::BpSi
        | AddressingMode::Si
        | AddressingMode::BxSiDisp8(_)
        | AddressingMode::BpSiDisp8(_)
        | AddressingMode::SiDisp8(_)
        | AddressingMode::BxSiDisp16(_)
        | AddressingMode::BpSiDisp16(_)
        | AddressingMode::SiDisp16(_) => Register16::SI,
        AddressingMode::BxDi
        | AddressingMode::BpDi
        | AddressingMode::Di
        | AddressingMode::BxDiDisp8(_)
        | AddressingMode::BpDiDisp8(_)
        | AddressingMode::DiDisp8(_)
        | AddressingMode::BxDiDisp16(_)
        | AddressingMode::BpDiDisp16(_)
        | AddressingMode::DiDisp16(_) => Register16::DI,
        _ => Register16::InvalidRegister,
    }
}

/// The displacement of an addressing mode, zero where it has none.
pub open spec fn mode_displacement(mode: AddressingMode) -> int {
    match mode {
        AddressingMode::Disp16(d) => d as int,
        AddressingMode::BxSiDisp8(d)
        | AddressingMode::BxDiDisp8(d)
        | AddressingMode::BpSiDisp8(d)
        | AddressingMode::BpDiDisp8(d)
        | AddressingMode::SiDisp8(d)
        | AddressingMode::DiDisp8(d)
        | AddressingMode::BpDisp8(d)
        | AddressingMode::BxDisp8(d) => d as int,
        AddressingMode::BxSiDisp16(d)
        | AddressingMode::BxDiDisp16(d)
        | AddressingMode::BpSiDisp16(d)
        | AddressingMode::BpDiDisp16(d)
        | AddressingMode::SiDisp16(d)
        | AddressingMode::DiDisp16(d)
        | AddressingMode::BpDisp16(d)
        | AddressingMode::BxDisp16(d) => d as int,
        _ => 0,
    }
}

/// Whether the mode's encoding carries a displacement.
pub open spec fn mode_has_displacement(mode: AddressingMode) -> bool {
    match mode {
        AddressingMode::BxSi
        | AddressingMode::BxDi
        | AddressingMode::BpSi
        | AddressingMode::BpDi
        | AddressingMode::Si
        | AddressingMode::Di
        | AddressingMode::Bx => false,
        _ => true,
    }
}

/// The segment that a mode addresses by default: the stack segment where BP
/// is the base, the data segment otherwise.
pub open spec fn mode_segment(mode: AddressingMode) -> Segment {
    if mode_base(mode) == Register16::BP {
        Segment::SS
    } else {
        Segment::DS
    }
}

/// The clock cycles that forming the offset takes.
pub open spec fn mode_cycles(mode: AddressingMode) -> int {
    let base = mode_base(mode);
    let index = mode_index(mode);
    let disp: int = if mode_has_displacement(mode) { 4 } else { 0 };
    if base == Register16::InvalidRegister && index == Register16::InvalidRegister {
        6
    } else if base == Register16::InvalidRegister || index == Register16::InvalidRegister {
        5 + disp
    } else if (base == Register16::BX) == (index == Register16::SI) {
        7 + disp
    } else {
        8 + disp
    }
}

/// Whether an operand can be read as a byte.
pub open spec fn readable8(op: OperandType) -> bool {
    match op {
        OperandType::Immediate8(_)
        | OperandType::Offset8(_)
        | OperandType::Register8(_)
        | OperandType::AddressingMode(_) => true,
        _ => false,
    }
}

/// Whether an operand can be read as a word.
pub open spec fn readable16(op: OperandType) -> bool {
    match op {
        OperandType::Immediate16(_)
        | OperandType::Relative16(_)
        | OperandType::Offset16(_)
        | OperandType::Register16(_)
        | OperandType::AddressingMode(_) => true,
        _ => false,
    }
}

/// Whether an operand names a far pointer, in the instruction or in memory.
pub open spec fn readable_farptr(op: OperandType) -> bool {
    match op {
        OperandType::FarAddress(_, _) | OperandType::AddressingMode(_) => true,
        _ => false,
    }
}

/// Whether an operand lies in memory.
pub open spec fn is_memory_operand(op: OperandType) -> bool {
    op is AddressingMode
}

/// A signed displacement as the 16-bit value that is added to an offset.
#[verifier::opaque]
pub open spec fn displacement_word(d: int) -> u16 {
    (d % 0x1_0000) as u16
}

/// `base` moved by a signed displacement, wrapping within the segment.
#[verifier::opaque]
pub open spec fn relative_offset(base: u16, displacement: int) -> u16 {
    ((base + displacement) % 0x1_0000) as u16
}

impl CpuView {
    /// The offset that the mode addresses.
    pub open spec fn effective_offset(self, mode: AddressingMode) -> u16 {
        ((self.r.get16(mode_base(mode)) + self.r.get16(mode_index(mode)) + mode_displacement(mode))
            % 0x1_0000) as u16
    }

    /// The physical address of a memory operand.
    pub open spec fn effective_address(self, mode: AddressingMode, so: SegmentOverride) -> int {
        linear_address(
            self.r.segment(overridden_segment(so, mode_segment(mode))),
            self.effective_offset(mode),
        )
    }

    /// The physical address of a direct offset in the data segment, or in the
    /// segment of the override.
    pub open spec fn offset_address(self, offset: u16, so: SegmentOverride) -> int {
        linear_address(self.r.segment(overridden_segment(so, Segment::DS)), offset)
    }

    /// The offset of a mode is formed: it is remembered, and its cycles pass.
    pub open spec fn ea_calc(self, mode: AddressingMode) -> CpuView {
        CpuView { last_ea: self.effective_offset(mode), ..self }.spend(mode_cycles(mode))
    }

    /// The byte that an operand holds; zero where it cannot be read as a byte.
    pub open spec fn operand8(self, op: OperandType, so: SegmentOverride) -> u8 {
        match op {
            OperandType::Immediate8(v) => v,
            OperandType::Offset8(offset) => self.byte_at(self.offset_address(offset, so)),
            OperandType::Register8(reg) => self.r.get8(reg),
            OperandType::AddressingMode(mode) => self.byte_at(self.effective_address(mode, so)),
            _ => 0,
        }
    }

    /// The word that an operand holds; zero where it cannot be read as a word.
    pub open spec fn operand16(self, op: OperandType, so: SegmentOverride) -> u16 {
        match op {
            OperandType::Immediate16(v) => v,
            OperandType::Relative16(d) => displacement_word(d as int),
            OperandType::Offset16(offset) => self.word_at(self.offset_address(offset, so)),
            OperandType::Register16(reg) => self.r.get16(reg),
            OperandType::AddressingMode(mode) => self.word_at(self.effective_address(mode, so)),
            _ => 0,
        }
    }

    /// The state after a memory operand was read: the forming of its offset
    /// and `transfers` byte transfers, the last of them as `flag` says.
    pub open spec fn after_memory_read(
        self,
        op: OperandType,
        transfers: int,
        flag: ReadWriteFlag,
    ) -> CpuView {
        match op {
            OperandType::AddressingMode(mode) => self.ea_calc(mode).spend(
                4 * (transfers - 1) + bus_cost(flag),
            ),
            _ => self.spend(4 * (transfers - 1) + bus_cost(flag)),
        }
    }

    /// The state after an operand was read as a byte: only a read from memory
    /// takes time.
    pub open spec fn after_read8(self, op: OperandType) -> CpuView {
        match op {
            OperandType::Offset8(_) | OperandType::AddressingMode(_) => self.after_memory_read(
                op,
                1,
                ReadWriteFlag::Normal,
            ),
            _ => self,
        }
    }

    /// The state after an operand was read as a word.
    pub open spec fn after_read16(self, op: OperandType) -> CpuView {
        match op {
            OperandType::Offset16(_) | OperandType::AddressingMode(_) => self.after_memory_read(
                op,
                2,
                ReadWriteFlag::Normal,
            ),
            _ => self,
        }
    }

    /// The state after a far pointer was read: four byte transfers where it
    /// lies in memory.
    pub open spec fn after_read_farptr(self, op: OperandType, flag: ReadWriteFlag) -> CpuView {
        match op {
            OperandType::AddressingMode(_) => self.after_memory_read(op, 4, flag),
            _ => self,
        }
    }

    /// The state after a byte was written to an operand. A write to an
    /// operand that is neither a register nor in memory changes nothing.
    pub open spec fn write8(
        self,
        op: OperandType,
        so: SegmentOverride,
        value: u8,
        flag: ReadWriteFlag,
    ) -> CpuView {
        match op {
            OperandType::Offset8(offset) => self.bus_write_u8(
                self.offset_address(offset, so),
                value,
                flag,
            ),
            OperandType::Register8(reg) => self.with_regs(self.r.set8(reg, value)),
            OperandType::AddressingMode(mode) => self.ea_calc(mode).bus_write_u8(
                self.effective_address(mode, so),
                value,
                flag,
            ),
            _ => self,
        }
    }

    /// The state after a word was written to an operand.
    pub open spec fn write16(
        self,
        op: OperandType,
        so: SegmentOverride,
        value: u16,
        flag: ReadWriteFlag,
    ) -> CpuView {
        match op {
            OperandType::Offset16(offset) => self.bus_write_u16(
                self.offset_address(offset, so),
                value,
                flag,
            ),
            OperandType::Register16(reg) => self.with_regs(self.r.set16(reg, value)),
            OperandType::AddressingMode(mode) => self.ea_calc(mode).bus_write_u16(
                self.effective_address(mode, so),
                value,
                flag,
            ),
            _ => self,
        }
    }

    /// The far pointer that an operand names, as (segment, offset): the one in
    /// the instruction, or the two words in memory, offset first.
    pub open spec fn operand_farptr(self, op: OperandType, so: SegmentOverride) -> (u16, u16) {
        match op {
            OperandType::FarAddress(segment, offset) => (segment, offset),
            OperandType::AddressingMode(mode) => {
                let addr = self.effective_address(mode, so);
                (self.word_at(next_address(next_address(addr))), self.word_at(addr))
            },
            _ => (0, 0),
        }
    }
}

fn base_register(mode: AddressingMode) -> (r: Register16)
    ensures
        r == mode_base(mode),
{
    match mode {
        AddressingMode::BxSi
        | AddressingMode::BxDi
        | AddressingMode::Bx
        | AddressingMode::BxSiDisp8(_)
        | AddressingMode::BxDiDisp8(_)
        | AddressingMode::BxDisp8(_)
        | AddressingMode::BxSiDisp16(_)
        | AddressingMode::BxDiDisp16(_)
        | AddressingMode::BxDisp16(_) => Register16::BX,
        AddressingMode::BpSi
        | AddressingMode::BpDi
        | AddressingMode::BpSiDisp8(_)
        | AddressingMode::BpDiDisp8(_)
        | AddressingMode::BpDisp8(_)
        | AddressingMode::BpSiDisp16(_)
        | AddressingMode::BpDiDisp16(_)
        | AddressingMode::BpDisp16(_) => Register16::BP,
        _ => Register16::InvalidRegister,
    }
}

fn index_register(mode: AddressingMode) -> (r: Register16)
    ensures
        r == mode_index(mode),
{
    match mode {
        AddressingMode::BxSi
        | AddressingMode::BpSi
        | AddressingMode::Si
        | AddressingMode::BxSiDisp8(_)
        | AddressingMode::BpSiDisp8(_)
        | AddressingMode::SiDisp8(_)
        | AddressingMode::BxSiDisp16(_)
        | AddressingMode::BpSiDisp16(_)
        | AddressingMode::SiDisp16(_) => Register16::SI,
        AddressingMode::BxDi
        | AddressingMode::BpDi
        | AddressingMode::Di
        | AddressingMode::BxDiDisp8(_)
        | AddressingMode::BpDiDisp8(_)
        | AddressingMode::DiDisp8(_)
        | AddressingMode::BxDiDisp16(_)
        | AddressingMode::BpDiDisp16(_)
        | AddressingMode::DiDisp16(_) => Register16::DI,
        _ => Register16::InvalidRegister,
    }
}

/// The displacement of a mode as a 16-bit two's complement value.
fn displacement_of(mode: AddressingMode) -> (d: u16)
    ensures
        d == displacement_word(mode_displacement(mode)),
{
    reveal(displacement_word);
    match mode {
        AddressingMode::Disp16(d) => d,
        AddressingMode::BxSiDisp8(d)
        | AddressingMode::BxDiDisp8(d)
        | AddressingMode::BpSiDisp8(d)
        | AddressingMode::BpDiDisp8(d)
        | AddressingMode::SiDisp8(d)
        | AddressingMode::DiDisp8(d)
        | AddressingMode::BpDisp8(d)
        | AddressingMode::BxDisp8(d) => word_of_displacement(d as i32),
        AddressingMode::BxSiDisp16(d)
        | AddressingMode::BxDiDisp16(d)
        | AddressingMode::BpSiDisp16(d)
        | AddressingMode::BpDiDisp16(d)
        | AddressingMode::SiDisp16(d)
        | AddressingMode::DiDisp16(d)
        | AddressingMode::BpDisp16(d)
        | AddressingMode::BxDisp16(d) => word_of_displacement(d as i32),
        _ => 0,
    }
}

fn has_displacement(mode: AddressingMode) -> (b: bool)
    ensures
        b == mode_has_displacement(mode),
{
    match mode {
        AddressingMode::BxSi
        | AddressingMode::BxDi
        | AddressingMode::BpSi
        | AddressingMode::BpDi
        | AddressingMode::Si
        | AddressingMode::Di
        | AddressingMode::Bx => false,
        _ => true,
    }
}

fn cycles_of_mode(mode: AddressingMode) -> (n: u32)
    ensures
        n == mode_cycles(mode),
{
    let base = base_register(mode);
    let index = index_register(mode);
    let disp: u32 = if has_displacement(mode) { 4 } else { 0 };
    let no_base = base == Register16::InvalidRegister;
    let no_index = index == Register16::InvalidRegister;
    if no_base && no_index {
        6
    } else if no_base || no_index {
        5 + disp
    } else if (base == Register16::BX) == (index == Register16::SI) {
        7 + disp
    } else {
        8 + disp
    }
}

/// A signed displacement as a 16-bit two's complement value.
pub fn word_of_displacement(d: i32) -> (w: u16)
    requires
        -0x8000 <= d < 0x8000,
    ensures
        w == displacement_word(d as int),
{
    reveal(displacement_word);
    if d < 0 {
        (d + 0x1_0000) as u16
    } else {
        d as u16
    }
}

/// Moves an offset by a signed displacement, wrapping at 64 KiB.
pub fn relative_offset_u16(base: u16, displacement: i32) -> (r: u16)
    requires
        -0x1_0000 <= displacement <= 0x1_0000,
    ensures
        r == relative_offset(base, displacement as int),
{
    reveal(relative_offset);
    let sum: i32 = base as i32 + displacement;
    if sum < 0 {
        (sum + 0x1_0000) as u16
    } else if sum >= 0x1_0000 {
        if sum >= 0x2_0000 {
            (sum - 0x2_0000) as u16
        } else {
            (sum - 0x1_0000) as u16
        }
    } else {
        sum as u16
    }
}

impl Cpu {
    /// Forms the offset of a memory operand. Returns the segment's value, the
    /// segment and the offset.
    pub fn calc_effective_address(&mut self, mode: AddressingMode, so: SegmentOverride) -> (ea: (
        u16,
        Segment,
        u16,
    ))
        requires
            old(self).wf(),
        ensures
            final(self)@ == old(self)@.ea_calc(mode),
            final(self).wf(),
            ea.1 == overridden_segment(so, mode_segment(mode)),
            ea.0 == old(self)@.r.segment(ea.1),
            ea.2 == old(self)@.effective_offset(mode),
            linear_address(ea.0, ea.2) == old(self)@.effective_address(mode, so),
    {
        reveal(displacement_word);
        let base = self.r.get_register16(base_register(mode));
        let index = self.r.get_register16(index_register(mode));
        let disp = displacement_of(mode);
        let offset: u16 = ((base as u32 + index as u32 + disp as u32) % 0x1_0000) as u16;
        let default = if base_register(mode) == Register16::BP {
            Segment::SS
        } else {
            Segment::DS
        };
        let segment = segment_override(so, default);
        let segment_value = self.r.get_segment(segment);
        self.last_ea = offset;
        self.cycles(cycles_of_mode(mode));
        (segment_value, segment, offset)
    }

    /// The offset of a memory operand, for LEA; `None` for any other operand.
    pub fn load_effective_address(&mut self, op: OperandType) -> (offset: Option<u16>)
        requires
            old(self).wf(),
        ensures
            final(self).wf(),
            match op {
                OperandType::AddressingMode(mode) => offset == Some(
                    old(self)@.effective_offset(mode),
                ) && final(self)@ == old(self)@.ea_calc(mode),
                _ => offset.is_none() && final(self)@ == old(self)@,
            },
    {
        match op {
            OperandType::AddressingMode(mode) => {
                let ea = self.calc_effective_address(mode, SegmentOverride::NoOverride);
                Some(ea.2)
            },
            _ => None,
        }
    }

    fn direct_address(&self, offset: u16, so: SegmentOverride) -> (addr: u32)
        ensures
            addr == self@.offset_address(offset, so),
            addr < MEMORY_SIZE,
    {
        let segment = segment_override(so, Segment::DS);
        calc_linear_address(self.r.get_segment(segment), offset)
    }

    /// Reads an operand as a byte; `None` where it cannot be read as one.
    pub fn read_operand8(&mut self, op: OperandType, so: SegmentOverride) -> (value: Option<u8>)
        requires
            old(self).wf(),
        ensures
            final(self).wf(),
            value.is_some() == readable8(op),
            readable8(op) ==> value == Some(old(self)@.operand8(op, so)),
            final(self)@ == old(self)@.after_read8(op),
    {
        match op {
            OperandType::Immediate8(v) => Some(v),
            OperandType::Offset8(offset) => {
                let addr = self.direct_address(offset, so);
                Some(self.biu_read_u8(addr, ReadWriteFlag::Normal))
            },
            OperandType::Register8(reg) => Some(self.r.get_register8(reg)),
            OperandType::AddressingMode(mode) => {
                let ea = self.calc_effective_address(mode, so);
                let addr = calc_linear_address(ea.0, ea.2);
                Some(self.biu_read_u8(addr, ReadWriteFlag::Normal))
            },
            _ => None,
        }
    }

    /// Reads an operand as a word; `None` where it cannot be read as one.
    pub fn read_operand16(&mut self, op: OperandType, so: SegmentOverride) -> (value: Option<u16>)
        requires
            old(self).wf(),
        ensures
            final(self).wf(),
            value.is_some() == readable16(op),
            readable16(op) ==> value == Some(old(self)@.operand16(op, so)),
            final(self)@ == old(self)@.after_read16(op),
    {
        match op {
            OperandType::Immediate16(v) => Some(v),
            OperandType::Relative16(d) => Some(word_of_displacement(d as i32)),
            OperandType::Offset16(offset) => {
                let addr = self.direct_address(offset, so);
                Some(self.biu_read_u16(addr, ReadWriteFlag::Normal))
            },
            OperandType::Register16(reg) => Some(self.r.get_register16(reg)),
            OperandType::AddressingMode(mode) => {
                let ea = self.calc_effective_address(mode, so);
                let addr = calc_linear_address(ea.0, ea.2);
                Some(self.biu_read_u16(addr, ReadWriteFlag::Normal))
            },
            _ => None,
        }
    }

    /// Writes a byte to an operand.
    pub fn write_operand8(
        &mut self,
        op: OperandType,
        so: SegmentOverride,
        value: u8,
        flag: ReadWriteFlag,
    )
        requires
            old(self).wf(),
        ensures
            final(self).wf(),
            final(self)@ == old(self)@.write8(op, so, value, flag),
    {
        match op {
            OperandType::Offset8(offset) => {
                let addr = self.direct_address(offset, so);
                self.biu_write_u8(addr, value, flag);
            },
            OperandType::Register8(reg) => self.r.set_register8(reg, value),
            OperandType::AddressingMode(mode) => {
                let ea = self.calc_effective_address(mode, so);
                let addr = calc_linear_address(ea.0, ea.2);
                self.biu_write_u8(addr, value, flag);
            },
            _ => {},
        }
    }

    /// Writes a word to an operand.
    pub fn write_operand16(
        &mut self,
        op: OperandType,
        so: SegmentOverride,
        value: u16,
        flag: ReadWriteFlag,
    )
        requires
            old(self).wf(),
        ensures
            final(self).wf(),
            final(self)@ == old(self)@.write16(op, so, value, flag),
    {
        match op {
            OperandType::Offset16(offset) => {
                let addr = self.direct_address(offset, so);
                self.biu_write_u16(addr, value, flag);
            },
            OperandType::Register16(reg) => self.r.set_register16(reg, value),
            OperandType::AddressingMode(mode) => {
                let ea = self.calc_effective_address(mode, so);
                let addr = calc_linear_address(ea.0, ea.2);
                self.biu_write_u16(addr, value, flag);
            },
            _ => {},
        }
    }

    /// Reads a far pointer as (segment, offset); `None` where the operand
    /// names none.
    pub fn read_operand_farptr(
        &mut self,
        op: OperandType,
        so: SegmentOverride,
        flag: ReadWriteFlag,
    ) -> (ptr: Option<(u16, u16)>)
        requires
            old(self).wf(),
        ensures
            final(self).wf(),
            ptr.is_some() == readable_farptr(op),
            readable_farptr(op) ==> ptr == Some(old(self)@.operand_farptr(op, so)),
            final(self)@ == old(self)@.after_read_farptr(op, flag),
    {
        match op {
            OperandType::FarAddress(segment, offset) => Some((segment, offset)),
            OperandType::AddressingMode(mode) => {
                let ea = self.calc_effective_address(mode, so);
                let addr = calc_linear_address(ea.0, ea.2);
                let offset = self.biu_read_u16(addr, ReadWriteFlag::Normal);
                let segment_addr = next_linear_address(next_linear_address(addr));
                let segment = self.biu_read_u16(segment_addr, flag);
                proof {
                    reveal(BusTiming::spend);
                }
                Some((segment, offset))
            },
            _ => None,
        }
    }
}

} // verus!
