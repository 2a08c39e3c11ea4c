//! The behaviour groups of the opcode space. Every opcode byte belongs to
//! exactly one group; the group decides which operation runs.

use vstd::prelude::*;
use crate::cpu::instruction::CpuException;
use crate::cpu::registers::Register16;

verus! {

/// What an operation reports besides the state it leaves: whether control
/// flow changed, whether the instruction has no behaviour, and whether an
/// exception was raised.
#[derive(Copy, Clone, Debug, PartialEq, Eq, Structural)]
pub struct Outcome {
    pub jump: bool,
    pub unhandled: bool,
    pub exception: CpuException,
}

impl Outcome {
    /// Nothing to report.
    pub open spec fn plain() -> Outcome {
        Outcome { jump: false, unhandled: false, exception: CpuException::NoException }
    }

    /// Control flow changed if `taken`.
    pub open spec fn flow(taken: bool) -> Outcome {
        Outcome { jump: taken, unhandled: false, exception: CpuException::NoException }
    }

    /// The instruction has no behaviour.
    pub open spec fn unsupported() -> Outcome {
        Outcome { jump: false, unhandled: true, exception: CpuException::NoException }
    }

    /// A divide error was raised if `failed`.
    pub open spec fn divide(failed: bool) -> Outcome {
        Outcome {
            jump: false,
            unhandled: false,
            exception: if failed {
                CpuException::DivideError
            } else {
                CpuException::NoException
            },
        }
    }

    /// Nothing to report.
    pub fn new_plain() -> (o: Outcome)
        ensures
            o == Outcome::plain(),
    {
        Outcome { jump: false, unhandled: false, exception: CpuException::NoException }
    }

    /// Control flow changed if `taken`.
    pub fn new_flow(taken: bool) -> (o: Outcome)
        ensures
            o == Outcome::flow(taken),
    {
        Outcome { jump: taken, unhandled: false, exception: CpuException::NoException }
    }

    /// The instruction has no behaviour.
    pub fn new_unsupported() -> (o: Outcome)
        ensures
            o == Outcome::unsupported(),
    {
        Outcome { jump: false, unhandled: true, exception: CpuException::NoException }
    }

    /// A divide error was raised if `failed`.
    pub fn new_divide(failed: bool) -> (o: Outcome)
        ensures
            o == Outcome::divide(failed),
    {
        Outcome {
            jump: false,
            unhandled: false,
            exception: if failed {
                CpuException::DivideError
            } else {
                CpuException::NoException
            },
        }
    }
}

#[derive(Copy, Clone, Debug, PartialEq, Eq, Structural)]
pub enum OpGroup {
    /// ADD, OR, ADC, SBB, AND, SUB, XOR on bytes.
    Alu8,
    /// ADD, OR, ADC, SBB, AND, SUB, XOR on words.
    Alu16,
    PushSegment,
    PopSegment,
    /// A segment override that was decoded as an instruction of its own.
    SegmentPrefix,
    Daa,
    Das,
    Aaa,
    Aas,
    Cmp8,
    Cmp16,
    IncRegister,
    DecRegister,
    PushRegister,
    PopRegister,
    /// The conditional short jumps, 0x70 to 0x7F, and their aliases 0x60 to
    /// 0x6F.
    JumpIf,
    AluImmediate8,
    AluImmediate16,
    Test8,
    Test16,
    Xchg8,
    Xchg16,
    Mov8,
    Mov16,
    MovSegment,
    Lea,
    PopMemory,
    XchgAx,
    Cbw,
    Cwd,
    CallFar,
    Wait,
    Pushf,
    Popf,
    Sahf,
    Lahf,
    MovAlFromOffset,
    MovAxFromOffset,
    MovOffsetFromAl,
    MovOffsetFromAx,
    Movs,
    Cmps,
    TestAl,
    TestAx,
    Stos,
    Lods,
    Scas,
    MovImmediate8,
    MovImmediate16,
    /// RETN with a count of bytes to release, and its alias 0xC0.
    RetnRelease,
    /// RETN, and its alias 0xC1.
    Retn,
    Les,
    Lds,
    MovMemoryImmediate8,
    MovMemoryImmediate16,
    /// RETF with a count of bytes to release, and its alias 0xC8.
    RetfRelease,
    /// RETF, and its alias 0xC9.
    Retf,
    Int3,
    Int,
    Into,
    Iret,
    Shift8By1,
    Shift16By1,
    Shift8ByCl,
    Shift16ByCl,
    Aam,
    Aad,
    Salc,
    Xlat,
    Esc,
    Loopne,
    Loope,
    Loop,
    Jcxz,
    InAlImmediate,
    InAxImmediate,
    OutImmediateAl,
    OutImmediateAx,
    CallNear,
    JmpNear,
    JmpFar,
    JmpShort,
    InAlDx,
    InAxDx,
    OutDxAl,
    OutDxAx,
    /// LOCK and the REP prefixes decoded as instructions of their own: not
    /// executed.
    Unhandled,
    /// 0xF1, which takes one cycle and does nothing.
    Idle,
    Hlt,
    Cmc,
    /// 0xF6: TEST, NOT, NEG, MUL, IMUL, DIV, IDIV on bytes.
    Group3Byte,
    /// 0xF7: the same on words.
    Group3Word,
    Clc,
    Stc,
    Cli,
    Sti,
    Cld,
    Std,
    /// 0xFE: INC and DEC on bytes, and the byte forms of CALL, JMP and PUSH.
    Group4,
    /// 0xFF: INC, DEC, CALL, CALLF, JMP, JMPF, PUSH on words.
    Group5,
}

/// The group of an opcode in the first quarter of the opcode space, where
/// the low three bits choose the form.
pub open spec fn low_group_of(opcode: u8) -> OpGroup {
    let form = opcode % 8;
    if form == 6 {
        if opcode < 0x20 {
            OpGroup::PushSegment
        } else {
            OpGroup::SegmentPrefix
        }
    } else if form == 7 {
        if opcode < 0x20 {
            OpGroup::PopSegment
        } else if opcode == 0x27 {
            OpGroup::Daa
        } else if opcode == 0x2F {
            OpGroup::Das
        } else if opcode == 0x37 {
            OpGroup::Aaa
        } else {
            OpGroup::Aas
        }
    } else if opcode >= 0x38 {
        if form % 2 == 0 {
            OpGroup::Cmp8
        } else {
            OpGroup::Cmp16
        }
    } else if form % 2 == 0 {
        OpGroup::Alu8
    } else {
        OpGroup::Alu16
    }
}

/// The group of an opcode from 0x80 to 0x9F.
pub open spec fn group_of_8x_9x(opcode: u8) -> OpGroup {
    if opcode == 0x80 || opcode == 0x82 {
        OpGroup::AluImmediate8
    } else if opcode == 0x81 || opcode == 0x83 {
        OpGroup::AluImmediate16
    } else if opcode == 0x84 {
        OpGroup::Test8
    } else if opcode == 0x85 {
        OpGroup::Test16
    } else if opcode == 0x86 {
        OpGroup::Xchg8
    } else if opcode == 0x87 {
        OpGroup::Xchg16
    } else if opcode == 0x88 || opcode == 0x8A {
        OpGroup::Mov8
    } else if opcode == 0x89 || opcode == 0x8B {
        OpGroup::Mov16
    } else if opcode == 0x8C || opcode == 0x8E {
        OpGroup::MovSegment
    } else if opcode == 0x8D {
        OpGroup::Lea
    } else if opcode == 0x8F {
        OpGroup::PopMemory
    } else if opcode <= 0x97 {
        OpGroup::XchgAx
    } else if opcode == 0x98 {
        OpGroup::Cbw
    } else if opcode == 0x99 {
        OpGroup::Cwd
    } else if opcode == 0x9A {
        OpGroup::CallFar
    } else if opcode == 0x9B {
        OpGroup::Wait
    } else if opcode == 0x9C {
        OpGroup::Pushf
    } else if opcode == 0x9D {
        OpGroup::Popf
    } else if opcode == 0x9E {
        OpGroup::Sahf
    } else {
        OpGroup::Lahf
    }
}

/// The group of an opcode from 0xA0 to 0xCF.
pub open spec fn group_of_ax_cx(opcode: u8) -> OpGroup {
    if opcode == 0xA0 {
        OpGroup::MovAlFromOffset
    } else if opcode == 0xA1 {
        OpGroup::MovAxFromOffset
    } else if opcode == 0xA2 {
        OpGroup::MovOffsetFromAl
    } else if opcode == 0xA3 {
        OpGroup::MovOffsetFromAx
    } else if opcode <= 0xA5 {
        OpGroup::Movs
    } else if opcode <= 0xA7 {
        OpGroup::Cmps
    } else if opcode == 0xA8 {
        OpGroup::TestAl
    } else if opcode == 0xA9 {
        OpGroup::TestAx
    } else if opcode <= 0xAB {
        OpGroup::Stos
    } else if opcode <= 0xAD {
        OpGroup::Lods
    } else if opcode <= 0xAF {
        OpGroup::Scas
    } else if opcode <= 0xB7 {
        OpGroup::MovImmediate8
    } else if opcode <= 0xBF {
        OpGroup::MovImmediate16
    } else if opcode == 0xC0 || opcode == 0xC2 {
        OpGroup::RetnRelease
    } else if opcode == 0xC1 || opcode == 0xC3 {
        OpGroup::Retn
    } else if opcode == 0xC4 {
        OpGroup::Les
    } else if opcode == 0xC5 {
        OpGroup::Lds
    } else if opcode == 0xC6 {
        OpGroup::MovMemoryImmediate8
    } else if opcode == 0xC7 {
        OpGroup::MovMemoryImmediate16
    } else if opcode == 0xC8 || opcode == 0xCA {
        OpGroup::RetfRelease
    } else if opcode == 0xC9 || opcode == 0xCB {
        OpGroup::Retf
    } else if opcode == 0xCC {
        OpGroup::Int3
    } else if opcode == 0xCD {
        OpGroup::Int
    } else if opcode == 0xCE {
        OpGroup::Into
    } else {
        OpGroup::Iret
    }
}

/// The group of an opcode from 0xD0 to 0xEF.
pub open spec fn group_of_dx_ex(opcode: u8) -> OpGroup {
    if opcode == 0xD0 {
        OpGroup::Shift8By1
    } else if opcode == 0xD1 {
        OpGroup::Shift16By1
    } else if opcode == 0xD2 {
        OpGroup::Shift8ByCl
    } else if opcode == 0xD3 {
        OpGroup::Shift16ByCl
    } else if opcode == 0xD4 {
        OpGroup::Aam
    } else if opcode == 0xD5 {
        OpGroup::Aad
    } else if opcode == 0xD6 {
        OpGroup::Salc
    } else if opcode == 0xD7 {
        OpGroup::Xlat
    } else if opcode <= 0xDF {
        OpGroup::Esc
    } else if opcode == 0xE0 {
        OpGroup::Loopne
    } else if opcode == 0xE1 {
        OpGroup::Loope
    } else if opcode == 0xE2 {
        OpGroup::Loop
    } else if opcode == 0xE3 {
        OpGroup::Jcxz
    } else if opcode == 0xE4 {
        OpGroup::InAlImmediate
    } else if opcode == 0xE5 {
        OpGroup::InAxImmediate
    } else if opcode == 0xE6 {
        OpGroup::OutImmediateAl
    } else if opcode == 0xE7 {
        OpGroup::OutImmediateAx
    } else if opcode == 0xE8 {
        OpGroup::CallNear
    } else if opcode == 0xE9 {
        OpGroup::JmpNear
    } else if opcode == 0xEA {
        OpGroup::JmpFar
    } else if opcode == 0xEB {
        OpGroup::JmpShort
    } else if opcode == 0xEC {
        OpGroup::InAlDx
    } else if opcode == 0xED {
        OpGroup::InAxDx
    } else if opcode == 0xEE {
        OpGroup::OutDxAl
    } else {
        OpGroup::OutDxAx
    }
}

/// The group of an opcode from 0xF0 to 0xFF.
pub open spec fn group_of_fx(opcode: u8) -> OpGroup {
    if opcode == 0xF0 || opcode == 0xF2 || opcode == 0xF3 {
        OpGroup::Unhandled
    } else if opcode == 0xF1 {
        OpGroup::Idle
    } else if opcode == 0xF4 {
        OpGroup::Hlt
    } else if opcode == 0xF5 {
        OpGroup::Cmc
    } else if opcode == 0xF6 {
        OpGroup::Group3Byte
    } else if opcode == 0xF7 {
        OpGroup::Group3Word
    } else if opcode == 0xF8 {
        OpGroup::Clc
    } else if opcode == 0xF9 {
        OpGroup::Stc
    } else if opcode == 0xFA {
        OpGroup::Cli
    } else if opcode == 0xFB {
        OpGroup::Sti
    } else if opcode == 0xFC {
        OpGroup::Cld
    } else if opcode == 0xFD {
        OpGroup::Std
    } else if opcode == 0xFE {
        OpGroup::Group4
    } else {
        OpGroup::Group5
    }
}

/// The group of an opcode.
pub open spec fn op_group_of(opcode: u8) -> OpGroup {
    if opcode < 0x40 {
        low_group_of(opcode)
    } else if opcode < 0x48 {
        OpGroup::IncRegister
    } else if opcode < 0x50 {
        OpGroup::DecRegister
    } else if opcode < 0x58 {
        OpGroup::PushRegister
    } else if opcode < 0x60 {
        OpGroup::PopRegister
    } else if opcode < 0x80 {
        OpGroup::JumpIf
    } else if opcode < 0xA0 {
        group_of_8x_9x(opcode)
    } else if opcode < 0xD0 {
        group_of_ax_cx(opcode)
    } else if opcode < 0xF0 {
        group_of_dx_ex(opcode)
    } else {
        group_of_fx(opcode)
    }
}

/// The segment register that a PUSH or POP of the first quarter names.
pub open spec fn segment_of_opcode(opcode: u8) -> Register16 {
    if opcode < 0x08 {
        Register16::ES
    } else if opcode < 0x10 {
        Register16::CS
    } else if opcode < 0x18 {
        Register16::SS
    } else {
        Register16::DS
    }
}

/// The segment register that a PUSH or POP of the first quarter names.
pub fn segment_register_of(opcode: u8) -> (r: Register16)
    ensures
        r == segment_of_opcode(opcode),
{
    if opcode < 0x08 {
        Register16::ES
    } else if opcode < 0x10 {
        Register16::CS
    } else if opcode < 0x18 {
        Register16::SS
    } else {
        Register16::DS
    }
}

fn low_group(opcode: u8) -> (g: OpGroup)
    ensures
        g == low_group_of(opcode),
{
    let form = opcode % 8;
    if form == 6 {
        if opcode < 0x20 {
            OpGroup::PushSegment
        } else {
            OpGroup::SegmentPrefix
        }
    } else if form == 7 {
        if opcode < 0x20 {
            OpGroup::PopSegment
        } else if opcode == 0x27 {
            OpGroup::Daa
        } else if opcode == 0x2F {
            OpGroup::Das
        } else if opcode == 0x37 {
            OpGroup::Aaa
        } else {
            OpGroup::Aas
        }
    } else if opcode >= 0x38 {
        if form % 2 == 0 {
            OpGroup::Cmp8
        } else {
            OpGroup::Cmp16
        }
    } else if form % 2 == 0 {
        OpGroup::Alu8
    } else {
        OpGroup::Alu16
    }
}

fn group_8x_9x(opcode: u8) -> (g: OpGroup)
    ensures
        g == group_of_8x_9x(opcode),
{
    if opcode == 0x80 || opcode == 0x82 {
        OpGroup::AluImmediate8
    } else if opcode == 0x81 || opcode == 0x83 {
        OpGroup::AluImmediate16
    } else if opcode == 0x84 {
        OpGroup::Test8
    } else if opcode == 0x85 {
        OpGroup::Test16
    } else if opcode == 0x86 {
        OpGroup::Xchg8
    } else if opcode == 0x87 {
        OpGroup::Xchg16
    } else if opcode == 0x88 || opcode == 0x8A {
        OpGroup::Mov8
    } else if opcode == 0x89 || opcode == 0x8B {
        OpGroup::Mov16
    } else if opcode == 0x8C || opcode == 0x8E {
        OpGroup::MovSegment
    } else if opcode == 0x8D {
        OpGroup::Lea
    } else if opcode == 0x8F {
        OpGroup::PopMemory
    } else if opcode <= 0x97 {
        OpGroup::XchgAx
    } else if opcode == 0x98 {
        OpGroup::Cbw
    } else if opcode == 0x99 {
        OpGroup::Cwd
    } else if opcode == 0x9A {
        OpGroup::CallFar
    } else if opcode == 0x9B {
        OpGroup::Wait
    } else if opcode == 0x9C {
        OpGroup::Pushf
    } else if opcode == 0x9D {
        OpGroup::Popf
    } else if opcode == 0x9E {
        OpGroup::Sahf
    } else {
        OpGroup::Lahf
    }
}

fn group_ax_cx(opcode: u8) -> (g: OpGroup)
    ensures
        g == group_of_ax_cx(opcode),
{
    if opcode == 0xA0 {
        OpGroup::MovAlFromOffset
    } else if opcode == 0xA1 {
        OpGroup::MovAxFromOffset
    } else if opcode == 0xA2 {
        OpGroup::MovOffsetFromAl
    } else if opcode == 0xA3 {
        OpGroup::MovOffsetFromAx
    } else if opcode <= 0xA5 {
        OpGroup::Movs
    } else if opcode <= 0xA7 {
        OpGroup::Cmps
    } else if opcode == 0xA8 {
        OpGroup::TestAl
    } else if opcode == 0xA9 {
        OpGroup::TestAx
    } else if opcode <= 0xAB {
        OpGroup::Stos
    } else if opcode <= 0xAD {
        OpGroup::Lods
    } else if opcode <= 0xAF {
        OpGroup::Scas
    } else if opcode <= 0xB7 {
        OpGroup::MovImmediate8
    } else if opcode <= 0xBF {
        OpGroup::MovImmediate16
    } else if opcode == 0xC0 || opcode == 0xC2 {
        OpGroup::RetnRelease
    } else if opcode == 0xC1 || opcode == 0xC3 {
        OpGroup::Retn
    } else if opcode == 0xC4 {
        OpGroup::Les
    } else if opcode == 0xC5 {
        OpGroup::Lds
    } else if opcode == 0xC6 {
        OpGroup::MovMemoryImmediate8
    } else if opcode == 0xC7 {
        OpGroup::MovMemoryImmediate16
    } else if opcode == 0xC8 || opcode == 0xCA {
        OpGroup::RetfRelease
    } else if opcode == 0xC9 || opcode == 0xCB {
        OpGroup::Retf
    } else if opcode == 0xCC {
        OpGroup::Int3
    } else if opcode == 0xCD {
        OpGroup::Int
    } else if opcode == 0xCE {
        OpGroup::Into
    } else {
        OpGroup::Iret
    }
}

fn group_dx_ex(opcode: u8) -> (g: OpGroup)
    ensures
        g == group_of_dx_ex(opcode),
{
    if opcode == 0xD0 {
        OpGroup::Shift8By1
    } else if opcode == 0xD1 {
        OpGroup::Shift16By1
    } else if opcode == 0xD2 {
        OpGroup::Shift8ByCl
    } else if opcode == 0xD3 {
        OpGroup::Shift16ByCl
    } else if opcode == 0xD4 {
        OpGroup::Aam
    } else if opcode == 0xD5 {
        OpGroup::Aad
    } else if opcode == 0xD6 {
        OpGroup::Salc
    } else if opcode == 0xD7 {
        OpGroup::Xlat
    } else if opcode <= 0xDF {
        OpGroup::Esc
    } else if opcode == 0xE0 {
        OpGroup::Loopne
    } else if opcode == 0xE1 {
        OpGroup::Loope
    } else if opcode == 0xE2 {
        OpGroup::Loop
    } else if opcode == 0xE3 {
        OpGroup::Jcxz
    } else if opcode == 0xE4 {
        OpGroup::InAlImmediate
    } else if opcode == 0xE5 {
        OpGroup::InAxImmediate
    } else if opcode == 0xE6 {
        OpGroup::OutImmediateAl
    } else if opcode == 0xE7 {
        OpGroup::OutImmediateAx
    } else if opcode == 0xE8 {
        OpGroup::CallNear
    } else if opcode == 0xE9 {
        OpGroup::JmpNear
    } else if opcode == 0xEA {
        OpGroup::JmpFar
    } else if opcode == 0xEB {
        OpGroup::JmpShort
    } else if opcode == 0xEC {
        OpGroup::InAlDx
    } else if opcode == 0xED {
        OpGroup::InAxDx
    } else if opcode == 0xEE {
        OpGroup::OutDxAl
    } else {
        OpGroup::OutDxAx
    }
}

fn group_fx(opcode: u8) -> (g: OpGroup)
    ensures
        g == group_of_fx(opcode),
{
    if opcode == 0xF0 || opcode == 0xF2 || opcode == 0xF3 {
        OpGroup::Unhandled
    } else if opcode == 0xF1 {
        OpGroup::Idle
    } else if opcode == 0xF4 {
        OpGroup::Hlt
    } else if opcode == 0xF5 {
        OpGroup::Cmc
    } else if opcode == 0xF6 {
        OpGroup::Group3Byte
    } else if opcode == 0xF7 {
        OpGroup::Group3Word
    } else if opcode == 0xF8 {
        OpGroup::Clc
    } else if opcode == 0xF9 {
        OpGroup::Stc
    } else if opcode == 0xFA {
        OpGroup::Cli
    } else if opcode == 0xFB {
        OpGroup::Sti
    } else if opcode == 0xFC {
        OpGroup::Cld
    } else if opcode == 0xFD {
        OpGroup::Std
    } else if opcode == 0xFE {
        OpGroup::Group4
    } else {
        OpGroup::Group5
    }
}

/// Finds the group of an opcode.
pub fn op_group(opcode: u8) -> (g: OpGroup)
    ensures
        g == op_group_of(opcode),
{
    if opcode < 0x40 {
        low_group(opcode)
    } else if opcode < 0x48 {
        OpGroup::IncRegister
    } else if opcode < 0x50 {
        OpGroup::DecRegister
    } else if opcode < 0x58 {
        OpGroup::PushRegister
    } else if opcode < 0x60 {
        OpGroup::PopRegister
    } else if opcode < 0x80 {
        OpGroup::JumpIf
    } else if opcode < 0xA0 {
        group_8x_9x(opcode)
    } else if opcode < 0xD0 {
        group_ax_cx(opcode)
    } else if opcode < 0xF0 {
        group_dx_ex(opcode)
    } else {
        group_fx(opcode)
    }
}

} // verus!
