//! The decoded instruction that the execution unit consumes, and the small
//! tagged values that travel with it.

use vstd::prelude::*;
use crate::cpu::registers::{Register16, Register8, Segment};

verus! {

#[derive(Copy, Clone, Debug, PartialEq, Eq, Structural)]
pub enum Mnemonic {
    NoOpcode,
    AAA,
    AAD,
    AAM,
    AAS,
    ADC,
    ADD,
    AND,
    CALL,
    CALLF,
    CBW,
    CLC,
    CLD,
    CLI,
    CMC,
    CMP,
    CMPSB,
    CMPSW,
    CWD,
    DAA,
    DAS,
    DEC,
    DIV,
    ESC,
    HLT,
    IDIV,
    IMUL,
    IN,
    INC,
    INT,
    INT3,
    INTO,
    IRET,
    JB,
    JBE,
    JCXZ,
    JL,
    JLE,
    JMP,
    JMPF,
    JNB,
    JNBE,
    JNL,
    JNLE,
    JNO,
    JNP,
    JNS,
    JNZ,
    JO,
    JP,
    JS,
    JZ,
    LAHF,
    LDS,
    LEA,
    LES,
    LOCK,
    LODSB,
    LODSW,
    LOOP,
    LOOPNE,
    LOOPE,
    MOV,
    MOVSB,
    MOVSW,
    MUL,
    NEG,
    NOP,
    NOT,
    OR,
    OUT,
    POP,
    POPF,
    PUSH,
    PUSHF,
    RCL,
    RCR,
    RETF,
    RETN,
    ROL,
    ROR,
    SAHF,
    SALC,
    SAR,
    SBB,
    SCASB,
    SCASW,
    SHL,
    SHR,
    STC,
    STD,
    STI,
    STOSB,
    STOSW,
    SUB,
    TEST,
    WAIT,
    XCHG,
    XLAT,
    XOR,
    InvalidOpcode,
}

/// How a memory operand's offset is formed.
#[derive(Copy, Clone, Debug, PartialEq, Eq, Structural)]
pub enum AddressingMode {
    BxSi,
    BxDi,
    BpSi,
    BpDi,
    Si,
    Di,
    Disp16(u16),
    Bx,
    BxSiDisp8(i8),
    BxDiDisp8(i8),
    BpSiDisp8(i8),
    BpDiDisp8(i8),
    SiDisp8(i8),
    DiDisp8(i8),
    BpDisp8(i8),
    BxDisp8(i8),
    BxSiDisp16(i16),
    BxDiDisp16(i16),
    BpSiDisp16(i16),
    BpDiDisp16(i16),
    SiDisp16(i16),
    DiDisp16(i16),
    BpDisp16(i16),
    BxDisp16(i16),
}

#[derive(Copy, Clone, Debug, PartialEq, Eq, Structural)]
pub enum OperandType {
    Immediate8(u8),
    Immediate16(u16),
    Relative8(i8),
    Relative16(i16),
    Offset8(u16),
    Offset16(u16),
    Register8(Register8),
    Register16(Register16),
    AddressingMode(AddressingMode),
    FarAddress(u16, u16),
    NoOperand,
    InvalidOperand,
}

#[derive(Copy, Clone, Debug, PartialEq, Eq, Structural)]
pub enum SegmentOverride {
    NoOverride,
    ES,
    CS,
    SS,
    DS,
}

/// Whether the last byte transfer of an access ends the instruction, in which
/// case the bus unit lets the next instruction start one cycle early.
#[derive(Copy, Clone, Debug, PartialEq, Eq, Structural)]
pub enum ReadWriteFlag {
    Normal,
    RNI,
}

#[derive(Copy, Clone, Debug, PartialEq, Eq, Structural)]
pub enum RepType {
    NoRep,
    Rep,
    Repne,
    Repe,
}

#[derive(Copy, Clone, Debug, PartialEq, Eq, Structural)]
pub enum CpuException {
    NoException,
    DivideError,
}

/// How one call of the execution unit ended.
#[derive(Copy, Clone, Debug, PartialEq, Eq, Structural)]
pub enum ExecutionResult {
    Okay,
    OkayJump,
    OkayRep,
    UnsupportedOpcode(u8),
    ExceptionError(CpuException),
    Halt,
}

/// The REPNE / REPNZ prefix (0xF2).
pub const OPCODE_PREFIX_REP1: u32 = 0x0000_0020;
/// The REP / REPE / REPZ prefix (0xF3).
pub const OPCODE_PREFIX_REP2: u32 = 0x0000_0040;
pub const OPCODE_PREFIX_LOCK: u32 = 0x0000_0010;

/// One decoded instruction.
#[derive(Copy, Clone, Debug, PartialEq, Eq, Structural)]
pub struct Instruction {
    pub opcode: u8,
    pub prefixes: u32,
    pub size: u32,
    pub mnemonic: Mnemonic,
    pub segment_override: SegmentOverride,
    pub operand1_type: OperandType,
    pub operand2_type: OperandType,
}

impl Instruction {
    /// A one-byte NOP without prefixes or operands.
    pub open spec fn nop() -> Instruction {
        Instruction {
            opcode: 0x90,
            prefixes: 0,
            size: 1,
            mnemonic: Mnemonic::NOP,
            segment_override: SegmentOverride::NoOverride,
            operand1_type: OperandType::NoOperand,
            operand2_type: OperandType::NoOperand,
        }
    }

    /// A one-byte NOP.
    pub fn new() -> (i: Instruction)
        ensures
            i == Instruction::nop(),
    {
        Instruction {
            opcode: 0x90,
            prefixes: 0,
            size: 1,
            mnemonic: Mnemonic::NOP,
            segment_override: SegmentOverride::NoOverride,
            operand1_type: OperandType::NoOperand,
            operand2_type: OperandType::NoOperand,
        }
    }

    /// Whether the REPNE prefix was decoded in front of the instruction.
    pub open spec fn has_rep1(self) -> bool {
        (self.prefixes / 0x20) % 2 == 1
    }

    /// Whether the REP / REPE prefix was decoded in front of the instruction.
    pub open spec fn has_rep2(self) -> bool {
        (self.prefixes / 0x40) % 2 == 1
    }

    /// Whether either REP prefix was decoded in front of the instruction.
    pub open spec fn has_rep_prefix(self) -> bool {
        self.has_rep1() || self.has_rep2()
    }

    /// Whether the REPNE prefix was decoded in front of the instruction.
    pub fn rep1_prefix(&self) -> (b: bool)
        ensures
            b == self.has_rep1(),
    {
        (self.prefixes / OPCODE_PREFIX_REP1) % 2 == 1
    }

    /// Whether the REP / REPE prefix was decoded in front of the instruction.
    pub fn rep2_prefix(&self) -> (b: bool)
        ensures
            b == self.has_rep2(),
    {
        (self.prefixes / OPCODE_PREFIX_REP2) % 2 == 1
    }
}

/// The segment that an access uses: the override where one was decoded, the
/// instruction's default segment otherwise.
pub open spec fn overridden_segment(seg_override: SegmentOverride, default: Segment) -> Segment {
    match seg_override {
        SegmentOverride::NoOverride => default,
        SegmentOverride::ES => Segment::ES,
        SegmentOverride::CS => Segment::CS,
        SegmentOverride::SS => Segment::SS,
        SegmentOverride::DS => Segment::DS,
    }
}

/// The segment that an access uses under an override.
pub fn segment_override(seg_override: SegmentOverride, default: Segment) -> (seg: Segment)
    ensures
        seg == overridden_segment(seg_override, default),
{
    match seg_override {
        SegmentOverride::NoOverride => default,
        SegmentOverride::ES => Segment::ES,
        SegmentOverride::CS => Segment::CS,
        SegmentOverride::SS => Segment::SS,
        SegmentOverride::DS => Segment::DS,
    }
}

/// The 16-bit register that holds a segment.
pub open spec fn segment_register(seg: Segment) -> Register16 {
    match seg {
        Segment::ES => Register16::ES,
        Segment::CS => Register16::CS,
        Segment::SS => Register16::SS,
        Segment::DS => Register16::DS,
    }
}

/// The 16-bit register that holds a segment.
pub fn segment_to_register(seg: Segment) -> (r: Register16)
    ensures
        r == segment_register(seg),
{
    match seg {
        Segment::ES => Register16::ES,
        Segment::CS => Register16::CS,
        Segment::SS => Register16::SS,
        Segment::DS => Register16::DS,
    }
}

} // verus!
