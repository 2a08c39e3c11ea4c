//! The register file: general, index, pointer and segment registers, the
//! instruction pointer and the status flags.

use vstd::prelude::*;

verus! {

#[derive(Copy, Clone, Debug, PartialEq, Eq, Structural)]
pub enum Register8 {
    AL,
    CL,
    DL,
    BL,
    AH,
    CH,
    DH,
    BH,
}

#[derive(Copy, Clone, Debug, PartialEq, Eq, Structural)]
pub enum Register16 {
    AX,
    CX,
    DX,
    BX,
    SP,
    BP,
    SI,
    DI,
    ES,
    CS,
    SS,
    DS,
    IP,
    InvalidRegister,
}

#[derive(Copy, Clone, Debug, PartialEq, Eq, Structural)]
pub enum Segment {
    ES,
    CS,
    SS,
    DS,
}

#[derive(Copy, Clone, Debug, PartialEq, Eq, Structural)]
pub enum Flag {
    Carry,
    Parity,
    AuxCarry,
    Zero,
    Sign,
    Trap,
    Interrupt,
    Direction,
    Overflow,
}

/// The nine status and control flags, one `bool` each.
#[derive(Copy, Clone, Debug, PartialEq, Eq, Structural)]
pub struct Flags {
    pub carry: bool,
    pub parity: bool,
    pub aux_carry: bool,
    pub zero: bool,
    pub sign: bool,
    pub trap: bool,
    pub interrupt: bool,
    pub direction: bool,
    pub overflow: bool,
}

pub const CPU_FLAG_CARRY: u16 = 0x0001;
pub const CPU_FLAG_RESERVED1: u16 = 0x0002;
pub const CPU_FLAG_PARITY: u16 = 0x0004;
pub const CPU_FLAG_AUX_CARRY: u16 = 0x0010;
pub const CPU_FLAG_ZERO: u16 = 0x0040;
pub const CPU_FLAG_SIGN: u16 = 0x0080;
pub const CPU_FLAG_TRAP: u16 = 0x0100;
pub const CPU_FLAG_INT_ENABLE: u16 = 0x0200;
pub const CPU_FLAG_DIRECTION: u16 = 0x0400;
pub const CPU_FLAG_OVERFLOW: u16 = 0x0800;
/// Bits of the flag word that always read as one on this processor.
pub const CPU_FLAGS_ALWAYS_ON: u16 = 0xF002;

/// Whether the bit of weight `weight` (a power of two) is set in `word`.
#[verifier::opaque]
pub open spec fn word_bit(word: int, weight: int) -> bool {
    (word / weight) % 2 == 1
}

/// The weight of a flag in the flag word if it is set, zero otherwise.
pub open spec fn bit_weight(b: bool, weight: int) -> int {
    if b { weight } else { 0 }
}

impl Flags {
    /// All flags clear.
    pub open spec fn cleared() -> Flags {
        Flags {
            carry: false,
            parity: false,
            aux_carry: false,
            zero: false,
            sign: false,
            trap: false,
            interrupt: false,
            direction: false,
            overflow: false,
        }
    }

    pub fn new() -> (f: Flags)
        ensures
            f == Flags::cleared(),
    {
        Flags {
            carry: false,
            parity: false,
            aux_carry: false,
            zero: false,
            sign: false,
            trap: false,
            interrupt: false,
            direction: false,
            overflow: false,
        }
    }

    /// The state of one flag.
    pub open spec fn get(self, flag: Flag) -> bool {
        match flag {
            Flag::Carry => self.carry,
            Flag::Parity => self.parity,
            Flag::AuxCarry => self.aux_carry,
            Flag::Zero => self.zero,
            Flag::Sign => self.sign,
            Flag::Trap => self.trap,
            Flag::Interrupt => self.interrupt,
            Flag::Direction => self.direction,
            Flag::Overflow => self.overflow,
        }
    }

    /// The flags with one flag set to `state`.
    pub open spec fn with(self, flag: Flag, state: bool) -> Flags {
        match flag {
            Flag::Carry => Flags { carry: state, ..self },
            Flag::Parity => Flags { parity: state, ..self },
            Flag::AuxCarry => Flags { aux_carry: state, ..self },
            Flag::Zero => Flags { zero: state, ..self },
            Flag::Sign => Flags { sign: state, ..self },
            Flag::Trap => Flags { trap: state, ..self },
            Flag::Interrupt => Flags { interrupt: state, ..self },
            Flag::Direction => Flags { direction: state, ..self },
            Flag::Overflow => Flags { overflow: state, ..self },
        }
    }

    /// The 16-bit flag word as PUSHF stores it: each flag at its bit, and the
    /// reserved bits that always read as one.
    pub open spec fn word(self) -> int {
        0xF002 + bit_weight(self.carry, 0x0001) + bit_weight(self.parity, 0x0004) + bit_weight(
            self.aux_carry,
            0x0010,
        ) + bit_weight(self.zero, 0x0040) + bit_weight(self.sign, 0x0080) + bit_weight(
            self.trap,
            0x0100,
        ) + bit_weight(self.interrupt, 0x0200) + bit_weight(self.direction, 0x0400) + bit_weight(
            self.overflow,
            0x0800,
        )
    }

    /// The flags that a 16-bit word holds, as POPF loads them.
    pub open spec fn from_word(word: int) -> Flags {
        Flags {
            carry: word_bit(word, 0x0001),
            parity: word_bit(word, 0x0004),
            aux_carry: word_bit(word, 0x0010),
            zero: word_bit(word, 0x0040),
            sign: word_bit(word, 0x0080),
            trap: word_bit(word, 0x0100),
            interrupt: word_bit(word, 0x0200),
            direction: word_bit(word, 0x0400),
            overflow: word_bit(word, 0x0800),
        }
    }

    /// SAHF: the low byte of the flag word is replaced, the rest kept.
    pub open spec fn with_low_byte(self, byte: int) -> Flags {
        Flags {
            carry: word_bit(byte, 0x0001),
            parity: word_bit(byte, 0x0004),
            aux_carry: word_bit(byte, 0x0010),
            zero: word_bit(byte, 0x0040),
            sign: word_bit(byte, 0x0080),
            ..self
        }
    }

    /// Reads one flag.
    pub fn get_flag(&self, flag: Flag) -> (state: bool)
        ensures
            state == self.get(flag),
    {
        match flag {
            Flag::Carry => self.carry,
            Flag::Parity => self.parity,
            Flag::AuxCarry => self.aux_carry,
            Flag::Zero => self.zero,
            Flag::Sign => self.sign,
            Flag::Trap => self.trap,
            Flag::Interrupt => self.interrupt,
            Flag::Direction => self.direction,
            Flag::Overflow => self.overflow,
        }
    }

    /// Sets one flag to `state`.
    pub fn set_flag_state(&mut self, flag: Flag, state: bool)
        ensures
            *final(self) == old(self).with(flag, state),
    {
        match flag {
            Flag::Carry => self.carry = state,
            Flag::Parity => self.parity = state,
            Flag::AuxCarry => self.aux_carry = state,
            Flag::Zero => self.zero = state,
            Flag::Sign => self.sign = state,
            Flag::Trap => self.trap = state,
            Flag::Interrupt => self.interrupt = state,
            Flag::Direction => self.direction = state,
            Flag::Overflow => self.overflow = state,
        }
    }

    /// Sets one flag.
    pub fn set_flag(&mut self, flag: Flag)
        ensures
            *final(self) == old(self).with(flag, true),
    {
        self.set_flag_state(flag, true);
    }

    /// Clears one flag.
    pub fn clear_flag(&mut self, flag: Flag)
        ensures
            *final(self) == old(self).with(flag, false),
    {
        self.set_flag_state(flag, false);
    }

    /// The flag word that PUSHF stores.
    pub fn load_flags(&self) -> (word: u16)
        ensures
            word == self.word(),
    {
        let mut word: u16 = CPU_FLAGS_ALWAYS_ON;
        if self.carry {
            word = word + CPU_FLAG_CARRY;
        }
        if self.parity {
            word = word + CPU_FLAG_PARITY;
        }
        if self.aux_carry {
            word = word + CPU_FLAG_AUX_CARRY;
        }
        if self.zero {
            word = word + CPU_FLAG_ZERO;
        }
        if self.sign {
            word = word + CPU_FLAG_SIGN;
        }
        if self.trap {
            word = word + CPU_FLAG_TRAP;
        }
        if self.interrupt {
            word = word + CPU_FLAG_INT_ENABLE;
        }
        if self.direction {
            word = word + CPU_FLAG_DIRECTION;
        }
        if self.overflow {
            word = word + CPU_FLAG_OVERFLOW;
        }
        word
    }

    /// Takes every flag from a flag word, as POPF does.
    pub fn store_flags(&mut self, word: u16)
        ensures
            *final(self) == Flags::from_word(word as int),
    {
        reveal(word_bit);
        self.carry = (word / CPU_FLAG_CARRY) % 2 == 1;
        self.parity = (word / CPU_FLAG_PARITY) % 2 == 1;
        self.aux_carry = (word / CPU_FLAG_AUX_CARRY) % 2 == 1;
        self.zero = (word / CPU_FLAG_ZERO) % 2 == 1;
        self.sign = (word / CPU_FLAG_SIGN) % 2 == 1;
        self.trap = (word / CPU_FLAG_TRAP) % 2 == 1;
        self.interrupt = (word / CPU_FLAG_INT_ENABLE) % 2 == 1;
        self.direction = (word / CPU_FLAG_DIRECTION) % 2 == 1;
        self.overflow = (word / CPU_FLAG_OVERFLOW) % 2 == 1;
    }

    /// Takes carry, parity, auxiliary carry, zero and sign from a byte, as SAHF
    /// does.
    pub fn store_low_byte(&mut self, byte: u8)
        ensures
            *final(self) == old(self).with_low_byte(byte as int),
    {
        reveal(word_bit);
        self.carry = (byte / 0x01) % 2 == 1;
        self.parity = (byte / 0x04) % 2 == 1;
        self.aux_carry = (byte / 0x10) % 2 == 1;
        self.zero = (byte / 0x40) % 2 == 1;
        self.sign = (byte / 0x80) % 2 == 1;
    }
}

/// Each flag can be read back from the sum of the weights of the flags that
/// are set and the bits that are always on.
proof fn lemma_flag_bits(
    c: bool,
    p: bool,
    a: bool,
    z: bool,
    s: bool,
    t: bool,
    i: bool,
    d: bool,
    o: bool,
    w: u16,
)
    by (bit_vector)
    requires
        w == 0xF002u16 + (if c { 0x0001u16 } else { 0u16 }) + (if p { 0x0004u16 } else { 0u16 }) + (
        if a { 0x0010u16 } else { 0u16 }) + (if z { 0x0040u16 } else { 0u16 }) + (if s {
            0x0080u16
        } else {
            0u16
        }) + (if t { 0x0100u16 } else { 0u16 }) + (if i { 0x0200u16 } else { 0u16 }) + (if d {
            0x0400u16
        } else {
            0u16
        }) + (if o { 0x0800u16 } else { 0u16 }),
    ensures
        ((w / 0x0001u16) % 2u16 == 1u16) == c,
        ((w / 0x0004u16) % 2u16 == 1u16) == p,
        ((w / 0x0010u16) % 2u16 == 1u16) == a,
        ((w / 0x0040u16) % 2u16 == 1u16) == z,
        ((w / 0x0080u16) % 2u16 == 1u16) == s,
        ((w / 0x0100u16) % 2u16 == 1u16) == t,
        ((w / 0x0200u16) % 2u16 == 1u16) == i,
        ((w / 0x0400u16) % 2u16 == 1u16) == d,
        ((w / 0x0800u16) % 2u16 == 1u16) == o,
{
}

/// What PUSHF stores, POPF reads back unchanged.
pub proof fn lemma_flag_word_round_trip(f: Flags)
    ensures
        0xF002 <= f.word() <= 0xFFD7,
        Flags::from_word(f.word()) == f,
{
    reveal(word_bit);
    let w = f.word() as u16;
    lemma_flag_bits(
        f.carry,
        f.parity,
        f.aux_carry,
        f.zero,
        f.sign,
        f.trap,
        f.interrupt,
        f.direction,
        f.overflow,
        w,
    );
}

/// The register file. The 8-bit registers are the halves of AX, BX, CX and DX.
#[derive(Copy, Clone, Debug, PartialEq, Eq, Structural)]
pub struct Registers {
    pub ax: u16,
    pub bx: u16,
    pub cx: u16,
    pub dx: u16,
    pub sp: u16,
    pub bp: u16,
    pub si: u16,
    pub di: u16,
    pub cs: u16,
    pub ds: u16,
    pub es: u16,
    pub ss: u16,
    pub ip: u16,
    pub flags: Flags,
}

/// The low byte of a word.
pub open spec fn low_byte(word: u16) -> u8 {
    (word % 256) as u8
}

/// The high byte of a word.
pub open spec fn high_byte(word: u16) -> u8 {
    (word / 256) as u8
}

/// The word whose bytes are `high` and `low`.
pub open spec fn make_word(high: u8, low: u8) -> u16 {
    (high * 256 + low) as u16
}

/// The low byte of a word.
pub fn lo8(word: u16) -> (b: u8)
    ensures
        b == low_byte(word),
{
    (word % 256) as u8
}

/// The high byte of a word.
pub fn hi8(word: u16) -> (b: u8)
    ensures
        b == high_byte(word),
{
    (word / 256) as u8
}

/// The word made of two bytes.
pub fn word_of(high: u8, low: u8) -> (w: u16)
    ensures
        w == make_word(high, low),
        low_byte(w) == low,
        high_byte(w) == high,
{
    (high as u16) * 256 + (low as u16)
}

/// The 16-bit register of which an 8-bit register is a half.
pub open spec fn parent_register(reg: Register8) -> Register16 {
    match reg {
        Register8::AL | Register8::AH => Register16::AX,
        Register8::BL | Register8::BH => Register16::BX,
        Register8::CL | Register8::CH => Register16::CX,
        Register8::DL | Register8::DH => Register16::DX,
    }
}

/// Whether an 8-bit register is the high half of its word.
pub open spec fn is_high_half(reg: Register8) -> bool {
    match reg {
        Register8::AH | Register8::BH | Register8::CH | Register8::DH => true,
        _ => false,
    }
}

/// The 16-bit register of which an 8-bit register is a half.
pub fn reg8to16(reg: Register8) -> (r: Register16)
    ensures
        r == parent_register(reg),
{
    match reg {
        Register8::AL | Register8::AH => Register16::AX,
        Register8::BL | Register8::BH => Register16::BX,
        Register8::CL | Register8::CH => Register16::CX,
        Register8::DL | Register8::DH => Register16::DX,
    }
}

/// The register that the low three bits of a register-encoded opcode select.
pub open spec fn register16_of_encoding(n: int) -> Register16 {
    if n == 0 {
        Register16::AX
    } else if n == 1 {
        Register16::CX
    } else if n == 2 {
        Register16::DX
    } else if n == 3 {
        Register16::BX
    } else if n == 4 {
        Register16::SP
    } else if n == 5 {
        Register16::BP
    } else if n == 6 {
        Register16::SI
    } else {
        Register16::DI
    }
}

/// The register that the low three bits of a register-encoded opcode select.
pub fn register16_lut(n: u8) -> (r: Register16)
    requires
        n < 8,
    ensures
        r == register16_of_encoding(n as int),
{
    if n == 0 {
        Register16::AX
    } else if n == 1 {
        Register16::CX
    } else if n == 2 {
        Register16::DX
    } else if n == 3 {
        Register16::BX
    } else if n == 4 {
        Register16::SP
    } else if n == 5 {
        Register16::BP
    } else if n == 6 {
        Register16::SI
    } else {
        Register16::DI
    }
}

impl Registers {
    /// Every register zero and every flag clear.
    pub open spec fn zeroed() -> Registers {
        Registers {
            ax: 0,
            bx: 0,
            cx: 0,
            dx: 0,
            sp: 0,
            bp: 0,
            si: 0,
            di: 0,
            cs: 0,
            ds: 0,
            es: 0,
            ss: 0,
            ip: 0,
            flags: Flags::cleared(),
        }
    }

    pub fn new() -> (r: Registers)
        ensures
            r == Registers::zeroed(),
    {
        Registers {
            ax: 0,
            bx: 0,
            cx: 0,
            dx: 0,
            sp: 0,
            bp: 0,
            si: 0,
            di: 0,
            cs: 0,
            ds: 0,
            es: 0,
            ss: 0,
            ip: 0,
            flags: Flags::new(),
        }
    }

    /// The value of a 16-bit register; the invalid register reads as zero.
    pub open spec fn get16(self, reg: Register16) -> u16 {
        match reg {
            Register16::AX => self.ax,
            Register16::CX => self.cx,
            Register16::DX => self.dx,
            Register16::BX => self.bx,
            Register16::SP => self.sp,
            Register16::BP => self.bp,
            Register16::SI => self.si,
            Register16::DI => self.di,
            Register16::ES => self.es,
            Register16::CS => self.cs,
            Register16::SS => self.ss,
            Register16::DS => self.ds,
            Register16::IP => self.ip,
            Register16::InvalidRegister => 0,
        }
    }

    /// The register file with one 16-bit register replaced; a write to the
    /// invalid register changes nothing.
    pub open spec fn set16(self, reg: Register16, value: u16) -> Registers {
        match reg {
            Register16::AX => Registers { ax: value, ..self },
            Register16::CX => Registers { cx: value, ..self },
            Register16::DX => Registers { dx: value, ..self },
            Register16::BX => Registers { bx: value, ..self },
            Register16::SP => Registers { sp: value, ..self },
            Register16::BP => Registers { bp: value, ..self },
            Register16::SI => Registers { si: value, ..self },
            Register16::DI => Registers { di: value, ..self },
            Register16::ES => Registers { es: value, ..self },
            Register16::CS => Registers { cs: value, ..self },
            Register16::SS => Registers { ss: value, ..self },
            Register16::DS => Registers { ds: value, ..self },
            Register16::IP => Registers { ip: value, ..self },
            Register16::InvalidRegister => self,
        }
    }

    /// The value of an 8-bit register.
    pub open spec fn get8(self, reg: Register8) -> u8 {
        let word = self.get16(parent_register(reg));
        if is_high_half(reg) {
            high_byte(word)
        } else {
            low_byte(word)
        }
    }

    /// The register file with one 8-bit register replaced.
    pub open spec fn set8(self, reg: Register8, value: u8) -> Registers {
        let parent = parent_register(reg);
        let word = self.get16(parent);
        if is_high_half(reg) {
            self.set16(parent, make_word(value, low_byte(word)))
        } else {
            self.set16(parent, make_word(high_byte(word), value))
        }
    }

    /// The value of a segment register.
    pub open spec fn segment(self, seg: Segment) -> u16 {
        match seg {
            Segment::ES => self.es,
            Segment::CS => self.cs,
            Segment::SS => self.ss,
            Segment::DS => self.ds,
        }
    }

    /// Reads a 16-bit register.
    pub fn get_register16(&self, reg: Register16) -> (value: u16)
        ensures
            value == self.get16(reg),
    {
        match reg {
            Register16::AX => self.ax,
            Register16::CX => self.cx,
            Register16::DX => self.dx,
            Register16::BX => self.bx,
            Register16::SP => self.sp,
            Register16::BP => self.bp,
            Register16::SI => self.si,
            Register16::DI => self.di,
            Register16::ES => self.es,
            Register16::CS => self.cs,
            Register16::SS => self.ss,
            Register16::DS => self.ds,
            Register16::IP => self.ip,
            Register16::InvalidRegister => 0,
        }
    }

    /// Writes a 16-bit register.
    pub fn set_register16(&mut self, reg: Register16, value: u16)
        ensures
            *final(self) == old(self).set16(reg, value),
    {
        match reg {
            Register16::AX => self.ax = value,
            Register16::CX => self.cx = value,
            Register16::DX => self.dx = value,
            Register16::BX => self.bx = value,
            Register16::SP => self.sp = value,
            Register16::BP => self.bp = value,
            Register16::SI => self.si = value,
            Register16::DI => self.di = value,
            Register16::ES => self.es = value,
            Register16::CS => self.cs = value,
            Register16::SS => self.ss = value,
            Register16::DS => self.ds = value,
            Register16::IP => self.ip = value,
            Register16::InvalidRegister => {},
        }
    }

    /// Reads an 8-bit register.
    pub fn get_register8(&self, reg: Register8) -> (value: u8)
        ensures
            value == self.get8(reg),
    {
        match reg {
            Register8::AL => lo8(self.ax),
            Register8::CL => lo8(self.cx),
            Register8::DL => lo8(self.dx),
            Register8::BL => lo8(self.bx),
            Register8::AH => hi8(self.ax),
            Register8::CH => hi8(self.cx),
            Register8::DH => hi8(self.dx),
            Register8::BH => hi8(self.bx),
        }
    }

    /// Writes an 8-bit register.
    pub fn set_register8(&mut self, reg: Register8, value: u8)
        ensures
            *final(self) == old(self).set8(reg, value),
            final(self).get8(reg) == value,
    {
        match reg {
            Register8::AL => self.ax = word_of(hi8(self.ax), value),
            Register8::CL => self.cx = word_of(hi8(self.cx), value),
            Register8::DL => self.dx = word_of(hi8(self.dx), value),
            Register8::BL => self.bx = word_of(hi8(self.bx), value),
            Register8::AH => self.ax = word_of(value, lo8(self.ax)),
            Register8::CH => self.cx = word_of(value, lo8(self.cx)),
            Register8::DH => self.dx = word_of(value, lo8(self.dx)),
            Register8::BH => self.bx = word_of(value, lo8(self.bx)),
        }
    }

    /// Reads a segment register.
    pub fn get_segment(&self, seg: Segment) -> (value: u16)
        ensures
            value == self.segment(seg),
    {
        match seg {
            Segment::ES => self.es,
            Segment::CS => self.cs,
            Segment::SS => self.ss,
            Segment::DS => self.ds,
        }
    }

    /// Reads AL.
    pub fn al(&self) -> (v: u8)
        ensures
            v == self.get8(Register8::AL),
    {
        lo8(self.ax)
    }

    /// Reads AH.
    pub fn ah(&self) -> (v: u8)
        ensures
            v == self.get8(Register8::AH),
    {
        hi8(self.ax)
    }

    /// Reads CL.
    pub fn cl(&self) -> (v: u8)
        ensures
            v == self.get8(Register8::CL),
    {
        lo8(self.cx)
    }
}

/// A word is made of its two bytes, and each byte can be read back from it.
pub proof fn lemma_word_bytes(high: u8, low: u8, word: u16)
    ensures
        low_byte(make_word(high, low)) == low,
        high_byte(make_word(high, low)) == high,
        make_word(high_byte(word), low_byte(word)) == word,
{
}

/// A write to an 8-bit register is read back from it, and leaves the other
/// seven as they were.
pub proof fn lemma_set8_keeps_other_half(r: Registers, reg: Register8, other: Register8, value: u8)
    requires
        reg != other,
    ensures
        r.set8(reg, value).get8(reg) == value,
        r.set8(reg, value).get8(other) == r.get8(other),
{
    let word = r.get16(parent_register(reg));
    lemma_word_bytes(value, low_byte(word), word);
    lemma_word_bytes(high_byte(word), value, word);
    if parent_register(reg) == parent_register(other) {
        if is_high_half(reg) {
            assert(r.set8(reg, value).get16(parent_register(reg)) == make_word(
                value,
                low_byte(word),
            ));
        } else {
            assert(r.set8(reg, value).get16(parent_register(reg)) == make_word(
                high_byte(word),
                value,
            ));
        }
    } else {
        assert(r.set8(reg, value).get16(parent_register(other)) == r.get16(
            parent_register(other),
        ));
    }
}

} // verus!
