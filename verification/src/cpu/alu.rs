//! Byte and word arithmetic and logic, with the flags each operation leaves.
//!
//! The results are stated over the integers: a sum carries when it does not
//! fit the operand's width, and overflows when the sum of the operands read as
//! two's complement numbers does not fit the signed range.

use vstd::prelude::*;
use crate::cpu::instruction::Mnemonic;
use crate::cpu::registers::Flags;

verus! {

#[derive(Copy, Clone, Debug, PartialEq, Eq, Structural)]
pub enum Width {
    Byte,
    Word,
}

impl Width {
    /// The number of values of this width.
    pub open spec fn modulus(self) -> int {
        match self {
            Width::Byte => 0x100,
            Width::Word => 0x1_0000,
        }
    }

    /// The least value whose top bit is set.
    pub open spec fn sign_threshold(self) -> int {
        match self {
            Width::Byte => 0x80,
            Width::Word => 0x8000,
        }
    }

    /// The two's complement reading of an unsigned value of this width.
    pub open spec fn signed(self, v: int) -> int {
        if v >= self.sign_threshold() {
            v - self.modulus()
        } else {
            v
        }
    }

    /// Whether `v` is an unsigned value of this width.
    pub open spec fn fits(self, v: int) -> bool {
        0 <= v < self.modulus()
    }

    /// Whether `v` is a two's complement value of this width.
    pub open spec fn fits_signed(self, v: int) -> bool {
        -self.sign_threshold() <= v < self.sign_threshold()
    }
}

/// The number of one bits among the low eight bits of `v`.
pub open spec fn popcount8(v: int) -> int {
    v % 2 + (v / 2) % 2 + (v / 4) % 2 + (v / 8) % 2 + (v / 16) % 2 + (v / 32) % 2 + (v / 64) % 2 + (
    v / 128) % 2
}

/// The parity flag of a result: set when its low byte has an even number of
/// one bits.
pub open spec fn parity_flag(value: int) -> bool {
    popcount8(value % 256) % 2 == 0
}

/// Zero, sign and parity set from a result, the other flags kept.
pub open spec fn with_szp(w: Width, value: int, f: Flags) -> Flags {
    Flags { zero: value == 0, sign: value >= w.sign_threshold(), parity: parity_flag(value), ..f }
}

/// A carry or borrow as a number.
pub open spec fn carry_in(c: bool) -> int {
    if c { 1 } else { 0 }
}

/// `a + b + carry`, truncated to the width, and the flags of an addition.
pub open spec fn alu_add(w: Width, a: int, b: int, c: bool, f: Flags) -> (int, Flags) {
    let sum = a + b + carry_in(c);
    let value = sum % w.modulus();
    (
        value,
        with_szp(
            w,
            value,
            Flags {
                carry: sum >= w.modulus(),
                aux_carry: a % 16 + b % 16 + carry_in(c) >= 16,
                overflow: !w.fits_signed(w.signed(a) + w.signed(b) + carry_in(c)),
                ..f
            },
        ),
    )
}

/// `a - b - borrow`, truncated to the width, and the flags of a subtraction.
pub open spec fn alu_sub(w: Width, a: int, b: int, c: bool, f: Flags) -> (int, Flags) {
    let diff = a - b - carry_in(c);
    let value = diff % w.modulus();
    (
        value,
        with_szp(
            w,
            value,
            Flags {
                carry: diff < 0,
                aux_carry: a % 16 - b % 16 - carry_in(c) < 0,
                overflow: !w.fits_signed(w.signed(a) - w.signed(b) - carry_in(c)),
                ..f
            },
        ),
    )
}

/// The flags that a bitwise operation leaves: carry, overflow and auxiliary
/// carry clear; zero, sign and parity from the result.
pub open spec fn alu_logic(w: Width, value: int, f: Flags) -> (int, Flags) {
    (value, with_szp(w, value, Flags { carry: false, overflow: false, aux_carry: false, ..f }))
}

/// The operation with the carry flag of `f` put back: INC and DEC.
pub open spec fn keep_carry(r: (int, Flags), f: Flags) -> (int, Flags) {
    (r.0, Flags { carry: f.carry, ..r.1 })
}

/// The mnemonics that the arithmetic unit computes.
pub open spec fn is_alu_mnemonic(m: Mnemonic) -> bool {
    match m {
        Mnemonic::ADD
        | Mnemonic::ADC
        | Mnemonic::SUB
        | Mnemonic::SBB
        | Mnemonic::CMP
        | Mnemonic::AND
        | Mnemonic::OR
        | Mnemonic::XOR
        | Mnemonic::TEST
        | Mnemonic::NOT
        | Mnemonic::NEG
        | Mnemonic::INC
        | Mnemonic::DEC => true,
        _ => false,
    }
}

/// The result and flags of an 8-bit operation. NOT, NEG, INC and DEC take one
/// operand and ignore `b`.
pub open spec fn alu8(m: Mnemonic, a: u8, b: u8, f: Flags) -> (int, Flags) {
    match m {
        Mnemonic::ADD => alu_add(Width::Byte, a as int, b as int, false, f),
        Mnemonic::ADC => alu_add(Width::Byte, a as int, b as int, f.carry, f),
        Mnemonic::SUB | Mnemonic::CMP => alu_sub(Width::Byte, a as int, b as int, false, f),
        Mnemonic::SBB => alu_sub(Width::Byte, a as int, b as int, f.carry, f),
        Mnemonic::NEG => alu_sub(Width::Byte, 0, a as int, false, f),
        Mnemonic::INC => keep_carry(alu_add(Width::Byte, a as int, 1, false, f), f),
        Mnemonic::DEC => keep_carry(alu_sub(Width::Byte, a as int, 1, false, f), f),
        Mnemonic::AND | Mnemonic::TEST => alu_logic(Width::Byte, (a & b) as int, f),
        Mnemonic::OR => alu_logic(Width::Byte, (a | b) as int, f),
        Mnemonic::XOR => alu_logic(Width::Byte, (a ^ b) as int, f),
        Mnemonic::NOT => (255 - a, f),
        _ => (a as int, f),
    }
}

/// The result and flags of a 16-bit operation.
pub open spec fn alu16(m: Mnemonic, a: u16, b: u16, f: Flags) -> (int, Flags) {
    match m {
        Mnemonic::ADD => alu_add(Width::Word, a as int, b as int, false, f),
        Mnemonic::ADC => alu_add(Width::Word, a as int, b as int, f.carry, f),
        Mnemonic::SUB | Mnemonic::CMP => alu_sub(Width::Word, a as int, b as int, false, f),
        Mnemonic::SBB => alu_sub(Width::Word, a as int, b as int, f.carry, f),
        Mnemonic::NEG => alu_sub(Width::Word, 0, a as int, false, f),
        Mnemonic::INC => keep_carry(alu_add(Width::Word, a as int, 1, false, f), f),
        Mnemonic::DEC => keep_carry(alu_sub(Width::Word, a as int, 1, false, f), f),
        Mnemonic::AND | Mnemonic::TEST => alu_logic(Width::Word, (a & b) as int, f),
        Mnemonic::OR => alu_logic(Width::Word, (a | b) as int, f),
        Mnemonic::XOR => alu_logic(Width::Word, (a ^ b) as int, f),
        Mnemonic::NOT => (65535 - a, f),
        _ => (a as int, f),
    }
}

/// A difference that went below zero wraps to the top of the range.
pub proof fn lemma_wrapped_difference(w: Width, diff: int)
    requires
        -w.modulus() <= diff < w.modulus(),
    ensures
        diff % w.modulus() == (if diff < 0 { diff + w.modulus() } else { diff }),
{
}

/// Whether a byte has an even number of one bits.
pub fn parity8(v: u8) -> (p: bool)
    ensures
        p == parity_flag(v as int),
{
    let ones: u8 = v % 2 + (v / 2) % 2 + (v / 4) % 2 + (v / 8) % 2 + (v / 16) % 2 + (v / 32) % 2 + (
    v / 64) % 2 + (v / 128) % 2;
    ones % 2 == 0
}

/// Sets zero, sign and parity from an 8-bit result.
pub fn set_szp_flags8(flags: &mut Flags, value: u8)
    ensures
        *final(flags) == with_szp(Width::Byte, value as int, *old(flags)),
{
    flags.zero = value == 0;
    flags.sign = value >= 0x80;
    flags.parity = parity8(value);
}

/// Sets zero, sign and parity from a 16-bit result.
pub fn set_szp_flags16(flags: &mut Flags, value: u16)
    ensures
        *final(flags) == with_szp(Width::Word, value as int, *old(flags)),
{
    flags.zero = value == 0;
    flags.sign = value >= 0x8000;
    flags.parity = parity8((value % 256) as u8);
}

fn signed_of8(v: u8) -> (s: i32)
    ensures
        s == Width::Byte.signed(v as int),
{
    if v >= 0x80 {
        v as i32 - 0x100
    } else {
        v as i32
    }
}

fn signed_of16(v: u16) -> (s: i32)
    ensures
        s == Width::Word.signed(v as int),
{
    if v >= 0x8000 {
        v as i32 - 0x1_0000
    } else {
        v as i32
    }
}

/// Adds two bytes and a carry, and sets the flags.
pub fn add8(flags: &mut Flags, a: u8, b: u8, carry: bool) -> (r: u8)
    ensures
        (r as int, *final(flags)) == alu_add(Width::Byte, a as int, b as int, carry, *old(flags)),
{
    let c: u16 = if carry { 1 } else { 0 };
    let sum: u16 = a as u16 + b as u16 + c;
    let value: u8 = (sum % 0x100) as u8;
    let signed_sum: i32 = signed_of8(a) + signed_of8(b) + c as i32;
    flags.carry = sum >= 0x100;
    flags.aux_carry = (a % 16) as u16 + (b % 16) as u16 + c >= 16;
    flags.overflow = signed_sum < -0x80 || signed_sum >= 0x80;
    set_szp_flags8(flags, value);
    value
}

/// Subtracts a byte and a borrow from a byte, and sets the flags.
pub fn sub8(flags: &mut Flags, a: u8, b: u8, borrow: bool) -> (r: u8)
    ensures
        (r as int, *final(flags)) == alu_sub(Width::Byte, a as int, b as int, borrow, *old(flags)),
{
    let c: i32 = if borrow { 1 } else { 0 };
    let diff: i32 = a as i32 - b as i32 - c;
    let value: u8 = if diff < 0 { (diff + 0x100) as u8 } else { diff as u8 };
    assert(value as int == (a as int - b as int - carry_in(borrow)) % 0x100) by {
        lemma_wrapped_difference(Width::Byte, diff as int);
    }
    let signed_diff: i32 = signed_of8(a) - signed_of8(b) - c;
    flags.carry = diff < 0;
    flags.aux_carry = ((a % 16) as i32 - (b % 16) as i32 - c) < 0;
    flags.overflow = signed_diff < -0x80 || signed_diff >= 0x80;
    set_szp_flags8(flags, value);
    value
}

/// Sets the flags for the result of a bitwise operation on bytes.
pub fn logic8(flags: &mut Flags, value: u8) -> (r: u8)
    ensures
        (r as int, *final(flags)) == alu_logic(Width::Byte, value as int, *old(flags)),
{
    flags.carry = false;
    flags.overflow = false;
    flags.aux_carry = false;
    set_szp_flags8(flags, value);
    value
}

/// Adds two words and a carry, and sets the flags.
pub fn add16(flags: &mut Flags, a: u16, b: u16, carry: bool) -> (r: u16)
    ensures
        (r as int, *final(flags)) == alu_add(Width::Word, a as int, b as int, carry, *old(flags)),
{
    let c: u32 = if carry { 1 } else { 0 };
    let sum: u32 = a as u32 + b as u32 + c;
    let value: u16 = (sum % 0x1_0000) as u16;
    let signed_sum: i32 = signed_of16(a) + signed_of16(b) + c as i32;
    flags.carry = sum >= 0x1_0000;
    flags.aux_carry = (a % 16) as u32 + (b % 16) as u32 + c >= 16;
    flags.overflow = signed_sum < -0x8000 || signed_sum >= 0x8000;
    set_szp_flags16(flags, value);
    value
}

/// Subtracts a word and a borrow from a word, and sets the flags.
pub fn sub16(flags: &mut Flags, a: u16, b: u16, borrow: bool) -> (r: u16)
    ensures
        (r as int, *final(flags)) == alu_sub(Width::Word, a as int, b as int, borrow, *old(flags)),
{
    let c: i32 = if borrow { 1 } else { 0 };
    let diff: i32 = a as i32 - b as i32 - c;
    let value: u16 = if diff < 0 { (diff + 0x1_0000) as u16 } else { diff as u16 };
    assert(value as int == (a as int - b as int - carry_in(borrow)) % 0x1_0000) by {
        lemma_wrapped_difference(Width::Word, diff as int);
    }
    let signed_diff: i32 = signed_of16(a) - signed_of16(b) - c;
    flags.carry = diff < 0;
    flags.aux_carry = ((a % 16) as i32 - (b % 16) as i32 - c) < 0;
    flags.overflow = signed_diff < -0x8000 || signed_diff >= 0x8000;
    set_szp_flags16(flags, value);
    value
}

/// Sets the flags for the result of a bitwise operation on words.
pub fn logic16(flags: &mut Flags, value: u16) -> (r: u16)
    ensures
        (r as int, *final(flags)) == alu_logic(Width::Word, value as int, *old(flags)),
{
    flags.carry = false;
    flags.overflow = false;
    flags.aux_carry = false;
    set_szp_flags16(flags, value);
    value
}

/// Computes an 8-bit arithmetic or logic operation and sets the flags.
pub fn math_op8(flags: &mut Flags, mnemonic: Mnemonic, a: u8, b: u8) -> (r: u8)
    requires
        is_alu_mnemonic(mnemonic),
    ensures
        (r as int, *final(flags)) == alu8(mnemonic, a, b, *old(flags)),
{
    let carry = flags.carry;
    match mnemonic {
        Mnemonic::ADD => add8(flags, a, b, false),
        Mnemonic::ADC => add8(flags, a, b, carry),
        Mnemonic::SUB | Mnemonic::CMP => sub8(flags, a, b, false),
        Mnemonic::SBB => sub8(flags, a, b, carry),
        Mnemonic::NEG => sub8(flags, 0, a, false),
        Mnemonic::INC => {
            let r = add8(flags, a, 1, false);
            flags.carry = carry;
            r
        },
        Mnemonic::DEC => {
            let r = sub8(flags, a, 1, false);
            flags.carry = carry;
            r
        },
        Mnemonic::AND | Mnemonic::TEST => logic8(flags, a & b),
        Mnemonic::OR => logic8(flags, a | b),
        Mnemonic::XOR => logic8(flags, a ^ b),
        Mnemonic::NOT => 255 - a,
        _ => a,
    }
}

/// Computes a 16-bit arithmetic or logic operation and sets the flags.
pub fn math_op16(flags: &mut Flags, mnemonic: Mnemonic, a: u16, b: u16) -> (r: u16)
    requires
        is_alu_mnemonic(mnemonic),
    ensures
        (r as int, *final(flags)) == alu16(mnemonic, a, b, *old(flags)),
{
    let carry = flags.carry;
    match mnemonic {
        Mnemonic::ADD => add16(flags, a, b, false),
        Mnemonic::ADC => add16(flags, a, b, carry),
        Mnemonic::SUB | Mnemonic::CMP => sub16(flags, a, b, false),
        Mnemonic::SBB => sub16(flags, a, b, carry),
        Mnemonic::NEG => sub16(flags, 0, a, false),
        Mnemonic::INC => {
            let r = add16(flags, a, 1, false);
            flags.carry = carry;
            r
        },
        Mnemonic::DEC => {
            let r = sub16(flags, a, 1, false);
            flags.carry = carry;
            r
        },
        Mnemonic::AND | Mnemonic::TEST => logic16(flags, a & b),
        Mnemonic::OR => logic16(flags, a | b),
        Mnemonic::XOR => logic16(flags, a ^ b),
        Mnemonic::NOT => 65535 - a,
        _ => a,
    }
}

/// After every operation that sets them, the zero flag says whether the result
/// is zero and the parity flag whether its low byte has an even number of one
/// bits, at both widths.
pub proof fn lemma_alu_zero_and_parity(m: Mnemonic, a8: u8, b8: u8, a16: u16, b16: u16, f: Flags)
    requires
        is_alu_mnemonic(m),
        m != Mnemonic::NOT,
    ensures
        alu8(m, a8, b8, f).1.zero == (alu8(m, a8, b8, f).0 == 0),
        alu8(m, a8, b8, f).1.parity == (popcount8(alu8(m, a8, b8, f).0 % 256) % 2 == 0),
        alu16(m, a16, b16, f).1.zero == (alu16(m, a16, b16, f).0 == 0),
        alu16(m, a16, b16, f).1.parity == (popcount8(alu16(m, a16, b16, f).0 % 256) % 2 == 0),
{
}

/// AND, OR, XOR and TEST clear the carry and overflow flags, and the result
/// of TEST is that of AND.
pub proof fn lemma_logic_clears_carry_and_overflow(
    m: Mnemonic,
    a8: u8,
    b8: u8,
    a16: u16,
    b16: u16,
    f: Flags,
)
    requires
        m == Mnemonic::AND || m == Mnemonic::OR || m == Mnemonic::XOR || m == Mnemonic::TEST,
    ensures
        !alu8(m, a8, b8, f).1.carry && !alu8(m, a8, b8, f).1.overflow,
        !alu16(m, a16, b16, f).1.carry && !alu16(m, a16, b16, f).1.overflow,
        alu8(Mnemonic::TEST, a8, b8, f) == alu8(Mnemonic::AND, a8, b8, f),
        alu16(Mnemonic::TEST, a16, b16, f) == alu16(Mnemonic::AND, a16, b16, f),
{
}

/// INC and DEC leave the carry flag as it was, whatever the operand.
pub proof fn lemma_inc_dec_keep_carry(m: Mnemonic, a8: u8, b8: u8, a16: u16, b16: u16, f: Flags)
    requires
        m == Mnemonic::INC || m == Mnemonic::DEC,
    ensures
        alu8(m, a8, b8, f).1.carry == f.carry,
        alu16(m, a16, b16, f).1.carry == f.carry,
{
}

/// Every result fits the width of its operands.
pub proof fn lemma_alu_result_fits(m: Mnemonic, a8: u8, b8: u8, a16: u16, b16: u16, f: Flags)
    ensures
        0 <= alu8(m, a8, b8, f).0 < 0x100,
        0 <= alu16(m, a16, b16, f).0 < 0x1_0000,
{
}

} // verus!
