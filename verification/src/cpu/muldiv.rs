//! Multiplication and division on the accumulator.
//!
//! Products always fit and are always stored. A division stores nothing when
//! the divisor is zero or the quotient does not fit: it reports the failure
//! and leaves every register as it was.

use vstd::prelude::*;
use crate::cpu::alu::Width;
use crate::cpu::registers::{lemma_word_bytes, lo8, word_of, Flags, Register8, Registers};

verus! {

/// The unsigned value whose two's complement reading at width `w` is `v`.
pub open spec fn unsigned_of(w: Width, v: int) -> int {
    if v < 0 {
        v + w.modulus()
    } else {
        v
    }
}

/// The magnitude of a number.
pub open spec fn abs(v: int) -> int {
    if v < 0 {
        -v
    } else {
        v
    }
}

/// Division that rounds toward zero, as the processor divides.
pub open spec fn truncated_quotient(a: int, b: int) -> int {
    if (a < 0) == (b < 0) {
        abs(a) / abs(b)
    } else {
        -(abs(a) / abs(b))
    }
}

/// The remainder of that division; it has the sign of the dividend.
pub open spec fn truncated_remainder(a: int, b: int) -> int {
    if a < 0 {
        -(abs(a) % abs(b))
    } else {
        abs(a) % abs(b)
    }
}

/// DX:AX read as one unsigned 32-bit number.
pub open spec fn dx_ax(r: Registers) -> int {
    r.dx * 0x1_0000 + r.ax
}

/// DX:AX read as one two's complement 32-bit number.
pub open spec fn dx_ax_signed(r: Registers) -> int {
    if r.dx >= 0x8000 {
        dx_ax(r) - 0x1_0000_0000
    } else {
        dx_ax(r)
    }
}

/// The flags with carry and overflow both set to `state`.
pub open spec fn with_carry_overflow(f: Flags, state: bool) -> Flags {
    Flags { carry: state, overflow: state, ..f }
}

/// MUL, byte form: AX = AL * operand; carry and overflow say whether AH is in
/// use.
pub open spec fn mul_u8(r: Registers, operand: u8) -> Registers {
    let product = (r.ax % 256) * operand;
    Registers { ax: product as u16, flags: with_carry_overflow(r.flags, product >= 0x100), ..r }
}

/// IMUL, byte form: AX = AL * operand, both signed; carry and overflow say
/// whether the product needs more than a signed byte.
pub open spec fn mul_i8(r: Registers, operand: u8) -> Registers {
    let product = Width::Byte.signed((r.ax % 256) as int) * Width::Byte.signed(operand as int);
    Registers {
        ax: unsigned_of(Width::Word, product) as u16,
        flags: with_carry_overflow(r.flags, !Width::Byte.fits_signed(product)),
        ..r
    }
}

/// MUL, word form: DX:AX = AX * operand.
pub open spec fn mul_u16(r: Registers, operand: u16) -> Registers {
    let product = r.ax * operand;
    Registers {
        ax: (product % 0x1_0000) as u16,
        dx: (product / 0x1_0000) as u16,
        flags: with_carry_overflow(r.flags, product >= 0x1_0000),
        ..r
    }
}

/// IMUL, word form: DX:AX = AX * operand, both signed.
pub open spec fn mul_i16(r: Registers, operand: u16) -> Registers {
    let product = Width::Word.signed(r.ax as int) * Width::Word.signed(operand as int);
    let stored = if product < 0 { product + 0x1_0000_0000 } else { product };
    Registers {
        ax: (stored % 0x1_0000) as u16,
        dx: (stored / 0x1_0000) as u16,
        flags: with_carry_overflow(r.flags, !Width::Word.fits_signed(product)),
        ..r
    }
}

/// Whether DIV, byte form, can store its quotient.
pub open spec fn div_u8_ok(r: Registers, operand: u8) -> bool {
    operand != 0 && r.ax / (operand as u16) <= 0xFF
}

/// DIV, byte form: AL = AX / operand, AH = AX % operand.
pub open spec fn div_u8(r: Registers, operand: u8) -> Registers {
    Registers { ax: ((r.ax % (operand as u16)) * 256 + r.ax / (operand as u16)) as u16, ..r }
}

/// Whether IDIV, byte form, can store its quotient: it must lie between -127
/// and 127.
pub open spec fn div_i8_ok(r: Registers, operand: u8) -> bool {
    operand != 0 && abs(
        truncated_quotient(Width::Word.signed(r.ax as int), Width::Byte.signed(operand as int)),
    ) <= 0x7F
}

/// IDIV, byte form: AL = quotient, AH = remainder, both in two's complement.
pub open spec fn div_i8(r: Registers, operand: u8) -> Registers {
    let a = Width::Word.signed(r.ax as int);
    let b = Width::Byte.signed(operand as int);
    Registers {
        ax: (unsigned_of(Width::Byte, truncated_remainder(a, b)) * 256 + unsigned_of(
            Width::Byte,
            truncated_quotient(a, b),
        )) as u16,
        ..r
    }
}

/// Whether DIV, word form, can store its quotient.
pub open spec fn div_u16_ok(r: Registers, operand: u16) -> bool {
    operand != 0 && dx_ax(r) / (operand as int) <= 0xFFFF
}

/// DIV, word form: AX = DX:AX / operand, DX = DX:AX % operand.
pub open spec fn div_u16(r: Registers, operand: u16) -> Registers {
    Registers {
        ax: (dx_ax(r) / (operand as int)) as u16,
        dx: (dx_ax(r) % (operand as int)) as u16,
        ..r
    }
}

/// Whether IDIV, word form, can store its quotient: it must lie between
/// -32767 and 32767.
pub open spec fn div_i16_ok(r: Registers, operand: u16) -> bool {
    operand != 0 && abs(truncated_quotient(dx_ax_signed(r), Width::Word.signed(operand as int)))
        <= 0x7FFF
}

/// IDIV, word form: AX = quotient, DX = remainder, both in two's complement.
pub open spec fn div_i16(r: Registers, operand: u16) -> Registers {
    let a = dx_ax_signed(r);
    let b = Width::Word.signed(operand as int);
    Registers {
        ax: unsigned_of(Width::Word, truncated_quotient(a, b)) as u16,
        dx: unsigned_of(Width::Word, truncated_remainder(a, b)) as u16,
        ..r
    }
}

proof fn lemma_product_bound(a: int, b: int, la: int, lb: int)
    requires
        0 <= a <= la,
        0 <= b <= lb,
    ensures
        0 <= a * b <= la * lb,
{
    assert(0 <= a * b <= la * lb) by (nonlinear_arith)
        requires
            0 <= a <= la,
            0 <= b <= lb,
    ;
}

proof fn lemma_division_bounds(a: int, b: int)
    requires
        0 <= a,
        0 < b,
    ensures
        0 <= a / b <= a,
        0 <= a % b < b,
{
    assert(0 <= a / b <= a && 0 <= a % b < b) by (nonlinear_arith)
        requires
            0 <= a,
            0 < b,
    ;
}

/// MUL, byte form.
pub fn multiply_u8(r: &mut Registers, operand: u8)
    ensures
        *final(r) == mul_u8(*old(r), operand),
{
    let al = lo8(r.ax);
    proof {
        lemma_product_bound(al as int, operand as int, 255, 255);
    }
    let product: u16 = al as u16 * operand as u16;
    r.ax = product;
    r.flags.carry = product >= 0x100;
    r.flags.overflow = product >= 0x100;
}

fn magnitude8(v: u8) -> (m: u32)
    ensures
        m == abs(Width::Byte.signed(v as int)),
        m <= 0x80,
{
    if v >= 0x80 {
        0x100 - v as u32
    } else {
        v as u32
    }
}

fn magnitude16(v: u16) -> (m: u32)
    ensures
        m == abs(Width::Word.signed(v as int)),
        m <= 0x8000,
{
    if v >= 0x8000 {
        0x1_0000 - v as u32
    } else {
        v as u32
    }
}

/// IMUL, byte form; the operand is read as a two's complement number.
pub fn multiply_i8(r: &mut Registers, operand: u8)
    ensures
        *final(r) == mul_i8(*old(r), operand),
{
    let al = lo8(r.ax);
    let ma = magnitude8(al);
    let mb = magnitude8(operand);
    let negative = (al >= 0x80) != (operand >= 0x80);
    let ghost product = Width::Byte.signed(al as int) * Width::Byte.signed(operand as int);
    proof {
        lemma_product_bound(ma as int, mb as int, 0x80, 0x80);
        lemma_signed_product(Width::Byte.signed(al as int), Width::Byte.signed(operand as int));
    }
    let magnitude: u32 = ma * mb;
    assert(product == (if negative { -(magnitude as int) } else { magnitude as int }));
    let stored: u16 = if negative && magnitude != 0 {
        (0x1_0000 - magnitude) as u16
    } else {
        magnitude as u16
    };
    assert(stored as int == unsigned_of(Width::Word, product));
    let fits = if negative { magnitude <= 0x80 } else { magnitude < 0x80 };
    assert(fits == Width::Byte.fits_signed(product));
    r.ax = stored;
    r.flags.carry = !fits;
    r.flags.overflow = !fits;
}

/// MUL, word form.
pub fn multiply_u16(r: &mut Registers, operand: u16)
    ensures
        *final(r) == mul_u16(*old(r), operand),
{
    proof {
        lemma_product_bound(r.ax as int, operand as int, 0xFFFF, 0xFFFF);
    }
    let product: u32 = r.ax as u32 * operand as u32;
    r.ax = (product % 0x1_0000) as u16;
    r.dx = (product / 0x1_0000) as u16;
    r.flags.carry = product >= 0x1_0000;
    r.flags.overflow = product >= 0x1_0000;
}

/// The product of two numbers from the product of their magnitudes.
proof fn lemma_signed_product(sa: int, sb: int)
    ensures
        sa * sb == (if (sa < 0) != (sb < 0) { -(abs(sa) * abs(sb)) } else { abs(sa) * abs(sb) }),
{
    assert(sa * sb == (if (sa < 0) != (sb < 0) { -(abs(sa) * abs(sb)) } else { abs(sa) * abs(sb) }))
        by (nonlinear_arith);
}

/// IMUL, word form; the operand is read as a two's complement number.
pub fn multiply_i16(r: &mut Registers, operand: u16)
    ensures
        *final(r) == mul_i16(*old(r), operand),
{
    let ax = r.ax;
    let ma = magnitude16(ax);
    let mb = magnitude16(operand);
    let negative = (ax >= 0x8000) != (operand >= 0x8000);
    let ghost product = Width::Word.signed(ax as int) * Width::Word.signed(operand as int);
    proof {
        lemma_product_bound(ma as int, mb as int, 0x8000, 0x8000);
        lemma_signed_product(Width::Word.signed(ax as int), Width::Word.signed(operand as int));
    }
    let magnitude: u64 = ma as u64 * mb as u64;
    assert(product == (if negative { -(magnitude as int) } else { magnitude as int }));
    let stored: u64 = if negative && magnitude != 0 {
        0x1_0000_0000 - magnitude
    } else {
        magnitude
    };
    assert(stored as int == (if product < 0 { product + 0x1_0000_0000 } else { product }));
    let fits = if negative { magnitude <= 0x8000 } else { magnitude < 0x8000 };
    assert(fits == Width::Word.fits_signed(product));
    r.ax = (stored % 0x1_0000) as u16;
    r.dx = (stored / 0x1_0000) as u16;
    r.flags.carry = !fits;
    r.flags.overflow = !fits;
}

/// Divides AX by a byte. Returns whether the quotient was stored.
pub fn divide_u8(r: &mut Registers, operand: u8) -> (ok: bool)
    ensures
        ok == div_u8_ok(*old(r), operand),
        ok ==> *final(r) == div_u8(*old(r), operand),
        !ok ==> *final(r) == *old(r),
{
    if operand == 0 {
        return false;
    }
    proof {
        lemma_division_bounds(r.ax as int, operand as int);
    }
    let quotient: u16 = r.ax / operand as u16;
    let remainder: u16 = r.ax % operand as u16;
    if quotient > 0xFF {
        return false;
    }
    r.ax = remainder * 256 + quotient;
    true
}

/// Divides DX:AX by a word. Returns whether the quotient was stored.
pub fn divide_u16(r: &mut Registers, operand: u16) -> (ok: bool)
    ensures
        ok == div_u16_ok(*old(r), operand),
        ok ==> *final(r) == div_u16(*old(r), operand),
        !ok ==> *final(r) == *old(r),
{
    if operand == 0 {
        return false;
    }
    let dividend: u32 = r.dx as u32 * 0x1_0000 + r.ax as u32;
    proof {
        lemma_division_bounds(dividend as int, operand as int);
    }
    let quotient: u32 = dividend / operand as u32;
    let remainder: u32 = dividend % operand as u32;
    if quotient > 0xFFFF {
        return false;
    }
    r.ax = quotient as u16;
    r.dx = remainder as u16;
    true
}

/// Divides AX by a byte, both signed. Returns whether the quotient was stored.
pub fn divide_i8(r: &mut Registers, operand: u8) -> (ok: bool)
    ensures
        ok == div_i8_ok(*old(r), operand),
        ok ==> *final(r) == div_i8(*old(r), operand),
        !ok ==> *final(r) == *old(r),
{
    if operand == 0 {
        return false;
    }
    let ax = r.ax;
    let ma = magnitude16(ax);
    let mb = magnitude8(operand);
    proof {
        lemma_division_bounds(ma as int, mb as int);
    }
    let quotient: u32 = ma / mb;
    let remainder: u32 = ma % mb;
    if quotient > 0x7F {
        return false;
    }
    let negative = (ax >= 0x8000) != (operand >= 0x80);
    let al: u8 = if negative && quotient != 0 { (0x100 - quotient) as u8 } else { quotient as u8 };
    let ah: u8 = if ax >= 0x8000 && remainder != 0 {
        (0x100 - remainder) as u8
    } else {
        remainder as u8
    };
    r.ax = word_of(ah, al);
    true
}

/// Divides DX:AX by a word, both signed. Returns whether the quotient was
/// stored.
pub fn divide_i16(r: &mut Registers, operand: u16) -> (ok: bool)
    ensures
        ok == div_i16_ok(*old(r), operand),
        ok ==> *final(r) == div_i16(*old(r), operand),
        !ok ==> *final(r) == *old(r),
{
    if operand == 0 {
        return false;
    }
    let dividend: u64 = r.dx as u64 * 0x1_0000 + r.ax as u64;
    let dividend_negative = r.dx >= 0x8000;
    let ma: u64 = if dividend_negative { 0x1_0000_0000 - dividend } else { dividend };
    let mb: u64 = magnitude16(operand) as u64;
    proof {
        lemma_division_bounds(ma as int, mb as int);
    }
    let quotient: u64 = ma / mb;
    let remainder: u64 = ma % mb;
    if quotient > 0x7FFF {
        return false;
    }
    let negative = dividend_negative != (operand >= 0x8000);
    r.ax = if negative && quotient != 0 { (0x1_0000 - quotient) as u16 } else { quotient as u16 };
    r.dx = if dividend_negative && remainder != 0 {
        (0x1_0000 - remainder) as u16
    } else {
        remainder as u16
    };
    true
}

/// A division by zero never succeeds, at either width, signed or not.
pub proof fn lemma_divide_by_zero_fails(r: Registers)
    ensures
        !div_u8_ok(r, 0),
        !div_i8_ok(r, 0),
        !div_u16_ok(r, 0),
        !div_i16_ok(r, 0),
{
}

/// An unsigned division that succeeds stores the quotient and the remainder
/// of the dividend: quotient * divisor + remainder is the dividend, and the
/// remainder is smaller than the divisor.
pub proof fn lemma_div_u8_is_division(r: Registers, operand: u8)
    requires
        div_u8_ok(r, operand),
    ensures
        div_u8(r, operand).get8(Register8::AL) * operand + div_u8(
            r,
            operand,
        ).get8(Register8::AH) == r.ax,
        div_u8(r, operand).get8(Register8::AH) < operand,
{
    let q = r.ax as int / operand as int;
    let m = r.ax as int % operand as int;
    lemma_division_bounds(r.ax as int, operand as int);
    assert(q * operand + m == r.ax) by (nonlinear_arith)
        requires
            q == r.ax as int / operand as int,
            m == r.ax as int % operand as int,
            operand > 0,
    ;
    lemma_word_bytes(m as u8, q as u8, 0);
}

} // verus!
