//! Decimal and ASCII adjustment of the accumulator.

use vstd::prelude::*;
use crate::cpu::alu::{lemma_wrapped_difference, set_szp_flags8, with_szp, Width};
use crate::cpu::registers::{hi8, lo8, word_of, make_word, low_byte, high_byte, Flags, Registers};

verus! {

/// Whether the low digit of AL needs adjusting: it is above nine, or the last
/// operation carried out of it.
pub open spec fn low_digit_adjusts(r: Registers) -> bool {
    low_byte(r.ax) % 16 > 9 || r.flags.aux_carry
}

/// Whether the high digit of AL needs adjusting.
pub open spec fn high_digit_adjusts(r: Registers) -> bool {
    low_byte(r.ax) > 0x99 || r.flags.carry
}

/// DAA: AL is corrected to two packed decimal digits after an addition.
pub open spec fn daa_result(r: Registers) -> Registers {
    let al = low_byte(r.ax) as int;
    let low = low_digit_adjusts(r);
    let high = high_digit_adjusts(r);
    let step1 = if low { al + 6 } else { al };
    let step2 = if high { step1 + 0x60 } else { step1 };
    let value = step2 % 256;
    Registers {
        ax: make_word(high_byte(r.ax), value as u8),
        flags: with_szp(
            Width::Byte,
            value,
            Flags { aux_carry: low, carry: high, ..r.flags },
        ),
        ..r
    }
}

/// DAS: AL is corrected to two packed decimal digits after a subtraction.
pub open spec fn das_result(r: Registers) -> Registers {
    let al = low_byte(r.ax) as int;
    let low = low_digit_adjusts(r);
    let high = high_digit_adjusts(r);
    let step1 = if low { al - 6 } else { al };
    let step2 = if high { step1 - 0x60 } else { step1 };
    let value = step2 % 256;
    Registers {
        ax: make_word(high_byte(r.ax), value as u8),
        flags: with_szp(
            Width::Byte,
            value,
            Flags { aux_carry: low, carry: high || (low && (r.flags.carry || al < 6)), ..r.flags },
        ),
        ..r
    }
}

/// AAA: AL is corrected to one unpacked decimal digit after an addition, and
/// the carry goes to AH.
pub open spec fn aaa_result(r: Registers) -> Registers {
    let al = low_byte(r.ax) as int;
    let ah = high_byte(r.ax) as int;
    let adjust = low_digit_adjusts(r);
    let new_al = if adjust { (al + 6) % 16 } else { al % 16 };
    let new_ah = if adjust { (ah + 1) % 256 } else { ah };
    Registers {
        ax: make_word(new_ah as u8, new_al as u8),
        flags: Flags { aux_carry: adjust, carry: adjust, ..r.flags },
        ..r
    }
}

/// AAS: AL is corrected to one unpacked decimal digit after a subtraction,
/// and the borrow is taken from AH.
pub open spec fn aas_result(r: Registers) -> Registers {
    let al = low_byte(r.ax) as int;
    let ah = high_byte(r.ax) as int;
    let adjust = low_digit_adjusts(r);
    let new_al = if adjust { (al - 6) % 16 } else { al % 16 };
    let new_ah = if adjust { (ah - 1) % 256 } else { ah };
    Registers {
        ax: make_word(new_ah as u8, new_al as u8),
        flags: Flags { aux_carry: adjust, carry: adjust, ..r.flags },
        ..r
    }
}

/// AAM: AL is split into two digits of the given base, the high one in AH.
pub open spec fn aam_result(r: Registers, base: u8) -> Registers {
    let al = low_byte(r.ax);
    let new_al = al % base;
    Registers {
        ax: make_word(al / base, new_al),
        flags: with_szp(Width::Byte, new_al as int, r.flags),
        ..r
    }
}

/// AAD: the two digits in AH and AL are joined into AL, and AH is cleared.
pub open spec fn aad_result(r: Registers, base: u8) -> Registers {
    let value = (low_byte(r.ax) + high_byte(r.ax) * base) % 256;
    Registers {
        ax: make_word(0, value as u8),
        flags: with_szp(Width::Byte, value, r.flags),
        ..r
    }
}

/// Decimal adjust after addition.
pub fn daa(r: &mut Registers)
    ensures
        *final(r) == daa_result(*old(r)),
{
    let al = lo8(r.ax);
    let low = al % 16 > 9 || r.flags.aux_carry;
    let high = al > 0x99 || r.flags.carry;
    let mut sum: u16 = al as u16;
    if low {
        sum = sum + 6;
    }
    if high {
        sum = sum + 0x60;
    }
    let value: u8 = (sum % 256) as u8;
    r.ax = word_of(hi8(r.ax), value);
    r.flags.aux_carry = low;
    r.flags.carry = high;
    set_szp_flags8(&mut r.flags, value);
}

/// Decimal adjust after subtraction.
pub fn das(r: &mut Registers)
    ensures
        *final(r) == das_result(*old(r)),
{
    let al = lo8(r.ax);
    let low = al % 16 > 9 || r.flags.aux_carry;
    let high = al > 0x99 || r.flags.carry;
    let borrow = low && (r.flags.carry || al < 6);
    let mut diff: i32 = al as i32;
    if low {
        diff = diff - 6;
    }
    if high {
        diff = diff - 0x60;
    }
    let value: u8 = if diff < 0 { (diff + 0x100) as u8 } else { diff as u8 };
    proof {
        lemma_wrapped_difference(Width::Byte, diff as int);
    }
    r.ax = word_of(hi8(r.ax), value);
    r.flags.aux_carry = low;
    r.flags.carry = high || borrow;
    set_szp_flags8(&mut r.flags, value);
}

/// ASCII adjust after addition.
pub fn aaa(r: &mut Registers)
    ensures
        *final(r) == aaa_result(*old(r)),
{
    let al = lo8(r.ax);
    let ah = hi8(r.ax);
    let adjust = al % 16 > 9 || r.flags.aux_carry;
    let new_al: u8 = if adjust { ((al as u16 + 6) % 16) as u8 } else { al % 16 };
    let new_ah: u8 = if adjust { ((ah as u16 + 1) % 256) as u8 } else { ah };
    r.ax = word_of(new_ah, new_al);
    r.flags.aux_carry = adjust;
    r.flags.carry = adjust;
}

/// ASCII adjust after subtraction.
pub fn aas(r: &mut Registers)
    ensures
        *final(r) == aas_result(*old(r)),
{
    let al = lo8(r.ax);
    let ah = hi8(r.ax);
    let adjust = al % 16 > 9 || r.flags.aux_carry;
    let new_al: u8 = if adjust { ((al as u16 + 10) % 16) as u8 } else { al % 16 };
    let new_ah: u8 = if adjust { ((ah as u16 + 255) % 256) as u8 } else { ah };
    r.ax = word_of(new_ah, new_al);
    r.flags.aux_carry = adjust;
    r.flags.carry = adjust;
}

/// ASCII adjust after multiplication; the base must not be zero.
pub fn aam(r: &mut Registers, base: u8)
    requires
        base != 0,
    ensures
        *final(r) == aam_result(*old(r), base),
{
    let al = lo8(r.ax);
    let new_al: u8 = al % base;
    r.ax = word_of(al / base, new_al);
    set_szp_flags8(&mut r.flags, new_al);
}

/// ASCII adjust before division.
pub fn aad(r: &mut Registers, base: u8)
    ensures
        *final(r) == aad_result(*old(r), base),
{
    let al = lo8(r.ax);
    let ah = hi8(r.ax);
    assert(0 <= ah * base <= 255 * 255) by (nonlinear_arith)
        requires
            0 <= ah <= 255,
            0 <= base <= 255,
    ;
    let value: u8 = ((al as u32 + ah as u32 * base as u32) % 256) as u8;
    r.ax = word_of(0, value);
    set_szp_flags8(&mut r.flags, value);
}

} // verus!
