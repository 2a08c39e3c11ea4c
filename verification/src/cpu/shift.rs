//! Shifts and rotates. The processor moves one bit per step and repeats the
//! step as often as the count says, so the result of a count is the result of
//! that many single steps.

use vstd::prelude::*;
use crate::cpu::alu::{set_szp_flags16, set_szp_flags8, with_szp, Width};
use crate::cpu::instruction::Mnemonic;
use crate::cpu::registers::Flags;

verus! {

/// The mnemonics of the shifts and rotates.
pub open spec fn is_shift_mnemonic(m: Mnemonic) -> bool {
    match m {
        Mnemonic::ROL
        | Mnemonic::ROR
        | Mnemonic::RCL
        | Mnemonic::RCR
        | Mnemonic::SHL
        | Mnemonic::SHR
        | Mnemonic::SAR => true,
        _ => false,
    }
}

/// Whether the top bit of a value of width `w` is set.
pub open spec fn top_bit(w: Width, v: int) -> bool {
    v >= w.sign_threshold()
}

/// Whether the bit below the top bit is set.
pub open spec fn second_bit(w: Width, v: int) -> bool {
    (v / (w.sign_threshold() / 2)) % 2 == 1
}

/// The weight of a bit if it is set, zero otherwise.
pub open spec fn bit_value(b: bool, weight: int) -> int {
    if b { weight } else { 0 }
}

/// One step of a shift or rotate: the value moved by one bit, the bit that
/// left it in the carry flag, and the overflow flag telling whether the sign
/// changed. The three shifts also set zero, sign and parity.
pub open spec fn shift_step(w: Width, m: Mnemonic, v: int, f: Flags) -> (int, Flags) {
    let top = top_bit(w, v);
    let low = v % 2 == 1;
    let left = (v * 2) % w.modulus();
    let right = v / 2;
    match m {
        Mnemonic::ROL => {
            let r = left + bit_value(top, 1);
            (r, Flags { carry: top, overflow: top_bit(w, r) != top, ..f })
        },
        Mnemonic::RCL => {
            let r = left + bit_value(f.carry, 1);
            (r, Flags { carry: top, overflow: top_bit(w, r) != top, ..f })
        },
        Mnemonic::ROR => {
            let r = right + bit_value(low, w.sign_threshold());
            (r, Flags { carry: low, overflow: top_bit(w, r) != second_bit(w, r), ..f })
        },
        Mnemonic::RCR => {
            let r = right + bit_value(f.carry, w.sign_threshold());
            (r, Flags { carry: low, overflow: top_bit(w, r) != second_bit(w, r), ..f })
        },
        Mnemonic::SHL => (
            left,
            with_szp(w, left, Flags { carry: top, overflow: top_bit(w, left) != top, ..f }),
        ),
        Mnemonic::SHR => (right, with_szp(w, right, Flags { carry: low, overflow: top, ..f })),
        Mnemonic::SAR => {
            let r = right + bit_value(top, w.sign_threshold());
            (r, with_szp(w, r, Flags { carry: low, overflow: false, ..f }))
        },
        _ => (v, f),
    }
}

/// `count` steps, one after the other. A count of zero changes nothing.
pub open spec fn shift_by(w: Width, m: Mnemonic, v: int, f: Flags, count: nat) -> (int, Flags)
    decreases count,
{
    if count == 0 {
        (v, f)
    } else {
        let before = shift_by(w, m, v, f, (count - 1) as nat);
        shift_step(w, m, before.0, before.1)
    }
}

/// A count of zero moves no bit and touches no flag; a count of one is one
/// step.
pub proof fn lemma_shift_by_zero_and_one(w: Width, m: Mnemonic, v: int, f: Flags)
    ensures
        shift_by(w, m, v, f, 0) == (v, f),
        shift_by(w, m, v, f, 1) == shift_step(w, m, v, f),
{
    reveal_with_fuel(shift_by, 2);
}

/// A step keeps the value within its width.
pub proof fn lemma_shift_step_fits(w: Width, m: Mnemonic, v: int, f: Flags)
    requires
        w.fits(v),
    ensures
        w.fits(shift_step(w, m, v, f).0),
{
}

/// Any number of steps keeps the value within its width.
pub proof fn lemma_shift_by_fits(w: Width, m: Mnemonic, v: int, f: Flags, count: nat)
    requires
        w.fits(v),
    ensures
        w.fits(shift_by(w, m, v, f, count).0),
    decreases count,
{
    if count > 0 {
        lemma_shift_by_fits(w, m, v, f, (count - 1) as nat);
        let before = shift_by(w, m, v, f, (count - 1) as nat);
        lemma_shift_step_fits(w, m, before.0, before.1);
    }
}

fn doubled8(v: u8) -> (r: u8)
    ensures
        r as int == (v * 2) % 0x100,
        r as int == (if v >= 0x80 { 2 * v - 0x100 } else { 2 * v }),
{
    if v >= 0x80 {
        (v - 0x80) * 2
    } else {
        v * 2
    }
}

fn rotate_left8(flags: &mut Flags, m: Mnemonic, v: u8) -> (r: u8)
    requires
        m == Mnemonic::ROL || m == Mnemonic::RCL,
    ensures
        (r as int, *final(flags)) == shift_step(Width::Byte, m, v as int, *old(flags)),
{
    let top = v >= 0x80;
    let left = doubled8(v);
    let fill = if m == Mnemonic::ROL { top } else { flags.carry };
    let r: u8 = if fill { left + 1 } else { left };
    flags.carry = top;
    flags.overflow = (r >= 0x80) != top;
    r
}

fn rotate_right8(flags: &mut Flags, m: Mnemonic, v: u8) -> (r: u8)
    requires
        m == Mnemonic::ROR || m == Mnemonic::RCR,
    ensures
        (r as int, *final(flags)) == shift_step(Width::Byte, m, v as int, *old(flags)),
{
    let low = v % 2 == 1;
    let right: u8 = v / 2;
    let fill = if m == Mnemonic::ROR { low } else { flags.carry };
    let r: u8 = if fill { right + 0x80 } else { right };
    flags.carry = low;
    flags.overflow = (r >= 0x80) != ((r / 0x40) % 2 == 1);
    r
}

fn shift_left8(flags: &mut Flags, v: u8) -> (r: u8)
    ensures
        (r as int, *final(flags)) == shift_step(Width::Byte, Mnemonic::SHL, v as int, *old(flags)),
{
    let top = v >= 0x80;
    let left = doubled8(v);
    flags.carry = top;
    flags.overflow = (left >= 0x80) != top;
    set_szp_flags8(flags, left);
    left
}

fn shift_right8(flags: &mut Flags, m: Mnemonic, v: u8) -> (r: u8)
    requires
        m == Mnemonic::SHR || m == Mnemonic::SAR,
    ensures
        (r as int, *final(flags)) == shift_step(Width::Byte, m, v as int, *old(flags)),
{
    let top = v >= 0x80;
    let right: u8 = v / 2;
    let r: u8 = if m == Mnemonic::SAR && top { right + 0x80 } else { right };
    flags.carry = v % 2 == 1;
    flags.overflow = m == Mnemonic::SHR && top;
    set_szp_flags8(flags, r);
    r
}

fn step8(flags: &mut Flags, m: Mnemonic, v: u8) -> (r: u8)
    requires
        is_shift_mnemonic(m),
    ensures
        (r as int, *final(flags)) == shift_step(Width::Byte, m, v as int, *old(flags)),
{
    match m {
        Mnemonic::ROL | Mnemonic::RCL => rotate_left8(flags, m, v),
        Mnemonic::ROR | Mnemonic::RCR => rotate_right8(flags, m, v),
        Mnemonic::SHL => shift_left8(flags, v),
        _ => shift_right8(flags, m, v),
    }
}

fn doubled16(v: u16) -> (r: u16)
    ensures
        r as int == (v * 2) % 0x1_0000,
        r as int == (if v >= 0x8000 { 2 * v - 0x1_0000 } else { 2 * v }),
{
    if v >= 0x8000 {
        (v - 0x8000) * 2
    } else {
        v * 2
    }
}

fn rotate_left16(flags: &mut Flags, m: Mnemonic, v: u16) -> (r: u16)
    requires
        m == Mnemonic::ROL || m == Mnemonic::RCL,
    ensures
        (r as int, *final(flags)) == shift_step(Width::Word, m, v as int, *old(flags)),
{
    let top = v >= 0x8000;
    let left = doubled16(v);
    let fill = if m == Mnemonic::ROL { top } else { flags.carry };
    let r: u16 = if fill { left + 1 } else { left };
    flags.carry = top;
    flags.overflow = (r >= 0x8000) != top;
    r
}

fn rotate_right16(flags: &mut Flags, m: Mnemonic, v: u16) -> (r: u16)
    requires
        m == Mnemonic::ROR || m == Mnemonic::RCR,
    ensures
        (r as int, *final(flags)) == shift_step(Width::Word, m, v as int, *old(flags)),
{
    let low = v % 2 == 1;
    let right: u16 = v / 2;
    let fill = if m == Mnemonic::ROR { low } else { flags.carry };
    let r: u16 = if fill { right + 0x8000 } else { right };
    flags.carry = low;
    flags.overflow = (r >= 0x8000) != ((r / 0x4000) % 2 == 1);
    r
}

fn shift_left16(flags: &mut Flags, v: u16) -> (r: u16)
    ensures
        (r as int, *final(flags)) == shift_step(Width::Word, Mnemonic::SHL, v as int, *old(flags)),
{
    let top = v >= 0x8000;
    let left = doubled16(v);
    flags.carry = top;
    flags.overflow = (left >= 0x8000) != top;
    set_szp_flags16(flags, left);
    left
}

fn shift_right16(flags: &mut Flags, m: Mnemonic, v: u16) -> (r: u16)
    requires
        m == Mnemonic::SHR || m == Mnemonic::SAR,
    ensures
        (r as int, *final(flags)) == shift_step(Width::Word, m, v as int, *old(flags)),
{
    let top = v >= 0x8000;
    let right: u16 = v / 2;
    let r: u16 = if m == Mnemonic::SAR && top { right + 0x8000 } else { right };
    flags.carry = v % 2 == 1;
    flags.overflow = m == Mnemonic::SHR && top;
    set_szp_flags16(flags, r);
    r
}

fn step16(flags: &mut Flags, m: Mnemonic, v: u16) -> (r: u16)
    requires
        is_shift_mnemonic(m),
    ensures
        (r as int, *final(flags)) == shift_step(Width::Word, m, v as int, *old(flags)),
{
    match m {
        Mnemonic::ROL | Mnemonic::RCL => rotate_left16(flags, m, v),
        Mnemonic::ROR | Mnemonic::RCR => rotate_right16(flags, m, v),
        Mnemonic::SHL => shift_left16(flags, v),
        _ => shift_right16(flags, m, v),
    }
}

/// Shifts or rotates a byte by `count` single steps and sets the flags.
pub fn bitshift_op8(flags: &mut Flags, mnemonic: Mnemonic, value: u8, count: u8) -> (r: u8)
    requires
        is_shift_mnemonic(mnemonic),
    ensures
        (r as int, *final(flags)) == shift_by(
            Width::Byte,
            mnemonic,
            value as int,
            *old(flags),
            count as nat,
        ),
{
    let mut r: u8 = value;
    let mut done: u8 = 0;
    while done < count
        invariant
            is_shift_mnemonic(mnemonic),
            done <= count,
            (r as int, *flags) == shift_by(
                Width::Byte,
                mnemonic,
                value as int,
                *old(flags),
                done as nat,
            ),
        decreases count - done,
    {
        r = step8(flags, mnemonic, r);
        done = done + 1;
    }
    r
}

/// Shifts or rotates a word by `count` single steps and sets the flags.
pub fn bitshift_op16(flags: &mut Flags, mnemonic: Mnemonic, value: u16, count: u8) -> (r: u16)
    requires
        is_shift_mnemonic(mnemonic),
    ensures
        (r as int, *final(flags)) == shift_by(
            Width::Word,
            mnemonic,
            value as int,
            *old(flags),
            count as nat,
        ),
{
    let mut r: u16 = value;
    let mut done: u8 = 0;
    while done < count
        invariant
            is_shift_mnemonic(mnemonic),
            done <= count,
            (r as int, *flags) == shift_by(
                Width::Word,
                mnemonic,
                value as int,
                *old(flags),
                done as nat,
            ),
        decreases count - done,
    {
        r = step16(flags, mnemonic, r);
        done = done + 1;
    }
    r
}

} // verus!
