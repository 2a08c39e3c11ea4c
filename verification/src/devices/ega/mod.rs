//! The IBM Enhanced Graphics Adapter, as far as the processor's window onto
//! its memory needs it.

pub mod graphics_controller;
pub mod sequencer;

use vstd::prelude::*;

verus! {

pub const EGA_MEM_ADDRESS: usize = 0xA0000;
pub const EGA_MEM_END_128: usize = 0xBFFFF;
pub const EGA_MEM_END_64: usize = 0xAFFFF;
pub const CGA_MEM_ADDRESS: usize = 0xB8000;
pub const CGA_MEM_END: usize = 0xBFFFF;
/// The bytes of one memory plane.
pub const EGA_PLANE_SIZE: usize = 0x1_0000;
pub const EGA_PLANES: usize = 4;

/// Two to the power of `n`, for `n` up to eight.
pub open spec fn pow2(n: int) -> int {
    if n <= 0 {
        1
    } else if n == 1 {
        2
    } else if n == 2 {
        4
    } else if n == 3 {
        8
    } else if n == 4 {
        16
    } else if n == 5 {
        32
    } else if n == 6 {
        64
    } else if n == 7 {
        128
    } else {
        256
    }
}

/// Computes two to the power of `n`.
pub fn power_of_two(n: u8) -> (p: u16)
    requires
        n <= 8,
    ensures
        p == pow2(n as int),
        1 <= p <= 256,
{
    if n == 0 {
        1
    } else if n == 1 {
        2
    } else if n == 2 {
        4
    } else if n == 3 {
        8
    } else if n == 4 {
        16
    } else if n == 5 {
        32
    } else if n == 6 {
        64
    } else if n == 7 {
        128
    } else {
        256
    }
}

/// Whether bit `n` of a byte is set.
pub open spec fn bit_of(byte: u8, n: int) -> bool {
    (byte as int / pow2(n)) % 2 == 1
}

/// Tests bit `n` of a byte.
pub fn test_bit(byte: u8, n: u8) -> (b: bool)
    requires
        n < 8,
    ensures
        b == bit_of(byte, n as int),
{
    (byte as u16 / power_of_two(n)) % 2 == 1
}

/// A byte rotated right by `count` bits: the bits that leave at the bottom
/// come back at the top.
pub open spec fn rotated_right(byte: u8, count: int) -> u8 {
    (byte as int / pow2(count) + (byte as int % pow2(count)) * pow2(8 - count)) as u8
}

/// Rotates a byte right by `count` bits.
pub fn rotate_right_u8(byte: u8, count: u8) -> (r: u8)
    requires
        count < 8,
    ensures
        r == rotated_right(byte, count as int),
{
    let low = power_of_two(count);
    let high = power_of_two(8 - count);
    let kept: u16 = byte as u16 / low;
    let wrapped: u16 = byte as u16 % low;
    assert(kept + wrapped * high < 256) by {
        assert(low * high == 256);
        assert(wrapped * high <= (low - 1) * high) by (nonlinear_arith)
            requires
                0 <= wrapped <= low - 1,
                high > 0,
        ;
        assert((low - 1) * high == 256 - high) by (nonlinear_arith)
            requires
                low * high == 256,
        ;
        assert(kept * low <= byte) by (nonlinear_arith)
            requires
                kept == byte as u16 / low,
                low > 0,
        ;
        assert(kept < high) by (nonlinear_arith)
            requires
                kept * low <= byte,
                byte < 256,
                low * high == 256,
                low > 0,
                kept >= 0,
                high > 0,
        ;
    }
    (kept + wrapped * high) as u8
}

} // verus!
