//! Memory as the bus unit reaches it: byte transfers over a twenty-bit
//! address bus, four clock cycles each.

use vstd::prelude::*;
use crate::cpu::instruction::ReadWriteFlag;
use crate::cpu::machine::{Cpu, CpuView, MEMORY_SIZE};
use crate::cpu::registers::{
    hi8, high_byte, lemma_word_bytes, lo8, low_byte, make_word, word_of,
};

verus! {

/// The physical address of `offset` in the segment that starts at
/// `segment * 16`; addresses wrap at one megabyte.
#[verifier::opaque]
pub open spec fn linear_address(segment: u16, offset: u16) -> int {
    (segment * 16 + offset) % 0x10_0000
}

/// The address after `addr`, wrapping at one megabyte.
#[verifier::opaque]
pub open spec fn next_address(addr: int) -> int {
    (addr + 1) % 0x10_0000
}

/// The cycles of one byte transfer: four, or three where the transfer ends
/// the instruction.
pub open spec fn bus_cost(flag: ReadWriteFlag) -> int {
    match flag {
        ReadWriteFlag::Normal => 4,
        ReadWriteFlag::RNI => 3,
    }
}

impl CpuView {
    /// The byte at a physical address.
    pub open spec fn byte_at(self, addr: int) -> u8 {
        self.memory[addr]
    }

    /// The little-endian word at `addr`.
    pub open spec fn word_at(self, addr: int) -> u16 {
        make_word(self.memory[next_address(addr)], self.memory[addr])
    }

    /// The state with one byte of memory replaced.
    pub open spec fn store_byte(self, addr: int, value: u8) -> CpuView {
        CpuView { memory: self.memory.update(addr, value), ..self }
    }

    /// The state with a little-endian word of memory replaced.
    pub open spec fn store_word(self, addr: int, value: u16) -> CpuView {
        self.store_byte(addr, low_byte(value)).store_byte(next_address(addr), high_byte(value))
    }

    /// A byte is written over the bus.
    pub open spec fn bus_write_u8(self, addr: int, value: u8, flag: ReadWriteFlag) -> CpuView {
        self.store_byte(addr, value).spend(bus_cost(flag))
    }

    /// A word is written over the bus, low byte first.
    pub open spec fn bus_write_u16(self, addr: int, value: u16, flag: ReadWriteFlag) -> CpuView {
        self.store_word(addr, value).spend(4 + bus_cost(flag))
    }
}

/// Forms the physical address of `segment:offset`.
pub fn calc_linear_address(segment: u16, offset: u16) -> (addr: u32)
    ensures
        addr == linear_address(segment, offset),
        addr < MEMORY_SIZE,
{
    reveal(linear_address);
    (segment as u32 * 16 + offset as u32) % 0x10_0000
}

/// The physical address after `addr`, wrapping at one megabyte.
pub fn next_linear_address(addr: u32) -> (next: u32)
    requires
        addr < MEMORY_SIZE,
    ensures
        next == next_address(addr as int),
        next < MEMORY_SIZE,
{
    reveal(next_address);
    (addr + 1) % 0x10_0000
}

fn bus_cycles(flag: ReadWriteFlag) -> (n: u32)
    ensures
        n == bus_cost(flag),
{
    match flag {
        ReadWriteFlag::Normal => 4,
        ReadWriteFlag::RNI => 3,
    }
}

impl Cpu {
    /// Reads memory without spending time.
    pub fn peek_u8(&self, addr: u32) -> (value: u8)
        requires
            self.wf(),
            addr < MEMORY_SIZE,
        ensures
            value == self@.byte_at(addr as int),
    {
        self.memory[addr as usize]
    }

    /// Reads a word without spending time.
    pub fn peek_u16(&self, addr: u32) -> (value: u16)
        requires
            self.wf(),
            addr < MEMORY_SIZE,
        ensures
            value == self@.word_at(addr as int),
    {
        let low = self.memory[addr as usize];
        let high = self.memory[next_linear_address(addr) as usize];
        word_of(high, low)
    }

    /// Writes memory without spending time.
    pub fn poke_u8(&mut self, addr: u32, value: u8)
        requires
            old(self).wf(),
            addr < MEMORY_SIZE,
        ensures
            final(self)@ == old(self)@.store_byte(addr as int, value),
            final(self).wf(),
    {
        self.memory.set(addr as usize, value);
    }

    /// Reads a byte over the bus.
    pub fn biu_read_u8(&mut self, addr: u32, flag: ReadWriteFlag) -> (value: u8)
        requires
            old(self).wf(),
            addr < MEMORY_SIZE,
        ensures
            value == old(self)@.byte_at(addr as int),
            final(self)@ == old(self)@.spend(bus_cost(flag)),
            final(self).wf(),
    {
        let value = self.memory[addr as usize];
        self.cycles(bus_cycles(flag));
        value
    }

    /// Reads a word over the bus, low byte first.
    pub fn biu_read_u16(&mut self, addr: u32, flag: ReadWriteFlag) -> (value: u16)
        requires
            old(self).wf(),
            addr < MEMORY_SIZE,
        ensures
            value == old(self)@.word_at(addr as int),
            final(self)@ == old(self)@.spend(4 + bus_cost(flag)),
            final(self).wf(),
    {
        let value = self.peek_u16(addr);
        self.cycles(4 + bus_cycles(flag));
        value
    }

    /// Writes a byte over the bus.
    pub fn biu_write_u8(&mut self, addr: u32, value: u8, flag: ReadWriteFlag)
        requires
            old(self).wf(),
            addr < MEMORY_SIZE,
        ensures
            final(self)@ == old(self)@.bus_write_u8(addr as int, value, flag),
            final(self).wf(),
    {
        self.memory.set(addr as usize, value);
        self.cycles(bus_cycles(flag));
    }

    /// Writes a word over the bus, low byte first.
    pub fn biu_write_u16(&mut self, addr: u32, value: u16, flag: ReadWriteFlag)
        requires
            old(self).wf(),
            addr < MEMORY_SIZE,
        ensures
            final(self)@ == old(self)@.bus_write_u16(addr as int, value, flag),
            final(self).wf(),
    {
        self.memory.set(addr as usize, lo8(value));
        self.memory.set(next_linear_address(addr) as usize, hi8(value));
        self.cycles(4 + bus_cycles(flag));
    }
}

/// A word that was stored is read back, and a store changes no other byte.
pub proof fn lemma_store_word_then_read(s: CpuView, addr: int, value: u16, other: int)
    requires
        s.wf(),
        0 <= addr < MEMORY_SIZE,
        0 <= other < MEMORY_SIZE,
        other != addr,
        other != next_address(addr),
    ensures
        s.store_word(addr, value).word_at(addr) == value,
        s.store_word(addr, value).byte_at(other) == s.byte_at(other),
        s.store_word(addr, value).wf(),
{
    reveal(next_address);
    lemma_word_bytes(0, 0, value);
}

} // verus!
