//! The memory of the PC-98 graphics subsystem as the processor sees it.

use vstd::prelude::*;
use crate::cpu::registers::{hi8, high_byte, lo8, low_byte, make_word, word_of};
use crate::devices::pc98_graphics::{PC98Graphics, PC98GraphicsView};
use crate::devices::videocard::MemRangeDescriptor;

verus! {

pub const PC98_TEXT_BASE: usize = 0xa0000;
pub const PC98_TEXT_END: usize = 0xa3fff;
pub const PC98_GRAPHICS_BASE: usize = 0xa8000;
pub const PC98_GRAPHICS_END: usize = 0xbffff;
pub const PC98_GRAPHICS_HIGH_BASE: usize = 0xe0000;
pub const PC98_GRAPHICS_HIGH_END: usize = 0xe7fff;

/// Whether the subsystem answers at this address.
pub open spec fn pc98_maps(address: int) -> bool {
    (PC98_TEXT_BASE <= address <= PC98_TEXT_END) || (PC98_GRAPHICS_BASE <= address
        <= PC98_GRAPHICS_END) || (PC98_GRAPHICS_HIGH_BASE <= address <= PC98_GRAPHICS_HIGH_END)
}

/// Whether an address falls into text memory.
pub open spec fn in_text_window(address: int) -> bool {
    PC98_TEXT_BASE <= address <= PC98_TEXT_END
}

/// The offset into graphics memory of an address in one of its two windows;
/// the high window shows the start of graphics memory again.
pub open spec fn graphics_offset(address: int) -> int {
    if address >= PC98_GRAPHICS_HIGH_BASE {
        address - PC98_GRAPHICS_HIGH_BASE
    } else {
        address - PC98_GRAPHICS_BASE
    }
}

impl PC98GraphicsView {
    /// The byte at a mapped address.
    pub open spec fn mapped_byte(self, address: int) -> u8 {
        if in_text_window(address) {
            self.tvmem[address - PC98_TEXT_BASE]
        } else {
            self.gvmem[graphics_offset(address)]
        }
    }

    /// The state after a byte was written to a mapped address.
    pub open spec fn store_mapped(self, address: int, byte: u8) -> PC98GraphicsView {
        if in_text_window(address) {
            PC98GraphicsView { tvmem: self.tvmem.update(address - PC98_TEXT_BASE, byte), ..self }
        } else {
            PC98GraphicsView { gvmem: self.gvmem.update(graphics_offset(address), byte), ..self }
        }
    }
}

impl PC98Graphics {
    /// The wait states of a read: none.
    pub fn get_read_wait(&mut self, _address: usize, _cycles: u32) -> (wait: u32)
        ensures
            wait == 0,
            final(self)@ == old(self)@,
            final(self).extents == old(self).extents,
    {
        0
    }

    /// The wait states of a write: none.
    pub fn get_write_wait(&mut self, _address: usize, _cycles: u32) -> (wait: u32)
        ensures
            wait == 0,
            final(self)@ == old(self)@,
            final(self).extents == old(self).extents,
    {
        0
    }

    /// Reads a byte without side effects.
    pub fn mmio_peek_u8(&self, address: usize) -> (byte: u8)
        requires
            self.wf(),
            pc98_maps(address as int),
        ensures
            byte == self@.mapped_byte(address as int),
    {
        if address <= PC98_TEXT_END {
            self.tvmem[address - PC98_TEXT_BASE]
        } else if address <= PC98_GRAPHICS_END {
            self.gvmem[address - PC98_GRAPHICS_BASE]
        } else {
            self.gvmem[address - PC98_GRAPHICS_HIGH_BASE]
        }
    }

    /// Reads a byte. Returns the byte and the wait states, which are none.
    pub fn mmio_read_u8(&mut self, address: usize, _cycles: u32) -> (r: (u8, u32))
        requires
            old(self).wf(),
            pc98_maps(address as int),
        ensures
            r.0 == old(self)@.mapped_byte(address as int),
            r.1 == 0,
            final(self)@ == old(self)@,
            final(self).wf(),
    {
        (self.mmio_peek_u8(address), 0)
    }

    /// Reads a little-endian word without side effects.
    pub fn mmio_peek_u16(&self, address: usize) -> (word: u16)
        requires
            self.wf(),
            pc98_maps(address as int),
            pc98_maps(address + 1),
        ensures
            word == make_word(
                self@.mapped_byte(address + 1),
                self@.mapped_byte(address as int),
            ),
    {
        let lo_byte = self.mmio_peek_u8(address);
        let ho_byte = self.mmio_peek_u8(address + 1);
        word_of(ho_byte, lo_byte)
    }

    /// Writes a byte. Returns the wait states, which are none.
    pub fn mmio_write_u8(&mut self, address: usize, byte: u8, _cycles: u32) -> (wait: u32)
        requires
            old(self).wf(),
            pc98_maps(address as int),
        ensures
            wait == 0,
            final(self)@ == old(self)@.store_mapped(address as int, byte),
            final(self).wf(),
    {
        if address <= PC98_TEXT_END {
            self.tvmem.set(address - PC98_TEXT_BASE, byte);
        } else if address <= PC98_GRAPHICS_END {
            self.gvmem.set(address - PC98_GRAPHICS_BASE, byte);
        } else {
            self.gvmem.set(address - PC98_GRAPHICS_HIGH_BASE, byte);
        }
        0
    }

    /// Reads a little-endian word. Returns the word and the wait states.
    pub fn mmio_read_u16(&mut self, address: usize, _cycles: u32) -> (r: (u16, u32))
        requires
            old(self).wf(),
            pc98_maps(address as int),
            pc98_maps(address + 1),
        ensures
            r.0 == make_word(
                old(self)@.mapped_byte(address + 1),
                old(self)@.mapped_byte(address as int),
            ),
            r.1 == 0,
            final(self)@ == old(self)@,
            final(self).wf(),
    {
        let (lo_byte, wait1) = self.mmio_read_u8(address, 0);
        let (ho_byte, wait2) = self.mmio_read_u8(address + 1, 0);
        (word_of(ho_byte, lo_byte), wait1 + wait2)
    }

    /// Writes a little-endian word, low byte first. Returns the wait states.
    pub fn mmio_write_u16(&mut self, address: usize, data: u16, cycles: u32) -> (wait: u32)
        requires
            old(self).wf(),
            pc98_maps(address as int),
            pc98_maps(address + 1),
        ensures
            wait == 0,
            final(self)@ == old(self)@.store_mapped(
                address as int,
                low_byte(data),
            ).store_mapped(address + 1, high_byte(data)),
            final(self).wf(),
    {
        let wait1 = self.mmio_write_u8(address, lo8(data), cycles);
        let wait2 = self.mmio_write_u8(address + 1, hi8(data), cycles);
        wait1 + wait2
    }

    /// The three windows of the subsystem in the address space.
    pub fn get_mapping(&self) -> (mapping: Vec<MemRangeDescriptor>)
        ensures
            mapping@ == seq![
                MemRangeDescriptor {
                    address: 0xA0000,
                    size: 0x4000,
                    cycle_cost: 0,
                    read_only: false,
                    priority: 0,
                },
                MemRangeDescriptor {
                    address: 0xA8000,
                    size: 0x18000,
                    cycle_cost: 0,
                    read_only: false,
                    priority: 0,
                },
                MemRangeDescriptor {
                    address: 0xE0000,
                    size: 0x8000,
                    cycle_cost: 0,
                    read_only: false,
                    priority: 0,
                },
            ],
            forall|a: int|
                pc98_maps(a) <==> exists|k: int|
                    0 <= k < 3 && (#[trigger] mapping@[k]).address <= a < mapping@[k].address
                        + mapping@[k].size,
    {
        let mut mapping: Vec<MemRangeDescriptor> = Vec::new();
        mapping.push(
            MemRangeDescriptor {
                address: 0xA0000,
                size: 0x4000,
                cycle_cost: 0,
                read_only: false,
                priority: 0,
            },
        );
        mapping.push(
            MemRangeDescriptor {
                address: 0xA8000,
                size: 0x18000,
                cycle_cost: 0,
                read_only: false,
                priority: 0,
            },
        );
        mapping.push(
            MemRangeDescriptor {
                address: 0xE0000,
                size: 0x8000,
                cycle_cost: 0,
                read_only: false,
                priority: 0,
            },
        );
        assert(mapping@ =~= seq![
            MemRangeDescriptor {
                address: 0xA0000,
                size: 0x4000,
                cycle_cost: 0,
                read_only: false,
                priority: 0,
            },
            MemRangeDescriptor {
                address: 0xA8000,
                size: 0x18000,
                cycle_cost: 0,
                read_only: false,
                priority: 0,
            },
            MemRangeDescriptor {
                address: 0xE0000,
                size: 0x8000,
                cycle_cost: 0,
                read_only: false,
                priority: 0,
            },
        ]);
        assert forall|a: int| pc98_maps(a) implies exists|k: int|
            0 <= k < 3 && (#[trigger] mapping@[k]).address <= a < mapping@[k].address
                + mapping@[k].size by {
            if in_text_window(a) {
                assert(mapping@[0].address <= a < mapping@[0].address + mapping@[0].size);
            } else if a <= PC98_GRAPHICS_END {
                assert(mapping@[1].address <= a < mapping@[1].address + mapping@[1].size);
            } else {
                assert(mapping@[2].address <= a < mapping@[2].address + mapping@[2].size);
            }
        }
        mapping
    }
}

} // verus!
