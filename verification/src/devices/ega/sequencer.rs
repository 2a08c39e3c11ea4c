//! The sequencer's side of video memory: four planes of 64 KiB, a mask that
//! says which planes take writes, and odd/even addressing.

use vstd::prelude::*;
use crate::devices::ega::{bit_of, test_bit, EGA_PLANES, EGA_PLANE_SIZE};

verus! {

pub struct Sequencer {
    /// Bit `p` lets writes through to plane `p`.
    pub map_mask: u8,
    /// In odd/even mode the lowest address bit chooses between a plane and
    /// its neighbour.
    pub odd_even: bool,
    /// The four planes, one after the other.
    pub planes: Vec<u8>,
}

/// The sequencer as a mathematical value.
pub struct SequencerView {
    pub map_mask: u8,
    pub odd_even: bool,
    pub planes: Seq<u8>,
}

impl View for Sequencer {
    type V = SequencerView;

    open spec fn view(&self) -> SequencerView {
        SequencerView { map_mask: self.map_mask, odd_even: self.odd_even, planes: self.planes@ }
    }
}

impl SequencerView {
    pub open spec fn wf(self) -> bool {
        self.planes.len() == EGA_PLANES * EGA_PLANE_SIZE
    }

    /// The plane that an access to `plane` reaches: in odd/even mode, the
    /// even or the odd plane of its pair, as `a0` says.
    pub open spec fn target_plane(self, plane: int, a0: int) -> int {
        if self.odd_even {
            plane - plane % 2 + a0 % 2
        } else {
            plane
        }
    }

    /// The index in `planes` of a byte; offsets wrap within the plane.
    pub open spec fn index_of(plane: int, offset: int) -> int {
        plane * EGA_PLANE_SIZE + offset % (EGA_PLANE_SIZE as int)
    }

    /// The byte of a plane at an offset, without odd/even addressing.
    pub open spec fn vram_byte(self, plane: int, offset: int) -> u8 {
        self.planes[SequencerView::index_of(plane, offset)]
    }

    /// The byte that a read of `plane` gives.
    pub open spec fn byte(self, plane: int, offset: int, a0: int) -> u8 {
        self.vram_byte(self.target_plane(plane, a0), offset)
    }

    /// Whether the plane that an access reaches takes writes.
    pub open spec fn writable(self, plane: int, a0: int) -> bool {
        bit_of(self.map_mask, self.target_plane(plane, a0))
    }

    /// The sequencer after `data` was written to a plane: nothing happens
    /// where the map mask keeps the plane shut.
    pub open spec fn plane_set(self, plane: int, offset: int, a0: int, data: u8) -> SequencerView {
        if self.writable(plane, a0) {
            SequencerView {
                planes: self.planes.update(
                    SequencerView::index_of(self.target_plane(plane, a0), offset),
                    data,
                ),
                ..self
            }
        } else {
            self
        }
    }

    /// The sequencer after the bits that are clear in `mask` were cleared in
    /// a byte of a plane.
    pub open spec fn plane_and(self, plane: int, offset: int, a0: int, mask: u8) -> SequencerView {
        self.plane_set(plane, offset, a0, self.byte(plane, offset, a0) & mask)
    }

    /// The sequencer after the bits that are set in `bits` were set in a byte
    /// of a plane.
    pub open spec fn plane_or(self, plane: int, offset: int, a0: int, bits: u8) -> SequencerView {
        self.plane_set(plane, offset, a0, self.byte(plane, offset, a0) | bits)
    }

    /// The colour of pixel `p` of the eight pixels at an offset: one bit from
    /// each plane, plane 0 lowest; pixel 0 is the top bit of the bytes.
    pub open spec fn pixel(self, offset: int, p: int) -> u8 {
        ((if bit_of(self.vram_byte(0, offset), 7 - p) { 1int } else { 0 }) + (if bit_of(
            self.vram_byte(1, offset),
            7 - p,
        ) { 2int } else { 0 }) + (if bit_of(self.vram_byte(2, offset), 7 - p) { 4int } else { 0 })
            + (if bit_of(self.vram_byte(3, offset), 7 - p) { 8int } else { 0 })) as u8
    }

    /// The eight pixels at an offset, leftmost first.
    pub open spec fn linear_pixels(self, offset: int) -> Seq<u8> {
        Seq::new(8, |p: int| self.pixel(offset, p))
    }
}

impl Sequencer {
    pub open spec fn wf(&self) -> bool {
        self@.wf()
    }

    /// Tests whether the planes have their size.
    pub fn is_well_formed(&self) -> (b: bool)
        ensures
            b == self.wf(),
    {
        self.planes.len() == EGA_PLANES * EGA_PLANE_SIZE
    }

    /// A sequencer with zeroed memory, all four planes open for writes, and
    /// odd/even addressing off.
    pub fn new() -> (seq: Sequencer)
        ensures
            seq.wf(),
            seq@.map_mask == 0x0F,
            !seq@.odd_even,
            seq@.planes == Seq::new((EGA_PLANES * EGA_PLANE_SIZE) as nat, |i: int| 0u8),
    {
        let seq = Sequencer {
            map_mask: 0x0F,
            odd_even: false,
            planes: vec![0u8; EGA_PLANES * EGA_PLANE_SIZE],
        };
        assert(seq@.planes =~= Seq::new((EGA_PLANES * EGA_PLANE_SIZE) as nat, |i: int| 0u8));
        seq
    }

    fn target_plane(&self, plane: usize, a0: usize) -> (target: usize)
        requires
            plane < EGA_PLANES,
        ensures
            target == self@.target_plane(plane as int, a0 as int),
            target < EGA_PLANES,
    {
        if self.odd_even {
            plane - plane % 2 + a0 % 2
        } else {
            plane
        }
    }

    fn index_of(plane: usize, offset: usize) -> (index: usize)
        requires
            plane < EGA_PLANES,
        ensures
            index == SequencerView::index_of(plane as int, offset as int),
            index < EGA_PLANES * EGA_PLANE_SIZE,
    {
        plane * EGA_PLANE_SIZE + offset % EGA_PLANE_SIZE
    }

    /// Reads a byte of a plane, without odd/even addressing.
    pub fn vram_read_u8(&self, plane: usize, offset: usize) -> (byte: u8)
        requires
            self.wf(),
            plane < EGA_PLANES,
        ensures
            byte == self@.vram_byte(plane as int, offset as int),
    {
        self.planes[Sequencer::index_of(plane, offset)]
    }

    /// Reads a byte of a plane.
    pub fn read_u8(&self, plane: usize, offset: usize, a0: usize) -> (byte: u8)
        requires
            self.wf(),
            plane < EGA_PLANES,
        ensures
            byte == self@.byte(plane as int, offset as int, a0 as int),
    {
        self.vram_read_u8(self.target_plane(plane, a0), offset)
    }

    /// Writes a byte of a plane, if the map mask lets it through.
    pub fn plane_set(&mut self, plane: usize, offset: usize, a0: usize, data: u8)
        requires
            old(self).wf(),
            plane < EGA_PLANES,
        ensures
            final(self).wf(),
            final(self)@ == old(self)@.plane_set(plane as int, offset as int, a0 as int, data),
    {
        let target = self.target_plane(plane, a0);
        if test_bit(self.map_mask, target as u8) {
            self.planes.set(Sequencer::index_of(target, offset), data);
        }
    }

    /// Clears the bits of a byte of a plane that are clear in `mask`.
    pub fn plane_and(&mut self, plane: usize, offset: usize, a0: usize, mask: u8)
        requires
            old(self).wf(),
            plane < EGA_PLANES,
        ensures
            final(self).wf(),
            final(self)@ == old(self)@.plane_and(plane as int, offset as int, a0 as int, mask),
    {
        let byte = self.read_u8(plane, offset, a0);
        self.plane_set(plane, offset, a0, byte & mask);
    }

    /// Sets the bits of a byte of a plane that are set in `bits`.
    pub fn plane_or(&mut self, plane: usize, offset: usize, a0: usize, bits: u8)
        requires
            old(self).wf(),
            plane < EGA_PLANES,
        ensures
            final(self).wf(),
            final(self)@ == old(self)@.plane_or(plane as int, offset as int, a0 as int, bits),
    {
        let byte = self.read_u8(plane, offset, a0);
        self.plane_set(plane, offset, a0, byte | bits);
    }

    /// The colour of pixel `p` of the eight pixels at an offset.
    pub fn pixel(&self, offset: usize, p: u8) -> (colour: u8)
        requires
            self.wf(),
            p < 8,
        ensures
            colour == self@.pixel(offset as int, p as int),
    {
        let mut colour: u8 = 0;
        if test_bit(self.vram_read_u8(0, offset), 7 - p) {
            colour = colour + 1;
        }
        if test_bit(self.vram_read_u8(1, offset), 7 - p) {
            colour = colour + 2;
        }
        if test_bit(self.vram_read_u8(2, offset), 7 - p) {
            colour = colour + 4;
        }
        if test_bit(self.vram_read_u8(3, offset), 7 - p) {
            colour = colour + 8;
        }
        colour
    }

    /// The eight pixels at an offset, one byte each, leftmost first.
    pub fn serialize_linear(&self, offset: usize) -> (pixels: [u8; 8])
        requires
            self.wf(),
        ensures
            pixels@ == self@.linear_pixels(offset as int),
    {
        let pixels: [u8; 8] = [
            self.pixel(offset, 0),
            self.pixel(offset, 1),
            self.pixel(offset, 2),
            self.pixel(offset, 3),
            self.pixel(offset, 4),
            self.pixel(offset, 5),
            self.pixel(offset, 6),
            self.pixel(offset, 7),
        ];
        assert(pixels@ =~= self@.linear_pixels(offset as int));
        pixels
    }
}

} // verus!
