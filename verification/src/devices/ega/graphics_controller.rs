//! The graphics controller of the EGA. The two chips of the card are treated
//! as one unit: nine registers behind an address register, four latches that
//! every read of video memory fills, and the pipeline that a write passes
//! through on its way to the planes.

use vstd::prelude::*;
use vstd::string::StringExecFns;
use crate::devices::ega::sequencer::{Sequencer, SequencerView};
use crate::devices::videocard::VideoCardStateEntry;
use crate::text::{binary_string, binary_text, decimal_string, decimal_text};
use crate::devices::ega::{
    bit_of, pow2, power_of_two, rotate_right_u8, rotated_right, test_bit, CGA_MEM_ADDRESS,
    CGA_MEM_END, EGA_MEM_ADDRESS, EGA_MEM_END_128, EGA_MEM_END_64,
};

verus! {

#[derive(Copy, Clone, Debug, PartialEq, Eq, Structural)]
pub enum GraphicsRegister {
    SetReset,
    EnableSetReset,
    ColorCompare,
    DataRotate,
    ReadMapSelect,
    Mode,
    Miscellaneous,
    ColorDontCare,
    BitMask,
}

#[derive(Copy, Clone, Debug, PartialEq, Eq, Structural)]
pub enum MemoryMap {
    A0000_128k,
    A0000_64K,
    B0000_32K,
    B8000_32K,
}

#[derive(Copy, Clone, Debug, PartialEq, Eq, Structural)]
pub enum RotateFunction {
    Unmodified,
    And,
    Or,
    Xor,
}

#[derive(Copy, Clone, Debug, PartialEq, Eq, Structural)]
pub enum WriteMode {
    Mode0,
    Mode1,
    Mode2,
    Invalid,
}

#[derive(Copy, Clone, Debug, PartialEq, Eq, Structural)]
pub enum ReadMode {
    ReadSelectedPlane,
    ReadComparedPlanes,
}

#[derive(Copy, Clone, Debug, PartialEq, Eq, Structural)]
pub enum ShiftMode {
    Standard,
    CGACompatible,
}

/// The data rotate register: the rotate count in bits 0 to 2, the logical
/// function in bits 3 and 4.
#[derive(Copy, Clone, Debug, PartialEq, Eq, Structural)]
pub struct GDataRotateRegister {
    pub byte: u8,
}

/// The mode register: the write mode in bits 0 and 1, the test condition in
/// bit 2, the read mode in bit 3, odd/even addressing in bit 4, the shift
/// mode in bit 5.
#[derive(Copy, Clone, Debug, PartialEq, Eq, Structural)]
pub struct GModeRegister {
    pub byte: u8,
}

/// The miscellaneous register: graphics mode in bit 0, odd/even chaining in
/// bit 1, the memory map in bits 2 and 3.
#[derive(Copy, Clone, Debug, PartialEq, Eq, Structural)]
pub struct GMiscellaneousRegister {
    pub byte: u8,
}

/// The field of `width` values that starts at the bit of weight `weight`.
pub open spec fn field(byte: u8, weight: int, width: int) -> int {
    (byte as int / weight) % width
}

pub open spec fn rotate_function_of(bits: int) -> RotateFunction {
    if bits == 0 {
        RotateFunction::Unmodified
    } else if bits == 1 {
        RotateFunction::And
    } else if bits == 2 {
        RotateFunction::Or
    } else {
        RotateFunction::Xor
    }
}

pub open spec fn write_mode_of(bits: int) -> WriteMode {
    if bits == 0 {
        WriteMode::Mode0
    } else if bits == 1 {
        WriteMode::Mode1
    } else if bits == 2 {
        WriteMode::Mode2
    } else {
        WriteMode::Invalid
    }
}

pub open spec fn memory_map_of(bits: int) -> MemoryMap {
    if bits == 0 {
        MemoryMap::A0000_128k
    } else if bits == 1 {
        MemoryMap::A0000_64K
    } else if bits == 2 {
        MemoryMap::B0000_32K
    } else {
        MemoryMap::B8000_32K
    }
}

impl GDataRotateRegister {
    pub open spec fn spec_count(self) -> u8 {
        field(self.byte, 1, 8) as u8
    }

    pub open spec fn spec_function(self) -> RotateFunction {
        rotate_function_of(field(self.byte, 8, 4))
    }

    pub fn new() -> (r: GDataRotateRegister)
        ensures
            r.byte == 0,
    {
        GDataRotateRegister { byte: 0 }
    }

    pub fn from_bytes(bytes: [u8; 1]) -> (r: GDataRotateRegister)
        ensures
            r.byte == bytes[0],
    {
        GDataRotateRegister { byte: bytes[0] }
    }

    pub fn count(&self) -> (c: u8)
        ensures
            c == self.spec_count(),
            c < 8,
    {
        self.byte % 8
    }

    pub fn function(&self) -> (f: RotateFunction)
        ensures
            f == self.spec_function(),
    {
        let bits = (self.byte / 8) % 4;
        if bits == 0 {
            RotateFunction::Unmodified
        } else if bits == 1 {
            RotateFunction::And
        } else if bits == 2 {
            RotateFunction::Or
        } else {
            RotateFunction::Xor
        }
    }
}

impl GModeRegister {
    pub open spec fn spec_write_mode(self) -> WriteMode {
        write_mode_of(field(self.byte, 1, 4))
    }

    pub open spec fn spec_test_condition(self) -> bool {
        field(self.byte, 4, 2) == 1
    }

    pub open spec fn spec_read_mode(self) -> ReadMode {
        if field(self.byte, 8, 2) == 0 {
            ReadMode::ReadSelectedPlane
        } else {
            ReadMode::ReadComparedPlanes
        }
    }

    pub open spec fn spec_odd_even(self) -> bool {
        field(self.byte, 16, 2) == 1
    }

    pub open spec fn spec_shift_mode(self) -> ShiftMode {
        if field(self.byte, 32, 2) == 0 {
            ShiftMode::Standard
        } else {
            ShiftMode::CGACompatible
        }
    }

    pub fn new() -> (r: GModeRegister)
        ensures
            r.byte == 0,
    {
        GModeRegister { byte: 0 }
    }

    pub fn from_bytes(bytes: [u8; 1]) -> (r: GModeRegister)
        ensures
            r.byte == bytes[0],
    {
        GModeRegister { byte: bytes[0] }
    }

    pub fn write_mode(&self) -> (m: WriteMode)
        ensures
            m == self.spec_write_mode(),
    {
        let bits = self.byte % 4;
        if bits == 0 {
            WriteMode::Mode0
        } else if bits == 1 {
            WriteMode::Mode1
        } else if bits == 2 {
            WriteMode::Mode2
        } else {
            WriteMode::Invalid
        }
    }

    pub fn test_condition(&self) -> (b: bool)
        ensures
            b == self.spec_test_condition(),
    {
        (self.byte / 4) % 2 == 1
    }

    pub fn read_mode(&self) -> (m: ReadMode)
        ensures
            m == self.spec_read_mode(),
    {
        if (self.byte / 8) % 2 == 0 {
            ReadMode::ReadSelectedPlane
        } else {
            ReadMode::ReadComparedPlanes
        }
    }

    pub fn odd_even(&self) -> (b: bool)
        ensures
            b == self.spec_odd_even(),
    {
        (self.byte / 16) % 2 == 1
    }

    pub fn shift_mode(&self) -> (m: ShiftMode)
        ensures
            m == self.spec_shift_mode(),
    {
        if (self.byte / 32) % 2 == 0 {
            ShiftMode::Standard
        } else {
            ShiftMode::CGACompatible
        }
    }
}

impl GMiscellaneousRegister {
    pub open spec fn spec_graphics_mode(self) -> bool {
        field(self.byte, 1, 2) == 1
    }

    pub open spec fn spec_chain_odd_even(self) -> bool {
        field(self.byte, 2, 2) == 1
    }

    pub open spec fn spec_memory_map(self) -> MemoryMap {
        memory_map_of(field(self.byte, 4, 4))
    }

    pub fn new() -> (r: GMiscellaneousRegister)
        ensures
            r.byte == 0,
    {
        GMiscellaneousRegister { byte: 0 }
    }

    pub fn from_bytes(bytes: [u8; 1]) -> (r: GMiscellaneousRegister)
        ensures
            r.byte == bytes[0],
    {
        GMiscellaneousRegister { byte: bytes[0] }
    }

    pub fn graphics_mode(&self) -> (b: bool)
        ensures
            b == self.spec_graphics_mode(),
    {
        self.byte % 2 == 1
    }

    pub fn chain_odd_even(&self) -> (b: bool)
        ensures
            b == self.spec_chain_odd_even(),
    {
        (self.byte / 2) % 2 == 1
    }

    pub fn memory_map(&self) -> (m: MemoryMap)
        ensures
            m == self.spec_memory_map(),
    {
        let bits = (self.byte / 4) % 4;
        if bits == 0 {
            MemoryMap::A0000_128k
        } else if bits == 1 {
            MemoryMap::A0000_64K
        } else if bits == 2 {
            MemoryMap::B0000_32K
        } else {
            MemoryMap::B8000_32K
        }
    }
}

/// The registers of the controller.
#[derive(Copy, Clone, Debug, PartialEq, Eq, Structural)]
pub struct GraphicsRegisters {
    pub graphics_register_select_byte: u8,
    pub graphics_register_selected: GraphicsRegister,
    pub graphics_set_reset: u8,
    pub graphics_enable_set_reset: u8,
    pub graphics_color_compare: u8,
    pub graphics_data_rotate: GDataRotateRegister,
    pub graphics_data_rotate_function: RotateFunction,
    pub graphics_read_map_select: u8,
    pub graphics_mode: GModeRegister,
    pub graphics_micellaneous: GMiscellaneousRegister,
    pub graphics_color_dont_care: u8,
    pub graphics_bitmask: u8,
}

pub struct GraphicsController {
    pub regs: GraphicsRegisters,
    /// What the last read of video memory found in the four planes.
    pub latches: [u8; 4],
    pub pixel_buf: [u8; 8],
    /// What the last write in write mode 0 sent to the four planes.
    pub pipeline_buf: [u8; 4],
    pub write_buf: [u8; 4],
    pub serialize_buf: [u8; 8],
}

/// The controller as a mathematical value.
pub struct GraphicsControllerView {
    pub regs: GraphicsRegisters,
    pub latches: Seq<u8>,
    pub pixel_buf: Seq<u8>,
    pub pipeline_buf: Seq<u8>,
    pub write_buf: Seq<u8>,
    pub serialize_buf: Seq<u8>,
}

impl View for GraphicsController {
    type V = GraphicsControllerView;

    open spec fn view(&self) -> GraphicsControllerView {
        GraphicsControllerView {
            regs: self.regs,
            latches: self.latches@,
            pixel_buf: self.pixel_buf@,
            pipeline_buf: self.pipeline_buf@,
            write_buf: self.write_buf@,
            serialize_buf: self.serialize_buf@,
        }
    }
}

/// The register that a select byte names; `current` where it names none.
pub open spec fn selected_register(select: u8, current: GraphicsRegister) -> GraphicsRegister {
    if select == 0 {
        GraphicsRegister::SetReset
    } else if select == 1 {
        GraphicsRegister::EnableSetReset
    } else if select == 2 {
        GraphicsRegister::ColorCompare
    } else if select == 3 {
        GraphicsRegister::DataRotate
    } else if select == 4 {
        GraphicsRegister::ReadMapSelect
    } else if select == 5 {
        GraphicsRegister::Mode
    } else if select == 6 {
        GraphicsRegister::Miscellaneous
    } else if select == 7 {
        GraphicsRegister::ColorDontCare
    } else if select == 8 {
        GraphicsRegister::BitMask
    } else {
        current
    }
}

/// Whether a write to a graphics position register carries the value that
/// the card's documentation asks for: zero for position 1, one for position
/// 2. Other registers take any value.
pub open spec fn position_value_expected(reg: u32, byte: u8) -> bool {
    (reg == 1 ==> byte == 0) && (reg == 2 ==> byte == 1)
}

/// The offset within a plane that an address of the processor reaches
/// through a memory map, if the map covers the address. The 128 KiB map
/// folds its window onto the 64 KiB of a plane: with odd/even chaining, two
/// neighbouring addresses share an offset; without it, the upper half shows
/// the lower half again.
pub open spec fn plane_offset(map: MemoryMap, chain_odd_even: bool, address: int) -> Option<int> {
    match map {
        MemoryMap::A0000_128k => if EGA_MEM_ADDRESS <= address <= EGA_MEM_END_128 {
            if chain_odd_even {
                Some(((address - EGA_MEM_ADDRESS) / 2) % 0x1_0000)
            } else {
                Some((address - EGA_MEM_ADDRESS) % 0x1_0000)
            }
        } else {
            None
        },
        MemoryMap::A0000_64K => if EGA_MEM_ADDRESS <= address <= EGA_MEM_END_64 {
            Some(address - EGA_MEM_ADDRESS)
        } else {
            None
        },
        MemoryMap::B8000_32K => if CGA_MEM_ADDRESS <= address <= CGA_MEM_END {
            Some(address - CGA_MEM_ADDRESS)
        } else {
            None
        },
        MemoryMap::B0000_32K => None,
    }
}

/// A bit spread over a byte.
pub open spec fn spread(bit: bool) -> u8 {
    if bit {
        0xFF
    } else {
        0x00
    }
}

/// What write mode 0 combines from the data of a plane, the plane's latch and
/// the bit mask: where the mask is set, the logical function of data and
/// latch; where it is clear, the latch.
pub open spec fn combined(function: RotateFunction, data: u8, mask: u8, latch: u8) -> u8 {
    match function {
        RotateFunction::Unmodified => (data & mask) | (!mask & latch),
        RotateFunction::And => (data | !mask) & latch,
        RotateFunction::Or => (data & mask) | latch,
        RotateFunction::Xor => (data & mask) ^ latch,
    }
}

impl GraphicsRegisters {
    pub open spec fn initial() -> GraphicsRegisters {
        GraphicsRegisters {
            graphics_register_select_byte: 0,
            graphics_register_selected: GraphicsRegister::SetReset,
            graphics_set_reset: 0,
            graphics_enable_set_reset: 0,
            graphics_color_compare: 0,
            graphics_data_rotate: GDataRotateRegister { byte: 0 },
            graphics_data_rotate_function: RotateFunction::Unmodified,
            graphics_read_map_select: 0,
            graphics_mode: GModeRegister { byte: 0 },
            graphics_micellaneous: GMiscellaneousRegister { byte: 0 },
            graphics_color_dont_care: 0,
            graphics_bitmask: 0,
        }
    }

    /// The registers after a write to the address register: the low four
    /// bits select a register, and a number that names none leaves the
    /// selection as it was.
    pub open spec fn after_address(self, byte: u8) -> GraphicsRegisters {
        GraphicsRegisters {
            graphics_register_select_byte: byte & 0x0F,
            graphics_register_selected: selected_register(
                byte & 0x0F,
                self.graphics_register_selected,
            ),
            ..self
        }
    }

    /// The registers after a write to the data register: the selected
    /// register takes the byte, cut to the bits it has.
    pub open spec fn after_data(self, byte: u8) -> GraphicsRegisters {
        match self.graphics_register_selected {
            GraphicsRegister::SetReset => GraphicsRegisters {
                graphics_set_reset: byte & 0x0F,
                ..self
            },
            GraphicsRegister::EnableSetReset => GraphicsRegisters {
                graphics_enable_set_reset: byte & 0x0F,
                ..self
            },
            GraphicsRegister::ColorCompare => GraphicsRegisters {
                graphics_color_compare: byte & 0x0F,
                ..self
            },
            GraphicsRegister::DataRotate => GraphicsRegisters {
                graphics_data_rotate: GDataRotateRegister { byte },
                ..self
            },
            GraphicsRegister::ReadMapSelect => GraphicsRegisters {
                graphics_read_map_select: byte & 0x07,
                ..self
            },
            GraphicsRegister::Mode => GraphicsRegisters {
                graphics_mode: GModeRegister { byte },
                ..self
            },
            GraphicsRegister::Miscellaneous => GraphicsRegisters {
                graphics_micellaneous: GMiscellaneousRegister { byte },
                ..self
            },
            GraphicsRegister::ColorDontCare => GraphicsRegisters {
                graphics_color_dont_care: byte & 0x0F,
                ..self
            },
            GraphicsRegister::BitMask => GraphicsRegisters { graphics_bitmask: byte, ..self },
        }
    }

    /// The offset within a plane that an address reaches under the current
    /// memory map.
    pub open spec fn offset_of(self, address: int) -> Option<int> {
        plane_offset(
            self.graphics_micellaneous.spec_memory_map(),
            self.graphics_micellaneous.spec_chain_odd_even(),
            address,
        )
    }

    /// The byte that write mode 0 sends to plane `i`: the set/reset bit of
    /// the plane spread over the byte where set/reset is enabled for the
    /// plane, the rotated data of the processor otherwise; then combined with
    /// the latch under the bit mask.
    pub open spec fn mode0_byte(self, i: int, byte: u8, latch: u8) -> u8 {
        combined(
            self.graphics_data_rotate.spec_function(),
            if bit_of(self.graphics_enable_set_reset, i) {
                spread(bit_of(self.graphics_set_reset, i))
            } else {
                rotated_right(byte, self.graphics_data_rotate.spec_count() as int)
            },
            self.graphics_bitmask,
            latch,
        )
    }

    /// Whether the colour `colour` equals the colour compare register in
    /// the planes that the colour don't care register lets count.
    pub open spec fn colour_matches(self, colour: u8) -> bool {
        colour & self.graphics_color_dont_care == self.graphics_color_compare
            & self.graphics_color_dont_care
    }
}

impl GraphicsControllerView {
    pub open spec fn wf(self) -> bool {
        &&& self.latches.len() == 4
        &&& self.pixel_buf.len() == 8
        &&& self.pipeline_buf.len() == 4
        &&& self.write_buf.len() == 4
        &&& self.serialize_buf.len() == 8
    }

    pub open spec fn initial() -> GraphicsControllerView {
        GraphicsControllerView {
            regs: GraphicsRegisters::initial(),
            latches: seq![0u8, 0u8, 0u8, 0u8],
            pixel_buf: seq![0u8, 0u8, 0u8, 0u8, 0u8, 0u8, 0u8, 0u8],
            pipeline_buf: seq![0u8, 0u8, 0u8, 0u8],
            write_buf: seq![0u8, 0u8, 0u8, 0u8],
            serialize_buf: seq![0u8, 0u8, 0u8, 0u8, 0u8, 0u8, 0u8, 0u8],
        }
    }

    /// The colour that the four latches hold at bit `i`: one bit from each
    /// latch, latch 0 lowest.
    pub open spec fn latched_colour(self, i: int) -> u8 {
        ((if bit_of(self.latches[0], i) { 1int } else { 0 }) + (if bit_of(self.latches[1], i) {
            2int
        } else {
            0
        }) + (if bit_of(self.latches[2], i) { 4int } else { 0 }) + (if bit_of(
            self.latches[3],
            i,
        ) { 8int } else { 0 })) as u8
    }

    /// The weight of bit `i` if the latched colour there matches the colour
    /// compare register, zero otherwise.
    pub open spec fn match_weight(self, i: int) -> int {
        if self.regs.colour_matches(self.latched_colour(i)) {
            pow2(i)
        } else {
            0
        }
    }

    /// The result of a compare read: a set bit wherever the colour that the
    /// latches hold matches the colour compare register in the planes that
    /// count.
    pub open spec fn comparison(self) -> u8 {
        (self.match_weight(0) + self.match_weight(1) + self.match_weight(2) + self.match_weight(3)
            + self.match_weight(4) + self.match_weight(5) + self.match_weight(6)
            + self.match_weight(7)) as u8
    }

    /// The latches after a read at an offset: one byte from each plane.
    pub open spec fn loaded_latches(seq: SequencerView, offset: int, a0: int) -> Seq<u8> {
        seq![
            seq.byte(0, offset, a0),
            seq.byte(1, offset, a0),
            seq.byte(2, offset, a0),
            seq.byte(3, offset, a0),
        ]
    }

    /// The pixel buffer after the pixels at an offset were gathered: each
    /// entry keeps its bits and gains those of the pixel.
    pub open spec fn gathered_pixels(self, seq: SequencerView, offset: int) -> Seq<u8> {
        Seq::new(8, |p: int| self.pixel_buf[p] | seq.pixel(offset, p))
    }

    /// The controller after the processor read an address of video memory:
    /// nothing changes outside the memory map; inside, the latches are
    /// loaded, and a compare read gathers the pixels.
    pub open spec fn after_read(self, seq: SequencerView, address: int) -> GraphicsControllerView {
        match self.regs.offset_of(address) {
            None => self,
            Some(offset) => {
                let loaded = GraphicsControllerView {
                    latches: GraphicsControllerView::loaded_latches(seq, offset, address % 2),
                    ..self
                };
                match self.regs.graphics_mode.spec_read_mode() {
                    ReadMode::ReadSelectedPlane => loaded,
                    ReadMode::ReadComparedPlanes => GraphicsControllerView {
                        pixel_buf: loaded.gathered_pixels(seq, offset),
                        ..loaded
                    },
                }
            },
        }
    }

    /// The byte that the processor reads at an address of video memory: zero
    /// outside the memory map; inside, the byte of the selected plane, or the
    /// comparison of the latched colours with the colour compare register.
    pub open spec fn read_value(self, seq: SequencerView, address: int) -> u8 {
        match self.regs.offset_of(address) {
            None => 0,
            Some(offset) => match self.regs.graphics_mode.spec_read_mode() {
                ReadMode::ReadSelectedPlane => seq.byte(
                    (self.regs.graphics_read_map_select % 4) as int,
                    offset,
                    address % 2,
                ),
                ReadMode::ReadComparedPlanes => self.after_read(seq, address).comparison(),
            },
        }
    }

    /// The byte that a peek finds: that of plane 0, zero outside the memory
    /// map.
    pub open spec fn peek_value(self, seq: SequencerView, address: int) -> u8 {
        match self.regs.offset_of(address) {
            None => 0,
            Some(offset) => seq.byte(0, offset, address % 2),
        }
    }

    /// The four bytes that write mode 0 sends to the planes.
    pub open spec fn mode0_bytes(self, byte: u8) -> Seq<u8> {
        seq![
            self.regs.mode0_byte(0, byte, self.latches[0]),
            self.regs.mode0_byte(1, byte, self.latches[1]),
            self.regs.mode0_byte(2, byte, self.latches[2]),
            self.regs.mode0_byte(3, byte, self.latches[3]),
        ]
    }

    /// The controller after the processor wrote an address of video memory:
    /// only write mode 0 leaves a trace, in the pipeline buffer.
    pub open spec fn after_write(self, address: int, byte: u8) -> GraphicsControllerView {
        if self.regs.offset_of(address).is_some() && self.regs.graphics_mode.spec_write_mode()
            == WriteMode::Mode0 {
            GraphicsControllerView { pipeline_buf: self.mode0_bytes(byte), ..self }
        } else {
            self
        }
    }

    /// The planes after four bytes were written to them at an offset, plane
    /// 0 first.
    pub open spec fn store_planes(
        seq: SequencerView,
        offset: int,
        a0: int,
        bytes: Seq<u8>,
    ) -> SequencerView {
        seq.plane_set(0, offset, a0, bytes[0]).plane_set(1, offset, a0, bytes[1]).plane_set(
            2,
            offset,
            a0,
            bytes[2],
        ).plane_set(3, offset, a0, bytes[3])
    }

    /// Write mode 2 on one plane: under the bit mask, the byte takes the bit
    /// of the processor's data that bears the plane's number.
    pub open spec fn mode2_plane(
        self,
        seq: SequencerView,
        i: int,
        offset: int,
        a0: int,
        byte: u8,
    ) -> SequencerView {
        seq.plane_and(i, offset, a0, !self.regs.graphics_bitmask).plane_or(
            i,
            offset,
            a0,
            spread(bit_of(byte, i)) & self.regs.graphics_bitmask,
        )
    }

    /// Write mode 2 on all four planes, plane 0 first.
    pub open spec fn mode2_planes(
        self,
        seq: SequencerView,
        offset: int,
        a0: int,
        byte: u8,
    ) -> SequencerView {
        self.mode2_plane(
            self.mode2_plane(
                self.mode2_plane(self.mode2_plane(seq, 0, offset, a0, byte), 1, offset, a0, byte),
                2,
                offset,
                a0,
                byte,
            ),
            3,
            offset,
            a0,
            byte,
        )
    }

    /// Video memory after the processor wrote an address: nothing outside
    /// the memory map; inside, what the write mode sends to the planes. Mode
    /// 1 sends the latches. An invalid mode sends nothing.
    pub open spec fn written_planes(
        self,
        seq: SequencerView,
        address: int,
        byte: u8,
    ) -> SequencerView {
        match self.regs.offset_of(address) {
            None => seq,
            Some(offset) => match self.regs.graphics_mode.spec_write_mode() {
                WriteMode::Mode0 => GraphicsControllerView::store_planes(
                    seq,
                    offset,
                    address % 2,
                    self.mode0_bytes(byte),
                ),
                WriteMode::Mode1 => GraphicsControllerView::store_planes(
                    seq,
                    offset,
                    address % 2,
                    self.latches,
                ),
                WriteMode::Mode2 => self.mode2_planes(seq, offset, address % 2, byte),
                WriteMode::Invalid => seq,
            },
        }
    }

    /// The four two-bit pixels of a byte, leftmost first.
    pub open spec fn cga_pixels(byte: u8) -> Seq<u8> {
        seq![
            ((byte / 64) % 4) as u8,
            ((byte / 16) % 4) as u8,
            ((byte / 4) % 4) as u8,
            (byte % 4) as u8,
        ]
    }

    /// What the serializer puts out for an address in CGA compatible mode:
    /// four pixels of two bits from plane 0, then four from plane 1 at the
    /// next offset.
    pub open spec fn cga_serialized(seq: SequencerView, address: int) -> Seq<u8> {
        GraphicsControllerView::cga_pixels(seq.byte(0, address, address % 2))
            + GraphicsControllerView::cga_pixels(seq.byte(1, address + 1, 1))
    }

    /// What the serializer puts out for an address: eight pixels.
    pub open spec fn serialized(self, seq: SequencerView, address: int) -> Seq<u8> {
        match self.regs.graphics_mode.spec_shift_mode() {
            ShiftMode::CGACompatible => GraphicsControllerView::cga_serialized(seq, address),
            ShiftMode::Standard => seq.linear_pixels(address),
        }
    }

    /// The controller after the serializer ran: CGA compatible mode leaves
    /// its output in the serialize buffer.
    pub open spec fn after_serialize(
        self,
        seq: SequencerView,
        address: int,
    ) -> GraphicsControllerView {
        match self.regs.graphics_mode.spec_shift_mode() {
            ShiftMode::CGACompatible => GraphicsControllerView {
                serialize_buf: GraphicsControllerView::cga_serialized(seq, address),
                ..self
            },
            ShiftMode::Standard => self,
        }
    }
}

fn spread_bit(bit: bool) -> (b: u8)
    ensures
        b == spread(bit),
{
    if bit {
        0xFF
    } else {
        0x00
    }
}

fn combine(function: RotateFunction, data: u8, mask: u8, latch: u8) -> (b: u8)
    ensures
        b == combined(function, data, mask, latch),
{
    match function {
        RotateFunction::Unmodified => (data & mask) | (!mask & latch),
        RotateFunction::And => (data | !mask) & latch,
        RotateFunction::Or => (data & mask) | latch,
        RotateFunction::Xor => (data & mask) ^ latch,
    }
}

fn cga_pixels(byte: u8) -> (pixels: [u8; 4])
    ensures
        pixels@ == GraphicsControllerView::cga_pixels(byte),
{
    let pixels: [u8; 4] = [(byte / 64) % 4, (byte / 16) % 4, (byte / 4) % 4, byte % 4];
    assert(pixels@ =~= GraphicsControllerView::cga_pixels(byte));
    pixels
}

impl GraphicsRegisters {
    fn pipeline_byte(&self, i: u8, byte: u8, latch: u8) -> (b: u8)
        requires
            i < 4,
        ensures
            b == self.mode0_byte(i as int, byte, latch),
    {
        let data = if test_bit(self.graphics_enable_set_reset, i) {
            spread_bit(test_bit(self.graphics_set_reset, i))
        } else {
            rotate_right_u8(byte, self.graphics_data_rotate.count())
        };
        combine(self.graphics_data_rotate.function(), data, self.graphics_bitmask, latch)
    }
}

impl GraphicsController {
    pub open spec fn wf(&self) -> bool {
        self@.wf()
    }

    pub fn new() -> (g: GraphicsController)
        ensures
            g@ == GraphicsControllerView::initial(),
            g.wf(),
    {
        let g = GraphicsController {
            regs: GraphicsRegisters {
                graphics_register_select_byte: 0,
                graphics_register_selected: GraphicsRegister::SetReset,
                graphics_set_reset: 0,
                graphics_enable_set_reset: 0,
                graphics_color_compare: 0,
                graphics_data_rotate: GDataRotateRegister::new(),
                graphics_data_rotate_function: RotateFunction::Unmodified,
                graphics_read_map_select: 0,
                graphics_mode: GModeRegister::new(),
                graphics_micellaneous: GMiscellaneousRegister::new(),
                graphics_color_dont_care: 0,
                graphics_bitmask: 0,
            },
            latches: [0; 4],
            pixel_buf: [0; 8],
            pipeline_buf: [0; 4],
            write_buf: [0; 4],
            serialize_buf: [0; 8],
        };
        assert(g@.latches =~= GraphicsControllerView::initial().latches);
        assert(g@.pixel_buf =~= GraphicsControllerView::initial().pixel_buf);
        assert(g@.pipeline_buf =~= GraphicsControllerView::initial().pipeline_buf);
        assert(g@.write_buf =~= GraphicsControllerView::initial().write_buf);
        assert(g@.serialize_buf =~= GraphicsControllerView::initial().serialize_buf);
        g
    }

    /// Handles a write to one of the graphics position registers. The card's
    /// documentation fixes their values, so the write is dropped. Returns
    /// whether the value was the documented one.
    pub fn write_graphics_position(&mut self, reg: u32, byte: u8) -> (expected: bool)
        ensures
            final(self)@ == old(self)@,
            expected == position_value_expected(reg, byte),
    {
        if reg == 1 {
            byte == 0
        } else if reg == 2 {
            byte == 1
        } else {
            true
        }
    }

    /// Handles a write to the graphics address register.
    pub fn write_graphics_address(&mut self, byte: u8)
        ensures
            final(self)@ == (GraphicsControllerView {
                regs: old(self)@.regs.after_address(byte),
                ..old(self)@
            }),
    {
        let select = byte & 0x0F;
        self.regs.graphics_register_select_byte = select;
        self.regs.graphics_register_selected = if select == 0 {
            GraphicsRegister::SetReset
        } else if select == 1 {
            GraphicsRegister::EnableSetReset
        } else if select == 2 {
            GraphicsRegister::ColorCompare
        } else if select == 3 {
            GraphicsRegister::DataRotate
        } else if select == 4 {
            GraphicsRegister::ReadMapSelect
        } else if select == 5 {
            GraphicsRegister::Mode
        } else if select == 6 {
            GraphicsRegister::Miscellaneous
        } else if select == 7 {
            GraphicsRegister::ColorDontCare
        } else if select == 8 {
            GraphicsRegister::BitMask
        } else {
            self.regs.graphics_register_selected
        };
    }

    /// Handles a write to the graphics data register.
    pub fn write_graphics_data(&mut self, byte: u8)
        ensures
            final(self)@ == (GraphicsControllerView {
                regs: old(self)@.regs.after_data(byte),
                ..old(self)@
            }),
    {
        match self.regs.graphics_register_selected {
            GraphicsRegister::SetReset => {
                self.regs.graphics_set_reset = byte & 0x0F;
            },
            GraphicsRegister::EnableSetReset => {
                self.regs.graphics_enable_set_reset = byte & 0x0F;
            },
            GraphicsRegister::ColorCompare => {
                self.regs.graphics_color_compare = byte & 0x0F;
            },
            GraphicsRegister::DataRotate => {
                self.regs.graphics_data_rotate = GDataRotateRegister::from_bytes([byte]);
            },
            GraphicsRegister::ReadMapSelect => {
                self.regs.graphics_read_map_select = byte & 0x07;
            },
            GraphicsRegister::Mode => {
                self.regs.graphics_mode = GModeRegister::from_bytes([byte]);
            },
            GraphicsRegister::Miscellaneous => {
                self.regs.graphics_micellaneous = GMiscellaneousRegister::from_bytes([byte]);
            },
            GraphicsRegister::ColorDontCare => {
                self.regs.graphics_color_dont_care = byte & 0x0F;
            },
            GraphicsRegister::BitMask => {
                self.regs.graphics_bitmask = byte;
            },
        }
    }

    /// Maps an address of the processor to an offset within a plane, if the
    /// memory map covers the address.
    pub fn plane_bounds_check(&self, address: usize) -> (offset: Option<usize>)
        ensures
            offset.is_some() == self@.regs.offset_of(address as int).is_some(),
            offset.is_some() ==> offset.unwrap() as int == self@.regs.offset_of(
                address as int,
            ).unwrap(),
            offset.is_some() ==> offset.unwrap() < 0x1_0000,
    {
        match self.regs.graphics_micellaneous.memory_map() {
            MemoryMap::A0000_128k => {
                if EGA_MEM_ADDRESS <= address && address <= EGA_MEM_END_128 {
                    if self.regs.graphics_micellaneous.chain_odd_even() {
                        Some(((address - EGA_MEM_ADDRESS) / 2) % 0x1_0000)
                    } else {
                        Some((address - EGA_MEM_ADDRESS) % 0x1_0000)
                    }
                } else {
                    None
                }
            },
            MemoryMap::A0000_64K => {
                if EGA_MEM_ADDRESS <= address && address <= EGA_MEM_END_64 {
                    Some(address - EGA_MEM_ADDRESS)
                } else {
                    None
                }
            },
            MemoryMap::B8000_32K => {
                if CGA_MEM_ADDRESS <= address && address <= CGA_MEM_END {
                    Some(address - CGA_MEM_ADDRESS)
                } else {
                    None
                }
            },
            MemoryMap::B0000_32K => None,
        }
    }

    fn load_latches(&mut self, seq: &Sequencer, offset: usize, a0: usize)
        requires
            seq.wf(),
        ensures
            final(self)@ == (GraphicsControllerView {
                latches: GraphicsControllerView::loaded_latches(
                    seq@,
                    offset as int,
                    a0 as int,
                ),
                ..old(self)@
            }),
    {
        self.latches = [
            seq.read_u8(0, offset, a0),
            seq.read_u8(1, offset, a0),
            seq.read_u8(2, offset, a0),
            seq.read_u8(3, offset, a0),
        ];
        assert(self.latches@ =~= GraphicsControllerView::loaded_latches(
            seq@,
            offset as int,
            a0 as int,
        ));
    }

    /// Gathers the pixels at an offset into the pixel buffer.
    pub fn get_pixels(&mut self, seq: &Sequencer, addr: usize)
        requires
            seq.wf(),
            old(self).wf(),
        ensures
            final(self).wf(),
            final(self)@ == (GraphicsControllerView {
                pixel_buf: old(self)@.gathered_pixels(seq@, addr as int),
                ..old(self)@
            }),
    {
        let old_buf = self.pixel_buf;
        self.pixel_buf = [
            old_buf[0] | seq.pixel(addr, 0),
            old_buf[1] | seq.pixel(addr, 1),
            old_buf[2] | seq.pixel(addr, 2),
            old_buf[3] | seq.pixel(addr, 3),
            old_buf[4] | seq.pixel(addr, 4),
            old_buf[5] | seq.pixel(addr, 5),
            old_buf[6] | seq.pixel(addr, 6),
            old_buf[7] | seq.pixel(addr, 7),
        ];
        assert(self.pixel_buf@ =~= old(self)@.gathered_pixels(seq@, addr as int));
    }

    fn match_weight(&self, i: u8) -> (w: u8)
        requires
            self.wf(),
            i < 8,
        ensures
            w as int == self@.match_weight(i as int),
    {
        let mut colour: u8 = 0;
        if test_bit(self.latches[0], i) {
            colour = colour + 1;
        }
        if test_bit(self.latches[1], i) {
            colour = colour + 2;
        }
        if test_bit(self.latches[2], i) {
            colour = colour + 4;
        }
        if test_bit(self.latches[3], i) {
            colour = colour + 8;
        }
        let masked = self.regs.graphics_color_compare & self.regs.graphics_color_dont_care;
        if colour & self.regs.graphics_color_dont_care == masked {
            power_of_two(i) as u8
        } else {
            0
        }
    }

    /// Compares the colours that the latches hold with the colour compare
    /// register, in the planes that the colour don't care register lets
    /// count.
    pub fn pixel_op_compare(&self) -> (comparison: u8)
        requires
            self.wf(),
        ensures
            comparison == self@.comparison(),
    {
        self.match_weight(0) + self.match_weight(1) + self.match_weight(2) + self.match_weight(3)
            + self.match_weight(4) + self.match_weight(5) + self.match_weight(6)
            + self.match_weight(7)
    }

    /// The processor reads an address of video memory.
    pub fn cpu_read_u8(&mut self, seq: &Sequencer, address: usize) -> (byte: u8)
        requires
            seq.wf(),
            old(self).wf(),
        ensures
            final(self).wf(),
            byte == old(self)@.read_value(seq@, address as int),
            final(self)@ == old(self)@.after_read(seq@, address as int),
    {
        let offset = match self.plane_bounds_check(address) {
            Some(offset) => offset,
            None => {
                return 0;
            },
        };
        self.load_latches(seq, offset, address % 2);
        match self.regs.graphics_mode.read_mode() {
            ReadMode::ReadSelectedPlane => {
                let plane = (self.regs.graphics_read_map_select % 4) as usize;
                seq.read_u8(plane, offset, address % 2)
            },
            ReadMode::ReadComparedPlanes => {
                self.get_pixels(seq, offset);
                self.pixel_op_compare()
            },
        }
    }

    /// Reads an address of video memory without loading the latches.
    pub fn cpu_peek_u8(&self, seq: &Sequencer, address: usize) -> (byte: u8)
        requires
            seq.wf(),
        ensures
            byte == self@.peek_value(seq@, address as int),
    {
        let offset = match self.plane_bounds_check(address) {
            Some(offset) => offset,
            None => {
                return 0;
            },
        };
        seq.read_u8(0, offset, address % 2)
    }

    fn store_planes(seq: &mut Sequencer, offset: usize, a0: usize, bytes: [u8; 4])
        requires
            old(seq).wf(),
        ensures
            final(seq).wf(),
            final(seq)@ == GraphicsControllerView::store_planes(
                old(seq)@,
                offset as int,
                a0 as int,
                bytes@,
            ),
    {
        seq.plane_set(0, offset, a0, bytes[0]);
        seq.plane_set(1, offset, a0, bytes[1]);
        seq.plane_set(2, offset, a0, bytes[2]);
        seq.plane_set(3, offset, a0, bytes[3]);
    }

    fn mode2_plane(&self, seq: &mut Sequencer, i: u8, offset: usize, a0: usize, byte: u8)
        requires
            old(seq).wf(),
            i < 4,
        ensures
            final(seq).wf(),
            final(seq)@ == self@.mode2_plane(old(seq)@, i as int, offset as int, a0 as int, byte),
    {
        let bit_span = spread_bit(test_bit(byte, i));
        seq.plane_and(i as usize, offset, a0, !self.regs.graphics_bitmask);
        seq.plane_or(i as usize, offset, a0, bit_span & self.regs.graphics_bitmask);
    }

    fn mode0_bytes(&self, byte: u8) -> (bytes: [u8; 4])
        requires
            self.wf(),
        ensures
            bytes@ == self@.mode0_bytes(byte),
    {
        let bytes: [u8; 4] = [
            self.regs.pipeline_byte(0, byte, self.latches[0]),
            self.regs.pipeline_byte(1, byte, self.latches[1]),
            self.regs.pipeline_byte(2, byte, self.latches[2]),
            self.regs.pipeline_byte(3, byte, self.latches[3]),
        ];
        assert(bytes@ =~= self@.mode0_bytes(byte));
        bytes
    }

    /// The processor writes an address of video memory.
    pub fn cpu_write_u8(&mut self, seq: &mut Sequencer, address: usize, byte: u8)
        requires
            old(seq).wf(),
            old(self).wf(),
        ensures
            final(self).wf(),
            final(seq).wf(),
            final(self)@ == old(self)@.after_write(address as int, byte),
            final(seq)@ == old(self)@.written_planes(old(seq)@, address as int, byte),
    {
        let offset = match self.plane_bounds_check(address) {
            Some(offset) => offset,
            None => {
                return ;
            },
        };
        let a0 = address % 2;
        match self.regs.graphics_mode.write_mode() {
            WriteMode::Mode0 => {
                self.pipeline_buf = self.mode0_bytes(byte);
                GraphicsController::store_planes(seq, offset, a0, self.pipeline_buf);
            },
            WriteMode::Mode1 => {
                GraphicsController::store_planes(seq, offset, a0, self.latches);
            },
            WriteMode::Mode2 => {
                self.mode2_plane(seq, 0, offset, a0, byte);
                self.mode2_plane(seq, 1, offset, a0, byte);
                self.mode2_plane(seq, 2, offset, a0, byte);
                self.mode2_plane(seq, 3, offset, a0, byte);
            },
            WriteMode::Invalid => {},
        }
    }

    /// Puts out the eight pixels at an address for the serializer. This
    /// loads no latches.
    pub fn serialize(&mut self, seq: &Sequencer, address: usize) -> (pixels: [u8; 8])
        requires
            seq.wf(),
            old(self).wf(),
            address < usize::MAX,
        ensures
            final(self).wf(),
            pixels@ == old(self)@.serialized(seq@, address as int),
            final(self)@ == old(self)@.after_serialize(seq@, address as int),
    {
        match self.regs.graphics_mode.shift_mode() {
            ShiftMode::CGACompatible => {
                let left = cga_pixels(seq.read_u8(0, address, address % 2));
                let right = cga_pixels(seq.read_u8(1, address + 1, 1));
                self.serialize_buf = [
                    left[0],
                    left[1],
                    left[2],
                    left[3],
                    right[0],
                    right[1],
                    right[2],
                    right[3],
                ];
                assert(self.serialize_buf@ =~= GraphicsControllerView::cga_serialized(
                    seq@,
                    address as int,
                ));
                self.serialize_buf
            },
            ShiftMode::Standard => seq.serialize_linear(address),
        }
    }
}

/// The name of a register, as a debugger shows it.
pub open spec fn register_name(reg: GraphicsRegister) -> Seq<char> {
    match reg {
        GraphicsRegister::SetReset => "SetReset"@,
        GraphicsRegister::EnableSetReset => "EnableSetReset"@,
        GraphicsRegister::ColorCompare => "ColorCompare"@,
        GraphicsRegister::DataRotate => "DataRotate"@,
        GraphicsRegister::ReadMapSelect => "ReadMapSelect"@,
        GraphicsRegister::Mode => "Mode"@,
        GraphicsRegister::Miscellaneous => "Miscellaneous"@,
        GraphicsRegister::ColorDontCare => "ColorDontCare"@,
        GraphicsRegister::BitMask => "BitMask"@,
    }
}

pub open spec fn rotate_function_name(f: RotateFunction) -> Seq<char> {
    match f {
        RotateFunction::Unmodified => "Unmodified"@,
        RotateFunction::And => "And"@,
        RotateFunction::Or => "Or"@,
        RotateFunction::Xor => "Xor"@,
    }
}

pub open spec fn write_mode_name(m: WriteMode) -> Seq<char> {
    match m {
        WriteMode::Mode0 => "Mode0"@,
        WriteMode::Mode1 => "Mode1"@,
        WriteMode::Mode2 => "Mode2"@,
        WriteMode::Invalid => "Invalid"@,
    }
}

pub open spec fn read_mode_name(m: ReadMode) -> Seq<char> {
    match m {
        ReadMode::ReadSelectedPlane => "ReadSelectedPlane"@,
        ReadMode::ReadComparedPlanes => "ReadComparedPlanes"@,
    }
}

pub open spec fn shift_mode_name(m: ShiftMode) -> Seq<char> {
    match m {
        ShiftMode::Standard => "Standard"@,
        ShiftMode::CGACompatible => "CGACompatible"@,
    }
}

pub open spec fn memory_map_name(m: MemoryMap) -> Seq<char> {
    match m {
        MemoryMap::A0000_128k => "A0000_128k"@,
        MemoryMap::A0000_64K => "A0000_64K"@,
        MemoryMap::B0000_32K => "B0000_32K"@,
        MemoryMap::B8000_32K => "B8000_32K"@,
    }
}

pub open spec fn bool_name(b: bool) -> Seq<char> {
    if b {
        "true"@
    } else {
        "false"@
    }
}

impl GraphicsRegisters {
    /// The sixteen rows of the state that a debugger shows, each a label and
    /// a value: the plain registers in binary, the fields of the data rotate,
    /// mode and miscellaneous registers by name.
    pub open spec fn state_row(self, k: int) -> (Seq<char>, Seq<char>) {
        if k == 0 {
            ("SetReset"@, binary_text(self.graphics_set_reset as nat, 4))
        } else if k == 1 {
            ("EnableSetReset"@, binary_text(self.graphics_enable_set_reset as nat, 4))
        } else if k == 2 {
            ("ColorCompare"@, binary_text(self.graphics_color_compare as nat, 4))
        } else if k == 3 {
            (
                "DataRotate"@ + " [fn]"@,
                rotate_function_name(self.graphics_data_rotate.spec_function()),
            )
        } else if k == 4 {
            ("DataRotate"@ + " [ct]"@, decimal_text(self.graphics_data_rotate.spec_count() as nat))
        } else if k == 5 {
            ("ReadMapSelect"@, binary_text(self.graphics_read_map_select as nat, 3))
        } else if k == 6 {
            ("Mode"@ + " [sr]"@, shift_mode_name(self.graphics_mode.spec_shift_mode()))
        } else if k == 7 {
            ("Mode"@ + " [o/e]"@, bool_name(self.graphics_mode.spec_odd_even()))
        } else if k == 8 {
            ("Mode"@ + " [rm]"@, read_mode_name(self.graphics_mode.spec_read_mode()))
        } else if k == 9 {
            ("Mode"@ + " [tc]"@, bool_name(self.graphics_mode.spec_test_condition()))
        } else if k == 10 {
            ("Mode"@ + " [wm]"@, write_mode_name(self.graphics_mode.spec_write_mode()))
        } else if k == 11 {
            (
                "Miscellaneous"@ + " [gm]"@,
                bool_name(self.graphics_micellaneous.spec_graphics_mode()),
            )
        } else if k == 12 {
            (
                "Miscellaneous"@ + " [coe]"@,
                bool_name(self.graphics_micellaneous.spec_chain_odd_even()),
            )
        } else if k == 13 {
            (
                "Miscellaneous"@ + " [mm]"@,
                memory_map_name(self.graphics_micellaneous.spec_memory_map()),
            )
        } else if k == 14 {
            ("ColorDontCare"@, binary_text(self.graphics_color_dont_care as nat, 4))
        } else {
            ("BitMask"@, binary_text(self.graphics_bitmask as nat, 8))
        }
    }
}

/// Whether a row of state has the given label and holds the given text.
pub open spec fn row_is(
    row: (String, VideoCardStateEntry),
    label: Seq<char>,
    text: Seq<char>,
) -> bool {
    &&& row.0@ == label
    &&& row.1 matches VideoCardStateEntry::String(value) && value@ == text
}

fn name_of_register(reg: GraphicsRegister) -> (name: String)
    ensures
        name@ == register_name(reg),
{
    match reg {
        GraphicsRegister::SetReset => String::from_str("SetReset"),
        GraphicsRegister::EnableSetReset => String::from_str("EnableSetReset"),
        GraphicsRegister::ColorCompare => String::from_str("ColorCompare"),
        GraphicsRegister::DataRotate => String::from_str("DataRotate"),
        GraphicsRegister::ReadMapSelect => String::from_str("ReadMapSelect"),
        GraphicsRegister::Mode => String::from_str("Mode"),
        GraphicsRegister::Miscellaneous => String::from_str("Miscellaneous"),
        GraphicsRegister::ColorDontCare => String::from_str("ColorDontCare"),
        GraphicsRegister::BitMask => String::from_str("BitMask"),
    }
}

fn name_of_rotate_function(f: RotateFunction) -> (name: String)
    ensures
        name@ == rotate_function_name(f),
{
    match f {
        RotateFunction::Unmodified => String::from_str("Unmodified"),
        RotateFunction::And => String::from_str("And"),
        RotateFunction::Or => String::from_str("Or"),
        RotateFunction::Xor => String::from_str("Xor"),
    }
}

fn name_of_write_mode(m: WriteMode) -> (name: String)
    ensures
        name@ == write_mode_name(m),
{
    match m {
        WriteMode::Mode0 => String::from_str("Mode0"),
        WriteMode::Mode1 => String::from_str("Mode1"),
        WriteMode::Mode2 => String::from_str("Mode2"),
        WriteMode::Invalid => String::from_str("Invalid"),
    }
}

fn name_of_read_mode(m: ReadMode) -> (name: String)
    ensures
        name@ == read_mode_name(m),
{
    match m {
        ReadMode::ReadSelectedPlane => String::from_str("ReadSelectedPlane"),
        ReadMode::ReadComparedPlanes => String::from_str("ReadComparedPlanes"),
    }
}

fn name_of_shift_mode(m: ShiftMode) -> (name: String)
    ensures
        name@ == shift_mode_name(m),
{
    match m {
        ShiftMode::Standard => String::from_str("Standard"),
        ShiftMode::CGACompatible => String::from_str("CGACompatible"),
    }
}

fn name_of_memory_map(m: MemoryMap) -> (name: String)
    ensures
        name@ == memory_map_name(m),
{
    match m {
        MemoryMap::A0000_128k => String::from_str("A0000_128k"),
        MemoryMap::A0000_64K => String::from_str("A0000_64K"),
        MemoryMap::B0000_32K => String::from_str("B0000_32K"),
        MemoryMap::B8000_32K => String::from_str("B8000_32K"),
    }
}

fn name_of_bool(b: bool) -> (name: String)
    ensures
        name@ == bool_name(b),
{
    if b {
        String::from_str("true")
    } else {
        String::from_str("false")
    }
}

/// The name of a register followed by a decorator.
fn decorated(reg: GraphicsRegister, decorator: &str) -> (label: String)
    ensures
        label@ == register_name(reg) + decorator@,
{
    let mut label = name_of_register(reg);
    label.append(decorator);
    label
}

fn push_row(list: &mut Vec<(String, VideoCardStateEntry)>, label: String, value: String)
    ensures
        final(list)@.len() == old(list)@.len() + 1,
        forall|k: int| 0 <= k < old(list)@.len() ==> final(list)@[k] == old(list)@[k],
        row_is(final(list)@[old(list)@.len() as int], label@, value@),
{
    list.push((label, VideoCardStateEntry::String(value)));
}

impl GraphicsController {
    /// The state of the controller in sixteen rows, for a debugger.
    pub fn get_state(&self) -> (rows: Vec<(String, VideoCardStateEntry)>)
        ensures
            rows@.len() == 16,
            forall|k: int|
                0 <= k < 16 ==> row_is(
                    #[trigger] rows@[k],
                    self@.regs.state_row(k).0,
                    self@.regs.state_row(k).1,
                ),
    {
        let r = &self.regs;
        let mut rows: Vec<(String, VideoCardStateEntry)> = Vec::new();
        push_row(
            &mut rows,
            name_of_register(GraphicsRegister::SetReset),
            binary_string(r.graphics_set_reset, 4),
        );
        push_row(
            &mut rows,
            name_of_register(GraphicsRegister::EnableSetReset),
            binary_string(r.graphics_enable_set_reset, 4),
        );
        push_row(
            &mut rows,
            name_of_register(GraphicsRegister::ColorCompare),
            binary_string(r.graphics_color_compare, 4),
        );
        push_row(
            &mut rows,
            decorated(GraphicsRegister::DataRotate, " [fn]"),
            name_of_rotate_function(r.graphics_data_rotate.function()),
        );
        push_row(
            &mut rows,
            decorated(GraphicsRegister::DataRotate, " [ct]"),
            decimal_string(r.graphics_data_rotate.count()),
        );
        push_row(
            &mut rows,
            name_of_register(GraphicsRegister::ReadMapSelect),
            binary_string(r.graphics_read_map_select, 3),
        );
        push_row(
            &mut rows,
            decorated(GraphicsRegister::Mode, " [sr]"),
            name_of_shift_mode(r.graphics_mode.shift_mode()),
        );
        push_row(
            &mut rows,
            decorated(GraphicsRegister::Mode, " [o/e]"),
            name_of_bool(r.graphics_mode.odd_even()),
        );
        push_row(
            &mut rows,
            decorated(GraphicsRegister::Mode, " [rm]"),
            name_of_read_mode(r.graphics_mode.read_mode()),
        );
        push_row(
            &mut rows,
            decorated(GraphicsRegister::Mode, " [tc]"),
            name_of_bool(r.graphics_mode.test_condition()),
        );
        push_row(
            &mut rows,
            decorated(GraphicsRegister::Mode, " [wm]"),
            name_of_write_mode(r.graphics_mode.write_mode()),
        );
        push_row(
            &mut rows,
            decorated(GraphicsRegister::Miscellaneous, " [gm]"),
            name_of_bool(r.graphics_micellaneous.graphics_mode()),
        );
        push_row(
            &mut rows,
            decorated(GraphicsRegister::Miscellaneous, " [coe]"),
            name_of_bool(r.graphics_micellaneous.chain_odd_even()),
        );
        push_row(
            &mut rows,
            decorated(GraphicsRegister::Miscellaneous, " [mm]"),
            name_of_memory_map(r.graphics_micellaneous.memory_map()),
        );
        push_row(
            &mut rows,
            name_of_register(GraphicsRegister::ColorDontCare),
            binary_string(r.graphics_color_dont_care, 4),
        );
        push_row(
            &mut rows,
            name_of_register(GraphicsRegister::BitMask),
            binary_string(r.graphics_bitmask, 8),
        );
        rows
    }
}

impl Default for GraphicsController {
    fn default() -> (g: GraphicsController)
        ensures
            g@ == GraphicsControllerView::initial(),
    {
        GraphicsController::new()
    }
}

/// A peek changes nothing and, in the read mode that selects a plane with
/// plane 0 selected, finds what a read finds.
pub proof fn lemma_peek_agrees_with_read(
    g: GraphicsControllerView,
    seq: SequencerView,
    address: int,
)
    requires
        g.regs.graphics_mode.spec_read_mode() == ReadMode::ReadSelectedPlane,
        g.regs.graphics_read_map_select % 4 == 0,
    ensures
        g.peek_value(seq, address) == g.read_value(seq, address),
{
}

} // verus!
