//! The PC-98 graphics subsystem: two display controllers, text and graphics
//! memory, and the frame buffers.

pub mod gdc;
pub mod io;
pub mod mmio;
pub mod videocard;

use vstd::prelude::*;
use crate::devices::pc98_graphics::gdc::{GdcView, GDC};
use crate::devices::videocard::{ClockingMode, DisplayAperture, DisplayExtents};

verus! {

pub const PC98_TEXT_MEMORY_SIZE: usize = 0x4000;
pub const PC98_GRAPHICS_MEMORY_SIZE: usize = 0x2_0000;
pub const PC98_FIELD_WIDTH: usize = 640;
pub const PC98_FIELD_HEIGHT: usize = 400;
pub const PC98_FRAME_SIZE: usize = 256000;
/// Pixels per scanline, sync and porches included.
pub const PC98_LINE_PIXELS: u32 = 848;
/// Scanlines per frame, sync and porches included.
pub const PC98_FRAME_LINES: u32 = 525;
/// The interrupt line that is pulsed at the end of each frame.
pub const PC98_VSYNC_IRQ: u8 = 2;
/// Where the 8x16 glyphs start in the font.
pub const PC98_FONT_GLYPH_BASE: usize = 0x800;
/// The least size of a font that holds the glyphs of all 256 character codes
/// for every line that the text controller can put out.
pub const PC98_FONT_MIN_SIZE: usize = 0x2000;
/// The scanline on which the picture starts.
pub const PC98_FIRST_VISIBLE_LINE: u32 = 25;
/// The pixel of a scanline on which the picture starts.
pub const PC98_FIRST_VISIBLE_PIXEL: u32 = 64;

pub const PC98_DEFAULT_APERTURE: usize = 0;

pub struct PC98Graphics {
    pub clock_mode: ClockingMode,
    pub frame_count: u64,
    pub beam_x: u32,
    pub beam_y: u32,
    pub scanline: u32,
    pub extents: DisplayExtents,
    pub back_buf: usize,
    pub front_buf: usize,
    /// Text memory: character codes at even addresses.
    pub tvmem: Vec<u8>,
    /// Graphics memory: four planes, one after the other.
    pub gvmem: Vec<u8>,
    /// The text display controller.
    pub tgdc: GDC,
    /// The graphics display controller.
    pub ggdc: GDC,
    /// The first frame buffer, one byte per pixel; the text is drawn here.
    pub buf0: Vec<u8>,
    /// The second frame buffer.
    pub buf1: Vec<u8>,
    /// The font: sixteen bytes per glyph, one per line, leftmost pixel in the
    /// top bit.
    pub font: Vec<u8>,
}

/// The graphics subsystem as a mathematical value.
pub struct PC98GraphicsView {
    pub clock_mode: ClockingMode,
    pub frame_count: u64,
    pub beam_x: u32,
    pub beam_y: u32,
    pub scanline: u32,
    pub back_buf: usize,
    pub front_buf: usize,
    pub tvmem: Seq<u8>,
    pub gvmem: Seq<u8>,
    pub tgdc: GdcView,
    pub ggdc: GdcView,
    pub buf0: Seq<u8>,
    pub buf1: Seq<u8>,
    pub font: Seq<u8>,
}

impl View for PC98Graphics {
    type V = PC98GraphicsView;

    open spec fn view(&self) -> PC98GraphicsView {
        PC98GraphicsView {
            clock_mode: self.clock_mode,
            frame_count: self.frame_count,
            beam_x: self.beam_x,
            beam_y: self.beam_y,
            scanline: self.scanline,
            back_buf: self.back_buf,
            front_buf: self.front_buf,
            tvmem: self.tvmem@,
            gvmem: self.gvmem@,
            tgdc: self.tgdc@,
            ggdc: self.ggdc@,
            buf0: self.buf0@,
            buf1: self.buf1@,
            font: self.font@,
        }
    }
}

/// The weight of the bit that holds pixel `x` of a glyph line: pixel 0 is the
/// top bit.
pub open spec fn pixel_weight(x: int) -> int {
    if x == 0 {
        128
    } else if x == 1 {
        64
    } else if x == 2 {
        32
    } else if x == 3 {
        16
    } else if x == 4 {
        8
    } else if x == 5 {
        4
    } else if x == 6 {
        2
    } else {
        1
    }
}

/// The one aperture of the display: the whole 640x400 field.
pub open spec fn pc98_aperture() -> DisplayAperture {
    DisplayAperture { w: 640, h: 400, x: 0, y: 0, debug: false }
}

/// Whether `e` describes the PC-98 display: a 640x400 field with one
/// aperture.
pub open spec fn is_pc98_extents(e: DisplayExtents) -> bool {
    &&& e.apertures@ == seq![pc98_aperture()]
    &&& e.field_w == 640
    &&& e.field_h == 400
    &&& e.row_stride == 640
    &&& !e.double_scan
    &&& e.mode_byte == 0
}

impl PC98GraphicsView {
    /// Memories and frame buffers have their sizes, the font holds every
    /// glyph, the beam is within the frame, and the buffer selectors name a
    /// buffer.
    pub open spec fn wf(self) -> bool {
        &&& self.tvmem.len() == PC98_TEXT_MEMORY_SIZE
        &&& self.gvmem.len() == PC98_GRAPHICS_MEMORY_SIZE
        &&& self.buf0.len() == PC98_FRAME_SIZE
        &&& self.buf1.len() == PC98_FRAME_SIZE
        &&& self.font.len() >= PC98_FONT_MIN_SIZE
        &&& self.beam_x < PC98_LINE_PIXELS
        &&& self.scanline < PC98_FRAME_LINES
        &&& self.back_buf < 2
        &&& self.front_buf < 2
    }

    /// The character code under the text controller's address.
    pub open spec fn char_code(self) -> u8 {
        self.tvmem[(self.tgdc.address % 0x2000) * 2]
    }

    /// The index in the font of the glyph line that the text controller's
    /// address selects, if the font reaches that far.
    pub open spec fn glyph_index(self) -> int {
        self.char_code() * 16 + self.tgdc.address / 0x2000 + PC98_FONT_GLYPH_BASE
    }

    /// The line of the glyph that is drawn; zero where the font ends before
    /// it.
    pub open spec fn glyph_line(self) -> u8 {
        if self.glyph_index() < self.font.len() {
            self.font[self.glyph_index()]
        } else {
            0
        }
    }

    /// The colour of pixel `x` of the character that is drawn: white where
    /// the cursor covers the character or the glyph has a dot, black
    /// elsewhere.
    pub open spec fn char_pixel(self, x: int) -> u8 {
        if self.tgdc.cursor_active || (self.glyph_line() as int / pixel_weight(x)) % 2 == 1 {
            15
        } else {
            0
        }
    }

    /// The index in the frame buffer of the first pixel of the character
    /// drawn at `beam_x`; it is negative, or beyond the buffer, where the
    /// character lies above or below the picture. Lines are not clipped at
    /// their ends: what lies left or right of the picture lands on the
    /// neighbouring line.
    pub open spec fn char_origin(self, beam_x: int) -> int {
        640 * (self.scanline - PC98_FIRST_VISIBLE_LINE) + beam_x - PC98_FIRST_VISIBLE_PIXEL
    }

    /// Whether pixel `k` of the frame buffer belongs to the character drawn
    /// at `beam_x`.
    pub open spec fn char_covers(self, beam_x: int, k: int) -> bool {
        &&& !self.tgdc.blank
        &&& self.char_origin(beam_x) <= k < self.char_origin(beam_x) + 8
    }

    /// The frame buffer after the character under the text controller's
    /// address was drawn at `beam_x`: its eight pixels, as far as they lie in
    /// the buffer, and nothing while the controller blanks.
    pub open spec fn draw_char(self, beam_x: int) -> PC98GraphicsView {
        PC98GraphicsView {
            buf0: Seq::new(
                self.buf0.len(),
                |k: int|
                    if self.char_covers(beam_x, k) {
                        self.char_pixel(k - self.char_origin(beam_x))
                    } else {
                        self.buf0[k]
                    },
            ),
            ..self
        }
    }

    /// The text controller runs for one word clock.
    pub open spec fn tick_text(self) -> PC98GraphicsView {
        PC98GraphicsView { tgdc: self.tgdc.tick(), ..self }
    }

    /// The graphics controller runs for one word clock.
    pub open spec fn tick_graphics(self) -> PC98GraphicsView {
        PC98GraphicsView { ggdc: self.ggdc.tick(), ..self }
    }

    /// Whether the next tick ends the frame.
    pub open spec fn frame_ends(self) -> bool {
        self.beam_x + 16 >= PC98_LINE_PIXELS && self.scanline + 1 >= PC98_FRAME_LINES
    }

    /// The beam moves on by sixteen pixels, to the next scanline at the end of
    /// a line, and to the top at the end of the frame.
    pub open spec fn advance_beam(self) -> PC98GraphicsView {
        if self.beam_x + 16 >= PC98_LINE_PIXELS {
            PC98GraphicsView {
                beam_x: 0,
                scanline: if self.frame_ends() { 0 } else { (self.scanline + 1) as u32 },
                ..self
            }
        } else {
            PC98GraphicsView { beam_x: (self.beam_x + 16) as u32, ..self }
        }
    }

    /// One tick: the text controller puts out two characters, which are
    /// drawn side by side, the graphics controller runs once, and the beam
    /// moves on.
    pub open spec fn tick(self) -> PC98GraphicsView {
        self.tick_text().draw_char(self.beam_x as int).tick_text().draw_char(
            self.beam_x + 8,
        ).tick_graphics().advance_beam()
    }
}

impl PC98Graphics {
    pub open spec fn wf(&self) -> bool {
        self@.wf() && is_pc98_extents(self.extents)
    }

    /// Tests whether the state is well formed.
    pub fn is_well_formed(&self) -> (b: bool)
        ensures
            b == self.wf(),
    {
        let e = &self.extents;
        let sizes = self.tvmem.len() == PC98_TEXT_MEMORY_SIZE && self.gvmem.len()
            == PC98_GRAPHICS_MEMORY_SIZE && self.buf0.len() == PC98_FRAME_SIZE && self.buf1.len()
            == PC98_FRAME_SIZE && self.font.len() >= PC98_FONT_MIN_SIZE;
        let beam = self.beam_x < PC98_LINE_PIXELS && self.scanline < PC98_FRAME_LINES
            && self.back_buf < 2 && self.front_buf < 2;
        if e.apertures.len() != 1 {
            return false;
        }
        let a = e.apertures[0];
        let aperture = a.w == 640 && a.h == 400 && a.x == 0 && a.y == 0 && !a.debug;
        let field = e.field_w == 640 && e.field_h == 400 && e.row_stride == 640 && !e.double_scan
            && e.mode_byte == 0;
        proof {
            if aperture {
                assert(e.apertures@ =~= seq![pc98_aperture()]);
            } else {
                assert(e.apertures@[0] != pc98_aperture());
            }
        }
        sizes && beam && aperture && field
    }

    /// The subsystem after power-on, with the given font. A default clocking
    /// mode stands for dynamic clocking.
    pub fn new(font: Vec<u8>, clock_mode: ClockingMode, _video_frame_debug: bool) -> (g:
        PC98Graphics)
        requires
            font@.len() >= PC98_FONT_MIN_SIZE,
        ensures
            g.wf(),
            g@.font == font@,
            g@.clock_mode == (if clock_mode == ClockingMode::Default {
                ClockingMode::Dynamic
            } else {
                clock_mode
            }),
            g@.frame_count == 0 && g@.beam_x == 0 && g@.beam_y == 0 && g@.scanline == 0,
            g@.back_buf == 1 && g@.front_buf == 0,
            g@.tgdc == GdcView::initial() && g@.ggdc == GdcView::initial(),
            g@.tvmem == Seq::new(PC98_TEXT_MEMORY_SIZE as nat, |i: int| 0u8),
            g@.gvmem == Seq::new(PC98_GRAPHICS_MEMORY_SIZE as nat, |i: int| 0u8),
            g@.buf0 == Seq::new(PC98_FRAME_SIZE as nat, |i: int| 0u8),
            g@.buf1 == Seq::new(PC98_FRAME_SIZE as nat, |i: int| 0u8),
    {
        let mut apertures: Vec<DisplayAperture> = Vec::new();
        apertures.push(DisplayAperture { w: 640, h: 400, x: 0, y: 0, debug: false });
        assert(apertures@ =~= seq![pc98_aperture()]);
        let g = PC98Graphics {
            clock_mode: match clock_mode {
                ClockingMode::Default => ClockingMode::Dynamic,
                _ => clock_mode,
            },
            frame_count: 0,
            beam_x: 0,
            beam_y: 0,
            scanline: 0,
            extents: DisplayExtents {
                apertures,
                field_w: 640,
                field_h: 400,
                row_stride: 640,
                double_scan: false,
                mode_byte: 0,
            },
            back_buf: 1,
            front_buf: 0,
            tvmem: vec![0u8; PC98_TEXT_MEMORY_SIZE],
            gvmem: vec![0u8; PC98_GRAPHICS_MEMORY_SIZE],
            tgdc: GDC::new(),
            ggdc: GDC::new(),
            buf0: vec![0u8; PC98_FRAME_SIZE],
            buf1: vec![0u8; PC98_FRAME_SIZE],
            font,
        };
        assert(g@.tvmem =~= Seq::new(PC98_TEXT_MEMORY_SIZE as nat, |i: int| 0u8));
        assert(g@.gvmem =~= Seq::new(PC98_GRAPHICS_MEMORY_SIZE as nat, |i: int| 0u8));
        assert(g@.buf0 =~= Seq::new(PC98_FRAME_SIZE as nat, |i: int| 0u8));
        assert(g@.buf1 =~= Seq::new(PC98_FRAME_SIZE as nat, |i: int| 0u8));
        g
    }

    fn glyph_line(&self) -> (line: u8)
        requires
            self.wf(),
        ensures
            line == self@.glyph_line(),
    {
        let cell: usize = (self.tgdc.address % 0x2000) as usize * 2;
        let code = self.tvmem[cell];
        let index: usize = code as usize * 16 + (self.tgdc.address / 0x2000) as usize
            + PC98_FONT_GLYPH_BASE;
        if index < self.font.len() {
            self.font[index]
        } else {
            0
        }
    }

    /// Draws the character under the text controller's address into the
    /// first frame buffer, with its left edge at `beam_x`.
    pub fn draw_char(&mut self, beam_x: u32)
        requires
            old(self).wf(),
            beam_x < PC98_LINE_PIXELS + 8,
        ensures
            final(self).wf(),
            final(self)@ == old(self)@.draw_char(beam_x as int),
    {
        if self.tgdc.blank {
            assert(self@.buf0 =~= old(self)@.draw_char(beam_x as int).buf0);
            return ;
        }
        let line = self.glyph_line();
        let cursor = self.tgdc.cursor_active;
        let origin: i64 = 640 * (self.scanline as i64 - PC98_FIRST_VISIBLE_LINE as i64)
            + beam_x as i64 - PC98_FIRST_VISIBLE_PIXEL as i64;
        let mut x: u8 = 0;
        let mut weight: u8 = 128;
        while x < 8
            invariant
                x <= 8,
                x < 8 ==> weight as int == pixel_weight(x as int),
                old(self).wf(),
                self.wf(),
                !old(self)@.tgdc.blank,
                line == old(self)@.glyph_line(),
                cursor == old(self)@.tgdc.cursor_active,
                origin == old(self)@.char_origin(beam_x as int),
                beam_x < PC98_LINE_PIXELS + 8,
                self@ == (PC98GraphicsView { buf0: self@.buf0, ..old(self)@ }),
                self.extents == old(self).extents,
                forall|k: int|
                    0 <= k < PC98_FRAME_SIZE ==> #[trigger] self@.buf0[k] == (if old(
                        self,
                    )@.char_covers(beam_x as int, k) && k < origin + x {
                        old(self)@.char_pixel(k - origin)
                    } else {
                        old(self)@.buf0[k]
                    }),
            decreases 8 - x,
        {
            let pixel: u8 = if cursor || (line / weight) % 2 == 1 { 15 } else { 0 };
            let target: i64 = origin + x as i64;
            if target >= 0 && target < PC98_FRAME_SIZE as i64 {
                self.buf0.set(target as usize, pixel);
            }
            x = x + 1;
            weight = weight / 2;
        }
        assert(self@.buf0 =~= old(self)@.draw_char(beam_x as int).buf0);
    }

    fn advance_beam(&mut self) -> (frame_done: bool)
        requires
            old(self).wf(),
        ensures
            final(self).wf(),
            final(self)@ == old(self)@.advance_beam(),
            frame_done == old(self)@.frame_ends(),
    {
        let mut frame_done = false;
        self.beam_x = self.beam_x + 16;
        if self.beam_x >= PC98_LINE_PIXELS {
            self.beam_x = 0;
            self.scanline = self.scanline + 1;
        }
        if self.scanline >= PC98_FRAME_LINES {
            self.scanline = 0;
            frame_done = true;
        }
        frame_done
    }

    fn tick_text(&mut self)
        requires
            old(self).wf(),
        ensures
            final(self).wf(),
            final(self)@ == old(self)@.tick_text(),
    {
        self.tgdc.tick_wclk();
    }

    fn draw_pair(&mut self)
        requires
            old(self).wf(),
        ensures
            final(self).wf(),
            final(self)@ == old(self)@.tick_text().draw_char(
                old(self)@.beam_x as int,
            ).tick_text().draw_char(old(self)@.beam_x + 8),
    {
        let beam_x = self.beam_x;
        self.tick_text();
        self.draw_char(beam_x);
        self.tick_text();
        self.draw_char(beam_x + 8);
    }

    /// Runs the subsystem for one tick. Returns whether the frame ended, in
    /// which case the vertical sync interrupt is to be pulsed.
    pub fn tick(&mut self) -> (frame_done: bool)
        requires
            old(self).wf(),
        ensures
            final(self).wf(),
            final(self)@ == old(self)@.tick(),
            frame_done == old(self)@.frame_ends(),
    {
        self.draw_pair();
        self.ggdc.tick_wclk();
        self.advance_beam()
    }
}

} // verus!
