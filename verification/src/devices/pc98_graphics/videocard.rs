//! What the PC-98 graphics subsystem tells the rest of the machine about
//! itself.

use vstd::prelude::*;
use vstd::slice::slice_subrange;
use vstd::string::StrSliceExecFns;
use std::collections::HashMap;
use crate::devices::pc98_graphics::{
    pc98_aperture, PC98Graphics, PC98GraphicsView,
};
use crate::text::push_char;
use crate::devices::videocard::{
    BufferSelect, ClockingMode, CursorInfo, DisplayAperture, DisplayApertureDesc,
    DisplayApertureType, DisplayExtents, DisplayMode, FontInfo, RenderBpp, RenderMode,
    VideoCardStateEntry, VideoOption, VideoType,
};

verus! {

/// Rows of the text screen.
pub const PC98_TEXT_ROWS: usize = 25;
/// Bytes of text memory per row: eighty cells of two bytes.
pub const PC98_TEXT_ROW_BYTES: usize = 160;
/// The sign that stands for a line feed in a row of text.
pub const LINE_FEED_SIGN: char = '\u{240D}';

/// The text that `ISO_2022_JP.decode` of the crate `encoding_rs` gives for a
/// sequence of bytes.
pub uninterp spec fn iso_2022_jp_text(bytes: Seq<u8>) -> Seq<char>;

/// A text with each line feed replaced by the sign that stands for it.
pub open spec fn mark_line_feeds(text: Seq<char>) -> Seq<char> {
    Seq::new(text.len(), |i: int| if text[i] == '\n' { LINE_FEED_SIGN } else { text[i] })
}

impl PC98GraphicsView {
    /// Row `k` of the text screen as text: its bytes of text memory decoded,
    /// with line feeds made visible.
    pub open spec fn text_row(self, k: int) -> Seq<char> {
        mark_line_feeds(
            iso_2022_jp_text(
                self.tvmem.subrange(k * PC98_TEXT_ROW_BYTES, (k + 1) * PC98_TEXT_ROW_BYTES),
            ),
        )
    }
}

/// Calls `Encoding::decode` of `encoding_rs` on `ISO_2022_JP`, which decodes
/// the whole input, replaces malformed sequences, and honours a byte order
/// mark. The contract only names the text that comes back. The input is kept
/// short of the sizes at which the crate's buffer calculation overflows.
#[verifier::external_body]
fn decode_iso_2022_jp(bytes: &[u8]) -> (text: String)
    requires
        bytes@.len() <= 0x0100_0000,
    ensures
        text@ == iso_2022_jp_text(bytes@),
{
    let (cow, _, _) = encoding_rs::ISO_2022_JP.decode(bytes);
    cow.into_owned()
}

/// Replaces each line feed by the sign that stands for it.
pub fn replace_line_feeds(text: &str) -> (marked: String)
    ensures
        marked@ == mark_line_feeds(text@),
{
    let n = text.unicode_len();
    let mut marked = String::new();
    let mut i: usize = 0;
    while i < n
        invariant
            n == text@.len(),
            i <= n,
            marked@ == mark_line_feeds(text@).subrange(0, i as int),
        decreases n - i,
    {
        let c = text.get_char(i);
        push_char(&mut marked, if c == '\n' { LINE_FEED_SIGN } else { c });
        i = i + 1;
        assert(marked@ =~= mark_line_feeds(text@).subrange(0, i as int));
    }
    assert(marked@ =~= mark_line_feeds(text@));
    marked
}

impl PC98Graphics {
    /// Horizontal sync, vertical sync, display enable and border: only
    /// display enable is reported.
    pub fn get_sync(&self) -> (sync: (bool, bool, bool, bool))
        ensures
            sync == (false, false, true, false),
    {
        (false, false, true, false)
    }

    /// No option changes anything.
    pub fn set_video_option(&mut self, _opt: VideoOption)
        ensures
            final(self)@ == old(self)@,
            final(self).extents == old(self).extents,
    {
    }

    pub fn get_video_type(&self) -> (t: VideoType)
        ensures
            t == VideoType::PC98,
    {
        VideoType::PC98
    }

    pub fn get_render_mode(&self) -> (m: RenderMode)
        ensures
            m == RenderMode::Direct,
    {
        RenderMode::Direct
    }

    pub fn get_render_depth(&self) -> (d: RenderBpp)
        ensures
            d == RenderBpp::Four,
    {
        RenderBpp::Four
    }

    pub fn get_display_mode(&self) -> (m: DisplayMode)
        ensures
            m == DisplayMode::Mode13VGALowRes256,
    {
        DisplayMode::Mode13VGALowRes256
    }

    pub fn set_clocking_mode(&mut self, mode: ClockingMode)
        ensures
            final(self)@ == (PC98GraphicsView { clock_mode: mode, ..old(self)@ }),
            final(self).extents == old(self).extents,
    {
        self.clock_mode = mode;
    }

    pub fn get_display_size(&self) -> (size: (u32, u32))
        ensures
            size == (640u32, 400u32),
    {
        (640, 400)
    }

    pub fn get_display_extents(&self) -> (extents: &DisplayExtents)
        ensures
            *extents == self.extents,
    {
        &self.extents
    }

    pub fn list_display_apertures(&self) -> (list: Vec<DisplayApertureDesc>)
        ensures
            list@.len() == 1,
            list@[0].name@ == "Cropped: 640x400"@,
            list@[0].aper_enum == DisplayApertureType::Cropped,
    {
        let mut list: Vec<DisplayApertureDesc> = Vec::new();
        list.push(
            DisplayApertureDesc {
                name: "Cropped: 640x400",
                aper_enum: DisplayApertureType::Cropped,
            },
        );
        list
    }

    pub fn get_display_apertures(&self) -> (list: Vec<DisplayAperture>)
        ensures
            list@ == seq![pc98_aperture()],
    {
        let mut list: Vec<DisplayAperture> = Vec::new();
        list.push(DisplayAperture { w: 640, h: 400, x: 0, y: 0, debug: false });
        assert(list@ =~= seq![pc98_aperture()]);
        list
    }

    /// The position of the beam.
    pub fn get_beam_pos(&self) -> (pos: Option<(u32, u32)>)
        ensures
            pos == Some((self.beam_x, self.beam_y)),
    {
        Some((self.beam_x, self.beam_y))
    }

    pub fn is_40_columns(&self) -> (b: bool)
        ensures
            !b,
    {
        false
    }

    /// The cursor is not reported: every field is zero.
    pub fn get_cursor_info(&self) -> (info: CursorInfo)
        ensures
            info == (CursorInfo {
                addr: 0,
                pos_x: 0,
                pos_y: 0,
                line_start: 0,
                line_end: 0,
                visible: false,
            }),
    {
        CursorInfo { addr: 0, pos_x: 0, pos_y: 0, line_start: 0, line_end: 0, visible: false }
    }

    /// Nothing happens on a debug tick.
    pub fn debug_tick(&mut self, _ticks: u32)
        ensures
            final(self)@ == old(self)@,
            final(self).extents == old(self).extents,
    {
    }

    /// The twenty-five rows of the text screen as text.
    pub fn get_text_mode_strings(&self) -> (strings: Vec<String>)
        requires
            self.wf(),
        ensures
            strings@.len() == PC98_TEXT_ROWS,
            forall|k: int|
                0 <= k < PC98_TEXT_ROWS ==> (#[trigger] strings@[k])@ == self@.text_row(k),
    {
        let mut strings: Vec<String> = Vec::new();
        let mut row: usize = 0;
        while row < PC98_TEXT_ROWS
            invariant
                self.wf(),
                row <= PC98_TEXT_ROWS,
                strings@.len() == row,
                forall|k: int| 0 <= k < row ==> (#[trigger] strings@[k])@ == self@.text_row(k),
            decreases PC98_TEXT_ROWS - row,
        {
            let line_bytes = slice_subrange(
                self.tvmem.as_slice(),
                row * PC98_TEXT_ROW_BYTES,
                (row + 1) * PC98_TEXT_ROW_BYTES,
            );
            let decoded = decode_iso_2022_jp(line_bytes);
            let marked = replace_line_feeds(decoded.as_str());
            strings.push(marked);
            row = row + 1;
        }
        strings
    }

    pub fn get_overscan_color(&self) -> (c: u8)
        ensures
            c == 0,
    {
        0
    }

    /// The scanline that is being drawn.
    pub fn get_scanline(&self) -> (line: u32)
        ensures
            line == self.scanline,
    {
        self.scanline
    }

    pub fn get_scanline_double(&self) -> (b: bool)
        ensures
            !b,
    {
        false
    }

    /// The frame buffer that the selector names.
    pub fn get_buf(&self, buf_select: BufferSelect) -> (buf: &Vec<u8>)
        ensures
            buf@ == (match buf_select {
                BufferSelect::Back => if self.back_buf == 0 { self@.buf0 } else { self@.buf1 },
                BufferSelect::Front => if self.front_buf == 0 { self@.buf0 } else { self@.buf1 },
            }),
    {
        let index = match buf_select {
            BufferSelect::Back => self.back_buf,
            BufferSelect::Front => self.front_buf,
        };
        if index == 0 {
            &self.buf0
        } else {
            &self.buf1
        }
    }

    /// The front frame buffer.
    pub fn get_display_buf(&self) -> (buf: &Vec<u8>)
        ensures
            buf@ == (if self.front_buf == 0 { self@.buf0 } else { self@.buf1 }),
    {
        self.get_buf(BufferSelect::Front)
    }

    /// The refresh rate in hertz, rounded down.
    pub fn get_refresh_rate(&self) -> (rate: u32)
        ensures
            rate == 56,
    {
        56
    }

    pub fn get_clock_divisor(&self) -> (d: u32)
        ensures
            d == 1,
    {
        1
    }

    pub fn get_current_font(&self) -> (f: Option<FontInfo>)
        ensures
            f.is_none(),
    {
        None
    }

    pub fn get_character_height(&self) -> (h: u8)
        ensures
            h == 0,
    {
        0
    }

    pub fn is_graphics_mode(&self) -> (b: bool)
        ensures
            b,
    {
        true
    }

    /// The state of the card for a debugger: nothing is reported.
    pub fn get_videocard_string_state(&self) -> (state: HashMap<
        String,
        Vec<(String, VideoCardStateEntry)>,
    >)
        ensures
            state@ == Map::<String, Vec<(String, VideoCardStateEntry)>>::empty(),
    {
        HashMap::new()
    }

    /// A reset changes nothing.
    pub fn reset(&mut self)
        ensures
            final(self)@ == old(self)@,
            final(self).extents == old(self).extents,
    {
    }

    /// The colour of a pixel as red, green, blue and alpha: not reported.
    pub fn get_pixel(&self, _x: u32, _y: u32) -> (rgba: [u8; 4])
        ensures
            rgba@ == seq![0u8, 0u8, 0u8, 0u8],
    {
        let rgba: [u8; 4] = [0, 0, 0, 0];
        assert(rgba@ =~= seq![0u8, 0u8, 0u8, 0u8]);
        rgba
    }

    pub fn get_pixel_raw(&self, _x: u32, _y: u32) -> (p: u8)
        ensures
            p == 0,
    {
        0
    }

    pub fn get_start_address(&self) -> (a: u16)
        ensures
            a == 0,
    {
        0
    }

    /// A plane of graphics memory: not reported, a single zero byte.
    pub fn get_plane_slice(&self, _plane: usize) -> (plane: Vec<u8>)
        ensures
            plane@ == seq![0u8],
    {
        let mut plane: Vec<u8> = Vec::new();
        plane.push(0);
        assert(plane@ =~= seq![0u8]);
        plane
    }

    pub fn get_frame_count(&self) -> (n: u64)
        ensures
            n == self.frame_count,
    {
        self.frame_count
    }

    pub fn get_palette(&self) -> (p: Option<Vec<[u8; 4]>>)
        ensures
            p.is_none(),
    {
        None
    }
}

} // verus!
