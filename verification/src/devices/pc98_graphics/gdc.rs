//! The µPD7220 graphics display controller, as far as text output needs it:
//! a command FIFO, the sync, pitch, zoom and cursor parameters, and the
//! display address that each word clock puts out.

use vstd::prelude::*;
use std::collections::VecDeque;

verus! {

/// What the controller expects next from its FIFO.
#[derive(Copy, Clone, Debug, PartialEq, Eq, Structural)]
pub enum GDCState {
    Idle,
    SyncP1,
    SyncP2,
    SyncP3,
    SyncP4,
    SyncP5,
    SyncP6,
    SyncP7,
    SyncP8,
    Zoom,
    Pitch,
    CursP1,
    CursP2,
    CursP3,
    CCharP1,
    CCharP2,
    CCharP3,
}

/// The controller's internal registers.
#[derive(Copy, Clone, Debug, PartialEq, Eq, Structural)]
pub struct GdcRegisters {
    pub s: GDCState,
    pub mode: u8,
    /// Active display words per line, less two.
    pub aw_minus2: u8,
    /// Horizontal sync width, less one.
    pub hs_minus1: u8,
    /// Vertical sync width.
    pub vs: u8,
    /// Horizontal front porch width, less one.
    pub hfp_minus1: u8,
    /// Horizontal back porch width, less one.
    pub hbp_minus1: u8,
    pub pitch: u16,
    /// Drawing hold.
    pub dh: bool,
    /// Vertical front porch width.
    pub vfp: u8,
    pub vl: bool,
    pub vh: bool,
    /// Active display lines per field.
    pub al: u16,
    /// Vertical back porch width.
    pub vbp: u8,
    pub zoom: u8,
    pub started: bool,
    /// The cursor address, 18 bits.
    pub ead: u32,
    /// The dot address that CURS sets, 4 bits.
    pub dad: u8,
    /// Lines per character row, 5 bits.
    pub lr: u8,
    /// Display cursor.
    pub dc: bool,
    /// Top line of the cursor, 5 bits.
    pub ctop: u8,
    /// Steady cursor.
    pub sc: bool,
    /// Blink rate, 5 bits.
    pub br: u8,
    /// Bottom line of the cursor, 5 bits.
    pub cbot: u8,
    /// Counts frames, for the blinking of the cursor; wraps.
    pub blink_counter: u8,
    /// Word clocks to let pass before the next FIFO entry is taken.
    pub wait: u8,
}

pub struct GDC {
    /// The word of the line that is being put out.
    pub x: u16,
    /// The line that is being put out.
    pub y: u16,
    /// The display address put out, 18 bits.
    pub address: u32,
    /// The blank signal.
    pub blank: bool,
    /// Whether the cursor covers the word that is put out.
    pub cursor_active: bool,
    pub regs: GdcRegisters,
    /// Commands and parameters that wait to be processed; bit 8 marks a
    /// parameter.
    pub fifo: VecDeque<u16>,
}

/// The controller as a mathematical value.
pub struct GdcView {
    pub x: u16,
    pub y: u16,
    pub address: u32,
    pub blank: bool,
    pub cursor_active: bool,
    pub regs: GdcRegisters,
    pub fifo: Seq<u16>,
}

impl View for GDC {
    type V = GdcView;

    open spec fn view(&self) -> GdcView {
        GdcView {
            x: self.x,
            y: self.y,
            address: self.address,
            blank: self.blank,
            cursor_active: self.cursor_active,
            regs: self.regs,
            fifo: self.fifo@,
        }
    }
}

/// The FIFO holds sixteen entries.
pub const GDC_FIFO_LEN: usize = 16;
/// Words per line, sync and porches included.
pub const GDC_LINE_WORDS: u16 = 106;
/// Lines per frame, sync and porches included.
pub const GDC_FRAME_LINES: u16 = 525;
/// The first line of the vertical sync flag.
pub const GDC_VSYNC_LINE: u16 = 400;

/// `a - b`, or zero where `b` is the larger.
pub open spec fn saturating_difference(a: int, b: int) -> int {
    if a >= b {
        a - b
    } else {
        0
    }
}

/// The blink mask of the cursor: bit `br + 1` of the frame counter. There is
/// no such bit from a rate of seven on, and the mask is then empty.
pub open spec fn blink_bit(counter: u8, br: u8) -> bool {
    if br == 0 {
        (counter / 2) % 2 == 1
    } else if br == 1 {
        (counter / 4) % 2 == 1
    } else if br == 2 {
        (counter / 8) % 2 == 1
    } else if br == 3 {
        (counter / 16) % 2 == 1
    } else if br == 4 {
        (counter / 32) % 2 == 1
    } else if br == 5 {
        (counter / 64) % 2 == 1
    } else if br == 6 {
        (counter / 128) % 2 == 1
    } else {
        false
    }
}

/// Whether a FIFO entry is one of the three reset commands.
pub open spec fn is_reset_command(b: u16) -> bool {
    b == 0x00 || b == 0x01 || b == 0x11
}

/// Whether a FIFO entry is a command that is followed by sync parameters.
pub open spec fn starts_sync(b: u16) -> bool {
    is_reset_command(b) || b == 0x0E || b == 0x0F
}

/// Whether a FIFO entry is a write-data command.
pub open spec fn is_wdat(b: u16) -> bool {
    (0x20 <= b <= 0x23) || (0x28 <= b <= 0x2B) || (0x30 <= b <= 0x33) || (0x38 <= b <= 0x3B)
}

/// Whether a FIFO entry is a command that the controller knows.
pub open spec fn is_known_command(b: u16) -> bool {
    starts_sync(b) || b == 0x0C || b == 0x0D || b == 0x04 || b == 0x05 || b == 0x6E || b == 0x6F
        || b == 0x4B || b == 0x6B || b == 0x46 || b == 0x49 || (0x70 <= b <= 0x7F) || b == 0x47
        || is_wdat(b)
}

/// The word clocks that a command keeps the controller busy.
pub open spec fn command_wait(b: u16) -> u8 {
    if b == 0x6E || b == 0x6F || b == 0x6B || is_wdat(b) {
        5
    } else if b == 0x4B || b == 0x46 || b == 0x47 || (0x70 <= b <= 0x7F) {
        4
    } else {
        2
    }
}

/// What the controller expects after a command; `current` where the command
/// is followed by nothing that it decodes.
pub open spec fn command_next_state(b: u16, current: GDCState) -> GDCState {
    if starts_sync(b) {
        GDCState::SyncP1
    } else if b == 0x6E || b == 0x6F || b == 0x6B {
        GDCState::Idle
    } else if b == 0x4B {
        GDCState::CCharP1
    } else if b == 0x46 {
        GDCState::Zoom
    } else if b == 0x49 {
        GDCState::CursP1
    } else if b == 0x47 {
        GDCState::Pitch
    } else {
        current
    }
}

impl GdcRegisters {
    /// The state at power-on.
    pub open spec fn initial() -> GdcRegisters {
        GdcRegisters {
            s: GDCState::Idle,
            mode: 0,
            aw_minus2: 0,
            hs_minus1: 0,
            vs: 0,
            hfp_minus1: 0,
            hbp_minus1: 0,
            pitch: 0,
            dh: false,
            vfp: 0,
            vl: false,
            vh: false,
            al: 0,
            vbp: 0,
            zoom: 0,
            started: false,
            ead: 0,
            dad: 0,
            lr: 0,
            dc: false,
            ctop: 0,
            sc: false,
            br: 0,
            cbot: 0,
            blink_counter: 0,
            wait: 0,
        }
    }

    /// The registers after a known command was taken from the FIFO: the
    /// controller is busy for a while, START starts the display, and the
    /// state says which parameters follow.
    pub open spec fn after_command(self, b: u16) -> GdcRegisters {
        GdcRegisters {
            wait: command_wait(b),
            s: command_next_state(b, self.s),
            started: self.started || b == 0x6B,
            ..self
        }
    }

    /// The registers after a parameter byte was taken from the FIFO: the
    /// field that the state names takes its bits from the byte, and the state
    /// moves to the next parameter, or to idle after the last.
    pub open spec fn after_parameter(self, p: u8) -> GdcRegisters {
        match self.s {
            GDCState::SyncP1 => GdcRegisters { mode: p, s: GDCState::SyncP2, ..self },
            GDCState::SyncP2 => GdcRegisters { aw_minus2: p, s: GDCState::SyncP3, ..self },
            GDCState::SyncP3 => GdcRegisters {
                vs: p >> 5,
                hs_minus1: p & 0b0001_1111,
                s: GDCState::SyncP4,
                ..self
            },
            GDCState::SyncP4 => GdcRegisters {
                hfp_minus1: p >> 2,
                vs: self.vs | ((p & 0b0000_0011) << 3),
                s: GDCState::SyncP5,
                ..self
            },
            GDCState::SyncP5 => GdcRegisters {
                dh: p & 0b1000_0000 != 0,
                pitch: (self.pitch & 0xff) | ((p as u16 & 0b0100_0000) << 2),
                hbp_minus1: p & 0b0011_1111,
                s: GDCState::SyncP6,
                ..self
            },
            GDCState::SyncP6 => GdcRegisters {
                vh: p & 0b1000_0000 != 0,
                vl: p & 0b0100_0000 != 0,
                vfp: p & 0b0011_1111,
                s: GDCState::SyncP7,
                ..self
            },
            GDCState::SyncP7 => GdcRegisters { al: p as u16, s: GDCState::SyncP8, ..self },
            GDCState::SyncP8 => GdcRegisters {
                vbp: p >> 2,
                al: self.al | (((p & 0b0000_0011) as u16) << 8),
                s: GDCState::Idle,
                ..self
            },
            GDCState::Zoom => GdcRegisters { zoom: p, s: GDCState::Idle, ..self },
            GDCState::Pitch => GdcRegisters {
                pitch: (self.pitch & 0x100) | (p as u16),
                s: GDCState::Idle,
                ..self
            },
            GDCState::CursP1 => GdcRegisters {
                ead: (self.ead & 0x3FF00) | (p as u32),
                s: GDCState::CursP2,
                ..self
            },
            GDCState::CursP2 => GdcRegisters {
                ead: (self.ead & 0x300FF) | ((p as u32) << 8),
                s: GDCState::CursP3,
                ..self
            },
            GDCState::CursP3 => GdcRegisters {
                ead: (self.ead & 0x0FFFF) | (((p as u32) & 0x3) << 16),
                dad: p >> 4,
                s: GDCState::Idle,
                ..self
            },
            GDCState::CCharP1 => GdcRegisters {
                lr: p & 0x1f,
                dc: (p & 0b1000_0000) != 0,
                s: GDCState::CCharP2,
                ..self
            },
            GDCState::CCharP2 => GdcRegisters {
                ctop: p & 0x1f,
                sc: (p & 0b0010_0000) != 0,
                br: (self.br & 0b0001_1000) | (p >> 6),
                s: GDCState::CCharP3,
                ..self
            },
            GDCState::CCharP3 => GdcRegisters {
                br: (self.br & 0b0000_0111) | (p & 0x7),
                cbot: p >> 3,
                s: GDCState::Idle,
                ..self
            },
            GDCState::Idle => GdcRegisters { s: GDCState::Idle, ..self },
        }
    }

    /// The registers after any FIFO entry was taken: a known command, a
    /// parameter (bit 8 set), or something else, which is dropped.
    pub open spec fn after_entry(self, b: u16) -> GdcRegisters {
        if is_known_command(b) {
            self.after_command(b)
        } else if 0x100 <= b <= 0x1FF {
            self.after_parameter((b - 0x100) as u8)
        } else {
            self
        }
    }
}

impl GdcView {
    /// The state at power-on.
    pub open spec fn initial() -> GdcView {
        GdcView {
            x: 0,
            y: 0,
            address: 0,
            blank: false,
            cursor_active: false,
            regs: GdcRegisters::initial(),
            fifo: Seq::empty(),
        }
    }

    /// The line of the display area that is being put out.
    pub open spec fn display_line(self) -> int {
        saturating_difference(self.y as int, self.regs.vbp as int)
    }

    /// The display address of the word that is being put out: the character
    /// row times the words per row, plus the column, in the low thirteen bits;
    /// the line within the character row above them.
    pub open spec fn scan_address(self) -> int {
        (self.display_line() / 16) * (self.regs.aw_minus2 + 2) + saturating_difference(
            self.x as int,
            self.regs.hbp_minus1 + 1,
        ) + (self.display_line() % 16) * 0x2000
    }

    /// Whether the beam is outside the display area.
    pub open spec fn scan_blank(self) -> bool {
        self.y < self.regs.vbp || self.y >= self.regs.vbp + self.regs.al || self.x
            < self.regs.hbp_minus1 + 1 || self.x >= self.regs.hbp_minus1 + 1 + self.regs.aw_minus2
            + 2
    }

    /// Whether the cursor covers the word at `address`: the word is the
    /// cursor's, the cursor is displayed and in the visible half of its blink
    /// (or steady), and the line lies between the cursor's top and bottom.
    pub open spec fn cursor_covers(self, address: int) -> bool {
        let line = (address / 0x2000) % 0x100;
        address % 0x2000 == self.regs.ead && self.regs.dc && (!blink_bit(
            self.regs.blink_counter,
            self.regs.br,
        ) || self.regs.sc) && self.regs.ctop <= line <= self.regs.cbot
    }

    /// The outputs for the word under the beam.
    pub open spec fn scan_out(self) -> GdcView {
        GdcView {
            address: self.scan_address() as u32,
            blank: self.scan_blank(),
            cursor_active: self.cursor_covers(self.scan_address()),
            ..self
        }
    }

    /// The beam moves on by one word; at the end of a line it goes to the
    /// next line, and at the end of a frame back to the top, which counts a
    /// frame for the blinking. The counters wrap.
    pub open spec fn advance_beam(self) -> GdcView {
        let x1 = if self.x == u16::MAX { 0 } else { self.x + 1 };
        let line_done = x1 >= GDC_LINE_WORDS;
        let y1 = if !line_done {
            self.y as int
        } else if self.y == u16::MAX {
            0
        } else {
            self.y + 1
        };
        let frame_done = y1 >= GDC_FRAME_LINES;
        GdcView {
            x: if line_done { 0 } else { x1 as u16 },
            y: if frame_done { 0 } else { y1 as u16 },
            regs: GdcRegisters {
                blink_counter: if frame_done {
                    if self.regs.blink_counter == u8::MAX {
                        0
                    } else {
                        (self.regs.blink_counter + 1) as u8
                    }
                } else {
                    self.regs.blink_counter
                },
                ..self.regs
            },
            ..self
        }
    }

    /// The FIFO's turn: while the controller is busy, one word clock of the
    /// wait passes; otherwise the oldest entry, if any, is taken and decoded.
    pub open spec fn run_fifo(self) -> GdcView {
        if self.regs.wait > 0 {
            GdcView { regs: GdcRegisters { wait: (self.regs.wait - 1) as u8, ..self.regs }, ..self }
        } else if self.fifo.len() > 0 {
            GdcView {
                regs: self.regs.after_entry(self.fifo[0]),
                fifo: self.fifo.drop_first(),
                ..self
            }
        } else {
            self
        }
    }

    /// One word clock.
    pub open spec fn tick(self) -> GdcView {
        self.scan_out().advance_beam().run_fifo()
    }

    /// The status byte: the vertical sync flag in bit 5, the FIFO-empty flag
    /// in bit 2.
    pub open spec fn status(self) -> u8 {
        ((if self.y >= GDC_VSYNC_LINE { 0x20int } else { 0int }) + (if self.fifo.len() == 0 {
            0x04int
        } else {
            0int
        })) as u8
    }

    /// The FIFO after `entry` was offered to it: a full FIFO drops it.
    pub open spec fn offer(fifo: Seq<u16>, entry: u16) -> Seq<u16> {
        if fifo.len() < GDC_FIFO_LEN {
            fifo.push(entry)
        } else {
            fifo
        }
    }

    /// The state after a command byte was written: the bytes 0, 1 and 9 empty
    /// the FIFO first; then the byte is queued if there is room.
    pub open spec fn after_command_write(self, b: u8) -> GdcView {
        let kept = if b == 0 || b == 1 || b == 9 { Seq::empty() } else { self.fifo };
        GdcView { fifo: GdcView::offer(kept, b as u16), ..self }
    }

    /// The state after a parameter byte was written: it is queued with bit 8
    /// set if there is room.
    pub open spec fn after_parameter_write(self, b: u8) -> GdcView {
        GdcView { fifo: GdcView::offer(self.fifo, (b + 0x100) as u16), ..self }
    }
}

fn blink_mask_set(counter: u8, br: u8) -> (b: bool)
    ensures
        b == blink_bit(counter, br),
{
    if br == 0 {
        (counter / 2) % 2 == 1
    } else if br == 1 {
        (counter / 4) % 2 == 1
    } else if br == 2 {
        (counter / 8) % 2 == 1
    } else if br == 3 {
        (counter / 16) % 2 == 1
    } else if br == 4 {
        (counter / 32) % 2 == 1
    } else if br == 5 {
        (counter / 64) % 2 == 1
    } else if br == 6 {
        (counter / 128) % 2 == 1
    } else {
        false
    }
}

fn known_command(b: u16) -> (k: bool)
    ensures
        k == is_known_command(b),
{
    let wdat = (0x20 <= b && b <= 0x23) || (0x28 <= b && b <= 0x2B) || (0x30 <= b && b <= 0x33) || (
    0x38 <= b && b <= 0x3B);
    b == 0x00 || b == 0x01 || b == 0x11 || b == 0x0E || b == 0x0F || b == 0x0C || b == 0x0D || b
        == 0x04 || b == 0x05 || b == 0x6E || b == 0x6F || b == 0x4B || b == 0x6B || b == 0x46 || b
        == 0x49 || (0x70 <= b && b <= 0x7F) || b == 0x47 || wdat
}

impl GdcRegisters {
    fn take_command(&mut self, b: u16)
        requires
            is_known_command(b),
        ensures
            *final(self) == old(self).after_command(b),
    {
        let wdat = (0x20 <= b && b <= 0x23) || (0x28 <= b && b <= 0x2B) || (0x30 <= b && b <= 0x33)
            || (0x38 <= b && b <= 0x3B);
        if b == 0x00 || b == 0x01 || b == 0x11 || b == 0x0E || b == 0x0F {
            self.wait = 2;
            self.s = GDCState::SyncP1;
        } else if b == 0x6E || b == 0x6F {
            self.wait = 5;
            self.s = GDCState::Idle;
        } else if b == 0x6B {
            self.started = true;
            self.wait = 5;
            self.s = GDCState::Idle;
        } else if b == 0x4B {
            self.wait = 4;
            self.s = GDCState::CCharP1;
        } else if b == 0x46 {
            self.wait = 4;
            self.s = GDCState::Zoom;
        } else if b == 0x49 {
            self.wait = 2;
            self.s = GDCState::CursP1;
        } else if b == 0x47 {
            self.wait = 4;
            self.s = GDCState::Pitch;
        } else if 0x70 <= b && b <= 0x7F {
            self.wait = 4;
        } else if wdat {
            self.wait = 5;
        } else {
            self.wait = 2;
        }
    }

    fn take_parameter(&mut self, p: u8)
        ensures
            *final(self) == old(self).after_parameter(p),
    {
        match self.s {
            GDCState::SyncP1 => {
                self.mode = p;
                self.s = GDCState::SyncP2;
            },
            GDCState::SyncP2 => {
                self.aw_minus2 = p;
                self.s = GDCState::SyncP3;
            },
            GDCState::SyncP3 => {
                self.vs = p >> 5;
                self.hs_minus1 = p & 0b0001_1111;
                self.s = GDCState::SyncP4;
            },
            GDCState::SyncP4 => {
                self.hfp_minus1 = p >> 2;
                self.vs = self.vs | ((p & 0b0000_0011) << 3);
                self.s = GDCState::SyncP5;
            },
            GDCState::SyncP5 => {
                self.dh = p & 0b1000_0000 != 0;
                self.pitch = (self.pitch & 0xff) | ((p as u16 & 0b0100_0000) << 2);
                self.hbp_minus1 = p & 0b0011_1111;
                self.s = GDCState::SyncP6;
            },
            GDCState::SyncP6 => {
                self.vh = p & 0b1000_0000 != 0;
                self.vl = p & 0b0100_0000 != 0;
                self.vfp = p & 0b0011_1111;
                self.s = GDCState::SyncP7;
            },
            GDCState::SyncP7 => {
                self.al = p as u16;
                self.s = GDCState::SyncP8;
            },
            GDCState::SyncP8 => {
                self.vbp = p >> 2;
                self.al = self.al | (((p & 0b0000_0011) as u16) << 8);
                self.s = GDCState::Idle;
            },
            GDCState::Zoom => {
                self.zoom = p;
                self.s = GDCState::Idle;
            },
            GDCState::Pitch => {
                self.pitch = (self.pitch & 0x100) | (p as u16);
                self.s = GDCState::Idle;
            },
            GDCState::CursP1 => {
                self.ead = (self.ead & 0x3FF00) | (p as u32);
                self.s = GDCState::CursP2;
            },
            GDCState::CursP2 => {
                self.ead = (self.ead & 0x300FF) | ((p as u32) << 8);
                self.s = GDCState::CursP3;
            },
            GDCState::CursP3 => {
                self.ead = (self.ead & 0x0FFFF) | (((p as u32) & 0x3) << 16);
                self.dad = p >> 4;
                self.s = GDCState::Idle;
            },
            GDCState::CCharP1 => {
                self.lr = p & 0x1f;
                self.dc = (p & 0b1000_0000) != 0;
                self.s = GDCState::CCharP2;
            },
            GDCState::CCharP2 => {
                self.ctop = p & 0x1f;
                self.sc = (p & 0b0010_0000) != 0;
                self.br = (self.br & 0b0001_1000) | (p >> 6);
                self.s = GDCState::CCharP3;
            },
            GDCState::CCharP3 => {
                self.br = (self.br & 0b0000_0111) | (p & 0x7);
                self.cbot = p >> 3;
                self.s = GDCState::Idle;
            },
            GDCState::Idle => {
                self.s = GDCState::Idle;
            },
        }
    }

    fn take_entry(&mut self, b: u16)
        ensures
            *final(self) == old(self).after_entry(b),
    {
        if known_command(b) {
            self.take_command(b);
        } else if 0x100 <= b && b <= 0x1FF {
            self.take_parameter((b - 0x100) as u8);
        }
    }
}

impl GDC {
    /// A controller at power-on.
    pub fn new() -> (gdc: GDC)
        ensures
            gdc@ == GdcView::initial(),
    {
        GDC {
            x: 0,
            y: 0,
            address: 0,
            blank: false,
            cursor_active: false,
            regs: GdcRegisters {
                s: GDCState::Idle,
                mode: 0,
                aw_minus2: 0,
                hs_minus1: 0,
                vs: 0,
                hfp_minus1: 0,
                hbp_minus1: 0,
                pitch: 0,
                dh: false,
                vfp: 0,
                vl: false,
                vh: false,
                al: 0,
                vbp: 0,
                zoom: 0,
                started: false,
                ead: 0,
                dad: 0,
                lr: 0,
                dc: false,
                ctop: 0,
                sc: false,
                br: 0,
                cbot: 0,
                blink_counter: 0,
                wait: 0,
            },
            fifo: VecDeque::new(),
        }
    }

    /// Whether the beam is in the vertical sync.
    pub fn vsync_flag(&self) -> (b: bool)
        ensures
            b == (self.y >= GDC_VSYNC_LINE),
    {
        self.y >= GDC_VSYNC_LINE
    }

    /// Whether the FIFO is empty.
    pub fn fifo_empty_flag(&self) -> (b: bool)
        ensures
            b == (self@.fifo.len() == 0),
    {
        self.fifo.len() == 0
    }

    /// Reads the status register.
    pub fn read_status(&mut self) -> (status: u8)
        ensures
            status == old(self)@.status(),
            final(self)@ == old(self)@,
    {
        let vsync: u8 = if self.vsync_flag() { 0x20 } else { 0 };
        let empty: u8 = if self.fifo_empty_flag() { 0x04 } else { 0 };
        vsync + empty
    }

    /// Empties the FIFO.
    pub fn reset(&mut self)
        ensures
            final(self)@ == (GdcView { fifo: Seq::empty(), ..old(self)@ }),
    {
        self.fifo.clear()
    }

    fn offer(&mut self, entry: u16)
        ensures
            final(self)@ == (GdcView {
                fifo: GdcView::offer(old(self)@.fifo, entry),
                ..old(self)@
            }),
    {
        if self.fifo.len() < GDC_FIFO_LEN {
            self.fifo.push_back(entry);
        }
    }

    /// Queues a command byte.
    pub fn write_command(&mut self, b: u8)
        ensures
            final(self)@ == old(self)@.after_command_write(b),
    {
        if b == 0 || b == 1 || b == 9 {
            self.reset();
        }
        self.offer(b as u16);
    }

    /// Queues a parameter byte.
    pub fn write_parameter(&mut self, b: u8)
        ensures
            final(self)@ == old(self)@.after_parameter_write(b),
    {
        self.offer(b as u16 + 0x100);
    }

    fn scan_out(&mut self)
        ensures
            final(self)@ == old(self)@.scan_out(),
    {
        let y = self.y as u32;
        let x = self.x as u32;
        let vbp = self.regs.vbp as u32;
        let left = self.regs.hbp_minus1 as u32 + 1;
        let words = self.regs.aw_minus2 as u32 + 2;
        let line: u32 = if y >= vbp { y - vbp } else { 0 };
        let column: u32 = if x >= left { x - left } else { 0 };
        assert((line / 16) * words <= 4095 * 257) by (nonlinear_arith)
            requires
                0 <= line / 16 <= 4095,
                0 <= words <= 257,
        ;
        let address: u32 = (line / 16) * words + column + (line % 16) * 0x2000;
        self.address = address;
        self.blank = y < vbp || y >= vbp + self.regs.al as u32 || x < left || x >= left + words;
        let cursor_line = (address / 0x2000) % 0x100;
        self.cursor_active = address % 0x2000 == self.regs.ead && self.regs.dc && (!blink_mask_set(
            self.regs.blink_counter,
            self.regs.br,
        ) || self.regs.sc) && self.regs.ctop as u32 <= cursor_line && cursor_line
            <= self.regs.cbot as u32;
    }

    fn advance_beam(&mut self)
        ensures
            final(self)@ == old(self)@.advance_beam(),
    {
        self.x = self.x.wrapping_add(1);
        if self.x >= GDC_LINE_WORDS {
            self.x = 0;
            self.y = self.y.wrapping_add(1);
        }
        if self.y >= GDC_FRAME_LINES {
            self.y = 0;
            self.regs.blink_counter = self.regs.blink_counter.wrapping_add(1);
        }
    }

    fn run_fifo(&mut self)
        ensures
            final(self)@ == old(self)@.run_fifo(),
    {
        if self.regs.wait > 0 {
            self.regs.wait = self.regs.wait - 1;
            return ;
        }
        if let Some(b) = self.fifo.pop_front() {
            self.regs.take_entry(b);
            assert(self.fifo@ =~= old(self)@.fifo.drop_first());
        }
    }

    /// Runs the controller for one word clock: the address, blank and cursor
    /// outputs are set for the word under the beam, the beam moves on, and
    /// the FIFO gets its turn.
    pub fn tick_wclk(&mut self)
        ensures
            final(self)@ == old(self)@.tick(),
    {
        self.scan_out();
        self.advance_beam();
        self.run_fifo();
    }
}

impl Default for GDC {
    fn default() -> (gdc: GDC)
        ensures
            gdc@ == GdcView::initial(),
    {
        GDC::new()
    }
}

/// The FIFO never holds more than sixteen entries after a write, if it did
/// not before.
pub proof fn lemma_fifo_bounded(g: GdcView, b: u8)
    requires
        g.fifo.len() <= GDC_FIFO_LEN,
    ensures
        g.after_command_write(b).fifo.len() <= GDC_FIFO_LEN,
        g.after_parameter_write(b).fifo.len() <= GDC_FIFO_LEN,
        g.tick().fifo.len() <= GDC_FIFO_LEN,
{
}

} // verus!
