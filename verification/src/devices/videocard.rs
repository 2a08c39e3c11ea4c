//! What a video card tells the rest of the machine about itself.

use vstd::prelude::*;

verus! {

#[derive(Copy, Clone, Debug, PartialEq, Eq, Structural)]
pub enum VideoType {
    MDA,
    CGA,
    EGA,
    VGA,
    PC98,
}

#[derive(Copy, Clone, Debug, PartialEq, Eq, Structural)]
pub enum ClockingMode {
    Default,
    Dynamic,
    Cycle,
    Character,
    Scanline,
}

#[derive(Copy, Clone, Debug, PartialEq, Eq, Structural)]
pub enum RenderMode {
    /// The card draws into its own frame buffer.
    Direct,
    /// The front end draws from the card's memory and registers.
    Indirect,
}

#[derive(Copy, Clone, Debug, PartialEq, Eq, Structural)]
pub enum RenderBpp {
    Four,
    Six,
    Eight,
}

#[derive(Copy, Clone, Debug, PartialEq, Eq, Structural)]
pub enum DisplayMode {
    Disabled,
    Mode0TextBw40,
    Mode1TextCo40,
    Mode2TextBw80,
    Mode3TextCo80,
    Mode4LowResGraphics,
    Mode5LowResAltPalette,
    Mode6HiResGraphics,
    Mode7LowResComposite,
    ModeDEGALowResGraphics,
    ModeEEGAMedResGraphics,
    Mode10EGAHiResGraphics,
    Mode12VGAHiResGraphics,
    Mode13VGALowRes256,
}

#[derive(Copy, Clone, Debug, PartialEq, Eq, Structural)]
pub enum DisplayApertureType {
    Cropped,
    Accurate,
    Full,
    Debug,
}

#[derive(Copy, Clone, Debug, PartialEq, Eq, Structural)]
pub enum BufferSelect {
    Back,
    Front,
}

#[derive(Copy, Clone, Debug, PartialEq, Eq, Structural)]
pub enum VideoOption {
    EnableSnow(bool),
    DebugDraw(bool),
}

/// A window onto the display field.
#[derive(Copy, Clone, Debug, PartialEq, Eq, Structural)]
pub struct DisplayAperture {
    pub w: u32,
    pub h: u32,
    pub x: u32,
    pub y: u32,
    pub debug: bool,
}

/// The name of an aperture, for a menu.
#[derive(Copy, Clone, Debug)]
pub struct DisplayApertureDesc {
    pub name: &'static str,
    pub aper_enum: DisplayApertureType,
}

/// The size of the display field and the apertures onto it.
#[derive(Clone, Debug)]
pub struct DisplayExtents {
    pub apertures: Vec<DisplayAperture>,
    pub field_w: u32,
    pub field_h: u32,
    pub row_stride: usize,
    pub double_scan: bool,
    pub mode_byte: u8,
}

#[derive(Copy, Clone, Debug, PartialEq, Eq, Structural)]
pub struct CursorInfo {
    pub addr: usize,
    pub pos_x: u32,
    pub pos_y: u32,
    pub line_start: u8,
    pub line_end: u8,
    pub visible: bool,
}

#[derive(Copy, Clone, Debug, PartialEq, Eq, Structural)]
pub struct FontInfo {
    pub w: u32,
    pub h: u32,
}

/// One value of a card's state, for a debugger.
#[derive(Clone, Debug)]
pub enum VideoCardStateEntry {
    Value8(u8),
    Value16(u16),
    String(String),
}

/// A range of addresses that a device answers.
#[derive(Copy, Clone, Debug, PartialEq, Eq, Structural)]
pub struct MemRangeDescriptor {
    pub address: usize,
    pub size: usize,
    pub cycle_cost: u32,
    pub read_only: bool,
    pub priority: u32,
}

} // verus!
