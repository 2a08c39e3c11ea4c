//! The I/O ports of the PC-98 graphics subsystem.

use vstd::prelude::*;
use vstd::string::StringExecFns;
use crate::devices::pc98_graphics::{PC98Graphics, PC98GraphicsView};

verus! {

pub const PC98_TEXT_GDC_PARAMETER: u16 = 0x60;
pub const PC98_TEXT_GDC_COMMAND: u16 = 0x62;
pub const PC98_GRAPHICS_GDC_PARAMETER: u16 = 0xa0;
pub const PC98_GRAPHICS_GDC_COMMAND: u16 = 0xa2;

impl PC98GraphicsView {
    /// Whether the subsystem claims this port.
    pub open spec fn decodes(port: u16) -> bool {
        port == 0x60 || port == 0x62 || port == 0x64 || port == 0x68 || port == 0x6a || port == 0x6c
            || port == 0xa0 || port == 0xa2 || port == 0xa4 || port == 0xa6 || port == 0xa8 || port
            == 0xaa || port == 0xac || port == 0xae
    }

    /// What a read of a port returns: the status of a display controller from
    /// its status port, zero from every other port.
    pub open spec fn read_value(self, port: u16) -> u8 {
        if port == PC98_TEXT_GDC_PARAMETER {
            self.tgdc.status()
        } else if port == PC98_GRAPHICS_GDC_PARAMETER {
            self.ggdc.status()
        } else {
            0
        }
    }

    /// The state after a write to a port: a parameter or a command goes to
    /// the FIFO of a display controller; other ports take nothing.
    pub open spec fn after_write(self, port: u16, data: u8) -> PC98GraphicsView {
        if port == PC98_TEXT_GDC_PARAMETER {
            PC98GraphicsView { tgdc: self.tgdc.after_parameter_write(data), ..self }
        } else if port == PC98_TEXT_GDC_COMMAND {
            PC98GraphicsView { tgdc: self.tgdc.after_command_write(data), ..self }
        } else if port == PC98_GRAPHICS_GDC_PARAMETER {
            PC98GraphicsView { ggdc: self.ggdc.after_parameter_write(data), ..self }
        } else if port == PC98_GRAPHICS_GDC_COMMAND {
            PC98GraphicsView { ggdc: self.ggdc.after_command_write(data), ..self }
        } else {
            self
        }
    }
}

impl PC98Graphics {
    /// Reads a port.
    pub fn read_u8(&mut self, port: u16) -> (byte: u8)
        ensures
            byte == old(self)@.read_value(port),
            final(self)@ == old(self)@,
            final(self).extents == old(self).extents,
    {
        if port == PC98_TEXT_GDC_PARAMETER {
            self.tgdc.read_status()
        } else if port == PC98_GRAPHICS_GDC_PARAMETER {
            self.ggdc.read_status()
        } else {
            0
        }
    }

    /// Writes a port.
    pub fn write_u8(&mut self, port: u16, data: u8)
        ensures
            final(self)@ == old(self)@.after_write(port, data),
            final(self).extents == old(self).extents,
    {
        if port == PC98_TEXT_GDC_PARAMETER {
            self.tgdc.write_parameter(data);
        } else if port == PC98_TEXT_GDC_COMMAND {
            self.tgdc.write_command(data);
        } else if port == PC98_GRAPHICS_GDC_PARAMETER {
            self.ggdc.write_parameter(data);
        } else if port == PC98_GRAPHICS_GDC_COMMAND {
            self.ggdc.write_command(data);
        }
    }

    /// The ports of the subsystem with their names.
    pub fn port_list(&self) -> (list: Vec<(String, u16)>)
        ensures
            list@.len() == 14,
            list@[0].0@ == "Text GDC Status/Parameter Register"@ && list@[0].1 == 0x60,
            list@[1].0@ == "Text GDC FIFO Register"@ && list@[1].1 == 0x62,
            list@[2].0@ == "CRT Interrupt Reset"@ && list@[2].1 == 0x64,
            list@[3].0@ == "CRT Mode 1"@ && list@[3].1 == 0x68,
            list@[4].0@ == "CRT Mode 2"@ && list@[4].1 == 0x6a,
            list@[5].0@ == "Border Color"@ && list@[5].1 == 0x6c,
            list@[6].0@ == "Graphics GDC Status/Parameter Register"@ && list@[6].1 == 0xa0,
            list@[7].0@ == "Graphics GDC FIFO Register"@ && list@[7].1 == 0xa2,
            list@[8].0@ == "Graphics Display Plane"@ && list@[8].1 == 0xa4,
            list@[9].0@ == "Graphics Drawing Plane"@ && list@[9].1 == 0xa6,
            list@[10].0@ == "Palette 1"@ && list@[10].1 == 0xa8,
            list@[11].0@ == "Palette 2"@ && list@[11].1 == 0xaa,
            list@[12].0@ == "Palette 3"@ && list@[12].1 == 0xac,
            list@[13].0@ == "Palette 4"@ && list@[13].1 == 0xae,
            forall|k: int| 0 <= k < 14 ==> PC98GraphicsView::decodes(#[trigger] list@[k].1),
    {
        let mut list: Vec<(String, u16)> = Vec::new();
        list.push((String::from_str("Text GDC Status/Parameter Register"), 0x60));
        list.push((String::from_str("Text GDC FIFO Register"), 0x62));
        list.push((String::from_str("CRT Interrupt Reset"), 0x64));
        list.push((String::from_str("CRT Mode 1"), 0x68));
        list.push((String::from_str("CRT Mode 2"), 0x6a));
        list.push((String::from_str("Border Color"), 0x6c));
        list.push((String::from_str("Graphics GDC Status/Parameter Register"), 0xa0));
        list.push((String::from_str("Graphics GDC FIFO Register"), 0xa2));
        list.push((String::from_str("Graphics Display Plane"), 0xa4));
        list.push((String::from_str("Graphics Drawing Plane"), 0xa6));
        list.push((String::from_str("Palette 1"), 0xa8));
        list.push((String::from_str("Palette 2"), 0xaa));
        list.push((String::from_str("Palette 3"), 0xac));
        list.push((String::from_str("Palette 4"), 0xae));
        list
    }
}

} // verus!
