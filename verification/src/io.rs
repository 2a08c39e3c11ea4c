//! The I/O bus: port reads and writes of the processor go to the device that
//! decodes the port.

use vstd::prelude::*;
use crate::devices::pc98_graphics::{PC98Graphics, PC98GraphicsView};
use crate::devices::pc98_keyboard::{PC98Keyboard, PC98KeyboardView};
use crate::devices::pc98_system_port::{PC98SystemPort, NO_IO_BYTE};

verus! {

/// The devices on the I/O bus.
pub struct IoBusInterface {
    pub system_port: PC98SystemPort,
    pub keyboard: PC98Keyboard,
    pub graphics: PC98Graphics,
}

/// The I/O bus as a mathematical value.
pub struct IoBusView {
    pub system_port: PC98SystemPort,
    pub keyboard: PC98KeyboardView,
    pub graphics: PC98GraphicsView,
}

impl View for IoBusInterface {
    type V = IoBusView;

    open spec fn view(&self) -> IoBusView {
        IoBusView {
            system_port: self.system_port,
            keyboard: self.keyboard@,
            graphics: self.graphics@,
        }
    }
}

impl IoBusView {
    /// What a read of a port returns: the answer of the device that decodes
    /// the port, and no data where none does.
    pub open spec fn read_value(self, port: u16) -> u8 {
        if PC98SystemPort::decodes(port) {
            self.system_port.read_value(port)
        } else if PC98KeyboardView::decodes(port) {
            self.keyboard.read_value(port)
        } else if PC98GraphicsView::decodes(port) {
            self.graphics.read_value(port)
        } else {
            NO_IO_BYTE
        }
    }

    /// The bus after a read: only a read of the keyboard's data port changes
    /// anything.
    pub open spec fn after_read(self, port: u16) -> IoBusView {
        if PC98KeyboardView::decodes(port) {
            IoBusView { keyboard: self.keyboard.after_read(port), ..self }
        } else {
            self
        }
    }

    /// The bus after a write: the device that decodes the port takes the
    /// byte; a write to any other port is lost.
    pub open spec fn after_write(self, port: u16, byte: u8) -> IoBusView {
        if PC98SystemPort::decodes(port) {
            IoBusView { system_port: self.system_port.after_write(port, byte), ..self }
        } else if PC98GraphicsView::decodes(port) {
            IoBusView { graphics: self.graphics.after_write(port, byte), ..self }
        } else {
            self
        }
    }
}

fn system_port_decodes(port: u16) -> (b: bool)
    ensures
        b == PC98SystemPort::decodes(port),
{
    port == 0x31 || port == 0x33 || port == 0x35 || port == 0x37
}

fn keyboard_decodes(port: u16) -> (b: bool)
    ensures
        b == PC98KeyboardView::decodes(port),
{
    port == 0x41 || port == 0x43
}

fn graphics_decodes(port: u16) -> (b: bool)
    ensures
        b == PC98GraphicsView::decodes(port),
{
    port == 0x60 || port == 0x62 || port == 0x64 || port == 0x68 || port == 0x6a || port == 0x6c
        || port == 0xa0 || port == 0xa2 || port == 0xa4 || port == 0xa6 || port == 0xa8 || port
        == 0xaa || port == 0xac || port == 0xae
}

impl IoBusInterface {
    pub open spec fn wf(&self) -> bool {
        self.graphics.wf()
    }

    /// Tests whether the devices on the bus are well formed.
    pub fn is_well_formed(&self) -> (b: bool)
        ensures
            b == self.wf(),
    {
        self.graphics.is_well_formed()
    }

    /// A bus with the three devices on it.
    pub fn new(system_port: PC98SystemPort, keyboard: PC98Keyboard, graphics: PC98Graphics) -> (bus:
        IoBusInterface)
        requires
            graphics.wf(),
        ensures
            bus.wf(),
            bus.system_port == system_port,
            bus.keyboard == keyboard,
            bus.graphics == graphics,
    {
        IoBusInterface { system_port, keyboard, graphics }
    }

    /// Reads a port.
    pub fn read_u8(&mut self, port: u16) -> (byte: u8)
        requires
            old(self).wf(),
        ensures
            final(self).wf(),
            byte == old(self)@.read_value(port),
            final(self)@ == old(self)@.after_read(port),
    {
        if system_port_decodes(port) {
            self.system_port.read_u8(port)
        } else if keyboard_decodes(port) {
            self.keyboard.read_u8(port)
        } else if graphics_decodes(port) {
            self.graphics.read_u8(port)
        } else {
            NO_IO_BYTE
        }
    }

    /// Writes a port.
    pub fn write_u8(&mut self, port: u16, byte: u8)
        requires
            old(self).wf(),
        ensures
            final(self).wf(),
            final(self)@ == old(self)@.after_write(port, byte),
    {
        if system_port_decodes(port) {
            self.system_port.write_u8(port, byte);
        } else if keyboard_decodes(port) {
            self.keyboard.write_u8(port, byte);
        } else if graphics_decodes(port) {
            self.graphics.write_u8(port, byte);
        }
    }
}

} // verus!
