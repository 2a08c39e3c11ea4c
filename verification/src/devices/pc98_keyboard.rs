//! The PC-98 keyboard port, built around an 8251 USART.

use vstd::prelude::*;
use vstd::string::StringExecFns;
use std::collections::VecDeque;

verus! {

pub const PC98_KEYBOARD_IRQ: u8 = 1;

pub const PC98_KEYBOARD_DATA: u16 = 0x41;
pub const PC98_KEYBOARD_CONTROL: u16 = 0x43;

/// The receiver of the USART: one buffered byte, whether it is waiting to be
/// read, and whether a byte was lost because the buffer was still full.
#[derive(Copy, Clone, Debug, PartialEq, Eq, Structural)]
pub struct UPD8251 {
    pub rxbuf: u8,
    pub rxrdy: bool,
    pub oe: bool,
}

impl UPD8251 {
    /// The receiver with nothing buffered.
    pub open spec fn idle() -> UPD8251 {
        UPD8251 { rxbuf: 0, rxrdy: false, oe: false }
    }

    /// The status byte: transmitter empty and ready always, receiver ready in
    /// bit 1.
    pub open spec fn status(self) -> u8 {
        if self.rxrdy {
            7
        } else {
            5
        }
    }

    /// The receiver after a byte arrived: it is buffered and ready, and an
    /// overrun is noted if the last byte had not been read.
    pub open spec fn received(self, byte: u8) -> UPD8251 {
        UPD8251 { rxbuf: byte, rxrdy: true, oe: self.oe || self.rxrdy }
    }

    /// Reads the buffered byte, which is then no longer waiting.
    pub fn data_read(&mut self) -> (byte: u8)
        ensures
            byte == old(self).rxbuf,
            *final(self) == (UPD8251 { rxrdy: false, ..*old(self) }),
    {
        self.rxrdy = false;
        self.rxbuf
    }

    /// The transmitter is not modelled: a write changes nothing.
    pub fn data_write(&self, _byte: u8) {
    }

    /// Reads the status register.
    pub fn status_read(&self) -> (byte: u8)
        ensures
            byte == self.status(),
    {
        if self.rxrdy {
            7
        } else {
            5
        }
    }

    /// Mode and command bytes are not modelled: a write changes nothing.
    pub fn control_write(&self, _byte: u8) {
    }

    /// Empties the receiver.
    pub fn reset(&mut self)
        ensures
            *final(self) == UPD8251::idle(),
    {
        self.rxbuf = 0;
        self.rxrdy = false;
        self.oe = false;
    }

    /// A byte arrives from the line.
    pub fn push_byte(&mut self, byte: u8)
        ensures
            *final(self) == old(self).received(byte),
    {
        self.rxbuf = byte;
        if self.rxrdy {
            self.oe = true;
        }
        self.rxrdy = true;
    }
}

impl Default for UPD8251 {
    fn default() -> (u: UPD8251)
        ensures
            u == UPD8251::idle(),
    {
        UPD8251 { rxbuf: 0, rxrdy: false, oe: false }
    }
}

pub struct PC98Keyboard {
    pub rx_queue: VecDeque<u8>,
    pub upd8251: UPD8251,
}

/// The keyboard port as a mathematical value: the bytes that the keyboard has
/// sent and the USART has not taken yet, oldest first, and the USART.
pub struct PC98KeyboardView {
    pub rx_queue: Seq<u8>,
    pub upd8251: UPD8251,
}

impl View for PC98Keyboard {
    type V = PC98KeyboardView;

    open spec fn view(&self) -> PC98KeyboardView {
        PC98KeyboardView { rx_queue: self.rx_queue@, upd8251: self.upd8251 }
    }
}

impl PC98KeyboardView {
    /// The port after power-on.
    pub open spec fn initial() -> PC98KeyboardView {
        PC98KeyboardView { rx_queue: Seq::empty(), upd8251: UPD8251::idle() }
    }

    /// Whether the port answers at this address.
    pub open spec fn decodes(port: u16) -> bool {
        port == PC98_KEYBOARD_DATA || port == PC98_KEYBOARD_CONTROL
    }

    /// What a read of a port returns: the buffered byte from the data port,
    /// the status from the control port.
    pub open spec fn read_value(self, port: u16) -> u8 {
        if port == PC98_KEYBOARD_DATA {
            self.upd8251.rxbuf
        } else {
            self.upd8251.status()
        }
    }

    /// The state after a read: a read of the data port takes the byte.
    pub open spec fn after_read(self, port: u16) -> PC98KeyboardView {
        if port == PC98_KEYBOARD_DATA {
            PC98KeyboardView { upd8251: UPD8251 { rxrdy: false, ..self.upd8251 }, ..self }
        } else {
            self
        }
    }

    /// One step of the port: where the USART is free and the keyboard has
    /// sent something, the oldest byte moves into the USART.
    pub open spec fn step(self) -> PC98KeyboardView {
        if !self.upd8251.rxrdy && self.rx_queue.len() > 0 {
            PC98KeyboardView {
                rx_queue: self.rx_queue.drop_first(),
                upd8251: self.upd8251.received(self.rx_queue[0]),
            }
        } else {
            self
        }
    }
}

impl PC98Keyboard {
    /// A port after power-on.
    pub fn new() -> (k: PC98Keyboard)
        ensures
            k@ == PC98KeyboardView::initial(),
    {
        PC98Keyboard {
            rx_queue: VecDeque::new(),
            upd8251: UPD8251 { rxbuf: 0, rxrdy: false, oe: false },
        }
    }

    /// Empties the queue and the USART.
    pub fn reset(&mut self)
        ensures
            final(self)@ == PC98KeyboardView::initial(),
    {
        self.rx_queue.clear();
        self.upd8251.reset();
    }

    /// Queues a byte from the keyboard for the USART.
    pub fn send_keyboard(&mut self, byte: u8)
        ensures
            final(self)@ == (PC98KeyboardView {
                rx_queue: old(self)@.rx_queue.push(byte),
                ..old(self)@
            }),
    {
        self.rx_queue.push_back(byte);
    }

    /// Runs the port for one step. Returns the level of the keyboard's
    /// interrupt line afterwards: raised while a byte waits to be read.
    pub fn run(&mut self) -> (irq: bool)
        ensures
            final(self)@ == old(self)@.step(),
            irq == final(self)@.upd8251.rxrdy,
    {
        if !self.upd8251.rxrdy {
            if let Some(byte) = self.rx_queue.pop_front() {
                self.upd8251.push_byte(byte);
                assert(self.rx_queue@ =~= old(self)@.rx_queue.drop_first());
            }
        }
        self.upd8251.rxrdy
    }

    /// Reads the data or the control port.
    pub fn read_u8(&mut self, port: u16) -> (byte: u8)
        requires
            PC98KeyboardView::decodes(port),
        ensures
            byte == old(self)@.read_value(port),
            final(self)@ == old(self)@.after_read(port),
    {
        if port == PC98_KEYBOARD_DATA {
            self.upd8251.data_read()
        } else {
            self.upd8251.status_read()
        }
    }

    /// Writes the data or the control port; neither write changes anything.
    pub fn write_u8(&mut self, port: u16, byte: u8)
        requires
            PC98KeyboardView::decodes(port),
        ensures
            final(self)@ == old(self)@,
    {
        if port == PC98_KEYBOARD_DATA {
            self.upd8251.data_write(byte);
        } else {
            self.upd8251.control_write(byte);
        }
    }

    /// The ports of the device with their names.
    pub fn port_list(&self) -> (list: Vec<(String, u16)>)
        ensures
            list@.len() == 2,
            list@[0].0@ == "Keyboard Data"@ && list@[0].1 == PC98_KEYBOARD_DATA,
            list@[1].0@ == "Keyboard Status/Control"@ && list@[1].1 == PC98_KEYBOARD_CONTROL,
    {
        let mut list: Vec<(String, u16)> = Vec::new();
        list.push((String::from_str("Keyboard Data"), PC98_KEYBOARD_DATA));
        list.push((String::from_str("Keyboard Status/Control"), PC98_KEYBOARD_CONTROL));
        list
    }
}

} // verus!
