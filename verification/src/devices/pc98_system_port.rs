//! The PC-98 system port, an 8255 programmable peripheral interface.

use vstd::prelude::*;
use vstd::string::StringExecFns;

verus! {

#[derive(Copy, Clone, Debug, PartialEq, Eq, Structural)]
pub enum PpiModeA {
    Mode0Io,
    Mode1StrobedIo,
    Mode2BiDirectional,
    Mode2BiDirectional2,
}

#[derive(Copy, Clone, Debug, PartialEq, Eq, Structural)]
pub enum PpiModeB {
    Mode0Io,
    Mode1StrobedIo,
}

#[derive(Copy, Clone, Debug, PartialEq, Eq, Structural)]
pub enum IoMode {
    Output,
    Input,
}

/// The 8255 control word: one byte, whose fields are, from bit 0 up, the
/// direction of the lower half of port C, the direction of port B, the mode of
/// group B, the direction of the upper half of port C, the direction of port
/// A, the mode of group A (two bits), and the mode-set flag.
#[derive(Copy, Clone, Debug, PartialEq, Eq, Structural)]
pub struct PpiControlWord {
    pub byte: u8,
}

pub const SYSTEM_PORT_A: u16 = 0x31;
pub const SYSTEM_PORT_B: u16 = 0x33;
pub const SYSTEM_PORT_C: u16 = 0x35;
pub const SYSTEM_COMMAND_PORT: u16 = 0x37;

pub const DIP_SW2_80_COLUMN: u8 = 0b0000_0100;
pub const DIP_SW2_25_LINE: u8 = 0b0000_1000;

/// What a read returns from a port that gives no data.
pub const NO_IO_BYTE: u8 = 0xFF;

/// The field of `width` values that starts at the bit of weight `weight`.
pub open spec fn bit_field(byte: u8, weight: int, width: int) -> int {
    (byte as int / weight) % width
}

pub open spec fn io_mode_of(bit: int) -> IoMode {
    if bit == 0 {
        IoMode::Output
    } else {
        IoMode::Input
    }
}

pub open spec fn mode_b_of(bit: int) -> PpiModeB {
    if bit == 0 {
        PpiModeB::Mode0Io
    } else {
        PpiModeB::Mode1StrobedIo
    }
}

pub open spec fn mode_a_of(bits: int) -> PpiModeA {
    if bits == 0 {
        PpiModeA::Mode0Io
    } else if bits == 1 {
        PpiModeA::Mode1StrobedIo
    } else if bits == 2 {
        PpiModeA::Mode2BiDirectional
    } else {
        PpiModeA::Mode2BiDirectional2
    }
}

fn io_mode_from(bit: u8) -> (m: IoMode)
    ensures
        m == io_mode_of(bit as int),
{
    if bit == 0 {
        IoMode::Output
    } else {
        IoMode::Input
    }
}

impl PpiControlWord {
    pub open spec fn spec_group_b_c(self) -> IoMode {
        io_mode_of(bit_field(self.byte, 0x01, 2))
    }

    pub open spec fn spec_group_b_b(self) -> IoMode {
        io_mode_of(bit_field(self.byte, 0x02, 2))
    }

    pub open spec fn spec_group_b_mode(self) -> PpiModeB {
        mode_b_of(bit_field(self.byte, 0x04, 2))
    }

    pub open spec fn spec_group_a_c(self) -> IoMode {
        io_mode_of(bit_field(self.byte, 0x08, 2))
    }

    pub open spec fn spec_group_a_a(self) -> IoMode {
        io_mode_of(bit_field(self.byte, 0x10, 2))
    }

    pub open spec fn spec_group_a_mode(self) -> PpiModeA {
        mode_a_of(bit_field(self.byte, 0x20, 4))
    }

    pub open spec fn spec_mode_set(self) -> bool {
        bit_field(self.byte, 0x80, 2) == 1
    }

    /// The control word with every field zero.
    pub fn new() -> (w: PpiControlWord)
        ensures
            w.byte == 0,
    {
        PpiControlWord { byte: 0 }
    }

    /// The control word that a byte holds.
    pub fn from_bytes(bytes: [u8; 1]) -> (w: PpiControlWord)
        ensures
            w.byte == bytes[0],
    {
        PpiControlWord { byte: bytes[0] }
    }

    /// The byte that holds the control word.
    pub fn into_bytes(self) -> (bytes: [u8; 1])
        ensures
            bytes[0] == self.byte,
    {
        [self.byte]
    }

    pub fn group_b_c(&self) -> (m: IoMode)
        ensures
            m == self.spec_group_b_c(),
    {
        io_mode_from(self.byte % 2)
    }

    pub fn group_b_b(&self) -> (m: IoMode)
        ensures
            m == self.spec_group_b_b(),
    {
        io_mode_from((self.byte / 0x02) % 2)
    }

    pub fn group_b_mode(&self) -> (m: PpiModeB)
        ensures
            m == self.spec_group_b_mode(),
    {
        if (self.byte / 0x04) % 2 == 0 {
            PpiModeB::Mode0Io
        } else {
            PpiModeB::Mode1StrobedIo
        }
    }

    pub fn group_a_c(&self) -> (m: IoMode)
        ensures
            m == self.spec_group_a_c(),
    {
        io_mode_from((self.byte / 0x08) % 2)
    }

    pub fn group_a_a(&self) -> (m: IoMode)
        ensures
            m == self.spec_group_a_a(),
    {
        io_mode_from((self.byte / 0x10) % 2)
    }

    pub fn group_a_mode(&self) -> (m: PpiModeA)
        ensures
            m == self.spec_group_a_mode(),
    {
        let bits = (self.byte / 0x20) % 4;
        if bits == 0 {
            PpiModeA::Mode0Io
        } else if bits == 1 {
            PpiModeA::Mode1StrobedIo
        } else if bits == 2 {
            PpiModeA::Mode2BiDirectional
        } else {
            PpiModeA::Mode2BiDirectional2
        }
    }

    pub fn mode_set(&self) -> (b: bool)
        ensures
            b == self.spec_mode_set(),
    {
        (self.byte / 0x80) % 2 == 1
    }
}

#[derive(Copy, Clone, Debug, PartialEq, Eq, Structural)]
pub struct PC98SystemPort {
    pub control_word: PpiControlWord,
    pub group_a_mode: PpiModeA,
    pub group_b_mode: PpiModeB,
    pub port_a_iomode: IoMode,
    pub port_b_iomode: IoMode,
    /// The direction of the upper half of port C.
    pub port_cu_iomode: IoMode,
    /// The direction of the lower half of port C.
    pub port_cl_iomode: IoMode,
    pub port_b_byte: u8,
    pub port_c_byte: u8,
    /// DIP switch bank 2; a set bit is a switch that is on.
    pub dip_sw2: u8,
}

impl PC98SystemPort {
    /// The port after power-on: everything zero, and the switches for 80
    /// columns and 25 lines on.
    pub open spec fn initial() -> PC98SystemPort {
        PC98SystemPort {
            control_word: PpiControlWord { byte: 0 },
            group_a_mode: PpiModeA::Mode0Io,
            group_b_mode: PpiModeB::Mode0Io,
            port_a_iomode: IoMode::Output,
            port_b_iomode: IoMode::Output,
            port_cu_iomode: IoMode::Output,
            port_cl_iomode: IoMode::Output,
            port_b_byte: 0,
            port_c_byte: 0,
            dip_sw2: 0b0000_1100,
        }
    }

    /// The port after a write to the command port: the control word is
    /// replaced, and where its mode-set flag is on, the group modes follow
    /// it.
    pub open spec fn after_command(self, byte: u8) -> PC98SystemPort {
        let word = PpiControlWord { byte };
        if word.spec_mode_set() {
            PC98SystemPort {
                control_word: word,
                group_a_mode: word.spec_group_a_mode(),
                group_b_mode: word.spec_group_b_mode(),
                ..self
            }
        } else {
            PC98SystemPort { control_word: word, ..self }
        }
    }

    /// Whether the port answers at this address.
    pub open spec fn decodes(port: u16) -> bool {
        port == SYSTEM_PORT_A || port == SYSTEM_PORT_B || port == SYSTEM_PORT_C || port
            == SYSTEM_COMMAND_PORT
    }

    /// What a read of a port returns: port A the switches, active low; ports
    /// B and C zero; the command port no data.
    pub open spec fn read_value(self, port: u16) -> u8 {
        if port == SYSTEM_PORT_A {
            (255 - self.dip_sw2) as u8
        } else if port == SYSTEM_COMMAND_PORT {
            NO_IO_BYTE
        } else {
            0
        }
    }

    /// The port after a write: port A is read-only.
    pub open spec fn after_write(self, port: u16, byte: u8) -> PC98SystemPort {
        if port == SYSTEM_PORT_B {
            PC98SystemPort { port_b_byte: byte, ..self }
        } else if port == SYSTEM_PORT_C {
            PC98SystemPort { port_c_byte: byte, ..self }
        } else if port == SYSTEM_COMMAND_PORT {
            self.after_command(byte)
        } else {
            self
        }
    }

    /// The port after power-on.
    pub fn new() -> (p: PC98SystemPort)
        ensures
            p == PC98SystemPort::initial(),
    {
        PC98SystemPort {
            control_word: PpiControlWord::new(),
            group_a_mode: PpiModeA::Mode0Io,
            group_b_mode: PpiModeB::Mode0Io,
            port_a_iomode: IoMode::Output,
            port_b_iomode: IoMode::Output,
            port_cu_iomode: IoMode::Output,
            port_cl_iomode: IoMode::Output,
            port_b_byte: 0,
            port_c_byte: 0,
            dip_sw2: DIP_SW2_80_COLUMN + DIP_SW2_25_LINE,
        }
    }

    /// Takes a control word from the command port.
    pub fn handle_command_port_write(&mut self, byte: u8)
        ensures
            *final(self) == old(self).after_command(byte),
    {
        self.control_word = PpiControlWord::from_bytes([byte]);
        if self.control_word.mode_set() {
            self.group_a_mode = self.control_word.group_a_mode();
            self.group_b_mode = self.control_word.group_b_mode();
        }
    }

    /// Reads port A: DIP switch bank 2, active low.
    pub fn handle_porta_read(&self) -> (byte: u8)
        ensures
            byte == 255 - self.dip_sw2,
            byte == self.read_value(SYSTEM_PORT_A),
    {
        255 - self.dip_sw2
    }

    /// Reads port B: always zero.
    pub fn handle_portb_read(&self) -> (byte: u8)
        ensures
            byte == 0,
    {
        0
    }

    /// Reads port C: always zero.
    pub fn handle_portc_read(&self) -> (byte: u8)
        ensures
            byte == 0,
    {
        0
    }

    /// Latches a byte written to port B.
    pub fn handle_portb_write(&mut self, byte: u8)
        ensures
            *final(self) == (PC98SystemPort { port_b_byte: byte, ..*old(self) }),
    {
        self.port_b_byte = byte;
    }

    /// Latches a byte written to port C.
    pub fn handle_portc_write(&mut self, byte: u8)
        ensures
            *final(self) == (PC98SystemPort { port_c_byte: byte, ..*old(self) }),
    {
        self.port_c_byte = byte;
    }

    /// Reads one of the four ports.
    pub fn read_u8(&mut self, port: u16) -> (byte: u8)
        requires
            PC98SystemPort::decodes(port),
        ensures
            byte == old(self).read_value(port),
            *final(self) == *old(self),
    {
        if port == SYSTEM_PORT_A {
            self.handle_porta_read()
        } else if port == SYSTEM_PORT_B {
            self.handle_portb_read()
        } else if port == SYSTEM_PORT_C {
            self.handle_portc_read()
        } else {
            NO_IO_BYTE
        }
    }

    /// Writes one of the four ports.
    pub fn write_u8(&mut self, port: u16, byte: u8)
        requires
            PC98SystemPort::decodes(port),
        ensures
            *final(self) == old(self).after_write(port, byte),
    {
        if port == SYSTEM_PORT_A {
        } else if port == SYSTEM_PORT_B {
            self.handle_portb_write(byte);
        } else if port == SYSTEM_PORT_C {
            self.handle_portc_write(byte);
        } else {
            self.handle_command_port_write(byte);
        }
    }

    /// The ports of the device with their names.
    pub fn port_list(&self) -> (list: Vec<(String, u16)>)
        ensures
            list@.len() == 4,
            list@[0].0@ == "SYSTEM Port A"@ && list@[0].1 == SYSTEM_PORT_A,
            list@[1].0@ == "SYSTEM Port B"@ && list@[1].1 == SYSTEM_PORT_B,
            list@[2].0@ == "SYSTEM Port C"@ && list@[2].1 == SYSTEM_PORT_C,
            list@[3].0@ == "SYSTEM Command"@ && list@[3].1 == SYSTEM_COMMAND_PORT,
            forall|k: int| 0 <= k < 4 ==> PC98SystemPort::decodes(#[trigger] list@[k].1),
    {
        let mut list: Vec<(String, u16)> = Vec::new();
        list.push((String::from_str("SYSTEM Port A"), SYSTEM_PORT_A));
        list.push((String::from_str("SYSTEM Port B"), SYSTEM_PORT_B));
        list.push((String::from_str("SYSTEM Port C"), SYSTEM_PORT_C));
        list.push((String::from_str("SYSTEM Command"), SYSTEM_COMMAND_PORT));
        list
    }
}

impl Default for PC98SystemPort {
    /// Everything zero, the switches too.
    fn default() -> (p: PC98SystemPort)
        ensures
            p == (PC98SystemPort { dip_sw2: 0, ..PC98SystemPort::initial() }),
    {
        PC98SystemPort {
            control_word: PpiControlWord::new(),
            group_a_mode: PpiModeA::Mode0Io,
            group_b_mode: PpiModeB::Mode0Io,
            port_a_iomode: IoMode::Output,
            port_b_iomode: IoMode::Output,
            port_cu_iomode: IoMode::Output,
            port_cl_iomode: IoMode::Output,
            port_b_byte: 0,
            port_c_byte: 0,
            dip_sw2: 0,
        }
    }
}

} // verus!
