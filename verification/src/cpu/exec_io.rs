//! IN and OUT. The I/O bus moves bytes: a word goes out as two bytes, to the
//! port and to the port after it.

use vstd::prelude::*;
use crate::cpu::machine::{Cpu, CpuView};
use crate::cpu::operand::{readable16, readable8};
use crate::cpu::registers::{hi8, high_byte, lo8, low_byte, Register16, Register8};
use crate::io::{IoBusInterface, IoBusView};

verus! {

/// The port after `port`, wrapping at the end of the port space.
pub open spec fn next_port(port: u16) -> u16 {
    if port == u16::MAX {
        0
    } else {
        (port + 1) as u16
    }
}

impl IoBusView {
    /// The bus after a word went out: the low byte to `port`, then the high
    /// byte to the port after it.
    pub open spec fn after_write_word(self, port: u16, value: u16) -> IoBusView {
        self.after_write(port, low_byte(value)).after_write(next_port(port), high_byte(value))
    }
}

impl CpuView {
    /// The state after IN to AL from `port`: the byte that the bus gives goes
    /// to AL.
    pub open spec fn take_in_al(self, io: IoBusView, port: u16) -> CpuView {
        self.with_regs(self.r.set8(Register8::AL, io.read_value(port)))
    }

    /// The state after IN to AX from `port`: one byte is read, and AX holds
    /// it with a high byte of zero.
    pub open spec fn take_in_ax(self, io: IoBusView, port: u16) -> CpuView {
        self.with_regs(self.r.set16(Register16::AX, io.read_value(port) as u16))
    }

    /// The port of IN with an immediate port number.
    pub open spec fn in_port_immediate(self) -> u16 {
        self.value2_8() as u16
    }

    /// The port of IN from the port in DX.
    pub open spec fn in_port_dx(self) -> u16 {
        self.value2_16()
    }

    /// The port of OUT with an immediate port number.
    pub open spec fn out_port_immediate(self) -> u16 {
        self.value1_8() as u16
    }

    /// The port of OUT to the port in DX.
    pub open spec fn out_port_dx(self) -> u16 {
        self.value1_16()
    }

    /// IN to AL from an immediate port.
    #[verifier::opaque]
    pub open spec fn op_in_al_immediate(self, io: IoBusView) -> CpuView {
        self.after_read8(self.i.operand2_type).take_in_al(io, self.in_port_immediate())
    }

    /// IN to AX from an immediate port.
    #[verifier::opaque]
    pub open spec fn op_in_ax_immediate(self, io: IoBusView) -> CpuView {
        self.after_read8(self.i.operand2_type).take_in_ax(io, self.in_port_immediate())
    }

    /// IN to AL from the port in DX.
    #[verifier::opaque]
    pub open spec fn op_in_al_dx(self, io: IoBusView) -> CpuView {
        self.after_read16(self.i.operand2_type).take_in_al(io, self.in_port_dx())
    }

    /// IN to AX from the port in DX.
    #[verifier::opaque]
    pub open spec fn op_in_ax_dx(self, io: IoBusView) -> CpuView {
        self.after_read16(self.i.operand2_type).take_in_ax(io, self.in_port_dx())
    }

    /// OUT of a byte to an immediate port: both operands are read as bytes.
    #[verifier::opaque]
    pub open spec fn op_out_immediate_al(self) -> CpuView {
        self.read_pair8()
    }

    /// OUT of a word to the port in DX: both operands are read as words.
    #[verifier::opaque]
    pub open spec fn op_out_dx_ax(self) -> CpuView {
        self.read_pair16()
    }

    /// OUT of a word to an immediate port: the port is read as a byte, the
    /// value as a word.
    #[verifier::opaque]
    pub open spec fn op_out_immediate_ax(self) -> CpuView {
        self.after_read8(self.i.operand1_type).after_read16(self.i.operand2_type)
    }

    /// OUT of a byte to the port in DX: the port is read as a word, the value
    /// as a byte.
    #[verifier::opaque]
    pub open spec fn op_out_dx_al(self) -> CpuView {
        self.after_read16(self.i.operand1_type).after_read8(self.i.operand2_type)
    }
}

fn port_after(port: u16) -> (next: u16)
    ensures
        next == next_port(port),
{
    port.wrapping_add(1)
}

fn write_word(io_bus: &mut IoBusInterface, port: u16, value: u16)
    requires
        old(io_bus).wf(),
    ensures
        final(io_bus).wf(),
        final(io_bus)@ == old(io_bus)@.after_write_word(port, value),
{
    io_bus.write_u8(port, lo8(value));
    io_bus.write_u8(port_after(port), hi8(value));
}

impl Cpu {
    fn take_in_al(&mut self, io_bus: &mut IoBusInterface, port: u16)
        requires
            old(self).wf(),
            old(io_bus).wf(),
        ensures
            final(self).wf(),
            final(io_bus).wf(),
            final(self)@ == old(self)@.take_in_al(old(io_bus)@, port),
            final(io_bus)@ == old(io_bus)@.after_read(port),
    {
        let byte = io_bus.read_u8(port);
        let mut r = self.r;
        r.set_register8(Register8::AL, byte);
        self.set_regs(r);
    }

    fn take_in_ax(&mut self, io_bus: &mut IoBusInterface, port: u16)
        requires
            old(self).wf(),
            old(io_bus).wf(),
        ensures
            final(self).wf(),
            final(io_bus).wf(),
            final(self)@ == old(self)@.take_in_ax(old(io_bus)@, port),
            final(io_bus)@ == old(io_bus)@.after_read(port),
    {
        let byte = io_bus.read_u8(port);
        let mut r = self.r;
        r.set_register16(Register16::AX, byte as u16);
        self.set_regs(r);
    }

    pub(crate) fn op_in_al_immediate(&mut self, io_bus: &mut IoBusInterface)
        requires
            old(self).wf(),
            old(io_bus).wf(),
            readable8(old(self).i.operand2_type),
        ensures
            final(self).wf(),
            final(io_bus).wf(),
            final(self)@ == old(self)@.op_in_al_immediate(old(io_bus)@),
            final(io_bus)@ == old(io_bus)@.after_read(old(self)@.in_port_immediate()),
    {
        reveal(CpuView::value2_8);
        reveal(CpuView::op_in_al_immediate);
        let port = self.read_operand8(self.i.operand2_type, self.i.segment_override).unwrap();
        self.take_in_al(io_bus, port as u16);
    }

    pub(crate) fn op_in_ax_immediate(&mut self, io_bus: &mut IoBusInterface)
        requires
            old(self).wf(),
            old(io_bus).wf(),
            readable8(old(self).i.operand2_type),
        ensures
            final(self).wf(),
            final(io_bus).wf(),
            final(self)@ == old(self)@.op_in_ax_immediate(old(io_bus)@),
            final(io_bus)@ == old(io_bus)@.after_read(old(self)@.in_port_immediate()),
    {
        reveal(CpuView::value2_8);
        reveal(CpuView::op_in_ax_immediate);
        let port = self.read_operand8(self.i.operand2_type, self.i.segment_override).unwrap();
        self.take_in_ax(io_bus, port as u16);
    }

    pub(crate) fn op_in_al_dx(&mut self, io_bus: &mut IoBusInterface)
        requires
            old(self).wf(),
            old(io_bus).wf(),
            readable16(old(self).i.operand2_type),
        ensures
            final(self).wf(),
            final(io_bus).wf(),
            final(self)@ == old(self)@.op_in_al_dx(old(io_bus)@),
            final(io_bus)@ == old(io_bus)@.after_read(old(self)@.in_port_dx()),
    {
        reveal(CpuView::value2_16);
        reveal(CpuView::op_in_al_dx);
        let port = self.read_operand16(self.i.operand2_type, self.i.segment_override).unwrap();
        self.take_in_al(io_bus, port);
    }

    pub(crate) fn op_in_ax_dx(&mut self, io_bus: &mut IoBusInterface)
        requires
            old(self).wf(),
            old(io_bus).wf(),
            readable16(old(self).i.operand2_type),
        ensures
            final(self).wf(),
            final(io_bus).wf(),
            final(self)@ == old(self)@.op_in_ax_dx(old(io_bus)@),
            final(io_bus)@ == old(io_bus)@.after_read(old(self)@.in_port_dx()),
    {
        reveal(CpuView::value2_16);
        reveal(CpuView::op_in_ax_dx);
        let port = self.read_operand16(self.i.operand2_type, self.i.segment_override).unwrap();
        self.take_in_ax(io_bus, port);
    }

    pub(crate) fn op_out_immediate_al(&mut self, io_bus: &mut IoBusInterface)
        requires
            old(self).wf(),
            old(io_bus).wf(),
            readable8(old(self).i.operand1_type),
            readable8(old(self).i.operand2_type),
        ensures
            final(self).wf(),
            final(io_bus).wf(),
            final(self)@ == old(self)@.op_out_immediate_al(),
            final(io_bus)@ == old(io_bus)@.after_write(
                old(self)@.out_port_immediate(),
                old(self)@.value2_8(),
            ),
    {
        reveal(CpuView::op_out_immediate_al);
        let (port, value) = self.read_operands8();
        io_bus.write_u8(port as u16, value);
    }

    pub(crate) fn op_out_immediate_ax(&mut self, io_bus: &mut IoBusInterface)
        requires
            old(self).wf(),
            old(io_bus).wf(),
            readable8(old(self).i.operand1_type),
            readable16(old(self).i.operand2_type),
        ensures
            final(self).wf(),
            final(io_bus).wf(),
            final(self)@ == old(self)@.op_out_immediate_ax(),
            final(io_bus)@ == old(io_bus)@.after_write_word(
                old(self)@.out_port_immediate(),
                old(self)@.value2_16(),
            ),
    {
        reveal(CpuView::value1_8);
        reveal(CpuView::value2_16);
        reveal(CpuView::op_out_immediate_ax);
        let port = self.read_operand8(self.i.operand1_type, self.i.segment_override).unwrap();
        let value = self.read_operand16(self.i.operand2_type, self.i.segment_override).unwrap();
        write_word(io_bus, port as u16, value);
    }

    pub(crate) fn op_out_dx_al(&mut self, io_bus: &mut IoBusInterface)
        requires
            old(self).wf(),
            old(io_bus).wf(),
            readable16(old(self).i.operand1_type),
            readable8(old(self).i.operand2_type),
        ensures
            final(self).wf(),
            final(io_bus).wf(),
            final(self)@ == old(self)@.op_out_dx_al(),
            final(io_bus)@ == old(io_bus)@.after_write(
                old(self)@.out_port_dx(),
                old(self)@.value2_8(),
            ),
    {
        reveal(CpuView::value2_8);
        reveal(CpuView::value1_16);
        reveal(CpuView::op_out_dx_al);
        let port = self.read_operand16(self.i.operand1_type, self.i.segment_override).unwrap();
        let value = self.read_operand8(self.i.operand2_type, self.i.segment_override).unwrap();
        io_bus.write_u8(port, value);
    }

    pub(crate) fn op_out_dx_ax(&mut self, io_bus: &mut IoBusInterface)
        requires
            old(self).wf(),
            old(io_bus).wf(),
            readable16(old(self).i.operand1_type),
            readable16(old(self).i.operand2_type),
        ensures
            final(self).wf(),
            final(io_bus).wf(),
            final(self)@ == old(self)@.op_out_dx_ax(),
            final(io_bus)@ == old(io_bus)@.after_write_word(
                old(self)@.out_port_dx(),
                old(self)@.value2_16(),
            ),
    {
        reveal(CpuView::op_out_dx_ax);
        let (port, value) = self.read_operands16();
        write_word(io_bus, port, value);
    }
}

} // verus!
