//! Repeated string instructions across interrupts.
//!
//! A REP-prefixed string instruction runs one element per call and may be
//! interrupted between two elements. Before control is diverted, the registers
//! that the instruction works on are saved under the address of the
//! instruction; when the instruction is entered again, they are put back, and
//! the repetition goes on where it stood.

use vstd::prelude::*;
use crate::cpu::instruction::{
    overridden_segment, segment_register, segment_to_register, segment_override, Mnemonic,
    RepType,
};
use crate::cpu::machine::{Cpu, CpuView, RepState};
use crate::cpu::registers::{Register16, Registers, Segment};

verus! {

/// String instructions that repeat while CX is not zero.
pub open spec fn repeats_plainly(m: Mnemonic) -> bool {
    match m {
        Mnemonic::STOSB
        | Mnemonic::STOSW
        | Mnemonic::LODSB
        | Mnemonic::LODSW
        | Mnemonic::MOVSB
        | Mnemonic::MOVSW => true,
        _ => false,
    }
}

/// String instructions that also stop on the zero flag.
pub open spec fn repeats_conditionally(m: Mnemonic) -> bool {
    match m {
        Mnemonic::SCASB | Mnemonic::SCASW | Mnemonic::CMPSB | Mnemonic::CMPSW => true,
        _ => false,
    }
}

/// The source segment register that a snapshot holds, and its value; the
/// invalid register where it holds none.
pub open spec fn saved_source(state: RepState) -> (Register16, u16) {
    match state {
        RepState::LodsbState(seg, seg_val, _, _) => (seg, seg_val),
        RepState::LodswState(seg, seg_val, _, _) => (seg, seg_val),
        RepState::MovsbState(seg, seg_val, _, _, _, _) => (seg, seg_val),
        RepState::MovswState(seg, seg_val, _, _, _, _) => (seg, seg_val),
        RepState::CmpsbState(seg, seg_val, _, _, _, _) => (seg, seg_val),
        RepState::CmpswState(seg, seg_val, _, _, _, _) => (seg, seg_val),
        _ => (Register16::InvalidRegister, 0),
    }
}

/// The SI that a snapshot holds.
pub open spec fn saved_si(state: RepState) -> Option<u16> {
    match state {
        RepState::LodsbState(_, _, si, _) => Some(si),
        RepState::LodswState(_, _, si, _) => Some(si),
        RepState::MovsbState(_, _, si, _, _, _) => Some(si),
        RepState::MovswState(_, _, si, _, _, _) => Some(si),
        RepState::CmpsbState(_, _, si, _, _, _) => Some(si),
        RepState::CmpswState(_, _, si, _, _, _) => Some(si),
        _ => None,
    }
}

/// The ES and DI that a snapshot holds.
pub open spec fn saved_destination(state: RepState) -> Option<(u16, u16)> {
    match state {
        RepState::StosbState(es, di, _) => Some((es, di)),
        RepState::StoswState(es, di, _) => Some((es, di)),
        RepState::ScasbState(es, di, _) => Some((es, di)),
        RepState::ScaswState(es, di, _) => Some((es, di)),
        RepState::MovsbState(_, _, _, es, di, _) => Some((es, di)),
        RepState::MovswState(_, _, _, es, di, _) => Some((es, di)),
        RepState::CmpsbState(_, _, _, es, di, _) => Some((es, di)),
        RepState::CmpswState(_, _, _, es, di, _) => Some((es, di)),
        _ => None,
    }
}

/// The CX that a snapshot holds.
pub open spec fn saved_count(state: RepState) -> Option<u16> {
    match state {
        RepState::NoState => None,
        RepState::StosbState(_, _, cx) => Some(cx),
        RepState::StoswState(_, _, cx) => Some(cx),
        RepState::ScasbState(_, _, cx) => Some(cx),
        RepState::ScaswState(_, _, cx) => Some(cx),
        RepState::LodsbState(_, _, _, cx) => Some(cx),
        RepState::LodswState(_, _, _, cx) => Some(cx),
        RepState::MovsbState(_, _, _, _, _, cx) => Some(cx),
        RepState::MovswState(_, _, _, _, _, cx) => Some(cx),
        RepState::CmpsbState(_, _, _, _, _, cx) => Some(cx),
        RepState::CmpswState(_, _, _, _, _, cx) => Some(cx),
    }
}

/// The registers after a snapshot was put back: each register that the
/// snapshot holds has the saved value, the others are as they were. The
/// source segment register comes first, so that a snapshot naming ES as the
/// source still ends with the saved ES.
pub open spec fn restored_registers(r: Registers, state: RepState) -> Registers {
    let with_source = r.set16(saved_source(state).0, saved_source(state).1);
    let with_si = match saved_si(state) {
        Some(si) => Registers { si, ..with_source },
        None => with_source,
    };
    let with_destination = match saved_destination(state) {
        Some((es, di)) => Registers { es, di, ..with_si },
        None => with_si,
    };
    match saved_count(state) {
        Some(cx) => Registers { cx, ..with_destination },
        None => with_destination,
    }
}

impl CpuView {
    /// The register that holds the source segment of the current instruction.
    pub open spec fn source_segment_register(self) -> Register16 {
        segment_register(overridden_segment(self.i.segment_override, Segment::DS))
    }

    /// The registers that the repeating instruction works on, as a snapshot.
    pub open spec fn rep_snapshot(self) -> RepState {
        let seg = self.source_segment_register();
        let seg_val = self.r.get16(seg);
        let r = self.r;
        match self.rep_mnemonic {
            Mnemonic::STOSB => RepState::StosbState(r.es, r.di, r.cx),
            Mnemonic::STOSW => RepState::StoswState(r.es, r.di, r.cx),
            Mnemonic::LODSB => RepState::LodsbState(seg, seg_val, r.si, r.cx),
            Mnemonic::LODSW => RepState::LodswState(seg, seg_val, r.si, r.cx),
            Mnemonic::MOVSB => RepState::MovsbState(seg, seg_val, r.si, r.es, r.di, r.cx),
            Mnemonic::MOVSW => RepState::MovswState(seg, seg_val, r.si, r.es, r.di, r.cx),
            Mnemonic::SCASB => RepState::ScasbState(r.es, r.di, r.cx),
            Mnemonic::SCASW => RepState::ScaswState(r.es, r.di, r.cx),
            Mnemonic::CMPSB => RepState::CmpsbState(seg, seg_val, r.si, r.es, r.di, r.cx),
            Mnemonic::CMPSW => RepState::CmpswState(seg, seg_val, r.si, r.es, r.di, r.cx),
            _ => RepState::NoState,
        }
    }

    /// Before an interrupt diverts control: where a repetition is under way,
    /// its registers are saved under CS:IP and the repetition is suspended.
    /// Otherwise nothing changes.
    pub open spec fn save_rep_state(self) -> CpuView {
        if self.in_rep {
            CpuView {
                rep_state: self.rep_state.push((self.r.cs, self.r.ip, self.rep_snapshot())),
                in_rep: false,
                rep_type: RepType::NoRep,
                ..self
            }
        } else {
            self
        }
    }

    /// Whether the newest snapshot belongs to the instruction at CS:IP.
    pub open spec fn has_matching_snapshot(self) -> bool {
        self.rep_state.len() > 0 && self.rep_state.last().0 == self.r.cs && self.rep_state.last().1
            == self.r.ip
    }

    /// The newest snapshot is put back and removed, if it belongs to the
    /// instruction at CS:IP.
    pub open spec fn resume_rep(self) -> CpuView {
        if self.has_matching_snapshot() {
            CpuView {
                r: restored_registers(self.r, self.rep_state.last().2),
                rep_state: self.rep_state.drop_last(),
                ..self
            }
        } else {
            self
        }
    }

    /// The kind of repetition that the prefix asks of the instruction; the
    /// kind is left as it was where the instruction cannot repeat.
    pub open spec fn prefixed_rep_type(self) -> RepType {
        if repeats_plainly(self.i.mnemonic) {
            RepType::Rep
        } else if repeats_conditionally(self.i.mnemonic) {
            if self.i.has_rep1() {
                RepType::Repne
            } else {
                RepType::Repe
            }
        } else {
            self.rep_type
        }
    }

    /// What a REP prefix does when the instruction is entered: the kind of
    /// repetition is set, a matching snapshot is put back, and the repetition
    /// is marked as under way. A prefix on an instruction that cannot repeat
    /// only puts a matching snapshot back.
    pub open spec fn enter_rep(self) -> CpuView {
        let resumed = CpuView { rep_type: self.prefixed_rep_type(), ..self }.resume_rep();
        if repeats_plainly(self.i.mnemonic) || repeats_conditionally(self.i.mnemonic) {
            CpuView { in_rep: true, rep_mnemonic: self.i.mnemonic, ..resumed }
        } else {
            resumed
        }
    }

    /// The count of consecutive instructions with opcode 0x00, wrapping.
    pub open spec fn next_opcode0_count(self) -> u32 {
        if self.i.opcode == 0 {
            if self.opcode0_counter == u32::MAX {
                0
            } else {
                (self.opcode0_counter + 1) as u32
            }
        } else {
            0
        }
    }

    /// What happens at the start of every instruction, before its opcode is
    /// looked at: a REP prefix is honoured, the delay after STI ends, and the
    /// run of 0x00 opcodes is counted.
    pub open spec fn begin_instruction(self) -> CpuView {
        let entered = if self.i.has_rep_prefix() {
            self.enter_rep()
        } else {
            self
        };
        CpuView {
            interrupt_inhibit: false,
            opcode0_counter: self.next_opcode0_count(),
            ..entered
        }
    }

    /// After one element of a repeated instruction: CX is counted down unless
    /// it is zero already, and the repetition ends when CX is zero.
    pub open spec fn count_rep(self) -> CpuView {
        if self.in_rep {
            let cx = if self.r.cx > 0 { (self.r.cx - 1) as u16 } else { self.r.cx };
            let counted = self.with_regs(Registers { cx, ..self.r });
            if cx == 0 {
                CpuView { in_rep: false, rep_type: RepType::NoRep, ..counted }
            } else {
                counted
            }
        } else {
            self
        }
    }

    /// After a compare or a scan: REPNE ends when the zero flag is set, REPE
    /// when it is clear.
    pub open spec fn check_rep_condition(self) -> CpuView {
        if (self.rep_type == RepType::Repne && self.r.flags.zero) || (self.rep_type
            == RepType::Repe && !self.r.flags.zero) {
            CpuView { in_rep: false, rep_type: RepType::NoRep, ..self }
        } else {
            self
        }
    }

    /// Whether a string instruction does its element in this call: always
    /// when it is not repeating, and while CX is not zero when it is.
    pub open spec fn string_element_due(self) -> bool {
        !self.in_rep || self.r.cx > 0
    }
}

fn is_plain_rep(m: Mnemonic) -> (b: bool)
    ensures
        b == repeats_plainly(m),
{
    match m {
        Mnemonic::STOSB
        | Mnemonic::STOSW
        | Mnemonic::LODSB
        | Mnemonic::LODSW
        | Mnemonic::MOVSB
        | Mnemonic::MOVSW => true,
        _ => false,
    }
}

fn is_conditional_rep(m: Mnemonic) -> (b: bool)
    ensures
        b == repeats_conditionally(m),
{
    match m {
        Mnemonic::SCASB | Mnemonic::SCASW | Mnemonic::CMPSB | Mnemonic::CMPSW => true,
        _ => false,
    }
}

fn source_of(state: RepState) -> (source: (Register16, u16))
    ensures
        source == saved_source(state),
{
    match state {
        RepState::LodsbState(seg, seg_val, _, _) => (seg, seg_val),
        RepState::LodswState(seg, seg_val, _, _) => (seg, seg_val),
        RepState::MovsbState(seg, seg_val, _, _, _, _) => (seg, seg_val),
        RepState::MovswState(seg, seg_val, _, _, _, _) => (seg, seg_val),
        RepState::CmpsbState(seg, seg_val, _, _, _, _) => (seg, seg_val),
        RepState::CmpswState(seg, seg_val, _, _, _, _) => (seg, seg_val),
        _ => (Register16::InvalidRegister, 0),
    }
}

fn si_of(state: RepState) -> (si: Option<u16>)
    ensures
        si == saved_si(state),
{
    match state {
        RepState::LodsbState(_, _, si, _) => Some(si),
        RepState::LodswState(_, _, si, _) => Some(si),
        RepState::MovsbState(_, _, si, _, _, _) => Some(si),
        RepState::MovswState(_, _, si, _, _, _) => Some(si),
        RepState::CmpsbState(_, _, si, _, _, _) => Some(si),
        RepState::CmpswState(_, _, si, _, _, _) => Some(si),
        _ => None,
    }
}

fn destination_of(state: RepState) -> (destination: Option<(u16, u16)>)
    ensures
        destination == saved_destination(state),
{
    match state {
        RepState::StosbState(es, di, _) => Some((es, di)),
        RepState::StoswState(es, di, _) => Some((es, di)),
        RepState::ScasbState(es, di, _) => Some((es, di)),
        RepState::ScaswState(es, di, _) => Some((es, di)),
        RepState::MovsbState(_, _, _, es, di, _) => Some((es, di)),
        RepState::MovswState(_, _, _, es, di, _) => Some((es, di)),
        RepState::CmpsbState(_, _, _, es, di, _) => Some((es, di)),
        RepState::CmpswState(_, _, _, es, di, _) => Some((es, di)),
        _ => None,
    }
}

fn count_of(state: RepState) -> (count: Option<u16>)
    ensures
        count == saved_count(state),
{
    match state {
        RepState::NoState => None,
        RepState::StosbState(_, _, cx) => Some(cx),
        RepState::StoswState(_, _, cx) => Some(cx),
        RepState::ScasbState(_, _, cx) => Some(cx),
        RepState::ScaswState(_, _, cx) => Some(cx),
        RepState::LodsbState(_, _, _, cx) => Some(cx),
        RepState::LodswState(_, _, _, cx) => Some(cx),
        RepState::MovsbState(_, _, _, _, _, cx) => Some(cx),
        RepState::MovswState(_, _, _, _, _, cx) => Some(cx),
        RepState::CmpsbState(_, _, _, _, _, cx) => Some(cx),
        RepState::CmpswState(_, _, _, _, _, cx) => Some(cx),
    }
}

/// Puts the registers that a snapshot holds back.
pub fn restore_registers(r: &mut Registers, state: RepState)
    ensures
        *final(r) == restored_registers(*old(r), state),
{
    let source = source_of(state);
    r.set_register16(source.0, source.1);
    if let Some(si) = si_of(state) {
        r.si = si;
    }
    if let Some((es, di)) = destination_of(state) {
        r.es = es;
        r.di = di;
    }
    if let Some(cx) = count_of(state) {
        r.cx = cx;
    }
}

impl CpuView {
    /// A hardware interrupt: a repetition that is under way is saved, a
    /// halted processor wakes up, and the handler is entered as for a
    /// software interrupt.
    pub open spec fn hw_interrupt(self, vector: u8) -> CpuView {
        CpuView { halted: false, ..self.save_rep_state() }.sw_interrupt(vector)
    }
}

impl Cpu {
    /// Enters the handler of a hardware interrupt.
    pub fn hw_interrupt(&mut self, vector: u8)
        requires
            old(self).wf(),
        ensures
            final(self).wf(),
            final(self)@ == old(self)@.hw_interrupt(vector),
    {
        self.save_rep_state();
        self.halted = false;
        self.sw_interrupt(vector);
    }

    fn snapshot(&self) -> (state: RepState)
        ensures
            state == self@.rep_snapshot(),
    {
        let seg = segment_to_register(segment_override(self.i.segment_override, Segment::DS));
        let seg_val = self.r.get_register16(seg);
        let r = self.r;
        match self.rep_mnemonic {
            Mnemonic::STOSB => RepState::StosbState(r.es, r.di, r.cx),
            Mnemonic::STOSW => RepState::StoswState(r.es, r.di, r.cx),
            Mnemonic::LODSB => RepState::LodsbState(seg, seg_val, r.si, r.cx),
            Mnemonic::LODSW => RepState::LodswState(seg, seg_val, r.si, r.cx),
            Mnemonic::MOVSB => RepState::MovsbState(seg, seg_val, r.si, r.es, r.di, r.cx),
            Mnemonic::MOVSW => RepState::MovswState(seg, seg_val, r.si, r.es, r.di, r.cx),
            Mnemonic::SCASB => RepState::ScasbState(r.es, r.di, r.cx),
            Mnemonic::SCASW => RepState::ScaswState(r.es, r.di, r.cx),
            Mnemonic::CMPSB => RepState::CmpsbState(seg, seg_val, r.si, r.es, r.di, r.cx),
            Mnemonic::CMPSW => RepState::CmpswState(seg, seg_val, r.si, r.es, r.di, r.cx),
            _ => RepState::NoState,
        }
    }

    /// Saves the registers of a repetition that is under way, for the
    /// interrupt that is about to divert control.
    pub fn save_rep_state(&mut self)
        requires
            old(self).wf(),
        ensures
            final(self).wf(),
            final(self)@ == old(self)@.save_rep_state(),
    {
        if self.in_rep {
            let state = self.snapshot();
            self.rep_state.push((self.r.cs, self.r.ip, state));
            self.in_rep = false;
            self.rep_type = RepType::NoRep;
        }
    }

    fn resume_rep(&mut self)
        requires
            old(self).wf(),
        ensures
            final(self).wf(),
            final(self)@ == old(self)@.resume_rep(),
    {
        let n = self.rep_state.len();
        if n > 0 {
            let newest = self.rep_state[n - 1];
            if newest.0 == self.r.cs && newest.1 == self.r.ip {
                restore_registers(&mut self.r, newest.2);
                let _ = self.rep_state.pop();
                assert(self.rep_state@ =~= old(self)@.rep_state.drop_last());
            }
        }
    }

    fn enter_rep(&mut self)
        requires
            old(self).wf(),
        ensures
            final(self).wf(),
            final(self)@ == old(self)@.enter_rep(),
    {
        let plain = is_plain_rep(self.i.mnemonic);
        let conditional = is_conditional_rep(self.i.mnemonic);
        if plain {
            self.rep_type = RepType::Rep;
        } else if conditional {
            if self.i.rep1_prefix() {
                self.rep_type = RepType::Repne;
            } else {
                self.rep_type = RepType::Repe;
            }
        }
        self.resume_rep();
        if plain || conditional {
            self.in_rep = true;
            self.rep_mnemonic = self.i.mnemonic;
        }
    }

    /// The work at the start of every instruction.
    pub fn begin_instruction(&mut self)
        requires
            old(self).wf(),
        ensures
            final(self).wf(),
            final(self)@ == old(self)@.begin_instruction(),
    {
        if self.i.rep1_prefix() || self.i.rep2_prefix() {
            self.enter_rep();
        }
        self.interrupt_inhibit = false;
        if self.i.opcode == 0x00 {
            self.opcode0_counter = self.opcode0_counter.wrapping_add(1);
        } else {
            self.opcode0_counter = 0;
        }
    }

    /// Counts CX down after one element of a repeated instruction.
    pub fn count_rep(&mut self)
        ensures
            final(self)@ == old(self)@.count_rep(),
    {
        if self.in_rep {
            if self.r.cx > 0 {
                self.r.cx = self.r.cx - 1;
            }
            if self.r.cx == 0 {
                self.in_rep = false;
                self.rep_type = RepType::NoRep;
            }
        }
    }

    /// Ends a REPE or REPNE repetition on the zero flag.
    pub fn check_rep_condition(&mut self)
        ensures
            final(self)@ == old(self)@.check_rep_condition(),
    {
        match self.rep_type {
            RepType::Repne => {
                if self.r.flags.zero {
                    self.in_rep = false;
                    self.rep_type = RepType::NoRep;
                }
            },
            RepType::Repe => {
                if !self.r.flags.zero {
                    self.in_rep = false;
                    self.rep_type = RepType::NoRep;
                }
            },
            _ => {},
        }
    }
}

/// A snapshot that was saved for the instruction at CS:IP is put back when the
/// instruction is entered again, whatever happened to the registers in
/// between, as long as CS:IP is the same and nothing else was saved since:
/// the snapshot is gone, and the registers that it holds are those of the
/// moment of saving.
pub proof fn lemma_resume_puts_saved_registers_back(saved: CpuView, later: CpuView)
    requires
        saved.in_rep,
        later.rep_state == saved.save_rep_state().rep_state,
        later.r.cs == saved.r.cs,
        later.r.ip == saved.r.ip,
    ensures
        later.resume_rep().rep_state == saved.rep_state,
        later.resume_rep().r == restored_registers(later.r, saved.rep_snapshot()),
        saved_count(saved.rep_snapshot()).is_some() ==> later.resume_rep().r.cx == saved.r.cx,
        saved_si(saved.rep_snapshot()).is_some() ==> later.resume_rep().r.si == saved.r.si,
        saved_destination(saved.rep_snapshot()).is_some() ==> later.resume_rep().r.es
            == saved.r.es && later.resume_rep().r.di == saved.r.di,
{
    assert(later.rep_state.drop_last() =~= saved.rep_state);
    assert(later.rep_state.last() == (saved.r.cs, saved.r.ip, saved.rep_snapshot()));
}

/// An interrupted repetition goes on as if it had not been interrupted.
///
/// `saved` is a state in the middle of a repeated string instruction, and
/// `later` is what comes back from the interrupt handler: the state of the
/// repetition was saved, and the handler has done to the registers that the
/// snapshot holds whatever it liked, but has left the rest as it was. Then
/// the instruction starts in `later` exactly as it would have started in
/// `saved`, and so every call that follows, up to the end of the repetition,
/// does the same in both.
pub proof fn lemma_interrupted_repetition_resumes(saved: CpuView, later: CpuView)
    requires
        saved.in_rep,
        saved.i.has_rep_prefix(),
        repeats_plainly(saved.i.mnemonic) || repeats_conditionally(saved.i.mnemonic),
        saved.rep_mnemonic == saved.i.mnemonic,
        !saved.has_matching_snapshot(),
        later.r.cs == saved.r.cs,
        later.r.ip == saved.r.ip,
        restored_registers(later.r, saved.rep_snapshot()) == saved.r,
        later == (CpuView { r: later.r, ..saved.save_rep_state() }),
    ensures
        later.begin_instruction() == saved.begin_instruction(),
{
    lemma_resume_puts_saved_registers_back(saved, later);
    let resumed = CpuView { rep_type: later.prefixed_rep_type(), ..later }.resume_rep();
    let straight = CpuView { rep_type: saved.prefixed_rep_type(), ..saved }.resume_rep();
    assert(later.rep_state.drop_last() =~= saved.rep_state);
    assert(resumed.rep_state == saved.rep_state);
    assert(resumed.r == saved.r);
    assert(straight.rep_state == saved.rep_state);
}

/// For a repeated MOVS the snapshot holds the source segment, SI, ES, DI and
/// CX: whatever the handler did to these five, they are back when the
/// instruction is entered again.
pub proof fn lemma_movs_snapshot_holds(saved: CpuView, r: Registers)
    requires
        saved.rep_mnemonic == Mnemonic::MOVSB || saved.rep_mnemonic == Mnemonic::MOVSW,
    ensures
        restored_registers(r, saved.rep_snapshot()).si == saved.r.si,
        restored_registers(r, saved.rep_snapshot()).di == saved.r.di,
        restored_registers(r, saved.rep_snapshot()).es == saved.r.es,
        restored_registers(r, saved.rep_snapshot()).cx == saved.r.cx,
        saved.source_segment_register() != Register16::ES ==> restored_registers(
            r,
            saved.rep_snapshot(),
        ).get16(saved.source_segment_register()) == saved.r.get16(
            saved.source_segment_register(),
        ),
{
}

} // verus!
