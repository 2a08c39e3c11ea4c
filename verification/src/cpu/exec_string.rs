//! The string instructions under a REP prefix: one element per call, then
//! the count, then the condition.

use vstd::prelude::*;
use crate::cpu::instruction::{Mnemonic, SegmentOverride};
use crate::cpu::machine::{Cpu, CpuView};
use crate::cpu::string::is_string_mnemonic;

verus! {

impl CpuView {
    /// The element of a string instruction, if it is due in this call.
    pub open spec fn string_element(self, m: Mnemonic, so: SegmentOverride) -> CpuView {
        if self.string_element_due() {
            self.string_op(m, so)
        } else {
            self
        }
    }

    /// The element of a string instruction that takes extra cycles when it is
    /// not repeated: `before` cycles in front of the element and `after`
    /// behind it.
    pub open spec fn timed_string_element(
        self,
        m: Mnemonic,
        so: SegmentOverride,
        before: int,
        after: int,
    ) -> CpuView {
        if !self.in_rep {
            self.spend(before).string_op(m, so).spend(after)
        } else if self.r.cx > 0 {
            self.string_op(m, so)
        } else {
            self
        }
    }

    /// The mnemonic of MOVS that the opcode names.
    pub open spec fn movs_mnemonic(self) -> Mnemonic {
        if self.i.opcode == 0xA4 {
            Mnemonic::MOVSB
        } else {
            Mnemonic::MOVSW
        }
    }

    /// MOVSB and MOVSW.
    #[verifier::opaque]
    pub open spec fn op_movs(self) -> CpuView {
        self.string_element(self.movs_mnemonic(), self.i.segment_override).count_rep()
    }

    /// CMPSB and CMPSW.
    #[verifier::opaque]
    pub open spec fn op_cmps(self) -> CpuView {
        self.string_element(
            self.i.mnemonic,
            self.i.segment_override,
        ).count_rep().check_rep_condition()
    }

    /// STOSB and STOSW.
    #[verifier::opaque]
    pub open spec fn op_stos(self) -> CpuView {
        self.string_element(self.i.mnemonic, SegmentOverride::NoOverride).count_rep()
    }

    /// LODSB and LODSW.
    #[verifier::opaque]
    pub open spec fn op_lods(self) -> CpuView {
        self.timed_string_element(self.i.mnemonic, self.i.segment_override, 2, 2).count_rep()
    }

    /// SCASB and SCASW.
    #[verifier::opaque]
    pub open spec fn op_scas(self) -> CpuView {
        self.timed_string_element(
            self.i.mnemonic,
            SegmentOverride::NoOverride,
            4,
            3,
        ).count_rep().check_rep_condition()
    }

    /// Whether a string instruction that takes its mnemonic from the decoder
    /// finds one that it can run: it needs one whenever its element is due.
    pub open spec fn string_ready(self) -> bool {
        self.string_element_due() ==> is_string_mnemonic(self.i.mnemonic)
    }
}

impl Cpu {
    fn string_element(&mut self, m: Mnemonic, so: SegmentOverride)
        requires
            old(self).wf(),
            old(self)@.string_element_due() ==> is_string_mnemonic(m),
        ensures
            final(self).wf(),
            final(self)@ == old(self)@.string_element(m, so),
    {
        if !self.in_rep || self.r.cx > 0 {
            self.string_op(m, so);
        }
    }

    fn timed_string_element(&mut self, m: Mnemonic, so: SegmentOverride, before: u32, after: u32)
        requires
            old(self).wf(),
            old(self)@.string_element_due() ==> is_string_mnemonic(m),
        ensures
            final(self).wf(),
            final(self)@ == old(self)@.timed_string_element(m, so, before as int, after as int),
    {
        if !self.in_rep {
            self.cycles(before);
            self.string_op(m, so);
            self.cycles(after);
        } else if self.r.cx > 0 {
            self.string_op(m, so);
        }
    }

    pub(crate) fn op_movs(&mut self)
        requires
            old(self).wf(),
        ensures
            final(self).wf(),
            final(self)@ == old(self)@.op_movs(),
    {
        reveal(CpuView::op_movs);
        let m = if self.i.opcode == 0xA4 { Mnemonic::MOVSB } else { Mnemonic::MOVSW };
        self.string_element(m, self.i.segment_override);
        self.count_rep();
    }

    pub(crate) fn op_cmps(&mut self)
        requires
            old(self).wf(),
            old(self)@.string_ready(),
        ensures
            final(self).wf(),
            final(self)@ == old(self)@.op_cmps(),
    {
        reveal(CpuView::op_cmps);
        self.string_element(self.i.mnemonic, self.i.segment_override);
        self.count_rep();
        self.check_rep_condition();
    }

    pub(crate) fn op_stos(&mut self)
        requires
            old(self).wf(),
            old(self)@.string_ready(),
        ensures
            final(self).wf(),
            final(self)@ == old(self)@.op_stos(),
    {
        reveal(CpuView::op_stos);
        self.string_element(self.i.mnemonic, SegmentOverride::NoOverride);
        self.count_rep();
    }

    pub(crate) fn op_lods(&mut self)
        requires
            old(self).wf(),
            old(self)@.string_ready(),
        ensures
            final(self).wf(),
            final(self)@ == old(self)@.op_lods(),
    {
        reveal(CpuView::op_lods);
        self.timed_string_element(self.i.mnemonic, self.i.segment_override, 2, 2);
        self.count_rep();
    }

    pub(crate) fn op_scas(&mut self)
        requires
            old(self).wf(),
            old(self)@.string_ready(),
        ensures
            final(self).wf(),
            final(self)@ == old(self)@.op_scas(),
    {
        reveal(CpuView::op_scas);
        self.timed_string_element(self.i.mnemonic, SegmentOverride::NoOverride, 4, 3);
        self.count_rep();
        self.check_rep_condition();
    }
}

} // verus!
