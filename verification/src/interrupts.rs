//! The hypervisor IDT: 256 64-bit interrupt gates pointing at a uniform
//! table of ISR stubs.

use vstd::prelude::*;

use crate::segmentation::SEG_DESC_SYS_INTR_GATE_64;

verus! {

/// Spacing of the ISR stubs the gates point at.
pub const VMM_IDT_ISR_ALIGN: u64 = 16;

/// One 16-byte 64-bit interrupt descriptor.
#[derive(Debug, Default, Copy, Clone, PartialEq, Eq, Structural)]
pub struct InterruptDescriptor64 {
    pub low: u64,
    pub high: u64,
}

/// Low quadword of a present gate: handler offset bits 0..16 and 16..32,
/// selector, type, privilege, present.
pub open spec fn spec_gate_low(sel: u16, hdl: u64, kind: u8, dpl: u8) -> u64 {
    (hdl & 0xffff) | ((sel as u64) << 16) | (((kind as u64) & 0xf) << 40) | (((dpl as u64) & 3)
        << 45) | (1u64 << 47) | (((hdl >> 16) & 0xffff) << 48)
}

impl InterruptDescriptor64 {
    /// Write the descriptor words of one interrupt gate.
    pub fn setup(&mut self, sel: u16, hdl: u64, kind: u8, dpl: u8)
        ensures
            final(self).low == spec_gate_low(sel, hdl, kind, dpl),
            final(self).high == hdl >> 32,
    {
        let mut low: u64 = hdl & 0xffff;
        low = low | ((sel as u64) << 16);
        low = low | (((kind as u64) & 0xf) << 40);
        low = low | (((dpl as u64) & 3) << 45);
        low = low | (1u64 << 47);
        low = low | (((hdl >> 16) & 0xffff) << 48);
        self.low = low;
        self.high = hdl >> 32;
    }

    /// A ring-0 64-bit interrupt gate.
    pub fn setup_gate64(&mut self, sel: u16, hdl: u64)
        ensures
            final(self).low == spec_gate_low(sel, hdl, SEG_DESC_SYS_INTR_GATE_64, 0),
            final(self).high == hdl >> 32,
    {
        self.setup(sel, hdl, SEG_DESC_SYS_INTR_GATE_64, 0);
    }
}

/// The 256-gate interrupt descriptor table.
pub struct VmmIDT {
    pub gates: Vec<InterruptDescriptor64>,
}

impl VmmIDT {
    pub open spec fn wf(&self) -> bool {
        self.gates@.len() == 256
    }

    pub fn len(&self) -> (r: u16)
        ensures
            r == 256,
    {
        256
    }

    pub fn limit(&self) -> (r: u16)
        ensures
            r == 256 * 16 - 1,
    {
        256 * 16 - 1
    }

    /// Fill all 256 gates: vector `i` jumps to `base + 16 * (i + 1)`
    /// through the given code selector.
    pub fn init(sel: u16, base: u64) -> (r: VmmIDT)
        requires
            base + 16 * 257 <= u64::MAX,
        ensures
            r.wf(),
            forall|i: int|
                0 <= i < 256 ==> (#[trigger] r.gates@[i]).low == spec_gate_low(
                    sel,
                    (base + 16 * (i + 1)) as u64,
                    SEG_DESC_SYS_INTR_GATE_64,
                    0,
                ) && r.gates@[i].high == ((base + 16 * (i + 1)) as u64) >> 32,
    {
        let mut gates: Vec<InterruptDescriptor64> = Vec::new();
        let mut hdl: u64 = base + VMM_IDT_ISR_ALIGN;
        let mut k: usize = 0;
        while k < 256
            invariant
                k <= 256,
                gates@.len() == k,
                hdl == base + 16 * (k + 1),
                base + 16 * 257 <= u64::MAX,
                forall|i: int|
                    0 <= i < k ==> (#[trigger] gates@[i]).low == spec_gate_low(
                        sel,
                        (base + 16 * (i + 1)) as u64,
                        SEG_DESC_SYS_INTR_GATE_64,
                        0,
                    ) && gates@[i].high == ((base + 16 * (i + 1)) as u64) >> 32,
            decreases 256 - k,
        {
            let mut gate = InterruptDescriptor64 { low: 0, high: 0 };
            gate.setup_gate64(sel, hdl);
            gates.push(gate);
            hdl = hdl + VMM_IDT_ISR_ALIGN;
            k = k + 1;
        }
        VmmIDT { gates }
    }
}

} // verus!
