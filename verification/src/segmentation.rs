//! x86 segmentation: selectors, the hypervisor GDT and its 64-bit TSS
//! descriptor.

use vstd::prelude::*;

use crate::utils::RawValue;

verus! {

pub const SELECTOR_TYPE_GDT: u16 = 0;

pub const SELECTOR_TYPE_LDT: u16 = 1;

/// A segment selector word: index, table indicator, privilege.
#[derive(Debug, Default, Copy, Clone, PartialEq, Eq, Structural)]
pub struct SegmentSelector(pub u16);

impl SegmentSelector {
    pub fn init(index: u16, ti: u16, rpl: u16) -> (r: SegmentSelector)
        requires
            index < 0x2000,
            ti <= 1,
            rpl <= 3,
        ensures
            r.0 == index * 8 + ti * 4 + rpl,
    {
        proof {
            assert(index < 0x2000 && ti <= 1 && rpl <= 3 ==> (index << 3) | (ti << 2) | rpl
                == index * 8 + ti * 4 + rpl) by (bit_vector);
        }
        let raw: u16 = (index << 3) | (ti << 2) | rpl;
        SegmentSelector(raw)
    }

    /// Ring-0 GDT selector.
    pub fn new_krn(index: u16) -> (r: SegmentSelector)
        requires
            index < 0x2000,
        ensures
            r.0 == index * 8,
    {
        SegmentSelector::init(index, SELECTOR_TYPE_GDT, 0)
    }

    /// Ring-3 GDT selector.
    pub fn new_usr(index: u16) -> (r: SegmentSelector)
        requires
            index < 0x2000,
        ensures
            r.0 == index * 8 + 3,
    {
        SegmentSelector::init(index, SELECTOR_TYPE_GDT, 3)
    }

    pub fn as_u16(&self) -> (r: u16)
        ensures
            r == self.0,
    {
        self.0
    }
}

impl RawValue for SegmentSelector {
    open spec fn view64(&self) -> u64 {
        self.0 as u64
    }

    open spec fn trunc(v: u64) -> u64 {
        (v as u16) as u64
    }

    fn from_u32(x: u32) -> (r: SegmentSelector) {
        SegmentSelector(x as u16)
    }

    fn as_u64(&self) -> (r: u64) {
        self.0 as u64
    }

    fn update_u64(&mut self, v: u64) {
        self.0 = v as u16;
    }
}

pub const SEG_DESC_SYS_TSS_AVL_64: u8 = 0x9;

pub const SEG_DESC_SYS_INTR_GATE_64: u8 = 0xe;

pub const CODE64_DESC: u64 = 0xaf9b000000ffff;

pub const CODE32_DESC: u64 = 0xcf9b000000ffff;

pub const DATA32_DESC: u64 = 0xcf93000000ffff;

pub const VMM_GDT_DESC_NR: u16 = 5;

pub const VMM_GDT_CODE_IDX: u16 = 1;

pub const VMM_GDT_DATA_IDX: u16 = 2;

pub const VMM_GDT_TSS_IDX: u16 = 3;

/// Bytes of the task-state segment the TSS descriptor covers.
pub const TSS_LIMIT: u64 = 104;

/// The 16-byte system descriptor of a 64-bit TSS.
#[derive(Debug, Default, Copy, Clone, PartialEq, Eq, Structural)]
pub struct SegmentDescriptor64 {
    pub low: u64,
    pub high: u64,
}

/// Low quadword of a present, available 64-bit TSS descriptor for a TSS
/// at `addr`: limit, base bits 0..24 and 24..32, type, present.
pub open spec fn spec_tss_low(addr: u64) -> u64 {
    TSS_LIMIT | ((addr & 0xffff) << 16) | (((addr >> 16) & 0xff) << 32) | (
    (SEG_DESC_SYS_TSS_AVL_64 as u64) << 40) | (1u64 << 47) | (((addr >> 24) & 0xff) << 56)
}

impl SegmentDescriptor64 {
    /// Describe the 64-bit TSS at `addr`.
    pub fn setup_tss(&mut self, addr: u64)
        ensures
            final(self).low == spec_tss_low(addr),
            final(self).high == addr >> 32,
    {
        let mut low: u64 = TSS_LIMIT;
        low = low | ((addr & 0xffff) << 16);
        low = low | (((addr >> 16) & 0xff) << 32);
        low = low | ((SEG_DESC_SYS_TSS_AVL_64 as u64) << 40);
        low = low | (1u64 << 47);
        low = low | (((addr >> 24) & 0xff) << 56);
        self.low = low;
        self.high = addr >> 32;
    }
}

/// The hypervisor GDT: null, 64-bit code, 32-bit data, and a two-slot
/// 64-bit TSS descriptor.
pub struct VmmGDT {
    pub descs: Vec<u64>,
}

impl VmmGDT {
    pub open spec fn wf(&self) -> bool {
        self.descs@.len() == VMM_GDT_DESC_NR
    }

    pub fn new() -> (r: VmmGDT)
        ensures
            r.wf(),
            forall|i: int| 0 <= i < VMM_GDT_DESC_NR ==> r.descs@[i] == 0u64,
    {
        let mut descs: Vec<u64> = Vec::new();
        let mut k: usize = 0;
        while k < 5
            invariant
                k <= 5,
                descs@.len() == k,
                forall|i: int| 0 <= i < k ==> descs@[i] == 0u64,
            decreases 5 - k,
        {
            descs.push(0);
            k = k + 1;
        }
        VmmGDT { descs }
    }

    pub fn len(&self) -> (r: u16)
        ensures
            r == VMM_GDT_DESC_NR,
    {
        VMM_GDT_DESC_NR
    }

    /// IDTR/GDTR limit of the table.
    pub fn limit(&self) -> (r: u16)
        ensures
            r == VMM_GDT_DESC_NR * 8 - 1,
    {
        VMM_GDT_DESC_NR * 8 - 1
    }

    /// Install one flat descriptor word.  Fails on an index outside the
    /// table.
    pub fn setup_u64(&mut self, index: u16, desc: u64) -> (r: Result<(), crate::VmmError>)
        requires
            old(self).wf(),
        ensures
            final(self).wf(),
            index < VMM_GDT_DESC_NR ==> r is Ok && final(self).descs@ == old(
                self,
            ).descs@.update(index as int, desc),
            index >= VMM_GDT_DESC_NR ==> r is Err && *final(self) == *old(self),
    {
        if index >= VMM_GDT_DESC_NR {
            return Err(crate::VmmError::BadGdtIndex);
        }
        self.descs.set(index as usize, desc);
        Ok(())
    }

    /// Install the two-slot TSS descriptor for the TSS at `tss_addr`.
    /// Fails when the two slots do not fit the table.
    pub fn setup_tss64(&mut self, index: u16, tss_addr: u64) -> (r: Result<(), crate::VmmError>)
        requires
            old(self).wf(),
        ensures
            final(self).wf(),
            index + 1 < VMM_GDT_DESC_NR ==> r is Ok && final(self).descs@ == old(
                self,
            ).descs@.update(index as int, spec_tss_low(tss_addr)).update(
                index + 1,
                (tss_addr >> 32) as u64,
            ),
            index + 1 >= VMM_GDT_DESC_NR ==> r is Err && *final(self) == *old(self),
    {
        if index >= VMM_GDT_DESC_NR - 1 {
            return Err(crate::VmmError::BadGdtIndex);
        }
        let mut desc = SegmentDescriptor64 { low: 0, high: 0 };
        desc.setup_tss(tss_addr);
        self.descs.set(index as usize, desc.low);
        self.descs.set(index as usize + 1, desc.high);
        Ok(())
    }
}

/// Build the hypervisor GDT contents: null, code, data, TSS.
pub fn gdt_init(tss_addr: u64) -> (r: Result<VmmGDT, crate::VmmError>)
    ensures
        r matches Ok(g) ==> {
            &&& g.wf()
            &&& g.descs@[0] == 0u64
            &&& g.descs@[VMM_GDT_CODE_IDX as int] == CODE64_DESC
            &&& g.descs@[VMM_GDT_DATA_IDX as int] == DATA32_DESC
            &&& g.descs@[VMM_GDT_TSS_IDX as int] == spec_tss_low(tss_addr)
            &&& g.descs@[VMM_GDT_TSS_IDX + 1] == tss_addr >> 32
        },
{
    let mut gdt = VmmGDT::new();
    gdt.setup_u64(0, 0)?;
    gdt.setup_u64(VMM_GDT_CODE_IDX, CODE64_DESC)?;
    gdt.setup_u64(VMM_GDT_DATA_IDX, DATA32_DESC)?;
    gdt.setup_tss64(VMM_GDT_TSS_IDX, tss_addr)?;
    Ok(gdt)
}

} // verus!
