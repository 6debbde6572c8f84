//! Registry of one descriptor per 4 KiB RAM frame: frames inside the
//! secret area belong to the hypervisor with one standing reference, all
//! others start free for the guest.

use vstd::prelude::*;

use crate::pgutils::spec_pfn;
use crate::smem::HardwareMemory;

verus! {

/// Bytes one descriptor occupies in the packed registry.
pub const FRAME_DESC_BYTES: u64 = 16;

#[derive(Debug, Copy, Clone, PartialEq, Eq, Structural)]
pub enum FrameType {
    VM,
    VMM,
}

#[derive(Debug, Copy, Clone, PartialEq, Eq, Structural)]
pub struct FrameDescriptor {
    pub ref_count: u64,
    pub flags: FrameType,
}

pub struct FrameRegistry {
    pub count: u64,
    pub desc: Vec<FrameDescriptor>,
}

/// What every frame descriptor starts as: owned and referenced by the
/// hypervisor inside the secret area, free guest memory outside it.
pub open spec fn spec_initial_desc(hwmm: HardwareMemory, pfn: int) -> FrameDescriptor {
    if spec_pfn(hwmm.area.start) <= pfn < spec_pfn(hwmm.area.end) {
        FrameDescriptor { ref_count: 1, flags: FrameType::VMM }
    } else {
        FrameDescriptor { ref_count: 0, flags: FrameType::VM }
    }
}

impl FrameRegistry {
    pub open spec fn spec_count(&self) -> u64 {
        self.count
    }

    pub open spec fn spec_desc(&self) -> Seq<FrameDescriptor> {
        self.desc@
    }

    /// One descriptor per RAM frame, initialized from the secret area.
    pub fn init(hwmm: &HardwareMemory) -> (r: FrameRegistry)
        requires
            spec_pfn(hwmm.ram) <= usize::MAX,
        ensures
            r.spec_count() == spec_pfn(hwmm.ram),
            r.spec_desc().len() == spec_pfn(hwmm.ram),
            forall|i: int|
                0 <= i < r.spec_desc().len() ==> r.spec_desc()[i] == spec_initial_desc(*hwmm, i),
    {
        let cnt = hwmm.get_total_frames();
        let mut desc: Vec<FrameDescriptor> = Vec::new();
        let mut pfn: u64 = 0;
        while pfn < cnt
            invariant
                pfn <= cnt,
                cnt == spec_pfn(hwmm.ram),
                cnt <= usize::MAX,
                desc@.len() == pfn,
                forall|i: int| 0 <= i < pfn ==> desc@[i] == spec_initial_desc(*hwmm, i),
            decreases cnt - pfn,
        {
            if hwmm.area.has_pfn(pfn) {
                desc.push(FrameDescriptor { ref_count: 1, flags: FrameType::VMM });
            } else {
                desc.push(FrameDescriptor { ref_count: 0, flags: FrameType::VM });
            }
            pfn = pfn + 1;
        }
        FrameRegistry { count: cnt, desc }
    }

    /// Descriptor of the frame holding `addr`, when it is RAM.
    pub fn get_desc(&self, addr: u64) -> (r: Option<&FrameDescriptor>)
        requires
            self.spec_desc().len() == self.spec_count(),
        ensures
            spec_pfn(addr) < self.spec_count() ==> r == Some(
                &self.spec_desc()[spec_pfn(addr) as int],
            ),
            spec_pfn(addr) >= self.spec_count() ==> r is None,
    {
        let n = crate::pgutils::pfn(addr);
        let dlen: usize = self.desc.len();
        if n < self.count {
            Some(&self.desc[n as usize])
        } else {
            None
        }
    }

    /// Memory the packed registry occupies.
    pub fn size(&self) -> (r: u64)
        requires
            self.spec_count() * FRAME_DESC_BYTES <= u64::MAX,
        ensures
            r == self.spec_count() * FRAME_DESC_BYTES,
    {
        self.count * FRAME_DESC_BYTES
    }
}

} // verus!
