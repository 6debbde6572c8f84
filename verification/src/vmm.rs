//! The hypervisor's own runtime state.

use vstd::prelude::*;

use crate::cpu::HardwareCPU;
use crate::frame::FrameRegistry;
use crate::interrupts::VmmIDT;
use crate::pool::PagePool;
use crate::ptb::PagingEnv;
use crate::segmentation::VmmGDT;
use crate::vmcs::VmmHardwareVMCS;

verus! {

/// Smallest stack the hypervisor runs on: three 4 KiB pages.
pub const MIN_STACK_SIZE: u64 = 3 * 4096;

/// The hypervisor's descriptor tables.
pub struct VmmSegmentation {
    pub gdt: VmmGDT,
    pub idt: VmmIDT,
    pub tss_base: u64,
}

/// Everything the hypervisor owns: its stack and relocated image, the
/// probed processor, the frame registry, its own paging environment, its
/// hardware VMCS and its segmentation.
pub struct VMM {
    pub stack: u64,
    pub base: u64,
    pub entry: u64,
    pub size: u64,
    pub cpu: HardwareCPU,
    pub pfr: FrameRegistry,
    pub pg: PagingEnv,
    pub vmc: VmmHardwareVMCS,
    pub seg: VmmSegmentation,
    pub pool: PagePool,
}

} // verus!
