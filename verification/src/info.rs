//! The process-wide information block: a capability value established
//! once at bootstrap and threaded into every component that needs it.

use vstd::prelude::*;

use crate::smem::HardwareMemory;
use crate::vm::VM;
use crate::vmm::VMM;

verus! {

/// Everything the hypervisor knows, rooted in one place.
pub struct InformationData {
    pub hwmm: HardwareMemory,
    pub vmm: VMM,
    pub vm: VM,
}

} // verus!
