//! The guest: its processor view, memory map, VMCS mirror, hardware VMCS
//! memory, EPT environment and physical memory, with the activation
//! protocol that brings the mirror onto the hardware.

use vstd::prelude::*;

use crate::cpu::VirtualCPU;
use crate::ptb::PagingEnv;
use crate::regs::FixedRegisters;
use crate::smap::SystemMap;
use crate::vmcs::{VmHardwareVMCS, VmcsInit, VMCS};
use crate::VmmError;

verus! {

/// One guest.
pub struct VM {
    pub cpu: VirtualCPU,
    pub smap: SystemMap,
    pub vmc: VmHardwareVMCS,
    pub vmcs: VMCS,
    pub pg: PagingEnv,
    pub mem: Vec<u8>,
}

/// Activate the guest VMCS: stamp the revision, clear and load the
/// hardware region, then run the three mirror phases — init, encode,
/// commit — and patch the guest's boot word so the first instruction is
/// `INT 0x19` into the BIOS boot vector.
#[verifier::rlimit(100)]
#[verifier::spinoff_prover]
pub fn init(
    vm: &mut VM,
    revision: u32,
    fixed: &FixedRegisters,
    inp: &VmcsInit,
) -> (r: Result<(), VmmError>)
    requires
        crate::rmode::BASE_IP + 2 <= old(vm).mem@.len(),
        inp.execution.eptp_root & 0xfff == 0,
        old(vm).vmc.msr_map.wf(),
    ensures
        r is Ok,
        final(vm).vmcs.encoded(),
        final(vm).vmc.region.revision_id == revision,
        final(vm).mem@.len() == old(vm).mem@.len(),
        final(vm).mem@[crate::rmode::BASE_IP as int] == 0xcdu8,
        final(vm).mem@[crate::rmode::BASE_IP + 1] == 0x19u8,
        final(vm).vmc.region.spec_field(crate::enc::GUEST_STATE_RIP as u64) == Some(
            crate::rmode::BASE_IP,
        ),
        final(vm).vmc.region.spec_field(crate::enc::GUEST_STATE_RSP as u64) == Some(
            crate::rmode::BASE_SP,
        ),
        final(vm).vmc.region.spec_field(crate::enc::GUEST_STATE_CS_SEL as u64) == Some(0u64),
        final(vm).vmc.region.spec_field(crate::enc::GUEST_STATE_CS_BASE as u64) == Some(0u64),
        final(vm).vmc.region.spec_field(crate::enc::GUEST_STATE_SS_SEL as u64) == Some(
            crate::rmode::BASE_SS,
        ),
        final(vm).vmc.region.spec_field(crate::enc::GUEST_STATE_SS_BASE as u64) == Some(
            (crate::rmode::BASE_SS * 16) as u64,
        ),
        final(vm).vmc.region.spec_field(crate::enc::GUEST_STATE_RFLAGS as u64) == Some(0x202u64),
        final(vm).vmc.region.spec_field(crate::enc::GUEST_STATE_ACTIVITY_STATE as u64) == Some(
            0u64,
        ),
        final(vm).vmc.region.spec_field(crate::enc::GUEST_STATE_VMCS_LINK_PTR as u64) == Some(
            u64::MAX,
        ),
        final(vm).vmc.region.spec_field(crate::enc::GUEST_STATE_IDTR_LIMIT as u64) == Some(
            (0x15u64 * 4 - 1) as u64,
        ),
        final(vm).vmc.region.spec_field(crate::enc::HOST_STATE_RSP as u64) == Some(
            inp.host.stack,
        ),
        final(vm).vmc.region.spec_field(crate::enc::HOST_STATE_RIP as u64) == Some(
            inp.host.entry,
        ),
        final(vm).vmc.region.spec_field(crate::enc::EXEC_CTRL_EPTP as u64) == Some(
            inp.execution.eptp_root | crate::ept::MMT_WB | (3u64 << 3),
        ),
        final(vm).vmc.region.spec_field(crate::enc::EXEC_CTRL_VPID as u64) == Some(
            inp.execution.asid as u64,
        ),
        final(vm).vmc.region.spec_field(crate::enc::EXEC_CTRL_EXCP_BITMAP as u64) == Some(
            ((1u64 << 13) | (1u64 << 18)) as u64,
        ),
{
    vm.vmc.region.set_revision_id(revision);
    crate::vmx::vmclear(&mut vm.vmc.region);
    crate::vmx::vmload(&mut vm.vmc.region);
    vm.vmcs.init(inp, &mut vm.vmc.msr_map);
    vm.vmcs.encode();
    vm.vmcs.commit(&mut vm.vmc.region, fixed)?;
    let rip = vm.vmcs.guest.rip.get_field_value();
    proof {
        assert(0x600u64 & 0xffff == 0x600) by (bit_vector);
    }
    crate::rmode::vm_set_entry(&mut vm.mem, rip);
    Ok(())
}

} // verus!
