//! Hardware and virtual CPU capability records, built from the probed
//! CPUID and MSR values, and the boot-time decisions made from them.

use vstd::prelude::*;

use crate::ept::VPID_INV_TYPE;
use crate::gpr::GPR64Context;
use crate::mtrr::MTRRInfo;
use crate::regs::{VMXInfo, VmxMsrWords};
use crate::VmmError;

verus! {

/// The CPUID answers the platform probe caches.
#[derive(Debug, Default, Copy, Clone, PartialEq, Eq, Structural)]
pub struct CpuidCache {
    pub has_1g: bool,
    pub has_osxsave: bool,
    pub has_vmx: bool,
    pub paddr_bits: u8,
    pub vaddr_bits: u8,
}

/// What a CPU can map.
pub trait CPUSkillz {
    spec fn spec_max_paddr(&self) -> u64;

    spec fn spec_max_vaddr(&self) -> u64;

    spec fn spec_pg_2m(&self) -> bool;

    spec fn spec_pg_1g(&self) -> bool;

    fn max_paddr(&self) -> (r: u64)
        ensures
            r == self.spec_max_paddr(),
    ;

    fn max_vaddr(&self) -> (r: u64)
        ensures
            r == self.spec_max_vaddr(),
    ;

    #[allow(non_snake_case)]
    fn has_pg_2M(&self) -> (r: bool)
        ensures
            r == self.spec_pg_2m(),
    ;

    #[allow(non_snake_case)]
    fn has_pg_1G(&self) -> (r: bool)
        ensures
            r == self.spec_pg_1g(),
    ;
}

/// The physical processor, as probed at boot.
#[derive(Debug, Default, Copy, Clone, PartialEq, Eq, Structural)]
pub struct HardwareCPU {
    pub cpuid: CpuidCache,
    pub vmx: VMXInfo,
    pub mtrr: MTRRInfo,
    pub paddr_sz: u8,
    pub vaddr_sz: u8,
    pub max_paddr: u64,
    pub max_vaddr: u64,
}

impl CPUSkillz for HardwareCPU {
    open spec fn spec_max_paddr(&self) -> u64 {
        self.max_paddr
    }

    open spec fn spec_max_vaddr(&self) -> u64 {
        self.max_vaddr
    }

    open spec fn spec_pg_2m(&self) -> bool {
        true
    }

    open spec fn spec_pg_1g(&self) -> bool {
        self.cpuid.has_1g
    }

    fn max_paddr(&self) -> (r: u64) {
        self.max_paddr
    }

    fn max_vaddr(&self) -> (r: u64) {
        self.max_vaddr
    }

    fn has_pg_2M(&self) -> (r: bool) {
        true
    }

    fn has_pg_1G(&self) -> (r: bool) {
        self.cpuid.has_1g
    }
}

impl HardwareCPU {
    pub fn has_osxsave(&self) -> (r: bool)
        ensures
            r == self.cpuid.has_osxsave,
    {
        self.cpuid.has_osxsave
    }

    pub fn has_vmx(&self) -> (r: bool)
        ensures
            r == self.cpuid.has_vmx,
    {
        self.cpuid.has_vmx
    }

    /// Record the CPUID answers.  The probe fails when the extended or
    /// feature leaves are missing, which the caller signals with `None`.
    pub fn set_cpuid(&mut self, probed: Option<CpuidCache>) -> (r: Result<(), VmmError>)
        ensures
            r matches Ok(()) ==> probed matches Some(c) && final(self).cpuid == c,
            r is Err ==> probed is None && r == Err::<(), VmmError>(VmmError::MissingCpuidLeaf),
            final(self).vmx == old(self).vmx,
            final(self).mtrr == old(self).mtrr,
    {
        match probed {
            None => Err(VmmError::MissingCpuidLeaf),
            Some(c) => {
                self.cpuid = c;
                Ok(())
            },
        }
    }

    /// Derive the address-space limits from the reported widths.
    pub fn set_max_addrs(&mut self) -> (r: Result<(), VmmError>)
        ensures
            r is Ok <==> 0 < old(self).cpuid.paddr_bits < 64 && 0 < old(self).cpuid.vaddr_bits
                < 64,
            r matches Ok(()) ==> {
                &&& final(self).paddr_sz == old(self).cpuid.paddr_bits
                &&& final(self).vaddr_sz == old(self).cpuid.vaddr_bits
                &&& final(self).max_paddr == (1u64 << old(self).cpuid.paddr_bits) - 1
                &&& final(self).max_vaddr == (1u64 << old(self).cpuid.vaddr_bits) - 1
            },
            final(self).cpuid == old(self).cpuid,
            final(self).vmx == old(self).vmx,
            final(self).mtrr == old(self).mtrr,
    {
        if self.cpuid.paddr_bits == 0 || self.cpuid.paddr_bits >= 64 || self.cpuid.vaddr_bits == 0
            || self.cpuid.vaddr_bits >= 64 {
            return Err(VmmError::MissingCpuidLeaf);
        }
        self.paddr_sz = self.cpuid.paddr_bits;
        self.vaddr_sz = self.cpuid.vaddr_bits;
        proof {
            crate::pgutils::lemma_pg_size_pos(self.cpuid.paddr_bits as u64);
            crate::pgutils::lemma_pg_size_pos(self.cpuid.vaddr_bits as u64);
        }
        self.max_paddr = (1u64 << (self.paddr_sz as u64)) - 1;
        self.max_vaddr = (1u64 << (self.vaddr_sz as u64)) - 1;
        Ok(())
    }

    /// The CR4 value that turns on OSXSAVE.
    pub fn enable_osxsave(&self, cr4: u64) -> (r: u64)
        ensures
            r == cr4 | 0x40000,
    {
        cr4 | 0x40000
    }

    /// Decide what to do with the feature-control MSR: locked without
    /// VMX is fatal; unlocked means write it back with VMX enabled and
    /// the lock set; locked with VMX needs nothing.
    pub fn lock_enable_vmx(&self, feat_raw: u64) -> (r: Result<Option<u64>, VmmError>)
        ensures
            feat_raw & crate::msr::FEAT_CTL_LOCK != 0 && feat_raw & crate::msr::FEAT_CTL_VMX == 0
                ==> r == Err::<Option<u64>, VmmError>(VmmError::VmxLockedOff),
            feat_raw & crate::msr::FEAT_CTL_LOCK != 0 && feat_raw & crate::msr::FEAT_CTL_VMX != 0
                ==> r == Ok::<Option<u64>, VmmError>(None),
            feat_raw & crate::msr::FEAT_CTL_LOCK == 0 ==> r == Ok::<Option<u64>, VmmError>(
                Some(feat_raw | crate::msr::FEAT_CTL_VMX | crate::msr::FEAT_CTL_LOCK),
            ),
    {
        if feat_raw & crate::msr::FEAT_CTL_LOCK != 0 {
            if feat_raw & crate::msr::FEAT_CTL_VMX == 0 {
                Err(VmmError::VmxLockedOff)
            } else {
                Ok(None)
            }
        } else {
            Ok(Some(feat_raw | crate::msr::FEAT_CTL_VMX | crate::msr::FEAT_CTL_LOCK))
        }
    }

    /// The whole platform probe over the probed CPUID answers and MSR
    /// words: a CPU without VMX or the needed capabilities is refused.
    /// The returned word, if any, must be written back to the
    /// feature-control MSR.
    pub fn setup(
        &mut self,
        probed: Option<CpuidCache>,
        feat_raw: u64,
        vmx_words: &VmxMsrWords,
        mtrr_cap: u64,
        mtrr_def: u64,
    ) -> (r: Result<Option<u64>, VmmError>)
        ensures
            r matches Ok(w) ==> final(self).cpuid.has_vmx && final(self).mtrr
                == (crate::mtrr::MTRRInfo {
                cap: crate::mtrr::IA32MTRRCap(mtrr_cap),
                def: crate::mtrr::IA32MTRRDef(mtrr_def),
            }),
            r is Ok <==> ({
                &&& probed matches Some(c) && 0 < c.paddr_bits < 64 && 0 < c.vaddr_bits < 64
                    && c.has_vmx
                &&& !(feat_raw & crate::msr::FEAT_CTL_LOCK != 0 && feat_raw
                    & crate::msr::FEAT_CTL_VMX == 0)
                &&& crate::msr::bit(vmx_words.basic, 54)
                &&& !crate::msr::bit(vmx_words.basic, 48)
                &&& crate::msr::bit(vmx_words.misc, 5)
                &&& crate::regs::spec_fixed_ok(*vmx_words)
                &&& crate::regs::spec_ept_ok(vmx_words.proc2.hi, vmx_words.ept_vpid)
            }),
            r matches Ok(w) ==> w == (if feat_raw & crate::msr::FEAT_CTL_LOCK == 0 {
                Some(feat_raw | crate::msr::FEAT_CTL_VMX | crate::msr::FEAT_CTL_LOCK)
            } else {
                None::<u64>
            }),
            r matches Ok(w) ==> probed matches Some(c) && final(self).cpuid == c
                && final(self).max_paddr == (1u64 << c.paddr_bits) - 1
                && final(self).max_vaddr == (1u64 << c.vaddr_bits) - 1,
    {
        self.set_cpuid(probed)?;
        self.set_max_addrs()?;
        if !self.has_vmx() {
            return Err(VmmError::MissingVmxFeature);
        }
        let write_back = self.lock_enable_vmx(feat_raw)?;
        self.vmx.init(vmx_words)?;
        self.mtrr.init(mtrr_cap, mtrr_def);
        Ok(write_back)
    }
}

/// The guest processor: what the platform lets the guest map, and the
/// TLB invalidation granularities it supports.
#[derive(Debug, Copy, Clone, PartialEq, Eq, Structural)]
pub struct VirtualCPU {
    pub gpr: GPR64Context,
    pub paddr_sz: u8,
    pub vaddr_sz: u8,
    pub max_paddr: u64,
    pub max_vaddr: u64,
    pub pg_2m: bool,
    pub pg_1g: bool,
    pub tlb: VPID_INV_TYPE,
    pub tlb_g: VPID_INV_TYPE,
}

impl CPUSkillz for VirtualCPU {
    open spec fn spec_max_paddr(&self) -> u64 {
        self.max_paddr
    }

    open spec fn spec_max_vaddr(&self) -> u64 {
        self.max_vaddr
    }

    open spec fn spec_pg_2m(&self) -> bool {
        self.pg_2m
    }

    open spec fn spec_pg_1g(&self) -> bool {
        self.pg_1g
    }

    fn max_paddr(&self) -> (r: u64) {
        self.max_paddr
    }

    fn max_vaddr(&self) -> (r: u64) {
        self.max_vaddr
    }

    fn has_pg_2M(&self) -> (r: bool) {
        self.pg_2m
    }

    fn has_pg_1G(&self) -> (r: bool) {
        self.pg_1g
    }
}

impl VirtualCPU {
    /// Inherit the host limits and the EPT page sizes, and pick the VPID
    /// invalidation granularities the platform offers; one of the two
    /// schemes must be there.
    pub fn setup(&mut self, hcpu: &HardwareCPU) -> (r: Result<(), VmmError>)
        ensures
            r is Ok ==> {
                &&& final(self).paddr_sz == hcpu.paddr_sz
                &&& final(self).vaddr_sz == hcpu.vaddr_sz
                &&& final(self).max_paddr == hcpu.max_paddr
                &&& final(self).max_vaddr == hcpu.max_vaddr
                &&& final(self).pg_2m == (hcpu.vmx.ept.0 & (1u64 << 16) != 0)
                &&& final(self).pg_1g == (hcpu.vmx.ept.0 & (1u64 << 17) != 0)
            },
            r is Ok <==> (crate::msr::bit(hcpu.vmx.ept.0, 41) && crate::msr::bit(
                hcpu.vmx.ept.0,
                43,
            )) || crate::msr::bit(hcpu.vmx.ept.0, 42),
            r is Ok ==> ({
                let both = crate::msr::bit(hcpu.vmx.ept.0, 41) && crate::msr::bit(
                    hcpu.vmx.ept.0,
                    43,
                );
                &&& final(self).tlb == (if both {
                    VPID_INV_TYPE::Single
                } else {
                    VPID_INV_TYPE::All
                })
                &&& final(self).tlb_g == (if both {
                    VPID_INV_TYPE::SingleAll
                } else {
                    VPID_INV_TYPE::All
                })
            }),
    {
        self.paddr_sz = hcpu.paddr_sz;
        self.vaddr_sz = hcpu.vaddr_sz;
        self.max_paddr = hcpu.max_paddr;
        self.max_vaddr = hcpu.max_vaddr;
        self.pg_2m = hcpu.vmx.ept.pg_2m();
        self.pg_1g = hcpu.vmx.ept.pg_1g();
        if hcpu.vmx.ept.invvpid_s() && hcpu.vmx.ept.invvpid_r() {
            self.tlb = VPID_INV_TYPE::Single;
            self.tlb_g = VPID_INV_TYPE::SingleAll;
        } else if hcpu.vmx.ept.invvpid_a() {
            self.tlb = VPID_INV_TYPE::All;
            self.tlb_g = VPID_INV_TYPE::All;
        } else {
            return Err(VmmError::MissingVmxFeature);
        }
        Ok(())
    }
}

} // verus!
