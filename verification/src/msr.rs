//! Model-specific register words the logic reads, and the indices of the
//! few MSRs the hypervisor filters for the guest.

use vstd::prelude::*;

verus! {

pub const IA32_MTRR_DEF_TYPE: u32 = 0x2ff;

pub const IA32_EFER_INDEX: u32 = 0xc0000080;

/// Bit of a single-bit field.
pub open spec fn bit(v: u64, i: u64) -> bool {
    v & (1u64 << i) != 0
}

/// `IA32_VMX_BASIC`.
#[derive(Debug, Default, Copy, Clone, PartialEq, Eq, Structural)]
pub struct IA32VmxBasic(pub u64);

impl IA32VmxBasic {
    /// VMCS revision identifier, bits 0..31.
    pub fn vmcs_rev_id(&self) -> (r: u32)
        ensures
            r == (self.0 & 0x7fffffff) as u32,
    {
        (self.0 & 0x7fffffff) as u32
    }

    /// The VMCS physical address width is limited to 32 bits.
    pub fn paddrw32(&self) -> (r: bool)
        ensures
            r == (self.0 & (1u64 << 48) != 0),
    {
        self.0 & (1u64 << 48) != 0
    }

    /// INS/OUTS information is reported on VM-exit.
    pub fn io_insn(&self) -> (r: bool)
        ensures
            r == (self.0 & (1u64 << 54) != 0),
    {
        self.0 & (1u64 << 54) != 0
    }

    /// The TRUE capability MSRs are available.
    pub fn true_f1(&self) -> (r: bool)
        ensures
            r == (self.0 & (1u64 << 55) != 0),
    {
        self.0 & (1u64 << 55) != 0
    }
}

/// `IA32_VMX_MISC`.
#[derive(Debug, Default, Copy, Clone, PartialEq, Eq, Structural)]
pub struct IA32VmxMisc(pub u64);

impl IA32VmxMisc {
    /// The host may stay in IA-32e mode across VMX transitions.
    pub fn lma(&self) -> (r: bool)
        ensures
            r == (self.0 & (1u64 << 5) != 0),
    {
        self.0 & (1u64 << 5) != 0
    }
}

/// `IA32_VMX_EPT_VPID_CAP`.
#[derive(Debug, Default, Copy, Clone, PartialEq, Eq, Structural)]
pub struct IA32VmxEptVpidCap(pub u64);

impl IA32VmxEptVpidCap {
    pub fn pwl4(&self) -> (r: bool)
        ensures
            r == (self.0 & (1u64 << 6) != 0),
    {
        self.0 & (1u64 << 6) != 0
    }

    pub fn uc(&self) -> (r: bool)
        ensures
            r == (self.0 & (1u64 << 8) != 0),
    {
        self.0 & (1u64 << 8) != 0
    }

    pub fn wb(&self) -> (r: bool)
        ensures
            r == (self.0 & (1u64 << 14) != 0),
    {
        self.0 & (1u64 << 14) != 0
    }

    pub fn pg_2m(&self) -> (r: bool)
        ensures
            r == (self.0 & (1u64 << 16) != 0),
    {
        self.0 & (1u64 << 16) != 0
    }

    pub fn pg_1g(&self) -> (r: bool)
        ensures
            r == (self.0 & (1u64 << 17) != 0),
    {
        self.0 & (1u64 << 17) != 0
    }

    pub fn invept(&self) -> (r: bool)
        ensures
            r == (self.0 & (1u64 << 20) != 0),
    {
        self.0 & (1u64 << 20) != 0
    }

    pub fn invvpid(&self) -> (r: bool)
        ensures
            r == (self.0 & (1u64 << 32) != 0),
    {
        self.0 & (1u64 << 32) != 0
    }

    pub fn invvpid_i(&self) -> (r: bool)
        ensures
            r == (self.0 & (1u64 << 40) != 0),
    {
        self.0 & (1u64 << 40) != 0
    }

    pub fn invvpid_s(&self) -> (r: bool)
        ensures
            r == (self.0 & (1u64 << 41) != 0),
    {
        self.0 & (1u64 << 41) != 0
    }

    pub fn invvpid_a(&self) -> (r: bool)
        ensures
            r == (self.0 & (1u64 << 42) != 0),
    {
        self.0 & (1u64 << 42) != 0
    }

    pub fn invvpid_r(&self) -> (r: bool)
        ensures
            r == (self.0 & (1u64 << 43) != 0),
    {
        self.0 & (1u64 << 43) != 0
    }
}

/// `IA32_PERF_GLOBAL_CTRL`.
#[derive(Debug, Default, Copy, Clone, PartialEq, Eq, Structural)]
pub struct IA32PerfGlobalCtl(pub u64);

/// `IA32_EFER`.
#[derive(Debug, Default, Copy, Clone, PartialEq, Eq, Structural)]
pub struct IA32Efer(pub u64);

impl IA32Efer {
    /// Long mode is active.
    pub fn ia32_a(&self) -> (r: bool)
        ensures
            r == (self.0 & (1u64 << 10) != 0),
    {
        self.0 & (1u64 << 10) != 0
    }

    /// Long mode is enabled.
    pub fn ia32_e(&self) -> (r: bool)
        ensures
            r == (self.0 & (1u64 << 8) != 0),
    {
        self.0 & (1u64 << 8) != 0
    }
}

/// `IA32_FEATURE_CONTROL` bits.
pub const FEAT_CTL_LOCK: u64 = 1;

pub const FEAT_CTL_VMX: u64 = 4;

} // verus!
