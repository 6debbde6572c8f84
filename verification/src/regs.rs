//! VMX capability registers: fixed-bit settings, control words, exit
//! information words, and the capability checks made at boot.

use vstd::prelude::*;

use crate::msr::{IA32VmxBasic, IA32VmxEptVpidCap, IA32VmxMisc};
use crate::VmmError;

verus! {

/// Fixed-bit setting of one control register or VMX control field:
/// a bit clear in `allow_1` is forced to 0, a bit set in `allow_0` is
/// forced to 1.
#[derive(Debug, Default, Copy, Clone, PartialEq, Eq, Structural)]
pub struct FixedReg {
    pub allow_0: u64,
    pub allow_1: u64,
}

/// The mandatory VMX fixed-bit masking.
pub open spec fn spec_mask(f: FixedReg, value: u64) -> u64 {
    (value & f.allow_1) | f.allow_0
}

impl FixedReg {
    /// Fixed-bit pair from one 64-bit capability MSR: low half allows 0,
    /// high half allows 1.
    pub fn from_msr64(lo: u32, hi: u32) -> (r: FixedReg)
        ensures
            r.allow_0 == lo as u64,
            r.allow_1 == hi as u64,
    {
        FixedReg { allow_0: lo as u64, allow_1: hi as u64 }
    }

    /// Fixed-bit pair from the two fixed-value MSRs of a control
    /// register.
    pub fn from_msr32(a0: u32, a1: u32) -> (r: FixedReg)
        ensures
            r.allow_0 == a0 as u64,
            r.allow_1 == a1 as u64,
    {
        FixedReg { allow_0: a0 as u64, allow_1: a1 as u64 }
    }

    /// Commit value of `value` under this fixed-bit setting.
    pub fn mask_u64(&self, value: u64) -> (r: u64)
        ensures
            r == spec_mask(*self, value),
    {
        (value & self.allow_1) | self.allow_0
    }
}

/// Fixed-bit masking settles after one application: committing an
/// already-masked value changes nothing.
pub proof fn lemma_mask_idempotent(f: FixedReg, v: u64)
    ensures
        spec_mask(f, spec_mask(f, v)) == spec_mask(f, v),
{
    let a0 = f.allow_0;
    let a1 = f.allow_1;
    assert(((((v & a1) | a0) & a1) | a0) == ((v & a1) | a0)) by (bit_vector);
}

/// All fixed-bit settings the platform reports.
#[derive(Debug, Default, Copy, Clone, PartialEq, Eq, Structural)]
pub struct FixedRegisters {
    pub pin: FixedReg,
    pub proc1: FixedReg,
    pub proc2: FixedReg,
    pub entry: FixedReg,
    pub exit: FixedReg,
    pub cr0: FixedReg,
    pub cr4: FixedReg,
}

/// Two halves of one capability MSR read.
#[derive(Debug, Default, Copy, Clone, PartialEq, Eq, Structural)]
pub struct MsrPair {
    pub lo: u32,
    pub hi: u32,
}

/// Raw material for [`VMXInfo::init`]: the VMX capability MSR words as
/// the machine reports them.
#[derive(Debug, Default, Copy, Clone, PartialEq, Eq, Structural)]
pub struct VmxMsrWords {
    pub basic: u64,
    pub misc: u64,
    pub pin: MsrPair,
    pub proc1: MsrPair,
    pub entry: MsrPair,
    pub exit: MsrPair,
    pub true_pin: MsrPair,
    pub true_proc1: MsrPair,
    pub true_entry: MsrPair,
    pub true_exit: MsrPair,
    pub proc2: MsrPair,
    pub cr0_fixed: MsrPair,
    pub cr4_fixed: MsrPair,
    pub ept_vpid: u64,
}

#[derive(Debug, Default, Copy, Clone, PartialEq, Eq, Structural)]
pub struct VMXInfo {
    pub basic: IA32VmxBasic,
    pub misc: IA32VmxMisc,
    pub ept: IA32VmxEptVpidCap,
    pub fixed: FixedRegisters,
}

// Control-word bits checked or forced by the platform probe.
pub const PIN_PREEMPT: u64 = 0x40;

pub const PROC1_TSC: u64 = 0x8;

pub const PROC1_CR3L: u64 = 0x8000;

pub const PROC1_TPRS: u64 = 0x200000;

pub const PROC1_USIO: u64 = 0x2000000;

pub const PROC1_UMSR: u64 = 0x10000000;

pub const PROC1_PROC2: u64 = 0x80000000;

pub const PROC2_VAPIC: u64 = 0x1;

pub const PROC2_EPT: u64 = 0x2;

pub const PROC2_DT: u64 = 0x4;

pub const PROC2_RDTSCP: u64 = 0x8;

pub const PROC2_VPID: u64 = 0x20;

pub const PROC2_UGUEST: u64 = 0x80;

pub const ENTRY_LOAD_PERF: u64 = 0x2000;

pub const ENTRY_LOAD_PAT: u64 = 0x4000;

pub const ENTRY_LOAD_EFER: u64 = 0x8000;

pub const EXIT_HOST_LMODE: u64 = 0x200;

pub const EXIT_LOAD_PERF: u64 = 0x1000;

pub const EXIT_ACK_INT: u64 = 0x8000;

pub const EXIT_SAVE_PAT: u64 = 0x40000;

pub const EXIT_LOAD_PAT: u64 = 0x80000;

pub const EXIT_SAVE_EFER: u64 = 0x100000;

pub const EXIT_LOAD_EFER: u64 = 0x200000;

/// The fixed-bit probe succeeds: secondary controls, unrestricted guest,
/// descriptor-table exiting and VPID are all allowed.
pub open spec fn spec_fixed_ok(w: VmxMsrWords) -> bool {
    let chosen_proc1 = if crate::msr::bit(w.basic, 55) {
        w.true_proc1
    } else {
        w.proc1
    };
    &&& (chosen_proc1.hi as u64) & PROC1_PROC2 != 0
    &&& (w.proc2.hi as u64) & PROC2_UGUEST != 0
    &&& (w.proc2.hi as u64) & PROC2_DT != 0
    &&& (w.proc2.hi as u64) & PROC2_VPID != 0
}

/// The EPT probe succeeds over the capability word `e`, once secondary
/// controls allow EPT.
pub open spec fn spec_ept_ok(proc2_hi: u32, e: u64) -> bool {
    &&& (proc2_hi as u64) & PROC2_EPT != 0
    &&& crate::msr::bit(e, 14)
    &&& crate::msr::bit(e, 6)
    &&& crate::msr::bit(e, 32)
    &&& crate::msr::bit(e, 20)
}

impl VMXInfo {
    /// Record the basic and miscellaneous capability words; refuse a
    /// platform that cannot report INS/OUTS exits, limits VMCS addresses
    /// to 32 bits, or cannot keep the host in IA-32e mode.
    pub fn read_vmx_basic(&mut self, basic_raw: u64, misc_raw: u64) -> (r: Result<(), VmmError>)
        ensures
            final(self).ept == old(self).ept,
            final(self).fixed == old(self).fixed,
            r is Ok <==> crate::msr::bit(basic_raw, 54) && !crate::msr::bit(basic_raw, 48)
                && crate::msr::bit(misc_raw, 5),
            r is Err ==> r == Err::<(), VmmError>(VmmError::MissingVmxFeature),
            r is Ok ==> final(self).basic == IA32VmxBasic(basic_raw) && final(self).misc
                == IA32VmxMisc(misc_raw),
    {
        self.basic = IA32VmxBasic(basic_raw);
        if !self.basic.io_insn() {
            return Err(VmmError::MissingVmxFeature);
        }
        if self.basic.paddrw32() {
            return Err(VmmError::MissingVmxFeature);
        }
        self.misc = IA32VmxMisc(misc_raw);
        if !self.misc.lma() {
            return Err(VmmError::MissingVmxFeature);
        }
        Ok(())
    }

    /// Record every fixed-bit pair, taking the TRUE capability MSRs when
    /// the basic word offers them; refuse a platform without secondary
    /// controls, unrestricted guest, descriptor-table exiting or VPID.
    /// For the unrestricted guest, CR0.PE and CR0.PG are left free; for
    /// machine checks CR4.MCE is forced on.
    pub fn read_vmx_fixed(&mut self, w: &VmxMsrWords) -> (r: Result<(), VmmError>)
        requires
            old(self).basic == IA32VmxBasic(w.basic),
        ensures
            final(self).basic == old(self).basic,
            final(self).misc == old(self).misc,
            final(self).ept == old(self).ept,
            r is Ok <==> spec_fixed_ok(*w),
            r is Ok ==> {
                let chosen_pin = if crate::msr::bit(w.basic, 55) {
                    w.true_pin
                } else {
                    w.pin
                };
                let chosen_proc1 = if crate::msr::bit(w.basic, 55) {
                    w.true_proc1
                } else {
                    w.proc1
                };
                let chosen_entry = if crate::msr::bit(w.basic, 55) {
                    w.true_entry
                } else {
                    w.entry
                };
                let chosen_exit = if crate::msr::bit(w.basic, 55) {
                    w.true_exit
                } else {
                    w.exit
                };
                &&& final(self).fixed.pin.allow_0 == chosen_pin.lo as u64
                &&& final(self).fixed.pin.allow_1 == chosen_pin.hi as u64
                &&& final(self).fixed.proc1.allow_0 == chosen_proc1.lo as u64
                &&& final(self).fixed.proc1.allow_1 == chosen_proc1.hi as u64
                &&& final(self).fixed.entry.allow_0 == chosen_entry.lo as u64
                &&& final(self).fixed.entry.allow_1 == chosen_entry.hi as u64
                &&& final(self).fixed.exit.allow_0 == chosen_exit.lo as u64
                &&& final(self).fixed.exit.allow_1 == chosen_exit.hi as u64
                &&& final(self).fixed.proc2.allow_0 == w.proc2.lo as u64
                &&& final(self).fixed.proc2.allow_1 == w.proc2.hi as u64
                &&& final(self).fixed.cr0.allow_0 == (w.cr0_fixed.lo as u64) & !0x80000001u64
                &&& final(self).fixed.cr0.allow_1 == (w.cr0_fixed.hi as u64) | 0x80000001u64
                &&& final(self).fixed.cr4.allow_0 == (w.cr4_fixed.lo as u64) | 0x40u64
                &&& final(self).fixed.cr4.allow_1 == (w.cr4_fixed.hi as u64) | 0x40u64
            },
            r is Err ==> r == Err::<(), VmmError>(VmmError::MissingVmxFeature),
    {
        if self.basic.true_f1() {
            self.fixed.pin = FixedReg::from_msr64(w.true_pin.lo, w.true_pin.hi);
            self.fixed.proc1 = FixedReg::from_msr64(w.true_proc1.lo, w.true_proc1.hi);
            self.fixed.entry = FixedReg::from_msr64(w.true_entry.lo, w.true_entry.hi);
            self.fixed.exit = FixedReg::from_msr64(w.true_exit.lo, w.true_exit.hi);
        } else {
            self.fixed.pin = FixedReg::from_msr64(w.pin.lo, w.pin.hi);
            self.fixed.proc1 = FixedReg::from_msr64(w.proc1.lo, w.proc1.hi);
            self.fixed.entry = FixedReg::from_msr64(w.entry.lo, w.entry.hi);
            self.fixed.exit = FixedReg::from_msr64(w.exit.lo, w.exit.hi);
        }
        if self.fixed.proc1.allow_1 & PROC1_PROC2 == 0 {
            return Err(VmmError::MissingVmxFeature);
        }
        self.fixed.proc2 = FixedReg::from_msr64(w.proc2.lo, w.proc2.hi);
        if self.fixed.proc2.allow_1 & PROC2_UGUEST == 0 {
            return Err(VmmError::MissingVmxFeature);
        }
        if self.fixed.proc2.allow_1 & PROC2_DT == 0 {
            return Err(VmmError::MissingVmxFeature);
        }
        if self.fixed.proc2.allow_1 & PROC2_VPID == 0 {
            return Err(VmmError::MissingVmxFeature);
        }
        self.fixed.cr0 = FixedReg::from_msr32(w.cr0_fixed.lo, w.cr0_fixed.hi);
        // Unrestricted guests may clear PE and PG.
        self.fixed.cr0.allow_0 = self.fixed.cr0.allow_0 & !0x80000001u64;
        self.fixed.cr0.allow_1 = self.fixed.cr0.allow_1 | 0x80000001u64;
        self.fixed.cr4 = FixedReg::from_msr32(w.cr4_fixed.lo, w.cr4_fixed.hi);
        // Machine-check exceptions stay enabled.
        self.fixed.cr4.allow_0 = self.fixed.cr4.allow_0 | 0x40u64;
        self.fixed.cr4.allow_1 = self.fixed.cr4.allow_1 | 0x40u64;
        Ok(())
    }

    /// Record the EPT and VPID capabilities; refuse a platform without
    /// EPT, write-back EPT memory, 4-level walks, `invvpid` or `invept`.
    pub fn read_vmx_ept(&mut self, ept_raw: u64) -> (r: Result<(), VmmError>)
        ensures
            final(self).basic == old(self).basic,
            final(self).misc == old(self).misc,
            final(self).fixed == old(self).fixed,
            r is Err ==> r == Err::<(), VmmError>(VmmError::MissingVmxFeature),
            r is Ok <==> old(self).fixed.proc2.allow_1 & PROC2_EPT != 0 && crate::msr::bit(
                ept_raw,
                14,
            ) && crate::msr::bit(ept_raw, 6) && crate::msr::bit(ept_raw, 32) && crate::msr::bit(
                ept_raw,
                20,
            ),
            r is Ok ==> final(self).ept == IA32VmxEptVpidCap(ept_raw),
    {
        if self.fixed.proc2.allow_1 & PROC2_EPT == 0 {
            return Err(VmmError::MissingVmxFeature);
        }
        self.ept = IA32VmxEptVpidCap(ept_raw);
        if !self.ept.wb() {
            return Err(VmmError::MissingVmxFeature);
        }
        if !self.ept.pwl4() {
            return Err(VmmError::MissingVmxFeature);
        }
        if !self.ept.invvpid() {
            return Err(VmmError::MissingVmxFeature);
        }
        if !self.ept.invept() {
            return Err(VmmError::MissingVmxFeature);
        }
        Ok(())
    }

    /// The full platform probe over the reported MSR words: it succeeds
    /// if and only if every capability check of the three phases passes.
    pub fn init(&mut self, w: &VmxMsrWords) -> (r: Result<(), VmmError>)
        ensures
            r is Err ==> r == Err::<(), VmmError>(VmmError::MissingVmxFeature),
            r is Ok <==> crate::msr::bit(w.basic, 54) && !crate::msr::bit(w.basic, 48)
                && crate::msr::bit(w.misc, 5) && spec_fixed_ok(*w) && spec_ept_ok(
                w.proc2.hi,
                w.ept_vpid,
            ),
            r is Ok ==> final(self).basic == crate::msr::IA32VmxBasic(w.basic) && final(self).ept
                == crate::msr::IA32VmxEptVpidCap(w.ept_vpid),
    {
        self.read_vmx_basic(w.basic, w.misc)?;
        self.read_vmx_fixed(w)?;
        self.read_vmx_ept(w.ept_vpid)
    }
}

/// Exit reason word.
#[derive(Debug, Default, Copy, Clone, PartialEq, Eq, Structural)]
pub struct ExitReason(pub u32);

impl ExitReason {
    /// Basic exit reason: the low 16 bits.
    pub fn basic(&self) -> (r: u16)
        ensures
            r == self.0 as u16,
    {
        self.0 as u16
    }

    pub fn entry(&self) -> (r: bool)
        ensures
            r == (self.0 & 0x80000000 != 0),
    {
        self.0 & 0x80000000 != 0
    }
}

/// Kind of a vectored event, as encoded in interruption information.
#[derive(Debug, Copy, Clone, PartialEq, Eq, Structural)]
pub enum EventType {
    HardInt,
    Reserved,
    NMI,
    HardExcp,
    SoftInt,
    PSExcp,
    SoftExcp,
    Other,
}

impl EventType {
    /// Decode the 3-bit event kind.
    pub fn try_from(kind: u8) -> (r: Result<EventType, u8>)
        ensures
            r == match kind {
                0u8 => Ok::<EventType, u8>(EventType::HardInt),
                1u8 => Ok::<EventType, u8>(EventType::Reserved),
                2u8 => Ok::<EventType, u8>(EventType::NMI),
                3u8 => Ok::<EventType, u8>(EventType::HardExcp),
                4u8 => Ok::<EventType, u8>(EventType::SoftInt),
                5u8 => Ok::<EventType, u8>(EventType::PSExcp),
                6u8 => Ok::<EventType, u8>(EventType::SoftExcp),
                7u8 => Ok::<EventType, u8>(EventType::Other),
                n => Err::<EventType, u8>(n),
            },
    {
        match kind {
            0 => Ok(EventType::HardInt),
            1 => Ok(EventType::Reserved),
            2 => Ok(EventType::NMI),
            3 => Ok(EventType::HardExcp),
            4 => Ok(EventType::SoftInt),
            5 => Ok(EventType::PSExcp),
            6 => Ok(EventType::SoftExcp),
            7 => Ok(EventType::Other),
            n => Err(n),
        }
    }
}

/// Interruption information word of a VM-exit or VM-entry.
#[derive(Debug, Default, Copy, Clone, PartialEq, Eq, Structural)]
pub struct ExitInfoInterrupt(pub u32);

impl ExitInfoInterrupt {
    /// Vector, bits 0..8.
    pub fn vector(&self) -> (r: u8)
        ensures
            r == self.0 as u8,
    {
        self.0 as u8
    }

    /// Event kind, bits 8..11.
    pub fn kind(&self) -> (r: u8)
        ensures
            r == ((self.0 >> 8) & 7) as u8,
    {
        ((self.0 >> 8) & 7) as u8
    }

    /// An error code is delivered.
    pub fn v_err(&self) -> (r: bool)
        ensures
            r == (self.0 & 0x800 != 0),
    {
        self.0 & 0x800 != 0
    }

    /// The word is valid.
    pub fn v(&self) -> (r: bool)
        ensures
            r == (self.0 & 0x80000000 != 0),
    {
        self.0 & 0x80000000 != 0
    }
}

// Pre-computed VMCS segment access-rights words.
pub const SEG_ATTR_CODE_32_R0: u32 = 0xc09b;

pub const SEG_ATTR_CODE_16_R0: u32 = 0x809b;

pub const SEG_ATTR_CODE_16_R0_CO: u32 = 0x809f;

pub const SEG_ATTR_CODE_16_R1_CO: u32 = 0x80bf;

pub const SEG_ATTR_CODE_16_R3: u32 = 0x80fb;

pub const SEG_ATTR_DATA_32_R0: u32 = 0xc093;

pub const SEG_ATTR_DATA_16_R0: u32 = 0x8093;

pub const SEG_ATTR_DATA_16_R1: u32 = 0x80b3;

pub const SEG_ATTR_DATA_16_R3: u32 = 0x80f3;

pub const SEG_ATTR_TSS_32: u32 = 0x8b;

pub const SEG_ATTR_UNUSABLE: u32 = 0x10000;

/// Segment access rights, as read back from the VMCS.
#[derive(Debug, Default, Copy, Clone, PartialEq, Eq, Structural)]
pub struct SegAttr(pub u32);

impl SegAttr {
    /// Default operation size.
    pub fn d(&self) -> (r: bool)
        ensures
            r == (self.0 & 0x4000 != 0),
    {
        self.0 & 0x4000 != 0
    }

    /// Long-mode code segment.
    pub fn l(&self) -> (r: bool)
        ensures
            r == (self.0 & 0x2000 != 0),
    {
        self.0 & 0x2000 != 0
    }

    /// Unusable segment.
    pub fn u(&self) -> (r: bool)
        ensures
            r == (self.0 & 0x10000 != 0),
    {
        self.0 & 0x10000 != 0
    }
}

} // verus!
