//! Memory-type range registers, read once at boot and used to give the
//! guest EPT the same memory types as the host sees.

use vstd::prelude::*;

verus! {

/// `IA32_MTRR_PHYSBASEn`.
#[derive(Debug, Default, Copy, Clone, PartialEq, Eq, Structural)]
pub struct IA32MTRRPhysBase(pub u64);

impl IA32MTRRPhysBase {
    /// Memory type of the range.
    pub fn kind(&self) -> (r: u64)
        ensures
            r == self.0 & 0xff,
    {
        self.0 & 0xff
    }

    /// Base address bits 12..64.
    pub fn base(&self) -> (r: u64)
        ensures
            r == self.0 >> 12,
    {
        self.0 >> 12
    }
}

/// `IA32_MTRR_PHYSMASKn`.
#[derive(Debug, Default, Copy, Clone, PartialEq, Eq, Structural)]
pub struct IA32MTRRPhysMask(pub u64);

impl IA32MTRRPhysMask {
    /// The pair is valid.
    pub fn v(&self) -> (r: bool)
        ensures
            r == (self.0 & 0x800 != 0),
    {
        self.0 & 0x800 != 0
    }

    /// Mask bits 12..64.
    pub fn mask(&self) -> (r: u64)
        ensures
            r == self.0 >> 12,
    {
        self.0 >> 12
    }
}

/// `IA32_MTRRCAP`.
#[derive(Debug, Default, Copy, Clone, PartialEq, Eq, Structural)]
pub struct IA32MTRRCap(pub u64);

impl IA32MTRRCap {
    /// Number of variable-range register pairs.
    pub fn cnt(&self) -> (r: u8)
        ensures
            r == (self.0 & 0xff) as u8,
    {
        (self.0 & 0xff) as u8
    }

    /// Fixed-range registers are supported.
    pub fn fix(&self) -> (r: bool)
        ensures
            r == (self.0 & 0x100 != 0),
    {
        self.0 & 0x100 != 0
    }

    pub fn wc(&self) -> (r: bool)
        ensures
            r == (self.0 & 0x400 != 0),
    {
        self.0 & 0x400 != 0
    }

    pub fn smrr(&self) -> (r: bool)
        ensures
            r == (self.0 & 0x800 != 0),
    {
        self.0 & 0x800 != 0
    }
}

/// `IA32_MTRR_DEF_TYPE`.
#[derive(Debug, Default, Copy, Clone, PartialEq, Eq, Structural)]
pub struct IA32MTRRDef(pub u64);

impl IA32MTRRDef {
    /// Default memory type.
    pub fn kind(&self) -> (r: u64)
        ensures
            r == self.0 & 0xff,
    {
        self.0 & 0xff
    }

    /// Fixed-range registers are enabled.
    pub fn fe(&self) -> (r: bool)
        ensures
            r == (self.0 & 0x400 != 0),
    {
        self.0 & 0x400 != 0
    }

    /// MTRRs are enabled.
    pub fn e(&self) -> (r: bool)
        ensures
            r == (self.0 & 0x800 != 0),
    {
        self.0 & 0x800 != 0
    }
}

#[derive(Debug, Default, Copy, Clone, PartialEq, Eq, Structural)]
pub struct MTRRInfo {
    pub cap: IA32MTRRCap,
    pub def: IA32MTRRDef,
}

impl MTRRInfo {
    /// Record the capability and default-type MSR words.
    pub fn init(&mut self, cap_raw: u64, def_raw: u64)
        ensures
            final(self).cap == IA32MTRRCap(cap_raw),
            final(self).def == IA32MTRRDef(def_raw),
    {
        self.cap = IA32MTRRCap(cap_raw);
        self.def = IA32MTRRDef(def_raw);
    }
}

} // verus!
