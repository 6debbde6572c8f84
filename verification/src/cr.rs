//! Control register words.

use vstd::prelude::*;

use crate::utils::RawValue;

verus! {

#[derive(Debug, Default, Copy, Clone, PartialEq, Eq, Structural)]
pub struct Cr0(pub u64);

impl Cr0 {
    pub fn pe(&self) -> (r: bool)
        ensures
            r == (self.0 & 1 != 0),
    {
        self.0 & 1 != 0
    }

    pub fn set_pe(&mut self, v: bool)
        ensures
            final(self).0 == if v {
                old(self).0 | 1
            } else {
                old(self).0 & !1u64
            },
    {
        if v {
            self.0 = self.0 | 1;
        } else {
            self.0 = self.0 & !1u64;
        }
    }

    pub fn pg(&self) -> (r: bool)
        ensures
            r == (self.0 & 0x80000000 != 0),
    {
        self.0 & 0x80000000 != 0
    }

    pub fn set_pg(&mut self, v: bool)
        ensures
            final(self).0 == if v {
                old(self).0 | 0x80000000
            } else {
                old(self).0 & !0x80000000u64
            },
    {
        if v {
            self.0 = self.0 | 0x80000000;
        } else {
            self.0 = self.0 & !0x80000000u64;
        }
    }
}

#[derive(Debug, Default, Copy, Clone, PartialEq, Eq, Structural)]
pub struct Cr3(pub u64);

impl Cr3 {
    pub fn pwt(&self) -> (r: bool)
        ensures
            r == (self.0 & 8 != 0),
    {
        self.0 & 8 != 0
    }

    pub fn pcd(&self) -> (r: bool)
        ensures
            r == (self.0 & 16 != 0),
    {
        self.0 & 16 != 0
    }

    pub fn addr(&self) -> (r: u64)
        ensures
            r == (self.0 >> 12) & 0xffffffffff,
    {
        (self.0 >> 12) & 0xffffffffff
    }
}

#[derive(Debug, Default, Copy, Clone, PartialEq, Eq, Structural)]
pub struct Cr4(pub u64);

impl Cr4 {
    pub fn pae(&self) -> (r: bool)
        ensures
            r == (self.0 & 0x20 != 0),
    {
        self.0 & 0x20 != 0
    }

    pub fn set_pae(&mut self, v: bool)
        ensures
            final(self).0 == if v {
                old(self).0 | 0x20
            } else {
                old(self).0 & !0x20u64
            },
    {
        if v {
            self.0 = self.0 | 0x20;
        } else {
            self.0 = self.0 & !0x20u64;
        }
    }

    pub fn mce(&self) -> (r: bool)
        ensures
            r == (self.0 & 0x40 != 0),
    {
        self.0 & 0x40 != 0
    }

    pub fn set_mce(&mut self, v: bool)
        ensures
            final(self).0 == if v {
                old(self).0 | 0x40
            } else {
                old(self).0 & !0x40u64
            },
    {
        if v {
            self.0 = self.0 | 0x40;
        } else {
            self.0 = self.0 & !0x40u64;
        }
    }

    pub fn vmxe(&self) -> (r: bool)
        ensures
            r == (self.0 & 0x2000 != 0),
    {
        self.0 & 0x2000 != 0
    }
}

impl RawValue for Cr0 {
    open spec fn view64(&self) -> u64 {
        self.0
    }

    open spec fn trunc(v: u64) -> u64 {
        v
    }

    fn from_u32(x: u32) -> (r: Cr0) {
        Cr0(x as u64)
    }

    fn as_u64(&self) -> (r: u64) {
        self.0
    }

    fn update_u64(&mut self, v: u64) {
        self.0 = v;
    }
}

impl RawValue for Cr3 {
    open spec fn view64(&self) -> u64 {
        self.0
    }

    open spec fn trunc(v: u64) -> u64 {
        v
    }

    fn from_u32(x: u32) -> (r: Cr3) {
        Cr3(x as u64)
    }

    fn as_u64(&self) -> (r: u64) {
        self.0
    }

    fn update_u64(&mut self, v: u64) {
        self.0 = v;
    }
}

impl RawValue for Cr4 {
    open spec fn view64(&self) -> u64 {
        self.0
    }

    open spec fn trunc(v: u64) -> u64 {
        v
    }

    fn from_u32(x: u32) -> (r: Cr4) {
        Cr4(x as u64)
    }

    fn as_u64(&self) -> (r: u64) {
        self.0
    }

    fn update_u64(&mut self, v: u64) {
        self.0 = v;
    }
}

} // verus!
