//! The guest RFLAGS word, with the architectural must-be-zero and
//! must-be-one bits enforced on every store.

use vstd::prelude::*;

use crate::utils::RawValue;

verus! {

#[derive(Debug, Copy, Clone, PartialEq, Eq, Structural)]
pub struct Rflags(pub u64);

/// Clear the reserved must-be-zero bits (3, 5, 15, 22..64) and force the
/// must-be-one bit 1.
pub open spec fn spec_rflags_filter(x: u64) -> u64 {
    (x & 0x3f7fd7) | 2
}

impl Rflags {
    pub fn filter(x: u64) -> (r: u64)
        ensures
            r == spec_rflags_filter(x),
    {
        proof {
            // Bits 3, 5, 15 and 22..64 are reserved.
            assert(!0xffffffffffc08028u64 == 0x3f7fd7u64) by (bit_vector);
        }
        let mbz: u64 = 0xffffffffffc08028;
        let mbo: u64 = 2;
        (x & !mbz) | mbo
    }

    pub fn as_u16(&self) -> (r: u16)
        ensures
            r == self.0 as u16,
    {
        self.0 as u16
    }

    /// Trap flag, bit 8.
    pub fn tf(&self) -> (r: bool)
        ensures
            r == (self.0 & 0x100 != 0),
    {
        self.0 & 0x100 != 0
    }

    pub fn set_tf(&mut self, v: bool)
        ensures
            final(self).0 == if v {
                old(self).0 | 0x100
            } else {
                old(self).0 & !0x100u64
            },
    {
        if v {
            self.0 = self.0 | 0x100;
        } else {
            self.0 = self.0 & !0x100u64;
        }
    }

    /// Interrupt enable flag, bit 9.
    pub fn it(&self) -> (r: bool)
        ensures
            r == (self.0 & 0x200 != 0),
    {
        self.0 & 0x200 != 0
    }

    pub fn set_it(&mut self, v: bool)
        ensures
            final(self).0 == if v {
                old(self).0 | 0x200
            } else {
                old(self).0 & !0x200u64
            },
    {
        if v {
            self.0 = self.0 | 0x200;
        } else {
            self.0 = self.0 & !0x200u64;
        }
    }

    /// Resume flag, bit 16.
    pub fn rf(&self) -> (r: bool)
        ensures
            r == (self.0 & 0x10000 != 0),
    {
        self.0 & 0x10000 != 0
    }

    pub fn set_rf(&mut self, v: bool)
        ensures
            final(self).0 == if v {
                old(self).0 | 0x10000
            } else {
                old(self).0 & !0x10000u64
            },
    {
        if v {
            self.0 = self.0 | 0x10000;
        } else {
            self.0 = self.0 & !0x10000u64;
        }
    }

    /// Virtual-8086 flag, bit 17.
    pub fn vm(&self) -> (r: bool)
        ensures
            r == (self.0 & 0x20000 != 0),
    {
        self.0 & 0x20000 != 0
    }

    /// Alignment check flag, bit 18.
    pub fn ac(&self) -> (r: bool)
        ensures
            r == (self.0 & 0x40000 != 0),
    {
        self.0 & 0x40000 != 0
    }

    pub fn set_ac(&mut self, v: bool)
        ensures
            final(self).0 == if v {
                old(self).0 | 0x40000
            } else {
                old(self).0 & !0x40000u64
            },
    {
        if v {
            self.0 = self.0 | 0x40000;
        } else {
            self.0 = self.0 & !0x40000u64;
        }
    }
}

impl Default for Rflags {
    /// The architectural reset value: only the must-be-one bit set.
    fn default() -> (r: Rflags)
        ensures
            r.0 == 2,
    {
        Rflags(2)
    }
}

impl RawValue for Rflags {
    open spec fn view64(&self) -> u64 {
        self.0
    }

    open spec fn trunc(v: u64) -> u64 {
        spec_rflags_filter(v)
    }

    fn from_u32(x: u32) -> (r: Rflags) {
        Rflags(Rflags::filter(x as u64))
    }

    fn as_u64(&self) -> (r: u64) {
        self.0
    }

    fn update_u64(&mut self, v: u64) {
        self.0 = Rflags::filter(v);
    }
}

} // verus!
