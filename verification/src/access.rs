//! The VMCS mirror's field cells: a cached value, the Intel encoding, and
//! per-field read/dirty bits, with lazy `vmread`/`vmwrite` access.
//!
//! Three cell kinds exist: plain fields, fixed-bit-masked control fields
//! that commit `(value & allow_1) | allow_0`, and the fake CR2/DR6 cells
//! that live in control registers rather than the VMCS.

use vstd::prelude::*;

use crate::enc::{GUEST_STATE_CR2, GUEST_STATE_DR6};
use crate::regs::{spec_mask, FixedReg};
use crate::vmx::{vmread, vmwrite, Region};
use crate::VmmError;

verus! {

/// Field encoding word; the architecturally reserved bits 15 and 16 hold
/// the mirror's read and dirty marks and are clear whenever the encoding
/// reaches the hardware.
#[derive(Debug, Default, Copy, Clone, PartialEq, Eq, Structural)]
pub struct Encoding(pub u32);

impl Encoding {
    pub fn as_u64(&self) -> (r: u64)
        ensures
            r == self.0 as u64,
    {
        self.0 as u64
    }

    /// The value was read from the hardware since the last flush.
    pub fn read(&self) -> (r: bool)
        ensures
            r == (self.0 & 0x8000 != 0),
    {
        self.0 & 0x8000 != 0
    }

    pub fn set_read(&mut self, v: bool)
        ensures
            final(self).0 == if v {
                old(self).0 | 0x8000
            } else {
                old(self).0 & !0x8000u32
            },
    {
        if v {
            self.0 = self.0 | 0x8000;
        } else {
            self.0 = self.0 & !0x8000u32;
        }
    }

    /// The cached value must be written back.
    pub fn dirty(&self) -> (r: bool)
        ensures
            r == (self.0 & 0x10000 != 0),
    {
        self.0 & 0x10000 != 0
    }

    pub fn set_dirty(&mut self, v: bool)
        ensures
            final(self).0 == if v {
                old(self).0 | 0x10000
            } else {
                old(self).0 & !0x10000u32
            },
    {
        if v {
            self.0 = self.0 | 0x10000;
        } else {
            self.0 = self.0 & !0x10000u32;
        }
    }
}

/// Stripping the mirror marks is stable: masking them away twice is the
/// same as once.
pub proof fn lemma_mark_mask_stable()
    by (bit_vector)
    ensures
        forall|e: u32|
            (#[trigger] (e & !0x8000u32 & !0x10000u32)) & !0x8000u32 & !0x10000u32 == e
                & !0x8000u32 & !0x10000u32,
{
}

/// The arithmetic of the two mirror marks, gathered in one place.
pub proof fn lemma_mark_bits(e: u32)
    by (bit_vector)
    ensures
        e & 0x8000 != 0 ==> e | 0x8000 == e,
        (e & !0x8000u32) & 0x10000 == e & 0x10000,
        (e & !0x8000u32) & !0x10000u32 == e & !0x8000u32 & !0x10000u32,
        e & 0x10000 == 0 ==> (e & !0x8000u32) == e & !0x8000u32 & !0x10000u32,
        (e | 0x8000 | 0x10000) & 0x10000 != 0,
        e & 0x8000 != 0 ==> (e | 0x8000 | 0x10000) & 0x8000 != 0,
        (e as u64) & 0x8000 != 0 <==> e & 0x8000 != 0,
{
}

/// A plain mirrored field.
#[derive(Debug, Default, Copy, Clone, PartialEq, Eq, Structural)]
pub struct Field {
    pub value: u64,
    pub encoding: Encoding,
}

impl Field {
    /// Assign the Intel encoding, clearing the mirror marks.
    pub fn set_encoding(&mut self, v: u32)
        ensures
            *final(self) == (Field { encoding: Encoding(v), ..*old(self) }),
    {
        self.encoding = Encoding(v);
    }

    /// The value a flush would hand to the hardware.
    pub fn get_field_value(&self) -> (r: u64)
        ensures
            r == self.value,
    {
        self.value
    }

    pub fn set_field_value(&mut self, v: u64)
        ensures
            *final(self) == (Field { value: v, ..*old(self) }),
    {
        self.value = v;
    }

    /// Pull the value from the hardware once; later reads use the cache.
    pub fn read(&mut self, hw: &Region) -> (r: Result<(), VmmError>)
        ensures
            r is Ok ==> final(self).encoding.0 == old(self).encoding.0 | 0x8000,
            r is Err ==> *final(self) == *old(self),
            old(self).encoding.0 & 0x8000 != 0 ==> r is Ok && final(self).value == old(
                self,
            ).value,
            old(self).encoding.0 & 0x8000 == 0 ==> match hw.spec_field(old(self).encoding.0 as u64) {
                Some(v) => r is Ok && final(self).value == v,
                None => r is Err,
            },
    {
        if !self.encoding.read() {
            let v = vmread(hw, self.encoding.as_u64())?;
            self.value = v;
            self.encoding.set_read(true);
        } else {
            proof {
                let e = self.encoding.0;
                lemma_mark_bits(e);
            }
        }
        Ok(())
    }

    /// Mark the cached value as modified (and as read: it no longer needs
    /// to be fetched).
    pub fn dirty(&mut self)
        ensures
            final(self).value == old(self).value,
            final(self).encoding.0 == if old(self).encoding.0 & 0x10000 == 0 {
                old(self).encoding.0 | 0x8000 | 0x10000
            } else {
                old(self).encoding.0
            },
    {
        if !self.encoding.dirty() {
            if !self.encoding.read() {
                self.encoding.set_read(true);
            } else {
                proof {
                    let e = self.encoding.0;
                    lemma_mark_bits(e);
                }
            }
            self.encoding.set_dirty(true);
        }
    }

    /// Drop the mirror marks without touching the hardware.
    pub fn clear(&mut self)
        ensures
            final(self).value == old(self).value,
            final(self).encoding.0 == old(self).encoding.0 & !0x8000u32 & !0x10000u32,
    {
        self.encoding.set_read(false);
        self.encoding.set_dirty(false);
    }

    /// Write the cached value back unconditionally.
    pub fn force_flush(&self, hw: &mut Region) -> (r: Result<(), VmmError>)
        ensures
            r is Ok,
            final(hw).revision_id == old(hw).revision_id,
            final(hw).cr2 == old(hw).cr2,
            final(hw).dr6 == old(hw).dr6,
            final(hw).spec_field(self.encoding.0 as u64) == Some(self.value),
            forall|k: u64|
                k != self.encoding.0 as u64 ==> final(hw).spec_field(k) == old(hw).spec_field(k),
    {
        vmwrite(hw, self.get_field_value(), self.encoding.as_u64());
        Ok(())
    }

    /// Drop the read mark, and write the value back when it is dirty.
    pub fn flush(&mut self, hw: &mut Region) -> (r: Result<(), VmmError>)
        ensures
            r is Ok,
            final(self).value == old(self).value,
            final(self).encoding.0 == old(self).encoding.0 & !0x8000u32 & !0x10000u32,
            final(hw).revision_id == old(hw).revision_id,
            final(hw).cr2 == old(hw).cr2,
            final(hw).dr6 == old(hw).dr6,
            old(self).encoding.0 & 0x10000 != 0 ==> ({
                let k0 = (old(self).encoding.0 & !0x8000u32 & !0x10000u32) as u64;
                &&& final(hw).spec_field(k0) == Some(old(self).value)
                &&& forall|k: u64| k != k0 ==> final(hw).spec_field(k) == old(hw).spec_field(k)
            }),
            old(self).encoding.0 & 0x10000 == 0 ==> *final(hw) == *old(hw),
    {
        self.encoding.set_read(false);
        if self.encoding.dirty() {
            proof {
                let e = old(self).encoding.0;
                lemma_mark_bits(e);
            }
            self.encoding.set_dirty(false);
            vmwrite(hw, self.get_field_value(), self.encoding.as_u64());
        } else {
            proof {
                let e = old(self).encoding.0;
                lemma_mark_bits(e);
            }
        }
        Ok(())
    }

    /// Current value, fetched from the hardware when not yet cached.
    pub fn as_ref(&mut self, hw: &Region) -> (r: Result<u64, VmmError>)
        ensures
            r is Ok ==> final(self).encoding.0 == old(self).encoding.0 | 0x8000,
            r is Err ==> *final(self) == *old(self),
            r matches Ok(v) ==> v == final(self).value,
            old(self).encoding.0 & 0x8000 != 0 ==> r == Ok::<u64, VmmError>(old(self).value)
                && *final(self) == *old(self),
    {
        proof {
            let e = old(self).encoding.0;
            lemma_mark_bits(e);
        }
        self.read(hw)?;
        Ok(self.get_field_value())
    }

    /// Replace the value, marking the field read and dirty.
    pub fn as_mut_set(&mut self, v: u64)
        ensures
            final(self).value == v,
            final(self).encoding.0 == if old(self).encoding.0 & 0x10000 == 0 {
                old(self).encoding.0 | 0x8000 | 0x10000
            } else {
                old(self).encoding.0
            },
            final(self).encoding.0 & 0x10000 != 0,
    {
        proof {
            let e = old(self).encoding.0;
            lemma_mark_bits(e);
        }
        self.dirty();
        self.value = v;
    }
}

/// A control field under VMX fixed-bit masking: the committed value is
/// `(value & allow_1) | allow_0`.
#[derive(Debug, Default, Copy, Clone, PartialEq, Eq, Structural)]
pub struct FixedField {
    pub value: u64,
    pub fixed: FixedReg,
    pub encoding: Encoding,
}

impl FixedField {
    pub fn set_encoding(&mut self, v: u32)
        ensures
            *final(self) == (FixedField { encoding: Encoding(v), ..*old(self) }),
    {
        self.encoding = Encoding(v);
    }

    pub fn fixed(&self) -> (r: FixedReg)
        ensures
            r == self.fixed,
    {
        self.fixed
    }

    /// The value a flush hands to the hardware: fixed-bit masked.
    pub fn get_field_value(&self) -> (r: u64)
        ensures
            r == spec_mask(self.fixed, self.value),
    {
        self.fixed.mask_u64(self.value)
    }

    pub fn set_field_value(&mut self, v: u64)
        ensures
            *final(self) == (FixedField { value: v, ..*old(self) }),
    {
        self.value = v;
    }

    /// Install the fixed-bit setting and settle the cached value on its
    /// committed form.
    pub fn set_fixed(&mut self, fixed: FixedReg)
        ensures
            final(self).encoding == old(self).encoding,
            final(self).fixed == fixed,
            final(self).value == spec_mask(fixed, old(self).value),
    {
        self.fixed = fixed;
        let fixed_value = self.get_field_value();
        self.value = fixed_value;
    }

    /// Write the masked value back unconditionally.
    pub fn force_flush(&self, hw: &mut Region) -> (r: Result<(), VmmError>)
        ensures
            r is Ok,
            final(hw).revision_id == old(hw).revision_id,
            final(hw).cr2 == old(hw).cr2,
            final(hw).dr6 == old(hw).dr6,
            final(hw).spec_field(self.encoding.0 as u64) == Some(
                spec_mask(self.fixed, self.value),
            ),
            forall|k: u64|
                k != self.encoding.0 as u64 ==> final(hw).spec_field(k) == old(hw).spec_field(k),
    {
        vmwrite(hw, self.get_field_value(), self.encoding.as_u64());
        Ok(())
    }

    /// Drop the read mark, and write the masked value back when dirty.
    pub fn flush(&mut self, hw: &mut Region) -> (r: Result<(), VmmError>)
        ensures
            r is Ok,
            final(self).value == old(self).value,
            final(self).fixed == old(self).fixed,
            final(self).encoding.0 == old(self).encoding.0 & !0x8000u32 & !0x10000u32,
            final(hw).revision_id == old(hw).revision_id,
            final(hw).cr2 == old(hw).cr2,
            final(hw).dr6 == old(hw).dr6,
            old(self).encoding.0 & 0x10000 != 0 ==> ({
                let k0 = (old(self).encoding.0 & !0x8000u32 & !0x10000u32) as u64;
                &&& final(hw).spec_field(k0) == Some(spec_mask(old(self).fixed, old(self).value))
                &&& forall|k: u64| k != k0 ==> final(hw).spec_field(k) == old(hw).spec_field(k)
            }),
            old(self).encoding.0 & 0x10000 == 0 ==> *final(hw) == *old(hw),
    {
        self.encoding.set_read(false);
        proof {
            let e = old(self).encoding.0;
            lemma_mark_bits(e);
        }
        if self.encoding.dirty() {
            self.encoding.set_dirty(false);
            vmwrite(hw, self.get_field_value(), self.encoding.as_u64());
        }
        Ok(())
    }

    /// Cached value (not masked), fetched from the hardware when needed.
    pub fn as_ref(&mut self, hw: &Region) -> (r: Result<u64, VmmError>)
        ensures
            final(self).fixed == old(self).fixed,
            r is Ok ==> final(self).encoding.0 == old(self).encoding.0 | 0x8000,
            r is Err ==> *final(self) == *old(self),
            r matches Ok(v) ==> v == final(self).value,
            old(self).encoding.0 & 0x8000 != 0 ==> r == Ok::<u64, VmmError>(old(self).value)
                && *final(self) == *old(self),
    {
        if !self.encoding.read() {
            let v = vmread(hw, self.encoding.as_u64())?;
            self.value = v;
            self.encoding.set_read(true);
        } else {
            proof {
                let e = self.encoding.0;
                lemma_mark_bits(e);
            }
        }
        Ok(self.value)
    }
}

/// A fake field: CR2 and DR6 are not true VMCS fields and move through
/// control-register instructions instead.
#[derive(Debug, Default, Copy, Clone, PartialEq, Eq, Structural)]
pub struct FakeField {
    pub value: u64,
    pub encoding: Encoding,
}

impl FakeField {
    pub fn set_encoding(&mut self, v: u32)
        ensures
            *final(self) == (FakeField { encoding: Encoding(v), ..*old(self) }),
    {
        self.encoding = Encoding(v);
    }

    pub fn get_field_value(&self) -> (r: u64)
        ensures
            r == self.value,
    {
        self.value
    }

    pub fn set_field_value(&mut self, v: u64)
        ensures
            *final(self) == (FakeField { value: v, ..*old(self) }),
    {
        self.value = v;
    }

    /// Read the register this cell stands for.  Fails on an encoding that
    /// names no fake field.
    pub fn force_read(&mut self, hw: &Region) -> (r: Result<(), VmmError>)
        ensures
            final(self).encoding == old(self).encoding,
            old(self).encoding.0 == GUEST_STATE_CR2 ==> r is Ok && final(self).value == hw.cr2,
            old(self).encoding.0 == GUEST_STATE_DR6 ==> r is Ok && final(self).value == hw.dr6,
            old(self).encoding.0 != GUEST_STATE_CR2 && old(self).encoding.0 != GUEST_STATE_DR6
                ==> r is Err && final(self).value == old(self).value,
    {
        let enc = self.encoding.0;
        if enc == GUEST_STATE_CR2 {
            self.value = hw.cr2;
            Ok(())
        } else if enc == GUEST_STATE_DR6 {
            self.value = hw.dr6;
            Ok(())
        } else {
            Err(VmmError::BadFakeField)
        }
    }

    /// Write the register this cell stands for.
    pub fn force_flush(&self, hw: &mut Region) -> (r: Result<(), VmmError>)
        ensures
            final(hw).revision_id == old(hw).revision_id,
            final(hw).fields@ == old(hw).fields@,
            self.encoding.0 == GUEST_STATE_CR2 ==> r is Ok && final(hw).cr2 == self.value
                && final(hw).dr6 == old(hw).dr6,
            self.encoding.0 == GUEST_STATE_DR6 ==> r is Ok && final(hw).dr6 == self.value
                && final(hw).cr2 == old(hw).cr2,
            self.encoding.0 != GUEST_STATE_CR2 && self.encoding.0 != GUEST_STATE_DR6 ==> r is Err
                && *final(hw) == *old(hw),
    {
        let enc = self.encoding.0;
        if enc == GUEST_STATE_CR2 {
            hw.cr2 = self.get_field_value();
            Ok(())
        } else if enc == GUEST_STATE_DR6 {
            hw.dr6 = self.get_field_value();
            Ok(())
        } else {
            Err(VmmError::BadFakeField)
        }
    }

    /// Drop the read mark, and write the register back when dirty.
    pub fn flush(&mut self, hw: &mut Region) -> (r: Result<(), VmmError>)
        requires
            old(self).encoding.0 & !0x8000u32 & !0x10000u32 == GUEST_STATE_CR2 || old(
                self,
            ).encoding.0 & !0x8000u32 & !0x10000u32 == GUEST_STATE_DR6,
        ensures
            r is Ok,
            final(self).value == old(self).value,
            final(self).encoding.0 == old(self).encoding.0 & !0x8000u32 & !0x10000u32,
            final(hw).revision_id == old(hw).revision_id,
            final(hw).fields@ == old(hw).fields@,
            old(self).encoding.0 & 0x10000 == 0 ==> *final(hw) == *old(hw),
            old(self).encoding.0 & !0x8000u32 & !0x10000u32 == GUEST_STATE_CR2 && old(
                self,
            ).encoding.0 & 0x10000 != 0 ==> final(hw).cr2 == old(self).value && final(hw).dr6
                == old(hw).dr6,
            old(self).encoding.0 & !0x8000u32 & !0x10000u32 == GUEST_STATE_DR6 && old(
                self,
            ).encoding.0 & 0x10000 != 0 ==> final(hw).dr6 == old(self).value && final(hw).cr2
                == old(hw).cr2,
    {
        self.encoding.set_read(false);
        proof {
            let e = old(self).encoding.0;
            lemma_mark_bits(e);
        }
        if self.encoding.dirty() {
            self.encoding.set_dirty(false);
            self.force_flush(hw)?;
        }
        Ok(())
    }
}

} // verus!
