//! Small arithmetic helpers and raw register words.

use vstd::prelude::*;

verus! {

/// `addr` is a multiple of the power-of-two size `sz`.
pub open spec fn spec_aligned(addr: u64, sz: u64) -> bool {
    addr & ((sz - 1) as u64) == 0
}

/// `addr` rounded down to a multiple of the power-of-two size `sz`.
pub open spec fn spec_align(addr: u64, sz: u64) -> u64 {
    addr & !((sz - 1) as u64)
}

/// `sz` is a power of two.
pub open spec fn pow2(sz: u64) -> bool {
    sz != 0 && (sz & ((sz - 1) as u64)) == 0
}

pub fn aligned(addr: u64, sz: usize) -> (r: bool)
    requires
        sz >= 1,
    ensures
        r == spec_aligned(addr, sz as u64),
{
    (addr & ((sz - 1) as u64)) == 0
}

pub fn align(addr: u64, sz: usize) -> (r: u64)
    requires
        sz >= 1,
    ensures
        r == spec_align(addr, sz as u64),
{
    addr & !((sz - 1) as u64)
}

/// Rounding down never grows the address, and lands on an aligned address.
pub proof fn lemma_align_props(addr: u64, sz: u64)
    by (bit_vector)
    requires
        pow2(sz),
    ensures
        spec_align(addr, sz) <= addr,
        spec_aligned(spec_align(addr, sz), sz),
        spec_aligned(addr, sz) ==> spec_align(addr, sz) == addr,
        addr < spec_align(addr, sz) + sz,
{
}

pub fn align_next(addr: u64, sz: usize) -> (r: u64)
    requires
        sz >= 1,
        addr + sz <= u64::MAX,
    ensures
        r == spec_align((addr + sz) as u64, sz as u64),
        pow2(sz as u64) && spec_aligned(addr, sz as u64) ==> r == addr + sz,
{
    proof {
        lemma_align_next_on_aligned(addr, sz as u64);
    }
    align(addr + (sz as u64), sz)
}

/// Rounding up an already-aligned address advances it by exactly one unit.
pub proof fn lemma_align_next_on_aligned(addr: u64, sz: u64)
    by (bit_vector)
    requires
        addr + sz <= u64::MAX,
    ensures
        pow2(sz) && spec_aligned(addr, sz) ==> spec_align(
            (addr + sz) as u64,
            sz,
        ) == addr + sz,
{
}

pub fn min(a: u64, b: u64) -> (r: u64)
    ensures
        r == if a < b {
            a
        } else {
            b
        },
{
    if a < b {
        a
    } else {
        b
    }
}

/// A raw 64-bit register word.
#[derive(Copy, Clone, PartialEq, Eq, Structural, Debug)]
pub struct Raw64(pub u64);

/// A raw 32-bit register word.
#[derive(Copy, Clone, PartialEq, Eq, Structural, Debug)]
pub struct Raw32(pub u32);

/// A raw 16-bit register word.
#[derive(Copy, Clone, PartialEq, Eq, Structural, Debug)]
pub struct Raw16(pub u16);

/// A register word seen as a 64-bit value.
pub trait RawValue: Sized {
    spec fn view64(&self) -> u64;

    fn from_u32(x: u32) -> (r: Self)
        ensures
            r.view64() == Self::trunc(x as u64),
    ;

    fn as_u64(&self) -> (r: u64)
        ensures
            r == self.view64(),
    ;

    fn update_u64(&mut self, v: u64)
        ensures
            final(self).view64() == Self::trunc(v),
    ;

    /// What a stored 64-bit value becomes: truncated to the word's width.
    spec fn trunc(v: u64) -> u64;
}

impl RawValue for Raw64 {
    open spec fn view64(&self) -> u64 {
        self.0
    }

    open spec fn trunc(v: u64) -> u64 {
        v
    }

    fn from_u32(x: u32) -> (r: Raw64) {
        Raw64(x as u64)
    }

    fn as_u64(&self) -> (r: u64) {
        self.0
    }

    fn update_u64(&mut self, v: u64) {
        self.0 = v;
    }
}

impl Raw64 {
    pub fn as_u32(&self) -> (r: u32)
        ensures
            r == self.0 as u32,
    {
        self.0 as u32
    }

    pub fn as_u16(&self) -> (r: u16)
        ensures
            r == self.0 as u16,
    {
        self.0 as u16
    }

    /// Replace the low 32 bits, keeping the high half.
    pub fn update_u32(&mut self, v: u32)
        ensures
            final(self).0 == (old(self).0 & 0xffffffff00000000) | v as u64,
    {
        self.0 = self.0 & 0xffffffff00000000;
        self.0 = self.0 | v as u64;
    }
}

impl RawValue for Raw32 {
    open spec fn view64(&self) -> u64 {
        self.0 as u64
    }

    open spec fn trunc(v: u64) -> u64 {
        (v as u32) as u64
    }

    fn from_u32(x: u32) -> (r: Raw32) {
        Raw32(x)
    }

    fn as_u64(&self) -> (r: u64) {
        self.0 as u64
    }

    fn update_u64(&mut self, v: u64) {
        self.0 = v as u32;
    }
}

impl Raw32 {
    pub fn as_u16(&self) -> (r: u16)
        ensures
            r == self.0 as u16,
    {
        self.0 as u16
    }
}

impl RawValue for Raw16 {
    open spec fn view64(&self) -> u64 {
        self.0 as u64
    }

    open spec fn trunc(v: u64) -> u64 {
        (v as u16) as u64
    }

    fn from_u32(x: u32) -> (r: Raw16) {
        Raw16(x as u16)
    }

    fn as_u64(&self) -> (r: u64) {
        self.0 as u64
    }

    fn update_u64(&mut self, v: u64) {
        self.0 = v as u16;
    }
}

/// New 64-bit word after storing `right` in the low 16 bits of `left`.
pub open spec fn spec_mod16_update(left: u64, right: u16) -> u64 {
    (left & !0xffff) | right as u64
}

/// 16-bit wrapping subtraction.
pub open spec fn wrap_sub16(a: u16, b: u16) -> u16 {
    if a - b < 0 {
        (a - b + 0x10000) as u16
    } else {
        (a - b) as u16
    }
}

/// 16-bit wrapping addition.
pub open spec fn wrap_add16(a: u16, b: u16) -> u16 {
    if a + b > 0xffff {
        (a + b - 0x10000) as u16
    } else {
        (a + b) as u16
    }
}

/// 16-bit modular arithmetic on the low word of a register, the high bits
/// preserved; real-mode stack pointers wrap this way.
pub trait ArithmeticMod16: RawValue {
    fn update(&mut self, left: u64, right: u16)
        ensures
            final(self).view64() == Self::trunc(spec_mod16_update(left, right)),
    ;

    fn sub_mod16(&mut self, value: u16)
        ensures
            final(self).view64() == Self::trunc(
                spec_mod16_update(
                    old(self).view64(),
                    wrap_sub16(old(self).view64() as u16, value),
                ),
            ),
    ;

    fn add_mod16(&mut self, value: u16)
        ensures
            final(self).view64() == Self::trunc(
                spec_mod16_update(
                    old(self).view64(),
                    wrap_add16(old(self).view64() as u16, value),
                ),
            ),
    ;
}

impl ArithmeticMod16 for Raw64 {
    fn update(&mut self, left: u64, right: u16) {
        self.update_u64((left & !0xffff) | (right as u64));
    }

    fn sub_mod16(&mut self, value: u16) {
        let dst = self.as_u64();
        let res = (dst as u16).wrapping_sub(value);
        self.update(dst, res);
    }

    fn add_mod16(&mut self, value: u16) {
        let dst = self.as_u64();
        let res = (dst as u16).wrapping_add(value);
        self.update(dst, res);
    }
}

impl ArithmeticMod16 for Raw32 {
    fn update(&mut self, left: u64, right: u16) {
        self.update_u64((left & !0xffff) | (right as u64));
    }

    fn sub_mod16(&mut self, value: u16) {
        let dst = self.as_u64();
        let res = (dst as u16).wrapping_sub(value);
        self.update(dst, res);
    }

    fn add_mod16(&mut self, value: u16) {
        let dst = self.as_u64();
        let res = (dst as u16).wrapping_add(value);
        self.update(dst, res);
    }
}

} // verus!
