//! Guest CPU mode, decoded from the cached guest state.

use vstd::prelude::*;

use crate::vmcs::Guest;
use crate::vmx::Region;
use crate::VmmError;

verus! {

#[derive(Debug, Copy, Clone, PartialEq, Eq, Structural)]
pub enum CPUMode {
    Real,
    V8086,
    Protected,
    Protected32,
    Protected16,
    Long,
    Long64,
    Long32,
    Long16,
    Legacy32,
    Legacy16,
    Paging,
    Paging32,
    Paging36,
    Paging64,
}

/// The five guest fields the mode sampling reads are all cached, so no
/// hardware read is needed and none can fail.
pub open spec fn spec_mode_cached(g: Guest) -> bool {
    &&& g.ia32_efer.encoding.0 & 0x8000 != 0
    &&& g.cr0.encoding.0 & 0x8000 != 0
    &&& g.cr4.encoding.0 & 0x8000 != 0
    &&& g.rflags.encoding.0 & 0x8000 != 0
    &&& g.cs_attr.encoding.0 & 0x8000 != 0
}

/// The guest is in real mode: long mode inactive and protection off.
pub open spec fn spec_in_real(g: Guest) -> bool {
    g.ia32_efer.value & 0x400 == 0 && g.cr0.value & 1 == 0
}

/// The guest is in virtual-8086 mode.
pub open spec fn spec_in_v8086(g: Guest) -> bool {
    g.ia32_efer.value & 0x400 == 0 && g.cr0.value & 1 != 0 && g.rflags.value & 0x20000 != 0
}

/// The guest runs protected but without paging.
pub open spec fn spec_in_unpaged_prot(g: Guest) -> bool {
    g.cr0.value & 1 != 0 && g.cr0.value & 0x80000000 == 0
}

/// The mode bits sampled from the guest state.
#[derive(Debug, Copy, Clone, PartialEq, Eq, Structural)]
pub struct CPUState {
    pub lm: bool,
    pub pe: bool,
    pub pg: bool,
    pub pae: bool,
    pub vm: bool,
    pub csd: bool,
    pub csl: bool,
}

impl CPUState {
    pub fn is_prot(&self) -> (r: bool)
        ensures
            r == self.pe,
    {
        self.pe
    }

    pub fn is_prot32(&self) -> (r: bool)
        ensures
            r == (self.pe && !self.vm && self.csd),
    {
        self.is_prot() && !self.vm && self.csd
    }

    pub fn is_prot16(&self) -> (r: bool)
        ensures
            r == (self.pe && !self.vm && !self.csd),
    {
        self.is_prot() && !self.vm && !self.csd
    }

    pub fn is_long(&self) -> (r: bool)
        ensures
            r == self.lm,
    {
        self.lm
    }

    pub fn is_long64(&self) -> (r: bool)
        ensures
            r == (self.lm && self.csl),
    {
        self.is_long() && self.csl
    }

    pub fn is_long32(&self) -> (r: bool)
        ensures
            r == (self.lm && !self.csl && self.csd),
    {
        self.is_long() && !self.csl && self.csd
    }

    pub fn is_long16(&self) -> (r: bool)
        ensures
            r == (self.lm && !self.csl && !self.csd),
    {
        self.is_long() && !self.csl && !self.csd
    }

    pub fn is_real(&self) -> (r: bool)
        ensures
            r == (!self.lm && !self.pe),
    {
        !self.is_long() && !self.is_prot()
    }

    pub fn is_v8086(&self) -> (r: bool)
        ensures
            r == (!self.lm && self.pe && self.vm),
    {
        !self.is_long() && self.is_prot() && self.vm
    }

    pub fn is_legacy32(&self) -> (r: bool)
        ensures
            r == (!self.lm && self.pe && !self.vm && self.csd),
    {
        !self.is_long() && self.is_prot32()
    }

    pub fn is_legacy16(&self) -> (r: bool)
        ensures
            r == (!self.lm && self.pe && !self.vm && !self.csd),
    {
        !self.is_long() && self.is_prot16()
    }

    pub fn is_paged(&self) -> (r: bool)
        ensures
            r == self.pg,
    {
        self.pg
    }

    pub fn is_paging32(&self) -> (r: bool)
        ensures
            r == (self.pg && !self.pae && !self.lm),
    {
        self.is_paged() && !self.pae && !self.is_long()
    }

    pub fn is_paging36(&self) -> (r: bool)
        ensures
            r == (self.pg && self.pae && !self.lm),
    {
        self.is_paged() && self.pae && !self.is_long()
    }

    pub fn is_paging64(&self) -> (r: bool)
        ensures
            r == (self.pg && self.pae && self.lm),
    {
        self.is_paged() && self.pae && self.is_long()
    }

    /// Sample the guest mode bits: long-mode activity, CR0.PE/PG,
    /// CR4.PAE, RFLAGS.VM and the CS default/long bits.
    pub fn init(guest: &mut Guest, hw: &Region) -> (r: Result<CPUState, VmmError>)
        ensures
            spec_mode_cached(*old(guest)) ==> r is Ok && *final(guest) == *old(guest),
            final(guest).rsp == old(guest).rsp,
            final(guest).rip == old(guest).rip,
            final(guest).cs_sel == old(guest).cs_sel,
            final(guest).cs_base == old(guest).cs_base,
            final(guest).ss_base == old(guest).ss_base,
            final(guest).cr3 == old(guest).cr3,
            r matches Ok(s) ==> {
                &&& s.lm == (final(guest).ia32_efer.value & 0x400 != 0)
                &&& s.pe == (final(guest).cr0.value & 1 != 0)
                &&& s.pg == (final(guest).cr0.value & 0x80000000 != 0)
                &&& s.pae == (final(guest).cr4.value & 0x20 != 0)
                &&& s.vm == (final(guest).rflags.value & 0x20000 != 0)
                &&& s.csd == (final(guest).cs_attr.value & 0x4000 != 0)
                &&& s.csl == (final(guest).cs_attr.value & 0x2000 != 0)
            },
    {
        let efer = crate::msr::IA32Efer(guest.ia32_efer.as_ref(hw)?);
        let cr0v = crate::cr::Cr0(guest.cr0.as_ref(hw)?);
        let cr4v = crate::cr::Cr4(guest.cr4.as_ref(hw)?);
        let rf = crate::rflags::Rflags(guest.rflags.as_ref(hw)?);
        let av = guest.cs_attr.as_ref(hw)?;
        let attr = crate::regs::SegAttr(av as u32);
        proof {
            assert(((av as u32) & 0x4000 != 0 <==> av & 0x4000 != 0) && ((av as u32) & 0x2000
                != 0 <==> av & 0x2000 != 0) && (1u64 << 10) == 0x400) by (bit_vector);
        }
        Ok(
            CPUState {
                lm: efer.ia32_a(),
                pe: cr0v.pe(),
                pg: cr0v.pg(),
                pae: cr4v.pae(),
                vm: rf.vm(),
                csd: attr.d(),
                csl: attr.l(),
            },
        )
    }

    /// Is the guest in the asked-for mode?  The answer is the selected
    /// predicate over the sampled guest bits.
    pub fn mode(guest: &mut Guest, hw: &Region, mode: CPUMode) -> (r: Result<bool, VmmError>)
        ensures
            spec_mode_cached(*old(guest)) ==> r is Ok && *final(guest) == *old(guest),
            mode == CPUMode::Real ==> (r matches Ok(b) ==> b == ({
                let lm = final(guest).ia32_efer.value & 0x400 != 0;
                let pe = final(guest).cr0.value & 1 != 0;
                let pg = final(guest).cr0.value & 0x80000000 != 0;
                let pae = final(guest).cr4.value & 0x20 != 0;
                let vmf = final(guest).rflags.value & 0x20000 != 0;
                let csd = final(guest).cs_attr.value & 0x4000 != 0;
                let csl = final(guest).cs_attr.value & 0x2000 != 0;
                !lm && !pe
            })),
            mode == CPUMode::V8086 ==> (r matches Ok(b) ==> b == ({
                let lm = final(guest).ia32_efer.value & 0x400 != 0;
                let pe = final(guest).cr0.value & 1 != 0;
                let pg = final(guest).cr0.value & 0x80000000 != 0;
                let pae = final(guest).cr4.value & 0x20 != 0;
                let vmf = final(guest).rflags.value & 0x20000 != 0;
                let csd = final(guest).cs_attr.value & 0x4000 != 0;
                let csl = final(guest).cs_attr.value & 0x2000 != 0;
                !lm && pe && vmf
            })),
            mode == CPUMode::Protected ==> (r matches Ok(b) ==> b == ({
                let lm = final(guest).ia32_efer.value & 0x400 != 0;
                let pe = final(guest).cr0.value & 1 != 0;
                let pg = final(guest).cr0.value & 0x80000000 != 0;
                let pae = final(guest).cr4.value & 0x20 != 0;
                let vmf = final(guest).rflags.value & 0x20000 != 0;
                let csd = final(guest).cs_attr.value & 0x4000 != 0;
                let csl = final(guest).cs_attr.value & 0x2000 != 0;
                pe
            })),
            mode == CPUMode::Protected32 ==> (r matches Ok(b) ==> b == ({
                let lm = final(guest).ia32_efer.value & 0x400 != 0;
                let pe = final(guest).cr0.value & 1 != 0;
                let pg = final(guest).cr0.value & 0x80000000 != 0;
                let pae = final(guest).cr4.value & 0x20 != 0;
                let vmf = final(guest).rflags.value & 0x20000 != 0;
                let csd = final(guest).cs_attr.value & 0x4000 != 0;
                let csl = final(guest).cs_attr.value & 0x2000 != 0;
                pe && !vmf && csd
            })),
            mode == CPUMode::Protected16 ==> (r matches Ok(b) ==> b == ({
                let lm = final(guest).ia32_efer.value & 0x400 != 0;
                let pe = final(guest).cr0.value & 1 != 0;
                let pg = final(guest).cr0.value & 0x80000000 != 0;
                let pae = final(guest).cr4.value & 0x20 != 0;
                let vmf = final(guest).rflags.value & 0x20000 != 0;
                let csd = final(guest).cs_attr.value & 0x4000 != 0;
                let csl = final(guest).cs_attr.value & 0x2000 != 0;
                pe && !vmf && !csd
            })),
            mode == CPUMode::Long ==> (r matches Ok(b) ==> b == ({
                let lm = final(guest).ia32_efer.value & 0x400 != 0;
                let pe = final(guest).cr0.value & 1 != 0;
                let pg = final(guest).cr0.value & 0x80000000 != 0;
                let pae = final(guest).cr4.value & 0x20 != 0;
                let vmf = final(guest).rflags.value & 0x20000 != 0;
                let csd = final(guest).cs_attr.value & 0x4000 != 0;
                let csl = final(guest).cs_attr.value & 0x2000 != 0;
                lm
            })),
            mode == CPUMode::Long64 ==> (r matches Ok(b) ==> b == ({
                let lm = final(guest).ia32_efer.value & 0x400 != 0;
                let pe = final(guest).cr0.value & 1 != 0;
                let pg = final(guest).cr0.value & 0x80000000 != 0;
                let pae = final(guest).cr4.value & 0x20 != 0;
                let vmf = final(guest).rflags.value & 0x20000 != 0;
                let csd = final(guest).cs_attr.value & 0x4000 != 0;
                let csl = final(guest).cs_attr.value & 0x2000 != 0;
                lm && csl
            })),
            mode == CPUMode::Long32 ==> (r matches Ok(b) ==> b == ({
                let lm = final(guest).ia32_efer.value & 0x400 != 0;
                let pe = final(guest).cr0.value & 1 != 0;
                let pg = final(guest).cr0.value & 0x80000000 != 0;
                let pae = final(guest).cr4.value & 0x20 != 0;
                let vmf = final(guest).rflags.value & 0x20000 != 0;
                let csd = final(guest).cs_attr.value & 0x4000 != 0;
                let csl = final(guest).cs_attr.value & 0x2000 != 0;
                lm && !csl && csd
            })),
            mode == CPUMode::Long16 ==> (r matches Ok(b) ==> b == ({
                let lm = final(guest).ia32_efer.value & 0x400 != 0;
                let pe = final(guest).cr0.value & 1 != 0;
                let pg = final(guest).cr0.value & 0x80000000 != 0;
                let pae = final(guest).cr4.value & 0x20 != 0;
                let vmf = final(guest).rflags.value & 0x20000 != 0;
                let csd = final(guest).cs_attr.value & 0x4000 != 0;
                let csl = final(guest).cs_attr.value & 0x2000 != 0;
                lm && !csl && !csd
            })),
            mode == CPUMode::Legacy32 ==> (r matches Ok(b) ==> b == ({
                let lm = final(guest).ia32_efer.value & 0x400 != 0;
                let pe = final(guest).cr0.value & 1 != 0;
                let pg = final(guest).cr0.value & 0x80000000 != 0;
                let pae = final(guest).cr4.value & 0x20 != 0;
                let vmf = final(guest).rflags.value & 0x20000 != 0;
                let csd = final(guest).cs_attr.value & 0x4000 != 0;
                let csl = final(guest).cs_attr.value & 0x2000 != 0;
                !lm && pe && !vmf && csd
            })),
            mode == CPUMode::Legacy16 ==> (r matches Ok(b) ==> b == ({
                let lm = final(guest).ia32_efer.value & 0x400 != 0;
                let pe = final(guest).cr0.value & 1 != 0;
                let pg = final(guest).cr0.value & 0x80000000 != 0;
                let pae = final(guest).cr4.value & 0x20 != 0;
                let vmf = final(guest).rflags.value & 0x20000 != 0;
                let csd = final(guest).cs_attr.value & 0x4000 != 0;
                let csl = final(guest).cs_attr.value & 0x2000 != 0;
                !lm && pe && !vmf && !csd
            })),
            mode == CPUMode::Paging ==> (r matches Ok(b) ==> b == ({
                let lm = final(guest).ia32_efer.value & 0x400 != 0;
                let pe = final(guest).cr0.value & 1 != 0;
                let pg = final(guest).cr0.value & 0x80000000 != 0;
                let pae = final(guest).cr4.value & 0x20 != 0;
                let vmf = final(guest).rflags.value & 0x20000 != 0;
                let csd = final(guest).cs_attr.value & 0x4000 != 0;
                let csl = final(guest).cs_attr.value & 0x2000 != 0;
                pg
            })),
            mode == CPUMode::Paging32 ==> (r matches Ok(b) ==> b == ({
                let lm = final(guest).ia32_efer.value & 0x400 != 0;
                let pe = final(guest).cr0.value & 1 != 0;
                let pg = final(guest).cr0.value & 0x80000000 != 0;
                let pae = final(guest).cr4.value & 0x20 != 0;
                let vmf = final(guest).rflags.value & 0x20000 != 0;
                let csd = final(guest).cs_attr.value & 0x4000 != 0;
                let csl = final(guest).cs_attr.value & 0x2000 != 0;
                pg && !pae && !lm
            })),
            mode == CPUMode::Paging36 ==> (r matches Ok(b) ==> b == ({
                let lm = final(guest).ia32_efer.value & 0x400 != 0;
                let pe = final(guest).cr0.value & 1 != 0;
                let pg = final(guest).cr0.value & 0x80000000 != 0;
                let pae = final(guest).cr4.value & 0x20 != 0;
                let vmf = final(guest).rflags.value & 0x20000 != 0;
                let csd = final(guest).cs_attr.value & 0x4000 != 0;
                let csl = final(guest).cs_attr.value & 0x2000 != 0;
                pg && pae && !lm
            })),
            mode == CPUMode::Paging64 ==> (r matches Ok(b) ==> b == ({
                let lm = final(guest).ia32_efer.value & 0x400 != 0;
                let pe = final(guest).cr0.value & 1 != 0;
                let pg = final(guest).cr0.value & 0x80000000 != 0;
                let pae = final(guest).cr4.value & 0x20 != 0;
                let vmf = final(guest).rflags.value & 0x20000 != 0;
                let csd = final(guest).cs_attr.value & 0x4000 != 0;
                let csl = final(guest).cs_attr.value & 0x2000 != 0;
                pg && pae && lm
            })),
            final(guest).rsp == old(guest).rsp,
            final(guest).rip == old(guest).rip,
            final(guest).cs_sel == old(guest).cs_sel,
            final(guest).cs_base == old(guest).cs_base,
            final(guest).ss_base == old(guest).ss_base,
            final(guest).cr3 == old(guest).cr3,
    {
        let state = CPUState::init(guest, hw)?;
        let b = match mode {
            CPUMode::Real => state.is_real(),
            CPUMode::V8086 => state.is_v8086(),
            CPUMode::Protected => state.is_prot(),
            CPUMode::Protected32 => state.is_prot32(),
            CPUMode::Protected16 => state.is_prot16(),
            CPUMode::Long => state.is_long(),
            CPUMode::Long64 => state.is_long64(),
            CPUMode::Long32 => state.is_long32(),
            CPUMode::Long16 => state.is_long16(),
            CPUMode::Legacy32 => state.is_legacy32(),
            CPUMode::Legacy16 => state.is_legacy16(),
            CPUMode::Paging => state.is_paged(),
            CPUMode::Paging32 => state.is_paging32(),
            CPUMode::Paging36 => state.is_paging36(),
            CPUMode::Paging64 => state.is_paging64(),
        };
        Ok(b)
    }

    /// Width of the guest's addresses in the current mode: 64 bits for a
    /// 64-bit long-mode code segment, 32 for 32-bit long or protected
    /// segments, 16 otherwise.
    pub fn addr_size(guest: &mut Guest, hw: &Region) -> (r: Result<u64, VmmError>)
        ensures
            spec_mode_cached(*old(guest)) ==> r is Ok && *final(guest) == *old(guest),
            r matches Ok(n) ==> ({
                let lm = final(guest).ia32_efer.value & 0x400 != 0;
                let pe = final(guest).cr0.value & 1 != 0;
                let vmf = final(guest).rflags.value & 0x20000 != 0;
                let csd = final(guest).cs_attr.value & 0x4000 != 0;
                let csl = final(guest).cs_attr.value & 0x2000 != 0;
                if lm && csl {
                    n == 64
                } else if (lm && !csl && csd) || (pe && !vmf && csd) {
                    n == 32
                } else {
                    n == 16
                }
            }),
    {
        let state = CPUState::init(guest, hw)?;
        if state.is_long64() {
            Ok(64)
        } else if state.is_long32() || state.is_prot32() {
            Ok(32)
        } else {
            Ok(16)
        }
    }
}

} // verus!
