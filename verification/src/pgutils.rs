//! Paging utilities: page sizes, alignment, walk indices and entry masks.
//!
//! Addresses and region sizes are 64-bit throughout: the modelled machine is
//! x86-64, where a 512 GiB level-4 region does not fit a 32-bit word.

use vstd::prelude::*;

use crate::utils::{align, align_next, aligned, spec_align, spec_aligned};

verus! {

pub const PG_32_SHIFT: u64 = 5;

pub const PG_4K_SHIFT: u64 = 12;

pub const PG_2M_SHIFT: u64 = 21;

pub const PG_4M_SHIFT: u64 = 22;

pub const PG_1G_SHIFT: u64 = 30;

pub const PG_512G_SHIFT: u64 = 39;

pub const PG_4KB: u64 = 0x1000;

pub const PG_2MB: u64 = 0x200000;

pub const PG_1GB: u64 = 0x40000000;

pub const PML4E_PER_PML4: u64 = 512;

pub const PML4_SZ: u64 = 4096;

pub const PDP_SZ: u64 = 4096;

pub const PD64_SZ: u64 = 4096;

pub const PT64_SZ: u64 = 4096;

pub fn pg_size(shift: u64) -> (r: u64)
    requires
        shift < 64,
    ensures
        r == (1u64 << shift),
{
    1u64 << shift
}

pub proof fn lemma_pg_size_pos(shift: u64)
    by (bit_vector)
    requires
        shift < 64,
    ensures
        (1u64 << shift) >= 1,
        shift >= 12 ==> (1u64 << shift) >= 4096,
        crate::utils::pow2(1u64 << shift),
{
}

pub fn pg_offset(shift: u64, addr: u64) -> (r: u64)
    requires
        shift < 64,
    ensures
        r == addr & (((1u64 << shift) - 1) as u64),
{
    proof {
        lemma_pg_size_pos(shift);
    }
    addr & ((1u64 << shift) - 1)
}

pub fn pg_nr(shift: u64, addr: u64) -> (r: u64)
    requires
        shift < 64,
    ensures
        r == addr >> shift,
{
    addr >> shift
}

pub fn pg_addr(shift: u64, bits: u64) -> (r: u64)
    requires
        shift < 64,
    ensures
        r == bits << shift,
{
    bits << shift
}

pub fn pg_align(shift: u64, addr: u64) -> (r: u64)
    requires
        shift < 64,
    ensures
        r == spec_align(addr, 1u64 << shift),
{
    proof {
        lemma_pg_size_pos(shift);
    }
    addr & !((1u64 << shift) - 1)
}

pub fn pg_align_next(shift: u64, addr: u64) -> (r: u64)
    requires
        shift < 64,
        addr + (1u64 << shift) <= u64::MAX,
    ensures
        r == spec_align((addr + (1u64 << shift)) as u64, 1u64 << shift),
{
    proof {
        lemma_pg_size_pos(shift);
        crate::utils::lemma_align_next_on_aligned(addr, 1u64 << shift);
    }
    let sz = pg_size(shift);
    (addr + sz) & !(sz - 1)
}

pub fn pg_aligned(shift: u64, addr: u64) -> (r: bool)
    requires
        shift < 64,
    ensures
        r == spec_aligned(addr, 1u64 << shift),
{
    proof {
        lemma_pg_size_pos(shift);
    }
    addr & ((1u64 << shift) - 1) == 0
}

/// 4 KiB page frame number of a physical address.
pub open spec fn spec_pfn(addr: u64) -> u64 {
    addr >> 12
}

pub fn pfn(addr: u64) -> (r: u64)
    ensures
        r == spec_pfn(addr),
{
    addr >> 12
}

pub fn pml4_idx(addr: u64) -> (r: usize)
    ensures
        r == (addr >> 39) & 0x1ff,
        r < 512,
{
    proof {
        assert((addr >> 39) & 0x1ff < 512) by (bit_vector);
    }
    ((addr >> PG_512G_SHIFT) & 0x1ff) as usize
}

pub fn pdp_idx(addr: u64) -> (r: usize)
    ensures
        r == (addr >> 30) & 0x1ff,
        r < 512,
{
    proof {
        assert((addr >> 30) & 0x1ff < 512) by (bit_vector);
    }
    ((addr >> PG_1G_SHIFT) & 0x1ff) as usize
}

pub fn pdp_pae_idx(addr: u64) -> (r: usize)
    ensures
        r == (addr >> 30) & 0x3,
{
    proof {
        assert((addr >> 30) & 0x3 < 4) by (bit_vector);
    }
    ((addr >> PG_1G_SHIFT) & 0x3) as usize
}

pub fn pd64_idx(addr: u64) -> (r: usize)
    ensures
        r == (addr >> 21) & 0x1ff,
        r < 512,
{
    proof {
        assert((addr >> 21) & 0x1ff < 512) by (bit_vector);
    }
    ((addr >> PG_2M_SHIFT) & 0x1ff) as usize
}

pub fn pt64_idx(addr: u64) -> (r: usize)
    ensures
        r == (addr >> 12) & 0x1ff,
        r < 512,
{
    proof {
        assert((addr >> 12) & 0x1ff < 512) by (bit_vector);
    }
    ((addr >> PG_4K_SHIFT) & 0x1ff) as usize
}

pub fn pd32_idx(addr: u64) -> (r: usize)
    ensures
        r == (addr >> 22) & 0x3ff,
{
    proof {
        assert((addr >> 22) & 0x3ff < 1024) by (bit_vector);
    }
    ((addr >> PG_4M_SHIFT) & 0x3ff) as usize
}

pub fn pt32_idx(addr: u64) -> (r: usize)
    ensures
        r == (addr >> 12) & 0x3ff,
{
    proof {
        assert((addr >> 12) & 0x3ff < 1024) by (bit_vector);
    }
    ((addr >> PG_4K_SHIFT) & 0x3ff) as usize
}

/// Absolute index: which `shift`-sized region the address falls in.
pub fn pg_abs_idx(shift: u64, addr: u64) -> (r: u64)
    requires
        shift < 64,
    ensures
        r == addr >> shift,
{
    addr >> shift
}

pub fn pdp_nr(addr: u64) -> (r: u64)
    ensures
        r == addr >> 39,
{
    addr >> PG_512G_SHIFT
}

pub fn pd64_nr(addr: u64) -> (r: u64)
    ensures
        r == addr >> 30,
{
    addr >> PG_1G_SHIFT
}

pub fn pt64_nr(addr: u64) -> (r: u64)
    ensures
        r == addr >> 21,
{
    addr >> PG_2M_SHIFT
}

// Page entry bits, native layout.
pub const PG_P: u64 = 1;

pub const PG_RO: u64 = 0;

pub const PG_RW: u64 = 2;

pub const PG_KRN: u64 = 0;

pub const PG_USR: u64 = 4;

pub const PG_PWT: u64 = 8;

pub const PG_PCD: u64 = 16;

pub const PG_ACC: u64 = 32;

pub const PG_DRT: u64 = 64;

pub const PG_PAT: u64 = 128;

pub const PG_GLB: u64 = 256;

pub const PG_NX: u64 = 0x8000000000000000;

pub const PG_PS: u64 = 128;

pub const PG_LPAT: u64 = 0x1000;

/// Mask selecting the physical-address field of an entry mapping a
/// `shift`-sized page: bits `shift..52`.
pub open spec fn spec_addr_mask(shift: u64) -> u64 {
    (((1u64 << ((52 - shift) as u64)) - 1) as u64) << shift
}

pub fn addr_mask(shift: u64) -> (r: u64)
    requires
        shift <= 52,
    ensures
        r == spec_addr_mask(shift),
{
    let len: u64 = 52 - shift;
    proof {
        assert((1u64 << ((52 - shift) as u64)) >= 1) by (bit_vector)
            requires
                shift <= 52,
        ;
    }
    ((1u64 << len) - 1) << shift
}

} // verus!
