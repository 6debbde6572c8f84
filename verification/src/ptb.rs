//! x86-64 4-level paging: levels, per-operation configuration and the table
//! entry with its two bit layouts (native paging and EPT).

use vstd::prelude::*;

use crate::pgutils::{
    addr_mask, spec_addr_mask, PG_1G_SHIFT, PG_2M_SHIFT, PG_4K_SHIFT, PG_512G_SHIFT, PG_KRN,
    PG_NX, PG_P, PG_PS, PG_RW, PG_USR,
};
use crate::ept::{PVL_R, PVL_RWX, PVL_W, PVL_X};

verus! {

#[derive(Debug, Copy, Clone, PartialEq, Eq, Structural)]
pub enum PagingLevel {
    L4,
    L3,
    L2,
    L1,
}

/// Rank used as a termination measure: finer levels rank lower.
pub open spec fn level_rank(lv: PagingLevel) -> int {
    match lv {
        PagingLevel::L4 => 4,
        PagingLevel::L3 => 3,
        PagingLevel::L2 => 2,
        PagingLevel::L1 => 1,
    }
}

pub open spec fn spec_level_shift(lv: PagingLevel) -> u64 {
    match lv {
        PagingLevel::L4 => 39,
        PagingLevel::L3 => 30,
        PagingLevel::L2 => 21,
        PagingLevel::L1 => 12,
    }
}

pub fn pg_level_shift(lv: PagingLevel) -> (r: u64)
    ensures
        r == spec_level_shift(lv),
{
    match lv {
        PagingLevel::L4 => PG_512G_SHIFT,
        PagingLevel::L3 => PG_1G_SHIFT,
        PagingLevel::L2 => PG_2M_SHIFT,
        PagingLevel::L1 => PG_4K_SHIFT,
    }
}

/// Bytes covered by one entry of the level.
pub open spec fn spec_level_size(lv: PagingLevel) -> u64 {
    1u64 << spec_level_shift(lv)
}

pub fn pg_level_size(lv: PagingLevel) -> (r: u64)
    ensures
        r == spec_level_size(lv),
{
    match lv {
        PagingLevel::L4 => 1u64 << PG_512G_SHIFT,
        PagingLevel::L3 => 1u64 << PG_1G_SHIFT,
        PagingLevel::L2 => 1u64 << PG_2M_SHIFT,
        PagingLevel::L1 => 1u64 << PG_4K_SHIFT,
    }
}

pub open spec fn spec_level_next(lv: PagingLevel) -> Option<PagingLevel> {
    match lv {
        PagingLevel::L4 => Some(PagingLevel::L3),
        PagingLevel::L3 => Some(PagingLevel::L2),
        PagingLevel::L2 => Some(PagingLevel::L1),
        PagingLevel::L1 => None,
    }
}

pub fn pg_level_next(lv: PagingLevel) -> (r: Option<PagingLevel>)
    ensures
        r == spec_level_next(lv),
{
    match lv {
        PagingLevel::L4 => Some(PagingLevel::L3),
        PagingLevel::L3 => Some(PagingLevel::L2),
        PagingLevel::L2 => Some(PagingLevel::L1),
        PagingLevel::L1 => None,
    }
}

pub fn pg_level_prev(lv: PagingLevel) -> (r: Option<PagingLevel>)
    ensures
        r == match lv {
            PagingLevel::L4 => None,
            PagingLevel::L3 => Some(PagingLevel::L4),
            PagingLevel::L2 => Some(PagingLevel::L3),
            PagingLevel::L1 => Some(PagingLevel::L2),
        },
{
    match lv {
        PagingLevel::L4 => None,
        PagingLevel::L3 => Some(PagingLevel::L4),
        PagingLevel::L2 => Some(PagingLevel::L3),
        PagingLevel::L1 => Some(PagingLevel::L2),
    }
}

/// The four level shifts, spelled out for bit-level reasoning.
pub proof fn lemma_level_shift_cases(lv: PagingLevel)
    ensures
        spec_level_shift(lv) == 39 || spec_level_shift(lv) == 30 || spec_level_shift(lv) == 21
            || spec_level_shift(lv) == 12,
        spec_level_size(lv) == 1u64 << spec_level_shift(lv),
        lv != PagingLevel::L4 ==> spec_level_shift(lv) <= 30,
{
}

/// Size bounds of one level: at least a 4 KiB page, at most 512 GiB, and a
/// full table of them stays below 2^48 bytes.
pub proof fn lemma_level_size_bounds(psh: u64)
    by (bit_vector)
    requires
        psh == 39 || psh == 30 || psh == 21 || psh == 12,
    ensures
        (1u64 << psh) >= 4096,
        (1u64 << psh) <= (1u64 << 39),
        512 * (1u64 << psh) <= (1u64 << 48),
{
}

/// A table of 512 next-level entries covers exactly one entry of this level.
pub proof fn lemma_level_next_size(lv: PagingLevel)
    ensures
        spec_level_next(lv) matches Some(n) ==> 512 * spec_level_size(n) == spec_level_size(lv),
{
    assert(512 * (1u64 << 30) == (1u64 << 39) && 512 * (1u64 << 21) == (1u64 << 30) && 512 * (
    1u64 << 12) == (1u64 << 21)) by (bit_vector);
}

/// The address field of an entry stays below the 52-bit physical limit.
pub proof fn lemma_addr_mask_bound(shift: u64)
    by (bit_vector)
    requires
        12 <= shift <= 52,
    ensures
        spec_addr_mask(shift) <= 0xfffffffffffff,
{
}

/// Helper for pre-computing page-table memory needs.
pub struct PagingSize {
    pub pdp: u64,
    pub pd: u64,
    pub pt: u64,
}

impl PagingSize {
    pub fn size(&self) -> (r: u64)
        requires
            4096 + self.pdp * 4096 + self.pd * 4096 + self.pt * 4096 <= u64::MAX,
        ensures
            r == 4096 + self.pdp * 4096 + self.pd * 4096 + self.pt * 4096,
    {
        crate::pgutils::PML4_SZ + self.pdp * crate::pgutils::PDP_SZ + self.pd
            * crate::pgutils::PD64_SZ + self.pt * crate::pgutils::PT64_SZ
    }
}

// Parts of an entry that one operation rewrites.
pub const PG_OP_ADDR: u64 = 1;

pub const PG_OP_OFF: u64 = 2;

pub const PG_OP_PVL: u64 = 4;

pub const PG_OP_CCH: u64 = 8;

pub const PG_OP_MMT: u64 = 16;

/// Configuration of one mapping operation.
#[derive(Debug, Copy, Clone)]
pub struct PagingConfig {
    pub modifier: u64,
    pub map_top: u64,
    pub offset: u64,
    pub pg_attr: u64,
    pub tb_attr: u64,
    pub pvl_msk: u64,
    pub mmt_msk: u64,
    pub large: bool,
    pub pg_2m: bool,
    pub pg_1g: bool,
}

impl PagingConfig {
    /// Map hypervisor linear addresses to system physical ones.
    pub fn for_vmm(max_vaddr: u64, pg_2m: bool, pg_1g: bool) -> (r: PagingConfig)
        ensures
            r.modifier == (PG_OP_ADDR | PG_OP_PVL),
            r.map_top == max_vaddr,
            r.offset == 0,
            r.pg_attr == (PG_KRN | PG_RW | PG_P),
            r.tb_attr == (PG_KRN | PG_RW | PG_P),
            r.pvl_msk == (PG_NX | PG_USR | PG_RW),
            r.mmt_msk == 0,
            r.large,
            r.pg_2m == pg_2m,
            r.pg_1g == pg_1g,
    {
        PagingConfig {
            modifier: PG_OP_ADDR | PG_OP_PVL,
            map_top: max_vaddr,
            offset: 0,
            pg_attr: PG_KRN | PG_RW | PG_P,
            tb_attr: PG_KRN | PG_RW | PG_P,
            pvl_msk: (PG_NX | PG_USR | PG_RW),
            mmt_msk: 0,
            large: true,
            pg_2m,
            pg_1g,
        }
    }

    /// Map guest physical addresses to system physical ones through EPT;
    /// `attr` is the default EPT attribute word (privilege and memory type).
    pub fn for_vm(max_paddr: u64, pg_2m: bool, pg_1g: bool, attr: u64) -> (r: PagingConfig)
        ensures
            r.modifier == (PG_OP_ADDR | PG_OP_PVL | PG_OP_MMT),
            r.map_top == max_paddr,
            r.offset == 0,
            r.pg_attr == attr,
            r.tb_attr == attr,
            r.pvl_msk == crate::ept::spec_attr_pvl_msk(),
            r.mmt_msk == crate::ept::spec_attr_mmt_msk(),
            r.large,
            r.pg_2m == pg_2m,
            r.pg_1g == pg_1g,
    {
        PagingConfig {
            modifier: PG_OP_ADDR | PG_OP_PVL | PG_OP_MMT,
            map_top: max_paddr,
            offset: 0,
            pg_attr: attr,
            tb_attr: attr,
            pvl_msk: crate::ept::attr_pvl_msk(),
            mmt_msk: crate::ept::attr_mmt_msk(),
            large: true,
            pg_2m,
            pg_1g,
        }
    }
}

/// One page table: 512 entry words covering one 4 KiB frame.
pub struct MMUTable64 {
    pub entries: Vec<u64>,
}

impl MMUTable64 {
    pub open spec fn wf(&self) -> bool {
        self.entries@.len() == 512
    }

    /// A fresh, entirely non-present table.
    pub fn zeroed() -> (r: MMUTable64)
        ensures
            r.wf(),
            forall|i: int| 0 <= i < 512 ==> r.entries@[i] == 0u64,
    {
        let mut entries: Vec<u64> = Vec::new();
        let mut k: usize = 0;
        while k < 512
            invariant
                k <= 512,
                entries@.len() == k,
                forall|i: int| 0 <= i < k ==> entries@[i] == 0u64,
            decreases 512 - k,
        {
            entries.push(0);
            k = k + 1;
        }
        MMUTable64 { entries }
    }

    pub fn get(&self, idx: usize) -> (r: u64)
        requires
            self.wf(),
            idx < 512,
        ensures
            r == self.entries@[idx as int],
    {
        self.entries[idx]
    }

    pub fn set(&mut self, idx: usize, value: u64)
        requires
            old(self).wf(),
            idx < 512,
        ensures
            final(self).wf(),
            final(self).entries@ == old(self).entries@.update(idx as int, value),
    {
        self.entries.set(idx, value);
    }
}

/// One paging environment: a level-4 root table and the address-space tag
/// (the VPID for EPT).
pub struct PagingEnv {
    pub root: MMUTable64,
    pub layout: EntryLayout,
    pub asid: u16,
}

impl PagingEnv {
    pub open spec fn wf(&self) -> bool {
        self.root.wf()
    }

    pub fn new(layout: EntryLayout) -> (r: PagingEnv)
        ensures
            r.wf(),
            r.layout == layout,
            r.asid == 0u16,
            forall|i: int| 0 <= i < 512 ==> r.root.entries@[i] == 0u64,
    {
        PagingEnv { root: MMUTable64::zeroed(), layout, asid: 0 }
    }
}

/// Which bit positions carry presence, write and execute rights.
#[derive(Debug, Copy, Clone, PartialEq, Eq, Structural)]
pub enum EntryLayout {
    Native,
    Ept,
}

/// One page-table entry, interpreted at a level under a bit layout.
#[derive(Debug, Copy, Clone)]
pub struct PTBEntry {
    pub raw: u64,
    pub level: PagingLevel,
    pub layout: EntryLayout,
}

pub open spec fn spec_present(layout: EntryLayout, raw: u64) -> bool {
    match layout {
        EntryLayout::Native => raw & PG_P != 0,
        EntryLayout::Ept => raw & PVL_RWX != 0,
    }
}

pub open spec fn spec_write(layout: EntryLayout, raw: u64) -> bool {
    match layout {
        EntryLayout::Native => raw & PG_RW != 0,
        EntryLayout::Ept => raw & PVL_W != 0,
    }
}

pub open spec fn spec_read(layout: EntryLayout, raw: u64) -> bool {
    match layout {
        EntryLayout::Native => raw & PG_RW == 0,
        EntryLayout::Ept => raw & PVL_R != 0,
    }
}

pub open spec fn spec_execute(layout: EntryLayout, raw: u64) -> bool {
    match layout {
        EntryLayout::Native => raw & PG_NX == 0,
        EntryLayout::Ept => raw & PVL_X != 0,
    }
}

pub open spec fn spec_may_be_large(lv: PagingLevel) -> bool {
    lv == PagingLevel::L2 || lv == PagingLevel::L3
}

pub open spec fn spec_is_large(lv: PagingLevel, raw: u64) -> bool {
    raw & PG_PS != 0 && spec_may_be_large(lv)
}

/// A present entry maps a page (not a sub-table) at this level.
pub open spec fn spec_is_page(lv: PagingLevel, raw: u64) -> bool {
    spec_is_large(lv, raw) || lv == PagingLevel::L1
}

pub open spec fn spec_can_be_large(lv: PagingLevel, conf: PagingConfig) -> bool {
    conf.large && ((conf.pg_2m && lv == PagingLevel::L2) || (conf.pg_1g && lv == PagingLevel::L3))
}

pub open spec fn spec_can_be_a_page(lv: PagingLevel, conf: PagingConfig) -> bool {
    spec_can_be_large(lv, conf) || lv == PagingLevel::L1
}

/// Address/offset part of a fresh entry, as selected by the modifier.
pub open spec fn spec_basic(addr: u64, msk: u64, conf: PagingConfig) -> u64 {
    let e0: u64 = if conf.modifier & PG_OP_ADDR != 0 {
        addr & msk
    } else {
        0
    };
    if conf.modifier & PG_OP_OFF != 0 {
        (e0 + (conf.offset & msk)) as u64
    } else {
        e0
    }
}

/// Entry value after erasing the parts the modifier selects.
pub open spec fn spec_erase(lv: PagingLevel, raw: u64, msk: u64, conf: PagingConfig) -> u64 {
    let e0: u64 = if conf.modifier & PG_OP_ADDR != 0 {
        raw & !msk
    } else {
        raw
    };
    let e1: u64 = if conf.modifier & PG_OP_PVL != 0 {
        e0 & !conf.pvl_msk
    } else {
        e0
    };
    let e2: u64 = if conf.modifier & PG_OP_MMT != 0 {
        e1 & !conf.mmt_msk
    } else {
        e1
    };
    if spec_is_large(lv, raw) {
        e2 & !PG_PS
    } else {
        e2
    }
}

/// Entry value written for a page of the level's size at `addr`.
pub open spec fn spec_page_entry(lv: PagingLevel, addr: u64, conf: PagingConfig) -> u64 {
    let base = spec_basic(addr, spec_addr_mask(spec_level_shift(lv)), conf);
    let e0: u64 = if conf.modifier & PG_OP_PVL != 0 {
        base | (conf.pg_attr & conf.pvl_msk)
    } else {
        base | (conf.pg_attr & !conf.pvl_msk)
    };
    let e1: u64 = if conf.modifier & PG_OP_MMT != 0 {
        e0 | (conf.pg_attr & conf.mmt_msk)
    } else {
        e0 | (conf.pg_attr & !conf.mmt_msk)
    };
    if spec_may_be_large(lv) {
        e1 | PG_PS
    } else {
        e1
    }
}

/// Entry value written for a sub-table at physical address `addr`.
pub open spec fn spec_table_entry(addr: u64, conf: PagingConfig) -> u64 {
    spec_basic(addr, spec_addr_mask(12), conf) | conf.tb_attr
}

/// Physical address of the sub-table an entry references.
pub open spec fn spec_table_addr(raw: u64) -> u64 {
    raw & spec_addr_mask(12)
}

/// Physical address of the page an entry maps.
pub open spec fn spec_page_addr(lv: PagingLevel, raw: u64) -> u64 {
    raw & spec_addr_mask(spec_level_shift(lv))
}

impl PTBEntry {
    pub open spec fn wf(&self) -> bool {
        true
    }

    pub fn raw(&self) -> (r: u64)
        ensures
            r == self.raw,
    {
        self.raw
    }

    pub fn shift(&self) -> (r: u64)
        ensures
            r == spec_level_shift(self.level),
    {
        pg_level_shift(self.level)
    }

    pub fn set(&mut self, entry: u64)
        ensures
            *final(self) == (PTBEntry { raw: entry, ..*old(self) }),
    {
        self.raw = entry;
    }

    pub fn size(&self) -> (r: u64)
        ensures
            r == spec_level_size(self.level),
    {
        pg_level_size(self.level)
    }

    pub fn present(&self) -> (r: bool)
        ensures
            r == spec_present(self.layout, self.raw),
    {
        match self.layout {
            EntryLayout::Native => self.raw & PG_P != 0,
            EntryLayout::Ept => self.raw & PVL_RWX != 0,
        }
    }

    pub fn write(&self) -> (r: bool)
        ensures
            r == spec_write(self.layout, self.raw),
    {
        match self.layout {
            EntryLayout::Native => self.raw & PG_RW != 0,
            EntryLayout::Ept => self.raw & PVL_W != 0,
        }
    }

    pub fn read(&self) -> (r: bool)
        ensures
            r == spec_read(self.layout, self.raw),
    {
        match self.layout {
            EntryLayout::Native => self.raw & PG_RW == 0,
            EntryLayout::Ept => self.raw & PVL_R != 0,
        }
    }

    pub fn execute(&self) -> (r: bool)
        ensures
            r == spec_execute(self.layout, self.raw),
    {
        match self.layout {
            EntryLayout::Native => self.raw & PG_NX == 0,
            EntryLayout::Ept => self.raw & PVL_X != 0,
        }
    }

    pub fn may_be_large(&self) -> (r: bool)
        ensures
            r == spec_may_be_large(self.level),
    {
        matches!(self.level, PagingLevel::L2 | PagingLevel::L3)
    }

    pub fn is_large(&self) -> (r: bool)
        ensures
            r == spec_is_large(self.level, self.raw),
    {
        self.raw & PG_PS != 0 && self.may_be_large()
    }

    pub fn is_page(&self) -> (r: bool)
        ensures
            r == spec_is_page(self.level, self.raw),
    {
        self.is_large() || matches!(self.level, PagingLevel::L1)
    }

    pub fn can_be_large(&self, conf: &PagingConfig) -> (r: bool)
        ensures
            r == spec_can_be_large(self.level, *conf),
    {
        conf.large && ((conf.pg_2m && matches!(self.level, PagingLevel::L2)) || (conf.pg_1g
            && matches!(self.level, PagingLevel::L3)))
    }

    pub fn can_be_a_page(&self, conf: &PagingConfig) -> (r: bool)
        ensures
            r == spec_can_be_a_page(self.level, *conf),
    {
        self.can_be_large(conf) || matches!(self.level, PagingLevel::L1)
    }

    pub fn basic(&self, addr: u64, msk: u64, conf: &PagingConfig) -> (r: u64)
        requires
            msk <= 0xfffffffffffff,
        ensures
            r == spec_basic(addr, msk, *conf),
    {
        proof {
            let o = conf.offset;
            assert((addr & msk) <= msk && (o & msk) <= msk) by (bit_vector);
        }
        let mut entry: u64 = 0;
        if (conf.modifier & PG_OP_ADDR) != 0 {
            entry = addr & msk;
        }
        if (conf.modifier & PG_OP_OFF) != 0 {
            entry = entry + (conf.offset & msk);
        }
        entry
    }

    /// Erase the parts of the entry that the operation rewrites.
    pub fn erase(&mut self, msk: u64, conf: &PagingConfig)
        ensures
            *final(self) == (PTBEntry {
                raw: spec_erase(old(self).level, old(self).raw, msk, *conf),
                ..*old(self)
            }),
    {
        let mut entry = self.raw;
        if (conf.modifier & PG_OP_ADDR) != 0 {
            entry = entry & !msk;
        }
        if (conf.modifier & PG_OP_PVL) != 0 {
            entry = entry & !conf.pvl_msk;
        }
        if (conf.modifier & PG_OP_MMT) != 0 {
            entry = entry & !conf.mmt_msk;
        }
        if self.is_large() {
            entry = entry & !PG_PS;
        }
        self.set(entry);
    }

    pub fn table_addr(&self) -> (r: u64)
        ensures
            r == spec_table_addr(self.raw),
    {
        self.raw & addr_mask(12)
    }

    /// Point the entry at a sub-table located at `addr`.
    pub fn set_table(&mut self, addr: u64, conf: &PagingConfig)
        ensures
            *final(self) == (PTBEntry { raw: spec_table_entry(addr, *conf), ..*old(self) }),
    {
        proof {
            lemma_addr_mask_bound(12);
        }
        let base = self.basic(addr, addr_mask(12), conf);
        self.set(base | conf.tb_attr);
    }

    pub fn page_addr(&self) -> (r: u64)
        ensures
            r == spec_page_addr(self.level, self.raw),
    {
        self.raw & addr_mask(self.shift())
    }

    /// Make the entry map a page of the level's size at `addr`.
    pub fn set_page(&mut self, addr: u64, conf: &PagingConfig)
        ensures
            *final(self) == (PTBEntry {
                raw: spec_page_entry(old(self).level, addr, *conf),
                ..*old(self)
            }),
    {
        proof {
            lemma_level_shift_cases(self.level);
            lemma_addr_mask_bound(spec_level_shift(self.level));
        }
        let mut entry = self.basic(addr, addr_mask(self.shift()), conf);
        if (conf.modifier & PG_OP_PVL) != 0 {
            entry = entry | (conf.pg_attr & conf.pvl_msk);
        } else {
            entry = entry | (conf.pg_attr & !conf.pvl_msk);
        }
        if (conf.modifier & PG_OP_MMT) != 0 {
            entry = entry | (conf.pg_attr & conf.mmt_msk);
        } else {
            entry = entry | (conf.pg_attr & !conf.mmt_msk);
        }
        if self.may_be_large() {
            entry = entry | PG_PS;
        }
        self.set(entry);
    }
}

} // verus!
