//! System memory map handed to the guest, derived from the boot loader's
//! regions; the region starting at 1 MiB is truncated so that guest RAM
//! ends where the secret area begins.

use vstd::prelude::*;

use crate::smem::{MemRegion, RegionKind};

verus! {

#[derive(Debug, Copy, Clone, PartialEq, Eq, Structural)]
pub enum SystemMapEntryType {
    Available,
    Reserved,
    ACPI,
    NVS,
}

impl SystemMapEntryType {
    /// Numeric code of the entry type in the BIOS map convention.
    pub fn code(&self) -> (r: u64)
        ensures
            r == match *self {
                SystemMapEntryType::Available => 1u64,
                SystemMapEntryType::Reserved => 2u64,
                SystemMapEntryType::ACPI => 3u64,
                SystemMapEntryType::NVS => 4u64,
            },
    {
        match *self {
            SystemMapEntryType::Available => 1,
            SystemMapEntryType::Reserved => 2,
            SystemMapEntryType::ACPI => 3,
            SystemMapEntryType::NVS => 4,
        }
    }

    /// RAM is available to the guest; everything else is reserved.
    pub fn from_mbi(kind: RegionKind) -> (r: SystemMapEntryType)
        ensures
            r == spec_from_mbi(kind),
    {
        match kind {
            RegionKind::Ram => SystemMapEntryType::Available,
            _ => SystemMapEntryType::Reserved,
        }
    }
}

pub open spec fn spec_from_mbi(kind: RegionKind) -> SystemMapEntryType {
    if kind == RegionKind::Ram {
        SystemMapEntryType::Available
    } else {
        SystemMapEntryType::Reserved
    }
}

#[derive(Debug, Copy, Clone, PartialEq, Eq, Structural)]
pub struct SystemMapEntry {
    pub base: u64,
    pub len: u64,
    pub typ: SystemMapEntryType,
}

pub struct SystemMap {
    pub count: u64,
    pub entries: Vec<SystemMapEntry>,
}

/// The entry derived from one region: the RAM region starting at 1 MiB
/// is truncated to end at `end` (the secret area's start).
pub open spec fn spec_smap_entry(m: MemRegion, end: u64) -> SystemMapEntry {
    let typ = spec_from_mbi(m.kind);
    let len: u64 = if typ == SystemMapEntryType::Available && m.base == 0x100000 {
        (end - m.base) as u64
    } else {
        m.length
    };
    SystemMapEntry { base: m.base, len, typ }
}

impl SystemMap {
    pub open spec fn spec_count(&self) -> u64 {
        self.count
    }

    pub open spec fn spec_entries(&self) -> Seq<SystemMapEntry> {
        self.entries@
    }

    /// Build the guest's memory map from the boot regions, one entry per
    /// region in order.
    pub fn init(end: u64, regions: &Vec<MemRegion>) -> (r: SystemMap)
        requires
            end >= 0x100000,
        ensures
            r.spec_count() == regions@.len(),
            r.spec_entries().len() == regions@.len(),
            forall|i: int|
                0 <= i < regions@.len() ==> r.spec_entries()[i] == spec_smap_entry(
                    regions@[i],
                    end,
                ),
    {
        let n = regions.len();
        let mut entries: Vec<SystemMapEntry> = Vec::new();
        let mut idx: usize = 0;
        while idx < n
            invariant
                n == regions@.len(),
                idx <= n,
                end >= 0x100000,
                entries@.len() == idx,
                forall|i: int|
                    0 <= i < idx ==> entries@[i] == spec_smap_entry(regions@[i], end),
            decreases n - idx,
        {
            let m = regions[idx];
            let typ = SystemMapEntryType::from_mbi(m.kind);
            let len: u64 = if matches!(typ, SystemMapEntryType::Available) && m.base == 0x100000 {
                end - m.base
            } else {
                m.length
            };
            entries.push(SystemMapEntry { base: m.base, len, typ });
            idx = idx + 1;
        }
        SystemMap { count: n as u64, entries }
    }

    /// The entry at `idx`.
    pub fn entry(&self, idx: usize) -> (r: Option<&SystemMapEntry>)
        requires
            self.spec_count() == self.spec_entries().len(),
        ensures
            idx < self.spec_entries().len() ==> r == Some(&self.spec_entries()[idx as int]),
            idx >= self.spec_entries().len() ==> r is None,
    {
        if (idx as u64) < self.count {
            Some(&self.entries[idx])
        } else {
            None
        }
    }
}

} // verus!
