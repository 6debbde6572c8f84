//! Range mapper for native and nested (EPT) paging.
//!
//! A single 4-level walker serves both entry layouts.  A range operation
//! runs a backward pass that emits the largest aligned pages at the low
//! edge, then a forward pass that emits full-size pages and recurses into
//! finer levels for the tail, so arbitrary ranges coalesce into 1 GiB and
//! 2 MiB pages where the configuration permits.
//!
//! Tables referenced by entries live in the [`PagePool`]; an entry whose
//! sub-table address falls outside the pool stops the walk with
//! [`VmmError::BadTable`] where a hardware walker would stray into
//! arbitrary memory.

use vstd::prelude::*;

use crate::pool::PagePool;
use crate::ptb::{
    level_rank, pg_level_next, pg_level_shift, pg_level_size, spec_can_be_a_page, spec_erase,
    spec_is_large, spec_is_page, spec_level_next, spec_level_shift, spec_level_size,
    spec_page_entry, spec_present, spec_table_entry, EntryLayout, MMUTable64, PTBEntry,
    PagingConfig, PagingEnv, PagingLevel, PG_OP_ADDR, PG_OP_MMT, PG_OP_PVL,
};
use crate::pgutils::spec_addr_mask;
use crate::utils::spec_align;
use crate::pgutils::{pg_align, pg_align_next, pg_aligned};
use crate::VmmError;

verus! {

#[derive(Debug, Copy, Clone)]
pub enum MapOp {
    MapPages,
    UnmapPages,
    RemapPages,
}

/// Which table an entry lives in: the environment's root, or a pool frame.
#[derive(Debug, Copy, Clone, PartialEq, Eq, Structural)]
pub enum TableLoc {
    Root,
    Frame(usize),
}

/// Entry-level bound: the entry's whole region stays far below `u64`
/// overflow; one table of such regions still fits under the same roof.
pub open spec fn entry_addr_ok(lv: PagingLevel, addr: u64) -> bool {
    addr + spec_level_size(lv) <= 1u64 << 61
}

/// Table-level bound: all 512 strides of the level fit.
pub open spec fn table_addr_ok(lv: PagingLevel, addr: u64) -> bool {
    addr + 512 * spec_level_size(lv) <= 1u64 << 61
}

/// Numeric facts about the engine's address bounds, stated once.
pub proof fn lemma_engine_bounds()
    by (bit_vector)
    ensures
        (1u64 << 59) < (1u64 << 60) < (1u64 << 61),
        (1u64 << 60) + (1u64 << 39) <= (1u64 << 61),
        (1u64 << 59) + (1u64 << 40) + (1u64 << 39) <= (1u64 << 60),
        (1u64 << 39) + (1u64 << 39) == (1u64 << 40),
        (1u64 << 61) <= u64::MAX,
{
}

pub open spec fn loc_ok(root: MMUTable64, pool: PagePool, loc: TableLoc) -> bool {
    match loc {
        TableLoc::Root => root.wf(),
        TableLoc::Frame(t) => 512 * t + 512 <= pool.words@.len(),
    }
}

/// The entry word at `idx` of the table `loc` names.
pub open spec fn spec_entry(root: MMUTable64, pool: PagePool, loc: TableLoc, idx: int) -> u64 {
    match loc {
        TableLoc::Root => root.entries@[idx],
        TableLoc::Frame(t) => pool.words@[512 * t + idx],
    }
}

/// What every engine step preserves of the pool: its identity and
/// well-formedness; frames are only ever added.
pub open spec fn pool_preserved(p0: PagePool, p1: PagePool) -> bool {
    &&& p1.wf()
    &&& p1.start == p0.start
    &&& p1.size == p0.size
    &&& p0.words@.len() <= p1.words@.len()
}

/// The engine wrote exactly the word `value` at `(loc, idx)`: the other
/// table and every other word are untouched, and the pool's frame count
/// did not move.
pub open spec fn spec_entry_written(
    r0: MMUTable64,
    p0: PagePool,
    r1: MMUTable64,
    p1: PagePool,
    loc: TableLoc,
    idx: int,
    value: u64,
) -> bool {
    match loc {
        TableLoc::Root => p1 == p0 && r1.entries@ == r0.entries@.update(idx, value),
        TableLoc::Frame(t) => r1 == r0 && p1.words@ == p0.words@.update(512 * t + idx, value)
            && p1.used == p0.used,
    }
}

/// The configuration a large-page split maps the finer level with: not
/// large, rewriting address, privilege and memory type, and carrying the
/// split entry's own privilege and memory-type bits.
pub open spec fn spec_split_conf(conf: PagingConfig, raw: u64) -> PagingConfig {
    PagingConfig {
        large: false,
        modifier: PG_OP_ADDR | PG_OP_PVL | PG_OP_MMT,
        pg_attr: raw & (conf.pvl_msk | conf.mmt_msk),
        ..conf
    }
}

pub fn read_entry(root: &MMUTable64, pool: &PagePool, loc: TableLoc, idx: usize) -> (r: u64)
    requires
        loc_ok(*root, *pool, loc),
        idx < 512,
    ensures
        r == spec_entry(*root, *pool, loc, idx as int),
{
    match loc {
        TableLoc::Root => root.get(idx),
        TableLoc::Frame(t) => {
            let n = pool.words.len();
            let j = 512 * t + idx;
            pool.words[j]
        },
    }
}

pub fn write_entry(
    root: &mut MMUTable64,
    pool: &mut PagePool,
    loc: TableLoc,
    idx: usize,
    value: u64,
)
    requires
        old(root).wf(),
        old(pool).wf(),
        loc_ok(*old(root), *old(pool), loc),
        idx < 512,
    ensures
        final(root).wf(),
        pool_preserved(*old(pool), *final(pool)),
        final(pool).words@.len() == old(pool).words@.len(),
        spec_entry(*final(root), *final(pool), loc, idx as int) == value,
        match loc {
            TableLoc::Root => *final(pool) == *old(pool) && final(root).entries@ == old(
                root,
            ).entries@.update(idx as int, value),
            TableLoc::Frame(t) => *final(root) == *old(root) && final(pool).words@ == old(
                pool,
            ).words@.update(512 * t + idx, value) && final(pool).used == old(pool).used,
        },
{
    match loc {
        TableLoc::Root => root.set(idx, value),
        TableLoc::Frame(t) => {
            let n = pool.words.len();
            let j = 512 * t + idx;
            pool.words.set(j, value);
        },
    }
}

/// Map one entry of level `lv` to cover `addr`: as a page when the
/// configuration permits one at this level, else through a freshly
/// allocated sub-table mapped at the next finer level.
pub fn entry_map(
    root: &mut MMUTable64,
    pool: &mut PagePool,
    layout: EntryLayout,
    loc: TableLoc,
    idx: usize,
    lv: PagingLevel,
    addr: u64,
    conf: &PagingConfig,
) -> (r: Result<(), VmmError>)
    requires
        old(root).wf(),
        old(pool).wf(),
        old(pool).size >= 4096,
        loc_ok(*old(root), *old(pool), loc),
        idx < 512,
        entry_addr_ok(lv, addr),
    ensures
        final(root).wf(),
        pool_preserved(*old(pool), *final(pool)),
        loc_ok(*final(root), *final(pool), loc),
        r is Ok && spec_can_be_a_page(lv, *conf) ==> spec_entry(
            *final(root),
            *final(pool),
            loc,
            idx as int,
        ) == spec_page_entry(lv, addr, *conf),
        !spec_present(layout, spec_entry(*old(root), *old(pool), loc, idx as int))
            && spec_can_be_a_page(lv, *conf) ==> r is Ok && spec_entry_written(
            *old(root),
            *old(pool),
            *final(root),
            *final(pool),
            loc,
            idx as int,
            spec_page_entry(lv, addr, *conf),
        ),
        ({
            let e0 = spec_entry(*old(root), *old(pool), loc, idx as int);
            spec_present(layout, e0) && spec_is_page(lv, e0) && spec_can_be_a_page(lv, *conf)
                ==> r is Ok && spec_entry_written(
                *old(root),
                *old(pool),
                *final(root),
                *final(pool),
                loc,
                idx as int,
                spec_page_entry(lv, addr, *conf),
            )
        }),
        ({
            let e0 = spec_entry(*old(root), *old(pool), loc, idx as int);
            ({
                &&& !(spec_present(layout, e0) && !spec_is_page(lv, e0))
                &&& !spec_can_be_a_page(lv, *conf)
                &&& lv != PagingLevel::L1
                &&& spec_can_be_a_page(spec_level_next(lv)->Some_0, *conf)
                &&& old(pool).used < old(pool).size - 4096
            }) ==> ({
                let next = spec_level_next(lv)->Some_0;
                let t = old(pool).words@.len() / 512;
                &&& r is Ok
                &&& final(pool).words@.len() == old(pool).words@.len() + 512
                &&& final(pool).used == old(pool).used + 4096
                &&& spec_entry(*final(root), *final(pool), loc, idx as int) == spec_table_entry(
                    (old(pool).start + old(pool).used) as u64,
                    *conf,
                )
                &&& forall|i: int|
                    0 <= i < 512 ==> #[trigger] final(pool).words@[512 * t + i]
                        == spec_page_entry(next, (addr + i * spec_level_size(next)) as u64, *conf)
            })
        }),
    decreases level_rank(lv), 2int,
{
    proof {
        lemma_engine_bounds();
        crate::ptb::lemma_level_shift_cases(lv);
        crate::ptb::lemma_level_size_bounds(spec_level_shift(lv));
        crate::ptb::lemma_level_next_size(lv);
    }
    let raw = read_entry(root, pool, loc, idx);
    let mut e = PTBEntry { raw, level: lv, layout };
    if e.present() {
        entry_unmap(root, pool, layout, loc, idx, lv, addr, conf)?;
    }
    let mut e = PTBEntry { raw: 0, level: lv, layout };
    if e.can_be_a_page(conf) {
        e.set_page(addr, conf);
        write_entry(root, pool, loc, idx, e.raw);
        proof {
            let v = spec_page_entry(lv, addr, *conf);
            let e0 = spec_entry(*old(root), *old(pool), loc, idx as int);
            if !spec_present(layout, e0) || spec_is_page(lv, e0) {
                match loc {
                    TableLoc::Root => {
                        assert(root.entries@ =~= old(root).entries@.update(idx as int, v));
                    },
                    TableLoc::Frame(t) => {
                        assert(pool.words@ =~= old(pool).words@.update(512 * t + idx, v));
                    },
                }
            }
        }
        Ok(())
    } else {
        let tbl_addr = match pool.get_page() {
            None => {
                return Err(VmmError::OutOfMemory);
            },
            Some(a) => a,
        };
        e.set_table(tbl_addr, conf);
        write_entry(root, pool, loc, idx, e.raw);
        let sub = match pool.frame_of(tbl_addr) {
            None => {
                return Err(VmmError::BadTable);
            },
            Some(t) => t,
        };
        let next = match pg_level_next(lv) {
            None => {
                return Err(VmmError::BadTable);
            },
            Some(n) => n,
        };
        proof {
            let n0 = old(pool).words@.len() as int;
            assert(n0 % 512 == 0 && n0 >= 0 ==> 512 * ((n0 * 8) / 4096) == n0)
                by (nonlinear_arith);
            assert(512 * (sub as int) == n0);
            assert(0u64 & 1u64 == 0 && 0u64 & 7u64 == 0) by (bit_vector);
            assert(!spec_present(layout, 0u64));
            assert(forall|q: int|
                0 <= q < 512 ==> #[trigger] pool.words@[512 * (sub as int) + q] == 0u64);
        }
        let ghost mid_root = *root;
        let ghost mid_pool = *pool;
        let r = table_map(root, pool, layout, TableLoc::Frame(sub), next, addr, conf);
        proof {
            if r is Ok && spec_can_be_a_page(next, *conf) {
                let n0 = old(pool).words@.len() as int;
                match loc {
                    TableLoc::Frame(t0) => {
                        assert(512 * t0 + idx < 512 * (sub as int));
                        assert(pool.words@[512 * t0 + idx] == mid_pool.words@[512 * t0 + idx]);
                    },
                    TableLoc::Root => {},
                }
            }
        }
        r
    }
}

/// Unmap one entry: recurse into its sub-table when it references one,
/// then erase the parts of the entry the configuration selects.
pub fn entry_unmap(
    root: &mut MMUTable64,
    pool: &mut PagePool,
    layout: EntryLayout,
    loc: TableLoc,
    idx: usize,
    lv: PagingLevel,
    addr: u64,
    conf: &PagingConfig,
) -> (r: Result<(), VmmError>)
    requires
        old(root).wf(),
        old(pool).wf(),
        loc_ok(*old(root), *old(pool), loc),
        idx < 512,
        entry_addr_ok(lv, addr),
    ensures
        final(root).wf(),
        pool_preserved(*old(pool), *final(pool)),
        final(pool).words@.len() == old(pool).words@.len(),
        loc_ok(*final(root), *final(pool), loc),
        !spec_present(layout, spec_entry(*old(root), *old(pool), loc, idx as int)) ==> r is Ok
            && *final(root) == *old(root) && *final(pool) == *old(pool),
        ({
            let e0 = spec_entry(*old(root), *old(pool), loc, idx as int);
            spec_present(layout, e0) && spec_is_page(lv, e0) ==> r is Ok && spec_entry_written(
                *old(root),
                *old(pool),
                *final(root),
                *final(pool),
                loc,
                idx as int,
                spec_erase(lv, e0, spec_addr_mask(spec_level_shift(lv)), *conf),
            )
        }),
    decreases level_rank(lv), 0int,
{
    proof {
        lemma_engine_bounds();
        crate::ptb::lemma_level_shift_cases(lv);
        crate::ptb::lemma_level_size_bounds(spec_level_shift(lv));
        crate::ptb::lemma_level_next_size(lv);
    }
    let raw = read_entry(root, pool, loc, idx);
    let e = PTBEntry { raw, level: lv, layout };
    if e.present() {
        let mask: u64;
        if !e.is_page() {
            let sub = match pool.frame_of(e.table_addr()) {
                None => {
                    return Err(VmmError::BadTable);
                },
                Some(t) => t,
            };
            let next = match pg_level_next(lv) {
                None => {
                    return Err(VmmError::BadTable);
                },
                Some(n) => n,
            };
            table_unmap(root, pool, layout, TableLoc::Frame(sub), next, addr, conf)?;
            // Frames are never handed back: release is deferred.
            mask = crate::pgutils::addr_mask(12);
        } else {
            mask = crate::pgutils::addr_mask(e.shift());
        }
        let raw2 = read_entry(root, pool, loc, idx);
        let mut e2 = PTBEntry { raw: raw2, level: lv, layout };
        e2.erase(mask, conf);
        write_entry(root, pool, loc, idx, e2.raw);
    }
    Ok(())
}

/// Remapping is not implemented: every remap is rejected once it
/// reaches an entry.
pub fn entry_remap(
    root: &mut MMUTable64,
    pool: &mut PagePool,
    layout: EntryLayout,
    loc: TableLoc,
    idx: usize,
    lv: PagingLevel,
    addr: u64,
    conf: &PagingConfig,
) -> (r: Result<(), VmmError>)
    ensures
        *final(root) == *old(root),
        *final(pool) == *old(pool),
        r == Err::<(), VmmError>(VmmError::Unsupported),
{
    Err(VmmError::Unsupported)
}

/// Split a large page: remap the same region through a sub-table at the
/// next finer level, preserving the entry's privilege and memory type.
/// Splitting a present 2 MiB entry with a pool frame in hand is owed
/// success and exact: the entry comes to reference a fresh table of 512
/// 4 KiB page entries, the `i`-th mapping the `i`-th frame of the aligned
/// 2 MiB region and carrying the split entry's privilege and memory-type
/// bits ([`spec_split_conf`]).
pub fn entry_finest(
    root: &mut MMUTable64,
    pool: &mut PagePool,
    layout: EntryLayout,
    loc: TableLoc,
    idx: usize,
    lv: PagingLevel,
    addr: u64,
    conf: &PagingConfig,
) -> (r: Result<(), VmmError>)
    requires
        old(root).wf(),
        old(pool).wf(),
        old(pool).size >= 4096,
        loc_ok(*old(root), *old(pool), loc),
        idx < 512,
        entry_addr_ok(lv, addr),
    ensures
        final(root).wf(),
        pool_preserved(*old(pool), *final(pool)),
        loc_ok(*final(root), *final(pool), loc),
        ({
            let raw0 = spec_entry(*old(root), *old(pool), loc, idx as int);
            let nc = spec_split_conf(*conf, raw0);
            let algn = spec_align(addr, spec_level_size(lv));
            ({
                &&& lv == PagingLevel::L2
                &&& spec_present(layout, raw0)
                &&& spec_is_large(lv, raw0)
                &&& !spec_present(
                    layout,
                    spec_erase(lv, raw0, spec_addr_mask(spec_level_shift(lv)), nc),
                )
                &&& old(pool).used < old(pool).size - 4096
            }) ==> ({
                let t = old(pool).words@.len() / 512;
                &&& r is Ok
                &&& final(pool).words@.len() == old(pool).words@.len() + 512
                &&& spec_entry(*final(root), *final(pool), loc, idx as int) == spec_table_entry(
                    (old(pool).start + old(pool).used) as u64,
                    nc,
                )
                &&& forall|i: int|
                    0 <= i < 512 ==> #[trigger] final(pool).words@[512 * t + i]
                        == spec_page_entry(
                        PagingLevel::L1,
                        (algn + i * spec_level_size(PagingLevel::L1)) as u64,
                        nc,
                    )
            })
        }),
    decreases level_rank(lv), 3int,
{
    let raw = read_entry(root, pool, loc, idx);
    let e = PTBEntry { raw, level: lv, layout };
    let shift = e.shift();
    let algn = if !pg_aligned(shift, addr) {
        pg_align(shift, addr)
    } else {
        addr
    };
    let mut nconf = *conf;
    nconf.large = false;
    nconf.modifier = crate::ptb::PG_OP_ADDR | crate::ptb::PG_OP_PVL | crate::ptb::PG_OP_MMT;
    nconf.pg_attr = raw & (conf.pvl_msk | conf.mmt_msk);
    proof {
        lemma_engine_bounds();
        crate::ptb::lemma_level_shift_cases(lv);
        crate::ptb::lemma_level_size_bounds(shift);
        crate::pgutils::lemma_pg_size_pos(shift);
        crate::utils::lemma_align_props(addr, 1u64 << shift);
    }
    entry_unmap(root, pool, layout, loc, idx, lv, algn, &nconf)?;
    entry_map(root, pool, layout, loc, idx, lv, algn, &nconf)
}

/// Reach the entry of the next finer level that covers `addr`, allocating
/// the sub-table when the entry is empty and splitting it when it maps a
/// large page.
pub fn entry_next(
    root: &mut MMUTable64,
    pool: &mut PagePool,
    layout: EntryLayout,
    loc: TableLoc,
    idx: usize,
    lv: PagingLevel,
    addr: u64,
    conf: &PagingConfig,
) -> (r: Result<(TableLoc, usize), VmmError>)
    requires
        old(root).wf(),
        old(pool).wf(),
        old(pool).size >= 4096,
        loc_ok(*old(root), *old(pool), loc),
        idx < 512,
        entry_addr_ok(lv, addr),
        lv != PagingLevel::L1,
    ensures
        final(root).wf(),
        pool_preserved(*old(pool), *final(pool)),
        r matches Ok((l, i)) ==> loc_ok(*final(root), *final(pool), l) && i < 512,
    decreases level_rank(lv), 4int,
{
    proof {
        lemma_engine_bounds();
        crate::ptb::lemma_level_shift_cases(lv);
        crate::ptb::lemma_level_size_bounds(spec_level_shift(lv));
    }
    let raw = read_entry(root, pool, loc, idx);
    let e = PTBEntry { raw, level: lv, layout };
    if !e.present() {
        let nt = match pool.get_page() {
            None => {
                return Err(VmmError::OutOfMemory);
            },
            Some(a) => a,
        };
        let mut e2 = PTBEntry { raw, level: lv, layout };
        e2.set_table(nt, conf);
        write_entry(root, pool, loc, idx, e2.raw);
    } else if e.is_large() {
        entry_finest(root, pool, layout, loc, idx, lv, addr, conf)?;
    }
    let raw2 = read_entry(root, pool, loc, idx);
    let e3 = PTBEntry { raw: raw2, level: lv, layout };
    let sub = match pool.frame_of(e3.table_addr()) {
        None => {
            return Err(VmmError::BadTable);
        },
        Some(t) => t,
    };
    let next = match pg_level_next(lv) {
        None => {
            return Err(VmmError::BadTable);
        },
        Some(n) => n,
    };
    let nshift = pg_level_shift(next);
    proof {
        assert((addr >> nshift) & 0x1ff < 512) by (bit_vector);
    }
    let nidx = ((addr >> nshift) & 0x1ff) as usize;
    Ok((TableLoc::Frame(sub), nidx))
}

/// Map all 512 entries of a table, each covering one level-sized stride.
/// On a table of non-present entries, at a level the configuration maps
/// as pages, the fill is owed success and exact: entry `i` becomes the
/// page entry for the `i`-th stride, and nothing else changes.
pub fn table_map(
    root: &mut MMUTable64,
    pool: &mut PagePool,
    layout: EntryLayout,
    loc: TableLoc,
    lv: PagingLevel,
    addr: u64,
    conf: &PagingConfig,
) -> (r: Result<(), VmmError>)
    requires
        old(root).wf(),
        old(pool).wf(),
        old(pool).size >= 4096,
        loc_ok(*old(root), *old(pool), loc),
        table_addr_ok(lv, addr),
        lv != PagingLevel::L4,
    ensures
        final(root).wf(),
        pool_preserved(*old(pool), *final(pool)),
        loc_ok(*final(root), *final(pool), loc),
        ({
            match loc {
                TableLoc::Frame(t) => ({
                    &&& spec_can_be_a_page(lv, *conf)
                    &&& forall|i: int|
                        0 <= i < 512 ==> !spec_present(
                            layout,
                            #[trigger] old(pool).words@[512 * t + i],
                        )
                }) ==> ({
                    &&& r is Ok
                    &&& *final(root) == *old(root)
                    &&& final(pool).words@.len() == old(pool).words@.len()
                    &&& final(pool).used == old(pool).used
                    &&& forall|i: int|
                        0 <= i < 512 ==> #[trigger] final(pool).words@[512 * t + i]
                            == spec_page_entry(lv, (addr + i * spec_level_size(lv)) as u64, *conf)
                    &&& forall|j: int|
                        0 <= j < old(pool).words@.len() && !(512 * t <= j < 512 * t + 512)
                            ==> #[trigger] final(pool).words@[j] == old(pool).words@[j]
                }),
                TableLoc::Root => true,
            }
        }),
    decreases level_rank(lv), 3int,
{
    let psz = pg_level_size(lv);
    proof {
        lemma_engine_bounds();
        crate::ptb::lemma_level_shift_cases(lv);
        crate::ptb::lemma_level_size_bounds(spec_level_shift(lv));
    }
    let ghost fresh = match loc {
        TableLoc::Frame(t) => spec_can_be_a_page(lv, *conf) && forall|q: int|
            0 <= q < 512 ==> !spec_present(layout, #[trigger] old(pool).words@[512 * t + q]),
        TableLoc::Root => false,
    };
    let ghost tfr: usize = match loc {
        TableLoc::Frame(t) => t,
        TableLoc::Root => 0,
    };
    let mut pa = addr;
    let mut i: usize = 0;
    while i < 512
        invariant
            root.wf(),
            pool.wf(),
            pool.size >= 4096,
            pool_preserved(*old(pool), *pool),
            loc_ok(*root, *pool, loc),
            pa == addr + i * spec_level_size(lv),
            i <= 512,
            table_addr_ok(lv, addr),
            psz == spec_level_size(lv),
            fresh == (match loc {
                TableLoc::Frame(t) => spec_can_be_a_page(lv, *conf) && forall|q: int|
                    0 <= q < 512 ==> !spec_present(
                        layout,
                        #[trigger] old(pool).words@[512 * t + q],
                    ),
                TableLoc::Root => false,
            }),
            fresh ==> loc == TableLoc::Frame(tfr),
            fresh ==> *root == *old(root) && pool.words@.len() == old(pool).words@.len()
                && pool.used == old(pool).used,
            fresh ==> forall|q: int|
                0 <= q < i ==> #[trigger] pool.words@[512 * tfr + q] == spec_page_entry(
                    lv,
                    (addr + q * spec_level_size(lv)) as u64,
                    *conf,
                ),
            fresh ==> forall|q: int|
                i <= q < 512 ==> #[trigger] pool.words@[512 * tfr + q] == old(
                    pool,
                ).words@[512 * tfr + q],
            fresh ==> forall|j: int|
                0 <= j < old(pool).words@.len() && !(512 * tfr <= j < 512 * tfr + 512)
                    ==> #[trigger] pool.words@[j] == old(pool).words@[j],
        decreases 512 - i,
    {
        proof {
            assert(i * spec_level_size(lv) + spec_level_size(lv) <= 512 * spec_level_size(lv)
                && (i + 1) * spec_level_size(lv) == i * spec_level_size(lv) + spec_level_size(
                lv,
            )) by (nonlinear_arith)
                requires
                    i < 512,
            ;
        }
        let ghost pre_pool = *pool;
        entry_map(root, pool, layout, loc, i, lv, pa, conf)?;
        proof {
            if fresh {
                assert(spec_entry(*old(root), pre_pool, loc, i as int) == pre_pool.words@[512
                    * tfr + i]);
                assert(pool.words@ == pre_pool.words@.update(
                    512 * tfr + i,
                    spec_page_entry(lv, pa, *conf),
                ));
            }
        }
        pa = pa + psz;
        i = i + 1;
    }
    Ok(())
}

/// Unmap all 512 entries of a table.
pub fn table_unmap(
    root: &mut MMUTable64,
    pool: &mut PagePool,
    layout: EntryLayout,
    loc: TableLoc,
    lv: PagingLevel,
    addr: u64,
    conf: &PagingConfig,
) -> (r: Result<(), VmmError>)
    requires
        old(root).wf(),
        old(pool).wf(),
        loc_ok(*old(root), *old(pool), loc),
        table_addr_ok(lv, addr),
        lv != PagingLevel::L4,
    ensures
        final(root).wf(),
        pool_preserved(*old(pool), *final(pool)),
        final(pool).words@.len() == old(pool).words@.len(),
        loc_ok(*final(root), *final(pool), loc),
    decreases level_rank(lv), 1int,
{
    let psz = pg_level_size(lv);
    proof {
        lemma_engine_bounds();
        crate::ptb::lemma_level_shift_cases(lv);
        crate::ptb::lemma_level_size_bounds(spec_level_shift(lv));
    }
    let mut pa = addr;
    let mut i: usize = 0;
    while i < 512
        invariant
            root.wf(),
            pool.wf(),
            pool_preserved(*old(pool), *pool),
            pool.words@.len() == old(pool).words@.len(),
            loc_ok(*root, *pool, loc),
            pa == addr + i * spec_level_size(lv),
            i <= 512,
            table_addr_ok(lv, addr),
            psz == spec_level_size(lv),
        decreases 512 - i,
    {
        proof {
            assert(i * spec_level_size(lv) + spec_level_size(lv) <= 512 * spec_level_size(lv)
                && (i + 1) * spec_level_size(lv) == i * spec_level_size(lv) + spec_level_size(
                lv,
            )) by (nonlinear_arith)
                requires
                    i < 512,
            ;
        }
        entry_unmap(root, pool, layout, loc, i, lv, pa, conf)?;
        pa = pa + psz;
        i = i + 1;
    }
    Ok(())
}

/// Resolve the entry of level `lv` covering `addr` and apply the operation
/// to it.
pub fn do_op(
    root: &mut MMUTable64,
    pool: &mut PagePool,
    layout: EntryLayout,
    addr: u64,
    conf: &PagingConfig,
    op: MapOp,
    lv: PagingLevel,
) -> (r: Result<(), VmmError>)
    requires
        old(root).wf(),
        old(pool).wf(),
        old(pool).size >= 4096,
        addr <= 1u64 << 60,
    ensures
        final(root).wf(),
        pool_preserved(*old(pool), *final(pool)),
    decreases 5int, 0int,
{
    proof {
        lemma_engine_bounds();
        crate::ptb::lemma_level_shift_cases(lv);
        crate::ptb::lemma_level_size_bounds(spec_level_shift(lv));
        crate::ptb::lemma_level_size_bounds(39);
        crate::ptb::lemma_level_size_bounds(30);
        crate::ptb::lemma_level_size_bounds(21);
    }
    let mut loc = TableLoc::Root;
    let mut idx = crate::pgutils::pml4_idx(addr);
    if matches!(lv, PagingLevel::L3 | PagingLevel::L2 | PagingLevel::L1) {
        let (l, i) = entry_next(root, pool, layout, loc, idx, PagingLevel::L4, addr, conf)?;
        loc = l;
        idx = i;
    }
    if matches!(lv, PagingLevel::L2 | PagingLevel::L1) {
        let (l, i) = entry_next(root, pool, layout, loc, idx, PagingLevel::L3, addr, conf)?;
        loc = l;
        idx = i;
    }
    if matches!(lv, PagingLevel::L1) {
        let (l, i) = entry_next(root, pool, layout, loc, idx, PagingLevel::L2, addr, conf)?;
        loc = l;
        idx = i;
    }
    match op {
        MapOp::MapPages => entry_map(root, pool, layout, loc, idx, lv, addr, conf),
        MapOp::UnmapPages => entry_unmap(root, pool, layout, loc, idx, lv, addr, conf),
        MapOp::RemapPages => entry_remap(root, pool, layout, loc, idx, lv, addr, conf),
    }
}

/// Backward pass: from `start`, emit the largest aligned pages of this
/// level once the range crosses the level's table boundary, recursing to
/// finer levels for the unaligned low edge.  Returns the address the pass
/// reached, bounded by `upper`.
pub fn rec_op_bw(
    root: &mut MMUTable64,
    pool: &mut PagePool,
    layout: EntryLayout,
    start: u64,
    end: u64,
    upper: u64,
    conf: &PagingConfig,
    op: MapOp,
    lv: PagingLevel,
) -> (r: Result<u64, VmmError>)
    requires
        old(root).wf(),
        old(pool).wf(),
        old(pool).size >= 4096,
        start <= 1u64 << 59,
        end <= 1u64 << 59,
        upper <= (1u64 << 59) + (1u64 << 39),
    ensures
        final(root).wf(),
        pool_preserved(*old(pool), *final(pool)),
        r matches Ok(a) ==> a <= (1u64 << 59) + (1u64 << 40),
    decreases 6int, level_rank(lv),
{
    let psz = pg_level_size(lv);
    let psh = pg_level_shift(lv);
    proof {
        lemma_engine_bounds();
        crate::ptb::lemma_level_shift_cases(lv);
        crate::ptb::lemma_level_size_bounds(psh);
        crate::pgutils::lemma_pg_size_pos(psh);
        crate::utils::lemma_align_props(start, 1u64 << psh);
        crate::utils::lemma_align_props(end, 1u64 << psh);
    }
    let mut addr: u64 = match pg_level_next(lv) {
        None => pg_align(psh, start),
        Some(next) => {
            let start_up = pg_align_next(psh, start);
            proof {
                crate::utils::lemma_align_props((start + (1u64 << psh)) as u64, 1u64 << psh);
            }
            let s_idx = start >> psh;
            let e_idx = end >> psh;
            let diff_tbl = s_idx != e_idx;
            if diff_tbl && pg_aligned(psh, start) {
                do_op(root, pool, layout, start, conf, op, lv)?;
                start_up
            } else {
                rec_op_bw(root, pool, layout, start, end, start_up, conf, op, next)?
            }
        },
    };
    let bound = crate::utils::min(pg_align(psh, end), upper);
    while addr < bound
        invariant
            root.wf(),
            pool.wf(),
            pool.size >= 4096,
            pool_preserved(*old(pool), *pool),
            addr <= (1u64 << 59) + (1u64 << 40),
            bound <= (1u64 << 59) + (1u64 << 39),
            psz == spec_level_size(lv),
            4096 <= psz <= (1u64 << 39),
        decreases (1u64 << 61) - addr,
    {
        proof {
            lemma_engine_bounds();
        }
        do_op(root, pool, layout, addr, conf, op, lv)?;
        addr = addr + psz;
    }
    Ok(addr)
}

/// Forward pass: emit as many full pages of this level as fit before
/// `end`, then recurse to the next finer level for the unaligned tail.
pub fn rec_op_fw(
    root: &mut MMUTable64,
    pool: &mut PagePool,
    layout: EntryLayout,
    start: u64,
    end: u64,
    conf: &PagingConfig,
    op: MapOp,
    lv: PagingLevel,
) -> (r: Result<(), VmmError>)
    requires
        old(root).wf(),
        old(pool).wf(),
        old(pool).size >= 4096,
        start <= (1u64 << 59) + (1u64 << 40),
        end <= 1u64 << 59,
    ensures
        final(root).wf(),
        pool_preserved(*old(pool), *final(pool)),
    decreases 6int, level_rank(lv),
{
    let psz = pg_level_size(lv);
    let psh = pg_level_shift(lv);
    proof {
        lemma_engine_bounds();
        crate::ptb::lemma_level_shift_cases(lv);
        crate::ptb::lemma_level_size_bounds(psh);
        crate::pgutils::lemma_pg_size_pos(psh);
        crate::utils::lemma_align_props(end, 1u64 << psh);
    }
    let mut addr = start;
    let bound = pg_align(psh, end);
    while addr < bound
        invariant
            root.wf(),
            pool.wf(),
            pool.size >= 4096,
            pool_preserved(*old(pool), *pool),
            addr <= (1u64 << 59) + (1u64 << 40),
            bound <= 1u64 << 59,
            psz == spec_level_size(lv),
            4096 <= psz <= (1u64 << 39),
        decreases (1u64 << 61) - addr,
    {
        proof {
            lemma_engine_bounds();
        }
        do_op(root, pool, layout, addr, conf, op, lv)?;
        addr = addr + psz;
    }
    if let Some(nxt_lv) = pg_level_next(lv) {
        if !pg_aligned(psh, end) {
            rec_op_fw(root, pool, layout, addr, end, conf, op, nxt_lv)?;
        }
    }
    Ok(())
}

impl PagingEnv {
    /// Apply one operation to the byte range `[start, end)`: the backward
    /// pass aligns the low edge, the forward pass finishes the rest.
    /// A zero-length range is a no-op.
    pub fn operate(
        &mut self,
        pool: &mut PagePool,
        start: u64,
        end: u64,
        op: MapOp,
        conf: &PagingConfig,
    ) -> (r: Result<(), VmmError>)
        requires
            old(self).wf(),
            old(pool).wf(),
            old(pool).size >= 4096,
            start <= 1u64 << 59,
            end <= 1u64 << 59,
            conf.map_top <= 1u64 << 59,
        ensures
            final(self).wf(),
            pool_preserved(*old(pool), *final(pool)),
            final(self).asid == old(self).asid,
            final(self).layout == old(self).layout,
            start >= end ==> *final(self) == *old(self) && *final(pool) == *old(pool),
        decreases 7int, 0int,
    {
        proof {
            lemma_engine_bounds();
        }
        if start >= end {
            return Ok(());
        }
        let layout = self.layout;
        let fw = rec_op_bw(
            &mut self.root,
            pool,
            layout,
            start,
            end,
            conf.map_top,
            conf,
            op,
            PagingLevel::L4,
        )?;
        rec_op_fw(&mut self.root, pool, layout, fw, end, conf, op, PagingLevel::L4)
    }

    /// Map `[start, end)`; mapping a zero-length range changes nothing.
    pub fn map(
        &mut self,
        pool: &mut PagePool,
        start: u64,
        end: u64,
        conf: &PagingConfig,
    ) -> (r: Result<(), VmmError>)
        requires
            old(self).wf(),
            old(pool).wf(),
            old(pool).size >= 4096,
            start <= 1u64 << 59,
            end <= 1u64 << 59,
            conf.map_top <= 1u64 << 59,
        ensures
            final(self).wf(),
            pool_preserved(*old(pool), *final(pool)),
            final(self).asid == old(self).asid,
            final(self).layout == old(self).layout,
            start >= end ==> *final(self) == *old(self) && *final(pool) == *old(pool),
    {
        self.operate(pool, start, end, MapOp::MapPages, conf)
    }

    /// Unmap `[start, end)`; unmapping a zero-length range changes nothing.
    pub fn unmap(
        &mut self,
        pool: &mut PagePool,
        start: u64,
        end: u64,
        conf: &PagingConfig,
    ) -> (r: Result<(), VmmError>)
        requires
            old(self).wf(),
            old(pool).wf(),
            old(pool).size >= 4096,
            start <= 1u64 << 59,
            end <= 1u64 << 59,
            conf.map_top <= 1u64 << 59,
        ensures
            final(self).wf(),
            pool_preserved(*old(pool), *final(pool)),
            final(self).asid == old(self).asid,
            final(self).layout == old(self).layout,
            start >= end ==> *final(self) == *old(self) && *final(pool) == *old(pool),
    {
        self.operate(pool, start, end, MapOp::UnmapPages, conf)
    }

    /// Remap `[start, end)`: the range is resolved, but the operation is
    /// rejected at entry level (remapping is not implemented).
    pub fn remap(
        &mut self,
        pool: &mut PagePool,
        start: u64,
        end: u64,
        conf: &PagingConfig,
    ) -> (r: Result<(), VmmError>)
        requires
            old(self).wf(),
            old(pool).wf(),
            old(pool).size >= 4096,
            start <= 1u64 << 59,
            end <= 1u64 << 59,
            conf.map_top <= 1u64 << 59,
        ensures
            final(self).wf(),
            pool_preserved(*old(pool), *final(pool)),
            start >= end ==> *final(self) == *old(self) && *final(pool) == *old(pool),
    {
        self.operate(pool, start, end, MapOp::RemapPages, conf)
    }
}

/// The walk's one step from the entry at `(loc, idx)` of level `lv`: a
/// non-present entry, a page entry and the finest level end it there; a
/// table entry descends into the referenced pool frame, or fails when the
/// reference leaves the pool.
pub open spec fn spec_resolve_at(
    root: MMUTable64,
    pool: PagePool,
    layout: EntryLayout,
    addr: u64,
    loc: TableLoc,
    idx: int,
    lv: PagingLevel,
) -> Result<PTBEntry, VmmError>
    decreases level_rank(lv),
{
    let raw = spec_entry(root, pool, loc, idx);
    let e = PTBEntry { raw, level: lv, layout };
    if !spec_present(layout, raw) || spec_is_page(lv, raw) {
        Ok(e)
    } else {
        match spec_level_next(lv) {
            None => Ok(e),
            Some(next) => match pool.spec_frame_of(crate::ptb::spec_table_addr(raw)) {
                None => Err(VmmError::BadTable),
                Some(t) => spec_resolve_at(
                    root,
                    pool,
                    layout,
                    addr,
                    TableLoc::Frame(t as usize),
                    ((addr >> spec_level_shift(next)) & 0x1ff) as int,
                    next,
                ),
            },
        }
    }
}

/// The 4-level walk for `addr`, from the environment's root.
pub open spec fn spec_resolve(env: PagingEnv, pool: PagePool, addr: u64) -> Result<
    PTBEntry,
    VmmError,
> {
    spec_resolve_at(
        env.root,
        pool,
        env.layout,
        addr,
        TableLoc::Root,
        ((addr >> 39) & 0x1ff) as int,
        PagingLevel::L4,
    )
}

/// Walk the tables for `addr` without modifying them: the entry that
/// covers the address, with its level, or the non-present entry where the
/// walk stops.  The result is exactly the walk [`spec_resolve`] names.
pub fn resolve(
    env: &PagingEnv,
    pool: &PagePool,
    addr: u64,
) -> (r: Result<PTBEntry, VmmError>)
    requires
        env.wf(),
        pool.wf(),
    ensures
        r == spec_resolve(*env, *pool, addr),
        r matches Ok(e) ==> e.layout == env.layout,
{
    let mut loc = TableLoc::Root;
    let layout = env.layout;
    let mut idx = crate::pgutils::pml4_idx(addr);
    let mut lv = PagingLevel::L4;
    loop
        invariant
            env.wf(),
            pool.wf(),
            loc_ok(env.root, *pool, loc),
            idx < 512,
            layout == env.layout,
            spec_resolve(*env, *pool, addr) == spec_resolve_at(
                env.root,
                *pool,
                layout,
                addr,
                loc,
                idx as int,
                lv,
            ),
        decreases level_rank(lv),
    {
        let raw = read_entry(&env.root, pool, loc, idx);
        let e = PTBEntry { raw, level: lv, layout };
        if !e.present() || e.is_page() {
            return Ok(e);
        }
        let next = match pg_level_next(lv) {
            None => {
                return Ok(e);
            },
            Some(n) => n,
        };
        let sub = match pool.frame_of(e.table_addr()) {
            None => {
                return Err(VmmError::BadTable);
            },
            Some(t) => t,
        };
        let nshift = pg_level_shift(next);
        proof {
            assert((addr >> nshift) & 0x1ff < 512) by (bit_vector);
        }
        loc = TableLoc::Frame(sub);
        idx = ((addr >> nshift) & 0x1ff) as usize;
        lv = next;
    }
}

} // verus!
