use vmxcore::mmap::{resolve, MapOp};
use vmxcore::pgutils;
use vmxcore::pool::PagePool;
use vmxcore::ptb::{EntryLayout, PagingConfig, PagingEnv, PagingLevel};
use vmxcore::utils;

fn vmm_conf() -> PagingConfig {
    PagingConfig::for_vmm(0xFFFF_FFFF_FFFF, true, false)
}

fn vm_conf() -> PagingConfig {
    // MTRRs enabled, default type write-back.
    PagingConfig::for_vm(0x1F_FFFF, true, false, vmxcore::ept::attr_dft(true, 6))
}

#[test]
fn align_next_on_aligned_advances_by_one_unit() {
    assert_eq!(utils::align_next(0x2000, 0x1000), 0x3000);
    assert_eq!(utils::align_next(0, 0x1000), 0x1000);
    assert_eq!(utils::align_next(0x2001, 0x1000), 0x3000);
    assert_eq!(utils::align(0x2fff, 0x1000), 0x2000);
    assert!(utils::aligned(0x2000, 0x1000));
    assert!(!utils::aligned(0x2001, 0x1000));
}

#[test]
fn page_utilities_compute_expected_values() {
    assert_eq!(pgutils::addr_mask(12), 0x000F_FFFF_FFFF_F000);
    assert_eq!(pgutils::addr_mask(21), 0x000F_FFFF_FFE0_0000);
    assert_eq!(pgutils::pfn(0x7F80_000), 0x7F80);
    assert_eq!(pgutils::pml4_idx(1 << 39), 1);
    assert_eq!(pgutils::pdp_idx(1 << 30), 1);
    assert_eq!(pgutils::pd64_idx(2 << 21), 2);
    assert_eq!(pgutils::pt64_idx(3 << 12), 3);
    assert_eq!(pgutils::pg_size(12), 4096);
}

#[test]
fn mapping_two_megabytes_coalesces_into_one_large_entry() {
    let mut env = PagingEnv::new(EntryLayout::Native);
    let mut pool = PagePool::empty(0x100000, 200 * 4096);
    let conf = vmm_conf();
    env.map(&mut pool, 0, 0x200000, &conf).unwrap();
    // Only the L3 and L2 tables were allocated: no L1 table exists.
    assert_eq!(pool.words.len(), 2 * 512);
    let e = resolve(&env, &pool, 0).unwrap();
    assert_eq!(e.level, PagingLevel::L2);
    // PS flag set, mapping frame 0 with kernel read-write present bits.
    assert_eq!(e.raw, pgutils::PG_PS | pgutils::PG_RW | pgutils::PG_P);
}

#[test]
fn mapping_one_page_splits_the_large_entry_and_keeps_attributes() {
    let mut env = PagingEnv::new(EntryLayout::Ept);
    let mut pool = PagePool::empty(0x100000, 200 * 4096);
    let conf = vm_conf();
    env.map(&mut pool, 0, 0x200000, &conf).unwrap();
    assert_eq!(pool.words.len(), 2 * 512);
    let mut small = conf;
    small.large = false;
    env.map(&mut pool, 0, 0x1000, &small).unwrap();
    // One more table: the L1 the split allocated.
    assert_eq!(pool.words.len(), 3 * 512);
    let e0 = resolve(&env, &pool, 0).unwrap();
    assert_eq!(e0.level, PagingLevel::L1);
    // First entry points at frame 0 with the requested attributes.
    assert_eq!(e0.raw, 0x37);
    // Entries 1..512 keep the privilege and memory type of the old
    // large mapping.
    for i in 1..512u64 {
        let e = resolve(&env, &pool, i * 4096).unwrap();
        assert_eq!(e.level, PagingLevel::L1);
        assert_eq!(e.raw, (i * 4096) | 0x37);
    }
}

#[test]
fn mapping_an_empty_range_changes_nothing() {
    let mut env = PagingEnv::new(EntryLayout::Native);
    let mut pool = PagePool::empty(0x100000, 200 * 4096);
    let conf = vmm_conf();
    env.map(&mut pool, 0x1234, 0x1234, &conf).unwrap();
    assert_eq!(pool.words.len(), 0);
    for i in 0..512 {
        assert_eq!(env.root.get(i), 0);
    }
    env.unmap(&mut pool, 0x5000, 0x5000, &conf).unwrap();
    assert_eq!(pool.words.len(), 0);
}

#[test]
fn map_then_unmap_leaves_no_present_entry() {
    let mut env = PagingEnv::new(EntryLayout::Ept);
    let mut pool = PagePool::empty(0x100000, 200 * 4096);
    let conf = vm_conf();
    env.map(&mut pool, 0xA0000, 0xC0000, &conf).unwrap();
    let e = resolve(&env, &pool, 0xA0000).unwrap();
    assert_eq!(e.raw & 7, 7);
    env.unmap(&mut pool, 0xA0000, 0xC0000, &conf).unwrap();
    for a in (0xA0000..0xC0000u64).step_by(4096) {
        let e = resolve(&env, &pool, a).unwrap();
        assert_eq!(e.raw & 7, 0, "address {a:#x} still mapped");
    }
}

#[test]
fn remap_is_refused_at_entry_level() {
    let mut env = PagingEnv::new(EntryLayout::Native);
    let mut pool = PagePool::empty(0x100000, 200 * 4096);
    let conf = vmm_conf();
    assert!(matches!(
        env.operate(&mut pool, 0, 0x1000, MapOp::RemapPages, &conf),
        Err(vmxcore::VmmError::Unsupported)
    ));
}

#[test]
fn ept_identity_map_applies_mtrr_types_and_hides_the_secret_area() {
    // Default type write-back; one variable MTRR makes the VGA hole
    // uncacheable; the secret area at the top of the 2 MiB of RAM is
    // unmapped last.
    let mut env = PagingEnv::new(EntryLayout::Ept);
    let mut pool = PagePool::empty(0x400000, 200 * 4096);
    let conf = vm_conf();
    let mtrr = vmxcore::mtrr::MTRRInfo {
        cap: vmxcore::mtrr::IA32MTRRCap(1),
        def: vmxcore::mtrr::IA32MTRRDef(0x806),
    };
    let max_paddr = 0x1F_FFFF;
    let vars = vec![vmxcore::ept::MtrrPair {
        base: 0xA0000, // type 0 = UC
        mask: (max_paddr - 0x1FFFF) | 0x800,
    }];
    let fixed_words = vec![0u64; 11];
    let area = vmxcore::smem::SecretArea {
        start: 0x180000,
        end: 0x200000,
        size: 0x80000,
    };
    vmxcore::ept::init(
        &mut env,
        &mut pool,
        &conf,
        0x200000,
        &mtrr,
        &vars,
        &fixed_words,
        &area,
        max_paddr,
    )
    .unwrap();
    assert_eq!(env.asid, 1);
    // The MTRR range reads back uncacheable.
    let e = resolve(&env, &pool, 0xA0000).unwrap();
    assert_eq!(e.raw & 7, 7, "present with full privilege");
    assert_eq!(e.raw & 0x38, 0, "memory type UC");
    // Ordinary RAM keeps the write-back default.
    let e = resolve(&env, &pool, 0x100000).unwrap();
    assert_eq!(e.raw & 0x38, 6 << 3, "memory type WB");
    // Every frame of the secret area walks to a non-present entry.
    for a in (area.start..area.end).step_by(4096) {
        let e = resolve(&env, &pool, a).unwrap();
        assert_eq!(e.raw & 7, 0, "secret frame {a:#x} reachable");
    }
}

#[test]
fn map_then_unmap_restores_the_tables_byte_for_byte() {
    // Once the walk path for a range exists and its leaves are clear,
    // mapping and unmapping it again returns every table — and the
    // pool itself — to the same bytes.
    let mut env = PagingEnv::new(EntryLayout::Ept);
    let mut pool = PagePool::empty(0x100000, 200 * 4096);
    let conf = vm_conf();
    env.map(&mut pool, 0xA0000, 0xC0000, &conf).unwrap();
    env.unmap(&mut pool, 0xA0000, 0xC0000, &conf).unwrap();
    let root_before: Vec<u64> = (0..512).map(|i| env.root.get(i)).collect();
    let words_before = pool.words.clone();
    env.map(&mut pool, 0xA0000, 0xC0000, &conf).unwrap();
    env.unmap(&mut pool, 0xA0000, 0xC0000, &conf).unwrap();
    for i in 0..512 {
        assert_eq!(env.root.get(i), root_before[i], "root entry {i}");
    }
    assert_eq!(pool.words, words_before);
}
