use vmxcore::elf64;
use vmxcore::regs::{MsrPair, VmxMsrWords};
use vmxcore::segmentation::SegmentSelector;
use vmxcore::smem::{self, BootSizes, MemRegion, Module, RegionKind};

/// A minimal image: one `PT_LOAD` segment of 0x1000 file bytes and
/// 0x1100 memory bytes, and one relative relocation.
fn sample_image() -> Vec<u8> {
    let mut img = vec![0u8; 0x1200];
    img[18] = 62; // x86-64
    img[24..32].copy_from_slice(&0x123u64.to_le_bytes()); // entry
    img[32..40].copy_from_slice(&64u64.to_le_bytes()); // program headers
    img[40..48].copy_from_slice(&0x120u64.to_le_bytes()); // section headers
    img[56..58].copy_from_slice(&1u16.to_le_bytes()); // one phdr
    img[60..62].copy_from_slice(&1u16.to_le_bytes()); // one shdr
    // Program header: PT_LOAD, data at 0x200, 0x1000 file / 0x1100 mem.
    img[64..68].copy_from_slice(&1u32.to_le_bytes());
    img[72..80].copy_from_slice(&0x200u64.to_le_bytes());
    img[80..88].copy_from_slice(&0u64.to_le_bytes()); // p_vaddr
    img[96..104].copy_from_slice(&0x1000u64.to_le_bytes());
    img[104..112].copy_from_slice(&0x1100u64.to_le_bytes());
    img[112..120].copy_from_slice(&0x1000u64.to_le_bytes()); // p_align
    // Section header at 0x120: SHT_RELA, one 24-byte entry at 0x178.
    img[0x124..0x128].copy_from_slice(&4u32.to_le_bytes());
    img[0x138..0x140].copy_from_slice(&0x178u64.to_le_bytes());
    img[0x140..0x148].copy_from_slice(&24u64.to_le_bytes());
    img[0x158..0x160].copy_from_slice(&24u64.to_le_bytes());
    // The relocation: *(base + 0x10) = base + 0x40.
    img[0x178..0x180].copy_from_slice(&0x10u64.to_le_bytes());
    img[0x180..0x188].copy_from_slice(&8u64.to_le_bytes());
    img[0x188..0x190].copy_from_slice(&0x40u64.to_le_bytes());
    // Recognizable payload.
    for i in 0..0x1000 {
        img[0x200 + i] = (i % 251) as u8;
    }
    img
}

#[test]
fn module_load_copies_zero_fills_and_relocates() {
    let img = sample_image();
    let mut mem = vec![0xAAu8; 0x202000];
    elf64::module_load(&img, &mut mem, 0x200000).unwrap();
    // The file bytes arrived, except where the fix-up landed.
    for i in 0..0x1000usize {
        if (0x10..0x18).contains(&i) {
            continue;
        }
        assert_eq!(mem[0x200000 + i], img[0x200 + i], "byte {i:#x}");
    }
    // Exactly the next 0x100 bytes are zero.
    for i in 0x1000..0x1100usize {
        assert_eq!(mem[0x200000 + i], 0, "pad byte {i:#x}");
    }
    assert_eq!(mem[0x200000 + 0x1100], 0xAA, "byte past the image");
    // The relocated quadword holds base + addend.
    let q = u64::from_le_bytes(mem[0x200010..0x200018].try_into().unwrap());
    assert_eq!(q, 0x200040);
    assert_eq!(elf64::module_size(&img), Ok(0x1100));
    assert_eq!(elf64::module_align(&img), Ok(0x1000));
    assert_eq!(elf64::module_entry(&img), Ok(0x123));
}

#[test]
fn module_align_widens_tiny_alignments() {
    let mut img = sample_image();
    img[112..120].copy_from_slice(&1u64.to_le_bytes());
    assert_eq!(elf64::module_align(&img), Ok(16));
}

#[test]
fn module_load_rejects_wrong_machine_and_bad_relocation() {
    let mut img = sample_image();
    img[18] = 3;
    let mut mem = vec![0u8; 0x202000];
    assert_eq!(
        elf64::module_load(&img, &mut mem, 0x200000),
        Err(vmxcore::VmmError::InvalidElf)
    );
    let mut img = sample_image();
    img[0x180..0x188].copy_from_slice(&7u64.to_le_bytes());
    assert_eq!(
        elf64::module_load(&img, &mut mem, 0x200000),
        Err(vmxcore::VmmError::InvalidRelocation)
    );
}

#[test]
fn secret_carve_places_the_information_block() {
    // 128 MiB of RAM whose usable area also ends at 128 MiB; the sizes
    // sum to exactly 0x80000 bytes of need.
    let sizes = BootSizes {
        min_stack: 0x3000,
        pool: 0x32000,
        vmm_vmc: 0x1000,
        vm_vmc: 0x7000,
        seg: 0x1000,
        elf_align: 0x1000,
        elf: 0x30000,
        pfr: 0xFE0,
        smap: 0xF008,
        info: 0x18,
    };
    let l = smem::init(0x8000000, &sizes).unwrap();
    assert_eq!(l.need, 0x80000);
    assert_eq!(l.secret.start, 0x7F80000);
    assert_eq!(l.secret.end, 0x8000000);
    assert_eq!(l.secret.size, 0x80000);
    // The information block sits at the top, just below its own bytes.
    assert_eq!(l.info_addr, l.secret.start + l.need - 0x18);
    // The fixed objects stack up in order.
    assert_eq!(l.stack, l.secret.start + 0x3000);
    assert_eq!(l.pool_start, l.stack);
    assert_eq!(l.vmm_root, l.pool_start + 0x32000);
    assert_eq!(l.vm_root, l.vmm_root + 0x1000);
    assert_eq!(l.vmm_vmc, l.vm_root + 0x1000);
    assert_eq!(l.vm_vmc, l.vmm_vmc + 0x1000);
    assert_eq!(l.seg, l.vm_vmc + 0x7000);
    assert_eq!(l.elf_base, l.secret.start + 0x40000);
    assert_eq!(l.pfr, l.elf_base + 0x30000);
    assert_eq!(l.smap, l.pfr + 0xFE0);
}

#[test]
fn secret_carve_fails_when_the_area_is_too_small() {
    let sizes = BootSizes {
        min_stack: 0x3000,
        pool: 0x32000,
        vmm_vmc: 0x1000,
        vm_vmc: 0x7000,
        seg: 0x1000,
        elf_align: 0x1000,
        elf: 0x30000,
        pfr: 0xFE0,
        smap: 0xF008,
        info: 0x18,
    };
    assert_eq!(
        smem::init(0x40000, &sizes),
        Err(vmxcore::VmmError::AreaTooSmall)
    );
}

#[test]
fn inspect_finds_the_area_end_and_the_ram_end() {
    let regions = vec![
        MemRegion { base: 0, length: 0x9F000, kind: RegionKind::Ram },
        MemRegion { base: 0x9F000, length: 0x61000, kind: RegionKind::Reserved },
        MemRegion { base: 0x100000, length: 0x7F00000, kind: RegionKind::Ram },
    ];
    let (area_end, ram_end, cnt) = smem::inspect(&regions).unwrap();
    assert_eq!(area_end, 0x8000000);
    assert_eq!(ram_end, 0x8000000);
    assert_eq!(cnt, 3);
    let none = vec![MemRegion { base: 0, length: 0x9F000, kind: RegionKind::Ram }];
    assert_eq!(smem::inspect(&none), Err(vmxcore::VmmError::NoAreaEnd));
}

#[test]
fn module_pick_prefers_the_named_image_then_the_second_module() {
    let m = |start: u64, name: &str| Module {
        start,
        end: start + 0x1000,
        name: name.as_bytes().to_vec(),
    };
    let mods = vec![m(0x1000, "initrd"), m(0x2000, "boot/vmm.bin rev"), m(0x3000, "x")];
    assert_eq!(smem::mbi_vmm_elf(&mods), Ok(0x2000));
    let mods = vec![m(0x1000, "a"), m(0x2000, "b")];
    assert_eq!(smem::mbi_vmm_elf(&mods), Ok(0x2000));
    let mods = vec![m(0x1000, "a")];
    assert_eq!(smem::mbi_vmm_elf(&mods), Err(vmxcore::VmmError::NoModule));
}

#[test]
fn system_map_truncates_guest_ram_at_the_secret_area() {
    let regions = vec![
        MemRegion { base: 0, length: 0x9F000, kind: RegionKind::Ram },
        MemRegion { base: 0x100000, length: 0x7F00000, kind: RegionKind::Ram },
        MemRegion { base: 0xFEC00000, length: 0x1000, kind: RegionKind::Reserved },
    ];
    let map = vmxcore::smap::SystemMap::init(0x7F80000, &regions);
    assert_eq!(map.count, 3);
    assert_eq!(map.entries[1].len, 0x7E80000);
    assert_eq!(
        map.entries[1].typ,
        vmxcore::smap::SystemMapEntryType::Available
    );
    assert_eq!(map.entries[2].len, 0x1000);
    assert_eq!(
        map.entries[2].typ,
        vmxcore::smap::SystemMapEntryType::Reserved
    );
    assert_eq!(map.entries[0].len, 0x9F000);
}

#[test]
fn frame_registry_marks_the_secret_frames() {
    let area = vmxcore::smem::SecretArea { start: 0x4000, end: 0x6000, size: 0x2000 };
    let mut hwmm = vmxcore::smem::HardwareMemory::default();
    hwmm.setup(&area, 0x8000);
    assert_eq!(hwmm.phys, 0x100000000);
    let reg = vmxcore::frame::FrameRegistry::init(&hwmm);
    assert_eq!(reg.count, 8);
    for pfn in 0..8u64 {
        let d = reg.get_desc(pfn * 4096).unwrap();
        if (4..6).contains(&pfn) {
            assert_eq!(d.ref_count, 1);
            assert_eq!(d.flags, vmxcore::frame::FrameType::VMM);
        } else {
            assert_eq!(d.ref_count, 0);
            assert_eq!(d.flags, vmxcore::frame::FrameType::VM);
        }
    }
    assert!(reg.get_desc(0x9000).is_none());
}

#[test]
fn platform_probe_applies_the_unrestricted_guest_adjustments() {
    let pair = |lo: u32, hi: u32| MsrPair { lo, hi };
    let words = VmxMsrWords {
        basic: (1 << 54) | (1 << 5),
        misc: 1 << 5,
        pin: pair(0x16, 0xFF),
        proc1: pair(0, 0xFFFF_FFFF),
        entry: pair(0, 0xFFFF_FFFF),
        exit: pair(0, 0xFFFF_FFFF),
        true_pin: pair(0, 0),
        true_proc1: pair(0, 0),
        true_entry: pair(0, 0),
        true_exit: pair(0, 0),
        proc2: pair(0, 0xFFFF_FFFF),
        cr0_fixed: pair(0x8000_0021, 0xFFFF_FFFF),
        cr4_fixed: pair(0x2000, 0xFFFF_FFFF),
        ept_vpid: (1 << 6) | (1 << 14) | (1 << 20) | (1 << 32) | (1 << 42),
    };
    let mut info = vmxcore::regs::VMXInfo::default();
    info.init(&words).unwrap();
    // PE and PG freed for the unrestricted guest, MCE forced on.
    assert_eq!(info.fixed.cr0.allow_0, 0x20);
    assert_eq!(info.fixed.cr0.allow_1, 0xFFFF_FFFF | 0x8000_0001);
    assert_eq!(info.fixed.cr4.allow_0, 0x2040);
    assert_eq!(info.fixed.pin.allow_0, 0x16);
    // A platform without write-back EPT memory is refused.
    let mut bad = words;
    bad.ept_vpid = (1 << 6) | (1 << 20) | (1 << 32) | (1 << 42);
    let mut info = vmxcore::regs::VMXInfo::default();
    assert_eq!(info.init(&bad), Err(vmxcore::VmmError::MissingVmxFeature));
}

#[test]
fn feature_control_decisions() {
    let cpu = vmxcore::cpu::HardwareCPU::default();
    assert_eq!(cpu.lock_enable_vmx(1), Err(vmxcore::VmmError::VmxLockedOff));
    assert_eq!(cpu.lock_enable_vmx(5), Ok(None));
    assert_eq!(cpu.lock_enable_vmx(0), Ok(Some(5)));
    assert_eq!(cpu.lock_enable_vmx(4), Ok(Some(5)));
}

#[test]
fn descriptor_tables_carry_the_expected_words() {
    let gdt = vmxcore::segmentation::gdt_init(0x7FF2000).unwrap();
    assert_eq!(gdt.descs[0], 0);
    assert_eq!(gdt.descs[1], vmxcore::segmentation::CODE64_DESC);
    assert_eq!(gdt.descs[2], vmxcore::segmentation::DATA32_DESC);
    // TSS descriptor: limit 104, base spread over its byte fields,
    // present system type 9.
    let low = gdt.descs[3];
    assert_eq!(low & 0xFFFF, 104);
    assert_eq!((low >> 16) & 0xFFFF, 0x2000);
    assert_eq!((low >> 32) & 0xFF, 0xFF);
    assert_eq!((low >> 40) & 0xF, 9);
    assert_eq!((low >> 47) & 1, 1);
    assert_eq!((low >> 56) & 0xFF, 0x07);
    assert_eq!(gdt.descs[4], 0x7FF2000 >> 32);
    let idt = vmxcore::interrupts::VmmIDT::init(8, 0x7F90000);
    assert_eq!(idt.gates.len(), 256);
    let g0 = idt.gates[0];
    assert_eq!(g0.low & 0xFFFF, 0x0010, "first stub offset low word");
    assert_eq!((g0.low >> 16) & 0xFFFF, 8, "selector");
    assert_eq!((g0.low >> 40) & 0xF, 0xE, "interrupt gate");
    let g255 = idt.gates[255];
    assert_eq!(g255.low & 0xFFFF, 0x1000, "last stub offset");
}

#[test]
fn selectors_encode_index_table_and_privilege() {
    assert_eq!(SegmentSelector::new_krn(1).as_u16(), 8);
    assert_eq!(SegmentSelector::new_usr(2).as_u16(), 19);
    assert_eq!(SegmentSelector::init(3, 1, 2).as_u16(), 30);
}
