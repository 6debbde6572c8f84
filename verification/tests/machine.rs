use vmxcore::cpumode::{CPUMode, CPUState};
use vmxcore::enc;
use vmxcore::exceptions::Exception;
use vmxcore::exit::BasicReason;
use vmxcore::rflags::Rflags;
use vmxcore::rmode;
use vmxcore::utils::{ArithmeticMod16, Raw64};
use vmxcore::vmx::{vmclear, vmread, vmwrite, Region};

#[test]
fn region_reads_return_the_last_write() {
    let mut hw = Region::new(3);
    assert!(vmread(&hw, 0x6800).is_err());
    vmwrite(&mut hw, 7, 0x6800);
    vmwrite(&mut hw, 9, 0x6802);
    vmwrite(&mut hw, 8, 0x6800);
    assert_eq!(vmread(&hw, 0x6800), Ok(8));
    assert_eq!(vmread(&hw, 0x6802), Ok(9));
    vmclear(&mut hw);
    assert!(vmread(&hw, 0x6800).is_err());
    assert_eq!(hw.revision_id, 3);
}

#[test]
fn sixteen_bit_arithmetic_keeps_the_high_bits() {
    let mut r = Raw64(0xABCD_0001);
    r.sub_mod16(2);
    assert_eq!(r.0, 0xABCD_FFFF);
    let mut r = Raw64(0xABCD_FFFF);
    r.add_mod16(2);
    assert_eq!(r.0, 0xABCD_0001);
    let mut r = Raw64(0x1111_2222_3333_4444);
    r.update_u32(0x5555);
    assert_eq!(r.0, 0x1111_2222_0000_5555);
}

#[test]
fn rflags_filter_enforces_the_reserved_bits() {
    assert_eq!(Rflags::filter(0), 2);
    assert_eq!(Rflags::filter(u64::MAX), 0x3F7FD7);
    assert_eq!(Rflags::filter(0x28), 2);
    assert_eq!(Rflags::filter(0x3F7FD5), 0x3F7FD7);
    let mut f = Rflags(0x202);
    f.set_it(false);
    assert_eq!(f.0, 0x2);
    assert_eq!(Rflags(0x1234).as_u16(), 0x1234);
}

#[test]
fn real_mode_constants_match_the_boot_contract() {
    assert_eq!(rmode::BASE_SP, 0xFBFE);
    assert_eq!(rmode::BASE_SS, 0x9000);
    assert_eq!(rmode::BASE_IP, 0x600);
    assert_eq!(rmode::ivt_limit(rmode::BIOS_MISC_INTERRUPT), 0x53);
    assert!(rmode::is_bios_mem(0x400));
    assert!(!rmode::is_bios_mem(0x700));
    assert!(rmode::is_bios_mem(0x9FC00));
    let e = rmode::IVTEntry::from_bytes(0x5B, 0xE0, 0x00, 0xF0);
    assert_eq!(e.ip, 0xE05B);
    assert_eq!(e.cs, 0xF000);
    let mut mem = vec![0u8; 0x1000];
    rmode::vm_set_entry(&mut mem, rmode::BASE_IP);
    assert_eq!(mem[0x600], 0xCD);
    assert_eq!(mem[0x601], 0x19);
}

#[test]
fn cpu_mode_decoding() {
    let real = CPUState { lm: false, pe: false, pg: false, pae: false, vm: false, csd: false, csl: false };
    assert!(real.is_real());
    assert!(!real.is_prot());
    let v86 = CPUState { vm: true, pe: true, ..real };
    assert!(v86.is_v8086());
    let long64 = CPUState { lm: true, pe: true, pg: true, pae: true, csl: true, ..real };
    assert!(long64.is_long64());
    assert!(long64.is_paging64());
    let legacy32 = CPUState { pe: true, csd: true, ..real };
    assert!(legacy32.is_legacy32());
}

#[test]
fn cpu_mode_reads_the_cached_guest_state() {
    let mut hw = Region::new(0);
    vmwrite(&mut hw, 1, enc::GUEST_STATE_CR0 as u64);
    vmwrite(&mut hw, 0, enc::GUEST_STATE_CR4 as u64);
    vmwrite(&mut hw, 0, enc::GUEST_STATE_IA32_EFER as u64);
    vmwrite(&mut hw, 2, enc::GUEST_STATE_RFLAGS as u64);
    vmwrite(&mut hw, 0x4000, enc::GUEST_STATE_CS_ACCESS_RIGHTS as u64);
    let mut guest = vmxcore::vmcs::Guest::new();
    guest.encode();
    assert_eq!(CPUState::mode(&mut guest, &hw, CPUMode::Legacy32), Ok(true));
    assert_eq!(CPUState::mode(&mut guest, &hw, CPUMode::Real), Ok(false));
    assert_eq!(CPUState::addr_size(&mut guest, &hw), Ok(32));
}

#[test]
fn exception_and_reason_decoding() {
    assert_eq!(Exception::try_from(13), Ok(Exception::GeneralProtection));
    assert_eq!(Exception::try_from(15), Ok(Exception::Reserved));
    assert_eq!(Exception::try_from(21), Ok(Exception::Reserved));
    assert_eq!(Exception::try_from(32), Err(32));
    assert!(Exception::GeneralProtection.has_code());
    assert!(!Exception::Breakpoint.has_code());
    assert_eq!(BasicReason::try_from(0), Ok(BasicReason::ExceptionOrNMI));
    assert_eq!(BasicReason::try_from(48), Ok(BasicReason::EPTViolation));
    assert_eq!(BasicReason::try_from(35), Err(35));
    assert_eq!(BasicReason::try_from(65), Err(65));
}

#[test]
fn eptp_word_carries_cache_and_walk_length() {
    let mut p = vmxcore::ept::EPTP(0);
    p.set_cache(6);
    p.set_pwl(3);
    assert_eq!(p.cache(), 6);
    assert_eq!(p.pwl(), 3);
    assert_eq!(p.0, 6 | (3 << 3));
    assert_eq!(vmxcore::ept::attr_dft(true, 6), 0x37);
    assert_eq!(vmxcore::ept::attr_dft(false, 6), 7);
}

#[test]
fn mtrr_registers_decode_their_fields() {
    let base = vmxcore::mtrr::IA32MTRRPhysBase(0xA0006);
    assert_eq!(base.kind(), 6);
    assert_eq!(base.base(), 0xA0);
    let mask = vmxcore::mtrr::IA32MTRRPhysMask(0xE0800);
    assert!(mask.v());
    assert_eq!(mask.mask(), 0xE0);
    let cap = vmxcore::mtrr::IA32MTRRCap(0x508);
    assert_eq!(cap.cnt(), 8);
    assert!(cap.fix());
    let def = vmxcore::mtrr::IA32MTRRDef(0x806);
    assert!(def.e());
    assert!(!def.fe());
    assert_eq!(def.kind(), 6);
}
