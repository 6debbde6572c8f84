use vmxcore::emulate;
use vmxcore::enc;
use vmxcore::exit::{excp_handler, VMMStatus};
use vmxcore::smem::{HardwareMemory, SecretArea};
use vmxcore::vmcs::{Exit, Guest};
use vmxcore::vmx::{vmwrite, Region};

/// A guest in real mode with the state of the boot-interrupt scenario.
fn real_mode_region() -> Region {
    let mut hw = Region::new(0);
    vmwrite(&mut hw, 0, enc::GUEST_STATE_CR0 as u64);
    vmwrite(&mut hw, 0, enc::GUEST_STATE_CR4 as u64);
    vmwrite(&mut hw, 0, enc::GUEST_STATE_IA32_EFER as u64);
    vmwrite(&mut hw, 0x0202, enc::GUEST_STATE_RFLAGS as u64);
    vmwrite(&mut hw, 0, enc::GUEST_STATE_CS_ACCESS_RIGHTS as u64);
    vmwrite(&mut hw, 0, enc::GUEST_STATE_CR3 as u64);
    vmwrite(&mut hw, 0xFFFC, enc::GUEST_STATE_RSP as u64);
    vmwrite(&mut hw, 0x9FB00, enc::GUEST_STATE_SS_BASE as u64);
    vmwrite(&mut hw, 0, enc::GUEST_STATE_CS_SEL as u64);
    vmwrite(&mut hw, 0, enc::GUEST_STATE_CS_BASE as u64);
    vmwrite(&mut hw, 0x0600, enc::GUEST_STATE_RIP as u64);
    hw
}

fn encoded_guest() -> Guest {
    let mut g = Guest::new();
    g.encode();
    g
}

fn far_memory() -> (HardwareMemory, Vec<u8>) {
    let area = SecretArea {
        start: 0xFFFF_0000,
        end: 0xFFFF_8000,
        size: 0x8000,
    };
    let hwmm = HardwareMemory {
        area,
        ram: 0x1_0000_0000,
        phys: 0x1_0000_0000,
    };
    (hwmm, vec![0u8; 0xB0000])
}

#[test]
fn boot_interrupt_pushes_flags_cs_and_return_offset() {
    let hw = real_mode_region();
    let mut guest = encoded_guest();
    let (hwmm, mut mem) = far_memory();
    // IVT entry 0x19: ip 0xE05B, cs 0xF000.
    mem[0x64] = 0x5B;
    mem[0x65] = 0xE0;
    mem[0x66] = 0x00;
    mem[0x67] = 0xF0;
    let rc = emulate::interrupt(&mut guest, &hw, &hwmm, &mut mem, 0x19, 2);
    assert!(matches!(rc, VMMStatus::DoneLetRip));
    // Flags, old CS and old IP + 2 sit on the guest stack.
    assert_eq!(mem[0x9FB00 + 0xFFFA], 0x02);
    assert_eq!(mem[0x9FB00 + 0xFFFB], 0x02);
    assert_eq!(mem[0x9FB00 + 0xFFF8], 0x00);
    assert_eq!(mem[0x9FB00 + 0xFFF9], 0x00);
    assert_eq!(mem[0x9FB00 + 0xFFF6], 0x02);
    assert_eq!(mem[0x9FB00 + 0xFFF7], 0x06);
    // Execution continues at the vector with interrupts masked.
    assert_eq!(guest.cs_sel.value, 0xF000);
    assert_eq!(guest.cs_base.value, 0xF0000);
    assert_eq!(guest.rip.value, 0xE05B);
    assert_eq!(guest.rsp.value, 0xFFF6);
    assert_eq!(guest.rflags.value & 0x200, 0, "IF cleared");
}

#[test]
fn bios_misc_vector_is_not_emulated() {
    let hw = real_mode_region();
    let mut guest = encoded_guest();
    let (hwmm, mut mem) = far_memory();
    let rc = emulate::interrupt(&mut guest, &hw, &hwmm, &mut mem, 0x15, 2);
    assert!(matches!(rc, VMMStatus::Fail));
}

#[test]
fn push_wraps_the_stack_pointer_within_sixteen_bits() {
    // High bits of RSP survive the 16-bit wrap; the push itself then
    // lands far outside real-mode memory and is refused.
    let mut hw = real_mode_region();
    vmwrite(&mut hw, 0x1234_0000, enc::GUEST_STATE_RSP as u64);
    vmwrite(&mut hw, 0x10000, enc::GUEST_STATE_SS_BASE as u64);
    let mut guest = encoded_guest();
    let (hwmm, mut mem) = far_memory();
    let rc = emulate::push(&mut guest, &hw, &hwmm, &mut mem, 0xBEEF);
    assert!(matches!(rc, VMMStatus::Fail));
    assert_eq!(guest.rsp.value, 0x1234_FFFE);
    // With clear high bits the wrapped push stores below the segment
    // top.
    let mut hw = real_mode_region();
    vmwrite(&mut hw, 0, enc::GUEST_STATE_RSP as u64);
    vmwrite(&mut hw, 0x10000, enc::GUEST_STATE_SS_BASE as u64);
    let mut guest = encoded_guest();
    let rc = emulate::push(&mut guest, &hw, &hwmm, &mut mem, 0xBEEF);
    assert!(matches!(rc, VMMStatus::Done));
    assert_eq!(guest.rsp.value, 0xFFFE);
    assert_eq!(mem[0x10000 + 0xFFFE], 0xEF);
    assert_eq!(mem[0x10000 + 0xFFFF], 0xBE);
}

#[test]
fn push_then_read_returns_the_pushed_word() {
    let hw = real_mode_region();
    let mut guest = encoded_guest();
    let (hwmm, mut mem) = far_memory();
    let rc = emulate::push(&mut guest, &hw, &hwmm, &mut mem, 0xCAFE);
    assert!(matches!(rc, VMMStatus::Done));
    assert_eq!(guest.rsp.value, 0xFFFA);
    let mut dst = vec![0u8; 2];
    let rc = vmxcore::vmmem::read(&mut guest, &hw, &hwmm, &mut mem, 0x9FB00 + 0xFFFA, &mut dst);
    assert!(matches!(rc, VMMStatus::Done));
    assert_eq!(u16::from_le_bytes([dst[0], dst[1]]), 0xCAFE);
}

#[test]
fn one_byte_access_outside_the_secret_area_succeeds() {
    let hw = real_mode_region();
    let mut guest = encoded_guest();
    let (hwmm, mut mem) = far_memory();
    mem[0x500] = 0x42;
    let mut dst = vec![0u8; 1];
    let rc = vmxcore::vmmem::read(&mut guest, &hw, &hwmm, &mut mem, 0x500, &mut dst);
    assert!(matches!(rc, VMMStatus::Done));
    assert_eq!(dst[0], 0x42);
}

#[test]
fn guest_access_into_the_secret_area_fails() {
    let hw = real_mode_region();
    let mut guest = encoded_guest();
    let area = SecretArea {
        start: 0x9F000,
        end: 0xA0000,
        size: 0x1000,
    };
    let hwmm = HardwareMemory {
        area,
        ram: 0x1_0000_0000,
        phys: 0x1_0000_0000,
    };
    let mut mem = vec![0u8; 0xB0000];
    let mut dst = vec![0u8; 4];
    let rc = vmxcore::vmmem::read(&mut guest, &hw, &hwmm, &mut mem, 0x9F800, &mut dst);
    assert!(matches!(rc, VMMStatus::Fail));
}

fn gp_exit(idt_info: u64, cr0: u64) -> (Region, Guest, Exit) {
    let mut hw = real_mode_region();
    vmwrite(&mut hw, cr0, enc::GUEST_STATE_CR0 as u64);
    vmwrite(&mut hw, 13, enc::EXIT_INFO_VMEXIT_INT_INFO as u64);
    vmwrite(&mut hw, idt_info, enc::EXIT_INFO_IDT_VECT_INFO as u64);
    vmwrite(&mut hw, 0, enc::EXIT_INFO_REASON as u64);
    let guest = encoded_guest();
    let mut exit = Exit::new();
    exit.encode();
    (hw, guest, exit)
}

#[test]
fn gp_without_idt_vectoring_faults_outside_real_mode() {
    // Protected-mode guest: the handler refuses to emulate and reports
    // a fault the top level treats as fatal.
    let (hw, mut guest, mut exit) = gp_exit(0, 1);
    let (hwmm, mut mem) = far_memory();
    let rc = excp_handler(&mut guest, &mut exit, &hw, &hwmm, &mut mem);
    assert!(matches!(rc, VMMStatus::Fault));
}

#[test]
fn real_mode_gp_without_idt_vectoring_faults() {
    let (hw, mut guest, mut exit) = gp_exit(0, 0);
    let (hwmm, mut mem) = far_memory();
    let rc = excp_handler(&mut guest, &mut exit, &hw, &hwmm, &mut mem);
    assert!(matches!(rc, VMMStatus::Fault));
}

#[test]
fn real_mode_gp_replays_a_vectored_software_interrupt() {
    // IDT-vectoring information: vector 0x19, kind software interrupt
    // (4), valid.
    let idt = 0x19u64 | (4 << 8) | 0x8000_0000;
    let (hw, mut guest, mut exit) = gp_exit(idt, 0);
    let (hwmm, mut mem) = far_memory();
    mem[0x64] = 0x5B;
    mem[0x65] = 0xE0;
    mem[0x66] = 0x00;
    mem[0x67] = 0xF0;
    let rc = excp_handler(&mut guest, &mut exit, &hw, &hwmm, &mut mem);
    assert!(matches!(rc, VMMStatus::DoneLetRip));
    assert_eq!(guest.cs_sel.value, 0xF000);
    assert_eq!(guest.rip.value, 0xE05B);
}
