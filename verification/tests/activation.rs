use vmxcore::cpu::VirtualCPU;
use vmxcore::enc;
use vmxcore::ept::VPID_INV_TYPE;
use vmxcore::gpr::GPR64Context;
use vmxcore::ptb::{EntryLayout, PagingEnv};
use vmxcore::regs::{FixedReg, FixedRegisters};
use vmxcore::smap::SystemMap;
use vmxcore::smem::{HardwareMemory, SecretArea};
use vmxcore::utils::Raw64;
use vmxcore::vm::VM;
use vmxcore::vmcs::{ExecInit, HostInit, VmcsInit, VmHardwareVMCS, VMCS};
use vmxcore::vmx::vmread;

fn no_regions() -> Vec<vmxcore::smem::MemRegion> {
    Vec::new()
}

fn fresh_vm() -> VM {
    let zero = Raw64(0);
    VM {
        cpu: VirtualCPU {
            gpr: GPR64Context {
                r15: zero, r14: zero, r13: zero, r12: zero, r11: zero,
                r10: zero, r9: zero, r8: zero, rdi: zero, rsi: zero,
                rbp: zero, rbx: zero, rdx: zero, rcx: zero, rax: zero,
            },
            paddr_sz: 36,
            vaddr_sz: 48,
            max_paddr: (1 << 36) - 1,
            max_vaddr: (1 << 48) - 1,
            pg_2m: true,
            pg_1g: false,
            tlb: VPID_INV_TYPE::All,
            tlb_g: VPID_INV_TYPE::All,
        },
        smap: SystemMap::init(0x200000, &no_regions()),
        vmc: VmHardwareVMCS::new(),
        vmcs: VMCS::new(),
        pg: PagingEnv::new(EntryLayout::Ept),
        mem: vec![0u8; 0x100000],
    }
}

fn permissive() -> FixedRegisters {
    let all = FixedReg { allow_0: 0, allow_1: u64::MAX };
    FixedRegisters { pin: all, proc1: all, proc2: all, entry: all, exit: all, cr0: all, cr4: all }
}

fn sample_init() -> VmcsInit {
    VmcsInit {
        host: HostInit {
            cr0: 0x8005_0033, cr3: 0x1000, cr4: 0x2020,
            sysenter_cs: 0, sysenter_eip: 0, sysenter_esp: 0,
            perf: 0, pat: 0x0007_0406_0007_0406, efer: 0xD01,
            stack: 0x7F83_000, entry: 0x7F90_000,
            gdtr_base: 0x7FF0_000, idtr_base: 0x7FF1_000,
        },
        execution: ExecInit {
            eptp_root: 0x7F85_000, asid: 1,
            ioA_addr: 0x7F86_000, ioB_addr: 0x7F87_000, msr_map_addr: 0x7F88_000,
        },
        exit_store_addr: 0x7F89_000,
        exit_load_addr: 0x7F8A_000,
        entry_load_addr: 0x7F8B_000,
        guest_pat: 0x0007_0406_0007_0406,
    }
}

#[test]
fn activation_stamps_commits_and_patches_the_boot_word() {
    let mut vm = fresh_vm();
    vmxcore::vm::init(&mut vm, 0x12, &permissive(), &sample_init()).unwrap();
    assert_eq!(vm.vmc.region.revision_id, 0x12);
    // The guest starts at 0:0x600 on an INT 0x19 instruction.
    assert_eq!(vm.mem[0x600], 0xCD);
    assert_eq!(vm.mem[0x601], 0x19);
    // The committed guest state reads back from the region.
    assert_eq!(vmread(&vm.vmc.region, enc::GUEST_STATE_RIP as u64), Ok(0x600));
    assert_eq!(vmread(&vm.vmc.region, enc::GUEST_STATE_RSP as u64), Ok(0xFBFE));
    assert_eq!(
        vmread(&vm.vmc.region, enc::GUEST_STATE_CS_ACCESS_RIGHTS as u64),
        Ok(vmxcore::regs::SEG_ATTR_CODE_16_R0_CO as u64)
    );
    // The MSR bitmap filters the MTRR default-type register.
    assert_ne!(vm.vmc.msr_map.bytes[0x2FF / 8], 0);
}

#[test]
fn exit_handler_rejects_unhandled_reasons() {
    let mut vm = fresh_vm();
    vmxcore::vm::init(&mut vm, 0, &permissive(), &sample_init()).unwrap();
    // Report a HLT exit: the hypervisor does not emulate it.
    vmxcore::vmx::vmwrite(&mut vm.vmc.region, 12, enc::EXIT_INFO_REASON as u64);
    let area = SecretArea { start: 0xFFFF_0000, end: 0xFFFF_8000, size: 0x8000 };
    let mut hwmm = HardwareMemory::default();
    hwmm.setup(&area, 0x1_0000_0000);
    let r = vmxcore::exit::vmexit_handler(&mut vm, &hwmm, &permissive());
    assert_eq!(r, Err(vmxcore::VmmError::UnhandledExit));
}

#[test]
fn exit_handler_replays_a_real_mode_boot_interrupt() {
    let mut vm = fresh_vm();
    vmxcore::vm::init(&mut vm, 0, &permissive(), &sample_init()).unwrap();
    let hw = &mut vm.vmc.region;
    // A #GP exit while delivering INT 0x19 in real mode.
    vmxcore::vmx::vmwrite(hw, 0, enc::EXIT_INFO_REASON as u64);
    vmxcore::vmx::vmwrite(hw, 13, enc::EXIT_INFO_VMEXIT_INT_INFO as u64);
    vmxcore::vmx::vmwrite(hw, 0x19 | (4 << 8) | 0x8000_0000, enc::EXIT_INFO_IDT_VECT_INFO as u64);
    // IVT entry 0x19 inside guest memory.
    vm.mem[0x64] = 0x5B;
    vm.mem[0x65] = 0xE0;
    vm.mem[0x66] = 0x00;
    vm.mem[0x67] = 0xF0;
    let area = SecretArea { start: 0xFFFF_0000, end: 0xFFFF_8000, size: 0x8000 };
    let mut hwmm = HardwareMemory::default();
    hwmm.setup(&area, 0x1_0000_0000);
    let r = vmxcore::exit::vmexit_handler(&mut vm, &hwmm, &permissive());
    assert_eq!(r, Ok(vmxcore::exit::VMMStatus::DoneLetRip));
    // The repositioned guest state was committed back to the region.
    assert_eq!(vmread(&vm.vmc.region, enc::GUEST_STATE_RIP as u64), Ok(0xE05B));
    assert_eq!(vmread(&vm.vmc.region, enc::GUEST_STATE_CS_SEL as u64), Ok(0xF000));
    assert_eq!(vmread(&vm.vmc.region, enc::GUEST_STATE_CS_BASE as u64), Ok(0xF0000));
    // The saved flags word sits on the guest stack.
    let sp = 0x90000u64 + 0xFBFE - 2;
    assert_eq!(vm.mem[sp as usize], 0x02);
    assert_eq!(vm.mem[sp as usize + 1], 0x02);
}
