use vmxcore::enc;
use vmxcore::regs::{FixedReg, FixedRegisters};
use vmxcore::vmcs::{ExecInit, HostInit, VmcsInit, VMCS};
use vmxcore::vmx::{vmread, Region};

fn plain_fixed() -> FixedRegisters {
    // Permissive platform: nothing forced on, everything allowed.
    let all = FixedReg {
        allow_0: 0,
        allow_1: u64::MAX,
    };
    FixedRegisters {
        pin: all,
        proc1: all,
        proc2: all,
        entry: all,
        exit: all,
        cr0: all,
        cr4: all,
    }
}

fn sample_init() -> VmcsInit {
    VmcsInit {
        host: HostInit {
            cr0: 0x8005_0033,
            cr3: 0x1000,
            cr4: 0x2020,
            sysenter_cs: 0,
            sysenter_eip: 0,
            sysenter_esp: 0,
            perf: 0,
            pat: 0x0007_0406_0007_0406,
            efer: 0xD01,
            stack: 0x7F83_000,
            entry: 0x7F90_000,
            gdtr_base: 0x7FF0_000,
            idtr_base: 0x7FF1_000,
        },
        execution: ExecInit {
            eptp_root: 0x7F85_000,
            asid: 1,
            ioA_addr: 0x7F86_000,
            ioB_addr: 0x7F87_000,
            msr_map_addr: 0x7F88_000,
        },
        exit_store_addr: 0x7F89_000,
        exit_load_addr: 0x7F8A_000,
        entry_load_addr: 0x7F8B_000,
        guest_pat: 0x0007_0406_0007_0406,
    }
}

#[test]
fn commit_then_vmread_returns_the_mirrored_values() {
    let mut vmcs = VMCS::new();
    let mut hw = Region::new(7);
    let mut msr_map = vmxcore::vmcs::Bitmap::new();
    vmcs.init(&sample_init(), &mut msr_map);
    vmcs.encode();
    vmcs.commit(&mut hw, &plain_fixed()).unwrap();
    // Guest boot state reads back exactly.
    assert_eq!(vmread(&hw, enc::GUEST_STATE_RIP as u64), Ok(0x600));
    assert_eq!(vmread(&hw, enc::GUEST_STATE_RSP as u64), Ok(0xFBFE));
    assert_eq!(vmread(&hw, enc::GUEST_STATE_SS_SEL as u64), Ok(0x9000));
    assert_eq!(vmread(&hw, enc::GUEST_STATE_SS_BASE as u64), Ok(0x90000));
    assert_eq!(vmread(&hw, enc::GUEST_STATE_CS_LIMIT as u64), Ok(0xFFFF));
    assert_eq!(vmread(&hw, enc::GUEST_STATE_RFLAGS as u64), Ok(0x202));
    assert_eq!(vmread(&hw, enc::GUEST_STATE_VMCS_LINK_PTR as u64), Ok(u64::MAX));
    assert_eq!(vmread(&hw, enc::GUEST_STATE_IDTR_LIMIT as u64), Ok(0x53));
    // Host state reads back exactly.
    assert_eq!(vmread(&hw, enc::HOST_STATE_RSP as u64), Ok(0x7F83_000));
    assert_eq!(vmread(&hw, enc::HOST_STATE_RIP as u64), Ok(0x7F90_000));
    assert_eq!(vmread(&hw, enc::HOST_STATE_CS_SEL as u64), Ok(8));
    assert_eq!(vmread(&hw, enc::HOST_STATE_TR_SEL as u64), Ok(24));
    // Controls: EPT pointer carries write-back bits and 4-level walk.
    assert_eq!(
        vmread(&hw, enc::EXEC_CTRL_EPTP as u64),
        Ok(0x7F85_000 | 6 | (3 << 3))
    );
    assert_eq!(vmread(&hw, enc::EXEC_CTRL_VPID as u64), Ok(1));
    assert_eq!(
        vmread(&hw, enc::EXEC_CTRL_EXCP_BITMAP as u64),
        Ok((1 << 13) | (1 << 18))
    );
    // An encoding that was never committed stays unreadable.
    assert!(vmread(&hw, 0xFFFF).is_err());
}

#[test]
fn fixed_bit_commit_forces_required_ones() {
    // All-zero request against a pin control whose required-one mask is
    // the VMX-preemption pattern: the committed value is that mask.
    let mut vmcs = VMCS::new();
    let mut hw = Region::new(0);
    let mut fixed = plain_fixed();
    fixed.pin = FixedReg {
        allow_0: 0x16,
        allow_1: u64::MAX,
    };
    let mut msr_map = vmxcore::vmcs::Bitmap::new();
    vmcs.init(&sample_init(), &mut msr_map);
    vmcs.ctrl.execution.pin.set_field_value(0);
    vmcs.encode();
    vmcs.commit(&mut hw, &fixed).unwrap();
    assert_eq!(vmread(&hw, enc::EXEC_CTRL_PINBASED as u64), Ok(0x16));
}

#[test]
fn fixed_bit_masking_applies_both_masks() {
    let f = FixedReg {
        allow_0: 0x16,
        allow_1: 0xFFFF_FFFB,
    };
    assert_eq!(f.mask_u64(0), 0x16);
    assert_eq!(f.mask_u64(4), 0x16);
    assert_eq!(f.mask_u64(0x81), 0x97);
    assert_eq!(f.mask_u64(u64::MAX), 0xFFFF_FFFB | 0x16);
}

#[test]
fn mirror_encodings_are_pairwise_distinct() {
    // The proved law covers every pair; this walks the same constants.
    let mut seen = std::collections::BTreeSet::new();
    let all = [
        enc::GUEST_STATE_RIP,
        enc::GUEST_STATE_RSP,
        enc::GUEST_STATE_RFLAGS,
        enc::GUEST_STATE_CR0,
        enc::GUEST_STATE_CR3,
        enc::GUEST_STATE_CR4,
        enc::HOST_STATE_RIP,
        enc::HOST_STATE_RSP,
        enc::EXEC_CTRL_PINBASED,
        enc::EXEC_CTRL_PROCBASED_1,
        enc::EXEC_CTRL_PROCBASED_2,
        enc::EXEC_CTRL_EPTP,
        enc::EXIT_CTRLS,
        enc::ENTRY_CTRLS,
        enc::EXIT_INFO_REASON,
        enc::EXIT_INFO_IDT_VECT_INFO,
    ];
    for e in all {
        assert!(seen.insert(e), "encoding {e:#x} repeated");
    }
}

#[test]
fn msr_bitmap_denies_read_and_write_bits() {
    let mut map = vmxcore::vmcs::Bitmap::new();
    map.deny(0x2FF);
    // Read quarter and write quarter carry the same bit.
    assert_eq!(map.bytes[0x2FF / 8], 1 << (0x2FF % 8));
    assert_eq!(map.bytes[0x800 + 0x2FF / 8], 1 << (0x2FF % 8));
    // High MSRs land in the second quarter.
    map.deny(0xC000_0080);
    assert_eq!(map.bytes[0x400 + 0x80 / 8], 1 << (0x80 % 8));
    assert_eq!(map.bytes[0xC00 + 0x80 / 8], 1 << (0x80 % 8));
    map.allow(0x2FF);
    assert_eq!(map.bytes[0x2FF / 8], 0);
    assert_eq!(map.bytes[0x800 + 0x2FF / 8], 0);
}
