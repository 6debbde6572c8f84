//! VM-exit dispatch: classify the basic reason and hand real-mode #GP
//! faults to the interrupt emulator.

use vstd::prelude::*;

use crate::cpumode::{spec_in_real, spec_mode_cached, CPUMode, CPUState};
use crate::emulate::{spec_int_effect, spec_int_forced, spec_int_stack};
use crate::exceptions::Exception;
use crate::regs::EventType;
use crate::smem::HardwareMemory;
use crate::regs::FixedRegisters;
use crate::vmcs::{Exit, Guest};
use crate::vmx::Region;
use crate::VmmError;

verus! {

/// Outcome of emulating one guest event.  `Done` resumes with RIP
/// advanced by the instruction length; `DoneLetRip` resumes with RIP
/// already repositioned; the rest are failures of varying flavour that
/// the top level treats as fatal.
#[derive(Debug, Copy, Clone, PartialEq, Eq, Structural)]
pub enum VMMStatus {
    Done,
    DoneLetRip,
    Fail,
    Fault,
    Native,
    Ignore,
    Internal,
    Partial,
}

/// Basic VM-exit reasons, in the architectural numbering.
#[derive(Debug, Copy, Clone, PartialEq, Eq, Structural)]
pub enum BasicReason {
    ExceptionOrNMI,
    ExternalInterrupt,
    TripleFault,
    INIT,
    SIPI,
    IOSMI,
    OtherSMI,
    InterruptWindows,
    NMIWindow,
    TaskSwitch,
    CPUID,
    GETSEC,
    HLT,
    INVD,
    INVLPG,
    RDPMC,
    RDTSC,
    RSM,
    VMCALL,
    VMCLEAR,
    VMLAUNCH,
    VMPTRLD,
    VMPTRST,
    VMREAD,
    VMRESUME,
    VMWRITE,
    VMXOFF,
    VMXON,
    CRAccess,
    DRAcess,
    IO,
    RDMSR,
    WRMSR,
    InvalidGuestState,
    MSRLoading,
    MWAIT,
    MTF,
    MONITOR,
    PAUSE,
    MachineCheckEvent,
    TPR,
    APICAccess,
    VEOI,
    GDTR,
    LDTR,
    EPTViolation,
    EPTMisconfig,
    INVEPT,
    RDTSCP,
    PreemptTimer,
    INVVPID,
    WBINVD,
    XSETBV,
    APICWrite,
    RDRAND,
    INVPCID,
    VMFUNC,
    ENCLS,
    RDSEED,
    PageModLogFull,
    XSAVES,
    XRSTORS,
}

impl BasicReason {
    /// Decode the low 16 bits of the exit reason.
    pub fn try_from(basic: u16) -> (r: Result<BasicReason, u16>)
        ensures
            r == Ok::<BasicReason, u16>(BasicReason::ExceptionOrNMI) <==> basic == 0,
            basic == 48 ==> r == Ok::<BasicReason, u16>(BasicReason::EPTViolation),
            basic == 35 || basic == 38 || basic == 42 || basic > 64 ==> r == Err::<
                BasicReason,
                u16,
            >(basic),
    {
        match basic {
            0 => Ok(BasicReason::ExceptionOrNMI),
            1 => Ok(BasicReason::ExternalInterrupt),
            2 => Ok(BasicReason::TripleFault),
            3 => Ok(BasicReason::INIT),
            4 => Ok(BasicReason::SIPI),
            5 => Ok(BasicReason::IOSMI),
            6 => Ok(BasicReason::OtherSMI),
            7 => Ok(BasicReason::InterruptWindows),
            8 => Ok(BasicReason::NMIWindow),
            9 => Ok(BasicReason::TaskSwitch),
            10 => Ok(BasicReason::CPUID),
            11 => Ok(BasicReason::GETSEC),
            12 => Ok(BasicReason::HLT),
            13 => Ok(BasicReason::INVD),
            14 => Ok(BasicReason::INVLPG),
            15 => Ok(BasicReason::RDPMC),
            16 => Ok(BasicReason::RDTSC),
            17 => Ok(BasicReason::RSM),
            18 => Ok(BasicReason::VMCALL),
            19 => Ok(BasicReason::VMCLEAR),
            20 => Ok(BasicReason::VMLAUNCH),
            21 => Ok(BasicReason::VMPTRLD),
            22 => Ok(BasicReason::VMPTRST),
            23 => Ok(BasicReason::VMREAD),
            24 => Ok(BasicReason::VMRESUME),
            25 => Ok(BasicReason::VMWRITE),
            26 => Ok(BasicReason::VMXOFF),
            27 => Ok(BasicReason::VMXON),
            28 => Ok(BasicReason::CRAccess),
            29 => Ok(BasicReason::DRAcess),
            30 => Ok(BasicReason::IO),
            31 => Ok(BasicReason::RDMSR),
            32 => Ok(BasicReason::WRMSR),
            33 => Ok(BasicReason::InvalidGuestState),
            34 => Ok(BasicReason::MSRLoading),
            36 => Ok(BasicReason::MWAIT),
            37 => Ok(BasicReason::MTF),
            39 => Ok(BasicReason::MONITOR),
            40 => Ok(BasicReason::PAUSE),
            41 => Ok(BasicReason::MachineCheckEvent),
            43 => Ok(BasicReason::TPR),
            44 => Ok(BasicReason::APICAccess),
            45 => Ok(BasicReason::VEOI),
            46 => Ok(BasicReason::GDTR),
            47 => Ok(BasicReason::LDTR),
            48 => Ok(BasicReason::EPTViolation),
            49 => Ok(BasicReason::EPTMisconfig),
            50 => Ok(BasicReason::INVEPT),
            51 => Ok(BasicReason::RDTSCP),
            52 => Ok(BasicReason::PreemptTimer),
            53 => Ok(BasicReason::INVVPID),
            54 => Ok(BasicReason::WBINVD),
            55 => Ok(BasicReason::XSETBV),
            56 => Ok(BasicReason::APICWrite),
            57 => Ok(BasicReason::RDRAND),
            58 => Ok(BasicReason::INVPCID),
            59 => Ok(BasicReason::VMFUNC),
            60 => Ok(BasicReason::ENCLS),
            61 => Ok(BasicReason::RDSEED),
            62 => Ok(BasicReason::PageModLogFull),
            63 => Ok(BasicReason::XSAVES),
            64 => Ok(BasicReason::XRSTORS),
            n => Err(n),
        }
    }

    /// Dispatch on the basic reason: only exceptions are handled; an
    /// unknown or unhandled reason fails.
    pub fn resolve(
        guest: &mut Guest,
        exit: &mut Exit,
        hw: &Region,
        hwmm: &HardwareMemory,
        mem: &mut Vec<u8>,
        basic: u16,
    ) -> (r: VMMStatus)
        ensures
            basic == 35 || basic == 38 || basic == 42 || basic > 64 ==> r == VMMStatus::Fail,
            basic != 0 ==> r == VMMStatus::Fail,
            ({
                let w = old(exit).idt_info.value;
                match spec_replay_kind(w) {
                    Some(isz) => ({
                        &&& basic == 0
                        &&& old(exit).int_info.encoding.0 & 0x8000 != 0
                        &&& old(exit).int_info.value as u8 == 13
                        &&& old(exit).idt_info.encoding.0 & 0x8000 != 0
                        &&& spec_mode_cached(*old(guest))
                        &&& spec_in_real(*old(guest))
                        &&& w as u8 != crate::rmode::BIOS_MISC_INTERRUPT
                        &&& spec_int_forced(*old(guest), *hwmm, old(mem)@.len() as int, w as u8)
                    }) ==> r == VMMStatus::DoneLetRip && spec_int_effect(
                        *old(guest),
                        *final(guest),
                        old(mem)@,
                        final(mem)@,
                        w as u8,
                        isz,
                    ),
                    None => true,
                }
            }),
    {
        match BasicReason::try_from(basic) {
            Err(n) => VMMStatus::Fail,
            Ok(reason) => {
                match reason {
                    BasicReason::ExceptionOrNMI => excp_handler(guest, exit, hw, hwmm, mem),
                    _ => VMMStatus::Fail,
                }
            },
        }
    }
}

/// The instruction size a valid IDT-vectoring word replays with: two
/// bytes for a software `INT n`, zero for an external interrupt (nothing
/// to skip on return); any other kind is not replayed.
pub open spec fn spec_replay_kind(w: u64) -> Option<u16> {
    if w & 0x80000000 != 0 && (w >> 8) & 7 == 4 {
        Some(2u16)
    } else if w & 0x80000000 != 0 && (w >> 8) & 7 == 0 {
        Some(0u16)
    } else {
        None
    }
}

/// A real-mode #GP must come from IDT vectoring (the real-mode IVT limit
/// stops at the BIOS misc vector): replay the vectored event against the
/// guest IVT; a #GP with no event being delivered is a plain guest fault
/// the hypervisor cannot repair.
pub fn excp_gp_rmode(
    guest: &mut Guest,
    exit: &mut Exit,
    hw: &Region,
    hwmm: &HardwareMemory,
    mem: &mut Vec<u8>,
) -> (r: VMMStatus)
    ensures
        final(mem)@.len() == old(mem)@.len(),
        old(exit).idt_info.encoding.0 & 0x8000 != 0 && old(exit).idt_info.value & 0x80000000 == 0
            ==> r == VMMStatus::Fault && *final(mem) == *old(mem),
        ({
            let w = old(exit).idt_info.value;
            old(exit).idt_info.encoding.0 & 0x8000 != 0 && spec_replay_kind(w) is Some
                && spec_mode_cached(*old(guest)) && !spec_in_real(*old(guest)) ==> r
                == VMMStatus::Fail && *final(mem) == *old(mem)
        }),
        ({
            let w = old(exit).idt_info.value;
            match spec_replay_kind(w) {
                Some(isz) => ({
                    &&& old(exit).idt_info.encoding.0 & 0x8000 != 0
                    &&& spec_mode_cached(*old(guest))
                    &&& spec_in_real(*old(guest))
                    &&& w as u8 != crate::rmode::BIOS_MISC_INTERRUPT
                    &&& spec_int_forced(*old(guest), *hwmm, old(mem)@.len() as int, w as u8)
                }) ==> r == VMMStatus::DoneLetRip && spec_int_effect(
                    *old(guest),
                    *final(guest),
                    old(mem)@,
                    final(mem)@,
                    w as u8,
                    isz,
                ),
                None => true,
            }
        }),
{
    proof {
        let w = old(exit).idt_info.value;
        assert(((((w as u32) >> 8) & 7) as u8 == 4 <==> (w >> 8) & 7 == 4) && ((((w as u32) >> 8)
            & 7) as u8 == 0 <==> (w >> 8) & 7 == 0) && ((w as u32) as u8 == w as u8))
            by (bit_vector);
    }
    let idt_info = match exit.idt_info.as_ref(hw) {
        Err(_) => {
            return VMMStatus::Internal;
        },
        Ok(v) => v,
    };
    let word = crate::regs::ExitInfoInterrupt(idt_info as u32);
    let vector = word.vector();
    let kind = word.kind();
    let valid = word.v();
    proof {
        let v = old(exit).idt_info.value;
        assert(v as u32 & 0x80000000 != 0 <==> v & 0x80000000 != 0) by (bit_vector);
    }
    if !valid {
        VMMStatus::Fault
    } else {
        match EventType::try_from(kind) {
            Ok(EventType::SoftInt) => crate::emulate::soft_int(guest, hw, hwmm, mem, vector),
            Ok(EventType::HardInt) => crate::emulate::hard_int(guest, hw, hwmm, mem, vector),
            Ok(_) => VMMStatus::Fail,
            Err(_) => VMMStatus::Fail,
        }
    }
}

/// #GP handling: emulate in real mode, fault in any other mode.
pub fn excp_gp(
    guest: &mut Guest,
    exit: &mut Exit,
    hw: &Region,
    hwmm: &HardwareMemory,
    mem: &mut Vec<u8>,
) -> (r: VMMStatus)
    ensures
        final(mem)@.len() == old(mem)@.len(),
        spec_mode_cached(*old(guest)) && !spec_in_real(*old(guest)) ==> r == VMMStatus::Fault,
        spec_mode_cached(*old(guest)) && spec_in_real(*old(guest)) && old(
            exit,
        ).idt_info.encoding.0 & 0x8000 != 0 && old(exit).idt_info.value & 0x80000000 == 0 ==> r
            == VMMStatus::Fault,
        ({
            let w = old(exit).idt_info.value;
            match spec_replay_kind(w) {
                Some(isz) => ({
                    &&& old(exit).idt_info.encoding.0 & 0x8000 != 0
                    &&& spec_mode_cached(*old(guest))
                    &&& spec_in_real(*old(guest))
                    &&& w as u8 != crate::rmode::BIOS_MISC_INTERRUPT
                    &&& spec_int_forced(*old(guest), *hwmm, old(mem)@.len() as int, w as u8)
                }) ==> r == VMMStatus::DoneLetRip && spec_int_effect(
                    *old(guest),
                    *final(guest),
                    old(mem)@,
                    final(mem)@,
                    w as u8,
                    isz,
                ),
                None => true,
            }
        }),
{
    let in_real = match CPUState::mode(guest, hw, CPUMode::Real) {
        Err(_) => {
            return VMMStatus::Internal;
        },
        Ok(b) => b,
    };
    if in_real {
        excp_gp_rmode(guest, exit, hw, hwmm, mem)
    } else {
        VMMStatus::Fault
    }
}

/// Exception dispatch: read the exit interruption vector and handle the
/// exceptions the hypervisor intercepts (#GP); everything else fails.
/// A #GP outside real mode, or one delivered with no event in flight,
/// is a guest fault.
pub fn excp_handler(
    guest: &mut Guest,
    exit: &mut Exit,
    hw: &Region,
    hwmm: &HardwareMemory,
    mem: &mut Vec<u8>,
) -> (r: VMMStatus)
    ensures
        final(mem)@.len() == old(mem)@.len(),
        old(exit).int_info.encoding.0 & 0x8000 != 0 && old(exit).int_info.value as u8 == 13
            && spec_mode_cached(*old(guest)) && !spec_in_real(*old(guest)) ==> r
            == VMMStatus::Fault,
        old(exit).int_info.encoding.0 & 0x8000 != 0 && old(exit).int_info.value as u8 == 13
            && spec_mode_cached(*old(guest)) && spec_in_real(*old(guest)) && old(
            exit,
        ).idt_info.encoding.0 & 0x8000 != 0 && old(exit).idt_info.value & 0x80000000 == 0 ==> r
            == VMMStatus::Fault,
        ({
            let w = old(exit).idt_info.value;
            match spec_replay_kind(w) {
                Some(isz) => ({
                    &&& old(exit).int_info.encoding.0 & 0x8000 != 0
                    &&& old(exit).int_info.value as u8 == 13
                    &&& old(exit).idt_info.encoding.0 & 0x8000 != 0
                    &&& spec_mode_cached(*old(guest))
                    &&& spec_in_real(*old(guest))
                    &&& w as u8 != crate::rmode::BIOS_MISC_INTERRUPT
                    &&& spec_int_forced(*old(guest), *hwmm, old(mem)@.len() as int, w as u8)
                }) ==> r == VMMStatus::DoneLetRip && spec_int_effect(
                    *old(guest),
                    *final(guest),
                    old(mem)@,
                    final(mem)@,
                    w as u8,
                    isz,
                ),
                None => true,
            }
        }),
{
    let int_info = match exit.int_info.as_ref(hw) {
        Err(_) => {
            return VMMStatus::Internal;
        },
        Ok(v) => v,
    };
    proof {
        assert((int_info as u32) as u8 == int_info as u8) by (bit_vector);
    }
    let vector = crate::regs::ExitInfoInterrupt(int_info as u32).vector();
    match Exception::try_from(vector) {
        Err(_) => VMMStatus::Fail,
        Ok(excp) => {
            match excp {
                Exception::GeneralProtection => excp_gp(guest, exit, hw, hwmm, mem),
                _ => VMMStatus::Fail,
            }
        },
    }
}


/// The exit handler the trampoline calls: classify the exit, emulate what
/// can be emulated, then drop the cached exit information and write the
/// dirty state back.  Only an emulation that finished — with RIP to be
/// advanced or already repositioned — resumes the guest; every other
/// status is fatal.
pub fn vmexit_handler(
    vm: &mut crate::vm::VM,
    hwmm: &HardwareMemory,
    fixed: &FixedRegisters,
) -> (r: Result<VMMStatus, VmmError>)
    ensures
        r matches Ok(s) ==> s == VMMStatus::Done || s == VMMStatus::DoneLetRip,
        ({
            let g = old(vm).vmcs.guest;
            let w = old(vm).vmcs.exit.idt_info.value;
            match spec_replay_kind(w) {
                Some(isz) => ({
                    &&& old(vm).vmcs.exit.reason.encoding.0 & 0x8000 != 0
                    &&& old(vm).vmcs.exit.reason.value as u16 == 0
                    &&& old(vm).vmcs.exit.int_info.encoding.0 & 0x8000 != 0
                    &&& old(vm).vmcs.exit.int_info.value as u8 == 13
                    &&& old(vm).vmcs.exit.idt_info.encoding.0 & 0x8000 != 0
                    &&& spec_mode_cached(g)
                    &&& spec_in_real(g)
                    &&& w as u8 != crate::rmode::BIOS_MISC_INTERRUPT
                    &&& spec_int_forced(g, *hwmm, old(vm).mem@.len() as int, w as u8)
                    &&& g.cr2.encoding.0 & !0x8000u32 & !0x10000u32 == crate::enc::GUEST_STATE_CR2
                    &&& g.dr6.encoding.0 & !0x8000u32 & !0x10000u32 == crate::enc::GUEST_STATE_DR6
                }) ==> r == Ok::<VMMStatus, VmmError>(VMMStatus::DoneLetRip) && spec_int_stack(
                    g,
                    old(vm).mem@,
                    final(vm).mem@,
                    w as u8,
                    isz,
                ),
                None => true,
            }
        }),
{
    proof {
        let v = old(vm).vmcs.exit.reason.value;
        assert((v as u32) as u16 == v as u16) by (bit_vector);
    }
    let reason = match vm.vmcs.exit.reason.as_ref(&vm.vmc.region) {
        Err(e) => {
            return Err(e);
        },
        Ok(v) => v,
    };
    let basic = crate::regs::ExitReason(reason as u32).basic();
    let rc = BasicReason::resolve(
        &mut vm.vmcs.guest,
        &mut vm.vmcs.exit,
        &vm.vmc.region,
        hwmm,
        &mut vm.mem,
        basic,
    );
    if !matches!(rc, VMMStatus::Done | VMMStatus::DoneLetRip) {
        return Err(VmmError::UnhandledExit);
    }
    // The fake fields must still carry their encodings for the epilogue.
    let cr2e = vm.vmcs.guest.cr2.encoding.0 & !0x8000u32 & !0x10000u32;
    let dr6e = vm.vmcs.guest.dr6.encoding.0 & !0x8000u32 & !0x10000u32;
    if cr2e != crate::enc::GUEST_STATE_CR2 || dr6e != crate::enc::GUEST_STATE_DR6 {
        return Err(VmmError::BadFakeField);
    }
    vm.vmcs.commit_dirty(&mut vm.vmc.region, fixed)?;
    Ok(rc)
}

} // verus!
