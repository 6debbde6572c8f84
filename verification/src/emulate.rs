//! Real-mode interrupt emulation: push flags, CS and the return offset on
//! the guest stack with 16-bit wrap-around, clear the interrupt-related
//! flags, and far-jump through the interrupt vector table.

use vstd::prelude::*;

use crate::cpumode::{spec_in_real, spec_in_v8086, spec_mode_cached, CPUMode, CPUState};
use crate::exit::VMMStatus;
use crate::rmode::IVTEntry;
use crate::smem::HardwareMemory;
use crate::utils::{spec_mod16_update, wrap_add16, wrap_sub16};
use crate::vmcs::Guest;
use crate::vmmem::spec_access_ok;
use crate::vmx::Region;

verus! {

/// A 16-bit far target: offset and segment selector.
#[derive(Debug, Copy, Clone, PartialEq, Eq, Structural)]
pub struct FarPointer {
    pub offset: u32,
    pub selector: u16,
}

/// Stack pointer after one 16-bit push: the low word drops by two with
/// wrap-around, the high bits of RSP stay.
pub open spec fn spec_push_sp(rsp: u64) -> u64 {
    spec_mod16_update(rsp, wrap_sub16(rsp as u16, 2))
}

/// Every register a push reads or writes is cached in the mirror, so no
/// hardware read can fail.
pub open spec fn spec_push_cached(g: Guest) -> bool {
    &&& g.rsp.encoding.0 & 0x8000 != 0
    &&& g.ss_base.encoding.0 & 0x8000 != 0
    &&& g.cr3.encoding.0 & 0x8000 != 0
    &&& spec_mode_cached(g)
}

/// The guest mode treats the pushed address as guest physical.
pub open spec fn spec_push_mode(g: Guest) -> bool {
    spec_in_real(g) || spec_in_v8086(g) || g.cr0.value & 0x80000000 == 0
}

/// The push target slot — two bytes at `SS.base + SP'` — is addressable,
/// inside RAM and outside the secret area.
pub open spec fn spec_push_fits(hwmm: HardwareMemory, mem_len: int, ss: u64, rsp: u64) -> bool {
    &&& ss + spec_push_sp(rsp) + 1 <= u64::MAX
    &&& spec_access_ok(hwmm, mem_len, (ss + spec_push_sp(rsp)) as u64, 2)
}

/// One push moves the stack pointer down by two, or wraps it up by
/// `0xFFFE` when the low word is 0 or 1; the high bits of RSP never
/// change, so successive push slots never overlap.
pub proof fn lemma_push_sp(rsp: u64)
    ensures
        (rsp as u16) >= 2 ==> spec_push_sp(rsp) == rsp - 2,
        (rsp as u16) < 2 ==> spec_push_sp(rsp) == rsp + 0xfffe,
        spec_push_sp(rsp) as u16 == wrap_sub16(rsp as u16, 2),
{
    let w = wrap_sub16(rsp as u16, 2);
    let w64 = w as u64;
    let h = rsp & !0xffffu64;
    let lo = (rsp as u16) as u64;
    assert(w64 <= 0xffff);
    assert((h | w64) == h + w64 && h + w64 <= u64::MAX && h + lo == rsp && ((h | w64) as u16)
        as u64 == w64 && lo <= 0xffff) by (bit_vector)
        requires
            w64 <= 0xffff,
            h == rsp & !0xffffu64,
            lo == (rsp as u16) as u64,
    ;
}

/// Push a 16-bit word on the guest stack: SP drops by 2 with 16-bit
/// wrap-around (the high bits of RSP stay), then the word goes to guest
/// physical `SS.base + SP`, little-endian.  When the stack registers are
/// cached, the mode needs no translation and the slot lies in RAM outside
/// the secret area, the push is owed success.
pub fn push(
    guest: &mut Guest,
    hw: &Region,
    hwmm: &HardwareMemory,
    mem: &mut Vec<u8>,
    value: u16,
) -> (r: VMMStatus)
    ensures
        final(mem)@.len() == old(mem)@.len(),
        r == VMMStatus::Done && old(guest).rsp.encoding.0 & 0x8000 != 0 && old(guest).ss_base.encoding.0 & 0x8000 != 0 ==> ({
            let nsp = spec_push_sp(old(guest).rsp.value);
            let dst = old(guest).ss_base.value + nsp;
            &&& final(guest).rsp.value == nsp
            &&& final(mem)@[dst as int] == value as u8
            &&& final(mem)@[dst + 1] == (value >> 8) as u8
            &&& forall|j: int|
                0 <= j < old(mem)@.len() && j != dst && j != dst + 1 ==> final(mem)@[j] == old(mem)@[j]
        }),
        spec_push_cached(*old(guest)) && spec_push_mode(*old(guest)) && spec_push_fits(
            *hwmm,
            old(mem)@.len() as int,
            old(guest).ss_base.value,
            old(guest).rsp.value,
        ) ==> ({
            &&& r == VMMStatus::Done
            &&& *final(guest) == (Guest { rsp: final(guest).rsp, ..*old(guest) })
            &&& final(guest).rsp.value == spec_push_sp(old(guest).rsp.value)
            &&& final(guest).rsp.encoding.0 & 0x8000 != 0
        }),
{
    let sp = match guest.rsp.as_ref(hw) {
        Err(_) => {
            return VMMStatus::Internal;
        },
        Ok(v) => v,
    };
    let low = (sp as u16).wrapping_sub(2);
    let nsp = (sp & !0xffffu64) | (low as u64);
    proof {
        let e = old(guest).rsp.encoding.0;
        assert(e & 0x8000 != 0 ==> (e | 0x8000 | 0x10000) & 0x8000 != 0) by (bit_vector);
    }
    guest.rsp.as_mut_set(nsp);
    let ss = match guest.ss_base.as_ref(hw) {
        Err(_) => {
            return VMMStatus::Internal;
        },
        Ok(v) => v,
    };
    if ss > u64::MAX - nsp {
        return VMMStatus::Fail;
    }
    let addr = ss + nsp;
    let mut src: Vec<u8> = Vec::new();
    src.push(value as u8);
    src.push((value >> 8) as u8);
    let rc = crate::vmmem::write(guest, hw, hwmm, mem, addr, &mut src);
    proof {
        if rc == VMMStatus::Done {
            assert(mem@[addr + 0] == value as u8);
            assert(mem@[addr + 1] == (value >> 8) as u8);
        }
    }
    rc
}

/// Load the far target into CS and the low 32 bits of RIP; the segment
/// base is `selector * 16` as in real mode.  Only CS and RIP change.
pub fn far_jump(guest: &mut Guest, hw: &Region, target: &FarPointer) -> (r: VMMStatus)
    ensures
        r == VMMStatus::DoneLetRip || r == VMMStatus::Internal,
        *final(guest) == (Guest {
            cs_sel: final(guest).cs_sel,
            cs_base: final(guest).cs_base,
            rip: final(guest).rip,
            ..*old(guest)
        }),
        r == VMMStatus::DoneLetRip ==> final(guest).cs_sel.value == target.selector as u64
            && final(guest).cs_base.value == (target.selector as u64) * 16,
        r == VMMStatus::DoneLetRip && old(guest).rip.encoding.0 & 0x8000 != 0
            ==> final(guest).rip.value == (old(guest).rip.value & 0xffffffff00000000) | (
        target.offset as u64),
        old(guest).rip.encoding.0 & 0x8000 != 0 && old(guest).cs_sel.encoding.0 & 0x8000 != 0
            && old(guest).cs_base.encoding.0 & 0x8000 != 0 ==> r == VMMStatus::DoneLetRip,
{
    match guest.cs_sel.as_ref(hw) {
        Err(_) => {
            return VMMStatus::Internal;
        },
        Ok(v) => v,
    };
    guest.cs_sel.as_mut_set(target.selector as u64);
    match guest.cs_base.as_ref(hw) {
        Err(_) => {
            return VMMStatus::Internal;
        },
        Ok(v) => v,
    };
    guest.cs_base.as_mut_set((target.selector as u64) * 16);
    let rip = match guest.rip.as_ref(hw) {
        Err(_) => {
            return VMMStatus::Internal;
        },
        Ok(v) => v,
    };
    guest.rip.as_mut_set((rip & 0xffffffff00000000) | (target.offset as u64));
    VMMStatus::DoneLetRip
}

/// The far-call registers beyond the push set are cached too.
pub open spec fn spec_far_call_cached(g: Guest) -> bool {
    &&& spec_push_cached(g)
    &&& g.cs_sel.encoding.0 & 0x8000 != 0
    &&& g.cs_base.encoding.0 & 0x8000 != 0
    &&& g.rip.encoding.0 & 0x8000 != 0
}

/// Far call: push the caller's CS, push the return offset (the low 16
/// bits of RIP advanced past the faulting instruction, 16-bit modular),
/// then jump to the target.  With the registers cached and both stack
/// slots addressable, the call is owed success and its effect is exact.
pub fn far_call(
    guest: &mut Guest,
    hw: &Region,
    hwmm: &HardwareMemory,
    mem: &mut Vec<u8>,
    target: &FarPointer,
    isz: u16,
) -> (r: VMMStatus)
    ensures
        final(mem)@.len() == old(mem)@.len(),
        spec_far_call_cached(*old(guest)) && spec_push_mode(*old(guest)) && spec_push_fits(
            *hwmm,
            old(mem)@.len() as int,
            old(guest).ss_base.value,
            old(guest).rsp.value,
        ) && spec_push_fits(
            *hwmm,
            old(mem)@.len() as int,
            old(guest).ss_base.value,
            spec_push_sp(old(guest).rsp.value),
        ) ==> ({
            let sp1 = spec_push_sp(old(guest).rsp.value);
            let sp2 = spec_push_sp(sp1);
            let ss = old(guest).ss_base.value;
            let csv = old(guest).cs_sel.value as u16;
            let ret = wrap_add16(old(guest).rip.value as u16, isz);
            &&& r == VMMStatus::DoneLetRip
            &&& *final(guest) == (Guest {
                rsp: final(guest).rsp,
                cs_sel: final(guest).cs_sel,
                cs_base: final(guest).cs_base,
                rip: final(guest).rip,
                ..*old(guest)
            })
            &&& final(guest).rsp.value == sp2
            &&& final(guest).cs_sel.value == target.selector as u64
            &&& final(guest).cs_base.value == (target.selector as u64) * 16
            &&& final(guest).rip.value == (old(guest).rip.value & 0xffffffff00000000) | (
            target.offset as u64)
            &&& final(mem)@[ss + sp1] == csv as u8
            &&& final(mem)@[ss + sp1 + 1] == (csv >> 8) as u8
            &&& final(mem)@[ss + sp2] == ret as u8
            &&& final(mem)@[ss + sp2 + 1] == (ret >> 8) as u8
            &&& forall|j: int|
                0 <= j < old(mem)@.len() && j != ss + sp1 && j != ss + sp1 + 1 && j != ss + sp2
                    && j != ss + sp2 + 1 ==> final(mem)@[j] == old(mem)@[j]
        }),
{
    proof {
        lemma_push_sp(old(guest).rsp.value);
        lemma_push_sp(spec_push_sp(old(guest).rsp.value));
    }
    let cs = match guest.cs_sel.as_ref(hw) {
        Err(_) => {
            return VMMStatus::Internal;
        },
        Ok(v) => v,
    };
    let rc = push(guest, hw, hwmm, mem, cs as u16);
    if !matches!(rc, VMMStatus::Done) {
        return rc;
    }
    let rip = match guest.rip.as_ref(hw) {
        Err(_) => {
            return VMMStatus::Internal;
        },
        Ok(v) => v,
    };
    let ret = (rip as u16).wrapping_add(isz);
    let rc = push(guest, hw, hwmm, mem, ret);
    if !matches!(rc, VMMStatus::Done) {
        return rc;
    }
    far_jump(guest, hw, target)
}

/// Clear IF, AC, TF and RF in the guest flags, as an interrupt gate does.
/// Only the flags register changes.
pub fn int_clear_flags(guest: &mut Guest, hw: &Region) -> (r: VMMStatus)
    ensures
        *final(guest) == (Guest { rflags: final(guest).rflags, ..*old(guest) }),
        r == VMMStatus::Done ==> final(guest).rflags.value == old(guest).rflags.value
            & !0x200u64 & !0x40000u64 & !0x100u64 & !0x10000u64 || old(guest).rflags.encoding.0 & 0x8000 == 0,
        r == VMMStatus::Done || r == VMMStatus::Internal,
        old(guest).rflags.encoding.0 & 0x8000 != 0 ==> r == VMMStatus::Done && final(guest).rflags.encoding.0 & 0x8000 != 0,
{
    proof {
        let e = old(guest).rflags.encoding.0;
        assert(e & 0x8000 != 0 ==> (e | 0x8000 | 0x10000) & 0x8000 != 0) by (bit_vector);
    }
    let v = match guest.rflags.as_ref(hw) {
        Err(_) => {
            return VMMStatus::Internal;
        },
        Ok(v) => v,
    };
    let mut flags = crate::rflags::Rflags(v);
    flags.set_it(false);
    flags.set_ac(false);
    flags.set_tf(false);
    flags.set_rf(false);
    guest.rflags.as_mut_set(flags.0);
    VMMStatus::Done
}

/// The conditions under which the real-mode interrupt emulation is owed
/// success: the touched registers are cached, the mode needs no
/// translation, the 4-byte IVT entry is readable, and all three pushed
/// slots are addressable.
pub open spec fn spec_int_forced(g: Guest, hwmm: HardwareMemory, mem_len: int, vector: u8) -> bool {
    &&& spec_far_call_cached(g)
    &&& spec_push_mode(g)
    &&& spec_access_ok(hwmm, mem_len, ((vector as u64) * 4) as u64, 4)
    &&& spec_push_fits(hwmm, mem_len, g.ss_base.value, g.rsp.value)
    &&& spec_push_fits(hwmm, mem_len, g.ss_base.value, spec_push_sp(g.rsp.value))
    &&& spec_push_fits(hwmm, mem_len, g.ss_base.value, spec_push_sp(spec_push_sp(g.rsp.value)))
}

/// The stack half of the interrupt emulation's effect: the flags, the old
/// CS and the return offset (old IP advanced by `isz`, 16-bit modular)
/// pushed at the three successive stack slots; no other byte changes.
pub open spec fn spec_int_stack(
    g0: Guest,
    mem0: Seq<u8>,
    mem1: Seq<u8>,
    vector: u8,
    isz: u16,
) -> bool {
    let sp1 = spec_push_sp(g0.rsp.value);
    let sp2 = spec_push_sp(sp1);
    let sp3 = spec_push_sp(sp2);
    let ss = g0.ss_base.value;
    let flags = g0.rflags.value as u16;
    let csv = g0.cs_sel.value as u16;
    let ret = wrap_add16(g0.rip.value as u16, isz);
    &&& mem1.len() == mem0.len()
    &&& mem1[ss + sp1] == flags as u8
    &&& mem1[ss + sp1 + 1] == (flags >> 8) as u8
    &&& mem1[ss + sp2] == csv as u8
    &&& mem1[ss + sp2 + 1] == (csv >> 8) as u8
    &&& mem1[ss + sp3] == ret as u8
    &&& mem1[ss + sp3 + 1] == (ret >> 8) as u8
    &&& forall|j: int|
        0 <= j < mem0.len() && j != ss + sp1 && j != ss + sp1 + 1 && j != ss + sp2 && j != ss
            + sp2 + 1 && j != ss + sp3 && j != ss + sp3 + 1 ==> mem1[j] == mem0[j]
}

/// The register half of the interrupt emulation's effect: SP dropped by
/// six with 16-bit wrap, IF/TF/AC/RF cleared, and CS:IP loaded from the
/// IVT entry for `vector` read from the pre-call memory; no other
/// register changes.
pub open spec fn spec_int_regs(g0: Guest, g1: Guest, mem0: Seq<u8>, vector: u8) -> bool {
    let v4 = (vector as u64) * 4;
    let entry_ip = (mem0[v4 as int] + mem0[v4 + 1] * 0x100) as u16;
    let entry_cs = (mem0[v4 + 2] + mem0[v4 + 3] * 0x100) as u16;
    &&& g1 == (Guest {
        rsp: g1.rsp,
        rflags: g1.rflags,
        cs_sel: g1.cs_sel,
        cs_base: g1.cs_base,
        rip: g1.rip,
        ..g0
    })
    &&& g1.rsp.value == spec_push_sp(spec_push_sp(spec_push_sp(g0.rsp.value)))
    &&& g1.rflags.value == g0.rflags.value & !0x200u64 & !0x40000u64 & !0x100u64 & !0x10000u64
    &&& g1.cs_sel.value == entry_cs as u64
    &&& g1.cs_base.value == (entry_cs as u64) * 16
    &&& g1.rip.value == (g0.rip.value & 0xffffffff00000000) | (entry_ip as u64)
}

/// The full effect of emulating a real-mode interrupt: the three pushes
/// on the stack and the register updates.
pub open spec fn spec_int_effect(
    g0: Guest,
    g1: Guest,
    mem0: Seq<u8>,
    mem1: Seq<u8>,
    vector: u8,
    isz: u16,
) -> bool {
    &&& spec_int_stack(g0, mem0, mem1, vector, isz)
    &&& spec_int_regs(g0, g1, mem0, vector)
}

/// Emulate a real-mode interrupt for vector `vector` whose instruction
/// was `isz` bytes long: the BIOS misc vector is not implemented; the
/// 4-byte IVT entry comes from guest physical `vector * 4`, the flags,
/// CS and return offset go on the guest stack, and execution continues
/// at the vector's target with the interrupt flags cleared.  On the
/// inputs of [`spec_int_forced`] the emulation is owed success with the
/// exact effect of [`spec_int_effect`].
pub fn interrupt(
    guest: &mut Guest,
    hw: &Region,
    hwmm: &HardwareMemory,
    mem: &mut Vec<u8>,
    vector: u8,
    isz: u16,
) -> (r: VMMStatus)
    ensures
        final(mem)@.len() == old(mem)@.len(),
        vector == crate::rmode::BIOS_MISC_INTERRUPT ==> r == VMMStatus::Fail && *final(mem)
            == *old(mem),
        vector != crate::rmode::BIOS_MISC_INTERRUPT && spec_int_forced(
            *old(guest),
            *hwmm,
            old(mem)@.len() as int,
            vector,
        ) ==> r == VMMStatus::DoneLetRip && spec_int_effect(
            *old(guest),
            *final(guest),
            old(mem)@,
            final(mem)@,
            vector,
            isz,
        ),
{
    proof {
        lemma_push_sp(old(guest).rsp.value);
        lemma_push_sp(spec_push_sp(old(guest).rsp.value));
        lemma_push_sp(spec_push_sp(spec_push_sp(old(guest).rsp.value)));
    }
    if vector == crate::rmode::BIOS_MISC_INTERRUPT {
        return VMMStatus::Fail;
    }
    let addr = (vector as u64) * 4;
    let mut raw: Vec<u8> = Vec::new();
    raw.push(0);
    raw.push(0);
    raw.push(0);
    raw.push(0);
    let rc = crate::vmmem::read(guest, hw, hwmm, mem, addr, &mut raw);
    if !matches!(rc, VMMStatus::Done) {
        return rc;
    }
    let entry = IVTEntry::from_bytes(raw[0], raw[1], raw[2], raw[3]);
    let flags = match guest.rflags.as_ref(hw) {
        Err(_) => {
            return VMMStatus::Internal;
        },
        Ok(v) => v,
    };
    let rc = push(guest, hw, hwmm, mem, flags as u16);
    if !matches!(rc, VMMStatus::Done) {
        return rc;
    }
    let rc = int_clear_flags(guest, hw);
    if !matches!(rc, VMMStatus::Done) {
        return rc;
    }
    proof {
        let f = old(guest).rflags.value;
        assert((f & !0x200u64 & !0x40000u64 & !0x100u64 & !0x10000u64) & 0x20000 == f & 0x20000)
            by (bit_vector);
    }
    let fptr = FarPointer { offset: entry.ip as u32, selector: entry.cs };
    far_call(guest, hw, hwmm, mem, &fptr, isz)
}

/// A software interrupt: the `INT n` instruction is two bytes long, so
/// the pushed return offset is the old IP advanced by two.  Offered only
/// to a guest in real mode; in any other mode it fails and changes
/// nothing.
pub fn soft_int(
    guest: &mut Guest,
    hw: &Region,
    hwmm: &HardwareMemory,
    mem: &mut Vec<u8>,
    vector: u8,
) -> (r: VMMStatus)
    ensures
        final(mem)@.len() == old(mem)@.len(),
        spec_mode_cached(*old(guest)) && !spec_in_real(*old(guest)) ==> r == VMMStatus::Fail
            && *final(guest) == *old(guest) && *final(mem) == *old(mem),
        spec_mode_cached(*old(guest)) && spec_in_real(*old(guest)) && vector
            == crate::rmode::BIOS_MISC_INTERRUPT ==> r == VMMStatus::Fail && *final(mem) == *old(mem),
        spec_mode_cached(*old(guest)) && spec_in_real(*old(guest)) && vector
            != crate::rmode::BIOS_MISC_INTERRUPT && spec_int_forced(
            *old(guest),
            *hwmm,
            old(mem)@.len() as int,
            vector,
        ) ==> r == VMMStatus::DoneLetRip && spec_int_effect(
            *old(guest),
            *final(guest),
            old(mem)@,
            final(mem)@,
            vector,
            2,
        ),
{
    gated_interrupt(guest, hw, hwmm, mem, vector, 2)
}

/// An external interrupt: nothing to skip on return, so the pushed return
/// offset is the old IP itself.  Offered only to a guest in real mode; in
/// any other mode it fails and changes nothing.
pub fn hard_int(
    guest: &mut Guest,
    hw: &Region,
    hwmm: &HardwareMemory,
    mem: &mut Vec<u8>,
    vector: u8,
) -> (r: VMMStatus)
    ensures
        final(mem)@.len() == old(mem)@.len(),
        spec_mode_cached(*old(guest)) && !spec_in_real(*old(guest)) ==> r == VMMStatus::Fail
            && *final(guest) == *old(guest) && *final(mem) == *old(mem),
        spec_mode_cached(*old(guest)) && spec_in_real(*old(guest)) && vector
            == crate::rmode::BIOS_MISC_INTERRUPT ==> r == VMMStatus::Fail && *final(mem) == *old(mem),
        spec_mode_cached(*old(guest)) && spec_in_real(*old(guest)) && vector
            != crate::rmode::BIOS_MISC_INTERRUPT && spec_int_forced(
            *old(guest),
            *hwmm,
            old(mem)@.len() as int,
            vector,
        ) ==> r == VMMStatus::DoneLetRip && spec_int_effect(
            *old(guest),
            *final(guest),
            old(mem)@,
            final(mem)@,
            vector,
            0,
        ),
{
    gated_interrupt(guest, hw, hwmm, mem, vector, 0)
}

/// Emulation is offered only to a guest in real mode.
fn gated_interrupt(
    guest: &mut Guest,
    hw: &Region,
    hwmm: &HardwareMemory,
    mem: &mut Vec<u8>,
    vector: u8,
    isz: u16,
) -> (r: VMMStatus)
    ensures
        final(mem)@.len() == old(mem)@.len(),
        spec_mode_cached(*old(guest)) && !spec_in_real(*old(guest)) ==> r == VMMStatus::Fail
            && *final(guest) == *old(guest) && *final(mem) == *old(mem),
        spec_mode_cached(*old(guest)) && spec_in_real(*old(guest)) && vector
            == crate::rmode::BIOS_MISC_INTERRUPT ==> r == VMMStatus::Fail && *final(mem) == *old(mem),
        spec_mode_cached(*old(guest)) && spec_in_real(*old(guest)) && vector
            != crate::rmode::BIOS_MISC_INTERRUPT && spec_int_forced(
            *old(guest),
            *hwmm,
            old(mem)@.len() as int,
            vector,
        ) ==> r == VMMStatus::DoneLetRip && spec_int_effect(
            *old(guest),
            *final(guest),
            old(mem)@,
            final(mem)@,
            vector,
            isz,
        ),
{
    let in_real = match CPUState::mode(guest, hw, CPUMode::Real) {
        Err(_) => {
            return VMMStatus::Internal;
        },
        Ok(b) => b,
    };
    if in_real {
        interrupt(guest, hw, hwmm, mem, vector, isz)
    } else {
        VMMStatus::Fail
    }
}

} // verus!
