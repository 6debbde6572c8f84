//! Guest memory access, mediated by the CPU mode and the secret area.
//!
//! Guest physical memory is the byte vector `mem`, indexed by physical
//! address.  In real and virtual-8086 mode an address is guest physical;
//! paged modes would need a guest page-table walk, which is not
//! implemented and must fail rather than return a wrong result.

use vstd::prelude::*;

use crate::cpumode::{spec_in_real, spec_in_v8086, spec_mode_cached, CPUState};
use crate::exit::VMMStatus;
use crate::smem::HardwareMemory;
use crate::vmcs::Guest;
use crate::vmx::Region;

verus! {

/// One guest memory access: the guest address, its length, and whether
/// the guest side is written.
#[derive(Debug, Copy, Clone, PartialEq, Eq, Structural)]
pub struct Access {
    pub cr3: u64,
    pub addr: u64,
    pub len: u64,
    pub write: bool,
}

/// The byte range misses the secret area and lies inside RAM.
pub open spec fn spec_access_ok(hwmm: HardwareMemory, mem_len: int, addr: u64, len: u64) -> bool {
    &&& len >= 1
    &&& addr + len - 1 <= u64::MAX
    &&& (addr >= hwmm.area.end || addr + len - 1 < hwmm.area.start)
    &&& addr + len <= mem_len
}

/// Conditions under which a guest access is owed success: the mode bits
/// are cached, the mode treats the address as guest physical, and the
/// range misses the secret area and lies inside RAM.
pub open spec fn spec_access_forced(
    g: crate::vmcs::Guest,
    hwmm: HardwareMemory,
    mem_len: int,
    addr: u64,
    len: u64,
) -> bool {
    &&& spec_mode_cached(g)
    &&& spec_in_real(g) || spec_in_v8086(g) || g.cr0.value & 0x80000000 == 0
    &&& spec_access_ok(hwmm, mem_len, addr, len)
}

/// Copy between guest memory and a buffer after the secret-area check:
/// an access that may touch the hypervisor's own memory fails.
pub fn access_system(
    hwmm: &HardwareMemory,
    mem: &mut Vec<u8>,
    access: &Access,
    buf: &mut Vec<u8>,
) -> (r: VMMStatus)
    requires
        access.len == old(buf)@.len(),
    ensures
        final(mem)@.len() == old(mem)@.len(),
        final(buf)@.len() == old(buf)@.len(),
        r == VMMStatus::Done <==> spec_access_ok(
            *hwmm,
            old(mem)@.len() as int,
            access.addr,
            access.len,
        ),
        r != VMMStatus::Done ==> r == VMMStatus::Fail && *final(mem) == *old(mem) && *final(buf)
            == *old(buf),
        r == VMMStatus::Done && access.write ==> *final(buf) == *old(buf) && (forall|j: int|
            0 <= j < access.len ==> #[trigger] final(mem)@[access.addr + j] == old(buf)@[j])
            && (forall|j: int|
            0 <= j < old(mem)@.len() && !(access.addr <= j < access.addr + access.len)
                ==> final(mem)@[j] == old(mem)@[j]),
        r == VMMStatus::Done && !access.write ==> *final(mem) == *old(mem) && (forall|j: int|
            0 <= j < access.len ==> #[trigger] final(buf)@[j] == old(mem)@[access.addr + j]),
{
    if access.len == 0 {
        return VMMStatus::Fail;
    }
    if access.addr > u64::MAX - (access.len - 1) {
        return VMMStatus::Fail;
    }
    if hwmm.area.touch(access.addr, access.len) {
        return VMMStatus::Fail;
    }
    let mlen: usize = mem.len();
    if access.len > mlen as u64 || access.addr > mlen as u64 - access.len {
        return VMMStatus::Fail;
    }
    let base = access.addr as usize;
    let n = access.len as usize;
    if access.write {
        let mut k: usize = 0;
        while k < n
            invariant
                k <= n,
                base + n <= mem@.len(),
                mem@.len() <= usize::MAX,
                n == buf@.len(),
                mem@.len() == old(mem)@.len(),
                *buf == *old(buf),
                forall|j: int| 0 <= j < k ==> #[trigger] mem@[base + j] == buf@[j],
                forall|j: int|
                    0 <= j < mem@.len() && !(base <= j < base + n) ==> mem@[j] == old(mem)@[j],
            decreases n - k,
        {
            mem.set(base + k, buf[k]);
            k = k + 1;
        }
    } else {
        let mut k: usize = 0;
        while k < n
            invariant
                k <= n,
                base + n <= mem@.len(),
                mem@.len() <= usize::MAX,
                n == buf@.len(),
                buf@.len() == old(buf)@.len(),
                *mem == *old(mem),
                forall|j: int| 0 <= j < k ==> #[trigger] buf@[j] == mem@[base + j],
            decreases n - k,
        {
            let b = mem[base + k];
            buf.set(k, b);
            k = k + 1;
        }
    }
    VMMStatus::Done
}

/// A physical access: no nested translation yet, straight to system
/// memory.
pub fn access_physical(
    hwmm: &HardwareMemory,
    mem: &mut Vec<u8>,
    access: &Access,
    buf: &mut Vec<u8>,
) -> (r: VMMStatus)
    requires
        access.len == old(buf)@.len(),
    ensures
        final(mem)@.len() == old(mem)@.len(),
        final(buf)@.len() == old(buf)@.len(),
        r == VMMStatus::Done <==> spec_access_ok(
            *hwmm,
            old(mem)@.len() as int,
            access.addr,
            access.len,
        ),
        r != VMMStatus::Done ==> r == VMMStatus::Fail && *final(mem) == *old(mem) && *final(buf)
            == *old(buf),
        r == VMMStatus::Done && access.write ==> *final(buf) == *old(buf) && (forall|j: int|
            0 <= j < access.len ==> #[trigger] final(mem)@[access.addr + j] == old(buf)@[j])
            && (forall|j: int|
            0 <= j < old(mem)@.len() && !(access.addr <= j < access.addr + access.len)
                ==> final(mem)@[j] == old(mem)@[j]),
        r == VMMStatus::Done && !access.write ==> *final(mem) == *old(mem) && (forall|j: int|
            0 <= j < access.len ==> #[trigger] final(buf)@[j] == old(mem)@[access.addr + j]),
{
    access_system(hwmm, mem, access, buf)
}

/// A virtual access would need a guest page-table walk rooted at guest
/// CR3; it is not implemented and fails.
pub fn access_virtual(
    hwmm: &HardwareMemory,
    mem: &mut Vec<u8>,
    access: &Access,
    buf: &mut Vec<u8>,
) -> (r: VMMStatus)
    ensures
        r == VMMStatus::Fail,
        *final(mem) == *old(mem),
        *final(buf) == *old(buf),
{
    VMMStatus::Fail
}

/// A linear access: guest physical in real, virtual-8086 and non-paged
/// protected modes, a page-table walk (unimplemented) in paged modes.
pub fn access_linear(
    guest: &mut Guest,
    hw: &Region,
    hwmm: &HardwareMemory,
    mem: &mut Vec<u8>,
    access: &Access,
    buf: &mut Vec<u8>,
) -> (r: VMMStatus)
    requires
        access.len == old(buf)@.len(),
    ensures
        final(guest).rsp == old(guest).rsp,
        final(guest).rip == old(guest).rip,
        final(guest).cs_sel == old(guest).cs_sel,
        final(guest).cs_base == old(guest).cs_base,
        final(guest).ss_base == old(guest).ss_base,
        final(mem)@.len() == old(mem)@.len(),
        final(buf)@.len() == old(buf)@.len(),
        r == VMMStatus::Done ==> spec_access_ok(
            *hwmm,
            old(mem)@.len() as int,
            access.addr,
            access.len,
        ),
        r == VMMStatus::Done && access.write ==> *final(buf) == *old(buf) && (forall|j: int|
            0 <= j < access.len ==> #[trigger] final(mem)@[access.addr + j] == old(buf)@[j])
            && (forall|j: int|
            0 <= j < old(mem)@.len() && !(access.addr <= j < access.addr + access.len)
                ==> final(mem)@[j] == old(mem)@[j]),
        r == VMMStatus::Done && !access.write ==> *final(mem) == *old(mem) && (forall|j: int|
            0 <= j < access.len ==> #[trigger] final(buf)@[j] == old(mem)@[access.addr + j]),
        r != VMMStatus::Done ==> *final(mem) == *old(mem) && *final(buf) == *old(buf),
        spec_access_forced(*old(guest), *hwmm, old(mem)@.len() as int, access.addr, access.len)
            ==> r == VMMStatus::Done,
        spec_mode_cached(*old(guest)) ==> *final(guest) == *old(guest),
{
    let cpu = match CPUState::init(guest, hw) {
        Err(_) => {
            return VMMStatus::Internal;
        },
        Ok(c) => c,
    };
    if cpu.is_real() || cpu.is_v8086() {
        return access_physical(hwmm, mem, access, buf);
    }
    if cpu.is_paged() {
        access_virtual(hwmm, mem, access, buf)
    } else {
        access_physical(hwmm, mem, access, buf)
    }
}

/// Read `dst.len()` bytes of guest memory at `addr` into `dst`.
pub fn read(
    guest: &mut Guest,
    hw: &Region,
    hwmm: &HardwareMemory,
    mem: &mut Vec<u8>,
    addr: u64,
    dst: &mut Vec<u8>,
) -> (r: VMMStatus)
    ensures
        final(guest).rsp == old(guest).rsp,
        final(guest).rip == old(guest).rip,
        final(guest).cs_sel == old(guest).cs_sel,
        final(guest).cs_base == old(guest).cs_base,
        final(guest).ss_base == old(guest).ss_base,
        *final(mem) == *old(mem),
        final(dst)@.len() == old(dst)@.len(),
        r == VMMStatus::Done ==> spec_access_ok(
            *hwmm,
            old(mem)@.len() as int,
            addr,
            old(dst)@.len() as u64,
        ) && (forall|j: int|
            0 <= j < old(dst)@.len() ==> #[trigger] final(dst)@[j] == old(mem)@[addr + j]),
        r != VMMStatus::Done ==> *final(dst) == *old(dst),
        old(guest).cr3.encoding.0 & 0x8000 != 0 && spec_access_forced(
            *old(guest),
            *hwmm,
            old(mem)@.len() as int,
            addr,
            old(dst)@.len() as u64,
        ) ==> r == VMMStatus::Done,
        old(guest).cr3.encoding.0 & 0x8000 != 0 && spec_mode_cached(*old(guest)) ==> *final(guest) == *old(guest),
{
    let cr3 = match guest.cr3.as_ref(hw) {
        Err(_) => {
            return VMMStatus::Internal;
        },
        Ok(v) => v,
    };
    let access = Access { cr3, addr, len: dst.len() as u64, write: false };
    access_linear(guest, hw, hwmm, mem, &access, dst)
}

/// Write the bytes of `src` into guest memory at `addr`.
pub fn write(
    guest: &mut Guest,
    hw: &Region,
    hwmm: &HardwareMemory,
    mem: &mut Vec<u8>,
    addr: u64,
    src: &mut Vec<u8>,
) -> (r: VMMStatus)
    ensures
        final(guest).rsp == old(guest).rsp,
        final(guest).rip == old(guest).rip,
        final(guest).cs_sel == old(guest).cs_sel,
        final(guest).cs_base == old(guest).cs_base,
        final(guest).ss_base == old(guest).ss_base,
        *final(src) == *old(src),
        final(mem)@.len() == old(mem)@.len(),
        r == VMMStatus::Done ==> spec_access_ok(
            *hwmm,
            old(mem)@.len() as int,
            addr,
            old(src)@.len() as u64,
        ) && (forall|j: int|
            0 <= j < old(src)@.len() ==> #[trigger] final(mem)@[addr + j] == old(src)@[j]) && (
        forall|j: int|
            0 <= j < old(mem)@.len() && !(addr <= j < addr + old(src)@.len()) ==> final(mem)@[j]
                == old(mem)@[j]),
        r != VMMStatus::Done ==> *final(mem) == *old(mem),
        old(guest).cr3.encoding.0 & 0x8000 != 0 && spec_access_forced(
            *old(guest),
            *hwmm,
            old(mem)@.len() as int,
            addr,
            old(src)@.len() as u64,
        ) ==> r == VMMStatus::Done,
        old(guest).cr3.encoding.0 & 0x8000 != 0 && spec_mode_cached(*old(guest)) ==> *final(guest) == *old(guest),
{
    let cr3 = match guest.cr3.as_ref(hw) {
        Err(_) => {
            return VMMStatus::Internal;
        },
        Ok(v) => v,
    };
    let access = Access { cr3, addr, len: src.len() as u64, write: true };
    access_linear(guest, hw, hwmm, mem, &access, src)
}

} // verus!
