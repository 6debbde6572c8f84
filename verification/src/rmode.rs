//! Real-mode layout: the memory map below 1 MiB, the interrupt vector
//! table, and the guest's boot entry state.

use vstd::prelude::*;

verus! {

pub const IVT_START: u64 = 0x000000;

pub const IVT_END: u64 = 0x000400;

pub const BIOS_DATA_START: u64 = 0x000400;

pub const BIOS_DATA_END: u64 = 0x000600;

pub const LOW_MEM_START: u64 = 0x000600;

pub const LOW_MEM_END: u64 = 0x09fc00;

pub const BIOS_EXT_DATA_START: u64 = 0x09fc00;

pub const BIOS_EXT_DATA_END: u64 = 0x0a0000;

pub const VGA_START: u64 = 0x0a0000;

pub const VGA_END: u64 = 0x0c0000;

pub const VGA_BIOS_START: u64 = 0x0c0000;

pub const VGA_BIOS_END: u64 = 0x0f0000;

pub const BIOS_START: u64 = 0x0f0000;

pub const BIOS_START_OFFSET: u64 = 0x00fff0;

pub const BIOS_END: u64 = 0x100000;

pub const EXT_MEM_START: u64 = 0x100000;

pub const DMA_END: u64 = 0x1000000;

pub const BIOS_BOOTLOADER: u64 = 0x07c00;

pub const LIMIT: u64 = EXT_MEM_START;

pub const WRAP_LIMIT: u64 = LIMIT + 0x10000;

/// Guest boot stack: two bytes below the top of conventional memory.
pub const STACK_BOTTOM: u64 = LOW_MEM_END - 2;

pub const BASE_SS: u64 = (STACK_BOTTOM & 0xffff0000) >> 4;

pub const BASE_SP: u64 = STACK_BOTTOM & 0xffff;

pub const BASE_IP: u64 = LOW_MEM_START & 0xffff;

/// `INT 0x19`, little-endian.
pub const INT19: u16 = 0x19cd;

/// One interrupt vector table entry: offset then segment.
#[derive(Debug, Default, Copy, Clone, PartialEq, Eq, Structural)]
pub struct IVTEntry {
    pub ip: u16,
    pub cs: u16,
}

impl IVTEntry {
    /// Rebuild an entry from its four guest-memory bytes.
    pub fn from_bytes(b0: u8, b1: u8, b2: u8, b3: u8) -> (r: IVTEntry)
        ensures
            r.ip == b0 + b1 * 0x100,
            r.cs == b2 + b3 * 0x100,
    {
        IVTEntry { ip: b0 as u16 + (b1 as u16) * 0x100, cs: b2 as u16 + (b3 as u16) * 0x100 }
    }
}

pub const BIOS_VIDEO_INTERRUPT: u8 = 0x10;

pub const BIOS_DISK_INTERRUPT: u8 = 0x13;

pub const BIOS_MISC_INTERRUPT: u8 = 0x15;

pub const BIOS_KBD_INTERRUPT: u8 = 0x16;

pub const BIOS_BOOT_INTERRUPT: u8 = 0x19;

pub const BIOS_GET_SMAP: u16 = 0xe820;

pub const BIOS_SMAP_ERROR: u16 = 0x86;

pub const BIOS_GET_EXT_MEM_32: u16 = 0xe881;

pub const BIOS_GET_EXT_MEM: u16 = 0xe801;

pub const BIOS_DISABLE_A20: u16 = 0x2400;

pub const BIOS_ENABLE_A20: u16 = 0x2401;

pub const BIOS_STATUS_A20: u16 = 0x2402;

pub const BIOS_SUPPORT_A20: u16 = 0x2403;

pub const BIOS_GET_BIG_MEM: u8 = 0x8a;

pub const BIOS_OLD_GET_EXT_MEM: u8 = 0x88;

/// The address lies in a BIOS-owned region of real-mode memory.
pub fn is_bios_mem(addr: u64) -> (r: bool)
    ensures
        r == ((IVT_START <= addr < BIOS_DATA_END) || (BIOS_EXT_DATA_START <= addr
            < EXT_MEM_START)),
{
    (addr >= IVT_START && addr < BIOS_DATA_END) || (addr >= BIOS_EXT_DATA_START && addr
        < EXT_MEM_START)
}

/// IDTR limit covering the first `n` real-mode vectors.
pub fn ivt_limit(n: u8) -> (r: u16)
    requires
        n >= 1,
    ensures
        r == n * 4 - 1,
{
    (n as u16) * 4 - 1
}

/// Patch the guest word at `addr` with `INT 0x19`, so the guest boots
/// into the BIOS boot vector.
pub fn vm_set_entry(mem: &mut Vec<u8>, addr: u64)
    requires
        addr + 2 <= old(mem)@.len(),
    ensures
        final(mem)@.len() == old(mem)@.len(),
        final(mem)@[addr as int] == 0xcdu8,
        final(mem)@[addr + 1] == 0x19u8,
        forall|j: int|
            0 <= j < old(mem)@.len() && j != addr && j != addr + 1 ==> final(mem)@[j] == old(
                mem,
            )@[j],
{
    let mlen: usize = mem.len();
    mem.set(addr as usize, 0xcd);
    mem.set(addr as usize + 1, 0x19);
}

} // verus!
