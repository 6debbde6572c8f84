//! Core logic of a minimal Intel VT-x type-1 hypervisor, modelled over plain
//! values so that every algorithm is verified: bootstrap memory layout and the
//! ELF64 relocation loader, the generic 4-level page-mapping engine (native and
//! EPT entry layouts), the VMCS mirror with its init / encode / commit
//! protocol and fixed-bit masking, VM-exit dispatch, and real-mode interrupt
//! emulation.
//!
//! Hardware access (privileged instructions, port I/O, the raw physical
//! address space) cannot be expressed here; the machine state those
//! instructions touch is modelled as explicit values (MSR words handed in as
//! arguments, a hardware-VMCS region modelled as an association list) so the
//! decisions computed from them are proved exactly.

pub mod elf64;
pub mod enc;
pub mod access;
pub mod cpu;
pub mod cpumode;
pub mod cr;
pub mod emulate;
pub mod ept;
pub mod exceptions;
pub mod exit;
pub mod frame;
pub mod gpr;
pub mod info;
pub mod interrupts;
pub mod mmap;
pub mod msr;
pub mod mtrr;
pub mod pgutils;
pub mod pool;
pub mod regs;
pub mod rflags;
pub mod rmode;
pub mod segmentation;
pub mod smap;
pub mod smem;
pub mod ptb;
pub mod utils;
pub mod vm;
pub mod vmcs;
pub mod vmm;
pub mod vmmem;
pub mod vmx;

use vstd::prelude::*;

verus! {

/// Fatal conditions of the hypervisor: on bare metal each of these
/// halts the machine.
#[derive(Debug, Copy, Clone, PartialEq, Eq, Structural)]
pub enum VmmError {
    OutOfMemory,
    BadTable,
    Unsupported,
    InvalidElf,
    InvalidProgramHeader,
    InvalidRelocation,
    InvalidRelocationAddend,
    NoAreaEnd,
    NoModule,
    AreaTooSmall,
    MissingVmxFeature,
    BadGdtIndex,
    VmxInstructionFailed,
    BadFakeField,
    MissingCpuidLeaf,
    VmxLockedOff,
    UnhandledExit,
}

} // verus!
