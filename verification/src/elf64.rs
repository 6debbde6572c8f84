//! ELF64 relocation loader for the runtime image: one `PT_LOAD` segment,
//! `R_X86_64_RELATIVE` relocations only.
//!
//! The image is a byte slice and the destination is a byte vector indexed
//! by physical address, so every copy, fill and fix-up is stated byte for
//! byte.

use vstd::prelude::*;

use crate::VmmError;

verus! {

pub const EM_X86_64: u16 = 62;

pub const PT_LOAD: u32 = 1;

pub const SHT_RELA: u32 = 4;

pub const R_X86_64_RELATIVE: u32 = 8;

/// Little-endian 16-bit word at `off`.
pub open spec fn le16(b: Seq<u8>, off: int) -> u16 {
    (b[off] + b[off + 1] * 0x100) as u16
}

/// Little-endian 32-bit word at `off`.
pub open spec fn le32(b: Seq<u8>, off: int) -> u32 {
    (b[off] + b[off + 1] * 0x100 + b[off + 2] * 0x10000 + b[off + 3] * 0x1000000) as u32
}

/// Little-endian 64-bit word at `off`.
pub open spec fn le64(b: Seq<u8>, off: int) -> u64 {
    (le32(b, off) + le32(b, off + 4) * 0x100000000) as u64
}

pub fn read_le16(b: &[u8], off: usize) -> (r: u16)
    requires
        off + 2 <= b@.len(),
    ensures
        r == le16(b@, off as int),
{
    let lo = b[off] as u16;
    let hi = b[off + 1] as u16;
    lo + hi * 0x100
}

pub fn read_le32(b: &[u8], off: usize) -> (r: u32)
    requires
        off + 4 <= b@.len(),
    ensures
        r == le32(b@, off as int),
{
    let b0 = b[off] as u32;
    let b1 = b[off + 1] as u32;
    let b2 = b[off + 2] as u32;
    let b3 = b[off + 3] as u32;
    b0 + b1 * 0x100 + b2 * 0x10000 + b3 * 0x1000000
}

pub fn read_le64(b: &[u8], off: usize) -> (r: u64)
    requires
        off + 8 <= b@.len(),
    ensures
        r == le64(b@, off as int),
{
    let blen: usize = b.len();
    let lo = read_le32(b, off) as u64;
    let hi = read_le32(b, off + 4) as u64;
    lo + hi * 0x100000000
}

/// The fixed part of the ELF64 file header.
#[derive(Debug, Copy, Clone)]
pub struct Header {
    pub e_type: u16,
    pub e_machine: u16,
    pub e_version: u32,
    pub e_entry: u64,
    pub e_phoff: u64,
    pub e_shoff: u64,
    pub e_flags: u32,
    pub e_ehsize: u16,
    pub e_phentsize: u16,
    pub e_phnum: u16,
    pub e_shentsize: u16,
    pub e_shnum: u16,
    pub e_shstrndx: u16,
}

#[derive(Debug, Copy, Clone)]
pub struct ProgramHeader {
    pub p_type: u32,
    pub p_flags: u32,
    pub p_offset: u64,
    pub p_vaddr: u64,
    pub p_paddr: u64,
    pub p_filesz: u64,
    pub p_memsz: u64,
    pub p_align: u64,
}

#[derive(Debug, Copy, Clone)]
pub struct SectionHeader {
    pub sh_name: u32,
    pub sh_type: u32,
    pub sh_flags: u64,
    pub sh_addr: u64,
    pub sh_offset: u64,
    pub sh_size: u64,
    pub sh_link: u32,
    pub sh_info: u32,
    pub sh_addralign: u64,
    pub sh_entsize: u64,
}

/// One `.rela` entry.
#[derive(Debug, Copy, Clone)]
pub struct Rela {
    pub r_offset: u64,
    pub r_info: u64,
    pub r_addend: i64,
}

impl Rela {
    /// Relocation kind: the low 32 bits of `r_info`.
    pub fn r_type(&self) -> (r: u32)
        ensures
            r == self.r_info as u32,
    {
        self.r_info as u32
    }
}

impl Header {
    /// Parse the file header; a shorter buffer has none.
    pub fn parse(img: &[u8]) -> (r: Option<Header>)
        ensures
            r is Some <==> img@.len() >= 64,
            r matches Some(h) ==> {
                &&& h.e_type == le16(img@, 16)
                &&& h.e_machine == le16(img@, 18)
                &&& h.e_entry == le64(img@, 24)
                &&& h.e_phoff == le64(img@, 32)
                &&& h.e_shoff == le64(img@, 40)
                &&& h.e_phnum == le16(img@, 56)
                &&& h.e_shentsize == le16(img@, 58)
                &&& h.e_shnum == le16(img@, 60)
            },
    {
        if img.len() < 64 {
            return None;
        }
        Some(
            Header {
                e_type: read_le16(img, 16),
                e_machine: read_le16(img, 18),
                e_version: read_le32(img, 20),
                e_entry: read_le64(img, 24),
                e_phoff: read_le64(img, 32),
                e_shoff: read_le64(img, 40),
                e_flags: read_le32(img, 48),
                e_ehsize: read_le16(img, 52),
                e_phentsize: read_le16(img, 54),
                e_phnum: read_le16(img, 56),
                e_shentsize: read_le16(img, 58),
                e_shnum: read_le16(img, 60),
                e_shstrndx: read_le16(img, 62),
            },
        )
    }

    /// The single `PT_LOAD` program header, when the file has program
    /// headers, the first one lies inside the buffer, and it is `PT_LOAD`.
    pub fn phdr(&self, img: &[u8]) -> (r: Option<ProgramHeader>)
        ensures
            r matches Some(p) ==> {
                &&& self.e_phnum != 0
                &&& self.e_phoff + 56 <= img@.len()
                &&& p.p_type == PT_LOAD
                &&& p.p_type == le32(img@, self.e_phoff as int)
                &&& p.p_offset == le64(img@, self.e_phoff + 8)
                &&& p.p_vaddr == le64(img@, self.e_phoff + 16)
                &&& p.p_filesz == le64(img@, self.e_phoff + 32)
                &&& p.p_memsz == le64(img@, self.e_phoff + 40)
                &&& p.p_align == le64(img@, self.e_phoff + 48)
            },
            r is None ==> self.e_phnum == 0 || self.e_phoff + 56 > img@.len() || le32(
                img@,
                self.e_phoff as int,
            ) != PT_LOAD,
    {
        if self.e_phnum == 0 {
            return None;
        }
        let ilen = img.len() as u64;
        if self.e_phoff > u64::MAX - 56 {
            return None;
        }
        if self.e_phoff + 56 > ilen {
            return None;
        }
        let off = self.e_phoff as usize;
        let phdr = ProgramHeader {
            p_type: read_le32(img, off),
            p_flags: read_le32(img, off + 4),
            p_offset: read_le64(img, off + 8),
            p_vaddr: read_le64(img, off + 16),
            p_paddr: read_le64(img, off + 24),
            p_filesz: read_le64(img, off + 32),
            p_memsz: read_le64(img, off + 40),
            p_align: read_le64(img, off + 48),
        };
        if phdr.p_type == PT_LOAD {
            Some(phdr)
        } else {
            None
        }
    }

    /// First section header of the wanted type, scanning the section table.
    /// The scan follows [`spec_find_shdr`] exactly: it stops, finding
    /// nothing, at the first table slot that overflows or falls outside
    /// the buffer.
    pub fn shdr(&self, img: &[u8], sht: u32) -> (r: Option<SectionHeader>)
        ensures
            ({
                let found = spec_find_shdr(
                    img@,
                    self.e_shoff as int,
                    self.e_shnum as int,
                    0,
                    sht,
                );
                &&& (r is Some <==> found is Some)
                &&& (r matches Some(s) ==> found matches Some(off) && {
                    &&& s.sh_type == sht
                    &&& s.sh_offset == le64(img@, off + 24)
                    &&& s.sh_size == le64(img@, off + 32)
                    &&& s.sh_entsize == le64(img@, off + 56)
                })
            }),
    {
        let mut i: usize = 0;
        let n = self.e_shnum as usize;
        while i < n
            invariant
                n == self.e_shnum,
                i <= n,
                spec_find_shdr(img@, self.e_shoff as int, n as int, 0, sht) == spec_find_shdr(
                    img@,
                    self.e_shoff as int,
                    n as int,
                    i as int,
                    sht,
                ),
            decreases n - i,
        {
            if self.e_shoff > u64::MAX - 64 - 64 * (i as u64) {
                return None;
            }
            let off64 = self.e_shoff + 64 * (i as u64);
            if off64 > u64::MAX - 64 || off64 + 64 > img.len() as u64 {
                return None;
            }
            let off = off64 as usize;
            let sh_type = read_le32(img, off + 4);
            if sh_type == sht {
                return Some(
                    SectionHeader {
                        sh_name: read_le32(img, off),
                        sh_type,
                        sh_flags: read_le64(img, off + 8),
                        sh_addr: read_le64(img, off + 16),
                        sh_offset: read_le64(img, off + 24),
                        sh_size: read_le64(img, off + 32),
                        sh_link: read_le32(img, off + 40),
                        sh_info: read_le32(img, off + 44),
                        sh_addralign: read_le64(img, off + 48),
                        sh_entsize: read_le64(img, off + 56),
                    },
                );
            }
            i = i + 1;
        }
        None
    }
}

/// Table offset of the first section of type `sht`, scanning slots
/// `i..n` of the section table at `shoff`: the scan yields nothing at
/// the first slot whose 64-byte record overflows or falls outside the
/// image.
pub open spec fn spec_find_shdr(img: Seq<u8>, shoff: int, n: int, i: int, sht: u32) -> Option<
    int,
>
    decreases n - i,
{
    if i >= n {
        None
    } else if shoff + 64 * i + 64 > u64::MAX || shoff + 64 * i + 64 > img.len() {
        None
    } else if le32(img, shoff + 64 * i + 4) == sht {
        Some(shoff + 64 * i)
    } else {
        spec_find_shdr(img, shoff, n, i + 1, sht)
    }
}

/// Copy `n` bytes from `src[s_off..]` to `mem[d_off..]`, touching nothing
/// else.
pub fn copy_bytes(mem: &mut Vec<u8>, d_off: usize, src: &[u8], s_off: usize, n: usize)
    requires
        d_off + n <= old(mem)@.len(),
        s_off + n <= src@.len(),
    ensures
        final(mem)@.len() == old(mem)@.len(),
        forall|j: int|
            0 <= j < n ==> #[trigger] final(mem)@[d_off + j] == src@[s_off + j],
        forall|j: int|
            0 <= j < old(mem)@.len() && !(d_off <= j < d_off + n) ==> final(mem)@[j] == old(
                mem,
            )@[j],
{
    let mlen: usize = mem.len();
    let slen: usize = src.len();
    let mut k: usize = 0;
    while k < n
        invariant
            d_off + n <= mem@.len(),
            s_off + n <= src@.len(),
            k <= n,
            mem@.len() <= usize::MAX,
            src@.len() <= usize::MAX,
            mem@.len() == old(mem)@.len(),
            forall|j: int| 0 <= j < k ==> #[trigger] mem@[d_off + j] == src@[s_off + j],
            forall|j: int|
                0 <= j < mem@.len() && !(d_off <= j < d_off + n) ==> mem@[j] == old(mem)@[j],
        decreases n - k,
    {
        mem.set(d_off + k, src[s_off + k]);
        k = k + 1;
    }
}

/// Zero `n` bytes at `mem[d_off..]`, touching nothing else.
pub fn zero_bytes(mem: &mut Vec<u8>, d_off: usize, n: usize)
    requires
        d_off + n <= old(mem)@.len(),
    ensures
        final(mem)@.len() == old(mem)@.len(),
        forall|j: int| 0 <= j < n ==> #[trigger] final(mem)@[d_off + j] == 0u8,
        forall|j: int|
            0 <= j < old(mem)@.len() && !(d_off <= j < d_off + n) ==> final(mem)@[j] == old(
                mem,
            )@[j],
{
    let mlen: usize = mem.len();
    let mut k: usize = 0;
    while k < n
        invariant
            d_off + n <= mem@.len(),
            k <= n,
            mem@.len() <= usize::MAX,
            mem@.len() == old(mem)@.len(),
            forall|j: int| 0 <= j < k ==> #[trigger] mem@[d_off + j] == 0u8,
            forall|j: int|
                0 <= j < mem@.len() && !(d_off <= j < d_off + n) ==> mem@[j] == old(mem)@[j],
        decreases n - k,
    {
        mem.set(d_off + k, 0);
        k = k + 1;
    }
}

/// A byte sequence after a 64-bit little-endian store at `off`.
pub open spec fn spec_store_le64(mem: Seq<u8>, off: int, v: u64) -> Seq<u8> {
    mem.update(off, (v & 0xff) as u8).update(off + 1, ((v >> 8) & 0xff) as u8).update(
        off + 2,
        ((v >> 16) & 0xff) as u8,
    ).update(off + 3, ((v >> 24) & 0xff) as u8).update(off + 4, ((v >> 32) & 0xff) as u8).update(
        off + 5,
        ((v >> 40) & 0xff) as u8,
    ).update(off + 6, ((v >> 48) & 0xff) as u8).update(off + 7, ((v >> 56) & 0xff) as u8)
}

/// Write a 64-bit little-endian word at `mem[d_off..]`.
pub fn write_le64(mem: &mut Vec<u8>, d_off: usize, v: u64)
    requires
        d_off + 8 <= old(mem)@.len(),
    ensures
        final(mem)@.len() == old(mem)@.len(),
        final(mem)@ == spec_store_le64(old(mem)@, d_off as int, v),
        le64(final(mem)@, d_off as int) == v,
        forall|j: int|
            0 <= j < old(mem)@.len() && !(d_off <= j < d_off + 8) ==> final(mem)@[j] == old(
                mem,
            )@[j],
{
    let mlen: usize = mem.len();
    mem.set(d_off, (v & 0xff) as u8);
    mem.set(d_off + 1, ((v >> 8) & 0xff) as u8);
    mem.set(d_off + 2, ((v >> 16) & 0xff) as u8);
    mem.set(d_off + 3, ((v >> 24) & 0xff) as u8);
    mem.set(d_off + 4, ((v >> 32) & 0xff) as u8);
    mem.set(d_off + 5, ((v >> 40) & 0xff) as u8);
    mem.set(d_off + 6, ((v >> 48) & 0xff) as u8);
    mem.set(d_off + 7, ((v >> 56) & 0xff) as u8);
    proof {
        lemma_le64_bytes(v);
        assert(mem@ =~= spec_store_le64(old(mem)@, d_off as int, v));
    }
}

/// A 64-bit value is the weighted sum of its eight bytes.
pub proof fn lemma_le64_bytes(v: u64)
    by (bit_vector)
    ensures
        ((v & 0xff) as u8) + (((v >> 8) & 0xff) as u8) * 0x100 + (((v >> 16) & 0xff) as u8)
            * 0x10000 + (((v >> 24) & 0xff) as u8) * 0x1000000 + ((((v >> 32) & 0xff) as u8) + (((v
            >> 40) & 0xff) as u8) * 0x100 + (((v >> 48) & 0xff) as u8) * 0x10000 + (((v >> 56)
            & 0xff) as u8) * 0x1000000) * 0x100000000 == v,
{
}

/// The image carries a loadable segment: long enough for the file
/// header, x86-64, with a first program header that lies inside the
/// buffer, is `PT_LOAD`, and whose file bytes exist and fit its memory
/// size.
pub open spec fn spec_loadable(img: Seq<u8>) -> bool {
    &&& img.len() >= 64
    &&& le16(img, 18) == EM_X86_64
    &&& le16(img, 56) != 0
    &&& le64(img, 32) + 56 <= img.len()
    &&& le32(img, le64(img, 32) as int) == PT_LOAD
    &&& le64(img, le64(img, 32) + 32) <= le64(img, le64(img, 32) + 40)
    &&& le64(img, le64(img, 32) + 8) + le64(img, le64(img, 32) + 32) <= img.len()
}

/// The segment's placement at `base` fits the memory image.
pub open spec fn spec_fits(img: Seq<u8>, base: u64, mem_len: int) -> bool {
    base + le64(img, le64(img, 32) + 16) + le64(img, le64(img, 32) + 40) <= mem_len
}

/// `mem` after the segment load: `p_filesz` bytes copied from the file at
/// `base + p_vaddr`, the next `p_memsz - p_filesz` bytes zeroed, the rest
/// untouched.
pub open spec fn spec_loaded(img: Seq<u8>, mem: Seq<u8>, base: u64) -> Seq<u8> {
    let ph = le64(img, 32) as int;
    let dst = base + le64(img, ph + 16);
    let off = le64(img, ph + 8);
    let filesz = le64(img, ph + 32);
    let memsz = le64(img, ph + 40);
    Seq::new(
        mem.len(),
        |j: int|
            if dst <= j < dst + filesz {
                img[off + (j - dst)]
            } else if dst + filesz <= j < dst + memsz {
                0u8
            } else {
                mem[j]
            },
    )
}

/// Load the single `PT_LOAD` segment of `img` at `base`: `p_filesz` bytes
/// copied from the file, and exactly the next `p_memsz - p_filesz` bytes
/// zero-filled; nothing else in `mem` changes.  Succeeds if and only if
/// the image is loadable and the placement fits; it fails exactly on a
/// wrong machine, a missing or non-`PT_LOAD` program header, or a
/// segment that falls outside a buffer.
pub fn load_segment(img: &[u8], mem: &mut Vec<u8>, base: u64) -> (r: Result<
    ProgramHeader,
    VmmError,
>)
    ensures
        final(mem)@.len() == old(mem)@.len(),
        r is Ok <==> spec_loadable(img@) && spec_fits(img@, base, old(mem)@.len() as int),
        r is Err ==> *final(mem) == *old(mem),
        r is Ok ==> final(mem)@ == spec_loaded(img@, old(mem)@, base),
        r matches Ok(p) ==> {
            let ph = le64(img@, 32) as int;
            &&& p.p_offset == le64(img@, ph + 8)
            &&& p.p_vaddr == le64(img@, ph + 16)
            &&& p.p_filesz == le64(img@, ph + 32)
            &&& p.p_memsz == le64(img@, ph + 40)
        },
        r matches Ok(p) ==> {
            let dst = base + p.p_vaddr;
            &&& p.p_filesz <= p.p_memsz
            &&& dst + p.p_memsz <= final(mem)@.len()
            &&& p.p_offset + p.p_filesz <= img@.len()
            &&& forall|j: int| 0 <= j < p.p_filesz ==> #[trigger] final(mem)@[dst + j] == img@[p.p_offset + j]
            &&& forall|j: int| p.p_filesz <= j < p.p_memsz ==> #[trigger] final(mem)@[dst + j] == 0u8
            &&& forall|j: int|
                0 <= j < old(mem)@.len() && !(dst <= j < dst + p.p_memsz) ==> final(mem)@[j]
                    == old(mem)@[j]
        },
{
    let mlen: usize = mem.len();
    let ilen: usize = img.len();
    let ehdr = match Header::parse(img) {
        None => {
            return Err(VmmError::InvalidElf);
        },
        Some(h) => h,
    };
    if ehdr.e_machine != EM_X86_64 {
        return Err(VmmError::InvalidElf);
    }
    let phdr = match ehdr.phdr(img) {
        None => {
            return Err(VmmError::InvalidProgramHeader);
        },
        Some(p) => p,
    };
    if phdr.p_filesz > phdr.p_memsz {
        return Err(VmmError::InvalidProgramHeader);
    }
    // Segment source and destination must fit their buffers.
    if phdr.p_offset > u64::MAX - phdr.p_filesz || phdr.p_offset + phdr.p_filesz > ilen as u64 {
        return Err(VmmError::InvalidProgramHeader);
    }
    if base > u64::MAX - phdr.p_vaddr || base + phdr.p_vaddr > u64::MAX - phdr.p_memsz {
        return Err(VmmError::InvalidProgramHeader);
    }
    let dst = base + phdr.p_vaddr;
    if dst + phdr.p_memsz > mlen as u64 {
        return Err(VmmError::InvalidProgramHeader);
    }
    copy_bytes(mem, dst as usize, img, phdr.p_offset as usize, phdr.p_filesz as usize);
    let pad = phdr.p_memsz - phdr.p_filesz;
    if pad > 0 {
        zero_bytes(mem, (dst + phdr.p_filesz) as usize, pad as usize);
        proof {
            assert forall|j: int| phdr.p_filesz <= j < phdr.p_memsz implies #[trigger] mem@[dst
                + j] == 0u8 by {
                assert(mem@[(dst + phdr.p_filesz) + (j - phdr.p_filesz)] == 0u8);
            };
        }
    }
    proof {
        assert forall|j: int| 0 <= j < mem@.len() implies mem@[j] == spec_loaded(
            img@,
            old(mem)@,
            base,
        )[j] by {
            if dst <= j < dst + phdr.p_filesz {
                assert(mem@[dst + (j - dst)] == img@[phdr.p_offset + (j - dst)]);
            } else if dst + phdr.p_filesz <= j < dst + phdr.p_memsz {
                assert(mem@[dst + (j - dst)] == 0u8);
            } else {
                assert(mem@[j] == old(mem)@[j]);
            }
        };
        assert(mem@ =~= spec_loaded(img@, old(mem)@, base));
    }
    Ok(phdr)
}

/// Entry `k` of the `.rela` table at `sh_off` is applicable: it lies in
/// the image, is `R_X86_64_RELATIVE` with a non-negative addend, and its
/// target word `[base + r_offset, base + r_offset + 8)` lies inside a
/// memory image of `mem_len` bytes, with `base + r_addend` representable.
pub open spec fn spec_rela_ok(img: Seq<u8>, base: u64, mem_len: int, sh_off: u64, k: int) -> bool {
    let roff = sh_off + 24 * k;
    &&& 24 * k <= u64::MAX
    &&& roff <= u64::MAX
    &&& roff + 24 <= u64::MAX
    &&& roff + 24 <= img.len()
    &&& le64(img, roff + 8) as u32 == R_X86_64_RELATIVE
    &&& le64(img, roff + 16) < 0x8000000000000000
    &&& base + le64(img, roff) + 8 <= u64::MAX
    &&& base + le64(img, roff) + 8 <= mem_len
    &&& base + le64(img, roff + 16) <= u64::MAX
}

/// Number of `.rela` entries of the section at `off`: its size over its
/// entry size.
pub open spec fn spec_rela_count(img: Seq<u8>, off: int) -> int {
    le64(img, off + 32) as int / le64(img, off + 56) as int
}

/// `mem` after applying entries `k..n` of the `.rela` table at `sh_off`,
/// in order: each stores the 64-bit word `base + r_addend` at
/// `base + r_offset`.
pub open spec fn spec_apply_relas(
    img: Seq<u8>,
    mem: Seq<u8>,
    base: u64,
    sh_off: u64,
    k: int,
    n: int,
) -> Seq<u8>
    decreases n - k,
{
    if k >= n {
        mem
    } else {
        let roff = sh_off + 24 * k;
        spec_apply_relas(
            img,
            spec_store_le64(mem, base + le64(img, roff), (base + le64(img, roff + 16)) as u64),
            base,
            sh_off,
            k + 1,
            n,
        )
    }
}

/// Applying entries `i..k+1` is applying `i..k`, then storing entry `k`.
pub proof fn lemma_apply_relas_snoc(
    img: Seq<u8>,
    mem: Seq<u8>,
    base: u64,
    sh_off: u64,
    i: int,
    k: int,
)
    requires
        0 <= i <= k,
    ensures
        spec_apply_relas(img, mem, base, sh_off, i, k + 1) == ({
            let roff = sh_off + 24 * k;
            spec_store_le64(
                spec_apply_relas(img, mem, base, sh_off, i, k),
                base + le64(img, roff),
                (base + le64(img, roff + 16)) as u64,
            )
        }),
    decreases k - i,
{
    let roff = sh_off + 24 * i;
    let m1 = spec_store_le64(mem, base + le64(img, roff), (base + le64(img, roff + 16)) as u64);
    if i == k {
        assert(spec_apply_relas(img, mem, base, sh_off, i, k) == mem);
        assert(spec_apply_relas(img, m1, base, sh_off, i + 1, k + 1) == m1);
        assert(spec_apply_relas(img, mem, base, sh_off, i, k + 1) == m1);
    } else {
        lemma_apply_relas_snoc(img, m1, base, sh_off, i + 1, k);
        assert(spec_apply_relas(img, mem, base, sh_off, i, k + 1) == spec_apply_relas(
            img,
            m1,
            base,
            sh_off,
            i + 1,
            k + 1,
        ));
        assert(spec_apply_relas(img, mem, base, sh_off, i, k) == spec_apply_relas(
            img,
            m1,
            base,
            sh_off,
            i + 1,
            k,
        ));
    }
}

/// Every relocation of `img`, rebased to `base`, applies inside a memory
/// image of `mem_len` bytes: either there is no `.rela` section, or its
/// entry size is sound and every entry is applicable.
pub open spec fn spec_relocs_ok(img: Seq<u8>, base: u64, mem_len: int) -> bool {
    &&& img.len() >= 64
    &&& match spec_find_shdr(img, le64(img, 40) as int, le16(img, 60) as int, 0, SHT_RELA) {
        None => true,
        Some(off) => {
            &&& le64(img, off + 56) != 0
            &&& forall|k: int|
                0 <= k < spec_rela_count(img, off) ==> #[trigger] spec_rela_ok(
                    img,
                    base,
                    mem_len,
                    le64(img, off + 24),
                    k,
                )
        },
    }
}

/// `mem` after every relocation of `img`, rebased to `base`, in table
/// order.
pub open spec fn spec_relocated(img: Seq<u8>, mem: Seq<u8>, base: u64) -> Seq<u8> {
    match spec_find_shdr(img, le64(img, 40) as int, le16(img, 60) as int, 0, SHT_RELA) {
        None => mem,
        Some(off) => spec_apply_relas(
            img,
            mem,
            base,
            le64(img, off + 24),
            0,
            spec_rela_count(img, off),
        ),
    }
}

/// Apply the `.rela` section, when there is one: each entry must be
/// `R_X86_64_RELATIVE` with a non-negative addend, and stores the 64-bit
/// word `base + r_addend` at `base + r_offset`.  Succeeds if and only if
/// the file header parses and every entry is applicable, and then leaves
/// exactly the relocated image.
pub fn apply_relocations(img: &[u8], mem: &mut Vec<u8>, base: u64) -> (r: Result<(), VmmError>)
    ensures
        final(mem)@.len() == old(mem)@.len(),
        r is Ok <==> spec_relocs_ok(img@, base, old(mem)@.len() as int),
        r is Ok ==> final(mem)@ == spec_relocated(img@, old(mem)@, base),
{
    let ehdr = match Header::parse(img) {
        None => {
            return Err(VmmError::InvalidElf);
        },
        Some(h) => h,
    };
    let ghost found = spec_find_shdr(img@, le64(img@, 40) as int, le16(img@, 60) as int, 0, SHT_RELA);
    if let Some(rhdr) = ehdr.shdr(img, SHT_RELA) {
        let ghost off = found->Some_0;
        if rhdr.sh_entsize == 0 {
            return Err(VmmError::InvalidRelocation);
        }
        let rel_nr = rhdr.sh_size / rhdr.sh_entsize;
        proof {
            assert(rel_nr == spec_rela_count(img@, off));
        }
        let mut k: u64 = 0;
        while k < rel_nr
            invariant
                mem@.len() == old(mem)@.len(),
                k <= rel_nr,
                spec_find_shdr(
                    img@,
                    le64(img@, 40) as int,
                    le16(img@, 60) as int,
                    0,
                    SHT_RELA,
                ) == Some(off),
                img@.len() >= 64,
                rhdr.sh_offset == le64(img@, off + 24),
                rhdr.sh_size == le64(img@, off + 32),
                rhdr.sh_entsize == le64(img@, off + 56),
                rhdr.sh_entsize != 0,
                rel_nr == spec_rela_count(img@, off),
                forall|j: int|
                    0 <= j < k ==> #[trigger] spec_rela_ok(
                        img@,
                        base,
                        old(mem)@.len() as int,
                        rhdr.sh_offset,
                        j,
                    ),
                mem@ == spec_apply_relas(img@, old(mem)@, base, rhdr.sh_offset, 0, k as int),
            decreases rel_nr - k,
        {
            let ghost bad = !spec_rela_ok(
                img@,
                base,
                old(mem)@.len() as int,
                le64(img@, off + 24),
                k as int,
            );
            let k24 = match k.checked_mul(24) {
                None => {
                    proof {
                        assert(bad);
                    }
                    return Err(VmmError::InvalidRelocation);
                },
                Some(x) => x,
            };
            let roff = match rhdr.sh_offset.checked_add(k24) {
                None => {
                    proof {
                        assert(bad);
                    }
                    return Err(VmmError::InvalidRelocation);
                },
                Some(x) => x,
            };
            if roff > u64::MAX - 24 || roff + 24 > img.len() as u64 {
                proof {
                    assert(bad);
                }
                return Err(VmmError::InvalidRelocation);
            }
            let a64 = read_le64(img, (roff + 16) as usize);
            let rela = Rela {
                r_offset: read_le64(img, roff as usize),
                r_info: read_le64(img, (roff + 8) as usize),
                r_addend: #[verifier::truncate] (a64 as i64),
            };
            proof {
                assert((a64 as i64) < 0 <==> a64 >= 0x8000000000000000) by (bit_vector);
                assert((a64 as i64) >= 0 ==> (a64 as i64) as u64 == a64) by (bit_vector);
            }
            if rela.r_type() != R_X86_64_RELATIVE {
                proof {
                    assert(bad);
                }
                return Err(VmmError::InvalidRelocation);
            }
            if rela.r_addend < 0 {
                proof {
                    assert(bad);
                }
                return Err(VmmError::InvalidRelocationAddend);
            }
            if base > u64::MAX - rela.r_offset || base + rela.r_offset > u64::MAX - 8 {
                proof {
                    assert(bad);
                }
                return Err(VmmError::InvalidRelocation);
            }
            let fix = base + rela.r_offset;
            if fix + 8 > mem.len() as u64 {
                proof {
                    assert(bad);
                }
                return Err(VmmError::InvalidRelocation);
            }
            if base > u64::MAX - (rela.r_addend as u64) {
                proof {
                    assert(bad);
                }
                return Err(VmmError::InvalidRelocation);
            }
            proof {
                assert(spec_rela_ok(img@, base, old(mem)@.len() as int, rhdr.sh_offset, k as int));
                lemma_apply_relas_snoc(img@, old(mem)@, base, rhdr.sh_offset, 0, k as int);
            }
            write_le64(mem, fix as usize, base + (rela.r_addend as u64));
            k = k + 1;
        }
        proof {
            assert(spec_relocs_ok(img@, base, old(mem)@.len() as int));
        }
    }
    Ok(())
}

/// Load the module in `img` at `base`: the segment, then its relocations.
/// Succeeds if and only if the image is loadable, its placement fits, and
/// every relocation applies; memory then holds exactly the loaded segment
/// ([`spec_loaded`]: the copy, then the zero fill) with every relocation
/// word stored over it ([`spec_relocated`]).
pub fn module_load(img: &[u8], mem: &mut Vec<u8>, base: u64) -> (r: Result<(), VmmError>)
    ensures
        final(mem)@.len() == old(mem)@.len(),
        r is Ok <==> spec_loadable(img@) && spec_fits(img@, base, old(mem)@.len() as int)
            && spec_relocs_ok(img@, base, old(mem)@.len() as int),
        r is Ok ==> final(mem)@ == spec_relocated(img@, spec_loaded(img@, old(mem)@, base), base),
{
    load_segment(img, mem, base)?;
    apply_relocations(img, mem, base)
}

/// Entry point of the module, relative to its load base.
pub fn module_entry(img: &[u8]) -> (r: Result<u64, VmmError>)
    ensures
        img@.len() >= 64 ==> r == Ok::<u64, VmmError>(le64(img@, 24)),
        img@.len() < 64 ==> r == Err::<u64, VmmError>(VmmError::InvalidElf),
{
    match Header::parse(img) {
        None => Err(VmmError::InvalidElf),
        Some(h) => Ok(h.e_entry),
    }
}

/// In-memory size of the module: the segment's `p_memsz`.  Succeeds if
/// and only if the file header and its first, `PT_LOAD`, program header
/// are there.
pub fn module_size(img: &[u8]) -> (r: Result<u64, VmmError>)
    ensures
        r is Ok <==> img@.len() >= 64 && le16(img@, 56) != 0 && le64(img@, 32) + 56 <= img@.len()
            && le32(img@, le64(img@, 32) as int) == PT_LOAD,
        r matches Ok(n) ==> n == le64(img@, le64(img@, 32) + 40),
{
    let ehdr = match Header::parse(img) {
        None => {
            return Err(VmmError::InvalidElf);
        },
        Some(h) => h,
    };
    match ehdr.phdr(img) {
        None => Err(VmmError::InvalidProgramHeader),
        Some(p) => Ok(p.p_memsz),
    }
}

/// Alignment of the module; a reported alignment below 2 means none and
/// is widened to 16 bytes.  Succeeds exactly where [`module_size`] does.
pub fn module_align(img: &[u8]) -> (r: Result<u64, VmmError>)
    ensures
        r is Ok <==> img@.len() >= 64 && le16(img@, 56) != 0 && le64(img@, 32) + 56 <= img@.len()
            && le32(img@, le64(img@, 32) as int) == PT_LOAD,
        r matches Ok(a) ==> a == {
            let raw = le64(img@, le64(img@, 32) + 48);
            if raw < 2 {
                16u64
            } else {
                raw
            }
        },
{
    let ehdr = match Header::parse(img) {
        None => {
            return Err(VmmError::InvalidElf);
        },
        Some(h) => h,
    };
    match ehdr.phdr(img) {
        None => Err(VmmError::InvalidProgramHeader),
        Some(p) => {
            if p.p_align < 2 {
                Ok(16)
            } else {
                Ok(p.p_align)
            }
        },
    }
}

} // verus!
