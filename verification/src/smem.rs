//! System memory: the hypervisor's secret area carved from the top of
//! usable RAM, and the bootstrap layout of everything placed inside it.

use vstd::prelude::*;

use crate::pgutils::spec_pfn;
use crate::utils::{spec_align, spec_aligned};
use crate::VmmError;

verus! {

/// Contiguous page-aligned physical region reserved for the hypervisor;
/// the guest EPT must never map a frame inside it.
#[derive(Debug, Default, Copy, Clone, PartialEq, Eq, Structural)]
pub struct SecretArea {
    pub start: u64,
    pub end: u64,
    pub size: u64,
}

impl SecretArea {
    /// The page frame lies inside the area.
    pub fn has_pfn(&self, pfn: u64) -> (r: bool)
        ensures
            r == (spec_pfn(self.start) <= pfn < spec_pfn(self.end)),
    {
        let ps = crate::pgutils::pfn(self.start);
        let pe = crate::pgutils::pfn(self.end);
        pfn >= ps && pfn < pe
    }

    /// Whether the byte range `[first, first + len)` intersects the
    /// area; callers treat `true` as "refuse the access".  A range that
    /// lies entirely outside the area — below it or at or above its end
    /// — is cleared, whatever its length.
    pub fn touch(&self, first: u64, len: u64) -> (r: bool)
        requires
            len >= 1,
            first + len - 1 <= u64::MAX,
        ensures
            r == !(first >= self.end || first + len - 1 < self.start),
    {
        let last = first + (len - 1);
        if first >= self.end {
            return false;
        }
        if last < self.start {
            return false;
        }
        true
    }
}

/// Physical memory extent: the secret area, the end of RAM, and the end
/// of the physical address space (at least 4 GiB, to cover MMIO).
#[derive(Debug, Default, Copy, Clone, PartialEq, Eq, Structural)]
pub struct HardwareMemory {
    pub area: SecretArea,
    pub ram: u64,
    pub phys: u64,
}

impl HardwareMemory {
    pub fn setup(&mut self, sec: &SecretArea, ram_end: u64)
        ensures
            final(self).area == *sec,
            final(self).ram == ram_end,
            final(self).phys == if ram_end >= 0x100000000u64 {
                ram_end
            } else {
                0x100000000u64
            },
    {
        self.area = *sec;
        self.ram = ram_end;
        self.phys = if self.ram >= 0x100000000 {
            self.ram
        } else {
            0x100000000
        };
    }

    /// Number of 4 KiB frames of RAM.
    pub fn get_total_frames(&self) -> (r: u64)
        ensures
            r == spec_pfn(self.ram),
    {
        crate::pgutils::pfn(self.ram)
    }
}

/// What the boot loader reports of one physical memory region.
#[derive(Debug, Copy, Clone, PartialEq, Eq, Structural)]
pub enum RegionKind {
    Ram,
    Reserved,
    Acpi,
    Nvs,
    Defect,
}

/// One physical memory region from the boot information.
#[derive(Debug, Copy, Clone, PartialEq, Eq, Structural)]
pub struct MemRegion {
    pub base: u64,
    pub length: u64,
    pub kind: RegionKind,
}

/// Highest RAM byte + 1 over the first `n` regions.
pub open spec fn spec_ram_end(regions: Seq<MemRegion>, n: int) -> u64
    decreases n,
{
    if n <= 0 {
        0u64
    } else {
        let prev = spec_ram_end(regions, n - 1);
        let m = regions[n - 1];
        if m.kind == RegionKind::Ram && m.base + m.length > prev {
            (m.base + m.length) as u64
        } else {
            prev
        }
    }
}

/// End of the last RAM region starting exactly at 1 MiB, over the first
/// `n` regions.
pub open spec fn spec_area_end(regions: Seq<MemRegion>, n: int) -> Option<u64>
    decreases n,
{
    if n <= 0 {
        None
    } else {
        let m = regions[n - 1];
        if m.kind == RegionKind::Ram && m.base == 0x100000 {
            Some((m.base + m.length) as u64)
        } else {
            spec_area_end(regions, n - 1)
        }
    }
}

/// Walk the reported memory regions: the end of the area usable for the
/// hypervisor (top of the RAM region starting at 1 MiB), the end of RAM,
/// and the region count.  Fails when no region starts at 1 MiB.
pub fn inspect(regions: &Vec<MemRegion>) -> (r: Result<(u64, u64, u64), VmmError>)
    requires
        forall|i: int|
            0 <= i < regions@.len() ==> (#[trigger] regions@[i]).base + regions@[i].length
                <= u64::MAX,
    ensures
        r matches Ok((area_end, ram_end, cnt)) ==> {
            &&& Some(area_end) == spec_area_end(regions@, regions@.len() as int)
            &&& ram_end == spec_ram_end(regions@, regions@.len() as int)
            &&& cnt == regions@.len()
        },
        r is Err ==> r == Err::<(u64, u64, u64), VmmError>(VmmError::NoAreaEnd)
            && spec_area_end(regions@, regions@.len() as int) is None,
{
    let mut cnt: u64 = 0;
    let mut ram_end: u64 = 0;
    let mut area_end: Option<u64> = None;
    let n = regions.len();
    let mut i: usize = 0;
    while i < n
        invariant
            n == regions@.len(),
            i <= n,
            cnt == i,
            ram_end == spec_ram_end(regions@, i as int),
            area_end == spec_area_end(regions@, i as int),
            forall|k: int|
                0 <= k < regions@.len() ==> (#[trigger] regions@[k]).base + regions@[k].length
                    <= u64::MAX,
        decreases n - i,
    {
        let m = regions[i];
        cnt = cnt + 1;
        if matches!(m.kind, RegionKind::Ram) {
            if m.base + m.length > ram_end {
                ram_end = m.base + m.length;
            }
            if m.base == 0x100000 {
                area_end = Some(m.base + m.length);
            }
        }
        i = i + 1;
    }
    match area_end {
        Some(end) => Ok((end, ram_end, cnt)),
        None => Err(VmmError::NoAreaEnd),
    }
}

/// One boot module: its physical extent and its name.
#[derive(Debug)]
pub struct Module {
    pub start: u64,
    pub end: u64,
    pub name: Vec<u8>,
}

/// `pat` occurs as a contiguous sub-sequence of `hay` at `at`.
pub open spec fn occurs_at(hay: Seq<u8>, pat: Seq<u8>, at: int) -> bool {
    &&& 0 <= at
    &&& at + pat.len() <= hay.len()
    &&& forall|j: int| 0 <= j < pat.len() ==> hay[at + j] == pat[j]
}

/// `pat` occurs somewhere in `hay`.
pub open spec fn contains_sub(hay: Seq<u8>, pat: Seq<u8>) -> bool {
    exists|at: int| occurs_at(hay, pat, at)
}

/// Substring search, byte for byte.
pub fn find_sub(hay: &Vec<u8>, pat: &Vec<u8>) -> (r: bool)
    ensures
        r == contains_sub(hay@, pat@),
{
    let hn = hay.len();
    let pn = pat.len();
    if pn > hn {
        proof {
            assert(!contains_sub(hay@, pat@)) by {
                if contains_sub(hay@, pat@) {
                    let at = choose|at: int| occurs_at(hay@, pat@, at);
                    assert(at + pat@.len() <= hay@.len());
                }
            }
        }
        return false;
    }
    let mut i: usize = 0;
    while i <= hn - pn
        invariant
            hn == hay@.len(),
            pn == pat@.len(),
            pn <= hn,
            i <= hn - pn + 1,
            forall|at: int| 0 <= at < i ==> !occurs_at(hay@, pat@, at),
        decreases hn - i,
    {
        let mut j: usize = 0;
        let mut ok = true;
        while ok && j < pn
            invariant
                hn == hay@.len(),
                pn == pat@.len(),
                i + pn <= hn,
                j <= pn,
                ok ==> forall|q: int| 0 <= q < j ==> hay@[i + q] == pat@[q],
                !ok ==> !occurs_at(hay@, pat@, i as int),
            decreases pn - j + if ok {
                1int
            } else {
                0int
            },
        {
            if hay[i + j] != pat[j] {
                ok = false;
                proof {
                    assert(!occurs_at(hay@, pat@, i as int)) by {
                        if occurs_at(hay@, pat@, i as int) {
                            assert(hay@[i + j] == pat@[j as int]);
                        }
                    }
                }
            } else {
                j = j + 1;
            }
        }
        if ok {
            proof {
                assert(occurs_at(hay@, pat@, i as int));
            }
            return true;
        }
        i = i + 1;
    }
    proof {
        assert forall|at: int| !occurs_at(hay@, pat@, at) by {
            if occurs_at(hay@, pat@, at) {
                assert(at + pat@.len() <= hay@.len());
            }
        }
    }
    false
}

/// Index of the first module whose name holds `pat`.
pub open spec fn spec_named_idx(modules: Seq<Module>, pat: Seq<u8>, n: int) -> Option<int>
    decreases n,
{
    if n <= 0 {
        None
    } else {
        match spec_named_idx(modules, pat, n - 1) {
            Some(i) => Some(i),
            None => {
                if contains_sub(modules[n - 1].name@, pat) {
                    Some(n - 1)
                } else {
                    None
                }
            },
        }
    }
}

/// Pick the hypervisor's runtime image among the boot modules: the first
/// one whose name holds `vmm.bin`, else the second module (some loaders
/// drop module names), else fail.
pub fn mbi_vmm_elf(modules: &Vec<Module>) -> (r: Result<u64, VmmError>)
    ensures
        ({
            let found = spec_named_idx(modules@, spec_vmm_name(), modules@.len() as int);
            &&& (found matches Some(i) ==> r == Ok::<u64, VmmError>(modules@[i].start))
            &&& (found is None && modules@.len() >= 2 && modules@[1].start != 0 ==> r == Ok::<
                u64,
                VmmError,
            >(modules@[1].start))
            &&& (found is None && (modules@.len() < 2 || modules@[1].start == 0) ==> r == Err::<
                u64,
                VmmError,
            >(VmmError::NoModule))
        }),
{
    let pat = vmm_name();
    let n = modules.len();
    let mut fall_back: u64 = 0;
    let mut i: usize = 0;
    while i < n
        invariant
            n == modules@.len(),
            i <= n,
            pat@ == spec_vmm_name(),
            spec_named_idx(modules@, spec_vmm_name(), i as int) is None,
            fall_back == if i >= 2 {
                modules@[1].start
            } else {
                0u64
            },
        decreases n - i,
    {
        if i == 1 {
            fall_back = modules[i].start;
        }
        if find_sub(&modules[i].name, &pat) {
            proof {
                assert(spec_named_idx(modules@, spec_vmm_name(), i + 1) == Some(i as int));
                lemma_named_idx_extends(modules@, spec_vmm_name(), i + 1, n as int);
            }
            return Ok(modules[i].start);
        }
        i = i + 1;
    }
    if fall_back != 0 {
        return Ok(fall_back);
    }
    Err(VmmError::NoModule)
}

/// Once a named module is found, scanning further modules returns it too.
proof fn lemma_named_idx_extends(modules: Seq<Module>, pat: Seq<u8>, n: int, m: int)
    requires
        0 < n <= m,
        spec_named_idx(modules, pat, n) is Some,
    ensures
        spec_named_idx(modules, pat, m) == spec_named_idx(modules, pat, n),
    decreases m - n,
{
    if m > n {
        lemma_named_idx_extends(modules, pat, n, m - 1);
    }
}

/// The file-name tag of the hypervisor's runtime image.
pub open spec fn spec_vmm_name() -> Seq<u8> {
    seq![118u8, 109u8, 109u8, 46u8, 98u8, 105u8, 110u8]
}

fn vmm_name() -> (r: Vec<u8>)
    ensures
        r@ == spec_vmm_name(),
{
    let mut v: Vec<u8> = Vec::new();
    v.push(118);  // v
    v.push(109);  // m
    v.push(109);  // m
    v.push(46);  // .
    v.push(98);  // b
    v.push(105);  // i
    v.push(110);  // n
    proof {
        assert(v@ =~= spec_vmm_name());
    }
    v
}

/// Sizes of everything placed inside the secret area.
#[derive(Debug, Copy, Clone, PartialEq, Eq, Structural)]
pub struct BootSizes {
    pub min_stack: u64,
    pub pool: u64,
    pub vmm_vmc: u64,
    pub vm_vmc: u64,
    pub seg: u64,
    pub elf_align: u64,
    pub elf: u64,
    pub pfr: u64,
    pub smap: u64,
    pub info: u64,
}

/// Where everything landed inside the secret area.
#[derive(Debug, Copy, Clone, PartialEq, Eq, Structural)]
pub struct BootLayout {
    pub secret: SecretArea,
    pub need_aligned: u64,
    pub need_uinfo: u64,
    pub need: u64,
    pub info_addr: u64,
    pub stack: u64,
    pub pool_start: u64,
    pub vmm_root: u64,
    pub vm_root: u64,
    pub vmm_vmc: u64,
    pub vm_vmc: u64,
    pub seg: u64,
    pub elf_base: u64,
    pub pfr: u64,
    pub smap: u64,
}

/// Aligned accumulation of the fixed objects, before the ELF image.
pub open spec fn spec_need_aligned(s: BootSizes) -> u64 {
    let fixed = (s.min_stack + s.pool + 2 * 4096 + s.vmm_vmc + s.vm_vmc + s.seg) as u64;
    if spec_aligned(fixed, s.elf_align) {
        fixed
    } else {
        spec_align((fixed + s.elf_align) as u64, s.elf_align)
    }
}

/// Everything below the information block, 8-byte aligned.
pub open spec fn spec_need_uinfo(s: BootSizes) -> u64 {
    let u = (spec_need_aligned(s) + s.elf + s.pfr + s.smap) as u64;
    if spec_aligned(u, 8) {
        u
    } else {
        spec_align((u + 8) as u64, 8)
    }
}

/// Carve the secret area out of the top of usable RAM and assign every
/// object its place: stack, page pool, the two level-4 roots, the two
/// hardware VMCS regions, segmentation, then (ELF-aligned) the runtime
/// image, the frame registry, the system map, and last the 8-byte-aligned
/// information block.  Fails exactly when the area cannot hold them all.
pub fn init(area_end: u64, sizes: &BootSizes) -> (r: Result<BootLayout, VmmError>)
    requires
        crate::utils::pow2(sizes.elf_align),
        sizes.elf_align <= 0x40000000,
        sizes.min_stack <= 0x10000000000,
        sizes.pool <= 0x10000000000,
        sizes.vmm_vmc <= 0x10000000000,
        sizes.vm_vmc <= 0x10000000000,
        sizes.seg <= 0x10000000000,
        sizes.elf <= 0x10000000000,
        sizes.pfr <= 0x10000000000,
        sizes.smap <= 0x10000000000,
        sizes.info <= 0x10000000000,
        area_end <= 0x10000000000000,
    ensures
        r matches Ok(l) ==> {
            &&& l.need_aligned == spec_need_aligned(*sizes)
            &&& l.need_uinfo == spec_need_uinfo(*sizes)
            &&& l.need == spec_need_uinfo(*sizes) + sizes.info
            &&& l.need <= area_end
            &&& l.secret.start == spec_align((area_end - l.need) as u64, 4096)
            &&& l.secret.end == area_end
            &&& l.secret.size == area_end - l.secret.start
            &&& l.info_addr == l.secret.start + l.need_uinfo
            &&& l.stack == l.secret.start + sizes.min_stack
            &&& l.pool_start == l.stack
            &&& l.vmm_root == l.pool_start + sizes.pool
            &&& l.vm_root == l.vmm_root + 4096
            &&& l.vmm_vmc == l.vm_root + 4096
            &&& l.vm_vmc == l.vmm_vmc + sizes.vmm_vmc
            &&& l.seg == l.vm_vmc + sizes.vm_vmc
            &&& l.elf_base == l.secret.start + l.need_aligned
            &&& l.pfr == l.elf_base + sizes.elf
            &&& l.smap == l.pfr + sizes.pfr
        },
        r is Err ==> r == Err::<BootLayout, VmmError>(VmmError::AreaTooSmall)
            && spec_need_uinfo(*sizes) + sizes.info > area_end,
{
    let fixed: u64 = sizes.min_stack + sizes.pool + 2 * 4096 + sizes.vmm_vmc + sizes.vm_vmc
        + sizes.seg;
    let need_aligned: u64 = if !crate::utils::aligned(fixed, sizes.elf_align as usize) {
        proof {
            crate::utils::lemma_align_props((fixed + sizes.elf_align) as u64, sizes.elf_align);
        }
        crate::utils::align_next(fixed, sizes.elf_align as usize)
    } else {
        fixed
    };
    let uraw: u64 = need_aligned + sizes.elf + sizes.pfr + sizes.smap;
    proof {
        assert(crate::utils::pow2(8)) by (bit_vector);
    }
    let need_uinfo: u64 = if !crate::utils::aligned(uraw, 8) {
        proof {
            crate::utils::lemma_align_props((uraw + 8) as u64, 8);
        }
        crate::utils::align_next(uraw, 8)
    } else {
        uraw
    };
    let need = need_uinfo + sizes.info;
    if need > area_end {
        return Err(VmmError::AreaTooSmall);
    }
    let area_start = crate::pgutils::pg_align(12, area_end - need);
    proof {
        assert((1u64 << 12) == 4096 && crate::utils::pow2(4096)) by (bit_vector);
        crate::utils::lemma_align_props((area_end - need) as u64, 4096);
    }
    let secret = SecretArea { start: area_start, end: area_end, size: area_end - area_start };
    let stack = secret.start + sizes.min_stack;
    let pool_start = stack;
    let vmm_root = pool_start + sizes.pool;
    let vm_root = vmm_root + 4096;
    let vmm_vmc = vm_root + 4096;
    let vm_vmc = vmm_vmc + sizes.vmm_vmc;
    let seg = vm_vmc + sizes.vm_vmc;
    let elf_base = secret.start + need_aligned;
    let pfr = elf_base + sizes.elf;
    let smap = pfr + sizes.pfr;
    let info_addr = secret.start + need_uinfo;
    Ok(
        BootLayout {
            secret,
            need_aligned,
            need_uinfo,
            need,
            info_addr,
            stack,
            pool_start,
            vmm_root,
            vm_root,
            vmm_vmc,
            vm_vmc,
            seg,
            elf_base,
            pfr,
            smap,
        },
    )
}

} // verus!
