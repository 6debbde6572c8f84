//! EPT attribute bits, the EPT pointer word, and the guest identity map with
//! its MTRR-derived memory types.

use vstd::prelude::*;

use crate::mmap::pool_preserved;
use crate::mtrr::{IA32MTRRPhysBase, IA32MTRRPhysMask, MTRRInfo};
use crate::pool::PagePool;
use crate::ptb::{PagingConfig, PagingEnv};
use crate::smem::SecretArea;
use crate::VmmError;

verus! {

/// VPID invalidation granularities.
#[allow(non_camel_case_types)]
#[derive(Debug, Copy, Clone, PartialEq, Eq, Structural)]
pub enum VPID_INV_TYPE {
    Addr,
    SingleAll,
    All,
    Single,
}

impl VPID_INV_TYPE {
    /// Numeric operand of the `invvpid` instruction.
    pub fn code(&self) -> (r: u64)
        ensures
            r == match *self {
                VPID_INV_TYPE::Addr => 0u64,
                VPID_INV_TYPE::SingleAll => 1u64,
                VPID_INV_TYPE::All => 2u64,
                VPID_INV_TYPE::Single => 3u64,
            },
    {
        match *self {
            VPID_INV_TYPE::Addr => 0,
            VPID_INV_TYPE::SingleAll => 1,
            VPID_INV_TYPE::All => 2,
            VPID_INV_TYPE::Single => 3,
        }
    }
}

// EPT privilege bits.
pub const PVL_R: u64 = 1;

pub const PVL_W: u64 = 2;

pub const PVL_X: u64 = 4;

pub const PVL_RWX: u64 = 7;

// EPT memory types.
pub const MMT_UC: u64 = 0;

pub const MMT_WC: u64 = 1;

pub const MMT_WT: u64 = 4;

pub const MMT_WP: u64 = 5;

pub const MMT_WB: u64 = 6;

pub open spec fn spec_attr_pvl_msk() -> u64 {
    7
}

pub open spec fn spec_attr_mmt_msk() -> u64 {
    0x38
}

pub fn attr_pvl_msk() -> (r: u64)
    ensures
        r == spec_attr_pvl_msk(),
{
    7
}

pub fn attr_mmt_msk() -> (r: u64)
    ensures
        r == spec_attr_mmt_msk(),
{
    0x38
}

pub fn attr_pvl_dft() -> (r: u64)
    ensures
        r == PVL_RWX,
{
    PVL_RWX
}

/// Default EPT attribute: full privilege, and the MTRR default memory type
/// when MTRRs are enabled, else uncacheable.
pub open spec fn spec_attr_dft(mtrr_def_enabled: bool, mtrr_def_kind: u64) -> u64 {
    let cch: u64 = if mtrr_def_enabled {
        mtrr_def_kind
    } else {
        MMT_UC
    };
    ((cch << 3) | PVL_RWX) as u64
}

pub fn attr_dft(mtrr_def_enabled: bool, mtrr_def_kind: u64) -> (r: u64)
    requires
        mtrr_def_kind <= 0xff,
    ensures
        r == spec_attr_dft(mtrr_def_enabled, mtrr_def_kind),
{
    let pvl = attr_pvl_dft();
    let cch: u64 = if mtrr_def_enabled {
        mtrr_def_kind
    } else {
        MMT_UC
    };
    (cch << 3) | pvl
}

/// The EPT pointer word handed to the CPU: memory type in bits 0..3,
/// page-walk length in bits 3..6, table address in bits 12..52.
#[derive(Debug, Default, Copy, Clone, PartialEq, Eq, Structural)]
pub struct EPTP(pub u64);

impl EPTP {
    pub fn cache(&self) -> (r: u64)
        ensures
            r == self.0 & 7,
    {
        self.0 & 7
    }

    pub fn set_cache(&mut self, v: u64)
        requires
            v <= 7,
        ensures
            final(self).0 == (old(self).0 & !7u64) | v,
    {
        self.0 = (self.0 & !7u64) | v;
    }

    pub fn pwl(&self) -> (r: u64)
        ensures
            r == (self.0 >> 3) & 7,
    {
        (self.0 >> 3) & 7
    }

    pub fn set_pwl(&mut self, v: u64)
        requires
            v <= 7,
        ensures
            final(self).0 == (old(self).0 & !0x38u64) | (v << 3),
    {
        proof {
            assert(v <= 7 ==> v << 3 <= 0x38) by (bit_vector);
        }
        self.0 = (self.0 & !0x38u64) | (v << 3);
    }

    pub fn addr(&self) -> (r: u64)
        ensures
            r == (self.0 >> 12) & 0xffffffffff,
    {
        (self.0 >> 12) & 0xffffffffff
    }
}


/// One variable-range MTRR pair, as read from its two MSRs.
#[derive(Debug, Default, Copy, Clone, PartialEq, Eq, Structural)]
pub struct MtrrPair {
    pub base: u64,
    pub mask: u64,
}

/// The numeric bounds the EPT builder works under, written out.
pub proof fn lemma_ept_bounds()
    by (bit_vector)
    ensures
        (1u64 << 59) == 0x800000000000000,
        (1u64 << 58) == 0x400000000000000,
        (1u64 << 57) == 0x200000000000000,
{
}

/// Give `[base, base + len)` the memory type in `attr`: unmap the range,
/// then map it again with the attribute and full guest privilege.
pub fn map_mtrr(
    env: &mut PagingEnv,
    pool: &mut PagePool,
    conf: &PagingConfig,
    base: u64,
    len: u64,
    attr: u64,
) -> (r: Result<(), VmmError>)
    requires
        old(env).wf(),
        old(pool).wf(),
        old(pool).size >= 4096,
        base <= 0x400000000000000,
        len <= 0x400000000000000,
        conf.map_top <= 0x800000000000000,
    ensures
        final(env).wf(),
        pool_preserved(*old(pool), *final(pool)),
        final(env).asid == old(env).asid,
        final(env).layout == old(env).layout,
{
    proof {
        lemma_ept_bounds();
    }
    let mut nconf = *conf;
    env.unmap(pool, base, base + len, conf)?;
    nconf.pg_attr = attr | attr_pvl_dft();
    nconf.tb_attr = attr | attr_pvl_dft();
    env.map(pool, base, base + len, &nconf)
}

/// Apply one fixed-range MTRR register: eight consecutive ranges of
/// `len` bytes from `base`, each typed by its byte of the MSR word.
pub fn map_fixed_len_mtrr(
    env: &mut PagingEnv,
    pool: &mut PagePool,
    conf: &PagingConfig,
    base: u64,
    len: u64,
    msr_word: u64,
) -> (r: Result<u64, VmmError>)
    requires
        old(env).wf(),
        old(pool).wf(),
        old(pool).size >= 4096,
        base <= 0x200000000000000,
        len <= 0x100000,
        conf.map_top <= 0x800000000000000,
    ensures
        final(env).wf(),
        pool_preserved(*old(pool), *final(pool)),
        final(env).asid == old(env).asid,
        final(env).layout == old(env).layout,
        r matches Ok(b) ==> b == base + 8 * len,
{
    let mut b = base;
    let mut i: u64 = 0;
    while i < 8
        invariant
            env.wf(),
            pool.wf(),
            pool.size >= 4096,
            pool_preserved(*old(pool), *pool),
            env.asid == old(env).asid,
            env.layout == old(env).layout,
            b == base + i * len,
            i <= 8,
            base <= 0x200000000000000,
            len <= 0x100000,
            conf.map_top <= 0x800000000000000,
        decreases 8 - i,
    {
        proof {
            assert(i * len + len <= 8 * len && (i + 1) * len == i * len + len)
                by (nonlinear_arith)
                requires
                    i < 8,
            ;
        }
        let kind = (msr_word >> ((i * 8) as u32)) as u8;
        let attr = (kind as u64) << 3;
        map_mtrr(env, pool, conf, b, len, attr)?;
        b = b + len;
        i = i + 1;
    }
    Ok(b)
}

/// Walk the architectural fixed-range MTRR decomposition: eight 64 KiB
/// ranges from 0, sixteen 16 KiB ranges, then sixty-four 4 KiB ranges up
/// to 1 MiB.  `fixed_words` holds the eleven fixed-range MSR words in
/// that order.
pub fn map_fixed_mtrr(
    env: &mut PagingEnv,
    pool: &mut PagePool,
    conf: &PagingConfig,
    fixed_words: &Vec<u64>,
) -> (r: Result<(), VmmError>)
    requires
        old(env).wf(),
        old(pool).wf(),
        old(pool).size >= 4096,
        fixed_words@.len() == 11,
        conf.map_top <= 0x800000000000000,
    ensures
        final(env).wf(),
        pool_preserved(*old(pool), *final(pool)),
        final(env).asid == old(env).asid,
        final(env).layout == old(env).layout,
{
    let mut base = map_fixed_len_mtrr(env, pool, conf, 0, 64 * 1024, fixed_words[0])?;
    base = map_fixed_len_mtrr(env, pool, conf, base, 16 * 1024, fixed_words[1])?;
    base = map_fixed_len_mtrr(env, pool, conf, base, 16 * 1024, fixed_words[2])?;
    let mut i: usize = 3;
    while i < 11
        invariant
            env.wf(),
            pool.wf(),
            pool.size >= 4096,
            pool_preserved(*old(pool), *pool),
            env.asid == old(env).asid,
            env.layout == old(env).layout,
            fixed_words@.len() == 11,
            conf.map_top <= 0x800000000000000,
            3 <= i <= 11,
            base == 0xc0000 + (i - 3) * 0x8000,
        decreases 11 - i,
    {
        base = map_fixed_len_mtrr(env, pool, conf, base, 4 * 1024, fixed_words[i])?;
        i = i + 1;
    }
    Ok(())
}

/// Apply every valid variable-range MTRR: the range starts at the base
/// register's frame and runs to the end its mask defines against the
/// widest guest physical address.  A register whose decoded base or mask
/// lies beyond that address is ignored.
pub fn map_variable_mtrr(
    env: &mut PagingEnv,
    pool: &mut PagePool,
    conf: &PagingConfig,
    vars: &Vec<MtrrPair>,
    max_paddr: u64,
) -> (r: Result<(), VmmError>)
    requires
        old(env).wf(),
        old(pool).wf(),
        old(pool).size >= 4096,
        max_paddr <= 0x200000000000000,
        conf.map_top <= 0x800000000000000,
    ensures
        final(env).wf(),
        pool_preserved(*old(pool), *final(pool)),
        final(env).asid == old(env).asid,
        final(env).layout == old(env).layout,
{
    let n = vars.len();
    let mut i: usize = 0;
    while i < n
        invariant
            env.wf(),
            pool.wf(),
            pool.size >= 4096,
            pool_preserved(*old(pool), *pool),
            env.asid == old(env).asid,
            env.layout == old(env).layout,
            n == vars@.len(),
            max_paddr <= 0x200000000000000,
            conf.map_top <= 0x800000000000000,
            i <= n,
        decreases n - i,
    {
        let m_base = IA32MTRRPhysBase(vars[i].base);
        let m_mask = IA32MTRRPhysMask(vars[i].mask);
        if m_mask.v() {
            let base = m_base.base() << 12u64;
            let mask = m_mask.mask() << 12u64;
            if base <= max_paddr && mask <= max_paddr {
                let size = max_paddr - mask + 1;
                let attr = m_base.kind() << 3u64;
                map_mtrr(env, pool, conf, base, size, attr)?;
            }
        }
        i = i + 1;
    }
    Ok(())
}

/// Build the guest EPT: identity-map `[0, phys_end)` with the default
/// memory type, overlay the MTRR-typed ranges when MTRRs are enabled,
/// and finally unmap the secret area so the guest cannot address
/// hypervisor memory.
pub fn init(
    env: &mut PagingEnv,
    pool: &mut PagePool,
    conf: &PagingConfig,
    phys_end: u64,
    mtrr: &MTRRInfo,
    vars: &Vec<MtrrPair>,
    fixed_words: &Vec<u64>,
    area: &SecretArea,
    max_paddr: u64,
) -> (r: Result<(), VmmError>)
    requires
        old(env).wf(),
        old(pool).wf(),
        old(pool).size >= 4096,
        phys_end <= 0x200000000000000,
        max_paddr <= 0x200000000000000,
        area.start <= 0x200000000000000,
        area.end <= 0x200000000000000,
        fixed_words@.len() == 11,
        conf.map_top <= 0x800000000000000,
    ensures
        final(env).wf(),
        pool_preserved(*old(pool), *final(pool)),
        final(env).asid == 1,
        final(env).layout == old(env).layout,
{
    proof {
        lemma_ept_bounds();
    }
    env.asid = 1;
    env.map(pool, 0, phys_end, conf)?;
    if mtrr.def.e() {
        map_variable_mtrr(env, pool, conf, vars, max_paddr)?;
        if mtrr.def.fe() && mtrr.cap.fix() {
            map_fixed_mtrr(env, pool, conf, fixed_words)?;
        }
    }
    env.unmap(pool, area.start, area.end, conf)
}

} // verus!
