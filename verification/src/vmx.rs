//! The hardware VMCS region and the VMX instructions that touch it,
//! modelled as a value: a revision word, an association list of field
//! writes (the last write for an encoding stands), and the two registers
//! the fake fields use.

use vstd::prelude::*;

use crate::VmmError;

verus! {

/// Guest activity states.
#[derive(Debug, Copy, Clone, PartialEq, Eq, Structural)]
#[allow(non_camel_case_types)]
pub enum ACTIVITY_STATE {
    Active,
    Halt,
    Shutdown,
    Sipi,
}

impl ACTIVITY_STATE {
    pub fn code(&self) -> (r: u64)
        ensures
            r == match *self {
                ACTIVITY_STATE::Active => 0u64,
                ACTIVITY_STATE::Halt => 1u64,
                ACTIVITY_STATE::Shutdown => 2u64,
                ACTIVITY_STATE::Sipi => 3u64,
            },
    {
        match *self {
            ACTIVITY_STATE::Active => 0,
            ACTIVITY_STATE::Halt => 1,
            ACTIVITY_STATE::Shutdown => 2,
            ACTIVITY_STATE::Sipi => 3,
        }
    }
}

/// The current value a field encoding holds: the last write wins.
pub open spec fn spec_lookup(s: Seq<(u64, u64)>, k: u64) -> Option<u64>
    decreases s.len(),
{
    if s.len() == 0 {
        None
    } else if s.last().0 == k {
        Some(s.last().1)
    } else {
        spec_lookup(s.drop_last(), k)
    }
}

/// One 4 KiB hardware VMCS region, as the CPU sees it, together with the
/// CR2 and DR6 registers the fake fields stand for.
pub struct Region {
    pub revision_id: u32,
    pub fields: Vec<(u64, u64)>,
    pub cr2: u64,
    pub dr6: u64,
}

impl Region {
    /// The value `vmread` would return for an encoding.
    pub open spec fn spec_field(&self, k: u64) -> Option<u64> {
        spec_lookup(self.fields@, k)
    }

    /// A region no field was ever written to.
    pub fn new(revision_id: u32) -> (r: Region)
        ensures
            r.revision_id == revision_id,
            r.fields@.len() == 0,
            r.cr2 == 0,
            r.dr6 == 0,
    {
        Region { revision_id, fields: Vec::new(), cr2: 0, dr6: 0 }
    }

    /// Store the CPU-reported VMCS revision in the region's first word.
    pub fn set_revision_id(&mut self, revid: u32)
        ensures
            *final(self) == (Region { revision_id: revid, ..*old(self) }),
    {
        self.revision_id = revid;
    }
}

/// Issue `vmclear`: the region returns to the clean launch state, with no
/// field written.
pub fn vmclear(region: &mut Region)
    ensures
        final(region).revision_id == old(region).revision_id,
        final(region).fields@.len() == 0,
        final(region).cr2 == old(region).cr2,
        final(region).dr6 == old(region).dr6,
        forall|k: u64| final(region).spec_field(k) is None,
{
    region.fields = Vec::new();
}

/// Issue `vmptrld`: the region becomes the current VMCS.  One region is
/// modelled, so nothing changes.
pub fn vmload(region: &mut Region)
    ensures
        *final(region) == *old(region),
{
}

/// Issue `vmread`: the current value of the encoding, or a failure status
/// for an encoding never written.
pub fn vmread(region: &Region, enc: u64) -> (r: Result<u64, VmmError>)
    ensures
        match region.spec_field(enc) {
            Some(v) => r == Ok::<u64, VmmError>(v),
            None => r == Err::<u64, VmmError>(VmmError::VmxInstructionFailed),
        },
{
    let n = region.fields.len();
    let mut i: usize = n;
    proof {
        assert(region.fields@.subrange(0, n as int) =~= region.fields@);
    }
    while i > 0
        invariant
            i <= n,
            n == region.fields@.len(),
            spec_lookup(region.fields@, enc) == spec_lookup(
                region.fields@.subrange(0, i as int),
                enc,
            ),
        decreases i,
    {
        i = i - 1;
        let pair = region.fields[i];
        proof {
            assert(region.fields@.subrange(0, i + 1).last() == region.fields@[i as int]);
            assert(region.fields@.subrange(0, i + 1).drop_last() =~= region.fields@.subrange(
                0,
                i as int,
            ));
        }
        if pair.0 == enc {
            return Ok(pair.1);
        }
    }
    proof {
        assert(region.fields@.subrange(0, 0) =~= Seq::<(u64, u64)>::empty());
    }
    Err(VmmError::VmxInstructionFailed)
}

/// Issue `vmwrite`: the encoding now holds `val`; every other encoding
/// keeps its value.
pub fn vmwrite(region: &mut Region, val: u64, enc: u64)
    ensures
        final(region).revision_id == old(region).revision_id,
        final(region).cr2 == old(region).cr2,
        final(region).dr6 == old(region).dr6,
        final(region).spec_field(enc) == Some(val),
        forall|k: u64| k != enc ==> final(region).spec_field(k) == old(region).spec_field(k),
{
    region.fields.push((enc, val));
    proof {
        assert(region.fields@.drop_last() =~= old(region).fields@);
    }
}

} // verus!
