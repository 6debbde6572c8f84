//! Bump allocator handing out zeroed 4 KiB page-table frames.
//!
//! The pool models the contiguous frame region carved out of the secret
//! area: frame `i` lives at physical `start + 4096 * i`, and its 512
//! entry words are `words[512 * i .. 512 * (i + 1)]`.

use vstd::prelude::*;

verus! {

pub struct PagePool {
    pub start: u64,
    pub used: u64,
    pub size: u64,
    pub words: Vec<u64>,
}

impl PagePool {
    /// The pool's bookkeeping is sound: the region is page-aligned, lies
    /// below the 52-bit physical limit, and `used` counts the frames that
    /// `words` backs.
    pub open spec fn wf(&self) -> bool {
        &&& crate::utils::spec_aligned(self.start, 4096)
        &&& self.start + self.size <= 0x10000000000000
        &&& self.used == self.words@.len() * 8
        &&& self.words@.len() % 512 == 0
        &&& self.used <= self.size
    }

    pub fn empty(start: u64, size: u64) -> (r: PagePool)
        requires
            crate::utils::spec_aligned(start, 4096),
            start + size <= 0x10000000000000,
        ensures
            r.wf(),
            r.start == start,
            r.size == size,
            r.used == 0,
            r.words@.len() == 0,
    {
        PagePool { start, used: 0, size, words: Vec::new() }
    }

    /// Word index of entry `idx` of the frame at physical `addr`, when the
    /// address names a frame this pool handed out.
    pub open spec fn spec_frame_of(&self, addr: u64) -> Option<int> {
        if addr >= self.start && addr < self.start + self.used && (addr - self.start) % 4096 == 0 {
            Some((addr - self.start) / 4096)
        } else {
            None
        }
    }

    /// Resolve a physical address to a frame this pool handed out.
    pub fn frame_of(&self, addr: u64) -> (r: Option<usize>)
        requires
            self.wf(),
        ensures
            r matches Some(i) ==> self.spec_frame_of(addr) == Some(i as int) && 512 * (i as int)
                + 512 <= self.words@.len(),
            r is None ==> self.spec_frame_of(addr) is None,
    {
        if addr >= self.start && addr < self.start + self.used && (addr - self.start) % 4096 == 0 {
            let d: u64 = (addr - self.start) / 4096;
            let n: usize = self.words.len();
            proof {
                assert(512 * (d as int) + 512 <= n as int) by (nonlinear_arith)
                    requires
                        addr >= self.start,
                        addr < self.start + self.used,
                        (addr - self.start) % 4096 == 0,
                        d == ((addr - self.start) as u64) / 4096,
                        self.used == n * 8,
                        n as int % 512 == 0,
                ;
            }
            Some(d as usize)
        } else {
            None
        }
    }

    /// Hand out the next zeroed 4 KiB frame, or nothing when the pool is
    /// exhausted; the pool never frees.
    pub fn get_page(&mut self) -> (r: Option<u64>)
        requires
            old(self).wf(),
            old(self).size >= 4096,
        ensures
            final(self).wf(),
            final(self).start == old(self).start,
            final(self).size == old(self).size,
            r matches Some(addr) ==> {
                &&& old(self).used < old(self).size - 4096
                &&& addr == old(self).start + old(self).used
                &&& final(self).used == old(self).used + 4096
                &&& final(self).words@ == old(self).words@ + Seq::new(512nat, |i: int| 0u64)
            },
            r is None ==> *final(self) == *old(self) && old(self).used >= old(self).size - 4096,
    {
        if self.used < self.size - 4096 {
            let addr = self.start + self.used;
            self.used = self.used + 4096;
            let ghost old_words = self.words@;
            proof {
                assert(self.words@ =~= old_words + Seq::new(0nat, |i: int| 0u64));
            }
            let mut k: usize = 0;
            while k < 512
                invariant
                    k <= 512,
                    self.words@ == old_words + Seq::new(k as nat, |i: int| 0u64),
                    self.used == old(self).used + 4096,
                    self.start == old(self).start,
                    self.size == old(self).size,
                    old_words == old(self).words@,
                decreases 512 - k,
            {
                self.words.push(0);
                proof {
                    assert(self.words@ =~= old_words + Seq::new((k + 1) as nat, |i: int| 0u64));
                }
                k = k + 1;
            }
            proof {
                assert(self.words@.len() == old_words.len() + 512);
                assert(self.words@.len() % 512 == 0);
                assert(self.used == self.words@.len() * 8);
            }
            Some(addr)
        } else {
            None
        }
    }
}

} // verus!
