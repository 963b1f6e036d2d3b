use crate::cache_tags::{CachePerf, CacheTags, CacheView};
use vstd::prelude::*;

verus! {

/// The instruction cache of a hart.
pub struct CpuIcache {
    tags: CacheTags,
}

impl View for CpuIcache {
    type V = CacheView;

    closed spec fn view(&self) -> CacheView {
        self.tags@
    }
}

impl CpuIcache {
    pub fn new() -> (c: Self)
        ensures
            c@ == (CacheView {
                lines: Seq::new(crate::cache_tags::CACHE_LINES as nat, |i: int| None::<u64>),
                perf: CachePerf { hit: 0, miss: 0 },
            }),
    {
        CpuIcache { tags: CacheTags::new() }
    }

    /// Records the fetch of the instruction at `pa`; returns whether the
    /// cache held it.
    pub fn fetch(&mut self, pa: u64) -> (hit: bool)
        ensures
            hit == old(self)@.holds(pa),
            final(self)@ == old(self)@.after_access(pa),
    {
        self.tags.access(pa)
    }

    /// Gives up every cached instruction.
    pub fn clear_inst(&mut self)
        ensures
            final(self)@ == old(self)@.cleared(),
    {
        self.tags.clear();
    }

    pub fn show_perf(&self) -> (p: CachePerf)
        ensures
            p == self@.perf,
    {
        self.tags.perf()
    }
}

} // verus!
