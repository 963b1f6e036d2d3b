use crate::cache_tags::{CachePerf, CacheTags, CacheView};
use vstd::prelude::*;

verus! {

/// The data cache of a hart.
pub struct CpuDcache {
    tags: CacheTags,
}

impl View for CpuDcache {
    type V = CacheView;

    closed spec fn view(&self) -> CacheView {
        self.tags@
    }
}

impl CpuDcache {
    pub fn new() -> (c: Self)
        ensures
            c@ == (CacheView {
                lines: Seq::new(crate::cache_tags::CACHE_LINES as nat, |i: int| None::<u64>),
                perf: CachePerf { hit: 0, miss: 0 },
            }),
    {
        CpuDcache { tags: CacheTags::new() }
    }

    /// Records a load or a store at `pa`; returns whether the cache held
    /// the line.
    pub fn access(&mut self, pa: u64) -> (hit: bool)
        ensures
            hit == old(self)@.holds(pa),
            final(self)@ == old(self)@.after_access(pa),
    {
        self.tags.access(pa)
    }

    /// Gives up every cached line.
    pub fn clear(&mut self)
        ensures
            final(self)@ == old(self)@.cleared(),
    {
        self.tags.clear();
    }

    pub fn show_perf(&self) -> (p: CachePerf)
        ensures
            p == self@.perf,
    {
        self.tags.perf()
    }
}

} // verus!
