use vstd::prelude::*;

verus! {

/// The number of lines of a cache.
pub const CACHE_LINES: u64 = 64;

/// The number of bytes of a cache line.
pub const LINE_BYTES: u64 = 64;

/// The hit and miss counts of a cache.
#[derive(Clone, Copy, PartialEq, Eq, Structural, Debug)]
pub struct CachePerf {
    pub hit: u64,
    pub miss: u64,
}

/// A direct-mapped cache as mathematical values: for each line the
/// number of the memory line that it holds, if any, and the counts. A
/// memory line is `LINE_BYTES` bytes wide and goes to the cache line of
/// its number modulo `CACHE_LINES`.
pub ghost struct CacheView {
    pub lines: Seq<Option<u64>>,
    pub perf: CachePerf,
}

/// One more, but never past the largest count.
pub open spec fn count_up(n: u64) -> u64 {
    if n < u64::MAX {
        (n + 1) as u64
    } else {
        n
    }
}

impl CacheView {
    pub open spec fn wf(self) -> bool {
        self.lines.len() == CACHE_LINES
    }

    /// The cache line that the address `pa` goes to.
    pub open spec fn index_of(pa: u64) -> int {
        ((pa / LINE_BYTES) % CACHE_LINES) as int
    }

    /// Whether the cache holds the memory line of `pa`.
    pub open spec fn holds(self, pa: u64) -> bool {
        self.lines[Self::index_of(pa)] == Some(pa / LINE_BYTES)
    }

    /// The cache after an access to `pa`: a hit counts as one, and a miss
    /// counts as one and brings the memory line in.
    pub open spec fn after_access(self, pa: u64) -> CacheView {
        if self.holds(pa) {
            CacheView { perf: CachePerf { hit: count_up(self.perf.hit), ..self.perf }, ..self }
        } else {
            CacheView {
                lines: self.lines.update(Self::index_of(pa), Some(pa / LINE_BYTES)),
                perf: CachePerf { miss: count_up(self.perf.miss), ..self.perf },
            }
        }
    }

    /// The cache with every line given up; the counts stay.
    pub open spec fn cleared(self) -> CacheView {
        CacheView { lines: Seq::new(CACHE_LINES as nat, |i: int| None::<u64>), ..self }
    }
}

/// The tags and counts of a direct-mapped cache. It holds no data: what
/// is read always comes from the bus, and the cache tells only which
/// accesses a cache of this shape would have served.
pub struct CacheTags {
    tags: [u64; 64],
    valid: [bool; 64],
    hit: u64,
    miss: u64,
}

impl View for CacheTags {
    type V = CacheView;

    closed spec fn view(&self) -> CacheView {
        CacheView {
            lines: Seq::new(
                CACHE_LINES as nat,
                |i: int|
                    if self.valid@[i] {
                        Some(self.tags@[i])
                    } else {
                        None
                    },
            ),
            perf: CachePerf { hit: self.hit, miss: self.miss },
        }
    }
}

impl CacheTags {
    /// An empty cache with both counts at zero.
    pub fn new() -> (c: Self)
        ensures
            c@.wf(),
            c@ == (CacheView {
                lines: Seq::new(CACHE_LINES as nat, |i: int| None::<u64>),
                perf: CachePerf { hit: 0, miss: 0 },
            }),
    {
        let c = CacheTags { tags: [0u64; 64], valid: [false; 64], hit: 0, miss: 0 };
        assert(c@.lines =~= Seq::new(CACHE_LINES as nat, |i: int| None::<u64>));
        c
    }

    /// Records an access to `pa`; returns whether it was a hit.
    pub fn access(&mut self, pa: u64) -> (hit: bool)
        ensures
            hit == old(self)@.holds(pa),
            final(self)@ == old(self)@.after_access(pa),
            final(self)@.wf(),
    {
        let line: u64 = pa / LINE_BYTES;
        let index: usize = (line % CACHE_LINES) as usize;
        if self.valid[index] && self.tags[index] == line {
            if self.hit < u64::MAX {
                self.hit = self.hit + 1;
            }
            assert(self@.lines =~= old(self)@.after_access(pa).lines);
            true
        } else {
            self.valid[index] = true;
            self.tags[index] = line;
            if self.miss < u64::MAX {
                self.miss = self.miss + 1;
            }
            assert(self@.lines =~= old(self)@.after_access(pa).lines);
            false
        }
    }

    /// Gives up every line. The counts stay.
    pub fn clear(&mut self)
        ensures
            final(self)@ == old(self)@.cleared(),
            final(self)@.wf(),
    {
        self.valid = [false; 64];
        assert(self@.lines =~= old(self)@.cleared().lines);
    }

    pub fn perf(&self) -> (p: CachePerf)
        ensures
            p == self@.perf,
    {
        CachePerf { hit: self.hit, miss: self.miss }
    }
}

} // verus!
