use crate::bus::{Bus, BusView};
use crate::cache_tags::{CachePerf, CacheView, CACHE_LINES};
use crate::cpu_dcache::CpuDcache;
use crate::cpu_icache::CpuIcache;
use vstd::prelude::*;

verus! {

/// The hit and miss counts of both caches.
#[derive(Clone, Copy, PartialEq, Eq, Structural, Debug)]
pub struct CacheSystemPerf {
    pub icache: CachePerf,
    pub dcache: CachePerf,
}

/// The memory side of a hart as mathematical values.
pub ghost struct MemView {
    pub icache: CacheView,
    pub dcache: CacheView,
    pub bus: BusView,
}

impl MemView {
    pub open spec fn wf(self) -> bool {
        self.bus.wf()
    }

    /// What a load reads, or `None` for a bus error.
    pub open spec fn read(self, pa: u64, len: u64) -> Option<u64> {
        self.bus.read(pa, len)
    }

    /// The memory side after a load, for an instruction fetch or for
    /// data. A load that the bus serves is counted in the cache of its
    /// kind.
    pub open spec fn after_read(self, pa: u64, len: u64, fetch: bool) -> MemView {
        let served = self.bus.read(pa, len) is Some;
        MemView {
            icache: if served && fetch {
                self.icache.after_access(pa)
            } else {
                self.icache
            },
            dcache: if served && !fetch {
                self.dcache.after_access(pa)
            } else {
                self.dcache
            },
            bus: self.bus.after_read(pa, len),
        }
    }

    /// Whether a store is served; otherwise it is a bus error.
    pub open spec fn write_ok(self, pa: u64, len: u64) -> bool {
        self.bus.write_ok(pa, len)
    }

    /// The memory side after a store. A store that the bus serves is
    /// counted in the data cache.
    pub open spec fn after_write(self, pa: u64, data: u64, len: u64) -> MemView {
        MemView {
            dcache: if self.bus.write_ok(pa, len) {
                self.dcache.after_access(pa)
            } else {
                self.dcache
            },
            bus: self.bus.after_write(pa, data, len),
            ..self
        }
    }

    /// The memory side with both caches emptied.
    pub open spec fn cleared(self) -> MemView {
        MemView { icache: self.icache.cleared(), dcache: self.dcache.cleared(), ..self }
    }
}

/// The memory side of a hart: the instruction cache, the data cache and
/// the bus behind them. Every access is served by the bus; the caches
/// keep count of what caches of their shape would have served.
pub struct CacheSystem {
    pub icache: CpuIcache,
    pub dcache: CpuDcache,
    pub bus: Bus,
}

impl View for CacheSystem {
    type V = MemView;

    open spec fn view(&self) -> MemView {
        MemView { icache: self.icache@, dcache: self.dcache@, bus: self.bus@ }
    }
}

impl CacheSystem {
    /// Puts two empty caches in front of `bus`.
    pub fn new(bus: Bus) -> (c: Self)
        ensures
            c.bus == bus,
            c.icache@ == (CacheView {
                lines: Seq::new(CACHE_LINES as nat, |i: int| None::<u64>),
                perf: CachePerf { hit: 0, miss: 0 },
            }),
            c.dcache@ == c.icache@,
    {
        let icache = CpuIcache::new();
        let dcache = CpuDcache::new();
        CacheSystem { icache, dcache, bus }
    }

    /// The hit and miss counts of the two caches.
    pub fn show_perf(&self) -> (p: CacheSystemPerf)
        ensures
            p.icache == self@.icache.perf,
            p.dcache == self@.dcache.perf,
    {
        CacheSystemPerf { icache: self.icache.show_perf(), dcache: self.dcache.show_perf() }
    }

    /// Empties both caches. The counts and the bus stay as they are.
    pub fn clear(&mut self)
        ensures
            final(self)@ == old(self)@.cleared(),
            final(self).bus == old(self).bus,
    {
        self.icache.clear_inst();
        self.dcache.clear();
    }

    /// A load of `len` bytes at the physical address `pa`, for an
    /// instruction fetch or for data.
    pub fn read(&mut self, pa: u64, len: u64, fetch: bool) -> (r: Result<u64, ()>)
        requires
            old(self)@.wf(),
        ensures
            final(self)@.wf(),
            r == match old(self)@.read(pa, len) {
                Some(v) => Ok::<u64, ()>(v),
                None => Err::<u64, ()>(()),
            },
            final(self)@ == old(self)@.after_read(pa, len, fetch),
    {
        let r = self.bus.read(pa, len);
        if r.is_ok() {
            if fetch {
                self.icache.fetch(pa);
            } else {
                self.dcache.access(pa);
            }
        }
        r
    }

    /// A store of the low `len` bytes of `data` at the physical address
    /// `pa`.
    pub fn write(&mut self, pa: u64, data: u64, len: u64) -> (r: Result<(), ()>)
        requires
            old(self)@.wf(),
        ensures
            final(self)@.wf(),
            r is Ok == old(self)@.write_ok(pa, len),
            final(self)@ == old(self)@.after_write(pa, data, len),
    {
        let r = self.bus.write(pa, data, len);
        if r.is_ok() {
            self.dcache.access(pa);
        }
        r
    }
}

} // verus!
