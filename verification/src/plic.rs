use vstd::prelude::*;

verus! {

/// The number of interrupt sources, source 0 included, which does not
/// exist and never interrupts.
pub const PLIC_SOURCES: u64 = 32;

/// Offset of the pending word.
pub const PLIC_PENDING: u64 = 0x1000;

/// Offset of the enable word of the machine context; the supervisor
/// context follows `PLIC_ENABLE_STRIDE` later.
pub const PLIC_ENABLE: u64 = 0x2000;

pub const PLIC_ENABLE_STRIDE: u64 = 0x80;

/// Offset of the threshold of the machine context; its claim/complete
/// register follows four bytes later, and the supervisor context
/// `PLIC_CONTEXT_STRIDE` later.
pub const PLIC_THRESHOLD: u64 = 0x20_0000;

pub const PLIC_CONTEXT_STRIDE: u64 = 0x1000;

/// The registers of the controller. The flag tells the supervisor
/// context from the machine context.
#[derive(Clone, Copy, PartialEq, Eq, Structural, Debug)]
pub enum PlicReg {
    Priority(u64),
    Pending,
    Enable(bool),
    Threshold(bool),
    Claim(bool),
}

/// The register that a four-byte access at `off` names. Any other access
/// reads zero and stores nothing.
pub open spec fn plic_reg(off: u64, len: u64) -> Option<PlicReg> {
    if len != 4 {
        None
    } else if off < 4 * PLIC_SOURCES && off % 4 == 0 {
        Some(PlicReg::Priority(off / 4))
    } else if off == PLIC_PENDING {
        Some(PlicReg::Pending)
    } else if off == PLIC_ENABLE {
        Some(PlicReg::Enable(false))
    } else if off == PLIC_ENABLE + PLIC_ENABLE_STRIDE {
        Some(PlicReg::Enable(true))
    } else if off == PLIC_THRESHOLD {
        Some(PlicReg::Threshold(false))
    } else if off == PLIC_THRESHOLD + PLIC_CONTEXT_STRIDE {
        Some(PlicReg::Threshold(true))
    } else if off == PLIC_THRESHOLD + 4 {
        Some(PlicReg::Claim(false))
    } else if off == PLIC_THRESHOLD + PLIC_CONTEXT_STRIDE + 4 {
        Some(PlicReg::Claim(true))
    } else {
        None
    }
}

pub fn find_plic_reg(off: u64, len: u64) -> (r: Option<PlicReg>)
    ensures
        r == plic_reg(off, len),
        r matches Some(PlicReg::Priority(src)) ==> src < PLIC_SOURCES,
{
    if len != 4 {
        None
    } else if off < 4 * PLIC_SOURCES && off % 4 == 0 {
        Some(PlicReg::Priority(off / 4))
    } else if off == PLIC_PENDING {
        Some(PlicReg::Pending)
    } else if off == PLIC_ENABLE {
        Some(PlicReg::Enable(false))
    } else if off == PLIC_ENABLE + PLIC_ENABLE_STRIDE {
        Some(PlicReg::Enable(true))
    } else if off == PLIC_THRESHOLD {
        Some(PlicReg::Threshold(false))
    } else if off == PLIC_THRESHOLD + PLIC_CONTEXT_STRIDE {
        Some(PlicReg::Threshold(true))
    } else if off == PLIC_THRESHOLD + 4 {
        Some(PlicReg::Claim(false))
    } else if off == PLIC_THRESHOLD + PLIC_CONTEXT_STRIDE + 4 {
        Some(PlicReg::Claim(true))
    } else {
        None
    }
}

/// The number whose binary digits, least significant first, are the flags
/// of `bits` from index `from` on.
pub open spec fn pack_bits(bits: Seq<bool>, from: int) -> nat
    decreases bits.len() - from,
{
    if from < 0 || from >= bits.len() {
        0
    } else {
        (if bits[from] {
            1nat
        } else {
            0nat
        }) + 2 * pack_bits(bits, from + 1)
    }
}

/// Binary digit `i` of `data`.
pub open spec fn bit_of(data: nat, i: nat) -> bool
    decreases i,
{
    if i == 0 {
        data % 2 == 1
    } else {
        bit_of(data / 2, (i - 1) as nat)
    }
}

/// Two to the power `n`.
pub open spec fn bit_limit(n: nat) -> nat
    decreases n,
{
    if n == 0 {
        1
    } else {
        2 * bit_limit((n - 1) as nat)
    }
}

/// The state of the controller as mathematical values. Every sequence has
/// one entry for each source.
pub ghost struct PlicView {
    pub priority: Seq<u32>,
    pub pending: Seq<bool>,
    pub claimed: Seq<bool>,
    pub enable_m: Seq<bool>,
    pub enable_s: Seq<bool>,
    pub threshold_m: u32,
    pub threshold_s: u32,
    pub smode: bool,
}

impl PlicView {
    pub open spec fn wf(self) -> bool {
        &&& self.priority.len() == PLIC_SOURCES
        &&& self.pending.len() == PLIC_SOURCES
        &&& self.claimed.len() == PLIC_SOURCES
        &&& self.enable_m.len() == PLIC_SOURCES
        &&& self.enable_s.len() == PLIC_SOURCES
    }

    /// Whether the context enables the source. A hart without supervisor
    /// mode has no supervisor context.
    pub open spec fn enabled(self, supervisor: bool, src: int) -> bool {
        if supervisor {
            self.smode && self.enable_s[src]
        } else {
            self.enable_m[src]
        }
    }

    pub open spec fn threshold(self, supervisor: bool) -> u32 {
        if supervisor {
            self.threshold_s
        } else {
            self.threshold_m
        }
    }

    /// Whether the source can be claimed by the context: it exists, is
    /// pending, and is enabled for the context.
    pub open spec fn eligible(self, supervisor: bool, src: int) -> bool {
        &&& 1 <= src < PLIC_SOURCES
        &&& self.pending[src]
        &&& self.enabled(supervisor, src)
    }

    /// Whether source `a` is served no later than source `b`: it has the
    /// higher priority, or the same priority and no greater a number.
    pub open spec fn outranks(self, a: int, b: int) -> bool {
        self.priority[a] > self.priority[b] || (self.priority[a] == self.priority[b] && a <= b)
    }

    /// Whether `src` is the source that the context claims next.
    pub open spec fn is_best(self, supervisor: bool, src: int) -> bool {
        &&& self.eligible(supervisor, src)
        &&& forall|t: int| #[trigger] self.eligible(supervisor, t) ==> self.outranks(src, t)
    }

    /// The source that the context claims next, and 0 where none is
    /// eligible.
    pub open spec fn best(self, supervisor: bool) -> int {
        if exists|s: int| self.is_best(supervisor, s) {
            choose|s: int| self.is_best(supervisor, s)
        } else {
            0
        }
    }

    /// The interrupt line of the context: up exactly while some source is
    /// pending, enabled and of a priority above the threshold.
    pub open spec fn line(self, supervisor: bool) -> bool {
        exists|s: int| #[trigger]
            self.eligible(supervisor, s) && self.priority[s] > self.threshold(supervisor)
    }

    /// The controller after the context has claimed: the claimed source
    /// is no longer pending, and is in service.
    pub open spec fn after_claim(self, supervisor: bool) -> PlicView {
        let s = self.best(supervisor);
        if s == 0 {
            self
        } else {
            PlicView {
                pending: self.pending.update(s, false),
                claimed: self.claimed.update(s, true),
                ..self
            }
        }
    }

    /// The controller after a context has completed `src`: the source is
    /// no longer in service and can become pending again.
    pub open spec fn after_complete(self, src: u64) -> PlicView {
        if 1 <= src < PLIC_SOURCES {
            PlicView { claimed: self.claimed.update(src as int, false), ..self }
        } else {
            self
        }
    }

    /// The controller after the device behind `src` has raised its line: a
    /// source that is not in service becomes pending.
    pub open spec fn after_raise(self, src: u64) -> PlicView {
        if 1 <= src < PLIC_SOURCES && !self.claimed[src as int] {
            PlicView { pending: self.pending.update(src as int, true), ..self }
        } else {
            self
        }
    }

    /// What a load reads, without the effect that a claim has.
    pub open spec fn read_value(self, off: u64, len: u64) -> u64 {
        match plic_reg(off, len) {
            Some(PlicReg::Priority(src)) => self.priority[src as int] as u64,
            Some(PlicReg::Pending) => pack_bits(self.pending, 0) as u64,
            Some(PlicReg::Enable(supervisor)) => if supervisor && !self.smode {
                0
            } else if supervisor {
                pack_bits(self.enable_s, 0) as u64
            } else {
                pack_bits(self.enable_m, 0) as u64
            },
            Some(PlicReg::Threshold(supervisor)) => if supervisor && !self.smode {
                0
            } else {
                self.threshold(supervisor) as u64
            },
            Some(PlicReg::Claim(supervisor)) => self.best(supervisor) as u64,
            None => 0,
        }
    }

    /// The controller after a load: only a load of a claim register
    /// changes anything.
    pub open spec fn after_read(self, off: u64, len: u64) -> PlicView {
        match plic_reg(off, len) {
            Some(PlicReg::Claim(supervisor)) => self.after_claim(supervisor),
            _ => self,
        }
    }

    /// The controller after a store of `data`.
    pub open spec fn after_write(self, off: u64, data: u64, len: u64) -> PlicView {
        let word = (data % 0x1_0000_0000) as u32;
        match plic_reg(off, len) {
            Some(PlicReg::Priority(src)) => PlicView {
                priority: self.priority.update(src as int, word),
                ..self
            },
            Some(PlicReg::Pending) => self,
            Some(PlicReg::Enable(supervisor)) => if supervisor && !self.smode {
                self
            } else if supervisor {
                PlicView {
                    enable_s: Seq::new(PLIC_SOURCES as nat, |i: int| bit_of(word as nat, i as nat)),
                    ..self
                }
            } else {
                PlicView {
                    enable_m: Seq::new(PLIC_SOURCES as nat, |i: int| bit_of(word as nat, i as nat)),
                    ..self
                }
            },
            Some(PlicReg::Threshold(supervisor)) => if supervisor && !self.smode {
                self
            } else if supervisor {
                PlicView { threshold_s: word, ..self }
            } else {
                PlicView { threshold_m: word, ..self }
            },
            Some(PlicReg::Claim(supervisor)) => self.after_complete(word as u64),
            None => self,
        }
    }
}

/// At most one source is the next to be claimed.
pub proof fn lemma_best_unique(p: PlicView, supervisor: bool, a: int, b: int)
    requires
        p.is_best(supervisor, a),
        p.is_best(supervisor, b),
    ensures
        a == b,
{
    assert(p.outranks(a, b));
    assert(p.outranks(b, a));
}

/// The line of a context is up exactly when the source that it would
/// claim has a priority above the threshold.
pub proof fn lemma_line_is_best_above_threshold(p: PlicView, supervisor: bool)
    ensures
        p.line(supervisor) <==> p.best(supervisor) != 0 && p.priority[p.best(supervisor)]
            > p.threshold(supervisor),
        p.best(supervisor) != 0 ==> p.is_best(supervisor, p.best(supervisor)),
        p.best(supervisor) == 0 ==> forall|t: int| !p.eligible(supervisor, t),
        0 <= p.best(supervisor) < PLIC_SOURCES,
{
    let b = p.best(supervisor);
    if exists|s: int| p.is_best(supervisor, s) {
        assert(p.is_best(supervisor, b));
        if p.line(supervisor) {
            let s = choose|s: int| #[trigger]
                p.eligible(supervisor, s) && p.priority[s] > p.threshold(supervisor);
            assert(p.outranks(b, s));
        }
    } else {
        assert forall|t: int| !p.eligible(supervisor, t) by {
            if p.eligible(supervisor, t) {
                lemma_some_best(p, supervisor, t, PLIC_SOURCES as int);
            }
        }
    }
}

/// Among the sources below `bound`, if one is eligible then one outranks
/// every eligible one of them.
proof fn lemma_some_best_below(p: PlicView, supervisor: bool, bound: int) -> (s: int)
    requires
        exists|t: int| 1 <= t < bound && p.eligible(supervisor, t),
    ensures
        1 <= s < bound,
        p.eligible(supervisor, s),
        forall|t: int| 1 <= t < bound && #[trigger] p.eligible(supervisor, t) ==> p.outranks(s, t),
    decreases bound,
{
    let last = bound - 1;
    if exists|t: int| 1 <= t < last && p.eligible(supervisor, t) {
        let s = lemma_some_best_below(p, supervisor, last);
        if p.eligible(supervisor, last) && p.priority[last] > p.priority[s] {
            last
        } else {
            s
        }
    } else {
        let t = choose|t: int| 1 <= t < bound && p.eligible(supervisor, t);
        assert(t == last);
        last
    }
}

/// Where a source is eligible, some source is the next to be claimed.
proof fn lemma_some_best(p: PlicView, supervisor: bool, t: int, bound: int)
    requires
        p.eligible(supervisor, t),
        bound == PLIC_SOURCES,
    ensures
        exists|s: int| p.is_best(supervisor, s),
{
    let s = lemma_some_best_below(p, supervisor, bound);
    assert(p.is_best(supervisor, s));
}

/// The platform-level interrupt controller of one hart, with a machine
/// context and, where the hart has supervisor mode, a supervisor context.
pub struct Plic {
    priority: [u32; 32],
    pending: [bool; 32],
    claimed: [bool; 32],
    enable_m: [bool; 32],
    enable_s: [bool; 32],
    threshold_m: u32,
    threshold_s: u32,
    smode: bool,
}

impl View for Plic {
    type V = PlicView;

    closed spec fn view(&self) -> PlicView {
        PlicView {
            priority: self.priority@,
            pending: self.pending@,
            claimed: self.claimed@,
            enable_m: self.enable_m@,
            enable_s: self.enable_s@,
            threshold_m: self.threshold_m,
            threshold_s: self.threshold_s,
            smode: self.smode,
        }
    }
}

/// The controller at reset: nothing pending, nothing enabled.
pub open spec fn plic_reset(smode: bool) -> PlicView {
    PlicView {
        priority: Seq::new(PLIC_SOURCES as nat, |i: int| 0u32),
        pending: Seq::new(PLIC_SOURCES as nat, |i: int| false),
        claimed: Seq::new(PLIC_SOURCES as nat, |i: int| false),
        enable_m: Seq::new(PLIC_SOURCES as nat, |i: int| false),
        enable_s: Seq::new(PLIC_SOURCES as nat, |i: int| false),
        threshold_m: 0,
        threshold_s: 0,
        smode,
    }
}

fn pack(bits: &[bool; 32]) -> (r: u64)
    ensures
        r == pack_bits(bits@, 0),
        r < 0x1_0000_0000,
{
    let mut r: u64 = 0;
    let mut i: usize = 32;
    proof {
        reveal_with_fuel(bit_limit, 33);
        assert(bit_limit(32) == 0x1_0000_0000);
    }
    while i > 0
        invariant
            i <= 32,
            r == pack_bits(bits@, i as int),
            r < bit_limit((32 - i) as nat),
            bit_limit(32) == 0x1_0000_0000,
        decreases i,
    {
        proof {
            lemma_limit_monotonic((32 - i) as nat, 31);
            assert(bit_limit(32) == 2 * bit_limit(31));
            assert(bit_limit((32 - (i - 1)) as nat) == 2 * bit_limit((32 - i) as nat));
        }
        i = i - 1;
        r = 2 * r + if bits[i] {
            1
        } else {
            0
        };
    }
    r
}

/// The limit grows with the number of digits.
proof fn lemma_limit_monotonic(a: nat, b: nat)
    requires
        a <= b,
    ensures
        0 < bit_limit(a) <= bit_limit(b),
    decreases b,
{
    if b > 0 {
        if a < b {
            lemma_limit_monotonic(a, (b - 1) as nat);
        } else {
            lemma_limit_monotonic((a - 1) as nat, (b - 1) as nat);
        }
    }
}

fn unpack(word: u32) -> (bits: [bool; 32])
    ensures
        bits@ == Seq::new(PLIC_SOURCES as nat, |i: int| bit_of(word as nat, i as nat)),
{
    let mut bits: [bool; 32] = [false; 32];
    let mut d: u32 = word;
    let mut j: usize = 0;
    while j < 32
        invariant
            j <= 32,
            forall|k: int| 0 <= k < j ==> bits@[k] == bit_of(word as nat, k as nat),
            forall|m: nat| #[trigger] bit_of(d as nat, m) == bit_of(word as nat, (j + m) as nat),
        decreases 32 - j,
    {
        assert(bit_of(d as nat, 0) == bit_of(word as nat, (j + 0) as nat));
        bits[j] = d % 2 == 1;
        let ghost before = d;
        d = d / 2;
        assert forall|m: nat| #[trigger] bit_of(d as nat, m) == bit_of(
            word as nat,
            ((j + 1) + m) as nat,
        ) by {
            assert(bit_of(before as nat, m + 1) == bit_of(d as nat, m));
            assert(bit_of(before as nat, m + 1) == bit_of(word as nat, (j + (m + 1)) as nat));
        }
        j = j + 1;
    }
    assert(bits@ =~= Seq::new(PLIC_SOURCES as nat, |i: int| bit_of(word as nat, i as nat)));
    bits
}

impl Plic {
    pub fn new(smode: bool) -> (p: Plic)
        ensures
            p@ == plic_reset(smode),
            p@.wf(),
    {
        let p = Plic {
            priority: [0u32; 32],
            pending: [false; 32],
            claimed: [false; 32],
            enable_m: [false; 32],
            enable_s: [false; 32],
            threshold_m: 0,
            threshold_s: 0,
            smode,
        };
        assert(p@.priority =~= plic_reset(smode).priority);
        assert(p@.pending =~= plic_reset(smode).pending);
        assert(p@.claimed =~= plic_reset(smode).claimed);
        assert(p@.enable_m =~= plic_reset(smode).enable_m);
        assert(p@.enable_s =~= plic_reset(smode).enable_s);
        p
    }

    /// Adds the context of a privilege mode. The machine context is there
    /// from the start; the supervisor context appears when it is added.
    pub fn add_context(&mut self, machine: bool)
        ensures
            final(self)@ == (PlicView { smode: old(self)@.smode || !machine, ..old(self)@ }),
    {
        if !machine {
            self.smode = true;
        }
    }

    /// A controller always holds one entry for each source.
    pub proof fn lemma_wf(&self)
        ensures
            self@.wf(),
    {
    }

    fn is_eligible(&self, supervisor: bool, src: usize) -> (r: bool)
        requires
            src < 32,
        ensures
            r == self@.eligible(supervisor, src as int),
    {
        let enabled: bool = if supervisor {
            self.smode && self.enable_s[src]
        } else {
            self.enable_m[src]
        };
        1 <= src && self.pending[src] && enabled
    }

    /// The source that the context would claim next, and 0 where none is
    /// eligible.
    pub fn find_best(&self, supervisor: bool) -> (r: u64)
        ensures
            r == self@.best(supervisor),
            r < PLIC_SOURCES,
    {
        let mut b: usize = 0;
        let mut i: usize = 1;
        while i < 32
            invariant
                1 <= i <= 32,
                b < i,
                b == 0 ==> forall|t: int| 1 <= t < i ==> !self@.eligible(supervisor, t),
                b != 0 ==> self@.eligible(supervisor, b as int),
                b != 0 ==> forall|t: int|
                    1 <= t < i && #[trigger] self@.eligible(supervisor, t) ==> self@.outranks(
                        b as int,
                        t,
                    ),
            decreases 32 - i,
        {
            if self.is_eligible(supervisor, i) && (b == 0 || self.priority[i] > self.priority[b]) {
                b = i;
            }
            i = i + 1;
        }
        proof {
            if b != 0 {
                assert(self@.is_best(supervisor, b as int));
                lemma_best_unique(*&self@, supervisor, b as int, self@.best(supervisor));
            } else {
                assert forall|s: int| !self@.is_best(supervisor, s) by {
                    if self@.is_best(supervisor, s) {
                        assert(self@.eligible(supervisor, s));
                    }
                }
            }
        }
        b as u64
    }

    /// The interrupt line of the machine context, or of the supervisor
    /// context.
    pub fn line(&self, supervisor: bool) -> (r: bool)
        ensures
            r == self@.line(supervisor),
    {
        let b: u64 = self.find_best(supervisor);
        let threshold: u32 = if supervisor {
            self.threshold_s
        } else {
            self.threshold_m
        };
        proof {
            lemma_line_is_best_above_threshold(self@, supervisor);
        }
        b != 0 && self.priority[b as usize] > threshold
    }

    /// The device behind source `src` raises its interrupt line.
    pub fn raise(&mut self, src: u64)
        ensures
            final(self)@ == old(self)@.after_raise(src),
    {
        if 1 <= src && src < PLIC_SOURCES && !self.claimed[src as usize] {
            self.pending[src as usize] = true;
        }
    }

    /// Claims for a context: returns the source to serve, or 0.
    pub fn claim(&mut self, supervisor: bool) -> (r: u64)
        ensures
            r == old(self)@.best(supervisor),
            final(self)@ == old(self)@.after_claim(supervisor),
    {
        let b: u64 = self.find_best(supervisor);
        if b != 0 {
            self.pending[b as usize] = false;
            self.claimed[b as usize] = true;
        }
        b
    }

    pub fn complete(&mut self, src: u64)
        ensures
            final(self)@ == old(self)@.after_complete(src),
    {
        if 1 <= src && src < PLIC_SOURCES {
            self.claimed[src as usize] = false;
        }
    }

    /// The controller keeps no time of its own: a tick changes nothing.
    pub fn tick(&mut self)
        ensures
            final(self)@ == old(self)@,
    {
    }

    pub fn read(&mut self, off: u64, len: u64) -> (r: u64)
        ensures
            r == old(self)@.read_value(off, len),
            final(self)@ == old(self)@.after_read(off, len),
    {
        match find_plic_reg(off, len) {
            Some(PlicReg::Priority(src)) => self.priority[src as usize] as u64,
            Some(PlicReg::Pending) => pack(&self.pending),
            Some(PlicReg::Enable(supervisor)) => {
                if supervisor && !self.smode {
                    0
                } else if supervisor {
                    pack(&self.enable_s)
                } else {
                    pack(&self.enable_m)
                }
            },
            Some(PlicReg::Threshold(supervisor)) => {
                if supervisor && !self.smode {
                    0
                } else if supervisor {
                    self.threshold_s as u64
                } else {
                    self.threshold_m as u64
                }
            },
            Some(PlicReg::Claim(supervisor)) => self.claim(supervisor),
            None => 0,
        }
    }

    pub fn write(&mut self, off: u64, data: u64, len: u64)
        ensures
            final(self)@ == old(self)@.after_write(off, data, len),
    {
        let word: u32 = (data % 0x1_0000_0000) as u32;
        match find_plic_reg(off, len) {
            Some(PlicReg::Priority(src)) => {
                self.priority[src as usize] = word;
            },
            Some(PlicReg::Pending) => {},
            Some(PlicReg::Enable(supervisor)) => {
                if supervisor && !self.smode {
                } else if supervisor {
                    self.enable_s = unpack(word);
                } else {
                    self.enable_m = unpack(word);
                }
            },
            Some(PlicReg::Threshold(supervisor)) => {
                if supervisor && !self.smode {
                } else if supervisor {
                    self.threshold_s = word;
                } else {
                    self.threshold_m = word;
                }
            },
            Some(PlicReg::Claim(supervisor)) => {
                self.complete(word as u64);
            },
            None => {},
        }
    }
}

} // verus!
