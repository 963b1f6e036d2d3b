use crate::bits::{read_reg_bytes, reg_bytes, reg_with_bytes, write_reg_bytes};
use vstd::prelude::*;

verus! {

/// Offset of the software-interrupt register, four bytes wide.
pub const CLINT_MSIP: u64 = 0x0;

/// Offset of the timer compare register, eight bytes wide.
pub const CLINT_MTIMECMP: u64 = 0x4000;

/// Offset of the timer, eight bytes wide.
pub const CLINT_MTIME: u64 = 0xbff8;

/// The registers of the core-local interruptor.
#[derive(Clone, Copy, PartialEq, Eq, Structural, Debug)]
pub enum ClintReg {
    Msip,
    Mtimecmp,
    Mtime,
}

/// The register that an access of `len` bytes at `off` falls into. An
/// access that fits in no register reads zero and stores nothing.
pub open spec fn clint_reg(off: u64, len: u64) -> Option<ClintReg> {
    if CLINT_MSIP <= off && off + len <= CLINT_MSIP + 4 {
        Some(ClintReg::Msip)
    } else if CLINT_MTIMECMP <= off && off + len <= CLINT_MTIMECMP + 8 {
        Some(ClintReg::Mtimecmp)
    } else if CLINT_MTIME <= off && off + len <= CLINT_MTIME + 8 {
        Some(ClintReg::Mtime)
    } else {
        None
    }
}

pub fn find_clint_reg(off: u64, len: u64) -> (r: Option<ClintReg>)
    ensures
        r == clint_reg(off, len),
{
    if len > 8 {
        None
    } else if CLINT_MSIP <= off && off <= CLINT_MSIP + 4 && len <= CLINT_MSIP + 4 - off {
        Some(ClintReg::Msip)
    } else if CLINT_MTIMECMP <= off && off <= CLINT_MTIMECMP + 8 && len <= CLINT_MTIMECMP + 8
        - off {
        Some(ClintReg::Mtimecmp)
    } else if CLINT_MTIME <= off && off <= CLINT_MTIME + 8 && len <= CLINT_MTIME + 8 - off {
        Some(ClintReg::Mtime)
    } else {
        None
    }
}

/// The core-local interruptor of a single-hart platform: a timer, the
/// value that the timer is compared with, and a software-interrupt flag.
#[derive(Clone, Copy, Debug)]
pub struct Clint {
    /// Only bit 0 is implemented.
    pub msip: u64,
    pub mtimecmp: u64,
    pub mtime: u64,
}

impl Clint {
    /// The timer interrupt line: up exactly while `mtime >= mtimecmp`.
    pub open spec fn timer_pending(self) -> bool {
        self.mtime >= self.mtimecmp
    }

    /// The software interrupt line: mirrors bit 0 of `msip`.
    pub open spec fn software_pending(self) -> bool {
        self.msip % 2 == 1
    }

    /// The interruptor one tick later: the timer has advanced by one.
    pub open spec fn after_tick(self) -> Clint {
        Clint { mtime: vstd::wrapping::u64_specs::wrapping_add(self.mtime, 1), ..self }
    }

    /// What a load of `len` bytes at `off` reads.
    pub open spec fn read_value(self, off: u64, len: u64) -> u64 {
        match clint_reg(off, len) {
            Some(ClintReg::Msip) => reg_bytes(self.msip, off, len),
            Some(ClintReg::Mtimecmp) => reg_bytes(self.mtimecmp, off, len),
            Some(ClintReg::Mtime) => reg_bytes(self.mtime, off, len),
            None => 0,
        }
    }

    /// The interruptor after a store of `len` bytes of `data` at `off`.
    pub open spec fn after_write(self, off: u64, data: u64, len: u64) -> Clint {
        match clint_reg(off, len) {
            Some(ClintReg::Msip) => Clint {
                msip: reg_with_bytes(self.msip, off, len, data) % 2,
                ..self
            },
            Some(ClintReg::Mtimecmp) => Clint {
                mtimecmp: reg_with_bytes(self.mtimecmp, off, len, data),
                ..self
            },
            Some(ClintReg::Mtime) => Clint {
                mtime: reg_with_bytes(self.mtime, off, len, data),
                ..self
            },
            None => self,
        }
    }

    pub fn new() -> (c: Clint)
        ensures
            c == (Clint { msip: 0, mtimecmp: 0, mtime: 0 }),
    {
        Clint { msip: 0, mtimecmp: 0, mtime: 0 }
    }

    pub fn tick(&mut self)
        ensures
            *final(self) == old(self).after_tick(),
    {
        self.mtime = self.mtime.wrapping_add(1);
    }

    pub fn mtip(&self) -> (r: bool)
        ensures
            r == self.timer_pending(),
    {
        self.mtime >= self.mtimecmp
    }

    pub fn msip_line(&self) -> (r: bool)
        ensures
            r == self.software_pending(),
    {
        self.msip % 2 == 1
    }

    pub fn read(&self, off: u64, len: u64) -> (r: u64)
        ensures
            r == self.read_value(off, len),
    {
        match find_clint_reg(off, len) {
            Some(ClintReg::Msip) => read_reg_bytes(self.msip, off, len),
            Some(ClintReg::Mtimecmp) => read_reg_bytes(self.mtimecmp, off, len),
            Some(ClintReg::Mtime) => read_reg_bytes(self.mtime, off, len),
            None => 0,
        }
    }

    pub fn write(&mut self, off: u64, data: u64, len: u64)
        ensures
            *final(self) == old(self).after_write(off, data, len),
    {
        match find_clint_reg(off, len) {
            Some(ClintReg::Msip) => {
                self.msip = write_reg_bytes(self.msip, off, len, data) % 2;
            },
            Some(ClintReg::Mtimecmp) => {
                self.mtimecmp = write_reg_bytes(self.mtimecmp, off, len, data);
            },
            Some(ClintReg::Mtime) => {
                self.mtime = write_reg_bytes(self.mtime, off, len, data);
            },
            None => {},
        }
    }
}

/// The interruptor after `ticks` ticks.
pub open spec fn after_ticks(c: Clint, ticks: int) -> Clint
    decreases ticks,
{
    if ticks <= 0 {
        c
    } else {
        after_ticks(c.after_tick(), ticks - 1)
    }
}

/// Once the compare register has been set `delta` ticks ahead of the
/// timer, the timer line stays down for `delta` ticks and is up at the
/// tick that follows, as long as the timer does not wrap.
pub proof fn lemma_timer_fires(c: Clint, delta: int, ticks: int)
    requires
        c.mtimecmp == c.mtime + delta,
        0 <= ticks <= delta,
    ensures
        after_ticks(c, ticks).mtime == c.mtime + ticks,
        after_ticks(c, ticks).mtimecmp == c.mtimecmp,
        after_ticks(c, ticks).timer_pending() == (ticks == delta),
    decreases ticks,
{
    if ticks > 0 {
        lemma_timer_fires(c.after_tick(), delta - 1, ticks - 1);
    }
}

} // verus!
