use crate::bus::{valid_width, BusView};
use crate::cache_system::{CacheSystem, MemView};
use crate::bits::any_bit;
use crate::csr_regs::satp_mode;
use crate::csr_regs_define::{
    MSTATUS_MPP, MSTATUS_MPP_SHIFT, MSTATUS_MPRV, MSTATUS_MXR, MSTATUS_SUM, SATP_MODE_SV39,
    SATP_PPN_MODULUS,
};
use crate::inst_base::AccessType;
use crate::privilege::PrivilegeLevels;
use crate::traptype::TrapType;
use vstd::prelude::*;

verus! {

pub const PTE_V: u64 = 0x1;

pub const PTE_R: u64 = 0x2;

pub const PTE_W: u64 = 0x4;

pub const PTE_X: u64 = 0x8;

pub const PTE_U: u64 = 0x10;

pub const PTE_G: u64 = 0x20;

pub const PTE_A: u64 = 0x40;

pub const PTE_D: u64 = 0x80;

pub const PAGE_SIZE: u64 = 0x1000;

/// What translation depends on besides the address and the page tables:
/// the privilege mode of the hart and its `mstatus` and `satp`.
#[derive(Clone, Copy, Debug)]
pub struct MmuEnv {
    pub privi: PrivilegeLevels,
    pub mstatus: u64,
    pub satp: u64,
}

/// Whether the page-table entry has the flag set; `flag` is one of the
/// `PTE_` constants.
pub open spec fn pte_flag(pte: u64, flag: u64) -> bool
    recommends
        flag > 0,
{
    (pte / flag) % 2 == 1
}

/// The physical page number of a page-table entry: bits 53 to 10.
pub open spec fn pte_ppn(pte: u64) -> u64 {
    (pte / 1024) % 0x1000_0000_0000
}

/// The number of bytes that a leaf of the given level maps: 4 KiB, 2 MiB
/// or 1 GiB.
pub open spec fn level_size(level: int) -> u64 {
    if level <= 0 {
        0x1000
    } else if level == 1 {
        0x20_0000
    } else {
        0x4000_0000
    }
}

/// The index into the table of the given level that `va` selects.
pub open spec fn vpn(va: u64, level: int) -> u64 {
    (va / level_size(level)) % 512
}

/// The mode whose rights a data access has: `mstatus.MPP` while the hart
/// is in Machine mode with `mstatus.MPRV` set, and the mode of the hart
/// otherwise. A fetch always has the rights of the mode of the hart.
pub open spec fn effective_privilege(env: MmuEnv, access: AccessType) -> PrivilegeLevels {
    if !access.is_fetch() && env.privi == PrivilegeLevels::Machine && any_bit(
        env.mstatus,
        MSTATUS_MPRV,
    ) {
        PrivilegeLevels::from_level((env.mstatus & MSTATUS_MPP) >> MSTATUS_MPP_SHIFT)
    } else {
        env.privi
    }
}

/// Whether addresses are translated: not with the rights of Machine
/// mode, and only while `satp` selects Sv39.
pub open spec fn translation_on(env: MmuEnv, access: AccessType) -> bool {
    effective_privilege(env, access) != PrivilegeLevels::Machine && satp_mode(env.satp)
        == SATP_MODE_SV39
}

/// The physical address of the root page table.
pub open spec fn satp_root(satp: u64) -> u64 {
    ((satp % SATP_PPN_MODULUS) * PAGE_SIZE) as u64
}

/// Whether the entry is a fault by itself: not valid, or writable
/// without being readable.
pub open spec fn pte_malformed(pte: u64) -> bool {
    !pte_flag(pte, PTE_V) || (!pte_flag(pte, PTE_R) && pte_flag(pte, PTE_W))
}

/// Whether the entry points to the table of the next level: neither
/// readable nor executable.
pub open spec fn pte_is_pointer(pte: u64) -> bool {
    !pte_flag(pte, PTE_R) && !pte_flag(pte, PTE_X)
}

/// Whether a leaf of the given level is aligned: above level 0 the low
/// parts of its page number must be zero.
pub open spec fn leaf_aligned(pte: u64, level: int) -> bool {
    (pte_ppn(pte) * PAGE_SIZE) % (level_size(level) as int) == 0
}

/// Whether the leaf lets the access through.
///
/// A fetch needs X, a load R (or X while `mstatus.MXR` is set), a store
/// or an atomic operation W. User mode needs U; Supervisor mode must not
/// fetch from a U page and reaches its data only while `mstatus.SUM` is
/// set. Every access needs A, and one that writes needs D.
pub open spec fn leaf_permits(pte: u64, access: AccessType, privi: PrivilegeLevels, mstatus: u64)
    -> bool {
    let user_page = pte_flag(pte, PTE_U);
    let mode_ok = match privi {
        PrivilegeLevels::User => user_page,
        PrivilegeLevels::Supervisor => !user_page || (!access.is_fetch() && any_bit(
            mstatus,
            MSTATUS_SUM,
        )),
        PrivilegeLevels::Machine => true,
    };
    let kind_ok = match access {
        AccessType::Fetch(_) => pte_flag(pte, PTE_X),
        AccessType::Load => pte_flag(pte, PTE_R) || (any_bit(mstatus, MSTATUS_MXR) && pte_flag(
            pte,
            PTE_X,
        )),
        _ => pte_flag(pte, PTE_W),
    };
    let used_ok = pte_flag(pte, PTE_A) && (access.is_write() ==> pte_flag(pte, PTE_D));
    mode_ok && kind_ok && used_ok
}

/// The physical address that a leaf of the given level gives `va`: the
/// bits above the size of the leaf come from the entry, those below
/// from `va`.
pub open spec fn leaf_address(pte: u64, va: u64, level: int) -> u64 {
    (pte_ppn(pte) * PAGE_SIZE + va % level_size(level)) as u64
}

/// What one page-table entry decides.
#[derive(Clone, Copy, PartialEq, Eq, Structural, Debug)]
pub enum WalkStep {
    /// The walk goes on in the table at this physical address.
    Descend(u64),
    /// The walk ends with this physical address.
    Leaf(u64),
    /// The walk ends with a page fault.
    Fault,
}

/// What the entry `pte`, found at the given level, decides for `va`.
pub open spec fn walk_step(
    pte: u64,
    level: int,
    va: u64,
    access: AccessType,
    privi: PrivilegeLevels,
    mstatus: u64,
) -> WalkStep {
    if pte_malformed(pte) {
        WalkStep::Fault
    } else if pte_is_pointer(pte) {
        if level <= 0 {
            WalkStep::Fault
        } else {
            WalkStep::Descend((pte_ppn(pte) * PAGE_SIZE) as u64)
        }
    } else if !leaf_aligned(pte, level) || !leaf_permits(pte, access, privi, mstatus) {
        WalkStep::Fault
    } else {
        WalkStep::Leaf(leaf_address(pte, va, level))
    }
}

pub fn decide_step(
    pte: u64,
    level: u64,
    va: u64,
    access: AccessType,
    privi: PrivilegeLevels,
    mstatus: u64,
) -> (r: WalkStep)
    requires
        level <= 2,
    ensures
        r == walk_step(pte, level as int, va, access, privi, mstatus),
        r matches WalkStep::Descend(table) ==> table < 0x100_0000_0000_0000,
{
    let v: bool = pte % 2 == 1;
    let r: bool = (pte / PTE_R) % 2 == 1;
    let w: bool = (pte / PTE_W) % 2 == 1;
    let x: bool = (pte / PTE_X) % 2 == 1;
    let u: bool = (pte / PTE_U) % 2 == 1;
    let a: bool = (pte / PTE_A) % 2 == 1;
    let d: bool = (pte / PTE_D) % 2 == 1;
    let base: u64 = ((pte / 1024) % 0x1000_0000_0000) * PAGE_SIZE;
    let size: u64 = if level == 0 {
        0x1000
    } else if level == 1 {
        0x20_0000
    } else {
        0x4000_0000
    };
    if !v || (!r && w) {
        return WalkStep::Fault;
    }
    if !r && !x {
        if level == 0 {
            return WalkStep::Fault;
        }
        return WalkStep::Descend(base);
    }
    if base % size != 0 {
        return WalkStep::Fault;
    }
    let sum: bool = mstatus & MSTATUS_SUM != 0;
    let mxr: bool = mstatus & MSTATUS_MXR != 0;
    let fetch: bool = access.fetches();
    let write: bool = access.writes();
    let mode_ok: bool = match privi {
        PrivilegeLevels::User => u,
        PrivilegeLevels::Supervisor => !u || (!fetch && sum),
        PrivilegeLevels::Machine => true,
    };
    let kind_ok: bool = match access {
        AccessType::Fetch(_) => x,
        AccessType::Load => r || (mxr && x),
        _ => w,
    };
    let used_ok: bool = a && (!write || d);
    if mode_ok && kind_ok && used_ok {
        WalkStep::Leaf(base + va % size)
    } else {
        WalkStep::Fault
    }
}

/// The Sv39 walk from the table at `table`, which is of the given level.
/// Gives the physical address, or `None` for a page fault, and the bus
/// as the reads of the walk leave it. An entry that the bus does not
/// serve is a page fault.
pub open spec fn walk(
    bus: BusView,
    va: u64,
    access: AccessType,
    privi: PrivilegeLevels,
    mstatus: u64,
    level: int,
    table: u64,
) -> (Option<u64>, BusView)
    decreases level,
{
    let entry = (table + vpn(va, level) * 8) as u64;
    match bus.read(entry, 8) {
        None => (None, bus),
        Some(pte) => {
            let after = bus.after_read(entry, 8);
            match walk_step(pte, level, va, access, privi, mstatus) {
                WalkStep::Fault => (None, after),
                WalkStep::Leaf(pa) => (Some(pa), after),
                WalkStep::Descend(next) => if level <= 0 {
                    (None, after)
                } else {
                    walk(after, va, access, privi, mstatus, level - 1, next)
                },
            }
        },
    }
}

/// The translation of `va` for the given access: the identity while
/// translation is off, and the Sv39 walk from the root otherwise.
pub open spec fn translate_spec(bus: BusView, env: MmuEnv, access: AccessType, va: u64) -> (
    Result<u64, TrapType>,
    BusView,
) {
    if !translation_on(env, access) {
        (Ok(va), bus)
    } else {
        let found = walk(
            bus,
            va,
            access,
            effective_privilege(env, access),
            env.mstatus,
            2,
            satp_root(env.satp),
        );
        match found.0 {
            Some(pa) => (Ok(pa), found.1),
            None => (Err(access.page_fault(va)), found.1),
        }
    }
}

/// A load of `len` bytes at the virtual address `va`: the value or the
/// trap, and the memory side afterwards. An access that crosses a
/// natural boundary is misaligned; one that translation refuses is a
/// page fault; one that the bus does not serve is an access fault.
pub open spec fn mmu_read(mem: MemView, env: MmuEnv, access: AccessType, va: u64, len: u64) -> (
    Result<u64, TrapType>,
    MemView,
) {
    if valid_width(len) && va % len != 0 {
        (Err(access.misaligned(va)), mem)
    } else {
        let translated = translate_spec(mem.bus, env, access, va);
        let walked = MemView { bus: translated.1, ..mem };
        match translated.0 {
            Err(trap) => (Err(trap), walked),
            Ok(pa) => match walked.read(pa, len) {
                Some(v) => (Ok(v), walked.after_read(pa, len, access.is_fetch())),
                None => (Err(access.access_fault(va)), walked),
            },
        }
    }
}

/// A store of the low `len` bytes of `data` at the virtual address `va`:
/// success or the trap, and the memory side afterwards.
pub open spec fn mmu_write(
    mem: MemView,
    env: MmuEnv,
    access: AccessType,
    va: u64,
    data: u64,
    len: u64,
) -> (Result<(), TrapType>, MemView) {
    if valid_width(len) && va % len != 0 {
        (Err(access.misaligned(va)), mem)
    } else {
        let translated = translate_spec(mem.bus, env, access, va);
        let walked = MemView { bus: translated.1, ..mem };
        match translated.0 {
            Err(trap) => (Err(trap), walked),
            Ok(pa) => if walked.write_ok(pa, len) {
                (Ok(()), walked.after_write(pa, data, len))
            } else {
                (Err(access.access_fault(va)), walked)
            },
        }
    }
}

/// The memory-management unit of a hart, with the memory side behind it.
pub struct Mmu {
    pub caches: CacheSystem,
    pub access_type: AccessType,
}

impl Mmu {
    pub fn new(caches: CacheSystem) -> (m: Mmu)
        ensures
            m.caches == caches,
            m.access_type == AccessType::Load,
    {
        Mmu { caches, access_type: AccessType::Load }
    }

    /// Sets the kind of the accesses that follow.
    pub fn update_access_type(&mut self, access_type: AccessType)
        ensures
            final(self).caches == old(self).caches,
            final(self).access_type == access_type,
    {
        self.access_type = access_type;
    }

    /// Translates `va` for an access of the kind last set.
    #[verifier::rlimit(50)]
    pub fn translate(&mut self, env: &MmuEnv, va: u64) -> (r: Result<u64, TrapType>)
        requires
            old(self).caches@.wf(),
        ensures
            final(self).caches@.wf(),
            final(self).access_type == old(self).access_type,
            r == translate_spec(old(self).caches@.bus, *env, old(self).access_type, va).0,
            final(self).caches@ == (MemView {
                bus: translate_spec(old(self).caches@.bus, *env, old(self).access_type, va).1,
                ..old(self).caches@
            }),
    {
        let access: AccessType = self.access_type;
        let privi: PrivilegeLevels = if !access.fetches() && env.privi == PrivilegeLevels::Machine
            && env.mstatus & MSTATUS_MPRV != 0 {
            PrivilegeLevels::from_bits((env.mstatus & MSTATUS_MPP) >> MSTATUS_MPP_SHIFT)
        } else {
            env.privi
        };
        if privi == PrivilegeLevels::Machine || env.satp / 0x1000_0000_0000_0000 != SATP_MODE_SV39 {
            return Ok(va);
        }
        let mut table: u64 = (env.satp % SATP_PPN_MODULUS) * PAGE_SIZE;
        let mut level: u64 = 2;
        loop
            invariant
                self.caches@.wf(),
                self.access_type == access,
                access == old(self).access_type,
                privi == effective_privilege(*env, access),
                translation_on(*env, access),
                self.caches@.icache == old(self).caches@.icache,
                self.caches@.dcache == old(self).caches@.dcache,
                level <= 2,
                table < 0x100_0000_0000_0000,
                walk(
                    old(self).caches@.bus,
                    va,
                    access,
                    privi,
                    env.mstatus,
                    2,
                    satp_root(env.satp),
                ) == walk(self.caches@.bus, va, access, privi, env.mstatus, level as int, table),
            decreases level,
        {
            let size: u64 = if level == 0 {
                0x1000
            } else if level == 1 {
                0x20_0000
            } else {
                0x4000_0000
            };
            let entry: u64 = table + ((va / size) % 512) * 8;
            let pte: u64 = match self.caches.bus.read(entry, 8) {
                Ok(pte) => pte,
                Err(_) => {
                    return Err(access.page_fault_at(va));
                },
            };
            match decide_step(pte, level, va, access, privi, env.mstatus) {
                WalkStep::Fault => {
                    return Err(access.page_fault_at(va));
                },
                WalkStep::Leaf(pa) => {
                    return Ok(pa);
                },
                WalkStep::Descend(next) => {
                    if level == 0 {
                        return Err(access.page_fault_at(va));
                    }
                    table = next;
                    level = level - 1;
                },
            }
        }
    }

    /// A load of `len` bytes at the virtual address `va`, of the kind
    /// last set.
    pub fn do_read(&mut self, env: &MmuEnv, va: u64, len: u64) -> (r: Result<u64, TrapType>)
        requires
            old(self).caches@.wf(),
        ensures
            final(self).caches@.wf(),
            final(self).access_type == old(self).access_type,
            r == mmu_read(old(self).caches@, *env, old(self).access_type, va, len).0,
            final(self).caches@ == mmu_read(
                old(self).caches@,
                *env,
                old(self).access_type,
                va,
                len,
            ).1,
    {
        let access: AccessType = self.access_type;
        if (len == 1 || len == 2 || len == 4 || len == 8) && va % len != 0 {
            return Err(access.misaligned_at(va));
        }
        let pa: u64 = match self.translate(env, va) {
            Ok(pa) => pa,
            Err(trap) => {
                return Err(trap);
            },
        };
        match self.caches.read(pa, len, access.fetches()) {
            Ok(v) => Ok(v),
            Err(_) => Err(access.access_fault_at(va)),
        }
    }

    /// A store of the low `len` bytes of `data` at the virtual address
    /// `va`, of the kind last set.
    pub fn do_write(&mut self, env: &MmuEnv, va: u64, data: u64, len: u64) -> (r: Result<
        (),
        TrapType,
    >)
        requires
            old(self).caches@.wf(),
        ensures
            final(self).caches@.wf(),
            final(self).access_type == old(self).access_type,
            r == mmu_write(old(self).caches@, *env, old(self).access_type, va, data, len).0,
            final(self).caches@ == mmu_write(
                old(self).caches@,
                *env,
                old(self).access_type,
                va,
                data,
                len,
            ).1,
    {
        let access: AccessType = self.access_type;
        if (len == 1 || len == 2 || len == 4 || len == 8) && va % len != 0 {
            return Err(access.misaligned_at(va));
        }
        let pa: u64 = match self.translate(env, va) {
            Ok(pa) => pa,
            Err(trap) => {
                return Err(trap);
            },
        };
        match self.caches.write(pa, data, len) {
            Ok(_) => Ok(()),
            Err(_) => Err(access.access_fault_at(va)),
        }
    }
}

/// A leaf at level 1 whose lowest page-number part is not zero is a page
/// fault, whatever else the entry holds.
pub proof fn lemma_misaligned_superpage_faults(
    pte: u64,
    va: u64,
    access: AccessType,
    privi: PrivilegeLevels,
    mstatus: u64,
)
    requires
        pte_ppn(pte) % 512 != 0,
    ensures
        !(walk_step(pte, 1, va, access, privi, mstatus) is Leaf),
{
    let ppn = pte_ppn(pte);
    assert(ppn == 512 * (ppn / 512) + ppn % 512);
    assert((ppn * 0x1000) % 0x20_0000 == (ppn % 512) * 0x1000);
}

} // verus!
