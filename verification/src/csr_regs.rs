use crate::csr_regs_define::{COUNTEREN_WRITE_MASK, CSR_CYCLE, CSR_INSTRET, CSR_MARCHID, CSR_MCAUSE, CSR_MCOUNTEREN, CSR_MCYCLE, CSR_MEDELEG, CSR_MEPC, CSR_MHARTID, CSR_MIDELEG, CSR_MIE, CSR_MIMPID, CSR_MINSTRET, CSR_MIP, CSR_MISA, CSR_MSCRATCH, CSR_MSTATUS, CSR_MTVAL, CSR_MTVEC, CSR_MVENDORID, CSR_PMPADDR0, CSR_PMPCFG0, CSR_SATP, CSR_SCAUSE, CSR_SCOUNTEREN, CSR_SEPC, CSR_SIE, CSR_SIP, CSR_SSCRATCH, CSR_SSTATUS, CSR_STVAL, CSR_STVEC, CSR_TIME, EPC_WRITE_MASK, MASK_ALL, MEDELEG_WRITE_MASK, MIE_WRITE_MASK, MISA_RESET, MSTATUS_RESET, MSTATUS_WRITE_MASK, SATP_MODE_BARE, SATP_MODE_SV39, SATP_WRITE_MASK, SOFTWARE_PENDING, SSTATUS_VIEW_MASK, SUPERVISOR_INTERRUPTS, TVEC_WRITE_MASK};
use crate::privilege::PrivilegeLevels;
use vstd::prelude::*;

verus! {

/// The backing store of a control-and-status register. Several addresses
/// may share one: `sstatus`, `sie` and `sip` are views of the machine-level
/// registers, and the user-level counters are views of the machine-level
/// counters.
#[derive(Clone, Copy, PartialEq, Eq, Structural, Debug)]
pub enum CsrSlot {
    Mstatus,
    Misa,
    Medeleg,
    Mideleg,
    Mie,
    Mtvec,
    Mcounteren,
    Mscratch,
    Mepc,
    Mcause,
    Mtval,
    Mip,
    Stvec,
    Scounteren,
    Sscratch,
    Sepc,
    Scause,
    Stval,
    Satp,
    Mcycle,
    Minstret,
    Time,
    Mhartid,
    Mvendorid,
    Marchid,
    Mimpid,
    Pmpcfg0,
    Pmpaddr0,
}

/// The backing store that the 12-bit address `addr` names, if any.
pub open spec fn csr_slot(addr: u64) -> Option<CsrSlot> {
    if addr == CSR_MSTATUS || addr == CSR_SSTATUS {
        Some(CsrSlot::Mstatus)
    } else if addr == CSR_MISA {
        Some(CsrSlot::Misa)
    } else if addr == CSR_MEDELEG {
        Some(CsrSlot::Medeleg)
    } else if addr == CSR_MIDELEG {
        Some(CsrSlot::Mideleg)
    } else if addr == CSR_MIE || addr == CSR_SIE {
        Some(CsrSlot::Mie)
    } else if addr == CSR_MTVEC {
        Some(CsrSlot::Mtvec)
    } else if addr == CSR_MCOUNTEREN {
        Some(CsrSlot::Mcounteren)
    } else if addr == CSR_MSCRATCH {
        Some(CsrSlot::Mscratch)
    } else if addr == CSR_MEPC {
        Some(CsrSlot::Mepc)
    } else if addr == CSR_MCAUSE {
        Some(CsrSlot::Mcause)
    } else if addr == CSR_MTVAL {
        Some(CsrSlot::Mtval)
    } else if addr == CSR_MIP || addr == CSR_SIP {
        Some(CsrSlot::Mip)
    } else if addr == CSR_STVEC {
        Some(CsrSlot::Stvec)
    } else if addr == CSR_SCOUNTEREN {
        Some(CsrSlot::Scounteren)
    } else if addr == CSR_SSCRATCH {
        Some(CsrSlot::Sscratch)
    } else if addr == CSR_SEPC {
        Some(CsrSlot::Sepc)
    } else if addr == CSR_SCAUSE {
        Some(CsrSlot::Scause)
    } else if addr == CSR_STVAL {
        Some(CsrSlot::Stval)
    } else if addr == CSR_SATP {
        Some(CsrSlot::Satp)
    } else if addr == CSR_MCYCLE || addr == CSR_CYCLE {
        Some(CsrSlot::Mcycle)
    } else if addr == CSR_MINSTRET || addr == CSR_INSTRET {
        Some(CsrSlot::Minstret)
    } else if addr == CSR_TIME {
        Some(CsrSlot::Time)
    } else if addr == CSR_MHARTID {
        Some(CsrSlot::Mhartid)
    } else if addr == CSR_MVENDORID {
        Some(CsrSlot::Mvendorid)
    } else if addr == CSR_MARCHID {
        Some(CsrSlot::Marchid)
    } else if addr == CSR_MIMPID {
        Some(CsrSlot::Mimpid)
    } else if addr == CSR_PMPCFG0 {
        Some(CsrSlot::Pmpcfg0)
    } else if addr == CSR_PMPADDR0 {
        Some(CsrSlot::Pmpaddr0)
    } else {
        None
    }
}

pub fn slot_of(addr: u64) -> (r: Option<CsrSlot>)
    ensures
        r == csr_slot(addr),
{
    if addr == CSR_MSTATUS || addr == CSR_SSTATUS {
        Some(CsrSlot::Mstatus)
    } else if addr == CSR_MISA {
        Some(CsrSlot::Misa)
    } else if addr == CSR_MEDELEG {
        Some(CsrSlot::Medeleg)
    } else if addr == CSR_MIDELEG {
        Some(CsrSlot::Mideleg)
    } else if addr == CSR_MIE || addr == CSR_SIE {
        Some(CsrSlot::Mie)
    } else if addr == CSR_MTVEC {
        Some(CsrSlot::Mtvec)
    } else if addr == CSR_MCOUNTEREN {
        Some(CsrSlot::Mcounteren)
    } else if addr == CSR_MSCRATCH {
        Some(CsrSlot::Mscratch)
    } else if addr == CSR_MEPC {
        Some(CsrSlot::Mepc)
    } else if addr == CSR_MCAUSE {
        Some(CsrSlot::Mcause)
    } else if addr == CSR_MTVAL {
        Some(CsrSlot::Mtval)
    } else if addr == CSR_MIP || addr == CSR_SIP {
        Some(CsrSlot::Mip)
    } else if addr == CSR_STVEC {
        Some(CsrSlot::Stvec)
    } else if addr == CSR_SCOUNTEREN {
        Some(CsrSlot::Scounteren)
    } else if addr == CSR_SSCRATCH {
        Some(CsrSlot::Sscratch)
    } else if addr == CSR_SEPC {
        Some(CsrSlot::Sepc)
    } else if addr == CSR_SCAUSE {
        Some(CsrSlot::Scause)
    } else if addr == CSR_STVAL {
        Some(CsrSlot::Stval)
    } else if addr == CSR_SATP {
        Some(CsrSlot::Satp)
    } else if addr == CSR_MCYCLE || addr == CSR_CYCLE {
        Some(CsrSlot::Mcycle)
    } else if addr == CSR_MINSTRET || addr == CSR_INSTRET {
        Some(CsrSlot::Minstret)
    } else if addr == CSR_TIME {
        Some(CsrSlot::Time)
    } else if addr == CSR_MHARTID {
        Some(CsrSlot::Mhartid)
    } else if addr == CSR_MVENDORID {
        Some(CsrSlot::Mvendorid)
    } else if addr == CSR_MARCHID {
        Some(CsrSlot::Marchid)
    } else if addr == CSR_MIMPID {
        Some(CsrSlot::Mimpid)
    } else if addr == CSR_PMPCFG0 {
        Some(CsrSlot::Pmpcfg0)
    } else if addr == CSR_PMPADDR0 {
        Some(CsrSlot::Pmpaddr0)
    } else {
        None
    }
}

/// The bits of a backing store that the hart implements as writable. The
/// other bits keep their reset value whatever software writes.
pub open spec fn slot_write_mask(slot: CsrSlot) -> u64 {
    match slot {
        CsrSlot::Mstatus => MSTATUS_WRITE_MASK,
        CsrSlot::Misa => 0,
        CsrSlot::Medeleg => MEDELEG_WRITE_MASK,
        CsrSlot::Mideleg => SUPERVISOR_INTERRUPTS,
        CsrSlot::Mie => MIE_WRITE_MASK,
        CsrSlot::Mtvec => TVEC_WRITE_MASK,
        CsrSlot::Mcounteren => COUNTEREN_WRITE_MASK,
        CsrSlot::Mscratch => MASK_ALL,
        CsrSlot::Mepc => EPC_WRITE_MASK,
        CsrSlot::Mcause => MASK_ALL,
        CsrSlot::Mtval => MASK_ALL,
        CsrSlot::Mip => SOFTWARE_PENDING,
        CsrSlot::Stvec => TVEC_WRITE_MASK,
        CsrSlot::Scounteren => COUNTEREN_WRITE_MASK,
        CsrSlot::Sscratch => MASK_ALL,
        CsrSlot::Sepc => EPC_WRITE_MASK,
        CsrSlot::Scause => MASK_ALL,
        CsrSlot::Stval => MASK_ALL,
        CsrSlot::Satp => SATP_WRITE_MASK,
        CsrSlot::Mcycle => MASK_ALL,
        CsrSlot::Minstret => MASK_ALL,
        CsrSlot::Time => 0,
        CsrSlot::Mhartid => 0,
        CsrSlot::Mvendorid => 0,
        CsrSlot::Marchid => 0,
        CsrSlot::Mimpid => 0,
        CsrSlot::Pmpcfg0 => MASK_ALL,
        CsrSlot::Pmpaddr0 => MASK_ALL,
    }
}

pub fn write_mask_of(slot: CsrSlot) -> (r: u64)
    ensures
        r == slot_write_mask(slot),
{
    match slot {
        CsrSlot::Mstatus => MSTATUS_WRITE_MASK,
        CsrSlot::Misa => 0,
        CsrSlot::Medeleg => MEDELEG_WRITE_MASK,
        CsrSlot::Mideleg => SUPERVISOR_INTERRUPTS,
        CsrSlot::Mie => MIE_WRITE_MASK,
        CsrSlot::Mtvec => TVEC_WRITE_MASK,
        CsrSlot::Mcounteren => COUNTEREN_WRITE_MASK,
        CsrSlot::Mscratch => MASK_ALL,
        CsrSlot::Mepc => EPC_WRITE_MASK,
        CsrSlot::Mcause => MASK_ALL,
        CsrSlot::Mtval => MASK_ALL,
        CsrSlot::Mip => SOFTWARE_PENDING,
        CsrSlot::Stvec => TVEC_WRITE_MASK,
        CsrSlot::Scounteren => COUNTEREN_WRITE_MASK,
        CsrSlot::Sscratch => MASK_ALL,
        CsrSlot::Sepc => EPC_WRITE_MASK,
        CsrSlot::Scause => MASK_ALL,
        CsrSlot::Stval => MASK_ALL,
        CsrSlot::Satp => SATP_WRITE_MASK,
        CsrSlot::Mcycle => MASK_ALL,
        CsrSlot::Minstret => MASK_ALL,
        CsrSlot::Time => 0,
        CsrSlot::Mhartid => 0,
        CsrSlot::Mvendorid => 0,
        CsrSlot::Marchid => 0,
        CsrSlot::Mimpid => 0,
        CsrSlot::Pmpcfg0 => MASK_ALL,
        CsrSlot::Pmpaddr0 => MASK_ALL,
    }
}

/// The bits of its backing store that the address `addr` shows. Only the
/// supervisor views hide anything.
pub open spec fn csr_view_mask(addr: u64) -> u64 {
    if addr == CSR_SSTATUS {
        SSTATUS_VIEW_MASK
    } else if addr == CSR_SIE || addr == CSR_SIP {
        SUPERVISOR_INTERRUPTS
    } else {
        MASK_ALL
    }
}

pub fn view_mask_of(addr: u64) -> (r: u64)
    ensures
        r == csr_view_mask(addr),
{
    if addr == CSR_SSTATUS {
        SSTATUS_VIEW_MASK
    } else if addr == CSR_SIE || addr == CSR_SIP {
        SUPERVISOR_INTERRUPTS
    } else {
        MASK_ALL
    }
}

/// The lowest privilege that may access `addr`: bits 9:8 of the address.
pub open spec fn csr_required_level(addr: u64) -> u64 {
    (addr / 0x100) % 4
}

/// Whether `addr` lies in the read-only quarter of the address space.
pub open spec fn csr_read_only(addr: u64) -> bool {
    (addr / 0x400) % 4 == 3
}

/// Whether an instruction running at `privi` may read `addr` and, if
/// `write` holds, write it. Anything else is an illegal instruction.
pub open spec fn csr_access_ok(addr: u64, privi: PrivilegeLevels, write: bool) -> bool {
    &&& csr_slot(addr) is Some
    &&& privi.level() >= csr_required_level(addr)
    &&& !(write && csr_read_only(addr))
}

pub fn access_ok(addr: u64, privi: PrivilegeLevels, write: bool) -> (r: bool)
    ensures
        r == csr_access_ok(addr, privi, write),
{
    slot_of(addr).is_some() && privi.to_bits() >= (addr / 0x100) % 4 && !(write && (addr / 0x400)
        % 4 == 3)
}

/// The mode field of a `satp` value.
pub open spec fn satp_mode(satp: u64) -> u64 {
    satp / 0x1000_0000_0000_0000
}

/// Whether a value may be written to `satp`: its mode must be Bare or Sv39.
pub open spec fn satp_write_accepted(val: u64) -> bool {
    satp_mode(val) == SATP_MODE_BARE || satp_mode(val) == SATP_MODE_SV39
}

/// The control-and-status registers of one hart, by backing store.
#[derive(Clone, Copy, Debug)]
pub struct CsrRegs {
    /// Machine status; `sstatus` is a masked view of it.
    pub mstatus: u64,
    pub misa: u64,
    pub medeleg: u64,
    pub mideleg: u64,
    /// Interrupt enables; `sie` is a masked view of it.
    pub mie: u64,
    pub mtvec: u64,
    pub mcounteren: u64,
    pub mscratch: u64,
    pub mepc: u64,
    pub mcause: u64,
    pub mtval: u64,
    /// The interrupt-pending bits that software wrote; `sip` is a masked view.
    pub mip: u64,
    pub stvec: u64,
    pub scounteren: u64,
    pub sscratch: u64,
    pub sepc: u64,
    pub scause: u64,
    pub stval: u64,
    pub satp: u64,
    pub mcycle: u64,
    pub minstret: u64,
    /// A read-only shadow of the platform's `mtime`.
    pub time: u64,
    pub mhartid: u64,
    pub mvendorid: u64,
    pub marchid: u64,
    pub mimpid: u64,
    pub pmpcfg0: u64,
    pub pmpaddr0: u64,
    /// The interrupt-pending bits that the platform devices assert. A read
    /// of `mip` shows them or-ed with the bits that software wrote.
    pub hw_ip: u64,
}

impl CsrRegs {
    /// The raw value of a backing store.
    pub open spec fn raw(self, slot: CsrSlot) -> u64 {
        match slot {
            CsrSlot::Mstatus => self.mstatus,
            CsrSlot::Misa => self.misa,
            CsrSlot::Medeleg => self.medeleg,
            CsrSlot::Mideleg => self.mideleg,
            CsrSlot::Mie => self.mie,
            CsrSlot::Mtvec => self.mtvec,
            CsrSlot::Mcounteren => self.mcounteren,
            CsrSlot::Mscratch => self.mscratch,
            CsrSlot::Mepc => self.mepc,
            CsrSlot::Mcause => self.mcause,
            CsrSlot::Mtval => self.mtval,
            CsrSlot::Mip => self.mip,
            CsrSlot::Stvec => self.stvec,
            CsrSlot::Scounteren => self.scounteren,
            CsrSlot::Sscratch => self.sscratch,
            CsrSlot::Sepc => self.sepc,
            CsrSlot::Scause => self.scause,
            CsrSlot::Stval => self.stval,
            CsrSlot::Satp => self.satp,
            CsrSlot::Mcycle => self.mcycle,
            CsrSlot::Minstret => self.minstret,
            CsrSlot::Time => self.time,
            CsrSlot::Mhartid => self.mhartid,
            CsrSlot::Mvendorid => self.mvendorid,
            CsrSlot::Marchid => self.marchid,
            CsrSlot::Mimpid => self.mimpid,
            CsrSlot::Pmpcfg0 => self.pmpcfg0,
            CsrSlot::Pmpaddr0 => self.pmpaddr0,
        }
    }

    /// The register file with the raw value of one backing store replaced.
    pub open spec fn with_raw(self, slot: CsrSlot, val: u64) -> CsrRegs {
        match slot {
            CsrSlot::Mstatus => CsrRegs { mstatus: val, ..self },
            CsrSlot::Misa => CsrRegs { misa: val, ..self },
            CsrSlot::Medeleg => CsrRegs { medeleg: val, ..self },
            CsrSlot::Mideleg => CsrRegs { mideleg: val, ..self },
            CsrSlot::Mie => CsrRegs { mie: val, ..self },
            CsrSlot::Mtvec => CsrRegs { mtvec: val, ..self },
            CsrSlot::Mcounteren => CsrRegs { mcounteren: val, ..self },
            CsrSlot::Mscratch => CsrRegs { mscratch: val, ..self },
            CsrSlot::Mepc => CsrRegs { mepc: val, ..self },
            CsrSlot::Mcause => CsrRegs { mcause: val, ..self },
            CsrSlot::Mtval => CsrRegs { mtval: val, ..self },
            CsrSlot::Mip => CsrRegs { mip: val, ..self },
            CsrSlot::Stvec => CsrRegs { stvec: val, ..self },
            CsrSlot::Scounteren => CsrRegs { scounteren: val, ..self },
            CsrSlot::Sscratch => CsrRegs { sscratch: val, ..self },
            CsrSlot::Sepc => CsrRegs { sepc: val, ..self },
            CsrSlot::Scause => CsrRegs { scause: val, ..self },
            CsrSlot::Stval => CsrRegs { stval: val, ..self },
            CsrSlot::Satp => CsrRegs { satp: val, ..self },
            CsrSlot::Mcycle => CsrRegs { mcycle: val, ..self },
            CsrSlot::Minstret => CsrRegs { minstret: val, ..self },
            CsrSlot::Time => CsrRegs { time: val, ..self },
            CsrSlot::Mhartid => CsrRegs { mhartid: val, ..self },
            CsrSlot::Mvendorid => CsrRegs { mvendorid: val, ..self },
            CsrSlot::Marchid => CsrRegs { marchid: val, ..self },
            CsrSlot::Mimpid => CsrRegs { mimpid: val, ..self },
            CsrSlot::Pmpcfg0 => CsrRegs { pmpcfg0: val, ..self },
            CsrSlot::Pmpaddr0 => CsrRegs { pmpaddr0: val, ..self },
        }
    }

    /// The value of `mip` that the hart sees: what software wrote, or-ed
    /// with what the devices assert.
    pub open spec fn pending(self) -> u64 {
        self.mip | self.hw_ip
    }

    /// The value that a read of a backing store materialises.
    pub open spec fn materialised(self, slot: CsrSlot) -> u64 {
        if slot == CsrSlot::Mip {
            self.pending()
        } else {
            self.raw(slot)
        }
    }

    /// The value that an instruction reads at `addr`.
    pub open spec fn read_value(self, addr: u64) -> u64
        recommends
            csr_slot(addr) is Some,
    {
        self.materialised(csr_slot(addr).unwrap()) & csr_view_mask(addr)
    }

    /// The register file after a masked raw write: the bits of `mask` come
    /// from `val`, the others stay.
    pub open spec fn masked_write(self, slot: CsrSlot, val: u64, mask: u64) -> CsrRegs {
        self.with_raw(slot, (self.raw(slot) & !mask) | (val & mask))
    }

    /// The register file after an instruction writes `val` at `addr`: a
    /// masked write of the bits that the address shows and the hart
    /// implements. A write to `satp` with an unsupported mode changes
    /// nothing.
    pub open spec fn write_value(self, addr: u64, val: u64) -> CsrRegs
        recommends
            csr_slot(addr) is Some,
    {
        let slot = csr_slot(addr).unwrap();
        if slot == CsrSlot::Satp && !satp_write_accepted(val) {
            self
        } else {
            self.masked_write(slot, val, csr_view_mask(addr) & slot_write_mask(slot))
        }
    }

    /// The register file of hart `hart_id` at reset.
    pub open spec fn reset(hart_id: u64) -> CsrRegs {
        CsrRegs {
            mstatus: MSTATUS_RESET,
            misa: MISA_RESET,
            medeleg: 0,
            mideleg: 0,
            mie: 0,
            mtvec: 0,
            mcounteren: 0,
            mscratch: 0,
            mepc: 0,
            mcause: 0,
            mtval: 0,
            mip: 0,
            stvec: 0,
            scounteren: 0,
            sscratch: 0,
            sepc: 0,
            scause: 0,
            stval: 0,
            satp: 0,
            mcycle: 0,
            minstret: 0,
            time: 0,
            mhartid: hart_id,
            mvendorid: 0,
            marchid: 0,
            mimpid: 0,
            pmpcfg0: 0,
            pmpaddr0: 0,
            hw_ip: 0,
        }
    }

    pub fn new(hart_id: u64) -> (r: CsrRegs)
        ensures
            r == CsrRegs::reset(hart_id),
    {
        CsrRegs {
            mstatus: MSTATUS_RESET,
            misa: MISA_RESET,
            medeleg: 0,
            mideleg: 0,
            mie: 0,
            mtvec: 0,
            mcounteren: 0,
            mscratch: 0,
            mepc: 0,
            mcause: 0,
            mtval: 0,
            mip: 0,
            stvec: 0,
            scounteren: 0,
            sscratch: 0,
            sepc: 0,
            scause: 0,
            stval: 0,
            satp: 0,
            mcycle: 0,
            minstret: 0,
            time: 0,
            mhartid: hart_id,
            mvendorid: 0,
            marchid: 0,
            mimpid: 0,
            pmpcfg0: 0,
            pmpaddr0: 0,
            hw_ip: 0,
        }
    }

    pub fn get(&self, slot: CsrSlot) -> (r: u64)
        ensures
            r == self.raw(slot),
    {
        match slot {
            CsrSlot::Mstatus => self.mstatus,
            CsrSlot::Misa => self.misa,
            CsrSlot::Medeleg => self.medeleg,
            CsrSlot::Mideleg => self.mideleg,
            CsrSlot::Mie => self.mie,
            CsrSlot::Mtvec => self.mtvec,
            CsrSlot::Mcounteren => self.mcounteren,
            CsrSlot::Mscratch => self.mscratch,
            CsrSlot::Mepc => self.mepc,
            CsrSlot::Mcause => self.mcause,
            CsrSlot::Mtval => self.mtval,
            CsrSlot::Mip => self.mip,
            CsrSlot::Stvec => self.stvec,
            CsrSlot::Scounteren => self.scounteren,
            CsrSlot::Sscratch => self.sscratch,
            CsrSlot::Sepc => self.sepc,
            CsrSlot::Scause => self.scause,
            CsrSlot::Stval => self.stval,
            CsrSlot::Satp => self.satp,
            CsrSlot::Mcycle => self.mcycle,
            CsrSlot::Minstret => self.minstret,
            CsrSlot::Time => self.time,
            CsrSlot::Mhartid => self.mhartid,
            CsrSlot::Mvendorid => self.mvendorid,
            CsrSlot::Marchid => self.marchid,
            CsrSlot::Mimpid => self.mimpid,
            CsrSlot::Pmpcfg0 => self.pmpcfg0,
            CsrSlot::Pmpaddr0 => self.pmpaddr0,
        }
    }

    pub fn set(&mut self, slot: CsrSlot, val: u64)
        ensures
            *final(self) == old(self).with_raw(slot, val),
    {
        match slot {
            CsrSlot::Mstatus => { self.mstatus = val; },
            CsrSlot::Misa => { self.misa = val; },
            CsrSlot::Medeleg => { self.medeleg = val; },
            CsrSlot::Mideleg => { self.mideleg = val; },
            CsrSlot::Mie => { self.mie = val; },
            CsrSlot::Mtvec => { self.mtvec = val; },
            CsrSlot::Mcounteren => { self.mcounteren = val; },
            CsrSlot::Mscratch => { self.mscratch = val; },
            CsrSlot::Mepc => { self.mepc = val; },
            CsrSlot::Mcause => { self.mcause = val; },
            CsrSlot::Mtval => { self.mtval = val; },
            CsrSlot::Mip => { self.mip = val; },
            CsrSlot::Stvec => { self.stvec = val; },
            CsrSlot::Scounteren => { self.scounteren = val; },
            CsrSlot::Sscratch => { self.sscratch = val; },
            CsrSlot::Sepc => { self.sepc = val; },
            CsrSlot::Scause => { self.scause = val; },
            CsrSlot::Stval => { self.stval = val; },
            CsrSlot::Satp => { self.satp = val; },
            CsrSlot::Mcycle => { self.mcycle = val; },
            CsrSlot::Minstret => { self.minstret = val; },
            CsrSlot::Time => { self.time = val; },
            CsrSlot::Mhartid => { self.mhartid = val; },
            CsrSlot::Mvendorid => { self.mvendorid = val; },
            CsrSlot::Marchid => { self.marchid = val; },
            CsrSlot::Mimpid => { self.mimpid = val; },
            CsrSlot::Pmpcfg0 => { self.pmpcfg0 = val; },
            CsrSlot::Pmpaddr0 => { self.pmpaddr0 = val; },
        }
    }

    /// Whether `csr` names a register of this file.
    pub fn contains(csr: u64) -> (r: bool)
        ensures
            r == (csr_slot(csr) is Some),
    {
        slot_of(csr).is_some()
    }

    pub fn pending_interrupts(&self) -> (r: u64)
        ensures
            r == self.pending(),
    {
        self.mip | self.hw_ip
    }

    /// Reads the raw value behind `csr`, with no privilege check and no
    /// view mask. An address outside the file reads as zero.
    pub fn read_raw(&self, csr: u64) -> (r: u64)
        ensures
            r == match csr_slot(csr) {
                Some(slot) => self.raw(slot),
                None => 0,
            },
    {
        match slot_of(csr) {
            Some(slot) => self.get(slot),
            None => 0,
        }
    }

    pub fn read_raw_mask(&self, csr: u64, mask: u64) -> (r: u64)
        ensures
            r == match csr_slot(csr) {
                Some(slot) => self.raw(slot) & mask,
                None => 0,
            },
    {
        match slot_of(csr) {
            Some(slot) => self.get(slot) & mask,
            None => 0,
        }
    }

    /// Replaces the bits of `mask` in the raw value behind `csr` by those
    /// of `val`, with no privilege check. An address outside the file is
    /// left alone.
    pub fn write_raw_mask(&mut self, csr: u64, val: u64, mask: u64)
        ensures
            *final(self) == match csr_slot(csr) {
                Some(slot) => old(self).masked_write(slot, val, mask),
                None => *old(self),
            },
            csr_slot(csr) matches Some(slot) ==> final(self).raw(slot) == (old(self).raw(slot)
                & !mask) | (val & mask),
    {
        match slot_of(csr) {
            Some(slot) => {
                let pre: u64 = self.get(slot);
                self.set(slot, (pre & !mask) | (val & mask));
            },
            None => {},
        }
    }

    pub fn write_raw(&mut self, csr: u64, val: u64)
        ensures
            *final(self) == match csr_slot(csr) {
                Some(slot) => old(self).with_raw(slot, val),
                None => *old(self),
            },
    {
        match slot_of(csr) {
            Some(slot) => {
                self.set(slot, val);
            },
            None => {},
        }
    }

    /// What an instruction at privilege `privi` reads at `addr`, or `None`
    /// where the access is illegal.
    pub fn read(&self, addr: u64, privi: PrivilegeLevels) -> (r: Option<u64>)
        ensures
            r == if csr_access_ok(addr, privi, false) {
                Some(self.read_value(addr))
            } else {
                None
            },
    {
        if !access_ok(addr, privi, false) {
            return None;
        }
        match slot_of(addr) {
            Some(slot) => {
                let v: u64 = if slot == CsrSlot::Mip {
                    self.pending_interrupts()
                } else {
                    self.get(slot)
                };
                Some(v & view_mask_of(addr))
            },
            None => None,
        }
    }

    /// Writes `val` at `addr` for an instruction at privilege `privi`.
    /// Returns whether the access was legal; an illegal one changes
    /// nothing.
    pub fn write(&mut self, addr: u64, val: u64, privi: PrivilegeLevels) -> (ok: bool)
        ensures
            ok == csr_access_ok(addr, privi, true),
            *final(self) == if ok {
                old(self).write_value(addr, val)
            } else {
                *old(self)
            },
    {
        if !access_ok(addr, privi, true) {
            return false;
        }
        match slot_of(addr) {
            Some(slot) => {
                let mode: u64 = val / 0x1000_0000_0000_0000;
                if !(slot == CsrSlot::Satp && mode != SATP_MODE_BARE && mode != SATP_MODE_SV39) {
                    let mask: u64 = view_mask_of(addr) & write_mask_of(slot);
                    let pre: u64 = self.get(slot);
                    self.set(slot, (pre & !mask) | (val & mask));
                }
                true
            },
            None => false,
        }
    }
}

/// The position of a backing store in the register file.
spec fn slot_index(slot: CsrSlot) -> int {
    match slot {
        CsrSlot::Mstatus => 0,
        CsrSlot::Misa => 1,
        CsrSlot::Medeleg => 2,
        CsrSlot::Mideleg => 3,
        CsrSlot::Mie => 4,
        CsrSlot::Mtvec => 5,
        CsrSlot::Mcounteren => 6,
        CsrSlot::Mscratch => 7,
        CsrSlot::Mepc => 8,
        CsrSlot::Mcause => 9,
        CsrSlot::Mtval => 10,
        CsrSlot::Mip => 11,
        CsrSlot::Stvec => 12,
        CsrSlot::Scounteren => 13,
        CsrSlot::Sscratch => 14,
        CsrSlot::Sepc => 15,
        CsrSlot::Scause => 16,
        CsrSlot::Stval => 17,
        CsrSlot::Satp => 18,
        CsrSlot::Mcycle => 19,
        CsrSlot::Minstret => 20,
        CsrSlot::Time => 21,
        CsrSlot::Mhartid => 22,
        CsrSlot::Mvendorid => 23,
        CsrSlot::Marchid => 24,
        CsrSlot::Mimpid => 25,
        CsrSlot::Pmpcfg0 => 26,
        CsrSlot::Pmpaddr0 => 27,
    }
}

/// The raw value of the backing store at a position.
spec fn field_at(regs: CsrRegs, i: int) -> u64 {
    if i == 0 {
        regs.mstatus
    } else if i == 1 {
        regs.misa
    } else if i == 2 {
        regs.medeleg
    } else if i == 3 {
        regs.mideleg
    } else if i == 4 {
        regs.mie
    } else if i == 5 {
        regs.mtvec
    } else if i == 6 {
        regs.mcounteren
    } else if i == 7 {
        regs.mscratch
    } else if i == 8 {
        regs.mepc
    } else if i == 9 {
        regs.mcause
    } else if i == 10 {
        regs.mtval
    } else if i == 11 {
        regs.mip
    } else if i == 12 {
        regs.stvec
    } else if i == 13 {
        regs.scounteren
    } else if i == 14 {
        regs.sscratch
    } else if i == 15 {
        regs.sepc
    } else if i == 16 {
        regs.scause
    } else if i == 17 {
        regs.stval
    } else if i == 18 {
        regs.satp
    } else if i == 19 {
        regs.mcycle
    } else if i == 20 {
        regs.minstret
    } else if i == 21 {
        regs.time
    } else if i == 22 {
        regs.mhartid
    } else if i == 23 {
        regs.mvendorid
    } else if i == 24 {
        regs.marchid
    } else if i == 25 {
        regs.mimpid
    } else if i == 26 {
        regs.pmpcfg0
    } else if i == 27 {
        regs.pmpaddr0
    } else {
        0
    }
}

/// The register file whose backing stores hold what `f` gives for their
/// positions.
spec fn from_fields(f: spec_fn(int) -> u64, hw_ip: u64) -> CsrRegs {
    CsrRegs {
        mstatus: f(0),
        misa: f(1),
        medeleg: f(2),
        mideleg: f(3),
        mie: f(4),
        mtvec: f(5),
        mcounteren: f(6),
        mscratch: f(7),
        mepc: f(8),
        mcause: f(9),
        mtval: f(10),
        mip: f(11),
        stvec: f(12),
        scounteren: f(13),
        sscratch: f(14),
        sepc: f(15),
        scause: f(16),
        stval: f(17),
        satp: f(18),
        mcycle: f(19),
        minstret: f(20),
        time: f(21),
        mhartid: f(22),
        mvendorid: f(23),
        marchid: f(24),
        mimpid: f(25),
        pmpcfg0: f(26),
        pmpaddr0: f(27),
        hw_ip,
    }
}

/// The raw value of a backing store is the field at its position.
proof fn lemma_raw_is_field(regs: CsrRegs, slot: CsrSlot)
    ensures
        regs.raw(slot) == field_at(regs, slot_index(slot)),
        0 <= slot_index(slot) < 28,
{
}

/// Replacing a backing store replaces the field at its position.
proof fn lemma_with_raw_is_update(regs: CsrRegs, slot: CsrSlot, val: u64)
    ensures
        regs.with_raw(slot, val) == from_fields(
            |i: int|
                if i == slot_index(slot) {
                    val
                } else {
                    field_at(regs, i)
                },
            regs.hw_ip,
        ),
{
}

/// Reading a backing store after one has been replaced gives the new value
/// for the store that was replaced, and the old value for every other.
pub proof fn lemma_raw_after_with_raw(regs: CsrRegs, slot: CsrSlot, val: u64, other: CsrSlot)
    ensures
        regs.with_raw(slot, val).raw(other) == if other == slot {
            val
        } else {
            regs.raw(other)
        },
        regs.with_raw(slot, val).hw_ip == regs.hw_ip,
{
    let f = |i: int|
        if i == slot_index(slot) {
            val
        } else {
            field_at(regs, i)
        };
    let after = from_fields(f, regs.hw_ip);
    lemma_with_raw_is_update(regs, slot, val);
    lemma_raw_is_field(after, other);
    lemma_raw_is_field(regs, other);
    lemma_raw_is_field(regs, slot);
    let j = slot_index(other);
    assert(field_at(after, j) == f(j));
    assert((slot_index(other) == slot_index(slot)) == (other == slot));
}

/// A masked write changes no bit outside its mask.
pub proof fn lemma_masked_bits(pre: u64, val: u64, mask: u64, view: u64)
    by (bit_vector)
    ensures
        ((pre & !mask) | (val & mask)) & !mask == pre & !mask,
        ((pre & !(view & mask)) | (val & (view & mask))) & !mask == pre & !mask,
        ((pre & !(view & mask)) | (val & (view & mask))) & !view == pre & !view,
{
}

/// Whether the bits of a backing store that the hart does not implement
/// as writable hold what they held at reset. The shadow of the platform
/// timer is left out: the platform writes it.
pub open spec fn fixed_bits_kept(regs: CsrRegs, slot: CsrSlot) -> bool {
    slot != CsrSlot::Time ==> regs.raw(slot) & !slot_write_mask(slot) == CsrRegs::reset(
        regs.mhartid,
    ).raw(slot) & !slot_write_mask(slot)
}

/// Whether every backing store keeps the bits that are not writable.
pub open spec fn warl_kept(regs: CsrRegs) -> bool {
    forall|slot: CsrSlot| #[trigger] fixed_bits_kept(regs, slot)
}

/// The register file at reset keeps its fixed bits.
pub proof fn lemma_reset_keeps_fixed_bits(hart_id: u64)
    ensures
        warl_kept(CsrRegs::reset(hart_id)),
{
}

/// A write by an instruction keeps the fixed bits: whatever software
/// writes, a bit that is not implemented as writable stays as it was at
/// reset.
pub proof fn lemma_write_keeps_fixed_bits(regs: CsrRegs, addr: u64, val: u64)
    requires
        warl_kept(regs),
        csr_slot(addr) is Some,
    ensures
        warl_kept(regs.write_value(addr, val)),
{
    let slot = csr_slot(addr).unwrap();
    let after = regs.write_value(addr, val);
    let mask = csr_view_mask(addr) & slot_write_mask(slot);
    assert forall|other: CsrSlot| #[trigger] fixed_bits_kept(after, other) by {
        assert(fixed_bits_kept(regs, other));
        assert(fixed_bits_kept(regs, CsrSlot::Mhartid));
        if !(slot == CsrSlot::Satp && !satp_write_accepted(val)) {
            let written = (regs.raw(slot) & !mask) | (val & mask);
            lemma_raw_after_with_raw(regs, slot, written, other);
            lemma_raw_after_with_raw(regs, slot, written, CsrSlot::Mhartid);
            lemma_masked_bits(regs.raw(slot), val, slot_write_mask(slot), csr_view_mask(addr));
            assert(slot_write_mask(CsrSlot::Mhartid) == 0);
            lemma_zero_mask(regs.raw(CsrSlot::Mhartid), written);
        }
    }
}

/// With an empty write mask the fixed bits are all the bits.
proof fn lemma_zero_mask(a: u64, b: u64)
    by (bit_vector)
    ensures
        a & !0u64 == a,
        b & !0u64 == b,
{
}

/// A write through a supervisor view changes nothing that the view does
/// not show: `sstatus`, `sie` and `sip` are windows on `mstatus`, `mie`
/// and `mip`.
pub proof fn lemma_view_write_stays_in_view(regs: CsrRegs, addr: u64, val: u64)
    requires
        csr_slot(addr) is Some,
    ensures
        ({
            let slot = csr_slot(addr).unwrap();
            regs.write_value(addr, val).raw(slot) & !csr_view_mask(addr) == regs.raw(slot)
                & !csr_view_mask(addr)
        }),
        regs.read_value(addr) == regs.materialised(csr_slot(addr).unwrap()) & csr_view_mask(addr),
{
    let slot = csr_slot(addr).unwrap();
    let mask = csr_view_mask(addr) & slot_write_mask(slot);
    let written = (regs.raw(slot) & !mask) | (val & mask);
    lemma_raw_after_with_raw(regs, slot, written, slot);
    lemma_masked_bits(regs.raw(slot), val, slot_write_mask(slot), csr_view_mask(addr));
}

/// After a write that `satp` accepts, its mode is the mode that was
/// written, which is Bare or Sv39; a write that it refuses leaves its mode
/// as it was. So the mode of `satp` is always one of the two.
pub proof fn lemma_satp_mode_restricted(regs: CsrRegs, val: u64)
    requires
        satp_mode(regs.satp) == SATP_MODE_BARE || satp_mode(regs.satp) == SATP_MODE_SV39,
    ensures
        satp_mode(regs.write_value(CSR_SATP, val).satp) == SATP_MODE_BARE || satp_mode(
            regs.write_value(CSR_SATP, val).satp,
        ) == SATP_MODE_SV39,
{
    if satp_write_accepted(val) {
        lemma_satp_bits(regs.satp, val);
    }
}

/// The masked write of `satp` takes the whole mode field from the value
/// written.
proof fn lemma_satp_bits(pre: u64, val: u64)
    by (bit_vector)
    ensures
        ((pre & !(MASK_ALL & SATP_WRITE_MASK)) | (val & (MASK_ALL & SATP_WRITE_MASK)))
            / 0x1000_0000_0000_0000 == val / 0x1000_0000_0000_0000,
{
}

/// A legal write by an instruction is a masked write with the mask of the
/// address, except that `satp` refuses an unsupported mode.
pub proof fn lemma_write_is_masked(regs: CsrRegs, addr: u64, val: u64)
    requires
        csr_slot(addr) is Some,
        csr_slot(addr) != Some(CsrSlot::Satp) || satp_write_accepted(val),
    ensures
        ({
            let slot = csr_slot(addr).unwrap();
            let mask = csr_view_mask(addr) & slot_write_mask(slot);
            regs.write_value(addr, val).raw(slot) == (regs.raw(slot) & !mask) | (val & mask)
        }),
{
}

} // verus!
