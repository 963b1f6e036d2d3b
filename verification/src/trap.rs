use crate::bits::{any_bit, set_bits, test_any_bit, with_bits};
use crate::csr_regs::CsrRegs;
use crate::csr_regs_define::{
    IP_MEIP, IP_MSIP, IP_MTIP, IP_SEIP, IP_SSIP, IP_STIP, MSTATUS_MIE, MSTATUS_MPIE, MSTATUS_MPP,
    MSTATUS_MPP_SHIFT, MSTATUS_MPRV, MSTATUS_SIE, MSTATUS_SPIE, MSTATUS_SPP,
    MSTATUS_WRITE_MASK, SOFTWARE_PENDING,
};
use crate::privilege::PrivilegeLevels;
use crate::traptype::TrapType;
use vstd::prelude::*;

verus! {

/// Where a trap vector register sends a trap. The two low bits select the
/// mode: in vectored mode (1) an interrupt goes to the base plus four times
/// its number; everything else goes to the base.
pub open spec fn tvec_trap_pc(tvec: u64, trap: TrapType) -> u64 {
    let base = (tvec - tvec % 4) as u64;
    if tvec % 4 == 1 && trap.is_interrupt() {
        vstd::wrapping::u64_specs::wrapping_add(base, (4 * trap.number()) as u64)
    } else {
        base
    }
}

pub fn get_trap_pc(tvec: u64, trap: TrapType) -> (r: u64)
    ensures
        r == tvec_trap_pc(tvec, trap),
        r % 4 == 0,
{
    let base: u64 = tvec - tvec % 4;
    if tvec % 4 == 1 && trap.is_interrupt_type() {
        base.wrapping_add(4 * trap.get_exception_num())
    } else {
        base
    }
}

/// The mode that takes an exception raised at privilege `privi`:
/// Supervisor when the hart runs no higher than Supervisor and `medeleg`
/// delegates the exception, and Machine otherwise.
pub open spec fn exception_target(csr: CsrRegs, privi: PrivilegeLevels, trap: TrapType)
    -> PrivilegeLevels {
    if privi.level() <= 1 && any_bit(csr.medeleg, 1u64 << trap.number()) {
        PrivilegeLevels::Supervisor
    } else {
        PrivilegeLevels::Machine
    }
}

pub fn find_exception_target(csr: &CsrRegs, privi: PrivilegeLevels, trap: TrapType) -> (r:
    PrivilegeLevels)
    ensures
        r == exception_target(*csr, privi, trap),
{
    if privi.to_bits() <= 1 && test_any_bit(csr.medeleg, 1u64 << trap.get_exception_num()) {
        PrivilegeLevels::Supervisor
    } else {
        PrivilegeLevels::Machine
    }
}

/// `mstatus` after a trap into Supervisor mode from privilege level
/// `level`: SPP records whether the trap came from above User, SPIE takes
/// the old SIE, and SIE is cleared.
pub open spec fn supervisor_entry_status(mstatus: u64, level: u64) -> u64 {
    let m1 = with_bits(mstatus, MSTATUS_SPP, level != 0);
    let m2 = with_bits(m1, MSTATUS_SPIE, any_bit(mstatus, MSTATUS_SIE));
    with_bits(m2, MSTATUS_SIE, false)
}

/// `mstatus` after a trap into Machine mode from privilege level `level`:
/// MPP records the level, MPIE takes the old MIE, and MIE is cleared.
pub open spec fn machine_entry_status(mstatus: u64, level: u64) -> u64 {
    let m1 = with_bits(mstatus, MSTATUS_MPIE, any_bit(mstatus, MSTATUS_MIE));
    let m2 = with_bits(m1, MSTATUS_MIE, false);
    (m2 & !MSTATUS_MPP) | (level << MSTATUS_MPP_SHIFT)
}

/// The register file after the hart, running at `privi`, takes `trap` into
/// the mode `target`, saving `epc` as the pc to return to.
pub open spec fn enter_trap(
    csr: CsrRegs,
    privi: PrivilegeLevels,
    target: PrivilegeLevels,
    epc: u64,
    trap: TrapType,
) -> CsrRegs {
    if target == PrivilegeLevels::Supervisor {
        CsrRegs {
            mstatus: supervisor_entry_status(csr.mstatus, privi.level()),
            sepc: epc,
            scause: trap.cause(),
            stval: trap.tval(),
            ..csr
        }
    } else {
        CsrRegs {
            mstatus: machine_entry_status(csr.mstatus, privi.level()),
            mepc: epc,
            mcause: trap.cause(),
            mtval: trap.tval(),
            ..csr
        }
    }
}

/// The pc at which the handler of `trap` starts in the mode `target`.
pub open spec fn trap_vector(csr: CsrRegs, target: PrivilegeLevels, trap: TrapType) -> u64 {
    if target == PrivilegeLevels::Supervisor {
        tvec_trap_pc(csr.stvec, trap)
    } else {
        tvec_trap_pc(csr.mtvec, trap)
    }
}

/// Enters `trap` in the mode `target` and returns the pc of its handler.
pub fn take_trap(
    csr: &mut CsrRegs,
    privi: PrivilegeLevels,
    target: PrivilegeLevels,
    epc: u64,
    trap: TrapType,
) -> (handler: u64)
    ensures
        *final(csr) == enter_trap(*old(csr), privi, target, epc, trap),
        handler == trap_vector(*old(csr), target, trap),
        handler % 4 == 0,
{
    let mstatus: u64 = csr.mstatus;
    let level: u64 = privi.to_bits();
    if target == PrivilegeLevels::Supervisor {
        let m1: u64 = set_bits(mstatus, MSTATUS_SPP, level != 0);
        let m2: u64 = set_bits(m1, MSTATUS_SPIE, test_any_bit(mstatus, MSTATUS_SIE));
        csr.mstatus = set_bits(m2, MSTATUS_SIE, false);
        csr.sepc = epc;
        csr.scause = trap.idx();
        csr.stval = trap.get_tval();
        get_trap_pc(csr.stvec, trap)
    } else {
        let m1: u64 = set_bits(mstatus, MSTATUS_MPIE, test_any_bit(mstatus, MSTATUS_MIE));
        let m2: u64 = set_bits(m1, MSTATUS_MIE, false);
        csr.mstatus = (m2 & !MSTATUS_MPP) | (level << MSTATUS_MPP_SHIFT);
        csr.mepc = epc;
        csr.mcause = trap.idx();
        csr.mtval = trap.get_tval();
        get_trap_pc(csr.mtvec, trap)
    }
}

/// The interrupt of highest priority among the pending bits `bits`, in the
/// architectural order: machine external, software and timer, then
/// supervisor external, software and timer.
pub open spec fn priority_interrupt(bits: u64) -> Option<TrapType> {
    if any_bit(bits, IP_MEIP) {
        Some(TrapType::MachineExternalInterrupt)
    } else if any_bit(bits, IP_MSIP) {
        Some(TrapType::MachineSoftwareInterrupt)
    } else if any_bit(bits, IP_MTIP) {
        Some(TrapType::MachineTimerInterrupt)
    } else if any_bit(bits, IP_SEIP) {
        Some(TrapType::SupervisorExternalInterrupt)
    } else if any_bit(bits, IP_SSIP) {
        Some(TrapType::SupervisorSoftwareInterrupt)
    } else if any_bit(bits, IP_STIP) {
        Some(TrapType::SupervisorTimerInterrupt)
    } else {
        None
    }
}

pub fn get_priority_interrupt(bits: u64) -> (r: Option<TrapType>)
    ensures
        r == priority_interrupt(bits),
        r matches Some(t) ==> t.is_interrupt(),
{
    if test_any_bit(bits, IP_MEIP) {
        Some(TrapType::MachineExternalInterrupt)
    } else if test_any_bit(bits, IP_MSIP) {
        Some(TrapType::MachineSoftwareInterrupt)
    } else if test_any_bit(bits, IP_MTIP) {
        Some(TrapType::MachineTimerInterrupt)
    } else if test_any_bit(bits, IP_SEIP) {
        Some(TrapType::SupervisorExternalInterrupt)
    } else if test_any_bit(bits, IP_SSIP) {
        Some(TrapType::SupervisorSoftwareInterrupt)
    } else if test_any_bit(bits, IP_STIP) {
        Some(TrapType::SupervisorTimerInterrupt)
    } else {
        None
    }
}

/// Whether interrupts that target Machine mode are enabled at `privi`:
/// always below Machine, and in Machine mode when `mstatus.MIE` is set.
pub open spec fn machine_interrupts_enabled(mstatus: u64, privi: PrivilegeLevels) -> bool {
    privi.level() < 3 || any_bit(mstatus, MSTATUS_MIE)
}

/// Whether interrupts that target Supervisor mode are enabled at `privi`:
/// always in User mode, in Supervisor mode when `mstatus.SIE` is set, and
/// never in Machine mode.
pub open spec fn supervisor_interrupts_enabled(mstatus: u64, privi: PrivilegeLevels) -> bool {
    privi.level() < 1 || (privi.level() == 1 && any_bit(mstatus, MSTATUS_SIE))
}

/// The interrupt that the hart takes next, with the mode that takes it.
/// The deliverable set is `mip & mie`; `mideleg` splits it into the part
/// for Supervisor and the part for Machine, and Machine wins.
pub open spec fn select_interrupt(csr: CsrRegs, privi: PrivilegeLevels) -> Option<
    (TrapType, PrivilegeLevels),
> {
    let deliverable = csr.pending() & csr.mie;
    let to_machine = priority_interrupt(deliverable & !csr.mideleg);
    let to_supervisor = priority_interrupt(deliverable & csr.mideleg);
    if machine_interrupts_enabled(csr.mstatus, privi) && to_machine is Some {
        Some((to_machine.unwrap(), PrivilegeLevels::Machine))
    } else if supervisor_interrupts_enabled(csr.mstatus, privi) && to_supervisor is Some {
        Some((to_supervisor.unwrap(), PrivilegeLevels::Supervisor))
    } else {
        None
    }
}

pub fn find_interrupt(csr: &CsrRegs, privi: PrivilegeLevels) -> (r: Option<
    (TrapType, PrivilegeLevels),
>)
    ensures
        r == select_interrupt(*csr, privi),
        r matches Some(found) ==> found.0.is_interrupt(),
{
    let deliverable: u64 = csr.pending_interrupts() & csr.mie;
    let level: u64 = privi.to_bits();
    let machine_on: bool = level < 3 || test_any_bit(csr.mstatus, MSTATUS_MIE);
    let supervisor_on: bool = level < 1 || (level == 1 && test_any_bit(csr.mstatus, MSTATUS_SIE));
    if machine_on {
        if let Some(t) = get_priority_interrupt(deliverable & !csr.mideleg) {
            return Some((t, PrivilegeLevels::Machine));
        }
    }
    if supervisor_on {
        if let Some(t) = get_priority_interrupt(deliverable & csr.mideleg) {
            return Some((t, PrivilegeLevels::Supervisor));
        }
    }
    None
}

/// The pending bit of an interrupt, and zero for an exception.
pub open spec fn interrupt_bit(trap: TrapType) -> u64 {
    match trap {
        TrapType::MachineExternalInterrupt => IP_MEIP,
        TrapType::MachineSoftwareInterrupt => IP_MSIP,
        TrapType::MachineTimerInterrupt => IP_MTIP,
        TrapType::SupervisorExternalInterrupt => IP_SEIP,
        TrapType::SupervisorSoftwareInterrupt => IP_SSIP,
        TrapType::SupervisorTimerInterrupt => IP_STIP,
        _ => 0,
    }
}

/// The interrupt that is selected is pending and enabled in `mie`; it
/// goes to Machine mode exactly when `mideleg` does not delegate it; the
/// mode that it goes to has its interrupts enabled; and an interrupt for
/// Supervisor mode is selected only when none for Machine mode can be
/// taken.
pub proof fn lemma_selected_interrupt_is_due(csr: CsrRegs, privi: PrivilegeLevels)
    ensures
        select_interrupt(csr, privi) matches Some(due) ==> {
            &&& due.0.is_interrupt()
            &&& due.1 != PrivilegeLevels::User
            &&& due.1 == PrivilegeLevels::Machine ==> {
                &&& any_bit((csr.pending() & csr.mie) & !csr.mideleg, interrupt_bit(due.0))
                &&& machine_interrupts_enabled(csr.mstatus, privi)
            }
            &&& due.1 == PrivilegeLevels::Supervisor ==> {
                &&& any_bit((csr.pending() & csr.mie) & csr.mideleg, interrupt_bit(due.0))
                &&& supervisor_interrupts_enabled(csr.mstatus, privi)
                &&& privi != PrivilegeLevels::Machine
                &&& !(machine_interrupts_enabled(csr.mstatus, privi) && priority_interrupt(
                    (csr.pending() & csr.mie) & !csr.mideleg,
                ) is Some)
            }
        },
        select_interrupt(csr, privi) is None ==> {
            &&& machine_interrupts_enabled(csr.mstatus, privi) ==> priority_interrupt(
                (csr.pending() & csr.mie) & !csr.mideleg,
            ) is None
            &&& supervisor_interrupts_enabled(csr.mstatus, privi) ==> priority_interrupt(
                (csr.pending() & csr.mie) & csr.mideleg,
            ) is None
        },
{
}

/// What the selection of the machine timer interrupt rests on, bit by
/// bit.
proof fn lemma_timer_bit(mip: u64, hw_ip: u64, mie: u64, mideleg: u64)
    by (bit_vector)
    ensures
        any_bit(((mip | hw_ip) & mie) & !mideleg, IP_MTIP) == (any_bit(mip | hw_ip, IP_MTIP)
            && any_bit(mie, IP_MTIP) && !any_bit(mideleg, IP_MTIP)),
        any_bit(((mip | hw_ip) & mie) & mideleg, IP_MTIP) == (any_bit(mip | hw_ip, IP_MTIP)
            && any_bit(mie, IP_MTIP) && any_bit(mideleg, IP_MTIP)),
        mip & !SOFTWARE_PENDING == 0 ==> any_bit(mip | hw_ip, IP_MTIP) == any_bit(
            hw_ip,
            IP_MTIP,
        ),
{
}

/// The machine timer interrupt is selected only while the platform
/// asserts MTIP and `mie` enables it, given that software has not set
/// MTIP in the raw `mip`, which no instruction can.
pub proof fn lemma_timer_interrupt_needs_the_line(csr: CsrRegs, privi: PrivilegeLevels)
    requires
        csr.mip & !SOFTWARE_PENDING == 0,
        select_interrupt(csr, privi) matches Some(due) && due.0
            == TrapType::MachineTimerInterrupt,
    ensures
        any_bit(csr.hw_ip, IP_MTIP),
        any_bit(csr.mie, IP_MTIP),
{
    lemma_selected_interrupt_is_due(csr, privi);
    lemma_timer_bit(csr.mip, csr.hw_ip, csr.mie, csr.mideleg);
}

/// The machine timer interrupt is selected, for Machine mode, once the
/// platform asserts MTIP, `mie` enables it, `mideleg` does not delegate
/// it, machine interrupts are enabled, and neither the machine external
/// nor the machine software interrupt can be taken instead.
pub proof fn lemma_timer_interrupt_is_selected(csr: CsrRegs, privi: PrivilegeLevels)
    requires
        any_bit(csr.hw_ip, IP_MTIP),
        any_bit(csr.mie, IP_MTIP),
        !any_bit(csr.mideleg, IP_MTIP),
        csr.mip & !SOFTWARE_PENDING == 0,
        machine_interrupts_enabled(csr.mstatus, privi),
        !any_bit((csr.pending() & csr.mie) & !csr.mideleg, IP_MEIP),
        !any_bit((csr.pending() & csr.mie) & !csr.mideleg, IP_MSIP),
    ensures
        select_interrupt(csr, privi) == Some(
            (TrapType::MachineTimerInterrupt, PrivilegeLevels::Machine),
        ),
{
    lemma_timer_bit(csr.mip, csr.hw_ip, csr.mie, csr.mideleg);
}

/// The privilege level that MRET returns to: the MPP field.
pub open spec fn mret_level(mstatus: u64) -> u64 {
    (mstatus & MSTATUS_MPP) >> MSTATUS_MPP_SHIFT
}

/// `mstatus` after MRET: MIE takes MPIE, MPIE is set, MPP falls to User.
pub open spec fn mret_status(mstatus: u64) -> u64 {
    let m1 = with_bits(mstatus, MSTATUS_MIE, any_bit(mstatus, MSTATUS_MPIE));
    let m2 = with_bits(m1, MSTATUS_MPIE, true);
    m2 & !MSTATUS_MPP
}

/// The privilege level that SRET returns to: the SPP bit.
pub open spec fn sret_level(mstatus: u64) -> u64 {
    if any_bit(mstatus, MSTATUS_SPP) {
        1
    } else {
        0
    }
}

/// `mstatus` after SRET: SIE takes SPIE, SPIE is set, SPP falls to User,
/// and MPRV is cleared, since SRET never returns to Machine mode.
pub open spec fn sret_status(mstatus: u64) -> u64 {
    let m1 = with_bits(mstatus, MSTATUS_SIE, any_bit(mstatus, MSTATUS_SPIE));
    let m2 = with_bits(m1, MSTATUS_SPIE, true);
    let m3 = with_bits(m2, MSTATUS_SPP, false);
    with_bits(m3, MSTATUS_MPRV, false)
}

/// Returns from a Machine-mode trap handler: gives the mode and the pc to
/// resume at.
pub fn machine_return(csr: &mut CsrRegs) -> (r: (PrivilegeLevels, u64))
    ensures
        *final(csr) == (CsrRegs { mstatus: mret_status(old(csr).mstatus), ..*old(csr) }),
        r.0 == PrivilegeLevels::from_level(mret_level(old(csr).mstatus)),
        r.1 == old(csr).mepc,
{
    let mstatus: u64 = csr.mstatus;
    let level: u64 = (mstatus & MSTATUS_MPP) >> MSTATUS_MPP_SHIFT;
    let m1: u64 = set_bits(mstatus, MSTATUS_MIE, test_any_bit(mstatus, MSTATUS_MPIE));
    let m2: u64 = set_bits(m1, MSTATUS_MPIE, true);
    csr.mstatus = m2 & !MSTATUS_MPP;
    (PrivilegeLevels::from_bits(level), csr.mepc)
}

/// Returns from a Supervisor-mode trap handler: gives the mode and the pc
/// to resume at.
pub fn supervisor_return(csr: &mut CsrRegs) -> (r: (PrivilegeLevels, u64))
    ensures
        *final(csr) == (CsrRegs { mstatus: sret_status(old(csr).mstatus), ..*old(csr) }),
        r.0 == PrivilegeLevels::from_level(sret_level(old(csr).mstatus)),
        r.1 == old(csr).sepc,
{
    let mstatus: u64 = csr.mstatus;
    let level: u64 = if test_any_bit(mstatus, MSTATUS_SPP) {
        1
    } else {
        0
    };
    let m1: u64 = set_bits(mstatus, MSTATUS_SIE, test_any_bit(mstatus, MSTATUS_SPIE));
    let m2: u64 = set_bits(m1, MSTATUS_SPIE, true);
    let m3: u64 = set_bits(m2, MSTATUS_SPP, false);
    csr.mstatus = set_bits(m3, MSTATUS_MPRV, false);
    (PrivilegeLevels::from_bits(level), csr.sepc)
}

/// After a trap into Machine mode, `mstatus.MIE` is clear, and MRET brings
/// back both the privilege level and the MIE bit that held before the trap.
pub proof fn lemma_machine_trap_round_trip(mstatus: u64, level: u64)
    by (bit_vector)
    requires
        level == 0 || level == 1 || level == 3,
    ensures
        !any_bit(machine_entry_status(mstatus, level), MSTATUS_MIE),
        mret_level(machine_entry_status(mstatus, level)) == level,
        any_bit(mret_status(machine_entry_status(mstatus, level)), MSTATUS_MIE) == any_bit(
            mstatus,
            MSTATUS_MIE,
        ),
        any_bit(mret_status(machine_entry_status(mstatus, level)), MSTATUS_MPIE),
        mret_level(mret_status(machine_entry_status(mstatus, level))) == 0,
{
}

/// After a trap into Supervisor mode, `mstatus.SIE` is clear, and SRET
/// brings back both the privilege level and the SIE bit that held before
/// the trap.
pub proof fn lemma_supervisor_trap_round_trip(mstatus: u64, level: u64)
    by (bit_vector)
    requires
        level == 0 || level == 1,
    ensures
        !any_bit(supervisor_entry_status(mstatus, level), MSTATUS_SIE),
        sret_level(supervisor_entry_status(mstatus, level)) == level,
        any_bit(sret_status(supervisor_entry_status(mstatus, level)), MSTATUS_SIE) == any_bit(
            mstatus,
            MSTATUS_SIE,
        ),
        any_bit(sret_status(supervisor_entry_status(mstatus, level)), MSTATUS_SPIE),
        !any_bit(sret_status(supervisor_entry_status(mstatus, level)), MSTATUS_SPP),
        !any_bit(sret_status(supervisor_entry_status(mstatus, level)), MSTATUS_MPRV),
{
}

/// Trap entry and the returns from a trap handler change only bits of
/// `mstatus` that the hart implements as writable.
pub proof fn lemma_status_changes_stay_in_mask(mstatus: u64, level: u64)
    by (bit_vector)
    requires
        level <= 3,
    ensures
        machine_entry_status(mstatus, level) & !MSTATUS_WRITE_MASK == mstatus
            & !MSTATUS_WRITE_MASK,
        supervisor_entry_status(mstatus, level) & !MSTATUS_WRITE_MASK == mstatus
            & !MSTATUS_WRITE_MASK,
        mret_status(mstatus) & !MSTATUS_WRITE_MASK == mstatus & !MSTATUS_WRITE_MASK,
        sret_status(mstatus) & !MSTATUS_WRITE_MASK == mstatus & !MSTATUS_WRITE_MASK,
{
}

} // verus!
