use crate::bits::{any_bit, from_int, pow2_64};
use crate::bus::{lemma_lines_wiring, lemma_store_to_uart, BusTarget, BusView, DeviceKind};
use crate::cache_system::MemView;
use crate::cpu_core::{
    counted, cycle_spec, execute_spec, executed, fetch_spec, run_spec, CpuState, HartView,
};
use crate::csr_regs::{
    csr_access_ok, csr_slot, csr_view_mask, fixed_bits_kept, lemma_raw_after_with_raw,
    lemma_reset_keeps_fixed_bits, lemma_satp_mode_restricted, lemma_write_keeps_fixed_bits,
    satp_mode, slot_write_mask, warl_kept, CsrSlot,
};
use crate::csr_regs_define::{
    CSR_MEPC, CSR_SATP, CSR_SEPC, EPC_WRITE_MASK, IP_MTIP, MASK_ALL, MSTATUS_MIE, MSTATUS_MPIE,
    MSTATUS_MPRV, MSTATUS_SIE, MSTATUS_SPIE, MSTATUS_SPP, SATP_MODE_BARE, SATP_MODE_SV39,
    SOFTWARE_PENDING,
};
use crate::gpr::gpr_wf;
use crate::inst_base::{fields_of, AccessType, CsrOp, Fields, InstKind};
use crate::inst_decode::decode;
use crate::inst_rv64a::{amo_spec, atomic_address, lr_spec, sc_spec, unreserved};
use crate::inst_rv64i::{load_extend_spec, load_spec, store_spec};
use crate::inst_rv64z::{csr_new_value, csr_spec, csr_writes, mret_spec, sret_spec};
use crate::mmu::{mmu_read, pte_is_pointer, pte_malformed, pte_ppn, vpn, walk, MmuEnv};
use crate::privilege::PrivilegeLevels;
use crate::reservation::same_line;
use crate::trap::{
    exception_target, lemma_machine_trap_round_trip, lemma_status_changes_stay_in_mask,
    lemma_supervisor_trap_round_trip, lemma_timer_interrupt_needs_the_line, select_interrupt,
};
use crate::traptype::{TrapType, CAUSE_INTERRUPT};
use vstd::prelude::*;

verus! {

/// Whether an instruction of this kind can set the pc of the next
/// instruction: jumps, branches and the returns from a trap handler.
pub open spec fn redirects(kind: InstKind) -> bool {
    kind is Jal || kind is Jalr || kind is Branch || kind is Mret || kind is Sret
}

/// Register `x0` is zero after every instruction, whether it succeeds or
/// traps.
#[verifier::rlimit(50)]
pub proof fn lemma_x0_stays_zero(s: HartView, kind: InstKind, inst: u32)
    requires
        gpr_wf(s.gpr),
    ensures
        gpr_wf(execute_spec(s, kind, inst).1.gpr),
        execute_spec(s, kind, inst).1.reg(0) == 0,
{
    reveal(execute_spec);
    let after = execute_spec(s, kind, inst).1;
    match kind {
        InstKind::Load(_, _) | InstKind::Store(_) => {
            assert(gpr_wf(after.gpr));
        },
        InstKind::Lr(_) | InstKind::Sc(_) | InstKind::Amo(_, _) => {
            assert(gpr_wf(after.gpr));
        },
        InstKind::Csr(_, _) => {
            assert(gpr_wf(after.gpr));
        },
        InstKind::Jal | InstKind::Jalr | InstKind::Branch(_) => {
            assert(gpr_wf(after.gpr));
        },
        InstKind::Mret | InstKind::Sret => {
            assert(gpr_wf(after.gpr));
        },
        _ => {
            assert(gpr_wf(after.gpr));
        },
    }
}

/// A load, a store or an atomic instruction that traps changes nothing but
/// the memory side.
#[verifier::rlimit(50)]
proof fn lemma_memory_trap_commits_nothing(s: HartView, kind: InstKind, f: Fields)
    ensures
        ({
            let done = match kind {
                InstKind::Load(width, signed) => load_spec(s, f, width, signed),
                InstKind::Store(width) => store_spec(s, f, width),
                InstKind::Lr(width) => lr_spec(s, f, width),
                InstKind::Sc(width) => sc_spec(s, f, width),
                InstKind::Amo(op, width) => amo_spec(s, op, f, width),
                _ => (Ok(()), s),
            };
            done.0 is Err ==> done.1 == s.with_mem(done.1.mem)
        }),
{
}

/// An instruction that traps commits nothing: the registers, the pcs, the
/// privilege mode and the run state are as they were. Only the memory
/// side can differ, by what the accesses of the instruction did to the
/// caches, to the interrupt controller and to the reservation.
#[verifier::rlimit(50)]
pub proof fn lemma_trap_commits_nothing(s: HartView, kind: InstKind, inst: u32)
    requires
        execute_spec(s, kind, inst).0 is Err,
    ensures
        execute_spec(s, kind, inst).1 == s.with_mem(execute_spec(s, kind, inst).1.mem),
{
    reveal(execute_spec);
    let after = execute_spec(s, kind, inst).1;
    let f = fields_of(inst);
    match kind {
        InstKind::Load(_, _) | InstKind::Store(_) | InstKind::Lr(_) | InstKind::Sc(_)
        | InstKind::Amo(_, _) => {
            lemma_memory_trap_commits_nothing(s, kind, f);
        },
        InstKind::Csr(op, imm) => {
            assert(csr_spec(s, op, imm, f, inst).1 == s);
        },
        InstKind::Jal | InstKind::Jalr | InstKind::Branch(_) => {
            assert(after == s);
        },
        InstKind::Mret | InstKind::Sret | InstKind::SfenceVma | InstKind::Ecall => {
            assert(after == s);
        },
        _ => {},
    }
}

/// The fetch sets `npc` to the address that follows the instruction, and
/// an instruction that is no jump, branch or return leaves it there.
#[verifier::rlimit(50)]
pub proof fn lemma_sequential_npc(s: HartView, kind: InstKind, inst: u32)
    requires
        !redirects(kind),
    ensures
        fetch_spec(s).1.pc == s.npc,
        fetch_spec(s).1.npc == vstd::wrapping::u64_specs::wrapping_add(s.npc, 4),
        execute_spec(s, kind, inst).1.npc == s.npc,
{
    reveal(execute_spec);
    let after = execute_spec(s, kind, inst).1;
    match kind {
        InstKind::Load(_, _) | InstKind::Store(_) => {
            assert(after.npc == s.npc);
        },
        InstKind::Lr(_) | InstKind::Sc(_) | InstKind::Amo(_, _) => {
            assert(after.npc == s.npc);
        },
        InstKind::Csr(_, _) => {
            assert(after.npc == s.npc);
        },
        _ => {
            assert(after.npc == s.npc);
        },
    }
}

/// An exception saves the pc of its instruction, and that pc is four-byte
/// aligned unless the exception is a misalignment fault: an instruction
/// at a pc that is not aligned is never fetched.
pub proof fn lemma_unaligned_exception_is_misalignment(s: HartView)
    ensures
        executed(s).1.pc == s.npc,
        executed(s).0 matches Err(trap) ==> {
            &&& cycle_spec(s).privi == PrivilegeLevels::Machine ==> cycle_spec(s).csr.mepc
                == s.npc
            &&& cycle_spec(s).privi == PrivilegeLevels::Supervisor ==> cycle_spec(s).csr.sepc
                == s.npc
            &&& s.npc % 4 != 0 ==> trap.is_misaligned()
        },
{
    reveal(executed);
    reveal(cycle_spec);
    let fetched = fetch_spec(s);
    assert(fetched.1.pc == s.npc);
    match fetched.0 {
        Ok(word) => {
            let inst = (word % 0x1_0000_0000) as u32;
            match decode(inst) {
                Some(kind) => {
                    lemma_sequential_pc(fetched.1, kind, inst);
                },
                None => {},
            }
        },
        Err(_) => {},
    }
}

/// A cycle whose instruction traps delivers the trap, counts the cycle,
/// and does nothing more: it takes no interrupt and the platform does not
/// advance.
pub proof fn lemma_trap_ends_the_cycle(s: HartView)
    ensures
        executed(s).0 matches Err(trap) ==> cycle_spec(s) == counted(
            executed(s).1.after_exception(trap),
            false,
        ),
{
    reveal(cycle_spec);
}

/// A cycle counts as one cycle, and as one instruction exactly when its
/// instruction succeeds.
pub proof fn lemma_cycle_counts(s: HartView)
    ensures
        cycle_spec(s).csr.mcycle == vstd::wrapping::u64_specs::wrapping_add(
            executed(s).1.csr.mcycle,
            1,
        ),
        cycle_spec(s).csr.minstret == if executed(s).0 is Ok {
            vstd::wrapping::u64_specs::wrapping_add(executed(s).1.csr.minstret, 1)
        } else {
            executed(s).1.csr.minstret
        },
{
    reveal(cycle_spec);
}

/// What holds after every trap: the mode that takes the trap has the
/// saved pc in its `epc`, the trap value in its `tval`, and in its
/// `cause` the number of the trap with the top bit set exactly for an
/// interrupt; its interrupt enable is clear; the hart is in that mode,
/// fetches next from a four-byte aligned address, and holds no
/// reservation.
pub proof fn lemma_trap_entry(s: HartView, trap: TrapType, target: PrivilegeLevels, epc: u64)
    requires
        target != PrivilegeLevels::User,
    ensures
        ({
            let t = s.trapped(trap, target, epc);
            &&& t.privi == target
            &&& t.npc % 4 == 0
            &&& t.mem.bus.reservation is None
            &&& target == PrivilegeLevels::Machine ==> {
                &&& t.csr.mepc == epc
                &&& t.csr.mtval == trap.tval()
                &&& t.csr.mcause % CAUSE_INTERRUPT == trap.number()
                &&& (t.csr.mcause >= CAUSE_INTERRUPT <==> trap.is_interrupt())
                &&& !any_bit(t.csr.mstatus, MSTATUS_MIE)
            }
            &&& target == PrivilegeLevels::Supervisor ==> {
                &&& t.csr.sepc == epc
                &&& t.csr.stval == trap.tval()
                &&& t.csr.scause % CAUSE_INTERRUPT == trap.number()
                &&& (t.csr.scause >= CAUSE_INTERRUPT <==> trap.is_interrupt())
                &&& s.privi != PrivilegeLevels::Machine ==> !any_bit(t.csr.mstatus, MSTATUS_SIE)
            }
        }),
{
    lemma_machine_trap_round_trip(s.csr.mstatus, s.privi.level());
    if s.privi != PrivilegeLevels::Machine {
        lemma_supervisor_trap_round_trip(s.csr.mstatus, s.privi.level());
    }
}

/// MRET after a trap into Machine mode brings back the privilege mode
/// and the `MIE` bit that the hart had before the trap, and resumes at
/// the saved pc. It leaves `MPIE` set.
pub proof fn lemma_mret_undoes_machine_trap(s: HartView, trap: TrapType, epc: u64, inst: u32)
    ensures
        ({
            let back = mret_spec(s.trapped(trap, PrivilegeLevels::Machine, epc), inst);
            &&& back.0 is Ok
            &&& back.1.privi == s.privi
            &&& any_bit(back.1.csr.mstatus, MSTATUS_MIE) == any_bit(s.csr.mstatus, MSTATUS_MIE)
            &&& any_bit(back.1.csr.mstatus, MSTATUS_MPIE)
            &&& back.1.npc == epc
        }),
{
    lemma_machine_trap_round_trip(s.csr.mstatus, s.privi.level());
}

/// SRET after a trap into Supervisor mode, which can only come from User
/// or Supervisor mode, brings back the privilege mode and the `SIE` bit
/// that the hart had before the trap, and resumes at the saved pc. It
/// leaves `SPIE` set, and `SPP` and `MPRV` clear.
pub proof fn lemma_sret_undoes_supervisor_trap(s: HartView, trap: TrapType, epc: u64, inst: u32)
    requires
        s.privi != PrivilegeLevels::Machine,
    ensures
        ({
            let back = sret_spec(s.trapped(trap, PrivilegeLevels::Supervisor, epc), inst);
            &&& back.0 is Ok
            &&& back.1.privi == s.privi
            &&& any_bit(back.1.csr.mstatus, MSTATUS_SIE) == any_bit(s.csr.mstatus, MSTATUS_SIE)
            &&& any_bit(back.1.csr.mstatus, MSTATUS_SPIE)
            &&& !any_bit(back.1.csr.mstatus, MSTATUS_SPP)
            &&& !any_bit(back.1.csr.mstatus, MSTATUS_MPRV)
            &&& back.1.npc == epc
        }),
{
    lemma_supervisor_trap_round_trip(s.csr.mstatus, s.privi.level());
}

/// A page walk leaves the reservation alone.
pub proof fn lemma_walk_keeps_reservation(
    bus: BusView,
    va: u64,
    access: AccessType,
    privi: PrivilegeLevels,
    mstatus: u64,
    level: int,
    table: u64,
)
    ensures
        walk(bus, va, access, privi, mstatus, level, table).1.reservation == bus.reservation,
    decreases level,
{
    let entry = (table + vpn(va, level) * 8) as u64;
    if bus.read(entry, 8) is Some && level > 0 {
        match crate::mmu::walk_step(bus.read(entry, 8).unwrap(), level, va, access, privi, mstatus) {
            crate::mmu::WalkStep::Descend(next) => {
                lemma_walk_keeps_reservation(
                    bus.after_read(entry, 8),
                    va,
                    access,
                    privi,
                    mstatus,
                    level - 1,
                    next,
                );
            },
            _ => {},
        }
    }
}

/// A page walk adds no device to the bus, removes none and moves none: what
/// the bus serves after the walk is what it served before.
pub proof fn lemma_walk_keeps_devices(
    bus: BusView,
    va: u64,
    access: AccessType,
    privi: PrivilegeLevels,
    mstatus: u64,
    level: int,
    table: u64,
)
    ensures
        walk(bus, va, access, privi, mstatus, level, table).1.devices == bus.devices,
        forall|pa: u64, len: u64|
            walk(bus, va, access, privi, mstatus, level, table).1.write_ok(pa, len)
                == bus.write_ok(pa, len),
    decreases level,
{
    let entry = (table + vpn(va, level) * 8) as u64;
    if bus.read(entry, 8) is Some && level > 0 {
        match crate::mmu::walk_step(bus.read(entry, 8).unwrap(), level, va, access, privi, mstatus) {
            crate::mmu::WalkStep::Descend(next) => {
                lemma_walk_keeps_devices(
                    bus.after_read(entry, 8),
                    va,
                    access,
                    privi,
                    mstatus,
                    level - 1,
                    next,
                );
            },
            _ => {},
        }
    }
}

/// A successful load-reserved leaves its physical address reserved, and
/// in its destination what memory holds there, sign-extended.
pub proof fn lemma_lr_reserves(s: HartView, f: Fields, width: u64)
    requires
        gpr_wf(s.gpr),
        lr_spec(s, f, width).0 is Ok,
    ensures
        atomic_address(s, AccessType::Load, s.reg(f.rs1), width).0 is Ok,
        lr_spec(s, f, width).1.mem.bus.reservation == Some(
            atomic_address(s, AccessType::Load, s.reg(f.rs1), width).0.unwrap(),
        ),
        ({
            let at = atomic_address(s, AccessType::Load, s.reg(f.rs1), width);
            &&& at.1.read(at.0.unwrap(), width) is Some
            &&& 0 < f.rd < 32 ==> lr_spec(s, f, width).1.reg(f.rd) == load_extend_spec(
                at.1.read(at.0.unwrap(), width).unwrap(),
                width,
                true,
            )
        }),
{
}

/// A store-conditional whose physical address is reserved, and which the
/// bus serves, succeeds: it stores `rs2`, writes 0 to `rd`, and gives up
/// the reservation. Together with `lemma_lr_reserves` and
/// `lemma_walk_keeps_reservation`: a store-conditional that follows a
/// load-reserved of the same physical address succeeds.
#[verifier::rlimit(50)]
pub proof fn lemma_sc_succeeds_when_reserved(s: HartView, f: Fields, width: u64)
    requires
        gpr_wf(s.gpr),
        atomic_address(s, AccessType::Store, s.reg(f.rs1), width).0 is Ok,
        s.mem.bus.reservation == Some(
            atomic_address(s, AccessType::Store, s.reg(f.rs1), width).0.unwrap(),
        ),
        atomic_address(s, AccessType::Store, s.reg(f.rs1), width).1.write_ok(
            atomic_address(s, AccessType::Store, s.reg(f.rs1), width).0.unwrap(),
            width,
        ),
    ensures
        ({
            let at = atomic_address(s, AccessType::Store, s.reg(f.rs1), width);
            let pa = at.0.unwrap();
            let done = sc_spec(s, f, width);
            &&& done.0 is Ok
            &&& done.1.reg(f.rd) == 0
            &&& done.1.mem == unreserved(at.1).after_write(pa, s.reg(f.rs2), width)
            &&& done.1.mem.bus.reservation is None
        }),
{
    let va = s.reg(f.rs1);
    if !(width != 0 && va % width != 0) {
        let env = s.env();
        if crate::mmu::translation_on(env, AccessType::Store) {
            lemma_walk_keeps_reservation(
                s.mem.bus,
                va,
                AccessType::Store,
                crate::mmu::effective_privilege(env, AccessType::Store),
                env.mstatus,
                2,
                crate::mmu::satp_root(env.satp),
            );
        }
    }
}

/// A store-conditional that follows a load-reserved succeeds, if nothing
/// came between them and both name the same physical address: it stores
/// its source, writes 0 to its destination and gives up the reservation.
/// Here `s` is the hart before the load-reserved `lr`, and `sc` is the
/// store-conditional; that its address translates, for a store, to the
/// address that was reserved is the hypothesis that both name the same
/// address and that the store-conditional does not trap.
#[verifier::rlimit(50)]
pub proof fn lemma_lr_then_sc(s: HartView, lr: Fields, sc: Fields, width: u64)
    requires
        gpr_wf(s.gpr),
        width == 4 || width == 8,
        lr_spec(s, lr, width).0 is Ok,
        atomic_address(
            lr_spec(s, lr, width).1,
            AccessType::Store,
            lr_spec(s, lr, width).1.reg(sc.rs1),
            width,
        ).0 == atomic_address(s, AccessType::Load, s.reg(lr.rs1), width).0,
    ensures
        ({
            let after_lr = lr_spec(s, lr, width).1;
            let done = sc_spec(after_lr, sc, width);
            &&& done.0 is Ok
            &&& done.1.reg(sc.rd) == 0
            &&& done.1.mem.bus.reservation is None
            &&& done.1.mem == unreserved(
                atomic_address(after_lr, AccessType::Store, after_lr.reg(sc.rs1), width).1,
            ).after_write(
                atomic_address(s, AccessType::Load, s.reg(lr.rs1), width).0.unwrap(),
                after_lr.reg(sc.rs2),
                width,
            )
        }),
{
    let va = s.reg(lr.rs1);
    let at = atomic_address(s, AccessType::Load, va, width);
    let pa = at.0.unwrap();
    let after_lr = lr_spec(s, lr, width).1;
    assert(at.1.read(pa, width) is Some);
    assert(after_lr.mem.bus.reservation == Some(pa));
    assert(after_lr.mem.bus.devices == at.1.bus.devices);
    assert(after_lr.mem.bus.write_ok(pa, width));
    assert(gpr_wf(after_lr.gpr));
    let sc_va = after_lr.reg(sc.rs1);
    let env = after_lr.env();
    if crate::mmu::translation_on(env, AccessType::Store) {
        lemma_walk_keeps_devices(
            after_lr.mem.bus,
            sc_va,
            AccessType::Store,
            crate::mmu::effective_privilege(env, AccessType::Store),
            env.mstatus,
            2,
            crate::mmu::satp_root(env.satp),
        );
    }
    lemma_sc_succeeds_when_reserved(after_lr, sc, width);
}

/// A store-conditional whose physical address is not reserved fails: it
/// stores nothing and writes 1 to `rd`. That is the case after any trap,
/// which leaves no reservation, and after a store to the reserved line.
#[verifier::rlimit(50)]
pub proof fn lemma_sc_fails_when_not_reserved(s: HartView, f: Fields, width: u64)
    requires
        gpr_wf(s.gpr),
        f.rd != 0,
        f.rd < 32,
        atomic_address(s, AccessType::Store, s.reg(f.rs1), width).0 is Ok,
        s.mem.bus.reservation != Some(
            atomic_address(s, AccessType::Store, s.reg(f.rs1), width).0.unwrap(),
        ),
    ensures
        ({
            let at = atomic_address(s, AccessType::Store, s.reg(f.rs1), width);
            let done = sc_spec(s, f, width);
            &&& done.0 is Ok
            &&& done.1.reg(f.rd) == 1
            &&& done.1.mem == unreserved(at.1)
        }),
{
    let va = s.reg(f.rs1);
    if !(width != 0 && va % width != 0) {
        let env = s.env();
        if crate::mmu::translation_on(env, AccessType::Store) {
            lemma_walk_keeps_reservation(
                s.mem.bus,
                va,
                AccessType::Store,
                crate::mmu::effective_privilege(env, AccessType::Store),
                env.mstatus,
                2,
                crate::mmu::satp_root(env.satp),
            );
        }
    }
}

/// A store that the bus serves gives up a reservation on the line that
/// it goes to, and leaves one on another line alone.
pub proof fn lemma_store_and_reservation(bus: BusView, reserved: u64, pa: u64, data: u64, len: u64)
    requires
        bus.reservation == Some(reserved),
        bus.write_ok(pa, len),
    ensures
        same_line(reserved, pa) ==> bus.after_write(pa, data, len).reservation is None,
        !same_line(reserved, pa) ==> bus.after_write(pa, data, len).reservation == Some(reserved),
{
}

/// In Sv39 a walk that finds, in a table of level 1, a leaf whose lowest
/// page-number part is not zero ends with a page fault.
pub proof fn lemma_misaligned_megapage_faults(
    bus: BusView,
    env: MmuEnv,
    va: u64,
    access: AccessType,
    table: u64,
    pte: u64,
)
    requires
        bus.read((table + vpn(va, 1) * 8) as u64, 8) == Some(pte),
        !pte_malformed(pte),
        !pte_is_pointer(pte),
        pte_ppn(pte) % 512 != 0,
    ensures
        walk(bus, va, access, env.privi, env.mstatus, 1, table).0 is None,
{
    crate::mmu::lemma_misaligned_superpage_faults(pte, va, access, env.privi, env.mstatus);
}

/// Whether the pcs that the hart may fetch from next are four-byte
/// aligned: `npc`, and the two saved pcs that a return from a trap
/// handler resumes at.
pub open spec fn pcs_aligned(s: HartView) -> bool {
    s.npc % 4 == 0 && s.csr.mepc % 4 == 0 && s.csr.sepc % 4 == 0
}

/// A write to an exception pc register leaves it four-byte aligned.
proof fn lemma_epc_write_aligned(pre: u64, val: u64)
    by (bit_vector)
    requires
        pre % 4 == 0,
    ensures
        ((pre & !(MASK_ALL & EPC_WRITE_MASK)) | (val & (MASK_ALL & EPC_WRITE_MASK))) % 4 == 0,
{
}

/// A CSR instruction keeps the saved pcs aligned: software cannot write
/// the two low bits of `mepc` and `sepc`.
#[verifier::rlimit(50)]
proof fn lemma_csr_keeps_alignment(s: HartView, op: CsrOp, imm: bool, f: Fields, inst: u32)
    requires
        pcs_aligned(s),
    ensures
        pcs_aligned(csr_spec(s, op, imm, f, inst).1),
{
    let after = csr_spec(s, op, imm, f, inst).1;
    assert(after.npc == s.npc);
    if csr_access_ok(f.csr, s.privi, csr_writes(op, f)) && csr_writes(op, f) {
        let src = if imm {
            f.rs1
        } else {
            s.reg(f.rs1)
        };
        let val = csr_new_value(op, s.csr.read_value(f.csr), src);
        let slot = csr_slot(f.csr).unwrap();
        lemma_epc_write_aligned(s.csr.mepc, val);
        lemma_epc_write_aligned(s.csr.sepc, val);
        if slot == CsrSlot::Mepc {
            assert(f.csr == CSR_MEPC);
            assert(after.csr.sepc == s.csr.sepc);
        } else if slot == CsrSlot::Sepc {
            assert(f.csr == CSR_SEPC);
            assert(after.csr.mepc == s.csr.mepc);
        } else {
            assert(after.csr.mepc == s.csr.mepc);
            assert(after.csr.sepc == s.csr.sepc);
        }
    }
}

/// An instruction that was fetched from an aligned pc keeps the pcs
/// aligned, whether it succeeds or traps: a jump or a branch to a
/// target that is not aligned is an exception of the jump.
#[verifier::rlimit(50)]
pub proof fn lemma_execute_keeps_alignment(s: HartView, kind: InstKind, inst: u32)
    requires
        pcs_aligned(s),
    ensures
        pcs_aligned(execute_spec(s, kind, inst).1),
{
    reveal(execute_spec);
    let after = execute_spec(s, kind, inst).1;
    match kind {
        InstKind::Csr(op, imm) => {
            lemma_csr_keeps_alignment(s, op, imm, fields_of(inst), inst);
        },
        InstKind::Load(_, _) | InstKind::Store(_) => {
            assert(after.npc == s.npc && after.csr == s.csr);
        },
        InstKind::Lr(_) | InstKind::Sc(_) | InstKind::Amo(_, _) => {
            assert(after.npc == s.npc && after.csr == s.csr);
        },
        InstKind::Jal | InstKind::Jalr | InstKind::Branch(_) => {
            assert(after.npc % 4 == 0 && after.csr == s.csr);
        },
        InstKind::Mret | InstKind::Sret => {
            assert(pcs_aligned(after));
        },
        _ => {
            assert(after.npc == s.npc && after.csr == s.csr);
        },
    }
}

/// The instruction of a cycle that starts with aligned pcs is fetched
/// from an aligned pc and keeps the pcs aligned.
#[verifier::rlimit(50)]
pub proof fn lemma_executed_keeps_alignment(s: HartView)
    requires
        pcs_aligned(s),
    ensures
        pcs_aligned(executed(s).1),
        executed(s).1.pc == s.npc,
{
    reveal(executed);
    let fetched = fetch_spec(s);
    assert(fetched.1.pc == s.npc);
    assert(pcs_aligned(fetched.1));
    match fetched.0 {
        Ok(word) => {
            let inst = (word % 0x1_0000_0000) as u32;
            match decode(inst) {
                Some(kind) => {
                    lemma_execute_keeps_alignment(fetched.1, kind, inst);
                    lemma_sequential_pc(fetched.1, kind, inst);
                },
                None => {},
            }
        },
        Err(_) => {},
    }
}

/// A cycle that starts with aligned pcs ends with aligned pcs. So, on a
/// hart that was started at an aligned pc, every trap saves an aligned
/// pc, whether it is an exception, which saves the pc of its
/// instruction, or an interrupt, which saves the pc of the next one.
#[verifier::rlimit(50)]
pub proof fn lemma_cycle_keeps_alignment(s: HartView)
    requires
        pcs_aligned(s),
    ensures
        pcs_aligned(cycle_spec(s)),
{
    reveal(cycle_spec);
    lemma_executed_keeps_alignment(s);
    let done = executed(s);
    match done.0 {
        Err(trap) => {
            lemma_trap_keeps_alignment(
                done.1,
                trap,
                exception_target(done.1.csr, done.1.privi, trap),
                done.1.pc,
            );
        },
        Ok(_) => {
            let sampled = counted(done.1, true).after_sampling();
            assert(pcs_aligned(sampled));
            match select_interrupt(sampled.csr, sampled.privi) {
                Some(due) => {
                    lemma_trap_keeps_alignment(sampled, due.0, due.1, sampled.npc);
                },
                None => {},
            }
        },
    }
}

/// No instruction changes the pc that it was fetched from.
#[verifier::rlimit(50)]
pub proof fn lemma_sequential_pc(s: HartView, kind: InstKind, inst: u32)
    ensures
        execute_spec(s, kind, inst).1.pc == s.pc,
{
    reveal(execute_spec);
    let after = execute_spec(s, kind, inst).1;
    match kind {
        InstKind::Load(_, _) | InstKind::Store(_) => {
            assert(after.pc == s.pc);
        },
        InstKind::Lr(_) | InstKind::Sc(_) | InstKind::Amo(_, _) => {
            assert(after.pc == s.pc);
        },
        InstKind::Csr(_, _) => {
            assert(after.pc == s.pc);
        },
        _ => {
            assert(after.pc == s.pc);
        },
    }
}

/// A trap that saves an aligned pc keeps the pcs aligned.
pub proof fn lemma_trap_keeps_alignment(
    s: HartView,
    trap: TrapType,
    target: PrivilegeLevels,
    epc: u64,
)
    requires
        pcs_aligned(s),
        epc % 4 == 0,
    ensures
        pcs_aligned(s.trapped(trap, target, epc)),
{
}

/// Whether the mode of `satp` is one that the hart supports.
pub open spec fn satp_ok(s: HartView) -> bool {
    satp_mode(s.csr.satp) == SATP_MODE_BARE || satp_mode(s.csr.satp) == SATP_MODE_SV39
}

/// What holds of the registers of a hart at every cycle: the pcs that it
/// may fetch from are aligned, every bit that is not implemented as
/// writable holds its reset value, and `satp` selects Bare or Sv39.
pub open spec fn registers_ok(s: HartView) -> bool {
    pcs_aligned(s) && warl_kept(s.csr) && satp_ok(s)
}

/// An aligned pc has its two low bits clear, and a register that is
/// writable in full has no fixed bit.
proof fn lemma_fixed_bits_of_written(epc: u64, any: u64)
    by (bit_vector)
    ensures
        epc % 4 == 0 ==> epc & !EPC_WRITE_MASK == 0,
        any & !MASK_ALL == 0,
        0u64 & !EPC_WRITE_MASK == 0,
        0u64 & !MASK_ALL == 0,
{
}

/// A trap that saves an aligned pc keeps the fixed bits and the mode of
/// `satp`.
#[verifier::rlimit(50)]
pub proof fn lemma_trap_keeps_registers_ok(
    s: HartView,
    trap: TrapType,
    target: PrivilegeLevels,
    epc: u64,
)
    requires
        registers_ok(s),
        epc % 4 == 0,
    ensures
        registers_ok(s.trapped(trap, target, epc)),
{
    let after = s.trapped(trap, target, epc);
    lemma_trap_keeps_alignment(s, trap, target, epc);
    lemma_status_changes_stay_in_mask(s.csr.mstatus, s.privi.level());
    lemma_fixed_bits_of_written(epc, trap.cause());
    lemma_fixed_bits_of_written(epc, trap.tval());
    assert forall|slot: CsrSlot| #[trigger] fixed_bits_kept(after.csr, slot) by {
        assert(fixed_bits_kept(s.csr, slot));
        assert(after.csr.mhartid == s.csr.mhartid);
        if slot != CsrSlot::Mstatus && slot != CsrSlot::Mepc && slot != CsrSlot::Sepc && slot
            != CsrSlot::Mcause && slot != CsrSlot::Scause && slot != CsrSlot::Mtval && slot
            != CsrSlot::Stval {
            assert(after.csr.raw(slot) == s.csr.raw(slot));
        } else {
            assert(fixed_bits_kept(s.csr, CsrSlot::Mstatus));
            assert(fixed_bits_kept(s.csr, CsrSlot::Mepc));
            assert(fixed_bits_kept(s.csr, CsrSlot::Sepc));
            assert(fixed_bits_kept(s.csr, CsrSlot::Mcause));
            assert(fixed_bits_kept(s.csr, CsrSlot::Scause));
            assert(fixed_bits_kept(s.csr, CsrSlot::Mtval));
            assert(fixed_bits_kept(s.csr, CsrSlot::Stval));
        }
    }
}

/// An instruction keeps the fixed bits and the mode of `satp`.
#[verifier::rlimit(50)]
pub proof fn lemma_execute_keeps_registers_ok(s: HartView, kind: InstKind, inst: u32)
    requires
        registers_ok(s),
    ensures
        registers_ok(execute_spec(s, kind, inst).1),
{
    reveal(execute_spec);
    let after = execute_spec(s, kind, inst).1;
    let f = fields_of(inst);
    lemma_execute_keeps_alignment(s, kind, inst);
    match kind {
        InstKind::Csr(op, imm) => {
            if csr_access_ok(f.csr, s.privi, csr_writes(op, f)) && csr_writes(op, f) {
                let src = if imm {
                    f.rs1
                } else {
                    s.reg(f.rs1)
                };
                let val = csr_new_value(op, s.csr.read_value(f.csr), src);
                lemma_write_keeps_fixed_bits(s.csr, f.csr, val);
                let slot = csr_slot(f.csr).unwrap();
                if slot == CsrSlot::Satp {
                    assert(f.csr == CSR_SATP);
                    lemma_satp_mode_restricted(s.csr, val);
                } else {
                    let mask = csr_view_mask(f.csr) & slot_write_mask(slot);
                    lemma_raw_after_with_raw(
                        s.csr,
                        slot,
                        (s.csr.raw(slot) & !mask) | (val & mask),
                        CsrSlot::Satp,
                    );
                }
            } else {
                assert(after.csr == s.csr);
            }
        },
        InstKind::Mret | InstKind::Sret => {
            lemma_status_changes_stay_in_mask(s.csr.mstatus, 0);
            assert forall|slot: CsrSlot| #[trigger] fixed_bits_kept(after.csr, slot) by {
                assert(fixed_bits_kept(s.csr, slot));
                assert(fixed_bits_kept(s.csr, CsrSlot::Mstatus));
                if slot != CsrSlot::Mstatus {
                    assert(after.csr.raw(slot) == s.csr.raw(slot));
                }
            }
        },
        InstKind::Load(_, _) | InstKind::Store(_) | InstKind::Lr(_) | InstKind::Sc(_)
        | InstKind::Amo(_, _) => {
            assert(after.csr == s.csr);
        },
        InstKind::Jal | InstKind::Jalr | InstKind::Branch(_) => {
            assert(after.csr == s.csr);
        },
        _ => {
            assert(after.csr == s.csr);
        },
    }
}

/// The instruction of a cycle keeps what holds of the registers.
pub proof fn lemma_executed_keeps_registers_ok(s: HartView)
    requires
        registers_ok(s),
    ensures
        registers_ok(executed(s).1),
        executed(s).1.pc == s.npc,
{
    reveal(executed);
    lemma_executed_keeps_alignment(s);
    let fetched = fetch_spec(s);
    assert(fetched.1.csr == s.csr);
    assert(fetched.1.pc == s.npc);
    assert(registers_ok(fetched.1));
    match fetched.0 {
        Ok(word) => {
            let inst = (word % 0x1_0000_0000) as u32;
            match decode(inst) {
                Some(kind) => {
                    lemma_execute_keeps_registers_ok(fetched.1, kind, inst);
                },
                None => {},
            }
        },
        Err(_) => {},
    }
}

/// What holds of the registers of a hart at reset, with an aligned boot
/// pc, holds after every cycle: the saved pcs stay aligned, a bit that is
/// not implemented as writable keeps its reset value whatever the guest
/// writes, and `satp` never selects a mode other than Bare and Sv39.
pub proof fn lemma_cycle_keeps_registers_ok(s: HartView)
    requires
        registers_ok(s),
    ensures
        registers_ok(cycle_spec(s)),
{
    reveal(cycle_spec);
    lemma_executed_keeps_registers_ok(s);
    lemma_cycle_keeps_alignment(s);
    let done = executed(s);
    match done.0 {
        Err(trap) => {
            let trapped = done.1.after_exception(trap);
            lemma_trap_keeps_registers_ok(
                done.1,
                trap,
                exception_target(done.1.csr, done.1.privi, trap),
                done.1.pc,
            );
            lemma_counting_keeps_fixed_bits(trapped, false);
        },
        Ok(_) => {
            let ticked = counted(done.1, true);
            lemma_counting_keeps_fixed_bits(done.1, true);
            let sampled = ticked.after_sampling();
            assert forall|slot: CsrSlot| #[trigger] fixed_bits_kept(sampled.csr, slot) by {
                assert(fixed_bits_kept(ticked.csr, slot));
                if slot != CsrSlot::Time {
                    assert(sampled.csr.raw(slot) == ticked.csr.raw(slot));
                }
            }
            assert(registers_ok(sampled));
            match select_interrupt(sampled.csr, sampled.privi) {
                Some(due) => {
                    lemma_trap_keeps_registers_ok(sampled, due.0, due.1, sampled.npc);
                },
                None => {},
            }
        },
    }
}

/// Counting a cycle keeps what holds of the registers: the counters are
/// writable in full.
proof fn lemma_counting_keeps_fixed_bits(s: HartView, retired: bool)
    requires
        registers_ok(s),
    ensures
        registers_ok(counted(s, retired)),
{
    let ticked = counted(s, retired);
    lemma_fixed_bits_of_written(0, ticked.csr.mcycle);
    lemma_fixed_bits_of_written(0, ticked.csr.minstret);
    assert forall|slot: CsrSlot| #[trigger] fixed_bits_kept(ticked.csr, slot) by {
        assert(fixed_bits_kept(s.csr, slot));
        if slot != CsrSlot::Mcycle && slot != CsrSlot::Minstret {
            assert(ticked.csr.raw(slot) == s.csr.raw(slot));
        }
    }
}

/// A hart as its builder makes it satisfies what holds of the registers
/// at every cycle, if its boot pc is aligned.
pub proof fn lemma_built_registers_ok(b: crate::cpu_core::BuildView)
    requires
        b.boot_pc % 4 == 0,
    ensures
        registers_ok(crate::cpu_core::built(b)),
{
    lemma_reset_keeps_fixed_bits(b.hart_id as u64);
    assert(crate::cpu_core::built(b).csr.mhartid == b.hart_id as u64);
}

/// The number of cycles that a run of up to `n` cycles goes through: it
/// ends early when the hart leaves the running state.
pub open spec fn cycles_run(s: HartView, n: nat) -> nat
    decreases n,
{
    if n == 0 || s.state != CpuState::Running {
        0
    } else {
        1 + cycles_run(cycle_spec(s), (n - 1) as nat)
    }
}

/// The number of cycles of a run of up to `n` cycles whose instruction
/// succeeds.
pub open spec fn retired_in_run(s: HartView, n: nat) -> nat
    decreases n,
{
    if n == 0 || s.state != CpuState::Running {
        0
    } else {
        (if executed(s).0 is Ok {
            1nat
        } else {
            0nat
        }) + retired_in_run(cycle_spec(s), (n - 1) as nat)
    }
}

/// Whether no instruction of a run of up to `n` cycles writes one of the
/// two counters.
pub open spec fn counters_left_alone(s: HartView, n: nat) -> bool
    decreases n,
{
    n == 0 || s.state != CpuState::Running || {
        &&& executed(s).1.csr.mcycle == s.csr.mcycle
        &&& executed(s).1.csr.minstret == s.csr.minstret
        &&& counters_left_alone(cycle_spec(s), (n - 1) as nat)
    }
}

/// Over a run in which no instruction writes the counters, `mcycle` grows
/// by the number of cycles and `minstret` by the number of instructions
/// that succeed, none for one that traps; both wrap at two to the 64.
pub proof fn lemma_run_counts(s: HartView, n: nat)
    requires
        counters_left_alone(s, n),
    ensures
        cycles_run(s, n) <= n,
        retired_in_run(s, n) <= cycles_run(s, n),
        run_spec(s, n).csr.mcycle == from_int(s.csr.mcycle + cycles_run(s, n)),
        run_spec(s, n).csr.minstret == from_int(s.csr.minstret + retired_in_run(s, n)),
    decreases n,
{
    if n == 0 || s.state != CpuState::Running {
    } else {
        let next = cycle_spec(s);
        lemma_cycle_counts(s);
        lemma_run_counts(next, (n - 1) as nat);
        let m = cycles_run(next, (n - 1) as nat);
        let k = retired_in_run(next, (n - 1) as nat);
        lemma_wrapping_sum(s.csr.mcycle, next.csr.mcycle, 1, m as int);
        if executed(s).0 is Ok {
            lemma_wrapping_sum(s.csr.minstret, next.csr.minstret, 1, k as int);
        } else {
            lemma_wrapping_sum(s.csr.minstret, next.csr.minstret, 0, k as int);
        }
    }
}

/// Adding modulo two to the 64 step by step gives the sum modulo two to
/// the 64.
proof fn lemma_wrapping_sum(a: u64, b: u64, step: int, rest: int)
    requires
        0 <= step <= 1,
        0 <= rest,
        b == from_int(a + step),
    ensures
        from_int(b + rest) == from_int(a + step + rest),
{
    let p = pow2_64();
    if a + step >= p {
        assert(b == a + step - p);
        vstd::arithmetic::div_mod::lemma_mod_add_multiples_vanish(a + step - p + rest, p);
    }
}

/// While the hart stays in the running state, a run of `n` cycles goes
/// through all `n` of them.
pub proof fn lemma_run_to_the_end(s: HartView, n: nat)
    requires
        run_spec(s, n).state == CpuState::Running,
        n > 0 ==> s.state == CpuState::Running,
    ensures
        cycles_run(s, n) == n,
    decreases n,
{
    if n > 0 {
        let next = cycle_spec(s);
        if n - 1 > 0 && next.state != CpuState::Running {
            assert(run_spec(next, (n - 1) as nat) == next);
        }
        lemma_run_to_the_end(next, (n - 1) as nat);
    }
}

/// A cycle takes the machine timer interrupt only when, as it samples
/// the lines, the timer has reached its compare value: no timer trap is
/// taken while `mtime < mtimecmp`.
pub proof fn lemma_timer_trap_needs_the_timer(s: HartView)
    requires
        registers_ok(s),
        select_interrupt(s.after_sampling().csr, s.privi) matches Some(due) && due.0
            == TrapType::MachineTimerInterrupt,
    ensures
        s.mem.bus.clint.mtime >= s.mem.bus.clint.mtimecmp,
        any_bit(s.csr.mie, IP_MTIP),
{
    let sampled = s.after_sampling();
    assert(fixed_bits_kept(s.csr, CsrSlot::Mip));
    lemma_no_fixed_pending_bit(s.csr.mip);
    lemma_timer_interrupt_needs_the_line(sampled.csr, s.privi);
    lemma_lines_wiring(s.mem.bus);
}

/// A raw `mip` whose fixed bits are zero holds software pending bits
/// only.
proof fn lemma_no_fixed_pending_bit(mip: u64)
    by (bit_vector)
    requires
        mip & !SOFTWARE_PENDING == 0u64 & !SOFTWARE_PENDING,
    ensures
        mip & !SOFTWARE_PENDING == 0,
{
}

/// An access through the memory-management unit that is no store leaves
/// the reservation and the devices of the bus as they are.
pub proof fn lemma_read_keeps_bus_shape(
    mem: MemView,
    env: MmuEnv,
    access: AccessType,
    va: u64,
    len: u64,
)
    ensures
        mmu_read(mem, env, access, va, len).1.bus.reservation == mem.bus.reservation,
        mmu_read(mem, env, access, va, len).1.bus.devices == mem.bus.devices,
{
    if crate::mmu::translation_on(env, access) {
        lemma_walk_keeps_reservation(
            mem.bus,
            va,
            access,
            crate::mmu::effective_privilege(env, access),
            env.mstatus,
            2,
            crate::mmu::satp_root(env.satp),
        );
        lemma_walk_keeps_devices(
            mem.bus,
            va,
            access,
            crate::mmu::effective_privilege(env, access),
            env.mstatus,
            2,
            crate::mmu::satp_root(env.satp),
        );
    }
}

/// The fetch changes the two pcs and the memory side only, and on the
/// memory side neither the reservation nor the devices.
pub proof fn lemma_fetch_keeps_the_rest(s: HartView)
    ensures
        fetch_spec(s).1.gpr == s.gpr,
        fetch_spec(s).1.csr == s.csr,
        fetch_spec(s).1.privi == s.privi,
        fetch_spec(s).1.state == s.state,
        fetch_spec(s).1.mem.bus.reservation == s.mem.bus.reservation,
        fetch_spec(s).1.mem.bus.devices == s.mem.bus.devices,
{
    let at = HartView {
        pc: s.npc,
        npc: vstd::wrapping::u64_specs::wrapping_add(s.npc, 4),
        ..s
    };
    lemma_read_keeps_bus_shape(at.mem, at.env(), AccessType::Fetch(at.pc), at.pc, 4);
}

/// Whether the cycle of `s` takes no interrupt after its instruction.
pub open spec fn no_interrupt_due(s: HartView) -> bool {
    select_interrupt(
        counted(executed(s).1, true).after_sampling().csr,
        executed(s).1.privi,
    ) is None
}

/// A cycle whose instruction succeeds and which takes no interrupt leaves
/// the registers, the mode, the reservation and the devices as the
/// instruction left them.
pub proof fn lemma_quiet_cycle(s: HartView)
    requires
        executed(s).0 is Ok,
        no_interrupt_due(s),
    ensures
        cycle_spec(s).gpr == executed(s).1.gpr,
        cycle_spec(s).privi == executed(s).1.privi,
        cycle_spec(s).state == executed(s).1.state,
        cycle_spec(s).npc == executed(s).1.npc,
        cycle_spec(s).csr.mstatus == executed(s).1.csr.mstatus,
        cycle_spec(s).csr.satp == executed(s).1.csr.satp,
        cycle_spec(s).mem.bus.reservation == executed(s).1.mem.bus.reservation,
        cycle_spec(s).mem.bus.devices == executed(s).1.mem.bus.devices,
{
    reveal(cycle_spec);
}

/// Two cycles in a row, the first of a load-reserved that succeeds and
/// the second of a store-conditional to the same physical address, with
/// no interrupt between them: the store-conditional succeeds, stores its
/// source, writes 0 to its destination, and leaves nothing reserved.
///
/// Here `lr` and `sc` are the encodings that the two cycles fetch. That
/// the address of the store-conditional translates, for a store, to the
/// address that the load-reserved reserved says both that the two name
/// the same address and that the store-conditional does not trap.
#[verifier::rlimit(50)]
pub proof fn lemma_lr_cycle_then_sc_cycle(s: HartView, lr: u32, sc: u32, width: u64)
    requires
        gpr_wf(s.gpr),
        width == 4 || width == 8,
        fetch_spec(s).0 matches Ok(word) && (word % 0x1_0000_0000) as u32 == lr,
        decode(lr) == Some(InstKind::Lr(width)),
        executed(s).0 is Ok,
        no_interrupt_due(s),
        fetch_spec(cycle_spec(s)).0 matches Ok(word) && (word % 0x1_0000_0000) as u32 == sc,
        decode(sc) == Some(InstKind::Sc(width)),
        atomic_address(
            fetch_spec(cycle_spec(s)).1,
            AccessType::Store,
            fetch_spec(cycle_spec(s)).1.reg(fields_of(sc).rs1),
            width,
        ).0 == atomic_address(
            fetch_spec(s).1,
            AccessType::Load,
            fetch_spec(s).1.reg(fields_of(lr).rs1),
            width,
        ).0,
    ensures
        ({
            let first = fetch_spec(s).1;
            let second = fetch_spec(cycle_spec(s)).1;
            let pa = atomic_address(
                first,
                AccessType::Load,
                first.reg(fields_of(lr).rs1),
                width,
            ).0.unwrap();
            let at = atomic_address(
                second,
                AccessType::Store,
                second.reg(fields_of(sc).rs1),
                width,
            );
            let done = executed(cycle_spec(s));
            &&& done.0 is Ok
            &&& done.1.reg(fields_of(sc).rd) == 0
            &&& 0 < fields_of(lr).rd < 32 && fields_of(lr).rd != fields_of(sc).rd
                ==> done.1.reg(fields_of(lr).rd) == load_extend_spec(
                atomic_address(first, AccessType::Load, first.reg(fields_of(lr).rs1), width).1.read(
                    pa,
                    width,
                ).unwrap(),
                width,
                true,
            )
            &&& done.1.mem.bus.reservation is None
            &&& done.1.mem == unreserved(at.1).after_write(
                pa,
                second.reg(fields_of(sc).rs2),
                width,
            )
        }),
{
    reveal(executed);
    reveal(execute_spec);
    let first = fetch_spec(s).1;
    let lrf = fields_of(lr);
    let scf = fields_of(sc);
    lemma_fetch_keeps_the_rest(s);
    assert(executed(s) == lr_spec(first, lrf, width));
    lemma_lr_reserves(first, lrf, width);
    let va = first.reg(lrf.rs1);
    let at0 = atomic_address(first, AccessType::Load, va, width);
    let pa = at0.0.unwrap();
    let after_lr = executed(s).1;
    if crate::mmu::translation_on(first.env(), AccessType::Load) {
        lemma_walk_keeps_devices(
            first.mem.bus,
            va,
            AccessType::Load,
            crate::mmu::effective_privilege(first.env(), AccessType::Load),
            first.env().mstatus,
            2,
            crate::mmu::satp_root(first.env().satp),
        );
    }
    assert(at0.1.read(pa, width) is Some);
    assert(after_lr.mem.bus.devices == at0.1.bus.devices);
    assert(after_lr.mem.bus.write_ok(pa, width));
    assert(gpr_wf(after_lr.gpr));
    lemma_quiet_cycle(s);
    let next = cycle_spec(s);
    lemma_fetch_keeps_the_rest(next);
    let second = fetch_spec(next).1;
    assert(second.mem.bus.reservation == Some(pa));
    assert(second.mem.bus.devices == after_lr.mem.bus.devices);
    assert(second.mem.bus.write_ok(pa, width));
    let sc_va = second.reg(scf.rs1);
    let env = second.env();
    if crate::mmu::translation_on(env, AccessType::Store) {
        lemma_walk_keeps_devices(
            second.mem.bus,
            sc_va,
            AccessType::Store,
            crate::mmu::effective_privilege(env, AccessType::Store),
            env.mstatus,
            2,
            crate::mmu::satp_root(env.satp),
        );
    }
    lemma_sc_succeeds_when_reserved(second, scf, width);
    assert(executed(next) == sc_spec(second, scf, width));
}

/// A store of a byte to the window of a serial port, by a hart whose
/// stores are not translated, succeeds and sends the low byte of its
/// source register after what the port holds already. So a guest that
/// stores the bytes of a text one by one leaves exactly that text in the
/// port, in order.
pub proof fn lemma_store_byte_to_uart(s: HartView, f: Fields)
    requires
        !crate::mmu::translation_on(s.env(), AccessType::Store),
        s.mem.bus.target(
            vstd::wrapping::u64_specs::wrapping_add(s.reg(f.rs1), f.imm_s),
            1,
        ) matches BusTarget::Device(i, _) && s.mem.bus.devices[i as int].kind is Uart,
    ensures
        ({
            let va = vstd::wrapping::u64_specs::wrapping_add(s.reg(f.rs1), f.imm_s);
            let i = s.mem.bus.target(va, 1)->Device_0 as int;
            let done = store_spec(s, f, 1);
            &&& done.0 is Ok
            &&& done.1.mem.bus.devices.len() == s.mem.bus.devices.len()
            &&& done.1.mem.bus.devices[i].kind == DeviceKind::Uart(
                s.mem.bus.devices[i].kind->Uart_0.push((s.reg(f.rs2) % 256) as u8),
            )
            &&& forall|j: int|
                0 <= j < s.mem.bus.devices.len() && j != i ==> done.1.mem.bus.devices[j]
                    == s.mem.bus.devices[j]
        }),
{
    let va = vstd::wrapping::u64_specs::wrapping_add(s.reg(f.rs1), f.imm_s);
    lemma_store_to_uart(s.mem.bus, va, s.reg(f.rs2), 1);
}

} // verus!
