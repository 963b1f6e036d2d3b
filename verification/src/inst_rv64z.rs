use crate::bits::any_bit;
use crate::cpu_core::{CpuCore, CpuState, HartView};
use crate::csr_regs::{access_ok, csr_access_ok, CsrRegs};
use crate::csr_regs_define::MSTATUS_TVM;
use crate::gpr::gpr_wf;
use crate::inst_base::{CsrOp, Fields};
use crate::inst_rv64i::handled;
use crate::privilege::PrivilegeLevels;
use crate::trap::{
    machine_return, mret_level, mret_status, sret_level, sret_status, supervisor_return,
};
use crate::traptype::TrapType;
use vstd::prelude::*;

verus! {

/// Whether a CSR instruction writes its register: CSRRW and CSRRWI
/// always, the others only where their source field is not zero.
pub open spec fn csr_writes(op: CsrOp, f: Fields) -> bool {
    op == CsrOp::ReadWrite || f.rs1 != 0
}

/// The value that a CSR instruction writes, given the value `old` that
/// it read and its source `src`.
pub open spec fn csr_new_value(op: CsrOp, old: u64, src: u64) -> u64 {
    match op {
        CsrOp::ReadWrite => src,
        CsrOp::ReadSet => old | src,
        CsrOp::ReadClear => old & !src,
    }
}

/// A CSR instruction: `rd` takes the value read, and the register takes
/// the new value where the instruction writes. An access that is not
/// legal at the present privilege is an illegal instruction.
pub open spec fn csr_spec(s: HartView, op: CsrOp, imm: bool, f: Fields, inst: u32) -> (
    Result<(), TrapType>,
    HartView,
) {
    let src = if imm {
        f.rs1
    } else {
        s.reg(f.rs1)
    };
    if !csr_access_ok(f.csr, s.privi, csr_writes(op, f)) {
        (Err(TrapType::IllegalInstruction(inst as u64)), s)
    } else {
        let old = s.csr.read_value(f.csr);
        let csr = if csr_writes(op, f) {
            s.csr.write_value(f.csr, csr_new_value(op, old, src))
        } else {
            s.csr
        };
        (Ok(()), (HartView { csr, ..s }).set_reg(f.rd, old))
    }
}

/// ECALL: the environment-call exception of the present mode.
pub open spec fn ecall_spec(s: HartView) -> (Result<(), TrapType>, HartView) {
    (
        Err(
            match s.privi {
                PrivilegeLevels::User => TrapType::EnvironmentCallFromUMode,
                PrivilegeLevels::Supervisor => TrapType::EnvironmentCallFromSMode,
                PrivilegeLevels::Machine => TrapType::EnvironmentCallFromMMode,
            },
        ),
        s,
    )
}

/// EBREAK stops the hart.
pub open spec fn ebreak_spec(s: HartView) -> (Result<(), TrapType>, HartView) {
    (Ok(()), HartView { state: CpuState::Stop, ..s })
}

/// MRET, legal in Machine mode only: returns to the mode in MPP at
/// `mepc`.
pub open spec fn mret_spec(s: HartView, inst: u32) -> (Result<(), TrapType>, HartView) {
    if s.privi != PrivilegeLevels::Machine {
        (Err(TrapType::IllegalInstruction(inst as u64)), s)
    } else {
        (
            Ok(()),
            HartView {
                csr: CsrRegs { mstatus: mret_status(s.csr.mstatus), ..s.csr },
                privi: PrivilegeLevels::from_level(mret_level(s.csr.mstatus)),
                npc: s.csr.mepc,
                ..s
            },
        )
    }
}

/// Whether SRET is legal: in Supervisor and in Machine mode, not in User
/// mode.
pub open spec fn sret_legal(s: HartView) -> bool {
    s.privi != PrivilegeLevels::User
}

/// SRET: returns to the mode in SPP at `sepc`.
pub open spec fn sret_spec(s: HartView, inst: u32) -> (Result<(), TrapType>, HartView) {
    if !sret_legal(s) {
        (Err(TrapType::IllegalInstruction(inst as u64)), s)
    } else {
        (
            Ok(()),
            HartView {
                csr: CsrRegs { mstatus: sret_status(s.csr.mstatus), ..s.csr },
                privi: PrivilegeLevels::from_level(sret_level(s.csr.mstatus)),
                npc: s.csr.sepc,
                ..s
            },
        )
    }
}

/// Whether SFENCE.VMA is legal: not in User mode, and in Supervisor
/// mode only while `mstatus.TVM` is clear.
pub open spec fn sfence_legal(s: HartView) -> bool {
    s.privi == PrivilegeLevels::Machine || (s.privi == PrivilegeLevels::Supervisor && !any_bit(
        s.csr.mstatus,
        MSTATUS_TVM,
    ))
}

/// SFENCE.VMA: the hart keeps no translations, so a legal one changes
/// nothing.
pub open spec fn sfence_spec(s: HartView, inst: u32) -> (Result<(), TrapType>, HartView) {
    if !sfence_legal(s) {
        (Err(TrapType::IllegalInstruction(inst as u64)), s)
    } else {
        (Ok(()), s)
    }
}

/// FENCE.I empties the instruction cache.
pub open spec fn fence_i_spec(s: HartView) -> (Result<(), TrapType>, HartView) {
    (
        Ok(()),
        s.with_mem(crate::cache_system::MemView { icache: s.mem.icache.cleared(), ..s.mem }),
    )
}

#[verifier::rlimit(50)]
pub fn exec_csr(cpu: &mut CpuCore, op: CsrOp, imm: bool, f: &Fields, inst: u32) -> (r: Result<
    (),
    TrapType,
>)
    requires
        old(cpu).wf(),
    ensures
        handled(old(cpu), final(cpu), r, csr_spec(old(cpu)@, op, imm, *f, inst)),
{
    let src: u64 = if imm {
        f.rs1
    } else {
        cpu.gpr.read(f.rs1)
    };
    let writes: bool = op == CsrOp::ReadWrite || f.rs1 != 0;
    if !access_ok(f.csr, cpu.cur_priv, writes) {
        return Err(TrapType::IllegalInstruction(inst as u64));
    }
    let t: u64 = match cpu.csr_regs.read(f.csr, cpu.cur_priv) {
        Some(t) => t,
        None => {
            return Err(TrapType::IllegalInstruction(inst as u64));
        },
    };
    if writes {
        let csr_wb_data: u64 = match op {
            CsrOp::ReadWrite => src,
            CsrOp::ReadSet => t | src,
            CsrOp::ReadClear => t & !src,
        };
        cpu.csr_regs.write(f.csr, csr_wb_data, cpu.cur_priv);
    }
    cpu.gpr.write(f.rd, t);
    Ok(())
}

pub fn exec_ecall(cpu: &mut CpuCore) -> (r: Result<(), TrapType>)
    requires
        old(cpu).wf(),
    ensures
        handled(old(cpu), final(cpu), r, ecall_spec(old(cpu)@)),
{
    Err(
        match cpu.cur_priv {
            PrivilegeLevels::User => TrapType::EnvironmentCallFromUMode,
            PrivilegeLevels::Supervisor => TrapType::EnvironmentCallFromSMode,
            PrivilegeLevels::Machine => TrapType::EnvironmentCallFromMMode,
        },
    )
}

pub fn exec_ebreak(cpu: &mut CpuCore) -> (r: Result<(), TrapType>)
    requires
        old(cpu).wf(),
    ensures
        handled(old(cpu), final(cpu), r, ebreak_spec(old(cpu)@)),
{
    cpu.halt();
    Ok(())
}

pub fn exec_mret(cpu: &mut CpuCore, inst: u32) -> (r: Result<(), TrapType>)
    requires
        old(cpu).wf(),
    ensures
        handled(old(cpu), final(cpu), r, mret_spec(old(cpu)@, inst)),
{
    if cpu.cur_priv != PrivilegeLevels::Machine {
        return Err(TrapType::IllegalInstruction(inst as u64));
    }
    let back: (PrivilegeLevels, u64) = machine_return(&mut cpu.csr_regs);
    cpu.cur_priv = back.0;
    cpu.npc = back.1;
    Ok(())
}

pub fn exec_sret(cpu: &mut CpuCore, inst: u32) -> (r: Result<(), TrapType>)
    requires
        old(cpu).wf(),
    ensures
        handled(old(cpu), final(cpu), r, sret_spec(old(cpu)@, inst)),
{
    if cpu.cur_priv == PrivilegeLevels::User {
        return Err(TrapType::IllegalInstruction(inst as u64));
    }
    let back: (PrivilegeLevels, u64) = supervisor_return(&mut cpu.csr_regs);
    cpu.cur_priv = back.0;
    cpu.npc = back.1;
    Ok(())
}

pub fn exec_sfence_vma(cpu: &mut CpuCore, inst: u32) -> (r: Result<(), TrapType>)
    requires
        old(cpu).wf(),
    ensures
        handled(old(cpu), final(cpu), r, sfence_spec(old(cpu)@, inst)),
{
    let legal: bool = cpu.cur_priv == PrivilegeLevels::Machine || (cpu.cur_priv
        == PrivilegeLevels::Supervisor && cpu.csr_regs.mstatus & MSTATUS_TVM == 0);
    if !legal {
        return Err(TrapType::IllegalInstruction(inst as u64));
    }
    Ok(())
}

pub fn exec_fence_i(cpu: &mut CpuCore) -> (r: Result<(), TrapType>)
    requires
        old(cpu).wf(),
    ensures
        handled(old(cpu), final(cpu), r, fence_i_spec(old(cpu)@)),
{
    cpu.mmu.caches.icache.clear_inst();
    Ok(())
}

/// CSRRS and CSRRC with `x0` as source, and their immediate forms with a
/// zero immediate, read a register without writing it: the register file
/// stays as it was, whatever the register. CSRRW with `x0` as source
/// writes zero.
pub proof fn lemma_csr_read_only_forms(s: HartView, op: CsrOp, imm: bool, f: Fields, inst: u32)
    requires
        f.rs1 == 0,
        gpr_wf(s.gpr),
    ensures
        op != CsrOp::ReadWrite ==> csr_spec(s, op, imm, f, inst).1.csr == s.csr,
        op == CsrOp::ReadWrite && csr_access_ok(f.csr, s.privi, true) ==> csr_spec(
            s,
            op,
            imm,
            f,
            inst,
        ).1.csr == s.csr.write_value(f.csr, 0),
{
}

} // verus!
