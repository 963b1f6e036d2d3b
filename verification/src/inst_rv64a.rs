use crate::bits::{sext32, sign_extend, signed_lt, to_signed};
use crate::bus::BusView;
use crate::cache_system::MemView;
use crate::cpu_core::{CpuCore, HartView};
use crate::inst_base::{AccessType, AmoOp, Fields};
use crate::inst_rv64i::{handled, load_extend, load_extend_spec, low32};
use crate::mmu::{translate_spec, MmuEnv};
use crate::traptype::TrapType;
use vstd::prelude::*;

verus! {

/// What an atomic operation stores, given the value `old` that memory
/// held, sign-extended to 64 bits, and the source `src`. For a width of
/// four bytes the comparisons look at the low 32 bits only.
pub open spec fn amo_result_spec(op: AmoOp, old: u64, src: u64, width: u64) -> u64 {
    let a = if width == 4 {
        sext32(old)
    } else {
        old
    };
    let b = if width == 4 {
        sext32(src)
    } else {
        src
    };
    let ua = if width == 4 {
        low32(old)
    } else {
        old
    };
    let ub = if width == 4 {
        low32(src)
    } else {
        src
    };
    match op {
        AmoOp::Swap => src,
        AmoOp::Add => vstd::wrapping::u64_specs::wrapping_add(old, src),
        AmoOp::Xor => old ^ src,
        AmoOp::And => old & src,
        AmoOp::Or => old | src,
        AmoOp::Min => if to_signed(a) < to_signed(b) {
            old
        } else {
            src
        },
        AmoOp::Max => if to_signed(a) < to_signed(b) {
            src
        } else {
            old
        },
        AmoOp::Minu => if ua < ub {
            old
        } else {
            src
        },
        AmoOp::Maxu => if ua < ub {
            src
        } else {
            old
        },
    }
}

pub fn amo_result(op: AmoOp, old: u64, src: u64, width: u64) -> (r: u64)
    ensures
        r == amo_result_spec(op, old, src, width),
{
    let a: u64 = if width == 4 {
        sign_extend(old, 0x1_0000_0000)
    } else {
        old
    };
    let b: u64 = if width == 4 {
        sign_extend(src, 0x1_0000_0000)
    } else {
        src
    };
    let ua: u64 = if width == 4 {
        old % 0x1_0000_0000
    } else {
        old
    };
    let ub: u64 = if width == 4 {
        src % 0x1_0000_0000
    } else {
        src
    };
    match op {
        AmoOp::Swap => src,
        AmoOp::Add => old.wrapping_add(src),
        AmoOp::Xor => old ^ src,
        AmoOp::And => old & src,
        AmoOp::Or => old | src,
        AmoOp::Min => if signed_lt(a, b) {
            old
        } else {
            src
        },
        AmoOp::Max => if signed_lt(a, b) {
            src
        } else {
            old
        },
        AmoOp::Minu => if ua < ub {
            old
        } else {
            src
        },
        AmoOp::Maxu => if ua < ub {
            src
        } else {
            old
        },
    }
}

/// The physical address of an atomic access to `va`, which must be
/// naturally aligned, and the memory side after the translation.
pub open spec fn atomic_address(s: HartView, access: AccessType, va: u64, width: u64) -> (
    Result<u64, TrapType>,
    MemView,
) {
    if width != 0 && va % width != 0 {
        (Err(access.misaligned(va)), s.mem)
    } else {
        let translated = translate_spec(s.mem.bus, s.env(), access, va);
        (translated.0, MemView { bus: translated.1, ..s.mem })
    }
}

/// The memory side with `pa` reserved.
pub open spec fn reserved(mem: MemView, pa: u64) -> MemView {
    MemView { bus: BusView { reservation: Some(pa), ..mem.bus }, ..mem }
}

/// The memory side with no reservation.
pub open spec fn unreserved(mem: MemView) -> MemView {
    MemView { bus: BusView { reservation: None, ..mem.bus }, ..mem }
}

/// Load-reserved: loads from the address in `rs1` and reserves its
/// physical address.
pub open spec fn lr_spec(s: HartView, f: Fields, width: u64) -> (Result<(), TrapType>, HartView) {
    let va = s.reg(f.rs1);
    let at = atomic_address(s, AccessType::Load, va, width);
    match at.0 {
        Err(trap) => (Err(trap), s.with_mem(at.1)),
        Ok(pa) => match at.1.read(pa, width) {
            None => (Err(TrapType::LoadAccessFault(va)), s.with_mem(at.1)),
            Some(v) => (
                Ok(()),
                s.with_mem(reserved(at.1.after_read(pa, width, false), pa)).set_reg(
                    f.rd,
                    load_extend_spec(v, width, true),
                ),
            ),
        },
    }
}

/// Store-conditional: stores `rs2` to the address in `rs1` and writes 0
/// to `rd` if the physical address is reserved, and writes 1 to `rd`
/// without storing if it is not. The reservation is given up either way.
pub open spec fn sc_spec(s: HartView, f: Fields, width: u64) -> (Result<(), TrapType>, HartView) {
    let va = s.reg(f.rs1);
    let at = atomic_address(s, AccessType::Store, va, width);
    match at.0 {
        Err(trap) => (Err(trap), s.with_mem(at.1)),
        Ok(pa) => {
            let mem = unreserved(at.1);
            if at.1.bus.reservation != Some(pa) {
                (Ok(()), s.with_mem(mem).set_reg(f.rd, 1))
            } else if !mem.write_ok(pa, width) {
                (Err(TrapType::StoreAccessFault(va)), s.with_mem(mem))
            } else {
                (Ok(()), s.with_mem(mem.after_write(pa, s.reg(f.rs2), width)).set_reg(f.rd, 0))
            }
        },
    }
}

/// An atomic memory operation: translates the address in `rs1` once,
/// loads, stores what the operation makes of the loaded value and
/// `rs2`, and puts the loaded value in `rd`.
pub open spec fn amo_spec(s: HartView, op: AmoOp, f: Fields, width: u64) -> (
    Result<(), TrapType>,
    HartView,
) {
    let va = s.reg(f.rs1);
    let at = atomic_address(s, AccessType::Amo, va, width);
    match at.0 {
        Err(trap) => (Err(trap), s.with_mem(at.1)),
        Ok(pa) => match at.1.read(pa, width) {
            None => (Err(TrapType::StoreAccessFault(va)), s.with_mem(at.1)),
            Some(v) => {
                let old = load_extend_spec(v, width, true);
                let mem = at.1.after_read(pa, width, false);
                if !mem.write_ok(pa, width) {
                    (Err(TrapType::StoreAccessFault(va)), s.with_mem(mem))
                } else {
                    (
                        Ok(()),
                        s.with_mem(
                            mem.after_write(
                                pa,
                                amo_result_spec(op, old, s.reg(f.rs2), width),
                                width,
                            ),
                        ).set_reg(f.rd, old),
                    )
                }
            },
        },
    }
}

/// Translates the address of an atomic access.
fn locate(cpu: &mut CpuCore, access: AccessType, va: u64, width: u64) -> (r: Result<
    u64,
    TrapType,
>)
    requires
        old(cpu).wf(),
    ensures
        final(cpu).wf(),
        final(cpu).same_setup(old(cpu)),
        r == atomic_address(old(cpu)@, access, va, width).0,
        final(cpu)@ == old(cpu)@.with_mem(atomic_address(old(cpu)@, access, va, width).1),
{
    if width != 0 && va % width != 0 {
        return Err(access.misaligned_at(va));
    }
    let env: MmuEnv = cpu.mmu_env();
    cpu.mmu.update_access_type(access);
    cpu.mmu.translate(&env, va)
}

#[verifier::rlimit(50)]
pub fn exec_lr(cpu: &mut CpuCore, f: &Fields, width: u64) -> (r: Result<(), TrapType>)
    requires
        old(cpu).wf(),
    ensures
        handled(old(cpu), final(cpu), r, lr_spec(old(cpu)@, *f, width)),
{
    let va: u64 = cpu.gpr.read(f.rs1);
    let pa: u64 = match locate(cpu, AccessType::Load, va, width) {
        Ok(pa) => pa,
        Err(trap) => {
            return Err(trap);
        },
    };
    match cpu.mmu.caches.read(pa, width, false) {
        Ok(v) => {
            cpu.lr_sc_reservation_set(pa);
            cpu.gpr.write(f.rd, load_extend(v, width, true));
            Ok(())
        },
        Err(_) => Err(TrapType::LoadAccessFault(va)),
    }
}

#[verifier::rlimit(50)]
pub fn exec_sc(cpu: &mut CpuCore, f: &Fields, width: u64) -> (r: Result<(), TrapType>)
    requires
        old(cpu).wf(),
    ensures
        handled(old(cpu), final(cpu), r, sc_spec(old(cpu)@, *f, width)),
{
    let va: u64 = cpu.gpr.read(f.rs1);
    let data: u64 = cpu.gpr.read(f.rs2);
    let pa: u64 = match locate(cpu, AccessType::Store, va, width) {
        Ok(pa) => pa,
        Err(trap) => {
            return Err(trap);
        },
    };
    if !cpu.lr_sc_reservation_check_and_clear(pa) {
        cpu.gpr.write(f.rd, 1);
        return Ok(());
    }
    match cpu.mmu.caches.write(pa, data, width) {
        Ok(_) => {
            cpu.gpr.write(f.rd, 0);
            Ok(())
        },
        Err(_) => Err(TrapType::StoreAccessFault(va)),
    }
}

#[verifier::rlimit(50)]
pub fn exec_amo(cpu: &mut CpuCore, op: AmoOp, f: &Fields, width: u64) -> (r: Result<
    (),
    TrapType,
>)
    requires
        old(cpu).wf(),
    ensures
        handled(old(cpu), final(cpu), r, amo_spec(old(cpu)@, op, *f, width)),
{
    let va: u64 = cpu.gpr.read(f.rs1);
    let src: u64 = cpu.gpr.read(f.rs2);
    let pa: u64 = match locate(cpu, AccessType::Amo, va, width) {
        Ok(pa) => pa,
        Err(trap) => {
            return Err(trap);
        },
    };
    let loaded: u64 = match cpu.mmu.caches.read(pa, width, false) {
        Ok(v) => load_extend(v, width, true),
        Err(_) => {
            return Err(TrapType::StoreAccessFault(va));
        },
    };
    match cpu.mmu.caches.write(pa, amo_result(op, loaded, src, width), width) {
        Ok(_) => {
            cpu.gpr.write(f.rd, loaded);
            Ok(())
        },
        Err(_) => Err(TrapType::StoreAccessFault(va)),
    }
}

} // verus!
