use crate::bits::{sext32, sign_extend, sign_extend_spec, signed_lt, to_signed};
use crate::cpu_core::{CpuCore, HartView};
use crate::inst_base::{AccessType, AluOp, BranchOp, Fields};
use crate::mmu::{mmu_read, mmu_write};
use crate::traptype::TrapType;
use crate::inst_rv64m::{
    div, div_spec, divu, divu_spec, mul_spec, mulh, mulh_spec, mulhsu, mulhsu_spec, mulhu,
    mulhu_spec, rem, rem_spec, remu, remu_spec,
};
use vstd::prelude::*;

verus! {

/// The low 32 bits of a word.
pub open spec fn low32(a: u64) -> u64 {
    a % 0x1_0000_0000
}

/// The arithmetic right shift of a 64-bit word.
pub open spec fn sra_spec(a: u64, shamt: u64) -> u64 {
    ((a as i64) >> shamt) as u64
}

/// The result of a 64-bit operation on the operands `a` and `b`. A
/// shift takes its amount from the low six bits of `b`; sums and
/// differences wrap.
pub open spec fn alu_spec(op: AluOp, a: u64, b: u64) -> u64 {
    match op {
        AluOp::Add => vstd::wrapping::u64_specs::wrapping_add(a, b),
        AluOp::Sub => vstd::wrapping::u64_specs::wrapping_sub(a, b),
        AluOp::Sll => a << (b % 64),
        AluOp::Slt => if to_signed(a) < to_signed(b) {
            1
        } else {
            0
        },
        AluOp::Sltu => if a < b {
            1
        } else {
            0
        },
        AluOp::Xor => a ^ b,
        AluOp::Srl => a >> (b % 64),
        AluOp::Sra => sra_spec(a, b % 64),
        AluOp::Or => a | b,
        AluOp::And => a & b,
        AluOp::Mul => mul_spec(a, b),
        AluOp::Mulh => mulh_spec(a, b),
        AluOp::Mulhsu => mulhsu_spec(a, b),
        AluOp::Mulhu => mulhu_spec(a, b),
        AluOp::Div => div_spec(a, b),
        AluOp::Divu => divu_spec(a, b),
        AluOp::Rem => rem_spec(a, b),
        AluOp::Remu => remu_spec(a, b),
    }
}

pub fn alu(op: AluOp, a: u64, b: u64) -> (r: u64)
    ensures
        r == alu_spec(op, a, b),
{
    match op {
        AluOp::Add => a.wrapping_add(b),
        AluOp::Sub => a.wrapping_sub(b),
        AluOp::Sll => a << (b % 64),
        AluOp::Slt => if signed_lt(a, b) {
            1
        } else {
            0
        },
        AluOp::Sltu => if a < b {
            1
        } else {
            0
        },
        AluOp::Xor => a ^ b,
        AluOp::Srl => a >> (b % 64),
        AluOp::Sra => #[verifier::truncate]
        (((#[verifier::truncate] (a as i64)) >> (b % 64)) as u64),
        AluOp::Or => a | b,
        AluOp::And => a & b,
        AluOp::Mul => crate::inst_rv64m::mul(a, b),
        AluOp::Mulh => mulh(a, b),
        AluOp::Mulhsu => mulhsu(a, b),
        AluOp::Mulhu => mulhu(a, b),
        AluOp::Div => div(a, b),
        AluOp::Divu => divu(a, b),
        AluOp::Rem => rem(a, b),
        AluOp::Remu => remu(a, b),
    }
}

/// A 64-bit word whose low 32 bits are the result of a 32-bit
/// operation: the operation is done on the low 32 bits of the operands,
/// and a shift takes its amount from the low five bits of `b`.
pub open spec fn alu_w_wide(op: AluOp, a: u64, b: u64) -> u64 {
    match op {
        AluOp::Sll => alu_spec(op, a, b % 32),
        AluOp::Srl => alu_spec(op, low32(a), b % 32),
        AluOp::Sra => alu_spec(op, sext32(a), b % 32),
        AluOp::Div | AluOp::Rem => alu_spec(op, sext32(a), sext32(b)),
        AluOp::Divu | AluOp::Remu => alu_spec(op, low32(a), low32(b)),
        _ => alu_spec(op, a, b),
    }
}

/// The result of a 32-bit operation: bit 31 of the 32-bit result is
/// copied into the upper half.
pub open spec fn alu_w_spec(op: AluOp, a: u64, b: u64) -> u64 {
    sext32(alu_w_wide(op, a, b))
}

pub fn alu_w(op: AluOp, a: u64, b: u64) -> (r: u64)
    ensures
        r == alu_w_spec(op, a, b),
{
    let wide: u64 = match op {
        AluOp::Sll => alu(op, a, b % 32),
        AluOp::Srl => alu(op, a % 0x1_0000_0000, b % 32),
        AluOp::Sra => alu(op, sign_extend(a, 0x1_0000_0000), b % 32),
        AluOp::Div | AluOp::Rem => alu(
            op,
            sign_extend(a, 0x1_0000_0000),
            sign_extend(b, 0x1_0000_0000),
        ),
        AluOp::Divu | AluOp::Remu => alu(op, a % 0x1_0000_0000, b % 0x1_0000_0000),
        _ => alu(op, a, b),
    };
    sign_extend(wide, 0x1_0000_0000)
}

/// Whether a branch with the operands `a` and `b` is taken.
pub open spec fn branch_taken_spec(op: BranchOp, a: u64, b: u64) -> bool {
    match op {
        BranchOp::Beq => a == b,
        BranchOp::Bne => a != b,
        BranchOp::Blt => to_signed(a) < to_signed(b),
        BranchOp::Bge => to_signed(a) >= to_signed(b),
        BranchOp::Bltu => a < b,
        BranchOp::Bgeu => a >= b,
    }
}

pub fn branch_taken(op: BranchOp, a: u64, b: u64) -> (r: bool)
    ensures
        r == branch_taken_spec(op, a, b),
{
    match op {
        BranchOp::Beq => a == b,
        BranchOp::Bne => a != b,
        BranchOp::Blt => signed_lt(a, b),
        BranchOp::Bge => !signed_lt(a, b),
        BranchOp::Bltu => a < b,
        BranchOp::Bgeu => a >= b,
    }
}

/// What a load of `width` bytes puts in its register, given the value
/// `raw` that memory holds: sign-extended or zero-extended to 64 bits.
pub open spec fn load_extend_spec(raw: u64, width: u64, signed: bool) -> u64 {
    if !signed || width >= 8 {
        raw
    } else if width == 1 {
        sign_extend_spec(raw, 0x100)
    } else if width == 2 {
        sign_extend_spec(raw, 0x1_0000)
    } else {
        sign_extend_spec(raw, 0x1_0000_0000)
    }
}

pub fn load_extend(raw: u64, width: u64, signed: bool) -> (r: u64)
    ensures
        r == load_extend_spec(raw, width, signed),
{
    if !signed || width >= 8 {
        raw
    } else if width == 1 {
        sign_extend(raw, 0x100)
    } else if width == 2 {
        sign_extend(raw, 0x1_0000)
    } else {
        sign_extend(raw, 0x1_0000_0000)
    }
}

/// The result of every 32-bit operation is the sign extension of its
/// low 32 bits: bits 63 to 32 all equal bit 31.
pub proof fn lemma_w_result_sign_extended(op: AluOp, a: u64, b: u64)
    ensures
        alu_w_spec(op, a, b) == sext32(alu_w_spec(op, a, b)),
        low32(alu_w_spec(op, a, b)) == low32(alu_w_wide(op, a, b)),
        low32(alu_w_spec(op, a, b)) < 0x8000_0000 ==> alu_w_spec(op, a, b) < 0x8000_0000,
        low32(alu_w_spec(op, a, b)) >= 0x8000_0000 ==> alu_w_spec(op, a, b)
            >= 0xffff_ffff_8000_0000,
{
    lemma_sext32(alu_w_wide(op, a, b));
}

/// Sign extension from 32 bits keeps the low 32 bits, fills the upper
/// half with bit 31, and changes nothing when done again.
pub proof fn lemma_sext32(x: u64)
    ensures
        low32(sext32(x)) == low32(x),
        low32(x) < 0x8000_0000 ==> sext32(x) == low32(x),
        low32(x) >= 0x8000_0000 ==> sext32(x) == low32(x) + 0xffff_ffff_0000_0000,
        sext32(sext32(x)) == sext32(x),
{
}

/// A 64-bit shift depends on the low six bits of its amount only, and a
/// 32-bit shift on the low five bits only.
pub proof fn lemma_shift_amount(op: AluOp, a: u64, b: u64, c: u64)
    requires
        op == AluOp::Sll || op == AluOp::Srl || op == AluOp::Sra,
    ensures
        b % 64 == c % 64 ==> alu_spec(op, a, b) == alu_spec(op, a, c),
        b % 32 == c % 32 ==> alu_w_spec(op, a, b) == alu_w_spec(op, a, c),
{
    assert(b % 32 == c % 32 ==> alu_w_wide(op, a, b) == alu_w_wide(op, a, c));
}

/// Whether the operation is a shift.
pub open spec fn is_shift(op: AluOp) -> bool {
    op == AluOp::Sll || op == AluOp::Srl || op == AluOp::Sra
}

/// The second operand of an operation with an immediate: the shift
/// amount field for a shift, and the I immediate otherwise.
pub open spec fn immediate_operand(op: AluOp, f: Fields) -> u64 {
    if is_shift(op) {
        f.shamt
    } else {
        f.imm_i
    }
}

/// What a handler has done to a hart: the result it gave and the state
/// it left are those that the semantics of its instruction give, and
/// a well-formed hart has stayed well formed.
pub open spec fn handled(
    before: &CpuCore,
    after: &CpuCore,
    result: Result<(), TrapType>,
    expected: (Result<(), TrapType>, HartView),
) -> bool {
    &&& result == expected.0
    &&& after@ == expected.1
    &&& after.same_setup(before)
    &&& after.wf()
}

/// A register-register operation: `rd` takes the result.
pub open spec fn op_spec(s: HartView, op: AluOp, f: Fields, word: bool) -> (
    Result<(), TrapType>,
    HartView,
) {
    let a = s.reg(f.rs1);
    let b = s.reg(f.rs2);
    (
        Ok(()),
        s.set_reg(
            f.rd,
            if word {
                alu_w_spec(op, a, b)
            } else {
                alu_spec(op, a, b)
            },
        ),
    )
}

/// A register-immediate operation: `rd` takes the result.
pub open spec fn op_imm_spec(s: HartView, op: AluOp, f: Fields, word: bool) -> (
    Result<(), TrapType>,
    HartView,
) {
    let a = s.reg(f.rs1);
    let b = immediate_operand(op, f);
    (
        Ok(()),
        s.set_reg(
            f.rd,
            if word {
                alu_w_spec(op, a, b)
            } else {
                alu_spec(op, a, b)
            },
        ),
    )
}

/// LUI: `rd` takes the U immediate.
pub open spec fn lui_spec(s: HartView, f: Fields) -> (Result<(), TrapType>, HartView) {
    (Ok(()), s.set_reg(f.rd, f.imm_u))
}

/// AUIPC: `rd` takes the pc plus the U immediate.
pub open spec fn auipc_spec(s: HartView, f: Fields) -> (Result<(), TrapType>, HartView) {
    (Ok(()), s.set_reg(f.rd, vstd::wrapping::u64_specs::wrapping_add(s.pc, f.imm_u)))
}

/// A jump to `target` that links in `rd`: a target that is not four-byte
/// aligned is an exception of the jump and changes nothing; otherwise
/// `rd` takes the address of the next instruction and the next fetch is
/// from the target.
pub open spec fn jump_spec(s: HartView, rd: u64, target: u64) -> (Result<(), TrapType>, HartView) {
    if target % 4 != 0 {
        (Err(TrapType::InstructionAddressMisaligned(target)), s)
    } else {
        (
            Ok(()),
            HartView {
                npc: target,
                ..s.set_reg(rd, vstd::wrapping::u64_specs::wrapping_add(s.pc, 4))
            },
        )
    }
}

/// JAL: a jump to the pc plus the J immediate.
pub open spec fn jal_spec(s: HartView, f: Fields) -> (Result<(), TrapType>, HartView) {
    jump_spec(s, f.rd, vstd::wrapping::u64_specs::wrapping_add(s.pc, f.imm_j))
}

/// JALR: a jump to `rs1` plus the I immediate, with bit 0 cleared.
pub open spec fn jalr_spec(s: HartView, f: Fields) -> (Result<(), TrapType>, HartView) {
    let sum = vstd::wrapping::u64_specs::wrapping_add(s.reg(f.rs1), f.imm_i);
    jump_spec(s, f.rd, (sum - sum % 2) as u64)
}

/// A branch: where its condition holds, the next fetch is from the pc
/// plus the B immediate, which must be four-byte aligned.
pub open spec fn branch_spec(s: HartView, op: BranchOp, f: Fields) -> (
    Result<(), TrapType>,
    HartView,
) {
    if branch_taken_spec(op, s.reg(f.rs1), s.reg(f.rs2)) {
        let target = vstd::wrapping::u64_specs::wrapping_add(s.pc, f.imm_b);
        if target % 4 != 0 {
            (Err(TrapType::InstructionAddressMisaligned(target)), s)
        } else {
            (Ok(()), HartView { npc: target, ..s })
        }
    } else {
        (Ok(()), s)
    }
}

/// A load of `width` bytes from `rs1` plus the I immediate into `rd`.
pub open spec fn load_spec(s: HartView, f: Fields, width: u64, signed: bool) -> (
    Result<(), TrapType>,
    HartView,
) {
    let va = vstd::wrapping::u64_specs::wrapping_add(s.reg(f.rs1), f.imm_i);
    let got = mmu_read(s.mem, s.env(), AccessType::Load, va, width);
    match got.0 {
        Ok(v) => (Ok(()), s.with_mem(got.1).set_reg(f.rd, load_extend_spec(v, width, signed))),
        Err(trap) => (Err(trap), s.with_mem(got.1)),
    }
}

/// A store of the low `width` bytes of `rs2` to `rs1` plus the S
/// immediate.
pub open spec fn store_spec(s: HartView, f: Fields, width: u64) -> (
    Result<(), TrapType>,
    HartView,
) {
    let va = vstd::wrapping::u64_specs::wrapping_add(s.reg(f.rs1), f.imm_s);
    let done = mmu_write(s.mem, s.env(), AccessType::Store, va, s.reg(f.rs2), width);
    (done.0, s.with_mem(done.1))
}

pub fn exec_op(cpu: &mut CpuCore, op: AluOp, f: &Fields, word: bool) -> (r: Result<(), TrapType>)
    requires
        old(cpu).wf(),
    ensures
        handled(old(cpu), final(cpu), r, op_spec(old(cpu)@, op, *f, word)),
{
    let a: u64 = cpu.gpr.read(f.rs1);
    let b: u64 = cpu.gpr.read(f.rs2);
    let v: u64 = if word {
        alu_w(op, a, b)
    } else {
        alu(op, a, b)
    };
    cpu.gpr.write(f.rd, v);
    Ok(())
}

pub fn exec_op_imm(cpu: &mut CpuCore, op: AluOp, f: &Fields, word: bool) -> (r: Result<
    (),
    TrapType,
>)
    requires
        old(cpu).wf(),
    ensures
        handled(old(cpu), final(cpu), r, op_imm_spec(old(cpu)@, op, *f, word)),
{
    let a: u64 = cpu.gpr.read(f.rs1);
    let b: u64 = match op {
        AluOp::Sll | AluOp::Srl | AluOp::Sra => f.shamt,
        _ => f.imm_i,
    };
    let v: u64 = if word {
        alu_w(op, a, b)
    } else {
        alu(op, a, b)
    };
    cpu.gpr.write(f.rd, v);
    Ok(())
}

pub fn exec_lui(cpu: &mut CpuCore, f: &Fields) -> (r: Result<(), TrapType>)
    requires
        old(cpu).wf(),
    ensures
        handled(old(cpu), final(cpu), r, lui_spec(old(cpu)@, *f)),
{
    cpu.gpr.write(f.rd, f.imm_u);
    Ok(())
}

pub fn exec_auipc(cpu: &mut CpuCore, f: &Fields) -> (r: Result<(), TrapType>)
    requires
        old(cpu).wf(),
    ensures
        handled(old(cpu), final(cpu), r, auipc_spec(old(cpu)@, *f)),
{
    cpu.gpr.write(f.rd, cpu.pc.wrapping_add(f.imm_u));
    Ok(())
}

fn jump(cpu: &mut CpuCore, rd: u64, target: u64) -> (r: Result<(), TrapType>)
    requires
        old(cpu).wf(),
    ensures
        handled(old(cpu), final(cpu), r, jump_spec(old(cpu)@, rd, target)),
{
    if target % 4 != 0 {
        return Err(TrapType::InstructionAddressMisaligned(target));
    }
    cpu.gpr.write(rd, cpu.pc.wrapping_add(4));
    cpu.npc = target;
    Ok(())
}

pub fn exec_jal(cpu: &mut CpuCore, f: &Fields) -> (r: Result<(), TrapType>)
    requires
        old(cpu).wf(),
    ensures
        handled(old(cpu), final(cpu), r, jal_spec(old(cpu)@, *f)),
{
    let target: u64 = cpu.pc.wrapping_add(f.imm_j);
    jump(cpu, f.rd, target)
}

pub fn exec_jalr(cpu: &mut CpuCore, f: &Fields) -> (r: Result<(), TrapType>)
    requires
        old(cpu).wf(),
    ensures
        handled(old(cpu), final(cpu), r, jalr_spec(old(cpu)@, *f)),
{
    let sum: u64 = cpu.gpr.read(f.rs1).wrapping_add(f.imm_i);
    jump(cpu, f.rd, sum - sum % 2)
}

pub fn exec_branch(cpu: &mut CpuCore, op: BranchOp, f: &Fields) -> (r: Result<(), TrapType>)
    requires
        old(cpu).wf(),
    ensures
        handled(old(cpu), final(cpu), r, branch_spec(old(cpu)@, op, *f)),
{
    if branch_taken(op, cpu.gpr.read(f.rs1), cpu.gpr.read(f.rs2)) {
        let target: u64 = cpu.pc.wrapping_add(f.imm_b);
        if target % 4 != 0 {
            return Err(TrapType::InstructionAddressMisaligned(target));
        }
        cpu.npc = target;
    }
    Ok(())
}

#[verifier::rlimit(50)]
pub fn exec_load(cpu: &mut CpuCore, f: &Fields, width: u64, signed: bool) -> (r: Result<
    (),
    TrapType,
>)
    requires
        old(cpu).wf(),
    ensures
        handled(old(cpu), final(cpu), r, load_spec(old(cpu)@, *f, width, signed)),
{
    let va: u64 = cpu.gpr.read(f.rs1).wrapping_add(f.imm_i);
    match cpu.read(va, width, AccessType::Load) {
        Ok(v) => {
            cpu.gpr.write(f.rd, load_extend(v, width, signed));
            Ok(())
        },
        Err(trap) => Err(trap),
    }
}

#[verifier::rlimit(50)]
pub fn exec_store(cpu: &mut CpuCore, f: &Fields, width: u64) -> (r: Result<(), TrapType>)
    requires
        old(cpu).wf(),
    ensures
        handled(old(cpu), final(cpu), r, store_spec(old(cpu)@, *f, width)),
{
    let va: u64 = cpu.gpr.read(f.rs1).wrapping_add(f.imm_s);
    let data: u64 = cpu.gpr.read(f.rs2);
    cpu.write(va, data, width, AccessType::Store)
}

} // verus!
