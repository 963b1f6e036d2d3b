use rv64emu::bus::{Bus, DeviceEnum, DeviceType, MEM_BASE, PLIC_BASE};
use rv64emu::cpu_core::{CpuCore, CpuCoreBuild, CpuState};
use rv64emu::device_dram::DeviceDram;
use rv64emu::inst_base::AccessType;
use rv64emu::privilege::PrivilegeLevels;
use rv64emu::traptype::TrapType;

const BASE: u64 = 0x8000_0000;
const DATA: u64 = 0x8000_2000;
const HANDLER: u64 = 0x8000_0800;

fn enc_r(funct7: u32, rs2: u32, rs1: u32, funct3: u32, rd: u32, opcode: u32) -> u32 {
    funct7 << 25 | rs2 << 20 | rs1 << 15 | funct3 << 12 | rd << 7 | opcode
}

fn enc_i(imm: i32, rs1: u32, funct3: u32, rd: u32, opcode: u32) -> u32 {
    ((imm as u32) & 0xfff) << 20 | rs1 << 15 | funct3 << 12 | rd << 7 | opcode
}

fn enc_s(imm: i32, rs2: u32, rs1: u32, funct3: u32) -> u32 {
    let imm = imm as u32;
    ((imm >> 5) & 0x7f) << 25 | rs2 << 20 | rs1 << 15 | funct3 << 12 | (imm & 0x1f) << 7 | 0x23
}

fn enc_b(offset: i32, rs2: u32, rs1: u32, funct3: u32) -> u32 {
    let imm = offset as u32;
    ((imm >> 12) & 1) << 31
        | ((imm >> 5) & 0x3f) << 25
        | rs2 << 20
        | rs1 << 15
        | funct3 << 12
        | ((imm >> 1) & 0xf) << 8
        | ((imm >> 11) & 1) << 7
        | 0x63
}

fn enc_j(offset: i32, rd: u32) -> u32 {
    let imm = offset as u32;
    ((imm >> 20) & 1) << 31
        | ((imm >> 1) & 0x3ff) << 21
        | ((imm >> 11) & 1) << 20
        | ((imm >> 12) & 0xff) << 12
        | rd << 7
        | 0x6f
}

fn enc_csr(csr: u32, rs1: u32, funct3: u32, rd: u32) -> u32 {
    csr << 20 | rs1 << 15 | funct3 << 12 | rd << 7 | 0x73
}

fn enc_amo(funct5: u32, rs2: u32, rs1: u32, funct3: u32, rd: u32) -> u32 {
    enc_r(funct5 << 2, rs2, rs1, funct3, rd, 0x2f)
}

const MRET: u32 = 0x3020_0073;
const SRET: u32 = 0x1020_0073;
const WFI: u32 = 0x1050_0073;
const ECALL: u32 = 0x0000_0073;
const SFENCE_VMA: u32 = 0x1200_0073;
const FENCE_I: u32 = 0x0000_100f;

/// A hart with 64 KiB of memory that holds `program` at its start; traps
/// go to `HANDLER`.
fn hart(program: &[u32]) -> CpuCore {
    let mut bus = Bus::new();
    let mut dram = DeviceDram::new(0x1_0000);
    for (i, word) in program.iter().enumerate() {
        dram.write(4 * i as u64, *word as u64, 4);
    }
    assert!(bus.add_device(DeviceType {
        start: MEM_BASE,
        len: 0x1_0000,
        instance: DeviceEnum::Dram(dram),
        name: "DRAM",
    }));
    let mut cpu = CpuCoreBuild::new(bus).build();
    cpu.csr_regs.mtvec = HANDLER;
    cpu.cpu_state = CpuState::Running;
    cpu
}

fn run_one(inst: u32, setup: impl FnOnce(&mut CpuCore)) -> CpuCore {
    let mut cpu = hart(&[inst]);
    setup(&mut cpu);
    cpu.execute(1);
    cpu
}

#[test]
fn successful_instruction_advances_pc_and_counts() {
    let mut cpu = hart(&[enc_i(5, 0, 0, 5, 0x13), enc_i(6, 0, 0, 6, 0x13)]);
    cpu.execute(1);
    assert_eq!((cpu.pc, cpu.npc), (BASE, BASE + 4));
    assert_eq!((cpu.csr_regs.minstret, cpu.csr_regs.mcycle), (1, 1));
    cpu.execute(1);
    assert_eq!((cpu.pc, cpu.npc), (BASE + 4, BASE + 8));
    assert_eq!((cpu.csr_regs.minstret, cpu.csr_regs.mcycle), (2, 2));
    assert_eq!((cpu.gpr.read(5), cpu.gpr.read(6)), (5, 6));
}

#[test]
fn step_executes_without_fetching() {
    let mut cpu = hart(&[]);
    cpu.pc = BASE + 0x40;
    cpu.npc = BASE + 0x44;
    // jal x1, +16
    assert_eq!(cpu.step(enc_j(16, 1)), Ok(()));
    assert_eq!(cpu.gpr.read(1), BASE + 0x44);
    assert_eq!(cpu.npc, BASE + 0x50);
    assert_eq!(cpu.step(0), Err(TrapType::IllegalInstruction(0)));
    assert_eq!(cpu.step(ECALL), Err(TrapType::EnvironmentCallFromMMode));
    assert_eq!(cpu.npc, BASE + 0x50);
    assert_eq!(cpu.csr_regs.minstret, 0);
    assert_eq!(cpu.inst_fetch(), Ok(0));
    assert_eq!((cpu.pc, cpu.npc), (BASE + 0x50, BASE + 0x54));
}

#[test]
fn upper_immediates() {
    let cpu = run_one(0x8000_0537, |_| {});
    assert_eq!(cpu.gpr.read(10), 0xffff_ffff_8000_0000);
    let cpu = run_one(0x0000_1517, |_| {});
    assert_eq!(cpu.gpr.read(10), BASE + 0x1000);
    let cpu = run_one(0xffff_f517, |_| {});
    assert_eq!(cpu.gpr.read(10), BASE - 0x1000);
}

#[test]
fn jumps_link_and_redirect() {
    let cpu = run_one(enc_j(0x100, 1), |_| {});
    assert_eq!((cpu.gpr.read(1), cpu.npc), (BASE + 4, BASE + 0x100));
    let cpu = run_one(enc_j(-8, 0), |_| {});
    assert_eq!((cpu.gpr.read(0), cpu.npc), (0, BASE - 8));
    // jalr x1, 5(x5): bit 0 of the target is cleared.
    let cpu = run_one(enc_i(5, 5, 0, 1, 0x67), |cpu| cpu.gpr.write(5, BASE + 0x200));
    assert_eq!((cpu.gpr.read(1), cpu.npc), (BASE + 4, BASE + 0x204));
    // jalr x5, 0(x5): the target comes from the old value of the register.
    let cpu = run_one(enc_i(0, 5, 0, 5, 0x67), |cpu| cpu.gpr.write(5, BASE + 0x200));
    assert_eq!((cpu.gpr.read(5), cpu.npc), (BASE + 4, BASE + 0x200));
}

#[test]
fn misaligned_jump_target_traps_on_the_jump() {
    let cpu = run_one(enc_j(0x102, 1), |_| {});
    assert_eq!(cpu.csr_regs.mcause, 0);
    assert_eq!(cpu.csr_regs.mtval, BASE + 0x102);
    assert_eq!(cpu.csr_regs.mepc, BASE);
    assert_eq!(cpu.gpr.read(1), 0);
    assert_eq!(cpu.npc, HANDLER);
    let cpu = run_one(enc_i(6, 5, 0, 1, 0x67), |cpu| cpu.gpr.write(5, BASE));
    assert_eq!((cpu.csr_regs.mcause, cpu.csr_regs.mtval), (0, BASE + 6));
    // beq x0, x0, +6 is taken and misaligned; bne x0, x0, +6 is not taken.
    let cpu = run_one(enc_b(6, 0, 0, 0), |_| {});
    assert_eq!((cpu.csr_regs.mcause, cpu.csr_regs.mtval, cpu.csr_regs.mepc), (0, BASE + 6, BASE));
    let cpu = run_one(enc_b(6, 0, 0, 1), |_| {});
    assert_eq!((cpu.csr_regs.mcause, cpu.npc), (0, BASE + 4));
    assert_eq!(cpu.csr_regs.mepc, 0);
}

#[test]
fn misaligned_pc_traps_at_fetch() {
    let mut cpu = hart(&[]);
    cpu.set_pc(BASE + 2);
    cpu.execute(1);
    assert_eq!(cpu.csr_regs.mcause, 0);
    assert_eq!(cpu.csr_regs.mtval, BASE + 2);
    assert_eq!(cpu.csr_regs.mepc, BASE + 2);
}

#[test]
fn branches_follow_their_conditions() {
    let minus_one = u64::MAX;
    for (funct3, a, b, taken) in [
        (0, 5, 5, true),
        (0, 5, 6, false),
        (1, 5, 6, true),
        (4, minus_one, 0, true),
        (4, 0, minus_one, false),
        (5, 0, minus_one, true),
        (6, minus_one, 0, false),
        (6, 0, minus_one, true),
        (7, minus_one, 0, true),
        (7, 3, 3, true),
    ] {
        let cpu = run_one(enc_b(-16, 6, 5, funct3), |cpu| {
            cpu.gpr.write(5, a);
            cpu.gpr.write(6, b);
        });
        assert_eq!(cpu.npc, if taken { BASE - 16 } else { BASE + 4 });
        assert_eq!(cpu.csr_regs.minstret, 1);
    }
}

#[test]
fn loads_and_stores_of_every_width() {
    let value = 0x8182_8384_8586_8788u64;
    for (funct3, expect) in [
        (0, 0xffff_ffff_ffff_ff88),
        (1, 0xffff_ffff_ffff_8788),
        (2, 0xffff_ffff_8586_8788),
        (3, value),
        (4, 0x88),
        (5, 0x8788),
        (6, 0x8586_8788),
    ] {
        let cpu = run_one(enc_i(-8, 5, funct3, 6, 0x03), |cpu| {
            cpu.set_mem(DATA, value, 8);
            cpu.gpr.write(5, DATA + 8);
        });
        assert_eq!(cpu.gpr.read(6), expect);
    }
    for (funct3, expect) in [
        (0, 0x1111_1111_1111_1188u64),
        (1, 0x1111_1111_1111_8788),
        (2, 0x1111_1111_8586_8788),
        (3, value),
    ] {
        let mut cpu = run_one(enc_s(-8, 6, 5, funct3), |cpu| {
            cpu.set_mem(DATA, 0x1111_1111_1111_1111, 8);
            cpu.gpr.write(5, DATA + 8);
            cpu.gpr.write(6, value);
        });
        assert_eq!(cpu.get_mem(DATA, 8), expect);
    }
}

#[test]
fn misaligned_and_unmapped_data_accesses_trap() {
    // ld x6, 1(x5)
    let cpu = run_one(enc_i(1, 5, 3, 6, 0x03), |cpu| cpu.gpr.write(5, DATA));
    assert_eq!((cpu.csr_regs.mcause, cpu.csr_regs.mtval, cpu.csr_regs.mepc), (4, DATA + 1, BASE));
    // lh x6, 1(x5)
    let cpu = run_one(enc_i(1, 5, 1, 6, 0x03), |cpu| cpu.gpr.write(5, DATA));
    assert_eq!((cpu.csr_regs.mcause, cpu.csr_regs.mtval), (4, DATA + 1));
    // lb x6, 1(x5) is never misaligned
    let cpu = run_one(enc_i(1, 5, 0, 6, 0x03), |cpu| cpu.gpr.write(5, DATA));
    assert_eq!(cpu.csr_regs.mcause, 0);
    assert_eq!(cpu.csr_regs.minstret, 1);
    // sw x6, 2(x5)
    let cpu = run_one(enc_s(2, 6, 5, 2), |cpu| cpu.gpr.write(5, DATA));
    assert_eq!((cpu.csr_regs.mcause, cpu.csr_regs.mtval), (6, DATA + 2));
    // ld from and sd to an address that no device answers
    let cpu = run_one(enc_i(0, 5, 3, 6, 0x03), |cpu| cpu.gpr.write(5, 0x4000_0000));
    assert_eq!((cpu.csr_regs.mcause, cpu.csr_regs.mtval), (5, 0x4000_0000));
    let cpu = run_one(enc_s(0, 6, 5, 3), |cpu| cpu.gpr.write(5, 0x4000_0000));
    assert_eq!((cpu.csr_regs.mcause, cpu.csr_regs.mtval), (7, 0x4000_0000));
    // amoadd.d and lr.d at a misaligned address, amoswap.w where no device answers
    let cpu = run_one(enc_amo(0, 6, 5, 3, 7), |cpu| cpu.gpr.write(5, DATA + 4));
    assert_eq!((cpu.csr_regs.mcause, cpu.csr_regs.mtval), (6, DATA + 4));
    let cpu = run_one(enc_amo(2, 0, 5, 3, 7), |cpu| cpu.gpr.write(5, DATA + 4));
    assert_eq!((cpu.csr_regs.mcause, cpu.csr_regs.mtval), (4, DATA + 4));
    let cpu = run_one(enc_amo(1, 6, 5, 2, 7), |cpu| cpu.gpr.write(5, 0x4000_0000));
    assert_eq!((cpu.csr_regs.mcause, cpu.csr_regs.mtval), (7, 0x4000_0000));
    let cpu = run_one(enc_amo(2, 0, 5, 2, 7), |cpu| cpu.gpr.write(5, 0x4000_0000));
    assert_eq!((cpu.csr_regs.mcause, cpu.csr_regs.mtval), (5, 0x4000_0000));
}

#[test]
fn a_trapping_instruction_changes_no_register() {
    let cpu = run_one(enc_i(1, 5, 3, 6, 0x03), |cpu| {
        cpu.gpr.write(5, DATA);
        cpu.gpr.write(6, 77);
    });
    assert_eq!(cpu.gpr.read(6), 77);
    assert_eq!(cpu.csr_regs.minstret, 0);
    assert_eq!(cpu.csr_regs.mcycle, 1);
}

#[test]
fn atomic_operations_read_modify_write() {
    // amoadd.d x7, x6, (x5)
    let mut cpu = run_one(enc_amo(0, 6, 5, 3, 7), |cpu| {
        cpu.set_mem(DATA, 40, 8);
        cpu.gpr.write(5, DATA);
        cpu.gpr.write(6, 2);
    });
    assert_eq!(cpu.gpr.read(7), 40);
    assert_eq!(cpu.get_mem(DATA, 8), 42);
    // amoswap.w x6, x6, (x5): the source is read before the destination is written.
    let mut cpu = run_one(enc_amo(1, 6, 5, 2, 6), |cpu| {
        cpu.set_mem(DATA, 0xaaaa_aaaa_8000_0001, 8);
        cpu.gpr.write(5, DATA);
        cpu.gpr.write(6, 0x1_2345_6789);
    });
    assert_eq!(cpu.gpr.read(6), 0xffff_ffff_8000_0001);
    assert_eq!(cpu.get_mem(DATA, 8), 0xaaaa_aaaa_2345_6789);
    // amomax.w compares as signed 32-bit values.
    let mut cpu = run_one(enc_amo(20, 6, 5, 2, 7), |cpu| {
        cpu.set_mem(DATA, 0x8000_0000, 4);
        cpu.gpr.write(5, DATA);
        cpu.gpr.write(6, 1);
    });
    assert_eq!(cpu.get_mem(DATA, 4), 1);
    // amomaxu.w compares as unsigned 32-bit values.
    let mut cpu = run_one(enc_amo(28, 6, 5, 2, 7), |cpu| {
        cpu.set_mem(DATA, 0x8000_0000, 4);
        cpu.gpr.write(5, DATA);
        cpu.gpr.write(6, 1);
    });
    assert_eq!(cpu.get_mem(DATA, 4), 0x8000_0000);
    // An atomic operation is a store: it gives up a reservation on its line.
    let mut cpu = hart(&[enc_amo(2, 0, 5, 3, 7), enc_amo(0, 6, 5, 3, 0), enc_amo(3, 6, 5, 3, 8)]);
    cpu.gpr.write(5, DATA);
    cpu.gpr.write(6, 9);
    cpu.execute(3);
    assert_eq!(cpu.gpr.read(8), 1);
    assert_eq!(cpu.get_mem(DATA, 8), 9);
}

#[test]
fn lr_w_and_sc_w_pair() {
    let mut cpu = hart(&[enc_amo(2, 0, 5, 2, 7), enc_amo(3, 6, 5, 2, 8)]);
    cpu.set_mem(DATA, 0xffff_ffff_8000_0000, 8);
    cpu.gpr.write(5, DATA);
    cpu.gpr.write(6, 0x1_0000_0007);
    cpu.execute(2);
    assert_eq!(cpu.gpr.read(7), 0xffff_ffff_8000_0000);
    assert_eq!(cpu.gpr.read(8), 0);
    assert_eq!(cpu.get_mem(DATA, 8), 0xffff_ffff_0000_0007);
    // The reservation is on the address, not on the line: another word of the line fails.
    let mut cpu = hart(&[enc_amo(2, 0, 5, 2, 7), enc_amo(3, 6, 9, 2, 8)]);
    cpu.gpr.write(5, DATA);
    cpu.gpr.write(9, DATA + 4);
    cpu.gpr.write(6, 7);
    cpu.execute(2);
    assert_eq!(cpu.gpr.read(8), 1);
    assert_eq!(cpu.get_mem(DATA, 8), 0);
}

#[test]
fn csr_instructions() {
    // csrrw x5, mscratch, x6
    let cpu = run_one(enc_csr(0x340, 6, 1, 5), |cpu| {
        cpu.csr_regs.mscratch = 0x11;
        cpu.gpr.write(6, 0x22);
    });
    assert_eq!((cpu.gpr.read(5), cpu.csr_regs.mscratch), (0x11, 0x22));
    // csrrs x5, mscratch, x6
    let cpu = run_one(enc_csr(0x340, 6, 2, 5), |cpu| {
        cpu.csr_regs.mscratch = 0x11;
        cpu.gpr.write(6, 0x22);
    });
    assert_eq!((cpu.gpr.read(5), cpu.csr_regs.mscratch), (0x11, 0x33));
    // csrrc x5, mscratch, x6
    let cpu = run_one(enc_csr(0x340, 6, 3, 5), |cpu| {
        cpu.csr_regs.mscratch = 0x33;
        cpu.gpr.write(6, 0x22);
    });
    assert_eq!((cpu.gpr.read(5), cpu.csr_regs.mscratch), (0x33, 0x11));
    // csrrwi x5, mscratch, 31; csrrsi x5, mscratch, 4; csrrci x5, mscratch, 1
    let cpu = run_one(enc_csr(0x340, 31, 5, 5), |cpu| cpu.csr_regs.mscratch = 0x11);
    assert_eq!((cpu.gpr.read(5), cpu.csr_regs.mscratch), (0x11, 31));
    let cpu = run_one(enc_csr(0x340, 4, 6, 5), |cpu| cpu.csr_regs.mscratch = 0x11);
    assert_eq!((cpu.gpr.read(5), cpu.csr_regs.mscratch), (0x11, 0x15));
    let cpu = run_one(enc_csr(0x340, 1, 7, 5), |cpu| cpu.csr_regs.mscratch = 0x11);
    assert_eq!((cpu.gpr.read(5), cpu.csr_regs.mscratch), (0x11, 0x10));
    // csrrw x5, mscratch, x5 swaps.
    let cpu = run_one(enc_csr(0x340, 5, 1, 5), |cpu| {
        cpu.csr_regs.mscratch = 0x11;
        cpu.gpr.write(5, 0x22);
    });
    assert_eq!((cpu.gpr.read(5), cpu.csr_regs.mscratch), (0x11, 0x22));
}

#[test]
fn csr_read_forms_do_not_write() {
    // csrrs x5, mhartid, x0 reads a read-only register.
    let cpu = run_one(enc_csr(0xf14, 0, 2, 5), |cpu| cpu.csr_regs.mhartid = 9);
    assert_eq!((cpu.gpr.read(5), cpu.csr_regs.mcause), (9, 0));
    // csrrc x5, cycle, x0 and csrrsi x5, cycle, 0 too.
    let cpu = run_one(enc_csr(0xc00, 0, 3, 5), |cpu| cpu.csr_regs.mcycle = 7);
    assert_eq!((cpu.gpr.read(5), cpu.csr_regs.mcause), (7, 0));
    let cpu = run_one(enc_csr(0xc00, 0, 6, 5), |cpu| cpu.csr_regs.mcycle = 7);
    assert_eq!((cpu.gpr.read(5), cpu.csr_regs.mcause), (7, 0));
    // With a source that is not x0 the same instruction would write, and is illegal,
    // even if the register holds zero.
    let cpu = run_one(enc_csr(0xf14, 6, 2, 5), |_| {});
    assert_eq!((cpu.gpr.read(5), cpu.csr_regs.mcause), (0, 2));
    assert_eq!(cpu.csr_regs.mtval, enc_csr(0xf14, 6, 2, 5) as u64);
    // csrrw x5, mhartid, x0 always writes, and is illegal.
    let cpu = run_one(enc_csr(0xf14, 0, 1, 5), |_| {});
    assert_eq!(cpu.csr_regs.mcause, 2);
    // csrrs x0, mscratch, x0 leaves the register as it is; csrrw x5, mscratch, x0 writes zero.
    let cpu = run_one(enc_csr(0x340, 0, 2, 0), |cpu| cpu.csr_regs.mscratch = 0x55);
    assert_eq!(cpu.csr_regs.mscratch, 0x55);
    let cpu = run_one(enc_csr(0x340, 0, 1, 5), |cpu| cpu.csr_regs.mscratch = 0x55);
    assert_eq!((cpu.gpr.read(5), cpu.csr_regs.mscratch), (0x55, 0));
}

#[test]
fn csr_access_needs_privilege() {
    // csrrs x5, mstatus, x0 from Supervisor mode
    let inst = enc_csr(0x300, 0, 2, 5);
    let cpu = run_one(inst, |cpu| cpu.cur_priv = PrivilegeLevels::Supervisor);
    assert_eq!((cpu.csr_regs.mcause, cpu.csr_regs.mtval), (2, inst as u64));
    assert_eq!(cpu.cur_priv, PrivilegeLevels::Machine);
    assert_eq!(cpu.csr_regs.mstatus & 0x1800, 0x0800);
    // csrrs x5, sstatus, x0 from User mode
    let cpu = run_one(enc_csr(0x100, 0, 2, 5), |cpu| cpu.cur_priv = PrivilegeLevels::User);
    assert_eq!(cpu.csr_regs.mcause, 2);
    // an address that names no register
    let cpu = run_one(enc_csr(0x7c0, 0, 2, 5), |_| {});
    assert_eq!(cpu.csr_regs.mcause, 2);
    // csrrs x5, cycle, x0 from User mode
    let cpu = run_one(enc_csr(0xc00, 0, 2, 5), |cpu| cpu.cur_priv = PrivilegeLevels::User);
    assert_eq!(cpu.csr_regs.mcause, 0);
}

#[test]
fn time_register_follows_the_platform_timer() {
    let mut cpu = hart(&[0x13, 0x13, 0x13, enc_csr(0xc01, 0, 2, 5)]);
    cpu.execute(4);
    // The register holds the timer as it was sampled at the end of the third cycle,
    // before the tick of that cycle.
    assert_eq!(cpu.gpr.read(5), 2);
    assert_eq!(cpu.mmu.caches.bus.mtime(), 4);
}

#[test]
fn mret_returns_to_the_saved_mode_and_pc() {
    let cpu = run_one(MRET, |cpu| {
        cpu.csr_regs.mepc = BASE + 0x40;
        cpu.csr_regs.mstatus = 0x0880;
    });
    assert_eq!(cpu.cur_priv, PrivilegeLevels::Supervisor);
    assert_eq!(cpu.npc, BASE + 0x40);
    assert_eq!(cpu.csr_regs.mstatus & 0x1888, 0x88);
    // Below Machine mode it is no instruction.
    let cpu = run_one(MRET, |cpu| cpu.cur_priv = PrivilegeLevels::Supervisor);
    assert_eq!((cpu.csr_regs.mcause, cpu.csr_regs.mtval), (2, MRET as u64));
}

#[test]
fn sret_returns_to_the_saved_mode_and_pc() {
    let cpu = run_one(SRET, |cpu| {
        cpu.csr_regs.sepc = BASE + 0x40;
        cpu.csr_regs.mstatus = 0x120;
        cpu.cur_priv = PrivilegeLevels::Supervisor;
    });
    assert_eq!(cpu.cur_priv, PrivilegeLevels::Supervisor);
    assert_eq!(cpu.npc, BASE + 0x40);
    assert_eq!(cpu.csr_regs.mstatus & 0x122, 0x22);
    let cpu = run_one(SRET, |cpu| cpu.csr_regs.sepc = BASE + 0x40);
    assert_eq!((cpu.cur_priv, cpu.npc), (PrivilegeLevels::User, BASE + 0x40));
    let cpu = run_one(SRET, |cpu| cpu.cur_priv = PrivilegeLevels::User);
    assert_eq!(cpu.csr_regs.mcause, 2);
    // It returns from Supervisor mode whatever TSR holds.
    let cpu = run_one(SRET, |cpu| {
        cpu.csr_regs.sepc = BASE + 0x40;
        cpu.csr_regs.mstatus = 0x40_0000;
        cpu.cur_priv = PrivilegeLevels::Supervisor;
    });
    assert_eq!(cpu.csr_regs.mcause, 0);
    assert_eq!((cpu.cur_priv, cpu.npc), (PrivilegeLevels::User, BASE + 0x40));
}

#[test]
fn sret_undoes_a_delegated_trap_with_tsr_set() {
    for (privi, sie) in [
        (PrivilegeLevels::User, false),
        (PrivilegeLevels::User, true),
        (PrivilegeLevels::Supervisor, false),
        (PrivilegeLevels::Supervisor, true),
    ] {
        let mut cpu = hart(&[]);
        cpu.cur_priv = privi;
        cpu.csr_regs.mstatus = 0xa_0042_0000 | if sie { 2 } else { 0 };
        cpu.csr_regs.medeleg = 0x300;
        cpu.csr_regs.stvec = BASE + 0x400;
        cpu.pc = BASE + 0x20;
        cpu.handle_exceptions(if privi == PrivilegeLevels::User {
            TrapType::EnvironmentCallFromUMode
        } else {
            TrapType::EnvironmentCallFromSMode
        });
        assert_eq!(cpu.cur_priv, PrivilegeLevels::Supervisor);
        assert_eq!(cpu.npc, BASE + 0x400);
        assert_eq!(cpu.step(SRET), Ok(()));
        assert_eq!(cpu.cur_priv, privi);
        assert_eq!(cpu.npc, BASE + 0x20);
        // SIE is back, SPIE is set, SPP and MPRV are clear, TSR is as it was.
        assert_eq!(cpu.csr_regs.mstatus, 0xa_0040_0020 | if sie { 2 } else { 0 });
    }
}

#[test]
fn trap_then_mret_resumes_where_the_trap_came_from() {
    let mut cpu = hart(&[ECALL, 0x13]);
    cpu.set_mem(HANDLER, enc_csr(0x341, 0, 2, 5) as u64, 4); // csrr x5, mepc
    cpu.set_mem(HANDLER + 4, enc_i(4, 5, 0, 5, 0x13) as u64, 4); // addi x5, x5, 4
    cpu.set_mem(HANDLER + 8, enc_csr(0x341, 5, 1, 0) as u64, 4); // csrw mepc, x5
    cpu.set_mem(HANDLER + 12, MRET as u64, 4);
    cpu.csr_regs.mstatus = 0x8;
    cpu.cur_priv = PrivilegeLevels::User;
    cpu.execute(1);
    assert_eq!((cpu.cur_priv, cpu.npc), (PrivilegeLevels::Machine, HANDLER));
    assert_eq!(cpu.csr_regs.mstatus & 0x8, 0);
    cpu.execute(4);
    assert_eq!((cpu.cur_priv, cpu.npc), (PrivilegeLevels::User, BASE + 4));
    assert_eq!(cpu.csr_regs.mstatus & 0x8, 0x8);
    cpu.execute(1);
    assert_eq!(cpu.pc, BASE + 4);
    assert_eq!(cpu.csr_regs.minstret, 5);
    assert_eq!(cpu.csr_regs.mcycle, 6);
}

#[test]
fn supervisor_ecall_has_cause_nine() {
    let cpu = run_one(ECALL, |cpu| cpu.cur_priv = PrivilegeLevels::Supervisor);
    assert_eq!((cpu.csr_regs.mcause, cpu.csr_regs.mepc), (9, BASE));
    assert_eq!(cpu.csr_regs.mstatus & 0x1800, 0x0800);
}

#[test]
fn fences_and_wfi_do_nothing_visible() {
    for inst in [0x0ff0_000f, FENCE_I, WFI, SFENCE_VMA] {
        let cpu = run_one(inst, |cpu| cpu.gpr.write(5, 5));
        assert_eq!((cpu.csr_regs.mcause, cpu.npc), (0, BASE + 4));
        assert_eq!(cpu.csr_regs.minstret, 1);
        assert_eq!(cpu.gpr.read(5), 5);
    }
    let cpu = run_one(SFENCE_VMA, |cpu| cpu.cur_priv = PrivilegeLevels::User);
    assert_eq!(cpu.csr_regs.mcause, 2);
    let cpu = run_one(SFENCE_VMA, |cpu| {
        cpu.cur_priv = PrivilegeLevels::Supervisor;
        cpu.csr_regs.mstatus = 0x10_0000;
    });
    assert_eq!(cpu.csr_regs.mcause, 2);
    let cpu = run_one(SFENCE_VMA, |cpu| cpu.cur_priv = PrivilegeLevels::Supervisor);
    assert_eq!(cpu.csr_regs.mcause, 0);
}

#[test]
fn fence_i_empties_the_instruction_cache() {
    let mut cpu = hart(&[0x13, 0x13, FENCE_I, 0x13]);
    cpu.execute(2);
    assert_eq!(cpu.mmu.caches.show_perf().icache.hit, 1);
    assert_eq!(cpu.mmu.caches.show_perf().icache.miss, 1);
    cpu.execute(2);
    assert_eq!(cpu.mmu.caches.show_perf().icache.hit, 2);
    assert_eq!(cpu.mmu.caches.show_perf().icache.miss, 2);
}

fn pte(pa: u64, flags: u64) -> u64 {
    (pa >> 12) << 10 | flags
}

#[test]
fn fetch_from_a_page_without_execute_permission_faults() {
    let mut cpu = hart(&[0x13]);
    let root = 0x8000_4000u64;
    cpu.set_mem(root + 2 * 8, pte(0x8000_0000, 0xc7), 8);
    cpu.csr_regs.satp = 8 << 60 | root >> 12;
    cpu.cur_priv = PrivilegeLevels::Supervisor;
    cpu.execute(1);
    assert_eq!((cpu.csr_regs.mcause, cpu.csr_regs.mtval, cpu.csr_regs.mepc), (12, BASE, BASE));
    assert_eq!(cpu.cur_priv, PrivilegeLevels::Machine);
    // Machine mode itself is not translated: the handler address is physical.
    assert_eq!(cpu.read(HANDLER, 4, AccessType::Fetch(HANDLER)), Ok(0));
}

#[test]
fn mprv_gives_machine_mode_the_rights_of_mpp_for_data() {
    let root = 0x8000_4000u64;
    let setup = |cpu: &mut CpuCore, mstatus: u64| {
        cpu.set_mem(root, pte(0x8000_0000, 0xc7), 8);
        cpu.csr_regs.satp = 8 << 60 | root >> 12;
        cpu.csr_regs.mstatus = mstatus;
        cpu.set_mem(DATA, 0x77, 8);
    };
    // Without MPRV a load in Machine mode is physical.
    let mut cpu = hart(&[]);
    setup(&mut cpu, 0x0800);
    assert_eq!(cpu.read(DATA, 8, AccessType::Load), Ok(0x77));
    assert_eq!(cpu.read(0x2000, 8, AccessType::Load), Err(TrapType::LoadAccessFault(0x2000)));
    // With MPRV and MPP = Supervisor it is translated; the fetch stays physical.
    let mut cpu = hart(&[]);
    setup(&mut cpu, 0x2_0800);
    assert_eq!(cpu.read(0x2000, 8, AccessType::Load), Ok(0x77));
    assert_eq!(cpu.read(DATA, 8, AccessType::Load), Err(TrapType::LoadPageFault(DATA)));
    assert_eq!(cpu.read(BASE, 4, AccessType::Fetch(BASE)), Ok(0));
    assert_eq!(cpu.write(0x2000, 0x99, 8, AccessType::Store), Ok(()));
    assert_eq!(cpu.get_mem(DATA, 8), 0x99);
    assert_eq!(
        cpu.write(DATA, 0x99, 8, AccessType::Store),
        Err(TrapType::StorePageFault(DATA))
    );
    assert_eq!(cpu.write(0x2001, 0, 2, AccessType::Amo), Err(TrapType::StoreAddressMisaligned(0x2001)));
}

#[test]
fn external_interrupt_goes_through_the_plic_to_supervisor_mode() {
    let mut cpu = hart(&[0x13, 0x13, 0x13]);
    cpu.set_mem(PLIC_BASE + 4 * 7, 3, 4);
    cpu.set_mem(PLIC_BASE + 0x2080, 1 << 7, 4);
    cpu.csr_regs.mideleg = 0x200;
    cpu.csr_regs.mie = 0x200;
    cpu.csr_regs.stvec = BASE + 0x400;
    cpu.csr_regs.mstatus = 0x2;
    cpu.cur_priv = PrivilegeLevels::Supervisor;
    cpu.execute(1);
    assert_eq!(cpu.csr_regs.scause, 0);
    cpu.mmu.caches.bus.raise_irq(7);
    cpu.execute(1);
    assert_eq!(cpu.csr_regs.scause, 1 << 63 | 9);
    assert_eq!(cpu.csr_regs.sepc, BASE + 8);
    assert_eq!(cpu.npc, BASE + 0x400);
    assert_eq!(cpu.cur_priv, PrivilegeLevels::Supervisor);
    assert_eq!(cpu.csr_regs.mstatus & 0x122, 0x120);
    assert_eq!(cpu.csr_regs.minstret, 2);
    // The handler claims the source; the line falls and the pending bit with it.
    assert_eq!(cpu.get_mem(PLIC_BASE + 0x20_1004, 4), 7);
    cpu.check_pending_int();
    assert_eq!(cpu.csr_regs.pending_interrupts() & 0x200, 0);
}

#[test]
fn bits_that_are_not_writable_keep_their_reset_value() {
    // csrrw x0, csr, x5 with all ones in x5, on a fresh hart for every register.
    let written = |csr: u32| {
        let cpu = run_one(enc_csr(csr, 5, 1, 0), |cpu| cpu.gpr.write(5, u64::MAX));
        assert_eq!(cpu.npc, BASE + 4);
        cpu.csr_regs
    };
    assert_eq!(written(0x300).mstatus, 0xa_0000_0000 | 0x7e_19aa);
    assert_eq!(written(0x100).mstatus, 0xa_0000_0000 | 0xc_0122);
    assert_eq!(written(0x301).misa, 0x8000_0000_0014_1101);
    assert_eq!(written(0x302).medeleg, 0xb3ff);
    assert_eq!(written(0x303).mideleg, 0x222);
    assert_eq!(written(0x304).mie, 0xaaa);
    assert_eq!(written(0x104).mie, 0x222);
    assert_eq!(written(0x344).mip, 0x22);
    assert_eq!(written(0x144).mip, 0x22);
    assert_eq!(written(0x305).mtvec, !2);
    assert_eq!(written(0x105).stvec, !2);
    assert_eq!(written(0x341).mepc, !3);
    assert_eq!(written(0x141).sepc, !3);
    assert_eq!(written(0x306).mcounteren, 7);
    assert_eq!(written(0x106).scounteren, 7);
    assert_eq!(written(0x342).mcause, u64::MAX);
    assert_eq!(written(0x143).stval, u64::MAX);
    assert_eq!(written(0x340).mscratch, u64::MAX);
    assert_eq!(written(0x3a0).pmpcfg0, u64::MAX);
    // All ones select a mode that satp does not support: the write is refused.
    assert_eq!(written(0x180).satp, 0);
    // The counters take the write, and then count the instruction that wrote them.
    assert_eq!(written(0xb00).mcycle, 0);
    assert_eq!(written(0xb02).minstret, 0);
}

#[test]
fn saved_pcs_stay_aligned() {
    let mut cpu = hart(&[enc_csr(0x341, 5, 1, 0), enc_csr(0x141, 5, 1, 0), MRET]);
    cpu.gpr.write(5, BASE + 0x43);
    cpu.execute(3);
    assert_eq!(cpu.csr_regs.mepc, BASE + 0x40);
    assert_eq!(cpu.csr_regs.sepc, BASE + 0x40);
    assert_eq!(cpu.npc, BASE + 0x40);
}

#[test]
fn recursive_sum_runs_to_a_good_trap() {
    // sum(n) = n + sum(n - 1), with the return address and n kept on the stack.
    let program = [
        0x0000_0117,                   // auipc sp, 0
        enc_i(0x7f8, 2, 0, 2, 0x13),   // addi sp, sp, 0x7f8
        enc_i(10, 0, 0, 10, 0x13),     // addi a0, x0, 10
        enc_j(20, 1),                  // jal ra, sum
        enc_i(-55, 10, 0, 10, 0x13),   // addi a0, a0, -55
        0x0010_0073,                   // ebreak
        0x13,
        0x13,
        // sum:
        enc_b(36, 0, 10, 0),           // beq a0, x0, done
        enc_i(-16, 2, 0, 2, 0x13),     // addi sp, sp, -16
        enc_s(8, 1, 2, 3),             // sd ra, 8(sp)
        enc_s(0, 10, 2, 3),            // sd a0, 0(sp)
        enc_i(-1, 10, 0, 10, 0x13),    // addi a0, a0, -1
        enc_j(-20, 1),                 // jal ra, sum
        enc_i(0, 2, 3, 5, 0x03),       // ld t0, 0(sp)
        enc_i(8, 2, 3, 1, 0x03),       // ld ra, 8(sp)
        enc_i(16, 2, 0, 2, 0x13),      // addi sp, sp, 16
        enc_r(0, 5, 10, 0, 10, 0x33),  // add a0, a0, t0
        enc_i(0, 1, 0, 0, 0x67),       // done: jalr x0, 0(ra)
    ];
    let mut cpu = hart(&program);
    let mut cycles = 0;
    while cpu.cpu_state == CpuState::Running {
        cpu.execute(1);
        cpu.check_to_host();
        cycles += 1;
        assert!(cycles < 1000);
    }
    assert_eq!(cpu.csr_regs.mcause, 0);
    assert_eq!(cpu.cpu_state, CpuState::Stop);
    let a0_val = cpu.gpr.read_by_name("a0");
    assert_eq!(a0_val, 0);
    assert_eq!(cpu.gpr.read_by_name("sp"), BASE + 0x7f8);
}
