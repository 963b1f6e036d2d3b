use rv64emu::bus::{Bus, DeviceEnum, DeviceType, MEM_BASE, SERIAL_PORT};
use rv64emu::cpu_core::{CpuCore, CpuCoreBuild, CpuState};
use rv64emu::device_dram::DeviceDram;
use rv64emu::device_uart::DeviceUart;
use rv64emu::privilege::PrivilegeLevels;

const ZERO: u32 = 0;
const T0: u32 = 5;
const T1: u32 = 6;
const T2: u32 = 7;
const A0: u32 = 10;
const A1: u32 = 11;
const A2: u32 = 12;
const T3: u32 = 28;
const T4: u32 = 29;
const T5: u32 = 30;

fn r_type(funct7: u32, rs2: u32, rs1: u32, funct3: u32, rd: u32, opcode: u32) -> u32 {
    funct7 << 25 | rs2 << 20 | rs1 << 15 | funct3 << 12 | rd << 7 | opcode
}

fn i_type(imm: i32, rs1: u32, funct3: u32, rd: u32, opcode: u32) -> u32 {
    ((imm as u32) & 0xfff) << 20 | rs1 << 15 | funct3 << 12 | rd << 7 | opcode
}

fn s_type(imm: i32, rs2: u32, rs1: u32, funct3: u32, opcode: u32) -> u32 {
    let imm = imm as u32;
    ((imm >> 5) & 0x7f) << 25 | rs2 << 20 | rs1 << 15 | funct3 << 12 | (imm & 0x1f) << 7 | opcode
}

fn u_type(imm20: u32, rd: u32, opcode: u32) -> u32 {
    (imm20 & 0xf_ffff) << 12 | rd << 7 | opcode
}

fn j_type(offset: i32, rd: u32) -> u32 {
    let imm = offset as u32;
    ((imm >> 20) & 1) << 31
        | ((imm >> 1) & 0x3ff) << 21
        | ((imm >> 11) & 1) << 20
        | ((imm >> 12) & 0xff) << 12
        | rd << 7
        | 0x6f
}

fn addi(rd: u32, rs1: u32, imm: i32) -> u32 {
    i_type(imm, rs1, 0, rd, 0x13)
}

fn lui(rd: u32, imm20: u32) -> u32 {
    u_type(imm20, rd, 0x37)
}

fn auipc(rd: u32, imm20: u32) -> u32 {
    u_type(imm20, rd, 0x17)
}

fn sb(rs2: u32, rs1: u32, imm: i32) -> u32 {
    s_type(imm, rs2, rs1, 0, 0x23)
}

fn sd(rs2: u32, rs1: u32, imm: i32) -> u32 {
    s_type(imm, rs2, rs1, 3, 0x23)
}

fn ld(rd: u32, rs1: u32, imm: i32) -> u32 {
    i_type(imm, rs1, 3, rd, 0x03)
}

fn csrrw(rd: u32, csr: u32, rs1: u32) -> u32 {
    csr << 20 | rs1 << 15 | 1 << 12 | rd << 7 | 0x73
}

fn csrrs(rd: u32, csr: u32, rs1: u32) -> u32 {
    csr << 20 | rs1 << 15 | 2 << 12 | rd << 7 | 0x73
}

fn csrrsi(rd: u32, csr: u32, zimm: u32) -> u32 {
    csr << 20 | zimm << 15 | 6 << 12 | rd << 7 | 0x73
}

const EBREAK: u32 = 0x0010_0073;
const ECALL: u32 = 0x0000_0073;
const WFI: u32 = 0x1050_0073;

fn image(program: &[u32]) -> Vec<u8> {
    let mut bytes = Vec::new();
    for word in program {
        bytes.push(*word as u8);
        bytes.push((*word >> 8) as u8);
        bytes.push((*word >> 16) as u8);
        bytes.push((*word >> 24) as u8);
    }
    bytes
}

fn machine(program: &[u32]) -> CpuCore {
    let mut bus = Bus::new();
    let mut dram = DeviceDram::new(0x10_0000);
    assert_eq!(dram.load(0, &image(program)), program.len() * 4);
    assert!(bus.add_device(DeviceType {
        start: MEM_BASE,
        len: 0x10_0000,
        instance: DeviceEnum::Dram(dram),
        name: "DRAM",
    }));
    assert!(bus.add_device(DeviceType {
        start: SERIAL_PORT,
        len: 1,
        instance: DeviceEnum::Uart(DeviceUart::new()),
        name: "UART",
    }));
    let mut cpu = CpuCoreBuild::new(bus)
        .with_boot_pc(0x8000_0000)
        .with_hart_id(0)
        .with_smode(true)
        .build();
    cpu.cpu_state = CpuState::Running;
    cpu
}

#[test]
fn hello_world_reaches_the_uart() {
    let mut program = vec![lui(T0, 0x10000)];
    for c in "Hello\n".bytes() {
        program.push(addi(T1, ZERO, c as i32));
        program.push(sb(T1, T0, 0));
    }
    program.push(EBREAK);
    let mut cpu = machine(&program);
    let mut cycles = 0;
    while cpu.cpu_state == CpuState::Running {
        cpu.execute(1);
        cycles += 1;
        assert!(cycles < 100);
    }
    assert_eq!(cpu.cpu_state, CpuState::Stop);
    assert_eq!(cycles, program.len());
    // The devices are kept in the order of their windows: the UART comes first.
    assert_eq!(cpu.mmu.caches.bus.device_name(0), Some("UART"));
    assert_eq!(cpu.mmu.caches.bus.take_output(0), b"Hello\n".to_vec());
    assert_eq!(cpu.mmu.caches.bus.take_output(0), Vec::<u8>::new());
    assert_eq!(cpu.csr_regs.minstret, program.len() as u64);
    assert_eq!(cpu.csr_regs.mcycle, program.len() as u64);
}

#[test]
fn timer_interrupt_is_delivered_to_mtvec() {
    let program = [
        auipc(T0, 0),              // t0 = 0x8000_0000
        addi(T0, T0, 0x100),       // t0 = 0x8000_0100
        csrrw(ZERO, 0x305, T0),    // mtvec = t0
        lui(T2, 0x200c),           // t2 = 0x0200_c000
        ld(T3, T2, -8),            // t3 = mtime
        addi(T3, T3, 1000),
        lui(T4, 0x2004),           // t4 = 0x0200_4000
        sd(T3, T4, 0),             // mtimecmp = mtime + 1000
        addi(T5, ZERO, 0x80),
        csrrs(ZERO, 0x304, T5),    // mie.MTIE = 1
        csrrsi(ZERO, 0x300, 8),    // mstatus.MIE = 1
        WFI,
        j_type(-4, ZERO),
    ];
    let mut cpu = machine(&program);
    let mut cycles = 0;
    while cpu.csr_regs.mcause == 0 {
        cpu.execute(1);
        cycles += 1;
        assert!(cycles < 2000);
    }
    assert_eq!(cpu.csr_regs.mcause, (1 << 63) | 7);
    assert_eq!(cpu.npc, 0x8000_0100);
    assert_eq!(cpu.cur_priv, PrivilegeLevels::Machine);
    // MIE is clear and MPIE holds the old MIE.
    assert_eq!(cpu.csr_regs.mstatus & 0x8, 0);
    assert_eq!(cpu.csr_regs.mstatus & 0x80, 0x80);
    // The interrupt saved the pc of the instruction that would have run next.
    assert!(cpu.csr_regs.mepc == 0x8000_002c || cpu.csr_regs.mepc == 0x8000_0030);
    assert_eq!(cpu.csr_regs.mtval, 0);
    // mtime was read as 4 and the compare value is 1004: the line rises when mtime reaches it.
    assert!(cycles > 1000);
}

fn pte(pa: u64, flags: u64) -> u64 {
    (pa >> 12) << 10 | flags
}

#[test]
fn store_to_read_only_page_faults_into_supervisor_mode() {
    let program = [lui(T0, 1), sd(ZERO, T0, 0)];
    let mut cpu = machine(&program);
    let root = 0x8001_0000u64;
    let l1 = 0x8001_1000u64;
    let l0 = 0x8001_2000u64;
    // The code runs from a 1 GiB identity leaf; 0x1000 is mapped readable but not writable.
    cpu.set_mem(root + 2 * 8, pte(0x8000_0000, 0xcb), 8);
    cpu.set_mem(root, pte(l1, 0x1), 8);
    cpu.set_mem(l1, pte(l0, 0x1), 8);
    cpu.set_mem(l0 + 8, pte(0x8002_0000, 0xc3), 8);
    cpu.csr_regs.satp = 8 << 60 | root >> 12;
    cpu.csr_regs.medeleg = 1 << 15;
    cpu.csr_regs.stvec = 0x8000_0200;
    cpu.cur_priv = PrivilegeLevels::Supervisor;
    cpu.execute(1);
    assert_eq!(cpu.gpr.read(T0 as u64), 0x1000);
    cpu.execute(1);
    assert_eq!(cpu.cur_priv, PrivilegeLevels::Supervisor);
    assert_eq!(cpu.csr_regs.scause, 15);
    assert_eq!(cpu.csr_regs.stval, 0x1000);
    assert_eq!(cpu.csr_regs.sepc, 0x8000_0004);
    assert_eq!(cpu.npc, 0x8000_0200);
    // SPP records Supervisor; the trap counts as a cycle, not as an instruction.
    assert_eq!(cpu.csr_regs.mstatus & 0x100, 0x100);
    assert_eq!(cpu.csr_regs.minstret, 1);
    assert_eq!(cpu.csr_regs.mcycle, 2);
}

#[test]
fn load_from_read_only_page_succeeds() {
    let program = [lui(T0, 1), ld(T1, T0, 8)];
    let mut cpu = machine(&program);
    let root = 0x8001_0000u64;
    let l1 = 0x8001_1000u64;
    let l0 = 0x8001_2000u64;
    cpu.set_mem(root + 2 * 8, pte(0x8000_0000, 0xcb), 8);
    cpu.set_mem(root, pte(l1, 0x1), 8);
    cpu.set_mem(l1, pte(l0, 0x1), 8);
    cpu.set_mem(l0 + 8, pte(0x8002_0000, 0xc3), 8);
    cpu.set_mem(0x8002_0008, 0x1122_3344_5566_7788, 8);
    cpu.csr_regs.satp = 8 << 60 | root >> 12;
    cpu.cur_priv = PrivilegeLevels::Supervisor;
    cpu.execute(2);
    assert_eq!(cpu.gpr.read(T1 as u64), 0x1122_3344_5566_7788);
    assert_eq!(cpu.csr_regs.scause, 0);
    assert_eq!(cpu.csr_regs.mcause, 0);
}

#[test]
fn misaligned_superpage_leaf_is_a_page_fault() {
    let program = [lui(T0, 0x200), ld(T1, T0, 0)];
    let mut cpu = machine(&program);
    let root = 0x8001_0000u64;
    let l1 = 0x8001_1000u64;
    cpu.set_mem(root + 2 * 8, pte(0x8000_0000, 0xcb), 8);
    cpu.set_mem(root, pte(l1, 0x1), 8);
    // A level-1 leaf for va 0x20_0000 whose page number has a low part that is not zero.
    cpu.set_mem(l1 + 8, pte(0x8002_1000, 0xc3), 8);
    cpu.csr_regs.satp = 8 << 60 | root >> 12;
    cpu.csr_regs.mtvec = 0x8000_0300;
    cpu.cur_priv = PrivilegeLevels::Supervisor;
    cpu.execute(2);
    assert_eq!(cpu.csr_regs.mcause, 13);
    assert_eq!(cpu.csr_regs.mtval, 0x20_0000);
    assert_eq!(cpu.cur_priv, PrivilegeLevels::Machine);
    assert_eq!(cpu.npc, 0x8000_0300);

    // With an aligned page number the same load goes through.
    let mut cpu = machine(&program);
    cpu.set_mem(root + 2 * 8, pte(0x8000_0000, 0xcb), 8);
    cpu.set_mem(root, pte(l1, 0x1), 8);
    cpu.set_mem(l1 + 8, pte(0x8000_0000, 0xc3), 8);
    cpu.csr_regs.satp = 8 << 60 | root >> 12;
    cpu.cur_priv = PrivilegeLevels::Supervisor;
    cpu.execute(2);
    assert_eq!(cpu.csr_regs.mcause, 0);
    assert_eq!(cpu.gpr.read(T1 as u64), (ld(T1, T0, 0) as u64) << 32 | lui(T0, 0x200) as u64);
}

#[test]
fn delegated_user_ecall_traps_to_supervisor() {
    let program = [addi(T0, ZERO, 1), ECALL];
    let mut cpu = machine(&program);
    cpu.csr_regs.medeleg = 1 << 8;
    cpu.csr_regs.stvec = 0x8000_0400;
    cpu.cur_priv = PrivilegeLevels::User;
    cpu.execute(2);
    assert_eq!(cpu.cur_priv, PrivilegeLevels::Supervisor);
    assert_eq!(cpu.csr_regs.scause, 8);
    assert_eq!(cpu.csr_regs.sepc, 0x8000_0004);
    assert_eq!(cpu.csr_regs.stval, 0);
    assert_eq!(cpu.npc, 0x8000_0400);
    // SPP records User.
    assert_eq!(cpu.csr_regs.mstatus & 0x100, 0);
}

#[test]
fn a_trap_ends_the_cycle_before_interrupts_are_looked_at() {
    // A machine timer interrupt is due, since the timer and its compare value are both
    // zero at reset; the cycle of the delegated ECALL must not take it.
    let program = [ECALL];
    let mut cpu = machine(&program);
    cpu.csr_regs.medeleg = 1 << 8;
    cpu.csr_regs.mie = 0x80;
    cpu.csr_regs.stvec = 0x8000_0400;
    cpu.csr_regs.mtvec = 0x8000_0800;
    cpu.cur_priv = PrivilegeLevels::User;
    cpu.execute(1);
    assert_eq!(cpu.cur_priv, PrivilegeLevels::Supervisor);
    assert_eq!(cpu.csr_regs.scause, 8);
    assert_eq!(cpu.csr_regs.sepc, 0x8000_0000);
    assert_eq!(cpu.csr_regs.mcause, 0);
    assert_eq!(cpu.csr_regs.mepc, 0);
    assert_eq!(cpu.npc, 0x8000_0400);
    assert_eq!(cpu.csr_regs.minstret, 0);
    assert_eq!(cpu.csr_regs.mcycle, 1);
    // The platform did not advance, and the lines were not sampled.
    assert_eq!(cpu.mmu.caches.bus.mtime(), 0);
    assert_eq!(cpu.csr_regs.hw_ip, 0);
    // The first instruction of the handler, a no-op, succeeds; its cycle takes the
    // interrupt.
    cpu.set_mem(0x8000_0400, 0x13, 4);
    cpu.execute(1);
    assert_eq!(cpu.cur_priv, PrivilegeLevels::Machine);
    assert_eq!(cpu.csr_regs.mcause, 1 << 63 | 7);
    assert_eq!(cpu.csr_regs.mepc, 0x8000_0404);
    assert_eq!(cpu.npc, 0x8000_0800);
    assert_eq!(cpu.mmu.caches.bus.mtime(), 1);
}

#[test]
fn user_ecall_without_delegation_traps_to_machine() {
    let program = [ECALL];
    let mut cpu = machine(&program);
    cpu.csr_regs.mtvec = 0x8000_0400;
    cpu.cur_priv = PrivilegeLevels::User;
    cpu.execute(1);
    assert_eq!(cpu.cur_priv, PrivilegeLevels::Machine);
    assert_eq!(cpu.csr_regs.mcause, 8);
    assert_eq!(cpu.csr_regs.mepc, 0x8000_0000);
    // MPP records User.
    assert_eq!(cpu.csr_regs.mstatus & 0x1800, 0);
}

#[test]
fn machine_ecall_has_cause_eleven() {
    let mut cpu = machine(&[ECALL]);
    cpu.csr_regs.medeleg = 0xb3ff;
    cpu.execute(1);
    assert_eq!(cpu.cur_priv, PrivilegeLevels::Machine);
    assert_eq!(cpu.csr_regs.mcause, 11);
    assert_eq!(cpu.csr_regs.mstatus & 0x1800, 0x1800);
}

fn lr_d(rd: u32, rs1: u32) -> u32 {
    r_type(0x02 << 2, 0, rs1, 3, rd, 0x2f)
}

fn sc_d(rd: u32, rs2: u32, rs1: u32) -> u32 {
    r_type(0x03 << 2, rs2, rs1, 3, rd, 0x2f)
}

#[test]
fn lr_then_sc_succeeds_and_stores() {
    let program = [lr_d(A0, A1), sc_d(A2, T0, A1)];
    let mut cpu = machine(&program);
    cpu.set_mem(0x8000_1000, 0x1111, 8);
    cpu.gpr.write(A1 as u64, 0x8000_1000);
    cpu.gpr.write(T0 as u64, 0xfeed_face_cafe_beef);
    cpu.gpr.write(A2 as u64, 77);
    cpu.execute(2);
    assert_eq!(cpu.gpr.read(A0 as u64), 0x1111);
    assert_eq!(cpu.gpr.read(A2 as u64), 0);
    assert_eq!(cpu.get_mem(0x8000_1000, 8), 0xfeed_face_cafe_beef);
}

#[test]
fn sc_fails_after_an_intervening_store() {
    let program = [lr_d(A0, A1), sd(ZERO, A1, 0), sc_d(A2, T0, A1)];
    let mut cpu = machine(&program);
    cpu.set_mem(0x8000_1000, 0x1111, 8);
    cpu.gpr.write(A1 as u64, 0x8000_1000);
    cpu.gpr.write(T0 as u64, 0xfeed);
    cpu.execute(3);
    assert_eq!(cpu.gpr.read(A2 as u64), 1);
    assert_eq!(cpu.get_mem(0x8000_1000, 8), 0);
}

#[test]
fn sc_fails_after_a_trap() {
    let program = [lr_d(A0, A1), ECALL];
    let mut cpu = machine(&program);
    cpu.gpr.write(A1 as u64, 0x8000_1000);
    cpu.gpr.write(T0 as u64, 0xfeed);
    cpu.csr_regs.mtvec = 0x8000_0100;
    cpu.set_mem(0x8000_0100, sc_d(A2, T0, A1) as u64, 4);
    cpu.execute(3);
    assert_eq!(cpu.csr_regs.mcause, 11);
    assert_eq!(cpu.gpr.read(A2 as u64), 1);
    assert_eq!(cpu.get_mem(0x8000_1000, 8), 0);
}

#[test]
fn sc_without_reservation_fails() {
    let program = [sc_d(A2, T0, A1)];
    let mut cpu = machine(&program);
    cpu.gpr.write(A1 as u64, 0x8000_1000);
    cpu.gpr.write(T0 as u64, 5);
    cpu.execute(1);
    assert_eq!(cpu.gpr.read(A2 as u64), 1);
    assert_eq!(cpu.get_mem(0x8000_1000, 8), 0);
}

#[test]
fn guest_pass_on_tohost_stops_the_hart() {
    let program = [
        auipc(T0, 1),        // t0 = 0x8000_1000
        addi(T1, ZERO, 1),
        sd(T1, T0, 0),       // tohost = 1
        j_type(0, ZERO),
    ];
    let mut cpu = machine(&program);
    let mut cycles = 0;
    let mut exit_code = None;
    while cpu.cpu_state == CpuState::Running {
        cpu.execute(1);
        let request = cpu.check_to_host();
        if request.exit_code.is_some() {
            exit_code = request.exit_code;
        }
        assert_eq!(request.character, None);
        cycles += 1;
        assert!(cycles < 100);
    }
    assert_eq!(cpu.cpu_state, CpuState::Stop);
    assert_eq!(exit_code, Some(0));
    assert_eq!(cycles, 3);
    // The host interface was cleared after the read.
    assert_eq!(cpu.get_mem(0x8000_1000, 8), 0);
}

#[test]
fn guest_fail_on_tohost_aborts_the_hart() {
    let program = [auipc(T0, 1), addi(T1, ZERO, 7), sd(T1, T0, 0), j_type(0, ZERO)];
    let mut cpu = machine(&program);
    cpu.execute(3);
    let request = cpu.check_to_host();
    assert_eq!(request.exit_code, Some(3));
    assert_eq!(cpu.cpu_state, CpuState::Abort);
    cpu.execute(5);
    assert_eq!(cpu.csr_regs.mcycle, 3);
}

#[test]
fn tohost_character_request_is_handed_out() {
    let program = [j_type(0, ZERO)];
    let mut cpu = machine(&program);
    cpu.set_mem(0x8000_1000, 0x0101_0000_0000_0041, 8);
    let request = cpu.check_to_host();
    assert_eq!(request.character, Some(b'A'));
    assert_eq!(request.exit_code, None);
    assert_eq!(cpu.cpu_state, CpuState::Running);
}

#[test]
fn execute_does_nothing_when_not_running() {
    let mut cpu = machine(&[addi(T0, ZERO, 1)]);
    cpu.cpu_state = CpuState::Stop;
    cpu.execute(10);
    assert_eq!(cpu.gpr.read(T0 as u64), 0);
    assert_eq!(cpu.npc, 0x8000_0000);
    assert_eq!(cpu.csr_regs.mcycle, 0);
}

#[test]
fn ebreak_stops_and_halt_reports_a0() {
    let mut cpu = machine(&[addi(A0, ZERO, 42), EBREAK, addi(A0, ZERO, 1)]);
    cpu.execute(10);
    assert_eq!(cpu.cpu_state, CpuState::Stop);
    assert_eq!(cpu.gpr.read_by_name("a0"), 42);
    assert_eq!(cpu.halt(), 42);
    assert_eq!(cpu.csr_regs.minstret, 2);
}

#[test]
fn illegal_encoding_is_an_illegal_instruction_trap() {
    let mut cpu = machine(&[0xffff_ffff]);
    cpu.csr_regs.mtvec = 0x8000_0040;
    cpu.execute(1);
    assert_eq!(cpu.cpu_state, CpuState::Running);
    assert_eq!(cpu.csr_regs.mcause, 2);
    assert_eq!(cpu.csr_regs.mtval, 0xffff_ffff);
    assert_eq!(cpu.csr_regs.mepc, 0x8000_0000);
    assert_eq!(cpu.npc, 0x8000_0040);
    assert_eq!(cpu.csr_regs.minstret, 0);
    assert_eq!(cpu.csr_regs.mcycle, 1);
}

#[test]
fn fetch_outside_memory_is_an_access_fault() {
    let mut cpu = machine(&[]);
    cpu.set_pc(0x4000_0000);
    cpu.csr_regs.mtvec = 0x8000_0040;
    cpu.execute(1);
    assert_eq!(cpu.csr_regs.mcause, 1);
    assert_eq!(cpu.csr_regs.mtval, 0x4000_0000);
    assert_eq!(cpu.csr_regs.mepc, 0x4000_0000);
}

#[test]
fn x0_stays_zero() {
    let mut cpu = machine(&[addi(ZERO, ZERO, 5), lui(ZERO, 0x12345), ld(ZERO, ZERO, 0)]);
    cpu.execute(3);
    assert_eq!(cpu.gpr.read(0), 0);
    assert_eq!(cpu.get_regs()[0], 0);
}

#[test]
fn signature_dump_formats_words_as_hex_lines() {
    let mut cpu = machine(&[0x1234_abcd, 0x0000_00ff, 0xdead_beef]);
    cpu.gpr.write(A1 as u64, 0x8000_0000);
    cpu.gpr.write(A2 as u64, 0x8000_000c);
    assert_eq!(cpu.dump_signature(), Ok(b"1234abcd\n000000ff\ndeadbeef\n".to_vec()));
    cpu.gpr.write(A2 as u64, 0x8000_0009);
    assert_eq!(cpu.dump_signature(), Ok(b"1234abcd\n000000ff\ndeadbeef\n".to_vec()));
    cpu.gpr.write(A2 as u64, 0x8000_0008);
    assert_eq!(cpu.dump_signature(), Ok(b"1234abcd\n000000ff\n".to_vec()));
    cpu.gpr.write(A2 as u64, 0x8000_0000);
    assert_eq!(cpu.dump_signature(), Ok(Vec::new()));
    // A word that the bus does not serve is reported by its address.
    cpu.gpr.write(A1 as u64, 0x800f_fff8);
    cpu.gpr.write(A2 as u64, 0x8010_0010);
    assert_eq!(cpu.dump_signature(), Err(0x8010_0000));
    cpu.gpr.write(A2 as u64, 0x8010_0000);
    assert_eq!(cpu.dump_signature(), Ok(b"00000000\n00000000\n".to_vec()));
    cpu.gpr.write(A1 as u64, 0x4000_0000);
    assert_eq!(cpu.dump_signature(), Err(0x4000_0000));
}
