use rv64emu::bits::{get_field, set_field, sign_extend};
use rv64emu::bus::{Bus, BusTarget, DeviceEnum, DeviceType, CLINT_BASE, MEM_BASE, PLIC_BASE};
use rv64emu::cache_system::CacheSystem;
use rv64emu::cache_tags::{CachePerf, CacheTags};
use rv64emu::clint::Clint;
use rv64emu::cpu_core::{CpuCoreBuild, CpuState};
use rv64emu::csr_regs::{CsrRegs, CsrSlot};
use rv64emu::device_dram::DeviceDram;
use rv64emu::device_uart::DeviceUart;
use rv64emu::gpr::Gpr;
use rv64emu::inst_base::{parse_fields, AccessType, AluOp, AmoOp, BranchOp, CsrOp, FesvrCmd, InstKind};
use rv64emu::inst_decode::{instruction, InstDecode, INSTRUCTION_COUNT};
use rv64emu::inst_rv64a::amo_result;
use rv64emu::inst_rv64i::{alu, alu_w, branch_taken, load_extend};
use rv64emu::mmu::{decide_step, WalkStep};
use rv64emu::plic::Plic;
use rv64emu::privilege::PrivilegeLevels;
use rv64emu::reservation::LrScReservation;
use rv64emu::trace::TraceType;
use rv64emu::trap::{
    find_exception_target, find_interrupt, get_priority_interrupt, get_trap_pc, machine_return,
    supervisor_return, take_trap,
};
use rv64emu::traptype::TrapType;

const INT_MIN: u64 = 0x8000_0000_0000_0000;
const MINUS_ONE: u64 = u64::MAX;

#[test]
fn gpr_zero_register_is_hard_wired() {
    let mut g = Gpr::new();
    g.write(0, 0xdead_beef);
    assert_eq!(g.read(0), 0);
    g.write(5, 0x1234_5678_9abc_def0);
    assert_eq!(g.read(5), 0x1234_5678_9abc_def0);
    assert_eq!(g.read(6), 0);
    g.write(32, 7);
    assert_eq!(g.read(32), 0);
    assert_eq!(g.read(31), 0);
}

#[test]
fn gpr_names_follow_the_abi() {
    assert_eq!(Gpr::index_of_name("zero"), Some(0));
    assert_eq!(Gpr::index_of_name("ra"), Some(1));
    assert_eq!(Gpr::index_of_name("a0"), Some(10));
    assert_eq!(Gpr::index_of_name("a1"), Some(11));
    assert_eq!(Gpr::index_of_name("s11"), Some(27));
    assert_eq!(Gpr::index_of_name("t6"), Some(31));
    assert_eq!(Gpr::index_of_name("a"), None);
    assert_eq!(Gpr::index_of_name("a00"), None);
    assert_eq!(Gpr::index_of_name(""), None);
    assert_eq!(Gpr::index_of_name("A0"), None);
    assert_eq!(Gpr::index_of_name("a\u{e9}"), None);
    assert_eq!(Gpr::index_of_name("s1"), Some(9));
    assert_eq!(Gpr::index_of_name("s10"), Some(26));
    let mut g = Gpr::new();
    g.write(12, 99);
    assert_eq!(g.read_by_name("a2"), 99);
    assert_eq!(g.read_by_name("a3"), 0);
    assert_eq!(g.read_by_name("nothing"), 0);
}

#[test]
fn sign_extension_copies_the_top_kept_bit() {
    assert_eq!(sign_extend(0x7ff, 0x1000), 0x7ff);
    assert_eq!(sign_extend(0x800, 0x1000), 0xffff_ffff_ffff_f800);
    assert_eq!(sign_extend(0xfff, 0x1000), u64::MAX);
    assert_eq!(sign_extend(0x1_8000_0000, 0x1_0000_0000), 0xffff_ffff_8000_0000);
    assert_eq!(sign_extend(0xff, 0x100), u64::MAX);
    assert_eq!(sign_extend(0x1234, 0), 0x1234);
    assert_eq!(sign_extend(5, 1), 0);
}

#[test]
fn fields_are_read_and_written_by_mask() {
    assert_eq!(get_field(0x1800, 0x1800), 3);
    assert_eq!(get_field(0x0800, 0x1800), 1);
    assert_eq!(get_field(0xffff, 0), 0);
    assert_eq!(set_field(0, 0x1800, 3), 0x1800);
    assert_eq!(set_field(0xffff, 0x1800, 0), 0xe7ff);
    assert_eq!(set_field(0x80, 0x80, 0b1), 0x80);
    assert_eq!(get_field(set_field(0x1234_5678, 0xff00, 0xab), 0xff00), 0xab);
}

#[test]
fn division_by_zero_and_overflow() {
    assert_eq!(alu(AluOp::Div, 42, 0), u64::MAX);
    assert_eq!(alu(AluOp::Divu, 42, 0), u64::MAX);
    assert_eq!(alu(AluOp::Rem, 42, 0), 42);
    assert_eq!(alu(AluOp::Remu, 42, 0), 42);
    assert_eq!(alu(AluOp::Div, INT_MIN, MINUS_ONE), INT_MIN);
    assert_eq!(alu(AluOp::Rem, INT_MIN, MINUS_ONE), 0);
    assert_eq!(alu(AluOp::Div, (-7i64) as u64, 2), (-3i64) as u64);
    assert_eq!(alu(AluOp::Rem, (-7i64) as u64, 2), (-1i64) as u64);
    assert_eq!(alu(AluOp::Div, 7, (-2i64) as u64), (-3i64) as u64);
    assert_eq!(alu(AluOp::Rem, 7, (-2i64) as u64), 1);
    assert_eq!(alu(AluOp::Divu, MINUS_ONE, 2), 0x7fff_ffff_ffff_ffff);
    assert_eq!(alu_w(AluOp::Div, 42, 0), u64::MAX);
    assert_eq!(alu_w(AluOp::Divu, 42, 0x1_0000_0000), u64::MAX);
    assert_eq!(alu_w(AluOp::Rem, 0x8000_0001, 0), 0xffff_ffff_8000_0001);
    assert_eq!(alu_w(AluOp::Remu, 0x8000_0001, 0), 0xffff_ffff_8000_0001);
    assert_eq!(alu_w(AluOp::Div, 0x8000_0000, 0xffff_ffff), 0xffff_ffff_8000_0000);
    assert_eq!(alu_w(AluOp::Rem, 0x8000_0000, 0xffff_ffff), 0);
    assert_eq!(alu_w(AluOp::Divu, 0xffff_fffe, 2), 0x7fff_ffff);
    assert_eq!(alu_w(AluOp::Div, 0xffff_fffe, 2), MINUS_ONE);
}

#[test]
fn multiplication_high_halves() {
    assert_eq!(alu(AluOp::Mul, MINUS_ONE, MINUS_ONE), 1);
    assert_eq!(alu(AluOp::Mulhu, MINUS_ONE, MINUS_ONE), 0xffff_ffff_ffff_fffe);
    assert_eq!(alu(AluOp::Mulh, MINUS_ONE, MINUS_ONE), 0);
    assert_eq!(alu(AluOp::Mulh, INT_MIN, INT_MIN), 0x4000_0000_0000_0000);
    assert_eq!(alu(AluOp::Mulh, INT_MIN, 2), MINUS_ONE);
    assert_eq!(alu(AluOp::Mulhsu, MINUS_ONE, MINUS_ONE), MINUS_ONE);
    assert_eq!(alu(AluOp::Mulhsu, 2, MINUS_ONE), 1);
    assert_eq!(alu(AluOp::Mulhu, 1 << 63, 4), 2);
    assert_eq!(alu_w(AluOp::Mul, 0x1_0000_0001, 0x8000_0000), 0xffff_ffff_8000_0000);
}

#[test]
fn shifts_use_the_low_bits_of_the_amount() {
    assert_eq!(alu(AluOp::Sll, 1, 63), INT_MIN);
    assert_eq!(alu(AluOp::Sll, 1, 64), 1);
    assert_eq!(alu(AluOp::Sll, 1, 65), 2);
    assert_eq!(alu(AluOp::Srl, INT_MIN, 63), 1);
    assert_eq!(alu(AluOp::Srl, INT_MIN, 127), 1);
    assert_eq!(alu(AluOp::Sra, INT_MIN, 63), MINUS_ONE);
    assert_eq!(alu(AluOp::Sra, INT_MIN, 4), 0xf800_0000_0000_0000);
    assert_eq!(alu(AluOp::Sra, 0x4000_0000_0000_0000, 62), 1);
    assert_eq!(alu_w(AluOp::Sll, 1, 31), 0xffff_ffff_8000_0000);
    assert_eq!(alu_w(AluOp::Sll, 1, 32), 1);
    assert_eq!(alu_w(AluOp::Sll, 1, 33), 2);
    assert_eq!(alu_w(AluOp::Srl, 0xffff_ffff_8000_0000, 31), 1);
    assert_eq!(alu_w(AluOp::Srl, 0x8000_0000, 0), 0xffff_ffff_8000_0000);
    assert_eq!(alu_w(AluOp::Sra, 0x8000_0000, 31), MINUS_ONE);
    assert_eq!(alu_w(AluOp::Sra, 0x1_4000_0000, 30), 1);
}

#[test]
fn word_operations_sign_extend_bit_31() {
    assert_eq!(alu_w(AluOp::Add, 0x7fff_ffff, 1), 0xffff_ffff_8000_0000);
    assert_eq!(alu_w(AluOp::Add, 0xffff_ffff, 1), 0);
    assert_eq!(alu_w(AluOp::Sub, 0, 1), MINUS_ONE);
    assert_eq!(alu_w(AluOp::Sub, 0x1_0000_0005, 3), 2);
}

#[test]
fn integer_operations() {
    assert_eq!(alu(AluOp::Add, MINUS_ONE, 2), 1);
    assert_eq!(alu(AluOp::Sub, 0, 1), MINUS_ONE);
    assert_eq!(alu(AluOp::Slt, MINUS_ONE, 0), 1);
    assert_eq!(alu(AluOp::Slt, 0, MINUS_ONE), 0);
    assert_eq!(alu(AluOp::Sltu, MINUS_ONE, 0), 0);
    assert_eq!(alu(AluOp::Sltu, 0, MINUS_ONE), 1);
    assert_eq!(alu(AluOp::Xor, 0xff00, 0x0ff0), 0xf0f0);
    assert_eq!(alu(AluOp::Or, 0xff00, 0x0ff0), 0xfff0);
    assert_eq!(alu(AluOp::And, 0xff00, 0x0ff0), 0x0f00);
}

#[test]
fn branch_conditions() {
    assert!(branch_taken(BranchOp::Beq, 3, 3));
    assert!(!branch_taken(BranchOp::Bne, 3, 3));
    assert!(branch_taken(BranchOp::Blt, MINUS_ONE, 0));
    assert!(!branch_taken(BranchOp::Bltu, MINUS_ONE, 0));
    assert!(branch_taken(BranchOp::Bge, 0, MINUS_ONE));
    assert!(branch_taken(BranchOp::Bge, 5, 5));
    assert!(branch_taken(BranchOp::Bgeu, MINUS_ONE, 0));
    assert!(!branch_taken(BranchOp::Blt, INT_MIN - 1, INT_MIN));
}

#[test]
fn loads_extend_by_width() {
    assert_eq!(load_extend(0x80, 1, true), 0xffff_ffff_ffff_ff80);
    assert_eq!(load_extend(0x80, 1, false), 0x80);
    assert_eq!(load_extend(0x8000, 2, true), 0xffff_ffff_ffff_8000);
    assert_eq!(load_extend(0x8000_0000, 4, true), 0xffff_ffff_8000_0000);
    assert_eq!(load_extend(0x8000_0000, 4, false), 0x8000_0000);
    assert_eq!(load_extend(INT_MIN, 8, true), INT_MIN);
}

#[test]
fn atomic_operations() {
    assert_eq!(amo_result(AmoOp::Swap, 1, 2, 8), 2);
    assert_eq!(amo_result(AmoOp::Add, MINUS_ONE, 2, 8), 1);
    assert_eq!(amo_result(AmoOp::Xor, 0xf0, 0xff, 8), 0x0f);
    assert_eq!(amo_result(AmoOp::And, 0xf0, 0x3c, 8), 0x30);
    assert_eq!(amo_result(AmoOp::Or, 0xf0, 0x0f, 8), 0xff);
    assert_eq!(amo_result(AmoOp::Min, MINUS_ONE, 1, 8), MINUS_ONE);
    assert_eq!(amo_result(AmoOp::Max, MINUS_ONE, 1, 8), 1);
    assert_eq!(amo_result(AmoOp::Minu, MINUS_ONE, 1, 8), 1);
    assert_eq!(amo_result(AmoOp::Maxu, MINUS_ONE, 1, 8), MINUS_ONE);
    assert_eq!(amo_result(AmoOp::Min, 0xffff_ffff_8000_0000, 0x7fff_ffff, 4), 0xffff_ffff_8000_0000);
    assert_eq!(amo_result(AmoOp::Maxu, 0xffff_ffff_8000_0000, 0x7fff_ffff, 4), 0xffff_ffff_8000_0000);
    assert_eq!(amo_result(AmoOp::Max, 0xffff_ffff_8000_0000, 0x7fff_ffff, 4), 0x7fff_ffff);
    assert_eq!(amo_result(AmoOp::Minu, 0xffff_ffff_8000_0000, 0x1_0000_0001, 4), 0x1_0000_0001);
}

#[test]
fn decoder_finds_each_kind() {
    let d = InstDecode::new();
    let kind = |inst: u32| d.slow_path(inst).map(|i| (i.name, i.kind));
    assert_eq!(kind(0x0000_0013), Some(("ADDI", InstKind::OpImm(AluOp::Add))));
    assert_eq!(kind(0x00c5_8533), Some(("ADD", InstKind::Op(AluOp::Add))));
    assert_eq!(kind(0x40c5_8533), Some(("SUB", InstKind::Op(AluOp::Sub))));
    assert_eq!(kind(0x02c5_8533), Some(("MUL", InstKind::Op(AluOp::Mul))));
    assert_eq!(kind(0x02c5_c533), Some(("DIV", InstKind::Op(AluOp::Div))));
    assert_eq!(kind(0x02c5_e53b), Some(("REMW", InstKind::OpW(AluOp::Rem))));
    assert_eq!(kind(0x4035_d513), Some(("SRAI", InstKind::OpImm(AluOp::Sra))));
    assert_eq!(kind(0x03f5_9513), Some(("SLLI", InstKind::OpImm(AluOp::Sll))));
    assert_eq!(kind(0x4035_d51b), Some(("SRAIW", InstKind::OpImmW(AluOp::Sra))));
    assert_eq!(kind(0x0005_b503), Some(("LD", InstKind::Load(8, true))));
    assert_eq!(kind(0x0005_c503), Some(("LBU", InstKind::Load(1, false))));
    assert_eq!(kind(0x00a5_b023), Some(("SD", InstKind::Store(8))));
    assert_eq!(kind(0x00b5_0463), Some(("BEQ", InstKind::Branch(BranchOp::Beq))));
    assert_eq!(kind(0x0000_006f), Some(("JAL", InstKind::Jal)));
    assert_eq!(kind(0x0000_8067), Some(("JALR", InstKind::Jalr)));
    assert_eq!(kind(0x1234_5537), Some(("LUI", InstKind::Lui)));
    assert_eq!(kind(0x0000_0517), Some(("AUIPC", InstKind::Auipc)));
    assert_eq!(kind(0x3420_2573), Some(("CSRRS", InstKind::Csr(CsrOp::ReadSet, false))));
    assert_eq!(kind(0x3400_5073), Some(("CSRRWI", InstKind::Csr(CsrOp::ReadWrite, true))));
    assert_eq!(kind(0x3020_0073), Some(("MRET", InstKind::Mret)));
    assert_eq!(kind(0x1020_0073), Some(("SRET", InstKind::Sret)));
    assert_eq!(kind(0x1050_0073), Some(("WFI", InstKind::Wfi)));
    assert_eq!(kind(0x1200_0073), Some(("SFENCE_VMA", InstKind::SfenceVma)));
    assert_eq!(kind(0x0000_0073), Some(("ECALL", InstKind::Ecall)));
    assert_eq!(kind(0x0010_0073), Some(("EBREAK", InstKind::Ebreak)));
    assert_eq!(kind(0x0ff0_000f), Some(("FENCE", InstKind::Fence)));
    assert_eq!(kind(0x0000_100f), Some(("FENCE_I", InstKind::FenceI)));
    assert_eq!(kind(0x1005_b52f), Some(("LR_D", InstKind::Lr(8))));
    assert_eq!(kind(0x1605_a52f), Some(("LR_W", InstKind::Lr(4))));
    assert_eq!(kind(0x18c5_b52f), Some(("SC_D", InstKind::Sc(8))));
    assert_eq!(kind(0x08c5_a52f), Some(("AMOSWAP_W", InstKind::Amo(AmoOp::Swap, 4))));
    assert_eq!(kind(0xe0c5_b52f), Some(("AMOMAXU_D", InstKind::Amo(AmoOp::Maxu, 8))));
    assert_eq!(kind(0x0000_0000), None);
    assert_eq!(kind(0xffff_ffff), None);
    // A load-reserved with a second source register is no instruction.
    assert_eq!(kind(0x1015_b52f), None);
    assert_eq!(INSTRUCTION_COUNT, 98);
}

#[test]
fn decode_cache_gives_what_the_table_gives() {
    let mut d = InstDecode::new();
    let addi = 0x0000_0013;
    // Two encodings that go to the same line of the cache.
    let add = 0x00c5_8533;
    let sub = add | 0x4000_0000;
    assert!(d.fast_path(addi).is_none());
    for _ in 0..2 {
        for (inst, name) in [(addi, "ADDI"), (add, "ADD"), (sub, "SUB"), (add, "ADD")] {
            let found = d.lookup(inst).unwrap();
            assert_eq!(found.name, name);
            assert_eq!(found.kind, d.slow_path(inst).unwrap().kind);
            assert_eq!(d.fast_path(inst).unwrap().name, name);
        }
    }
    assert!(d.fast_path(sub).is_none());
    assert!(d.lookup(0).is_none());
    assert!(d.fast_path(0).is_none());
    assert!(d.lookup(0xffff_ffff).is_none());
    assert_eq!(d.fast_path(addi).unwrap().kind, InstKind::OpImm(AluOp::Add));
}

#[test]
fn decode_table_entries_are_disjoint() {
    for i in 0..INSTRUCTION_COUNT {
        let a = instruction(i);
        assert_eq!(a.match_data & !a.mask, 0);
        for j in (i + 1)..INSTRUCTION_COUNT {
            let b = instruction(j);
            let common = a.mask & b.mask;
            assert_ne!(a.match_data & common, b.match_data & common);
        }
    }
}

#[test]
fn instruction_fields_and_immediates() {
    // addi x5, x6, -1
    let f = parse_fields(0xfff3_0293);
    assert_eq!((f.rd, f.rs1, f.imm_i), (5, 6, u64::MAX));
    // sd x10, -8(x11)
    let f = parse_fields(0xfea5_bc23);
    assert_eq!((f.rs1, f.rs2, f.imm_s), (11, 10, (-8i64) as u64));
    // beq x10, x11, -4
    let f = parse_fields(0xfeb5_0ee3);
    assert_eq!((f.rs1, f.rs2, f.imm_b), (10, 11, (-4i64) as u64));
    // beq x10, x11, +2048
    let f = parse_fields(0x00b5_00e3);
    assert_eq!(f.imm_b, 2048);
    // lui x10, 0x80000
    let f = parse_fields(0x8000_0537);
    assert_eq!((f.rd, f.imm_u), (10, 0xffff_ffff_8000_0000));
    // jal x1, -4
    let f = parse_fields(0xffdf_f0ef);
    assert_eq!((f.rd, f.imm_j), (1, (-4i64) as u64));
    // jal x0, +0x800
    let f = parse_fields(0x0010_006f);
    assert_eq!(f.imm_j, 0x800);
    // csrrw x5, mepc, x6
    let f = parse_fields(0x3413_12f3);
    assert_eq!((f.rd, f.rs1, f.csr), (5, 6, 0x341));
    // srai x10, x11, 35
    let f = parse_fields(0x4235_d513);
    assert_eq!(f.shamt, 35);
}

#[test]
fn csr_masked_writes() {
    let mut csr = CsrRegs::new(3);
    assert_eq!(csr.read_raw(0xf14), 3);
    assert_eq!(csr.read_raw(0x300), 0xa_0000_0000);
    csr.write_raw_mask(0x340, 0xffff_0000_ffff_0000, u64::MAX);
    csr.write_raw_mask(0x340, 0x1234_5678_9abc_def0, 0x0000_ffff_ffff_0000);
    assert_eq!(csr.read_raw(0x340), 0xffff_5678_9abc_0000);
    assert_eq!(csr.read_raw_mask(0x340, 0xff), 0);
    assert_eq!(csr.read_raw_mask(0x340, 0xffff_0000), 0x9abc_0000);
    csr.write_raw(0x340, 5);
    assert_eq!(csr.get(CsrSlot::Mscratch), 5);
    // An address that names no register reads as zero and takes no write.
    assert!(!CsrRegs::contains(0x7c0));
    csr.write_raw(0x7c0, 5);
    assert_eq!(csr.read_raw(0x7c0), 0);
}

#[test]
fn csr_access_rules() {
    let m = PrivilegeLevels::Machine;
    let s = PrivilegeLevels::Supervisor;
    let u = PrivilegeLevels::User;
    let mut csr = CsrRegs::new(0);
    // Machine registers need Machine mode.
    assert_eq!(csr.read(0x300, s), None);
    assert!(!csr.write(0x340, 1, s));
    assert_eq!(csr.mscratch, 0);
    assert_eq!(csr.read(0x100, u), None);
    assert_eq!(csr.read(0x100, s), Some(0x2_0000_0000));
    // Read-only registers refuse every write.
    assert_eq!(csr.read(0xf14, m), Some(0));
    assert!(!csr.write(0xf14, 1, m));
    assert!(!csr.write(0xc00, 1, m));
    assert_eq!(csr.read(0xc00, u), Some(0));
    // Unknown registers refuse everything.
    assert_eq!(csr.read(0x7c0, m), None);
    assert!(!csr.write(0x7c0, 1, m));
    // Writes are masked: only implemented bits change.
    assert!(csr.write(0x300, u64::MAX, m));
    assert_eq!(csr.mstatus, 0xa_0000_0000 | 0x7e_19aa);
    assert!(csr.write(0x341, 0x8000_0003, m));
    assert_eq!(csr.mepc, 0x8000_0000);
    assert!(csr.write(0x305, 0x8000_0003, m));
    assert_eq!(csr.mtvec, 0x8000_0001);
    assert!(csr.write(0x302, u64::MAX, m));
    assert_eq!(csr.medeleg, 0xb3ff);
    assert!(csr.write(0x303, u64::MAX, m));
    assert_eq!(csr.mideleg, 0x222);
    assert!(csr.write(0x304, u64::MAX, m));
    assert_eq!(csr.mie, 0xaaa);
    // sstatus, sie and sip are views of the machine registers.
    let mut csr = CsrRegs::new(0);
    assert!(csr.write(0x100, u64::MAX, s));
    assert_eq!(csr.mstatus, 0xa_0000_0000 | 0xc_0122);
    assert_eq!(csr.read(0x100, s), Some(0x2_0000_0000 | 0xc_0122));
    assert!(csr.write(0x104, u64::MAX, s));
    assert_eq!(csr.mie, 0x222);
    assert!(csr.write(0x304, 0x888, m));
    assert_eq!(csr.read(0x104, s), Some(0));
    assert_eq!(csr.read(0x304, m), Some(0x888));
}

#[test]
fn satp_refuses_unsupported_modes() {
    let m = PrivilegeLevels::Machine;
    let mut csr = CsrRegs::new(0);
    assert!(csr.write(0x180, 8 << 60 | 0x8_0010, m));
    assert_eq!(csr.satp, 8 << 60 | 0x8_0010);
    assert!(csr.write(0x180, 9 << 60 | 0x123, m));
    assert_eq!(csr.satp, 8 << 60 | 0x8_0010);
    assert!(csr.write(0x180, 0x7_ffff_ffff_ffff, m));
    assert_eq!(csr.satp, 0xfff_ffff_ffff);
}

#[test]
fn mip_shows_hardware_and_software_bits() {
    let m = PrivilegeLevels::Machine;
    let mut csr = CsrRegs::new(0);
    csr.hw_ip = 0x280;
    assert!(csr.write(0x344, u64::MAX, m));
    // Software writes the supervisor software and timer bits only.
    assert_eq!(csr.mip, 0x22);
    assert_eq!(csr.read(0x344, m), Some(0x2a2));
    assert_eq!(csr.read(0x144, PrivilegeLevels::Supervisor), Some(0x222));
    assert_eq!(csr.pending_interrupts(), 0x2a2);
    assert!(csr.write(0x144, 0, PrivilegeLevels::Supervisor));
    assert_eq!(csr.mip, 0);
    assert_eq!(csr.read(0x344, m), Some(0x280));
}

#[test]
fn trap_vector_modes() {
    let timer = TrapType::MachineTimerInterrupt;
    let fault = TrapType::LoadPageFault(0x10);
    assert_eq!(get_trap_pc(0x8000_0000, timer), 0x8000_0000);
    assert_eq!(get_trap_pc(0x8000_0001, timer), 0x8000_001c);
    assert_eq!(get_trap_pc(0x8000_0001, fault), 0x8000_0000);
    assert_eq!(get_trap_pc(0x8000_0003, timer), 0x8000_0000);
    assert_eq!(get_trap_pc(0x8000_0001, TrapType::SupervisorExternalInterrupt), 0x8000_0024);
}

#[test]
fn trap_causes_and_values() {
    assert_eq!(TrapType::MachineTimerInterrupt.idx(), 1 << 63 | 7);
    assert_eq!(TrapType::SupervisorSoftwareInterrupt.idx(), 1 << 63 | 1);
    assert_eq!(TrapType::MachineExternalInterrupt.idx(), 1 << 63 | 11);
    assert_eq!(TrapType::StorePageFault(5).idx(), 15);
    assert_eq!(TrapType::StorePageFault(5).get_tval(), 5);
    assert_eq!(TrapType::EnvironmentCallFromSMode.idx(), 9);
    assert_eq!(TrapType::EnvironmentCallFromSMode.get_tval(), 0);
    assert_eq!(TrapType::IllegalInstruction(0x1234).idx(), 2);
    assert_eq!(TrapType::InstructionAddressMisaligned(2).idx(), 0);
    assert_eq!(TrapType::Breakpoint(2).idx(), 3);
    assert_eq!(TrapType::LoadAccessFault(2).get_exception_num(), 5);
    assert!(TrapType::SupervisorTimerInterrupt.is_interrupt_type());
    assert!(!TrapType::Breakpoint(0).is_interrupt_type());
}

#[test]
fn exception_delegation() {
    let mut csr = CsrRegs::new(0);
    let fault = TrapType::LoadPageFault(0);
    csr.medeleg = 1 << 13;
    assert_eq!(find_exception_target(&csr, PrivilegeLevels::User, fault), PrivilegeLevels::Supervisor);
    assert_eq!(find_exception_target(&csr, PrivilegeLevels::Supervisor, fault), PrivilegeLevels::Supervisor);
    assert_eq!(find_exception_target(&csr, PrivilegeLevels::Machine, fault), PrivilegeLevels::Machine);
    assert_eq!(
        find_exception_target(&csr, PrivilegeLevels::User, TrapType::StorePageFault(0)),
        PrivilegeLevels::Machine
    );
}

#[test]
fn machine_trap_and_mret_round_trip() {
    for (privi, mie) in [
        (PrivilegeLevels::User, true),
        (PrivilegeLevels::Supervisor, false),
        (PrivilegeLevels::Machine, true),
        (PrivilegeLevels::Machine, false),
    ] {
        let mut csr = CsrRegs::new(0);
        csr.mtvec = 0x8000_0100;
        csr.mstatus = if mie { 0x8 } else { 0 } | 0x4_0000;
        let handler = take_trap(&mut csr, privi, PrivilegeLevels::Machine, 0x8000_0010, TrapType::IllegalInstruction(7));
        assert_eq!(handler, 0x8000_0100);
        assert_eq!(csr.mepc, 0x8000_0010);
        assert_eq!(csr.mcause, 2);
        assert_eq!(csr.mtval, 7);
        assert_eq!(csr.mstatus & 0x8, 0);
        assert_eq!(csr.mstatus & 0x80 != 0, mie);
        assert_eq!(csr.mstatus & 0x4_0000, 0x4_0000);
        let (back, pc) = machine_return(&mut csr);
        assert_eq!(back, privi);
        assert_eq!(pc, 0x8000_0010);
        assert_eq!(csr.mstatus & 0x8 != 0, mie);
        assert_eq!(csr.mstatus & 0x80, 0x80);
        assert_eq!(csr.mstatus & 0x1800, 0);
    }
}

#[test]
fn supervisor_trap_and_sret_round_trip() {
    for (privi, sie) in [
        (PrivilegeLevels::User, true),
        (PrivilegeLevels::User, false),
        (PrivilegeLevels::Supervisor, true),
        (PrivilegeLevels::Supervisor, false),
    ] {
        let mut csr = CsrRegs::new(0);
        csr.stvec = 0x8000_0200;
        csr.mstatus = if sie { 0x2 } else { 0 } | 0x2_0000;
        let handler = take_trap(&mut csr, privi, PrivilegeLevels::Supervisor, 0x8000_0020, TrapType::SupervisorTimerInterrupt);
        assert_eq!(handler, 0x8000_0200);
        assert_eq!(csr.sepc, 0x8000_0020);
        assert_eq!(csr.scause, 1 << 63 | 5);
        assert_eq!(csr.stval, 0);
        assert_eq!(csr.mstatus & 0x2, 0);
        assert_eq!(csr.mstatus & 0x20 != 0, sie);
        let (back, pc) = supervisor_return(&mut csr);
        assert_eq!(back, privi);
        assert_eq!(pc, 0x8000_0020);
        assert_eq!(csr.mstatus & 0x2 != 0, sie);
        assert_eq!(csr.mstatus & 0x20, 0x20);
        assert_eq!(csr.mstatus & 0x100, 0);
        // SRET clears MPRV.
        assert_eq!(csr.mstatus & 0x2_0000, 0);
    }
}

#[test]
fn interrupt_priority_order() {
    assert_eq!(get_priority_interrupt(0xaaa), Some(TrapType::MachineExternalInterrupt));
    assert_eq!(get_priority_interrupt(0x2aa), Some(TrapType::MachineSoftwareInterrupt));
    assert_eq!(get_priority_interrupt(0x2a2), Some(TrapType::MachineTimerInterrupt));
    assert_eq!(get_priority_interrupt(0x222), Some(TrapType::SupervisorExternalInterrupt));
    assert_eq!(get_priority_interrupt(0x022), Some(TrapType::SupervisorSoftwareInterrupt));
    assert_eq!(get_priority_interrupt(0x020), Some(TrapType::SupervisorTimerInterrupt));
    assert_eq!(get_priority_interrupt(0x555), None);
    assert_eq!(get_priority_interrupt(0), None);
}

#[test]
fn interrupt_selection_follows_enables_and_delegation() {
    let m = PrivilegeLevels::Machine;
    let s = PrivilegeLevels::Supervisor;
    let u = PrivilegeLevels::User;
    let mut csr = CsrRegs::new(0);
    csr.hw_ip = 0x80;
    assert_eq!(find_interrupt(&csr, u), None);
    csr.mie = 0x80;
    // In Machine mode the global enable decides; below it, machine interrupts are always on.
    assert_eq!(find_interrupt(&csr, m), None);
    assert_eq!(find_interrupt(&csr, s), Some((TrapType::MachineTimerInterrupt, m)));
    csr.mstatus = 0x8;
    assert_eq!(find_interrupt(&csr, m), Some((TrapType::MachineTimerInterrupt, m)));
    // A delegated interrupt goes to Supervisor mode, and never interrupts Machine mode.
    let mut csr = CsrRegs::new(0);
    csr.mip = 0x20;
    csr.mie = 0x20;
    csr.mideleg = 0x20;
    csr.mstatus = 0x8;
    assert_eq!(find_interrupt(&csr, m), None);
    assert_eq!(find_interrupt(&csr, s), None);
    assert_eq!(find_interrupt(&csr, u), Some((TrapType::SupervisorTimerInterrupt, s)));
    csr.mstatus = 0x2;
    assert_eq!(find_interrupt(&csr, s), Some((TrapType::SupervisorTimerInterrupt, s)));
    // Without delegation the same interrupt goes to Machine mode.
    csr.mideleg = 0;
    assert_eq!(find_interrupt(&csr, s), Some((TrapType::SupervisorTimerInterrupt, m)));
    // Machine wins when both layers have something.
    csr.mideleg = 0x20;
    csr.hw_ip = 0x8;
    csr.mie = 0x28;
    assert_eq!(find_interrupt(&csr, s), Some((TrapType::MachineSoftwareInterrupt, m)));
}

#[test]
fn dram_is_little_endian() {
    let mut d = DeviceDram::new(16);
    assert_eq!(d.size(), 16);
    d.write(0, 0x1122_3344_5566_7788, 8);
    assert_eq!(d.read(0, 1), 0x88);
    assert_eq!(d.read(1, 1), 0x77);
    assert_eq!(d.read(0, 2), 0x7788);
    assert_eq!(d.read(4, 4), 0x1122_3344);
    assert_eq!(d.read(0, 8), 0x1122_3344_5566_7788);
    d.write(2, 0xabcd_ef01, 2);
    assert_eq!(d.read(0, 8), 0x1122_3344_ef01_7788);
    assert_eq!(d.read(8, 8), 0);
    assert_eq!(d.read(3, 0), 0);
}

#[test]
fn dram_load_drops_what_does_not_fit() {
    let mut d = DeviceDram::new(4);
    assert_eq!(d.load(2, &vec![1, 2, 3, 4]), 2);
    assert_eq!(d.read(0, 4), 0x0201_0000);
    assert_eq!(d.load(4, &vec![9]), 0);
    assert_eq!(d.load(9, &vec![9]), 0);
    assert_eq!(d.load(0, &vec![7]), 1);
    assert_eq!(d.read(0, 4), 0x0201_0007);
}

#[test]
fn uart_keeps_written_bytes() {
    let mut u = DeviceUart::new();
    assert_eq!(u.read(0, 1), 0);
    u.write(0, 0x141, 1);
    u.write(0, 0x42, 1);
    assert_eq!(u.take_output(), vec![0x41, 0x42]);
    assert_eq!(u.take_output(), Vec::<u8>::new());
}

#[test]
fn clint_registers_and_lines() {
    let mut c = Clint::new();
    assert!(c.mtip());
    assert!(!c.msip_line());
    c.write(0x4000, 5, 8);
    assert!(!c.mtip());
    c.tick();
    c.tick();
    assert_eq!(c.read(0xbff8, 8), 2);
    assert_eq!(c.mtime, 2);
    c.tick();
    c.tick();
    assert!(!c.mtip());
    c.tick();
    assert!(c.mtip());
    c.write(0, 0xff, 4);
    assert_eq!(c.msip, 1);
    assert!(c.msip_line());
    assert_eq!(c.read(0, 4), 1);
    c.write(0, 0, 4);
    assert!(!c.msip_line());
    // The halves of the 64-bit registers can be accessed alone.
    c.write(0x4000, 0x1122_3344_5566_7788, 8);
    assert_eq!(c.read(0x4004, 4), 0x1122_3344);
    assert_eq!(c.read(0x4000, 4), 0x5566_7788);
    c.write(0x4004, 0xaabb_ccdd, 4);
    assert_eq!(c.mtimecmp, 0xaabb_ccdd_5566_7788);
    c.mtime = u64::MAX;
    c.tick();
    assert_eq!(c.mtime, 0);
    // Outside the registers reads give zero and writes are dropped.
    assert_eq!(c.read(0x100, 4), 0);
    c.write(0x100, 5, 4);
    assert_eq!(c.read(0x4006, 4), 0);
}

#[test]
fn plic_claims_by_priority_then_number() {
    let mut p = Plic::new(true);
    assert_eq!(p.find_best(false), 0);
    assert!(!p.line(false));
    p.write(4 * 3, 2, 4);
    p.write(4 * 5, 7, 4);
    p.write(4 * 9, 7, 4);
    p.write(0x2000, 1 << 3 | 1 << 5 | 1 << 9, 4);
    assert_eq!(p.read(0x2000, 4), 1 << 3 | 1 << 5 | 1 << 9);
    assert_eq!(p.read(4 * 5, 4), 7);
    p.raise(3);
    assert_eq!(p.read(0x1000, 4), 1 << 3);
    assert!(p.line(false));
    assert!(!p.line(true));
    p.raise(9);
    p.raise(5);
    assert_eq!(p.find_best(false), 5);
    // Claiming through the claim register clears the pending bit.
    assert_eq!(p.read(0x20_0004, 4), 5);
    assert_eq!(p.read(0x1000, 4), 1 << 3 | 1 << 9);
    // A source in service cannot become pending again until it is completed.
    p.raise(5);
    assert_eq!(p.read(0x1000, 4), 1 << 3 | 1 << 9);
    assert_eq!(p.claim(false), 9);
    assert_eq!(p.claim(false), 3);
    assert_eq!(p.claim(false), 0);
    assert!(!p.line(false));
    p.write(0x20_0004, 5, 4);
    p.raise(5);
    assert_eq!(p.find_best(false), 5);
    // A source of priority zero can be claimed, though it never raises the line.
    p.write(4 * 11, 0, 4);
    p.write(0x2000, 1 << 3 | 1 << 5 | 1 << 9 | 1 << 11, 4);
    p.write(0x20_0004, 3, 4);
    p.write(0x20_0004, 9, 4);
    p.raise(11);
    assert_eq!(p.find_best(false), 5);
    // The threshold masks the line, not the claim.
    p.write(0x20_0000, 7, 4);
    assert_eq!(p.read(0x20_0000, 4), 7);
    assert!(!p.line(false));
    assert_eq!(p.find_best(false), 5);
    p.write(0x20_0000, 6, 4);
    assert!(p.line(false));
}

#[test]
fn plic_supervisor_context_is_separate() {
    let mut p = Plic::new(false);
    p.write(4, 1, 4);
    p.write(0x2080, 2, 4);
    p.raise(1);
    // Without a supervisor context its registers read as zero and its line stays down.
    assert_eq!(p.read(0x2080, 4), 0);
    assert!(!p.line(true));
    p.add_context(true);
    assert!(!p.line(true));
    p.add_context(false);
    p.write(0x2080, 2, 4);
    assert_eq!(p.read(0x2080, 4), 2);
    assert!(p.line(true));
    assert!(!p.line(false));
    assert_eq!(p.read(0x20_1004, 4), 1);
    assert!(!p.line(true));
    p.write(0x20_1004, 1, 4);
    p.write(0x20_1000, 1, 4);
    p.raise(1);
    assert!(!p.line(true));
    // Source 0 does not exist.
    p.write(0, 9, 4);
    p.write(0x2000, 1, 4);
    p.raise(0);
    assert_eq!(p.find_best(false), 0);
    p.raise(32);
    p.complete(32);
    assert_eq!(p.read(0x1000, 4), 1 << 1);
    // Only word accesses reach a register.
    assert_eq!(p.read(4, 8), 0);
    p.tick();
    assert_eq!(p.read(4, 4), 1);
}

fn dram_device(start: u64, len: u64) -> DeviceType {
    DeviceType { start, len, instance: DeviceDram::new(len as usize).into(), name: "DRAM" }
}

#[test]
fn bus_keeps_devices_sorted_and_disjoint() {
    let mut bus = Bus::new();
    assert!(bus.add_device(dram_device(0x9000_0000, 0x1000)));
    assert!(bus.add_device(dram_device(MEM_BASE, 0x1000)));
    assert!(bus.add_device(dram_device(0x8800_0000, 0x1000)));
    assert_eq!(bus.device_count(), 3);
    assert_eq!(bus.device_window(0), Some((MEM_BASE, 0x1000)));
    assert_eq!(bus.device_window(1), Some((0x8800_0000, 0x1000)));
    assert_eq!(bus.device_window(2), Some((0x9000_0000, 0x1000)));
    assert_eq!(bus.device_window(3), None);
    assert_eq!(bus.device_name(3), None);
    // Overlaps, empty windows, windows past the end of the address space, and
    // windows that a memory is too small for are refused.
    assert!(!bus.add_device(dram_device(0x8000_0fff, 0x10)));
    assert!(!bus.add_device(dram_device(0x87ff_ff00, 0x101)));
    assert!(!bus.add_device(dram_device(0x8000_0000, 0x1000)));
    assert!(!bus.add_device(dram_device(0x7000_0000, 0)));
    assert!(!bus.add_device(dram_device(u64::MAX - 1, 4)));
    assert!(!bus.add_device(dram_device(CLINT_BASE + 0x100, 8)));
    assert!(!bus.add_device(dram_device(PLIC_BASE - 4, 8)));
    assert!(!bus.add_device(DeviceType {
        start: 0x7000_0000,
        len: 0x100,
        instance: DeviceEnum::Dram(DeviceDram::new(0x80)),
        name: "short",
    }));
    assert!(bus.add_device(dram_device(0x8000_1000, 0x10)));
    assert!(bus.add_device(dram_device(u64::MAX - 3, 4)));
    assert_eq!(bus.device_count(), 5);
    assert_eq!(bus.device_window(1), Some((0x8000_1000, 0x10)));
}

#[test]
fn bus_routes_by_window() {
    let mut bus = Bus::new();
    assert!(bus.add_device(dram_device(MEM_BASE, 0x1000)));
    assert!(bus.add_device(dram_device(0x8000_1000, 0x1000)));
    assert_eq!(bus.resolve(MEM_BASE, 8), BusTarget::Device(0, 0));
    assert_eq!(bus.resolve(0x8000_1ff8, 8), BusTarget::Device(1, 0xff8));
    assert_eq!(bus.resolve(CLINT_BASE + 0x4000, 8), BusTarget::Clint(0x4000));
    assert_eq!(bus.resolve(PLIC_BASE + 4, 4), BusTarget::Plic(4));
    assert_eq!(bus.resolve(0x8000_2000, 1), BusTarget::Unmapped);
    assert_eq!(bus.resolve(0x7fff_ffff, 1), BusTarget::Unmapped);
    assert_eq!(bus.resolve(MEM_BASE, 3), BusTarget::Unmapped);
    // An access that crosses from one device into the next is a bus error.
    assert_eq!(bus.resolve(0x8000_0ffc, 8), BusTarget::Unmapped);
    assert_eq!(bus.write(0x8000_0ffc, 1, 8), Err(()));
    assert_eq!(bus.read(0x8000_0ffc, 8), Err(()));
    assert_eq!(bus.write(0x8000_0ff8, 0x1234, 8), Ok(()));
    assert_eq!(bus.read(0x8000_0ff8, 8), Ok(0x1234));
    assert_eq!(bus.read(0x8000_0ff8, 2), Ok(0x1234));
    assert_eq!(bus.read(0x5000_0000, 4), Err(()));
    assert_eq!(bus.write(0x5000_0000, 0, 4), Err(()));
}

#[test]
fn bus_wires_the_interrupt_lines() {
    let mut bus = Bus::new();
    assert_eq!(bus.interrupt_lines(), 0x80);
    assert_eq!(bus.write(CLINT_BASE + 0x4000, 3, 8), Ok(()));
    assert_eq!(bus.interrupt_lines(), 0);
    bus.update();
    bus.update();
    assert_eq!(bus.mtime(), 2);
    assert_eq!(bus.interrupt_lines(), 0);
    bus.update();
    assert_eq!(bus.interrupt_lines(), 0x80);
    assert_eq!(bus.write(CLINT_BASE, 1, 4), Ok(()));
    assert_eq!(bus.interrupt_lines(), 0x88);
    assert_eq!(bus.write(PLIC_BASE + 4 * 2, 1, 4), Ok(()));
    assert_eq!(bus.write(PLIC_BASE + 0x2000, 1 << 2, 4), Ok(()));
    assert_eq!(bus.write(PLIC_BASE + 0x2080, 1 << 2, 4), Ok(()));
    bus.raise_irq(2);
    assert_eq!(bus.interrupt_lines(), 0x888);
    bus.add_plic_context(false);
    assert_eq!(bus.write(PLIC_BASE + 0x2080, 1 << 2, 4), Ok(()));
    assert_eq!(bus.interrupt_lines(), 0xa88);
    assert_eq!(bus.read(PLIC_BASE + 0x20_0004, 4), Ok(2));
    assert_eq!(bus.interrupt_lines(), 0x88);
}

#[test]
fn bus_store_gives_up_reservation_on_its_line() {
    let mut bus = Bus::new();
    assert!(bus.add_device(dram_device(MEM_BASE, 0x1000)));
    bus.reserve(0x8000_0010);
    assert_eq!(bus.write(0x8000_0018, 1, 8), Ok(()));
    assert!(bus.check_and_clear_reservation(0x8000_0010));
    assert!(!bus.check_and_clear_reservation(0x8000_0010));
    bus.reserve(0x8000_0010);
    assert_eq!(bus.write(0x8000_0014, 1, 4), Ok(()));
    assert!(!bus.check_and_clear_reservation(0x8000_0010));
    bus.reserve(0x8000_0010);
    assert!(!bus.check_and_clear_reservation(0x8000_0018));
    bus.reserve(0x8000_0010);
    bus.clear_reservation();
    assert!(!bus.check_and_clear_reservation(0x8000_0010));
    // A store that the bus does not serve leaves the reservation.
    bus.reserve(0x5000_0000);
    assert_eq!(bus.write(0x5000_0000, 1, 8), Err(()));
    assert!(bus.check_and_clear_reservation(0x5000_0000));
}

#[test]
fn reservation_set_holds_one_address() {
    let mut r = LrScReservation::new();
    assert!(!r.check_and_clear(0));
    r.set(8);
    r.set(16);
    assert!(!r.check_and_clear(8));
    r.set(16);
    assert!(r.check_and_clear(16));
    assert!(!r.check_and_clear(16));
    r.set(16);
    r.store_to(24);
    assert_eq!(r.addr, Some(16));
    r.store_to(23);
    assert_eq!(r.addr, None);
    r.set(16);
    r.clear();
    assert_eq!(r.addr, None);
}

#[test]
fn page_table_entries_decide_the_walk() {
    let s = PrivilegeLevels::Supervisor;
    let u = PrivilegeLevels::User;
    let leaf = |flags: u64| 0x8_0000 << 10 | flags;
    // Not valid, or writable without being readable.
    assert_eq!(decide_step(leaf(0xce), 0, 0, AccessType::Load, s, 0), WalkStep::Fault);
    assert_eq!(decide_step(leaf(0xc5), 0, 0, AccessType::Load, s, 0), WalkStep::Fault);
    // A pointer descends, except at the last level.
    assert_eq!(decide_step(leaf(0x01), 2, 0, AccessType::Load, s, 0), WalkStep::Descend(0x8000_0000));
    assert_eq!(decide_step(leaf(0x01), 0, 0, AccessType::Load, s, 0), WalkStep::Fault);
    // A leaf gives the address: the page from the entry, the offset from the address.
    assert_eq!(decide_step(leaf(0xcf), 0, 0x1234, AccessType::Load, s, 0), WalkStep::Leaf(0x8000_0234));
    assert_eq!(decide_step(leaf(0xcf), 1, 0x12_3456, AccessType::Load, s, 0), WalkStep::Leaf(0x8012_3456));
    assert_eq!(decide_step(leaf(0xcf), 2, 0x1234_5678, AccessType::Load, s, 0), WalkStep::Leaf(0x9234_5678));
    // Superpages must be aligned.
    assert_eq!(decide_step(0x8_0001 << 10 | 0xcf, 1, 0, AccessType::Load, s, 0), WalkStep::Fault);
    assert_eq!(decide_step(0x8_0200 << 10 | 0xcf, 1, 0, AccessType::Load, s, 0), WalkStep::Leaf(0x8020_0000));
    assert_eq!(decide_step(0x8_0200 << 10 | 0xcf, 2, 0, AccessType::Load, s, 0), WalkStep::Fault);
    // Kinds of access.
    assert_eq!(decide_step(leaf(0xc3), 0, 0, AccessType::Store, s, 0), WalkStep::Fault);
    assert_eq!(decide_step(leaf(0xc3), 0, 0, AccessType::Amo, s, 0), WalkStep::Fault);
    assert_eq!(decide_step(leaf(0xc3), 0, 0, AccessType::Fetch(0), s, 0), WalkStep::Fault);
    assert_eq!(decide_step(leaf(0xc9), 0, 0, AccessType::Fetch(0), s, 0), WalkStep::Leaf(0x8000_0000));
    assert_eq!(decide_step(leaf(0xc9), 0, 0, AccessType::Load, s, 0), WalkStep::Fault);
    assert_eq!(decide_step(leaf(0xc9), 0, 0, AccessType::Load, s, 0x8_0000), WalkStep::Leaf(0x8000_0000));
    // Accessed and dirty.
    assert_eq!(decide_step(leaf(0x87), 0, 0, AccessType::Load, s, 0), WalkStep::Fault);
    assert_eq!(decide_step(leaf(0x47), 0, 0, AccessType::Load, s, 0), WalkStep::Leaf(0x8000_0000));
    assert_eq!(decide_step(leaf(0x47), 0, 0, AccessType::Store, s, 0), WalkStep::Fault);
    assert_eq!(decide_step(leaf(0xc7), 0, 0, AccessType::Store, s, 0), WalkStep::Leaf(0x8000_0000));
    // User pages.
    assert_eq!(decide_step(leaf(0xcf), 0, 0, AccessType::Load, u, 0), WalkStep::Fault);
    assert_eq!(decide_step(leaf(0xdf), 0, 0, AccessType::Load, u, 0), WalkStep::Leaf(0x8000_0000));
    assert_eq!(decide_step(leaf(0xdf), 0, 0, AccessType::Load, s, 0), WalkStep::Fault);
    assert_eq!(decide_step(leaf(0xdf), 0, 0, AccessType::Load, s, 0x4_0000), WalkStep::Leaf(0x8000_0000));
    assert_eq!(decide_step(leaf(0xdf), 0, 0, AccessType::Fetch(0), s, 0x4_0000), WalkStep::Fault);
}

#[test]
fn host_interface_commands() {
    let exit = FesvrCmd::from(1);
    assert_eq!(exit.syscall_device(), Some(true));
    assert_eq!(exit.exit_code(), 0);
    assert_eq!(exit.character_device_write(), None);
    let fail = FesvrCmd::from(5 << 1 | 1);
    assert_eq!(fail.syscall_device(), Some(false));
    assert_eq!(fail.exit_code(), 5);
    assert_eq!(FesvrCmd::from(0).syscall_device(), None);
    assert_eq!(FesvrCmd::from(2).syscall_device(), None);
    let print = FesvrCmd::from(0x0101_0000_0000_0000 | b'x' as u64);
    assert_eq!(print.syscall_device(), None);
    assert_eq!(print.character_device_write(), Some(b'x'));
    assert_eq!(FesvrCmd::from(0x0100_0000_0000_0041).character_device_write(), None);
}

#[test]
fn cache_counts_hits_and_misses() {
    let mut c = CacheTags::new();
    assert!(!c.access(0x8000_0000));
    assert!(c.access(0x8000_0004));
    assert!(c.access(0x8000_003f));
    assert!(!c.access(0x8000_0040));
    // Sixty-four lines further on, the address goes to the same cache line.
    assert!(!c.access(0x8000_1000));
    assert!(!c.access(0x8000_0000));
    assert_eq!(c.perf(), CachePerf { hit: 2, miss: 4 });
    c.clear();
    assert!(!c.access(0x8000_0000));
    assert_eq!(c.perf(), CachePerf { hit: 2, miss: 5 });
}

#[test]
fn cache_system_counts_by_kind_of_access() {
    let mut bus = Bus::new();
    assert!(bus.add_device(dram_device(MEM_BASE, 0x1000)));
    let mut caches = CacheSystem::new(bus);
    assert_eq!(caches.write(MEM_BASE, 0x1234, 8), Ok(()));
    assert_eq!(caches.read(MEM_BASE, 8, false), Ok(0x1234));
    assert_eq!(caches.read(MEM_BASE, 4, true), Ok(0x1234));
    assert_eq!(caches.read(MEM_BASE + 4, 4, true), Ok(0));
    assert_eq!(caches.read(0x5000_0000, 4, true), Err(()));
    assert_eq!(caches.write(0x5000_0000, 0, 4), Err(()));
    let perf = caches.show_perf();
    assert_eq!(perf.icache, CachePerf { hit: 1, miss: 1 });
    assert_eq!(perf.dcache, CachePerf { hit: 1, miss: 1 });
    caches.clear();
    assert_eq!(caches.show_perf(), perf);
    assert_eq!(caches.read(MEM_BASE, 8, false), Ok(0x1234));
    assert_eq!(caches.show_perf().dcache, CachePerf { hit: 1, miss: 2 });
    assert_eq!(caches.bus.read(MEM_BASE, 8), Ok(0x1234));
}

#[test]
fn builder_sets_up_the_hart() {
    let cpu = CpuCoreBuild::new(Bus::new()).with_boot_pc(0x1000).with_hart_id(5).with_smode(false).with_tohost(0x40).build();
    assert_eq!(cpu.pc, 0x1000);
    assert_eq!(cpu.npc, 0x1000);
    assert_eq!(cpu.get_pc(), 0x1000);
    assert_eq!(cpu.cur_priv, PrivilegeLevels::Machine);
    assert_eq!(cpu.cpu_state, CpuState::Stop);
    assert_eq!(cpu.tohost, 0x40);
    assert_eq!(cpu.get_csr(0xf14), 5);
    assert_eq!(cpu.get_csr(0x301), 0x8000_0000_0014_1101);
    assert_eq!(cpu.get_regs(), [0u64; 32]);
    assert!(cpu.trace_sender.is_none());
    let cpu = CpuCoreBuild::new(Bus::new()).build();
    assert_eq!(cpu.npc, 0x8000_0000);
    assert_eq!(cpu.tohost, 0x8000_1000);
    assert_eq!(cpu.get_csr(0xf14), 0);
}

#[test]
fn builder_adds_the_supervisor_context_on_request() {
    for smode in [false, true] {
        let mut cpu = CpuCoreBuild::new(Bus::new()).with_smode(smode).build();
        cpu.set_mem(PLIC_BASE + 4, 1, 4);
        cpu.set_mem(PLIC_BASE + 0x2080, 2, 4);
        cpu.mmu.caches.bus.raise_irq(1);
        assert_eq!(cpu.mmu.caches.bus.interrupt_lines() & 0x200 != 0, smode);
        assert_eq!(cpu.get_mem(PLIC_BASE + 0x2080, 4), if smode { 2 } else { 0 });
    }
}

#[test]
fn registers_can_be_set_and_read_in_bulk() {
    let mut cpu = CpuCoreBuild::new(Bus::new()).build();
    let mut regs = [0u64; 32];
    for (i, r) in regs.iter_mut().enumerate() {
        *r = 100 + i as u64;
    }
    cpu.set_regs(&regs);
    regs[0] = 0;
    assert_eq!(cpu.get_regs(), regs);
    cpu.set_csr(0x340, 77);
    assert_eq!(cpu.get_csr(0x340), 77);
    assert_eq!(cpu.get_csr(0x7c0), 0);
    cpu.set_pc(0x44);
    assert_eq!(cpu.get_pc(), 0x44);
    assert_eq!(cpu.get_mem(0x5000_0000, 8), 0);
}

#[test]
fn trace_records_reach_the_channel() {
    let (tx, rx) = crossbeam_channel::unbounded();
    let mut bus = Bus::new();
    let mut dram = DeviceDram::new(0x1000);
    // addi x5, x0, 1; an encoding that is no instruction
    dram.write(0, 0x0010_0293, 4);
    dram.write(4, 0xffff_ffff, 4);
    assert!(bus.add_device(DeviceType { start: MEM_BASE, len: 0x1000, instance: dram.into(), name: "DRAM" }));
    let mut cpu = CpuCoreBuild::new(bus).with_trace(tx).build();
    cpu.cpu_state = CpuState::Running;
    cpu.execute(2);
    assert_eq!(rx.try_recv(), Ok(TraceType::Itrace(0x8000_0000, 0x0010_0293)));
    assert_eq!(rx.try_recv(), Ok(TraceType::Trap(TrapType::IllegalInstruction(0xffff_ffff), 0x8000_0004, 0xffff_ffff)));
    assert!(rx.try_recv().is_err());
    // A sink that nobody listens to any more does not stop the hart.
    drop(rx);
    cpu.set_pc(0x8000_0000);
    cpu.execute(1);
    assert_eq!(cpu.gpr.read(5), 1);
}

#[test]
fn trace_record_is_dropped_when_the_channel_is_full() {
    let (tx, rx) = crossbeam_channel::bounded(1);
    let mut bus = Bus::new();
    let mut dram = DeviceDram::new(0x1000);
    dram.write(0, 0x0010_0293, 4);
    dram.write(4, 0x0020_0313, 4);
    assert!(bus.add_device(DeviceType { start: MEM_BASE, len: 0x1000, instance: dram.into(), name: "DRAM" }));
    let mut cpu = CpuCoreBuild::new(bus).with_trace(tx).build();
    cpu.cpu_state = CpuState::Running;
    cpu.execute(2);
    assert_eq!(cpu.gpr.read(6), 2);
    assert_eq!(rx.try_recv(), Ok(TraceType::Itrace(0x8000_0000, 0x0010_0293)));
    assert!(rx.try_recv().is_err());
}

#[test]
fn privilege_levels_are_ordered() {
    assert_eq!(PrivilegeLevels::User.to_bits(), 0);
    assert_eq!(PrivilegeLevels::Supervisor.to_bits(), 1);
    assert_eq!(PrivilegeLevels::Machine.to_bits(), 3);
    assert_eq!(PrivilegeLevels::from_bits(3), PrivilegeLevels::Machine);
    assert_eq!(PrivilegeLevels::from_bits(1), PrivilegeLevels::Supervisor);
    assert_eq!(PrivilegeLevels::from_bits(0), PrivilegeLevels::User);
    assert_eq!(PrivilegeLevels::from_bits(2), PrivilegeLevels::User);
    assert!(PrivilegeLevels::Machine.at_least(PrivilegeLevels::Supervisor));
    assert!(PrivilegeLevels::Supervisor.at_least(PrivilegeLevels::Supervisor));
    assert!(!PrivilegeLevels::User.at_least(PrivilegeLevels::Supervisor));
}
