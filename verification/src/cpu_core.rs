use crate::bus::{Bus, BusView};
use crate::cache_system::{CacheSystem, MemView};
use crate::cache_tags::{CachePerf, CacheView, CACHE_LINES};
use crate::csr_regs::{csr_slot, CsrRegs};
use crate::gpr::{gpr_read, gpr_wf, gpr_write, Gpr};
use crate::inst_base::{fields_of, parse_fields, AccessType, FesvrCmd, Fields, InstKind};
use crate::inst_decode::{decode, InstDecode};
use crate::inst_rv64a::{amo_spec, exec_amo, exec_lr, exec_sc, lr_spec, sc_spec};
use crate::inst_rv64i::{
    auipc_spec, branch_spec, exec_auipc, exec_branch, exec_jal, exec_jalr, exec_load, exec_lui,
    exec_op, exec_op_imm, exec_store, handled, jal_spec, jalr_spec, load_spec, lui_spec,
    op_imm_spec, op_spec, store_spec,
};
use crate::inst_rv64z::{
    csr_spec, ebreak_spec, ecall_spec, exec_csr, exec_ebreak, exec_ecall, exec_fence_i,
    exec_mret, exec_sfence_vma, exec_sret, fence_i_spec, mret_spec, sfence_spec, sret_spec,
};
use crate::mmu::{mmu_read, mmu_write, Mmu, MmuEnv};
use crate::plic::PlicView;
use crate::privilege::PrivilegeLevels;
use crate::trace::{emit, TraceType};
use crate::trap::{
    enter_trap, exception_target, find_exception_target, find_interrupt, select_interrupt,
    take_trap, trap_vector,
};
use crate::traptype::TrapType;
use vstd::prelude::*;

verus! {

/// Whether a hart runs, has stopped, or has been aborted.
#[derive(Clone, Copy, PartialEq, Eq, Structural, Debug)]
pub enum CpuState {
    Running,
    Stop,
    Abort,
}

/// The address that the guest writes to when it talks to the host, unless
/// the builder is told another.
pub const DEFAULT_TOHOST: u64 = 0x8000_1000;

/// A hart as mathematical values.
pub ghost struct HartView {
    /// The pc of the instruction that was fetched last.
    pub pc: u64,
    /// The pc of the instruction that is fetched next.
    pub npc: u64,
    pub gpr: Seq<u64>,
    pub csr: CsrRegs,
    pub privi: PrivilegeLevels,
    pub state: CpuState,
    pub mem: MemView,
}

impl HartView {
    /// What address translation depends on.
    pub open spec fn env(self) -> MmuEnv {
        MmuEnv { privi: self.privi, mstatus: self.csr.mstatus, satp: self.csr.satp }
    }

    /// The value of register `i`.
    pub open spec fn reg(self, i: u64) -> u64 {
        gpr_read(self.gpr, i)
    }

    /// The hart with `v` written to register `i`.
    pub open spec fn set_reg(self, i: u64, v: u64) -> HartView {
        HartView { gpr: gpr_write(self.gpr, i, v), ..self }
    }

    /// The hart with its memory side replaced.
    pub open spec fn with_mem(self, mem: MemView) -> HartView {
        HartView { mem, ..self }
    }

    /// The hart with no reservation.
    pub open spec fn without_reservation(self) -> HartView {
        HartView {
            mem: MemView {
                bus: crate::bus::BusView { reservation: None, ..self.mem.bus },
                ..self.mem
            },
            ..self
        }
    }

    /// The hart after it takes `trap` into the mode `target`, with `epc`
    /// as the pc to return to. The trap registers of the mode record the
    /// trap, the hart enters the mode, the next fetch is from the trap
    /// vector, and the reservation is lost.
    pub open spec fn trapped(self, trap: TrapType, target: PrivilegeLevels, epc: u64) -> HartView {
        HartView {
            csr: enter_trap(self.csr, self.privi, target, epc, trap),
            privi: target,
            npc: trap_vector(self.csr, target, trap),
            ..self.without_reservation()
        }
    }

    /// The hart after the exception `trap` of the instruction at `pc`.
    pub open spec fn after_exception(self, trap: TrapType) -> HartView {
        self.trapped(trap, exception_target(self.csr, self.privi, trap), self.pc)
    }

    /// The hart after it has taken the interrupt that is due, if any. An
    /// interrupt is taken before the next instruction begins, so it
    /// saves `npc`.
    pub open spec fn after_interrupt(self) -> HartView {
        match select_interrupt(self.csr, self.privi) {
            Some(due) => self.trapped(due.0, due.1, self.npc),
            None => self,
        }
    }

    /// The hart after it has sampled its interrupt lines and the
    /// platform timer.
    pub open spec fn after_sampling(self) -> HartView {
        HartView {
            csr: CsrRegs {
                hw_ip: self.mem.bus.lines(),
                time: self.mem.bus.clint.mtime,
                ..self.csr
            },
            ..self
        }
    }
}

/// A hart: its registers, its privilege mode, and its memory side.
pub struct CpuCore {
    pub gpr: Gpr,
    pub csr_regs: CsrRegs,
    pub mmu: Mmu,
    pub decode: InstDecode,
    pub pc: u64,
    pub npc: u64,
    pub cur_priv: PrivilegeLevels,
    pub cpu_state: CpuState,
    /// The address of the host interface.
    pub tohost: u64,
    /// Where the hart sends a record of every instruction that it decodes
    /// and of every trap that it takes.
    pub trace_sender: Option<crossbeam_channel::Sender<TraceType>>,
}

impl View for CpuCore {
    type V = HartView;

    open spec fn view(&self) -> HartView {
        HartView {
            pc: self.pc,
            npc: self.npc,
            gpr: self.gpr@,
            csr: self.csr_regs,
            privi: self.cur_priv,
            state: self.cpu_state,
            mem: self.mmu.caches@,
        }
    }
}

impl CpuCore {
    /// The hart is well formed when its bus and its decoder are.
    pub open spec fn wf(&self) -> bool {
        self.mmu.caches@.wf() && self.decode.wf()
    }

    /// What the view does not show stays as it was.
    pub open spec fn same_setup(&self, other: &CpuCore) -> bool {
        self.tohost == other.tohost && self.trace_sender == other.trace_sender
    }

    /// What address translation depends on, as the hart is now.
    pub fn mmu_env(&self) -> (env: MmuEnv)
        ensures
            env == self@.env(),
    {
        MmuEnv { privi: self.cur_priv, mstatus: self.csr_regs.mstatus, satp: self.csr_regs.satp }
    }

    /// A load of `len` bytes at the virtual address `addr`.
    pub fn read(&mut self, addr: u64, len: u64, access_type: AccessType) -> (r: Result<
        u64,
        TrapType,
    >)
        requires
            old(self).wf(),
        ensures
            final(self).wf(),
            final(self).same_setup(old(self)),
            r == mmu_read(old(self)@.mem, old(self)@.env(), access_type, addr, len).0,
            final(self)@ == old(self)@.with_mem(
                mmu_read(old(self)@.mem, old(self)@.env(), access_type, addr, len).1,
            ),
    {
        let env: MmuEnv = self.mmu_env();
        self.mmu.update_access_type(access_type);
        self.mmu.do_read(&env, addr, len)
    }

    /// A store of the low `len` bytes of `data` at the virtual address
    /// `addr`.
    pub fn write(&mut self, addr: u64, data: u64, len: u64, access_type: AccessType) -> (r:
        Result<(), TrapType>)
        requires
            old(self).wf(),
        ensures
            final(self).wf(),
            final(self).same_setup(old(self)),
            r == mmu_write(old(self)@.mem, old(self)@.env(), access_type, addr, data, len).0,
            final(self)@ == old(self)@.with_mem(
                mmu_write(old(self)@.mem, old(self)@.env(), access_type, addr, data, len).1,
            ),
    {
        let env: MmuEnv = self.mmu_env();
        self.mmu.update_access_type(access_type);
        self.mmu.do_write(&env, addr, data, len)
    }

    /// Reserves the physical address `addr` for a store-conditional.
    pub fn lr_sc_reservation_set(&mut self, addr: u64)
        ensures
            final(self)@ == (HartView {
                mem: MemView {
                    bus: crate::bus::BusView { reservation: Some(addr), ..old(self)@.mem.bus },
                    ..old(self)@.mem
                },
                ..old(self)@
            }),
            final(self).same_setup(old(self)),
            old(self).wf() ==> final(self).wf(),
    {
        self.mmu.caches.bus.reserve(addr);
    }

    /// Whether the physical address `addr` is reserved. The reservation
    /// is given up either way.
    pub fn lr_sc_reservation_check_and_clear(&mut self, addr: u64) -> (held: bool)
        ensures
            held == (old(self)@.mem.bus.reservation == Some(addr)),
            final(self)@ == old(self)@.without_reservation(),
            final(self).same_setup(old(self)),
            old(self).wf() ==> final(self).wf(),
    {
        self.mmu.caches.bus.check_and_clear_reservation(addr)
    }

    pub fn lr_sc_reservation_clear(&mut self)
        ensures
            final(self)@ == old(self)@.without_reservation(),
            final(self).same_setup(old(self)),
            old(self).wf() ==> final(self).wf(),
    {
        self.mmu.caches.bus.clear_reservation();
    }

    /// Takes `trap` into the mode `target`, saving `epc`.
    fn enter(&mut self, trap: TrapType, target: PrivilegeLevels, epc: u64)
        ensures
            final(self)@ == old(self)@.trapped(trap, target, epc),
            final(self).same_setup(old(self)),
            old(self).wf() ==> final(self).wf(),
            final(self)@.npc % 4 == 0,
    {
        let privi: PrivilegeLevels = self.cur_priv;
        emit(&self.trace_sender, TraceType::Trap(trap, self.pc, trap.get_tval()));
        self.npc = take_trap(&mut self.csr_regs, privi, target, epc, trap);
        self.cur_priv = target;
        self.mmu.caches.bus.clear_reservation();
    }

    /// Delivers the exception `trap` of the instruction at `pc`: to
    /// Supervisor mode where `medeleg` delegates it and the hart runs no
    /// higher, and to Machine mode otherwise.
    pub fn handle_exceptions(&mut self, trap_type: TrapType)
        ensures
            final(self)@ == old(self)@.after_exception(trap_type),
            final(self).same_setup(old(self)),
            old(self).wf() ==> final(self).wf(),
            final(self)@.npc % 4 == 0,
    {
        let target: PrivilegeLevels = find_exception_target(
            &self.csr_regs,
            self.cur_priv,
            trap_type,
        );
        self.enter(trap_type, target, self.pc);
    }

    /// Delivers the interrupt of highest priority that is pending,
    /// enabled and due in the present mode, if there is one.
    pub fn handle_interrupt(&mut self)
        ensures
            final(self)@ == old(self)@.after_interrupt(),
            final(self).same_setup(old(self)),
            old(self).wf() ==> final(self).wf(),
    {
        match find_interrupt(&self.csr_regs, self.cur_priv) {
            Some(due) => {
                self.enter(due.0, due.1, self.npc);
            },
            None => {},
        }
    }

    /// Samples the interrupt lines of the platform into the pending bits
    /// of the hart, and the platform timer into its `time` register.
    pub fn check_pending_int(&mut self)
        ensures
            final(self)@ == old(self)@.after_sampling(),
            final(self).same_setup(old(self)),
            old(self).wf() ==> final(self).wf(),
    {
        self.csr_regs.hw_ip = self.mmu.caches.bus.interrupt_lines();
        self.csr_regs.time = self.mmu.caches.bus.mtime();
    }

    /// Stops the hart and returns the value of `a0`, which a guest that
    /// ends well leaves at zero.
    pub fn halt(&mut self) -> (code: usize)
        ensures
            final(self)@ == (HartView { state: CpuState::Stop, ..old(self)@ }),
            final(self).same_setup(old(self)),
            old(self).wf() ==> final(self).wf(),
            code == old(self)@.reg(10) as usize,
    {
        let a0: u64 = self.gpr.read(10);
        self.cpu_state = CpuState::Stop;
        #[verifier::truncate]
        (a0 as usize)
    }
}

#[verifier::opaque]
/// What the instruction of kind `kind` and encoding `inst` does to the
/// hart `s`: whether it succeeds or traps, and the hart afterwards.
pub open spec fn execute_spec(s: HartView, kind: InstKind, inst: u32) -> (
    Result<(), TrapType>,
    HartView,
) {
    let f = fields_of(inst);
    match kind {
        InstKind::Lui => lui_spec(s, f),
        InstKind::Auipc => auipc_spec(s, f),
        InstKind::Jal => jal_spec(s, f),
        InstKind::Jalr => jalr_spec(s, f),
        InstKind::Branch(op) => branch_spec(s, op, f),
        InstKind::Load(width, signed) => load_spec(s, f, width, signed),
        InstKind::Store(width) => store_spec(s, f, width),
        InstKind::OpImm(op) => op_imm_spec(s, op, f, false),
        InstKind::Op(op) => op_spec(s, op, f, false),
        InstKind::OpImmW(op) => op_imm_spec(s, op, f, true),
        InstKind::OpW(op) => op_spec(s, op, f, true),
        InstKind::Fence => (Ok(()), s),
        InstKind::FenceI => fence_i_spec(s),
        InstKind::Ecall => ecall_spec(s),
        InstKind::Ebreak => ebreak_spec(s),
        InstKind::Mret => mret_spec(s, inst),
        InstKind::Sret => sret_spec(s, inst),
        InstKind::Wfi => (Ok(()), s),
        InstKind::SfenceVma => sfence_spec(s, inst),
        InstKind::Csr(op, imm) => csr_spec(s, op, imm, f, inst),
        InstKind::Lr(width) => lr_spec(s, f, width),
        InstKind::Sc(width) => sc_spec(s, f, width),
        InstKind::Amo(op, width) => amo_spec(s, op, f, width),
    }
}

/// What the encoding `inst` does to the hart `s`. An encoding that the
/// decoder does not know is an illegal instruction.
pub open spec fn step_spec(s: HartView, inst: u32) -> (Result<(), TrapType>, HartView) {
    match decode(inst) {
        Some(kind) => execute_spec(s, kind, inst),
        None => (Err(TrapType::IllegalInstruction(inst as u64)), s),
    }
}

/// The fetch of the next instruction: `pc` takes `npc`, `npc` moves on by
/// four, and four bytes are read at `pc`.
pub open spec fn fetch_spec(s: HartView) -> (Result<u64, TrapType>, HartView) {
    let at = HartView {
        pc: s.npc,
        npc: vstd::wrapping::u64_specs::wrapping_add(s.npc, 4),
        ..s
    };
    let got = mmu_read(at.mem, at.env(), AccessType::Fetch(at.pc), at.pc, 4);
    (got.0, at.with_mem(got.1))
}

/// The hart with `mcycle` advanced by one and, where `retired` holds,
/// `minstret` too.
pub open spec fn counted(s: HartView, retired: bool) -> HartView {
    HartView {
        csr: CsrRegs {
            mcycle: vstd::wrapping::u64_specs::wrapping_add(s.csr.mcycle, 1),
            minstret: if retired {
                vstd::wrapping::u64_specs::wrapping_add(s.csr.minstret, 1)
            } else {
                s.csr.minstret
            },
            ..s.csr
        },
        ..s
    }
}

/// The hart with the platform advanced by one tick.
pub open spec fn platform_updated(s: HartView) -> HartView {
    s.with_mem(MemView { bus: s.mem.bus.after_update(), ..s.mem })
}

#[verifier::opaque]
/// What the fetched instruction did, or the trap of the fetch.
pub open spec fn executed(s: HartView) -> (Result<(), TrapType>, HartView) {
    let fetched = fetch_spec(s);
    match fetched.0 {
        Ok(word) => step_spec(fetched.1, (word % 0x1_0000_0000) as u32),
        Err(trap) => (Err(trap), fetched.1),
    }
}

#[verifier::opaque]
/// One cycle of the hart: fetch, decode and execute. Where that ends in
/// a trap, the trap is delivered and the cycle is counted, and that is
/// all. Where the instruction succeeds, the cycle and the instruction are
/// counted, the interrupt lines are sampled, the interrupt that is due is
/// taken, and the platform advances by one tick.
pub open spec fn cycle_spec(s: HartView) -> HartView {
    let done = executed(s);
    match done.0 {
        Err(trap) => counted(done.1.after_exception(trap), false),
        Ok(_) => platform_updated(counted(done.1, true).after_sampling().after_interrupt()),
    }
}

/// The hart after it has run for up to `n` cycles: it stops early when it
/// leaves the running state.
pub open spec fn run_spec(s: HartView, n: nat) -> HartView
    decreases n,
{
    if n == 0 || s.state != CpuState::Running {
        s
    } else {
        run_spec(cycle_spec(s), (n - 1) as nat)
    }
}

/// The character of a hexadecimal digit, in lower case.
pub open spec fn hex_digit(n: u64) -> u8 {
    if n < 10 {
        (48 + n) as u8
    } else {
        (87 + n % 16) as u8
    }
}

/// The line of a signature file for one word: the eight hexadecimal
/// digits of its low 32 bits, most significant first, and a line feed.
pub open spec fn signature_line(word: u64) -> Seq<u8> {
    seq![
        hex_digit((word / 0x1000_0000) % 16),
        hex_digit((word / 0x100_0000) % 16),
        hex_digit((word / 0x10_0000) % 16),
        hex_digit((word / 0x1_0000) % 16),
        hex_digit((word / 0x1000) % 16),
        hex_digit((word / 0x100) % 16),
        hex_digit((word / 0x10) % 16),
        hex_digit(word % 16),
        10u8,
    ]
}

/// The signature of the words at the physical addresses `from`, `from +
/// 4` and so on below `to`, read from the bus: one line for each, up to
/// the first that the bus does not serve. Gives the bus after the reads
/// too.
pub open spec fn signature(bus: BusView, from: u64, to: u64) -> (Seq<u8>, BusView)
    decreases to - from,
{
    if from >= to {
        (Seq::empty(), bus)
    } else {
        match bus.read(from, 4) {
            None => (Seq::empty(), bus),
            Some(word) => {
                let after = bus.after_read(from, 4);
                if to - from <= 4 {
                    (signature_line(word), after)
                } else {
                    let rest = signature(after, (from + 4) as u64, to);
                    (signature_line(word) + rest.0, rest.1)
                }
            },
        }
    }
}

/// The first of the physical addresses `from`, `from + 4` and so on below
/// `to` that the bus does not serve, and `None` where it serves them all.
pub open spec fn signature_gap(bus: BusView, from: u64, to: u64) -> Option<u64>
    decreases to - from,
{
    if from >= to {
        None
    } else {
        match bus.read(from, 4) {
            None => Some(from),
            Some(_) => if to - from <= 4 {
                None
            } else {
                signature_gap(bus.after_read(from, 4), (from + 4) as u64, to)
            },
        }
    }
}

/// What the guest has asked of the host.
#[derive(Clone, Copy, PartialEq, Eq, Structural, Debug)]
pub struct HostRequest {
    /// The exit code, where the guest has asked to exit.
    pub exit_code: Option<u64>,
    /// The character to print, where the guest has asked for one.
    pub character: Option<u8>,
}

/// A poll of the host interface at `tohost`: what the guest asks, and
/// the hart afterwards. The eight bytes at `tohost` are read and then
/// cleared. An exit request with code zero stops the hart, and one with
/// another code aborts it. Where the bus does not serve `tohost`,
/// nothing happens.
pub open spec fn host_poll(s: HartView, tohost: u64) -> (HostRequest, HartView) {
    match s.mem.bus.read(tohost, 8) {
        None => (HostRequest { exit_code: None, character: None }, s),
        Some(value) => {
            let cmd = FesvrCmd { value };
            let bus = s.mem.bus.after_read(tohost, 8).after_write(tohost, 0, 8);
            (
                HostRequest {
                    exit_code: if cmd.is_exit() {
                        Some(cmd.exit_code_spec())
                    } else {
                        None
                    },
                    character: cmd.character(),
                },
                HartView {
                    state: if !cmd.is_exit() {
                        s.state
                    } else if cmd.exit_code_spec() == 0 {
                        CpuState::Stop
                    } else {
                        CpuState::Abort
                    },
                    mem: MemView { bus, ..s.mem },
                    ..s
                },
            )
        },
    }
}

fn to_hex_digit(n: u64) -> (c: u8)
    requires
        n < 16,
    ensures
        c == hex_digit(n),
{
    if n < 10 {
        (48 + n) as u8
    } else {
        (87 + n) as u8
    }
}

/// Reads the words of a signature from the bus and formats them. Gives
/// the lines of the words up to the first that the bus does not serve,
/// and the address of that word, if there is one.
fn collect_signature(bus: &mut Bus, from: u64, to: u64) -> (r: (Vec<u8>, Option<u64>))
    requires
        old(bus)@.wf(),
    ensures
        final(bus)@.wf(),
        r.0@ == signature(old(bus)@, from, to).0,
        r.1 == signature_gap(old(bus)@, from, to),
        final(bus)@ == signature(old(bus)@, from, to).1,
{
    let mut lines: Vec<u8> = Vec::new();
    let mut at: u64 = from;
    loop
        invariant
            bus@.wf(),
            signature(old(bus)@, from, to).0 == lines@ + signature(bus@, at, to).0,
            signature(old(bus)@, from, to).1 == signature(bus@, at, to).1,
            signature_gap(old(bus)@, from, to) == signature_gap(bus@, at, to),
        decreases to - at,
    {
        if at >= to {
            assert(lines@ + Seq::<u8>::empty() =~= lines@);
            return (lines, None);
        }
        let ghost before = lines@;
        let ghost start = bus@;
        match bus.read(at, 4) {
            Ok(word) => {
                lines.push(to_hex_digit((word / 0x1000_0000) % 16));
                lines.push(to_hex_digit((word / 0x100_0000) % 16));
                lines.push(to_hex_digit((word / 0x10_0000) % 16));
                lines.push(to_hex_digit((word / 0x1_0000) % 16));
                lines.push(to_hex_digit((word / 0x1000) % 16));
                lines.push(to_hex_digit((word / 0x100) % 16));
                lines.push(to_hex_digit((word / 0x10) % 16));
                lines.push(to_hex_digit(word % 16));
                lines.push(10u8);
                assert(lines@ =~= before + signature_line(word));
                if to - at <= 4 {
                    assert(signature(start, at, to).0 == signature_line(word));
                    return (lines, None);
                }
                proof {
                    let rest = signature(bus@, (at + 4) as u64, to);
                    assert(signature(start, at, to).0 == signature_line(word) + rest.0);
                    assert(before + (signature_line(word) + rest.0) =~= (before + signature_line(
                        word,
                    )) + rest.0);
                }
                at = at + 4;
            },
            Err(_) => {
                assert(lines@ + Seq::<u8>::empty() =~= lines@);
                return (lines, Some(at));
            },
        }
    }
}

impl CpuCore {
    /// Fetches the next instruction.
    pub fn inst_fetch(&mut self) -> (r: Result<u64, TrapType>)
        requires
            old(self).wf(),
        ensures
            final(self).wf(),
            final(self).same_setup(old(self)),
            r == fetch_spec(old(self)@).0,
            final(self)@ == fetch_spec(old(self)@).1,
    {
        self.pc = self.npc;
        self.npc = self.npc.wrapping_add(4);
        self.read(self.pc, 4, AccessType::Fetch(self.pc))
    }

    /// Executes the instruction of kind `kind` that `inst` encodes.
    #[verifier::rlimit(50)]
    fn dispatch(&mut self, kind: InstKind, inst: u32) -> (r: Result<(), TrapType>)
        requires
            old(self).wf(),
        ensures
            handled(old(self), final(self), r, execute_spec(old(self)@, kind, inst)),
    {
        reveal(execute_spec);
        let f: Fields = parse_fields(inst);
        match kind {
            InstKind::Lui => exec_lui(self, &f),
            InstKind::Auipc => exec_auipc(self, &f),
            InstKind::Jal => exec_jal(self, &f),
            InstKind::Jalr => exec_jalr(self, &f),
            InstKind::Branch(op) => exec_branch(self, op, &f),
            InstKind::Load(width, signed) => exec_load(self, &f, width, signed),
            InstKind::Store(width) => exec_store(self, &f, width),
            InstKind::OpImm(op) => exec_op_imm(self, op, &f, false),
            InstKind::Op(op) => exec_op(self, op, &f, false),
            InstKind::OpImmW(op) => exec_op_imm(self, op, &f, true),
            InstKind::OpW(op) => exec_op(self, op, &f, true),
            InstKind::Fence => Ok(()),
            InstKind::FenceI => exec_fence_i(self),
            InstKind::Ecall => exec_ecall(self),
            InstKind::Ebreak => exec_ebreak(self),
            InstKind::Mret => exec_mret(self, inst),
            InstKind::Sret => exec_sret(self, inst),
            InstKind::Wfi => Ok(()),
            InstKind::SfenceVma => exec_sfence_vma(self, inst),
            InstKind::Csr(op, imm) => exec_csr(self, op, imm, &f, inst),
            InstKind::Lr(width) => exec_lr(self, &f, width),
            InstKind::Sc(width) => exec_sc(self, &f, width),
            InstKind::Amo(op, width) => exec_amo(self, op, &f, width),
        }
    }

    /// Decodes and executes the instruction that `inst` encodes.
    #[verifier::rlimit(50)]
    pub fn step(&mut self, inst: u32) -> (r: Result<(), TrapType>)
        requires
            old(self).wf(),
        ensures
            handled(old(self), final(self), r, step_spec(old(self)@, inst)),
            final(self)@.gpr[0] == 0,
    {
        let found = self.decode.lookup(inst);
        let r = match found {
            Some(i) => {
                emit(&self.trace_sender, TraceType::Itrace(self.pc, inst));
                self.dispatch(i.kind, inst)
            },
            None => Err(TrapType::IllegalInstruction(inst as u64)),
        };
        proof {
            self.gpr.lemma_wf();
        }
        r
    }

    /// Runs one cycle.
    #[verifier::rlimit(50)]
    fn cycle(&mut self)
        requires
            old(self).wf(),
        ensures
            final(self).wf(),
            final(self).same_setup(old(self)),
            final(self)@ == cycle_spec(old(self)@),
    {
        reveal(cycle_spec);
        reveal(executed);
        let fetch_ret = self.inst_fetch();
        let exe_ret = match fetch_ret {
            Ok(inst_val) => self.step((inst_val % 0x1_0000_0000) as u32),
            Err(trap_type) => Err(trap_type),
        };
        self.csr_regs.mcycle = self.csr_regs.mcycle.wrapping_add(1);
        match exe_ret {
            Ok(_) => {
                self.csr_regs.minstret = self.csr_regs.minstret.wrapping_add(1);
                self.check_pending_int();
                self.handle_interrupt();
                self.mmu.caches.bus.update();
            },
            Err(trap_type) => {
                self.handle_exceptions(trap_type);
            },
        }
    }

    /// Runs up to `num` cycles, and stops early when the hart leaves the
    /// running state.
    pub fn execute(&mut self, num: usize)
        requires
            old(self).wf(),
        ensures
            final(self).wf(),
            final(self).same_setup(old(self)),
            final(self)@ == run_spec(old(self)@, num as nat),
            final(self)@.gpr[0] == 0,
    {
        let mut done: usize = 0;
        while done < num && self.cpu_state == CpuState::Running
            invariant
                self.wf(),
                self.same_setup(old(self)),
                done <= num,
                run_spec(old(self)@, num as nat) == run_spec(self@, (num - done) as nat),
            decreases num - done,
        {
            self.cycle();
            done = done + 1;
        }
        proof {
            self.gpr.lemma_wf();
        }
    }

    /// The signature of a compliance test: the words between the
    /// addresses in `a1` and `a2`, one line of eight hexadecimal digits
    /// for each. Where the bus does not serve one of the words, the
    /// result is the address of the first such word instead.
    pub fn dump_signature(&mut self) -> (r: Result<Vec<u8>, u64>)
        requires
            old(self).wf(),
        ensures
            final(self).wf(),
            final(self).same_setup(old(self)),
            match r {
                Ok(lines) => {
                    &&& signature_gap(
                        old(self)@.mem.bus,
                        old(self)@.reg(11),
                        old(self)@.reg(12),
                    ) is None
                    &&& lines@ == signature(
                        old(self)@.mem.bus,
                        old(self)@.reg(11),
                        old(self)@.reg(12),
                    ).0
                },
                Err(missing) => signature_gap(
                    old(self)@.mem.bus,
                    old(self)@.reg(11),
                    old(self)@.reg(12),
                ) == Some(missing),
            },
            final(self)@ == old(self)@.with_mem(
                MemView {
                    bus: signature(old(self)@.mem.bus, old(self)@.reg(11), old(self)@.reg(12)).1,
                    ..old(self)@.mem
                },
            ),
    {
        let sig_start: u64 = self.gpr.read(11);
        let sig_end: u64 = self.gpr.read(12);
        let collected = collect_signature(&mut self.mmu.caches.bus, sig_start, sig_end);
        match collected.1 {
            None => Ok(collected.0),
            Some(missing) => Err(missing),
        }
    }

    /// Polls the host interface.
    pub fn check_to_host(&mut self) -> (request: HostRequest)
        requires
            old(self).wf(),
        ensures
            final(self).wf(),
            final(self).same_setup(old(self)),
            request == host_poll(old(self)@, old(self).tohost).0,
            final(self)@ == host_poll(old(self)@, old(self).tohost).1,
    {
        let nothing = HostRequest { exit_code: None, character: None };
        let data: u64 = match self.mmu.caches.bus.read(self.tohost, 8) {
            Ok(data) => data,
            Err(_) => {
                return nothing;
            },
        };
        let _ = self.mmu.caches.bus.write(self.tohost, 0, 8);
        let cmd = FesvrCmd::from(data);
        let exit_code: Option<u64> = match cmd.syscall_device() {
            Some(pass) => {
                if pass {
                    self.cpu_state = CpuState::Stop;
                } else {
                    self.cpu_state = CpuState::Abort;
                }
                Some(cmd.exit_code())
            },
            None => None,
        };
        HostRequest { exit_code, character: cmd.character_device_write() }
    }

    /// Sets all the registers; what is given for `x0` is dropped.
    pub fn set_regs(&mut self, regs: &[u64; 32])
        ensures
            final(self)@ == (HartView {
                gpr: Seq::new(
                    32,
                    |i: int|
                        if i == 0 {
                            0u64
                        } else {
                            regs@[i]
                        },
                ),
                ..old(self)@
            }),
            final(self).same_setup(old(self)),
            old(self).wf() ==> final(self).wf(),
    {
        let mut idx: usize = 0;
        proof {
            self.gpr.lemma_wf();
        }
        while idx < 32
            invariant
                idx <= 32,
                gpr_wf(self.gpr@),
                self@ == (HartView { gpr: self.gpr@, ..old(self)@ }),
                self.mmu == old(self).mmu,
                self.decode == old(self).decode,
                self.same_setup(old(self)),
                forall|i: int| 1 <= i < idx ==> self.gpr@[i] == regs@[i],
            decreases 32 - idx,
        {
            self.gpr.write(idx as u64, regs[idx]);
            proof {
                self.gpr.lemma_wf();
            }
            idx = idx + 1;
        }
        assert(self.gpr@ =~= Seq::new(
            32,
            |i: int|
                if i == 0 {
                    0u64
                } else {
                    regs@[i]
                },
        ));
    }

    /// All the registers.
    pub fn get_regs(&self) -> (regs: [u64; 32])
        ensures
            regs@ == self@.gpr,
    {
        let mut regs: [u64; 32] = [0u64; 32];
        let mut idx: usize = 0;
        proof {
            self.gpr.lemma_wf();
        }
        while idx < 32
            invariant
                idx <= 32,
                gpr_wf(self.gpr@),
                forall|i: int| 0 <= i < idx ==> regs@[i] == self.gpr@[i],
            decreases 32 - idx,
        {
            regs[idx] = self.gpr.read(idx as u64);
            idx = idx + 1;
        }
        assert(regs@ =~= self.gpr@);
        regs
    }

    /// Writes the raw value behind the CSR address `csr`.
    pub fn set_csr(&mut self, csr: u64, val: u64)
        ensures
            final(self)@ == (HartView {
                csr: match csr_slot(csr) {
                    Some(slot) => old(self)@.csr.with_raw(slot, val),
                    None => old(self)@.csr,
                },
                ..old(self)@
            }),
            final(self).same_setup(old(self)),
            old(self).wf() ==> final(self).wf(),
    {
        self.csr_regs.write_raw(csr, val);
    }

    /// The raw value behind the CSR address `csr`, and zero for an
    /// address that names no register.
    pub fn get_csr(&self, csr: u64) -> (r: u64)
        ensures
            r == match csr_slot(csr) {
                Some(slot) => self@.csr.raw(slot),
                None => 0,
            },
    {
        self.csr_regs.read_raw(csr)
    }

    /// A store straight to the bus at the physical address `paddr`. One
    /// that the bus does not serve is dropped.
    pub fn set_mem(&mut self, paddr: u64, data: u64, len: usize)
        requires
            old(self).wf(),
        ensures
            final(self).wf(),
            final(self).same_setup(old(self)),
            final(self)@ == old(self)@.with_mem(
                MemView {
                    bus: old(self)@.mem.bus.after_write(paddr, data, len as u64),
                    ..old(self)@.mem
                },
            ),
    {
        let _ = self.mmu.caches.bus.write(paddr, data, len as u64);
    }

    /// A load straight from the bus at the physical address `paddr`. One
    /// that the bus does not serve gives zero.
    pub fn get_mem(&mut self, paddr: u64, len: usize) -> (r: u64)
        requires
            old(self).wf(),
        ensures
            final(self).wf(),
            final(self).same_setup(old(self)),
            r == match old(self)@.mem.bus.read(paddr, len as u64) {
                Some(v) => v,
                None => 0,
            },
            final(self)@ == old(self)@.with_mem(
                MemView {
                    bus: old(self)@.mem.bus.after_read(paddr, len as u64),
                    ..old(self)@.mem
                },
            ),
    {
        match self.mmu.caches.bus.read(paddr, len as u64) {
            Ok(v) => v,
            Err(_) => 0,
        }
    }

    /// The pc of the instruction that is fetched next.
    pub fn get_pc(&self) -> (r: u64)
        ensures
            r == self@.npc,
    {
        self.npc
    }

    pub fn set_pc(&mut self, pc: u64)
        ensures
            final(self)@ == (HartView { npc: pc, ..old(self)@ }),
            final(self).same_setup(old(self)),
            old(self).wf() ==> final(self).wf(),
    {
        self.npc = pc;
    }
}

/// Builds a hart.
pub struct CpuCoreBuild {
    hart_id: usize,
    shared_bus: Bus,
    boot_pc: u64,
    smode: bool,
    tohost: u64,
    trace_sender: Option<crossbeam_channel::Sender<TraceType>>,
}

/// What a builder holds, as mathematical values.
pub ghost struct BuildView {
    pub hart_id: usize,
    pub bus: BusView,
    pub boot_pc: u64,
    pub smode: bool,
    pub tohost: u64,
    pub trace_sender: Option<crossbeam_channel::Sender<TraceType>>,
}

impl View for CpuCoreBuild {
    type V = BuildView;

    closed spec fn view(&self) -> BuildView {
        BuildView {
            hart_id: self.hart_id,
            bus: self.shared_bus@,
            boot_pc: self.boot_pc,
            smode: self.smode,
            tohost: self.tohost,
            trace_sender: self.trace_sender,
        }
    }
}

/// The hart that a builder makes: at reset, in Machine mode, stopped,
/// with both its pcs at the boot pc, empty caches, and the bus with the
/// contexts of the hart added to its interrupt controller.
pub open spec fn built(b: BuildView) -> HartView {
    let empty = CacheView {
        lines: Seq::new(CACHE_LINES as nat, |i: int| None::<u64>),
        perf: CachePerf { hit: 0, miss: 0 },
    };
    HartView {
        pc: b.boot_pc,
        npc: b.boot_pc,
        gpr: Seq::new(32, |i: int| 0u64),
        csr: CsrRegs::reset(b.hart_id as u64),
        privi: PrivilegeLevels::Machine,
        state: CpuState::Stop,
        mem: MemView {
            icache: empty,
            dcache: empty,
            bus: BusView {
                plic: PlicView { smode: b.bus.plic.smode || b.smode, ..b.bus.plic },
                ..b.bus
            },
        },
    }
}

impl CpuCoreBuild {
    /// A builder for hart 0 on `shared_bus`, with supervisor mode, booting
    /// at the start of main memory.
    pub fn new(shared_bus: Bus) -> (b: Self)
        ensures
            b@ == (BuildView {
                hart_id: 0,
                bus: shared_bus@,
                boot_pc: 0x8000_0000,
                smode: true,
                tohost: DEFAULT_TOHOST,
                trace_sender: None,
            }),
    {
        CpuCoreBuild {
            hart_id: 0,
            shared_bus,
            boot_pc: 0x8000_0000,
            smode: true,
            tohost: DEFAULT_TOHOST,
            trace_sender: None,
        }
    }

    /// Sets the sink of the trace records of the hart.
    pub fn with_trace(self, trace_sender: crossbeam_channel::Sender<TraceType>) -> (b: Self)
        ensures
            b@ == (BuildView { trace_sender: Some(trace_sender), ..self@ }),
    {
        let mut b = self;
        b.trace_sender = Some(trace_sender);
        b
    }

    pub fn with_boot_pc(self, boot_pc: u64) -> (b: Self)
        ensures
            b@ == (BuildView { boot_pc, ..self@ }),
    {
        let mut b = self;
        b.boot_pc = boot_pc;
        b
    }

    pub fn with_hart_id(self, hart_id: usize) -> (b: Self)
        ensures
            b@ == (BuildView { hart_id, ..self@ }),
    {
        let mut b = self;
        b.hart_id = hart_id;
        b
    }

    pub fn with_smode(self, smode: bool) -> (b: Self)
        ensures
            b@ == (BuildView { smode, ..self@ }),
    {
        let mut b = self;
        b.smode = smode;
        b
    }

    /// Sets the address of the host interface.
    pub fn with_tohost(self, tohost: u64) -> (b: Self)
        ensures
            b@ == (BuildView { tohost, ..self@ }),
    {
        let mut b = self;
        b.tohost = tohost;
        b
    }

    pub fn build(self) -> (cpu: CpuCore)
        ensures
            cpu@ == built(self@),
            cpu.tohost == self@.tohost,
            cpu.trace_sender == self@.trace_sender,
            self@.bus.wf() ==> cpu.wf(),
    {
        let mut bus = self.shared_bus;
        bus.add_plic_context(true);
        if self.smode {
            bus.add_plic_context(false);
        }
        CpuCore {
            gpr: Gpr::new(),
            csr_regs: CsrRegs::new(self.hart_id as u64),
            mmu: Mmu::new(CacheSystem::new(bus)),
            decode: InstDecode::new(),
            pc: self.boot_pc,
            npc: self.boot_pc,
            cur_priv: PrivilegeLevels::Machine,
            cpu_state: CpuState::Stop,
            tohost: self.tohost,
            trace_sender: self.trace_sender,
        }
    }
}

} // verus!
