use crate::bits::any_bit;
use crate::clint::Clint;
use crate::csr_regs_define::{IP_MEIP, IP_MSIP, IP_MTIP, IP_SEIP};
use crate::device_dram::{
    byte_limit, lemma_byte_limit_8, lemma_read_after_write, read_le, write_le, DeviceDram,
};
use crate::device_uart::DeviceUart;
use crate::plic::{Plic, PlicView};
use crate::reservation::{after_store, LrScReservation};
use vstd::prelude::*;

verus! {

pub const CLINT_BASE: u64 = 0x0200_0000;

pub const CLINT_LEN: u64 = 0xc000;

pub const PLIC_BASE: u64 = 0x0c00_0000;

pub const PLIC_LEN: u64 = 0x0400_0000;

pub const SERIAL_PORT: u64 = 0x1000_0000;

pub const MEM_BASE: u64 = 0x8000_0000;

/// The devices that can be put on the bus.
pub enum DeviceEnum {
    Dram(DeviceDram),
    Uart(DeviceUart),
}

/// The state of a device as mathematical values: the bytes of a memory,
/// or the bytes that a serial port has yet to hand over.
pub ghost enum DeviceKind {
    Dram(Seq<u8>),
    Uart(Seq<u8>),
}

impl DeviceKind {
    /// Whether the device can serve every access inside a window of
    /// `len` bytes.
    pub open spec fn fits(self, len: u64) -> bool {
        match self {
            DeviceKind::Dram(mem) => len <= mem.len(),
            DeviceKind::Uart(_) => true,
        }
    }

    /// What a load of `len` bytes at offset `off` reads.
    pub open spec fn read(self, off: u64, len: u64) -> u64 {
        match self {
            DeviceKind::Dram(mem) => read_le(mem, off as int, len as nat) as u64,
            DeviceKind::Uart(_) => 0,
        }
    }

    /// The device after a store of the low `len` bytes of `data` at
    /// offset `off`.
    pub open spec fn write(self, off: u64, data: u64, len: u64) -> DeviceKind {
        match self {
            DeviceKind::Dram(mem) => DeviceKind::Dram(
                write_le(mem, off as int, data as nat, len as nat),
            ),
            DeviceKind::Uart(out) => DeviceKind::Uart(out.push((data % 256) as u8)),
        }
    }
}

impl View for DeviceEnum {
    type V = DeviceKind;

    open spec fn view(&self) -> DeviceKind {
        match self {
            DeviceEnum::Dram(d) => DeviceKind::Dram(d@),
            DeviceEnum::Uart(u) => DeviceKind::Uart(u@),
        }
    }
}

impl From<DeviceDram> for DeviceEnum {
    fn from(d: DeviceDram) -> (r: DeviceEnum) {
        DeviceEnum::Dram(d)
    }
}

impl vstd::std_specs::convert::FromSpecImpl<DeviceDram> for DeviceEnum {
    open spec fn obeys_from_spec() -> bool {
        true
    }

    open spec fn from_spec(d: DeviceDram) -> DeviceEnum {
        DeviceEnum::Dram(d)
    }
}

impl From<DeviceUart> for DeviceEnum {
    fn from(u: DeviceUart) -> (r: DeviceEnum) {
        DeviceEnum::Uart(u)
    }
}

impl vstd::std_specs::convert::FromSpecImpl<DeviceUart> for DeviceEnum {
    open spec fn obeys_from_spec() -> bool {
        true
    }

    open spec fn from_spec(u: DeviceUart) -> DeviceEnum {
        DeviceEnum::Uart(u)
    }
}

impl DeviceEnum {
    pub fn read(&self, off: u64, len: u64) -> (r: u64)
        requires
            1 <= len <= 8,
            self@ matches DeviceKind::Dram(mem) ==> off + len <= mem.len(),
        ensures
            r == self@.read(off, len),
    {
        match self {
            DeviceEnum::Dram(d) => d.read(off, len),
            DeviceEnum::Uart(u) => u.read(off, len),
        }
    }

    pub fn write(&mut self, off: u64, data: u64, len: u64)
        requires
            1 <= len <= 8,
            old(self)@ matches DeviceKind::Dram(mem) ==> off + len <= mem.len(),
        ensures
            final(self)@ == old(self)@.write(off, data, len),
            forall|window: u64| old(self)@.fits(window) ==> final(self)@.fits(window),
    {
        match self {
            DeviceEnum::Dram(d) => {
                d.write(off, data, len);
            },
            DeviceEnum::Uart(u) => {
                u.write(off, data, len);
            },
        }
    }
}

/// A device with the window of physical addresses that it answers.
pub struct DeviceType {
    pub start: u64,
    pub len: u64,
    pub instance: DeviceEnum,
    pub name: &'static str,
}

/// A device, its window and its name as mathematical values.
pub ghost struct DeviceView {
    pub start: u64,
    pub len: u64,
    pub kind: DeviceKind,
    pub name: Seq<char>,
}

impl View for DeviceType {
    type V = DeviceView;

    open spec fn view(&self) -> DeviceView {
        DeviceView { start: self.start, len: self.len, kind: self.instance@, name: self.name@ }
    }
}

/// Whether the access of `len` bytes at `pa` lies inside the window of
/// `size` bytes at `start`.
pub open spec fn in_window(start: u64, size: u64, pa: u64, len: u64) -> bool {
    start <= pa && pa + len <= start + size
}

/// Whether two windows share an address.
pub open spec fn windows_overlap(a: u64, a_len: u64, b: u64, b_len: u64) -> bool {
    a < b + b_len && b < a + a_len
}

/// The access widths of the bus.
pub open spec fn valid_width(len: u64) -> bool {
    len == 1 || len == 2 || len == 4 || len == 8
}

/// Whether a device can be put on a bus at all: its window is not empty,
/// ends within the address space, is served by the device in full, and
/// stays clear of the two interrupt controllers.
pub open spec fn device_ok(d: DeviceView) -> bool {
    &&& d.len > 0
    &&& d.start + d.len <= 0x1_0000_0000_0000_0000
    &&& d.kind.fits(d.len)
    &&& !windows_overlap(d.start, d.len, CLINT_BASE, CLINT_LEN)
    &&& !windows_overlap(d.start, d.len, PLIC_BASE, PLIC_LEN)
}

/// Whether device `i` of `devices` serves the whole access.
pub open spec fn covered_by(devices: Seq<DeviceView>, i: int, pa: u64, len: u64) -> bool {
    0 <= i < devices.len() && in_window(devices[i].start, devices[i].len, pa, len)
}

/// The index of a device of `devices` that serves the whole access, if
/// there is one. Where the windows are disjoint there is at most one.
pub open spec fn device_serving(devices: Seq<DeviceView>, pa: u64, len: u64) -> Option<int> {
    if exists|i: int| covered_by(devices, i, pa, len) {
        Some(choose|i: int| covered_by(devices, i, pa, len))
    } else {
        None
    }
}

/// Where an access ends up.
#[derive(Clone, Copy, PartialEq, Eq, Structural, Debug)]
pub enum BusTarget {
    /// In the core-local interruptor, at this offset.
    Clint(u64),
    /// In the interrupt controller, at this offset.
    Plic(u64),
    /// In the device of this index, at this offset.
    Device(usize, u64),
    /// Nowhere: a bus error.
    Unmapped,
}

/// The bus as mathematical values.
pub ghost struct BusView {
    pub clint: Clint,
    pub plic: PlicView,
    /// The devices, ordered by the start of their windows.
    pub devices: Seq<DeviceView>,
    /// The reservation set.
    pub reservation: Option<u64>,
}

impl BusView {
    /// The windows are in ascending order and disjoint, and each device
    /// is one that can be on a bus.
    pub open spec fn wf(self) -> bool {
        &&& self.plic.wf()
        &&& self.devices.len() <= usize::MAX
        &&& forall|i: int| 0 <= i < self.devices.len() ==> device_ok(#[trigger] self.devices[i])
        &&& forall|i: int, j: int|
            0 <= i < j < self.devices.len() ==> (#[trigger] self.devices[i]).start
                + self.devices[i].len <= (#[trigger] self.devices[j]).start
    }

    /// Whether device `i` serves the whole access.
    pub open spec fn covers(self, i: int, pa: u64, len: u64) -> bool {
        covered_by(self.devices, i, pa, len)
    }

    /// Where the access of `len` bytes at `pa` ends up. An access of
    /// another width, one that no window holds and one that crosses the
    /// end of a window end up nowhere.
    pub open spec fn target(self, pa: u64, len: u64) -> BusTarget {
        if !valid_width(len) {
            BusTarget::Unmapped
        } else if in_window(CLINT_BASE, CLINT_LEN, pa, len) {
            BusTarget::Clint((pa - CLINT_BASE) as u64)
        } else if in_window(PLIC_BASE, PLIC_LEN, pa, len) {
            BusTarget::Plic((pa - PLIC_BASE) as u64)
        } else {
            match device_serving(self.devices, pa, len) {
                Some(i) => BusTarget::Device(i as usize, (pa - self.devices[i].start) as u64),
                None => BusTarget::Unmapped,
            }
        }
    }

    /// What a load reads, or `None` for a bus error.
    pub open spec fn read(self, pa: u64, len: u64) -> Option<u64> {
        match self.target(pa, len) {
            BusTarget::Clint(off) => Some(self.clint.read_value(off, len)),
            BusTarget::Plic(off) => Some(self.plic.read_value(off, len)),
            BusTarget::Device(i, off) => Some(self.devices[i as int].kind.read(off, len)),
            BusTarget::Unmapped => None,
        }
    }

    /// The bus after a load: only a claim in the interrupt controller
    /// changes anything.
    pub open spec fn after_read(self, pa: u64, len: u64) -> BusView {
        match self.target(pa, len) {
            BusTarget::Plic(off) => BusView { plic: self.plic.after_read(off, len), ..self },
            _ => self,
        }
    }

    /// Whether a store is served; otherwise it is a bus error.
    pub open spec fn write_ok(self, pa: u64, len: u64) -> bool {
        self.target(pa, len) != BusTarget::Unmapped
    }

    /// The bus after a store. A store that is served also gives up a
    /// reservation on the line it goes to.
    pub open spec fn after_write(self, pa: u64, data: u64, len: u64) -> BusView {
        let reservation = after_store(self.reservation, pa);
        match self.target(pa, len) {
            BusTarget::Clint(off) => BusView {
                clint: self.clint.after_write(off, data, len),
                reservation,
                ..self
            },
            BusTarget::Plic(off) => BusView {
                plic: self.plic.after_write(off, data, len),
                reservation,
                ..self
            },
            BusTarget::Device(i, off) => BusView {
                devices: self.devices.update(
                    i as int,
                    DeviceView {
                        kind: self.devices[i as int].kind.write(off, data, len),
                        ..self.devices[i as int]
                    },
                ),
                reservation,
                ..self
            },
            BusTarget::Unmapped => self,
        }
    }

    /// The bus one tick later.
    pub open spec fn after_update(self) -> BusView {
        BusView { clint: self.clint.after_tick(), ..self }
    }

    /// Whether a device can be added: it can be on a bus, and its window
    /// is disjoint from every window that is there.
    pub open spec fn accepts(self, d: DeviceView) -> bool {
        &&& device_ok(d)
        &&& self.devices.len() < usize::MAX
        &&& forall|i: int|
            0 <= i < self.devices.len() ==> !windows_overlap(
                d.start,
                d.len,
                (#[trigger] self.devices[i]).start,
                self.devices[i].len,
            )
    }

    /// Whether `p` is the index at which a device whose window starts at
    /// `start` belongs: the earlier windows start below it, the later
    /// ones above.
    pub open spec fn is_slot(self, p: int, start: u64) -> bool {
        &&& 0 <= p <= self.devices.len()
        &&& forall|k: int| 0 <= k < p ==> (#[trigger] self.devices[k]).start < start
        &&& forall|k: int| p <= k < self.devices.len() ==> start < (#[trigger] self.devices[k]).start
    }

    /// The index at which a device whose window starts at `start` belongs.
    pub open spec fn slot(self, start: u64) -> int {
        choose|p: int| self.is_slot(p, start)
    }

    /// The bus with a device added in its place.
    pub open spec fn with_device(self, d: DeviceView) -> BusView {
        BusView { devices: self.devices.insert(self.slot(d.start), d), ..self }
    }

    /// The interrupt-pending bits that the two controllers assert: MTIP
    /// and MSIP from the core-local interruptor, MEIP and SEIP from the
    /// contexts of the interrupt controller.
    pub open spec fn lines(self) -> u64 {
        (if self.clint.timer_pending() {
            IP_MTIP
        } else {
            0
        }) | (if self.clint.software_pending() {
            IP_MSIP
        } else {
            0
        }) | (if self.plic.line(false) {
            IP_MEIP
        } else {
            0
        }) | (if self.plic.line(true) {
            IP_SEIP
        } else {
            0
        })
    }
}

/// The word of four interrupt lines has each of its bits set exactly when
/// its line is up, and no other bit.
proof fn lemma_line_word(timer: bool, software: bool, machine: bool, supervisor: bool)
    by (bit_vector)
    ensures
        ({
            let word = (if timer {
                IP_MTIP
            } else {
                0
            }) | (if software {
                IP_MSIP
            } else {
                0
            }) | (if machine {
                IP_MEIP
            } else {
                0
            }) | (if supervisor {
                IP_SEIP
            } else {
                0
            });
            &&& any_bit(word, IP_MTIP) == timer
            &&& any_bit(word, IP_MSIP) == software
            &&& any_bit(word, IP_MEIP) == machine
            &&& any_bit(word, IP_SEIP) == supervisor
            &&& word & !(IP_MTIP | IP_MSIP | IP_MEIP | IP_SEIP) == 0
        }),
{
}

/// How the interrupt lines are wired: MTIP is up exactly while the timer
/// has reached its compare value, MSIP mirrors the software-interrupt
/// register, and MEIP and SEIP are the lines of the machine and the
/// supervisor context of the interrupt controller. The platform drives no
/// other pending bit.
pub proof fn lemma_lines_wiring(bus: BusView)
    ensures
        any_bit(bus.lines(), IP_MTIP) == (bus.clint.mtime >= bus.clint.mtimecmp),
        any_bit(bus.lines(), IP_MSIP) == bus.clint.software_pending(),
        any_bit(bus.lines(), IP_MEIP) == bus.plic.line(false),
        any_bit(bus.lines(), IP_SEIP) == bus.plic.line(true),
        bus.lines() & !(IP_MTIP | IP_MSIP | IP_MEIP | IP_SEIP) == 0,
{
    lemma_line_word(
        bus.clint.timer_pending(),
        bus.clint.software_pending(),
        bus.plic.line(false),
        bus.plic.line(true),
    );
}

/// A store to a serial port sends the low byte of what is stored, after
/// what the port holds already, and changes no other device.
pub proof fn lemma_store_to_uart(bus: BusView, pa: u64, data: u64, len: u64)
    requires
        bus.target(pa, len) matches BusTarget::Device(i, _) && bus.devices[i as int].kind is Uart,
    ensures
        ({
            let i = bus.target(pa, len)->Device_0 as int;
            let after = bus.after_write(pa, data, len);
            &&& after.devices.len() == bus.devices.len()
            &&& after.devices[i].kind == DeviceKind::Uart(
                bus.devices[i].kind->Uart_0.push((data % 256) as u8),
            )
            &&& forall|j: int|
                0 <= j < bus.devices.len() && j != i ==> after.devices[j] == bus.devices[j]
        }),
{
    let c = choose|c: int| covered_by(bus.devices, c, pa, len);
    assert(covered_by(bus.devices, c, pa, len));
}

/// On a well-formed bus at most one device serves an access.
pub proof fn lemma_cover_unique(bus: BusView, i: int, j: int, pa: u64, len: u64)
    requires
        bus.wf(),
        len >= 1,
        bus.covers(i, pa, len),
        bus.covers(j, pa, len),
    ensures
        i == j,
{
    if i < j {
        assert(bus.devices[i].start + bus.devices[i].len <= bus.devices[j].start);
    } else if j < i {
        assert(bus.devices[j].start + bus.devices[j].len <= bus.devices[i].start);
    }
}

/// A store leaves every window where it was: what the bus serves after
/// the store is what it served before.
#[verifier::rlimit(50)]
pub proof fn lemma_store_keeps_windows(bus: BusView, pa: u64, data: u64, len: u64, at: u64, width: u64)
    requires
        bus.wf(),
    ensures
        bus.after_write(pa, data, len).wf(),
        bus.after_write(pa, data, len).target(at, width) == bus.target(at, width),
{
    let after = bus.after_write(pa, data, len);
    match bus.target(pa, len) {
        BusTarget::Device(i, off) => {
            let c = choose|c: int| covered_by(bus.devices, c, pa, len);
            assert(covered_by(bus.devices, c, pa, len));
            assert(device_ok(bus.devices[c]));
            if bus.devices[c].kind is Dram {
                crate::device_dram::lemma_write_le_frame(
                    bus.devices[c].kind->Dram_0,
                    off as int,
                    data as nat,
                    len as nat,
                );
            }
            assert forall|k: int| 0 <= k < after.devices.len() implies device_ok(
                #[trigger] after.devices[k],
            ) by {
                assert(device_ok(bus.devices[k]));
            }
            assert forall|k: int, j: int| 0 <= k < j < after.devices.len() implies (
            #[trigger] after.devices[k]).start + after.devices[k].len <= (
            #[trigger] after.devices[j]).start by {
                assert(bus.devices[k].start + bus.devices[k].len <= bus.devices[j].start);
            }
            assert forall|k: int| covered_by(after.devices, k, at, width) == covered_by(
                bus.devices,
                k,
                at,
                width,
            ) by {}
            if exists|k: int| covered_by(bus.devices, k, at, width) {
                let k0 = choose|k: int| covered_by(bus.devices, k, at, width);
                assert(covered_by(after.devices, k0, at, width));
                let k1 = choose|k: int| covered_by(after.devices, k, at, width);
                assert(covered_by(bus.devices, k1, at, width));
                if valid_width(width) {
                    lemma_cover_unique(bus, k0, k1, at, width);
                }
            } else {
                assert forall|k: int| !covered_by(after.devices, k, at, width) by {
                    assert(!covered_by(bus.devices, k, at, width));
                }
            }
        },
        _ => {},
    }
}

/// A load that follows a store of the same width to the same place in a
/// memory reads back the low bytes of what was stored.
pub proof fn lemma_store_then_load(bus: BusView, pa: u64, data: u64, len: u64)
    requires
        bus.wf(),
        bus.target(pa, len) matches BusTarget::Device(i, _) && bus.devices[i as int].kind is Dram,
    ensures
        bus.after_write(pa, data, len).read(pa, len) == Some(
            ((data as nat) % byte_limit(len as nat)) as u64,
        ),
{
    let after = bus.after_write(pa, data, len);
    lemma_store_keeps_windows(bus, pa, data, len, pa, len);
    let c = choose|c: int| covered_by(bus.devices, c, pa, len);
    assert(covered_by(bus.devices, c, pa, len));
    assert(device_ok(bus.devices[c]));
    let off = (pa - bus.devices[c].start) as int;
    lemma_read_after_write(bus.devices[c].kind->Dram_0, off, data as nat, len as nat);
    lemma_byte_limit_8();
}

/// The system bus: the two interrupt controllers at their fixed windows,
/// the devices that were added, and the reservation set.
pub struct Bus {
    clint: Clint,
    plic: Plic,
    devices: Vec<DeviceType>,
    lr_sc_set: LrScReservation,
}

impl View for Bus {
    type V = BusView;

    closed spec fn view(&self) -> BusView {
        BusView {
            clint: self.clint,
            plic: self.plic@,
            devices: self.devices@.map_values(|d: DeviceType| d@),
            reservation: self.lr_sc_set.addr,
        }
    }
}

impl Bus {
    /// A bus with no device but the interrupt controllers at reset.
    pub fn new() -> (bus: Bus)
        ensures
            bus@.wf(),
            bus@.devices.len() == 0,
            bus@.clint == (Clint { msip: 0, mtimecmp: 0, mtime: 0 }),
            bus@.plic == crate::plic::plic_reset(false),
            bus@.reservation == None::<u64>,
    {
        Bus {
            clint: Clint::new(),
            plic: Plic::new(false),
            devices: Vec::new(),
            lr_sc_set: LrScReservation::new(),
        }
    }

    /// The index of the device that serves the access, if any.
    fn find_device(&self, pa: u64, len: u64) -> (r: Option<usize>)
        requires
            self@.wf(),
            1 <= len <= 8,
        ensures
            match r {
                Some(i) => covered_by(self@.devices, i as int, pa, len),
                None => forall|i: int| !covered_by(self@.devices, i, pa, len),
            },
    {
        let n: usize = self.devices.len();
        let mut lo: usize = 0;
        let mut hi: usize = n;
        while lo < hi
            invariant
                self@.wf(),
                n == self.devices@.len(),
                n == self@.devices.len(),
                lo <= hi <= n,
                forall|k: int| 0 <= k < lo ==> (#[trigger] self@.devices[k]).start <= pa,
                forall|k: int| hi <= k < n ==> (#[trigger] self@.devices[k]).start > pa,
            decreases hi - lo,
        {
            let mid: usize = lo + (hi - lo) / 2;
            assert(self@.devices[mid as int] == self.devices@[mid as int]@);
            if self.devices[mid].start <= pa {
                assert forall|k: int| 0 <= k < mid + 1 implies (#[trigger] self@.devices[k]).start
                    <= pa by {
                    if k < mid {
                        assert(self@.devices[k].start + self@.devices[k].len
                            <= self@.devices[mid as int].start);
                    }
                }
                lo = mid + 1;
            } else {
                assert forall|k: int| mid <= k < n implies (#[trigger] self@.devices[k]).start
                    > pa by {
                    if mid < k {
                        assert(self@.devices[mid as int].start + self@.devices[mid as int].len
                            <= self@.devices[k].start);
                    }
                }
                hi = mid;
            }
        }
        if lo == 0 {
            return None;
        }
        let i: usize = lo - 1;
        assert(self@.devices[i as int] == self.devices@[i as int]@);
        let start: u64 = self.devices[i].start;
        let size: u64 = self.devices[i].len;
        assert(device_ok(self@.devices[i as int]));
        if pa - start <= size && len <= size - (pa - start) {
            Some(i)
        } else {
            assert forall|k: int| !covered_by(self@.devices, k, pa, len) by {
                if 0 <= k < i {
                    assert(self@.devices[k].start + self@.devices[k].len
                        <= self@.devices[i as int].start);
                }
            }
            None
        }
    }

    /// Where the access ends up.
    pub fn resolve(&self, pa: u64, len: u64) -> (r: BusTarget)
        requires
            self@.wf(),
        ensures
            r == self@.target(pa, len),
            r matches BusTarget::Device(i, off) ==> self@.covers(i as int, pa, len) && off == pa
                - self@.devices[i as int].start,
    {
        if !(len == 1 || len == 2 || len == 4 || len == 8) {
            return BusTarget::Unmapped;
        }
        if CLINT_BASE <= pa && pa - CLINT_BASE <= CLINT_LEN - len {
            return BusTarget::Clint(pa - CLINT_BASE);
        }
        if PLIC_BASE <= pa && pa - PLIC_BASE <= PLIC_LEN - len {
            return BusTarget::Plic(pa - PLIC_BASE);
        }
        match self.find_device(pa, len) {
            Some(i) => {
                assert(self@.devices[i as int] == self.devices@[i as int]@);
                proof {
                    assert(covered_by(self@.devices, i as int, pa, len));
                    let c = choose|c: int| covered_by(self@.devices, c, pa, len);
                    lemma_cover_unique(self@, i as int, c, pa, len);
                }
                BusTarget::Device(i, pa - self.devices[i].start)
            },
            None => BusTarget::Unmapped,
        }
    }

    /// A load of `len` bytes at the physical address `pa`.
    pub fn read(&mut self, pa: u64, len: u64) -> (r: Result<u64, ()>)
        requires
            old(self)@.wf(),
        ensures
            final(self)@.wf(),
            r == match old(self)@.read(pa, len) {
                Some(v) => Ok::<u64, ()>(v),
                None => Err::<u64, ()>(()),
            },
            final(self)@ == old(self)@.after_read(pa, len),
    {
        match self.resolve(pa, len) {
            BusTarget::Clint(off) => Ok(self.clint.read(off, len)),
            BusTarget::Plic(off) => {
                let v: u64 = self.plic.read(off, len);
                proof {
                    self.plic.lemma_wf();
                }
                assert(self@ == old(self)@.after_read(pa, len));
                Ok(v)
            },
            BusTarget::Device(i, off) => {
                assert(self@.devices[i as int] == self.devices@[i as int]@);
                assert(device_ok(self@.devices[i as int]));
                assert(self.devices@[i as int].instance@.fits(self.devices@[i as int].len));
                Ok(self.devices[i].instance.read(off, len))
            },
            BusTarget::Unmapped => Err(()),
        }
    }

    /// A store of the low `len` bytes of `data` at the physical address
    /// `pa`.
    #[verifier::rlimit(50)]
    pub fn write(&mut self, pa: u64, data: u64, len: u64) -> (r: Result<(), ()>)
        requires
            old(self)@.wf(),
        ensures
            final(self)@.wf(),
            r is Ok == old(self)@.write_ok(pa, len),
            final(self)@ == old(self)@.after_write(pa, data, len),
    {
        match self.resolve(pa, len) {
            BusTarget::Clint(off) => {
                self.clint.write(off, data, len);
                self.lr_sc_set.store_to(pa);
                assert(self@ == old(self)@.after_write(pa, data, len));
                Ok(())
            },
            BusTarget::Plic(off) => {
                self.plic.write(off, data, len);
                self.lr_sc_set.store_to(pa);
                proof {
                    self.plic.lemma_wf();
                }
                assert(self@ == old(self)@.after_write(pa, data, len));
                Ok(())
            },
            BusTarget::Device(i, off) => {
                assert(old(self)@.devices[i as int] == old(self).devices@[i as int]@);
                assert(device_ok(old(self)@.devices[i as int]));
                assert(self.devices@[i as int].instance@.fits(self.devices@[i as int].len));
                self.devices[i].instance.write(off, data, len);
                self.lr_sc_set.store_to(pa);
                proof {
                    let after = old(self)@.after_write(pa, data, len);
                    assert(self@.devices =~= after.devices);
                    assert(self@ == after);
                    assert forall|k: int| 0 <= k < self@.devices.len() implies device_ok(
                        #[trigger] self@.devices[k],
                    ) by {
                        assert(device_ok(old(self)@.devices[k]));
                    }
                    assert forall|k: int, j: int| 0 <= k < j < self@.devices.len() implies (
                    #[trigger] self@.devices[k]).start + self@.devices[k].len <= (
                    #[trigger] self@.devices[j]).start by {
                        assert(old(self)@.devices[k].start + old(self)@.devices[k].len <= old(
                            self,
                        )@.devices[j].start);
                    }
                }
                Ok(())
            },
            BusTarget::Unmapped => Err(()),
        }
    }

    /// Adds a device in the place that keeps the windows in order.
    /// Returns whether the bus took it; a device that it does not accept
    /// is dropped and the bus stays as it was.
    #[verifier::rlimit(50)]
    pub fn add_device(&mut self, dev: DeviceType) -> (ok: bool)
        requires
            old(self)@.wf(),
        ensures
            final(self)@.wf(),
            ok == old(self)@.accepts(dev@),
            final(self)@ == if ok {
                old(self)@.with_device(dev@)
            } else {
                old(self)@
            },
    {
        let n: usize = self.devices.len();
        let fits: bool = match &dev.instance {
            DeviceEnum::Dram(d) => dev.len as u128 <= d.size() as u128,
            DeviceEnum::Uart(_) => true,
        };
        if dev.len == 0 || dev.start > u64::MAX - (dev.len - 1) || !fits || n == usize::MAX {
            return false;
        }
        let end: u128 = dev.start as u128 + dev.len as u128;
        if dev.start < CLINT_BASE + CLINT_LEN && (CLINT_BASE as u128) < end {
            return false;
        }
        if dev.start < PLIC_BASE + PLIC_LEN && (PLIC_BASE as u128) < end {
            return false;
        }
        let mut i: usize = 0;
        while i < n
            invariant
                self@.wf(),
                *self == *old(self),
                n == self.devices@.len(),
                n == self@.devices.len(),
                i <= n,
                end == dev.start + dev.len,
                forall|k: int|
                    0 <= k < i ==> !windows_overlap(
                        dev.start,
                        dev.len,
                        (#[trigger] self@.devices[k]).start,
                        self@.devices[k].len,
                    ),
            decreases n - i,
        {
            assert(self@.devices[i as int] == self.devices@[i as int]@);
            let other_end: u128 = self.devices[i].start as u128 + self.devices[i].len as u128;
            if (dev.start as u128) < other_end && (self.devices[i].start as u128) < end {
                return false;
            }
            i = i + 1;
        }
        let mut pos: usize = 0;
        while pos < n && self.devices[pos].start < dev.start
            invariant
                *self == *old(self),
                n == self.devices@.len(),
                n == self@.devices.len(),
                pos <= n,
                forall|k: int| 0 <= k < pos ==> (#[trigger] self@.devices[k]).start < dev.start,
            decreases n - pos,
        {
            assert(self@.devices[pos as int] == self.devices@[pos as int]@);
            pos = pos + 1;
        }
        proof {
            let bus = old(self)@;
            assert forall|k: int| pos <= k < n implies dev.start < (#[trigger] bus.devices[k]).start by {
                assert(bus.devices[pos as int] == old(self).devices@[pos as int]@);
                assert(device_ok(bus.devices[k]));
                if pos < k {
                    assert(bus.devices[pos as int].start + bus.devices[pos as int].len
                        <= bus.devices[k].start);
                }
            }
            assert(bus.is_slot(pos as int, dev.start));
            let p = bus.slot(dev.start);
            assert(bus.is_slot(p, dev.start));
            if p < pos {
                assert(bus.devices[p].start < dev.start);
            } else if pos < p {
                assert(bus.devices[pos as int].start < dev.start);
            }
            assert(p == pos);
        }
        let ghost shown = dev@;
        self.devices.insert(pos, dev);
        proof {
            let bus = old(self)@;
            let after = bus.with_device(shown);
            assert(self@.devices =~= after.devices);
            assert(self@ == after);
            self.plic.lemma_wf();
            assert forall|k: int| 0 <= k < after.devices.len() implies device_ok(
                #[trigger] after.devices[k],
            ) by {
                if k < pos {
                    assert(device_ok(bus.devices[k]));
                } else if k > pos {
                    assert(device_ok(bus.devices[k - 1]));
                }
            }
            assert forall|a: int, b: int| 0 <= a < b < after.devices.len() implies (
            #[trigger] after.devices[a]).start + after.devices[a].len <= (
            #[trigger] after.devices[b]).start by {
                let oa = if a < pos {
                    a
                } else {
                    a - 1
                };
                let ob = if b < pos {
                    b
                } else {
                    b - 1
                };
                if a != pos && b != pos {
                    assert(bus.devices[oa].start + bus.devices[oa].len <= bus.devices[ob].start);
                } else if a == pos {
                    assert(shown.start < bus.devices[ob].start);
                    assert(!windows_overlap(
                        shown.start,
                        shown.len,
                        bus.devices[ob].start,
                        bus.devices[ob].len,
                    ));
                } else {
                    assert(bus.devices[oa].start < shown.start);
                    assert(device_ok(bus.devices[oa]));
                    assert(!windows_overlap(
                        shown.start,
                        shown.len,
                        bus.devices[oa].start,
                        bus.devices[oa].len,
                    ));
                }
            }
        }
        true
    }

    /// The number of devices on the bus, the interrupt controllers not
    /// counted.
    pub fn device_count(&self) -> (n: usize)
        ensures
            n == self@.devices.len(),
    {
        self.devices.len()
    }

    /// The window of device `index`: its start and its length.
    pub fn device_window(&self, index: usize) -> (r: Option<(u64, u64)>)
        ensures
            r == if index < self@.devices.len() {
                Some((self@.devices[index as int].start, self@.devices[index as int].len))
            } else {
                None
            },
    {
        if index < self.devices.len() {
            assert(self@.devices[index as int] == self.devices@[index as int]@);
            Some((self.devices[index].start, self.devices[index].len))
        } else {
            None
        }
    }

    /// The name that device `index` was added under.
    pub fn device_name(&self, index: usize) -> (r: Option<&'static str>)
        ensures
            r is Some == (index < self@.devices.len()),
            r matches Some(name) ==> name@ == self@.devices[index as int].name,
    {
        if index < self.devices.len() {
            assert(self@.devices[index as int] == self.devices@[index as int]@);
            Some(self.devices[index].name)
        } else {
            None
        }
    }

    /// Takes out what the serial port at `index` has transmitted. A device
    /// that is no serial port, or no device at all, gives nothing.
    #[verifier::rlimit(50)]
    pub fn take_output(&mut self, index: usize) -> (taken: Vec<u8>)
        ensures
            index < old(self)@.devices.len() && old(self)@.devices[index as int].kind is Uart ==> {
                &&& taken@ == old(self)@.devices[index as int].kind->Uart_0
                &&& final(self)@ == (BusView {
                    devices: old(self)@.devices.update(
                        index as int,
                        DeviceView {
                            kind: DeviceKind::Uart(Seq::empty()),
                            ..old(self)@.devices[index as int]
                        },
                    ),
                    ..old(self)@
                })
            },
            !(index < old(self)@.devices.len() && old(self)@.devices[index as int].kind is Uart)
                ==> taken@.len() == 0 && final(self)@ == old(self)@,
            old(self)@.wf() ==> final(self)@.wf(),
    {
        if index >= self.devices.len() {
            return Vec::new();
        }
        assert(old(self)@.devices[index as int] == old(self).devices@[index as int]@);
        let taken: Vec<u8> = match &mut self.devices[index].instance {
            DeviceEnum::Uart(u) => u.take_output(),
            DeviceEnum::Dram(_) => Vec::new(),
        };
        proof {
            if old(self)@.devices[index as int].kind is Uart {
                let after = BusView {
                    devices: old(self)@.devices.update(
                        index as int,
                        DeviceView {
                            kind: DeviceKind::Uart(Seq::empty()),
                            ..old(self)@.devices[index as int]
                        },
                    ),
                    ..old(self)@
                };
                assert(self@.devices =~= after.devices);
                if old(self)@.wf() {
                    assert forall|k: int| 0 <= k < self@.devices.len() implies device_ok(
                        #[trigger] self@.devices[k],
                    ) by {
                        assert(device_ok(old(self)@.devices[k]));
                    }
                    assert forall|k: int, j: int| 0 <= k < j < self@.devices.len() implies (
                    #[trigger] self@.devices[k]).start + self@.devices[k].len <= (
                    #[trigger] self@.devices[j]).start by {
                        assert(old(self)@.devices[k].start + old(self)@.devices[k].len <= old(
                            self,
                        )@.devices[j].start);
                    }
                }
            } else {
                assert(self@.devices =~= old(self)@.devices);
            }
        }
        taken
    }

    /// The interrupt-pending bits that the controllers assert now.
    pub fn interrupt_lines(&self) -> (r: u64)
        ensures
            r == self@.lines(),
    {
        let mtip: u64 = if self.clint.mtip() {
            IP_MTIP
        } else {
            0
        };
        let msip: u64 = if self.clint.msip_line() {
            IP_MSIP
        } else {
            0
        };
        let meip: u64 = if self.plic.line(false) {
            IP_MEIP
        } else {
            0
        };
        let seip: u64 = if self.plic.line(true) {
            IP_SEIP
        } else {
            0
        };
        mtip | msip | meip | seip
    }

    /// The value of the platform timer.
    pub fn mtime(&self) -> (r: u64)
        ensures
            r == self@.clint.mtime,
    {
        self.clint.mtime
    }

    /// The device behind source `src` of the interrupt controller raises
    /// its line.
    pub fn raise_irq(&mut self, src: u64)
        ensures
            final(self)@ == (BusView { plic: old(self)@.plic.after_raise(src), ..old(self)@ }),
            old(self)@.wf() ==> final(self)@.wf(),
    {
        self.plic.raise(src);
        proof {
            self.plic.lemma_wf();
        }
    }

    /// Adds to the interrupt controller the context of the machine mode
    /// of the hart, which is there anyway, or of its supervisor mode.
    pub fn add_plic_context(&mut self, machine: bool)
        ensures
            final(self)@ == (BusView {
                plic: PlicView { smode: old(self)@.plic.smode || !machine, ..old(self)@.plic },
                ..old(self)@
            }),
            old(self)@.wf() ==> final(self)@.wf(),
    {
        self.plic.add_context(machine);
        proof {
            self.plic.lemma_wf();
        }
    }

    /// Reserves `addr` for a store-conditional.
    pub fn reserve(&mut self, addr: u64)
        ensures
            final(self)@ == (BusView { reservation: Some(addr), ..old(self)@ }),
    {
        self.lr_sc_set.set(addr);
    }

    /// Whether `addr` is reserved. The reservation is given up either way.
    pub fn check_and_clear_reservation(&mut self, addr: u64) -> (held: bool)
        ensures
            held == (old(self)@.reservation == Some(addr)),
            final(self)@ == (BusView { reservation: None, ..old(self)@ }),
    {
        self.lr_sc_set.check_and_clear(addr)
    }

    pub fn clear_reservation(&mut self)
        ensures
            final(self)@ == (BusView { reservation: None, ..old(self)@ }),
    {
        self.lr_sc_set.clear();
    }

    /// Advances the platform by one tick.
    pub fn update(&mut self)
        ensures
            final(self)@ == old(self)@.after_update(),
            old(self)@.wf() ==> final(self)@.wf(),
    {
        self.clint.tick();
        self.plic.tick();
    }
}

} // verus!
