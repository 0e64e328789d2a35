//! Lock-step comparison with a reference model. A second copy of the
//! devices answers the reference hart's memory-mapped accesses, the
//! accesses that the reference reports are recorded, and after each cycle
//! the architectural state of the two harts is compared. Running the
//! reference model itself is the host's business: it hands in what the
//! model reports and acts on the differences found here.
use vstd::prelude::*;

use crate::bus::{bus_addr, device_at, Bus, BusState, BusTxSize};
use crate::csr::{Csr, CsrState, MStatus, SStatus};
use crate::devices::clint::Clint;
use crate::devices::plic::Plic;
use crate::devices::ram::Ram;
use crate::devices::syscon::Syscon;
use crate::devices::uart::Uart;
use crate::CpuMode;

verus! {

broadcast use crate::csr::fields::group_from_bits;

/// The transfer size of an access of `len` bytes.
pub open spec fn spec_tx_size(len: u64) -> Option<BusTxSize> {
    if len == 1 {
        Some(BusTxSize::Bits8)
    } else if len == 2 {
        Some(BusTxSize::Bits16)
    } else if len == 4 {
        Some(BusTxSize::Bits32)
    } else if len == 8 {
        Some(BusTxSize::Bits64)
    } else {
        None
    }
}

/// The transfer size of an access of `len` bytes; `None` for a length that
/// no transfer has.
pub fn tx_size_of_len(len: u64) -> (r: Option<BusTxSize>)
    ensures
        r == spec_tx_size(len),
{
    match len {
        1 => Some(BusTxSize::Bits8),
        2 => Some(BusTxSize::Bits16),
        4 => Some(BusTxSize::Bits32),
        8 => Some(BusTxSize::Bits64),
        _ => None,
    }
}

/// The devices that answer the reference hart.
pub struct CosimBus {
    pub ram: Ram,
    pub syscon: Syscon,
    pub clint: Clint,
    pub plic: Plic,
    pub uart: Uart,
}

impl View for CosimBus {
    type V = BusState;

    /// The devices as a bus that records no accesses.
    open spec fn view(&self) -> BusState {
        BusState {
            atomic_reservation: None,
            ram: self.ram@,
            power_off: self.syscon.power_off,
            clint: self.clint@,
            plic: self.plic@,
            uart: self.uart@,
            last_load: None,
            pending_store: None,
        }
    }
}

/// Whether the reference hart's device access at `addr` is one the devices
/// answer: RAM and unmapped addresses are not device accesses at all.
pub open spec fn mmio_load_ok(addr: u64, size: BusTxSize) -> bool {
    device_at(addr) is Ram || BusState::load_ok(addr, size)
}

pub open spec fn mmio_store_ok(addr: u64, val: u64, size: BusTxSize) -> bool {
    device_at(addr) is Ram || BusState::store_ok(addr, val, size)
}

pub open spec fn is_device(addr: u64) -> bool {
    !(device_at(addr) is Ram) && !(device_at(addr) is Unmapped)
}

impl CosimBus {
    pub fn new() -> (r: Self)
        ensures
            r@ == (BusState { ..crate::bus::reset_bus() }),
    {
        CosimBus {
            ram: Ram::new(),
            syscon: Syscon::new(),
            clint: Clint::new(),
            plic: Plic::new(),
            uart: Uart::new(),
        }
    }

    /// One cycle of the devices: the UART exchanges bytes with the host and
    /// the timer takes `delta`. Returns whether the timer interrupt is due,
    /// and the byte the UART sends.
    pub fn tick(&mut self, delta: u64, input: Option<u8>) -> (r: (bool, Option<u8>))
        ensures
            r.0 == (delta >= old(self)@.clint.mtimecmp),
            r.1 == old(self)@.uart.tick_output(),
            final(self)@ == ({
                let (u, p) = old(self)@.uart.tick_regs(input).sync_irq(old(self)@.plic);
                BusState {
                    clint: crate::devices::clint::ClintState { mtime: delta, ..old(self)@.clint },
                    uart: u,
                    plic: p,
                    ..old(self)@
                }
            }),
            final(self).ram@ == old(self).ram@,
    {
        let out = self.uart.tick(&mut self.plic, input);
        let mtip = self.clint.tick_cosim(delta);
        (mtip, out)
    }

    /// The offset into RAM of `addr`, if RAM holds it.
    pub fn ram_offset(&self, addr: u64) -> (r: Option<usize>)
        ensures
            r == if device_at(addr) is Ram { Some((addr - Ram::BASE_ADDR) as usize) } else { None::<usize> },
            r matches Some(o) ==> o < Ram::SIZE,
    {
        if Ram::ADDR_RANGE.contains(&addr) {
            Some((addr - Ram::BASE_ADDR) as usize)
        } else {
            None
        }
    }

    /// A device load by the reference hart; `None` outside the devices.
    pub fn mmio_load(&mut self, addr: u64, tx_size: BusTxSize) -> (r: Option<u64>)
        requires
            mmio_load_ok(addr, tx_size),
        ensures
            r == if is_device(addr) { old(self)@.load_value(addr, tx_size) } else { None::<u64> },
            final(self)@ == if is_device(addr) { old(self)@.load_effect(addr, tx_size) } else { old(self)@ },
            final(self).ram@ == old(self).ram@,
    {
        if Syscon::ADDR_RANGE.contains(&addr) {
            Some(self.syscon.load(addr, tx_size))
        } else if Clint::ADDR_RANGE.contains(&addr) {
            Some(self.clint.load(addr, tx_size))
        } else if Plic::ADDR_RANGE.contains(&addr) {
            Some(self.plic.load(addr, tx_size))
        } else if Uart::ADDR_RANGE.contains(&addr) {
            Some(self.uart.load(addr, tx_size, &mut self.plic))
        } else {
            None
        }
    }

    /// A device store by the reference hart; `None` outside the devices.
    pub fn mmio_store(&mut self, addr: u64, val: u64, tx_size: BusTxSize) -> (r: Option<()>)
        requires
            mmio_store_ok(addr, val, tx_size),
        ensures
            r == if is_device(addr) { Some(()) } else { None::<()> },
            final(self)@ == if is_device(addr) { old(self)@.store_effect(addr, val, tx_size) } else { old(self)@ },
            final(self).ram@ == old(self).ram@,
    {
        if Syscon::ADDR_RANGE.contains(&addr) {
            self.syscon.store(addr, val, tx_size);
        } else if Clint::ADDR_RANGE.contains(&addr) {
            self.clint.store(addr, val, tx_size);
        } else if Plic::ADDR_RANGE.contains(&addr) {
            self.plic.store(addr, val, tx_size);
        } else if Uart::ADDR_RANGE.contains(&addr) {
            self.uart.store(addr, val, tx_size, &mut self.plic);
        } else {
            return None;
        }
        Some(())
    }
}

/// The memory accesses that the reference hart reports for one cycle: a
/// size of zero means no access.
#[derive(Clone, Copy, Debug, PartialEq, Eq, Structural)]
pub struct MemLog {
    pub load_addr: u64,
    pub load_size: u64,
    pub store_addr: u64,
    pub store_val: u64,
    pub store_size: u64,
}

impl MemLog {
    /// Whether both sizes are zero or the size of a transfer.
    pub open spec fn spec_valid(self) -> bool {
        (self.load_size == 0 || spec_tx_size(self.load_size) is Some)
            && (self.store_size == 0 || spec_tx_size(self.store_size) is Some)
    }

    pub fn valid(&self) -> (r: bool)
        ensures
            r == self.spec_valid(),
    {
        (self.load_size == 0 || tx_size_of_len(self.load_size).is_some())
            && (self.store_size == 0 || tx_size_of_len(self.store_size).is_some())
    }

    /// The load it reports, as the hart's bus records one.
    pub open spec fn load(self) -> Option<(u64, BusTxSize)> {
        if self.load_size == 0 {
            None
        } else {
            Some((bus_addr(self.load_addr), spec_tx_size(self.load_size).unwrap()))
        }
    }

    /// The store it reports, as the hart's bus holds one.
    pub open spec fn store(self) -> Option<(u64, u64, BusTxSize)> {
        if self.store_size == 0 {
            None
        } else {
            Some((bus_addr(self.store_addr), self.store_val, spec_tx_size(self.store_size).unwrap()))
        }
    }
}

/// The architectural state that the reference hart reports after a cycle.
#[derive(Clone, Copy, Debug)]
pub struct CosimState {
    pub pc: u64,
    pub prv: u64,
    pub regs: [u64; 32],
    pub sepc: u64,
    pub satp: u64,
    pub stval: u64,
    pub stvec: u64,
    pub scause: u64,
    pub sstatus: u64,
    pub mtval: u64,
    pub mcause: u64,
    pub mstatus: u64,
    pub mcountinhibit: u64,
    /// The reserved address, or all ones for none.
    pub load_reservation: u64,
}

/// One difference between the hart and the reference: the hart's value
/// first, the reference's second.
#[derive(Clone, Copy, Debug, PartialEq, Eq)]
pub enum StateDiff {
    Pc(u64, u64),
    Prv(CpuMode, u64),
    Reg(usize, u64, u64),
    Sepc(u64, u64),
    Satp(u64, u64),
    Stval(u64, u64),
    Stvec(u64, u64),
    Scause(u64, u64),
    Sstatus(u64, u64),
    Mtval(u64, u64),
    Mcause(u64, u64),
    Mstatus(u64, u64),
    Mcountinhibit(u64, u64),
    BusLoad(Option<(u64, BusTxSize)>, Option<(u64, BusTxSize)>),
    BusStore(Option<(u64, u64, BusTxSize)>, Option<(u64, u64, BusTxSize)>),
    LoadReservation(Option<u64>, u64),
}

pub open spec fn diff_if(c: bool, d: StateDiff) -> Seq<StateDiff> {
    if c {
        seq![d]
    } else {
        Seq::empty()
    }
}

/// The register differences among the first `n` registers, in order.
pub open spec fn reg_diffs(ours: Seq<u64>, theirs: Seq<u64>, n: nat) -> Seq<StateDiff>
    decreases n,
{
    if n == 0 {
        Seq::empty()
    } else {
        let i = (n - 1) as nat;
        reg_diffs(ours, theirs, i) + diff_if(ours[i as int] != theirs[i as int], StateDiff::Reg(i as usize, ours[i as int], theirs[i as int]))
    }
}

/// The reservation that the reference reports, as the hart's bus holds one.
pub open spec fn reference_reservation(r: u64) -> Option<u64> {
    if r != u64::MAX {
        Some(r)
    } else {
        None
    }
}

/// Every difference between the hart and the reference, in the order of
/// the comparison: pc, privilege, registers, the supervisor and machine CSRs,
/// the recorded load and held store, and the load reservation.
pub open spec fn state_diffs(
    pc: u64,
    mode: CpuMode,
    regs: Seq<u64>,
    csr: CsrState,
    bus: BusState,
    load: Option<(u64, BusTxSize)>,
    store: Option<(u64, u64, BusTxSize)>,
    r: CosimState,
) -> Seq<StateDiff> {
    let sstatus = csr.mstatus & SStatus::VALID_MASK;
    let mstatus = csr.mstatus & MStatus::VALID_MASK;
    diff_if(pc != r.pc, StateDiff::Pc(pc, r.pc))
        + diff_if(mode.to_bits() != r.prv, StateDiff::Prv(mode, r.prv))
        + reg_diffs(regs, r.regs@, 32)
        + diff_if(csr.sepc != r.sepc, StateDiff::Sepc(csr.sepc, r.sepc))
        + diff_if(csr.satp != r.satp, StateDiff::Satp(csr.satp, r.satp))
        + diff_if(csr.stval != r.stval, StateDiff::Stval(csr.stval, r.stval))
        + diff_if(csr.stvec != r.stvec, StateDiff::Stvec(csr.stvec, r.stvec))
        + diff_if(csr.scause != r.scause, StateDiff::Scause(csr.scause, r.scause))
        + diff_if(sstatus != r.sstatus, StateDiff::Sstatus(sstatus, r.sstatus))
        + diff_if(csr.mtval != r.mtval, StateDiff::Mtval(csr.mtval, r.mtval))
        + diff_if(csr.mcause != r.mcause, StateDiff::Mcause(csr.mcause, r.mcause))
        + diff_if(mstatus != r.mstatus, StateDiff::Mstatus(mstatus, r.mstatus))
        + diff_if(csr.mcountinhibit != r.mcountinhibit, StateDiff::Mcountinhibit(csr.mcountinhibit, r.mcountinhibit))
        + diff_if(bus.last_load != load, StateDiff::BusLoad(bus.last_load, load))
        + diff_if(bus.pending_store != store, StateDiff::BusStore(bus.pending_store, store))
        + diff_if(
            bus.atomic_reservation != reference_reservation(r.load_reservation),
            StateDiff::LoadReservation(bus.atomic_reservation, r.load_reservation),
        )
}

/// The cycle at which the two memories are compared in full.
pub const RAM_CHECK_CYCLE: u64 = 664875315;

fn same_load(a: Option<(u64, BusTxSize)>, b: Option<(u64, BusTxSize)>) -> (r: bool)
    ensures
        r == (a == b),
{
    match (a, b) {
        (Some((x, s)), Some((y, t))) => x == y && s == t,
        (None, None) => true,
        _ => false,
    }
}

fn same_store(a: Option<(u64, u64, BusTxSize)>, b: Option<(u64, u64, BusTxSize)>) -> (r: bool)
    ensures
        r == (a == b),
{
    match (a, b) {
        (Some((x, v, s)), Some((y, w, t))) => x == y && v == w && s == t,
        (None, None) => true,
        _ => false,
    }
}

fn same_reservation(a: Option<u64>, b: Option<u64>) -> (r: bool)
    ensures
        r == (a == b),
{
    match (a, b) {
        (Some(x), Some(y)) => x == y,
        (None, None) => true,
        _ => false,
    }
}

fn push_if(v: &mut Vec<StateDiff>, c: bool, d: StateDiff)
    ensures
        final(v)@ == old(v)@ + diff_if(c, d),
{
    if c {
        v.push(d);
    } else {
        assert(old(v)@ + diff_if(c, d) =~= old(v)@);
    }
}

/// Whether two byte vectors hold the same bytes.
fn same_bytes(a: &Vec<u8>, b: &Vec<u8>) -> (r: bool)
    ensures
        r == (a@ == b@),
{
    if a.len() != b.len() {
        return false;
    }
    let mut i: usize = 0;
    while i < a.len()
        invariant
            a.len() == b.len(),
            i <= a.len(),
            forall|j: int| 0 <= j < i ==> a@[j] == b@[j],
        decreases a.len() - i,
    {
        if a[i] != b[i] {
            return false;
        }
        i = i + 1;
    }
    assert(a@ =~= b@);
    true
}

/// The reference side of a lock-step run: its devices, and the accesses
/// that the reference hart reported for the last cycle.
pub struct Cosim {
    pub cosim_bus: CosimBus,
    pub load: Option<(u64, BusTxSize)>,
    pub store: Option<(u64, u64, BusTxSize)>,
}

impl Cosim {
    /// Devices at reset with a copy of the hart's memory, and no accesses.
    pub fn new(bus: &Bus) -> (r: Self)
        ensures
            r.cosim_bus@ == (BusState { ram: bus@.ram, ..crate::bus::reset_bus() }),
            r.load is None,
            r.store is None,
    {
        let mut cosim_bus = CosimBus::new();
        let ram = bus.ram.0.clone();
        assert(ram@ =~= bus@.ram);
        cosim_bus.ram = Ram(ram);
        Cosim { cosim_bus, load: None, store: None }
    }

    /// The first half of a cycle on the reference side: the devices tick
    /// and the accesses of the previous cycle are forgotten. Returns
    /// whether the reference hart's timer interrupt is due, and the byte
    /// the UART sends.
    pub fn tick(&mut self, delta: u64, input: Option<u8>) -> (r: (bool, Option<u8>))
        ensures
            r.0 == (delta >= old(self).cosim_bus@.clint.mtimecmp),
            r.1 == old(self).cosim_bus@.uart.tick_output(),
            final(self).cosim_bus@ == ({
                let b = old(self).cosim_bus@;
                let (u, p) = b.uart.tick_regs(input).sync_irq(b.plic);
                BusState { clint: crate::devices::clint::ClintState { mtime: delta, ..b.clint }, uart: u, plic: p, ..b }
            }),
            final(self).load is None,
            final(self).store is None,
    {
        let r = self.cosim_bus.tick(delta, input);
        self.load = None;
        self.store = None;
        r
    }

    /// The second half: records the accesses that the reference hart
    /// reported, with addresses cut to the 32 bits the bus decodes.
    pub fn record(&mut self, log: &MemLog)
        requires
            log.spec_valid(),
        ensures
            final(self).load == log.load(),
            final(self).store == log.store(),
            final(self).cosim_bus == old(self).cosim_bus,
    {
        self.load = if log.load_size != 0 {
            let tx_size = tx_size_of_len(log.load_size).unwrap();
            Some((log.load_addr % 0x1_0000_0000, tx_size))
        } else {
            None
        };
        self.store = if log.store_size != 0 {
            let tx_size = tx_size_of_len(log.store_size).unwrap();
            Some((log.store_addr % 0x1_0000_0000, log.store_val, tx_size))
        } else {
            None
        };
    }

    /// Every difference between the hart's state and what the reference
    /// reports, in the order of `state_diffs`.
    pub fn compare_states(
        &self,
        pc: u64,
        cpu_mode: CpuMode,
        regs: &[u64; 32],
        csr: &Csr,
        bus: &Bus,
        reference: &CosimState,
    ) -> (r: Vec<StateDiff>)
        ensures
            r@ == state_diffs(pc, cpu_mode, regs@, csr@, bus@, self.load, self.store, *reference),
    {
        let mut diffs: Vec<StateDiff> = Vec::new();
        push_if(&mut diffs, pc != reference.pc, StateDiff::Pc(pc, reference.pc));
        assert(diffs@ =~= diff_if(pc != reference.pc, StateDiff::Pc(pc, reference.pc)));
        push_if(&mut diffs, cpu_mode.to_bits() != reference.prv, StateDiff::Prv(cpu_mode, reference.prv));
        let ghost head = diffs@;
        let mut i: usize = 0;
        while i < 32
            invariant
                i <= 32,
                diffs@ == head + reg_diffs(regs@, reference.regs@, i as nat),
            decreases 32 - i,
        {
            let ours = regs[i];
            let theirs = reference.regs[i];
            push_if(&mut diffs, ours != theirs, StateDiff::Reg(i, ours, theirs));
            proof {
                assert(reg_diffs(regs@, reference.regs@, (i + 1) as nat) == reg_diffs(regs@, reference.regs@, i as nat)
                    + diff_if(ours != theirs, StateDiff::Reg(i, ours, theirs)));
                assert(head + reg_diffs(regs@, reference.regs@, (i + 1) as nat) =~= head + reg_diffs(regs@, reference.regs@, i as nat)
                    + diff_if(ours != theirs, StateDiff::Reg(i, ours, theirs)));
            }
            i = i + 1;
        }
        assert(diffs@ == diff_if(pc != reference.pc, StateDiff::Pc(pc, reference.pc))
            + diff_if(cpu_mode.to_bits() != reference.prv, StateDiff::Prv(cpu_mode, reference.prv))
            + reg_diffs(regs@, reference.regs@, 32));
        let sepc = csr.sepc();
        push_if(&mut diffs, sepc != reference.sepc, StateDiff::Sepc(sepc, reference.sepc));
        let satp = csr.satp().as_bits();
        push_if(&mut diffs, satp != reference.satp, StateDiff::Satp(satp, reference.satp));
        let stval = csr.stval();
        push_if(&mut diffs, stval != reference.stval, StateDiff::Stval(stval, reference.stval));
        let stvec = csr.stvec().as_bits();
        push_if(&mut diffs, stvec != reference.stvec, StateDiff::Stvec(stvec, reference.stvec));
        let scause = csr.scause();
        push_if(&mut diffs, scause != reference.scause, StateDiff::Scause(scause, reference.scause));
        let sstatus = csr.sstatus().as_bits();
        push_if(&mut diffs, sstatus != reference.sstatus, StateDiff::Sstatus(sstatus, reference.sstatus));
        let mtval = csr.mtval();
        push_if(&mut diffs, mtval != reference.mtval, StateDiff::Mtval(mtval, reference.mtval));
        let mcause = csr.mcause();
        push_if(&mut diffs, mcause != reference.mcause, StateDiff::Mcause(mcause, reference.mcause));
        let mstatus = csr.mstatus().as_bits();
        push_if(&mut diffs, mstatus != reference.mstatus, StateDiff::Mstatus(mstatus, reference.mstatus));
        let mcountinhibit = csr.mcountinhibit();
        push_if(&mut diffs, mcountinhibit != reference.mcountinhibit, StateDiff::Mcountinhibit(mcountinhibit, reference.mcountinhibit));
        push_if(&mut diffs, !same_load(bus.last_load, self.load), StateDiff::BusLoad(bus.last_load, self.load));
        push_if(&mut diffs, !same_store(bus.pending_store, self.store), StateDiff::BusStore(bus.pending_store, self.store));
        let theirs = if reference.load_reservation != u64::MAX {
            Some(reference.load_reservation)
        } else {
            None
        };
        push_if(
            &mut diffs,
            !same_reservation(bus.atomic_reservation, theirs),
            StateDiff::LoadReservation(bus.atomic_reservation, reference.load_reservation),
        );
        proof {
            let x = csr@.satp;
            let y = csr@.stvec;
            assert(x & 0xffffffffffffffffu64 == x && y & 0xffffffffffffffffu64 == y) by (bit_vector);
        }
        diffs
    }

    /// Whether this is the cycle at which the memories are compared, and
    /// they differ.
    pub fn ram_mismatch(&self, csr: &Csr, bus: &Bus) -> (r: bool)
        ensures
            r == (csr@.cycle == RAM_CHECK_CYCLE && bus@.ram != self.cosim_bus@.ram),
    {
        csr.cycle() == RAM_CHECK_CYCLE && !same_bytes(&bus.ram.0, &self.cosim_bus.ram.0)
    }
}


/// The register differences are none exactly when the first `n` registers
/// agree.
proof fn lemma_reg_diffs_empty(ours: Seq<u64>, theirs: Seq<u64>, n: nat)
    ensures
        reg_diffs(ours, theirs, n).len() == 0 <==> forall|i: int| 0 <= i < n ==> ours[i] == theirs[i],
    decreases n,
{
    if n > 0 {
        lemma_reg_diffs_empty(ours, theirs, (n - 1) as nat);
        let i = (n - 1) as int;
        if ours[i] == theirs[i] && reg_diffs(ours, theirs, (n - 1) as nat).len() == 0 {
            assert forall|j: int| 0 <= j < n implies ours[j] == theirs[j] by {
                if j < n - 1 {
                }
            }
        }
    }
}

/// Law: the comparison finds no difference exactly when the hart and the
/// reference agree on the pc, the privilege level, all 32 registers, the
/// compared supervisor and machine CSRs (`sstatus` and `mstatus` as their
/// fields cover them), the recorded load, the held store and the load
/// reservation.
pub proof fn lemma_no_diffs_iff_equal(
    pc: u64,
    mode: CpuMode,
    regs: Seq<u64>,
    csr: CsrState,
    bus: BusState,
    load: Option<(u64, BusTxSize)>,
    store: Option<(u64, u64, BusTxSize)>,
    r: CosimState,
)
    requires
        regs.len() == 32,
    ensures
        state_diffs(pc, mode, regs, csr, bus, load, store, r).len() == 0 <==> {
            &&& pc == r.pc
            &&& mode.to_bits() == r.prv
            &&& regs == r.regs@
            &&& csr.sepc == r.sepc && csr.satp == r.satp && csr.stval == r.stval
            &&& csr.stvec == r.stvec && csr.scause == r.scause
            &&& csr.mstatus & SStatus::VALID_MASK == r.sstatus
            &&& csr.mtval == r.mtval && csr.mcause == r.mcause
            &&& csr.mstatus & MStatus::VALID_MASK == r.mstatus
            &&& csr.mcountinhibit == r.mcountinhibit
            &&& bus.last_load == load
            &&& bus.pending_store == store
            &&& bus.atomic_reservation == reference_reservation(r.load_reservation)
        },
{
    lemma_reg_diffs_empty(regs, r.regs@, 32);
    if forall|i: int| 0 <= i < 32 ==> regs[i] == r.regs@[i] {
        assert(regs =~= r.regs@);
    }
}

} // verus!
