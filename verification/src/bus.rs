//! The system bus: routes physical accesses to RAM and the memory-mapped
//! devices, and holds the one store that an instruction may leave pending.
use vstd::prelude::*;

use crate::csr::{Csr, CsrState};
use crate::devices::clint::{mip_with_timer, reset_clint, Clint, ClintState};
use crate::devices::plic::{mip_with_external, Plic, PlicState};
use crate::devices::ram::{le_value, le_write, Ram};
use crate::devices::syscon::Syscon;
use crate::devices::uart::{reset_uart, Uart, UartState};

verus! {

#[derive(Debug, PartialEq, Eq, Clone, Copy, Structural)]
pub enum BusTxSize {
    Bits8,
    Bits16,
    Bits32,
    Bits64,
}

impl BusTxSize {
    /// Number of bytes a transfer of this size moves.
    pub open spec fn bytes(self) -> nat {
        match self {
            BusTxSize::Bits8 => 1,
            BusTxSize::Bits16 => 2,
            BusTxSize::Bits32 => 4,
            BusTxSize::Bits64 => 8,
        }
    }

    /// The value `v` cut to this size.
    pub open spec fn truncate(self, v: u64) -> u64 {
        match self {
            BusTxSize::Bits8 => v % 0x100,
            BusTxSize::Bits16 => v % 0x1_0000,
            BusTxSize::Bits32 => v % 0x1_0000_0000,
            BusTxSize::Bits64 => v,
        }
    }
}

/// Which device answers at a physical address.
#[derive(Debug, PartialEq, Eq, Clone, Copy, Structural)]
pub enum Device {
    Ram,
    Syscon,
    Clint,
    Plic,
    Uart,
    Unmapped,
}

#[verifier::allow_in_spec]
pub fn device_at(addr: u64) -> Device
    returns
        if 0x8000_0000 <= addr < 0xA000_0000 {
            Device::Ram
        } else if 0x1110_0000 <= addr < 0x1110_1000 {
            Device::Syscon
        } else if 0x200_0000 <= addr < 0x201_0000 {
            Device::Clint
        } else if 0x0C00_0000 <= addr < 0x0C20_2008 {
            Device::Plic
        } else if 0x1000_0000 <= addr < 0x1000_0100 {
            Device::Uart
        } else {
            Device::Unmapped
        },
{
    if 0x8000_0000 <= addr && addr < 0xA000_0000 {
        Device::Ram
    } else if 0x1110_0000 <= addr && addr < 0x1110_1000 {
        Device::Syscon
    } else if 0x200_0000 <= addr && addr < 0x201_0000 {
        Device::Clint
    } else if 0x0C00_0000 <= addr && addr < 0x0C20_2008 {
        Device::Plic
    } else if 0x1000_0000 <= addr && addr < 0x1000_0100 {
        Device::Uart
    } else {
        Device::Unmapped
    }
}

fn size_bytes(size: BusTxSize) -> (r: u64)
    ensures
        r == size.bytes(),
{
    match size {
        BusTxSize::Bits8 => 1,
        BusTxSize::Bits16 => 2,
        BusTxSize::Bits32 => 4,
        BusTxSize::Bits64 => 8,
    }
}

fn plic_register(addr: u64) -> (r: bool)
    ensures
        r == PlicState::is_readable(addr),
{
    addr == 0x0C00_0004 || addr == 0x0C00_1000 || addr == 0x0C00_2000 || addr == 0x0C00_2080
        || addr == 0x0C20_0000 || addr == 0x0C20_1000 || addr == 0x0C20_0004 || addr == 0x0C20_1004
}

fn clint_register(addr: u64) -> (r: bool)
    ensures
        r == ClintState::is_register(addr),
{
    addr == 0x200_0000 || addr == 0x200_4000 || addr == 0x200_BFF8
}

/// Whether a load of `size` at `addr` is answered by a device (rather than
/// aborting the machine or reaching no device).
pub fn load_answered(addr: u64, size: BusTxSize) -> (r: bool)
    ensures
        r == (BusState::load_ok(addr, size) && !(device_at(addr) is Unmapped)),
{
    match device_at(addr) {
        Device::Ram => addr - 0x8000_0000 + size_bytes(size) <= 512 * 0x10_0000,
        Device::Syscon => true,
        Device::Clint => size == BusTxSize::Bits64 && clint_register(addr),
        Device::Plic => size == BusTxSize::Bits32 && plic_register(addr),
        Device::Uart => size == BusTxSize::Bits8,
        Device::Unmapped => false,
    }
}

/// Whether a store of `size` and (truncated) `val` at `addr` is accepted
/// (rather than aborting the machine).
pub fn store_accepted(addr: u64, val: u64, size: BusTxSize) -> (r: bool)
    ensures
        r == BusState::store_ok(addr, val, size),
{
    match device_at(addr) {
        Device::Ram => addr - 0x8000_0000 + size_bytes(size) <= 512 * 0x10_0000,
        Device::Syscon => size == BusTxSize::Bits32 && !(addr == 0x1110_0000 && val % 0x1_0000_0000 == 0x7777),
        Device::Clint => clint_register(addr),
        Device::Plic => size == BusTxSize::Bits32 && plic_register(addr),
        Device::Uart => size == BusTxSize::Bits8,
        Device::Unmapped => true,
    }
}

/// The low 32 bits of an address: the bus decodes no more.
pub open spec fn bus_addr(addr: u64) -> u64 {
    addr % 0x1_0000_0000
}

pub ghost struct BusState {
    pub atomic_reservation: Option<u64>,
    pub ram: Seq<u8>,
    pub power_off: bool,
    pub clint: ClintState,
    pub plic: PlicState,
    pub uart: UartState,
    pub last_load: Option<(u64, BusTxSize)>,
    pub pending_store: Option<(u64, u64, BusTxSize)>,
}

impl BusState {
    pub open spec fn wf(self) -> bool {
        self.ram.len() == Ram::SIZE
    }

    /// Loads that the devices answer (rather than reject by aborting).
    pub open spec fn load_ok(addr: u64, size: BusTxSize) -> bool {
        match device_at(addr) {
            Device::Ram => Ram::access_ok(addr, size),
            Device::Syscon => true,
            Device::Clint => ClintState::load_ok(addr, size),
            Device::Plic => PlicState::load_ok(addr, size),
            Device::Uart => UartState::load_ok(addr, size),
            Device::Unmapped => true,
        }
    }

    /// The value a load gives; `None` where no device answers.
    pub open spec fn load_value(self, addr: u64, size: BusTxSize) -> Option<u64> {
        match device_at(addr) {
            Device::Ram => Some(le_value(self.ram, addr - Ram::BASE_ADDR, size.bytes()) as u64),
            Device::Syscon => Some(0),
            Device::Clint => Some(self.clint.load(addr)),
            Device::Plic => Some(self.plic.load_value(addr)),
            Device::Uart => Some(self.uart.load_value(addr)),
            Device::Unmapped => None,
        }
    }

    /// The devices after a load: PLIC claims and UART receive reads have
    /// side effects.
    pub open spec fn load_effect(self, addr: u64, size: BusTxSize) -> BusState {
        match device_at(addr) {
            Device::Plic => BusState { plic: self.plic.after_load(addr), ..self },
            Device::Uart => {
                let (u, p) = self.uart.load_regs(addr).sync_irq(self.plic);
                BusState { uart: u, plic: p, ..self }
            },
            _ => self,
        }
    }

    /// Stores that the devices accept (rather than reject by aborting).
    pub open spec fn store_ok(addr: u64, val: u64, size: BusTxSize) -> bool {
        match device_at(addr) {
            Device::Ram => Ram::access_ok(addr, size),
            Device::Syscon => Syscon::store_ok(addr, val, size),
            Device::Clint => ClintState::is_register(addr),
            Device::Plic => PlicState::store_ok(addr, size),
            Device::Uart => UartState::load_ok(addr, size),
            Device::Unmapped => true,
        }
    }

    /// The devices after a store of the (already truncated) `val`.
    pub open spec fn store_effect(self, addr: u64, val: u64, size: BusTxSize) -> BusState {
        match device_at(addr) {
            Device::Ram => BusState {
                ram: le_write(self.ram, addr - Ram::BASE_ADDR, val as nat, size.bytes()),
                ..self
            },
            Device::Syscon => BusState {
                power_off: if addr == Syscon::spec_base_addr() && val % 0x1_0000_0000 == 0x5555 {
                    true
                } else {
                    self.power_off
                },
                ..self
            },
            Device::Clint => BusState { clint: self.clint.store(addr, val, size), ..self },
            Device::Plic => BusState { plic: self.plic.after_store(addr, val), ..self },
            Device::Uart => {
                let (u, p) = self.uart.store_regs(addr, (val % 0x100) as u8).sync_irq(self.plic);
                BusState { uart: u, plic: p, ..self }
            },
            Device::Unmapped => self,
        }
    }

    /// Whether committing the pending store is accepted by its device.
    pub open spec fn commit_ok(self) -> bool {
        match self.pending_store {
            Some((addr, val, size)) => Self::store_ok(addr, val, size),
            None => true,
        }
    }

    pub open spec fn after_commit(self) -> BusState {
        match self.pending_store {
            Some((addr, val, size)) => self.store_effect(addr, val, size),
            None => self,
        }
    }

    pub open spec fn commit_result(self) -> Option<()> {
        match self.pending_store {
            Some((addr, val, size)) => if device_at(addr) is Unmapped { None } else { Some(()) },
            None => Some(()),
        }
    }

    /// The instruction word fetched at `addr`: only RAM holds code.
    pub open spec fn fetch_value(self, addr: u64) -> Option<u32> {
        let a = bus_addr(addr);
        if device_at(a) is Ram {
            Some(le_value(self.ram, a - Ram::BASE_ADDR, 4) as u32)
        } else {
            None
        }
    }

    pub open spec fn fetch_ok(addr: u64) -> bool {
        let a = bus_addr(addr);
        device_at(a) is Ram ==> Ram::access_ok(a, BusTxSize::Bits32)
    }
}

/// The bus as powered on: zeroed RAM and every device at reset.
pub open spec fn reset_bus() -> BusState {
    BusState {
        atomic_reservation: None,
        ram: Seq::new(Ram::SIZE as nat, |i: int| 0u8),
        power_off: false,
        clint: reset_clint(),
        plic: PlicState {
            prio_src1: 0,
            pending: false,
            in_service: false,
            enable0: false,
            enable1: false,
            threshold0: 0,
            threshold1: 0,
        },
        uart: reset_uart(false),
        last_load: None,
        pending_store: None,
    }
}

pub struct Bus {
    pub atomic_reservation: Option<u64>,
    pub ram: Ram,
    pub syscon: Syscon,
    pub clint: Clint,
    pub plic: Plic,
    pub uart: Uart,
    pub last_load: Option<(u64, BusTxSize)>,
    pub pending_store: Option<(u64, u64, BusTxSize)>,
}

impl View for Bus {
    type V = BusState;

    open spec fn view(&self) -> BusState {
        BusState {
            atomic_reservation: self.atomic_reservation,
            ram: self.ram@,
            power_off: self.syscon.power_off,
            clint: self.clint@,
            plic: self.plic@,
            uart: self.uart@,
            last_load: self.last_load,
            pending_store: self.pending_store,
        }
    }
}

impl Bus {
    pub fn new() -> (r: Self)
        ensures
            r@ == reset_bus(),
    {
        Self {
            atomic_reservation: None,
            ram: Ram::new(),
            syscon: Syscon::new(),
            clint: Clint::new(),
            plic: Plic::new(),
            uart: Uart::new(),
            last_load: None,
            pending_store: None,
        }
    }

    /// Fetches an instruction word from RAM.
    pub fn fetch(&mut self, addr: u64) -> (r: Option<u32>)
        requires
            old(self)@.wf(),
            BusState::fetch_ok(addr),
        ensures
            r == old(self)@.fetch_value(addr),
            final(self)@ == old(self)@,
    {
        let addr = addr % 0x1_0000_0000;
        if Ram::ADDR_RANGE.contains(&addr) {
            Some(self.ram.load(addr, BusTxSize::Bits32) as u32)
        } else {
            None
        }
    }

    fn dispatch_load(&mut self, addr: u64, tx_size: BusTxSize) -> (r: Option<u64>)
        requires
            old(self)@.wf(),
            BusState::load_ok(addr, tx_size),
        ensures
            r == old(self)@.load_value(addr, tx_size),
            final(self)@ == old(self)@.load_effect(addr, tx_size),
    {
        if Ram::ADDR_RANGE.contains(&addr) {
            Some(self.ram.load(addr, tx_size))
        } else if Syscon::ADDR_RANGE.contains(&addr) {
            Some(self.syscon.load(addr, tx_size))
        } else if Clint::ADDR_RANGE.contains(&addr) {
            Some(self.clint.load(addr, tx_size))
        } else if Plic::ADDR_RANGE.contains(&addr) {
            Some(self.plic.load(addr, tx_size))
        } else if Uart::ADDR_RANGE.contains(&addr) {
            Some(self.uart.load(addr, tx_size, &mut self.plic))
        } else {
            None
        }
    }

    /// Whether the held store, if any, is accepted by its device.
    pub fn commit_accepted(&self) -> (r: bool)
        ensures
            r == self@.commit_ok(),
    {
        match self.pending_store {
            Some((addr, val, size)) => store_accepted(addr, val, size),
            None => true,
        }
    }

    /// Whether an instruction fetch at `addr` stays inside RAM (or misses it
    /// altogether).
    pub fn fetch_within_bounds(addr: u64) -> (r: bool)
        ensures
            r == BusState::fetch_ok(addr),
    {
        let a = addr % 0x1_0000_0000;
        match device_at(a) {
            Device::Ram => a - 0x8000_0000 + 4 <= 512 * 0x10_0000,
            _ => true,
        }
    }

    /// Reads a doubleword without side effects, as a page-table walk does:
    /// no device with read side effects answers doubleword reads.
    pub fn peek_doubleword(&self, addr: u64) -> (r: Option<u64>)
        requires
            self@.wf(),
            BusState::load_ok(addr, BusTxSize::Bits64),
        ensures
            r == self@.load_value(addr, BusTxSize::Bits64),
            self@.load_effect(addr, BusTxSize::Bits64) == self@,
    {
        if Ram::ADDR_RANGE.contains(&addr) {
            Some(self.ram.load(addr, BusTxSize::Bits64))
        } else if Syscon::ADDR_RANGE.contains(&addr) {
            Some(self.syscon.load(addr, BusTxSize::Bits64))
        } else if Clint::ADDR_RANGE.contains(&addr) {
            Some(self.clint.load(addr, BusTxSize::Bits64))
        } else {
            None
        }
    }

    /// A load by the hart: decodes the low 32 bits of the address and
    /// records the access.
    pub fn load(&mut self, addr: u64, tx_size: BusTxSize) -> (r: Option<u64>)
        requires
            old(self)@.wf(),
            BusState::load_ok(bus_addr(addr), tx_size),
        ensures
            r == old(self)@.load_value(bus_addr(addr), tx_size),
            final(self)@ == if r is Some {
                BusState {
                    last_load: Some((bus_addr(addr), tx_size)),
                    ..old(self)@.load_effect(bus_addr(addr), tx_size)
                }
            } else {
                old(self)@
            },
    {
        let addr = addr % 0x1_0000_0000;
        let r = self.dispatch_load(addr, tx_size);
        if r.is_some() {
            self.last_load = Some((addr, tx_size));
        }
        r
    }

    /// A load on behalf of the hart itself (page-table walks): the full
    /// address, and no record of the access.
    pub fn load_internal(&mut self, addr: u64, tx_size: BusTxSize) -> (r: Option<u64>)
        requires
            old(self)@.wf(),
            BusState::load_ok(addr, tx_size),
        ensures
            r == old(self)@.load_value(addr, tx_size),
            final(self)@ == old(self)@.load_effect(addr, tx_size),
    {
        self.dispatch_load(addr, tx_size)
    }

    /// A store by the hart: cut to its size and held until the end of the
    /// instruction.
    pub fn store(&mut self, addr: u64, val: u64, tx_size: BusTxSize) -> (r: Option<()>)
        requires
            old(self).pending_store is None,
        ensures
            r == Some(()),
            final(self)@ == (BusState {
                pending_store: Some((addr, tx_size.truncate(val), tx_size)),
                ..old(self)@
            }),
    {
        let val = match tx_size {
            BusTxSize::Bits8 => val % 0x100,
            BusTxSize::Bits16 => val % 0x1_0000,
            BusTxSize::Bits32 => val % 0x1_0000_0000,
            BusTxSize::Bits64 => val,
        };
        self.pending_store = Some((addr, val, tx_size));
        Some(())
    }

    fn dispatch_store(&mut self, addr: u64, val: u64, tx_size: BusTxSize) -> (r: Option<()>)
        requires
            old(self)@.wf(),
            BusState::store_ok(addr, val, tx_size),
        ensures
            r == if device_at(addr) is Unmapped { None } else { Some(()) },
            final(self)@ == old(self)@.store_effect(addr, val, tx_size),
            final(self)@.wf(),
    {
        if Ram::ADDR_RANGE.contains(&addr) {
            self.ram.store(addr, val, tx_size);
            proof {
                crate::devices::ram::lemma_le_write_frame(old(self)@.ram, addr - Ram::BASE_ADDR, val as nat, tx_size.bytes(), 0);
            }
        } else if Syscon::ADDR_RANGE.contains(&addr) {
            self.syscon.store(addr, val, tx_size);
        } else if Clint::ADDR_RANGE.contains(&addr) {
            self.clint.store(addr, val, tx_size);
        } else if Plic::ADDR_RANGE.contains(&addr) {
            self.plic.store(addr, val, tx_size);
        } else if Uart::ADDR_RANGE.contains(&addr) {
            self.uart.store(addr, val, tx_size, &mut self.plic);
        } else {
            return None;
        }
        Some(())
    }

    /// A store that takes effect at once.
    pub fn store_internal(&mut self, addr: u64, val: u64, tx_size: BusTxSize) -> (r: Option<()>)
        requires
            old(self)@.wf(),
            BusState::store_ok(addr, tx_size.truncate(val), tx_size),
        ensures
            r == if device_at(addr) is Unmapped { None } else { Some(()) },
            final(self)@ == old(self)@.store_effect(addr, tx_size.truncate(val), tx_size),
            final(self)@.wf(),
    {
        let val = match tx_size {
            BusTxSize::Bits8 => val % 0x100,
            BusTxSize::Bits16 => val % 0x1_0000,
            BusTxSize::Bits32 => val % 0x1_0000_0000,
            BusTxSize::Bits64 => val,
        };
        self.dispatch_store(addr, val, tx_size)
    }

    /// Performs the held store, if any (it stays held until the next tick).
    pub fn commit_store(&mut self) -> (r: Option<()>)
        requires
            old(self)@.wf(),
            old(self)@.commit_ok(),
        ensures
            r == old(self)@.commit_result(),
            final(self)@ == old(self)@.after_commit(),
            final(self)@.wf(),
    {
        if let Some((addr, val, tx_size)) = self.pending_store {
            self.dispatch_store(addr, val, tx_size)
        } else {
            Some(())
        }
    }

    /// Starts a new cycle: forgets the previous instruction's accesses,
    /// advances the timer to `delta` and ticks the UART with the byte that
    /// arrived from the host, returning the byte it sends to the host.
    pub fn tick(&mut self, csr: &mut Csr, delta: u64, input: Option<u8>) -> (r: Option<u8>)
        ensures
            r == old(self)@.uart.tick_output(),
            final(self)@ == ({
                let (u, p) = old(self)@.uart.tick_regs(input).sync_irq(old(self)@.plic);
                BusState {
                    last_load: None,
                    pending_store: None,
                    clint: ClintState { mtime: delta, ..old(self)@.clint },
                    uart: u,
                    plic: p,
                    ..old(self)@
                }
            }),
            final(csr)@ == (CsrState { time: delta, ..old(csr)@ }),
    {
        self.last_load = None;
        self.pending_store = None;
        self.clint.tick(csr, delta);
        self.uart.tick(&mut self.plic, input)
    }

    /// Sets the timer, software and external interrupt bits of `mip` from
    /// the devices.
    pub fn poll_interrupts(&self, csr: &mut Csr)
        ensures
            final(csr)@ == (CsrState {
                mip: mip_with_external(mip_with_timer(old(csr)@.mip, self.clint@), self.plic@),
                ..old(csr)@
            }),
    {
        self.clint.poll_interrupts(csr);
        self.plic.poll_interrupts(csr);
    }
}


/// Law: a hart store to RAM, once committed at the end of its instruction,
/// is what a load of the same size at the same address gives back (cut to
/// the size), and loads of RAM that the store does not cover see what they
/// saw before.
pub proof fn lemma_committed_store_load(
    s: BusState,
    addr: u64,
    val: u64,
    size: BusTxSize,
    other: u64,
    other_size: BusTxSize,
)
    requires
        s.wf(),
        Ram::access_ok(addr, size),
        Ram::access_ok(other, other_size),
    ensures
        ({
            let t = BusState { pending_store: Some((addr, size.truncate(val), size)), ..s }.after_commit();
            &&& t.wf()
            &&& t.load_value(addr, size) == Some(size.truncate(val))
            &&& (other + other_size.bytes() <= addr || addr + size.bytes() <= other
                ==> t.load_value(other, other_size) == s.load_value(other, other_size))
        }),
{
    let v = size.truncate(val);
    crate::devices::ram::lemma_ram_store_load(s.ram, addr, v, size, other, other_size);
    crate::devices::ram::lemma_le_write_frame(s.ram, addr - Ram::BASE_ADDR, v as nat, size.bytes(), 0);
    assert(size.truncate(v) == v);
}


/// Law: a store that takes effect at once (`store_internal`), at an
/// unmapped address, changes nothing; in RAM it writes the value cut to its
/// size little-endian over exactly its bytes, so a load of that size there
/// gives it back, and it leaves every other byte, the devices, the recorded
/// load, the held store and the reservation as they were.
pub proof fn lemma_immediate_store(s: BusState, addr: u64, val: u64, size: BusTxSize)
    requires
        s.wf(),
        device_at(addr) is Unmapped || Ram::access_ok(addr, size),
    ensures
        ({
            let t = s.store_effect(addr, size.truncate(val), size);
            &&& device_at(addr) is Unmapped ==> t == s
            &&& device_at(addr) is Ram ==> {
                &&& t == (BusState { ram: t.ram, ..s })
                &&& t.wf()
                &&& t.load_value(addr, size) == Some(size.truncate(val))
                &&& forall|i: int| 0 <= i < s.ram.len() && !(addr - Ram::BASE_ADDR <= i < addr - Ram::BASE_ADDR + size.bytes())
                    ==> #[trigger] t.ram[i] == s.ram[i]
            }
        }),
{
    if device_at(addr) is Ram {
        let v = size.truncate(val);
        crate::devices::ram::lemma_ram_store_load(s.ram, addr, v, size, addr, size);
        assert(size.truncate(v) == v);
    }
}

} // verus!
