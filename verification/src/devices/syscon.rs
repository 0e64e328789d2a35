//! Generic syscon: a single 32-bit register that powers the machine off or
//! reboots it.
use std::ops::Range;

use vstd::prelude::*;

use crate::bus::BusTxSize;

verus! {

pub struct Syscon {
    pub power_off: bool,
}

/// Value that requests power-off.
pub const POWER_OFF_VALUE: u32 = 0x5555;

/// Value that requests a reboot, which this machine does not support.
pub const REBOOT_VALUE: u32 = 0x7777;

impl Syscon {
    const BASE_ADDR: u64 = 0x1110_0000;

    const SIZE: u64 = 0x1000;

    pub const ADDR_RANGE: Range<u64> = 0x1110_0000..0x1110_1000;

    pub open spec fn spec_base_addr() -> u64 {
        0x1110_0000
    }

    /// Stores the device takes: 32-bit ones, other than a reboot request.
    pub open spec fn store_ok(addr: u64, val: u64, size: BusTxSize) -> bool {
        size == BusTxSize::Bits32 && !(addr == Self::spec_base_addr() && val % 0x1_0000_0000
            == REBOOT_VALUE)
    }

    /// Power state after a store: only a power-off request at the base
    /// address changes it.
    pub open spec fn power_off_after(self, addr: u64, val: u64) -> bool {
        if addr == Self::spec_base_addr() && val % 0x1_0000_0000 == POWER_OFF_VALUE {
            true
        } else {
            self.power_off
        }
    }

    pub fn new() -> (r: Self)
        ensures
            !r.power_off,
    {
        Self { power_off: false }
    }

    pub fn load(&self, _addr: u64, _size: BusTxSize) -> (r: u64)
        ensures
            r == 0,
    {
        0
    }

    pub fn store(&mut self, addr: u64, val: u64, size: BusTxSize)
        requires
            Self::store_ok(addr, val, size),
        ensures
            final(self).power_off == old(self).power_off_after(addr, val),
    {
        if addr != Self::BASE_ADDR {
            return;
        }
        let v = (val % 0x1_0000_0000) as u32;
        if v == POWER_OFF_VALUE {
            self.power_off = true;
        }
    }
}


/// Law: a store to the syscon powers the machine off exactly when it writes
/// the power-off value to the base address; any other address or value
/// leaves the power state as it was.
pub proof fn lemma_syscon_store(sc: Syscon, addr: u64, val: u64)
    ensures
        sc.power_off_after(addr, val) == (sc.power_off
            || (addr == Syscon::spec_base_addr() && val % 0x1_0000_0000 == 0x5555)),
        !(addr == Syscon::spec_base_addr() && val % 0x1_0000_0000 == 0x5555)
            ==> sc.power_off_after(addr, val) == sc.power_off,
{
}

} // verus!
