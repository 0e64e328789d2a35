//! Core-local interruptor: the software-interrupt bit and the machine timer.
use std::ops::Range;

use vstd::prelude::*;

use crate::bus::BusTxSize;
use crate::csr::{with_bit, Csr, CsrState, MInterruptPending};

verus! {

broadcast use crate::csr::fields::group_from_bits;

pub ghost struct ClintState {
    pub msip: u64,
    pub mtimecmp: u64,
    pub mtime: u64,
}

#[derive(Debug)]
pub struct Clint {
    msip: u64,
    mtimecmp: u64,
    mtime: u64,
}

impl View for Clint {
    type V = ClintState;

    closed spec fn view(&self) -> ClintState {
        ClintState { msip: self.msip, mtimecmp: self.mtimecmp, mtime: self.mtime }
    }
}

pub open spec fn clint_msip_addr() -> u64 {
    0x200_0000
}

pub open spec fn clint_mtimecmp_addr() -> u64 {
    0x200_4000
}

pub open spec fn clint_mtime_addr() -> u64 {
    0x200_BFF8
}

/// `mip` with MSIP and MTIP driven by the timer state `c`.
pub open spec fn mip_with_timer(mip: u64, c: ClintState) -> u64 {
    with_bit(with_bit(mip & MInterruptPending::VALID_MASK, 3, c.msip & 1 != 0), 7, c.mtime >= c.mtimecmp)
}

/// The timer at reset: no software interrupt, time zero, compare value at
/// its maximum.
pub open spec fn reset_clint() -> ClintState {
    ClintState { msip: 0, mtimecmp: u64::MAX, mtime: 0 }
}

impl ClintState {
    pub open spec fn is_register(addr: u64) -> bool {
        addr == clint_msip_addr() || addr == clint_mtimecmp_addr() || addr == clint_mtime_addr()
    }

    pub open spec fn load_ok(addr: u64, size: BusTxSize) -> bool {
        size == BusTxSize::Bits64 && Self::is_register(addr)
    }

    pub open spec fn load(self, addr: u64) -> u64 {
        if addr == clint_msip_addr() {
            self.msip
        } else if addr == clint_mtimecmp_addr() {
            self.mtimecmp
        } else {
            self.mtime
        }
    }

    pub open spec fn store(self, addr: u64, val: u64, size: BusTxSize) -> ClintState {
        let v = size.truncate(val);
        if addr == clint_msip_addr() {
            ClintState { msip: v, ..self }
        } else if addr == clint_mtimecmp_addr() {
            ClintState { mtimecmp: v, ..self }
        } else {
            ClintState { mtime: v, ..self }
        }
    }
}

impl Clint {
    const BASE_ADDR: u64 = 0x2000000;

    const SIZE: u64 = 0x10000;

    pub const ADDR_RANGE: Range<u64> = 0x200_0000..0x201_0000;

    const MSIP_ADDR: u64 = 0x200_0000;

    const MTIMECMP_ADDR: u64 = 0x200_4000;

    const MTIME_ADDR: u64 = 0x200_BFF8;

    pub fn new() -> (r: Self)
        ensures
            r@ == reset_clint(),
    {
        Self { msip: 0, mtimecmp: u64::MAX, mtime: 0 }
    }

    pub fn load(&self, addr: u64, size: BusTxSize) -> (r: u64)
        requires
            ClintState::load_ok(addr, size),
        ensures
            r == self@.load(addr),
    {
        if addr == Self::MSIP_ADDR {
            self.msip
        } else if addr == Self::MTIMECMP_ADDR {
            self.mtimecmp
        } else {
            self.mtime
        }
    }

    pub fn store(&mut self, addr: u64, val: u64, size: BusTxSize)
        requires
            ClintState::is_register(addr),
        ensures
            final(self)@ == old(self)@.store(addr, val, size),
    {
        let val = match size {
            BusTxSize::Bits8 => val % 0x100,
            BusTxSize::Bits16 => val % 0x1_0000,
            BusTxSize::Bits32 => val % 0x1_0000_0000,
            BusTxSize::Bits64 => val,
        };
        if addr == Self::MSIP_ADDR {
            self.msip = val;
        } else if addr == Self::MTIMECMP_ADDR {
            self.mtimecmp = val;
        } else {
            self.mtime = val;
        }
    }

    /// Advances the timer to `delta` and mirrors it into the `time` CSR.
    pub fn tick(&mut self, csr: &mut Csr, delta: u64)
        ensures
            final(self)@ == (ClintState { mtime: delta, ..old(self)@ }),
            final(csr)@ == (CsrState { time: delta, ..old(csr)@ }),
    {
        self.mtime = delta;
        csr.set_time(self.mtime);
    }

    /// Advances the timer to `delta` and reports whether it has reached the
    /// compare value.
    pub fn tick_cosim(&mut self, delta: u64) -> (r: bool)
        ensures
            final(self)@ == (ClintState { mtime: delta, ..old(self)@ }),
            r == (delta >= old(self)@.mtimecmp),
    {
        self.mtime = delta;
        self.mtime >= self.mtimecmp
    }

    /// Drives MSIP from the software-interrupt register and MTIP from the
    /// timer comparison.
    pub fn poll_interrupts(&self, csr: &mut Csr)
        ensures
            final(csr)@ == (CsrState { mip: mip_with_timer(old(csr)@.mip, self@), ..old(csr)@ }),
    {
        let msip = self.msip & 1 != 0;
        let mtip = self.mtime >= self.mtimecmp;
        let f = |mip: MInterruptPending| -> (r: MInterruptPending)
            ensures
                r.bits() == with_bit(with_bit(mip.bits(), 3, msip), 7, mtip),
            {
                let mut mip = mip;
                mip.set_msip(msip);
                mip.set_mtip(mtip);
                mip
            };
        csr.update_mip(f);
    }
}

} // verus!
