//! Minimal platform-level interrupt controller: one interrupt source (ID 1),
//! two contexts (machine and supervisor external interrupts), 3-bit
//! priorities and per-context thresholds, and the claim/complete handshake
//! with in-service tracking. Memory map of the SiFive default at 0x0C00_0000;
//! only 32-bit accesses are accepted.
use std::ops::Range;

use vstd::prelude::*;

use crate::bus::BusTxSize;
use crate::csr::{with_bit, Csr, CsrState, MInterruptPending};

verus! {

broadcast use crate::csr::fields::group_from_bits;

/// Bit mask of source 1 in the pending and enable bitmaps.
const SRC1_MASK: u32 = 0b10;

pub ghost struct PlicState {
    pub prio_src1: u8,
    pub pending: bool,
    pub in_service: bool,
    pub enable0: bool,
    pub enable1: bool,
    pub threshold0: u8,
    pub threshold1: u8,
}

pub struct Plic {
    prio_src1: u8,
    pending: bool,
    in_service: bool,
    enable_ctx0: bool,
    enable_ctx1: bool,
    threshold_ctx0: u8,
    threshold_ctx1: u8,
}

impl View for Plic {
    type V = PlicState;

    closed spec fn view(&self) -> PlicState {
        PlicState {
            prio_src1: self.prio_src1,
            pending: self.pending,
            in_service: self.in_service,
            enable0: self.enable_ctx0,
            enable1: self.enable_ctx1,
            threshold0: self.threshold_ctx0,
            threshold1: self.threshold_ctx1,
        }
    }
}

pub open spec fn plic_prio1() -> u64 {
    0x0C00_0004
}

pub open spec fn plic_pending() -> u64 {
    0x0C00_1000
}

pub open spec fn plic_enable0() -> u64 {
    0x0C00_2000
}

pub open spec fn plic_enable1() -> u64 {
    0x0C00_2080
}

pub open spec fn plic_threshold0() -> u64 {
    0x0C20_0000
}

pub open spec fn plic_threshold1() -> u64 {
    0x0C20_1000
}

pub open spec fn plic_claim0() -> u64 {
    0x0C20_0004
}

pub open spec fn plic_claim1() -> u64 {
    0x0C20_1004
}

/// `mip` with MEIP and SEIP driven by the controller state `p`.
pub open spec fn mip_with_external(mip: u64, p: PlicState) -> u64 {
    with_bit(with_bit(mip & MInterruptPending::VALID_MASK, 11, p.context_pending(0)), 9, p.context_pending(1))
}

impl PlicState {
    pub open spec fn enabled(self, ctx: int) -> bool {
        if ctx == 0 { self.enable0 } else { self.enable1 }
    }

    pub open spec fn threshold(self, ctx: int) -> u8 {
        if ctx == 0 { self.threshold0 } else { self.threshold1 }
    }

    /// Whether context `ctx` sees its external interrupt line raised: the
    /// source is pending or in service, enabled, and above the threshold.
    pub open spec fn context_pending(self, ctx: int) -> bool {
        (self.pending || self.in_service) && self.enabled(ctx) && self.prio_src1 > self.threshold(ctx)
    }

    /// A claim by context `ctx`: the source ID it gets, 1 or 0.
    pub open spec fn claim_value(self, ctx: int) -> u32 {
        if !self.in_service && self.pending && self.enabled(ctx) && self.prio_src1 > self.threshold(ctx) {
            1
        } else {
            0
        }
    }

    /// The state after a claim by context `ctx`: a successful claim moves the
    /// source from pending to in service.
    pub open spec fn after_claim(self, ctx: int) -> PlicState {
        if self.claim_value(ctx) == 1 {
            PlicState { pending: false, in_service: true, ..self }
        } else {
            self
        }
    }

    pub open spec fn is_readable(addr: u64) -> bool {
        addr == plic_prio1() || addr == plic_pending() || addr == plic_enable0() || addr == plic_enable1()
            || addr == plic_threshold0() || addr == plic_threshold1() || addr == plic_claim0()
            || addr == plic_claim1()
    }

    pub open spec fn load_ok(addr: u64, size: BusTxSize) -> bool {
        size == BusTxSize::Bits32 && Self::is_readable(addr)
    }

    pub open spec fn store_ok(addr: u64, size: BusTxSize) -> bool {
        size == BusTxSize::Bits32 && Self::is_readable(addr)
    }

    pub open spec fn load_value(self, addr: u64) -> u64 {
        if addr == plic_prio1() {
            self.prio_src1 as u64
        } else if addr == plic_pending() {
            if self.pending { 2 } else { 0 }
        } else if addr == plic_enable0() {
            if self.enable0 { 2 } else { 0 }
        } else if addr == plic_enable1() {
            if self.enable1 { 2 } else { 0 }
        } else if addr == plic_threshold0() {
            self.threshold0 as u64
        } else if addr == plic_threshold1() {
            self.threshold1 as u64
        } else if addr == plic_claim0() {
            self.claim_value(0) as u64
        } else {
            self.claim_value(1) as u64
        }
    }

    /// The state after a load: only a read of a claim register changes it.
    pub open spec fn after_load(self, addr: u64) -> PlicState {
        if addr == plic_claim0() {
            self.after_claim(0)
        } else if addr == plic_claim1() {
            self.after_claim(1)
        } else {
            self
        }
    }

    pub open spec fn after_store(self, addr: u64, val: u64) -> PlicState {
        let v = val % 0x1_0000_0000;
        if addr == plic_prio1() {
            PlicState { prio_src1: (v % 8) as u8, ..self }
        } else if addr == plic_enable0() {
            PlicState { enable0: (v / 2) % 2 == 1, ..self }
        } else if addr == plic_enable1() {
            PlicState { enable1: (v / 2) % 2 == 1, ..self }
        } else if addr == plic_threshold0() {
            PlicState { threshold0: (v % 8) as u8, ..self }
        } else if addr == plic_threshold1() {
            PlicState { threshold1: (v % 8) as u8, ..self }
        } else if (addr == plic_claim0() || addr == plic_claim1()) && v == 1 {
            PlicState { in_service: false, ..self }
        } else {
            self
        }
    }
}

impl Plic {
    const BASE: u64 = 0x0C00_0000;

    const PRIO1: u64 = 0x0C00_0004;

    const PENDING: u64 = 0x0C00_1000;

    const ENABLE_CTX0: u64 = 0x0C00_2000;

    const ENABLE_CTX1: u64 = 0x0C00_2080;

    const CTX0_BASE: u64 = 0x0C20_0000;

    const CTX1_BASE: u64 = 0x0C20_1000;

    const THRESH: u64 = 0x0;

    const CLAIM: u64 = 0x4;

    /// Register span exposed to the bus (exclusive upper bound).
    pub const ADDR_RANGE: Range<u64> = 0x0C00_0000..0x0C20_2008;

    pub fn new() -> (r: Self)
        ensures
            r@ == (PlicState {
                prio_src1: 0,
                pending: false,
                in_service: false,
                enable0: false,
                enable1: false,
                threshold0: 0,
                threshold1: 0,
            }),
    {
        Self {
            prio_src1: 0,
            pending: false,
            in_service: false,
            enable_ctx0: false,
            enable_ctx1: false,
            threshold_ctx0: 0,
            threshold_ctx1: 0,
        }
    }

    /// Device side: the source raises its line.
    pub fn raise_irq(&mut self)
        ensures
            final(self)@ == (PlicState { pending: true, ..old(self)@ }),
    {
        self.pending = true;
    }

    /// Device side: the source lowers its line.
    pub fn clear_irq(&mut self)
        ensures
            final(self)@ == (PlicState { pending: false, ..old(self)@ }),
    {
        self.pending = false;
    }

    pub fn load(&mut self, addr: u64, size: BusTxSize) -> (r: u64)
        requires
            PlicState::load_ok(addr, size),
        ensures
            r == old(self)@.load_value(addr),
            final(self)@ == old(self)@.after_load(addr),
    {
        if addr == Self::PRIO1 {
            self.prio_src1 as u64
        } else if addr == Self::PENDING {
            if self.pending { SRC1_MASK as u64 } else { 0 }
        } else if addr == Self::ENABLE_CTX0 {
            if self.enable_ctx0 { SRC1_MASK as u64 } else { 0 }
        } else if addr == Self::ENABLE_CTX1 {
            if self.enable_ctx1 { SRC1_MASK as u64 } else { 0 }
        } else if addr == Self::CTX0_BASE + Self::THRESH {
            self.threshold_ctx0 as u64
        } else if addr == Self::CTX1_BASE + Self::THRESH {
            self.threshold_ctx1 as u64
        } else if addr == Self::CTX0_BASE + Self::CLAIM {
            self.claim(0) as u64
        } else {
            self.claim(1) as u64
        }
    }

    pub fn store(&mut self, addr: u64, val: u64, size: BusTxSize)
        requires
            PlicState::store_ok(addr, size),
        ensures
            final(self)@ == old(self)@.after_store(addr, val),
    {
        let v = (val % 0x1_0000_0000) as u32;
        if addr == Self::PRIO1 {
            self.prio_src1 = (v % 8) as u8;
        } else if addr == Self::ENABLE_CTX0 {
            self.enable_ctx0 = (v / 2) % 2 != 0;
        } else if addr == Self::ENABLE_CTX1 {
            self.enable_ctx1 = (v / 2) % 2 != 0;
        } else if addr == Self::CTX0_BASE + Self::THRESH {
            self.threshold_ctx0 = (v % 8) as u8;
        } else if addr == Self::CTX1_BASE + Self::THRESH {
            self.threshold_ctx1 = (v % 8) as u8;
        } else if addr == Self::CTX0_BASE + Self::CLAIM || addr == Self::CTX1_BASE + Self::CLAIM {
            if v == 1 {
                self.complete();
            }
        }
    }

    fn claim(&mut self, ctx: usize) -> (r: u32)
        requires
            ctx < 2,
        ensures
            r == old(self)@.claim_value(ctx as int),
            final(self)@ == old(self)@.after_claim(ctx as int),
    {
        if self.in_service {
            return 0;
        }
        let (enabled, threshold) = if ctx == 0 {
            (self.enable_ctx0, self.threshold_ctx0)
        } else {
            (self.enable_ctx1, self.threshold_ctx1)
        };
        let eligible = self.pending && enabled && (self.prio_src1 > threshold);
        if eligible {
            self.pending = false;
            self.in_service = true;
            1
        } else {
            0
        }
    }

    fn complete(&mut self)
        ensures
            final(self)@ == (PlicState { in_service: false, ..old(self)@ }),
    {
        self.in_service = false;
    }

    /// Drives MEIP and SEIP in `mip` from the current state.
    pub fn poll_interrupts(&self, csr: &mut Csr)
        ensures
            final(csr)@ == (CsrState { mip: mip_with_external(old(csr)@.mip, self@), ..old(csr)@ }),
    {
        let m_pending = (self.pending || self.in_service) && self.enable_ctx0 && (self.prio_src1
            > self.threshold_ctx0);
        let s_pending = (self.pending || self.in_service) && self.enable_ctx1 && (self.prio_src1
            > self.threshold_ctx1);
        let f = |mip: MInterruptPending| -> (r: MInterruptPending)
            ensures
                r.bits() == with_bit(with_bit(mip.bits(), 11, m_pending), 9, s_pending),
            {
                let mut mip = mip;
                mip.set_meip(m_pending);
                mip.set_seip(s_pending);
                mip
            };
        csr.update_mip(f);
    }
}


/// Law: a source that one context has claimed is not handed out again, to
/// either context, until it is completed; completing it (writing its ID to
/// a claim register) ends its service.
pub proof fn lemma_claim_until_complete(p: PlicState, ctx: int, other: int, v: u64)
    requires
        p.claim_value(ctx) == 1,
        plic_claim0() == v || plic_claim1() == v,
    ensures
        p.after_claim(ctx).claim_value(other) == 0,
        p.after_claim(ctx).in_service,
        !p.after_claim(ctx).after_store(v, 1).in_service,
{
}

/// Law: while a claimed source is in service the context's external
/// interrupt line stays raised (given the enable and threshold allow it).
pub proof fn lemma_in_service_keeps_line(p: PlicState, ctx: int)
    requires
        p.in_service,
        p.enabled(ctx),
        p.prio_src1 > p.threshold(ctx),
    ensures
        p.context_pending(ctx),
{
}

} // verus!
