//! Sv39 software MMU (privileged spec v1.12, section 4.3.2): a page-table
//! walk without a TLB that sets the accessed and dirty bits of the leaf.
use vstd::prelude::*;

use crate::bus::{device_at, Bus, BusState, BusTxSize};
use crate::devices::ram::{le_write, Ram};
use crate::csr::{Csr, CsrState, MStatus, STranslationAndProtection};
use crate::trap::Exception;
use crate::CpuMode;

verus! {

broadcast use crate::csr::fields::group_from_bits;

#[derive(Clone, Copy, Debug, PartialEq, Eq, Structural)]
pub enum AccessType {
    InstructionFetch,
    Load,
    Store,
}

/// The outcome of a translation: a physical address, a page fault, or an
/// abort of the machine (MPRV with the reserved MPP encoding, or a
/// page-table entry read from a device that refuses doubleword reads).
#[derive(Clone, Copy, Debug, PartialEq, Eq, Structural)]
pub enum Translation {
    Translated(u64),
    Fault(Exception),
    Abort,
}

pub open spec fn page_fault_of(access: AccessType) -> Exception {
    match access {
        AccessType::InstructionFetch => Exception::InstructionPageFault,
        AccessType::Load => Exception::LoadPageFault,
        AccessType::Store => Exception::StorePageFault,
    }
}

fn page_fault(access: AccessType) -> (r: Exception)
    ensures
        r == page_fault_of(access),
{
    match access {
        AccessType::InstructionFetch => Exception::InstructionPageFault,
        AccessType::Load => Exception::LoadPageFault,
        AccessType::Store => Exception::StorePageFault,
    }
}

pub const PTE_SIZE: u64 = 8;

pub const SV39_LEVELS: usize = 3;

pub const SV39_MODE: u64 = 8;

pub const PTE_V: u64 = 0x01;

pub const PTE_R: u64 = 0x02;

pub const PTE_W: u64 = 0x04;

pub const PTE_X: u64 = 0x08;

pub const PTE_U: u64 = 0x10;

pub const PTE_A: u64 = 0x40;

pub const PTE_D: u64 = 0x80;

/// The 9-bit virtual page number of `va` for table level `level`.
pub open spec fn vpn_of(va: u64, level: nat) -> u64 {
    if level == 0 {
        (va / 0x1000) % 0x200
    } else if level == 1 {
        (va / 0x20_0000) % 0x200
    } else {
        (va / 0x4000_0000) % 0x200
    }
}

/// Sv39 canonical address: bits 63..39 all equal bit 38.
pub open spec fn canonical(va: u64) -> bool {
    let sign_bit = (va / 0x40_0000_0000) % 2;
    let high = va / 0x80_0000_0000;
    if sign_bit == 0 {
        high == 0
    } else {
        high == 0x1FF_FFFF
    }
}

/// The physical address of `va` through a leaf at `level` with page number
/// `ppn`: the page-number fields above the leaf come from the entry, the rest
/// of the virtual address passes through.
pub open spec fn compose(ppn: u64, va: u64, level: nat) -> u64 {
    let vpn0 = (va / 0x1000) % 0x200;
    let vpn1 = (va / 0x20_0000) % 0x200;
    let off = va % 0x1000;
    let ppn0 = ppn % 0x200;
    let ppn1 = (ppn / 0x200) % 0x200;
    let ppn2 = (ppn / 0x4_0000) % 0x400_0000;
    let (new0, new1, new2) = if level == 0 {
        (ppn0, ppn1, ppn2)
    } else if level == 1 {
        (vpn0, ppn1, ppn2)
    } else {
        (vpn0, vpn1, ppn2)
    };
    (new2 * 0x4000_0000 + new1 * 0x20_0000 + new0 * 0x1000 + off) as u64
}

/// The 44-bit physical page number of a page-table entry.
pub open spec fn pte_ppn(pte: u64) -> u64 {
    (pte / 0x400) % 0x1000_0000_0000
}

/// Whether a leaf entry lacks the accessed bit, or the dirty bit for a store.
pub open spec fn needs_ad_update(pte: u64, access: AccessType) -> bool {
    pte & PTE_A == 0 || (access == AccessType::Store && pte & PTE_D == 0)
}

/// The entry with the accessed bit set, and the dirty bit for a store.
pub open spec fn ad_updated(pte: u64, access: AccessType) -> u64 {
    if access == AccessType::Store { pte | PTE_A | PTE_D } else { pte | PTE_A }
}

/// Whether a page-table entry at `addr` lies in RAM, where the walk can set
/// its accessed and dirty bits.
pub open spec fn pte_in_ram(addr: u64) -> bool {
    device_at(addr) is Ram
}

/// The decision at a leaf entry `pte` found at `level`. A missing accessed
/// (or, for a store, dirty) bit is set by the walk when the entry lies in
/// RAM (`in_ram`); elsewhere it is a page fault.
pub open spec fn leaf_outcome(
    pte: u64,
    va: u64,
    access: AccessType,
    mode: CpuMode,
    sum: bool,
    mxr: bool,
    level: nat,
    in_ram: bool,
) -> Translation {
    let pf = Translation::Fault(page_fault_of(access));
    let read = pte & PTE_R != 0;
    let write = pte & PTE_W != 0;
    let exec = pte & PTE_X != 0;
    let ppn = pte_ppn(pte);
    let user = pte & PTE_U != 0;
    if (level == 1 && ppn % 0x200 != 0) || (level == 2 && ppn % 0x4_0000 != 0) {
        pf
    } else if needs_ad_update(pte, access) && !in_ram {
        pf
    } else if mode == CpuMode::User && !user {
        pf
    } else if mode == CpuMode::Supervisor && user && (access == AccessType::InstructionFetch || !sum) {
        pf
    } else if !(match access {
        AccessType::InstructionFetch => exec,
        AccessType::Load => read || (mxr && exec),
        AccessType::Store => write,
    }) {
        pf
    } else {
        Translation::Translated(compose(ppn, va, level))
    }
}

/// The walk from the table at `table`, at `level` and below.
pub open spec fn walk_from(
    va: u64,
    access: AccessType,
    mode: CpuMode,
    sum: bool,
    mxr: bool,
    bus: BusState,
    table: u64,
    level: nat,
) -> Translation
    decreases level,
{
    let pf = Translation::Fault(page_fault_of(access));
    let pte_addr = (table + vpn_of(va, level) * 8) as u64;
    if !BusState::load_ok(pte_addr, BusTxSize::Bits64) {
        Translation::Abort
    } else {
        match bus.load_value(pte_addr, BusTxSize::Bits64) {
            None => pf,
            Some(pte) => {
                if pte & PTE_V == 0 || (pte & PTE_R == 0 && pte & PTE_W != 0) {
                    pf
                } else if pte & (PTE_R | PTE_X | PTE_W) != 0 {
                    leaf_outcome(pte, va, access, mode, sum, mxr, level, pte_in_ram(pte_addr))
                } else if level == 0 {
                    pf
                } else {
                    walk_from(va, access, mode, sum, mxr, bus, (pte_ppn(pte) * 0x1000) as u64, (level - 1) as nat)
                }
            },
        }
    }
}

/// The privilege that a translation checks against: with MPRV set, machine
/// mode loads and stores use MPP; `None` for the reserved MPP encoding.
pub open spec fn effective_mode(mode: CpuMode, access: AccessType, mstatus: u64) -> Option<CpuMode> {
    let ms = MStatus::spec_from_bits(mstatus);
    if mode == CpuMode::Machine && ms.mprv() && access != AccessType::InstructionFetch {
        CpuMode::try_from_bits(ms.mpp())
    } else {
        Some(mode)
    }
}

/// Sv39 translation of `va` for `access` in `mode`.
pub open spec fn translation(
    va: u64,
    access: AccessType,
    mode: CpuMode,
    csr: CsrState,
    bus: BusState,
) -> Translation {
    let ms = MStatus::spec_from_bits(csr.mstatus);
    match effective_mode(mode, access, csr.mstatus) {
        None => Translation::Abort,
        Some(m) => {
            let satp = STranslationAndProtection::spec_from_bits(csr.satp).bits();
            let satp_mode = satp / 0x1000_0000_0000_0000;
            if m == CpuMode::Machine || satp_mode == 0 {
                Translation::Translated(va)
            } else if satp_mode != SV39_MODE || !canonical(va) {
                Translation::Fault(page_fault_of(access))
            } else {
                let root = ((satp % 0x1000_0000_0000) * 0x1000) as u64;
                walk_from(va, access, m, ms.sum(), ms.mxr(), bus, root, 2)
            }
        },
    }
}

/// The accessed/dirty update that the walk from `table` makes: the address
/// of the leaf entry and its new value, where the leaf grants the access
/// and lacks a bit that the access sets.
pub open spec fn walk_write(
    va: u64,
    access: AccessType,
    mode: CpuMode,
    sum: bool,
    mxr: bool,
    bus: BusState,
    table: u64,
    level: nat,
) -> Option<(u64, u64)>
    decreases level,
{
    let pte_addr = (table + vpn_of(va, level) * 8) as u64;
    if !BusState::load_ok(pte_addr, BusTxSize::Bits64) {
        None
    } else {
        match bus.load_value(pte_addr, BusTxSize::Bits64) {
            None => None,
            Some(pte) => {
                if pte & PTE_V == 0 || (pte & PTE_R == 0 && pte & PTE_W != 0) {
                    None
                } else if pte & (PTE_R | PTE_X | PTE_W) != 0 {
                    if leaf_outcome(pte, va, access, mode, sum, mxr, level, pte_in_ram(pte_addr)) is Translated
                        && needs_ad_update(pte, access) {
                        Some((pte_addr, ad_updated(pte, access)))
                    } else {
                        None
                    }
                } else if level == 0 {
                    None
                } else {
                    walk_write(va, access, mode, sum, mxr, bus, (pte_ppn(pte) * 0x1000) as u64, (level - 1) as nat)
                }
            },
        }
    }
}

/// The accessed/dirty update that translating `va` makes, if any.
pub open spec fn translation_write(
    va: u64,
    access: AccessType,
    mode: CpuMode,
    csr: CsrState,
    bus: BusState,
) -> Option<(u64, u64)> {
    let ms = MStatus::spec_from_bits(csr.mstatus);
    match effective_mode(mode, access, csr.mstatus) {
        None => None,
        Some(m) => {
            let satp = STranslationAndProtection::spec_from_bits(csr.satp).bits();
            let satp_mode = satp / 0x1000_0000_0000_0000;
            if m == CpuMode::Machine || satp_mode == 0 || satp_mode != SV39_MODE || !canonical(va) {
                None
            } else {
                let root = ((satp % 0x1000_0000_0000) * 0x1000) as u64;
                walk_write(va, access, m, ms.sum(), ms.mxr(), bus, root, 2)
            }
        },
    }
}

/// The bus after translating `va`: the leaf entry in RAM with its accessed
/// (and, for a store, dirty) bit set where the access needed it; no other
/// memory changes.
pub open spec fn translation_bus(
    va: u64,
    access: AccessType,
    mode: CpuMode,
    csr: CsrState,
    bus: BusState,
) -> BusState {
    match translation_write(va, access, mode, csr, bus) {
        Some((addr, pte)) => BusState {
            ram: le_write(bus.ram, addr - Ram::BASE_ADDR, pte as nat, 8),
            ..bus
        },
        None => bus,
    }
}

fn vpn(va: u64, level: usize) -> (r: u64)
    requires
        level < 3,
    ensures
        r == vpn_of(va, level as nat),
        r < 0x200,
{
    if level == 0 {
        (va / 0x1000) % 0x200
    } else if level == 1 {
        (va / 0x20_0000) % 0x200
    } else {
        (va / 0x4000_0000) % 0x200
    }
}

fn is_canonical(va: u64) -> (r: bool)
    ensures
        r == canonical(va),
{
    let sign_bit = (va / 0x40_0000_0000) % 2;
    let high = va / 0x80_0000_0000;
    if sign_bit == 0 {
        high == 0
    } else {
        high == 0x1FF_FFFF
    }
}

fn compose_pa(ppn: u64, va: u64, level: usize) -> (r: u64)
    requires
        level < 3,
    ensures
        r == compose(ppn, va, level as nat),
{
    let vpn0 = (va / 0x1000) % 0x200;
    let vpn1 = (va / 0x20_0000) % 0x200;
    let off = va % 0x1000;
    let ppn0 = ppn % 0x200;
    let ppn1 = (ppn / 0x200) % 0x200;
    let ppn2 = (ppn / 0x4_0000) % 0x400_0000;
    let (new0, new1, new2) = if level == 0 {
        (ppn0, ppn1, ppn2)
    } else if level == 1 {
        (vpn0, ppn1, ppn2)
    } else {
        (vpn0, vpn1, ppn2)
    };
    new2 * 0x4000_0000 + new1 * 0x20_0000 + new0 * 0x1000 + off
}

pub struct Mmu;

impl Mmu {
    pub fn new() -> (r: Self)
        ensures
            r == Mmu,
    {
        Mmu
    }

    /// The outcome of translating `va`, and the accessed/dirty update of the
    /// leaf entry that it calls for, without touching the machine.
    pub fn walk(&self, va: u64, access: AccessType, mode: CpuMode, csr: &Csr, bus: &Bus) -> (r: (Translation, Option<(u64, u64)>))
        requires
            bus@.wf(),
        ensures
            r.0 == translation(va, access, mode, csr@, bus@),
            r.1 == translation_write(va, access, mode, csr@, bus@),
            r.1 matches Some((a, v)) ==> Ram::access_ok(a, BusTxSize::Bits64),
    {
        let mut eff = mode;
        if mode == CpuMode::Machine && csr.mstatus().mprv() && access != AccessType::InstructionFetch {
            eff = match CpuMode::try_from_bits(csr.mstatus().mpp()) {
                Some(m) => m,
                None => return (Translation::Abort, None),
            };
        }
        let satp = csr.satp().as_bits();
        let satp_mode = satp / 0x1000_0000_0000_0000;
        if eff == CpuMode::Machine || satp_mode == 0 {
            return (Translation::Translated(va), None);
        }
        if satp_mode != SV39_MODE {
            return (Translation::Fault(page_fault(access)), None);
        }
        if !is_canonical(va) {
            return (Translation::Fault(page_fault(access)), None);
        }
        let sum = csr.mstatus().sum();
        let mxr = csr.mstatus().mxr();
        let root_ppn = satp % 0x1000_0000_0000;
        let mut table = root_ppn * 0x1000;
        let mut level: usize = SV39_LEVELS;
        while level > 0
            invariant
                0 < level <= 3,
                table < 0x100_0000_0000_0000,
                bus@.wf(),
                translation(va, access, mode, csr@, bus@) == walk_from(va, access, eff, sum, mxr, bus@, table, (level - 1) as nat),
                translation_write(va, access, mode, csr@, bus@) == walk_write(va, access, eff, sum, mxr, bus@, table, (level - 1) as nat),
            decreases level,
        {
            level = level - 1;
            let pte_addr = table + vpn(va, level) * PTE_SIZE;
            if !Self::doubleword_readable(pte_addr) {
                return (Translation::Abort, None);
            }
            let pte_val = match bus.peek_doubleword(pte_addr) {
                Some(v) => v,
                None => return (Translation::Fault(page_fault(access)), None),
            };
            let valid = (pte_val & PTE_V) != 0;
            let read = (pte_val & PTE_R) != 0;
            let write = (pte_val & PTE_W) != 0;
            if !valid || (!read && write) {
                return (Translation::Fault(page_fault(access)), None);
            }
            let non_leaf = (pte_val & (PTE_R | PTE_X | PTE_W)) == 0;
            if !non_leaf {
                let in_ram = Ram::ADDR_RANGE.contains(&pte_addr);
                let outcome = Self::leaf(pte_val, va, access, eff, sum, mxr, level, in_ram);
                let needs = (pte_val & PTE_A) == 0 || (access == AccessType::Store && (pte_val & PTE_D) == 0);
                let update = match outcome {
                    Translation::Translated(_) => if needs {
                        let v = if access == AccessType::Store { pte_val | PTE_A | PTE_D } else { pte_val | PTE_A };
                        Some((pte_addr, v))
                    } else {
                        None
                    },
                    _ => None,
                };
                return (outcome, update);
            }
            let next_ppn = (pte_val / 0x400) % 0x1000_0000_0000;
            table = next_ppn * 0x1000;
            if level == 0 {
                return (Translation::Fault(page_fault(access)), None);
            }
        }
        (Translation::Fault(page_fault(access)), None)
    }

    /// The decision at a leaf entry: superpage alignment, accessed and
    /// dirty bits (set by the walk where the entry lies in RAM), U/S
    /// privilege with SUM, and the R/W/X permission (MXR making executable
    /// pages readable).
    fn leaf(
        pte_val: u64,
        va: u64,
        access: AccessType,
        mode: CpuMode,
        sum: bool,
        mxr: bool,
        level: usize,
        in_ram: bool,
    ) -> (r: Translation)
        requires
            level < 3,
        ensures
            r == leaf_outcome(pte_val, va, access, mode, sum, mxr, level as nat, in_ram),
    {
        let read = (pte_val & PTE_R) != 0;
        let write = (pte_val & PTE_W) != 0;
        let exec = (pte_val & PTE_X) != 0;
        let ppn = (pte_val / 0x400) % 0x1000_0000_0000;
        if level > 0 {
            let mis_mask: u64 = if level == 1 { 0x200 } else { 0x4_0000 };
            if ppn % mis_mask != 0 {
                return Translation::Fault(page_fault(access));
            }
        }
        let accessed = (pte_val & PTE_A) != 0;
        let dirty = (pte_val & PTE_D) != 0;
        if (!accessed || (access == AccessType::Store && !dirty)) && !in_ram {
            return Translation::Fault(page_fault(access));
        }
        let user = (pte_val & PTE_U) != 0;
        if mode == CpuMode::User && !user {
            return Translation::Fault(page_fault(access));
        }
        if mode == CpuMode::Supervisor && user && (access == AccessType::InstructionFetch || !sum) {
            return Translation::Fault(page_fault(access));
        }
        let permitted = match access {
            AccessType::InstructionFetch => exec,
            AccessType::Load => read || (mxr && exec),
            AccessType::Store => write,
        };
        if !permitted {
            return Translation::Fault(page_fault(access));
        }
        Translation::Translated(compose_pa(ppn, va, level))
    }

    /// Whether the device at `addr` answers a doubleword read.
    fn doubleword_readable(addr: u64) -> (r: bool)
        ensures
            r == BusState::load_ok(addr, BusTxSize::Bits64),
    {
        if 0x8000_0000 <= addr && addr < 0xA000_0000 {
            addr - 0x8000_0000 + 8 <= 512 * 0x10_0000
        } else if 0x1110_0000 <= addr && addr < 0x1110_1000 {
            true
        } else if 0x200_0000 <= addr && addr < 0x201_0000 {
            addr == 0x200_0000 || addr == 0x200_4000 || addr == 0x200_BFF8
        } else if 0x0C00_0000 <= addr && addr < 0x0C20_2008 {
            false
        } else if 0x1000_0000 <= addr && addr < 0x1000_0100 {
            false
        } else {
            true
        }
    }

    /// Translates `va` under the current privilege and CSR state, returning
    /// a physical address or the page fault of the access. A leaf entry in
    /// RAM that grants the access gets its accessed bit (and, for a store,
    /// its dirty bit) set.
    pub fn translate(
        &mut self,
        va: u64,
        access: AccessType,
        mode: CpuMode,
        csr: &Csr,
        bus: &mut Bus,
    ) -> (r: Result<u64, Exception>)
        requires
            old(bus)@.wf(),
            translation(va, access, mode, csr@, old(bus)@) != Translation::Abort,
        ensures
            final(bus)@ == translation_bus(va, access, mode, csr@, old(bus)@),
            final(bus)@.wf(),
            r == match translation(va, access, mode, csr@, old(bus)@) {
                Translation::Translated(pa) => Ok::<u64, Exception>(pa),
                Translation::Fault(e) => Err(e),
                Translation::Abort => Err(Exception::InstructionAccessFault),
            },
    {
        let (outcome, update) = self.walk(va, access, mode, csr, bus);
        if let Some((addr, pte)) = update {
            proof {
                crate::devices::ram::lemma_le_write_frame(bus@.ram, addr - Ram::BASE_ADDR, pte as nat, 8, 0);
            }
            bus.ram.store(addr, pte, BusTxSize::Bits64);
        }
        match outcome {
            Translation::Translated(pa) => Ok(pa),
            Translation::Fault(e) => Err(e),
            Translation::Abort => Err(Exception::InstructionAccessFault),
        }
    }
}


/// Law: without translation (machine mode with MPRV clear or not applying,
/// or `satp` in Bare mode) every virtual address is its own physical address.
pub proof fn lemma_untranslated_identity(va: u64, access: AccessType, mode: CpuMode, csr: CsrState, bus: BusState)
    requires
        effective_mode(mode, access, csr.mstatus) is Some,
        effective_mode(mode, access, csr.mstatus) == Some(CpuMode::Machine)
            || STranslationAndProtection::spec_from_bits(csr.satp).bits() / 0x1000_0000_0000_0000 == 0,
    ensures
        translation(va, access, mode, csr, bus) == Translation::Translated(va),
{
}

/// A leaf keeps the offset within the 4 KiB page.
pub proof fn lemma_compose_offset(ppn: u64, va: u64, level: nat)
    ensures
        compose(ppn, va, level) % 0x1000 == va % 0x1000,
{
    let vpn0 = (va / 0x1000) % 0x200;
    let vpn1 = (va / 0x20_0000) % 0x200;
    let ppn0 = ppn % 0x200;
    let ppn1 = (ppn / 0x200) % 0x200;
    let ppn2 = (ppn / 0x4_0000) % 0x400_0000;
    let off = va % 0x1000;
    let (n0, n1, n2) = if level == 0 {
        (ppn0, ppn1, ppn2)
    } else if level == 1 {
        (vpn0, ppn1, ppn2)
    } else {
        (vpn0, vpn1, ppn2)
    };
    assert(0 <= n0 < 0x200 && 0 <= n1 < 0x200 && 0 <= n2 < 0x400_0000 && 0 <= off < 0x1000);
    let sum = n2 * 0x4000_0000 + n1 * 0x20_0000 + n0 * 0x1000 + off;
    assert(0 <= sum < 0x1_0000_0000_0000_0000 && sum % 0x1000 == off) by (nonlinear_arith)
        requires
            0 <= n0 < 0x200,
            0 <= n1 < 0x200,
            0 <= n2 < 0x400_0000,
            0 <= off < 0x1000,
            sum == n2 * 0x4000_0000 + n1 * 0x20_0000 + n0 * 0x1000 + off,
    ;
    assert(compose(ppn, va, level) == sum);
}

/// A walk that ends in a translation keeps the page offset.
pub proof fn lemma_walk_offset(
    va: u64,
    access: AccessType,
    mode: CpuMode,
    sum: bool,
    mxr: bool,
    bus: BusState,
    table: u64,
    level: nat,
)
    ensures
        walk_from(va, access, mode, sum, mxr, bus, table, level) matches Translation::Translated(pa)
            ==> pa % 0x1000 == va % 0x1000,
    decreases level,
{
    let pte_addr = (table + vpn_of(va, level) * 8) as u64;
    if BusState::load_ok(pte_addr, BusTxSize::Bits64) {
        if let Some(pte) = bus.load_value(pte_addr, BusTxSize::Bits64) {
            lemma_compose_offset(pte_ppn(pte), va, level);
            if level > 0 {
                lemma_walk_offset(va, access, mode, sum, mxr, bus, (pte_ppn(pte) * 0x1000) as u64, (level - 1) as nat);
            }
        }
    }
}

/// Law: translation never moves an address within its 4 KiB page: the
/// physical address has the offset of the virtual one.
pub proof fn lemma_translation_keeps_offset(va: u64, access: AccessType, mode: CpuMode, csr: CsrState, bus: BusState)
    ensures
        translation(va, access, mode, csr, bus) matches Translation::Translated(pa)
            ==> pa % 0x1000 == va % 0x1000,
{
    let satp = STranslationAndProtection::spec_from_bits(csr.satp).bits();
    let ms = MStatus::spec_from_bits(csr.mstatus);
    if let Some(m) = effective_mode(mode, access, csr.mstatus) {
        let root = ((satp % 0x1000_0000_0000) * 0x1000) as u64;
        lemma_walk_offset(va, access, m, ms.sum(), ms.mxr(), bus, root, 2);
    }
}


/// The size of the region a leaf at `level` maps: 4 KiB, 2 MiB or 1 GiB.
pub open spec fn page_span(level: nat) -> u64 {
    if level == 0 {
        0x1000
    } else if level == 1 {
        0x20_0000
    } else {
        0x4000_0000
    }
}

/// The alignment in pages that a leaf's page number needs at `level`.
pub open spec fn superpage_pages(level: nat) -> u64 {
    if level == 0 {
        1
    } else if level == 1 {
        0x200
    } else {
        0x4_0000
    }
}

/// What a leaf entry must hold for an access to go through it: valid,
/// accessed (or in RAM, where the walk sets the bit), not write-only, a page number aligned to its level, the
/// permission of the access (execute for fetches, read, or execute under
/// MXR, for loads, write and dirty, or in RAM, for stores), the U bit for user mode,
/// and for supervisor mode on a user page a load or store with SUM set.
pub open spec fn leaf_permits(pte: u64, access: AccessType, mode: CpuMode, sum: bool, mxr: bool, level: nat, in_ram: bool) -> bool {
    let read = pte & PTE_R != 0;
    let write = pte & PTE_W != 0;
    let exec = pte & PTE_X != 0;
    let user = pte & PTE_U != 0;
    &&& level < 3
    &&& pte & PTE_V != 0
    &&& (pte & PTE_A != 0 || in_ram)
    &&& (read || !write)
    &&& pte_ppn(pte) % superpage_pages(level) == 0
    &&& match access {
        AccessType::InstructionFetch => exec,
        AccessType::Load => read || (mxr && exec),
        AccessType::Store => write && (pte & PTE_D != 0 || in_ram),
    }
    &&& (mode == CpuMode::User ==> user)
    &&& (mode == CpuMode::Supervisor && user ==> access != AccessType::InstructionFetch && sum)
}

/// Whether `pa` is the translation of `va` through leaf `pte`, read at
/// `pte_addr`, at `level`.
pub open spec fn leaf_grants(pte: u64, pte_addr: u64, va: u64, access: AccessType, mode: CpuMode, sum: bool, mxr: bool, level: nat, pa: u64) -> bool {
    leaf_permits(pte, access, mode, sum, mxr, level, pte_in_ram(pte_addr)) && pa == compose(pte_ppn(pte), va, level)
}

/// A leaf at `level` keeps the low bits of the address within its region.
proof fn lemma_compose_span(ppn: u64, va: u64, level: nat)
    requires
        level < 3,
    ensures
        compose(ppn, va, level) % page_span(level) == va % page_span(level),
{
    let vpn0 = (va / 0x1000) % 0x200;
    let vpn1 = (va / 0x20_0000) % 0x200;
    let ppn0 = ppn % 0x200;
    let ppn1 = (ppn / 0x200) % 0x200;
    let ppn2 = (ppn / 0x4_0000) % 0x400_0000;
    let off = va % 0x1000;
    lemma_compose_offset(ppn, va, level);
    vstd::arithmetic::div_mod::lemma_mod_breakdown(va as int, 0x1000, 0x200);
    vstd::arithmetic::div_mod::lemma_mod_breakdown(va as int, 0x20_0000, 0x200);
    assert(va % 0x20_0000 == vpn0 * 0x1000 + off);
    assert(va % 0x4000_0000 == vpn1 * 0x20_0000 + vpn0 * 0x1000 + off);
    if level == 1 {
        let sum = ppn2 * 0x4000_0000 + ppn1 * 0x20_0000 + vpn0 * 0x1000 + off;
        assert(sum % 0x20_0000 == vpn0 * 0x1000 + off) by (nonlinear_arith)
            requires 0 <= vpn0 < 0x200, 0 <= off < 0x1000, 0 <= ppn1, 0 <= ppn2,
                sum == ppn2 * 0x4000_0000 + ppn1 * 0x20_0000 + vpn0 * 0x1000 + off;
        assert(compose(ppn, va, level) == sum);
    } else if level == 2 {
        let sum = ppn2 * 0x4000_0000 + vpn1 * 0x20_0000 + vpn0 * 0x1000 + off;
        assert(sum % 0x4000_0000 == vpn1 * 0x20_0000 + vpn0 * 0x1000 + off) by (nonlinear_arith)
            requires 0 <= vpn0 < 0x200, 0 <= vpn1 < 0x200, 0 <= off < 0x1000, 0 <= ppn2,
                sum == ppn2 * 0x4000_0000 + vpn1 * 0x20_0000 + vpn0 * 0x1000 + off;
        assert(compose(ppn, va, level) == sum);
    }
}

/// The walk from a table: faults are page faults of the access, and a
/// translation comes from a leaf that permits the access.
proof fn lemma_walk_outcome(
    va: u64,
    access: AccessType,
    mode: CpuMode,
    sum: bool,
    mxr: bool,
    bus: BusState,
    table: u64,
    level: nat,
)
    requires
        level < 3,
    ensures
        walk_from(va, access, mode, sum, mxr, bus, table, level) matches Translation::Fault(e)
            ==> e == page_fault_of(access),
        walk_from(va, access, mode, sum, mxr, bus, table, level) matches Translation::Translated(pa)
            ==> exists|pte: u64, a: u64, l: nat| #[trigger] leaf_grants(pte, a, va, access, mode, sum, mxr, l, pa),
    decreases level,
{
    let pte_addr = (table + vpn_of(va, level) * 8) as u64;
    if BusState::load_ok(pte_addr, BusTxSize::Bits64) {
        if let Some(pte) = bus.load_value(pte_addr, BusTxSize::Bits64) {
            if !(pte & PTE_V == 0 || (pte & PTE_R == 0 && pte & PTE_W != 0)) {
                if pte & (PTE_R | PTE_X | PTE_W) != 0 {
                    if let Translation::Translated(pa) = leaf_outcome(pte, va, access, mode, sum, mxr, level, pte_in_ram(pte_addr)) {
                        assert(leaf_grants(pte, pte_addr, va, access, mode, sum, mxr, level, pa));
                    }
                } else if level > 0 {
                    lemma_walk_outcome(va, access, mode, sum, mxr, bus, (pte_ppn(pte) * 0x1000) as u64, (level - 1) as nat);
                }
            }
        }
    }
}

/// Law: under Sv39 translation (the effective mode is S or U and `satp`
/// selects Sv39) every fault is the page fault of the access, and every
/// translation is of a canonical address through a leaf entry that is
/// valid, accessed (or in RAM, where the walk sets the bit), not
/// write-only, aligned to its level and permits the access (X for fetches;
/// R, or X under MXR, for loads; W, and D or an entry in RAM, for stores;
/// U for user mode; for supervisor mode a user page only for loads and
/// stores with SUM), the physical address agreeing with the virtual one on
/// the bits within the leaf's page.
pub proof fn lemma_sv39_outcome(va: u64, access: AccessType, mode: CpuMode, csr: CsrState, bus: BusState)
    requires
        effective_mode(mode, access, csr.mstatus) matches Some(m) && m != CpuMode::Machine,
        STranslationAndProtection::spec_from_bits(csr.satp).bits() / 0x1000_0000_0000_0000 == SV39_MODE,
    ensures
        translation(va, access, mode, csr, bus) matches Translation::Fault(e) ==> e == page_fault_of(access),
        translation(va, access, mode, csr, bus) matches Translation::Translated(pa) ==> {
            &&& canonical(va)
            &&& exists|pte: u64, a: u64, l: nat| #[trigger] leaf_grants(pte, a, va, access,
                effective_mode(mode, access, csr.mstatus).unwrap(),
                MStatus::spec_from_bits(csr.mstatus).sum(), MStatus::spec_from_bits(csr.mstatus).mxr(), l, pa)
        },
{
    let satp = STranslationAndProtection::spec_from_bits(csr.satp).bits();
    let ms = MStatus::spec_from_bits(csr.mstatus);
    let m = effective_mode(mode, access, csr.mstatus).unwrap();
    let root = ((satp % 0x1000_0000_0000) * 0x1000) as u64;
    lemma_walk_outcome(va, access, m, ms.sum(), ms.mxr(), bus, root, 2);
}

/// Law: a granted leaf maps the address within its page, 2 MiB megapage or
/// 1 GiB gigapage to the same offset within the physical region.
pub proof fn lemma_leaf_keeps_region_offset(pte: u64, pte_addr: u64, va: u64, access: AccessType, mode: CpuMode, sum: bool, mxr: bool, level: nat, pa: u64)
    requires
        leaf_grants(pte, pte_addr, va, access, mode, sum, mxr, level, pa),
    ensures
        pa % page_span(level) == va % page_span(level),
{
    lemma_compose_span(pte_ppn(pte), va, level);
}


/// An accessed/dirty update comes only from a walk that translates, and is
/// the entry it read, in RAM, with the bits set that the access lacked.
proof fn lemma_walk_write_facts(
    va: u64,
    access: AccessType,
    mode: CpuMode,
    sum: bool,
    mxr: bool,
    bus: BusState,
    table: u64,
    level: nat,
)
    ensures
        walk_write(va, access, mode, sum, mxr, bus, table, level) matches Some((a, v)) ==> {
            &&& walk_from(va, access, mode, sum, mxr, bus, table, level) is Translated
            &&& Ram::access_ok(a, BusTxSize::Bits64)
            &&& bus.load_value(a, BusTxSize::Bits64) matches Some(pte) && v == ad_updated(pte, access)
                && needs_ad_update(pte, access)
        },
    decreases level,
{
    let pte_addr = (table + vpn_of(va, level) * 8) as u64;
    if BusState::load_ok(pte_addr, BusTxSize::Bits64) {
        if let Some(pte) = bus.load_value(pte_addr, BusTxSize::Bits64) {
            if level > 0 {
                lemma_walk_write_facts(va, access, mode, sum, mxr, bus, (pte_ppn(pte) * 0x1000) as u64, (level - 1) as nat);
            }
        }
    }
}

/// Law: translating changes memory only where a leaf entry in RAM grants
/// the access but lacks its accessed bit, or for a store its dirty bit;
/// then that one entry is rewritten with the bits set and nothing else of
/// the bus changes. A fault or an abort changes nothing.
pub proof fn lemma_translation_ad_update(va: u64, access: AccessType, mode: CpuMode, csr: CsrState, bus: BusState)
    requires
        bus.wf(),
    ensures
        translation_bus(va, access, mode, csr, bus).wf(),
        !(translation(va, access, mode, csr, bus) is Translated) ==> translation_bus(va, access, mode, csr, bus) == bus,
        translation_write(va, access, mode, csr, bus) is None ==> translation_bus(va, access, mode, csr, bus) == bus,
        translation_write(va, access, mode, csr, bus) matches Some((a, v)) ==> {
            let t = translation_bus(va, access, mode, csr, bus);
            &&& translation(va, access, mode, csr, bus) is Translated
            &&& Ram::access_ok(a, BusTxSize::Bits64)
            &&& bus.load_value(a, BusTxSize::Bits64) matches Some(pte) && v == ad_updated(pte, access)
                && needs_ad_update(pte, access)
            &&& t.load_value(a, BusTxSize::Bits64) == Some(v)
            &&& forall|i: int| 0 <= i < bus.ram.len() && !(a - Ram::BASE_ADDR <= i < a - Ram::BASE_ADDR + 8)
                ==> #[trigger] t.ram[i] == bus.ram[i]
            &&& t == (BusState { ram: t.ram, ..bus })
        },
{
    let ms = MStatus::spec_from_bits(csr.mstatus);
    let satp = STranslationAndProtection::spec_from_bits(csr.satp).bits();
    if let Some(m) = effective_mode(mode, access, csr.mstatus) {
        let root = ((satp % 0x1000_0000_0000) * 0x1000) as u64;
        lemma_walk_write_facts(va, access, m, ms.sum(), ms.mxr(), bus, root, 2);
    }
    if let Some((a, v)) = translation_write(va, access, mode, csr, bus) {
        crate::devices::ram::lemma_ram_store_load(bus.ram, a, v, BusTxSize::Bits64, a, BusTxSize::Bits64);
        assert forall|i: int| 0 <= i < bus.ram.len() && !(a - Ram::BASE_ADDR <= i < a - Ram::BASE_ADDR + 8)
            implies #[trigger] translation_bus(va, access, mode, csr, bus).ram[i] == bus.ram[i] by {
            crate::devices::ram::lemma_le_write_frame(bus.ram, a - Ram::BASE_ADDR, v as nat, 8, i);
        }
        crate::devices::ram::lemma_le_write_frame(bus.ram, a - Ram::BASE_ADDR, v as nat, 8, 0);
    }
}


/// Law: supervisor mode never executes from a user page, whatever SUM
/// says: a fetch through a leaf with the U bit faults.
pub proof fn lemma_supervisor_never_fetches_user_page(pte: u64, va: u64, sum: bool, mxr: bool, level: nat, in_ram: bool)
    requires
        pte & PTE_U != 0,
    ensures
        leaf_outcome(pte, va, AccessType::InstructionFetch, CpuMode::Supervisor, sum, mxr, level, in_ram)
            == Translation::Fault(Exception::InstructionPageFault),
        !leaf_permits(pte, AccessType::InstructionFetch, CpuMode::Supervisor, sum, mxr, level, in_ram),
{
}

} // verus!
