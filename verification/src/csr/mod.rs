//! The control and status register file and its access rules.
use vstd::prelude::*;

use crate::{wrap64, CpuMode};

pub mod fields;

pub use self::fields::{
    MExceptionDelegation, MInterruptDelegation, MInterruptEnable, MInterruptPending,
    MIsaAndExtensions, MStatus, MTrapCause, MTrapHandlerVector, SStatus, STrapCause,
    STrapHandlerVector, STranslationAndProtection, bit_of, field_of, with_bit, with_field,
};

verus! {

#[derive(PartialEq, Eq, Clone, Copy, Debug, Structural)]
pub enum CsrName {
    Cycle,
    Time,
    Instret,
    SStatus,
    SInterruptEnable,
    STrapHandlerVector,
    SCounterEnable,
    SScratch,
    SExceptionPC,
    STrapCause,
    STrapValue,
    SInterruptPending,
    STranslationAndProtection,
    MVendorID,
    MArchitectureID,
    MImplementationID,
    MHartID,
    MStatus,
    MIsaAndExtensions,
    MExceptionDelegation,
    MInterruptDelegation,
    MInterruptEnable,
    MTrapHandlerVector,
    MCounterEnable,
    MScratch,
    MExceptionPC,
    MTrapCause,
    MTrapValue,
    MInterruptPending,
    MCounterInhibit,
    MEnvConfig,
    TSelect,
    TInfo,
}

impl CsrName {
    /// The register with the 12-bit address `addr`, if this hart has one.
    #[verifier::allow_in_spec]
    pub fn from_addr(addr: u64) -> Option<CsrName>
        returns
            if addr == 0xC00 { Some(CsrName::Cycle) }
            else if addr == 0xC01 { Some(CsrName::Time) }
            else if addr == 0xC02 { Some(CsrName::Instret) }
            else if addr == 0x100 { Some(CsrName::SStatus) }
            else if addr == 0x104 { Some(CsrName::SInterruptEnable) }
            else if addr == 0x105 { Some(CsrName::STrapHandlerVector) }
            else if addr == 0x106 { Some(CsrName::SCounterEnable) }
            else if addr == 0x140 { Some(CsrName::SScratch) }
            else if addr == 0x141 { Some(CsrName::SExceptionPC) }
            else if addr == 0x142 { Some(CsrName::STrapCause) }
            else if addr == 0x143 { Some(CsrName::STrapValue) }
            else if addr == 0x144 { Some(CsrName::SInterruptPending) }
            else if addr == 0x180 { Some(CsrName::STranslationAndProtection) }
            else if addr == 0xF11 { Some(CsrName::MVendorID) }
            else if addr == 0xF12 { Some(CsrName::MArchitectureID) }
            else if addr == 0xF13 { Some(CsrName::MImplementationID) }
            else if addr == 0xF14 { Some(CsrName::MHartID) }
            else if addr == 0x300 { Some(CsrName::MStatus) }
            else if addr == 0x301 { Some(CsrName::MIsaAndExtensions) }
            else if addr == 0x302 { Some(CsrName::MExceptionDelegation) }
            else if addr == 0x303 { Some(CsrName::MInterruptDelegation) }
            else if addr == 0x304 { Some(CsrName::MInterruptEnable) }
            else if addr == 0x305 { Some(CsrName::MTrapHandlerVector) }
            else if addr == 0x306 { Some(CsrName::MCounterEnable) }
            else if addr == 0x340 { Some(CsrName::MScratch) }
            else if addr == 0x341 { Some(CsrName::MExceptionPC) }
            else if addr == 0x342 { Some(CsrName::MTrapCause) }
            else if addr == 0x343 { Some(CsrName::MTrapValue) }
            else if addr == 0x344 { Some(CsrName::MInterruptPending) }
            else if addr == 0x320 { Some(CsrName::MCounterInhibit) }
            else if addr == 0x30A { Some(CsrName::MEnvConfig) }
            else if addr == 0x7A0 { Some(CsrName::TSelect) }
            else if addr == 0x7A4 { Some(CsrName::TInfo) }
            else { None::<CsrName> },
    {
        match addr {
            0xC00 => Some(CsrName::Cycle),
            0xC01 => Some(CsrName::Time),
            0xC02 => Some(CsrName::Instret),
            0x100 => Some(CsrName::SStatus),
            0x104 => Some(CsrName::SInterruptEnable),
            0x105 => Some(CsrName::STrapHandlerVector),
            0x106 => Some(CsrName::SCounterEnable),
            0x140 => Some(CsrName::SScratch),
            0x141 => Some(CsrName::SExceptionPC),
            0x142 => Some(CsrName::STrapCause),
            0x143 => Some(CsrName::STrapValue),
            0x144 => Some(CsrName::SInterruptPending),
            0x180 => Some(CsrName::STranslationAndProtection),
            0xF11 => Some(CsrName::MVendorID),
            0xF12 => Some(CsrName::MArchitectureID),
            0xF13 => Some(CsrName::MImplementationID),
            0xF14 => Some(CsrName::MHartID),
            0x300 => Some(CsrName::MStatus),
            0x301 => Some(CsrName::MIsaAndExtensions),
            0x302 => Some(CsrName::MExceptionDelegation),
            0x303 => Some(CsrName::MInterruptDelegation),
            0x304 => Some(CsrName::MInterruptEnable),
            0x305 => Some(CsrName::MTrapHandlerVector),
            0x306 => Some(CsrName::MCounterEnable),
            0x340 => Some(CsrName::MScratch),
            0x341 => Some(CsrName::MExceptionPC),
            0x342 => Some(CsrName::MTrapCause),
            0x343 => Some(CsrName::MTrapValue),
            0x344 => Some(CsrName::MInterruptPending),
            0x320 => Some(CsrName::MCounterInhibit),
            0x30A => Some(CsrName::MEnvConfig),
            0x7A0 => Some(CsrName::TSelect),
            0x7A4 => Some(CsrName::TInfo),
            _ => None,
        }
    }
}

/// Who may write a register, by address range (privileged spec table 2.1).
#[derive(PartialEq, Eq, Clone, Copy, Structural)]
pub enum AccessType {
    MachineReadWrite,
    SupervisorReadWrite,
    AnyReadWrite,
    ReadOnly,
}

pub open spec fn in_range(a: u64, lo: u64, hi: u64) -> bool {
    lo <= a <= hi
}

impl AccessType {
    pub open spec fn spec_get(a: u64) -> Option<AccessType> {
        if in_range(a, 0x000, 0x0FF) || in_range(a, 0x400, 0x4FF) || in_range(a, 0x800, 0x8FF) {
            Some(AccessType::AnyReadWrite)
        } else if in_range(a, 0xC00, 0xCFF) || in_range(a, 0xD00, 0xDFF) || in_range(a, 0xF00, 0xFFF) {
            Some(AccessType::ReadOnly)
        } else if in_range(a, 0x100, 0x1FF) || in_range(a, 0x500, 0x5FF) || in_range(a, 0x900, 0x9FF) {
            Some(AccessType::SupervisorReadWrite)
        } else if in_range(a, 0x300, 0x3FF) || in_range(a, 0x700, 0x7AF) || in_range(a, 0x7C0, 0x7FF)
            || in_range(a, 0xB00, 0xBFF) {
            Some(AccessType::MachineReadWrite)
        } else {
            None
        }
    }

    fn get(csr_addr: u64) -> (r: Option<Self>)
        ensures
            r == Self::spec_get(csr_addr),
    {
        let acc = match csr_addr {
            0x000..=0x0FF => Self::AnyReadWrite,
            0x400..=0x4FF => Self::AnyReadWrite,
            0x800..=0x8FF => Self::AnyReadWrite,
            0xC00..=0xC7F => Self::ReadOnly,
            0xC80..=0xCBF => Self::ReadOnly,
            0xCC0..=0xCFF => Self::ReadOnly,
            0x100..=0x1FF => Self::SupervisorReadWrite,
            0x500..=0x57F => Self::SupervisorReadWrite,
            0x580..=0x5BF => Self::SupervisorReadWrite,
            0x5C0..=0x5FF => Self::SupervisorReadWrite,
            0x900..=0x97F => Self::SupervisorReadWrite,
            0x980..=0x9BF => Self::SupervisorReadWrite,
            0x9C0..=0x9FF => Self::SupervisorReadWrite,
            0xD00..=0xD7F => Self::ReadOnly,
            0xD80..=0xDBF => Self::ReadOnly,
            0xDC0..=0xDFF => Self::ReadOnly,
            0x300..=0x3FF => Self::MachineReadWrite,
            0x700..=0x77F => Self::MachineReadWrite,
            0x780..=0x79F => Self::MachineReadWrite,
            0x7A0..=0x7AF => Self::MachineReadWrite,
            0x7C0..=0x7FF => Self::MachineReadWrite,
            0xB00..=0xB7F => Self::MachineReadWrite,
            0xB80..=0xBBF => Self::MachineReadWrite,
            0xBC0..=0xBFF => Self::MachineReadWrite,
            0xF00..=0xF7F => Self::ReadOnly,
            0xF80..=0xFBF => Self::ReadOnly,
            0xFC0..=0xFFF => Self::ReadOnly,
            _ => return None,
        };
        Some(acc)
    }
}

/// The mathematical content of the register file.
pub ghost struct CsrState {
    pub cycle: u64,
    pub time: u64,
    pub instret: u64,
    pub stvec: u64,
    pub sscratch: u64,
    pub sepc: u64,
    pub scause: u64,
    pub stval: u64,
    pub satp: u64,
    pub scounteren: u64,
    pub mstatus: u64,
    pub mie: u64,
    pub mip: u64,
    pub mideleg: u64,
    pub medeleg: u64,
    pub mtvec: u64,
    pub mscratch: u64,
    pub mepc: u64,
    pub mtval: u64,
    pub mcause: u64,
    pub mcountinhibit: u64,
    pub mcounteren: u64,
}

/// The `misa` value of this hart: RV64 with I, M, A, C and the S and U modes.
pub open spec fn misa_value() -> u64 {
    with_field(
        with_bit(with_bit(with_bit(with_bit(with_bit(with_bit(0, 8, true), 12, true), 0, true), 2, true), 18, true), 20, true),
        62,
        2,
        2,
    )
}

/// `mstatus` as every write leaves it: masked to its fields, UXL and SXL at
/// 64 bits, and SD summarising the FS, XS and VS dirty states.
pub open spec fn normalize_mstatus(m: u64) -> u64 {
    let b = with_field(with_field(m & MStatus::VALID_MASK, 32, 2, 0b10), 34, 2, 0b10);
    let sd = field_of(b, 13, 2) == 0b11 || field_of(b, 15, 2) == 0b11 || field_of(b, 9, 2) == 0b11;
    with_bit(b, 63, sd)
}

/// `mstatus` after `v` is written through the `sstatus` window.
pub open spec fn merge_sstatus(mstatus: u64, v: u64) -> u64 {
    (mstatus & !SStatus::VALID_MASK) | (v & SStatus::VALID_MASK)
}

impl CsrState {
    /// Whether a counter whose `mcounteren` enable bit is `enable` may be read in `mode`.
    pub open spec fn counter_readable(self, enable: u64, mode: CpuMode) -> bool {
        match mode {
            CpuMode::Machine => true,
            CpuMode::Supervisor => self.mcounteren & enable != 0,
            CpuMode::User => self.mcounteren & enable != 0 && self.scounteren & enable != 0,
        }
    }

    pub open spec fn name_load(self, name: CsrName, mode: CpuMode) -> Option<u64> {
        match name {
            CsrName::Cycle => if self.counter_readable(1, mode) { Some(self.cycle) } else { None },
            CsrName::Time => if self.counter_readable(2, mode) { Some(self.time) } else { None },
            CsrName::Instret => if self.counter_readable(4, mode) { Some(self.instret) } else { None },
            CsrName::SStatus => Some(self.mstatus & SStatus::VALID_MASK),
            CsrName::SInterruptEnable => Some(self.mie & self.mideleg),
            CsrName::STrapHandlerVector => Some(self.stvec),
            CsrName::SCounterEnable => Some(self.scounteren),
            CsrName::SScratch => Some(self.sscratch),
            CsrName::SExceptionPC => Some(self.sepc),
            CsrName::STrapCause => Some(self.scause),
            CsrName::STrapValue => Some(self.stval),
            CsrName::SInterruptPending => Some(self.mip & self.mideleg),
            CsrName::STranslationAndProtection => Some(self.satp),
            CsrName::MVendorID => Some(0),
            CsrName::MArchitectureID => Some(5),
            CsrName::MImplementationID => Some(0),
            CsrName::MHartID => Some(0),
            CsrName::MStatus => Some(self.mstatus),
            CsrName::MIsaAndExtensions => Some(misa_value()),
            CsrName::MExceptionDelegation => Some(self.medeleg),
            CsrName::MInterruptDelegation => Some(self.mideleg),
            CsrName::MInterruptEnable => Some(self.mie),
            CsrName::MTrapHandlerVector => Some(self.mtvec),
            CsrName::MCounterEnable => Some(self.mcounteren),
            CsrName::MScratch => Some(self.mscratch),
            CsrName::MExceptionPC => Some(self.mepc),
            CsrName::MTrapCause => Some(self.mcause),
            CsrName::MTrapValue => Some(self.mtval),
            CsrName::MInterruptPending => Some(self.mip),
            CsrName::MCounterInhibit => Some(self.mcountinhibit),
            CsrName::MEnvConfig => Some(0),
            CsrName::TSelect => Some(0),
            CsrName::TInfo => Some(0),
        }
    }

    /// What a read of the register at `csr_addr` (low 12 bits) gives in
    /// `mode`; `None` is an illegal access.
    pub open spec fn load(self, csr_addr: u64, mode: CpuMode) -> Option<u64> {
        let a = csr_addr % 0x1000;
        if 0xB00 <= a <= 0xB1F {
            Some(0)
        } else {
            match CsrName::from_addr(a) {
                Some(name) => self.name_load(name, mode),
                None => None,
            }
        }
    }

    /// Whether `mode` may write a register with access class `acc`.
    pub open spec fn write_permitted(csr_addr: u64, mode: CpuMode) -> bool {
        match AccessType::spec_get(csr_addr % 0x1000) {
            Some(AccessType::MachineReadWrite) => mode == CpuMode::Machine,
            Some(AccessType::SupervisorReadWrite) => mode == CpuMode::Supervisor || mode == CpuMode::Machine,
            Some(AccessType::AnyReadWrite) => true,
            _ => false,
        }
    }

    /// The register file after `val` is written to register `name`, before
    /// the write-side normalisation.
    pub open spec fn name_store(self, name: CsrName, val: u64) -> CsrState {
        match name {
            CsrName::SStatus => CsrState { mstatus: merge_sstatus(self.mstatus, val), ..self },
            CsrName::SInterruptEnable => CsrState { mie: (self.mie & !self.mideleg) | (val & self.mideleg), ..self },
            CsrName::STrapHandlerVector => CsrState { stvec: val, ..self },
            CsrName::SCounterEnable => CsrState { scounteren: val, ..self },
            CsrName::SScratch => CsrState { sscratch: val, ..self },
            CsrName::SExceptionPC => CsrState { sepc: val, ..self },
            CsrName::STrapCause => CsrState { scause: val, ..self },
            CsrName::STrapValue => CsrState { stval: val, ..self },
            CsrName::SInterruptPending => CsrState { mip: (self.mip & !self.mideleg) | (val & self.mideleg), ..self },
            CsrName::STranslationAndProtection => CsrState { satp: val, ..self },
            CsrName::MStatus => CsrState { mstatus: val, ..self },
            CsrName::MExceptionDelegation => CsrState { medeleg: val, ..self },
            CsrName::MInterruptDelegation => CsrState { mideleg: val, ..self },
            CsrName::MInterruptEnable => CsrState { mie: val, ..self },
            CsrName::MTrapHandlerVector => CsrState { mtvec: val, ..self },
            CsrName::MCounterEnable => CsrState { mcounteren: val, ..self },
            CsrName::MScratch => CsrState { mscratch: val, ..self },
            CsrName::MExceptionPC => CsrState { mepc: val, ..self },
            CsrName::MTrapCause => CsrState { mcause: val, ..self },
            CsrName::MTrapValue => CsrState { mtval: val, ..self },
            CsrName::MInterruptPending => CsrState { mip: val, ..self },
            CsrName::MCounterInhibit => CsrState { mcountinhibit: val, ..self },
            _ => self,
        }
    }

    /// Whether a write is refused outright: no such register.
    pub open spec fn store_result(csr_addr: u64) -> Option<()> {
        let a = csr_addr % 0x1000;
        if 0xB00 <= a <= 0xB1F {
            Some(())
        } else if CsrName::from_addr(a) is None || AccessType::spec_get(a) is None {
            None
        } else {
            Some(())
        }
    }

    /// The register file after a write of `val` to `csr_addr` in `mode`.
    /// Writes without the privilege, and `satp` writes of a mode other than
    /// Bare or Sv39, leave it as it was.
    pub open spec fn store(self, csr_addr: u64, val: u64, mode: CpuMode) -> CsrState {
        let a = csr_addr % 0x1000;
        if 0xB00 <= a <= 0xB1F || Self::store_result(csr_addr) is None
            || !Self::write_permitted(csr_addr, mode) {
            self
        } else {
            let name = CsrName::from_addr(a).unwrap();
            if name == CsrName::STranslationAndProtection && !(field_of(val, 60, 4) == 0
                || field_of(val, 60, 4) == 8) {
                self
            } else {
                let s = self.name_store(name, val);
                CsrState {
                    mstatus: normalize_mstatus(s.mstatus),
                    mcountinhibit: s.mcountinhibit & 0b111,
                    ..s
                }
            }
        }
    }
}

pub struct Csr {
    cycle: u64,
    time: u64,
    instret: u64,
    stvec: u64,
    sscratch: u64,
    sepc: u64,
    scause: u64,
    stval: u64,
    satp: u64,
    scounteren: u64,
    mstatus: u64,
    mie: u64,
    mip: u64,
    mideleg: u64,
    medeleg: u64,
    mtvec: u64,
    mscratch: u64,
    mepc: u64,
    mtval: u64,
    mcause: u64,
    mcountinhibit: u64,
    mcounteren: u64,
}

impl View for Csr {
    type V = CsrState;

    closed spec fn view(&self) -> CsrState {
        CsrState {
            cycle: self.cycle,
            time: self.time,
            instret: self.instret,
            stvec: self.stvec,
            sscratch: self.sscratch,
            sepc: self.sepc,
            scause: self.scause,
            stval: self.stval,
            satp: self.satp,
            scounteren: self.scounteren,
            mstatus: self.mstatus,
            mie: self.mie,
            mip: self.mip,
            mideleg: self.mideleg,
            medeleg: self.medeleg,
            mtvec: self.mtvec,
            mscratch: self.mscratch,
            mepc: self.mepc,
            mtval: self.mtval,
            mcause: self.mcause,
            mcountinhibit: self.mcountinhibit,
            mcounteren: self.mcounteren,
        }
    }
}

/// The register file at reset: everything zero except `mstatus`, whose UXL
/// and SXL fields report 64-bit U and S modes.
pub open spec fn reset_state() -> CsrState {
    CsrState {
        cycle: 0,
        time: 0,
        instret: 0,
        stvec: 0,
        sscratch: 0,
        sepc: 0,
        scause: 0,
        stval: 0,
        satp: 0,
        scounteren: 0,
        mstatus: normalize_mstatus(0),
        mie: 0,
        mip: 0,
        mideleg: 0,
        medeleg: 0,
        mtvec: 0,
        mscratch: 0,
        mepc: 0,
        mtval: 0,
        mcause: 0,
        mcountinhibit: 0,
        mcounteren: 0,
    }
}

impl Csr {
    pub fn new() -> (r: Self)
        ensures
            r@ == reset_state(),
    {
        let mut mstatus = MStatus::from_bits(0);
        mstatus.set_uxl(0b10);
        mstatus.set_sxl(0b10);
        let sd = mstatus.fs() == 0b11 || mstatus.xs() == 0b11 || mstatus.vs() == 0b11;
        mstatus.set_sd(sd);
        Csr {
            cycle: 0,
            time: 0,
            instret: 0,
            stvec: 0,
            sscratch: 0,
            sepc: 0,
            scause: 0,
            stval: 0,
            satp: 0,
            scounteren: 0,
            mstatus: mstatus.as_bits(),
            mie: 0,
            mip: 0,
            mideleg: 0,
            medeleg: 0,
            mtvec: 0,
            mscratch: 0,
            mepc: 0,
            mtval: 0,
            mcause: 0,
            mcountinhibit: 0,
            mcounteren: 0,
        }
    }

    pub fn load(&self, csr_addr: u64, cpu_mode: CpuMode) -> (r: Option<u64>)
        ensures
            r == self@.load(csr_addr, cpu_mode),
    {
        let a = csr_addr % 0x1000;
        if 0xB00 <= a && a <= 0xB1F {
            return Some(0);
        }
        let name = match CsrName::from_addr(a) {
            Some(name) => name,
            None => return None,
        };
        let val = match name {
            CsrName::Cycle => match cpu_mode {
                CpuMode::Machine => self.cycle,
                CpuMode::Supervisor if self.mcounteren & 1 != 0 => self.cycle,
                CpuMode::User if self.mcounteren & 1 != 0 && self.scounteren & 1 != 0 => self.cycle,
                _ => return None,
            },
            CsrName::Time => match cpu_mode {
                CpuMode::Machine => self.time,
                CpuMode::Supervisor if self.mcounteren & 2 != 0 => self.time,
                CpuMode::User if self.mcounteren & 2 != 0 && self.scounteren & 2 != 0 => {
                    self.time
                },
                _ => return None,
            },
            CsrName::Instret => match cpu_mode {
                CpuMode::Machine => self.instret,
                CpuMode::Supervisor if self.mcounteren & 4 != 0 => self.instret,
                CpuMode::User if self.mcounteren & 4 != 0 && self.scounteren & 4 != 0 => {
                    self.instret
                },
                _ => return None,
            },
            CsrName::SStatus => self.mstatus & SStatus::VALID_MASK,
            CsrName::SInterruptEnable => self.mie & self.mideleg,
            CsrName::STrapHandlerVector => self.stvec,
            CsrName::SCounterEnable => self.scounteren,
            CsrName::SScratch => self.sscratch,
            CsrName::SExceptionPC => self.sepc,
            CsrName::STrapCause => self.scause,
            CsrName::STrapValue => self.stval,
            CsrName::SInterruptPending => self.mip & self.mideleg,
            CsrName::STranslationAndProtection => self.satp,
            CsrName::MVendorID => 0,
            CsrName::MArchitectureID => 5,
            CsrName::MImplementationID => 0,
            CsrName::MHartID => 0,
            CsrName::MStatus => self.mstatus,
            CsrName::MIsaAndExtensions => {
                let mut misa = MIsaAndExtensions::from_bits(0);
                misa.set_i_ext(true);
                misa.set_m_ext(true);
                misa.set_a_ext(true);
                misa.set_c_ext(true);
                misa.set_s_mode(true);
                misa.set_u_mode(true);
                misa.set_mxlen(2);
                proof {
                    assert(0u64 & MIsaAndExtensions::VALID_MASK == 0) by (bit_vector);
                }
                misa.as_bits()
            },
            CsrName::MExceptionDelegation => self.medeleg,
            CsrName::MInterruptDelegation => self.mideleg,
            CsrName::MInterruptEnable => self.mie,
            CsrName::MTrapHandlerVector => self.mtvec,
            CsrName::MCounterEnable => self.mcounteren,
            CsrName::MScratch => self.mscratch,
            CsrName::MExceptionPC => self.mepc,
            CsrName::MTrapCause => self.mcause,
            CsrName::MTrapValue => self.mtval,
            CsrName::MInterruptPending => self.mip,
            CsrName::MCounterInhibit => self.mcountinhibit,
            CsrName::MEnvConfig => 0,
            CsrName::TSelect => 0,
            CsrName::TInfo => 0,
        };
        Some(val)
    }

    pub fn store(&mut self, csr_addr: u64, val: u64, cpu_mode: CpuMode) -> (r: Option<()>)
        ensures
            r == CsrState::store_result(csr_addr),
            final(self)@ == old(self)@.store(csr_addr, val, cpu_mode),
    {
        let a = csr_addr % 0x1000;
        if 0xB00 <= a && a <= 0xB1F {
            return Some(());
        }
        let name = match CsrName::from_addr(a) {
            Some(name) => name,
            None => return None,
        };
        let acc = match AccessType::get(a) {
            Some(acc) => acc,
            None => return None,
        };
        let valid = match acc {
            AccessType::MachineReadWrite => cpu_mode == CpuMode::Machine,
            AccessType::SupervisorReadWrite => {
                cpu_mode == CpuMode::Supervisor || cpu_mode == CpuMode::Machine
            },
            AccessType::AnyReadWrite => true,
            AccessType::ReadOnly => false,
        };
        if !valid {
            return Some(());
        }
        match name {
            CsrName::Cycle => {},
            CsrName::Time => {},
            CsrName::Instret => {},
            CsrName::SStatus => {
                self.mstatus = (self.mstatus & !SStatus::VALID_MASK) | (val & SStatus::VALID_MASK);
            },
            CsrName::SInterruptEnable => {
                self.mie = (self.mie & !self.mideleg) | (val & self.mideleg);
            },
            CsrName::STrapHandlerVector => self.stvec = val,
            CsrName::SCounterEnable => self.scounteren = val,
            CsrName::SScratch => self.sscratch = val,
            CsrName::SExceptionPC => self.sepc = val,
            CsrName::STrapCause => self.scause = val,
            CsrName::STrapValue => self.stval = val,
            CsrName::SInterruptPending => {
                self.mip = (self.mip & !self.mideleg) | (val & self.mideleg);
            },
            CsrName::STranslationAndProtection => {
                let satp = STranslationAndProtection::from_bits(val);
                proof {
                    assert(val & STranslationAndProtection::VALID_MASK == val) by (bit_vector);
                }
                match satp.mode() {
                    0x0 | 0x8 => self.satp = val,
                    _ => return Some(()),
                }
            },
            CsrName::MVendorID => {},
            CsrName::MArchitectureID => {},
            CsrName::MImplementationID => {},
            CsrName::MHartID => {},
            CsrName::MStatus => self.mstatus = val,
            CsrName::MIsaAndExtensions => {},
            CsrName::MExceptionDelegation => self.medeleg = val,
            CsrName::MInterruptDelegation => self.mideleg = val,
            CsrName::MInterruptEnable => self.mie = val,
            CsrName::MTrapHandlerVector => self.mtvec = val,
            CsrName::MCounterEnable => self.mcounteren = val,
            CsrName::MScratch => self.mscratch = val,
            CsrName::MExceptionPC => self.mepc = val,
            CsrName::MTrapCause => self.mcause = val,
            CsrName::MTrapValue => self.mtval = val,
            CsrName::MInterruptPending => self.mip = val,
            CsrName::MCounterInhibit => self.mcountinhibit = val,
            CsrName::MEnvConfig => {},
            CsrName::TSelect => {},
            CsrName::TInfo => {},
        }
        let mut mstatus = MStatus::from_bits(self.mstatus);
        mstatus.set_uxl(0b10);
        mstatus.set_sxl(0b10);
        let sd = mstatus.fs() == 0b11 || mstatus.xs() == 0b11 || mstatus.vs() == 0b11;
        mstatus.set_sd(sd);
        self.mstatus = mstatus.as_bits();
        self.mcountinhibit = self.mcountinhibit & 0b111;
        Some(())
    }

    /// Retires one instruction: `cycle` and `instret` advance (wrapping).
    pub fn tick(&mut self)
        ensures
            final(self)@ == (CsrState {
                cycle: wrap64(old(self)@.cycle + 1),
                instret: wrap64(old(self)@.instret + 1),
                ..old(self)@
            }),
    {
        self.cycle = self.cycle.wrapping_add(1);
        self.instret = self.instret.wrapping_add(1);
    }

    pub fn cycle(&self) -> (r: u64)
        ensures
            r == self@.cycle,
    {
        self.cycle
    }

    pub fn mcountinhibit(&self) -> (r: u64)
        ensures
            r == self@.mcountinhibit,
    {
        self.mcountinhibit
    }

    pub fn mstatus(&self) -> (r: MStatus)
        ensures
            r == MStatus::spec_from_bits(self@.mstatus),
    {
        MStatus::from_bits(self.mstatus)
    }

    /// Replaces `mstatus` by what `f` makes of its current fields.
    pub fn update_mstatus(&mut self, f: impl Fn(MStatus) -> MStatus)
        requires
            call_requires(f, (MStatus::spec_from_bits(old(self)@.mstatus),)),
        ensures
            exists|m: MStatus|
                call_ensures(f, (MStatus::spec_from_bits(old(self)@.mstatus),), m)
                && final(self)@ == (CsrState { mstatus: m.bits(), ..old(self)@ }),
    {
        let mstatus = MStatus::from_bits(self.mstatus);
        let m = f(mstatus);
        self.mstatus = m.as_bits();
    }

    pub fn mip(&self) -> (r: MInterruptPending)
        ensures
            r == MInterruptPending::spec_from_bits(self@.mip),
    {
        MInterruptPending::from_bits(self.mip)
    }

    /// Replaces `mip` by what `f` makes of its current fields.
    pub fn update_mip(&mut self, f: impl Fn(MInterruptPending) -> MInterruptPending)
        requires
            call_requires(f, (MInterruptPending::spec_from_bits(old(self)@.mip),)),
        ensures
            exists|m: MInterruptPending|
                call_ensures(f, (MInterruptPending::spec_from_bits(old(self)@.mip),), m)
                && final(self)@ == (CsrState { mip: m.bits(), ..old(self)@ }),
    {
        let mip = MInterruptPending::from_bits(self.mip);
        let m = f(mip);
        self.mip = m.as_bits();
    }

    pub fn mie(&self) -> (r: MInterruptEnable)
        ensures
            r == MInterruptEnable::spec_from_bits(self@.mie),
    {
        MInterruptEnable::from_bits(self.mie)
    }

    pub fn mideleg(&self) -> (r: MInterruptDelegation)
        ensures
            r == MInterruptDelegation::spec_from_bits(self@.mideleg),
    {
        MInterruptDelegation::from_bits(self.mideleg)
    }

    pub fn mepc(&self) -> (r: u64)
        ensures
            r == self@.mepc,
    {
        self.mepc
    }

    pub fn set_mepc(&mut self, mepc: u64)
        ensures
            final(self)@ == (CsrState { mepc, ..old(self)@ }),
    {
        self.mepc = mepc;
    }

    pub fn mtvec(&self) -> (r: MTrapHandlerVector)
        ensures
            r == MTrapHandlerVector::spec_from_bits(self@.mtvec),
    {
        MTrapHandlerVector::from_bits(self.mtvec)
    }

    pub fn mcause(&self) -> (r: u64)
        ensures
            r == self@.mcause,
    {
        self.mcause
    }

    pub fn set_mcause(&mut self, mcause: MTrapCause)
        ensures
            final(self)@ == (CsrState { mcause: mcause.bits(), ..old(self)@ }),
    {
        self.mcause = mcause.as_bits();
    }

    pub fn mtval(&self) -> (r: u64)
        ensures
            r == self@.mtval,
    {
        self.mtval
    }

    pub fn set_mtval(&mut self, mtval: u64)
        ensures
            final(self)@ == (CsrState { mtval, ..old(self)@ }),
    {
        self.mtval = mtval;
    }

    pub fn medeleg(&self) -> (r: MExceptionDelegation)
        ensures
            r == MExceptionDelegation::spec_from_bits(self@.medeleg),
    {
        MExceptionDelegation::from_bits(self.medeleg)
    }

    pub fn time(&self) -> (r: u64)
        ensures
            r == self@.time,
    {
        self.time
    }

    pub fn set_time(&mut self, time: u64)
        ensures
            final(self)@ == (CsrState { time, ..old(self)@ }),
    {
        self.time = time;
    }

    pub fn sepc(&self) -> (r: u64)
        ensures
            r == self@.sepc,
    {
        self.sepc
    }

    pub fn set_sepc(&mut self, sepc: u64)
        ensures
            final(self)@ == (CsrState { sepc, ..old(self)@ }),
    {
        self.sepc = sepc;
    }

    pub fn sstatus(&self) -> (r: SStatus)
        ensures
            r == SStatus::spec_from_bits(self@.mstatus),
    {
        SStatus::from_bits(self.mstatus)
    }

    /// Replaces the `sstatus` window of `mstatus` by what `f` makes of it;
    /// the bits outside the window keep their values.
    pub fn update_sstatus(&mut self, f: impl Fn(SStatus) -> SStatus)
        requires
            call_requires(f, (SStatus::spec_from_bits(old(self)@.mstatus),)),
        ensures
            exists|s: SStatus|
                call_ensures(f, (SStatus::spec_from_bits(old(self)@.mstatus),), s)
                && final(self)@ == (CsrState {
                    mstatus: merge_sstatus(old(self)@.mstatus, s.bits()),
                    ..old(self)@
                }),
    {
        let sstatus = SStatus::from_bits(self.mstatus);
        let s = f(sstatus);
        self.mstatus = (self.mstatus & !SStatus::VALID_MASK) | (s.as_bits() & SStatus::VALID_MASK);
    }

    pub fn satp(&self) -> (r: STranslationAndProtection)
        ensures
            r == STranslationAndProtection::spec_from_bits(self@.satp),
    {
        STranslationAndProtection::from_bits(self.satp)
    }

    pub fn stvec(&self) -> (r: STrapHandlerVector)
        ensures
            r == STrapHandlerVector::spec_from_bits(self@.stvec),
    {
        STrapHandlerVector::from_bits(self.stvec)
    }

    pub fn scause(&self) -> (r: u64)
        ensures
            r == self@.scause,
    {
        self.scause
    }

    pub fn set_scause(&mut self, scause: STrapCause)
        ensures
            final(self)@ == (CsrState { scause: scause.bits(), ..old(self)@ }),
    {
        self.scause = scause.as_bits();
    }

    pub fn stval(&self) -> (r: u64)
        ensures
            r == self@.stval,
    {
        self.stval
    }

    pub fn set_stval(&mut self, stval: u64)
        ensures
            final(self)@ == (CsrState { stval, ..old(self)@ }),
    {
        self.stval = stval;
    }
}


/// The registers that hold exactly what was last written to them.
pub open spec fn plain_register(name: CsrName) -> bool {
    match name {
        CsrName::STrapHandlerVector | CsrName::SCounterEnable | CsrName::SScratch
        | CsrName::SExceptionPC | CsrName::STrapCause | CsrName::STrapValue
        | CsrName::MExceptionDelegation | CsrName::MInterruptDelegation
        | CsrName::MInterruptEnable | CsrName::MTrapHandlerVector | CsrName::MCounterEnable
        | CsrName::MScratch | CsrName::MExceptionPC | CsrName::MTrapCause
        | CsrName::MTrapValue | CsrName::MInterruptPending => true,
        _ => false,
    }
}

impl CsrState {
    /// What every write keeps: `mstatus` is in its normal form (reserved bits
    /// clear, UXL and SXL at 64 bits, SD summarising the dirty states) and
    /// `mcountinhibit` holds only its three counter bits.
    pub open spec fn inv(self) -> bool {
        self.mstatus == normalize_mstatus(self.mstatus) && self.mcountinhibit < 8
    }
}

/// Normalising `mstatus` twice changes nothing.
pub proof fn lemma_normalize_mstatus_idempotent(m: u64)
    ensures
        normalize_mstatus(normalize_mstatus(m)) == normalize_mstatus(m),
{
    assert(normalize_mstatus(normalize_mstatus(m)) == normalize_mstatus(m)) by (bit_vector);
}

/// Law: the register file at reset satisfies the invariant, and every
/// write, permitted or not, keeps it.
pub proof fn lemma_store_keeps_inv(s: CsrState, csr_addr: u64, val: u64, mode: CpuMode)
    requires
        s.inv(),
    ensures
        reset_state().inv(),
        s.store(csr_addr, val, mode).inv(),
{
    lemma_normalize_mstatus_idempotent(0);
    lemma_normalize_mstatus_idempotent(s.store(csr_addr, val, mode).mstatus);
    let a = csr_addr % 0x1000;
    if !(0xB00 <= a <= 0xB1F || CsrState::store_result(csr_addr) is None
        || !CsrState::write_permitted(csr_addr, mode)) {
        let name = CsrName::from_addr(a).unwrap();
        let t = s.name_store(name, val);
        lemma_normalize_mstatus_idempotent(t.mstatus);
        let c = t.mcountinhibit;
        assert(c & 0b111 < 8) by (bit_vector);
    }
}

/// Law: a permitted write of `val` to a plain register is what the next read
/// of that register in the same mode gives back, and it changes no other
/// register of a file that satisfies the invariant.
pub proof fn lemma_store_then_load(s: CsrState, csr_addr: u64, val: u64, mode: CpuMode)
    requires
        s.inv(),
        CsrName::from_addr(csr_addr % 0x1000) is Some,
        plain_register(CsrName::from_addr(csr_addr % 0x1000).unwrap()),
        CsrState::write_permitted(csr_addr, mode),
    ensures
        s.store(csr_addr, val, mode).load(csr_addr, mode) == Some(val),
        s.store(csr_addr, val, mode) == s.name_store(CsrName::from_addr(csr_addr % 0x1000).unwrap(), val),
{
    let a = csr_addr % 0x1000;
    assert(!(0xB00 <= a <= 0xB1F));
    assert(AccessType::spec_get(a) is Some);
    let c = s.mcountinhibit;
    assert(c < 8 ==> c & 0b111 == c) by (bit_vector);
}

/// Law: a write that the mode may not make, or a write to a register that
/// does not exist, leaves every register as it was.
pub proof fn lemma_refused_store_inert(s: CsrState, csr_addr: u64, val: u64, mode: CpuMode)
    requires
        CsrState::store_result(csr_addr) is None || (!CsrState::write_permitted(csr_addr, mode)
            && !(0xB00 <= csr_addr % 0x1000 <= 0xB1F)),
    ensures
        s.store(csr_addr, val, mode) == s,
{
}

} // verus!
