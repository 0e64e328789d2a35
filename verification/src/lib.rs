//! A single-hart RV64IMAC machine: CPU state, decoder, executor, Sv39 MMU,
//! trap logic and the memory-mapped devices of the board.
use vstd::prelude::*;

pub mod bus;
pub mod cosim;
pub mod csr;
pub mod decode;
pub mod decode_laws;
pub mod devices;
pub mod exec;
pub mod exec_laws;
pub mod invariants;
pub mod isa_laws;
pub mod machine;
pub mod mmu;
pub mod payload;
pub mod trace;
pub mod trap;
pub mod trap_return;

use bus::{reset_bus, Bus, BusState};
use csr::{reset_state, Csr, CsrState};
use mmu::Mmu;
use trap::Exception;

verus! {

/// `x` reduced to 64 bits, as wrapping arithmetic leaves it.
pub open spec fn wrap64(x: int) -> u64 {
    (x % 0x1_0000_0000_0000_0000int) as u64
}

/// Privilege level of the hart.
#[derive(PartialEq, Eq, Clone, Copy, Debug, Structural)]
pub enum CpuMode {
    Machine,
    User,
    Supervisor,
}

impl CpuMode {
    /// The two-bit encoding of the privilege level (as held in `mstatus.MPP`).
    #[verifier::allow_in_spec]
    pub fn to_bits(self) -> u64
        returns
            match self {
                CpuMode::Machine => 0b11u64,
                CpuMode::User => 0b00u64,
                CpuMode::Supervisor => 0b01u64,
            },
    {
        match self {
            CpuMode::Machine => 0b11,
            CpuMode::User => 0b00,
            CpuMode::Supervisor => 0b01,
        }
    }

    /// The privilege level with encoding `v`; the reserved encoding `0b10` and
    /// anything wider than two bits have none.
    #[verifier::allow_in_spec]
    pub fn try_from_bits(v: u64) -> Option<CpuMode>
        returns
            if v == 0b11 {
                Some(CpuMode::Machine)
            } else if v == 0 {
                Some(CpuMode::User)
            } else if v == 1 {
                Some(CpuMode::Supervisor)
            } else {
                None::<CpuMode>
            },
    {
        if v == 0b11 {
            Some(CpuMode::Machine)
        } else if v == 0 {
            Some(CpuMode::User)
        } else if v == 1 {
            Some(CpuMode::Supervisor)
        } else {
            None
        }
    }
}

/// The mathematical state of the hart and its board.
pub ghost struct CpuState {
    pub mode: CpuMode,
    pub pc: u64,
    pub regs: Seq<u64>,
    pub csr: CsrState,
    pub exception: Option<(Exception, u64)>,
    pub bus: BusState,
}

pub struct Cpu {
    pub mode: CpuMode,
    pub pc: u64,
    pub regs: [u64; 32],
    pub csr: Csr,
    pub exception: Option<(Exception, u64)>,
    pub mmu: Mmu,
    pub bus: Bus,
}

impl View for Cpu {
    type V = CpuState;

    open spec fn view(&self) -> CpuState {
        CpuState {
            mode: self.mode,
            pc: self.pc,
            regs: self.regs@,
            csr: self.csr@,
            exception: self.exception,
            bus: self.bus@,
        }
    }
}

impl CpuState {
    pub open spec fn wf(self) -> bool {
        self.regs.len() == 32 && self.bus.wf()
    }
}

/// The machine at power-on: machine mode at address 0 with clear registers.
pub open spec fn reset_cpu() -> CpuState {
    CpuState {
        mode: CpuMode::Machine,
        pc: 0,
        regs: Seq::new(32, |i: int| 0u64),
        csr: reset_state(),
        exception: None,
        bus: reset_bus(),
    }
}

impl Cpu {
    pub fn new() -> (r: Self)
        ensures
            r@ == reset_cpu(),
    {
        let r = Self {
            mode: CpuMode::Machine,
            pc: 0,
            regs: [0; 32],
            csr: Csr::new(),
            exception: None,
            mmu: Mmu::new(),
            bus: Bus::new(),
        };
        assert(r@.regs =~= Seq::new(32, |i: int| 0u64));
        r
    }
}

} // verus!
