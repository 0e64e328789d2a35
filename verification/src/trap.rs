//! Exceptions and interrupts: choosing the privilege level that handles a
//! trap and entering its handler.
use vstd::prelude::*;

use crate::csr::{
    bit_of, field_of, merge_sstatus, with_bit, with_field, Csr, CsrState, MExceptionDelegation,
    MInterruptDelegation, MInterruptEnable, MInterruptPending, MStatus, MTrapCause,
    MTrapHandlerVector, SStatus, STrapCause, STrapHandlerVector,
};
use crate::{wrap64, CpuMode};

verus! {

#[derive(Clone, Copy, PartialEq, Eq, Debug, Structural)]
pub enum Exception {
    InstructionAddressMisaligned,
    InstructionAccessFault,
    IllegalInstruction,
    Breakpoint,
    LoadAddressMisaligned,
    LoadAccessFault,
    StoreAddressMisaligned,
    StoreAccessFault,
    EnvCallUMode,
    EnvCallSMode,
    EnvCallMMode,
    InstructionPageFault,
    LoadPageFault,
    StorePageFault,
}

impl Exception {
    /// The exception code that `mcause` / `scause` report.
    #[verifier::allow_in_spec]
    pub fn code(self) -> u64
        returns
            match self {
                Exception::InstructionAddressMisaligned => 0u64,
                Exception::InstructionAccessFault => 1,
                Exception::IllegalInstruction => 2,
                Exception::Breakpoint => 3,
                Exception::LoadAddressMisaligned => 4,
                Exception::LoadAccessFault => 5,
                Exception::StoreAddressMisaligned => 6,
                Exception::StoreAccessFault => 7,
                Exception::EnvCallUMode => 8,
                Exception::EnvCallSMode => 9,
                Exception::EnvCallMMode => 11,
                Exception::InstructionPageFault => 12,
                Exception::LoadPageFault => 13,
                Exception::StorePageFault => 15,
            },
    {
        match self {
            Exception::InstructionAddressMisaligned => 0,
            Exception::InstructionAccessFault => 1,
            Exception::IllegalInstruction => 2,
            Exception::Breakpoint => 3,
            Exception::LoadAddressMisaligned => 4,
            Exception::LoadAccessFault => 5,
            Exception::StoreAddressMisaligned => 6,
            Exception::StoreAccessFault => 7,
            Exception::EnvCallUMode => 8,
            Exception::EnvCallSMode => 9,
            Exception::EnvCallMMode => 11,
            Exception::InstructionPageFault => 12,
            Exception::LoadPageFault => 13,
            Exception::StorePageFault => 15,
        }
    }
}

broadcast use crate::csr::fields::group_from_bits;

/// Trap-vector mode: all traps to the base address, or interrupts to
/// `base + 4 * cause`.
#[derive(PartialEq, Eq, Clone, Copy, Structural)]
enum TrapHandlerMode {
    Direct,
    Vectored,
}

impl TrapHandlerMode {
    fn try_from_bits(v: u64) -> (r: Option<TrapHandlerMode>)
        ensures
            r == if v == 0 {
                Some(TrapHandlerMode::Direct)
            } else if v == 1 {
                Some(TrapHandlerMode::Vectored)
            } else {
                None
            },
    {
        if v == 0 {
            Some(TrapHandlerMode::Direct)
        } else if v == 1 {
            Some(TrapHandlerMode::Vectored)
        } else {
            None
        }
    }
}

/// The interrupt sources, in the order in which they are taken.
#[derive(Debug, PartialEq, Eq, Clone, Copy, Structural)]
pub enum InterruptType {
    MachineExternal,
    MachineSoftware,
    MachineTimer,
    SupervisorExternal,
    SupervisorSoftware,
    SupervisorTimer,
}

impl InterruptType {
    /// The interrupt's cause code.
    #[verifier::allow_in_spec]
    pub fn value(&self) -> u64
        returns
            match *self {
                InterruptType::MachineExternal => 11u64,
                InterruptType::MachineSoftware => 3,
                InterruptType::MachineTimer => 7,
                InterruptType::SupervisorExternal => 9,
                InterruptType::SupervisorSoftware => 1,
                InterruptType::SupervisorTimer => 5,
            },
    {
        match self {
            InterruptType::MachineExternal => 11,
            InterruptType::MachineSoftware => 3,
            InterruptType::MachineTimer => 7,
            InterruptType::SupervisorExternal => 9,
            InterruptType::SupervisorSoftware => 1,
            InterruptType::SupervisorTimer => 5,
        }
    }

    /// The `i`-th source in priority order.
    pub open spec fn nth(i: int) -> InterruptType {
        if i == 0 {
            InterruptType::MachineExternal
        } else if i == 1 {
            InterruptType::MachineSoftware
        } else if i == 2 {
            InterruptType::MachineTimer
        } else if i == 3 {
            InterruptType::SupervisorExternal
        } else if i == 4 {
            InterruptType::SupervisorSoftware
        } else {
            InterruptType::SupervisorTimer
        }
    }
}

/// Whether source `t` is both pending in `mip` and enabled in `mie`.
pub open spec fn interrupt_pending(t: InterruptType, csr: CsrState) -> bool {
    let mip = MInterruptPending::spec_from_bits(csr.mip);
    let mie = MInterruptEnable::spec_from_bits(csr.mie);
    match t {
        InterruptType::MachineExternal => mip.meip() && mie.meie(),
        InterruptType::MachineSoftware => mip.msip() && mie.msie(),
        InterruptType::MachineTimer => mip.mtip() && mie.mtie(),
        InterruptType::SupervisorExternal => mip.seip() && mie.seie(),
        InterruptType::SupervisorSoftware => mip.ssip() && mie.ssie(),
        InterruptType::SupervisorTimer => mip.stip() && mie.stie(),
    }
}

/// Whether `mideleg` hands source `t` to supervisor mode.
pub open spec fn interrupt_delegated(t: InterruptType, csr: CsrState) -> bool {
    let d = MInterruptDelegation::spec_from_bits(csr.mideleg);
    match t {
        InterruptType::MachineExternal => d.me(),
        InterruptType::MachineSoftware => d.ms(),
        InterruptType::MachineTimer => d.mt(),
        InterruptType::SupervisorExternal => d.se(),
        InterruptType::SupervisorSoftware => d.ss(),
        InterruptType::SupervisorTimer => d.st(),
    }
}

/// Whether an interrupt for the target level is enabled while running in
/// `mode`: always from a lower level, by the level's own IE bit at the same
/// level, never for S-mode targets while in M-mode.
pub open spec fn interrupt_enabled(mode: CpuMode, to_supervisor: bool, csr: CsrState) -> bool {
    let ms = MStatus::spec_from_bits(csr.mstatus);
    match (mode, to_supervisor) {
        (CpuMode::User, true) => true,
        (CpuMode::Supervisor, true) => ms.sie(),
        (CpuMode::Machine, true) => false,
        (CpuMode::Machine, false) => ms.mie(),
        (_, false) => true,
    }
}

pub open spec fn interrupt_taken(t: InterruptType, csr: CsrState, mode: CpuMode) -> bool {
    interrupt_pending(t, csr) && interrupt_enabled(mode, interrupt_delegated(t, csr), csr)
}

/// The first source, from position `i` of the priority order on, that is
/// taken.
pub open spec fn taken_from(csr: CsrState, mode: CpuMode, i: nat) -> Option<InterruptType>
    decreases 6 - i,
{
    if i >= 6 {
        None
    } else if interrupt_taken(InterruptType::nth(i as int), csr, mode) {
        Some(InterruptType::nth(i as int))
    } else {
        taken_from(csr, mode, i + 1)
    }
}

/// The interrupt the hart takes now, if any.
pub open spec fn next_interrupt(csr: CsrState, mode: CpuMode) -> Option<InterruptType> {
    taken_from(csr, mode, 0)
}

/// `sstatus` bits on entry to an S-mode handler: SPP records the previous
/// mode, SPIE the previous SIE, and SIE is cleared.
pub open spec fn strap_sstatus(s: u64, from_supervisor: bool) -> u64 {
    let s1 = with_bit(s, 8, from_supervisor);
    with_bit(with_bit(s1, 5, bit_of(s1, 1)), 1, false)
}

/// `mstatus` bits on entry to an M-mode handler: MPP records the previous
/// mode, MPIE the previous MIE, and MIE is cleared.
pub open spec fn mtrap_mstatus(m: u64, from: CpuMode) -> u64 {
    let m1 = with_field(m, 11, 2, from.to_bits());
    with_bit(with_bit(m1, 7, bit_of(m1, 3)), 3, false)
}

/// The cause register value for an interrupt with code `code`.
pub open spec fn interrupt_cause(code: u64) -> u64 {
    with_bit(with_field(0u64 & STrapCause::VALID_MASK, 0, 63, code), 63, true)
}

/// The cause register value for an exception with code `code`.
pub open spec fn exception_cause(code: u64) -> u64 {
    with_field(0u64 & STrapCause::VALID_MASK, 0, 63, code)
}

/// The handler address for a trap-vector register value: `None` for the
/// reserved modes; interrupts go to `base + 4 * cause` in vectored mode.
pub open spec fn handler_address(tvec: u64, interrupt_code: Option<u64>) -> Option<u64> {
    let mode = field_of(tvec, 0, 2);
    let base = field_of(tvec, 2, 62) << 2u64;
    if mode == 0 {
        Some(base)
    } else if mode == 1 {
        match interrupt_code {
            Some(c) => Some(wrap64(base + c * 4)),
            None => Some(base),
        }
    } else {
        None
    }
}

/// Trap state the hart is in after the trap: registers, mode and pc.
pub ghost struct TrapTarget {
    pub csr: CsrState,
    pub mode: CpuMode,
    pub pc: u64,
}

/// Entry into the S-mode handler from `mode` at `epc`.
pub open spec fn enter_supervisor(csr: CsrState, mode: CpuMode, epc: u64, cause: u64, tval: u64, handler: u64) -> TrapTarget {
    let s = SStatus::spec_from_bits(csr.mstatus).bits();
    TrapTarget {
        csr: CsrState {
            mstatus: merge_sstatus(csr.mstatus, strap_sstatus(s, mode == CpuMode::Supervisor)),
            sepc: epc,
            scause: cause,
            stval: tval,
            ..csr
        },
        mode: CpuMode::Supervisor,
        pc: handler,
    }
}

/// Entry into the M-mode handler from `mode` at `epc`.
pub open spec fn enter_machine(csr: CsrState, mode: CpuMode, epc: u64, cause: u64, tval: u64, handler: u64) -> TrapTarget {
    let m = MStatus::spec_from_bits(csr.mstatus).bits();
    TrapTarget {
        csr: CsrState {
            mstatus: mtrap_mstatus(m, mode),
            mepc: epc,
            mcause: cause,
            mtval: tval,
            ..csr
        },
        mode: CpuMode::Machine,
        pc: handler,
    }
}

/// Whether taking interrupt `t` would abort: its handler's trap vector is in
/// a reserved mode.
pub open spec fn interrupt_aborts(t: InterruptType, csr: CsrState) -> bool {
    if interrupt_delegated(t, csr) {
        handler_address(STrapHandlerVector::spec_from_bits(csr.stvec).bits(), Some(t.value())) is None
    } else {
        handler_address(MTrapHandlerVector::spec_from_bits(csr.mtvec).bits(), Some(t.value())) is None
    }
}

/// The state after taking interrupt `t` in `mode` at `pc`.
pub open spec fn take_interrupt(t: InterruptType, csr: CsrState, mode: CpuMode, pc: u64) -> TrapTarget {
    let epc = pc & !1u64;
    if interrupt_delegated(t, csr) {
        enter_supervisor(csr, mode, epc, interrupt_cause(t.value()), 0,
            handler_address(STrapHandlerVector::spec_from_bits(csr.stvec).bits(), Some(t.value())).unwrap())
    } else {
        enter_machine(csr, mode, epc, interrupt_cause(t.value()), 0,
            handler_address(MTrapHandlerVector::spec_from_bits(csr.mtvec).bits(), Some(t.value())).unwrap())
    }
}

/// Whether `medeleg` hands exception `e` to supervisor mode.
pub open spec fn exception_delegated(e: Exception, csr: CsrState) -> bool {
    let d = MExceptionDelegation::spec_from_bits(csr.medeleg);
    match e {
        Exception::IllegalInstruction => d.illegal_instruction(),
        Exception::Breakpoint => d.breakpoint(),
        Exception::EnvCallSMode => d.env_call_s_mode(),
        Exception::InstructionPageFault => d.instr_page_fault(),
        Exception::InstructionAccessFault => d.instr_access_fault(),
        Exception::LoadAddressMisaligned => d.load_addr_misaligned(),
        Exception::StoreAddressMisaligned => d.store_addr_misaligned(),
        Exception::StorePageFault => d.store_page_fault(),
        Exception::LoadPageFault => d.load_page_fault(),
        Exception::EnvCallUMode => d.env_call_u_mode(),
        _ => false,
    }
}

/// The state after exception `e` with trap value `data` in `mode` at `pc`:
/// handled in S-mode when delegated and not raised in M-mode, else in
/// M-mode; the handler is the trap vector's base in either trap-vector mode.
pub open spec fn take_exception(e: Exception, data: u64, csr: CsrState, mode: CpuMode, pc: u64) -> TrapTarget {
    if mode != CpuMode::Machine && exception_delegated(e, csr) {
        enter_supervisor(csr, mode, pc, exception_cause(e.code()), data,
            field_of(STrapHandlerVector::spec_from_bits(csr.stvec).bits(), 2, 62) << 2u64)
    } else {
        enter_machine(csr, mode, pc, exception_cause(e.code()), data,
            field_of(MTrapHandlerVector::spec_from_bits(csr.mtvec).bits(), 2, 62) << 2u64)
    }
}

/// Whether interrupt `t` is pending and enabled, read through the register views.
fn pending_and_enabled(t: InterruptType, mip: &MInterruptPending, mie: &MInterruptEnable) -> (r: bool)
    ensures
        r == match t {
            InterruptType::MachineExternal => mip.meip() && mie.meie(),
            InterruptType::MachineSoftware => mip.msip() && mie.msie(),
            InterruptType::MachineTimer => mip.mtip() && mie.mtie(),
            InterruptType::SupervisorExternal => mip.seip() && mie.seie(),
            InterruptType::SupervisorSoftware => mip.ssip() && mie.ssie(),
            InterruptType::SupervisorTimer => mip.stip() && mie.stie(),
        },
{
    match t {
        InterruptType::MachineExternal => mip.meip() && mie.meie(),
        InterruptType::MachineSoftware => mip.msip() && mie.msie(),
        InterruptType::MachineTimer => mip.mtip() && mie.mtie(),
        InterruptType::SupervisorExternal => mip.seip() && mie.seie(),
        InterruptType::SupervisorSoftware => mip.ssip() && mie.ssie(),
        InterruptType::SupervisorTimer => mip.stip() && mie.stie(),
    }
}

fn delegated_to_supervisor(t: InterruptType, mideleg: &MInterruptDelegation) -> (r: bool)
    ensures
        r == match t {
            InterruptType::MachineExternal => mideleg.me(),
            InterruptType::MachineSoftware => mideleg.ms(),
            InterruptType::MachineTimer => mideleg.mt(),
            InterruptType::SupervisorExternal => mideleg.se(),
            InterruptType::SupervisorSoftware => mideleg.ss(),
            InterruptType::SupervisorTimer => mideleg.st(),
        },
{
    match t {
        InterruptType::MachineExternal => mideleg.me(),
        InterruptType::MachineSoftware => mideleg.ms(),
        InterruptType::MachineTimer => mideleg.mt(),
        InterruptType::SupervisorExternal => mideleg.se(),
        InterruptType::SupervisorSoftware => mideleg.ss(),
        InterruptType::SupervisorTimer => mideleg.st(),
    }
}

fn interrupt_at(i: usize) -> (r: InterruptType)
    requires
        i < 6,
    ensures
        r == InterruptType::nth(i as int),
{
    match i {
        0 => InterruptType::MachineExternal,
        1 => InterruptType::MachineSoftware,
        2 => InterruptType::MachineTimer,
        3 => InterruptType::SupervisorExternal,
        4 => InterruptType::SupervisorSoftware,
        _ => InterruptType::SupervisorTimer,
    }
}

/// Enters the S-mode trap handler: the previous mode and interrupt enable
/// go to SPP and SPIE, SIE is cleared, and `sepc` records `epc`.
fn trap_to_supervisor(csr: &mut Csr, cpu_mode: &mut CpuMode, epc: u64)
    ensures
        final(csr)@ == (CsrState {
            mstatus: merge_sstatus(
                old(csr)@.mstatus,
                strap_sstatus(SStatus::spec_from_bits(old(csr)@.mstatus).bits(), *old(cpu_mode) == CpuMode::Supervisor),
            ),
            sepc: epc,
            ..old(csr)@
        }),
        *final(cpu_mode) == CpuMode::Supervisor,
{
    let from_supervisor = *cpu_mode == CpuMode::Supervisor;
    let f = |sstatus: SStatus| -> (r: SStatus)
        ensures
            r.bits() == strap_sstatus(sstatus.bits(), from_supervisor),
        {
            let mut sstatus = sstatus;
            sstatus.set_spp(from_supervisor);
            let sie = sstatus.sie();
            sstatus.set_spie(sie);
            sstatus.set_sie(false);
            sstatus
        };
    csr.update_sstatus(f);
    *cpu_mode = CpuMode::Supervisor;
    csr.set_sepc(epc);
}

/// Enters the M-mode trap handler: the previous mode and interrupt enable
/// go to MPP and MPIE, MIE is cleared, and `mepc` records `epc`.
fn trap_to_machine(csr: &mut Csr, cpu_mode: &mut CpuMode, epc: u64)
    ensures
        final(csr)@ == (CsrState {
            mstatus: mtrap_mstatus(MStatus::spec_from_bits(old(csr)@.mstatus).bits(), *old(cpu_mode)),
            mepc: epc,
            ..old(csr)@
        }),
        *final(cpu_mode) == CpuMode::Machine,
{
    let from = cpu_mode.to_bits();
    let ghost from_mode = *cpu_mode;
    let f = |mstatus: MStatus| -> (r: MStatus)
        ensures
            r.bits() == mtrap_mstatus(mstatus.bits(), from_mode),
        {
            let mut mstatus = mstatus;
            mstatus.set_mpp(from);
            let mie = mstatus.mie();
            mstatus.set_mpie(mie);
            mstatus.set_mie(false);
            mstatus
        };
    csr.update_mstatus(f);
    *cpu_mode = CpuMode::Machine;
    csr.set_mepc(epc);
}

/// The highest-priority interrupt that is pending, enabled and not masked
/// by the interrupt-enable bits of the current mode.
pub fn select_interrupt(csr: &Csr, cpu_mode: CpuMode) -> (r: Option<InterruptType>)
    ensures
        r == next_interrupt(csr@, cpu_mode),
{
    let mip = csr.mip();
    let mie = csr.mie();
    let mideleg = csr.mideleg();
    let mstatus = csr.mstatus();
    let mut i: usize = 0;
    while i < 6
        invariant
            i <= 6,
            next_interrupt(csr@, cpu_mode) == taken_from(csr@, cpu_mode, i as nat),
            mip == MInterruptPending::spec_from_bits(csr@.mip),
            mie == MInterruptEnable::spec_from_bits(csr@.mie),
            mideleg == MInterruptDelegation::spec_from_bits(csr@.mideleg),
            mstatus == MStatus::spec_from_bits(csr@.mstatus),
        decreases 6 - i,
    {
        let int_type = interrupt_at(i);
        let pending = pending_and_enabled(int_type, &mip, &mie);
        if pending {
            let delegated = delegated_to_supervisor(int_type, &mideleg);
            let global_enabled = match (cpu_mode, delegated) {
                (CpuMode::User, true) => true,
                (CpuMode::Supervisor, true) => mstatus.sie(),
                (CpuMode::Machine, true) => false,
                (CpuMode::Machine, false) => mstatus.mie(),
                (_, false) => true,
            };
            if global_enabled {
                return Some(int_type);
            }
        }
        i = i + 1;
    }
    None
}

/// Whether the handler of the interrupt that would be taken now has a
/// usable trap vector (Direct or Vectored mode).
pub fn interrupt_entry_ok(csr: &Csr, cpu_mode: CpuMode) -> (r: bool)
    ensures
        r == (next_interrupt(csr@, cpu_mode) matches Some(t) ==> !interrupt_aborts(t, csr@)),
{
    match select_interrupt(csr, cpu_mode) {
        Some(t) => {
            let mideleg = csr.mideleg();
            let mode = if delegated_to_supervisor(t, &mideleg) { csr.stvec().mode() } else { csr.mtvec().mode() };
            mode == 0 || mode == 1
        },
        None => true,
    }
}

/// Takes the highest-priority pending, enabled interrupt, if any: enters
/// its handler (in S-mode if delegated, else M-mode) and returns true.
pub fn process_interrupt(csr: &mut Csr, cpu_mode: &mut CpuMode, pc: &mut u64) -> (r: bool)
    requires
        next_interrupt(old(csr)@, *old(cpu_mode)) matches Some(t) ==> !interrupt_aborts(t, old(csr)@),
    ensures
        r == next_interrupt(old(csr)@, *old(cpu_mode)) is Some,
        match next_interrupt(old(csr)@, *old(cpu_mode)) {
            Some(t) => take_interrupt(t, old(csr)@, *old(cpu_mode), *old(pc)) == (TrapTarget {
                csr: final(csr)@,
                mode: *final(cpu_mode),
                pc: *final(pc),
            }),
            None => final(csr)@ == old(csr)@ && *final(cpu_mode) == *old(cpu_mode) && *final(pc) == *old(pc),
        },
{
    let int_type = match select_interrupt(csr, *cpu_mode) {
        Some(t) => t,
        None => return false,
    };
    let mideleg = csr.mideleg();
    let delegated = delegated_to_supervisor(int_type, &mideleg);
    if delegated {
        interrupt_to_supervisor(csr, cpu_mode, pc, int_type);
    } else {
        interrupt_to_machine(csr, cpu_mode, pc, int_type);
    }
    true
}

fn interrupt_to_supervisor(csr: &mut Csr, cpu_mode: &mut CpuMode, pc: &mut u64, int_type: InterruptType)
    requires
        interrupt_delegated(int_type, old(csr)@),
        !interrupt_aborts(int_type, old(csr)@),
    ensures
        take_interrupt(int_type, old(csr)@, *old(cpu_mode), *old(pc)) == (TrapTarget {
            csr: final(csr)@,
            mode: *final(cpu_mode),
            pc: *final(pc),
        }),
{
    let epc = *pc & !1u64;
    trap_to_supervisor(csr, cpu_mode, epc);
    let stvec = csr.stvec();
    let stvec_mode = match TrapHandlerMode::try_from_bits(stvec.mode()) {
        Some(m) => m,
        None => return,
    };
    *pc = match stvec_mode {
        TrapHandlerMode::Direct => stvec.base() << 2,
        TrapHandlerMode::Vectored => (stvec.base() << 2).wrapping_add(int_type.value() * 4),
    };
    let mut scause = STrapCause::from_bits(0);
    scause.set_exception_code(int_type.value());
    scause.set_interrupt(true);
    csr.set_scause(scause);
    csr.set_stval(0);
}

fn interrupt_to_machine(csr: &mut Csr, cpu_mode: &mut CpuMode, pc: &mut u64, int_type: InterruptType)
    requires
        !interrupt_delegated(int_type, old(csr)@),
        !interrupt_aborts(int_type, old(csr)@),
    ensures
        take_interrupt(int_type, old(csr)@, *old(cpu_mode), *old(pc)) == (TrapTarget {
            csr: final(csr)@,
            mode: *final(cpu_mode),
            pc: *final(pc),
        }),
{
    let epc = *pc & !1u64;
    trap_to_machine(csr, cpu_mode, epc);
    let mtvec = csr.mtvec();
    let mtvec_mode = match TrapHandlerMode::try_from_bits(mtvec.mode()) {
        Some(m) => m,
        None => return,
    };
    *pc = match mtvec_mode {
        TrapHandlerMode::Direct => mtvec.base() << 2,
        TrapHandlerMode::Vectored => (mtvec.base() << 2).wrapping_add(int_type.value() * 4),
    };
    let mut mcause = MTrapCause::from_bits(0);
    mcause.set_exception_code(int_type.value());
    mcause.set_interrupt(true);
    csr.set_mcause(mcause);
    csr.set_mtval(0);
}

/// Enters the handler of exception `exception`, whose trap value is
/// `exception_data`, raised in `cpu_mode` at `pc`.
pub fn process_exception(
    exception: Exception,
    exception_data: u64,
    csr: &mut Csr,
    cpu_mode: &mut CpuMode,
    pc: &mut u64,
)
    ensures
        take_exception(exception, exception_data, old(csr)@, *old(cpu_mode), *old(pc)) == (TrapTarget {
            csr: final(csr)@,
            mode: *final(cpu_mode),
            pc: *final(pc),
        }),
{
    let medeleg = csr.medeleg();
    let delegate = match exception {
        Exception::IllegalInstruction => medeleg.illegal_instruction(),
        Exception::Breakpoint => medeleg.breakpoint(),
        Exception::EnvCallSMode => medeleg.env_call_s_mode(),
        Exception::InstructionPageFault => medeleg.instr_page_fault(),
        Exception::InstructionAccessFault => medeleg.instr_access_fault(),
        Exception::LoadAddressMisaligned => medeleg.load_addr_misaligned(),
        Exception::StoreAddressMisaligned => medeleg.store_addr_misaligned(),
        Exception::StorePageFault => medeleg.store_page_fault(),
        Exception::LoadPageFault => medeleg.load_page_fault(),
        Exception::EnvCallUMode => medeleg.env_call_u_mode(),
        _ => false,
    };
    let epc = *pc;
    if *cpu_mode != CpuMode::Machine && delegate {
        trap_to_supervisor(csr, cpu_mode, epc);
        *pc = csr.stvec().base() << 2;
        let mut scause = STrapCause::from_bits(0);
        scause.set_exception_code(exception.code());
        csr.set_scause(scause);
        csr.set_stval(exception_data);
    } else {
        trap_to_machine(csr, cpu_mode, epc);
        *pc = csr.mtvec().base() << 2;
        let mut mcause = MTrapCause::from_bits(0);
        mcause.set_exception_code(exception.code());
        csr.set_mcause(mcause);
        csr.set_mtval(exception_data);
    }
}

} // verus!
