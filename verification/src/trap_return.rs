//! Trap entry and the return instructions: which interrupt is taken, where
//! a trap goes and what it records, and what `mret` and `sret` restore of
//! the state that an exception interrupted.
use vstd::prelude::*;

use crate::csr::{bit_of, field_of, merge_sstatus, normalize_mstatus, with_bit, with_field, MStatus, SStatus};
use crate::decode::{Instr, InstrOp};
use crate::exec::exec_spec;
use crate::trap::{
    exception_cause, exception_delegated, handler_address, interrupt_aborts, interrupt_cause,
    interrupt_delegated, interrupt_taken, mtrap_mstatus, next_interrupt, strap_sstatus, take_exception,
    take_interrupt, taken_from, Exception, InterruptType,
};
use crate::csr::{CsrState, MTrapHandlerVector, STrapHandlerVector};
use crate::{wrap64, CpuMode, CpuState};

verus! {

broadcast use crate::csr::fields::group_from_bits;

/// Returning to a pc less the instruction size, then advancing by it, lands
/// on the pc.
proof fn lemma_return_pc(pc: u64, size: u8)
    requires
        size == 2 || size == 4,
    ensures
        wrap64(wrap64(pc - size) + size) == pc,
{
    if pc >= size {
        assert(wrap64(pc - size) == pc - size);
    } else {
        assert(wrap64(pc - size) == pc - size + 0x1_0000_0000_0000_0000int);
    }
}

/// The `mstatus` bits that an M-mode trap entry and an `mret` touch: MPP
/// holds the trapped mode's encoding, and `mret` restores MIE.
proof fn lemma_mtrap_mret_bits(m: u64, b: u64)
    requires
        b < 4,
    ensures
        field_of((with_bit(with_bit(with_field(m & MStatus::VALID_MASK, 11, 2, b), 7,
            bit_of(with_field(m & MStatus::VALID_MASK, 11, 2, b), 3)), 3, false)) & MStatus::VALID_MASK, 11, 2) == b,
        ({
            let m1 = with_bit(with_bit(with_field(m & MStatus::VALID_MASK, 11, 2, b), 7,
                bit_of(with_field(m & MStatus::VALID_MASK, 11, 2, b), 3)), 3, false) & MStatus::VALID_MASK;
            &&& bit_of(with_field(with_bit(with_bit(m1, 3, bit_of(m1, 7)), 7, true), 11, 2, 0), 3) == bit_of(m, 3)
            &&& bit_of(with_field(with_bit(with_bit(with_bit(m1, 17, false), 3,
                bit_of(with_bit(m1, 17, false), 7)), 7, true), 11, 2, 0), 3) == bit_of(m, 3)
        }),
{
    assert(b < 4 ==> field_of((with_bit(with_bit(with_field(m & MStatus::VALID_MASK, 11, 2, b), 7,
        bit_of(with_field(m & MStatus::VALID_MASK, 11, 2, b), 3)), 3, false)) & MStatus::VALID_MASK, 11, 2) == b)
        by (bit_vector);
    let m1 = with_bit(with_bit(with_field(m & MStatus::VALID_MASK, 11, 2, b), 7,
        bit_of(with_field(m & MStatus::VALID_MASK, 11, 2, b), 3)), 3, false) & MStatus::VALID_MASK;
    assert(m1 == with_bit(with_bit(with_field(m & MStatus::VALID_MASK, 11, 2, b), 7,
        bit_of(with_field(m & MStatus::VALID_MASK, 11, 2, b), 3)), 3, false) & MStatus::VALID_MASK
        ==> bit_of(with_field(with_bit(with_bit(m1, 3, bit_of(m1, 7)), 7, true), 11, 2, 0), 3) == bit_of(m, 3)
        && bit_of(with_field(with_bit(with_bit(with_bit(m1, 17, false), 3,
            bit_of(with_bit(m1, 17, false), 7)), 7, true), 11, 2, 0), 3) == bit_of(m, 3)) by (bit_vector);
}

/// Law: `mret` undoes the entry into a machine-mode exception handler. Run
/// in the state the trap entry left, it returns to the mode in which the
/// exception was raised, at the faulting instruction once the main loop
/// advances the pc, with the machine interrupt enable of that moment.
pub proof fn lemma_mret_returns_from_trap(e: Exception, data: u64, s: CpuState, i: Instr, raw: u32)
    requires
        !(s.mode != CpuMode::Machine && exception_delegated(e, s.csr)),
        i.op == InstrOp::MReturnFromTrap,
        i.instr_size == 2 || i.instr_size == 4,
    ensures
        ({
            let t = take_exception(e, data, s.csr, s.mode, s.pc);
            let r = exec_spec(CpuState { mode: t.mode, pc: t.pc, csr: t.csr, ..s }, i, raw);
            &&& r.mode == s.mode
            &&& wrap64(r.pc + i.instr_size) == s.pc
            &&& bit_of(r.csr.mstatus, 3) == bit_of(s.csr.mstatus, 3)
            &&& r.exception == s.exception
        }),
{
    let m = s.csr.mstatus;
    let b = s.mode.to_bits();
    lemma_mtrap_mret_bits(m, b);
    lemma_return_pc(s.pc, i.instr_size);
    let t = take_exception(e, data, s.csr, s.mode, s.pc);
    assert(t.csr.mstatus == mtrap_mstatus(m & MStatus::VALID_MASK, s.mode));
    assert(t.csr.mepc == s.pc);
    assert(MStatus::spec_from_bits(t.csr.mstatus).mpp() == b);
    assert(CpuMode::try_from_bits(b) == Some(s.mode));
}

/// The `mstatus` bits that an S-mode trap entry and an `sret` touch: SPP
/// records whether the trap came from S-mode, TSR is untouched, and `sret`
/// restores SIE.
proof fn lemma_strap_sret_bits(m: u64, from_s: bool)
    ensures
        ({
            let m1 = (m & !SStatus::VALID_MASK) | (with_bit(with_bit(with_bit(m & SStatus::VALID_MASK, 8, from_s), 5,
                bit_of(with_bit(m & SStatus::VALID_MASK, 8, from_s), 1)), 1, false) & SStatus::VALID_MASK);
            let m0 = m1 & MStatus::VALID_MASK;
            &&& bit_of(m0, 8) == from_s
            &&& bit_of(m0, 22) == bit_of(m, 22)
            &&& bit_of((m0 & !SStatus::VALID_MASK) | (with_bit(with_bit(with_bit(m0 & SStatus::VALID_MASK, 1,
                bit_of(m0 & SStatus::VALID_MASK, 5)), 5, true), 8, false) & SStatus::VALID_MASK), 1) == bit_of(m, 1)
            &&& bit_of((with_bit(m0, 17, false) & !SStatus::VALID_MASK) | (with_bit(with_bit(with_bit(
                with_bit(m0, 17, false) & SStatus::VALID_MASK, 1, bit_of(with_bit(m0, 17, false) & SStatus::VALID_MASK, 5)),
                5, true), 8, false) & SStatus::VALID_MASK), 1) == bit_of(m, 1)
        }),
{
    let m1 = (m & !SStatus::VALID_MASK) | (with_bit(with_bit(with_bit(m & SStatus::VALID_MASK, 8, from_s), 5,
        bit_of(with_bit(m & SStatus::VALID_MASK, 8, from_s), 1)), 1, false) & SStatus::VALID_MASK);
    let m0 = m1 & MStatus::VALID_MASK;
    assert(m0 == ((m & !SStatus::VALID_MASK) | (with_bit(with_bit(with_bit(m & SStatus::VALID_MASK, 8, from_s), 5,
        bit_of(with_bit(m & SStatus::VALID_MASK, 8, from_s), 1)), 1, false) & SStatus::VALID_MASK)) & MStatus::VALID_MASK
        ==> bit_of(m0, 8) == from_s && bit_of(m0, 22) == bit_of(m, 22)
        && bit_of((m0 & !SStatus::VALID_MASK) | (with_bit(with_bit(with_bit(m0 & SStatus::VALID_MASK, 1,
            bit_of(m0 & SStatus::VALID_MASK, 5)), 5, true), 8, false) & SStatus::VALID_MASK), 1) == bit_of(m, 1)
        && bit_of((with_bit(m0, 17, false) & !SStatus::VALID_MASK) | (with_bit(with_bit(with_bit(
            with_bit(m0, 17, false) & SStatus::VALID_MASK, 1, bit_of(with_bit(m0, 17, false) & SStatus::VALID_MASK, 5)),
            5, true), 8, false) & SStatus::VALID_MASK), 1) == bit_of(m, 1)) by (bit_vector);
}

/// Law: `sret` undoes the entry into a supervisor-mode exception handler.
/// Run in the state the trap entry left (with trapping of `sret` off), it
/// returns to the mode in which the exception was raised, at the faulting
/// instruction once the main loop advances the pc, with the supervisor
/// interrupt enable of that moment.
pub proof fn lemma_sret_returns_from_trap(e: Exception, data: u64, s: CpuState, i: Instr, raw: u32)
    requires
        s.mode != CpuMode::Machine,
        exception_delegated(e, s.csr),
        !bit_of(s.csr.mstatus, 22),
        i.op == InstrOp::SReturnFromTrap,
        i.instr_size == 2 || i.instr_size == 4,
    ensures
        ({
            let t = take_exception(e, data, s.csr, s.mode, s.pc);
            let r = exec_spec(CpuState { mode: t.mode, pc: t.pc, csr: t.csr, ..s }, i, raw);
            &&& r.mode == s.mode
            &&& wrap64(r.pc + i.instr_size) == s.pc
            &&& bit_of(r.csr.mstatus, 1) == bit_of(s.csr.mstatus, 1)
            &&& r.exception == s.exception
        }),
{
    let m = s.csr.mstatus;
    let from_s = s.mode == CpuMode::Supervisor;
    lemma_strap_sret_bits(m, from_s);
    lemma_return_pc(s.pc, i.instr_size);
    let t = take_exception(e, data, s.csr, s.mode, s.pc);
    assert(t.csr.mstatus == merge_sstatus(m, strap_sstatus(m & SStatus::VALID_MASK, from_s)));
    assert(t.csr.sepc == s.pc);
    assert(t.mode == CpuMode::Supervisor);
}


/// The normal form of `mstatus` survives entry into an M-mode handler from
/// the mode with encoding `b`.
pub proof fn lemma_mtrap_keeps_normal(m: u64, b: u64)
    requires
        normalize_mstatus(m) == m,
        b < 4,
    ensures
        ({
            let t = with_bit(with_bit(with_field(m & MStatus::VALID_MASK, 11, 2, b), 7,
                bit_of(with_field(m & MStatus::VALID_MASK, 11, 2, b), 3)), 3, false);
            normalize_mstatus(t) == t
        }),
{
    assert(normalize_mstatus(m) == m && b < 4 ==> ({
        let t = with_bit(with_bit(with_field(m & MStatus::VALID_MASK, 11, 2, b), 7,
            bit_of(with_field(m & MStatus::VALID_MASK, 11, 2, b), 3)), 3, false);
        normalize_mstatus(t) == t
    })) by (bit_vector);
}

/// The normal form of `mstatus` survives entry into an S-mode handler.
pub proof fn lemma_strap_keeps_normal(m: u64, from_s: bool)
    requires
        normalize_mstatus(m) == m,
    ensures
        ({
            let s1 = with_bit(m & SStatus::VALID_MASK, 8, from_s);
            let t = merge_sstatus(m, with_bit(with_bit(s1, 5, bit_of(s1, 1)), 1, false));
            normalize_mstatus(t) == t
        }),
{
    assert(normalize_mstatus(m) == m ==> ({
        let s1 = with_bit(m & SStatus::VALID_MASK, 8, from_s);
        let t = merge_sstatus(m, with_bit(with_bit(s1, 5, bit_of(s1, 1)), 1, false));
        normalize_mstatus(t) == t
    })) by (bit_vector);
}

/// The normal form of `mstatus` survives `mret` (which clears MPRV when
/// `leave_machine`).
pub proof fn lemma_mret_keeps_normal(m: u64, leave_machine: bool)
    requires
        normalize_mstatus(m) == m,
    ensures
        ({
            let m0 = m & MStatus::VALID_MASK;
            let m1 = if leave_machine { with_bit(m0, 17, false) } else { m0 };
            let t = with_field(with_bit(with_bit(m1, 3, bit_of(m1, 7)), 7, true), 11, 2, 0);
            normalize_mstatus(t) == t
        }),
{
    assert(normalize_mstatus(m) == m ==> ({
        let m0 = m & MStatus::VALID_MASK;
        let m1 = if leave_machine { with_bit(m0, 17, false) } else { m0 };
        let t = with_field(with_bit(with_bit(m1, 3, bit_of(m1, 7)), 7, true), 11, 2, 0);
        normalize_mstatus(t) == t
    })) by (bit_vector);
}

/// The normal form of `mstatus` survives `sret` (which clears MPRV when
/// `to_user`).
pub proof fn lemma_sret_keeps_normal(m: u64, to_user: bool)
    requires
        normalize_mstatus(m) == m,
    ensures
        ({
            let m0 = m & MStatus::VALID_MASK;
            let m1 = if to_user { with_bit(m0, 17, false) } else { m0 };
            let s = m1 & SStatus::VALID_MASK;
            let s1 = with_bit(s, 1, bit_of(s, 5));
            let t = merge_sstatus(m1, with_bit(with_bit(s1, 5, true), 8, false));
            normalize_mstatus(t) == t
        }),
{
    assert(normalize_mstatus(m) == m ==> ({
        let m0 = m & MStatus::VALID_MASK;
        let m1 = if to_user { with_bit(m0, 17, false) } else { m0 };
        let s = m1 & SStatus::VALID_MASK;
        let s1 = with_bit(s, 1, bit_of(s, 5));
        let t = merge_sstatus(m1, with_bit(with_bit(s1, 5, true), 8, false));
        normalize_mstatus(t) == t
    })) by (bit_vector);
}


/// The position of an interrupt source in the priority order: machine
/// external, software, timer, then supervisor external, software, timer.
pub open spec fn priority(t: InterruptType) -> int {
    match t {
        InterruptType::MachineExternal => 0,
        InterruptType::MachineSoftware => 1,
        InterruptType::MachineTimer => 2,
        InterruptType::SupervisorExternal => 3,
        InterruptType::SupervisorSoftware => 4,
        InterruptType::SupervisorTimer => 5,
    }
}

/// Law: the interrupt taken is the first source, in priority order, that is
/// pending, enabled in `mie` and not masked for the mode (by its level's IE
/// bit at the same level, never from a higher level); none is taken when no
/// source qualifies.
pub proof fn lemma_interrupt_priority(csr: CsrState, mode: CpuMode)
    ensures
        next_interrupt(csr, mode) matches Some(t) ==> {
            &&& interrupt_taken(t, csr, mode)
            &&& forall|j: int| 0 <= j < priority(t) ==> !interrupt_taken(#[trigger] InterruptType::nth(j), csr, mode)
        },
        next_interrupt(csr, mode) is None ==> forall|j: int| 0 <= j < 6 ==> !interrupt_taken(#[trigger] InterruptType::nth(j), csr, mode),
{
    reveal_with_fuel(taken_from, 7);
}

/// The cause values: an interrupt sets the top bit above its code, an
/// exception reports its code alone.
pub(crate) proof fn lemma_cause_values(code: u64)
    requires
        code < 16,
    ensures
        interrupt_cause(code) == 0x8000_0000_0000_0000u64 | code,
        exception_cause(code) == code,
{
    assert(code < 16 ==> with_bit(with_field(0u64 & 0xffffffffffffffffu64, 0, 63, code), 63, true)
        == 0x8000_0000_0000_0000u64 | code) by (bit_vector);
    assert(code < 16 ==> with_field(0u64 & 0xffffffffffffffffu64, 0, 63, code) == code) by (bit_vector);
}

/// The `mstatus` bits of an S-mode trap entry: SPP records whether it came
/// from S-mode, SPIE the old SIE, SIE is cleared.
proof fn lemma_strap_bits(m: u64, from_s: bool)
    ensures
        ({
            let t = merge_sstatus(m, strap_sstatus(m & SStatus::VALID_MASK, from_s));
            &&& bit_of(t, 8) == from_s
            &&& bit_of(t, 5) == bit_of(m, 1)
            &&& !bit_of(t, 1)
        }),
{
    assert({
        let s1 = with_bit(m & SStatus::VALID_MASK, 8, from_s);
        let t = (m & !SStatus::VALID_MASK) | (with_bit(with_bit(s1, 5, bit_of(s1, 1)), 1, false) & SStatus::VALID_MASK);
        &&& bit_of(t, 8) == from_s
        &&& bit_of(t, 5) == bit_of(m, 1)
        &&& !bit_of(t, 1)
    }) by (bit_vector);
}

/// The `mstatus` bits of an M-mode trap entry from the mode with encoding
/// `b`: MPP holds `b`, MPIE the old MIE, MIE is cleared.
proof fn lemma_mtrap_bits(m: u64, b: u64)
    requires
        b < 4,
    ensures
        ({
            let m1 = with_field(m & MStatus::VALID_MASK, 11, 2, b);
            let t = with_bit(with_bit(m1, 7, bit_of(m1, 3)), 3, false);
            &&& field_of(t, 11, 2) == b
            &&& bit_of(t, 7) == bit_of(m, 3)
            &&& !bit_of(t, 3)
        }),
{
    assert(b < 4 ==> ({
        let m1 = with_field(m & MStatus::VALID_MASK, 11, 2, b);
        let t = with_bit(with_bit(m1, 7, bit_of(m1, 3)), 3, false);
        &&& field_of(t, 11, 2) == b
        &&& bit_of(t, 7) == bit_of(m, 3)
        &&& !bit_of(t, 3)
    })) by (bit_vector);
}

/// Law: taking interrupt `t` in `mode` at `pc` enters the supervisor
/// handler when `mideleg` delegates the source, else the machine handler:
/// the mode becomes that level, its `epc` records the pc (bit 0 cleared),
/// its cause is the top bit with the source's code, its trap value 0, the
/// previous-privilege bit records `mode`, the previous-enable bit the old
/// enable, the enable is cleared, and the pc is the handler (the base, plus
/// four times the code in vectored mode). The other level's trap registers
/// are unchanged.
pub proof fn lemma_interrupt_entry(t: InterruptType, csr: CsrState, mode: CpuMode, pc: u64)
    requires
        !interrupt_aborts(t, csr),
    ensures
        ({
            let r = take_interrupt(t, csr, mode, pc);
            let code = t.value();
            if interrupt_delegated(t, csr) {
                &&& r.mode == CpuMode::Supervisor
                &&& r.csr.sepc == pc & !1u64
                &&& r.csr.scause == 0x8000_0000_0000_0000u64 | code
                &&& r.csr.stval == 0
                &&& bit_of(r.csr.mstatus, 8) == (mode == CpuMode::Supervisor)
                &&& bit_of(r.csr.mstatus, 5) == bit_of(csr.mstatus, 1)
                &&& !bit_of(r.csr.mstatus, 1)
                &&& Some(r.pc) == handler_address(STrapHandlerVector::spec_from_bits(csr.stvec).bits(), Some(code))
                &&& r.csr.mepc == csr.mepc && r.csr.mcause == csr.mcause && r.csr.mtval == csr.mtval
            } else {
                &&& r.mode == CpuMode::Machine
                &&& r.csr.mepc == pc & !1u64
                &&& r.csr.mcause == 0x8000_0000_0000_0000u64 | code
                &&& r.csr.mtval == 0
                &&& field_of(r.csr.mstatus, 11, 2) == mode.to_bits()
                &&& bit_of(r.csr.mstatus, 7) == bit_of(csr.mstatus, 3)
                &&& !bit_of(r.csr.mstatus, 3)
                &&& Some(r.pc) == handler_address(MTrapHandlerVector::spec_from_bits(csr.mtvec).bits(), Some(code))
                &&& r.csr.sepc == csr.sepc && r.csr.scause == csr.scause && r.csr.stval == csr.stval
            }
        }),
{
    lemma_cause_values(t.value());
    lemma_strap_bits(csr.mstatus, mode == CpuMode::Supervisor);
    lemma_mtrap_bits(csr.mstatus, mode.to_bits());
}

/// Law: exception `e` with trap value `data`, raised in `mode` at `pc`,
/// enters the supervisor handler when raised below machine mode and
/// delegated by `medeleg`, else the machine handler: the mode becomes that
/// level, its `epc` records the pc, its cause is the exception's code, its
/// trap value `data`, the previous-privilege bit records `mode`, the
/// previous-enable bit the old enable, the enable is cleared, and the pc is
/// the trap vector's base. The other level's trap registers are unchanged.
pub proof fn lemma_exception_entry(e: Exception, data: u64, csr: CsrState, mode: CpuMode, pc: u64)
    ensures
        ({
            let r = take_exception(e, data, csr, mode, pc);
            if mode != CpuMode::Machine && exception_delegated(e, csr) {
                &&& r.mode == CpuMode::Supervisor
                &&& r.csr.sepc == pc
                &&& r.csr.scause == e.code()
                &&& r.csr.stval == data
                &&& bit_of(r.csr.mstatus, 8) == (mode == CpuMode::Supervisor)
                &&& bit_of(r.csr.mstatus, 5) == bit_of(csr.mstatus, 1)
                &&& !bit_of(r.csr.mstatus, 1)
                &&& r.pc == field_of(STrapHandlerVector::spec_from_bits(csr.stvec).bits(), 2, 62) << 2u64
                &&& r.csr.mepc == csr.mepc && r.csr.mcause == csr.mcause && r.csr.mtval == csr.mtval
            } else {
                &&& r.mode == CpuMode::Machine
                &&& r.csr.mepc == pc
                &&& r.csr.mcause == e.code()
                &&& r.csr.mtval == data
                &&& field_of(r.csr.mstatus, 11, 2) == mode.to_bits()
                &&& bit_of(r.csr.mstatus, 7) == bit_of(csr.mstatus, 3)
                &&& !bit_of(r.csr.mstatus, 3)
                &&& r.pc == field_of(MTrapHandlerVector::spec_from_bits(csr.mtvec).bits(), 2, 62) << 2u64
                &&& r.csr.sepc == csr.sepc && r.csr.scause == csr.scause && r.csr.stval == csr.stval
            }
        }),
{
    lemma_cause_values(e.code());
    lemma_strap_bits(csr.mstatus, mode == CpuMode::Supervisor);
    lemma_mtrap_bits(csr.mstatus, mode.to_bits());
}

} // verus!
