//! What every cycle of the machine keeps: the register-file invariant of
//! the CSRs (`mstatus` in its normal form, `mcountinhibit` within its three
//! counter bits), through CSR instructions, trap entries and trap returns.
use vstd::prelude::*;

use crate::csr::{lemma_store_keeps_inv, CsrState, MStatus};
use crate::decode::{decode_spec, lemma_decode_wf, Instr, InstrOp};
use crate::exec::{
    csr_operands, translated, exec_atomic, exec_control, exec_csr, exec_load, exec_spec, exec_store,
};
use crate::machine::{after_trap, back, cycle, front, started};
use crate::mmu::{translation, AccessType, Translation};
use crate::trap::{
    enter_machine, enter_supervisor, next_interrupt, take_exception,
    take_interrupt,
};
use crate::trap_return::{
    lemma_mret_keeps_normal, lemma_mtrap_keeps_normal, lemma_sret_keeps_normal,
    lemma_strap_keeps_normal,
};
use crate::{CpuMode, CpuState};

verus! {

broadcast use crate::csr::fields::group_from_bits;

/// Entering a trap handler, at either level, keeps the invariant.
pub proof fn lemma_trap_entry_keeps_inv(csr: CsrState, mode: CpuMode, epc: u64, cause: u64, tval: u64, handler: u64)
    requires
        csr.inv(),
    ensures
        enter_machine(csr, mode, epc, cause, tval, handler).csr.inv(),
        enter_supervisor(csr, mode, epc, cause, tval, handler).csr.inv(),
{
    lemma_mtrap_keeps_normal(csr.mstatus, mode.to_bits());
    lemma_strap_keeps_normal(csr.mstatus, mode == CpuMode::Supervisor);
}

/// Executing an instruction keeps the invariant.
pub proof fn lemma_exec_keeps_inv(s: CpuState, i: Instr, raw: u32)
    requires
        s.csr.inv(),
        s.regs.len() == 32,
        i.wf(),
    ensures
        exec_spec(s, i, raw).csr.inv(),
{
    match i.op {
        InstrOp::CsrReadAndWrite | InstrOp::CsrReadAndSetBits | InstrOp::CsrReadAndClearBits => {
            let (op_1, rd, csr) = csr_operands(s, i.flow);
            lemma_store_keeps_inv(s.csr, csr, op_1, s.mode);
            if let Some(v) = s.csr.load(csr, s.mode) {
                lemma_store_keeps_inv(s.csr, csr, v | op_1, s.mode);
                lemma_store_keeps_inv(s.csr, csr, v & !op_1, s.mode);
            }
            assert(exec_csr(s, i, raw).csr.inv());
        },
        InstrOp::MReturnFromTrap => {
            if s.mode == CpuMode::Machine {
                let to = CpuMode::try_from_bits(MStatus::spec_from_bits(s.csr.mstatus).mpp()).unwrap();
                lemma_mret_keeps_normal(s.csr.mstatus, to != CpuMode::Machine);
            }
        },
        InstrOp::SReturnFromTrap => {
            let to = if MStatus::spec_from_bits(s.csr.mstatus).spp() { CpuMode::Supervisor } else { CpuMode::User };
            lemma_sret_keeps_normal(s.csr.mstatus, to == CpuMode::User);
        },
        InstrOp::LoadUpperImm | InstrOp::AddUpperImmAndPC | InstrOp::JumpAndLink
        | InstrOp::JumpAndLinkReg | InstrOp::BranchIfEquals | InstrOp::BranchIfNotEquals
        | InstrOp::BranchIfLesserThan | InstrOp::BranchIfGreaterThanOrEquals => {
            assert(exec_control(s, i).csr == s.csr);
        },
        InstrOp::Load => {
            assert(exec_load(s, i).csr == s.csr);
        },
        InstrOp::Store => {
            assert(exec_store(s, i).csr == s.csr);
        },
        InstrOp::LoadReserved | InstrOp::StoreConditional | InstrOp::AtomicSwap
        | InstrOp::AtomicAdd | InstrOp::AtomicXor | InstrOp::AtomicAnd | InstrOp::AtomicOr
        | InstrOp::AtomicMin | InstrOp::AtomicMax => {
            assert(exec_atomic(s, i).csr == s.csr);
        },
        _ => {},
    }
}

/// Law: the register-file invariant holds at power-on and every cycle keeps
/// it: the start of a cycle, and a cycle that completes, whatever it does
/// (an interrupt, an instruction, an exception).
pub proof fn lemma_cycle_keeps_csr_inv(s: CpuState, delta: u64, input: Option<u8>)
    requires
        s.wf(),
        s.csr.inv(),
    ensures
        crate::reset_cpu().csr.inv(),
        started(s, delta, input).csr.inv(),
        cycle(s) matches Ok(t) ==> t.csr.inv(),
{
    crate::csr::lemma_normalize_mstatus_idempotent(0);
    if let Ok((s1, instr)) = front(s) {
        match next_interrupt(s.csr, s.mode) {
            Some(t) => {
                let epc = s.pc & !1u64;
                let c = crate::trap::interrupt_cause(t.value());
                lemma_trap_entry_keeps_inv(s.csr, s.mode, epc, c, 0,
                    crate::trap::handler_address(crate::csr::STrapHandlerVector::spec_from_bits(s.csr.stvec).bits(), Some(t.value())).unwrap());
                lemma_trap_entry_keeps_inv(s.csr, s.mode, epc, c, 0,
                    crate::trap::handler_address(crate::csr::MTrapHandlerVector::spec_from_bits(s.csr.mtvec).bits(), Some(t.value())).unwrap());
                assert(take_interrupt(t, s.csr, s.mode, s.pc).csr.inv());
            },
            None => {
                if let Translation::Translated(ppc) = translation(s.pc, AccessType::InstructionFetch, s.mode, s.csr, s.bus) {
                    let t = translated(s, s.pc, AccessType::InstructionFetch);
                    if let Some(raw) = t.bus.fetch_value(ppc) {
                        lemma_decode_wf(raw);
                        if let Some(i) = decode_spec(raw) {
                            lemma_exec_keeps_inv(t, i, raw);
                        }
                    }
                }
            },
        }
        assert(s1.csr.inv());
        if let Some((e, d)) = s1.exception {
            let tt = take_exception(e, d, s1.csr, s1.mode, s1.pc);
            lemma_trap_entry_keeps_inv(s1.csr, s1.mode, s1.pc, crate::trap::exception_cause(e.code()), d,
                crate::csr::field_of(crate::csr::STrapHandlerVector::spec_from_bits(s1.csr.stvec).bits(), 2, 62) << 2u64);
            lemma_trap_entry_keeps_inv(s1.csr, s1.mode, s1.pc, crate::trap::exception_cause(e.code()), d,
                crate::csr::field_of(crate::csr::MTrapHandlerVector::spec_from_bits(s1.csr.mtvec).bits(), 2, 62) << 2u64);
            assert(tt.csr.inv());
        }
        assert(after_trap(s1, instr).csr.inv());
        assert(back(s1, instr) matches Ok(t) ==> t.csr.inv());
    }
}

} // verus!
