//! One cycle of the machine: the decisions of the main loop. The host side
//! (the clock, the terminal, stopping on power-off) runs the loop, calling
//! `start_cycle` and then `run_cycle`.
use vstd::prelude::*;

use crate::bus::{device_at, BusState, Device};
use crate::csr::CsrState;
use crate::decode::{decode, decode_spec, lemma_decode_wf, Instr, InstrOp};
use crate::devices::clint::{mip_with_timer, ClintState};
use crate::devices::plic::mip_with_external;
use crate::devices::syscon::{Syscon, REBOOT_VALUE};
use crate::exec::{
    exec, exec_atomic, exec_completes, exec_control, exec_csr, exec_defined, exec_load, exec_spec,
    exec_store, raise, translated,
};
use crate::mmu::{translation, AccessType, Translation};
use crate::trap::{
    interrupt_aborts, interrupt_entry_ok, next_interrupt,
    process_exception, process_interrupt, take_exception, take_interrupt, Exception,
};
use crate::{wrap64, Cpu, CpuState};

verus! {

/// Why the machine stops in the middle of a cycle.
#[derive(Debug, Clone, Copy, PartialEq, Eq, Structural)]
pub enum Abort {
    /// The handler of a pending interrupt has a trap vector in a reserved mode.
    ReservedTrapVector,
    /// The walk for the instruction fetch read a device that refuses it.
    FetchWalk,
    /// The instruction word runs past the end of RAM.
    FetchOutsideRam,
    /// The instruction touches memory that refuses it, holds a second store,
    /// or returns to a reserved privilege level.
    Execute,
    /// The guest asked the syscon for a reboot.
    Reboot,
    /// The held store reaches a device that refuses it.
    RefusedStore,
}

/// The state after the start of a cycle: the counters advance, the timer
/// takes the host time `delta`, the UART exchanges bytes with the host, and
/// the devices drive the interrupt-pending bits.
pub open spec fn started(s: CpuState, delta: u64, input: Option<u8>) -> CpuState {
    let (u, p) = s.bus.uart.tick_regs(input).sync_irq(s.bus.plic);
    let bus = BusState {
        last_load: None,
        pending_store: None,
        clint: ClintState { mtime: delta, ..s.bus.clint },
        uart: u,
        plic: p,
        ..s.bus
    };
    let csr = CsrState {
        cycle: wrap64(s.csr.cycle + 1),
        instret: wrap64(s.csr.instret + 1),
        time: delta,
        ..s.csr
    };
    CpuState {
        csr: CsrState { mip: mip_with_external(mip_with_timer(csr.mip, bus.clint), bus.plic), ..csr },
        bus,
        ..s
    }
}

/// Interrupt, fetch, decode and execute: the state afterwards and the
/// instruction executed, if one was.
pub open spec fn front(s: CpuState) -> Result<(CpuState, Option<Instr>), Abort> {
    match next_interrupt(s.csr, s.mode) {
        Some(t) => if interrupt_aborts(t, s.csr) {
            Err(Abort::ReservedTrapVector)
        } else {
            let tt = take_interrupt(t, s.csr, s.mode, s.pc);
            Ok((CpuState { csr: tt.csr, mode: tt.mode, pc: tt.pc, ..s }, None))
        },
        None => match translation(s.pc, AccessType::InstructionFetch, s.mode, s.csr, s.bus) {
            Translation::Abort => Err(Abort::FetchWalk),
            Translation::Fault(e) => Ok((raise(s, e, s.pc), None)),
            Translation::Translated(ppc) => {
                let t = translated(s, s.pc, AccessType::InstructionFetch);
                if !BusState::fetch_ok(ppc) {
                    Err(Abort::FetchOutsideRam)
                } else {
                    match t.bus.fetch_value(ppc) {
                        None => Ok((raise(t, Exception::InstructionAccessFault, s.pc), None)),
                        Some(raw) => if raw == 0 {
                            Ok((raise(t, Exception::IllegalInstruction, 0), None))
                        } else {
                            match decode_spec(raw) {
                                None => Ok((raise(t, Exception::IllegalInstruction, raw as u64), None)),
                                Some(i) => if !exec_defined(t, i) {
                                    Err(Abort::Execute)
                                } else {
                                    Ok((exec_spec(t, i, raw), Some(i)))
                                },
                            }
                        },
                    }
                }
            },
        },
    }
}

/// Why committing the held store aborts.
pub open spec fn commit_abort(bus: BusState) -> Abort {
    match bus.pending_store {
        Some((addr, val, size)) => if device_at(addr) is Syscon && addr == Syscon::spec_base_addr()
            && val % 0x1_0000_0000 == REBOOT_VALUE {
            Abort::Reboot
        } else {
            Abort::RefusedStore
        },
        None => Abort::RefusedStore,
    }
}

/// The rest of the cycle after `front`: a raised exception enters its
/// handler, else the pc moves past the instruction; x0 is cleared and the
/// held store is performed.
pub open spec fn back(s: CpuState, instr: Option<Instr>) -> Result<CpuState, Abort> {
    let s1 = after_trap(s, instr);
    let s2 = CpuState { regs: s1.regs.update(0, 0), ..s1 };
    if !s2.bus.commit_ok() {
        Err(commit_abort(s2.bus))
    } else {
        Ok(CpuState { bus: s2.bus.after_commit(), ..s2 })
    }
}

/// A raised exception enters its handler, else the pc moves past the
/// instruction.
pub open spec fn after_trap(s: CpuState, instr: Option<Instr>) -> CpuState {
    match s.exception {
        Some((e, d)) => {
            let tt = take_exception(e, d, s.csr, s.mode, s.pc);
            CpuState { csr: tt.csr, mode: tt.mode, pc: tt.pc, exception: None, ..s }
        },
        None => CpuState {
            pc: wrap64(s.pc + match instr { Some(i) => i.instr_size as int, None => 0 }),
            ..s
        },
    }
}

/// A cycle after its start: the state it ends in, or why it aborts.
pub open spec fn cycle(s: CpuState) -> Result<CpuState, Abort> {
    match front(s) {
        Err(a) => Err(a),
        Ok((s1, instr)) => back(s1, instr),
    }
}

/// Starts a cycle: retires the counters, gives the timer the host time
/// `delta` (in microseconds), exchanges bytes with the host terminal and
/// polls the devices for interrupts. Returns the byte the UART sends.
pub fn start_cycle(cpu: &mut Cpu, delta: u64, input: Option<u8>) -> (r: Option<u8>)
    requires
        old(cpu)@.wf(),
    ensures
        r == old(cpu)@.bus.uart.tick_output(),
        final(cpu)@ == started(old(cpu)@, delta, input),
        final(cpu)@.wf(),
{
    cpu.csr.tick();
    let out = cpu.bus.tick(&mut cpu.csr, delta, input);
    cpu.bus.poll_interrupts(&mut cpu.csr);
    out
}

fn fetch_and_execute(cpu: &mut Cpu) -> (r: Result<Option<Instr>, Abort>)
    requires
        old(cpu)@.wf(),
    ensures
        match front(old(cpu)@) {
            Ok((s, i)) => r == Ok::<Option<Instr>, Abort>(i) && final(cpu)@ == s,
            Err(a) => r == Err::<Option<Instr>, Abort>(a),
        },
        final(cpu)@.wf(),
{
    if !interrupt_entry_ok(&cpu.csr, cpu.mode) {
        return Err(Abort::ReservedTrapVector);
    }
    if process_interrupt(&mut cpu.csr, &mut cpu.mode, &mut cpu.pc) {
        return Ok(None);
    }
    if cpu.mmu.walk(cpu.pc, AccessType::InstructionFetch, cpu.mode, &cpu.csr, &cpu.bus).0 == Translation::Abort {
        return Err(Abort::FetchWalk);
    }
    proof {
        crate::mmu::lemma_translation_ad_update(cpu.pc, AccessType::InstructionFetch, cpu.mode, cpu.csr@, cpu.bus@);
    }
    let phys_pc = match cpu.mmu.translate(cpu.pc, AccessType::InstructionFetch, cpu.mode, &cpu.csr, &mut cpu.bus) {
        Ok(pc) => pc,
        Err(exc) => {
            cpu.exception = Some((exc, cpu.pc));
            return Ok(None);
        },
    };
    if !crate::bus::Bus::fetch_within_bounds(phys_pc) {
        return Err(Abort::FetchOutsideRam);
    }
    let instr_raw = match cpu.bus.fetch(phys_pc) {
        Some(raw) => raw,
        None => {
            cpu.exception = Some((Exception::InstructionAccessFault, cpu.pc));
            return Ok(None);
        },
    };
    if instr_raw == 0 {
        cpu.exception = Some((Exception::IllegalInstruction, instr_raw as u64));
        return Ok(None);
    }
    match decode(instr_raw) {
        Some(instr) => {
            if !exec_completes(cpu, &instr) {
                return Err(Abort::Execute);
            }
            exec(cpu, &instr, instr_raw);
            Ok(Some(instr))
        },
        None => {
            cpu.exception = Some((Exception::IllegalInstruction, instr_raw as u64));
            Ok(None)
        },
    }
}

/// Runs the rest of a cycle: takes an interrupt or fetches, decodes and
/// executes one instruction, enters the handler of a raised exception or
/// moves past the instruction, clears x0 and performs the held store.
/// Returns the instruction executed, if one was.
pub fn run_cycle(cpu: &mut Cpu) -> (r: Result<Option<Instr>, Abort>)
    requires
        old(cpu)@.wf(),
    ensures
        match cycle(old(cpu)@) {
            Ok(s) => r is Ok && final(cpu)@ == s,
            Err(a) => r == Err::<Option<Instr>, Abort>(a),
        },
        r matches Ok(i) ==> (front(old(cpu)@) matches Ok((_, j)) && i == j),
        final(cpu)@.wf(),
{
    let instr = match fetch_and_execute(cpu) {
        Ok(i) => i,
        Err(a) => return Err(a),
    };
    finish_instruction(cpu, instr);
    cpu.regs[0] = 0;
    if !cpu.bus.commit_accepted() {
        let reboot = match cpu.bus.pending_store {
            Some((addr, val, _)) => device_at(addr) == Device::Syscon && addr == 0x1110_0000 && val
                % 0x1_0000_0000 == 0x7777,
            None => false,
        };
        return Err(if reboot { Abort::Reboot } else { Abort::RefusedStore });
    }
    cpu.bus.commit_store();
    Ok(instr)
}

/// Enters the handler of a raised exception, or moves the pc past the
/// instruction.
fn finish_instruction(cpu: &mut Cpu, instr: Option<Instr>)
    requires
        old(cpu)@.wf(),
    ensures
        final(cpu)@ == after_trap(old(cpu)@, instr),
        final(cpu)@.wf(),
{
    match cpu.exception {
        Some((exception, exception_data)) => {
            cpu.exception = None;
            process_exception(exception, exception_data, &mut cpu.csr, &mut cpu.mode, &mut cpu.pc);
        },
        None => {
            let size = match instr {
                Some(i) => i.instr_size as u64,
                None => 0,
            };
            cpu.pc = cpu.pc.wrapping_add(size);
        },
    }
}


/// Execution keeps the register file at 32 entries.
proof fn lemma_exec_keeps_regs_len(s: CpuState, i: Instr, raw: u32)
    requires
        s.regs.len() == 32,
        i.wf(),
    ensures
        exec_spec(s, i, raw).regs.len() == 32,
{
    match i.op {
        InstrOp::LoadUpperImm | InstrOp::AddUpperImmAndPC | InstrOp::JumpAndLink
        | InstrOp::JumpAndLinkReg | InstrOp::BranchIfEquals | InstrOp::BranchIfNotEquals
        | InstrOp::BranchIfLesserThan | InstrOp::BranchIfGreaterThanOrEquals => {
            assert(exec_control(s, i).regs.len() == 32);
        },
        InstrOp::Load => {
            assert(exec_load(s, i).regs.len() == 32);
        },
        InstrOp::Store => {
            assert(exec_store(s, i).regs.len() == 32);
        },
        InstrOp::CsrReadAndWrite | InstrOp::CsrReadAndSetBits | InstrOp::CsrReadAndClearBits => {
            assert(exec_csr(s, i, raw).regs.len() == 32);
        },
        InstrOp::LoadReserved | InstrOp::StoreConditional | InstrOp::AtomicSwap
        | InstrOp::AtomicAdd | InstrOp::AtomicXor | InstrOp::AtomicAnd | InstrOp::AtomicOr
        | InstrOp::AtomicMin | InstrOp::AtomicMax => {
            assert(exec_atomic(s, i).regs.len() == 32);
        },
        _ => {},
    }
}

/// Law: register x0 reads as zero at the end of every cycle that completes,
/// whatever the instruction wrote to it.
pub proof fn lemma_cycle_clears_x0(s: CpuState)
    requires
        s.wf(),
    ensures
        cycle(s) matches Ok(t) ==> t.regs.len() == 32 && t.regs[0] == 0,
{
    if let Ok((s1, instr)) = front(s) {
        match next_interrupt(s.csr, s.mode) {
            Some(t) => {},
            None => {
                if let Translation::Translated(ppc) = translation(s.pc, AccessType::InstructionFetch, s.mode, s.csr, s.bus) {
                    let t = translated(s, s.pc, AccessType::InstructionFetch);
                    if let Some(raw) = t.bus.fetch_value(ppc) {
                        lemma_decode_wf(raw);
                        if let Some(i) = decode_spec(raw) {
                            lemma_exec_keeps_regs_len(t, i, raw);
                        }
                    }
                }
            },
        }
        assert(s1.regs.len() == 32);
    }
}
} // verus!
