use libemu4::bus::BusTxSize;
use libemu4::decode::{Instr, InstrFlow, InstrOp, OpWidth};
use libemu4::exec::exec;
use libemu4::trap::{process_exception, process_interrupt, Exception};
use libemu4::{Cpu, CpuMode};

fn ret(op: InstrOp) -> Instr {
    Instr { raw: 0x73, op, flow: InstrFlow::NoFlow, op_width: OpWidth::NoWidth, instr_size: 4 }
}

#[test]
fn exception_codes() {
    assert_eq!(Exception::InstructionAddressMisaligned.code(), 0);
    assert_eq!(Exception::InstructionAccessFault.code(), 1);
    assert_eq!(Exception::IllegalInstruction.code(), 2);
    assert_eq!(Exception::Breakpoint.code(), 3);
    assert_eq!(Exception::EnvCallUMode.code(), 8);
    assert_eq!(Exception::EnvCallSMode.code(), 9);
    assert_eq!(Exception::InstructionPageFault.code(), 12);
    assert_eq!(Exception::LoadPageFault.code(), 13);
    assert_eq!(Exception::StorePageFault.code(), 15);
}

#[test]
fn exception_enters_machine_handler_and_mret_returns() {
    let mut cpu = Cpu::new();
    assert_eq!(cpu.csr.store(0x305, 0x8000_0400, CpuMode::Machine), Some(()));
    assert_eq!(cpu.csr.store(0x300, 0x8, CpuMode::Machine), Some(()));
    cpu.mode = CpuMode::User;
    cpu.pc = 0x8000_1000;
    process_exception(Exception::IllegalInstruction, 0xBAD, &mut cpu.csr, &mut cpu.mode, &mut cpu.pc);
    assert_eq!(cpu.mode, CpuMode::Machine);
    assert_eq!(cpu.pc, 0x8000_0400);
    assert_eq!(cpu.csr.mepc(), 0x8000_1000);
    assert_eq!(cpu.csr.mcause(), 2);
    assert_eq!(cpu.csr.mtval(), 0xBAD);
    assert!(!cpu.csr.mstatus().mie());
    assert!(cpu.csr.mstatus().mpie());
    assert_eq!(cpu.csr.mstatus().mpp(), 0);

    exec(&mut cpu, &ret(InstrOp::MReturnFromTrap), 0x3020_0073);
    assert_eq!(cpu.mode, CpuMode::User);
    assert_eq!(cpu.pc.wrapping_add(4), 0x8000_1000);
    assert!(cpu.csr.mstatus().mie());
}

#[test]
fn delegated_exception_enters_supervisor_and_sret_returns() {
    let mut cpu = Cpu::new();
    assert_eq!(cpu.csr.store(0x302, 1 << 2, CpuMode::Machine), Some(()));
    assert_eq!(cpu.csr.store(0x105, 0x8000_0800, CpuMode::Machine), Some(()));
    assert_eq!(cpu.csr.store(0x100, 0x2, CpuMode::Machine), Some(()));
    cpu.mode = CpuMode::Supervisor;
    cpu.pc = 0x8000_2000;
    process_exception(Exception::IllegalInstruction, 7, &mut cpu.csr, &mut cpu.mode, &mut cpu.pc);
    assert_eq!(cpu.mode, CpuMode::Supervisor);
    assert_eq!(cpu.pc, 0x8000_0800);
    assert_eq!(cpu.csr.sepc(), 0x8000_2000);
    assert_eq!(cpu.csr.scause(), 2);
    assert_eq!(cpu.csr.stval(), 7);
    assert!(cpu.csr.sstatus().spp());
    assert!(cpu.csr.sstatus().spie());
    assert!(!cpu.csr.sstatus().sie());

    exec(&mut cpu, &ret(InstrOp::SReturnFromTrap), 0x1020_0073);
    assert_eq!(cpu.mode, CpuMode::Supervisor);
    assert_eq!(cpu.pc.wrapping_add(4), 0x8000_2000);
    assert!(cpu.csr.sstatus().sie());
}

#[test]
fn exceptions_in_machine_mode_are_never_delegated() {
    let mut cpu = Cpu::new();
    assert_eq!(cpu.csr.store(0x302, 1 << 2, CpuMode::Machine), Some(()));
    assert_eq!(cpu.csr.store(0x305, 0x8000_0401, CpuMode::Machine), Some(()));
    cpu.pc = 0x8000_3000;
    process_exception(Exception::IllegalInstruction, 0, &mut cpu.csr, &mut cpu.mode, &mut cpu.pc);
    assert_eq!(cpu.mode, CpuMode::Machine);
    // vectored mode still sends exceptions to the base
    assert_eq!(cpu.pc, 0x8000_0400);
    assert_eq!(cpu.csr.mstatus().mpp(), 0b11);
}

#[test]
fn timer_interrupt_is_taken_in_machine_mode() {
    let mut cpu = Cpu::new();
    assert_eq!(cpu.csr.store(0x305, 0x8000_0001, CpuMode::Machine), Some(()));
    assert_eq!(cpu.csr.store(0x304, 1 << 7, CpuMode::Machine), Some(()));
    assert_eq!(cpu.csr.store(0x300, 0x8, CpuMode::Machine), Some(()));
    cpu.bus.clint.store(0x200_4000, 100, BusTxSize::Bits64);
    cpu.bus.tick(&mut cpu.csr, 150, None);
    cpu.bus.poll_interrupts(&mut cpu.csr);
    assert!(cpu.csr.mip().mtip());
    cpu.pc = 0x8000_0102;
    assert!(process_interrupt(&mut cpu.csr, &mut cpu.mode, &mut cpu.pc));
    assert_eq!(cpu.csr.mcause(), (1 << 63) | 7);
    assert_eq!(cpu.csr.mepc(), 0x8000_0102);
    // vectored: base + 4 * cause
    assert_eq!(cpu.pc, 0x8000_0000 + 4 * 7);
    assert!(!cpu.csr.mstatus().mie());
    // with MIE now clear, nothing more is taken
    assert!(!process_interrupt(&mut cpu.csr, &mut cpu.mode, &mut cpu.pc));
}

#[test]
fn masked_interrupt_is_not_taken() {
    let mut cpu = Cpu::new();
    assert_eq!(cpu.csr.store(0x304, 1 << 7, CpuMode::Machine), Some(()));
    cpu.bus.clint.store(0x200_4000, 100, BusTxSize::Bits64);
    cpu.bus.tick(&mut cpu.csr, 150, None);
    cpu.bus.poll_interrupts(&mut cpu.csr);
    assert!(!process_interrupt(&mut cpu.csr, &mut cpu.mode, &mut cpu.pc));
    assert_eq!(cpu.pc, 0);
    // from a lower mode the machine interrupt is taken regardless of MIE
    cpu.mode = CpuMode::User;
    assert!(process_interrupt(&mut cpu.csr, &mut cpu.mode, &mut cpu.pc));
    assert_eq!(cpu.mode, CpuMode::Machine);
}

#[test]
fn machine_ecall_enters_the_machine_handler() {
    let mut csr = libemu4::csr::Csr::new();
    assert_eq!(csr.store(0x305, 0x8000_0200, CpuMode::Machine), Some(()));
    let mut mode = CpuMode::Machine;
    let mut pc = 0x8000_0040u64;
    process_exception(Exception::EnvCallMMode, 0, &mut csr, &mut mode, &mut pc);
    assert_eq!(mode, CpuMode::Machine);
    assert_eq!(pc, 0x8000_0200);
    assert_eq!(csr.mepc(), 0x8000_0040);
    assert_eq!(csr.mcause(), 11);
    assert_eq!(csr.mtval(), 0);
    assert!(!csr.mstatus().mie());
    assert_eq!(csr.mstatus().mpp(), 3);
}

#[test]
fn access_faults_and_misaligned_fetch_trap_to_machine_mode() {
    for (e, code) in [
        (Exception::InstructionAddressMisaligned, 0u64),
        (Exception::LoadAccessFault, 5),
        (Exception::StoreAccessFault, 7),
    ] {
        let mut csr = libemu4::csr::Csr::new();
        assert_eq!(csr.store(0x302, u64::MAX, CpuMode::Machine), Some(()));
        assert_eq!(csr.store(0x305, 0x8000_0300, CpuMode::Machine), Some(()));
        let mut mode = CpuMode::User;
        let mut pc = 0x1000u64;
        process_exception(e, 0x44, &mut csr, &mut mode, &mut pc);
        assert_eq!(mode, CpuMode::Machine);
        assert_eq!(pc, 0x8000_0300);
        assert_eq!(csr.mcause(), code);
        assert_eq!(csr.mtval(), 0x44);
        assert_eq!(csr.mepc(), 0x1000);
        assert_eq!(csr.mstatus().mpp(), 0);
    }
}
