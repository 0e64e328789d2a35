use libemu4::bus::BusTxSize;
use libemu4::machine::{run_cycle, start_cycle, Abort};
use libemu4::decode::decode;
use libemu4::trap::Exception;
use libemu4::{Cpu, CpuMode};

fn with_program(words: &[u32]) -> Cpu {
    let mut cpu = Cpu::new();
    for (i, w) in words.iter().enumerate() {
        cpu.bus.ram.store(0x8000_0000 + 4 * i as u64, *w as u64, BusTxSize::Bits32);
    }
    cpu.pc = 0x8000_0000;
    cpu
}

fn step(cpu: &mut Cpu) -> Result<(), Abort> {
    start_cycle(cpu, 0, None);
    run_cycle(cpu).map(|_| ())
}

#[test]
fn runs_addi_and_advances() {
    // addi x1, x0, 5 ; addi x1, x1, -1 (c.addi x1, -1 as a 2-byte instruction follows)
    let mut cpu = with_program(&[0x0050_0093, 0x0000_10FD]);
    assert_eq!(step(&mut cpu), Ok(()));
    assert_eq!(cpu.regs[1], 5);
    assert_eq!(cpu.pc, 0x8000_0004);
    assert_eq!(cpu.csr.cycle(), 1);
    assert_eq!(step(&mut cpu), Ok(()));
    assert_eq!(cpu.regs[1], 4);
    assert_eq!(cpu.pc, 0x8000_0006);
}

#[test]
fn writes_to_x0_are_discarded() {
    // addi x0, x0, 5
    let mut cpu = with_program(&[0x0050_0013]);
    assert_eq!(step(&mut cpu), Ok(()));
    assert_eq!(cpu.regs[0], 0);
}

#[test]
fn fetch_outside_ram_is_an_access_fault() {
    let mut cpu = Cpu::new();
    cpu.pc = 0x10;
    assert_eq!(step(&mut cpu), Ok(()));
    assert_eq!(cpu.csr.mcause(), 1);
    assert_eq!(cpu.csr.mepc(), 0x10);
    assert_eq!(cpu.pc, 0);
    assert_eq!(cpu.exception, None);
}

#[test]
fn zero_word_is_illegal() {
    let mut cpu = with_program(&[0]);
    assert_eq!(cpu.csr.store(0x305, 0x8000_0100, CpuMode::Machine), Some(()));
    assert_eq!(step(&mut cpu), Ok(()));
    assert_eq!(cpu.csr.mcause(), 2);
    assert_eq!(cpu.csr.mtval(), 0);
    assert_eq!(cpu.csr.mepc(), 0x8000_0000);
    assert_eq!(cpu.pc, 0x8000_0100);
}

#[test]
fn machine_ecall_traps_to_machine_mode() {
    let mut cpu = with_program(&[0x0000_0073]);
    assert_eq!(cpu.csr.store(0x305, 0x8000_0200, CpuMode::Machine), Some(()));
    assert_eq!(cpu.csr.store(0x300, 0x8, CpuMode::Machine), Some(()));
    assert_eq!(step(&mut cpu), Ok(()));
    assert_eq!(cpu.mode, CpuMode::Machine);
    assert_eq!(cpu.pc, 0x8000_0200);
    assert_eq!(cpu.csr.mepc(), 0x8000_0000);
    assert_eq!(cpu.csr.mcause(), Exception::EnvCallMMode.code());
    assert_eq!(cpu.csr.mcause(), 11);
    assert_eq!(cpu.csr.mtval(), 0);
    assert!(!cpu.csr.mstatus().mie());
    assert_eq!(cpu.csr.mstatus().mpp(), 3);
}

#[test]
fn user_ecall_traps_to_machine_mode() {
    let mut cpu = with_program(&[0x0000_0073]);
    cpu.mode = CpuMode::User;
    assert_eq!(step(&mut cpu), Ok(()));
    assert_eq!(cpu.mode, CpuMode::Machine);
    assert_eq!(cpu.csr.mcause(), 8);
    assert_eq!(cpu.csr.mepc(), 0x8000_0000);
}

#[test]
fn syscon_reboot_stops_and_power_off_is_flagged() {
    // sw x2, 0(x1)
    let mut cpu = with_program(&[0x0020_A023]);
    cpu.regs[1] = 0x1110_0000;
    cpu.regs[2] = 0x7777;
    assert_eq!(step(&mut cpu), Err(Abort::Reboot));

    let mut cpu = with_program(&[0x0020_A023]);
    cpu.regs[1] = 0x1110_0000;
    cpu.regs[2] = 0x5555;
    assert_eq!(step(&mut cpu), Ok(()));
    assert!(cpu.bus.syscon.power_off);
}

#[test]
fn uart_byte_leaves_at_the_next_cycle() {
    // sb x2, 0(x1) ; addi x0, x0, 0
    let mut cpu = with_program(&[0x0020_8023, 0x0000_0013]);
    cpu.regs[1] = 0x1000_0000;
    cpu.regs[2] = b'H' as u64;
    assert_eq!(start_cycle(&mut cpu, 0, None), None);
    assert_eq!(run_cycle(&mut cpu).map(|_| ()), Ok(()));
    assert_eq!(start_cycle(&mut cpu, 1, None), Some(b'H'));
    assert_eq!(run_cycle(&mut cpu).map(|_| ()), Ok(()));
}

#[test]
fn store_takes_effect_at_the_end_of_the_cycle() {
    // sd x2, 0(x1) ; ld x3, 0(x1)
    let mut cpu = with_program(&[0x0020_B023, 0x0000_B183]);
    cpu.regs[1] = 0x8000_1000;
    cpu.regs[2] = 0xCAFE;
    assert_eq!(step(&mut cpu), Ok(()));
    assert_eq!(step(&mut cpu), Ok(()));
    assert_eq!(cpu.regs[3], 0xCAFE);
}

#[test]
fn pending_timer_interrupt_is_taken_before_fetch() {
    let mut cpu = with_program(&[0x0050_0093]);
    assert_eq!(cpu.csr.store(0x305, 0x8000_0200, CpuMode::Machine), Some(()));
    assert_eq!(cpu.csr.store(0x304, 1 << 7, CpuMode::Machine), Some(()));
    assert_eq!(cpu.csr.store(0x300, 0x8, CpuMode::Machine), Some(()));
    cpu.bus.clint.store(0x200_4000, 10, BusTxSize::Bits64);
    start_cycle(&mut cpu, 10, None);
    assert_eq!(run_cycle(&mut cpu).map(|_| ()), Ok(()));
    assert_eq!(cpu.pc, 0x8000_0200);
    assert_eq!(cpu.regs[1], 0);
    assert_eq!(cpu.csr.mcause(), (1 << 63) | 7);
}

#[test]
fn run_cycle_reports_the_executed_instruction() {
    let mut cpu = with_program(&[0x0050_0093]);
    start_cycle(&mut cpu, 0, None);
    assert_eq!(run_cycle(&mut cpu), Ok(decode(0x0050_0093)));
    // a cycle that traps executes nothing
    let mut cpu = Cpu::new();
    cpu.pc = 0x10;
    start_cycle(&mut cpu, 0, None);
    assert_eq!(run_cycle(&mut cpu), Ok(None));
}

#[test]
fn csr_instruction_leaves_mstatus_in_normal_form() {
    // csrrw x0, mstatus, x1 with every bit set
    let mut cpu = with_program(&[0x3000_9073]);
    cpu.regs[1] = u64::MAX;
    assert_eq!(step(&mut cpu), Ok(()));
    assert_eq!(cpu.csr.mstatus().as_bits(), 0x8000_06FA_01FF_FFEA);
    assert_eq!(cpu.csr.load(0x300, CpuMode::Machine), Some(0x8000_06FA_01FF_FFEA));
}

#[test]
fn reserved_trap_vector_stops_the_machine() {
    let mut cpu = with_program(&[0x0050_0093]);
    assert_eq!(cpu.csr.store(0x305, 0x8000_0002, CpuMode::Machine), Some(()));
    assert_eq!(cpu.csr.store(0x304, 1 << 7, CpuMode::Machine), Some(()));
    assert_eq!(cpu.csr.store(0x300, 0x8, CpuMode::Machine), Some(()));
    cpu.bus.clint.store(0x200_4000, 0, BusTxSize::Bits64);
    start_cycle(&mut cpu, 1, None);
    assert_eq!(run_cycle(&mut cpu), Err(Abort::ReservedTrapVector));
}

#[test]
fn fetch_across_the_end_of_ram_stops_the_machine() {
    let mut cpu = Cpu::new();
    cpu.pc = 0x9FFF_FFFE;
    assert_eq!(step(&mut cpu), Err(Abort::FetchOutsideRam));
}

#[test]
fn page_walk_through_a_device_stops_the_machine() {
    let mut cpu = Cpu::new();
    cpu.mode = CpuMode::Supervisor;
    assert_eq!(cpu.csr.store(0x180, (8u64 << 60) | (0x0C00_0000 >> 12), CpuMode::Machine), Some(()));
    assert_eq!(step(&mut cpu), Err(Abort::FetchWalk));
}

#[test]
fn wrong_sized_device_load_stops_the_machine() {
    // lw x3, 0(x1) from the UART, which answers only byte accesses
    let mut cpu = with_program(&[0x0000_A183]);
    cpu.regs[1] = 0x1000_0000;
    assert_eq!(step(&mut cpu), Err(Abort::Execute));
}

#[test]
fn store_to_a_missing_plic_register_stops_the_machine() {
    // sw x2, 0(x1)
    let mut cpu = with_program(&[0x0020_A023]);
    cpu.regs[1] = 0x0C00_0008;
    assert_eq!(step(&mut cpu), Err(Abort::RefusedStore));
}
