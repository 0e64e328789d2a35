use libemu4::bus::BusTxSize;
use libemu4::decode::{decode, Instr, InstrFlow, InstrOp, OpWidth};
use libemu4::exec::exec;
use libemu4::trap::Exception;
use libemu4::{Cpu, CpuMode};

fn instr(op: InstrOp, flow: InstrFlow, op_width: OpWidth) -> Instr {
    Instr { raw: 0x13, op, flow, op_width, instr_size: 4 }
}

fn binary(op: InstrOp, w: OpWidth, a: u64, b: u64) -> u64 {
    let mut cpu = Cpu::new();
    cpu.regs[1] = a;
    cpu.regs[2] = b;
    exec(&mut cpu, &instr(op, InstrFlow::RegReg2Reg { rs_1: 1, rs_2: 2, rd: 3 }, w), 0x33);
    cpu.regs[3]
}

#[test]
fn add_sub_wrap() {
    assert_eq!(binary(InstrOp::Add, OpWidth::DoubleWord, 5, 7), 12);
    assert_eq!(binary(InstrOp::Add, OpWidth::DoubleWord, u64::MAX, 2), 1);
    assert_eq!(binary(InstrOp::Subtract, OpWidth::DoubleWord, 3, 5), 0xFFFF_FFFF_FFFF_FFFE);
    assert_eq!(binary(InstrOp::Add, OpWidth::Word, 0x7FFF_FFFF, 1), 0xFFFF_FFFF_8000_0000);
    assert_eq!(binary(InstrOp::Subtract, OpWidth::Word, 0, 1), 0xFFFF_FFFF_FFFF_FFFF);
}

#[test]
fn division_edge_cases() {
    assert_eq!(binary(InstrOp::Divide, OpWidth::DoubleWord, 7, 0), u64::MAX);
    assert_eq!(binary(InstrOp::Remainder, OpWidth::DoubleWord, 7, 0), 7);
    let min = 0x8000_0000_0000_0000u64;
    assert_eq!(binary(InstrOp::Divide, OpWidth::DoubleWord, min, u64::MAX), min);
    assert_eq!(binary(InstrOp::Remainder, OpWidth::DoubleWord, min, u64::MAX), 0);
    assert_eq!(binary(InstrOp::Divide, OpWidth::DoubleWord, (-7i64) as u64, 2), (-3i64) as u64);
    assert_eq!(binary(InstrOp::Remainder, OpWidth::DoubleWord, (-7i64) as u64, 2), (-1i64) as u64);
    assert_eq!(binary(InstrOp::Divide, OpWidth::DoubleWordUnsigned, u64::MAX, 2), u64::MAX / 2);
    // the overflowing word division gives -2^31, sign-extended like every word result
    assert_eq!(binary(InstrOp::Divide, OpWidth::Word, 0x8000_0000, 0xFFFF_FFFF), 0xFFFF_FFFF_8000_0000);
    assert_eq!(binary(InstrOp::Divide, OpWidth::Word, 0xFFFF_FFFF_8000_0000, u64::MAX), 0xFFFF_FFFF_8000_0000);
    assert_eq!(binary(InstrOp::Remainder, OpWidth::Word, 0xFFFF_FFFF_8000_0000, u64::MAX), 0);
    assert_eq!(binary(InstrOp::Divide, OpWidth::Word, (-6i64) as u64, 2), (-3i64) as u64);
    assert_eq!(binary(InstrOp::Divide, OpWidth::WordUnsigned, 7, 0), u64::MAX);
}

#[test]
fn multiply_high_variants() {
    assert_eq!(binary(InstrOp::MultiplyHigh, OpWidth::DoubleWord, u64::MAX, u64::MAX), 0);
    assert_eq!(binary(InstrOp::MultiplyHigh, OpWidth::DoubleWordUnsigned, u64::MAX, u64::MAX), 0xFFFF_FFFF_FFFF_FFFE);
    assert_eq!(binary(InstrOp::MultiplyHigh, OpWidth::DoubleWord, 0x8000_0000_0000_0000, 2), u64::MAX);
    assert_eq!(binary(InstrOp::MultiplyHigh, OpWidth::DoubleWordSignedUnsigned, u64::MAX, 2), u64::MAX);
    assert_eq!(binary(InstrOp::Multiply, OpWidth::DoubleWord, 1 << 32, 1 << 32), 0);
}

#[test]
fn shifts_and_compares() {
    assert_eq!(binary(InstrOp::ShiftRightArithmetic, OpWidth::DoubleWord, 0x8000_0000_0000_0000, 4), 0xF800_0000_0000_0000);
    assert_eq!(binary(InstrOp::ShiftRightLogical, OpWidth::DoubleWord, 0x8000_0000_0000_0000, 4), 0x0800_0000_0000_0000);
    assert_eq!(binary(InstrOp::ShiftLeft, OpWidth::DoubleWord, 1, 65), 2);
    assert_eq!(binary(InstrOp::ShiftLeft, OpWidth::Word, 1, 31), 0xFFFF_FFFF_8000_0000);
    assert_eq!(binary(InstrOp::SetLesserThan, OpWidth::DoubleWord, u64::MAX, 0), 1);
    assert_eq!(binary(InstrOp::SetLesserThan, OpWidth::DoubleWordUnsigned, u64::MAX, 0), 0);
    assert_eq!(binary(InstrOp::Xor, OpWidth::DoubleWord, 0b1100, 0b1010), 0b0110);
}

#[test]
fn x0_is_cleared_by_the_main_loop_not_by_exec() {
    let mut cpu = Cpu::new();
    exec(&mut cpu, &instr(InstrOp::Add, InstrFlow::RegImm2Reg { rs_1: 0, imm: 9, rd: 0 }, OpWidth::DoubleWord), 0x13);
    assert_eq!(cpu.regs[0], 9);
}

#[test]
fn branch_and_jump_targets_leave_room_for_the_size() {
    let mut cpu = Cpu::new();
    cpu.pc = 0x100;
    cpu.regs[1] = 4;
    cpu.regs[2] = 4;
    exec(&mut cpu, &instr(InstrOp::BranchIfEquals, InstrFlow::RegRegImm2PC { rs_1: 1, rs_2: 2, imm: 0x20 }, OpWidth::NoWidth), 0x63);
    assert_eq!(cpu.pc, 0x11C);

    let mut cpu = Cpu::new();
    cpu.pc = 0x100;
    cpu.regs[1] = 4;
    exec(&mut cpu, &instr(InstrOp::BranchIfNotEquals, InstrFlow::RegRegImm2PC { rs_1: 1, rs_2: 1, imm: 0x20 }, OpWidth::NoWidth), 0x63);
    assert_eq!(cpu.pc, 0x100);

    let mut cpu = Cpu::new();
    cpu.pc = 0x100;
    exec(&mut cpu, &instr(InstrOp::JumpAndLink, InstrFlow::ImmPC2RegPC { imm: 0x40, rd: 1 }, OpWidth::NoWidth), 0x6F);
    assert_eq!(cpu.regs[1], 0x104);
    assert_eq!(cpu.pc, 0x13C);

    let mut cpu = Cpu::new();
    cpu.pc = 0x100;
    cpu.regs[5] = 0x201;
    exec(&mut cpu, &instr(InstrOp::JumpAndLinkReg, InstrFlow::RegImmPC2RegPC { rs_1: 5, imm: 2, rd: 1 }, OpWidth::NoWidth), 0x67);
    assert_eq!(cpu.regs[1], 0x104);
    assert_eq!(cpu.pc, 0x202 - 4);
}

#[test]
fn auipc_adds_pc() {
    let mut cpu = Cpu::new();
    cpu.pc = 0x8000_0000;
    exec(&mut cpu, &instr(InstrOp::AddUpperImmAndPC, InstrFlow::ImmPC2Reg { imm: 0x1000, rd: 7 }, OpWidth::NoWidth), 0x17);
    assert_eq!(cpu.regs[7], 0x8000_1000);
}

#[test]
fn environment_call_and_break_raise() {
    let mut cpu = Cpu::new();
    exec(&mut cpu, &instr(InstrOp::EnvCall, InstrFlow::NoFlow, OpWidth::NoWidth), 0x73);
    assert_eq!(cpu.exception, Some((Exception::EnvCallMMode, 0)));

    let mut cpu = Cpu::new();
    cpu.mode = CpuMode::User;
    exec(&mut cpu, &instr(InstrOp::EnvCall, InstrFlow::NoFlow, OpWidth::NoWidth), 0x73);
    assert_eq!(cpu.exception, Some((Exception::EnvCallUMode, 0)));

    let mut cpu = Cpu::new();
    cpu.pc = 0x8000_0010;
    exec(&mut cpu, &instr(InstrOp::EnvBreak, InstrFlow::NoFlow, OpWidth::NoWidth), 0x0010_0073);
    assert_eq!(cpu.exception, Some((Exception::Breakpoint, 0x8000_0010)));
}

#[test]
fn store_is_held_until_commit_then_loads_back() {
    let mut cpu = Cpu::new();
    cpu.regs[1] = 0x8000_0100;
    cpu.regs[2] = 0x1122_3344_5566_7788;
    exec(&mut cpu, &instr(InstrOp::Store, InstrFlow::RegRegImm2Mem { rs_1: 1, rs_2: 2, imm: 8 }, OpWidth::DoubleWord), 0x23);
    assert_eq!(cpu.bus.pending_store, Some((0x8000_0108, 0x1122_3344_5566_7788, BusTxSize::Bits64)));
    assert_eq!(cpu.bus.commit_store(), Some(()));

    exec(&mut cpu, &instr(InstrOp::Load, InstrFlow::RegImmMem2Reg { rs_1: 1, imm: 8, rd: 3 }, OpWidth::DoubleWord), 0x03);
    assert_eq!(cpu.regs[3], 0x1122_3344_5566_7788);
    exec(&mut cpu, &instr(InstrOp::Load, InstrFlow::RegImmMem2Reg { rs_1: 1, imm: 8, rd: 4 }, OpWidth::Byte), 0x03);
    assert_eq!(cpu.regs[4], 0xFFFF_FFFF_FFFF_FF88);
    exec(&mut cpu, &instr(InstrOp::Load, InstrFlow::RegImmMem2Reg { rs_1: 1, imm: 8, rd: 5 }, OpWidth::ByteUnsigned), 0x03);
    assert_eq!(cpu.regs[5], 0x88);
    exec(&mut cpu, &instr(InstrOp::Load, InstrFlow::RegImmMem2Reg { rs_1: 1, imm: 12, rd: 6 }, OpWidth::Word), 0x03);
    assert_eq!(cpu.regs[6], 0x1122_3344);
    assert_eq!(cpu.bus.last_load, Some((0x8000_010C, BusTxSize::Bits32)));
}

#[test]
fn misaligned_load_raises() {
    let mut cpu = Cpu::new();
    cpu.regs[1] = 0x8000_0001;
    exec(&mut cpu, &instr(InstrOp::Load, InstrFlow::RegImmMem2Reg { rs_1: 1, imm: 0, rd: 3 }, OpWidth::Word), 0x03);
    assert_eq!(cpu.exception, Some((Exception::LoadAddressMisaligned, 0x8000_0001)));
    assert_eq!(cpu.regs[3], 0);
}

#[test]
fn csr_read_write_swaps() {
    let mut cpu = Cpu::new();
    cpu.regs[1] = 0xABCD;
    // csrrw x2, mscratch, x1
    exec(&mut cpu, &instr(InstrOp::CsrReadAndWrite, InstrFlow::Reg2RegCsr { rs_1: 1, rd: 2, csr: 0x340 }, OpWidth::NoWidth), 0x3401_1173);
    assert_eq!(cpu.regs[2], 0);
    assert_eq!(cpu.csr.load(0x340, CpuMode::Machine), Some(0xABCD));
    // csrrs x3, mscratch, x0 reads without writing
    exec(&mut cpu, &instr(InstrOp::CsrReadAndSetBits, InstrFlow::Reg2RegCsr { rs_1: 0, rd: 3, csr: 0x340 }, OpWidth::NoWidth), 0x3400_21F3);
    assert_eq!(cpu.regs[3], 0xABCD);
    // csrrci x4, mscratch, 0b1101
    exec(&mut cpu, &instr(InstrOp::CsrReadAndClearBits, InstrFlow::Imm2RegCsr { imm: 0b1101, rd: 4, csr: 0x340 }, OpWidth::NoWidth), 0x3406_F273);
    assert_eq!(cpu.regs[4], 0xABCD);
    assert_eq!(cpu.csr.load(0x340, CpuMode::Machine), Some(0xABC0));
}

#[test]
fn csr_access_to_missing_register_is_illegal() {
    let mut cpu = Cpu::new();
    exec(&mut cpu, &instr(InstrOp::CsrReadAndSetBits, InstrFlow::Reg2RegCsr { rs_1: 0, rd: 3, csr: 0x7C0 }, OpWidth::NoWidth), 0x7C00_21F3);
    assert_eq!(cpu.exception, Some((Exception::IllegalInstruction, 0x7C00_21F3)));
}

#[test]
fn mret_outside_machine_mode_is_illegal() {
    let mut cpu = Cpu::new();
    cpu.mode = CpuMode::Supervisor;
    exec(&mut cpu, &instr(InstrOp::MReturnFromTrap, InstrFlow::NoFlow, OpWidth::NoWidth), 0x3020_0073);
    assert_eq!(cpu.exception, Some((Exception::IllegalInstruction, 0x3020_0073)));
}

#[test]
fn atomics_reserve_and_conditionally_store() {
    let mut cpu = Cpu::new();
    cpu.regs[1] = 0x8000_0200;
    cpu.regs[2] = 77;
    // sc without a reservation fails with 1 in rd
    exec(&mut cpu, &instr(InstrOp::StoreConditional, InstrFlow::RegReg2RegMem { rs_1: 1, rs_2: 2, rd: 3 }, OpWidth::DoubleWord), 0x2F);
    assert_eq!(cpu.regs[3], 1);
    assert_eq!(cpu.bus.pending_store, None);
    // lr then sc succeeds with 0 and holds the store
    exec(&mut cpu, &instr(InstrOp::LoadReserved, InstrFlow::RegMem2Reg { rs_1: 1, rd: 4 }, OpWidth::DoubleWord), 0x2F);
    assert_eq!(cpu.bus.atomic_reservation, Some(0x8000_0200));
    exec(&mut cpu, &instr(InstrOp::StoreConditional, InstrFlow::RegReg2RegMem { rs_1: 1, rs_2: 2, rd: 3 }, OpWidth::DoubleWord), 0x2F);
    assert_eq!(cpu.regs[3], 0);
    assert_eq!(cpu.bus.atomic_reservation, None);
    assert_eq!(cpu.bus.pending_store, Some((0x8000_0200, 77, BusTxSize::Bits64)));
}

#[test]
fn amo_add_returns_old_value() {
    let mut cpu = Cpu::new();
    cpu.bus.ram.store(0x8000_0300, 40, BusTxSize::Bits64);
    cpu.regs[1] = 0x8000_0300;
    cpu.regs[2] = 2;
    exec(&mut cpu, &instr(InstrOp::AtomicAdd, InstrFlow::RegRegMem2RegMem { rs_1: 1, rs_2: 2, rd: 3 }, OpWidth::DoubleWord), 0x2F);
    assert_eq!(cpu.regs[3], 40);
    assert_eq!(cpu.bus.pending_store, Some((0x8000_0300, 42, BusTxSize::Bits64)));
}

#[test]
fn decoded_addi_executes() {
    let mut cpu = Cpu::new();
    let i = decode(0xFF01_0113).unwrap();
    cpu.regs[2] = 0x100;
    exec(&mut cpu, &i, 0xFF01_0113);
    assert_eq!(cpu.regs[2], 0xF0);
}
