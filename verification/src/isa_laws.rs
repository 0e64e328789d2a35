//! Laws of instruction execution and the privileged architecture, stated in
//! the terms the RISC-V specifications use: register values as unsigned and
//! two's-complement integers, page-table entry bits and CSR fields by their
//! masks and bit positions.
use vstd::prelude::*;

use crate::csr::CsrState;
use crate::decode::{Instr, InstrFlow, InstrOp, OpWidth};
use crate::exec::exec_spec;
use crate::bus::{BusState, BusTxSize};
use crate::devices::clint::{mip_with_timer, ClintState};
use crate::mmu::{compose, leaf_outcome, translation, translation_bus, AccessType, Translation};
use crate::trap::{interrupt_taken, take_exception, take_interrupt, Exception, InterruptType};
use crate::{CpuMode, CpuState};

verus! {

// ---- Conditional branches ---------------------------------------------------

/// Law: a conditional branch changes nothing but the program counter. It
/// moves the pc to the target (`pc + imm`, less the instruction size that
/// the main loop adds afterwards, modulo 2^64) exactly when its condition
/// holds of the two source registers: `beq` when they are equal, `bne` when
/// they differ, `blt`/`bge` when the first is below / not below the second
/// as two's-complement integers, and `bltu`/`bgeu` likewise as unsigned
/// integers. Otherwise the pc stays where it is; in particular `blt` and
/// `bltu` on equal operands never branch, and `bge` and `bgeu` always do.
pub proof fn lemma_conditional_branch(s: CpuState, i: Instr, raw: u32, rs_1: usize, rs_2: usize, imm: u64)
    requires
        s.wf(),
        i.wf(),
        i.op == InstrOp::BranchIfEquals || i.op == InstrOp::BranchIfNotEquals
            || i.op == InstrOp::BranchIfLesserThan || i.op == InstrOp::BranchIfGreaterThanOrEquals,
        i.flow == (InstrFlow::RegRegImm2PC { rs_1, rs_2, imm }),
    ensures
        ({
            let a = s.regs[rs_1 as int];
            let b = s.regs[rs_2 as int];
            let sa: int = if a >= 0x8000_0000_0000_0000 { a - 0x1_0000_0000_0000_0000int } else { a as int };
            let sb: int = if b >= 0x8000_0000_0000_0000 { b - 0x1_0000_0000_0000_0000int } else { b as int };
            let unsigned = i.op_width == OpWidth::DoubleWordUnsigned;
            let taken = match i.op {
                InstrOp::BranchIfEquals => a == b,
                InstrOp::BranchIfNotEquals => a != b,
                InstrOp::BranchIfLesserThan => if unsigned { a < b } else { sa < sb },
                _ => if unsigned { a >= b } else { sa >= sb },
            };
            let target = ((s.pc + imm - i.instr_size) % 0x1_0000_0000_0000_0000int) as u64;
            exec_spec(s, i, raw) == (CpuState { pc: if taken { target } else { s.pc }, ..s })
        }),
{
}

// ---- Integer operations ------------------------------------------------------

/// Law: a 64-bit integer operation writes its result to rd and changes
/// nothing else. With `a` the value of rs1 and `b` that of rs2 (or the
/// immediate), as unsigned integers below 2^64, and `sa`, `sb` the same
/// values as two's-complement integers: `add` gives (a + b) mod 2^64, `sub`
/// (a - b) mod 2^64, `mul` (a * b) mod 2^64, `xor`/`or`/`and` the bitwise
/// operation, `slt` 1 when sa < sb and `sltu` 1 when a < b (else 0), and the
/// shifts move `a` by the low six bits of `b`: `sll` left, `srl` right
/// filling with zeros, `sra` right filling the vacated high bits with copies
/// of the sign bit.
pub proof fn lemma_alu_doubleword(s: CpuState, i: Instr, raw: u32, rs_1: usize, rd: usize, b: u64)
    requires
        s.wf(),
        i.wf(),
        i.op == InstrOp::Add || i.op == InstrOp::Subtract || i.op == InstrOp::Multiply
            || i.op == InstrOp::Xor || i.op == InstrOp::Or || i.op == InstrOp::And
            || i.op == InstrOp::SetLesserThan || i.op == InstrOp::ShiftLeft
            || i.op == InstrOp::ShiftRightLogical || i.op == InstrOp::ShiftRightArithmetic,
        i.op_width == OpWidth::DoubleWord || i.op_width == OpWidth::DoubleWordUnsigned,
        (exists|rs_2: usize| i.flow == (InstrFlow::RegReg2Reg { rs_1, rs_2, rd }) && b == s.regs[rs_2 as int])
            || i.flow == (InstrFlow::RegImm2Reg { rs_1, imm: b, rd }),
    ensures
        ({
            let a = s.regs[rs_1 as int];
            let sa: int = if a >= 0x8000_0000_0000_0000 { a - 0x1_0000_0000_0000_0000int } else { a as int };
            let sb: int = if b >= 0x8000_0000_0000_0000 { b - 0x1_0000_0000_0000_0000int } else { b as int };
            let sh = b % 64;
            let v: u64 = match i.op {
                InstrOp::Add => ((a + b) % 0x1_0000_0000_0000_0000int) as u64,
                InstrOp::Subtract => ((a - b) % 0x1_0000_0000_0000_0000int) as u64,
                InstrOp::Multiply => ((a * b) % 0x1_0000_0000_0000_0000int) as u64,
                InstrOp::Xor => a ^ b,
                InstrOp::Or => a | b,
                InstrOp::And => a & b,
                InstrOp::SetLesserThan => if i.op_width == OpWidth::DoubleWordUnsigned {
                    if a < b { 1 } else { 0 }
                } else {
                    if sa < sb { 1 } else { 0 }
                },
                InstrOp::ShiftLeft => a << sh,
                InstrOp::ShiftRightLogical => a >> sh,
                _ => (a >> sh) | (if a >= 0x8000_0000_0000_0000 { !(u64::MAX >> sh) } else { 0 }),
            };
            exec_spec(s, i, raw) == (CpuState { regs: s.regs.update(rd as int, v), ..s })
        }),
{
    let a = s.regs[rs_1 as int];
    let sh = b % 64;
    assert(crate::exec::sra64(a, sh) == (a >> sh) | (if a >= 0x8000_0000_0000_0000 { !(u64::MAX >> sh) } else { 0 })) by (bit_vector)
        requires
            sh < 64,
    ;
}

/// Law: a 32-bit ("word") integer operation computes on the low 32 bits of
/// its operands and writes the 32-bit result, sign-extended to 64 bits (bit
/// 31 copied into bits 63..32), to rd, changing nothing else: `addw`,
/// `subw` and `mulw` take (a + b), (a - b) and (a * b) mod 2^32, and the
/// word shifts move the low word of `a` by the low five bits of `b`.
pub proof fn lemma_alu_word(s: CpuState, i: Instr, raw: u32, rs_1: usize, rd: usize, b: u64)
    requires
        s.wf(),
        i.wf(),
        i.op == InstrOp::Add || i.op == InstrOp::Subtract || i.op == InstrOp::Multiply
            || i.op == InstrOp::ShiftLeft || i.op == InstrOp::ShiftRightLogical,
        i.op_width == OpWidth::Word,
        (exists|rs_2: usize| i.flow == (InstrFlow::RegReg2Reg { rs_1, rs_2, rd }) && b == s.regs[rs_2 as int])
            || i.flow == (InstrFlow::RegImm2Reg { rs_1, imm: b, rd }),
    ensures
        ({
            let a = s.regs[rs_1 as int];
            let w: int = match i.op {
                InstrOp::Add => (a + b) % 0x1_0000_0000,
                InstrOp::Subtract => (a - b) % 0x1_0000_0000,
                InstrOp::Multiply => (a * b) % 0x1_0000_0000,
                InstrOp::ShiftLeft => ((((a % 0x1_0000_0000) as u32) << ((b % 32) as u32)) as int),
                _ => ((((a % 0x1_0000_0000) as u32) >> ((b % 32) as u32)) as int),
            };
            let v: u64 = if w >= 0x8000_0000 { (w + 0xFFFF_FFFF_0000_0000) as u64 } else { w as u64 };
            exec_spec(s, i, raw) == (CpuState { regs: s.regs.update(rd as int, v), ..s })
        }),
{
    let a = s.regs[rs_1 as int];
    lemma_binary_exec(s, i, raw, rs_1, rd, b);
    lemma_word_result(i.op, a, b);
}

/// Law: `mulh`, `mulhsu` and `mulhu` write to rd the upper 64 bits of the
/// 128-bit product of rs1 and rs2, taken as signed times signed, signed
/// times unsigned, and unsigned times unsigned: the product divided by 2^64
/// rounding down, modulo 2^64. Nothing else changes.
#[verifier::spinoff_prover]
#[verifier::rlimit(40)]
pub proof fn lemma_multiply_high(s: CpuState, i: Instr, raw: u32, rs_1: usize, rs_2: usize, rd: usize)
    requires
        s.wf(),
        i.wf(),
        i.op == InstrOp::MultiplyHigh,
        i.flow == (InstrFlow::RegReg2Reg { rs_1, rs_2, rd }),
    ensures
        ({
            let a = s.regs[rs_1 as int];
            let b = s.regs[rs_2 as int];
            let sa: int = if a >= 0x8000_0000_0000_0000 { a - 0x1_0000_0000_0000_0000int } else { a as int };
            let sb: int = if b >= 0x8000_0000_0000_0000 { b - 0x1_0000_0000_0000_0000int } else { b as int };
            let product: int = match i.op_width {
                OpWidth::DoubleWord => sa * sb,
                OpWidth::DoubleWordSignedUnsigned => sa * b,
                _ => a * b,
            };
            let v = ((product / 0x1_0000_0000_0000_0000int) % 0x1_0000_0000_0000_0000int) as u64;
            exec_spec(s, i, raw) == (CpuState { regs: s.regs.update(rd as int, v), ..s })
        }),
{
    let a = s.regs[rs_1 as int];
    let b = s.regs[rs_2 as int];
    lemma_binary_exec(s, i, raw, rs_1, rd, b);
    if i.op_width != OpWidth::DoubleWord && i.op_width != OpWidth::DoubleWordSignedUnsigned {
        assert(0 <= a * b < 0x1_0000_0000_0000_0000int * 0x1_0000_0000_0000_0000int) by (nonlinear_arith);
        assert((a as nat * b as nat) / 0x1_0000_0000_0000_0000nat < 0x1_0000_0000_0000_0000) by (nonlinear_arith);
    }
}

/// A register-register or register-immediate operation writes the ALU
/// result of its operands to rd.
proof fn lemma_binary_exec(s: CpuState, i: Instr, raw: u32, rs_1: usize, rd: usize, b: u64)
    requires
        i.op == InstrOp::Add || i.op == InstrOp::Subtract || i.op == InstrOp::Multiply
            || i.op == InstrOp::ShiftLeft || i.op == InstrOp::ShiftRightLogical
            || i.op == InstrOp::MultiplyHigh,
        (exists|rs_2: usize| i.flow == (InstrFlow::RegReg2Reg { rs_1, rs_2, rd }) && b == s.regs[rs_2 as int])
            || i.flow == (InstrFlow::RegImm2Reg { rs_1, imm: b, rd }),
    ensures
        exec_spec(s, i, raw) == crate::exec::set_reg(s, rd, crate::exec::alu(i.op, i.op_width, s.regs[rs_1 as int], b)),
{
}

/// The word operations: the 32-bit result sign-extended.
proof fn lemma_word_result(op: InstrOp, a: u64, b: u64)
    requires
        op == InstrOp::Add || op == InstrOp::Subtract || op == InstrOp::Multiply
            || op == InstrOp::ShiftLeft || op == InstrOp::ShiftRightLogical,
    ensures
        ({
            let w: int = match op {
                InstrOp::Add => (a + b) % 0x1_0000_0000,
                InstrOp::Subtract => (a - b) % 0x1_0000_0000,
                InstrOp::Multiply => (a * b) % 0x1_0000_0000,
                InstrOp::ShiftLeft => ((((a % 0x1_0000_0000) as u32) << ((b % 32) as u32)) as int),
                _ => ((((a % 0x1_0000_0000) as u32) >> ((b % 32) as u32)) as int),
            };
            crate::exec::alu(op, OpWidth::Word, a, b) == if w >= 0x8000_0000 { (w + 0xFFFF_FFFF_0000_0000) as u64 } else { w as u64 }
        }),
{
    let lo = (a % 0x1_0000_0000) as u32;
    let sh = (b % 32) as u32;
    match op {
        InstrOp::Add => {
            vstd::arithmetic::div_mod::lemma_mod_mod(a + b, 0x1_0000_0000, 0x1_0000_0000);
            lemma_sext_word_of(crate::wrap64(a + b), (a + b) % 0x1_0000_0000);
        },
        InstrOp::Subtract => {
            vstd::arithmetic::div_mod::lemma_mod_mod(a - b, 0x1_0000_0000, 0x1_0000_0000);
            lemma_sext_word_of(crate::wrap64(a - b), (a - b) % 0x1_0000_0000);
        },
        InstrOp::Multiply => {
            vstd::arithmetic::div_mod::lemma_mod_mod(a * b, 0x1_0000_0000, 0x1_0000_0000);
            lemma_sext_word_of(crate::wrap64(a * b), (a * b) % 0x1_0000_0000);
        },
        InstrOp::ShiftLeft => {
            lemma_sext_word_of((lo << sh) as u64, (lo << sh) as int);
        },
        _ => {
            lemma_sext_word_of((lo >> sh) as u64, (lo >> sh) as int);
        },
    }
}

/// The low word of `x` sign-extended: `w`, the low word, with bits 63..32
/// copying its bit 31.
proof fn lemma_sext_word_of(x: u64, w: int)
    requires
        w == x % 0x1_0000_0000,
    ensures
        crate::exec::sext_word(x) == if w >= 0x8000_0000 { (w + 0xFFFF_FFFF_0000_0000) as u64 } else { w as u64 },
{
    if w >= 0x8000_0000 {
        assert((w - 0x1_0000_0000) % 0x1_0000_0000_0000_0000int == w + 0xFFFF_FFFF_0000_0000);
    }
}

// ---- Jumps and upper immediates ----------------------------------------------

/// Law: `lui` writes its immediate to rd; `auipc` writes pc + imm (mod 2^64);
/// `jal` and `jalr` write the address of the next instruction, pc + size
/// (mod 2^64), to rd and jump: `jal` to pc + imm, `jalr` to rs1 + imm (read
/// before rd is written) with bit 0 cleared, each less the instruction size
/// that the main loop adds afterwards (mod 2^64). Nothing else changes.
#[verifier::spinoff_prover]
pub proof fn lemma_jumps_and_upper_immediates(s: CpuState, i: Instr, raw: u32)
    requires
        s.wf(),
        i.wf(),
        i.op == InstrOp::LoadUpperImm || i.op == InstrOp::AddUpperImmAndPC
            || i.op == InstrOp::JumpAndLink || i.op == InstrOp::JumpAndLinkReg,
    ensures
        ({
            let r = exec_spec(s, i, raw);
            let m = 0x1_0000_0000_0000_0000int;
            let link = ((s.pc + i.instr_size) % m) as u64;
            match i.flow {
                InstrFlow::Imm2Reg { imm, rd } => r == (CpuState { regs: s.regs.update(rd as int, imm), ..s }),
                InstrFlow::ImmPC2Reg { imm, rd } => r == (CpuState { regs: s.regs.update(rd as int, ((s.pc + imm) % m) as u64), ..s }),
                InstrFlow::ImmPC2RegPC { imm, rd } => r == (CpuState {
                    regs: s.regs.update(rd as int, link),
                    pc: ((s.pc + imm - i.instr_size) % m) as u64,
                    ..s
                }),
                InstrFlow::RegImmPC2RegPC { rs_1, imm, rd } => {
                    let t = (s.regs[rs_1 as int] + imm) % m;
                    r == (CpuState {
                        regs: s.regs.update(rd as int, link),
                        pc: ((t - t % 2 - i.instr_size) % m) as u64,
                        ..s
                    })
                },
                _ => false,
            }
        }),
{
    if let InstrFlow::RegImmPC2RegPC { rs_1, imm, rd } = i.flow {
        let t = crate::wrap64(s.regs[rs_1 as int] + imm);
        assert(t & !1u64 == t - t % 2) by (bit_vector);
    }
}

// ---- Loads ----------------------------------------------------------------------

/// Law: a load whose effective address rs1 + imm (mod 2^64) translates to
/// physical `pa` raises a load-address-misaligned exception carrying the
/// virtual address when `pa` is not a multiple of the access size (8 for
/// `ld`, 4 for `lw`/`lwu`, 2 for `lh`/`lhu`); otherwise it reads the access
/// size at `pa` (its low 32 bits on the bus) and writes rd: `lb`, `lh` and
/// `lw` sign-extend the byte, half-word or word read (its top bit copied
/// upwards), `lbu`, `lhu`, `lwu` and `ld` write the value read. Registers
/// other than rd, the pc, the CSRs and the mode are unchanged.
#[verifier::spinoff_prover]
#[verifier::rlimit(40)]
pub proof fn lemma_load_effect(s: CpuState, i: Instr, raw: u32, rs_1: usize, imm: u64, rd: usize, pa: u64)
    requires
        s.wf(),
        i.wf(),
        i.op == InstrOp::Load,
        i.flow == (InstrFlow::RegImmMem2Reg { rs_1, imm, rd }),
        translation(((s.regs[rs_1 as int] + imm) % 0x1_0000_0000_0000_0000int) as u64, AccessType::Load, s.mode, s.csr, s.bus)
            == Translation::Translated(pa),
    ensures
        ({
            let va = ((s.regs[rs_1 as int] + imm) % 0x1_0000_0000_0000_0000int) as u64;
            let r = exec_spec(s, i, raw);
            let w = i.op_width;
            let (align, size) = match w {
                OpWidth::DoubleWord => (8u64, BusTxSize::Bits64),
                OpWidth::Word | OpWidth::WordUnsigned => (4u64, BusTxSize::Bits32),
                OpWidth::HalfWord | OpWidth::HalfWordUnsigned => (2u64, BusTxSize::Bits16),
                _ => (1u64, BusTxSize::Bits8),
            };
            let x = translation_bus(va, AccessType::Load, s.mode, s.csr, s.bus).load_value(pa % 0x1_0000_0000, size).unwrap();
            let v: u64 = match w {
                OpWidth::Byte => if x % 0x100 >= 0x80 { (x % 0x100 + 0xFFFF_FFFF_FFFF_FF00) as u64 } else { x % 0x100 },
                OpWidth::HalfWord => if x % 0x1_0000 >= 0x8000 { (x % 0x1_0000 + 0xFFFF_FFFF_FFFF_0000) as u64 } else { x % 0x1_0000 },
                OpWidth::Word => if x % 0x1_0000_0000 >= 0x8000_0000 { (x % 0x1_0000_0000 + 0xFFFF_FFFF_0000_0000) as u64 } else { x % 0x1_0000_0000 },
                _ => x,
            };
            &&& r.pc == s.pc && r.csr == s.csr && r.mode == s.mode
            &&& pa % align != 0 ==> r.regs == s.regs && r.exception == Some((Exception::LoadAddressMisaligned, va))
            &&& pa % align == 0 ==> r.regs == s.regs.update(rd as int, v) && r.exception == s.exception
        }),
{
    assert(exec_spec(s, i, raw) == crate::exec::exec_load(s, i));
    let va = ((s.regs[rs_1 as int] + imm) % 0x1_0000_0000_0000_0000int) as u64;
    let size = crate::exec::tx_size_of(i.op_width);
    let x = translation_bus(va, AccessType::Load, s.mode, s.csr, s.bus).load_value(pa % 0x1_0000_0000, size).unwrap();
    if i.op_width == OpWidth::Word {
        lemma_sext_word_of(x, (x % 0x1_0000_0000) as int);
    } else if i.op_width == OpWidth::HalfWord {
        if x % 0x1_0000 >= 0x8000 {
            assert((x % 0x1_0000 - 0x1_0000) % 0x1_0000_0000_0000_0000int == x % 0x1_0000 + 0xFFFF_FFFF_FFFF_0000);
        }
    } else if i.op_width == OpWidth::Byte {
        if x % 0x100 >= 0x80 {
            assert((x % 0x100 - 0x100) % 0x1_0000_0000_0000_0000int == x % 0x100 + 0xFFFF_FFFF_FFFF_FF00);
        }
    }
}

// ---- Atomic memory operations ---------------------------------------------------

/// Law: a 64-bit atomic read-modify-write (`amoswap.d`, `amoadd.d`,
/// `amoxor.d`, `amoand.d`, `amoor.d`, `amomin.d`, `amomax.d`, `amominu.d`,
/// `amomaxu.d`) at the address in rs1, translated to physical `pa`, writes
/// the doubleword `a` read at `pa` to rd and holds as the bus's pending
/// store at `pa` the doubleword computed from `a` and the value `b` of rs2:
/// `b`, (a + b) mod 2^64, a xor b, a and b, a or b, the smaller or larger
/// of the two as two's-complement integers (`amomin.d`, `amomax.d`) or as
/// unsigned integers (`amominu.d`, `amomaxu.d`). The pc, CSRs and mode are
/// unchanged.
#[verifier::spinoff_prover]
pub proof fn lemma_amo_doubleword(s: CpuState, i: Instr, raw: u32, rs_1: usize, rs_2: usize, rd: usize, pa: u64)
    requires
        s.wf(),
        i.wf(),
        i.op == InstrOp::AtomicSwap || i.op == InstrOp::AtomicAdd || i.op == InstrOp::AtomicXor
            || i.op == InstrOp::AtomicAnd || i.op == InstrOp::AtomicOr || i.op == InstrOp::AtomicMin
            || i.op == InstrOp::AtomicMax,
        i.op_width == OpWidth::DoubleWord || i.op_width == OpWidth::DoubleWordUnsigned,
        i.flow == (InstrFlow::RegRegMem2RegMem { rs_1, rs_2, rd }),
        translation(s.regs[rs_1 as int], AccessType::Load, s.mode, s.csr, s.bus) == Translation::Translated(pa),
    ensures
        ({
            let r = exec_spec(s, i, raw);
            let a = translation_bus(s.regs[rs_1 as int], AccessType::Load, s.mode, s.csr, s.bus)
                .load_value(pa % 0x1_0000_0000, BusTxSize::Bits64).unwrap();
            let b = s.regs[rs_2 as int];
            let sa: int = if a >= 0x8000_0000_0000_0000 { a - 0x1_0000_0000_0000_0000int } else { a as int };
            let sb: int = if b >= 0x8000_0000_0000_0000 { b - 0x1_0000_0000_0000_0000int } else { b as int };
            let unsigned = i.op_width == OpWidth::DoubleWordUnsigned;
            let new: u64 = match i.op {
                InstrOp::AtomicSwap => b,
                InstrOp::AtomicAdd => ((a + b) % 0x1_0000_0000_0000_0000int) as u64,
                InstrOp::AtomicXor => a ^ b,
                InstrOp::AtomicAnd => a & b,
                InstrOp::AtomicOr => a | b,
                InstrOp::AtomicMin => if unsigned { if a <= b { a } else { b } } else { if sa <= sb { a } else { b } },
                _ => if unsigned { if a >= b { a } else { b } } else { if sa >= sb { a } else { b } },
            };
            &&& r.regs == s.regs.update(rd as int, a)
            &&& r.bus.pending_store == Some((pa, new, BusTxSize::Bits64))
            &&& r.pc == s.pc && r.csr == s.csr && r.mode == s.mode && r.exception == s.exception
        }),
{
    assert(exec_spec(s, i, raw) == crate::exec::exec_atomic(s, i));
}

// ---- Environment calls ------------------------------------------------------------

/// Law: `ecall` raises the environment call of the current privilege level
/// (cause 8 from U-mode, 9 from S-mode, 11 from M-mode) with trap value 0,
/// and `ebreak` raises a breakpoint (cause 3) whose trap value is the pc;
/// nothing else changes.
pub proof fn lemma_environment_calls(s: CpuState, i: Instr, raw: u32)
    requires
        i.op == InstrOp::EnvCall || i.op == InstrOp::EnvBreak,
    ensures
        ({
            let r = exec_spec(s, i, raw);
            let code: u64 = if i.op == InstrOp::EnvBreak {
                3
            } else {
                match s.mode {
                    CpuMode::User => 8,
                    CpuMode::Supervisor => 9,
                    CpuMode::Machine => 11,
                }
            };
            let data = if i.op == InstrOp::EnvBreak { s.pc } else { 0 };
            &&& r.exception matches Some((e, d)) && e.code() == code && d == data
            &&& r == (CpuState { exception: r.exception, ..s })
        }),
{
}

// ---- The core-local interruptor -------------------------------------------------

/// Law: polling the timer sets MTIP (bit 7 of `mip`) exactly when `mtime`
/// has reached `mtimecmp` (unsigned), sets MSIP (bit 3) to bit 0 of the
/// `msip` register, keeps the supervisor bits SSIP, STIP, SEIP (1, 5, 9)
/// and MEIP (11) as they were, and clears every bit that is no interrupt.
/// A doubleword written to one of the timer's registers (`msip` at
/// 0x200_0000, `mtimecmp` at 0x200_4000, `mtime` at 0x200_BFF8) is what a
/// read of that register gives back, and the other two are unchanged.
pub proof fn lemma_clint(mip: u64, c: ClintState, addr: u64, val: u64)
    requires
        addr == 0x200_0000 || addr == 0x200_4000 || addr == 0x200_BFF8,
    ensures
        ({
            let r = mip_with_timer(mip, c);
            &&& (r >> 7) & 1 == (if c.mtime >= c.mtimecmp { 1u64 } else { 0u64 })
            &&& (r >> 3) & 1 == c.msip & 1
            &&& (r >> 1) & 1 == (mip >> 1) & 1 && (r >> 5) & 1 == (mip >> 5) & 1
            &&& (r >> 9) & 1 == (mip >> 9) & 1 && (r >> 11) & 1 == (mip >> 11) & 1
            &&& r & !0x2aaau64 == 0
        }),
        ({
            let t = c.store(addr, val, BusTxSize::Bits64);
            &&& t.load(addr) == val
            &&& addr != 0x200_0000 ==> t.msip == c.msip
            &&& addr != 0x200_4000 ==> t.mtimecmp == c.mtimecmp
            &&& addr != 0x200_BFF8 ==> t.mtime == c.mtime
        }),
{
    let b7 = c.mtime >= c.mtimecmp;
    let ms = c.msip;
    assert({
        let r = crate::csr::with_bit(crate::csr::with_bit(mip & 0x2aaa, 3, ms & 1 != 0), 7, b7);
        &&& (r >> 7) & 1 == (if b7 { 1u64 } else { 0u64 })
        &&& (r >> 3) & 1 == ms & 1
        &&& (r >> 1) & 1 == (mip >> 1) & 1 && (r >> 5) & 1 == (mip >> 5) & 1
        &&& (r >> 9) & 1 == (mip >> 9) & 1 && (r >> 11) & 1 == (mip >> 11) & 1
        &&& r & !0x2aaau64 == 0
    }) by (bit_vector);
}

// ---- CSR instructions -------------------------------------------------------------

/// Law: the CSR instructions read the register (`csrrw` with rd = x0 does
/// not read it), raising an illegal-instruction exception that carries the
/// instruction word when the read is not allowed; otherwise rd gets the old
/// value `v` and the register is written: `csrrw`/`csrrwi` with the source,
/// `csrrs`/`csrrsi` with `v | src` and `csrrc`/`csrrci` with `v & !src`,
/// the last two only when the source (rs1's value, or the 5-bit immediate)
/// is nonzero. The pc and mode are unchanged.
#[verifier::spinoff_prover]
pub proof fn lemma_csr_instruction(s: CpuState, i: Instr, raw: u32, src: u64, rd: usize, csr: u64)
    requires
        s.wf(),
        i.wf(),
        i.op == InstrOp::CsrReadAndWrite || i.op == InstrOp::CsrReadAndSetBits || i.op == InstrOp::CsrReadAndClearBits,
        (exists|rs_1: usize| i.flow == (InstrFlow::Reg2RegCsr { rs_1, rd, csr }) && src == s.regs[rs_1 as int])
            || i.flow == (InstrFlow::Imm2RegCsr { imm: src, rd, csr }),
        CsrState::store_result(csr) is Some,
    ensures
        ({
            let r = exec_spec(s, i, raw);
            let reads = i.op != InstrOp::CsrReadAndWrite || rd != 0;
            &&& r.pc == s.pc && r.mode == s.mode
            &&& !reads ==> r == (CpuState { csr: s.csr.store(csr, src, s.mode), ..s })
            &&& reads && s.csr.load(csr, s.mode) is None ==> r == (CpuState {
                exception: Some((Exception::IllegalInstruction, raw as u64)),
                ..s
            })
            &&& reads ==> (s.csr.load(csr, s.mode) matches Some(v) ==> {
                let new = match i.op {
                    InstrOp::CsrReadAndWrite => src,
                    InstrOp::CsrReadAndSetBits => v | src,
                    _ => v & !src,
                };
                let writes = i.op == InstrOp::CsrReadAndWrite || src != 0;
                &&& r.regs == s.regs.update(rd as int, v)
                &&& r.csr == if writes { s.csr.store(csr, new, s.mode) } else { s.csr }
                &&& r.exception == s.exception
            })
        }),
{
}

// ---- Register views -----------------------------------------------------------------

/// Law: reads of the supervisor views and the identity registers, in any
/// mode: `sstatus` (0x100) is `mstatus` masked to its supervisor fields
/// (0x8000_0003_018D_E762), `sie` (0x104) and `sip` (0x144) are `mie` and
/// `mip` masked by `mideleg`; `misa` (0x301) reports RV64 (MXL = 2) with
/// the A, C, I, M, S and U letters (0x8000_0000_0014_1105), `mvendorid`,
/// `mimpid` and `mhartid` (0xF11, 0xF13, 0xF14) read 0 and `marchid`
/// (0xF12) 5. A write to `sie` or `sip` from S- or M-mode changes only the
/// bits that `mideleg` delegates, of `mie` or `mip`, and reads back as the
/// written value masked by `mideleg`.
pub proof fn lemma_csr_views(s: CsrState, mode: CpuMode, v: u64)
    requires
        s.inv(),
    ensures
        s.load(0x100, mode) == Some(s.mstatus & 0x8000_0003_018D_E762u64),
        s.load(0x104, mode) == Some(s.mie & s.mideleg),
        s.load(0x144, mode) == Some(s.mip & s.mideleg),
        s.load(0x301, mode) == Some(0x8000_0000_0014_1105u64),
        s.load(0xF11, mode) == Some(0u64) && s.load(0xF12, mode) == Some(5u64),
        s.load(0xF13, mode) == Some(0u64) && s.load(0xF14, mode) == Some(0u64),
        mode != CpuMode::User ==> s.store(0x104, v, mode) == (CsrState { mie: (s.mie & !s.mideleg) | (v & s.mideleg), ..s })
            && s.store(0x104, v, mode).load(0x104, mode) == Some(v & s.mideleg),
        mode != CpuMode::User ==> s.store(0x144, v, mode) == (CsrState { mip: (s.mip & !s.mideleg) | (v & s.mideleg), ..s })
            && s.store(0x144, v, mode).load(0x144, mode) == Some(v & s.mideleg),
{
    crate::csr::lemma_normalize_mstatus_idempotent(s.mstatus);
    let c = s.mcountinhibit;
    let d = s.mideleg;
    let e = s.mie;
    let p = s.mip;
    assert(crate::csr::misa_value() == 0x8000_0000_0014_1105u64
        && (c < 8 ==> c & 0b111 == c)
        && ((e & !d) | (v & d)) & d == v & d
        && ((p & !d) | (v & d)) & d == v & d) by (bit_vector);
}

// ---- Counters ---------------------------------------------------------------------

/// Law: the counters `cycle` (CSR 0xC00), `time` (0xC01) and `instret`
/// (0xC02), counter n = 0, 1, 2, read in M-mode always; in S-mode only when
/// bit n of `mcounteren` is set; in U-mode only when bit n is set in both
/// `mcounteren` and `scounteren`. Otherwise the read is illegal.
pub proof fn lemma_counter_read(s: CsrState, mode: CpuMode, n: u64)
    requires
        n < 3,
    ensures
        ({
            let value = if n == 0 { s.cycle } else if n == 1 { s.time } else { s.instret };
            let m_bit = (s.mcounteren >> n) & 1 == 1;
            let s_bit = (s.scounteren >> n) & 1 == 1;
            let readable = match mode {
                CpuMode::Machine => true,
                CpuMode::Supervisor => m_bit,
                CpuMode::User => m_bit && s_bit,
            };
            s.load((0xC00 + n) as u64, mode) == if readable { Some(value) } else { None::<u64> }
        }),
{
    let mc = s.mcounteren;
    let sc = s.scounteren;
    let e: u64 = if n == 0 { 1 } else if n == 1 { 2 } else { 4 };
    assert(n < 3 && e == (if n == 0 { 1u64 } else if n == 1 { 2u64 } else { 4u64 }) ==>
        ((mc & e != 0) == ((mc >> n) & 1 == 1) && (sc & e != 0) == ((sc >> n) & 1 == 1))) by (bit_vector);
    assert(((0xC00 + n) as u64) % 0x1000 == 0xC00 + n);
}

// ---- Sv39 leaf entries ----------------------------------------------------------

/// Law: a leaf page-table entry found at `level` (0 for a 4 KiB page, 1 for
/// a 2 MiB megapage, 2 for a 1 GiB gigapage) translates the access, with
/// no page fault, exactly when its physical page number (bits 53..10) is
/// aligned to the leaf's size (the low 9 bits clear for a megapage, the low
/// 18 for a gigapage), its A bit (0x40) is set or it lies in RAM where the
/// walk sets it, it grants the access (X = 0x08 for a fetch; R = 0x02, or X
/// under MXR, for a load; W = 0x04 with D = 0x80 set or the entry in RAM
/// for a store), and the privilege allows it (U = 0x10 for user mode; for
/// supervisor mode a user page only for a load or store with SUM). The
/// physical address is then the page number times 4 KiB plus the virtual
/// address's offset within the leaf's region; otherwise the access takes
/// the page fault of its kind.
pub proof fn lemma_leaf_decision(
    pte: u64,
    va: u64,
    access: AccessType,
    mode: CpuMode,
    sum: bool,
    mxr: bool,
    level: nat,
    in_ram: bool,
)
    requires
        level < 3,
    ensures
        ({
            let ppn = (pte / 0x400) % 0x1000_0000_0000;
            let span: u64 = if level == 0 { 0x1000 } else if level == 1 { 0x20_0000 } else { 0x4000_0000 };
            let grants = {
                &&& level == 1 ==> (pte / 0x400) % 0x200 == 0
                &&& level == 2 ==> (pte / 0x400) % 0x4_0000 == 0
                &&& pte & 0x40 != 0 || in_ram
                &&& match access {
                    AccessType::InstructionFetch => pte & 0x08 != 0,
                    AccessType::Load => pte & 0x02 != 0 || (mxr && pte & 0x08 != 0),
                    AccessType::Store => pte & 0x04 != 0 && (pte & 0x80 != 0 || in_ram),
                }
                &&& mode == CpuMode::User ==> pte & 0x10 != 0
                &&& mode == CpuMode::Supervisor && pte & 0x10 != 0 ==> access != AccessType::InstructionFetch && sum
            };
            let fault = match access {
                AccessType::InstructionFetch => Exception::InstructionPageFault,
                AccessType::Load => Exception::LoadPageFault,
                AccessType::Store => Exception::StorePageFault,
            };
            &&& grants ==> leaf_outcome(pte, va, access, mode, sum, mxr, level, in_ram)
                == Translation::Translated((ppn * 0x1000 + va % span) as u64)
            &&& !grants ==> leaf_outcome(pte, va, access, mode, sum, mxr, level, in_ram)
                == Translation::Fault(fault)
        }),
{
    let x = (pte / 0x400) as int;
    let ppn = (pte / 0x400) % 0x1000_0000_0000;
    vstd::arithmetic::div_mod::lemma_mod_mod(x, 0x200, 0x8_0000_0000);
    vstd::arithmetic::div_mod::lemma_mod_mod(x, 0x4_0000, 0x400_0000);
    assert(ppn % 0x200 == x % 0x200);
    assert(ppn % 0x4_0000 == x % 0x4_0000);
    let vpn0 = (va / 0x1000) % 0x200;
    let vpn1 = (va / 0x20_0000) % 0x200;
    let off = va % 0x1000;
    let ppn0 = ppn % 0x200;
    let ppn1 = (ppn / 0x200) % 0x200;
    let ppn2 = (ppn / 0x4_0000) % 0x400_0000;
    assert(ppn == ppn2 * 0x4_0000 + ppn1 * 0x200 + ppn0) by (nonlinear_arith)
        requires
            0 <= ppn < 0x1000_0000_0000,
            ppn0 == ppn % 0x200,
            ppn1 == (ppn / 0x200) % 0x200,
            ppn2 == (ppn / 0x4_0000) % 0x400_0000,
    ;
    vstd::arithmetic::div_mod::lemma_mod_breakdown(va as int, 0x1000, 0x200);
    vstd::arithmetic::div_mod::lemma_mod_breakdown(va as int, 0x20_0000, 0x200);
    assert(va % 0x20_0000 == vpn0 * 0x1000 + off);
    assert(va % 0x4000_0000 == vpn1 * 0x20_0000 + vpn0 * 0x1000 + off);
    if level == 1 && x % 0x200 == 0 {
        assert(ppn0 == 0);
    } else if level == 2 && x % 0x4_0000 == 0 {
        assert(ppn0 == 0 && ppn1 == 0) by (nonlinear_arith)
            requires
                ppn % 0x4_0000 == 0,
                ppn0 == ppn % 0x200,
                ppn1 == (ppn / 0x200) % 0x200,
        ;
    }
    if level == 0 || (level == 1 && x % 0x200 == 0) || (level == 2 && x % 0x4_0000 == 0) {
        assert(compose(ppn, va, level) as int == ppn * 0x1000 + va % (if level == 0 { 0x1000u64 } else if level == 1 { 0x20_0000u64 } else { 0x4000_0000u64 }));
    }
}

// ---- Address translation ------------------------------------------------------------

/// Law: the privilege a translation checks is the hart's mode, except that
/// M-mode loads and stores with `mstatus.MPRV` (bit 17) set use
/// `mstatus.MPP` (bits 12..11; the reserved value 2 aborts). In M-mode, or
/// with `satp.MODE` (bits 63..60) Bare (0), the physical address is the
/// virtual one. Otherwise, with MODE Sv39 (8), an address whose bits
/// 63..38 are not all equal takes the page fault of the access, and a
/// canonical one is walked from the root table at `satp.PPN` (bits 43..0)
/// times 4 KiB, from level 2, with SUM = `mstatus` bit 18 and MXR = bit 19;
/// any other MODE takes the page fault.
pub proof fn lemma_translation_modes(va: u64, access: AccessType, mode: CpuMode, csr: CsrState, bus: BusState)
    ensures
        ({
            let m = csr.mstatus;
            let mpp = (m / 0x800) % 4;
            let eff = if mode == CpuMode::Machine && (m / 0x2_0000) % 2 == 1 && access != AccessType::InstructionFetch {
                if mpp == 3 { Some(CpuMode::Machine) } else if mpp == 1 { Some(CpuMode::Supervisor) }
                else if mpp == 0 { Some(CpuMode::User) } else { None }
            } else {
                Some(mode)
            };
            let satp_mode = csr.satp / 0x1000_0000_0000_0000;
            let fault = Translation::Fault(match access {
                AccessType::InstructionFetch => Exception::InstructionPageFault,
                AccessType::Load => Exception::LoadPageFault,
                AccessType::Store => Exception::StorePageFault,
            });
            let t = translation(va, access, mode, csr, bus);
            match eff {
                None => t == Translation::Abort,
                Some(e) => if e == CpuMode::Machine || satp_mode == 0 {
                    t == Translation::Translated(va)
                } else if satp_mode != 8 || !(va < 0x40_0000_0000 || va >= 0xFFFF_FFC0_0000_0000) {
                    t == fault
                } else {
                    t == crate::mmu::walk_from(va, access, e, (m / 0x4_0000) % 2 == 1, (m / 0x8_0000) % 2 == 1, bus,
                        ((csr.satp % 0x1000_0000_0000) * 0x1000) as u64, 2)
                },
            }
        }),
{
    broadcast use crate::csr::fields::group_from_bits;

    let m = csr.mstatus;
    assert(crate::csr::bit_of(m & 0x800006ff01ffffeau64, 17) == ((m / 0x2_0000) % 2 == 1)
        && crate::csr::bit_of(m & 0x800006ff01ffffeau64, 18) == ((m / 0x4_0000) % 2 == 1)
        && crate::csr::bit_of(m & 0x800006ff01ffffeau64, 19) == ((m / 0x8_0000) % 2 == 1)
        && crate::csr::field_of(m & 0x800006ff01ffffeau64, 11, 2) == (m / 0x800) % 4) by (bit_vector);
    let satp = csr.satp;
    assert(satp & 0xffff_ffff_ffff_ffff == satp) by (bit_vector);
    assert(crate::mmu::canonical(va) == (va < 0x40_0000_0000 || va >= 0xFFFF_FFC0_0000_0000));
}

// ---- Exception delegation -------------------------------------------------------

/// Law: an exception raised in U- or S-mode enters the S-mode handler
/// exactly when bit `e.code()` of `medeleg` is set and the exception is one
/// that can be delegated (instruction access fault, illegal instruction,
/// breakpoint, misaligned load or store, the U- and S-mode environment
/// calls, and the three page faults); otherwise, and always from M-mode, it
/// enters the M-mode handler. `scause` or `mcause` reports the code,
/// `sepc` or `mepc` the pc of the trapping instruction, `stval` or `mtval`
/// the trap value, and the pc moves to the base of `stvec` or `mtvec` (its
/// low two bits, the vector mode, cleared).
pub proof fn lemma_exception_delegation(e: Exception, data: u64, csr: CsrState, mode: CpuMode, pc: u64)
    ensures
        ({
            let c = e.code();
            let delegable = c == 1 || c == 2 || c == 3 || c == 4 || c == 6 || c == 8 || c == 9
                || c == 12 || c == 13 || c == 15;
            let to_s = mode != CpuMode::Machine && delegable && (csr.medeleg >> c) & 1 == 1;
            let t = take_exception(e, data, csr, mode, pc);
            &&& to_s ==> t.mode == CpuMode::Supervisor && t.csr.sepc == pc && t.csr.scause == c
                && t.csr.stval == data && t.pc == csr.stvec - csr.stvec % 4
            &&& !to_s ==> t.mode == CpuMode::Machine && t.csr.mepc == pc && t.csr.mcause == c
                && t.csr.mtval == data && t.pc == csr.mtvec - csr.mtvec % 4
        }),
{
    broadcast use crate::csr::fields::group_from_bits;

    let m = csr.medeleg;
    let c = e.code();
    assert(m & 0xffff_ffff_ffff_ffff == m) by (bit_vector);
    assert(((m >> c) & 1 != 0) == ((m >> c) & 1 == 1)) by (bit_vector);
    assert(crate::csr::MExceptionDelegation::spec_from_bits(m).bits() == m);
    assert(crate::trap::exception_delegated(e, csr) == ((c == 1 || c == 2 || c == 3 || c == 4 || c == 6
        || c == 8 || c == 9 || c == 12 || c == 13 || c == 15) && (m >> c) & 1 == 1)) by {
        match e {
            Exception::InstructionAddressMisaligned => {},
            Exception::InstructionAccessFault => {},
            Exception::IllegalInstruction => {},
            Exception::Breakpoint => {},
            Exception::LoadAddressMisaligned => {},
            Exception::LoadAccessFault => {},
            Exception::StoreAddressMisaligned => {},
            Exception::StoreAccessFault => {},
            Exception::EnvCallUMode => {},
            Exception::EnvCallSMode => {},
            Exception::EnvCallMMode => {},
            Exception::InstructionPageFault => {},
            Exception::LoadPageFault => {},
            Exception::StorePageFault => {},
        }
    }
    crate::trap_return::lemma_cause_values(c);
    lemma_vector_base(csr.stvec);
    lemma_vector_base(csr.mtvec);
}

/// The base of a trap-vector register: the value with its mode bits cleared.
proof fn lemma_vector_base(x: u64)
    ensures
        crate::csr::field_of(x & 0xffff_ffff_ffff_ffff, 2, 62) << 2u64 == x - x % 4,
{
    assert(crate::csr::field_of(x & 0xffff_ffff_ffff_ffff, 2, 62) << 2u64 == x - x % 4) by (bit_vector);
}

/// Bit `c` of a register view that keeps the interrupt bits (1, 3, 5, 7,
/// 9, 11) is bit `c` of the raw value.
proof fn lemma_interrupt_bit(x: u64, c: u64)
    requires
        c == 1 || c == 3 || c == 5 || c == 7 || c == 9 || c == 11,
    ensures
        crate::csr::bit_of(x & 0x2aaa, c) == ((x >> c) & 1 == 1),
{
    assert(crate::csr::bit_of(x & 0x2aaa, c) == ((x >> c) & 1 == 1)) by (bit_vector)
        requires
            c == 1 || c == 3 || c == 5 || c == 7 || c == 9 || c == 11,
    ;
}

// ---- Interrupts -------------------------------------------------------------------

/// Law: interrupt source `t` (code `t.value()`) is taken in `mode` exactly
/// when bit `code` is set in both `mip` and `mie`, and its level allows it:
/// a source delegated by bit `code` of `mideleg` goes to S-mode, where it is
/// taken from U-mode always, from S-mode when `mstatus.SIE` (bit 1) is set,
/// and never from M-mode; any other source goes to M-mode, where it is
/// taken from U- and S-mode always and from M-mode when `mstatus.MIE`
/// (bit 3) is set. Taking it enters the handler of that level.
pub proof fn lemma_interrupt_taken(t: InterruptType, csr: CsrState, mode: CpuMode, pc: u64)
    ensures
        ({
            let c = t.value();
            let pending = (csr.mip >> c) & 1 == 1 && (csr.mie >> c) & 1 == 1;
            let to_s = (csr.mideleg >> c) & 1 == 1;
            let allowed = match mode {
                CpuMode::User => true,
                CpuMode::Supervisor => !to_s || (csr.mstatus >> 1) & 1 == 1,
                CpuMode::Machine => !to_s && (csr.mstatus >> 3) & 1 == 1,
            };
            &&& interrupt_taken(t, csr, mode) == (pending && allowed)
            &&& take_interrupt(t, csr, mode, pc).mode == if to_s { CpuMode::Supervisor } else { CpuMode::Machine }
        }),
{
    broadcast use crate::csr::fields::group_from_bits;

    let c = t.value();
    lemma_interrupt_bit(csr.mip, c);
    lemma_interrupt_bit(csr.mie, c);
    lemma_interrupt_bit(csr.mideleg, c);
    let m = csr.mstatus;
    assert(crate::csr::bit_of(m & 0x800006ff01ffffea, 1) == ((m >> 1) & 1 == 1)
        && crate::csr::bit_of(m & 0x800006ff01ffffea, 3) == ((m >> 3) & 1 == 1)) by (bit_vector);
    assert(interrupt_taken(t, csr, mode) == ((((csr.mip >> c) & 1 == 1 && (csr.mie >> c) & 1 == 1))
        && match mode {
            CpuMode::User => true,
            CpuMode::Supervisor => !((csr.mideleg >> c) & 1 == 1) || (m >> 1) & 1 == 1,
            CpuMode::Machine => !((csr.mideleg >> c) & 1 == 1) && (m >> 3) & 1 == 1,
        })) by {
        match t {
            InterruptType::MachineExternal => {},
            InterruptType::MachineSoftware => {},
            InterruptType::MachineTimer => {},
            InterruptType::SupervisorExternal => {},
            InterruptType::SupervisorSoftware => {},
            InterruptType::SupervisorTimer => {},
        }
    }
}

// ---- The satp register ----------------------------------------------------------

/// Law: in M- or S-mode a write to `satp` (CSR 0x180) whose MODE field
/// (bits 63..60) is Bare (0) or Sv39 (8) stores the value whole, changes
/// no other register, and the next read gives it back; a write of any other
/// MODE, or any write from U-mode, leaves every register as it was.
pub proof fn lemma_satp_write(s: CsrState, val: u64, mode: CpuMode)
    requires
        s.inv(),
    ensures
        mode != CpuMode::User && (val / 0x1000_0000_0000_0000 == 0 || val / 0x1000_0000_0000_0000 == 8)
            ==> s.store(0x180, val, mode) == (CsrState { satp: val, ..s })
            && s.store(0x180, val, mode).load(0x180, mode) == Some(val),
        mode == CpuMode::User || !(val / 0x1000_0000_0000_0000 == 0 || val / 0x1000_0000_0000_0000 == 8)
            ==> s.store(0x180, val, mode) == s,
{
    assert(crate::csr::field_of(val, 60, 4) == val / 0x1000_0000_0000_0000) by (bit_vector);
    crate::csr::lemma_normalize_mstatus_idempotent(s.mstatus);
    let c = s.mcountinhibit;
    assert(c < 8 ==> c & 0b111 == c) by (bit_vector);
}

} // verus!
