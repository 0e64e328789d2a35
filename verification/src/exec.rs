//! Instruction execution: the effect of one decoded instruction on the hart.
//! Integer arithmetic wraps at the register width, as the ISA defines it.
use vstd::prelude::*;

use crate::bus::{bus_addr, load_answered, BusState, BusTxSize};
use crate::csr::{bit_of, merge_sstatus, with_bit, with_field, CsrState, MStatus, SStatus};
use crate::decode::{Instr, InstrFlow, InstrOp, OpWidth};
use crate::mmu::{translation, translation_bus, AccessType, Translation};
use crate::trap::Exception;
use crate::{wrap64, Cpu, CpuMode, CpuState};

verus! {

broadcast use crate::csr::fields::group_from_bits;

// ---- Two's-complement arithmetic -----------------------------------------

/// The signed value of a 64-bit pattern.
pub open spec fn sval64(a: u64) -> int {
    if a >= 0x8000_0000_0000_0000 { a - 0x1_0000_0000_0000_0000int } else { a as int }
}

/// The signed value of the low word of a 64-bit pattern.
pub open spec fn sval32(a: u64) -> int {
    let w = a % 0x1_0000_0000;
    if w >= 0x8000_0000 { w - 0x1_0000_0000int } else { w as int }
}

/// The low word of `a` sign-extended to 64 bits.
pub open spec fn sext_word(a: u64) -> u64 {
    wrap64(sval32(a))
}

/// The low half-word of `a` sign-extended to 64 bits.
pub open spec fn sext_half(a: u64) -> u64 {
    let h = a % 0x1_0000;
    if h >= 0x8000 { wrap64(h - 0x1_0000) } else { h }
}

/// The low byte of `a` sign-extended to 64 bits.
pub open spec fn sext_byte(a: u64) -> u64 {
    let b = a % 0x100;
    if b >= 0x80 { wrap64(b - 0x100) } else { b }
}

pub open spec fn abs(x: int) -> int {
    if x < 0 { -x } else { x }
}

/// Division rounding toward zero.
pub open spec fn tdiv(x: int, y: int) -> int {
    let q = abs(x) / abs(y);
    if (x < 0) != (y < 0) { -q } else { q }
}

/// Remainder of division rounding toward zero: it takes the sign of `x`.
pub open spec fn trem(x: int, y: int) -> int {
    let r = abs(x) % abs(y);
    if x < 0 { -r } else { r }
}

/// Arithmetic right shift of a 64-bit pattern: vacated bits copy the sign.
pub open spec fn sra64(a: u64, s: u64) -> u64 {
    if a & 0x8000_0000_0000_0000 == 0 { a >> s } else { !((!a) >> s) }
}

/// Arithmetic right shift of a 32-bit pattern.
pub open spec fn sra32(a: u32, s: u32) -> u32 {
    if a & 0x8000_0000 == 0 { a >> s } else { !((!a) >> s) }
}

/// The result of an integer operation on operands `a` and `b` at width `w`.
pub open spec fn alu(op: InstrOp, w: OpWidth, a: u64, b: u64) -> u64 {
    let word = w == OpWidth::Word;
    match op {
        InstrOp::Add => if word { sext_word(wrap64(a + b)) } else { wrap64(a + b) },
        InstrOp::Subtract => if word { sext_word(wrap64(a - b)) } else { wrap64(a - b) },
        InstrOp::Multiply => if word { sext_word(wrap64(a * b)) } else { wrap64(a * b) },
        InstrOp::MultiplyHigh => match w {
            OpWidth::DoubleWord => wrap64((sval64(a) * sval64(b)) / 0x1_0000_0000_0000_0000int),
            OpWidth::DoubleWordSignedUnsigned => wrap64((sval64(a) * b) / 0x1_0000_0000_0000_0000int),
            _ => ((a as nat * b as nat) / 0x1_0000_0000_0000_0000nat) as u64,
        },
        InstrOp::ShiftLeft => if word {
            sext_word((((a % 0x1_0000_0000) as u32) << ((b % 32) as u32)) as u64)
        } else {
            a << (b % 64)
        },
        InstrOp::ShiftRightLogical => if word {
            sext_word((((a % 0x1_0000_0000) as u32) >> ((b % 32) as u32)) as u64)
        } else {
            a >> (b % 64)
        },
        InstrOp::ShiftRightArithmetic => if word {
            sext_word(sra32((a % 0x1_0000_0000) as u32, (b % 32) as u32) as u64)
        } else {
            sra64(a, b % 64)
        },
        InstrOp::SetLesserThan => if w == OpWidth::DoubleWordUnsigned {
            if a < b { 1 } else { 0 }
        } else {
            if sval64(a) < sval64(b) { 1 } else { 0 }
        },
        InstrOp::Xor => a ^ b,
        InstrOp::Or => a | b,
        InstrOp::And => a & b,
        InstrOp::Divide => match w {
            OpWidth::DoubleWord => if b == 0 {
                u64::MAX
            } else if sval64(a) == -0x8000_0000_0000_0000 && sval64(b) == -1 {
                a
            } else {
                wrap64(tdiv(sval64(a), sval64(b)))
            },
            OpWidth::Word => if b % 0x1_0000_0000 == 0 {
                u64::MAX
            } else if sval32(a) == -0x8000_0000 && sval32(b) == -1 {
                sext_word(a)
            } else {
                wrap64(tdiv(sval32(a), sval32(b)))
            },
            OpWidth::DoubleWordUnsigned => if b == 0 { u64::MAX } else { a / b },
            _ => if b % 0x1_0000_0000 == 0 {
                u64::MAX
            } else {
                sext_word((a % 0x1_0000_0000) / (b % 0x1_0000_0000))
            },
        },
        InstrOp::Remainder => match w {
            OpWidth::DoubleWord => if b == 0 {
                a
            } else if sval64(a) == -0x8000_0000_0000_0000 && sval64(b) == -1 {
                0
            } else {
                wrap64(trem(sval64(a), sval64(b)))
            },
            OpWidth::Word => if b % 0x1_0000_0000 == 0 {
                sext_word(a)
            } else if sval32(a) == -0x8000_0000 && sval32(b) == -1 {
                0
            } else {
                wrap64(trem(sval32(a), sval32(b)))
            },
            OpWidth::DoubleWordUnsigned => if b == 0 { a } else { a % b },
            _ => if b % 0x1_0000_0000 == 0 {
                sext_word(a)
            } else {
                sext_word((a % 0x1_0000_0000) % (b % 0x1_0000_0000))
            },
        },
        _ => 0,
    }
}

// ---- Effects on the hart --------------------------------------------------

pub open spec fn set_reg(s: CpuState, rd: usize, v: u64) -> CpuState {
    CpuState { regs: s.regs.update(rd as int, v), ..s }
}

pub open spec fn raise(s: CpuState, e: Exception, data: u64) -> CpuState {
    CpuState { exception: Some((e, data)), ..s }
}

/// The operands and destination of a register-register or
/// register-immediate operation.
pub open spec fn binary_operands(s: CpuState, flow: InstrFlow) -> (u64, u64, usize) {
    match flow {
        InstrFlow::RegReg2Reg { rs_1, rs_2, rd } => (s.regs[rs_1 as int], s.regs[rs_2 as int], rd),
        InstrFlow::RegImm2Reg { rs_1, imm, rd } => (s.regs[rs_1 as int], imm, rd),
        _ => (0, 0, 0),
    }
}

/// The source operand, destination and CSR address of a CSR instruction.
pub open spec fn csr_operands(s: CpuState, flow: InstrFlow) -> (u64, usize, u64) {
    match flow {
        InstrFlow::Reg2RegCsr { rs_1, rd, csr } => (s.regs[rs_1 as int], rd, csr),
        InstrFlow::Imm2RegCsr { imm, rd, csr } => (imm, rd, csr),
        _ => (0, 0, 0),
    }
}

/// The program counter after a taken branch or jump by `imm`: the main loop
/// adds the instruction size afterwards, so it is subtracted here.
pub open spec fn branch_target(s: CpuState, i: Instr, imm: u64) -> u64 {
    wrap64(s.pc + imm - i.instr_size)
}

pub open spec fn branch_taken(s: CpuState, i: Instr) -> bool {
    match i.flow {
        InstrFlow::RegRegImm2PC { rs_1, rs_2, .. } => {
            let a = s.regs[rs_1 as int];
            let b = s.regs[rs_2 as int];
            match i.op {
                InstrOp::BranchIfEquals => a == b,
                InstrOp::BranchIfNotEquals => a != b,
                InstrOp::BranchIfLesserThan => if i.op_width == OpWidth::DoubleWord {
                    sval64(a) < sval64(b)
                } else {
                    a < b
                },
                _ => if i.op_width == OpWidth::DoubleWord {
                    sval64(a) >= sval64(b)
                } else {
                    a >= b
                },
            }
        },
        _ => false,
    }
}

/// The bus transfer size of a memory operation of width `w`.
pub open spec fn tx_size_of(w: OpWidth) -> BusTxSize {
    match w {
        OpWidth::DoubleWord | OpWidth::DoubleWordUnsigned => BusTxSize::Bits64,
        OpWidth::Word | OpWidth::WordUnsigned => BusTxSize::Bits32,
        OpWidth::HalfWord | OpWidth::HalfWordUnsigned => BusTxSize::Bits16,
        _ => BusTxSize::Bits8,
    }
}

/// Whether a physical address is misaligned for an access of width `w`.
pub open spec fn misaligned(addr: u64, w: OpWidth) -> bool {
    match w {
        OpWidth::DoubleWord => addr % 8 != 0,
        OpWidth::Word | OpWidth::WordUnsigned => addr % 4 != 0,
        OpWidth::HalfWord | OpWidth::HalfWordUnsigned => addr % 2 != 0,
        _ => false,
    }
}

/// The register value of loaded data of width `w`: signed widths
/// sign-extend, the others zero-extend.
pub open spec fn load_extend(val: u64, w: OpWidth) -> u64 {
    match w {
        OpWidth::Word => sext_word(val),
        OpWidth::HalfWord => sext_half(val),
        OpWidth::Byte => sext_byte(val),
        _ => val,
    }
}

/// A load by the hart from physical `addr` and what it reads.
pub open spec fn bus_load(s: CpuState, addr: u64, size: BusTxSize) -> (CpuState, u64) {
    let a = bus_addr(addr);
    (
        CpuState {
            bus: BusState { last_load: Some((a, size)), ..s.bus.load_effect(a, size) },
            ..s
        },
        s.bus.load_value(a, size).unwrap(),
    )
}

/// Whether a hart load from physical `addr` is answered (without aborting).
pub open spec fn bus_load_ok(s: CpuState, addr: u64, size: BusTxSize) -> bool {
    BusState::load_ok(bus_addr(addr), size) && s.bus.load_value(bus_addr(addr), size) is Some
}

pub open spec fn bus_store(s: CpuState, addr: u64, val: u64, size: BusTxSize) -> CpuState {
    CpuState { bus: BusState { pending_store: Some((addr, size.truncate(val), size)), ..s.bus }, ..s }
}

pub open spec fn translate_of(s: CpuState, va: u64, access: AccessType) -> Translation {
    translation(va, access, s.mode, s.csr, s.bus)
}

/// The hart after translating `va`: the page walk may have set the accessed
/// and dirty bits of the leaf entry.
pub open spec fn translated(s: CpuState, va: u64, access: AccessType) -> CpuState {
    CpuState { bus: translation_bus(va, access, s.mode, s.csr, s.bus), ..s }
}

pub open spec fn exec_load(s: CpuState, i: Instr) -> CpuState {
    match i.flow {
        InstrFlow::RegImmMem2Reg { rs_1, imm, rd } => {
            let ea = wrap64(s.regs[rs_1 as int] + imm);
            match translate_of(s, ea, AccessType::Load) {
                Translation::Translated(addr) => {
                    let t = translated(s, ea, AccessType::Load);
                    if misaligned(addr, i.op_width) {
                        raise(t, Exception::LoadAddressMisaligned, ea)
                    } else {
                        let (s1, val) = bus_load(t, addr, tx_size_of(i.op_width));
                        set_reg(s1, rd, load_extend(val, i.op_width))
                    }
                },
                Translation::Fault(e) => raise(s, e, ea),
                Translation::Abort => s,
            }
        },
        _ => s,
    }
}

pub open spec fn load_defined(s: CpuState, i: Instr) -> bool {
    match i.flow {
        InstrFlow::RegImmMem2Reg { rs_1, imm, rd } => {
            let ea = wrap64(s.regs[rs_1 as int] + imm);
            match translate_of(s, ea, AccessType::Load) {
                Translation::Translated(addr) => !misaligned(addr, i.op_width)
                    ==> bus_load_ok(translated(s, ea, AccessType::Load), addr, tx_size_of(i.op_width)),
                Translation::Fault(e) => true,
                Translation::Abort => false,
            }
        },
        _ => true,
    }
}

pub open spec fn exec_store(s: CpuState, i: Instr) -> CpuState {
    match i.flow {
        InstrFlow::RegRegImm2Mem { rs_1, rs_2, imm } => {
            let ea = wrap64(s.regs[rs_1 as int] + imm);
            match translate_of(s, ea, AccessType::Store) {
                Translation::Translated(addr) => {
                    let t = translated(s, ea, AccessType::Store);
                    if misaligned(addr, i.op_width) {
                        raise(t, Exception::StoreAddressMisaligned, ea)
                    } else {
                        bus_store(t, addr, s.regs[rs_2 as int], tx_size_of(i.op_width))
                    }
                },
                Translation::Fault(e) => raise(s, e, ea),
                Translation::Abort => s,
            }
        },
        _ => s,
    }
}

pub open spec fn store_defined(s: CpuState, i: Instr) -> bool {
    match i.flow {
        InstrFlow::RegRegImm2Mem { rs_1, rs_2, imm } => {
            let ea = wrap64(s.regs[rs_1 as int] + imm);
            match translate_of(s, ea, AccessType::Store) {
                Translation::Translated(addr) => !misaligned(addr, i.op_width) ==> s.bus.pending_store is None,
                Translation::Fault(e) => true,
                Translation::Abort => false,
            }
        },
        _ => true,
    }
}

/// `mstatus` after `sret` returns to `to`: MPRV is cleared when returning
/// to U-mode, SIE takes SPIE, SPIE is set and SPP cleared.
pub open spec fn sret_mstatus(m: u64, to: CpuMode) -> u64 {
    let m0 = MStatus::spec_from_bits(m).bits();
    let m1 = if to == CpuMode::User { with_bit(m0, 17, false) } else { m0 };
    let s = SStatus::spec_from_bits(m1).bits();
    let s1 = with_bit(s, 1, bit_of(s, 5));
    merge_sstatus(m1, with_bit(with_bit(s1, 5, true), 8, false))
}

/// `mstatus` after `mret` returns to `to`: MPRV is cleared when leaving
/// M-mode, MIE takes MPIE, MPIE is set and MPP becomes U.
pub open spec fn mret_mstatus(m: u64, to: CpuMode) -> u64 {
    let m0 = MStatus::spec_from_bits(m).bits();
    let m1 = if to != CpuMode::Machine { with_bit(m0, 17, false) } else { m0 };
    let m2 = with_bit(m1, 3, bit_of(m1, 7));
    with_field(with_bit(m2, 7, true), 11, 2, 0)
}

pub open spec fn exec_sret(s: CpuState, i: Instr, raw: u32) -> CpuState {
    let ms = MStatus::spec_from_bits(s.csr.mstatus);
    if ms.tsr() || s.mode == CpuMode::User {
        raise(s, Exception::IllegalInstruction, raw as u64)
    } else {
        let to = if ms.spp() { CpuMode::Supervisor } else { CpuMode::User };
        CpuState {
            pc: wrap64(s.csr.sepc - i.instr_size),
            mode: to,
            csr: CsrState { mstatus: sret_mstatus(s.csr.mstatus, to), ..s.csr },
            ..s
        }
    }
}

pub open spec fn exec_mret(s: CpuState, i: Instr, raw: u32) -> CpuState {
    if s.mode != CpuMode::Machine {
        raise(s, Exception::IllegalInstruction, raw as u64)
    } else {
        let to = CpuMode::try_from_bits(MStatus::spec_from_bits(s.csr.mstatus).mpp()).unwrap();
        CpuState {
            pc: wrap64(s.csr.mepc - i.instr_size),
            mode: to,
            csr: CsrState { mstatus: mret_mstatus(s.csr.mstatus, to), ..s.csr },
            ..s
        }
    }
}

pub open spec fn mret_defined(s: CpuState) -> bool {
    s.mode == CpuMode::Machine ==> CpuMode::try_from_bits(MStatus::spec_from_bits(s.csr.mstatus).mpp()) is Some
}

/// A CSR write from an instruction: an unknown register raises an illegal
/// instruction exception.
pub open spec fn csr_write(s: CpuState, csr: u64, val: u64, raw: u32) -> CpuState {
    let s1 = CpuState { csr: s.csr.store(csr, val, s.mode), ..s };
    if CsrState::store_result(csr) is None {
        raise(s1, Exception::IllegalInstruction, raw as u64)
    } else {
        s1
    }
}

pub open spec fn exec_csr(s: CpuState, i: Instr, raw: u32) -> CpuState {
    let (op_1, rd, csr) = csr_operands(s, i.flow);
    let prior = s.csr.load(csr, s.mode);
    match i.op {
        InstrOp::CsrReadAndWrite => if rd != 0 {
            match prior {
                None => raise(s, Exception::IllegalInstruction, raw as u64),
                Some(v) => csr_write(set_reg(s, rd, v), csr, op_1, raw),
            }
        } else {
            csr_write(s, csr, op_1, raw)
        },
        InstrOp::CsrReadAndSetBits => match prior {
            None => raise(s, Exception::IllegalInstruction, raw as u64),
            Some(v) => if op_1 != 0 { csr_write(set_reg(s, rd, v), csr, v | op_1, raw) } else { set_reg(s, rd, v) },
        },
        _ => match prior {
            None => raise(s, Exception::IllegalInstruction, raw as u64),
            Some(v) => if op_1 != 0 { csr_write(set_reg(s, rd, v), csr, v & !op_1, raw) } else { set_reg(s, rd, v) },
        },
    }
}

/// Registers for LR/SC/AMO: address register, data register, destination.
pub open spec fn amo_operands(flow: InstrFlow) -> (usize, usize, usize) {
    match flow {
        InstrFlow::RegMem2Reg { rs_1, rd } => (rs_1, 0, rd),
        InstrFlow::RegReg2RegMem { rs_1, rs_2, rd } => (rs_1, rs_2, rd),
        InstrFlow::RegRegMem2RegMem { rs_1, rs_2, rd } => (rs_1, rs_2, rd),
        _ => (0, 0, 0),
    }
}

/// The access type under which an atomic translates its address.
pub open spec fn amo_access(op: InstrOp) -> AccessType {
    if op == InstrOp::StoreConditional { AccessType::Store } else { AccessType::Load }
}

pub open spec fn exec_lr(s: CpuState, i: Instr, addr: u64) -> CpuState {
    let (rs_1, rs_2, rd) = amo_operands(i.flow);
    let (s1, val) = bus_load(s, addr, tx_size_of(i.op_width));
    let s2 = set_reg(s1, rd, if i.op_width == OpWidth::DoubleWord { val } else { sext_word(val) });
    CpuState { bus: BusState { atomic_reservation: Some(addr), ..s2.bus }, ..s2 }
}

pub open spec fn exec_sc(s: CpuState, i: Instr, addr: u64) -> CpuState {
    let (rs_1, rs_2, rd) = amo_operands(i.flow);
    let s1 = CpuState { bus: BusState { atomic_reservation: None, ..s.bus }, ..s };
    if s.bus.atomic_reservation == Some(addr) {
        set_reg(bus_store(s1, addr, s.regs[rs_2 as int], tx_size_of(i.op_width)), rd, 0)
    } else {
        set_reg(s1, rd, 1)
    }
}

/// The value a read-modify-write atomic stores, given the value it read.
pub open spec fn amo_new_value(op: InstrOp, w: OpWidth, prior: u64, operand: u64) -> u64 {
    match op {
        InstrOp::AtomicSwap => operand,
        InstrOp::AtomicAdd => if w == OpWidth::DoubleWord { wrap64(prior + operand) } else { sext_word(wrap64(prior + operand)) },
        InstrOp::AtomicXor => if w == OpWidth::DoubleWord { prior ^ operand } else { sext_word(prior ^ operand) },
        InstrOp::AtomicAnd => if w == OpWidth::DoubleWord { prior & operand } else { sext_word(prior & operand) },
        InstrOp::AtomicOr => if w == OpWidth::DoubleWord { prior | operand } else { sext_word(prior | operand) },
        InstrOp::AtomicMin => match w {
            OpWidth::DoubleWord => if sval64(prior) <= sval64(operand) { prior } else { operand },
            OpWidth::DoubleWordUnsigned => if prior <= operand { prior } else { operand },
            OpWidth::Word => wrap64(if sval32(prior) <= sval32(operand) { sval32(prior) } else { sval32(operand) }) % 0x1_0000_0000,
            _ => if prior % 0x1_0000_0000 <= operand % 0x1_0000_0000 { prior % 0x1_0000_0000 } else { operand % 0x1_0000_0000 },
        },
        _ => match w {
            OpWidth::DoubleWord => if sval64(prior) >= sval64(operand) { prior } else { operand },
            OpWidth::DoubleWordUnsigned => if prior >= operand { prior } else { operand },
            OpWidth::Word => wrap64(if sval32(prior) >= sval32(operand) { sval32(prior) } else { sval32(operand) }) % 0x1_0000_0000,
            _ => if prior % 0x1_0000_0000 >= operand % 0x1_0000_0000 { prior % 0x1_0000_0000 } else { operand % 0x1_0000_0000 },
        },
    }
}

pub open spec fn exec_amo(s: CpuState, i: Instr, addr: u64) -> CpuState {
    let (rs_1, rs_2, rd) = amo_operands(i.flow);
    let size = tx_size_of(i.op_width);
    let (s1, val) = bus_load(s, addr, size);
    let prior = if i.op_width == OpWidth::Word { sext_word(val) } else { val };
    let new = amo_new_value(i.op, i.op_width, prior, s.regs[rs_2 as int]);
    bus_store(set_reg(s1, rd, prior), addr, new, size)
}

/// The effect of LR, SC and the read-modify-write atomics.
pub open spec fn exec_atomic(s: CpuState, i: Instr) -> CpuState {
    let (rs_1, rs_2, rd) = amo_operands(i.flow);
    let va = s.regs[rs_1 as int];
    match translate_of(s, va, amo_access(i.op)) {
        Translation::Translated(addr) => {
            let t = translated(s, va, amo_access(i.op));
            match i.op {
                InstrOp::LoadReserved => exec_lr(t, i, addr),
                InstrOp::StoreConditional => exec_sc(t, i, addr),
                _ => exec_amo(t, i, addr),
            }
        },
        Translation::Fault(e) => raise(s, e, va),
        Translation::Abort => s,
    }
}

pub open spec fn atomic_defined(s: CpuState, i: Instr) -> bool {
    let (rs_1, rs_2, rd) = amo_operands(i.flow);
    let va = s.regs[rs_1 as int];
    match translate_of(s, va, amo_access(i.op)) {
        Translation::Translated(addr) => {
            let t = translated(s, va, amo_access(i.op));
            match i.op {
                InstrOp::LoadReserved => bus_load_ok(t, addr, tx_size_of(i.op_width)),
                InstrOp::StoreConditional => t.bus.atomic_reservation == Some(addr) ==> t.bus.pending_store is None,
                _ => bus_load_ok(t, addr, tx_size_of(i.op_width)) && t.bus.pending_store is None,
            }
        },
        Translation::Fault(e) => true,
        Translation::Abort => false,
    }
}

pub open spec fn is_atomic(op: InstrOp) -> bool {
    op == InstrOp::LoadReserved || op == InstrOp::StoreConditional || op == InstrOp::AtomicSwap
        || op == InstrOp::AtomicAdd || op == InstrOp::AtomicXor || op == InstrOp::AtomicAnd
        || op == InstrOp::AtomicOr || op == InstrOp::AtomicMin || op == InstrOp::AtomicMax
}

/// Upper immediates, jumps and branches.
pub open spec fn exec_control(s: CpuState, i: Instr) -> CpuState {
    match i.op {
        InstrOp::LoadUpperImm => match i.flow {
            InstrFlow::Imm2Reg { imm, rd } => set_reg(s, rd, imm),
            _ => s,
        },
        InstrOp::AddUpperImmAndPC => match i.flow {
            InstrFlow::ImmPC2Reg { imm, rd } => set_reg(s, rd, wrap64(s.pc + imm)),
            _ => s,
        },
        InstrOp::JumpAndLink => match i.flow {
            InstrFlow::ImmPC2RegPC { imm, rd } => CpuState {
                pc: branch_target(s, i, imm),
                ..set_reg(s, rd, wrap64(s.pc + i.instr_size))
            },
            _ => s,
        },
        InstrOp::JumpAndLinkReg => match i.flow {
            InstrFlow::RegImmPC2RegPC { rs_1, imm, rd } => CpuState {
                pc: wrap64((wrap64(s.regs[rs_1 as int] + imm) & !1u64) - i.instr_size),
                ..set_reg(s, rd, wrap64(s.pc + i.instr_size))
            },
            _ => s,
        },
        InstrOp::BranchIfEquals | InstrOp::BranchIfNotEquals | InstrOp::BranchIfLesserThan
        | InstrOp::BranchIfGreaterThanOrEquals => match i.flow {
            InstrFlow::RegRegImm2PC { imm, .. } => if branch_taken(s, i) {
                CpuState { pc: branch_target(s, i, imm), ..s }
            } else {
                s
            },
            _ => s,
        },
        _ => s,
    }
}

/// Whether executing `i` completes without aborting the machine: every
/// memory access reaches a device that answers it, at most one store is
/// held per instruction, and `mret` finds a valid MPP.
pub open spec fn exec_defined(s: CpuState, i: Instr) -> bool {
    match i.op {
        InstrOp::Load => load_defined(s, i),
        InstrOp::Store => store_defined(s, i),
        InstrOp::MReturnFromTrap => mret_defined(s),
        _ => is_atomic(i.op) ==> atomic_defined(s, i),
    }
}

/// The state after executing `i` (fetched as `raw`). The program counter
/// is left at the instruction (or at a jump target less the instruction
/// size): the main loop advances it.
pub open spec fn exec_spec(s: CpuState, i: Instr, raw: u32) -> CpuState {
    match i.op {
        InstrOp::LoadUpperImm | InstrOp::AddUpperImmAndPC | InstrOp::JumpAndLink
        | InstrOp::JumpAndLinkReg | InstrOp::BranchIfEquals | InstrOp::BranchIfNotEquals
        | InstrOp::BranchIfLesserThan | InstrOp::BranchIfGreaterThanOrEquals => exec_control(s, i),
        InstrOp::Load => exec_load(s, i),
        InstrOp::Store => exec_store(s, i),
        InstrOp::Add | InstrOp::Multiply | InstrOp::Subtract | InstrOp::ShiftLeft
        | InstrOp::MultiplyHigh | InstrOp::SetLesserThan | InstrOp::Xor | InstrOp::Divide
        | InstrOp::ShiftRightLogical | InstrOp::ShiftRightArithmetic | InstrOp::Or
        | InstrOp::Remainder | InstrOp::And => {
            let (a, b, rd) = binary_operands(s, i.flow);
            set_reg(s, rd, alu(i.op, i.op_width, a, b))
        },
        InstrOp::FenceI => s,
        InstrOp::EnvCall => raise(
            s,
            match s.mode {
                CpuMode::Machine => Exception::EnvCallMMode,
                CpuMode::User => Exception::EnvCallUMode,
                CpuMode::Supervisor => Exception::EnvCallSMode,
            },
            0,
        ),
        InstrOp::EnvBreak => raise(s, Exception::Breakpoint, s.pc),
        InstrOp::SReturnFromTrap => exec_sret(s, i, raw),
        InstrOp::MReturnFromTrap => exec_mret(s, i, raw),
        InstrOp::CsrReadAndWrite | InstrOp::CsrReadAndSetBits | InstrOp::CsrReadAndClearBits => exec_csr(s, i, raw),
        _ => exec_atomic(s, i),
    }
}

// ---- Arithmetic ------------------------------------------------------------

fn sext_word_of(a: u64) -> (r: u64)
    ensures
        r == sext_word(a),
{
    let w = a % 0x1_0000_0000;
    if w >= 0x8000_0000 {
        w + 0xFFFF_FFFF_0000_0000
    } else {
        w
    }
}

fn sext_half_of(a: u64) -> (r: u64)
    ensures
        r == sext_half(a),
{
    let h = a % 0x1_0000;
    if h >= 0x8000 {
        h + 0xFFFF_FFFF_FFFF_0000
    } else {
        h
    }
}

fn sext_byte_of(a: u64) -> (r: u64)
    ensures
        r == sext_byte(a),
{
    let b = a % 0x100;
    if b >= 0x80 {
        b + 0xFFFF_FFFF_FFFF_FF00
    } else {
        b
    }
}

fn signed_lt(a: u64, b: u64) -> (r: bool)
    ensures
        r == (sval64(a) < sval64(b)),
{
    let a_neg = a >= 0x8000_0000_0000_0000;
    let b_neg = b >= 0x8000_0000_0000_0000;
    if a_neg != b_neg {
        a_neg
    } else {
        a < b
    }
}

fn signed_value(a: u64) -> (r: i128)
    ensures
        r == sval64(a),
{
    if a >= 0x8000_0000_0000_0000 {
        a as i128 - 0x1_0000_0000_0000_0000
    } else {
        a as i128
    }
}

/// The high 64 bits of a 128-bit signed product, as a pattern.
fn high_bits(p: i128) -> (r: u64)
    ensures
        r == wrap64(p as int / 0x1_0000_0000_0000_0000int),
{
    if p >= 0 {
        (p / 0x1_0000_0000_0000_0000) as u64
    } else {
        let q = (-1 - p) / 0x1_0000_0000_0000_0000;
        (0xFFFF_FFFF_FFFF_FFFFi128 - q) as u64
    }
}

/// Magnitude of a signed value given by its two's-complement pattern.
fn magnitude64(a: u64) -> (r: u64)
    ensures
        r == abs(sval64(a)),
{
    if a >= 0x8000_0000_0000_0000 {
        0u64.wrapping_sub(a)
    } else {
        a
    }
}

fn magnitude32(a: u64) -> (r: u64)
    ensures
        r == abs(sval32(a)),
{
    let w = a % 0x1_0000_0000;
    if w >= 0x8000_0000 {
        0x1_0000_0000 - w
    } else {
        w
    }
}

/// Encodes a signed value from its sign and magnitude.
fn signed_pattern(negative: bool, m: u64) -> (r: u64)
    ensures
        r == wrap64(if negative { -m } else { m as int }),
{
    if negative {
        0u64.wrapping_sub(m)
    } else {
        m
    }
}

pub open spec fn is_alu(op: InstrOp) -> bool {
    op == InstrOp::Add || op == InstrOp::Multiply || op == InstrOp::Subtract
        || op == InstrOp::ShiftLeft || op == InstrOp::MultiplyHigh || op == InstrOp::SetLesserThan
        || op == InstrOp::Xor || op == InstrOp::Divide || op == InstrOp::ShiftRightLogical
        || op == InstrOp::ShiftRightArithmetic || op == InstrOp::Or || op == InstrOp::Remainder
        || op == InstrOp::And
}

fn divide(w: OpWidth, a: u64, b: u64) -> (r: u64)
    requires
        w.is_arith_width(),
    ensures
        r == alu(InstrOp::Divide, w, a, b),
{
    match w {
        OpWidth::DoubleWord => {
            if b == 0 {
                u64::MAX
            } else if a == 0x8000_0000_0000_0000 && b == u64::MAX {
                a
            } else {
                let q = magnitude64(a) / magnitude64(b);
                signed_pattern((a >= 0x8000_0000_0000_0000) != (b >= 0x8000_0000_0000_0000), q)
            }
        },
        OpWidth::Word => {
            if b % 0x1_0000_0000 == 0 {
                u64::MAX
            } else if a % 0x1_0000_0000 == 0x8000_0000 && b % 0x1_0000_0000 == 0xFFFF_FFFF {
                sext_word_of(a)
            } else {
                let q = magnitude32(a) / magnitude32(b);
                signed_pattern((a % 0x1_0000_0000 >= 0x8000_0000) != (b % 0x1_0000_0000 >= 0x8000_0000), q)
            }
        },
        OpWidth::DoubleWordUnsigned => if b == 0 { u64::MAX } else { a / b },
        _ => {
            if b % 0x1_0000_0000 == 0 {
                u64::MAX
            } else {
                sext_word_of((a % 0x1_0000_0000) / (b % 0x1_0000_0000))
            }
        },
    }
}

fn remainder(w: OpWidth, a: u64, b: u64) -> (r: u64)
    requires
        w.is_arith_width(),
    ensures
        r == alu(InstrOp::Remainder, w, a, b),
{
    match w {
        OpWidth::DoubleWord => {
            if b == 0 {
                a
            } else if a == 0x8000_0000_0000_0000 && b == u64::MAX {
                0
            } else {
                signed_pattern(a >= 0x8000_0000_0000_0000, magnitude64(a) % magnitude64(b))
            }
        },
        OpWidth::Word => {
            if b % 0x1_0000_0000 == 0 {
                sext_word_of(a)
            } else if a % 0x1_0000_0000 == 0x8000_0000 && b % 0x1_0000_0000 == 0xFFFF_FFFF {
                0
            } else {
                signed_pattern(a % 0x1_0000_0000 >= 0x8000_0000, magnitude32(a) % magnitude32(b))
            }
        },
        OpWidth::DoubleWordUnsigned => if b == 0 { a } else { a % b },
        _ => {
            if b % 0x1_0000_0000 == 0 {
                sext_word_of(a)
            } else {
                sext_word_of((a % 0x1_0000_0000) % (b % 0x1_0000_0000))
            }
        },
    }
}

fn multiply_high(w: OpWidth, a: u64, b: u64) -> (r: u64)
    ensures
        r == alu(InstrOp::MultiplyHigh, w, a, b),
{
    match w {
        OpWidth::DoubleWord => {
            let sa = signed_value(a);
            let sb = signed_value(b);
            assert(-0x4000_0000_0000_0000_0000_0000_0000_0000 <= sa * sb <= 0x4000_0000_0000_0000_0000_0000_0000_0000) by (nonlinear_arith)
                requires
                    -0x8000_0000_0000_0000 <= sa < 0x8000_0000_0000_0000,
                    -0x8000_0000_0000_0000 <= sb < 0x8000_0000_0000_0000,
            ;
            high_bits(sa * sb)
        },
        OpWidth::DoubleWordSignedUnsigned => {
            let sa = signed_value(a);
            let ub = b as i128;
            assert(-0x8000_0000_0000_0000_0000_0000_0000_0000 < sa * ub < 0x8000_0000_0000_0000_0000_0000_0000_0000) by (nonlinear_arith)
                requires
                    -0x8000_0000_0000_0000 <= sa < 0x8000_0000_0000_0000,
                    0 <= ub < 0x1_0000_0000_0000_0000,
            ;
            high_bits(sa * ub)
        },
        _ => {
            let (ua, ub) = (a as u128, b as u128);
            assert(ua * ub <= 0xFFFF_FFFF_FFFF_FFFE_0000_0000_0000_0001) by (nonlinear_arith)
                requires
                    ua <= 0xFFFF_FFFF_FFFF_FFFF,
                    ub <= 0xFFFF_FFFF_FFFF_FFFF,
            ;
            let p = ua * ub;
            (p / 0x1_0000_0000_0000_0000) as u64
        },
    }
}

/// The integer operations: register-register and register-immediate.
fn alu_result(op: InstrOp, w: OpWidth, a: u64, b: u64) -> (r: u64)
    requires
        is_alu(op),
        (op == InstrOp::Divide || op == InstrOp::Remainder) ==> w.is_arith_width(),
    ensures
        r == alu(op, w, a, b),
{
    let word = w == OpWidth::Word;
    match op {
        InstrOp::Add => if word { sext_word_of(a.wrapping_add(b)) } else { a.wrapping_add(b) },
        InstrOp::Subtract => if word { sext_word_of(a.wrapping_sub(b)) } else { a.wrapping_sub(b) },
        InstrOp::Multiply => if word { sext_word_of(a.wrapping_mul(b)) } else { a.wrapping_mul(b) },
        InstrOp::MultiplyHigh => multiply_high(w, a, b),
        InstrOp::ShiftLeft => if word {
            sext_word_of((((a % 0x1_0000_0000) as u32) << ((b % 32) as u32)) as u64)
        } else {
            a << (b % 64)
        },
        InstrOp::ShiftRightLogical => if word {
            sext_word_of((((a % 0x1_0000_0000) as u32) >> ((b % 32) as u32)) as u64)
        } else {
            a >> (b % 64)
        },
        InstrOp::ShiftRightArithmetic => if word {
            let x = (a % 0x1_0000_0000) as u32;
            let s = (b % 32) as u32;
            let r = if x & 0x8000_0000 == 0 { x >> s } else { !((!x) >> s) };
            sext_word_of(r as u64)
        } else {
            let s = b % 64;
            if a & 0x8000_0000_0000_0000 == 0 { a >> s } else { !((!a) >> s) }
        },
        InstrOp::SetLesserThan => if w == OpWidth::DoubleWordUnsigned {
            if a < b { 1 } else { 0 }
        } else {
            if signed_lt(a, b) { 1 } else { 0 }
        },
        InstrOp::Xor => a ^ b,
        InstrOp::Or => a | b,
        InstrOp::Divide => divide(w, a, b),
        InstrOp::Remainder => remainder(w, a, b),
        _ => a & b,
    }
}

// ---- Execution ---------------------------------------------------------------

fn binary_op(cpu: &Cpu, instr: &Instr) -> (r: (u64, u64, usize))
    requires
        instr.flow.is_binary(),
        instr.flow.regs_in_range(),
    ensures
        r == binary_operands(cpu@, instr.flow),
        r.2 < 32,
{
    match instr.flow {
        InstrFlow::RegReg2Reg { rs_1, rs_2, rd } => (cpu.regs[rs_1], cpu.regs[rs_2], rd),
        InstrFlow::RegImm2Reg { rs_1, imm, rd } => (cpu.regs[rs_1], imm, rd),
        _ => (0, 0, 0),
    }
}

fn csr_op(cpu: &Cpu, instr: &Instr) -> (r: (u64, usize, u64))
    requires
        instr.flow is Reg2RegCsr || instr.flow is Imm2RegCsr,
        instr.flow.regs_in_range(),
    ensures
        r == csr_operands(cpu@, instr.flow),
        r.1 < 32,
{
    match instr.flow {
        InstrFlow::Reg2RegCsr { rs_1, rd, csr } => (cpu.regs[rs_1], rd, csr),
        InstrFlow::Imm2RegCsr { imm, rd, csr } => (imm, rd, csr),
        _ => (0, 0, 0),
    }
}

fn translate_addr(cpu: &mut Cpu, virt_addr: u64, acc_type: AccessType) -> (r: Result<u64, Exception>)
    requires
        old(cpu)@.wf(),
        translate_of(old(cpu)@, virt_addr, acc_type) != Translation::Abort,
    ensures
        final(cpu)@ == translated(old(cpu)@, virt_addr, acc_type),
        final(cpu)@.wf(),
        !(translate_of(old(cpu)@, virt_addr, acc_type) is Translated) ==> final(cpu)@ == old(cpu)@,
        r == match translate_of(old(cpu)@, virt_addr, acc_type) {
            Translation::Translated(pa) => Ok::<u64, Exception>(pa),
            Translation::Fault(e) => Err(e),
            Translation::Abort => Err(Exception::InstructionAccessFault),
        },
{
    proof {
        crate::mmu::lemma_translation_ad_update(virt_addr, acc_type, cpu.mode, cpu.csr@, cpu.bus@);
    }
    cpu.mmu.translate(virt_addr, acc_type, cpu.mode, &cpu.csr, &mut cpu.bus)
}

fn tx_size(w: OpWidth) -> (r: BusTxSize)
    ensures
        r == tx_size_of(w),
{
    match w {
        OpWidth::DoubleWord | OpWidth::DoubleWordUnsigned => BusTxSize::Bits64,
        OpWidth::Word | OpWidth::WordUnsigned => BusTxSize::Bits32,
        OpWidth::HalfWord | OpWidth::HalfWordUnsigned => BusTxSize::Bits16,
        _ => BusTxSize::Bits8,
    }
}

fn is_misaligned(addr: u64, w: OpWidth) -> (r: bool)
    ensures
        r == misaligned(addr, w),
{
    match w {
        OpWidth::DoubleWord => addr % 8 != 0,
        OpWidth::Word | OpWidth::WordUnsigned => addr % 4 != 0,
        OpWidth::HalfWord | OpWidth::HalfWordUnsigned => addr % 2 != 0,
        _ => false,
    }
}

fn exec_load_op(cpu: &mut Cpu, instr: &Instr)
    requires
        old(cpu)@.wf(),
        instr.wf(),
        instr.op == InstrOp::Load,
        load_defined(old(cpu)@, *instr),
    ensures
        final(cpu)@ == exec_load(old(cpu)@, *instr),
        final(cpu)@.wf(),
{
    let InstrFlow::RegImmMem2Reg { rs_1, imm, rd } = instr.flow else { return };
    let ea = cpu.regs[rs_1].wrapping_add(imm);
    let addr = match translate_addr(cpu, ea, AccessType::Load) {
        Ok(addr) => addr,
        Err(exc) => {
            cpu.exception = Some((exc, ea));
            return;
        },
    };
    if is_misaligned(addr, instr.op_width) {
        cpu.exception = Some((Exception::LoadAddressMisaligned, ea));
        return;
    }
    let val = match cpu.bus.load(addr, tx_size(instr.op_width)) {
        Some(v) => v,
        None => return,
    };
    cpu.regs[rd] = match instr.op_width {
        OpWidth::Word => sext_word_of(val),
        OpWidth::HalfWord => sext_half_of(val),
        OpWidth::Byte => sext_byte_of(val),
        _ => val,
    };
}

fn exec_store_op(cpu: &mut Cpu, instr: &Instr)
    requires
        old(cpu)@.wf(),
        instr.wf(),
        instr.op == InstrOp::Store,
        store_defined(old(cpu)@, *instr),
    ensures
        final(cpu)@ == exec_store(old(cpu)@, *instr),
        final(cpu)@.wf(),
{
    let InstrFlow::RegRegImm2Mem { rs_1, rs_2, imm } = instr.flow else { return };
    let ea = cpu.regs[rs_1].wrapping_add(imm);
    let addr = match translate_addr(cpu, ea, AccessType::Store) {
        Ok(addr) => addr,
        Err(exc) => {
            cpu.exception = Some((exc, ea));
            return;
        },
    };
    if is_misaligned(addr, instr.op_width) {
        cpu.exception = Some((Exception::StoreAddressMisaligned, ea));
        return;
    }
    cpu.bus.store(addr, cpu.regs[rs_2], tx_size(instr.op_width));
}

fn exec_sret_op(cpu: &mut Cpu, instr: &Instr, instr_raw: u32)
    requires
        old(cpu)@.wf(),
        instr.wf(),
    ensures
        final(cpu)@ == exec_sret(old(cpu)@, *instr, instr_raw),
{
    if cpu.csr.mstatus().tsr() || cpu.mode == CpuMode::User {
        cpu.exception = Some((Exception::IllegalInstruction, instr_raw as u64));
        return;
    }
    cpu.pc = cpu.csr.sepc().wrapping_sub(instr.instr_size as u64);
    cpu.mode = if cpu.csr.mstatus().spp() { CpuMode::Supervisor } else { CpuMode::User };
    let to_user = cpu.mode == CpuMode::User;
    let f = |mstatus: MStatus| -> (r: MStatus)
        ensures
            r.bits() == if to_user { with_bit(mstatus.bits(), 17, false) } else { mstatus.bits() },
        {
            let mut mstatus = mstatus;
            if to_user {
                mstatus.set_mprv(false);
            }
            mstatus
        };
    cpu.csr.update_mstatus(f);
    let g = |sstatus: SStatus| -> (r: SStatus)
        ensures
            r.bits() == with_bit(with_bit(with_bit(sstatus.bits(), 1, bit_of(sstatus.bits(), 5)), 5, true), 8, false),
        {
            let mut sstatus = sstatus;
            let spie = sstatus.spie();
            sstatus.set_sie(spie);
            sstatus.set_spie(true);
            sstatus.set_spp(false);
            sstatus
        };
    cpu.csr.update_sstatus(g);
}

fn exec_mret_op(cpu: &mut Cpu, instr: &Instr, instr_raw: u32)
    requires
        old(cpu)@.wf(),
        instr.wf(),
        mret_defined(old(cpu)@),
    ensures
        final(cpu)@ == exec_mret(old(cpu)@, *instr, instr_raw),
{
    if cpu.mode != CpuMode::Machine {
        cpu.exception = Some((Exception::IllegalInstruction, instr_raw as u64));
        return;
    }
    cpu.pc = cpu.csr.mepc().wrapping_sub(instr.instr_size as u64);
    cpu.mode = match CpuMode::try_from_bits(cpu.csr.mstatus().mpp()) {
        Some(m) => m,
        None => return,
    };
    let leave_machine = cpu.mode != CpuMode::Machine;
    let user = CpuMode::User.to_bits();
    let f = |mstatus: MStatus| -> (r: MStatus)
        ensures
            r.bits() == ({
                let m1 = if leave_machine { with_bit(mstatus.bits(), 17, false) } else { mstatus.bits() };
                with_field(with_bit(with_bit(m1, 3, bit_of(m1, 7)), 7, true), 11, 2, 0)
            }),
        {
            let mut mstatus = mstatus;
            if leave_machine {
                mstatus.set_mprv(false);
            }
            let mpie = mstatus.mpie();
            mstatus.set_mie(mpie);
            mstatus.set_mpie(true);
            mstatus.set_mpp(user);
            mstatus
        };
    cpu.csr.update_mstatus(f);
}

fn exec_csr_op(cpu: &mut Cpu, instr: &Instr, instr_raw: u32)
    requires
        old(cpu)@.wf(),
        instr.wf(),
        instr.op == InstrOp::CsrReadAndWrite || instr.op == InstrOp::CsrReadAndSetBits
            || instr.op == InstrOp::CsrReadAndClearBits,
    ensures
        final(cpu)@ == exec_csr(old(cpu)@, *instr, instr_raw),
        final(cpu)@.wf(),
{
    let (op_1, rd, csr) = csr_op(cpu, instr);
    match instr.op {
        InstrOp::CsrReadAndWrite => {
            if rd != 0 {
                let prior = match cpu.csr.load(csr, cpu.mode) {
                    Some(v) => v,
                    None => {
                        cpu.exception = Some((Exception::IllegalInstruction, instr_raw as u64));
                        return;
                    },
                };
                cpu.regs[rd] = prior;
            }
            if cpu.csr.store(csr, op_1, cpu.mode).is_none() {
                cpu.exception = Some((Exception::IllegalInstruction, instr_raw as u64));
            }
        },
        InstrOp::CsrReadAndSetBits => {
            let prior = match cpu.csr.load(csr, cpu.mode) {
                Some(v) => v,
                None => {
                    cpu.exception = Some((Exception::IllegalInstruction, instr_raw as u64));
                    return;
                },
            };
            cpu.regs[rd] = prior;
            if op_1 != 0 {
                if cpu.csr.store(csr, prior | op_1, cpu.mode).is_none() {
                    cpu.exception = Some((Exception::IllegalInstruction, instr_raw as u64));
                }
            }
        },
        _ => {
            let prior = match cpu.csr.load(csr, cpu.mode) {
                Some(v) => v,
                None => {
                    cpu.exception = Some((Exception::IllegalInstruction, instr_raw as u64));
                    return;
                },
            };
            cpu.regs[rd] = prior;
            if op_1 != 0 {
                if cpu.csr.store(csr, prior & !op_1, cpu.mode).is_none() {
                    cpu.exception = Some((Exception::IllegalInstruction, instr_raw as u64));
                }
            }
        },
    }
}

fn amo_regs(instr: &Instr) -> (r: (usize, usize, usize))
    requires
        instr.flow.regs_in_range(),
    ensures
        r == amo_operands(instr.flow),
        r.0 < 32 && r.1 < 32 && r.2 < 32,
{
    match instr.flow {
        InstrFlow::RegMem2Reg { rs_1, rd } => (rs_1, 0, rd),
        InstrFlow::RegReg2RegMem { rs_1, rs_2, rd } => (rs_1, rs_2, rd),
        InstrFlow::RegRegMem2RegMem { rs_1, rs_2, rd } => (rs_1, rs_2, rd),
        _ => (0, 0, 0),
    }
}

proof fn lemma_sext_word_value(x: u64)
    ensures
        sval64(sext_word(x)) == sval32(x),
        sext_word(x) % 0x1_0000_0000 == x % 0x1_0000_0000,
{
}

fn amo_min(w: OpWidth, prior: u64, operand: u64) -> (r: u64)
    ensures
        r == amo_new_value(InstrOp::AtomicMin, w, prior, operand),
{
    match w {
        OpWidth::DoubleWord => if !signed_lt(operand, prior) { prior } else { operand },
        OpWidth::DoubleWordUnsigned => if prior <= operand { prior } else { operand },
        OpWidth::Word => {
            let (o, p) = (sext_word_of(prior), sext_word_of(operand));
            proof {
                lemma_sext_word_value(prior);
                lemma_sext_word_value(operand);
            }
            (if !signed_lt(p, o) { o } else { p }) % 0x1_0000_0000
        },
        _ => {
            let (o, p) = (prior % 0x1_0000_0000, operand % 0x1_0000_0000);
            if o <= p { o } else { p }
        },
    }
}

fn amo_max(w: OpWidth, prior: u64, operand: u64) -> (r: u64)
    ensures
        r == amo_new_value(InstrOp::AtomicMax, w, prior, operand),
{
    match w {
        OpWidth::DoubleWord => if !signed_lt(prior, operand) { prior } else { operand },
        OpWidth::DoubleWordUnsigned => if prior >= operand { prior } else { operand },
        OpWidth::Word => {
            let (o, p) = (sext_word_of(prior), sext_word_of(operand));
            proof {
                lemma_sext_word_value(prior);
                lemma_sext_word_value(operand);
            }
            (if !signed_lt(o, p) { o } else { p }) % 0x1_0000_0000
        },
        _ => {
            let (o, p) = (prior % 0x1_0000_0000, operand % 0x1_0000_0000);
            if o >= p { o } else { p }
        },
    }
}

fn amo_value(op: InstrOp, w: OpWidth, prior: u64, operand: u64) -> (r: u64)
    ensures
        r == amo_new_value(op, w, prior, operand),
{
    let dw = w == OpWidth::DoubleWord;
    match op {
        InstrOp::AtomicSwap => operand,
        InstrOp::AtomicAdd => if dw { prior.wrapping_add(operand) } else { sext_word_of(prior.wrapping_add(operand)) },
        InstrOp::AtomicXor => if dw { prior ^ operand } else { sext_word_of(prior ^ operand) },
        InstrOp::AtomicAnd => if dw { prior & operand } else { sext_word_of(prior & operand) },
        InstrOp::AtomicOr => if dw { prior | operand } else { sext_word_of(prior | operand) },
        InstrOp::AtomicMin => amo_min(w, prior, operand),
        _ => amo_max(w, prior, operand),
    }
}

fn exec_atomic_op(cpu: &mut Cpu, instr: &Instr)
    requires
        old(cpu)@.wf(),
        instr.wf(),
        is_atomic(instr.op),
        atomic_defined(old(cpu)@, *instr),
    ensures
        final(cpu)@ == exec_atomic(old(cpu)@, *instr),
        final(cpu)@.wf(),
{
    let (rs_1, rs_2, rd) = amo_regs(instr);
    let va = cpu.regs[rs_1];
    let access = if instr.op == InstrOp::StoreConditional { AccessType::Store } else { AccessType::Load };
    let addr = match translate_addr(cpu, va, access) {
        Ok(addr) => addr,
        Err(exc) => {
            cpu.exception = Some((exc, va));
            return;
        },
    };
    let size = tx_size(instr.op_width);
    match instr.op {
        InstrOp::LoadReserved => {
            let val = match cpu.bus.load(addr, size) {
                Some(v) => v,
                None => return,
            };
            cpu.regs[rd] = if instr.op_width == OpWidth::DoubleWord { val } else { sext_word_of(val) };
            cpu.bus.atomic_reservation = Some(addr);
        },
        InstrOp::StoreConditional => {
            let reservation = cpu.bus.atomic_reservation;
            cpu.bus.atomic_reservation = None;
            match reservation {
                Some(x) if x == addr => {
                    cpu.bus.store(addr, cpu.regs[rs_2], size);
                    cpu.regs[rd] = 0;
                },
                _ => cpu.regs[rd] = 1,
            }
        },
        _ => {
            let val = match cpu.bus.load(addr, size) {
                Some(v) => v,
                None => return,
            };
            let prior = if instr.op_width == OpWidth::Word { sext_word_of(val) } else { val };
            let new = amo_value(instr.op, instr.op_width, prior, cpu.regs[rs_2]);
            cpu.regs[rd] = prior;
            cpu.bus.store(addr, new, size);
        },
    }
}

proof fn lemma_wrap_offset(a: u64, b: u64, c: u64)
    requires
        c <= 4,
    ensures
        wrap64(a + wrap64(b - c)) == wrap64(a + b - c),
{
}

/// `lui` and `auipc`.
fn exec_upper_op(cpu: &mut Cpu, instr: &Instr)
    requires
        old(cpu)@.wf(),
        instr.wf(),
        instr.op == InstrOp::LoadUpperImm || instr.op == InstrOp::AddUpperImmAndPC,
    ensures
        final(cpu)@ == exec_control(old(cpu)@, *instr),
        final(cpu)@.wf(),
{
    match instr.flow {
        InstrFlow::Imm2Reg { imm, rd } => {
            cpu.regs[rd] = imm;
        },
        InstrFlow::ImmPC2Reg { imm, rd } => {
            let v = cpu.pc.wrapping_add(imm);
            cpu.regs[rd] = v;
        },
        _ => {},
    }
}

/// `jal`: links the next instruction's address and jumps by the offset.
fn exec_jal_op(cpu: &mut Cpu, instr: &Instr, imm: u64, rd: usize)
    requires
        old(cpu)@.wf(),
        instr.wf(),
        instr.op == InstrOp::JumpAndLink,
        instr.flow == (InstrFlow::ImmPC2RegPC { imm, rd }),
    ensures
        final(cpu)@ == exec_control(old(cpu)@, *instr),
        final(cpu)@.wf(),
{
    let size = instr.instr_size as u64;
    let link = cpu.pc.wrapping_add(size);
    let target = cpu.pc.wrapping_add(imm.wrapping_sub(size));
    proof {
        lemma_wrap_offset(cpu.pc, imm, size);
    }
    cpu.regs[rd] = link;
    cpu.pc = target;
}

/// `jalr`: links the next instruction's address and jumps to the register
/// plus offset, with bit 0 cleared.
#[verifier::rlimit(30)]
fn exec_jalr_op(cpu: &mut Cpu, instr: &Instr, rs_1: usize, imm: u64, rd: usize)
    requires
        old(cpu)@.wf(),
        instr.wf(),
        instr.op == InstrOp::JumpAndLinkReg,
        instr.flow == (InstrFlow::RegImmPC2RegPC { rs_1, imm, rd }),
    ensures
        final(cpu)@ == exec_control(old(cpu)@, *instr),
        final(cpu)@.wf(),
{
    let size = instr.instr_size as u64;
    let base = cpu.regs[rs_1];
    let link = cpu.pc.wrapping_add(size);
    let sum = base.wrapping_add(imm);
    let target = (sum & !1u64).wrapping_sub(size);
    proof {
        let s = old(cpu)@;
        assert(link == wrap64(s.pc + instr.instr_size));
        assert(sum == wrap64(s.regs[rs_1 as int] + imm));
        assert(target == wrap64((sum & !1u64) - instr.instr_size));
        assert(exec_control(s, *instr) == CpuState {
            pc: target,
            ..set_reg(s, rd, link)
        });
    }
    cpu.regs[rd] = link;
    cpu.pc = target;
    proof {
        assert(cpu@.regs =~= old(cpu)@.regs.update(rd as int, link));
    }
}

/// Conditional branches.
#[verifier::rlimit(60)]
fn exec_branch_op(cpu: &mut Cpu, instr: &Instr)
    requires
        old(cpu)@.wf(),
        instr.wf(),
        instr.op == InstrOp::BranchIfEquals || instr.op == InstrOp::BranchIfNotEquals
            || instr.op == InstrOp::BranchIfLesserThan || instr.op == InstrOp::BranchIfGreaterThanOrEquals,
    ensures
        final(cpu)@ == exec_control(old(cpu)@, *instr),
        final(cpu)@.wf(),
{
    let size = instr.instr_size as u64;
    let InstrFlow::RegRegImm2PC { rs_1, rs_2, imm } = instr.flow else { return };
    let (a, b) = (cpu.regs[rs_1], cpu.regs[rs_2]);
    let branch = match instr.op {
        InstrOp::BranchIfEquals => a == b,
        InstrOp::BranchIfNotEquals => a != b,
        InstrOp::BranchIfLesserThan => if instr.op_width == OpWidth::DoubleWord {
            signed_lt(a, b)
        } else {
            a < b
        },
        _ => if instr.op_width == OpWidth::DoubleWord {
            !signed_lt(a, b)
        } else {
            a >= b
        },
    };
    assert(branch == branch_taken(cpu@, *instr));
    if branch {
        proof {
            lemma_wrap_offset(cpu.pc, imm, size);
        }
        cpu.pc = cpu.pc.wrapping_add(imm.wrapping_sub(size));
    }
}

fn load_completes(cpu: &Cpu, instr: &Instr) -> (r: bool)
    requires
        cpu@.wf(),
        instr.wf(),
        instr.op == InstrOp::Load,
    ensures
        r == load_defined(cpu@, *instr),
{
    let InstrFlow::RegImmMem2Reg { rs_1, imm, rd } = instr.flow else { return true };
    let ea = cpu.regs[rs_1].wrapping_add(imm);
    match cpu.mmu.walk(ea, AccessType::Load, cpu.mode, &cpu.csr, &cpu.bus).0 {
        Translation::Translated(addr) => {
            is_misaligned(addr, instr.op_width) || load_answered(addr % 0x1_0000_0000, tx_size(instr.op_width))
        },
        Translation::Fault(_) => true,
        Translation::Abort => false,
    }
}

fn store_completes(cpu: &Cpu, instr: &Instr) -> (r: bool)
    requires
        cpu@.wf(),
        instr.wf(),
        instr.op == InstrOp::Store,
    ensures
        r == store_defined(cpu@, *instr),
{
    let InstrFlow::RegRegImm2Mem { rs_1, rs_2, imm } = instr.flow else { return true };
    let ea = cpu.regs[rs_1].wrapping_add(imm);
    match cpu.mmu.walk(ea, AccessType::Store, cpu.mode, &cpu.csr, &cpu.bus).0 {
        Translation::Translated(addr) => is_misaligned(addr, instr.op_width) || cpu.bus.pending_store.is_none(),
        Translation::Fault(_) => true,
        Translation::Abort => false,
    }
}

fn atomic_completes(cpu: &Cpu, instr: &Instr) -> (r: bool)
    requires
        cpu@.wf(),
        instr.wf(),
        is_atomic(instr.op),
    ensures
        r == atomic_defined(cpu@, *instr),
{
    let (rs_1, rs_2, rd) = amo_regs(instr);
    let va = cpu.regs[rs_1];
    let access = if instr.op == InstrOp::StoreConditional { AccessType::Store } else { AccessType::Load };
    match cpu.mmu.walk(va, access, cpu.mode, &cpu.csr, &cpu.bus).0 {
        Translation::Translated(addr) => {
            let size = tx_size(instr.op_width);
            if instr.op == InstrOp::LoadReserved {
                load_answered(addr % 0x1_0000_0000, size)
            } else if instr.op == InstrOp::StoreConditional {
                cpu.bus.atomic_reservation != Some(addr) || cpu.bus.pending_store.is_none()
            } else {
                load_answered(addr % 0x1_0000_0000, size) && cpu.bus.pending_store.is_none()
            }
        },
        Translation::Fault(_) => true,
        Translation::Abort => false,
    }
}

/// Whether executing `instr` now completes (rather than aborting the machine).
pub fn exec_completes(cpu: &Cpu, instr: &Instr) -> (r: bool)
    requires
        cpu@.wf(),
        instr.wf(),
    ensures
        r == exec_defined(cpu@, *instr),
{
    match instr.op {
        InstrOp::Load => load_completes(cpu, instr),
        InstrOp::Store => store_completes(cpu, instr),
        InstrOp::MReturnFromTrap => {
            cpu.mode != CpuMode::Machine || CpuMode::try_from_bits(cpu.csr.mstatus().mpp()).is_some()
        },
        InstrOp::LoadReserved | InstrOp::StoreConditional | InstrOp::AtomicSwap | InstrOp::AtomicAdd
        | InstrOp::AtomicXor | InstrOp::AtomicAnd | InstrOp::AtomicOr | InstrOp::AtomicMin
        | InstrOp::AtomicMax => atomic_completes(cpu, instr),
        _ => true,
    }
}

/// Executes one decoded instruction (`instr_raw` is the fetched word, the
/// trap value of an illegal instruction).
pub fn exec(cpu: &mut Cpu, instr: &Instr, instr_raw: u32)
    requires
        old(cpu)@.wf(),
        instr.wf(),
        exec_defined(old(cpu)@, *instr),
    ensures
        final(cpu)@ == exec_spec(old(cpu)@, *instr, instr_raw),
        final(cpu)@.wf(),
{
    let size = instr.instr_size as u64;
    match instr.op {
        InstrOp::LoadUpperImm | InstrOp::AddUpperImmAndPC | InstrOp::JumpAndLink
        | InstrOp::JumpAndLinkReg | InstrOp::BranchIfEquals | InstrOp::BranchIfNotEquals
        | InstrOp::BranchIfLesserThan | InstrOp::BranchIfGreaterThanOrEquals => {
            if instr.op == InstrOp::LoadUpperImm || instr.op == InstrOp::AddUpperImmAndPC {
                exec_upper_op(cpu, instr)
            } else if instr.op == InstrOp::JumpAndLink {
                if let InstrFlow::ImmPC2RegPC { imm, rd } = instr.flow {
                    exec_jal_op(cpu, instr, imm, rd)
                }
            } else if instr.op == InstrOp::JumpAndLinkReg {
                if let InstrFlow::RegImmPC2RegPC { rs_1, imm, rd } = instr.flow {
                    exec_jalr_op(cpu, instr, rs_1, imm, rd)
                }
            } else {
                exec_branch_op(cpu, instr)
            }
        },
        InstrOp::Load => exec_load_op(cpu, instr),
        InstrOp::Store => exec_store_op(cpu, instr),
        InstrOp::Add | InstrOp::Multiply | InstrOp::Subtract | InstrOp::ShiftLeft
        | InstrOp::MultiplyHigh | InstrOp::SetLesserThan | InstrOp::Xor | InstrOp::Divide
        | InstrOp::ShiftRightLogical | InstrOp::ShiftRightArithmetic | InstrOp::Or
        | InstrOp::Remainder | InstrOp::And => {
            let (op_1, op_2, rd) = binary_op(cpu, instr);
            let v = alu_result(instr.op, instr.op_width, op_1, op_2);
            cpu.regs[rd] = v;
        },
        InstrOp::FenceI => {},
        InstrOp::EnvCall => {
            let exc = match cpu.mode {
                CpuMode::Machine => Exception::EnvCallMMode,
                CpuMode::User => Exception::EnvCallUMode,
                CpuMode::Supervisor => Exception::EnvCallSMode,
            };
            cpu.exception = Some((exc, 0));
        },
        InstrOp::EnvBreak => {
            cpu.exception = Some((Exception::Breakpoint, cpu.pc));
        },
        InstrOp::SReturnFromTrap => exec_sret_op(cpu, instr, instr_raw),
        InstrOp::MReturnFromTrap => exec_mret_op(cpu, instr, instr_raw),
        InstrOp::CsrReadAndWrite | InstrOp::CsrReadAndSetBits | InstrOp::CsrReadAndClearBits => {
            exec_csr_op(cpu, instr, instr_raw)
        },
        _ => exec_atomic_op(cpu, instr),
    }
}


} // verus!
