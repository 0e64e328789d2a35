//! Decoder for the 32-bit RV64IMA encodings.
use vstd::prelude::*;

use super::{sext, sign_extend, Instr, InstrFlow, InstrOp, OpWidth};

verus! {

pub open spec fn opc(i: u32) -> u32 {
    i % 128
}

pub open spec fn f3(i: u32) -> u32 {
    (i / 0x1000) % 8
}

pub open spec fn f7(i: u32) -> u32 {
    (i / 0x200_0000) % 128
}

pub open spec fn f5_amo(i: u32) -> u32 {
    (i / 0x800_0000) % 32
}

pub open spec fn reg_rs1(i: u32) -> usize {
    ((i / 0x8000) % 32) as usize
}

pub open spec fn reg_rs2(i: u32) -> usize {
    ((i / 0x10_0000) % 32) as usize
}

pub open spec fn reg_rd(i: u32) -> usize {
    ((i / 0x80) % 32) as usize
}

/// I-type immediate: bits 31..20, sign-extended from bit 11.
pub open spec fn imm_i(i: u32) -> u64 {
    sext((i / 0x10_0000) as u64, 11)
}

/// U-type immediate: bits 31..12 in place, sign-extended from bit 31.
pub open spec fn imm_u(i: u32) -> u64 {
    sext(((i / 0x1000) * 0x1000) as u64, 31)
}

/// J-type immediate: imm[20|10:1|11|19:12] from bits 31..12.
pub open spec fn imm_j(i: u32) -> u64 {
    sext(
        ((i / 0x8000_0000) % 2 * 0x10_0000 + (i / 0x1000) % 0x100 * 0x1000 + (i / 0x10_0000) % 2
            * 0x800 + (i / 0x20_0000) % 0x400 * 2) as u64,
        20,
    )
}

/// B-type immediate: imm[12|10:5] from bits 31..25 and imm[4:1|11] from bits 11..7.
pub open spec fn imm_b(i: u32) -> u64 {
    sext(
        ((i / 0x8000_0000) % 2 * 0x1000 + (i / 0x80) % 2 * 0x800 + (i / 0x200_0000) % 0x40 * 0x20
            + (i / 0x100) % 0x10 * 2) as u64,
        12,
    )
}

/// S-type immediate: imm[11:5] from bits 31..25 and imm[4:0] from bits 11..7.
pub open spec fn imm_s(i: u32) -> u64 {
    sext(((i / 0x200_0000) % 0x80 * 0x20 + (i / 0x80) % 0x20) as u64, 11)
}

fn opcode(instr: u32) -> (r: u32)
    ensures
        r == opc(instr),
{
    instr % 128
}

fn funct_3(instr: u32) -> (r: u32)
    ensures
        r == f3(instr),
{
    (instr / 0x1000) % 8
}

fn funct_7(instr: u32) -> (r: u32)
    ensures
        r == f7(instr),
{
    (instr / 0x200_0000) % 128
}

fn funct_7_atomic_type(instr: u32) -> (r: u32)
    ensures
        r == f5_amo(instr),
{
    (instr / 0x800_0000) % 32
}

fn rs_1(instr: u32) -> (r: usize)
    ensures
        r == reg_rs1(instr),
        r < 32,
{
    ((instr / 0x8000) % 32) as usize
}

fn rs_2(instr: u32) -> (r: usize)
    ensures
        r == reg_rs2(instr),
        r < 32,
{
    ((instr / 0x10_0000) % 32) as usize
}

fn rd(instr: u32) -> (r: usize)
    ensures
        r == reg_rd(instr),
        r < 32,
{
    ((instr / 0x80) % 32) as usize
}

fn imm_i_type(instr: u32) -> (r: u64)
    ensures
        r == imm_i(instr),
{
    sign_extend((instr / 0x10_0000) as u64, 11)
}

fn imm_u_type(instr: u32) -> (r: u64)
    ensures
        r == imm_u(instr),
{
    sign_extend(((instr / 0x1000) * 0x1000) as u64, 31)
}

fn imm_j_type(instr: u32) -> (r: u64)
    ensures
        r == imm_j(instr),
{
    let imm_10_1 = (instr / 0x20_0000) % 0x400;
    let imm_11 = (instr / 0x10_0000) % 2;
    let imm_19_12 = (instr / 0x1000) % 0x100;
    let imm_20 = (instr / 0x8000_0000) % 2;
    let imm = imm_20 * 0x10_0000 + imm_19_12 * 0x1000 + imm_11 * 0x800 + imm_10_1 * 2;
    sign_extend(imm as u64, 20)
}

fn imm_b_type(instr: u32) -> (r: u64)
    ensures
        r == imm_b(instr),
{
    let imm_4_1 = (instr / 0x100) % 0x10;
    let imm_10_5 = (instr / 0x200_0000) % 0x40;
    let imm_11 = (instr / 0x80) % 2;
    let imm_12 = (instr / 0x8000_0000) % 2;
    let imm = imm_12 * 0x1000 + imm_11 * 0x800 + imm_10_5 * 0x20 + imm_4_1 * 2;
    sign_extend(imm as u64, 12)
}

fn imm_s_type(instr: u32) -> (r: u64)
    ensures
        r == imm_s(instr),
{
    let imm_4_0 = (instr / 0x80) % 0x20;
    let imm_11_5 = (instr / 0x200_0000) % 0x80;
    let imm = imm_11_5 * 0x20 + imm_4_0;
    sign_extend(imm as u64, 11)
}

pub open spec fn mk(i: u32, op: InstrOp, flow: InstrFlow, w: OpWidth) -> Option<Instr> {
    Some(Instr { raw: i, op, flow, op_width: w, instr_size: 4 })
}

/// Register-register operations of the OP major opcode (0b0110011).
pub open spec fn op_reg_spec(i: u32) -> Option<(InstrOp, OpWidth)> {
    let f7 = f7(i);
    match f3(i) {
        0b000 => if f7 == 0 { Some((InstrOp::Add, OpWidth::DoubleWord)) }
            else if f7 == 1 { Some((InstrOp::Multiply, OpWidth::DoubleWord)) }
            else if f7 == 0b0100000 { Some((InstrOp::Subtract, OpWidth::DoubleWord)) }
            else { None },
        0b001 => if f7 == 0 { Some((InstrOp::ShiftLeft, OpWidth::DoubleWord)) }
            else if f7 == 1 { Some((InstrOp::MultiplyHigh, OpWidth::DoubleWord)) }
            else { None },
        0b010 => if f7 == 0 { Some((InstrOp::SetLesserThan, OpWidth::DoubleWord)) }
            else if f7 == 1 { Some((InstrOp::MultiplyHigh, OpWidth::DoubleWordSignedUnsigned)) }
            else { None },
        0b011 => if f7 == 0 { Some((InstrOp::SetLesserThan, OpWidth::DoubleWordUnsigned)) }
            else if f7 == 1 { Some((InstrOp::MultiplyHigh, OpWidth::DoubleWordUnsigned)) }
            else { None },
        0b100 => if f7 == 0 { Some((InstrOp::Xor, OpWidth::DoubleWord)) }
            else if f7 == 1 { Some((InstrOp::Divide, OpWidth::DoubleWord)) }
            else { None },
        0b101 => if f7 == 0 { Some((InstrOp::ShiftRightLogical, OpWidth::DoubleWord)) }
            else if f7 == 1 { Some((InstrOp::Divide, OpWidth::DoubleWordUnsigned)) }
            else if f7 == 0b0100000 { Some((InstrOp::ShiftRightArithmetic, OpWidth::DoubleWord)) }
            else { None },
        0b110 => if f7 == 0 { Some((InstrOp::Or, OpWidth::DoubleWord)) }
            else if f7 == 1 { Some((InstrOp::Remainder, OpWidth::DoubleWord)) }
            else { None },
        _ => if f7 == 0 { Some((InstrOp::And, OpWidth::DoubleWord)) }
            else if f7 == 1 { Some((InstrOp::Remainder, OpWidth::DoubleWordUnsigned)) }
            else { None },
    }
}

/// Register-register word operations of the OP-32 major opcode (0b0111011).
pub open spec fn op_reg_word_spec(i: u32) -> Option<InstrOp> {
    let f3 = f3(i);
    match f7(i) {
        0b0000000 => if f3 == 0 { Some(InstrOp::Add) }
            else if f3 == 1 { Some(InstrOp::ShiftLeft) }
            else if f3 == 5 { Some(InstrOp::ShiftRightLogical) }
            else { None },
        0b0100000 => if f3 == 0 { Some(InstrOp::Subtract) }
            else if f3 == 5 { Some(InstrOp::ShiftRightArithmetic) }
            else { None },
        _ => None,
    }
}

/// Width of an OP-32 operation; the M-extension word forms carry their own.
pub open spec fn op_reg_word_m_spec(i: u32) -> Option<(InstrOp, OpWidth)> {
    match f3(i) {
        0b000 => Some((InstrOp::Multiply, OpWidth::Word)),
        0b100 => Some((InstrOp::Divide, OpWidth::Word)),
        0b101 => Some((InstrOp::Divide, OpWidth::WordUnsigned)),
        0b110 => Some((InstrOp::Remainder, OpWidth::Word)),
        0b111 => Some((InstrOp::Remainder, OpWidth::WordUnsigned)),
        _ => None,
    }
}

pub open spec fn op_imm_spec(i: u32) -> Option<(InstrOp, OpWidth)> {
    match f3(i) {
        0b000 => Some((InstrOp::Add, OpWidth::DoubleWord)),
        0b001 => Some((InstrOp::ShiftLeft, OpWidth::DoubleWord)),
        0b010 => Some((InstrOp::SetLesserThan, OpWidth::DoubleWord)),
        0b011 => Some((InstrOp::SetLesserThan, OpWidth::DoubleWordUnsigned)),
        0b100 => Some((InstrOp::Xor, OpWidth::DoubleWord)),
        0b101 => {
            // bit 25 is part of the 6-bit shift amount
            let hi = f7(i) / 2;
            if hi == 0 { Some((InstrOp::ShiftRightLogical, OpWidth::DoubleWord)) }
            else if hi == 0b010000 { Some((InstrOp::ShiftRightArithmetic, OpWidth::DoubleWord)) }
            else { None }
        },
        0b110 => Some((InstrOp::Or, OpWidth::DoubleWord)),
        _ => Some((InstrOp::And, OpWidth::DoubleWord)),
    }
}

pub open spec fn op_imm_word_spec(i: u32) -> Option<InstrOp> {
    match f3(i) {
        0b000 => Some(InstrOp::Add),
        0b001 => Some(InstrOp::ShiftLeft),
        0b101 => if f7(i) == 0 { Some(InstrOp::ShiftRightLogical) }
            else if f7(i) == 0b0100000 { Some(InstrOp::ShiftRightArithmetic) }
            else { None },
        _ => None,
    }
}

pub open spec fn system_spec(i: u32) -> Option<(InstrOp, InstrFlow)> {
    let reg_csr = InstrFlow::Reg2RegCsr { rs_1: reg_rs1(i), rd: reg_rd(i), csr: imm_i(i) };
    let imm_csr = InstrFlow::Imm2RegCsr {
        imm: reg_rs1(i) as u64,
        rd: reg_rd(i),
        csr: (imm_i(i) % 0x1000) as u64,
    };
    match f3(i) {
        0b000 => if imm_i(i) == 0 { Some((InstrOp::EnvCall, InstrFlow::NoFlow)) }
            else if imm_i(i) == 1 { Some((InstrOp::EnvBreak, InstrFlow::NoFlow)) }
            else if f7(i) == 0b0001000 {
                if reg_rs2(i) == 0b00010 { Some((InstrOp::SReturnFromTrap, InstrFlow::NoFlow)) }
                else if reg_rs2(i) == 0b00101 { Some((InstrOp::FenceI, InstrFlow::NoFlow)) }
                else { None }
            } else if f7(i) == 0b0001001 { Some((InstrOp::FenceI, InstrFlow::NoFlow)) }
            else if f7(i) == 0b0011000 { Some((InstrOp::MReturnFromTrap, InstrFlow::NoFlow)) }
            else { None },
        0b001 => Some((InstrOp::CsrReadAndWrite, reg_csr)),
        0b010 => Some((InstrOp::CsrReadAndSetBits, reg_csr)),
        0b011 => Some((InstrOp::CsrReadAndClearBits, reg_csr)),
        0b101 => Some((InstrOp::CsrReadAndWrite, imm_csr)),
        0b110 => Some((InstrOp::CsrReadAndSetBits, imm_csr)),
        0b111 => Some((InstrOp::CsrReadAndClearBits, imm_csr)),
        _ => None,
    }
}

/// Atomic memory operations: the operation and whether it compares unsigned.
pub open spec fn amo_spec(i: u32) -> Option<(InstrOp, bool)> {
    match f5_amo(i) {
        0b00010 => Some((InstrOp::LoadReserved, false)),
        0b00011 => Some((InstrOp::StoreConditional, false)),
        0b00001 => Some((InstrOp::AtomicSwap, false)),
        0b00000 => Some((InstrOp::AtomicAdd, false)),
        0b00100 => Some((InstrOp::AtomicXor, false)),
        0b01100 => Some((InstrOp::AtomicAnd, false)),
        0b01000 => Some((InstrOp::AtomicOr, false)),
        0b10000 => Some((InstrOp::AtomicMin, false)),
        0b10100 => Some((InstrOp::AtomicMax, false)),
        0b11000 => Some((InstrOp::AtomicMin, true)),
        0b11100 => Some((InstrOp::AtomicMax, true)),
        _ => None,
    }
}

pub open spec fn amo_flow(i: u32, op: InstrOp) -> InstrFlow {
    match op {
        InstrOp::LoadReserved => InstrFlow::RegMem2Reg { rs_1: reg_rs1(i), rd: reg_rd(i) },
        InstrOp::StoreConditional => InstrFlow::RegReg2RegMem {
            rs_1: reg_rs1(i),
            rs_2: reg_rs2(i),
            rd: reg_rd(i),
        },
        _ => InstrFlow::RegRegMem2RegMem { rs_1: reg_rs1(i), rs_2: reg_rs2(i), rd: reg_rd(i) },
    }
}

pub open spec fn amo_width(i: u32, unsigned: bool) -> Option<OpWidth> {
    if f3(i) == 0b010 {
        Some(if unsigned { OpWidth::WordUnsigned } else { OpWidth::Word })
    } else if f3(i) == 0b011 {
        Some(if unsigned { OpWidth::DoubleWordUnsigned } else { OpWidth::DoubleWord })
    } else {
        None
    }
}

/// The table of 32-bit encodings that the decoder accepts.
pub open spec fn decode_spec(i: u32) -> Option<Instr> {
    let rr = InstrFlow::RegReg2Reg { rs_1: reg_rs1(i), rs_2: reg_rs2(i), rd: reg_rd(i) };
    let ri = InstrFlow::RegImm2Reg { rs_1: reg_rs1(i), imm: imm_i(i), rd: reg_rd(i) };
    match opc(i) {
        0b0110111 => mk(i, InstrOp::LoadUpperImm, InstrFlow::Imm2Reg { imm: imm_u(i), rd: reg_rd(i) }, OpWidth::NoWidth),
        0b0010111 => mk(i, InstrOp::AddUpperImmAndPC, InstrFlow::ImmPC2Reg { imm: imm_u(i), rd: reg_rd(i) }, OpWidth::NoWidth),
        0b1101111 => mk(i, InstrOp::JumpAndLink, InstrFlow::ImmPC2RegPC { imm: imm_j(i), rd: reg_rd(i) }, OpWidth::NoWidth),
        0b1100111 => mk(
            i,
            InstrOp::JumpAndLinkReg,
            InstrFlow::RegImmPC2RegPC { rs_1: reg_rs1(i), imm: imm_i(i), rd: reg_rd(i) },
            OpWidth::NoWidth,
        ),
        0b1100011 => {
            let flow = InstrFlow::RegRegImm2PC { rs_1: reg_rs1(i), rs_2: reg_rs2(i), imm: imm_b(i) };
            match f3(i) {
                0b000 => mk(i, InstrOp::BranchIfEquals, flow, OpWidth::DoubleWord),
                0b001 => mk(i, InstrOp::BranchIfNotEquals, flow, OpWidth::DoubleWord),
                0b100 => mk(i, InstrOp::BranchIfLesserThan, flow, OpWidth::DoubleWord),
                0b101 => mk(i, InstrOp::BranchIfGreaterThanOrEquals, flow, OpWidth::DoubleWord),
                0b110 => mk(i, InstrOp::BranchIfLesserThan, flow, OpWidth::DoubleWordUnsigned),
                0b111 => mk(i, InstrOp::BranchIfGreaterThanOrEquals, flow, OpWidth::DoubleWordUnsigned),
                _ => None,
            }
        },
        0b0000011 => {
            let flow = InstrFlow::RegImmMem2Reg { rs_1: reg_rs1(i), imm: imm_i(i), rd: reg_rd(i) };
            match f3(i) {
                0b000 => mk(i, InstrOp::Load, flow, OpWidth::Byte),
                0b001 => mk(i, InstrOp::Load, flow, OpWidth::HalfWord),
                0b010 => mk(i, InstrOp::Load, flow, OpWidth::Word),
                0b011 => mk(i, InstrOp::Load, flow, OpWidth::DoubleWord),
                0b100 => mk(i, InstrOp::Load, flow, OpWidth::ByteUnsigned),
                0b101 => mk(i, InstrOp::Load, flow, OpWidth::HalfWordUnsigned),
                0b110 => mk(i, InstrOp::Load, flow, OpWidth::WordUnsigned),
                _ => None,
            }
        },
        0b0100011 => {
            let flow = InstrFlow::RegRegImm2Mem { rs_1: reg_rs1(i), rs_2: reg_rs2(i), imm: imm_s(i) };
            match f3(i) {
                0b000 => mk(i, InstrOp::Store, flow, OpWidth::Byte),
                0b001 => mk(i, InstrOp::Store, flow, OpWidth::HalfWord),
                0b010 => mk(i, InstrOp::Store, flow, OpWidth::Word),
                0b011 => mk(i, InstrOp::Store, flow, OpWidth::DoubleWord),
                _ => None,
            }
        },
        0b0110011 => match op_reg_spec(i) {
            Some((op, w)) => mk(i, op, rr, w),
            None => None,
        },
        0b0111011 => {
            if f7(i) == 1 {
                match op_reg_word_m_spec(i) {
                    Some((op, w)) => mk(i, op, rr, w),
                    None => None,
                }
            } else {
                match op_reg_word_spec(i) {
                    Some(op) => mk(i, op, rr, OpWidth::Word),
                    None => None,
                }
            }
        },
        0b0010011 => match op_imm_spec(i) {
            Some((op, w)) => mk(i, op, ri, w),
            None => None,
        },
        0b0011011 => match op_imm_word_spec(i) {
            Some(op) => mk(i, op, ri, OpWidth::Word),
            None => None,
        },
        0b0001111 => mk(i, InstrOp::FenceI, InstrFlow::NoFlow, OpWidth::NoWidth),
        0b1110011 => match system_spec(i) {
            Some((op, flow)) => mk(i, op, flow, OpWidth::NoWidth),
            None => None,
        },
        0b0101111 => match amo_spec(i) {
            Some((op, unsigned)) => match amo_width(i, unsigned) {
                Some(w) => mk(i, op, amo_flow(i, op), w),
                None => None,
            },
            None => None,
        },
        _ => None,
    }
}

pub fn decode(instr: u32) -> (r: Option<Instr>)
    requires
        instr % 4 == 3,
    ensures
        r == decode_spec(instr),
        r matches Some(i) ==> i.wf(),
{
    let (op, flow, op_width) = match opcode(instr) {
        0b0110111 => (
            InstrOp::LoadUpperImm,
            InstrFlow::Imm2Reg { imm: imm_u_type(instr), rd: rd(instr) },
            OpWidth::NoWidth,
        ),
        0b0010111 => (
            InstrOp::AddUpperImmAndPC,
            InstrFlow::ImmPC2Reg { imm: imm_u_type(instr), rd: rd(instr) },
            OpWidth::NoWidth,
        ),
        0b1101111 => (
            InstrOp::JumpAndLink,
            InstrFlow::ImmPC2RegPC { imm: imm_j_type(instr), rd: rd(instr) },
            OpWidth::NoWidth,
        ),
        0b1100111 => (
            InstrOp::JumpAndLinkReg,
            InstrFlow::RegImmPC2RegPC { rs_1: rs_1(instr), imm: imm_i_type(instr), rd: rd(instr) },
            OpWidth::NoWidth,
        ),
        0b1100011 => {
            let (op, width) = match funct_3(instr) {
                0b000 => (InstrOp::BranchIfEquals, OpWidth::DoubleWord),
                0b001 => (InstrOp::BranchIfNotEquals, OpWidth::DoubleWord),
                0b100 => (InstrOp::BranchIfLesserThan, OpWidth::DoubleWord),
                0b101 => (InstrOp::BranchIfGreaterThanOrEquals, OpWidth::DoubleWord),
                0b110 => (InstrOp::BranchIfLesserThan, OpWidth::DoubleWordUnsigned),
                0b111 => (InstrOp::BranchIfGreaterThanOrEquals, OpWidth::DoubleWordUnsigned),
                _ => return None,
            };
            (
                op,
                InstrFlow::RegRegImm2PC { rs_1: rs_1(instr), rs_2: rs_2(instr), imm: imm_b_type(instr) },
                width,
            )
        },
        0b0000011 => {
            let op_width = match funct_3(instr) {
                0b000 => OpWidth::Byte,
                0b001 => OpWidth::HalfWord,
                0b010 => OpWidth::Word,
                0b011 => OpWidth::DoubleWord,
                0b100 => OpWidth::ByteUnsigned,
                0b101 => OpWidth::HalfWordUnsigned,
                0b110 => OpWidth::WordUnsigned,
                _ => return None,
            };
            (
                InstrOp::Load,
                InstrFlow::RegImmMem2Reg { rs_1: rs_1(instr), imm: imm_i_type(instr), rd: rd(instr) },
                op_width,
            )
        },
        0b0100011 => {
            let op_width = match funct_3(instr) {
                0b000 => OpWidth::Byte,
                0b001 => OpWidth::HalfWord,
                0b010 => OpWidth::Word,
                0b011 => OpWidth::DoubleWord,
                _ => return None,
            };
            (
                InstrOp::Store,
                InstrFlow::RegRegImm2Mem { rs_1: rs_1(instr), rs_2: rs_2(instr), imm: imm_s_type(instr) },
                op_width,
            )
        },
        0b0110011 => {
            let f7 = funct_7(instr);
            let (op, width) = match funct_3(instr) {
                0b000 => match f7 {
                    0b0000000 => (InstrOp::Add, OpWidth::DoubleWord),
                    0b0000001 => (InstrOp::Multiply, OpWidth::DoubleWord),
                    0b0100000 => (InstrOp::Subtract, OpWidth::DoubleWord),
                    _ => return None,
                },
                0b001 => match f7 {
                    0b0000000 => (InstrOp::ShiftLeft, OpWidth::DoubleWord),
                    0b0000001 => (InstrOp::MultiplyHigh, OpWidth::DoubleWord),
                    _ => return None,
                },
                0b010 => match f7 {
                    0b0000000 => (InstrOp::SetLesserThan, OpWidth::DoubleWord),
                    0b0000001 => (InstrOp::MultiplyHigh, OpWidth::DoubleWordSignedUnsigned),
                    _ => return None,
                },
                0b011 => match f7 {
                    0b0000000 => (InstrOp::SetLesserThan, OpWidth::DoubleWordUnsigned),
                    0b0000001 => (InstrOp::MultiplyHigh, OpWidth::DoubleWordUnsigned),
                    _ => return None,
                },
                0b100 => match f7 {
                    0b0000000 => (InstrOp::Xor, OpWidth::DoubleWord),
                    0b0000001 => (InstrOp::Divide, OpWidth::DoubleWord),
                    _ => return None,
                },
                0b101 => match f7 {
                    0b0000000 => (InstrOp::ShiftRightLogical, OpWidth::DoubleWord),
                    0b0000001 => (InstrOp::Divide, OpWidth::DoubleWordUnsigned),
                    0b0100000 => (InstrOp::ShiftRightArithmetic, OpWidth::DoubleWord),
                    _ => return None,
                },
                0b110 => match f7 {
                    0b0000000 => (InstrOp::Or, OpWidth::DoubleWord),
                    0b0000001 => (InstrOp::Remainder, OpWidth::DoubleWord),
                    _ => return None,
                },
                _ => match f7 {
                    0b0000000 => (InstrOp::And, OpWidth::DoubleWord),
                    0b0000001 => (InstrOp::Remainder, OpWidth::DoubleWordUnsigned),
                    _ => return None,
                },
            };
            (op, InstrFlow::RegReg2Reg { rs_1: rs_1(instr), rs_2: rs_2(instr), rd: rd(instr) }, width)
        },
        0b0111011 => {
            let f3 = funct_3(instr);
            let (op, width) = match funct_7(instr) {
                0b0000000 => match f3 {
                    0b000 => (InstrOp::Add, OpWidth::Word),
                    0b001 => (InstrOp::ShiftLeft, OpWidth::Word),
                    0b101 => (InstrOp::ShiftRightLogical, OpWidth::Word),
                    _ => return None,
                },
                0b0100000 => match f3 {
                    0b000 => (InstrOp::Subtract, OpWidth::Word),
                    0b101 => (InstrOp::ShiftRightArithmetic, OpWidth::Word),
                    _ => return None,
                },
                0b0000001 => match f3 {
                    0b000 => (InstrOp::Multiply, OpWidth::Word),
                    0b100 => (InstrOp::Divide, OpWidth::Word),
                    0b101 => (InstrOp::Divide, OpWidth::WordUnsigned),
                    0b110 => (InstrOp::Remainder, OpWidth::Word),
                    0b111 => (InstrOp::Remainder, OpWidth::WordUnsigned),
                    _ => return None,
                },
                _ => return None,
            };
            (op, InstrFlow::RegReg2Reg { rs_1: rs_1(instr), rs_2: rs_2(instr), rd: rd(instr) }, width)
        },
        0b0010011 => {
            let (op, width) = match funct_3(instr) {
                0b000 => (InstrOp::Add, OpWidth::DoubleWord),
                0b001 => (InstrOp::ShiftLeft, OpWidth::DoubleWord),
                0b010 => (InstrOp::SetLesserThan, OpWidth::DoubleWord),
                0b011 => (InstrOp::SetLesserThan, OpWidth::DoubleWordUnsigned),
                0b100 => (InstrOp::Xor, OpWidth::DoubleWord),
                0b101 => match funct_7(instr) / 2 {
                    0b000000 => (InstrOp::ShiftRightLogical, OpWidth::DoubleWord),
                    0b010000 => (InstrOp::ShiftRightArithmetic, OpWidth::DoubleWord),
                    _ => return None,
                },
                0b110 => (InstrOp::Or, OpWidth::DoubleWord),
                _ => (InstrOp::And, OpWidth::DoubleWord),
            };
            (op, InstrFlow::RegImm2Reg { rs_1: rs_1(instr), imm: imm_i_type(instr), rd: rd(instr) }, width)
        },
        0b0011011 => {
            let op = match funct_3(instr) {
                0b000 => InstrOp::Add,
                0b001 => InstrOp::ShiftLeft,
                0b101 => match funct_7(instr) {
                    0b0000000 => InstrOp::ShiftRightLogical,
                    0b0100000 => InstrOp::ShiftRightArithmetic,
                    _ => return None,
                },
                _ => return None,
            };
            (op, InstrFlow::RegImm2Reg { rs_1: rs_1(instr), imm: imm_i_type(instr), rd: rd(instr) }, OpWidth::Word)
        },
        0b0001111 => (InstrOp::FenceI, InstrFlow::NoFlow, OpWidth::NoWidth),
        0b1110011 => {
            let imm = imm_i_type(instr);
            let reg_2_reg_csr = InstrFlow::Reg2RegCsr { rs_1: rs_1(instr), rd: rd(instr), csr: imm };
            let imm_2_reg_csr = InstrFlow::Imm2RegCsr {
                imm: rs_1(instr) as u64,
                rd: rd(instr),
                csr: imm % 0x1000,
            };
            let (op, flow) = match funct_3(instr) {
                0b000 => match imm {
                    0 => (InstrOp::EnvCall, InstrFlow::NoFlow),
                    1 => (InstrOp::EnvBreak, InstrFlow::NoFlow),
                    _ => match funct_7(instr) {
                        0b0001000 => match rs_2(instr) {
                            0b00010 => (InstrOp::SReturnFromTrap, InstrFlow::NoFlow),
                            0b00101 => (InstrOp::FenceI, InstrFlow::NoFlow),
                            _ => return None,
                        },
                        0b0001001 => (InstrOp::FenceI, InstrFlow::NoFlow),
                        0b0011000 => (InstrOp::MReturnFromTrap, InstrFlow::NoFlow),
                        _ => return None,
                    },
                },
                0b001 => (InstrOp::CsrReadAndWrite, reg_2_reg_csr),
                0b010 => (InstrOp::CsrReadAndSetBits, reg_2_reg_csr),
                0b011 => (InstrOp::CsrReadAndClearBits, reg_2_reg_csr),
                0b101 => (InstrOp::CsrReadAndWrite, imm_2_reg_csr),
                0b110 => (InstrOp::CsrReadAndSetBits, imm_2_reg_csr),
                0b111 => (InstrOp::CsrReadAndClearBits, imm_2_reg_csr),
                _ => return None,
            };
            (op, flow, OpWidth::NoWidth)
        },
        0b0101111 => {
            let reg_mem_2_reg = InstrFlow::RegMem2Reg { rs_1: rs_1(instr), rd: rd(instr) };
            let reg_reg_2_mem = InstrFlow::RegReg2RegMem {
                rs_1: rs_1(instr),
                rs_2: rs_2(instr),
                rd: rd(instr),
            };
            let reg_reg_mem_2_reg_mem = InstrFlow::RegRegMem2RegMem {
                rs_1: rs_1(instr),
                rs_2: rs_2(instr),
                rd: rd(instr),
            };
            let (op, flow, unsigned) = match funct_7_atomic_type(instr) {
                0b00010 => (InstrOp::LoadReserved, reg_mem_2_reg, false),
                0b00011 => (InstrOp::StoreConditional, reg_reg_2_mem, false),
                0b00001 => (InstrOp::AtomicSwap, reg_reg_mem_2_reg_mem, false),
                0b00000 => (InstrOp::AtomicAdd, reg_reg_mem_2_reg_mem, false),
                0b00100 => (InstrOp::AtomicXor, reg_reg_mem_2_reg_mem, false),
                0b01100 => (InstrOp::AtomicAnd, reg_reg_mem_2_reg_mem, false),
                0b01000 => (InstrOp::AtomicOr, reg_reg_mem_2_reg_mem, false),
                0b10000 => (InstrOp::AtomicMin, reg_reg_mem_2_reg_mem, false),
                0b10100 => (InstrOp::AtomicMax, reg_reg_mem_2_reg_mem, false),
                0b11000 => (InstrOp::AtomicMin, reg_reg_mem_2_reg_mem, true),
                0b11100 => (InstrOp::AtomicMax, reg_reg_mem_2_reg_mem, true),
                _ => return None,
            };
            let op_width = match (funct_3(instr), unsigned) {
                (0b010, false) => OpWidth::Word,
                (0b010, true) => OpWidth::WordUnsigned,
                (0b011, false) => OpWidth::DoubleWord,
                (0b011, true) => OpWidth::DoubleWordUnsigned,
                _ => return None,
            };
            (op, flow, op_width)
        },
        _ => return None,
    };
    Some(Instr { raw: instr, op, flow, op_width, instr_size: 4 })
}

} // verus!
