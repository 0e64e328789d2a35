//! Decoder for the 16-bit compressed (C extension) encodings.
use vstd::prelude::*;

use super::{sext, sign_extend, Instr, InstrFlow, InstrOp, OpWidth};

verus! {

pub open spec fn quadrant(i: u16) -> u16 {
    i % 4
}

pub open spec fn cf3(i: u16) -> u16 {
    i / 0x2000
}

/// A 3-bit register field starting at bit `lo`, naming one of x8..x15.
pub open spec fn creg(i: u16, lo_div: u16) -> usize {
    ((i / lo_div) % 8 + 8) as usize
}

/// A full 5-bit register field at bits 11..7.
pub open spec fn reg_hi(i: u16) -> usize {
    ((i / 0x80) % 32) as usize
}

/// A full 5-bit register field at bits 6..2.
pub open spec fn reg_lo(i: u16) -> usize {
    ((i / 4) % 32) as usize
}

/// The 6-bit immediate imm[5] (bit 12) and imm[4:0] (bits 6..2), unextended.
pub open spec fn imm6(i: u16) -> u64 {
    ((i / 0x1000) % 2 * 0x20 + (i / 4) % 0x20) as u64
}

/// Word offset of c.lw / c.sw: offset[5:3] bits 12..10, offset[2] bit 6, offset[6] bit 5.
pub open spec fn off_w(i: u16) -> u64 {
    ((i / 0x20) % 2 * 0x40 + (i / 0x400) % 8 * 8 + (i / 0x40) % 2 * 4) as u64
}

/// Double-word offset of c.ld / c.sd: offset[5:3] bits 12..10, offset[7:6] bits 6..5.
pub open spec fn off_d(i: u16) -> u64 {
    ((i / 0x20) % 4 * 0x40 + (i / 0x400) % 8 * 8) as u64
}

/// Immediate of c.addi4spn: nzuimm[5:4|9:6|2|3] in bits 12..5.
pub open spec fn imm_addi4spn(i: u16) -> u64 {
    ((i / 0x80) % 0x10 * 0x40 + (i / 0x800) % 4 * 0x10 + (i / 0x20) % 2 * 8 + (i / 0x40) % 2 * 4) as u64
}

/// Offset of c.j: imm[11|4|9:8|10|6|7|3:1|5] in bits 12..2, unextended.
pub open spec fn off_j(i: u16) -> u64 {
    ((i / 0x1000) % 2 * 0x800 + (i / 0x100) % 2 * 0x400 + (i / 0x200) % 4 * 0x100
        + (i / 0x40) % 2 * 0x80 + (i / 0x80) % 2 * 0x40 + (i / 4) % 2 * 0x20
        + (i / 0x800) % 2 * 0x10 + (i / 8) % 8 * 2) as u64
}

/// Offset of c.beqz / c.bnez: imm[8|4:3] bits 12..10, imm[7:6|2:1|5] bits 6..2, unextended.
pub open spec fn off_b(i: u16) -> u64 {
    ((i / 0x1000) % 2 * 0x100 + (i / 0x20) % 4 * 0x40 + (i / 4) % 2 * 0x20
        + (i / 0x400) % 4 * 8 + (i / 8) % 4 * 2) as u64
}

/// Immediate of c.addi16sp: nzimm[9] bit 12, nzimm[4|6|8:7|5] bits 6..2, unextended.
pub open spec fn imm_addi16sp(i: u16) -> u64 {
    ((i / 0x1000) % 2 * 0x200 + (i / 8) % 4 * 0x80 + (i / 0x20) % 2 * 0x40 + (i / 4) % 2 * 0x20
        + (i / 0x40) % 2 * 0x10) as u64
}

pub open spec fn off_lwsp(i: u16) -> u64 {
    ((i / 4) % 4 * 0x40 + (i / 0x1000) % 2 * 0x20 + (i / 0x10) % 8 * 4) as u64
}

pub open spec fn off_ldsp(i: u16) -> u64 {
    ((i / 4) % 8 * 0x40 + (i / 0x1000) % 2 * 0x20 + (i / 0x20) % 4 * 8) as u64
}

pub open spec fn off_swsp(i: u16) -> u64 {
    ((i / 0x80) % 4 * 0x40 + (i / 0x200) % 0x10 * 4) as u64
}

pub open spec fn off_sdsp(i: u16) -> u64 {
    ((i / 0x80) % 8 * 0x40 + (i / 0x400) % 8 * 8) as u64
}

pub open spec fn cmk(i: u16, op: InstrOp, flow: InstrFlow, w: OpWidth) -> Option<Instr> {
    Some(Instr { raw: i as u32, op, flow, op_width: w, instr_size: 2 })
}

/// c.sub / c.xor / c.or / c.and / c.subw / c.addw: funct2 in bits 6..5 and
/// bit 12 selecting the word forms.
pub open spec fn reg_reg_spec(i: u16) -> Option<Instr> {
    let rd = creg(i, 0x80);
    let flow = InstrFlow::RegReg2Reg { rs_1: rd, rs_2: creg(i, 4), rd };
    let word = (i / 0x1000) % 2 == 1;
    match (i / 0x20) % 4 {
        0b00 => cmk(i, InstrOp::Subtract, flow, if word { OpWidth::Word } else { OpWidth::DoubleWord }),
        0b10 => cmk(i, InstrOp::Or, flow, OpWidth::NoWidth),
        0b01 => if word { cmk(i, InstrOp::Add, flow, OpWidth::Word) }
            else { cmk(i, InstrOp::Xor, flow, OpWidth::NoWidth) },
        _ => cmk(i, InstrOp::And, flow, OpWidth::NoWidth),
    }
}

pub open spec fn quadrant0_spec(i: u16) -> Option<Instr> {
    match cf3(i) {
        0b010 => cmk(i, InstrOp::Load, InstrFlow::RegImmMem2Reg { rs_1: creg(i, 0x80), imm: off_w(i), rd: creg(i, 4) }, OpWidth::Word),
        0b011 => cmk(i, InstrOp::Load, InstrFlow::RegImmMem2Reg { rs_1: creg(i, 0x80), imm: off_d(i), rd: creg(i, 4) }, OpWidth::DoubleWord),
        0b110 => cmk(i, InstrOp::Store, InstrFlow::RegRegImm2Mem { rs_1: creg(i, 0x80), rs_2: creg(i, 4), imm: off_w(i) }, OpWidth::Word),
        0b000 => cmk(i, InstrOp::Add, InstrFlow::RegImm2Reg { rs_1: 2, imm: imm_addi4spn(i), rd: creg(i, 4) }, OpWidth::DoubleWord),
        0b111 => cmk(i, InstrOp::Store, InstrFlow::RegRegImm2Mem { rs_1: creg(i, 0x80), rs_2: creg(i, 4), imm: off_d(i) }, OpWidth::DoubleWord),
        _ => None,
    }
}

pub open spec fn quadrant1_spec(i: u16) -> Option<Instr> {
    let rd = reg_hi(i);
    match cf3(i) {
        0b101 => cmk(i, InstrOp::JumpAndLink, InstrFlow::ImmPC2RegPC { imm: sext(off_j(i), 11), rd: 0 }, OpWidth::NoWidth),
        0b001 => cmk(i, InstrOp::Add, InstrFlow::RegImm2Reg { rs_1: rd, imm: sext(imm6(i), 5), rd }, OpWidth::Word),
        0b110 => cmk(i, InstrOp::BranchIfEquals, InstrFlow::RegRegImm2PC { rs_1: creg(i, 0x80), rs_2: 0, imm: sext(off_b(i), 8) }, OpWidth::NoWidth),
        0b111 => cmk(i, InstrOp::BranchIfNotEquals, InstrFlow::RegRegImm2PC { rs_1: creg(i, 0x80), rs_2: 0, imm: sext(off_b(i), 8) }, OpWidth::NoWidth),
        0b010 => cmk(i, InstrOp::Add, InstrFlow::RegImm2Reg { rs_1: 0, imm: sext(imm6(i), 5), rd }, OpWidth::DoubleWord),
        0b011 => if rd == 2 {
            cmk(i, InstrOp::Add, InstrFlow::RegImm2Reg { rs_1: 2, imm: sext(imm_addi16sp(i), 9), rd: 2 }, OpWidth::DoubleWord)
        } else if rd == 0 {
            None
        } else {
            cmk(i, InstrOp::LoadUpperImm, InstrFlow::Imm2Reg { imm: sext((imm6(i) * 0x1000) as u64, 17), rd }, OpWidth::NoWidth)
        },
        0b000 => cmk(i, InstrOp::Add, InstrFlow::RegImm2Reg { rs_1: rd, imm: sext(imm6(i), 5), rd }, OpWidth::DoubleWord),
        0b100 => {
            let rd = creg(i, 0x80);
            let flow = InstrFlow::RegImm2Reg { rs_1: rd, imm: sext(imm6(i), 5), rd };
            match (i / 0x400) % 4 {
                0b00 => cmk(i, InstrOp::ShiftRightLogical, flow, OpWidth::DoubleWord),
                0b01 => cmk(i, InstrOp::ShiftRightArithmetic, flow, OpWidth::DoubleWord),
                0b10 => cmk(i, InstrOp::And, flow, OpWidth::NoWidth),
                _ => reg_reg_spec(i),
            }
        },
        _ => None,
    }
}

pub open spec fn quadrant2_spec(i: u16) -> Option<Instr> {
    let rd = reg_hi(i);
    match cf3(i) {
        0b010 => cmk(i, InstrOp::Load, InstrFlow::RegImmMem2Reg { rs_1: 2, imm: off_lwsp(i), rd }, OpWidth::Word),
        0b110 => cmk(i, InstrOp::Store, InstrFlow::RegRegImm2Mem { rs_1: 2, rs_2: reg_lo(i), imm: off_swsp(i) }, OpWidth::Word),
        0b111 => cmk(i, InstrOp::Store, InstrFlow::RegRegImm2Mem { rs_1: 2, rs_2: reg_lo(i), imm: off_sdsp(i) }, OpWidth::DoubleWord),
        0b011 => cmk(i, InstrOp::Load, InstrFlow::RegImmMem2Reg { rs_1: 2, imm: off_ldsp(i), rd }, OpWidth::DoubleWord),
        0b100 => {
            let rs_1 = reg_hi(i);
            let rs_2 = reg_lo(i);
            let f4 = (i / 0x1000) % 0x10;
            if rs_1 == 0 && rs_2 == 0 {
                cmk(i, InstrOp::EnvBreak, InstrFlow::NoFlow, OpWidth::NoWidth)
            } else if rs_2 == 0 {
                if f4 == 0b1000 {
                    cmk(i, InstrOp::JumpAndLinkReg, InstrFlow::RegImmPC2RegPC { rs_1, imm: 0, rd: 0 }, OpWidth::NoWidth)
                } else if f4 == 0b1001 {
                    cmk(i, InstrOp::JumpAndLinkReg, InstrFlow::RegImmPC2RegPC { rs_1, imm: 0, rd: 1 }, OpWidth::NoWidth)
                } else {
                    None
                }
            } else if f4 == 0b1000 {
                cmk(i, InstrOp::Add, InstrFlow::RegReg2Reg { rs_1: 0, rs_2, rd: rs_1 }, OpWidth::DoubleWord)
            } else if f4 == 0b1001 {
                cmk(i, InstrOp::Add, InstrFlow::RegReg2Reg { rs_1, rs_2, rd: rs_1 }, OpWidth::DoubleWord)
            } else {
                None
            }
        },
        0b000 => cmk(i, InstrOp::ShiftLeft, InstrFlow::RegImm2Reg { rs_1: rd, imm: imm6(i), rd }, OpWidth::DoubleWord),
        _ => None,
    }
}

/// The table of compressed encodings that the decoder accepts.
pub open spec fn decode_spec(i: u16) -> Option<Instr> {
    match quadrant(i) {
        0 => quadrant0_spec(i),
        1 => quadrant1_spec(i),
        2 => quadrant2_spec(i),
        _ => None,
    }
}

fn op(instr: u16) -> (r: u16)
    ensures
        r == quadrant(instr),
{
    instr % 4
}

fn funct_3(instr: u16) -> (r: u16)
    ensures
        r == cf3(instr),
        r < 8,
{
    instr / 0x2000
}

pub fn decode(instr: u16) -> (r: Option<Instr>)
    ensures
        r == decode_spec(instr),
        r matches Some(i) ==> i.wf(),
{
    let instr_raw = instr;
    let (op, flow, op_width) = match op(instr) {
        0b00 => match funct_3(instr) {
            // c.lw
            0b010 => {
                let rd = ((instr / 4) % 8) as usize + 8;
                let offset_6 = (instr / 0x20) % 2;
                let offset_2 = (instr / 0x40) % 2;
                let rs_1 = ((instr / 0x80) % 8) as usize + 8;
                let offset_5_3 = (instr / 0x400) % 8;
                let imm = (offset_6 as u64) * 0x40 + (offset_5_3 as u64) * 8 + (offset_2 as u64) * 4;
                (InstrOp::Load, InstrFlow::RegImmMem2Reg { rs_1, imm, rd }, OpWidth::Word)
            },
            // c.ld
            0b011 => {
                let rd = ((instr / 4) % 8) as usize + 8;
                let imm_7_6 = (instr / 0x20) % 4;
                let rs_1 = ((instr / 0x80) % 8) as usize + 8;
                let imm_5_3 = (instr / 0x400) % 8;
                let imm = (imm_7_6 as u64) * 0x40 + (imm_5_3 as u64) * 8;
                (InstrOp::Load, InstrFlow::RegImmMem2Reg { rs_1, imm, rd }, OpWidth::DoubleWord)
            },
            // c.sw
            0b110 => {
                let rs_2 = ((instr / 4) % 8) as usize + 8;
                let offset_6 = (instr / 0x20) % 2;
                let offset_2 = (instr / 0x40) % 2;
                let rs_1 = ((instr / 0x80) % 8) as usize + 8;
                let offset_5_3 = (instr / 0x400) % 8;
                let imm = (offset_6 as u64) * 0x40 + (offset_5_3 as u64) * 8 + (offset_2 as u64) * 4;
                (InstrOp::Store, InstrFlow::RegRegImm2Mem { rs_1, rs_2, imm }, OpWidth::Word)
            },
            // c.addi4spn
            0b000 => {
                let rd = ((instr / 4) % 8) as usize + 8;
                let zimm_3 = (instr / 0x20) % 2;
                let zimm_2 = (instr / 0x40) % 2;
                let zimm_9_6 = (instr / 0x80) % 0x10;
                let zimm_5_4 = (instr / 0x800) % 4;
                let imm = (zimm_9_6 as u64) * 0x40 + (zimm_5_4 as u64) * 0x10 + (zimm_3 as u64) * 8
                    + (zimm_2 as u64) * 4;
                (InstrOp::Add, InstrFlow::RegImm2Reg { rs_1: 2, imm, rd }, OpWidth::DoubleWord)
            },
            // c.sd
            0b111 => {
                let rs_2 = ((instr / 4) % 8) as usize + 8;
                let offset_7_6 = (instr / 0x20) % 4;
                let rs_1 = ((instr / 0x80) % 8) as usize + 8;
                let offset_5_3 = (instr / 0x400) % 8;
                let imm = (offset_7_6 as u64) * 0x40 + (offset_5_3 as u64) * 8;
                (InstrOp::Store, InstrFlow::RegRegImm2Mem { rs_1, rs_2, imm }, OpWidth::DoubleWord)
            },
            _ => return None,
        },
        0b01 => match funct_3(instr) {
            // c.j
            0b101 => {
                let offset_5 = (instr / 4) % 2;
                let offset_3_1 = (instr / 8) % 8;
                let offset_7 = (instr / 0x40) % 2;
                let offset_6 = (instr / 0x80) % 2;
                let offset_10 = (instr / 0x100) % 2;
                let offset_9_8 = (instr / 0x200) % 4;
                let offset_4 = (instr / 0x800) % 2;
                let offset_11 = (instr / 0x1000) % 2;
                let imm = (offset_11 as u64) * 0x800 + (offset_10 as u64) * 0x400
                    + (offset_9_8 as u64) * 0x100 + (offset_7 as u64) * 0x80 + (offset_6 as u64)
                    * 0x40 + (offset_5 as u64) * 0x20 + (offset_4 as u64) * 0x10
                    + (offset_3_1 as u64) * 2;
                (
                    InstrOp::JumpAndLink,
                    InstrFlow::ImmPC2RegPC { imm: sign_extend(imm, 11), rd: 0 },
                    OpWidth::NoWidth,
                )
            },
            // c.addiw
            0b001 => {
                let imm_4_0 = (instr / 4) % 0x20;
                let rd = ((instr / 0x80) % 0x20) as usize;
                let imm_5 = (instr / 0x1000) % 2;
                let imm = sign_extend((imm_5 as u64) * 0x20 + (imm_4_0 as u64), 5);
                (InstrOp::Add, InstrFlow::RegImm2Reg { rs_1: rd, imm, rd }, OpWidth::Word)
            },
            // c.beqz / c.bnez
            0b110 | 0b111 => {
                let offset_5 = (instr / 4) % 2;
                let offset_2_1 = (instr / 8) % 4;
                let offset_7_6 = (instr / 0x20) % 4;
                let rs_1 = ((instr / 0x80) % 8) as usize + 8;
                let offset_4_3 = (instr / 0x400) % 4;
                let offset_8 = (instr / 0x1000) % 2;
                let imm = (offset_8 as u64) * 0x100 + (offset_7_6 as u64) * 0x40 + (offset_5 as u64)
                    * 0x20 + (offset_4_3 as u64) * 8 + (offset_2_1 as u64) * 2;
                let op = if funct_3(instr) == 0b110 {
                    InstrOp::BranchIfEquals
                } else {
                    InstrOp::BranchIfNotEquals
                };
                (
                    op,
                    InstrFlow::RegRegImm2PC { rs_1, rs_2: 0, imm: sign_extend(imm, 8) },
                    OpWidth::NoWidth,
                )
            },
            // c.li
            0b010 => {
                let imm_4_0 = (instr / 4) % 0x20;
                let rd = ((instr / 0x80) % 0x20) as usize;
                let imm_5 = (instr / 0x1000) % 2;
                let imm = (imm_5 as u64) * 0x20 + (imm_4_0 as u64);
                (
                    InstrOp::Add,
                    InstrFlow::RegImm2Reg { rs_1: 0, imm: sign_extend(imm, 5), rd },
                    OpWidth::DoubleWord,
                )
            },
            // c.lui / c.addi16sp
            0b011 => {
                let imm_4_0 = (instr / 4) % 0x20;
                let rd = ((instr / 0x80) % 0x20) as usize;
                let imm_5 = (instr / 0x1000) % 2;
                let imm = (imm_5 as u64) * 0x20 + (imm_4_0 as u64);
                match rd {
                    2 => addi16sp_decode(instr_raw),
                    0 => return None,
                    rd => (
                        InstrOp::LoadUpperImm,
                        InstrFlow::Imm2Reg { imm: sign_extend(imm * 0x1000, 17), rd },
                        OpWidth::NoWidth,
                    ),
                }
            },
            // c.addi
            0b000 => {
                let imm_4_0 = (instr / 4) % 0x20;
                let rd = ((instr / 0x80) % 0x20) as usize;
                let imm_5 = (instr / 0x1000) % 2;
                let imm = (imm_5 as u64) * 0x20 + (imm_4_0 as u64);
                (
                    InstrOp::Add,
                    InstrFlow::RegImm2Reg { rs_1: rd, imm: sign_extend(imm, 5), rd },
                    OpWidth::DoubleWord,
                )
            },
            // c.srli / c.srai / c.andi / register-register forms
            0b100 => {
                let shamt_4_0 = (instr / 4) % 0x20;
                let rd = ((instr / 0x80) % 8) as usize + 8;
                let funct_2 = (instr / 0x400) % 4;
                let shamt_5 = (instr / 0x1000) % 2;
                let imm = sign_extend((shamt_5 as u64) * 0x20 + (shamt_4_0 as u64), 5);
                match funct_2 {
                    0b00 => (
                        InstrOp::ShiftRightLogical,
                        InstrFlow::RegImm2Reg { rs_1: rd, imm, rd },
                        OpWidth::DoubleWord,
                    ),
                    0b01 => (
                        InstrOp::ShiftRightArithmetic,
                        InstrFlow::RegImm2Reg { rs_1: rd, imm, rd },
                        OpWidth::DoubleWord,
                    ),
                    0b10 => (InstrOp::And, InstrFlow::RegImm2Reg { rs_1: rd, imm, rd }, OpWidth::NoWidth),
                    _ => return Some(reg_reg_ops_decode(instr_raw)),
                }
            },
            _ => return None,
        },
        0b10 => match funct_3(instr) {
            // c.lwsp
            0b010 => {
                let offset_7_6 = (instr / 4) % 4;
                let offset_4_2 = (instr / 0x10) % 8;
                let rd = ((instr / 0x80) % 0x20) as usize;
                let offset_5 = (instr / 0x1000) % 2;
                let imm = (offset_7_6 as u64) * 0x40 + (offset_5 as u64) * 0x20 + (offset_4_2 as u64) * 4;
                (InstrOp::Load, InstrFlow::RegImmMem2Reg { rs_1: 2, imm, rd }, OpWidth::Word)
            },
            // c.swsp
            0b110 => {
                let rs_2 = ((instr / 4) % 0x20) as usize;
                let offset_7_6 = (instr / 0x80) % 4;
                let offset_5_2 = (instr / 0x200) % 0x10;
                let imm = (offset_7_6 as u64) * 0x40 + (offset_5_2 as u64) * 4;
                (InstrOp::Store, InstrFlow::RegRegImm2Mem { rs_1: 2, rs_2, imm }, OpWidth::Word)
            },
            // c.sdsp
            0b111 => {
                let rs_2 = ((instr / 4) % 0x20) as usize;
                let offset_8_6 = (instr / 0x80) % 8;
                let offset_5_3 = (instr / 0x400) % 8;
                let imm = (offset_8_6 as u64) * 0x40 + (offset_5_3 as u64) * 8;
                (InstrOp::Store, InstrFlow::RegRegImm2Mem { rs_1: 2, rs_2, imm }, OpWidth::DoubleWord)
            },
            // c.ldsp
            0b011 => {
                let offset_8_6 = (instr / 4) % 8;
                let offset_4_3 = (instr / 0x20) % 4;
                let rd = ((instr / 0x80) % 0x20) as usize;
                let offset_5 = (instr / 0x1000) % 2;
                let imm = (offset_8_6 as u64) * 0x40 + (offset_5 as u64) * 0x20 + (offset_4_3 as u64) * 8;
                (InstrOp::Load, InstrFlow::RegImmMem2Reg { rs_1: 2, imm, rd }, OpWidth::DoubleWord)
            },
            // c.jr / c.jalr / c.mv / c.add / c.ebreak
            0b100 => {
                let rs_2 = ((instr / 4) % 0x20) as usize;
                let rs_1 = ((instr / 0x80) % 0x20) as usize;
                let funct_4 = (instr / 0x1000) % 0x10;
                if rs_1 == 0 && rs_2 == 0 {
                    (InstrOp::EnvBreak, InstrFlow::NoFlow, OpWidth::NoWidth)
                } else if rs_2 == 0 {
                    match funct_4 {
                        0b1000 => (
                            InstrOp::JumpAndLinkReg,
                            InstrFlow::RegImmPC2RegPC { rs_1, imm: 0, rd: 0 },
                            OpWidth::NoWidth,
                        ),
                        0b1001 => (
                            InstrOp::JumpAndLinkReg,
                            InstrFlow::RegImmPC2RegPC { rs_1, imm: 0, rd: 1 },
                            OpWidth::NoWidth,
                        ),
                        _ => return None,
                    }
                } else {
                    match funct_4 {
                        0b1000 => (
                            InstrOp::Add,
                            InstrFlow::RegReg2Reg { rs_1: 0, rs_2, rd: rs_1 },
                            OpWidth::DoubleWord,
                        ),
                        0b1001 => (
                            InstrOp::Add,
                            InstrFlow::RegReg2Reg { rs_1, rs_2, rd: rs_1 },
                            OpWidth::DoubleWord,
                        ),
                        _ => return None,
                    }
                }
            },
            // c.slli
            0b000 => {
                let shamt_4_0 = (instr / 4) % 0x20;
                let rd = ((instr / 0x80) % 0x20) as usize;
                let shamt_5 = (instr / 0x1000) % 2;
                let imm = (shamt_5 as u64) * 0x20 + (shamt_4_0 as u64);
                (InstrOp::ShiftLeft, InstrFlow::RegImm2Reg { rs_1: rd, imm, rd }, OpWidth::DoubleWord)
            },
            _ => return None,
        },
        _ => return None,
    };
    Some(Instr { raw: instr_raw as u32, op, flow, op_width, instr_size: 2 })
}

fn addi16sp_decode(instr: u16) -> (r: (InstrOp, InstrFlow, OpWidth))
    ensures
        r == (InstrOp::Add, InstrFlow::RegImm2Reg { rs_1: 2, imm: sext(imm_addi16sp(instr), 9), rd: 2 }, OpWidth::DoubleWord),
{
    let imm_5 = (instr / 4) % 2;
    let imm_8_7 = (instr / 8) % 4;
    let imm_6 = (instr / 0x20) % 2;
    let imm_4 = (instr / 0x40) % 2;
    let imm_9 = (instr / 0x1000) % 2;
    let imm = (imm_9 as u64) * 0x200 + (imm_8_7 as u64) * 0x80 + (imm_6 as u64) * 0x40
        + (imm_5 as u64) * 0x20 + (imm_4 as u64) * 0x10;
    (InstrOp::Add, InstrFlow::RegImm2Reg { rs_1: 2, imm: sign_extend(imm, 9), rd: 2 }, OpWidth::DoubleWord)
}

/// The register-register forms under quadrant 1, funct3 0b100, bits 11..10 set:
/// bits 15..10 are then 0b100011 or 0b100111, so every funct2 has a meaning.
fn reg_reg_ops_decode(instr: u16) -> (r: Instr)
    requires
        quadrant(instr) == 1,
        cf3(instr) == 0b100,
        (instr / 0x400) % 4 == 0b11,
    ensures
        Some(r) == reg_reg_spec(instr),
{
    let instr_raw = instr;
    let rs_2 = ((instr / 4) % 8) as usize + 8;
    let funct_2 = (instr / 0x20) % 4;
    let rd = ((instr / 0x80) % 8) as usize + 8;
    let funct_6 = instr / 0x400;
    assert(funct_6 == 0b100011 || funct_6 == 0b100111);
    let (op, op_width) = match funct_2 {
        0b00 => if funct_6 == 0b100011 {
            (InstrOp::Subtract, OpWidth::DoubleWord)
        } else {
            (InstrOp::Subtract, OpWidth::Word)
        },
        0b10 => (InstrOp::Or, OpWidth::NoWidth),
        0b01 => if funct_6 == 0b100111 {
            (InstrOp::Add, OpWidth::Word)
        } else {
            (InstrOp::Xor, OpWidth::NoWidth)
        },
        _ => (InstrOp::And, OpWidth::NoWidth),
    };
    Instr { raw: instr_raw as u32, op, flow: InstrFlow::RegReg2Reg { rs_1: rd, rs_2, rd }, op_width, instr_size: 2 }
}

} // verus!
