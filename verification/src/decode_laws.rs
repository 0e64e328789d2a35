//! Laws of instruction decoding, stated in the terms of the RISC-V encoding
//! tables: opcode, funct3 and funct7 fields by their bit positions, register
//! fields, and immediates assembled from their bits and sign-extended.
use vstd::prelude::*;

use crate::decode::{decode_16, decode_32, decode_spec, sext, Instr, InstrFlow, InstrOp, OpWidth};

verus! {

/// Sign extension of the immediates the encodings assemble, from their top
/// bit: each value below twice its sign bit keeps its bits, and one at or
/// above the sign bit has every higher bit set.
proof fn lemma_sext_table(u: u64)
    by (bit_vector)
    ensures
        u < 0x40 ==> sext(u, 5) == if u >= 0x20 { (u + 0xFFFF_FFFF_FFFF_FFC0) as u64 } else { u },
        u < 0x200 ==> sext(u, 8) == if u >= 0x100 { (u + 0xFFFF_FFFF_FFFF_FE00) as u64 } else { u },
        u < 0x400 ==> sext(u, 9) == if u >= 0x200 { (u + 0xFFFF_FFFF_FFFF_FC00) as u64 } else { u },
        u < 0x1000 ==> sext(u, 11) == if u >= 0x800 { (u + 0xFFFF_FFFF_FFFF_F000) as u64 } else { u },
        u < 0x2000 ==> sext(u, 12) == if u >= 0x1000 { (u + 0xFFFF_FFFF_FFFF_E000) as u64 } else { u },
        u < 0x4_0000 ==> sext(u, 17) == if u >= 0x2_0000 { (u + 0xFFFF_FFFF_FFFC_0000) as u64 } else { u },
        u < 0x20_0000 ==> sext(u, 20) == if u >= 0x10_0000 { (u + 0xFFFF_FFFF_FFE0_0000) as u64 } else { u },
        u < 0x1_0000_0000 ==> sext(u, 31) == if u >= 0x8000_0000 { (u + 0xFFFF_FFFF_0000_0000) as u64 } else { u },
{
}

/// Law: a word with the OP-IMM major opcode (bits 6..0 = 0b0010011) decodes
/// to a 4-byte register-immediate operation on rd = bits 11..7 and
/// rs1 = bits 19..15 with the I-type immediate (bits 31..20, sign-extended
/// from bit 31), chosen by funct3 (bits 14..12): `addi` (000), `slli` (001),
/// `slti` (010, signed), `sltiu` (011, unsigned), `xori` (100), `srli` or
/// `srai` (101, by bits 31..26 being 000000 or 010000; any other value is
/// no instruction), `ori` (110) and `andi` (111).
#[verifier::spinoff_prover]
#[verifier::rlimit(40)]
pub proof fn lemma_decode_op_imm(raw: u32)
    requires
        raw % 128 == 0b0010011,
    ensures
        ({
            let f3 = (raw / 0x1000) % 8;
            let hi = (raw / 0x10_0000) as u64;
            let imm: u64 = if hi >= 0x800 { (hi + 0xFFFF_FFFF_FFFF_F000) as u64 } else { hi };
            let flow = InstrFlow::RegImm2Reg {
                rs_1: ((raw / 0x8000) % 32) as usize,
                imm,
                rd: ((raw / 0x80) % 32) as usize,
            };
            let d = |op: InstrOp, w: OpWidth| Some(Instr { raw, op, flow, op_width: w, instr_size: 4 });
            &&& f3 == 0b000 ==> decode_spec(raw) == d(InstrOp::Add, OpWidth::DoubleWord)
            &&& f3 == 0b001 ==> decode_spec(raw) == d(InstrOp::ShiftLeft, OpWidth::DoubleWord)
            &&& f3 == 0b010 ==> decode_spec(raw) == d(InstrOp::SetLesserThan, OpWidth::DoubleWord)
            &&& f3 == 0b011 ==> decode_spec(raw) == d(InstrOp::SetLesserThan, OpWidth::DoubleWordUnsigned)
            &&& f3 == 0b100 ==> decode_spec(raw) == d(InstrOp::Xor, OpWidth::DoubleWord)
            &&& f3 == 0b101 && raw / 0x400_0000 == 0 ==> decode_spec(raw) == d(InstrOp::ShiftRightLogical, OpWidth::DoubleWord)
            &&& f3 == 0b101 && raw / 0x400_0000 == 0b010000 ==> decode_spec(raw) == d(InstrOp::ShiftRightArithmetic, OpWidth::DoubleWord)
            &&& f3 == 0b101 && raw / 0x400_0000 != 0 && raw / 0x400_0000 != 0b010000 ==> decode_spec(raw) is None
            &&& f3 == 0b110 ==> decode_spec(raw) == d(InstrOp::Or, OpWidth::DoubleWord)
            &&& f3 == 0b111 ==> decode_spec(raw) == d(InstrOp::And, OpWidth::DoubleWord)
        }),
{
    let hi = (raw / 0x10_0000) as u64;
    assert(hi < 0x1000);
    lemma_sext_table(hi);
    assert((raw / 0x200_0000) % 128 / 2 == raw / 0x400_0000) by (bit_vector);
    let ri = InstrFlow::RegImm2Reg { rs_1: decode_32::reg_rs1(raw), imm: decode_32::imm_i(raw), rd: decode_32::reg_rd(raw) };
    assert(raw % 128 == 0b0010011 ==> raw % 4 == 3) by (bit_vector);
    assert(decode_32::decode_spec(raw) == match decode_32::op_imm_spec(raw) {
        Some((op, w)) => decode_32::mk(raw, op, ri, w),
        None => None,
    }) by {
        assert(decode_32::opc(raw) == 0b0010011);
    }
}

/// Law: a word with the OP major opcode (bits 6..0 = 0b0110011) decodes to
/// a 4-byte register-register operation on rd = bits 11..7, rs1 = bits
/// 19..15 and rs2 = bits 24..20, chosen by funct3 (bits 14..12) and funct7
/// (bits 31..25): with funct7 0, `add`, `sll`, `slt`, `sltu`, `xor`, `srl`,
/// `or`, `and` for funct3 000 to 111; with funct7 0100000, `sub` (000) and
/// `sra` (101); with funct7 0000001, the M extension's `mul`, `mulh`,
/// `mulhsu`, `mulhu`, `div`, `divu`, `rem`, `remu`. Any other combination
/// is no instruction.
#[verifier::spinoff_prover]
pub proof fn lemma_decode_op(raw: u32)
    requires
        raw % 128 == 0b0110011,
    ensures
        ({
            let f3 = (raw / 0x1000) % 8;
            let f7 = raw / 0x200_0000;
            let flow = InstrFlow::RegReg2Reg {
                rs_1: ((raw / 0x8000) % 32) as usize,
                rs_2: ((raw / 0x10_0000) % 32) as usize,
                rd: ((raw / 0x80) % 32) as usize,
            };
            let d = |op: InstrOp, w: OpWidth| Some(Instr { raw, op, flow, op_width: w, instr_size: 4 });
            let expected = if f7 == 0 {
                if f3 == 0 { d(InstrOp::Add, OpWidth::DoubleWord) }
                else if f3 == 1 { d(InstrOp::ShiftLeft, OpWidth::DoubleWord) }
                else if f3 == 2 { d(InstrOp::SetLesserThan, OpWidth::DoubleWord) }
                else if f3 == 3 { d(InstrOp::SetLesserThan, OpWidth::DoubleWordUnsigned) }
                else if f3 == 4 { d(InstrOp::Xor, OpWidth::DoubleWord) }
                else if f3 == 5 { d(InstrOp::ShiftRightLogical, OpWidth::DoubleWord) }
                else if f3 == 6 { d(InstrOp::Or, OpWidth::DoubleWord) }
                else { d(InstrOp::And, OpWidth::DoubleWord) }
            } else if f7 == 0b0100000 {
                if f3 == 0 { d(InstrOp::Subtract, OpWidth::DoubleWord) }
                else if f3 == 5 { d(InstrOp::ShiftRightArithmetic, OpWidth::DoubleWord) }
                else { None }
            } else if f7 == 1 {
                if f3 == 0 { d(InstrOp::Multiply, OpWidth::DoubleWord) }
                else if f3 == 1 { d(InstrOp::MultiplyHigh, OpWidth::DoubleWord) }
                else if f3 == 2 { d(InstrOp::MultiplyHigh, OpWidth::DoubleWordSignedUnsigned) }
                else if f3 == 3 { d(InstrOp::MultiplyHigh, OpWidth::DoubleWordUnsigned) }
                else if f3 == 4 { d(InstrOp::Divide, OpWidth::DoubleWord) }
                else if f3 == 5 { d(InstrOp::Divide, OpWidth::DoubleWordUnsigned) }
                else if f3 == 6 { d(InstrOp::Remainder, OpWidth::DoubleWord) }
                else { d(InstrOp::Remainder, OpWidth::DoubleWordUnsigned) }
            } else {
                None
            };
            decode_spec(raw) == expected
        }),
{
    assert(raw % 128 == 0b0110011 ==> raw % 4 == 3) by (bit_vector);
    assert((raw / 0x200_0000) % 128 == raw / 0x200_0000);
    let rr = InstrFlow::RegReg2Reg { rs_1: decode_32::reg_rs1(raw), rs_2: decode_32::reg_rs2(raw), rd: decode_32::reg_rd(raw) };
    assert(decode_32::decode_spec(raw) == match decode_32::op_reg_spec(raw) {
        Some((op, w)) => decode_32::mk(raw, op, rr, w),
        None => None,
    }) by {
        assert(decode_32::opc(raw) == 0b0110011);
    }
}

/// Law: a word with the BRANCH major opcode (bits 6..0 = 0b1100011) decodes
/// to a 4-byte conditional branch comparing rs1 (bits 19..15) with rs2
/// (bits 24..20), by funct3 (bits 14..12): `beq` (000), `bne` (001), `blt`
/// (100) and `bge` (101) comparing signed, `bltu` (110) and `bgeu` (111)
/// comparing unsigned; funct3 010 and 011 are no instruction. The offset is
/// the B-type immediate: imm[12] from bit 31, imm[11] from bit 7, imm[10:5]
/// from bits 30..25 and imm[4:1] from bits 11..8, sign-extended from
/// imm[12].
#[verifier::spinoff_prover]
pub proof fn lemma_decode_branch(raw: u32)
    requires
        raw % 128 == 0b1100011,
    ensures
        ({
            let f3 = (raw / 0x1000) % 8;
            let u: u64 = ((raw / 0x8000_0000) % 2 * 0x1000 + (raw / 0x80) % 2 * 0x800
                + (raw / 0x200_0000) % 0x40 * 0x20 + (raw / 0x100) % 0x10 * 2) as u64;
            let imm: u64 = if u >= 0x1000 { (u + 0xFFFF_FFFF_FFFF_E000) as u64 } else { u };
            let flow = InstrFlow::RegRegImm2PC {
                rs_1: ((raw / 0x8000) % 32) as usize,
                rs_2: ((raw / 0x10_0000) % 32) as usize,
                imm,
            };
            let d = |op: InstrOp, w: OpWidth| Some(Instr { raw, op, flow, op_width: w, instr_size: 4 });
            let expected = if f3 == 0 { d(InstrOp::BranchIfEquals, OpWidth::DoubleWord) }
                else if f3 == 1 { d(InstrOp::BranchIfNotEquals, OpWidth::DoubleWord) }
                else if f3 == 4 { d(InstrOp::BranchIfLesserThan, OpWidth::DoubleWord) }
                else if f3 == 5 { d(InstrOp::BranchIfGreaterThanOrEquals, OpWidth::DoubleWord) }
                else if f3 == 6 { d(InstrOp::BranchIfLesserThan, OpWidth::DoubleWordUnsigned) }
                else if f3 == 7 { d(InstrOp::BranchIfGreaterThanOrEquals, OpWidth::DoubleWordUnsigned) }
                else { None };
            decode_spec(raw) == expected
        }),
{
    assert(raw % 128 == 0b1100011 ==> raw % 4 == 3) by (bit_vector);
    let u: u64 = ((raw / 0x8000_0000) % 2 * 0x1000 + (raw / 0x80) % 2 * 0x800
        + (raw / 0x200_0000) % 0x40 * 0x20 + (raw / 0x100) % 0x10 * 2) as u64;
    assert(u < 0x2000);
    lemma_sext_table(u);
    assert(decode_32::opc(raw) == 0b1100011);
}

/// Law: a word with the LOAD major opcode (bits 6..0 = 0b0000011) decodes to
/// a 4-byte load into rd (bits 11..7) from rs1 (bits 19..15) plus the
/// I-type immediate (bits 31..20, sign-extended), whose width funct3
/// (bits 14..12) gives: `lb`, `lh`, `lw`, `ld` (000 to 011, sign-extending)
/// and `lbu`, `lhu`, `lwu` (100 to 110, zero-extending); 111 is no
/// instruction. A word with the STORE major opcode (0b0100011) decodes to a
/// store of rs2 (bits 24..20) to rs1 plus the S-type immediate (imm[11:5]
/// from bits 31..25, imm[4:0] from bits 11..7, sign-extended): `sb`, `sh`,
/// `sw`, `sd` for funct3 000 to 011, and nothing for the others.
#[verifier::spinoff_prover]
pub proof fn lemma_decode_load_store(raw: u32)
    requires
        raw % 128 == 0b0000011 || raw % 128 == 0b0100011,
    ensures
        ({
            let f3 = (raw / 0x1000) % 8;
            let rs_1 = ((raw / 0x8000) % 32) as usize;
            let hi = (raw / 0x10_0000) as u64;
            let i_imm: u64 = if hi >= 0x800 { (hi + 0xFFFF_FFFF_FFFF_F000) as u64 } else { hi };
            let su: u64 = ((raw / 0x200_0000) % 0x80 * 0x20 + (raw / 0x80) % 0x20) as u64;
            let s_imm: u64 = if su >= 0x800 { (su + 0xFFFF_FFFF_FFFF_F000) as u64 } else { su };
            let load = InstrFlow::RegImmMem2Reg { rs_1, imm: i_imm, rd: ((raw / 0x80) % 32) as usize };
            let store = InstrFlow::RegRegImm2Mem { rs_1, rs_2: ((raw / 0x10_0000) % 32) as usize, imm: s_imm };
            let d = |op: InstrOp, flow: InstrFlow, w: OpWidth| Some(Instr { raw, op, flow, op_width: w, instr_size: 4 });
            let expected = if raw % 128 == 0b0000011 {
                if f3 == 0 { d(InstrOp::Load, load, OpWidth::Byte) }
                else if f3 == 1 { d(InstrOp::Load, load, OpWidth::HalfWord) }
                else if f3 == 2 { d(InstrOp::Load, load, OpWidth::Word) }
                else if f3 == 3 { d(InstrOp::Load, load, OpWidth::DoubleWord) }
                else if f3 == 4 { d(InstrOp::Load, load, OpWidth::ByteUnsigned) }
                else if f3 == 5 { d(InstrOp::Load, load, OpWidth::HalfWordUnsigned) }
                else if f3 == 6 { d(InstrOp::Load, load, OpWidth::WordUnsigned) }
                else { None }
            } else {
                if f3 == 0 { d(InstrOp::Store, store, OpWidth::Byte) }
                else if f3 == 1 { d(InstrOp::Store, store, OpWidth::HalfWord) }
                else if f3 == 2 { d(InstrOp::Store, store, OpWidth::Word) }
                else if f3 == 3 { d(InstrOp::Store, store, OpWidth::DoubleWord) }
                else { None }
            };
            decode_spec(raw) == expected
        }),
{
    assert((raw % 128 == 0b0000011 || raw % 128 == 0b0100011) ==> raw % 4 == 3) by (bit_vector);
    let hi = (raw / 0x10_0000) as u64;
    lemma_sext_table(hi);
    let su: u64 = ((raw / 0x200_0000) % 0x80 * 0x20 + (raw / 0x80) % 0x20) as u64;
    lemma_sext_table(su);
    if raw % 128 == 0b0000011 {
        assert(decode_32::opc(raw) == 0b0000011);
    } else {
        assert(decode_32::opc(raw) == 0b0100011);
    }
}

/// Law: a compressed instruction (the low half-word of the fetched word)
/// in quadrant 1 (bits 1..0 = 01) with funct3 100 (bits 15..13) decodes to
/// a 2-byte operation on rd' = x8 + bits 9..7, by funct2 (bits 11..10):
/// `c.srli` (00), `c.srai` (01) and `c.andi` (10) with the 6-bit immediate
/// (imm[5] from bit 12, imm[4:0] from bits 6..2, sign-extended), and for 11
/// the register-register forms with rs2' = x8 + bits 4..2, by bits 6..5:
/// with bit 12 clear `c.sub` (00), `c.xor` (01), `c.or` (10), `c.and` (11),
/// with bit 12 set `c.subw` (00) and `c.addw` (01).
#[verifier::spinoff_prover]
pub proof fn lemma_decode_compressed_alu(raw: u32)
    requires
        raw % 4 == 1,
        (raw % 0x1_0000) / 0x2000 == 0b100,
    ensures
        ({
            let h = raw % 0x1_0000;
            let rd = ((h / 0x80) % 8 + 8) as usize;
            let rs_2 = ((h / 4) % 8 + 8) as usize;
            let u: u64 = ((h / 0x1000) % 2 * 0x20 + (h / 4) % 0x20) as u64;
            let imm: u64 = if u >= 0x20 { (u + 0xFFFF_FFFF_FFFF_FFC0) as u64 } else { u };
            let ri = InstrFlow::RegImm2Reg { rs_1: rd, imm, rd };
            let rr = InstrFlow::RegReg2Reg { rs_1: rd, rs_2, rd };
            let d = |op: InstrOp, flow: InstrFlow, w: OpWidth| Some(Instr { raw: h, op, flow, op_width: w, instr_size: 2 });
            let f2 = (h / 0x400) % 4;
            let g = (h / 0x20) % 4;
            let word = (h / 0x1000) % 2 == 1;
            &&& f2 == 0 ==> decode_spec(raw) == d(InstrOp::ShiftRightLogical, ri, OpWidth::DoubleWord)
            &&& f2 == 1 ==> decode_spec(raw) == d(InstrOp::ShiftRightArithmetic, ri, OpWidth::DoubleWord)
            &&& f2 == 2 ==> decode_spec(raw) == d(InstrOp::And, ri, OpWidth::NoWidth)
            &&& f2 == 3 && !word && g == 0 ==> decode_spec(raw) == d(InstrOp::Subtract, rr, OpWidth::DoubleWord)
            &&& f2 == 3 && !word && g == 1 ==> decode_spec(raw) == d(InstrOp::Xor, rr, OpWidth::NoWidth)
            &&& f2 == 3 && !word && g == 2 ==> decode_spec(raw) == d(InstrOp::Or, rr, OpWidth::NoWidth)
            &&& f2 == 3 && !word && g == 3 ==> decode_spec(raw) == d(InstrOp::And, rr, OpWidth::NoWidth)
            &&& f2 == 3 && word && g == 0 ==> decode_spec(raw) == d(InstrOp::Subtract, rr, OpWidth::Word)
            &&& f2 == 3 && word && g == 1 ==> decode_spec(raw) == d(InstrOp::Add, rr, OpWidth::Word)
        }),
{
    let i = (raw % 0x1_0000) as u16;
    assert(raw % 4 == 1 ==> (raw % 0x1_0000) % 4 == 1) by (bit_vector);
    let u: u64 = ((i / 0x1000) % 2 * 0x20 + (i / 4) % 0x20) as u64;
    assert(u < 0x40);
    lemma_sext_table(u);
    assert(decode_16::quadrant(i) == 1);
    assert(decode_16::cf3(i) == 0b100);
    assert(decode_spec(raw) == decode_16::quadrant1_spec(i));
}

/// Law: a compressed instruction in quadrant 2 (bits 1..0 = 10) with funct3
/// 100 decodes, with rs1 = bits 11..7, rs2 = bits 6..2 and funct4 = bits
/// 15..12, to `c.ebreak` when both register fields are 0; with rs2 = 0 to
/// `c.jr` (funct4 1000: jump to rs1, link nothing) or `c.jalr` (1001: link
/// in x1); with rs2 != 0 to `c.mv` (1000: rd = rs1 gets x0 + rs2) or `c.add`
/// (1001: rd = rs1 gets rs1 + rs2); any other funct4 is no instruction.
#[verifier::spinoff_prover]
pub proof fn lemma_decode_compressed_jump_move(raw: u32)
    requires
        raw % 4 == 2,
        (raw % 0x1_0000) / 0x2000 == 0b100,
    ensures
        ({
            let h = raw % 0x1_0000;
            let rs_1 = ((h / 0x80) % 32) as usize;
            let rs_2 = ((h / 4) % 32) as usize;
            let f4 = h / 0x1000;
            let d = |op: InstrOp, flow: InstrFlow, w: OpWidth| Some(Instr { raw: h, op, flow, op_width: w, instr_size: 2 });
            let expected = if rs_1 == 0 && rs_2 == 0 {
                d(InstrOp::EnvBreak, InstrFlow::NoFlow, OpWidth::NoWidth)
            } else if rs_2 == 0 {
                if f4 == 0b1000 { d(InstrOp::JumpAndLinkReg, InstrFlow::RegImmPC2RegPC { rs_1, imm: 0, rd: 0 }, OpWidth::NoWidth) }
                else if f4 == 0b1001 { d(InstrOp::JumpAndLinkReg, InstrFlow::RegImmPC2RegPC { rs_1, imm: 0, rd: 1 }, OpWidth::NoWidth) }
                else { None }
            } else {
                if f4 == 0b1000 { d(InstrOp::Add, InstrFlow::RegReg2Reg { rs_1: 0, rs_2, rd: rs_1 }, OpWidth::DoubleWord) }
                else if f4 == 0b1001 { d(InstrOp::Add, InstrFlow::RegReg2Reg { rs_1, rs_2, rd: rs_1 }, OpWidth::DoubleWord) }
                else { None }
            };
            decode_spec(raw) == expected
        }),
{
    let i = (raw % 0x1_0000) as u16;
    assert(raw % 4 == 2 ==> (raw % 0x1_0000) % 4 == 2) by (bit_vector);
    assert(decode_16::quadrant(i) == 2);
    assert(decode_16::cf3(i) == 0b100);
    assert((i / 0x1000) % 0x10 == i / 0x1000);
    assert(decode_spec(raw) == decode_16::quadrant2_spec(i));
}

/// Law: `lui` (opcode 0b0110111) and `auipc` (0b0010111) decode to a 4-byte
/// instruction writing rd (bits 11..7) with the U-type immediate, bits
/// 31..12 in place over twelve zero bits, sign-extended from bit 31; `jal`
/// (0b1101111) to a jump linking rd by the J-type immediate (imm[20] from
/// bit 31, imm[10:1] from bits 30..21, imm[11] from bit 20, imm[19:12]
/// from bits 19..12, sign-extended from imm[20]); `jalr` (0b1100111) to a
/// jump to rs1 (bits 19..15) plus the I-type immediate, linking rd.
#[verifier::spinoff_prover]
pub proof fn lemma_decode_jumps_and_upper_immediates(raw: u32)
    requires
        raw % 128 == 0b0110111 || raw % 128 == 0b0010111 || raw % 128 == 0b1101111 || raw % 128 == 0b1100111,
    ensures
        ({
            let rd = ((raw / 0x80) % 32) as usize;
            let uu: u64 = ((raw / 0x1000) * 0x1000) as u64;
            let u_imm: u64 = if uu >= 0x8000_0000 { (uu + 0xFFFF_FFFF_0000_0000) as u64 } else { uu };
            let ju: u64 = ((raw / 0x8000_0000) % 2 * 0x10_0000 + (raw / 0x1000) % 0x100 * 0x1000
                + (raw / 0x10_0000) % 2 * 0x800 + (raw / 0x20_0000) % 0x400 * 2) as u64;
            let j_imm: u64 = if ju >= 0x10_0000 { (ju + 0xFFFF_FFFF_FFE0_0000) as u64 } else { ju };
            let hi = (raw / 0x10_0000) as u64;
            let i_imm: u64 = if hi >= 0x800 { (hi + 0xFFFF_FFFF_FFFF_F000) as u64 } else { hi };
            let d = |op: InstrOp, flow: InstrFlow| Some(Instr { raw, op, flow, op_width: OpWidth::NoWidth, instr_size: 4 });
            let expected = if raw % 128 == 0b0110111 {
                d(InstrOp::LoadUpperImm, InstrFlow::Imm2Reg { imm: u_imm, rd })
            } else if raw % 128 == 0b0010111 {
                d(InstrOp::AddUpperImmAndPC, InstrFlow::ImmPC2Reg { imm: u_imm, rd })
            } else if raw % 128 == 0b1101111 {
                d(InstrOp::JumpAndLink, InstrFlow::ImmPC2RegPC { imm: j_imm, rd })
            } else {
                d(InstrOp::JumpAndLinkReg, InstrFlow::RegImmPC2RegPC { rs_1: ((raw / 0x8000) % 32) as usize, imm: i_imm, rd })
            };
            decode_spec(raw) == expected
        }),
{
    vstd::arithmetic::div_mod::lemma_mod_mod(raw as int, 4, 32);
    let uu: u64 = ((raw / 0x1000) * 0x1000) as u64;
    let ju: u64 = ((raw / 0x8000_0000) % 2 * 0x10_0000 + (raw / 0x1000) % 0x100 * 0x1000
        + (raw / 0x10_0000) % 2 * 0x800 + (raw / 0x20_0000) % 0x400 * 2) as u64;
    let hi = (raw / 0x10_0000) as u64;
    assert(uu < 0x1_0000_0000 && ju < 0x20_0000 && hi < 0x1000);
    lemma_sext_table(uu);
    lemma_sext_table(ju);
    lemma_sext_table(hi);
    assert(decode_spec(raw) == decode_32::decode_spec(raw));
}

/// Law: a word with the OP-32 major opcode (0b0111011) decodes to a 4-byte
/// 32-bit register-register operation (rd bits 11..7, rs1 bits 19..15, rs2
/// bits 24..20): with funct7 0, `addw` (funct3 000), `sllw` (001), `srlw`
/// (101); with funct7 0100000, `subw` (000) and `sraw` (101); with funct7
/// 0000001, `mulw` (000), `divw` (100), `divuw` (101), `remw` (110) and
/// `remuw` (111). A word with OP-IMM-32 (0b0011011) decodes to `addiw`
/// (000) with the I-type immediate, `slliw` (001), and for 101 `srliw`
/// (funct7 0) or `sraiw` (funct7 0100000), with rd and rs1 as above. Any
/// other combination is no instruction.
#[verifier::spinoff_prover]
pub proof fn lemma_decode_word_ops(raw: u32)
    requires
        raw % 128 == 0b0111011 || raw % 128 == 0b0011011,
    ensures
        ({
            let f3 = (raw / 0x1000) % 8;
            let f7 = raw / 0x200_0000;
            let rs_1 = ((raw / 0x8000) % 32) as usize;
            let rd = ((raw / 0x80) % 32) as usize;
            let rr = InstrFlow::RegReg2Reg { rs_1, rs_2: ((raw / 0x10_0000) % 32) as usize, rd };
            let hi = (raw / 0x10_0000) as u64;
            let ri = InstrFlow::RegImm2Reg { rs_1, imm: if hi >= 0x800 { (hi + 0xFFFF_FFFF_FFFF_F000) as u64 } else { hi }, rd };
            let d = |op: InstrOp, flow: InstrFlow, w: OpWidth| Some(Instr { raw, op, flow, op_width: w, instr_size: 4 });
            let expected = if raw % 128 == 0b0111011 {
                if f7 == 1 {
                    if f3 == 0 { d(InstrOp::Multiply, rr, OpWidth::Word) }
                    else if f3 == 4 { d(InstrOp::Divide, rr, OpWidth::Word) }
                    else if f3 == 5 { d(InstrOp::Divide, rr, OpWidth::WordUnsigned) }
                    else if f3 == 6 { d(InstrOp::Remainder, rr, OpWidth::Word) }
                    else if f3 == 7 { d(InstrOp::Remainder, rr, OpWidth::WordUnsigned) }
                    else { None }
                } else if f7 == 0 {
                    if f3 == 0 { d(InstrOp::Add, rr, OpWidth::Word) }
                    else if f3 == 1 { d(InstrOp::ShiftLeft, rr, OpWidth::Word) }
                    else if f3 == 5 { d(InstrOp::ShiftRightLogical, rr, OpWidth::Word) }
                    else { None }
                } else if f7 == 0b0100000 {
                    if f3 == 0 { d(InstrOp::Subtract, rr, OpWidth::Word) }
                    else if f3 == 5 { d(InstrOp::ShiftRightArithmetic, rr, OpWidth::Word) }
                    else { None }
                } else {
                    None
                }
            } else {
                if f3 == 0 { d(InstrOp::Add, ri, OpWidth::Word) }
                else if f3 == 1 { d(InstrOp::ShiftLeft, ri, OpWidth::Word) }
                else if f3 == 5 && f7 == 0 { d(InstrOp::ShiftRightLogical, ri, OpWidth::Word) }
                else if f3 == 5 && f7 == 0b0100000 { d(InstrOp::ShiftRightArithmetic, ri, OpWidth::Word) }
                else { None }
            };
            decode_spec(raw) == expected
        }),
{
    vstd::arithmetic::div_mod::lemma_mod_mod(raw as int, 4, 32);
    let hi = (raw / 0x10_0000) as u64;
    lemma_sext_table(hi);
    assert((raw / 0x200_0000) % 128 == raw / 0x200_0000);
    assert(decode_spec(raw) == decode_32::decode_spec(raw));
}

/// Law: a word with the SYSTEM major opcode (0b1110011) and funct3 000
/// (bits 14..12) decodes, with imm = bits 31..20, funct7 = bits 31..25 and
/// rs2 = bits 24..20, to `ecall` (imm 0), `ebreak` (imm 1), `sret` (funct7
/// 0001000, rs2 00010), `mret` (funct7 0011000), and to a fence for `wfi`
/// (funct7 0001000, rs2 00101) and `sfence.vma` (funct7 0001001); anything
/// else is no instruction.
#[verifier::spinoff_prover]
pub proof fn lemma_decode_system(raw: u32)
    requires
        raw % 128 == 0b1110011,
        (raw / 0x1000) % 8 == 0,
    ensures
        ({
            let f7 = raw / 0x200_0000;
            let hi = raw / 0x10_0000;
            let rs_2 = (raw / 0x10_0000) % 32;
            let d = |op: InstrOp| Some(Instr { raw, op, flow: InstrFlow::NoFlow, op_width: OpWidth::NoWidth, instr_size: 4 });
            let expected = if hi == 0 { d(InstrOp::EnvCall) }
                else if hi == 1 { d(InstrOp::EnvBreak) }
                else if f7 == 0b0001000 && rs_2 == 0b00010 { d(InstrOp::SReturnFromTrap) }
                else if f7 == 0b0001000 && rs_2 == 0b00101 { d(InstrOp::FenceI) }
                else if f7 == 0b0001001 { d(InstrOp::FenceI) }
                else if f7 == 0b0011000 { d(InstrOp::MReturnFromTrap) }
                else { None };
            decode_spec(raw) == expected
        }),
{
    vstd::arithmetic::div_mod::lemma_mod_mod(raw as int, 4, 32);
    let hi = (raw / 0x10_0000) as u64;
    lemma_sext_table(hi);
    assert(decode_32::imm_i(raw) == 0 <==> hi == 0);
    assert(decode_32::imm_i(raw) == 1 <==> hi == 1);
    assert((raw / 0x200_0000) % 128 == raw / 0x200_0000);
    assert(decode_spec(raw) == decode_32::decode_spec(raw));
    assert(decode_32::decode_spec(raw) == match decode_32::system_spec(raw) {
        Some((op, flow)) => decode_32::mk(raw, op, flow, OpWidth::NoWidth),
        None => None,
    }) by {
        assert(decode_32::opc(raw) == 0b1110011);
    }
}

/// Law: a word with the SYSTEM major opcode (0b1110011) and a nonzero
/// funct3 (bits 14..12) decodes, with rd = bits 11..7 and the CSR number in
/// bits 31..20: for funct3 001, 010, 011 to `csrrw`, `csrrs`, `csrrc` with
/// rs1 (bits 19..15) as source and the CSR number sign-extended as an
/// I-type immediate; for 101, 110, 111 to `csrrwi`, `csrrsi`, `csrrci` with
/// the 5-bit value of bits 19..15 as source; funct3 100 is no instruction.
#[verifier::spinoff_prover]
pub proof fn lemma_decode_csr_instructions(raw: u32)
    requires
        raw % 128 == 0b1110011,
        (raw / 0x1000) % 8 != 0,
    ensures
        ({
            let f3 = (raw / 0x1000) % 8;
            let hi = (raw / 0x10_0000) as u64;
            let field = ((raw / 0x8000) % 32) as usize;
            let rd = ((raw / 0x80) % 32) as usize;
            let i_imm: u64 = if hi >= 0x800 { (hi + 0xFFFF_FFFF_FFFF_F000) as u64 } else { hi };
            let d = |op: InstrOp, flow: InstrFlow| Some(Instr { raw, op, flow, op_width: OpWidth::NoWidth, instr_size: 4 });
            let reg_csr = InstrFlow::Reg2RegCsr { rs_1: field, rd, csr: i_imm };
            let imm_csr = InstrFlow::Imm2RegCsr { imm: field as u64, rd, csr: hi };
            let expected = if f3 == 1 { d(InstrOp::CsrReadAndWrite, reg_csr) }
                else if f3 == 2 { d(InstrOp::CsrReadAndSetBits, reg_csr) }
                else if f3 == 3 { d(InstrOp::CsrReadAndClearBits, reg_csr) }
                else if f3 == 5 { d(InstrOp::CsrReadAndWrite, imm_csr) }
                else if f3 == 6 { d(InstrOp::CsrReadAndSetBits, imm_csr) }
                else if f3 == 7 { d(InstrOp::CsrReadAndClearBits, imm_csr) }
                else { None };
            decode_spec(raw) == expected
        }),
{
    vstd::arithmetic::div_mod::lemma_mod_mod(raw as int, 4, 32);
    let hi = (raw / 0x10_0000) as u64;
    lemma_sext_table(hi);
    let i_imm: u64 = if hi >= 0x800 { (hi + 0xFFFF_FFFF_FFFF_F000) as u64 } else { hi };
    assert(decode_32::imm_i(raw) == i_imm);
    vstd::arithmetic::div_mod::lemma_mod_multiples_vanish(0xFFFF_FFFF_FFFF_F, hi as int, 0x1000);
    assert(i_imm % 0x1000 == hi);
    assert(decode_spec(raw) == decode_32::decode_spec(raw));
    assert(decode_32::decode_spec(raw) == match decode_32::system_spec(raw) {
        Some((op, flow)) => decode_32::mk(raw, op, flow, OpWidth::NoWidth),
        None => None,
    }) by {
        assert(decode_32::opc(raw) == 0b1110011);
    }
}

/// Law: a compressed instruction in quadrant 0 (bits 1..0 = 00) decodes, by
/// funct3 (bits 15..13), with rs1' = x8 + bits 9..7 and rd'/rs2' = x8 +
/// bits 4..2, to `c.addi4spn` (000: rd' = x2 + nzuimm, nzuimm[5:4|9:6|2|3]
/// from bits 12..5), `c.lw` (010) and `c.sw` (110) with the word offset
/// (offset[5:3] from bits 12..10, offset[2] from bit 6, offset[6] from bit
/// 5), `c.ld` (011) and `c.sd` (111) with the doubleword offset
/// (offset[5:3] from bits 12..10, offset[7:6] from bits 6..5); the other
/// funct3 values are no instruction.
#[verifier::spinoff_prover]
pub proof fn lemma_decode_compressed_quadrant0(raw: u32)
    requires
        raw % 4 == 0,
    ensures
        ({
            let h = raw % 0x1_0000;
            let f3 = h / 0x2000;
            let hi_reg = ((h / 0x80) % 8 + 8) as usize;
            let lo_reg = ((h / 4) % 8 + 8) as usize;
            let off_w: u64 = ((h / 0x20) % 2 * 0x40 + (h / 0x400) % 8 * 8 + (h / 0x40) % 2 * 4) as u64;
            let off_d: u64 = ((h / 0x20) % 4 * 0x40 + (h / 0x400) % 8 * 8) as u64;
            let spn: u64 = ((h / 0x80) % 0x10 * 0x40 + (h / 0x800) % 4 * 0x10 + (h / 0x20) % 2 * 8 + (h / 0x40) % 2 * 4) as u64;
            let d = |op: InstrOp, flow: InstrFlow, w: OpWidth| Some(Instr { raw: h, op, flow, op_width: w, instr_size: 2 });
            let expected = if f3 == 0 {
                d(InstrOp::Add, InstrFlow::RegImm2Reg { rs_1: 2, imm: spn, rd: lo_reg }, OpWidth::DoubleWord)
            } else if f3 == 2 {
                d(InstrOp::Load, InstrFlow::RegImmMem2Reg { rs_1: hi_reg, imm: off_w, rd: lo_reg }, OpWidth::Word)
            } else if f3 == 3 {
                d(InstrOp::Load, InstrFlow::RegImmMem2Reg { rs_1: hi_reg, imm: off_d, rd: lo_reg }, OpWidth::DoubleWord)
            } else if f3 == 6 {
                d(InstrOp::Store, InstrFlow::RegRegImm2Mem { rs_1: hi_reg, rs_2: lo_reg, imm: off_w }, OpWidth::Word)
            } else if f3 == 7 {
                d(InstrOp::Store, InstrFlow::RegRegImm2Mem { rs_1: hi_reg, rs_2: lo_reg, imm: off_d }, OpWidth::DoubleWord)
            } else {
                None
            };
            decode_spec(raw) == expected
        }),
{
    let i = (raw % 0x1_0000) as u16;
    vstd::arithmetic::div_mod::lemma_mod_mod(raw as int, 4, 0x4000);
    assert(decode_16::quadrant(i) == 0);
    assert(decode_spec(raw) == decode_16::quadrant0_spec(i));
}

/// Law: a compressed instruction in quadrant 2 (bits 1..0 = 10) decodes, by
/// funct3 (bits 15..13), with rd = bits 11..7 and rs2 = bits 6..2, to
/// `c.slli` (000: rd shifted left by shamt[5] from bit 12, shamt[4:0] from
/// bits 6..2), `c.lwsp` (010: offset[5] bit 12, offset[4:2|7:6] bits 6..2),
/// `c.ldsp` (011: offset[5] bit 12, offset[4:3|8:6] bits 6..2), `c.swsp`
/// (110: offset[5:2|7:6] bits 12..7) and `c.sdsp` (111: offset[5:3|8:6]
/// bits 12..7), the loads and stores addressing x2 plus the offset; funct3
/// 001 and 101 are no instruction.
#[verifier::spinoff_prover]
pub proof fn lemma_decode_compressed_quadrant2(raw: u32)
    requires
        raw % 4 == 2,
        (raw % 0x1_0000) / 0x2000 != 0b100,
    ensures
        ({
            let h = raw % 0x1_0000;
            let f3 = h / 0x2000;
            let rd = ((h / 0x80) % 32) as usize;
            let rs_2 = ((h / 4) % 32) as usize;
            let shamt: u64 = ((h / 0x1000) % 2 * 0x20 + (h / 4) % 0x20) as u64;
            let lwsp: u64 = ((h / 4) % 4 * 0x40 + (h / 0x1000) % 2 * 0x20 + (h / 0x10) % 8 * 4) as u64;
            let ldsp: u64 = ((h / 4) % 8 * 0x40 + (h / 0x1000) % 2 * 0x20 + (h / 0x20) % 4 * 8) as u64;
            let swsp: u64 = ((h / 0x80) % 4 * 0x40 + (h / 0x200) % 0x10 * 4) as u64;
            let sdsp: u64 = ((h / 0x80) % 8 * 0x40 + (h / 0x400) % 8 * 8) as u64;
            let d = |op: InstrOp, flow: InstrFlow, w: OpWidth| Some(Instr { raw: h, op, flow, op_width: w, instr_size: 2 });
            let expected = if f3 == 0 {
                d(InstrOp::ShiftLeft, InstrFlow::RegImm2Reg { rs_1: rd, imm: shamt, rd }, OpWidth::DoubleWord)
            } else if f3 == 2 {
                d(InstrOp::Load, InstrFlow::RegImmMem2Reg { rs_1: 2, imm: lwsp, rd }, OpWidth::Word)
            } else if f3 == 3 {
                d(InstrOp::Load, InstrFlow::RegImmMem2Reg { rs_1: 2, imm: ldsp, rd }, OpWidth::DoubleWord)
            } else if f3 == 6 {
                d(InstrOp::Store, InstrFlow::RegRegImm2Mem { rs_1: 2, rs_2, imm: swsp }, OpWidth::Word)
            } else if f3 == 7 {
                d(InstrOp::Store, InstrFlow::RegRegImm2Mem { rs_1: 2, rs_2, imm: sdsp }, OpWidth::DoubleWord)
            } else {
                None
            };
            decode_spec(raw) == expected
        }),
{
    let i = (raw % 0x1_0000) as u16;
    vstd::arithmetic::div_mod::lemma_mod_mod(raw as int, 4, 0x4000);
    assert(decode_16::quadrant(i) == 2);
    assert(decode_spec(raw) == decode_16::quadrant2_spec(i));
}

/// Law: a compressed instruction in quadrant 1 (bits 1..0 = 01) with
/// funct3 (bits 15..13) other than 100 decodes, with rd = bits 11..7 and
/// the 6-bit immediate imm[5] from bit 12, imm[4:0] from bits 6..2
/// (sign-extended), to `c.addi` (000: rd += imm), `c.addiw` (001: the
/// 32-bit form), `c.li` (010: rd = x0 + imm), for 011 `c.addi16sp` when rd
/// is x2 (x2 += nzimm, nzimm[9] from bit 12 and nzimm[4|6|8:7|5] from bits
/// 6..2, sign-extended), no instruction when rd is x0, else `c.lui` (rd =
/// imm << 12, sign-extended from bit 17), `c.j` (101: jump by imm[11|4|9:8|
/// 10|6|7|3:1|5] from bits 12..2, sign-extended, linking x0), and `c.beqz`
/// (110) / `c.bnez` (111) comparing rs1' = x8 + bits 9..7 with x0 and
/// branching by imm[8|4:3] from bits 12..10 and imm[7:6|2:1|5] from bits
/// 6..2, sign-extended.
#[verifier::spinoff_prover]
pub proof fn lemma_decode_compressed_quadrant1(raw: u32)
    requires
        raw % 4 == 1,
        (raw % 0x1_0000) / 0x2000 != 0b100,
    ensures
        ({
            let h = raw % 0x1_0000;
            let f3 = h / 0x2000;
            let rd = ((h / 0x80) % 32) as usize;
            let u6: u64 = ((h / 0x1000) % 2 * 0x20 + (h / 4) % 0x20) as u64;
            let imm6: u64 = if u6 >= 0x20 { (u6 + 0xFFFF_FFFF_FFFF_FFC0) as u64 } else { u6 };
            let u16sp: u64 = ((h / 0x1000) % 2 * 0x200 + (h / 8) % 4 * 0x80 + (h / 0x20) % 2 * 0x40
                + (h / 4) % 2 * 0x20 + (h / 0x40) % 2 * 0x10) as u64;
            let imm16sp: u64 = if u16sp >= 0x200 { (u16sp + 0xFFFF_FFFF_FFFF_FC00) as u64 } else { u16sp };
            let ului: u64 = (u6 * 0x1000) as u64;
            let imm_lui: u64 = if ului >= 0x2_0000 { (ului + 0xFFFF_FFFF_FFFC_0000) as u64 } else { ului };
            let uj: u64 = ((h / 0x1000) % 2 * 0x800 + (h / 0x100) % 2 * 0x400 + (h / 0x200) % 4 * 0x100
                + (h / 0x40) % 2 * 0x80 + (h / 0x80) % 2 * 0x40 + (h / 4) % 2 * 0x20
                + (h / 0x800) % 2 * 0x10 + (h / 8) % 8 * 2) as u64;
            let imm_j: u64 = if uj >= 0x800 { (uj + 0xFFFF_FFFF_FFFF_F000) as u64 } else { uj };
            let ub: u64 = ((h / 0x1000) % 2 * 0x100 + (h / 0x20) % 4 * 0x40 + (h / 4) % 2 * 0x20
                + (h / 0x400) % 4 * 8 + (h / 8) % 4 * 2) as u64;
            let imm_b: u64 = if ub >= 0x100 { (ub + 0xFFFF_FFFF_FFFF_FE00) as u64 } else { ub };
            let branch = InstrFlow::RegRegImm2PC { rs_1: ((h / 0x80) % 8 + 8) as usize, rs_2: 0, imm: imm_b };
            let d = |op: InstrOp, flow: InstrFlow, w: OpWidth| Some(Instr { raw: h, op, flow, op_width: w, instr_size: 2 });
            let expected = if f3 == 0 {
                d(InstrOp::Add, InstrFlow::RegImm2Reg { rs_1: rd, imm: imm6, rd }, OpWidth::DoubleWord)
            } else if f3 == 1 {
                d(InstrOp::Add, InstrFlow::RegImm2Reg { rs_1: rd, imm: imm6, rd }, OpWidth::Word)
            } else if f3 == 2 {
                d(InstrOp::Add, InstrFlow::RegImm2Reg { rs_1: 0, imm: imm6, rd }, OpWidth::DoubleWord)
            } else if f3 == 3 {
                if rd == 2 {
                    d(InstrOp::Add, InstrFlow::RegImm2Reg { rs_1: 2, imm: imm16sp, rd: 2 }, OpWidth::DoubleWord)
                } else if rd == 0 {
                    None
                } else {
                    d(InstrOp::LoadUpperImm, InstrFlow::Imm2Reg { imm: imm_lui, rd }, OpWidth::NoWidth)
                }
            } else if f3 == 5 {
                d(InstrOp::JumpAndLink, InstrFlow::ImmPC2RegPC { imm: imm_j, rd: 0 }, OpWidth::NoWidth)
            } else if f3 == 6 {
                d(InstrOp::BranchIfEquals, branch, OpWidth::NoWidth)
            } else {
                d(InstrOp::BranchIfNotEquals, branch, OpWidth::NoWidth)
            };
            decode_spec(raw) == expected
        }),
{
    let h = raw % 0x1_0000;
    let i = h as u16;
    vstd::arithmetic::div_mod::lemma_mod_mod(raw as int, 4, 0x4000);
    let u6: u64 = ((h / 0x1000) % 2 * 0x20 + (h / 4) % 0x20) as u64;
    let u16sp: u64 = ((h / 0x1000) % 2 * 0x200 + (h / 8) % 4 * 0x80 + (h / 0x20) % 2 * 0x40
        + (h / 4) % 2 * 0x20 + (h / 0x40) % 2 * 0x10) as u64;
    let uj: u64 = ((h / 0x1000) % 2 * 0x800 + (h / 0x100) % 2 * 0x400 + (h / 0x200) % 4 * 0x100
        + (h / 0x40) % 2 * 0x80 + (h / 0x80) % 2 * 0x40 + (h / 4) % 2 * 0x20
        + (h / 0x800) % 2 * 0x10 + (h / 8) % 8 * 2) as u64;
    let ub: u64 = ((h / 0x1000) % 2 * 0x100 + (h / 0x20) % 4 * 0x40 + (h / 4) % 2 * 0x20
        + (h / 0x400) % 4 * 8 + (h / 8) % 4 * 2) as u64;
    assert(u6 < 0x40 && u16sp < 0x400 && uj < 0x1000 && ub < 0x200);
    assert(u6 * 0x1000 < 0x4_0000);
    lemma_sext_table(u6);
    lemma_sext_table(u16sp);
    lemma_sext_table((u6 * 0x1000) as u64);
    lemma_sext_table(uj);
    lemma_sext_table(ub);
    assert(decode_16::quadrant(i) == 1);
    assert(decode_16::imm6(i) == u6);
    assert(decode_spec(raw) == decode_16::quadrant1_spec(i));
}

} // verus!
