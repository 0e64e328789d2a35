use libemu4::decode::{decode, sign_extend, Instr, InstrFlow, InstrOp, OpWidth};

fn full(raw: u32, op: InstrOp, flow: InstrFlow, op_width: OpWidth) -> Instr {
    Instr { raw, op, flow, op_width, instr_size: 4 }
}

fn compressed(raw: u32, op: InstrOp, flow: InstrFlow, op_width: OpWidth) -> Instr {
    Instr { raw, op, flow, op_width, instr_size: 2 }
}

#[test]
fn sign_extend_copies_the_sign_bit() {
    assert_eq!(sign_extend(0x800, 11), 0xFFFF_FFFF_FFFF_F800);
    assert_eq!(sign_extend(0x7FF, 11), 0x7FF);
    assert_eq!(sign_extend(0xFFFF_FFFF_8000_0000, 31), 0xFFFF_FFFF_8000_0000);
    assert_eq!(sign_extend(0x1_0000_0FFF, 11), 0xFFFF_FFFF_FFFF_FFFF);
    assert_eq!(sign_extend(0x1234, 63), 0x1234);
}

#[test]
fn decodes_addi() {
    // addi x1, x0, 5
    let expected = full(0x0050_0093, InstrOp::Add, InstrFlow::RegImm2Reg { rs_1: 0, imm: 5, rd: 1 }, OpWidth::DoubleWord);
    assert_eq!(decode(0x0050_0093), Some(expected));
    // addi x2, x2, -16
    let expected = full(
        0xFF01_0113,
        InstrOp::Add,
        InstrFlow::RegImm2Reg { rs_1: 2, imm: 0xFFFF_FFFF_FFFF_FFF0, rd: 2 },
        OpWidth::DoubleWord,
    );
    assert_eq!(decode(0xFF01_0113), Some(expected));
}

#[test]
fn decodes_lui_with_sign_extension() {
    // lui x5, 0x12345
    let expected = full(0x1234_52B7, InstrOp::LoadUpperImm, InstrFlow::Imm2Reg { imm: 0x1234_5000, rd: 5 }, OpWidth::NoWidth);
    assert_eq!(decode(0x1234_52B7), Some(expected));
    // lui x5, 0x80000
    let expected = full(
        0x8000_02B7,
        InstrOp::LoadUpperImm,
        InstrFlow::Imm2Reg { imm: 0xFFFF_FFFF_8000_0000, rd: 5 },
        OpWidth::NoWidth,
    );
    assert_eq!(decode(0x8000_02B7), Some(expected));
}

#[test]
fn decodes_ld_and_sd() {
    // ld x10, 8(x11)
    let expected = full(
        0x0085_B503,
        InstrOp::Load,
        InstrFlow::RegImmMem2Reg { rs_1: 11, imm: 8, rd: 10 },
        OpWidth::DoubleWord,
    );
    assert_eq!(decode(0x0085_B503), Some(expected));
    // sd x12, 16(x13): imm[11:5]=0, rs2=12, rs1=13, f3=011, imm[4:0]=16
    let raw = (12 << 20) | (13 << 15) | (0b011 << 12) | (16 << 7) | 0b010_0011;
    let expected = full(raw, InstrOp::Store, InstrFlow::RegRegImm2Mem { rs_1: 13, rs_2: 12, imm: 16 }, OpWidth::DoubleWord);
    assert_eq!(decode(raw), Some(expected));
}

#[test]
fn rejects_unknown_major_opcode() {
    assert_eq!(decode(0xFFFF_FFFF), None);
    // load with funct3 = 0b111 has no width
    assert_eq!(decode((0b111 << 12) | 0b000_0011), None);
}

#[test]
fn decodes_compressed_from_low_half() {
    // c.addi4spn x8, sp, 8 in the low half; the high half is ignored
    let expected = compressed(0x0020, InstrOp::Add, InstrFlow::RegImm2Reg { rs_1: 2, imm: 8, rd: 8 }, OpWidth::DoubleWord);
    assert_eq!(decode(0x0020), Some(expected));
    assert_eq!(decode(0xABCD_0020), Some(expected));
}

#[test]
fn decodes_zero_word_as_addi4spn() {
    let expected = compressed(0, InstrOp::Add, InstrFlow::RegImm2Reg { rs_1: 2, imm: 0, rd: 8 }, OpWidth::DoubleWord);
    assert_eq!(decode(0), Some(expected));
}

#[test]
fn decodes_c_lw_and_c_li() {
    // c.lw x9, 4(x10)
    let expected = compressed(0x4144, InstrOp::Load, InstrFlow::RegImmMem2Reg { rs_1: 10, imm: 4, rd: 9 }, OpWidth::Word);
    assert_eq!(decode(0x4144), Some(expected));
    // c.li x5, -1
    let expected = compressed(
        0x52FD,
        InstrOp::Add,
        InstrFlow::RegImm2Reg { rs_1: 0, imm: 0xFFFF_FFFF_FFFF_FFFF, rd: 5 },
        OpWidth::DoubleWord,
    );
    assert_eq!(decode(0x52FD), Some(expected));
}

#[test]
fn rejects_c_lui_to_x0() {
    assert_eq!(decode(0x6005), None);
}

#[test]
fn length_follows_low_bits() {
    for raw in [0x0050_0093u32, 0x4144, 0x52FD, 0x0085_B503, 0x0020] {
        if let Some(i) = decode(raw) {
            let size = if raw & 3 == 3 { 4 } else { 2 };
            assert_eq!(i.instr_size, size);
        }
    }
}

#[test]
fn register_range_of_flows() {
    assert!(InstrFlow::RegReg2Reg { rs_1: 31, rs_2: 0, rd: 5 }.registers_in_range());
    assert!(!InstrFlow::RegReg2Reg { rs_1: 32, rs_2: 0, rd: 5 }.registers_in_range());
    assert!(InstrFlow::NoFlow.registers_in_range());
    assert!(!InstrFlow::Imm2RegCsr { imm: 0, rd: 40, csr: 0x300 }.registers_in_range());
}
