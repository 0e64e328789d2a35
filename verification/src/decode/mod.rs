//! Instruction decoding for RV64IMAC: 32-bit encodings and the 16-bit
//! compressed extension.
use vstd::prelude::*;

pub mod decode_16;
pub mod decode_32;

verus! {

/// Sign extension of `val` from bit `p`: every bit above `p` takes the value
/// of bit `p`, bits `0..=p` are those of `val`.
pub open spec fn sext(val: u64, p: u64) -> u64 {
    let h = 1u64 << p;
    if val & h != 0 {
        val | !((h - 1) as u64)
    } else {
        val & (((h - 1) as u64) | h)
    }
}

pub fn sign_extend(val: u64, sign_bit_pos: u64) -> (r: u64)
    requires
        sign_bit_pos < 64,
    ensures
        r == sext(val, sign_bit_pos),
{
    let shift = 64 - (sign_bit_pos + 1);
    let r = (((val << shift) as i64) >> shift) as u64;
    assert(r == sext(val, sign_bit_pos)) by (bit_vector)
        requires
            sign_bit_pos < 64,
            shift == 64 - (sign_bit_pos + 1),
            r == (((val << shift) as i64) >> shift) as u64,
    ;
    r
}

#[derive(Debug, Clone, Copy, PartialEq, Eq, Structural)]
pub struct Instr {
    pub raw: u32,
    pub op: InstrOp,
    pub flow: InstrFlow,
    pub op_width: OpWidth,
    pub instr_size: u8,
}

#[derive(Debug, Clone, Copy, PartialEq, Eq, Structural)]
pub enum InstrOp {
    LoadUpperImm,
    AddUpperImmAndPC,
    JumpAndLink,
    JumpAndLinkReg,
    BranchIfEquals,
    BranchIfNotEquals,
    BranchIfLesserThan,
    BranchIfGreaterThanOrEquals,
    Load,
    Store,
    Add,
    Multiply,
    Subtract,
    ShiftLeft,
    MultiplyHigh,
    SetLesserThan,
    Xor,
    Divide,
    ShiftRightLogical,
    ShiftRightArithmetic,
    Or,
    Remainder,
    And,
    FenceI,
    EnvCall,
    EnvBreak,
    SReturnFromTrap,
    MReturnFromTrap,
    CsrReadAndWrite,
    CsrReadAndSetBits,
    CsrReadAndClearBits,
    LoadReserved,
    StoreConditional,
    AtomicSwap,
    AtomicAdd,
    AtomicXor,
    AtomicAnd,
    AtomicOr,
    AtomicMin,
    AtomicMax,
}

#[derive(Debug, Clone, Copy, PartialEq, Eq, Structural)]
pub enum OpWidth {
    NoWidth,
    DoubleWord,
    Word,
    HalfWord,
    Byte,
    DoubleWordUnsigned,
    DoubleWordSignedUnsigned,
    WordUnsigned,
    HalfWordUnsigned,
    ByteUnsigned,
}

#[derive(Debug, Clone, Copy, PartialEq, Eq, Structural)]
pub enum InstrFlow {
    NoFlow,
    Imm2Reg { imm: u64, rd: usize },
    ImmPC2Reg { imm: u64, rd: usize },
    ImmPC2RegPC { imm: u64, rd: usize },
    RegImmPC2RegPC { rs_1: usize, imm: u64, rd: usize },
    RegRegImm2PC { rs_1: usize, rs_2: usize, imm: u64 },
    RegImmMem2Reg { rs_1: usize, imm: u64, rd: usize },
    RegRegImm2Mem { rs_1: usize, rs_2: usize, imm: u64 },
    RegMem2Reg { rs_1: usize, rd: usize },
    RegReg2RegMem { rs_1: usize, rs_2: usize, rd: usize },
    RegRegMem2RegMem { rs_1: usize, rs_2: usize, rd: usize },
    RegReg2Reg { rs_1: usize, rs_2: usize, rd: usize },
    RegImm2Reg { rs_1: usize, imm: u64, rd: usize },
    Reg2RegCsr { rs_1: usize, rd: usize, csr: u64 },
    Imm2RegCsr { imm: u64, rd: usize, csr: u64 },
}

impl InstrFlow {
    /// Every register index that the flow names is one of the 32 integer registers.
    pub open spec fn regs_in_range(self) -> bool {
        match self {
            InstrFlow::NoFlow => true,
            InstrFlow::Imm2Reg { rd, .. } => rd < 32,
            InstrFlow::ImmPC2Reg { rd, .. } => rd < 32,
            InstrFlow::ImmPC2RegPC { rd, .. } => rd < 32,
            InstrFlow::RegImmPC2RegPC { rs_1, rd, .. } => rs_1 < 32 && rd < 32,
            InstrFlow::RegRegImm2PC { rs_1, rs_2, .. } => rs_1 < 32 && rs_2 < 32,
            InstrFlow::RegImmMem2Reg { rs_1, rd, .. } => rs_1 < 32 && rd < 32,
            InstrFlow::RegRegImm2Mem { rs_1, rs_2, .. } => rs_1 < 32 && rs_2 < 32,
            InstrFlow::RegMem2Reg { rs_1, rd } => rs_1 < 32 && rd < 32,
            InstrFlow::RegReg2RegMem { rs_1, rs_2, rd } => rs_1 < 32 && rs_2 < 32 && rd < 32,
            InstrFlow::RegRegMem2RegMem { rs_1, rs_2, rd } => rs_1 < 32 && rs_2 < 32 && rd < 32,
            InstrFlow::RegReg2Reg { rs_1, rs_2, rd } => rs_1 < 32 && rs_2 < 32 && rd < 32,
            InstrFlow::RegImm2Reg { rs_1, rd, .. } => rs_1 < 32 && rd < 32,
            InstrFlow::Reg2RegCsr { rs_1, rd, .. } => rs_1 < 32 && rd < 32,
            InstrFlow::Imm2RegCsr { rd, .. } => rd < 32,
        }
    }

    /// Whether every register index that the flow names is in range.
    pub fn registers_in_range(&self) -> (r: bool)
        ensures
            r == self.regs_in_range(),
    {
        match *self {
            InstrFlow::NoFlow => true,
            InstrFlow::Imm2Reg { rd, .. } => rd < 32,
            InstrFlow::ImmPC2Reg { rd, .. } => rd < 32,
            InstrFlow::ImmPC2RegPC { rd, .. } => rd < 32,
            InstrFlow::RegImmPC2RegPC { rs_1, rd, .. } => rs_1 < 32 && rd < 32,
            InstrFlow::RegRegImm2PC { rs_1, rs_2, .. } => rs_1 < 32 && rs_2 < 32,
            InstrFlow::RegImmMem2Reg { rs_1, rd, .. } => rs_1 < 32 && rd < 32,
            InstrFlow::RegRegImm2Mem { rs_1, rs_2, .. } => rs_1 < 32 && rs_2 < 32,
            InstrFlow::RegMem2Reg { rs_1, rd } => rs_1 < 32 && rd < 32,
            InstrFlow::RegReg2RegMem { rs_1, rs_2, rd } => rs_1 < 32 && rs_2 < 32 && rd < 32,
            InstrFlow::RegRegMem2RegMem { rs_1, rs_2, rd } => rs_1 < 32 && rs_2 < 32 && rd < 32,
            InstrFlow::RegReg2Reg { rs_1, rs_2, rd } => rs_1 < 32 && rs_2 < 32 && rd < 32,
            InstrFlow::RegImm2Reg { rs_1, rd, .. } => rs_1 < 32 && rd < 32,
            InstrFlow::Reg2RegCsr { rs_1, rd, .. } => rs_1 < 32 && rd < 32,
            InstrFlow::Imm2RegCsr { rd, .. } => rd < 32,
        }
    }

    pub open spec fn is_binary(self) -> bool {
        self is RegReg2Reg || self is RegImm2Reg
    }
}

impl OpWidth {
    pub open spec fn is_double_or_word(self) -> bool {
        self is DoubleWord || self is Word
    }

    pub open spec fn is_arith_width(self) -> bool {
        self is DoubleWord || self is Word || self is DoubleWordUnsigned || self is WordUnsigned
    }
}

impl Instr {
    /// The shapes that the decoder produces: each operation comes with the
    /// operand flow and the widths that execution gives a meaning to.
    pub open spec fn wf(self) -> bool {
        &&& self.flow.regs_in_range()
        &&& (self.instr_size == 2 || self.instr_size == 4)
        &&& match self.op {
            InstrOp::LoadUpperImm => self.flow is Imm2Reg,
            InstrOp::AddUpperImmAndPC => self.flow is ImmPC2Reg,
            InstrOp::JumpAndLink => self.flow is ImmPC2RegPC,
            InstrOp::JumpAndLinkReg => self.flow is RegImmPC2RegPC,
            InstrOp::BranchIfEquals | InstrOp::BranchIfNotEquals => self.flow is RegRegImm2PC,
            InstrOp::BranchIfLesserThan | InstrOp::BranchIfGreaterThanOrEquals => {
                &&& self.flow is RegRegImm2PC
                &&& (self.op_width is DoubleWord || self.op_width is DoubleWordUnsigned)
            },
            InstrOp::Load => {
                &&& self.flow is RegImmMem2Reg
                &&& !(self.op_width is NoWidth) && !(self.op_width is DoubleWordSignedUnsigned)
                &&& !(self.op_width is DoubleWordUnsigned)
            },
            InstrOp::Store => {
                &&& self.flow is RegRegImm2Mem
                &&& (self.op_width is DoubleWord || self.op_width is Word
                    || self.op_width is HalfWord || self.op_width is Byte)
            },
            InstrOp::Add | InstrOp::Multiply | InstrOp::Subtract | InstrOp::ShiftLeft
            | InstrOp::ShiftRightLogical | InstrOp::ShiftRightArithmetic => {
                self.flow.is_binary() && self.op_width.is_double_or_word()
            },
            InstrOp::MultiplyHigh => {
                &&& self.flow.is_binary()
                &&& (self.op_width is DoubleWord || self.op_width is DoubleWordSignedUnsigned
                    || self.op_width is DoubleWordUnsigned)
            },
            InstrOp::SetLesserThan => {
                &&& self.flow.is_binary()
                &&& (self.op_width is DoubleWord || self.op_width is DoubleWordUnsigned)
            },
            InstrOp::Xor | InstrOp::Or | InstrOp::And => self.flow.is_binary(),
            InstrOp::Divide | InstrOp::Remainder => {
                self.flow.is_binary() && self.op_width.is_arith_width()
            },
            InstrOp::FenceI | InstrOp::EnvCall | InstrOp::EnvBreak | InstrOp::SReturnFromTrap
            | InstrOp::MReturnFromTrap => true,
            InstrOp::CsrReadAndWrite | InstrOp::CsrReadAndSetBits
            | InstrOp::CsrReadAndClearBits => self.flow is Reg2RegCsr || self.flow is Imm2RegCsr,
            InstrOp::LoadReserved => self.flow is RegMem2Reg && self.op_width.is_double_or_word(),
            InstrOp::StoreConditional => {
                self.flow is RegReg2RegMem && self.op_width.is_double_or_word()
            },
            InstrOp::AtomicSwap | InstrOp::AtomicAdd | InstrOp::AtomicXor | InstrOp::AtomicAnd
            | InstrOp::AtomicOr => {
                self.flow is RegRegMem2RegMem && self.op_width.is_double_or_word()
            },
            InstrOp::AtomicMin | InstrOp::AtomicMax => {
                self.flow is RegRegMem2RegMem && self.op_width.is_arith_width()
            },
        }
    }
}

/// What `decode` yields for a fetched word: the low two bits select between
/// a 32-bit encoding and a compressed one held in the low half-word.
pub open spec fn decode_spec(instr: u32) -> Option<Instr> {
    if instr % 4 == 3 {
        decode_32::decode_spec(instr)
    } else {
        decode_16::decode_spec((instr % 0x10000) as u16)
    }
}

pub fn decode(instr: u32) -> (r: Option<Instr>)
    ensures
        r == decode_spec(instr),
        r matches Some(i) ==> i.wf(),
{
    if instr % 4 == 3 {
        decode_32::decode(instr)
    } else {
        decode_16::decode((instr % 0x10000) as u16)
    }
}


/// Law: the low two bits of a fetched word fix the instruction length: a
/// word ending in `0b11` decodes (if at all) to a 4-byte instruction that
/// keeps the whole word as its raw encoding, any other to a 2-byte
/// compressed one that keeps the low half-word.
pub proof fn lemma_decode_length(raw: u32)
    ensures
        decode_spec(raw) matches Some(i) ==> (if raw % 4 == 3 {
            i.instr_size == 4 && i.raw == raw
        } else {
            i.instr_size == 2 && i.raw == raw % 0x10000
        }),
{
}


/// Every instruction that the decoder yields has one of the shapes that
/// execution gives a meaning to.
pub proof fn lemma_decode_wf(raw: u32)
    ensures
        decode_spec(raw) matches Some(i) ==> i.wf(),
{
}

} // verus!
