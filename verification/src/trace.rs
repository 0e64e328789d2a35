//! The instruction trace: one record per executed instruction, with the
//! operation, width and operand flow as small numeric codes and the values
//! of the source registers. Writing the records out is the host's business.
use vstd::prelude::*;

use crate::decode::{Instr, InstrFlow, InstrOp, OpWidth};

verus! {

/// The code of an operation in the trace.
pub open spec fn op_code(op: InstrOp) -> u8 {
    match op {
        InstrOp::LoadUpperImm => 0,
        InstrOp::AddUpperImmAndPC => 1,
        InstrOp::JumpAndLink => 2,
        InstrOp::JumpAndLinkReg => 3,
        InstrOp::BranchIfEquals => 4,
        InstrOp::BranchIfNotEquals => 5,
        InstrOp::BranchIfLesserThan => 6,
        InstrOp::BranchIfGreaterThanOrEquals => 7,
        InstrOp::Load => 8,
        InstrOp::Store => 9,
        InstrOp::Add => 10,
        InstrOp::Multiply => 11,
        InstrOp::Subtract => 12,
        InstrOp::ShiftLeft => 13,
        InstrOp::MultiplyHigh => 14,
        InstrOp::SetLesserThan => 15,
        InstrOp::Xor => 16,
        InstrOp::Divide => 17,
        InstrOp::ShiftRightLogical => 18,
        InstrOp::ShiftRightArithmetic => 19,
        InstrOp::Or => 20,
        InstrOp::Remainder => 21,
        InstrOp::And => 22,
        InstrOp::FenceI => 23,
        InstrOp::EnvCall => 24,
        InstrOp::EnvBreak => 25,
        InstrOp::SReturnFromTrap => 26,
        InstrOp::MReturnFromTrap => 27,
        InstrOp::CsrReadAndWrite => 28,
        InstrOp::CsrReadAndSetBits => 29,
        InstrOp::CsrReadAndClearBits => 30,
        InstrOp::LoadReserved => 31,
        InstrOp::StoreConditional => 32,
        InstrOp::AtomicSwap => 33,
        InstrOp::AtomicAdd => 34,
        InstrOp::AtomicXor => 35,
        InstrOp::AtomicAnd => 36,
        InstrOp::AtomicOr => 37,
        InstrOp::AtomicMin => 38,
        InstrOp::AtomicMax => 39,
    }
}

/// The code of an operand width in the trace; none for no width.
pub open spec fn width_code(w: OpWidth) -> Option<u8> {
    match w {
        OpWidth::NoWidth => None,
        OpWidth::DoubleWord => Some(0),
        OpWidth::Word => Some(1),
        OpWidth::HalfWord => Some(2),
        OpWidth::Byte => Some(3),
        OpWidth::DoubleWordUnsigned => Some(4),
        OpWidth::DoubleWordSignedUnsigned => Some(5),
        OpWidth::WordUnsigned => Some(6),
        OpWidth::HalfWordUnsigned => Some(7),
        OpWidth::ByteUnsigned => Some(8),
    }
}

/// The flow columns of the trace: flow code, destination, the two source
/// registers and the immediate (the CSR address for CSR flows, whose
/// registers are not traced).
pub open spec fn flow_columns(flow: InstrFlow) -> (Option<u8>, Option<u8>, Option<u8>, Option<u8>, Option<i64>) {
    match flow {
        InstrFlow::NoFlow => (None, None, None, None, None),
        InstrFlow::Imm2Reg { imm, rd } => (Some(0u8), Some(rd as u8), None, None, Some(imm as i64)),
        InstrFlow::ImmPC2Reg { imm, rd } => (Some(1u8), Some(rd as u8), None, None, Some(imm as i64)),
        InstrFlow::ImmPC2RegPC { imm, rd } => (Some(2u8), Some(rd as u8), None, None, Some(imm as i64)),
        InstrFlow::RegImmPC2RegPC { rs_1, imm, rd } => (Some(3u8), Some(rd as u8), Some(rs_1 as u8), None, Some(imm as i64)),
        InstrFlow::RegRegImm2PC { rs_1, rs_2, imm } => (Some(4u8), None, Some(rs_1 as u8), Some(rs_2 as u8), Some(imm as i64)),
        InstrFlow::RegImmMem2Reg { rs_1, imm, rd } => (Some(5u8), Some(rd as u8), Some(rs_1 as u8), None, Some(imm as i64)),
        InstrFlow::RegRegImm2Mem { rs_1, rs_2, imm } => (Some(6u8), None, Some(rs_1 as u8), Some(rs_2 as u8), Some(imm as i64)),
        InstrFlow::RegMem2Reg { rs_1, rd } => (Some(7u8), Some(rd as u8), Some(rs_1 as u8), None, None),
        InstrFlow::RegReg2RegMem { rs_1, rs_2, rd } => (Some(8u8), Some(rd as u8), Some(rs_1 as u8), Some(rs_2 as u8), None),
        InstrFlow::RegRegMem2RegMem { rs_1, rs_2, rd } => (Some(9u8), Some(rd as u8), Some(rs_1 as u8), Some(rs_2 as u8), None),
        InstrFlow::RegReg2Reg { rs_1, rs_2, rd } => (Some(10u8), Some(rd as u8), Some(rs_1 as u8), Some(rs_2 as u8), None),
        InstrFlow::RegImm2Reg { rs_1, imm, rd } => (Some(11u8), Some(rd as u8), Some(rs_1 as u8), None, Some(imm as i64)),
        InstrFlow::Reg2RegCsr { csr, .. } => (Some(12u8), None, None, None, Some(csr as i64)),
        InstrFlow::Imm2RegCsr { csr, .. } => (Some(13u8), None, None, None, Some(csr as i64)),
    }
}

/// One row of the trace.
#[derive(Clone, Copy, Debug, PartialEq, Eq, Structural)]
pub struct TraceRecord {
    pub cycle: u64,
    pub pc: u64,
    pub compressed: bool,
    pub op: u8,
    pub op_width: Option<u8>,
    pub flow: Option<u8>,
    pub rd: Option<u8>,
    pub rs_1: Option<u8>,
    pub rs_2: Option<u8>,
    pub imm: Option<i64>,
    pub rs_1_val: Option<i64>,
    pub rs_2_val: Option<i64>,
}

/// The value of register `r`, if there is one, as a signed column.
pub open spec fn reg_value(regs: Seq<u64>, r: Option<u8>) -> Option<i64> {
    match r {
        Some(i) => Some(regs[i as int] as i64),
        None => None,
    }
}

/// The row for `instr` executed at `pc` in cycle `cycle`.
pub open spec fn record_of(instr: Instr, cycle: u64, pc: u64, regs: Seq<u64>) -> TraceRecord {
    let (flow, rd, rs_1, rs_2, imm) = flow_columns(instr.flow);
    TraceRecord {
        cycle,
        pc,
        compressed: instr.instr_size == 2,
        op: op_code(instr.op),
        op_width: width_code(instr.op_width),
        flow,
        rd,
        rs_1,
        rs_2,
        imm,
        rs_1_val: reg_value(regs, rs_1),
        rs_2_val: reg_value(regs, rs_2),
    }
}

fn op_code_of(op: InstrOp) -> (r: u8)
    ensures
        r == op_code(op),
{
    match op {
        InstrOp::LoadUpperImm => 0,
        InstrOp::AddUpperImmAndPC => 1,
        InstrOp::JumpAndLink => 2,
        InstrOp::JumpAndLinkReg => 3,
        InstrOp::BranchIfEquals => 4,
        InstrOp::BranchIfNotEquals => 5,
        InstrOp::BranchIfLesserThan => 6,
        InstrOp::BranchIfGreaterThanOrEquals => 7,
        InstrOp::Load => 8,
        InstrOp::Store => 9,
        InstrOp::Add => 10,
        InstrOp::Multiply => 11,
        InstrOp::Subtract => 12,
        InstrOp::ShiftLeft => 13,
        InstrOp::MultiplyHigh => 14,
        InstrOp::SetLesserThan => 15,
        InstrOp::Xor => 16,
        InstrOp::Divide => 17,
        InstrOp::ShiftRightLogical => 18,
        InstrOp::ShiftRightArithmetic => 19,
        InstrOp::Or => 20,
        InstrOp::Remainder => 21,
        InstrOp::And => 22,
        InstrOp::FenceI => 23,
        InstrOp::EnvCall => 24,
        InstrOp::EnvBreak => 25,
        InstrOp::SReturnFromTrap => 26,
        InstrOp::MReturnFromTrap => 27,
        InstrOp::CsrReadAndWrite => 28,
        InstrOp::CsrReadAndSetBits => 29,
        InstrOp::CsrReadAndClearBits => 30,
        InstrOp::LoadReserved => 31,
        InstrOp::StoreConditional => 32,
        InstrOp::AtomicSwap => 33,
        InstrOp::AtomicAdd => 34,
        InstrOp::AtomicXor => 35,
        InstrOp::AtomicAnd => 36,
        InstrOp::AtomicOr => 37,
        InstrOp::AtomicMin => 38,
        InstrOp::AtomicMax => 39,
    }
}

fn width_code_of(w: OpWidth) -> (r: Option<u8>)
    ensures
        r == width_code(w),
{
    match w {
        OpWidth::NoWidth => None,
        OpWidth::DoubleWord => Some(0),
        OpWidth::Word => Some(1),
        OpWidth::HalfWord => Some(2),
        OpWidth::Byte => Some(3),
        OpWidth::DoubleWordUnsigned => Some(4),
        OpWidth::DoubleWordSignedUnsigned => Some(5),
        OpWidth::WordUnsigned => Some(6),
        OpWidth::HalfWordUnsigned => Some(7),
        OpWidth::ByteUnsigned => Some(8),
    }
}

fn flow_columns_of(flow: InstrFlow) -> (r: (Option<u8>, Option<u8>, Option<u8>, Option<u8>, Option<i64>))
    ensures
        r == flow_columns(flow),
{
    match flow {
        InstrFlow::NoFlow => (None, None, None, None, None),
        InstrFlow::Imm2Reg { imm, rd } => (Some(0), Some(rd as u8), None, None, Some(imm as i64)),
        InstrFlow::ImmPC2Reg { imm, rd } => (Some(1), Some(rd as u8), None, None, Some(imm as i64)),
        InstrFlow::ImmPC2RegPC { imm, rd } => (Some(2), Some(rd as u8), None, None, Some(imm as i64)),
        InstrFlow::RegImmPC2RegPC { rs_1, imm, rd } => (Some(3), Some(rd as u8), Some(rs_1 as u8), None, Some(imm as i64)),
        InstrFlow::RegRegImm2PC { rs_1, rs_2, imm } => (Some(4), None, Some(rs_1 as u8), Some(rs_2 as u8), Some(imm as i64)),
        InstrFlow::RegImmMem2Reg { rs_1, imm, rd } => (Some(5), Some(rd as u8), Some(rs_1 as u8), None, Some(imm as i64)),
        InstrFlow::RegRegImm2Mem { rs_1, rs_2, imm } => (Some(6), None, Some(rs_1 as u8), Some(rs_2 as u8), Some(imm as i64)),
        InstrFlow::RegMem2Reg { rs_1, rd } => (Some(7), Some(rd as u8), Some(rs_1 as u8), None, None),
        InstrFlow::RegReg2RegMem { rs_1, rs_2, rd } => (Some(8), Some(rd as u8), Some(rs_1 as u8), Some(rs_2 as u8), None),
        InstrFlow::RegRegMem2RegMem { rs_1, rs_2, rd } => (Some(9), Some(rd as u8), Some(rs_1 as u8), Some(rs_2 as u8), None),
        InstrFlow::RegReg2Reg { rs_1, rs_2, rd } => (Some(10), Some(rd as u8), Some(rs_1 as u8), Some(rs_2 as u8), None),
        InstrFlow::RegImm2Reg { rs_1, imm, rd } => (Some(11), Some(rd as u8), Some(rs_1 as u8), None, Some(imm as i64)),
        InstrFlow::Reg2RegCsr { csr, .. } => (Some(12), None, None, None, Some(csr as i64)),
        InstrFlow::Imm2RegCsr { csr, .. } => (Some(13), None, None, None, Some(csr as i64)),
    }
}

fn reg_value_of(regs: &[u64; 32], r: Option<u8>) -> (v: Option<i64>)
    requires
        r matches Some(i) ==> i < 32,
    ensures
        v == reg_value(regs@, r),
{
    match r {
        Some(i) => Some(regs[i as usize] as i64),
        None => None,
    }
}

/// The trace row for `instr`, executed at `pc` in cycle `cycle` with the
/// registers `regs` as they were before it.
pub fn trace_record(instr: &Instr, cycle: u64, pc: u64, regs: &[u64; 32]) -> (r: TraceRecord)
    requires
        instr.flow.regs_in_range(),
    ensures
        r == record_of(*instr, cycle, pc, regs@),
{
    let (flow, rd, rs_1, rs_2, imm) = flow_columns_of(instr.flow);
    TraceRecord {
        cycle,
        pc,
        compressed: instr.instr_size == 2,
        op: op_code_of(instr.op),
        op_width: width_code_of(instr.op_width),
        flow,
        rd,
        rs_1,
        rs_2,
        imm,
        rs_1_val: reg_value_of(regs, rs_1),
        rs_2_val: reg_value_of(regs, rs_2),
    }
}

} // verus!
