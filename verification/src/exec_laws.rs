//! Laws of instruction execution: integer division and remainder, and what
//! a store instruction does to the hart and the bus.
use vstd::prelude::*;

use crate::bus::BusTxSize;
use crate::decode::{Instr, InstrFlow, InstrOp, OpWidth};
use crate::exec::{abs, alu, exec_spec, exec_store, misaligned, sval64, tdiv, trem, translated, tx_size_of};
use crate::mmu::{translation, AccessType, Translation};
use crate::trap::Exception;
use crate::{wrap64, CpuState};

verus! {

/// Division rounding toward zero and its remainder recompose the dividend;
/// the remainder is smaller than the divisor and takes the dividend's sign;
/// the quotient's multiple never exceeds the dividend in size.
pub proof fn lemma_tdiv_trem(x: int, y: int)
    requires
        y != 0,
    ensures
        tdiv(x, y) * y + trem(x, y) == x,
        abs(trem(x, y)) < abs(y),
        trem(x, y) == 0 || (trem(x, y) < 0) == (x < 0),
        abs(tdiv(x, y) * y) <= abs(x),
        abs(tdiv(x, y)) <= abs(x),
{
    let ax = abs(x);
    let ay = abs(y);
    let q = ax / ay;
    let r = ax % ay;
    assert(ax == ay * q + r && 0 <= r < ay && q >= 0) by (nonlinear_arith)
        requires ay > 0, ax >= 0, q == ax / ay, r == ax % ay;
    assert(q <= ax) by (nonlinear_arith)
        requires ay >= 1, q >= 0, r >= 0, ax == ay * q + r;
    if x < 0 {
        if y < 0 {
            assert(tdiv(x, y) * y + trem(x, y) == x) by (nonlinear_arith)
                requires tdiv(x, y) == q, trem(x, y) == -r, ax == -x, ay == -y, ax == ay * q + r;
            assert(abs(tdiv(x, y) * y) == q * ay) by (nonlinear_arith)
                requires tdiv(x, y) == q, ay == -y, q >= 0, ay > 0;
        } else {
            assert(tdiv(x, y) * y + trem(x, y) == x) by (nonlinear_arith)
                requires tdiv(x, y) == -q, trem(x, y) == -r, ax == -x, ay == y, ax == ay * q + r;
            assert(abs(tdiv(x, y) * y) == q * ay) by (nonlinear_arith)
                requires tdiv(x, y) == -q, ay == y, q >= 0, ay > 0;
        }
    } else {
        if y < 0 {
            assert(tdiv(x, y) * y + trem(x, y) == x) by (nonlinear_arith)
                requires tdiv(x, y) == -q, trem(x, y) == r, ax == x, ay == -y, ax == ay * q + r;
            assert(abs(tdiv(x, y) * y) == q * ay) by (nonlinear_arith)
                requires tdiv(x, y) == -q, ay == -y, q >= 0, ay > 0;
        } else {
            assert(tdiv(x, y) * y + trem(x, y) == x) by (nonlinear_arith)
                requires tdiv(x, y) == q, trem(x, y) == r, ax == x, ay == y, ax == ay * q + r;
            assert(abs(tdiv(x, y) * y) == q * ay) by (nonlinear_arith)
                requires tdiv(x, y) == q, ay == y, q >= 0, ay > 0;
        }
    }
    assert(q * ay <= ax) by (nonlinear_arith)
        requires ax == ay * q + r, r >= 0;
}

/// A value in the signed 64-bit range is what its pattern stands for.
proof fn lemma_sval64_wrap(t: int)
    requires
        -0x8000_0000_0000_0000 <= t < 0x8000_0000_0000_0000,
    ensures
        sval64(wrap64(t)) == t,
{
}

/// Law: signed 64-bit division and remainder (`div`, `rem`). By zero the
/// quotient is all ones and the remainder the dividend; the overflowing
/// `-2^63 / -1` gives the dividend and remainder 0; otherwise the quotient is
/// rounded toward zero, `q * b + r == a`, `|r| < |b|`, and a nonzero
/// remainder takes the dividend's sign. In every case `q * b + r == a` up to
/// wrapping when `b` is nonzero.
pub proof fn lemma_signed_division(a: u64, b: u64)
    ensures
        ({
            let q = alu(InstrOp::Divide, OpWidth::DoubleWord, a, b);
            let r = alu(InstrOp::Remainder, OpWidth::DoubleWord, a, b);
            &&& b == 0 ==> q == u64::MAX && r == a
            &&& (sval64(a) == -0x8000_0000_0000_0000 && sval64(b) == -1) ==> q == a && r == 0
            &&& (b != 0 && !(sval64(a) == -0x8000_0000_0000_0000 && sval64(b) == -1)) ==> {
                &&& sval64(q) == tdiv(sval64(a), sval64(b))
                &&& sval64(q) * sval64(b) + sval64(r) == sval64(a)
                &&& abs(sval64(r)) < abs(sval64(b))
                &&& (sval64(r) == 0 || (sval64(r) < 0) == (sval64(a) < 0))
                &&& abs(sval64(q) * sval64(b)) <= abs(sval64(a))
            }
            &&& b != 0 ==> wrap64(q * b + r) == a
        }),
{
    let x = sval64(a);
    let y = sval64(b);
    if b != 0 {
        lemma_tdiv_trem(x, y);
        if !(x == -0x8000_0000_0000_0000 && y == -1) {
            let t = tdiv(x, y);
            let m = trem(x, y);
            // the quotient fits: only -2^63 / -1 leaves the range
            if abs(y) == 1 {
                assert(t == x || t == -x) by (nonlinear_arith)
                    requires abs(y) == 1, t * y + m == x, abs(m) < abs(y);
            } else {
                let at = if t < 0 { -t } else { t };
                let ay = if y < 0 { -y } else { y };
                assert(abs(t * y) == at * ay) by (nonlinear_arith)
                    requires at == (if t < 0 { -t } else { t }), ay == (if y < 0 { -y } else { y }),
                        abs(t * y) == (if t * y < 0 { -(t * y) } else { t * y });
                assert(abs(t) <= abs(x) / 2) by (nonlinear_arith)
                    requires abs(y) >= 2, abs(t * y) <= abs(x), abs(t * y) == abs(t) * abs(y);
            }
            lemma_sval64_wrap(t);
            lemma_sval64_wrap(m);
            let q = alu(InstrOp::Divide, OpWidth::DoubleWord, a, b);
            let r = alu(InstrOp::Remainder, OpWidth::DoubleWord, a, b);
            assert(sval64(q) == t && sval64(r) == m);
            assert(wrap64(q * b + r) == a) by (nonlinear_arith)
                requires
                    q * b + r == (sval64(q) + (if q >= 0x8000_0000_0000_0000 { 0x1_0000_0000_0000_0000int } else { 0 }))
                        * (sval64(b) + (if b >= 0x8000_0000_0000_0000 { 0x1_0000_0000_0000_0000int } else { 0 }))
                        + sval64(r) + (if r >= 0x8000_0000_0000_0000 { 0x1_0000_0000_0000_0000int } else { 0 }),
                    sval64(q) * sval64(b) + sval64(r) == sval64(a),
                    a as int == sval64(a) + (if a >= 0x8000_0000_0000_0000 { 0x1_0000_0000_0000_0000int } else { 0 }),
                    wrap64(q * b + r) == (q * b + r) % 0x1_0000_0000_0000_0000int,
                    0 <= a < 0x1_0000_0000_0000_0000int;
        } else {
            assert(wrap64(a * b) == a) by (nonlinear_arith)
                requires a == 0x8000_0000_0000_0000u64, b == 0xFFFF_FFFF_FFFF_FFFFu64,
                    wrap64(a * b) == (a * b) % 0x1_0000_0000_0000_0000int;
        }
    }
}

/// Law: unsigned 64-bit division and remainder (`divu`, `remu`): by zero
/// the quotient is all ones and the remainder the dividend; otherwise
/// `q * b + r == a` with `r < b`.
pub proof fn lemma_unsigned_division(a: u64, b: u64)
    ensures
        ({
            let q = alu(InstrOp::Divide, OpWidth::DoubleWordUnsigned, a, b);
            let r = alu(InstrOp::Remainder, OpWidth::DoubleWordUnsigned, a, b);
            &&& b == 0 ==> q == u64::MAX && r == a
            &&& b != 0 ==> q * b + r == a && r < b
        }),
{
    if b != 0 {
        assert(a == b * (a / b) + a % b && a % b < b) by (nonlinear_arith)
            requires b > 0;
        assert((a / b) * b == b * (a / b)) by (nonlinear_arith);
    }
}

/// Law: a store instruction either raises its page fault (with the faulting
/// virtual address as trap value) and leaves the bus as it was, or, once
/// translated (the walk may set the leaf entry's accessed and dirty bits),
/// raises its misalignment exception, or holds the store, cut to its width,
/// as the bus's pending store at the physical address; memory itself is
/// written only when the held store is committed. Registers, pc, CSRs and
/// mode are unchanged either way.
pub proof fn lemma_store_effect(s: CpuState, i: Instr, raw: u32, rs_1: usize, rs_2: usize, imm: u64)
    requires
        i.op == InstrOp::Store,
        i.flow == (InstrFlow::RegRegImm2Mem { rs_1, rs_2, imm }),
        translation(wrap64(s.regs[rs_1 as int] + imm), AccessType::Store, s.mode, s.csr, s.bus) != Translation::Abort,
    ensures
        ({
            let r = exec_spec(s, i, raw);
            let va = wrap64(s.regs[rs_1 as int] + imm);
            let t = translated(s, va, AccessType::Store);
            &&& r.regs == s.regs && r.pc == s.pc && r.csr == s.csr && r.mode == s.mode
            &&& match translation(va, AccessType::Store, s.mode, s.csr, s.bus) {
                Translation::Fault(e) => r.exception == Some((e, va)) && r.bus == s.bus,
                Translation::Translated(pa) => if misaligned(pa, i.op_width) {
                    r.exception == Some((Exception::StoreAddressMisaligned, va)) && r.bus == t.bus
                } else {
                    &&& r.exception == s.exception
                    &&& r.bus.pending_store == Some((pa, tx_size_of(i.op_width).truncate(s.regs[rs_2 as int]), tx_size_of(i.op_width)))
                    &&& r.bus.ram == t.bus.ram
                },
                Translation::Abort => true,
            }
        }),
{
    let va = wrap64(s.regs[rs_1 as int] + imm);
    if s.bus.wf() {
        crate::mmu::lemma_translation_ad_update(va, AccessType::Store, s.mode, s.csr, s.bus);
    }
    assert(exec_spec(s, i, raw) == exec_store(s, i));
}

} // verus!
