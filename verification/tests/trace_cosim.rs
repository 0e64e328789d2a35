use libemu4::bus::{Bus, BusTxSize};
use libemu4::cosim::{tx_size_of_len, Cosim, CosimBus, CosimState, MemLog, StateDiff};
use libemu4::csr::Csr;
use libemu4::decode::{decode, Instr, InstrFlow, InstrOp, OpWidth};
use libemu4::trace::{trace_record, TraceRecord};
use libemu4::CpuMode;

#[test]
fn trace_row_of_a_register_instruction() {
    let mut regs = [0u64; 32];
    regs[1] = 10;
    regs[2] = u64::MAX;
    let i = Instr { raw: 0x0020_81B3, op: InstrOp::Add, flow: InstrFlow::RegReg2Reg { rs_1: 1, rs_2: 2, rd: 3 }, op_width: OpWidth::DoubleWord, instr_size: 4 };
    let r = trace_record(&i, 7, 0x8000_0000, &regs);
    assert_eq!(
        r,
        TraceRecord {
            cycle: 7,
            pc: 0x8000_0000,
            compressed: false,
            op: 10,
            op_width: Some(0),
            flow: Some(10),
            rd: Some(3),
            rs_1: Some(1),
            rs_2: Some(2),
            imm: None,
            rs_1_val: Some(10),
            rs_2_val: Some(-1),
        }
    );
}

#[test]
fn trace_row_of_compressed_and_csr_instructions() {
    let regs = [0u64; 32];
    let i = decode(0x52FD).unwrap();
    let r = trace_record(&i, 1, 2, &regs);
    assert!(r.compressed);
    assert_eq!(r.op, 10);
    assert_eq!(r.flow, Some(11));
    assert_eq!(r.imm, Some(-1));
    assert_eq!(r.rs_1, Some(0));
    assert_eq!(r.rs_2, None);
    assert_eq!(r.rs_2_val, None);

    let i = Instr { raw: 0, op: InstrOp::CsrReadAndWrite, flow: InstrFlow::Reg2RegCsr { rs_1: 1, rd: 2, csr: 0x340 }, op_width: OpWidth::NoWidth, instr_size: 4 };
    let r = trace_record(&i, 1, 2, &regs);
    assert_eq!(r.op, 28);
    assert_eq!(r.op_width, None);
    assert_eq!(r.flow, Some(12));
    assert_eq!((r.rd, r.rs_1, r.rs_2), (None, None, None));
    assert_eq!(r.imm, Some(0x340));

    let i = Instr { raw: 0, op: InstrOp::AtomicMax, flow: InstrFlow::NoFlow, op_width: OpWidth::ByteUnsigned, instr_size: 4 };
    let r = trace_record(&i, 1, 2, &regs);
    assert_eq!((r.op, r.op_width, r.flow), (39, Some(8), None));
}

#[test]
fn transfer_sizes() {
    assert_eq!(tx_size_of_len(1), Some(BusTxSize::Bits8));
    assert_eq!(tx_size_of_len(2), Some(BusTxSize::Bits16));
    assert_eq!(tx_size_of_len(4), Some(BusTxSize::Bits32));
    assert_eq!(tx_size_of_len(8), Some(BusTxSize::Bits64));
    assert_eq!(tx_size_of_len(3), None);
    assert_eq!(tx_size_of_len(0), None);
}

#[test]
fn cosim_bus_answers_only_devices() {
    let mut b = CosimBus::new();
    assert_eq!(b.mmio_load(0x8000_0000, BusTxSize::Bits64), None);
    assert_eq!(b.mmio_load(0x10, BusTxSize::Bits64), None);
    assert_eq!(b.mmio_load(0x200_4000, BusTxSize::Bits64), Some(u64::MAX));
    assert_eq!(b.mmio_store(0x200_4000, 5, BusTxSize::Bits64), Some(()));
    assert_eq!(b.mmio_store(0x8000_0000, 5, BusTxSize::Bits64), None);
    assert_eq!(b.tick(4, None), (false, None));
    assert_eq!(b.tick(5, None), (true, None));
    assert_eq!(b.ram_offset(0x8000_0010), Some(0x10));
    assert_eq!(b.ram_offset(0x10), None);
}

#[test]
fn mem_log_is_recorded_with_32_bit_addresses() {
    let bus = Bus::new();
    let mut cosim = Cosim::new(&bus);
    let log = MemLog { load_addr: 0xFFFF_FFFF_8000_0008, load_size: 4, store_addr: 0x1000_0000, store_val: 0x41, store_size: 1 };
    assert!(log.valid());
    assert_eq!(cosim.tick(1, None), (false, None));
    cosim.record(&log);
    assert_eq!(cosim.load, Some((0x8000_0008, BusTxSize::Bits32)));
    assert_eq!(cosim.store, Some((0x1000_0000, 0x41, BusTxSize::Bits8)));
    cosim.tick(2, None);
    assert_eq!(cosim.load, None);
    assert!(!MemLog { load_addr: 0, load_size: 3, store_addr: 0, store_val: 0, store_size: 0 }.valid());
}

fn matching_state() -> CosimState {
    CosimState {
        pc: 0x8000_0000,
        prv: 3,
        regs: [0; 32],
        sepc: 0,
        satp: 0,
        stval: 0,
        stvec: 0,
        scause: 0,
        sstatus: 0x0000_0002_0000_0000,
        mtval: 0,
        mcause: 0,
        mstatus: 0x0000_000A_0000_0000,
        mcountinhibit: 0,
        load_reservation: u64::MAX,
    }
}

#[test]
fn compare_states_lists_differences_in_order() {
    let bus = Bus::new();
    let csr = Csr::new();
    let cosim = Cosim::new(&bus);
    let regs = [0u64; 32];
    let same = matching_state();
    assert!(cosim.compare_states(0x8000_0000, CpuMode::Machine, &regs, &csr, &bus, &same).is_empty());
    assert!(!cosim.ram_mismatch(&csr, &bus));

    let mut other = matching_state();
    other.pc = 0x8000_0004;
    other.prv = 1;
    other.regs[5] = 9;
    other.mcause = 2;
    other.load_reservation = 0x8000_0100;
    let diffs = cosim.compare_states(0x8000_0000, CpuMode::Machine, &regs, &csr, &bus, &other);
    assert_eq!(
        diffs,
        vec![
            StateDiff::Pc(0x8000_0000, 0x8000_0004),
            StateDiff::Prv(CpuMode::Machine, 1),
            StateDiff::Reg(5, 0, 9),
            StateDiff::Mcause(0, 2),
            StateDiff::LoadReservation(None, 0x8000_0100),
        ]
    );
}
