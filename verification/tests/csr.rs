use libemu4::csr::Csr;
use libemu4::CpuMode;

#[test]
fn reset_values() {
    let csr = Csr::new();
    assert_eq!(csr.load(0x300, CpuMode::Machine), Some(0x0000_000A_0000_0000));
    assert_eq!(csr.mstatus().as_bits(), 0x0000_000A_0000_0000);
    assert_eq!(csr.load(0x301, CpuMode::Machine), Some(0x8000_0000_0014_1105));
    assert_eq!(csr.load(0xF11, CpuMode::Machine), Some(0));
    assert_eq!(csr.load(0xF12, CpuMode::Machine), Some(5));
    assert_eq!(csr.load(0xF14, CpuMode::Machine), Some(0));
    assert_eq!(csr.load(0xB05, CpuMode::Machine), Some(0));
    assert_eq!(csr.load(0x7C0, CpuMode::Machine), None);
}

#[test]
fn plain_register_reads_back_what_was_written() {
    let mut csr = Csr::new();
    for addr in [0x340u64, 0x341, 0x343, 0x305, 0x140, 0x141, 0x143, 0x105] {
        assert_eq!(csr.store(addr, 0xDEAD_BEEF_0000_1234, CpuMode::Machine), Some(()));
        assert_eq!(csr.load(addr, CpuMode::Machine), Some(0xDEAD_BEEF_0000_1234));
    }
    assert_eq!(csr.mepc(), 0xDEAD_BEEF_0000_1234);
    assert_eq!(csr.sepc(), 0xDEAD_BEEF_0000_1234);
    assert_eq!(csr.mstatus().as_bits(), 0x0000_000A_0000_0000);
}

#[test]
fn writes_without_privilege_are_ignored() {
    let mut csr = Csr::new();
    assert_eq!(csr.store(0x340, 7, CpuMode::Supervisor), Some(()));
    assert_eq!(csr.load(0x340, CpuMode::Machine), Some(0));
    assert_eq!(csr.store(0x141, 7, CpuMode::User), Some(()));
    assert_eq!(csr.sepc(), 0);
    assert_eq!(csr.store(0x141, 7, CpuMode::Supervisor), Some(()));
    assert_eq!(csr.sepc(), 7);
}

#[test]
fn read_only_and_missing_registers() {
    let mut csr = Csr::new();
    assert_eq!(csr.store(0xF11, 5, CpuMode::Machine), Some(()));
    assert_eq!(csr.load(0xF11, CpuMode::Machine), Some(0));
    assert_eq!(csr.store(0x7C0, 5, CpuMode::Machine), None);
    assert_eq!(csr.store(0xB03, 5, CpuMode::Machine), Some(()));
}

#[test]
fn satp_accepts_only_bare_and_sv39() {
    let mut csr = Csr::new();
    assert_eq!(csr.store(0x180, 9 << 60, CpuMode::Machine), Some(()));
    assert_eq!(csr.satp().as_bits(), 0);
    assert_eq!(csr.store(0x180, (8 << 60) | 0x80100, CpuMode::Machine), Some(()));
    assert_eq!(csr.satp().as_bits(), (8 << 60) | 0x80100);
    assert_eq!(csr.satp().mode(), 8);
    assert_eq!(csr.satp().ppn(), 0x80100);
}

#[test]
fn mstatus_write_is_normalised() {
    let mut csr = Csr::new();
    // FS dirty sets SD; UXL and SXL are forced to 64 bits.
    assert_eq!(csr.store(0x300, 0x6000, CpuMode::Machine), Some(()));
    assert_eq!(csr.load(0x300, CpuMode::Machine), Some(0x8000_000A_0000_6000));
    assert_eq!(csr.store(0x300, 0, CpuMode::Machine), Some(()));
    assert_eq!(csr.load(0x300, CpuMode::Machine), Some(0x0000_000A_0000_0000));
    assert_eq!(csr.store(0x320, 0xFF, CpuMode::Machine), Some(()));
    assert_eq!(csr.mcountinhibit(), 0b111);
}

#[test]
fn sstatus_is_a_window_on_mstatus() {
    let mut csr = Csr::new();
    assert_eq!(csr.store(0x100, 0x2, CpuMode::Supervisor), Some(()));
    assert!(csr.mstatus().sie());
    assert!(csr.sstatus().sie());
    // MIE (bit 3) is outside the window
    assert_eq!(csr.store(0x100, 0x8, CpuMode::Supervisor), Some(()));
    assert!(!csr.mstatus().mie());
    assert!(!csr.mstatus().sie());
}

#[test]
fn counters_need_enables_below_machine_mode() {
    let mut csr = Csr::new();
    csr.tick();
    csr.tick();
    assert_eq!(csr.cycle(), 2);
    assert_eq!(csr.load(0xC00, CpuMode::Machine), Some(2));
    assert_eq!(csr.load(0xC02, CpuMode::Machine), Some(2));
    assert_eq!(csr.load(0xC00, CpuMode::User), None);
    assert_eq!(csr.load(0xC00, CpuMode::Supervisor), None);
    assert_eq!(csr.store(0x306, 1, CpuMode::Machine), Some(()));
    assert_eq!(csr.load(0xC00, CpuMode::Supervisor), Some(2));
    assert_eq!(csr.load(0xC00, CpuMode::User), None);
    assert_eq!(csr.store(0x106, 1, CpuMode::Supervisor), Some(()));
    assert_eq!(csr.load(0xC00, CpuMode::User), Some(2));
}

#[test]
fn each_counter_has_its_own_enable_bit() {
    let mut csr = Csr::new();
    csr.set_time(9);
    // time (counter 1) enabled in mcounteren only; scounteren enables cycle only
    assert_eq!(csr.store(0x306, 2, CpuMode::Machine), Some(()));
    assert_eq!(csr.store(0x106, 1, CpuMode::Machine), Some(()));
    assert_eq!(csr.load(0xC01, CpuMode::Supervisor), Some(9));
    assert_eq!(csr.load(0xC01, CpuMode::User), None);
    assert_eq!(csr.store(0x106, 2, CpuMode::Machine), Some(()));
    assert_eq!(csr.load(0xC01, CpuMode::User), Some(9));
    // instret (counter 2) needs bit 2 in both
    assert_eq!(csr.load(0xC02, CpuMode::User), None);
    assert_eq!(csr.store(0x306, 6, CpuMode::Machine), Some(()));
    assert_eq!(csr.store(0x106, 4, CpuMode::Machine), Some(()));
    assert_eq!(csr.load(0xC02, CpuMode::User), Some(0));
    assert_eq!(csr.load(0xC01, CpuMode::User), None);
}

#[test]
fn delegated_interrupt_views() {
    let mut csr = Csr::new();
    assert_eq!(csr.store(0x303, 0x222, CpuMode::Machine), Some(()));
    assert_eq!(csr.store(0x304, 0xAAA, CpuMode::Machine), Some(()));
    assert_eq!(csr.load(0x104, CpuMode::Supervisor), Some(0x222));
    assert_eq!(csr.store(0x104, 0, CpuMode::Supervisor), Some(()));
    assert_eq!(csr.load(0x304, CpuMode::Machine), Some(0x888));
}

#[test]
fn setters_and_time() {
    let mut csr = Csr::new();
    csr.set_time(1234);
    assert_eq!(csr.time(), 1234);
    csr.set_mtval(5);
    assert_eq!(csr.mtval(), 5);
    csr.set_stval(6);
    assert_eq!(csr.stval(), 6);
    csr.set_sepc(7);
    assert_eq!(csr.sepc(), 7);
    csr.set_mepc(8);
    assert_eq!(csr.mepc(), 8);
}
