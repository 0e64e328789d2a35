use libemu4::bus::{device_at, load_answered, store_accepted, Bus, BusTxSize, Device};
use libemu4::csr::Csr;

#[test]
fn device_map() {
    assert_eq!(device_at(0x8000_0000), Device::Ram);
    assert_eq!(device_at(0x9FFF_FFFF), Device::Ram);
    assert_eq!(device_at(0xA000_0000), Device::Unmapped);
    assert_eq!(device_at(0x1110_0000), Device::Syscon);
    assert_eq!(device_at(0x200_4000), Device::Clint);
    assert_eq!(device_at(0x0C20_1004), Device::Plic);
    assert_eq!(device_at(0x1000_0005), Device::Uart);
    assert_eq!(device_at(0), Device::Unmapped);
}

#[test]
fn which_accesses_are_answered() {
    assert!(load_answered(0x8000_0000, BusTxSize::Bits64));
    assert!(!load_answered(0x9FFF_FFFC, BusTxSize::Bits64));
    assert!(!load_answered(0x1000_0000, BusTxSize::Bits32));
    assert!(load_answered(0x1000_0000, BusTxSize::Bits8));
    assert!(!load_answered(0x0C00_0004, BusTxSize::Bits64));
    assert!(!load_answered(0, BusTxSize::Bits8));
    assert!(store_accepted(0x1110_0000, 0x5555, BusTxSize::Bits32));
    assert!(!store_accepted(0x1110_0000, 0x7777, BusTxSize::Bits32));
    assert!(store_accepted(0, 1, BusTxSize::Bits8));
}

#[test]
fn hart_store_is_held_and_committed() {
    let mut bus = Bus::new();
    assert_eq!(bus.store(0x8000_0010, 0x1_0000_00AB, BusTxSize::Bits32), Some(()));
    assert_eq!(bus.pending_store, Some((0x8000_0010, 0xAB, BusTxSize::Bits32)));
    assert_eq!(bus.load(0x8000_0010, BusTxSize::Bits32), Some(0));
    assert_eq!(bus.commit_store(), Some(()));
    assert_eq!(bus.load(0x8000_0010, BusTxSize::Bits32), Some(0xAB));
    assert_eq!(bus.last_load, Some((0x8000_0010, BusTxSize::Bits32)));
    assert_eq!(bus.fetch(0x8000_0010), Some(0xAB));
    assert_eq!(bus.fetch(0x1000_0000), None);
}

#[test]
fn hart_addresses_are_cut_to_32_bits() {
    let mut bus = Bus::new();
    assert_eq!(bus.store_internal(0x8000_0020, 0x55, BusTxSize::Bits8), Some(()));
    assert_eq!(bus.load(0xFFFF_FFFF_8000_0020, BusTxSize::Bits8), Some(0x55));
    assert_eq!(bus.last_load, Some((0x8000_0020, BusTxSize::Bits8)));
    assert_eq!(bus.load_internal(0x8000_0020, BusTxSize::Bits8), Some(0x55));
}

#[test]
fn unmapped_accesses() {
    let mut bus = Bus::new();
    assert_eq!(bus.load(0x10, BusTxSize::Bits32), None);
    assert_eq!(bus.last_load, None);
    assert_eq!(bus.store(0x10, 1, BusTxSize::Bits32), Some(()));
    assert_eq!(bus.commit_store(), None);
    assert_eq!(bus.store_internal(0x10, 1, BusTxSize::Bits32), None);
}

#[test]
fn tick_forgets_accesses_and_moves_time() {
    let mut bus = Bus::new();
    let mut csr = Csr::new();
    assert_eq!(bus.store(0x8000_0000, 1, BusTxSize::Bits8), Some(()));
    assert_eq!(bus.load(0x8000_0000, BusTxSize::Bits8), Some(0));
    assert_eq!(bus.tick(&mut csr, 77, None), None);
    assert_eq!(bus.pending_store, None);
    assert_eq!(bus.last_load, None);
    assert_eq!(csr.time(), 77);
    assert_eq!(bus.load(0x200_BFF8, BusTxSize::Bits64), Some(77));
}

#[test]
fn uart_output_through_the_bus() {
    let mut bus = Bus::new();
    let mut csr = Csr::new();
    assert_eq!(bus.store_internal(0x1000_0000, b'!' as u64, BusTxSize::Bits8), Some(()));
    assert_eq!(bus.tick(&mut csr, 1, Some(b'q')), Some(b'!'));
    assert_eq!(bus.load(0x1000_0000, BusTxSize::Bits8), Some(b'q' as u64));
}

#[test]
fn peek_has_no_side_effects() {
    let mut bus = Bus::new();
    assert_eq!(bus.store_internal(0x8000_0040, 0xFEED, BusTxSize::Bits64), Some(()));
    assert_eq!(bus.peek_doubleword(0x8000_0040), Some(0xFEED));
    assert_eq!(bus.peek_doubleword(0x200_4000), Some(u64::MAX));
    assert_eq!(bus.peek_doubleword(0x40), None);
}
