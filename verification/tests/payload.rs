use libemu4::devices::ram::Ram;
use libemu4::payload::{
    device_tree_addr, install, installable, magic_occurrences, patch, BOOT_VECTOR, INITRD_END_MAGIC,
    INITRD_START_MAGIC, MEMORY_SIZE_MAGIC,
};
use libemu4::bus::BusTxSize;
use libemu4::Cpu;

#[test]
fn patch_replaces_the_big_endian_magic() {
    let mut buf = [0u8, 0xDE, 0xAD, 0xBE, 0xEF, 1];
    assert_eq!(magic_occurrences(&buf, 0xDEAD_BEEF), 1);
    patch(&mut buf, 0xDEAD_BEEF, 0x1122_3344);
    assert_eq!(buf, [0, 0x11, 0x22, 0x33, 0x44, 1]);
    assert_eq!(magic_occurrences(&buf, 0xDEAD_BEEF), 0);
}

#[test]
fn patch_finds_magic_after_a_false_start() {
    let mut buf = [0xDEu8, 0xDE, 0xAD, 0xBE, 0xEF];
    assert_eq!(magic_occurrences(&buf, 0xDEAD_BEEF), 1);
    patch(&mut buf, 0xDEAD_BEEF, 0);
    assert_eq!(buf, [0xDE, 0, 0, 0, 0]);
}

#[test]
fn occurrences_are_counted() {
    let buf = [0xDEu8, 0xAD, 0xBE, 0xEF, 0xDE, 0xAD, 0xBE, 0xEF];
    assert_eq!(magic_occurrences(&buf, 0xDEAD_BEEF), 2);
    assert_eq!(magic_occurrences(&[1, 2, 3], 0xDEAD_BEEF), 0);
}

#[test]
fn device_tree_follows_the_firmware() {
    assert_eq!(device_tree_addr(0), 0x8000_0000);
    assert_eq!(device_tree_addr(0x1234), 0x8000_1234);
    assert_eq!(BOOT_VECTOR, Ram::BASE_ADDR);
}

fn device_tree() -> Vec<u8> {
    let mut dt = vec![0xAAu8];
    dt.extend_from_slice(&INITRD_START_MAGIC.to_be_bytes());
    dt.extend_from_slice(&INITRD_END_MAGIC.to_be_bytes());
    dt.extend_from_slice(&MEMORY_SIZE_MAGIC.to_be_bytes());
    dt
}

#[test]
fn images_without_the_magics_are_refused() {
    assert!(!installable(&[1, 2, 3], &[0, 0, 0, 0], &[9]));
    let mut twice = device_tree();
    twice.extend_from_slice(&INITRD_END_MAGIC.to_be_bytes());
    assert!(!installable(&[1, 2, 3], &twice, &[9]));
    assert!(installable(&[1, 2, 3], &device_tree(), &[9]));
}

#[test]
fn install_places_and_patches_the_images() {
    let mut cpu = Cpu::new();
    let payload = [1u8, 2, 3, 4];
    let dt = device_tree();
    let initrd = [9u8, 8];
    assert!(installable(&payload, &dt, &initrd));
    install(&mut cpu, &payload, &dt, &initrd);
    assert_eq!(cpu.pc, 0x8000_0000);
    assert_eq!(cpu.regs[11], 0x8000_0004);
    assert_eq!(&cpu.bus.ram.0[0..4], &payload);
    let expected: Vec<u8> = [
        vec![0xAA],
        0x9FFF_FFFEu32.to_be_bytes().to_vec(),
        0xA000_0000u32.to_be_bytes().to_vec(),
        0x2000_0000u32.to_be_bytes().to_vec(),
    ]
    .concat();
    assert_eq!(&cpu.bus.ram.0[4..17], expected.as_slice());
    assert_eq!(cpu.bus.ram.load(0x9FFF_FFFE, BusTxSize::Bits16), 0x0809);
    assert_eq!(cpu.bus.ram.0[17], 0);
}

#[test]
fn patch_finds_magic_after_a_repeated_prefix() {
    let mut buf = [0xAAu8, 0xAA, 0xAA, 0xAA, 0xAB];
    assert_eq!(magic_occurrences(&buf, 0xAAAA_AAAB), 1);
    patch(&mut buf, 0xAAAA_AAAB, 0x0102_0304);
    assert_eq!(buf, [0xAA, 1, 2, 3, 4]);
}

#[test]
fn overlapping_occurrences_are_all_counted() {
    let buf = [0xAAu8, 0xAA, 0xAA, 0xAA, 0xAA];
    assert_eq!(magic_occurrences(&buf, 0xAAAA_AAAA), 2);
    assert_eq!(magic_occurrences(&buf[..3], 0xAAAA_AAAA), 0);
}
