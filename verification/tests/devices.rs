use libemu4::bus::BusTxSize;
use libemu4::csr::Csr;
use libemu4::devices::clint::Clint;
use libemu4::devices::plic::Plic;
use libemu4::devices::ram::Ram;
use libemu4::devices::syscon::Syscon;
use libemu4::devices::uart::Uart;

#[test]
fn ram_is_little_endian() {
    let mut ram = Ram::new();
    ram.store(0x8000_0000, 0x1122_3344_5566_7788, BusTxSize::Bits64);
    assert_eq!(ram.load(0x8000_0000, BusTxSize::Bits8), 0x88);
    assert_eq!(ram.load(0x8000_0002, BusTxSize::Bits16), 0x5566);
    assert_eq!(ram.load(0x8000_0004, BusTxSize::Bits32), 0x1122_3344);
    ram.store(0x8000_0001, 0xAAFF, BusTxSize::Bits8);
    assert_eq!(ram.load(0x8000_0000, BusTxSize::Bits64), 0x1122_3344_5566_FF88);
    ram.store(0x9FFF_FFF8, u64::MAX, BusTxSize::Bits64);
    assert_eq!(ram.load(0x9FFF_FFFC, BusTxSize::Bits32), 0xFFFF_FFFF);
    assert_eq!(ram.0.len() as u64, Ram::SIZE);
}

#[test]
fn syscon_powers_off() {
    let mut syscon = Syscon::new();
    assert!(!syscon.power_off);
    syscon.store(0x1110_0004, 0x5555, BusTxSize::Bits32);
    assert!(!syscon.power_off);
    syscon.store(0x1110_0000, 0x1234, BusTxSize::Bits32);
    assert!(!syscon.power_off);
    syscon.store(0x1110_0000, 0x5555, BusTxSize::Bits32);
    assert!(syscon.power_off);
    assert_eq!(syscon.load(0x1110_0000, BusTxSize::Bits32), 0);
}

#[test]
fn clint_timer_and_software_interrupts() {
    let mut clint = Clint::new();
    let mut csr = Csr::new();
    clint.store(0x200_4000, 100, BusTxSize::Bits64);
    assert_eq!(clint.load(0x200_4000, BusTxSize::Bits64), 100);
    assert!(!clint.tick_cosim(99));
    assert!(clint.tick_cosim(100));
    assert_eq!(clint.load(0x200_BFF8, BusTxSize::Bits64), 100);
    clint.tick(&mut csr, 42);
    assert_eq!(csr.time(), 42);
    clint.poll_interrupts(&mut csr);
    assert!(!csr.mip().mtip());
    clint.tick(&mut csr, 100);
    clint.poll_interrupts(&mut csr);
    assert!(csr.mip().mtip());
    clint.store(0x200_0000, 1, BusTxSize::Bits32);
    clint.poll_interrupts(&mut csr);
    assert!(csr.mip().msip());
    clint.store(0x200_0000, 0, BusTxSize::Bits32);
    clint.poll_interrupts(&mut csr);
    assert!(!csr.mip().msip());
}

#[test]
fn plic_claim_complete_handshake() {
    let mut plic = Plic::new();
    let mut csr = Csr::new();
    plic.store(0x0C00_0004, 1, BusTxSize::Bits32);
    plic.store(0x0C00_2000, 2, BusTxSize::Bits32);
    plic.raise_irq();
    assert_eq!(plic.load(0x0C00_1000, BusTxSize::Bits32), 2);
    plic.poll_interrupts(&mut csr);
    assert!(csr.mip().meip());
    assert!(!csr.mip().seip());
    // claim
    assert_eq!(plic.load(0x0C20_0004, BusTxSize::Bits32), 1);
    assert_eq!(plic.load(0x0C00_1000, BusTxSize::Bits32), 0);
    // a second claim gets nothing while the source is in service
    plic.raise_irq();
    assert_eq!(plic.load(0x0C20_0004, BusTxSize::Bits32), 0);
    plic.clear_irq();
    // the line stays raised while in service
    plic.poll_interrupts(&mut csr);
    assert!(csr.mip().meip());
    // complete
    plic.store(0x0C20_0004, 1, BusTxSize::Bits32);
    plic.poll_interrupts(&mut csr);
    assert!(!csr.mip().meip());
}

#[test]
fn plic_threshold_masks() {
    let mut plic = Plic::new();
    let mut csr = Csr::new();
    plic.store(0x0C00_0004, 1, BusTxSize::Bits32);
    plic.store(0x0C00_2080, 2, BusTxSize::Bits32);
    plic.store(0x0C20_1000, 1, BusTxSize::Bits32);
    assert_eq!(plic.load(0x0C20_1000, BusTxSize::Bits32), 1);
    plic.raise_irq();
    plic.poll_interrupts(&mut csr);
    assert!(!csr.mip().seip());
    assert_eq!(plic.load(0x0C20_1004, BusTxSize::Bits32), 0);
    plic.store(0x0C20_1000, 0, BusTxSize::Bits32);
    plic.poll_interrupts(&mut csr);
    assert!(csr.mip().seip());
    assert_eq!(plic.load(0x0C20_1004, BusTxSize::Bits32), 1);
}

#[test]
fn uart_receives_in_order() {
    let mut uart = Uart::new();
    let mut plic = Plic::new();
    assert_eq!(uart.load(0x1000_0005, BusTxSize::Bits8, &mut plic), 0x60);
    assert_eq!(uart.tick(&mut plic, Some(b'a')), None);
    assert_eq!(uart.tick(&mut plic, Some(b'b')), None);
    assert_eq!(uart.load(0x1000_0005, BusTxSize::Bits8, &mut plic), 0x61);
    assert_eq!(uart.load(0x1000_0000, BusTxSize::Bits8, &mut plic), b'a' as u64);
    assert_eq!(uart.load(0x1000_0000, BusTxSize::Bits8, &mut plic), b'b' as u64);
    assert_eq!(uart.load(0x1000_0005, BusTxSize::Bits8, &mut plic), 0x60);
    assert_eq!(uart.load(0x1000_0000, BusTxSize::Bits8, &mut plic), 0);
}

#[test]
fn uart_overrun_when_fifo_full() {
    let mut uart = Uart::new();
    let mut plic = Plic::new();
    for i in 0..16u8 {
        uart.tick(&mut plic, Some(i));
    }
    assert_eq!(uart.load(0x1000_0005, BusTxSize::Bits8, &mut plic) & 0x02, 0);
    uart.tick(&mut plic, Some(99));
    assert_eq!(uart.load(0x1000_0005, BusTxSize::Bits8, &mut plic) & 0x02, 0x02);
    assert_eq!(uart.load(0x1000_0000, BusTxSize::Bits8, &mut plic), 0);
}

#[test]
fn uart_transmits_on_tick() {
    let mut uart = Uart::new();
    let mut plic = Plic::new();
    uart.store(0x1000_0000, b'x' as u64, BusTxSize::Bits8, &mut plic);
    assert_eq!(uart.load(0x1000_0005, BusTxSize::Bits8, &mut plic) & 0x20, 0);
    assert_eq!(uart.tick(&mut plic, None), Some(b'x'));
    assert_eq!(uart.tick(&mut plic, None), None);
    assert_eq!(uart.load(0x1000_0005, BusTxSize::Bits8, &mut plic), 0x60);

    let mut quiet = Uart::silent();
    quiet.store(0x1000_0000, b'y' as u64, BusTxSize::Bits8, &mut plic);
    assert_eq!(quiet.tick(&mut plic, None), None);
}

#[test]
fn uart_interrupt_reaches_plic() {
    let mut uart = Uart::new();
    let mut plic = Plic::new();
    // enable the receive interrupt
    uart.store(0x1000_0001, 0x01, BusTxSize::Bits8, &mut plic);
    assert_eq!(uart.load(0x1000_0002, BusTxSize::Bits8, &mut plic), 0x01);
    uart.tick(&mut plic, Some(b'z'));
    assert_eq!(uart.load(0x1000_0002, BusTxSize::Bits8, &mut plic), 0x04);
    assert_eq!(plic.load(0x0C00_1000, BusTxSize::Bits32), 2);
    assert_eq!(uart.load(0x1000_0000, BusTxSize::Bits8, &mut plic), b'z' as u64);
    assert_eq!(plic.load(0x0C00_1000, BusTxSize::Bits32), 0);
}

#[test]
fn uart_divisor_latch() {
    let mut uart = Uart::new();
    let mut plic = Plic::new();
    uart.store(0x1000_0003, 0x83, BusTxSize::Bits8, &mut plic);
    uart.store(0x1000_0000, 0x12, BusTxSize::Bits8, &mut plic);
    uart.store(0x1000_0001, 0x34, BusTxSize::Bits8, &mut plic);
    assert_eq!(uart.load(0x1000_0000, BusTxSize::Bits8, &mut plic), 0x12);
    assert_eq!(uart.load(0x1000_0001, BusTxSize::Bits8, &mut plic), 0x34);
    assert_eq!(uart.tick(&mut plic, None), None);
    uart.store(0x1000_0003, 0x03, BusTxSize::Bits8, &mut plic);
    assert_eq!(uart.load(0x1000_0003, BusTxSize::Bits8, &mut plic), 0x03);
    assert_eq!(uart.load(0x1000_0001, BusTxSize::Bits8, &mut plic), 0);
}

#[test]
fn syscon_ignores_other_addresses_and_values() {
    let mut syscon = Syscon::new();
    syscon.store(0x1110_0010, 0x5555, BusTxSize::Bits32);
    syscon.store(0x1110_0000, 0x5554, BusTxSize::Bits32);
    assert!(!syscon.power_off);
    syscon.store(0x1110_0000, 0x1_0000_5555, BusTxSize::Bits32);
    assert!(syscon.power_off);
}
