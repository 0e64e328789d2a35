use libemu4::bus::BusTxSize;
use libemu4::mmu::AccessType;
use libemu4::trap::Exception;
use libemu4::{Cpu, CpuMode};

const ROOT: u64 = 0x8010_0000;

/// A root table whose first entry maps the first GiB of virtual memory to
/// the GiB at 0x8000_0000 with permissions `flags`.
fn with_gigapage(flags: u64) -> Cpu {
    let mut cpu = Cpu::new();
    let pte = ((0x8000_0000u64 >> 12) << 10) | flags;
    assert_eq!(cpu.bus.store_internal(ROOT, pte, BusTxSize::Bits64), Some(()));
    let satp = (8u64 << 60) | (ROOT >> 12);
    assert_eq!(cpu.csr.store(0x180, satp, CpuMode::Machine), Some(()));
    cpu
}

#[test]
fn machine_mode_is_untranslated() {
    let mut cpu = with_gigapage(0xCF);
    let r = cpu.mmu.translate(0x1234, AccessType::Load, CpuMode::Machine, &cpu.csr, &mut cpu.bus);
    assert_eq!(r, Ok(0x1234));
}

#[test]
fn bare_satp_is_untranslated() {
    let mut cpu = Cpu::new();
    let r = cpu.mmu.translate(0xDEAD_BEEF, AccessType::Store, CpuMode::Supervisor, &cpu.csr, &mut cpu.bus);
    assert_eq!(r, Ok(0xDEAD_BEEF));
}

#[test]
fn gigapage_translates_keeping_the_offset() {
    let mut cpu = with_gigapage(0xCF);
    let r = cpu.mmu.translate(0x1234, AccessType::Load, CpuMode::Supervisor, &cpu.csr, &mut cpu.bus);
    assert_eq!(r, Ok(0x8000_1234));
    let r = cpu.mmu.translate(0x3FFF_FFFF, AccessType::InstructionFetch, CpuMode::Supervisor, &cpu.csr, &mut cpu.bus);
    assert_eq!(r, Ok(0xBFFF_FFFF));
}

#[test]
fn user_page_rules() {
    // no U bit: user access faults
    let mut cpu = with_gigapage(0xCF);
    let r = cpu.mmu.translate(0x1000, AccessType::Load, CpuMode::User, &cpu.csr, &mut cpu.bus);
    assert_eq!(r, Err(Exception::LoadPageFault));
    // U bit: supervisor load faults without SUM, succeeds with it
    let mut cpu = with_gigapage(0xDF);
    let r = cpu.mmu.translate(0x1000, AccessType::Load, CpuMode::Supervisor, &cpu.csr, &mut cpu.bus);
    assert_eq!(r, Err(Exception::LoadPageFault));
    assert_eq!(cpu.csr.store(0x100, 1 << 18, CpuMode::Supervisor), Some(()));
    let r = cpu.mmu.translate(0x1000, AccessType::Load, CpuMode::Supervisor, &cpu.csr, &mut cpu.bus);
    assert_eq!(r, Ok(0x8000_1000));
    let r = cpu.mmu.translate(0x1000, AccessType::Store, CpuMode::User, &cpu.csr, &mut cpu.bus);
    assert_eq!(r, Ok(0x8000_1000));
}

#[test]
fn supervisor_never_fetches_from_a_user_page() {
    // V | X | U | A: executable user page
    let mut cpu = with_gigapage(0x59);
    let r = cpu.mmu.translate(0x1000, AccessType::InstructionFetch, CpuMode::Supervisor, &cpu.csr, &mut cpu.bus);
    assert_eq!(r, Err(Exception::InstructionPageFault));
    assert_eq!(cpu.csr.store(0x100, 1 << 18, CpuMode::Supervisor), Some(()));
    let r = cpu.mmu.translate(0x1000, AccessType::InstructionFetch, CpuMode::Supervisor, &cpu.csr, &mut cpu.bus);
    assert_eq!(r, Err(Exception::InstructionPageFault));
    let r = cpu.mmu.translate(0x1000, AccessType::InstructionFetch, CpuMode::User, &cpu.csr, &mut cpu.bus);
    assert_eq!(r, Ok(0x8000_1000));
}

#[test]
fn permission_and_dirty_bits() {
    // read-only, accessed: stores fault, loads pass
    let mut cpu = with_gigapage(0x43);
    let r = cpu.mmu.translate(0x10, AccessType::Store, CpuMode::Supervisor, &cpu.csr, &mut cpu.bus);
    assert_eq!(r, Err(Exception::StorePageFault));
    let r = cpu.mmu.translate(0x10, AccessType::InstructionFetch, CpuMode::Supervisor, &cpu.csr, &mut cpu.bus);
    assert_eq!(r, Err(Exception::InstructionPageFault));
    let r = cpu.mmu.translate(0x10, AccessType::Load, CpuMode::Supervisor, &cpu.csr, &mut cpu.bus);
    assert_eq!(r, Ok(0x8000_0010));
}

#[test]
fn walk_sets_accessed_and_dirty_bits() {
    let entry = |flags: u64| ((0x8000_0000u64 >> 12) << 10) | flags;
    // writable but not dirty: the store goes through and sets D
    let mut cpu = with_gigapage(0x47);
    let r = cpu.mmu.translate(0x10, AccessType::Store, CpuMode::Supervisor, &cpu.csr, &mut cpu.bus);
    assert_eq!(r, Ok(0x8000_0010));
    assert_eq!(cpu.bus.ram.load(ROOT, BusTxSize::Bits64), entry(0xC7));
    // not accessed: a load goes through and sets A only
    let mut cpu = with_gigapage(0x0F);
    let r = cpu.mmu.translate(0x10, AccessType::Load, CpuMode::Supervisor, &cpu.csr, &mut cpu.bus);
    assert_eq!(r, Ok(0x8000_0010));
    assert_eq!(cpu.bus.ram.load(ROOT, BusTxSize::Bits64), entry(0x4F));
    // a store to a clean, unaccessed page sets both
    let mut cpu = with_gigapage(0x0F);
    let r = cpu.mmu.translate(0x10, AccessType::Store, CpuMode::Supervisor, &cpu.csr, &mut cpu.bus);
    assert_eq!(r, Ok(0x8000_0010));
    assert_eq!(cpu.bus.ram.load(ROOT, BusTxSize::Bits64), entry(0xCF));
    // an entry that already has its bits is not rewritten, and nothing else is
    let mut cpu = with_gigapage(0xCF);
    let r = cpu.mmu.translate(0x10, AccessType::Store, CpuMode::Supervisor, &cpu.csr, &mut cpu.bus);
    assert_eq!(r, Ok(0x8000_0010));
    assert_eq!(cpu.bus.ram.load(ROOT, BusTxSize::Bits64), entry(0xCF));
    assert_eq!(cpu.bus.ram.load(ROOT + 8, BusTxSize::Bits64), 0);
}

#[test]
fn faulting_walk_leaves_the_entry_alone() {
    // not accessed and not user: the user access faults and A stays clear
    let mut cpu = with_gigapage(0x0F);
    let r = cpu.mmu.translate(0x10, AccessType::Load, CpuMode::User, &cpu.csr, &mut cpu.bus);
    assert_eq!(r, Err(Exception::LoadPageFault));
    assert_eq!(cpu.bus.ram.load(ROOT, BusTxSize::Bits64), ((0x8000_0000u64 >> 12) << 10) | 0x0F);
    // read-only, not dirty: the store faults on W and D stays clear
    let mut cpu = with_gigapage(0x43);
    let r = cpu.mmu.translate(0x10, AccessType::Store, CpuMode::Supervisor, &cpu.csr, &mut cpu.bus);
    assert_eq!(r, Err(Exception::StorePageFault));
    assert_eq!(cpu.bus.ram.load(ROOT, BusTxSize::Bits64), ((0x8000_0000u64 >> 12) << 10) | 0x43);
}

#[test]
fn invalid_entry_and_non_canonical_address_fault() {
    let mut cpu = with_gigapage(0xCE);
    let r = cpu.mmu.translate(0x10, AccessType::Load, CpuMode::Supervisor, &cpu.csr, &mut cpu.bus);
    assert_eq!(r, Err(Exception::LoadPageFault));
    let mut cpu = with_gigapage(0xCF);
    let r = cpu.mmu.translate(0x40_0000_0000, AccessType::Load, CpuMode::Supervisor, &cpu.csr, &mut cpu.bus);
    assert_eq!(r, Err(Exception::LoadPageFault));
}

#[test]
fn misaligned_superpage_faults() {
    let mut cpu = Cpu::new();
    // a gigapage whose page number is not 1 GiB aligned
    let pte = ((0x8020_0000u64 >> 12) << 10) | 0xCF;
    assert_eq!(cpu.bus.store_internal(ROOT, pte, BusTxSize::Bits64), Some(()));
    assert_eq!(cpu.csr.store(0x180, (8u64 << 60) | (ROOT >> 12), CpuMode::Machine), Some(()));
    let r = cpu.mmu.translate(0x10, AccessType::Load, CpuMode::Supervisor, &cpu.csr, &mut cpu.bus);
    assert_eq!(r, Err(Exception::LoadPageFault));
}

#[test]
fn three_level_walk_to_a_4k_page() {
    let mut cpu = Cpu::new();
    let l1 = 0x8010_1000u64;
    let l0 = 0x8010_2000u64;
    // va 0x4020_3123: vpn2 = 1, vpn1 = 1, vpn0 = 3
    let va = (1u64 << 30) | (1 << 21) | (3 << 12) | 0x123;
    assert_eq!(cpu.bus.store_internal(ROOT + 8, ((l1 >> 12) << 10) | 1, BusTxSize::Bits64), Some(()));
    assert_eq!(cpu.bus.store_internal(l1 + 8, ((l0 >> 12) << 10) | 1, BusTxSize::Bits64), Some(()));
    assert_eq!(cpu.bus.store_internal(l0 + 24, ((0x8050_0000u64 >> 12) << 10) | 0xCF, BusTxSize::Bits64), Some(()));
    assert_eq!(cpu.csr.store(0x180, (8u64 << 60) | (ROOT >> 12), CpuMode::Machine), Some(()));
    let r = cpu.mmu.translate(va, AccessType::Load, CpuMode::Supervisor, &cpu.csr, &mut cpu.bus);
    assert_eq!(r, Ok(0x8050_0123));
}

#[test]
fn mprv_translates_machine_loads_as_mpp() {
    let mut cpu = with_gigapage(0xCF);
    // MPRV set, MPP = supervisor
    assert_eq!(cpu.csr.store(0x300, (1 << 17) | (1 << 11), CpuMode::Machine), Some(()));
    let r = cpu.mmu.translate(0x20, AccessType::Load, CpuMode::Machine, &cpu.csr, &mut cpu.bus);
    assert_eq!(r, Ok(0x8000_0020));
    let r = cpu.mmu.translate(0x20, AccessType::InstructionFetch, CpuMode::Machine, &cpu.csr, &mut cpu.bus);
    assert_eq!(r, Ok(0x20));
}
