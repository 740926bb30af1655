use gblib::cartridge::{Cartridge, Controller, Ram as CartridgeRam, RamSize};
use gblib::memory::{MemoryBus, MemoryRead, MemoryType, MemoryWrite, Ram};

#[test]
fn ram_operations() {
    let mut ram = Ram::new();

    ram.write(Ram::BASE_ADDR, 0x66u8);
    let value: u8 = ram.read(Ram::BASE_ADDR);
    assert_eq!(value, 0x66);

    ram.write(Ram::BASE_ADDR + 0x1234u16, 0x66u8);
    let value: u8 = ram.read(Ram::BASE_ADDR + 0x1234u16);
    assert_eq!(value, 0x66);
}

#[test]
fn work_ram_starts_erased() {
    let ram = Ram::new();
    let first: u8 = ram.read(0xC000);
    let last: u8 = ram.read(0xDFFF);
    assert_eq!(first, 0xFF);
    assert_eq!(last, 0xFF);
}

#[test]
fn echo_ram_mirrors_work_ram() {
    let mut bus = MemoryBus::new();
    bus.write(0xC010, 0x5Au8);
    let v: u8 = bus.read(0xE010);
    assert_eq!(v, 0x5A);

    bus.write(0xE020, 0x77u8);
    let v: u8 = bus.read(0xC020);
    assert_eq!(v, 0x77);
}

#[test]
fn prohibited_area_reads_nibble_twice() {
    let bus = MemoryBus::new();
    let a: u8 = bus.read(0xFEA5);
    let b: u8 = bus.read(0xFEB3);
    let c: u8 = bus.read(0xFEFF);
    assert_eq!(a, 0xAA);
    assert_eq!(b, 0xBB);
    assert_eq!(c, 0xFF);
}

#[test]
fn prohibited_area_writes_are_dropped() {
    let mut bus = MemoryBus::new();
    bus.write(0xFEA5, 0x12u8);
    let a: u8 = bus.read(0xFEA5);
    assert_eq!(a, 0xAA);
}

#[test]
fn high_ram_and_interrupt_enable() {
    let mut bus = MemoryBus::new();
    let v: u8 = bus.read(0xFF80);
    assert_eq!(v, 0xFF);
    bus.write(0xFF80, 0x11u8);
    bus.write(0xFFFE, 0x22u8);
    bus.write(0xFFFF, 0x1Fu8);
    let a: u8 = bus.read(0xFF80);
    let b: u8 = bus.read(0xFFFE);
    let c: u8 = bus.read(0xFFFF);
    assert_eq!(a, 0x11);
    assert_eq!(b, 0x22);
    assert_eq!(c, 0x1F);
    assert_eq!(bus.int_enable, 0x1F);
}

#[test]
fn word_write_is_little_endian() {
    let mut bus = MemoryBus::new();
    bus.write(0xC100, 0xBEEFu16);
    let lo: u8 = bus.read(0xC100);
    let hi: u8 = bus.read(0xC101);
    assert_eq!(lo, 0xEF);
    assert_eq!(hi, 0xBE);
}

#[test]
fn bus_reset_restores_initial_state() {
    let mut bus = MemoryBus::new();
    bus.write(0xC000, 0x01u8);
    bus.write(0xFF90, 0x02u8);
    bus.write(0xFFFF, 0x03u8);
    bus.write(0x0000, 0x0Au8);
    bus.write(0xA000, 0x04u8);
    bus.reset();
    let a: u8 = bus.read(0xC000);
    let b: u8 = bus.read(0xFF90);
    let c: u8 = bus.read(0xFFFF);
    let d: u8 = bus.read(0xA000);
    assert_eq!(a, 0xFF);
    assert_eq!(b, 0xFF);
    assert_eq!(c, 0x00);
    assert_eq!(d, 0xFF);
}

#[test]
fn memory_info_names_kind_and_bank() {
    let bus = MemoryBus::new();
    assert_eq!(bus.memory_info(0x0100), (MemoryType::Rom, 0));
    assert_eq!(bus.memory_info(0x4000), (MemoryType::Rom, 1));
    assert_eq!(bus.memory_info(0xA000), (MemoryType::CartridgeRam, 0));
    assert_eq!(bus.memory_info(0xC000), (MemoryType::Ram, 0));
    assert_eq!(bus.memory_info(0xFF80), (MemoryType::Hram, 0));
    assert_eq!(bus.memory_info(0x8000), (MemoryType::Other, 0));
    assert_eq!(MemoryType::CartridgeRam.name(), "CRAM");
    assert_eq!(MemoryType::Other.name(), "OTHER");
}

#[test]
fn bus_from_cartridge_routes_rom_reads() {
    let mut data = vec![0u8; 32 * 1024];
    data[0x147] = 0x00;
    data[0x148] = 0x00;
    data[0x149] = 0x02;
    data[0x4123] = 0x99;
    let bus = MemoryBus::from_cartridge(Cartridge::from_bytes(data)).unwrap();
    let v: u8 = bus.read(0x4123);
    assert_eq!(v, 0x99);
    let w: u8 = bus.read(0xA000);
    assert_eq!(w, 0xFF);
    assert!(bus.controller().ram().is_some());
}

#[test]
fn controller_mut_reaches_the_bus_controller() {
    let mut bus = MemoryBus::new();
    bus.controller_mut().load_ram(&vec![0x42u8; 8 * 1024]).unwrap();
    let v: u8 = bus.read(0xA123);
    assert_eq!(v, 0x42);
}

#[test]
fn cartridge_ram_bank_wraps() {
    let mut ram = CartridgeRam::new(RamSize::_32K).unwrap();
    ram.set_bank(1);
    let first = ram.active_bank();
    ram.set_bank(1 + 4);
    assert_eq!(ram.active_bank(), first);
    assert_eq!(first, 1);
    ram.set_bank(7);
    assert_eq!(ram.active_bank(), 3);
}

#[test]
fn controller_new_has_blank_ram() {
    let c = Controller::new();
    let ram = c.ram().unwrap();
    assert_eq!(ram.data().len(), 8 * 1024);
    assert!(ram.data().iter().all(|b| *b == 0xFF));
}
