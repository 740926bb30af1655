use std::convert::TryFrom;

use gblib::cartridge::{Cartridge, CartridgeType, Controller, Ram, RamSize, RomSize};
use gblib::error::{CartridgeError, Error, ValueKind};
use gblib::memory::{MemoryRead, MemoryWrite};

fn header(len: usize, kind: u8, rom: u8, ram: u8) -> Vec<u8> {
    let mut data = vec![0u8; len];
    data[0x147] = kind;
    data[0x148] = rom;
    data[0x149] = ram;
    data
}

#[test]
fn ram_size_bytes_round_trip() {
    for s in [RamSize::NotPresent, RamSize::_2K, RamSize::_8K, RamSize::_32K, RamSize::_64K, RamSize::_128K] {
        assert_eq!(RamSize::try_from(usize::from(s)), Ok(s));
    }
    assert_eq!(usize::from(RamSize::NotPresent), 0);
    assert_eq!(usize::from(RamSize::_2K), 2048);
    assert_eq!(usize::from(RamSize::_128K), 131072);
}

#[test]
fn rom_size_bytes_round_trip() {
    let all = [
        RomSize::_32K,
        RomSize::_64K,
        RomSize::_128K,
        RomSize::_256K,
        RomSize::_512K,
        RomSize::_1M,
        RomSize::_2M,
        RomSize::_4M,
        RomSize::_8M,
        RomSize::_1_1M,
        RomSize::_1_2M,
        RomSize::_1_5M,
    ];
    for s in all {
        assert_eq!(RomSize::try_from(usize::from(s)), Ok(s));
    }
    assert_eq!(usize::from(RomSize::_32K), 32768);
    assert_eq!(usize::from(RomSize::_1_1M), 72 * 16384);
    assert_eq!(usize::from(RomSize::_8M), 8 * 1024 * 1024);
}

#[test]
fn size_codes_decode() {
    assert_eq!(RamSize::try_from(0u8), Ok(RamSize::NotPresent));
    assert_eq!(RamSize::try_from(4u8), Ok(RamSize::_128K));
    assert_eq!(RamSize::try_from(5u8), Ok(RamSize::_64K));
    assert_eq!(RomSize::try_from(0x08u8), Ok(RomSize::_8M));
    assert_eq!(RomSize::try_from(0x54u8), Ok(RomSize::_1_5M));
    assert_eq!(CartridgeType::try_from(0x03u8), Ok(CartridgeType::MBC1_RAM_BATT));
    assert_eq!(CartridgeType::try_from(0xFFu8), Ok(CartridgeType::HuC1_RAM_BATT));
}

#[test]
fn invalid_values_are_rejected() {
    assert_eq!(RamSize::try_from(3000usize), Err(Error::InvalidValue(ValueKind::RamSize, 3000)));
    assert_eq!(RamSize::try_from(0usize), Ok(RamSize::NotPresent));
    assert_eq!(RamSize::try_from(6u8), Err(Error::InvalidValue(ValueKind::RamSize, 6)));
    assert_eq!(RomSize::try_from(0x09u8), Err(Error::InvalidValue(ValueKind::RomSize, 9)));
    assert_eq!(RomSize::try_from(16385usize), Err(Error::InvalidValue(ValueKind::RomSize, 16385)));
    assert_eq!(RomSize::try_from(3 * 16384usize), Err(Error::InvalidValue(ValueKind::RomSize, 3 * 16384)));
    assert_eq!(
        CartridgeType::try_from(0x04u8),
        Err(Error::InvalidValue(ValueKind::CartridgeType, 4))
    );
}

#[test]
fn cartridge_type_predicates() {
    assert!(CartridgeType::ROM.is_none());
    assert!(CartridgeType::MBC1_RAM.is_mbc1());
    assert!(!CartridgeType::MBC2.is_mbc1());
    assert!(CartridgeType::MBC2_BATT.is_mbc2());
    assert!(CartridgeType::MBC3_TIMER_BATT.is_mbc3());
    assert!(CartridgeType::MBC3_TIMER_BATT.is_rtc());
    assert!(!CartridgeType::MBC3.is_rtc());
    assert!(CartridgeType::MBC5_RUMBLE.is_mbc5());
    assert!(CartridgeType::RAM_BATT.is_battery_backed());
    assert!(!CartridgeType::MBC1.is_battery_backed());
}

#[test]
fn header_parse() {
    let mut data = header(32 * 1024, 0x00, 0x00, 0x02);
    data[0x134..0x13C].copy_from_slice(b"TESTGAME");
    data[0x144] = b'0';
    let cart = Cartridge::from_bytes(data);
    assert_eq!(cart.title(), Ok("TESTGAME\0\0\0\0\0\0\0"));
    assert_eq!(cart.manufacturer_code(), Ok("\0\0\0"));
    assert_eq!(cart.licensee_code(), Ok("Other"));
    assert_eq!(cart.cartridge_type(), Ok(CartridgeType::ROM));
    assert_eq!(cart.rom_size(), Ok(RomSize::_32K));
    assert_eq!(cart.ram_size(), Ok(RamSize::_8K));
    assert_eq!(cart.validate(), Ok(()));
}

#[test]
fn validate_names_first_bad_field() {
    let mut data = header(32 * 1024, 0x04, 0x00, 0x02);
    let cart = Cartridge::from_bytes(data.clone());
    assert_eq!(cart.validate(), Err(Error::Cartridge(CartridgeError::Type)));

    data[0x135] = 0xFF;
    let cart = Cartridge::from_bytes(data.clone());
    assert_eq!(cart.title(), Err(Error::Utf8));
    assert_eq!(cart.validate(), Err(Error::Cartridge(CartridgeError::Title)));

    let cart = Cartridge::from_bytes(header(32 * 1024, 0x00, 0x30, 0x02));
    assert_eq!(cart.validate(), Err(Error::Cartridge(CartridgeError::RomSize)));

    let cart = Cartridge::from_bytes(header(32 * 1024, 0x00, 0x00, 0x09));
    assert_eq!(cart.validate(), Err(Error::Cartridge(CartridgeError::RamSize)));

    let mut data = header(32 * 1024, 0x00, 0x00, 0x00);
    data[0x144] = 0x80;
    let cart = Cartridge::from_bytes(data);
    assert_eq!(cart.licensee_code(), Err(Error::Utf8));
    assert_eq!(cart.validate(), Err(Error::Cartridge(CartridgeError::LicenseeCode)));
}

#[test]
fn fresh_ram_reads_ff() {
    for s in [RamSize::_2K, RamSize::_8K, RamSize::_32K, RamSize::_64K, RamSize::_128K] {
        let ram = Ram::new(s).unwrap();
        assert_eq!(ram.data().len(), usize::from(s));
        assert!(ram.data().iter().all(|b| *b == 0xFF));
        assert!(!ram.is_dirty());
        let v: u8 = ram.read(0xA000);
        assert_eq!(v, 0xFF);
    }
    assert!(Ram::new(RamSize::NotPresent).is_none());
}

#[test]
fn ram_from_bytes_checks_length() {
    let ram = Ram::from_bytes(&vec![7u8; 8 * 1024]).unwrap();
    let v: u8 = ram.read(0xBFFF);
    assert_eq!(v, 7);
    assert!(Ram::from_bytes(&vec![0u8; 1000]).is_err());
    assert_eq!(Ram::from_bytes(&[]).err(), Some(Error::InvalidValue(ValueKind::RamSize, 0)));
}

#[test]
fn cartridge_ram_write_needs_enable() {
    let mut c = Controller::new();
    c.write(0xA010, 0x42u8);
    let v: u8 = c.read(0xA010);
    assert_eq!(v, 0xFF);

    c.write(0x0000, 0x0Au8);
    assert!(c.ram_enabled());
    c.write(0xA010, 0x42u8);
    let v: u8 = c.read(0xA010);
    assert_eq!(v, 0x42);
    assert!(c.ram().unwrap().is_dirty());

    c.write(0x1FFF, 0x1Bu8);
    assert!(!c.ram_enabled());
    c.write(0xA010, 0x43u8);
    let v: u8 = c.read(0xA010);
    assert_eq!(v, 0x42);
}

fn marked_rom(kind: u8, code: u8, banks: usize, ram: u8) -> Vec<u8> {
    let mut data = header(banks * 16384, kind, code, ram);
    for b in 1..banks {
        data[b * 16384] = b as u8;
        data[b * 16384 + 0x3FFF] = (b as u8) ^ 0xFF;
    }
    data
}

#[test]
fn mbc1_rom_bank_select() {
    let data = marked_rom(0x01, 0x02, 8, 0x00);
    let mut c = Controller::from_cartridge(Cartridge::from_bytes(data)).unwrap();
    c.write(0x2000, 0x00u8);
    assert_eq!(c.rom().bank_1(), 1);
    let v: u8 = c.read(0x4000);
    assert_eq!(v, 1);

    c.write(0x2000, 0x05u8);
    assert_eq!(c.rom().bank_1(), 5);
    let v: u8 = c.read(0x4000);
    let w: u8 = c.read(0x7FFF);
    assert_eq!(v, 5);
    assert_eq!(w, 5 ^ 0xFF);

    c.write(0x2000, 0xE3u8);
    assert_eq!(c.rom().bank_1(), 3);
}

#[test]
fn mbc1_large_rom_advanced_mode() {
    let data = marked_rom(0x01, 0x06, 128, 0x00);
    let mut c = Controller::from_cartridge(Cartridge::from_bytes(data)).unwrap();
    c.write(0x6000, 0x01u8);
    assert!(c.banking_mode());
    c.write(0x4000, 0x02u8);
    assert_eq!(c.rom().bank_0(), 0x40);
    c.write(0x2000, 0x00u8);
    let v: u8 = c.read(0x0000);
    assert_eq!(v, 0x40);
}

#[test]
fn mbc1_large_rom_simple_mode() {
    let data = marked_rom(0x01, 0x06, 128, 0x00);
    let mut c = Controller::from_cartridge(Cartridge::from_bytes(data)).unwrap();
    c.write(0x2000, 0x03u8);
    c.write(0x4000, 0x01u8);
    assert_eq!(c.rom().bank_1(), 0x23);
    assert_eq!(c.rom().bank_0(), 0);
    let v: u8 = c.read(0x4000);
    assert_eq!(v, 0x23);
}

#[test]
fn mbc1_large_ram_bank_switch() {
    let data = marked_rom(0x03, 0x00, 2, 0x03);
    let mut c = Controller::from_cartridge(Cartridge::from_bytes(data)).unwrap();
    c.write(0x0000, 0x0Au8);
    c.write(0xA000, 0x10u8);
    c.write(0x4000, 0x02u8);
    assert_eq!(c.ram().unwrap().active_bank(), 2);
    let v: u8 = c.read(0xA000);
    assert_eq!(v, 0xFF);
    c.write(0xA000, 0x20u8);
    c.write(0x4000, 0x00u8);
    let v: u8 = c.read(0xA000);
    assert_eq!(v, 0x10);
    assert_eq!(c.ram().unwrap().data()[2 * 8192], 0x20);
}

#[test]
fn mode_switch_reapplies_latched_ram_bank() {
    let data = marked_rom(0x03, 0x00, 2, 0x03);
    let mut c = Controller::from_cartridge(Cartridge::from_bytes(data)).unwrap();
    c.write(0x4000, 0x03u8);
    assert_eq!(c.ram().unwrap().active_bank(), 3);
    c.load_ram(&vec![0u8; 32 * 1024]).unwrap();
    assert_eq!(c.ram().unwrap().active_bank(), 0);
    c.write(0x0000, 0x0Au8);
    c.write(0x6000, 0x01u8);
    assert!(c.banking_mode());
    assert_eq!(c.ram().unwrap().active_bank(), 3);
}

#[test]
fn other_schemes_ignore_control_writes() {
    let data = marked_rom(0x19, 0x02, 8, 0x02);
    let mut c = Controller::from_cartridge(Cartridge::from_bytes(data)).unwrap();
    c.write(0x0000, 0x0Au8);
    c.write(0x2000, 0x05u8);
    assert!(!c.ram_enabled());
    assert_eq!(c.rom().bank_1(), 1);
    c.write(0xA000, 0x12u8);
    let v: u8 = c.read(0xA000);
    assert_eq!(v, 0xFF);
}

#[test]
fn from_cartridge_reports_header_errors() {
    let data = header(32 * 1024, 0x04, 0x00, 0x00);
    assert_eq!(
        Controller::from_cartridge(Cartridge::from_bytes(data)).err(),
        Some(Error::InvalidValue(ValueKind::CartridgeType, 4))
    );
    let data = header(0x150, 0x04, 0x00, 0x00);
    assert_eq!(
        Controller::from_cartridge(Cartridge::from_bytes(data)).err(),
        Some(Error::InvalidValue(ValueKind::CartridgeType, 4))
    );
    let data = header(32 * 1024, 0x00, 0x00, 0x07);
    assert_eq!(
        Controller::from_cartridge(Cartridge::from_bytes(data)).err(),
        Some(Error::InvalidValue(ValueKind::RamSize, 7))
    );
}

#[test]
fn from_cartridge_without_ram() {
    let data = header(32 * 1024, 0x00, 0x00, 0x00);
    let c = Controller::from_cartridge(Cartridge::from_bytes(data)).unwrap();
    assert!(c.ram().is_none());
}

#[test]
fn load_ram_checks_size() {
    let mut c = Controller::new();
    assert_eq!(c.load_ram(&vec![0u8; 100]), Err(Error::InvalidValue(ValueKind::RamSize, 100)));
    assert_eq!(c.load_ram(&[]), Err(Error::InvalidValue(ValueKind::RamSize, 0)));
    assert_eq!(c.ram().unwrap().data().len(), 8 * 1024);
    assert_eq!(c.load_ram(&vec![0x5Au8; 2 * 1024]), Ok(()));
    let v: u8 = c.read(0xA7FF);
    assert_eq!(v, 0x5A);
}

#[test]
fn load_rom_replaces_contents() {
    let mut c = Controller::new();
    c.load_rom(vec![0x33u8; 32 * 1024]);
    let v: u8 = c.read(0x1234);
    assert_eq!(v, 0x33);
}

#[test]
fn reset_restores_ram_and_keeps_banks() {
    let data = marked_rom(0x03, 0x02, 8, 0x02);
    let mut c = Controller::from_cartridge(Cartridge::from_bytes(data)).unwrap();
    c.write(0x2000, 0x06u8);
    c.write(0x0000, 0x0Au8);
    c.write(0xA000, 0x01u8);
    c.write(0xA123, 0x02u8);
    assert!(c.ram().unwrap().is_dirty());
    c.reset();
    assert_eq!(c.rom().bank_0(), 0);
    assert_eq!(c.rom().bank_1(), 6);
    let ram = c.ram().unwrap();
    assert!(!ram.is_dirty());
    assert!(ram.data().iter().all(|b| *b == 0xFF));
    assert!(c.ram_enabled());
}

#[test]
fn licensee_code_pair_lookup() {
    let cases: [(&[u8; 2], &str); 5] = [
        (b"00", "None"),
        (b"01", "Nintendo R&D 1"),
        (b"31", "Nintendo"),
        (b"13", "Other"),
        (b"0A", "Other"),
    ];
    for (code, name) in cases {
        let mut data = header(32 * 1024, 0x00, 0x00, 0x00);
        data[0x144..0x146].copy_from_slice(code);
        let cart = Cartridge::from_bytes(data);
        assert_eq!(cart.licensee_code(), Ok(name));
    }
    let mut data = header(32 * 1024, 0x00, 0x00, 0x00);
    data[0x145] = 0xC3;
    assert_eq!(Cartridge::from_bytes(data).licensee_code(), Err(Error::Utf8));
}
