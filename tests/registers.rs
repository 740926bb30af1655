use gblib::registers::{Flag, Reg16, Reg8, RegisterOps, Registers};

#[test]
fn combined_regs() {
    let mut regs = Registers::new();

    regs.write(Reg8::A, 0x10);
    regs.write(Reg8::F, 0xFF);
    assert_eq!(regs.read(Reg16::AF), 0x10F0);

    regs.write(Reg16::BC, 0xBEEF);
    assert_eq!(regs.read(Reg8::B), 0xBE);
    assert_eq!(regs.read(Reg8::C), 0xEF);
}

#[test]
fn flags() {
    let mut regs = Registers::new();

    regs.set(Flag::Zero, true);
    assert!(regs.zero());
    assert_eq!(regs.flags(), 0xB0);

    regs.set(Flag::Carry, true);
    assert!(regs.carry());
    assert_eq!(regs.flags(), 0xB0);

    regs.clear(Flag::Zero);
    assert!(!regs.zero());
    assert_eq!(regs.flags(), 0x30);
}

#[test]
fn flag_set_and_clear_keep_other_bits() {
    let mut regs = Registers::empty();
    regs.set(Flag::Subtract, true);
    assert!(regs.subtract());
    assert_eq!(regs.flags(), 0x40);
    regs.set(Flag::HalfCarry, true);
    assert!(regs.half_carry());
    assert_eq!(regs.flags(), 0x60);
    regs.set(Flag::Subtract, false);
    assert!(!regs.subtract());
    assert_eq!(regs.flags(), 0x20);
}

#[test]
fn register_pairs() {
    let mut regs = Registers::empty();
    regs.write(Reg16::AF, 0x12FF);
    assert_eq!(regs.read(Reg8::A), 0x12);
    assert_eq!(regs.read(Reg8::F), 0xF0);
    regs.write(Reg16::HL, 0x0102);
    assert_eq!(regs.read(Reg16::HL), 0x0102);
    regs.write(Reg16::SP, 0xFFFE);
    assert_eq!(regs.read(Reg16::SP), 0xFFFE);
    assert_eq!(regs.SP, 0xFFFE);
    let boot = Registers::new();
    assert_eq!(boot.read(Reg16::PC), 0x0100);
    assert_eq!(boot.read(Reg16::DE), 0x00D8);
    assert_eq!(Reg16::HL.name(), "HL");
    assert_eq!(Reg8::F.name(), "F");
}
