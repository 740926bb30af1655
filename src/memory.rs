use vstd::prelude::*;

use crate::cartridge::{Cartridge, Controller, ControllerView, RamSize, RomSize, RomView, spec_header};
use crate::error::Error;

verus! {

/// Read access to some memory.
///
/// `A` is the address type, `V` the value type.
pub trait MemoryRead<A, V> {
    /// Whether a read at `addr` is defined in this state.
    spec fn readable(&self, addr: A) -> bool;

    /// The value a read at `addr` returns.
    spec fn read_value(&self, addr: A) -> V;

    /// Read a single value from an address
    fn read(&self, addr: A) -> (r: V)
        requires
            self.readable(addr),
        ensures
            r == self.read_value(addr),
    ;
}

/// Write access to some memory.
pub trait MemoryWrite<A, V> {
    /// Whether a write of `value` at `addr` is defined in this state.
    spec fn writable(&self, addr: A, value: V) -> bool;

    /// Whether `after` is the state that writing `value` at `addr` leaves.
    spec fn written(&self, after: &Self, addr: A, value: V) -> bool;

    /// Write a single value to an address
    fn write(&mut self, addr: A, value: V)
        requires
            old(self).writable(addr, value),
        ensures
            old(self).written(final(self), addr, value),
    ;
}

/// Internal console work RAM
///
/// * 0xC000 - 0xCFFF: Bank 0,   4K, static
/// * 0xD000 - 0xDFFF: Bank 1,   4K  (DMG mode)
pub struct Ram {
    data: Vec<u8>,
}

impl View for Ram {
    type V = Seq<u8>;

    closed spec fn view(&self) -> Seq<u8> {
        self.data@
    }
}

impl Ram {
    const BANK_SIZE: usize = 4096;
    pub const BASE_ADDR: u16 = 0xC000;
    pub const LAST_ADDR: u16 = 0xDFFF;

    /// Work RAM of two 4K banks, all 0xFF.
    pub fn new() -> (r: Self)
        ensures
            r@ == Seq::new(8192, |i: int| 0xFFu8),
    {
        let r = Self { data: vec![0xFFu8; Self::BANK_SIZE * 2] };
        assert(r@ =~= Seq::new(8192, |i: int| 0xFFu8));
        r
    }
}

impl MemoryRead<u16, u8> for Ram {
    open spec fn readable(&self, addr: u16) -> bool {
        self@.len() == 8192 && 0xC000 <= addr <= 0xDFFF
    }

    open spec fn read_value(&self, addr: u16) -> u8 {
        self@[addr - 0xC000]
    }

    fn read(&self, addr: u16) -> (r: u8) {
        let addr = (addr - Self::BASE_ADDR) as usize;
        self.data[addr]
    }
}

impl MemoryWrite<u16, u8> for Ram {
    open spec fn writable(&self, addr: u16, value: u8) -> bool {
        self@.len() == 8192 && 0xC000 <= addr <= 0xDFFF
    }

    open spec fn written(&self, after: &Self, addr: u16, value: u8) -> bool {
        after@ == self@.update(addr - 0xC000, value)
    }

    fn write(&mut self, addr: u16, value: u8) {
        let addr = (addr - Self::BASE_ADDR) as usize;
        self.data.set(addr, value);
    }
}

/// Kind of memory behind an address.
#[derive(Clone, Copy, Debug, PartialEq, Eq, Structural)]
pub enum MemoryType {
    Rom,
    Ram,
    CartridgeRam,
    Vram,
    Hram,
    Other,
}

impl MemoryType {
    /// Short display name.
    pub fn name(&self) -> (r: &'static str)
        ensures
            r@ == match *self {
                MemoryType::Rom => "ROM"@,
                MemoryType::Ram => "RAM"@,
                MemoryType::CartridgeRam => "CRAM"@,
                MemoryType::Vram => "VRAM"@,
                MemoryType::Hram => "HRAM"@,
                MemoryType::Other => "OTHER"@,
            },
    {
        match self {
            MemoryType::Rom => "ROM",
            MemoryType::Ram => "RAM",
            MemoryType::CartridgeRam => "CRAM",
            MemoryType::Vram => "VRAM",
            MemoryType::Hram => "HRAM",
            MemoryType::Other => "OTHER",
        }
    }
}

/// Value read in the prohibited area: the high nibble of the low address byte, twice.
pub open spec fn prohibited_value(addr: u16) -> u8 {
    let nibble = ((addr & 0xF0) >> 4u16) as u8;
    ((nibble << 4u8) | nibble) as u8
}

/// Abstract state of the bus.
pub struct BusView {
    pub controller: ControllerView,
    pub ram: Seq<u8>,
    pub high_ram: Seq<u8>,
    pub int_enable: u8,
}

/// Whether `addr` belongs to the cartridge (ROM or cartridge RAM).
pub open spec fn is_cartridge_addr(addr: u16) -> bool {
    addr <= 0x7FFF || (0xA000 <= addr <= 0xBFFF)
}

impl BusView {
    pub open spec fn wf(self) -> bool {
        &&& self.controller.wf()
        &&& self.ram.len() == 8192
        &&& self.high_ram.len() == 128
    }

    /// Bus around a controller, with fresh work RAM and high RAM.
    pub open spec fn initial(controller: ControllerView) -> BusView {
        BusView {
            controller,
            ram: Seq::new(8192, |i: int| 0xFFu8),
            high_ram: Seq::new(128, |i: int| 0xFFu8),
            int_enable: 0,
        }
    }

    /// Reads are defined on the cartridge (where the controller allows), work
    /// RAM and its echo, the prohibited area, high RAM and interrupt enable.
    pub open spec fn readable(self, addr: u16) -> bool {
        &&& self.wf()
        &&& if is_cartridge_addr(addr) {
            self.controller.readable(addr)
        } else {
            0xC000 <= addr <= 0xFDFF || (0xFEA0 <= addr <= 0xFEFF) || 0xFF80 <= addr
        }
    }

    pub open spec fn read_at(self, addr: u16) -> u8 {
        if is_cartridge_addr(addr) {
            self.controller.read_at(addr)
        } else if 0xC000 <= addr <= 0xDFFF {
            self.ram[addr - 0xC000]
        } else if 0xE000 <= addr <= 0xFDFF {
            self.ram[addr - 0xE000]
        } else if 0xFEA0 <= addr <= 0xFEFF {
            prohibited_value(addr)
        } else if 0xFF80 <= addr <= 0xFFFE {
            self.high_ram[addr - 0xFF80]
        } else {
            self.int_enable
        }
    }

    /// Writes are defined where reads are, the cartridge as its controller allows.
    pub open spec fn writable(self, addr: u16, value: u8) -> bool {
        &&& self.wf()
        &&& if is_cartridge_addr(addr) {
            self.controller.writable(addr, value)
        } else {
            0xC000 <= addr <= 0xFDFF || (0xFEA0 <= addr <= 0xFEFF) || 0xFF80 <= addr
        }
    }

    /// State after writing `value` at `addr`; writes to the prohibited area
    /// are dropped.
    pub open spec fn after_write(self, addr: u16, value: u8) -> BusView {
        if is_cartridge_addr(addr) {
            BusView { controller: self.controller.after_write(addr, value), ..self }
        } else if 0xC000 <= addr <= 0xDFFF {
            BusView { ram: self.ram.update(addr - 0xC000, value), ..self }
        } else if 0xE000 <= addr <= 0xFDFF {
            BusView { ram: self.ram.update(addr - 0xE000, value), ..self }
        } else if 0xFF80 <= addr <= 0xFFFE {
            BusView { high_ram: self.high_ram.update(addr - 0xFF80, value), ..self }
        } else if addr == 0xFFFF {
            BusView { int_enable: value, ..self }
        } else {
            self
        }
    }

    /// Kind of memory and bank that back `addr`.
    pub open spec fn info(self, addr: u16) -> (MemoryType, u16) {
        if addr < 0x4000 {
            (MemoryType::Rom, self.controller.rom.bank0 as u16)
        } else if addr <= 0x7FFF {
            (MemoryType::Rom, self.controller.rom.bank1 as u16)
        } else if 0xA000 <= addr <= 0xBFFF {
            (MemoryType::CartridgeRam, match self.controller.ram {
                None => 0,
                Some(r) => r.active_bank as u16,
            })
        } else if 0xC000 <= addr <= 0xDFFF {
            (MemoryType::Ram, 0)
        } else if 0xFF80 <= addr <= 0xFFFE {
            (MemoryType::Hram, 0)
        } else {
            (MemoryType::Other, 0)
        }
    }
}

/// 64K memory map
pub struct MemoryBus {
    /// ROM: 0x0000 - 0x7FFF, cartridge RAM: 0xA000 - 0xBFFF
    controller: Controller,
    /// Work RAM: 0xC000 - 0xDFFF
    ram: Ram,
    /// High RAM: 0xFF80 - 0xFFFE
    high_ram: Vec<u8>,
    /// Interrupt enable - 0xFFFF
    pub int_enable: u8,
}

impl View for MemoryBus {
    type V = BusView;

    closed spec fn view(&self) -> BusView {
        BusView {
            controller: self.controller@,
            ram: self.ram@,
            high_ram: self.high_ram@,
            int_enable: self.int_enable,
        }
    }
}


impl MemoryBus {
    pub const HRAM_BASE_ADDR: u16 = 0xFF80;
    pub const HRAM_LAST_ADDR: u16 = 0xFFFE;

    pub open spec fn wf(&self) -> bool {
        self@.wf()
    }

    /// Bus around a blank cartridge.
    pub fn new() -> (r: Self)
        ensures
            r.wf(),
            r@ == BusView::initial(
                ControllerView::initial(
                    RomView::initial(Seq::new(RomSize::_32K.spec_bytes(), |i: int| 0xFFu8), RomSize::_32K),
                    crate::cartridge::CartridgeType::MBC1,
                    RomSize::_32K,
                    RamSize::_8K,
                ),
            ),
    {
        let r = Self {
            controller: Controller::new(),
            ram: Ram::new(),
            high_ram: vec![0xFFu8; 0x80],
            int_enable: 0,
        };
        assert(r@.high_ram =~= Seq::new(128, |i: int| 0xFFu8));
        r
    }

    /// Bus around the controller built from a cartridge; fails as that does.
    pub fn from_cartridge(cartridge: Cartridge) -> (r: Result<Self, Error>)
        requires
            cartridge@.len() > 0x149,
            spec_header(cartridge@) matches Ok((_, rs, _)) ==> cartridge@.len() == rs.spec_bytes(),
        ensures
            match spec_header(cartridge@) {
                Ok((t, rs, ms)) => r matches Ok(b) && b.wf() && b@ == BusView::initial(
                    ControllerView::initial(RomView::initial(cartridge@, rs), t, rs, ms),
                ),
                Err(e) => r matches Err(e2) && e2 == e,
            },
    {
        let controller = Controller::from_cartridge(cartridge)?;
        let r = Self { controller, ram: Ram::new(), high_ram: vec![0xFFu8; 0x80], int_enable: 0 };
        assert(r@.high_ram =~= Seq::new(128, |i: int| 0xFFu8));
        Ok(r)
    }

    /// Reset the memory bus: the controller resets, work RAM, high RAM and
    /// interrupt enable return to their initial values.
    pub fn reset(&mut self)
        requires
            old(self).wf(),
        ensures
            final(self).wf(),
            final(self)@ == BusView::initial(
                ControllerView {
                    ram: crate::cartridge::fresh_ram(old(self)@.controller.ram_size),
                    ..old(self)@.controller
                },
            ),
    {
        self.controller.reset();
        self.ram = Ram::new();
        self.high_ram = vec![0xFFu8; 0x80];
        self.int_enable = 0;
        assert(self@.high_ram =~= Seq::new(128, |i: int| 0xFFu8));
    }

    /// Given an address, return the type of memory and bank number
    pub fn memory_info(&self, addr: u16) -> (r: (MemoryType, u16))
        ensures
            r == self@.info(addr),
    {
        if addr < 0x4000 {
            (MemoryType::Rom, self.controller.rom().bank_0())
        } else if addr <= 0x7FFF {
            (MemoryType::Rom, self.controller.rom().bank_1())
        } else if 0xA000 <= addr && addr <= 0xBFFF {
            (MemoryType::CartridgeRam, match self.controller.ram() {
                None => 0,
                Some(ram) => ram.active_bank() as u16,
            })
        } else if Ram::BASE_ADDR <= addr && addr <= Ram::LAST_ADDR {
            (MemoryType::Ram, 0)
        } else if Self::HRAM_BASE_ADDR <= addr && addr <= Self::HRAM_LAST_ADDR {
            (MemoryType::Hram, 0)
        } else {
            (MemoryType::Other, 0)
        }
    }

    pub fn controller(&self) -> (r: &Controller)
        ensures
            r@ == self@.controller,
    {
        &self.controller
    }

    pub fn controller_mut(&mut self) -> (r: &mut Controller)
        ensures
            r@ == old(self)@.controller,
            final(self)@ == (BusView { controller: final(r)@, ..old(self)@ }),
    {
        &mut self.controller
    }

    fn read_byte(&self, addr: u16) -> (r: u8)
        requires
            self@.readable(addr),
        ensures
            r == self@.read_at(addr),
    {
        if addr <= 0x7FFF || (0xA000 <= addr && addr <= 0xBFFF) {
            self.controller.read(addr)
        } else if addr <= Ram::LAST_ADDR {
            self.ram.read(addr)
        } else if addr <= 0xFDFF {
            // Echo RAM
            self.ram.read(addr - 0x2000)
        } else if addr <= 0xFEFF {
            // Prohibited area: the high nibble of the low address byte, twice
            let upper_nibble = ((addr & 0xF0) >> 4u16) as u8;
            upper_nibble << 4u8 | upper_nibble
        } else if addr <= Self::HRAM_LAST_ADDR {
            self.high_ram[(addr - Self::HRAM_BASE_ADDR) as usize]
        } else {
            self.int_enable
        }
    }

    fn write_byte(&mut self, addr: u16, value: u8)
        requires
            old(self)@.writable(addr, value),
        ensures
            final(self)@ == old(self)@.after_write(addr, value),
    {
        if addr <= 0x7FFF || (0xA000 <= addr && addr <= 0xBFFF) {
            self.controller.write(addr, value);
        } else if addr <= Ram::LAST_ADDR {
            self.ram.write(addr, value);
        } else if addr <= 0xFDFF {
            // Echo RAM
            self.ram.write(addr - 0x2000, value);
        } else if addr <= 0xFEFF {
            // Prohibited area: writes are dropped
        } else if addr <= Self::HRAM_LAST_ADDR {
            self.high_ram.set((addr - Self::HRAM_BASE_ADDR) as usize, value);
        } else {
            self.int_enable = value;
        }
    }
}

impl MemoryRead<u16, u8> for MemoryBus {
    open spec fn readable(&self, addr: u16) -> bool {
        self@.readable(addr)
    }

    open spec fn read_value(&self, addr: u16) -> u8 {
        self@.read_at(addr)
    }

    /// Read a single byte from an arbitrary memory address
    fn read(&self, addr: u16) -> (r: u8) {
        self.read_byte(addr)
    }
}

impl MemoryWrite<u16, u8> for MemoryBus {
    open spec fn writable(&self, addr: u16, value: u8) -> bool {
        self@.writable(addr, value)
    }

    open spec fn written(&self, after: &Self, addr: u16, value: u8) -> bool {
        after@ == self@.after_write(addr, value)
    }

    fn write(&mut self, addr: u16, value: u8) {
        self.write_byte(addr, value);
    }
}

/// Write a 16-bit word to memory, low byte first (little-endian)
impl MemoryWrite<u16, u16> for MemoryBus {
    open spec fn writable(&self, addr: u16, value: u16) -> bool {
        &&& addr < 0xFFFF
        &&& self@.writable(addr, value as u8)
        &&& self@.after_write(addr, value as u8).writable((addr + 1) as u16, (value >> 8u16) as u8)
    }

    open spec fn written(&self, after: &Self, addr: u16, value: u16) -> bool {
        after@ == self@.after_write(addr, value as u8).after_write((addr + 1) as u16, (value >> 8u16) as u8)
    }

    fn write(&mut self, addr: u16, value: u16) {
        self.write_byte(addr, value as u8);
        self.write_byte(addr + 1, (value >> 8u16) as u8);
    }
}

/// Echo RAM mirrors work RAM both ways: a byte written at `addr` in
/// 0xC000-0xDDFF reads back at `addr + 0x2000`, and a byte written at
/// `addr + 0x2000` reads back at `addr`.
pub proof fn lemma_echo_mirror(bus: BusView, addr: u16, v: u8)
    requires
        bus.wf(),
        0xC000 <= addr <= 0xDDFF,
    ensures
        bus.writable(addr, v),
        bus.after_write(addr, v).read_at((addr + 0x2000) as u16) == v,
        bus.writable((addr + 0x2000) as u16, v),
        bus.after_write((addr + 0x2000) as u16, v).read_at(addr) == v,
{
}

} // verus!
