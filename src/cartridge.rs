use vstd::prelude::*;

use vstd::utf8::valid_utf8;
use vstd::string::StringSliceAdditionalSpecFns;

use crate::error::{CartridgeError, Error, ValueKind};
use crate::memory::{MemoryRead, MemoryWrite};

verus! {

/// Cartridge RAM size
#[derive(Clone, Copy, Debug, PartialEq, Eq, Structural)]
pub enum RamSize {
    NotPresent,
    _2K,
    _8K,
    _32K,
    _128K,
    _64K,
}

impl RamSize {
    /// Capacity in bytes.
    pub open spec fn spec_bytes(self) -> nat {
        match self {
            RamSize::NotPresent => 0,
            RamSize::_2K => 2 * 1024,
            RamSize::_8K => 8 * 1024,
            RamSize::_32K => 32 * 1024,
            RamSize::_64K => 64 * 1024,
            RamSize::_128K => 128 * 1024,
        }
    }

    /// Number of 8K banks; the 2K size counts as one bank.
    pub open spec fn spec_banks(self) -> nat {
        if self == RamSize::_2K {
            1
        } else {
            self.spec_bytes() / 8192
        }
    }

    /// The size with the given capacity in bytes, if any.
    pub open spec fn spec_from_bytes(n: usize) -> Option<RamSize> {
        if n == 0 {
            Some(RamSize::NotPresent)
        } else if n == 2 * 1024 {
            Some(RamSize::_2K)
        } else if n == 8 * 1024 {
            Some(RamSize::_8K)
        } else if n == 32 * 1024 {
            Some(RamSize::_32K)
        } else if n == 64 * 1024 {
            Some(RamSize::_64K)
        } else if n == 128 * 1024 {
            Some(RamSize::_128K)
        } else {
            None
        }
    }

    /// The size with the given header code, if any.
    pub open spec fn spec_from_code(c: u8) -> Option<RamSize> {
        if c == 0 {
            Some(RamSize::NotPresent)
        } else if c == 1 {
            Some(RamSize::_2K)
        } else if c == 2 {
            Some(RamSize::_8K)
        } else if c == 3 {
            Some(RamSize::_32K)
        } else if c == 4 {
            Some(RamSize::_128K)
        } else if c == 5 {
            Some(RamSize::_64K)
        } else {
            None
        }
    }
}

/// Convert from RAM size variant to RAM size in bytes
impl From<RamSize> for usize {
    fn from(s: RamSize) -> (r: usize)
        ensures
            r == s.spec_bytes(),
    {
        match s {
            RamSize::NotPresent => 0,
            RamSize::_2K => 2 * 1024,
            RamSize::_8K => 8 * 1024,
            RamSize::_32K => 32 * 1024,
            RamSize::_64K => 64 * 1024,
            RamSize::_128K => 128 * 1024,
        }
    }
}

impl vstd::std_specs::convert::FromSpecImpl<RamSize> for usize {
    open spec fn obeys_from_spec() -> bool {
        true
    }

    open spec fn from_spec(s: RamSize) -> usize {
        s.spec_bytes() as usize
    }
}


impl RamSize {
    /// What converting a byte count gives.
    pub open spec fn spec_try_from_bytes(n: usize) -> Result<RamSize, Error> {
        match RamSize::spec_from_bytes(n) {
            Some(s) => Ok(s),
            None => Err(Error::InvalidValue(ValueKind::RamSize, n)),
        }
    }

    /// Size of a RAM blob: that of a present RAM, so an empty blob is
    /// rejected like any other unknown length.
    pub open spec fn spec_try_from_blob(n: usize) -> Result<RamSize, Error> {
        if n == 0 {
            Err(Error::InvalidValue(ValueKind::RamSize, n))
        } else {
            RamSize::spec_try_from_bytes(n)
        }
    }

    /// What converting a header code gives.
    pub open spec fn spec_try_from_code(c: u8) -> Result<RamSize, Error> {
        match RamSize::spec_from_code(c) {
            Some(s) => Ok(s),
            None => Err(Error::InvalidValue(ValueKind::RamSize, c as usize)),
        }
    }
}

/// Convert from raw RAM size in bytes to a RAM size variant
impl TryFrom<usize> for RamSize {
    type Error = Error;

    fn try_from(size: usize) -> (r: Result<Self, Self::Error>)
        ensures
            r == RamSize::spec_try_from_bytes(size),
    {
        if size == 0 {
            Ok(RamSize::NotPresent)
        } else if size == 2 * 1024 {
            Ok(RamSize::_2K)
        } else if size == 8 * 1024 {
            Ok(RamSize::_8K)
        } else if size == 32 * 1024 {
            Ok(RamSize::_32K)
        } else if size == 64 * 1024 {
            Ok(RamSize::_64K)
        } else if size == 128 * 1024 {
            Ok(RamSize::_128K)
        } else {
            Err(Error::InvalidValue(ValueKind::RamSize, size))
        }
    }
}

impl vstd::std_specs::convert::TryFromSpecImpl<usize> for RamSize {
    open spec fn obeys_try_from_spec() -> bool {
        true
    }

    open spec fn try_from_spec(size: usize) -> Result<Self, Self::Error> {
        RamSize::spec_try_from_bytes(size)
    }
}

/// Convert from a header code to a RAM size variant
impl TryFrom<u8> for RamSize {
    type Error = Error;

    fn try_from(code: u8) -> (r: Result<Self, Self::Error>)
        ensures
            r == RamSize::spec_try_from_code(code),
    {
        match code {
            0 => Ok(RamSize::NotPresent),
            1 => Ok(RamSize::_2K),
            2 => Ok(RamSize::_8K),
            3 => Ok(RamSize::_32K),
            4 => Ok(RamSize::_128K),
            5 => Ok(RamSize::_64K),
            _ => Err(Error::InvalidValue(ValueKind::RamSize, code as usize)),
        }
    }
}

impl vstd::std_specs::convert::TryFromSpecImpl<u8> for RamSize {
    open spec fn obeys_try_from_spec() -> bool {
        true
    }

    open spec fn try_from_spec(code: u8) -> Result<Self, Self::Error> {
        RamSize::spec_try_from_code(code)
    }
}

/// ROM size
#[derive(Clone, Copy, Debug, PartialEq, Eq, Structural)]
pub enum RomSize {
    _32K,
    _64K,
    _128K,
    _256K,
    _512K,
    _1M,
    _2M,
    _4M,
    _8M,
    _1_1M,
    _1_2M,
    _1_5M,
}

impl RomSize {
    /// Number of 16K banks.
    pub open spec fn spec_banks(self) -> nat {
        match self {
            RomSize::_32K => 2,
            RomSize::_64K => 4,
            RomSize::_128K => 8,
            RomSize::_256K => 16,
            RomSize::_512K => 32,
            RomSize::_1M => 64,
            RomSize::_1_1M => 72,
            RomSize::_1_2M => 80,
            RomSize::_1_5M => 96,
            RomSize::_2M => 128,
            RomSize::_4M => 256,
            RomSize::_8M => 512,
        }
    }

    /// Capacity in bytes.
    pub open spec fn spec_bytes(self) -> nat {
        self.spec_banks() * 16384
    }

    /// Code of this size in the cartridge header.
    pub open spec fn spec_code(self) -> u8 {
        match self {
            RomSize::_32K => 0x00,
            RomSize::_64K => 0x01,
            RomSize::_128K => 0x02,
            RomSize::_256K => 0x03,
            RomSize::_512K => 0x04,
            RomSize::_1M => 0x05,
            RomSize::_2M => 0x06,
            RomSize::_4M => 0x07,
            RomSize::_8M => 0x08,
            RomSize::_1_1M => 0x52,
            RomSize::_1_2M => 0x53,
            RomSize::_1_5M => 0x54,
        }
    }

    /// What converting a byte count gives.
    pub open spec fn spec_try_from_bytes(n: usize) -> Result<RomSize, Error> {
        if exists|s: RomSize| s.spec_bytes() == n {
            Ok(choose|s: RomSize| s.spec_bytes() == n)
        } else {
            Err(Error::InvalidValue(ValueKind::RomSize, n))
        }
    }

    /// What converting a header code gives.
    pub open spec fn spec_try_from_code(c: u8) -> Result<RomSize, Error> {
        if exists|s: RomSize| s.spec_code() == c {
            Ok(choose|s: RomSize| s.spec_code() == c)
        } else {
            Err(Error::InvalidValue(ValueKind::RomSize, c as usize))
        }
    }
}

/// Convert from ROM size variant to raw size in bytes
impl From<RomSize> for usize {
    fn from(s: RomSize) -> (r: usize)
        ensures
            r == s.spec_bytes(),
    {
        match s {
            RomSize::_32K => 2 * Rom::BANK_SIZE,
            RomSize::_64K => 4 * Rom::BANK_SIZE,
            RomSize::_128K => 8 * Rom::BANK_SIZE,
            RomSize::_256K => 16 * Rom::BANK_SIZE,
            RomSize::_512K => 32 * Rom::BANK_SIZE,
            RomSize::_1M => 64 * Rom::BANK_SIZE,
            RomSize::_1_1M => 72 * Rom::BANK_SIZE,
            RomSize::_1_2M => 80 * Rom::BANK_SIZE,
            RomSize::_1_5M => 96 * Rom::BANK_SIZE,
            RomSize::_2M => 128 * Rom::BANK_SIZE,
            RomSize::_4M => 256 * Rom::BANK_SIZE,
            RomSize::_8M => 512 * Rom::BANK_SIZE,
        }
    }
}

impl vstd::std_specs::convert::FromSpecImpl<RomSize> for usize {
    open spec fn obeys_from_spec() -> bool {
        true
    }

    open spec fn from_spec(s: RomSize) -> usize {
        s.spec_bytes() as usize
    }
}

/// Convert from raw ROM size in bytes to a ROM size variant
impl TryFrom<usize> for RomSize {
    type Error = Error;

    fn try_from(size: usize) -> (r: Result<Self, Self::Error>)
        ensures
            r == RomSize::spec_try_from_bytes(size),
    {
        let banks = size / Rom::BANK_SIZE;
        if size % Rom::BANK_SIZE != 0 {
            proof {
                assert forall|s: RomSize| s.spec_bytes() != size by {
                    if s.spec_bytes() == size {
                        assert(size as int == s.spec_banks() * 16384);
                        assert(size % 16384 == 0) by (nonlinear_arith)
                            requires size as int == s.spec_banks() * 16384;
                    }
                }
            }
            return Err(Error::InvalidValue(ValueKind::RomSize, size));
        }
        let r = match banks {
            2 => Ok(RomSize::_32K),
            4 => Ok(RomSize::_64K),
            8 => Ok(RomSize::_128K),
            16 => Ok(RomSize::_256K),
            32 => Ok(RomSize::_512K),
            64 => Ok(RomSize::_1M),
            72 => Ok(RomSize::_1_1M),
            80 => Ok(RomSize::_1_2M),
            96 => Ok(RomSize::_1_5M),
            128 => Ok(RomSize::_2M),
            256 => Ok(RomSize::_4M),
            512 => Ok(RomSize::_8M),
            _ => Err(Error::InvalidValue(ValueKind::RomSize, size)),
        };
        proof {
            RomSize::lemma_bytes_injective();
            match r {
                Ok(s) => {
                    assert(s.spec_bytes() == size);
                },
                Err(_) => {
                    assert forall|s: RomSize| s.spec_bytes() != size by {
                        if s.spec_bytes() == size {
                            assert(banks == s.spec_banks());
                        }
                    }
                },
            }
        }
        r
    }
}

impl vstd::std_specs::convert::TryFromSpecImpl<usize> for RomSize {
    open spec fn obeys_try_from_spec() -> bool {
        true
    }

    open spec fn try_from_spec(size: usize) -> Result<Self, Self::Error> {
        RomSize::spec_try_from_bytes(size)
    }
}

impl RomSize {
    /// Distinct sizes have distinct capacities and distinct header codes.
    pub proof fn lemma_bytes_injective()
        ensures
            forall|a: RomSize, b: RomSize| a.spec_bytes() == b.spec_bytes() ==> a == b,
            forall|a: RomSize, b: RomSize| a.spec_code() == b.spec_code() ==> a == b,
    {
    }
}

/// Convert from a header code to a ROM size variant
impl TryFrom<u8> for RomSize {
    type Error = Error;

    fn try_from(code: u8) -> (r: Result<Self, Self::Error>)
        ensures
            r == RomSize::spec_try_from_code(code),
    {
        let r = match code {
            0x00 => Ok(RomSize::_32K),
            0x01 => Ok(RomSize::_64K),
            0x02 => Ok(RomSize::_128K),
            0x03 => Ok(RomSize::_256K),
            0x04 => Ok(RomSize::_512K),
            0x05 => Ok(RomSize::_1M),
            0x06 => Ok(RomSize::_2M),
            0x07 => Ok(RomSize::_4M),
            0x08 => Ok(RomSize::_8M),
            0x52 => Ok(RomSize::_1_1M),
            0x53 => Ok(RomSize::_1_2M),
            0x54 => Ok(RomSize::_1_5M),
            _ => Err(Error::InvalidValue(ValueKind::RomSize, code as usize)),
        };
        proof {
            RomSize::lemma_bytes_injective();
            match r {
                Ok(s) => {
                    assert(s.spec_code() == code);
                },
                Err(_) => {
                    assert forall|s: RomSize| s.spec_code() != code by {}
                },
            }
        }
        r
    }
}

impl vstd::std_specs::convert::TryFromSpecImpl<u8> for RomSize {
    open spec fn obeys_try_from_spec() -> bool {
        true
    }

    open spec fn try_from_spec(code: u8) -> Result<Self, Self::Error> {
        RomSize::spec_try_from_code(code)
    }
}

/// Every RAM size is recovered from its byte count.
pub proof fn lemma_ram_size_round_trip(s: RamSize)
    ensures
        s.spec_bytes() <= usize::MAX,
        RamSize::spec_try_from_bytes(s.spec_bytes() as usize) == Ok::<RamSize, Error>(s),
{
}

/// Every ROM size is recovered from its byte count.
pub proof fn lemma_rom_size_round_trip(s: RomSize)
    ensures
        s.spec_bytes() <= usize::MAX,
        RomSize::spec_try_from_bytes(s.spec_bytes() as usize) == Ok::<RomSize, Error>(s),
{
    RomSize::lemma_bytes_injective();
}

/// Abstract state of cartridge RAM.
pub struct RamView {
    pub data: Seq<u8>,
    pub active_bank: nat,
    pub num_banks: nat,
    pub size: RamSize,
    pub dirty: bool,
}

impl RamView {
    /// A present RAM whose buffer and bank count match its size and whose
    /// active bank exists.
    pub open spec fn wf(self) -> bool {
        &&& self.size != RamSize::NotPresent
        &&& self.data.len() == self.size.spec_bytes()
        &&& self.num_banks == self.size.spec_banks()
        &&& self.active_bank < self.num_banks
    }

    /// Fresh RAM of the given size: all 0xFF, bank 0, clean.
    pub open spec fn fresh(size: RamSize) -> RamView {
        RamView {
            data: Seq::new(size.spec_bytes(), |i: int| 0xFFu8),
            active_bank: 0,
            num_banks: size.spec_banks(),
            size,
            dirty: false,
        }
    }

    /// Buffer index that backs `addr` in the active bank.
    pub open spec fn index(self, addr: u16) -> int {
        self.active_bank * 8192 + (addr - 0xA000)
    }

    pub open spec fn readable(self, addr: u16) -> bool {
        &&& self.wf()
        &&& 0xA000 <= addr <= 0xBFFF
        &&& self.index(addr) < self.data.len()
    }

    pub open spec fn read_at(self, addr: u16) -> u8 {
        self.data[self.index(addr)]
    }

    pub open spec fn after_write(self, addr: u16, value: u8) -> RamView {
        RamView { data: self.data.update(self.index(addr), value), dirty: true, ..self }
    }

    pub open spec fn after_set_bank(self, bank: u8) -> RamView {
        RamView { active_bank: select_bank(self.num_banks, bank), ..self }
    }
}

/// Bank chosen by `bank` among `num_banks` banks (a power of two).
pub open spec fn select_bank(num_banks: nat, bank: u8) -> nat {
    (bank & ((num_banks - 1) as u8)) as nat
}

/// Cartridge RAM
pub struct Ram {
    data: Vec<u8>,
    pub(crate) active_bank: u8,
    num_banks: u8,
    ram_size: RamSize,
    /// Dirty flag set on write to RAM
    pub(crate) is_dirty: bool,
}

impl View for Ram {
    type V = RamView;

    closed spec fn view(&self) -> RamView {
        RamView {
            data: self.data@,
            active_bank: self.active_bank as nat,
            num_banks: self.num_banks as nat,
            size: self.ram_size,
            dirty: self.is_dirty,
        }
    }
}

impl Ram {
    const BANK_SIZE: usize = 8 * 1024;
    pub const BASE_ADDR: u16 = 0xA000;
    pub const LAST_ADDR: u16 = 0xBFFF;

    pub open spec fn wf(&self) -> bool {
        self@.wf()
    }

    fn bank_count(ram_size: RamSize) -> (r: u8)
        requires
            ram_size != RamSize::NotPresent,
        ensures
            r == ram_size.spec_banks(),
    {
        if ram_size == RamSize::_2K {
            1
        } else {
            (usize::from(ram_size) / Self::BANK_SIZE) as u8
        }
    }

    /// Create empty RAM: none for the size without capacity, else all 0xFF.
    pub fn new(ram_size: RamSize) -> (r: Option<Self>)
        ensures
            r is None <==> ram_size == RamSize::NotPresent,
            r matches Some(ram) ==> ram@ == RamView::fresh(ram_size) && ram.wf(),
    {
        match ram_size {
            RamSize::NotPresent => None,
            _ => {
                let size = usize::from(ram_size);
                let data = vec![0xFFu8; size];
                let num_banks = Self::bank_count(ram_size);
                let ram = Self { data, active_bank: 0, num_banks, ram_size, is_dirty: false };
                assert(ram@.data =~= RamView::fresh(ram_size).data);
                Some(ram)
            },
        }
    }

    /// Create RAM from raw bytes
    ///
    /// Fails when the length is not that of a present RAM size; an empty
    /// blob is rejected too.
    pub fn from_bytes(data: &[u8]) -> (r: Result<Self, Error>)
        ensures
            r matches Ok(ram) ==> ram.wf() && ram@ == (RamView {
                data: data@,
                active_bank: 0,
                num_banks: ram@.size.spec_banks(),
                size: ram@.size,
                dirty: false,
            }) && RamSize::spec_try_from_blob(data@.len() as usize) == Ok::<RamSize, Error>(ram@.size),
            r matches Err(e) ==> RamSize::spec_try_from_blob(data@.len() as usize) == Err::<RamSize, Error>(e),
    {
        let size = data.len();
        if size == 0 {
            return Err(Error::InvalidValue(ValueKind::RamSize, size));
        }
        let ram_size = RamSize::try_from(size)?;
        let data = vstd::slice::slice_to_vec(data);
        let num_banks = Self::bank_count(ram_size);
        Ok(Self { data, active_bank: 0, num_banks, ram_size, is_dirty: false })
    }

    /// Index of the active bank.
    pub fn active_bank(&self) -> (r: u8)
        ensures
            r == self@.active_bank,
    {
        self.active_bank
    }

    /// Whether any byte was written since this RAM was made or loaded.
    pub fn is_dirty(&self) -> (r: bool)
        ensures
            r == self@.dirty,
    {
        self.is_dirty
    }

    /// Raw contents of all banks.
    pub fn data(&self) -> (r: &[u8])
        ensures
            r@ == self@.data,
    {
        self.data.as_slice()
    }

    /// Select the active bank; the number wraps at the bank count.
    pub fn set_bank(&mut self, bank: u8)
        requires
            old(self).wf(),
        ensures
            final(self)@ == old(self)@.after_set_bank(bank),
            final(self).wf(),
    {
        let n = self.num_banks;
        assert(n == 1 || n == 4 || n == 8 || n == 16);
        let mask = n - 1;
        self.active_bank = bank & mask;
        assert((bank & mask) < mask + 1) by (bit_vector)
            requires
                mask == 0 || mask == 3 || mask == 7 || mask == 15,
        ;
    }
}

/// Selecting bank `n` and bank `n + bank count` picks the same bank.
pub proof fn lemma_set_bank_wraps(ram: RamView, n: u8)
    requires
        ram.wf(),
        n + ram.num_banks <= 255,
    ensures
        ram.after_set_bank(n).active_bank == ram.after_set_bank((n + ram.num_banks) as u8).active_bank,
{
    let mask = (ram.num_banks - 1) as u8;
    let m = (n + ram.num_banks) as u8;
    assert((n & mask) == (m & mask)) by (bit_vector)
        requires
            mask == 0 || mask == 3 || mask == 7 || mask == 15,
            m == n + mask + 1,
    ;
}

impl MemoryRead<u16, u8> for Ram {
    open spec fn readable(&self, addr: u16) -> bool {
        self@.readable(addr)
    }

    open spec fn read_value(&self, addr: u16) -> u8 {
        self@.read_at(addr)
    }

    /// Read a byte of data from the current active bank
    fn read(&self, addr: u16) -> (r: u8) {
        let addr = (addr - Self::BASE_ADDR) as usize;
        let bank_offset = self.active_bank as usize * Self::BANK_SIZE;
        self.data[bank_offset + addr]
    }
}

impl MemoryWrite<u16, u8> for Ram {
    open spec fn writable(&self, addr: u16, value: u8) -> bool {
        self@.readable(addr)
    }

    open spec fn written(&self, after: &Self, addr: u16, value: u8) -> bool {
        after@ == self@.after_write(addr, value)
    }

    /// Write a byte of data to the current active bank
    fn write(&mut self, addr: u16, value: u8) {
        let addr = (addr - Self::BASE_ADDR) as usize;
        let bank_offset = self.active_bank as usize * Self::BANK_SIZE;
        self.data.set(bank_offset + addr, value);
        self.is_dirty = true;
    }
}

/// An offset inside bank `bank` of `n` banks of `size` bytes lies in the buffer.
pub proof fn lemma_bank_offset(bank: nat, n: nat, offset: nat, size: nat)
    requires
        bank < n,
        offset < size,
    ensures
        bank * size + offset < n * size,
{
    assert(bank * size + offset < n * size) by (nonlinear_arith)
        requires
            bank < n,
            offset < size,
    ;
}

/// Abstract state of the ROM.
pub struct RomView {
    pub data: Seq<u8>,
    pub bank0: nat,
    pub bank1: nat,
    pub num_banks: nat,
    pub size: RomSize,
}

impl RomView {
    /// The buffer matches the size and both bank registers name existing banks.
    pub open spec fn wf(self) -> bool {
        &&& self.data.len() == self.size.spec_bytes()
        &&& self.num_banks == self.size.spec_banks()
        &&& self.bank0 < self.num_banks
        &&& self.bank1 < self.num_banks
    }

    /// ROM holding `data` with the default banks 0 and 1.
    pub open spec fn initial(data: Seq<u8>, size: RomSize) -> RomView {
        RomView { data, bank0: 0, bank1: 1, num_banks: size.spec_banks(), size }
    }

    /// Buffer index that backs `addr`.
    pub open spec fn index(self, addr: u16) -> int {
        if addr <= 0x3FFF {
            self.bank0 * 16384 + addr
        } else {
            self.bank1 * 16384 + (addr - 0x4000)
        }
    }

    pub open spec fn readable(self, addr: u16) -> bool {
        self.wf() && addr <= 0x7FFF
    }

    pub open spec fn read_at(self, addr: u16) -> u8 {
        self.data[self.index(addr)]
    }
}

/// ROM
pub struct Rom {
    /// ROM data for all banks
    data: Vec<u8>,
    /// Active bank 0
    pub(crate) active_bank_0: u16,
    /// Active bank 1
    pub(crate) active_bank_1: u16,
    /// Total number of banks
    num_banks: u16,
    /// Size of ROM
    rom_size: RomSize,
}

impl View for Rom {
    type V = RomView;

    closed spec fn view(&self) -> RomView {
        RomView {
            data: self.data@,
            bank0: self.active_bank_0 as nat,
            bank1: self.active_bank_1 as nat,
            num_banks: self.num_banks as nat,
            size: self.rom_size,
        }
    }
}

impl Rom {
    pub const BANK_SIZE: usize = 16 * 1024;
    pub const BASE_ADDR: u16 = 0x0000;
    pub const LAST_ADDR: u16 = 0x7FFF;

    pub open spec fn wf(&self) -> bool {
        self@.wf()
    }

    /// Erased ROM of the given size: every byte 0xFF.
    pub fn new(rom_size: RomSize) -> (r: Self)
        ensures
            r@ == RomView::initial(Seq::new(rom_size.spec_bytes(), |i: int| 0xFFu8), rom_size),
            r.wf(),
    {
        let size = usize::from(rom_size);
        let num_banks = size / Self::BANK_SIZE;
        let r = Self {
            data: vec![0xFFu8; size],
            active_bank_0: 0,
            active_bank_1: 1,
            num_banks: num_banks as u16,
            rom_size,
        };
        assert(r@.data =~= Seq::new(rom_size.spec_bytes(), |i: int| 0xFFu8));
        r
    }

    /// Construct a ROM from raw bytes, whose length must be that of the size.
    pub fn from_bytes(data: &[u8], rom_size: RomSize) -> (r: Self)
        requires
            data@.len() == rom_size.spec_bytes(),
        ensures
            r@ == RomView::initial(data@, rom_size),
            r.wf(),
    {
        let size = usize::from(rom_size);
        let num_banks = size / Self::BANK_SIZE;
        let data = vstd::slice::slice_to_vec(data);
        Self { data, active_bank_0: 0, active_bank_1: 1, num_banks: num_banks as u16, rom_size }
    }

    /// Load data into this ROM; its length must be that of the ROM's size.
    pub fn load(&mut self, data: Vec<u8>)
        requires
            old(self).wf(),
            data@.len() == old(self)@.size.spec_bytes(),
        ensures
            final(self)@ == (RomView { data: data@, ..old(self)@ }),
            final(self).wf(),
    {
        self.data = data;
    }

    /// Bank seen at 0x0000-0x3FFF.
    pub fn bank_0(&self) -> (r: u16)
        ensures
            r == self@.bank0,
    {
        self.active_bank_0
    }

    /// Bank seen at 0x4000-0x7FFF.
    pub fn bank_1(&self) -> (r: u16)
        ensures
            r == self@.bank1,
    {
        self.active_bank_1
    }

    /// Select the bank seen at 0x0000-0x3FFF.
    pub fn update_bank_0(&mut self, bank: u16)
        requires
            old(self).wf(),
            bank < old(self)@.num_banks,
        ensures
            final(self)@ == (RomView { bank0: bank as nat, ..old(self)@ }),
            final(self).wf(),
    {
        self.active_bank_0 = bank;
    }

    /// Select the bank seen at 0x4000-0x7FFF.
    pub fn update_bank_1(&mut self, bank: u16)
        requires
            old(self).wf(),
            bank < old(self)@.num_banks,
        ensures
            final(self)@ == (RomView { bank1: bank as nat, ..old(self)@ }),
            final(self).wf(),
    {
        self.active_bank_1 = bank;
    }
}

impl MemoryRead<u16, u8> for Rom {
    open spec fn readable(&self, addr: u16) -> bool {
        self@.readable(addr)
    }

    open spec fn read_value(&self, addr: u16) -> u8 {
        self@.read_at(addr)
    }

    fn read(&self, addr: u16) -> (r: u8) {
        let addr = addr as usize;
        if addr <= 0x3FFF {
            proof {
                lemma_bank_offset(self@.bank0, self@.num_banks, addr as nat, 16384);
            }
            let bank_offset = self.active_bank_0 as usize * Self::BANK_SIZE;
            self.data[bank_offset + addr]
        } else {
            let addr = addr - 0x4000;
            proof {
                lemma_bank_offset(self@.bank1, self@.num_banks, addr as nat, 16384);
            }
            let bank_offset = self.active_bank_1 as usize * Self::BANK_SIZE;
            self.data[bank_offset + addr]
        }
    }
}

/// Cartridge types, by their header code
#[allow(non_camel_case_types)]
#[derive(Clone, Copy, Debug, PartialEq, Eq, Structural)]
pub enum CartridgeType {
    ROM,
    MBC1,
    MBC1_RAM,
    MBC1_RAM_BATT,
    MBC2,
    MBC2_BATT,
    RAM,
    RAM_BATT,
    MMM01,
    MMM01_RAM,
    MMM01_RAM_BATT,
    MBC3_TIMER_BATT,
    MBC3_TIMER_RAM_BATT,
    MBC3,
    MBC3_RAM,
    MBC3_RAM_BATT,
    MBC5,
    MBC5_RAM,
    MBC5_RAM_BATT,
    MBC5_RUMBLE,
    MBC5_RUMBLE_RAM,
    MBC5_RUMBLE_RAM_BATT,
    POCKET_CAMERA,
    BANDAI_TAMA5,
    HuC3,
    HuC1_RAM_BATT,
}

impl CartridgeType {
    /// Code of this type in the cartridge header.
    pub open spec fn spec_code(self) -> u8 {
        match self {
            CartridgeType::ROM => 0x00,
            CartridgeType::MBC1 => 0x01,
            CartridgeType::MBC1_RAM => 0x02,
            CartridgeType::MBC1_RAM_BATT => 0x03,
            CartridgeType::MBC2 => 0x05,
            CartridgeType::MBC2_BATT => 0x06,
            CartridgeType::RAM => 0x08,
            CartridgeType::RAM_BATT => 0x09,
            CartridgeType::MMM01 => 0x0B,
            CartridgeType::MMM01_RAM => 0x0C,
            CartridgeType::MMM01_RAM_BATT => 0x0D,
            CartridgeType::MBC3_TIMER_BATT => 0x0F,
            CartridgeType::MBC3_TIMER_RAM_BATT => 0x10,
            CartridgeType::MBC3 => 0x11,
            CartridgeType::MBC3_RAM => 0x12,
            CartridgeType::MBC3_RAM_BATT => 0x13,
            CartridgeType::MBC5 => 0x19,
            CartridgeType::MBC5_RAM => 0x1A,
            CartridgeType::MBC5_RAM_BATT => 0x1B,
            CartridgeType::MBC5_RUMBLE => 0x1C,
            CartridgeType::MBC5_RUMBLE_RAM => 0x1D,
            CartridgeType::MBC5_RUMBLE_RAM_BATT => 0x1E,
            CartridgeType::POCKET_CAMERA => 0xFC,
            CartridgeType::BANDAI_TAMA5 => 0xFD,
            CartridgeType::HuC3 => 0xFE,
            CartridgeType::HuC1_RAM_BATT => 0xFF,
        }
    }

    /// What converting a header code gives.
    pub open spec fn spec_try_from_code(c: u8) -> Result<CartridgeType, Error> {
        if exists|t: CartridgeType| t.spec_code() == c {
            Ok(choose|t: CartridgeType| t.spec_code() == c)
        } else {
            Err(Error::InvalidValue(ValueKind::CartridgeType, c as usize))
        }
    }

    /// Distinct types have distinct codes.
    pub proof fn lemma_code_injective()
        ensures
            forall|a: CartridgeType, b: CartridgeType| a.spec_code() == b.spec_code() ==> a == b,
    {
    }

    /// No banking controller.
    pub fn is_none(&self) -> (r: bool)
        ensures
            r <==> (*self == CartridgeType::ROM || *self == CartridgeType::RAM || *self == CartridgeType::RAM_BATT),
    {
        match self {
            CartridgeType::ROM | CartridgeType::RAM | CartridgeType::RAM_BATT => true,
            _ => false,
        }
    }

    pub open spec fn spec_is_mbc1(self) -> bool {
        self == CartridgeType::MBC1 || self == CartridgeType::MBC1_RAM || self == CartridgeType::MBC1_RAM_BATT
    }

    /// Banking scheme MBC1.
    pub fn is_mbc1(&self) -> (r: bool)
        ensures
            r == self.spec_is_mbc1(),
    {
        match self {
            CartridgeType::MBC1 | CartridgeType::MBC1_RAM | CartridgeType::MBC1_RAM_BATT => true,
            _ => false,
        }
    }

    /// Banking scheme MBC2.
    pub fn is_mbc2(&self) -> (r: bool)
        ensures
            r <==> (*self == CartridgeType::MBC2 || *self == CartridgeType::MBC2_BATT),
    {
        match self {
            CartridgeType::MBC2 | CartridgeType::MBC2_BATT => true,
            _ => false,
        }
    }

    /// Banking scheme MBC3.
    pub fn is_mbc3(&self) -> (r: bool)
        ensures
            r <==> (*self == CartridgeType::MBC3 || *self == CartridgeType::MBC3_RAM || *self == CartridgeType::MBC3_RAM_BATT || *self == CartridgeType::MBC3_TIMER_BATT || *self == CartridgeType::MBC3_TIMER_RAM_BATT),
    {
        match self {
            CartridgeType::MBC3 | CartridgeType::MBC3_RAM | CartridgeType::MBC3_RAM_BATT | CartridgeType::MBC3_TIMER_BATT | CartridgeType::MBC3_TIMER_RAM_BATT => true,
            _ => false,
        }
    }

    /// Banking scheme MBC5.
    pub fn is_mbc5(&self) -> (r: bool)
        ensures
            r <==> (*self == CartridgeType::MBC5 || *self == CartridgeType::MBC5_RAM || *self == CartridgeType::MBC5_RAM_BATT || *self == CartridgeType::MBC5_RUMBLE || *self == CartridgeType::MBC5_RUMBLE_RAM || *self == CartridgeType::MBC5_RUMBLE_RAM_BATT),
    {
        match self {
            CartridgeType::MBC5 | CartridgeType::MBC5_RAM | CartridgeType::MBC5_RAM_BATT | CartridgeType::MBC5_RUMBLE | CartridgeType::MBC5_RUMBLE_RAM | CartridgeType::MBC5_RUMBLE_RAM_BATT => true,
            _ => false,
        }
    }

    /// Battery-backed RAM.
    pub fn is_battery_backed(&self) -> (r: bool)
        ensures
            r <==> (*self == CartridgeType::RAM_BATT || *self == CartridgeType::MBC1_RAM_BATT || *self == CartridgeType::MBC3_RAM_BATT || *self == CartridgeType::MBC3_TIMER_RAM_BATT || *self == CartridgeType::MBC5_RAM_BATT || *self == CartridgeType::MBC5_RUMBLE_RAM_BATT),
    {
        match self {
            CartridgeType::RAM_BATT | CartridgeType::MBC1_RAM_BATT | CartridgeType::MBC3_RAM_BATT | CartridgeType::MBC3_TIMER_RAM_BATT | CartridgeType::MBC5_RAM_BATT | CartridgeType::MBC5_RUMBLE_RAM_BATT => true,
            _ => false,
        }
    }

    /// Real-time clock.
    pub fn is_rtc(&self) -> (r: bool)
        ensures
            r <==> (*self == CartridgeType::MBC3_TIMER_BATT || *self == CartridgeType::MBC3_TIMER_RAM_BATT),
    {
        match self {
            CartridgeType::MBC3_TIMER_BATT | CartridgeType::MBC3_TIMER_RAM_BATT => true,
            _ => false,
        }
    }
}

impl TryFrom<u8> for CartridgeType {
    type Error = Error;

    fn try_from(code: u8) -> (r: Result<Self, Self::Error>)
        ensures
            r == CartridgeType::spec_try_from_code(code),
    {
        let r = match code {
            0x00 => Ok(CartridgeType::ROM),
            0x01 => Ok(CartridgeType::MBC1),
            0x02 => Ok(CartridgeType::MBC1_RAM),
            0x03 => Ok(CartridgeType::MBC1_RAM_BATT),
            0x05 => Ok(CartridgeType::MBC2),
            0x06 => Ok(CartridgeType::MBC2_BATT),
            0x08 => Ok(CartridgeType::RAM),
            0x09 => Ok(CartridgeType::RAM_BATT),
            0x0B => Ok(CartridgeType::MMM01),
            0x0C => Ok(CartridgeType::MMM01_RAM),
            0x0D => Ok(CartridgeType::MMM01_RAM_BATT),
            0x0F => Ok(CartridgeType::MBC3_TIMER_BATT),
            0x10 => Ok(CartridgeType::MBC3_TIMER_RAM_BATT),
            0x11 => Ok(CartridgeType::MBC3),
            0x12 => Ok(CartridgeType::MBC3_RAM),
            0x13 => Ok(CartridgeType::MBC3_RAM_BATT),
            0x19 => Ok(CartridgeType::MBC5),
            0x1A => Ok(CartridgeType::MBC5_RAM),
            0x1B => Ok(CartridgeType::MBC5_RAM_BATT),
            0x1C => Ok(CartridgeType::MBC5_RUMBLE),
            0x1D => Ok(CartridgeType::MBC5_RUMBLE_RAM),
            0x1E => Ok(CartridgeType::MBC5_RUMBLE_RAM_BATT),
            0xFC => Ok(CartridgeType::POCKET_CAMERA),
            0xFD => Ok(CartridgeType::BANDAI_TAMA5),
            0xFE => Ok(CartridgeType::HuC3),
            0xFF => Ok(CartridgeType::HuC1_RAM_BATT),
            _ => Err(Error::InvalidValue(ValueKind::CartridgeType, code as usize)),
        };
        proof {
            CartridgeType::lemma_code_injective();
            match r {
                Ok(t) => {
                    assert(t.spec_code() == code);
                },
                Err(_) => {
                    assert forall|t: CartridgeType| t.spec_code() != code by {}
                },
            }
        }
        r
    }
}

impl vstd::std_specs::convert::TryFromSpecImpl<u8> for CartridgeType {
    open spec fn obeys_try_from_spec() -> bool {
        true
    }

    open spec fn try_from_spec(code: u8) -> Result<Self, Self::Error> {
        CartridgeType::spec_try_from_code(code)
    }
}

/// Relies on std::str::from_utf8: it succeeds exactly on valid UTF-8, and the
/// text it returns holds the same bytes.
#[verifier::external_body]
fn text_of(b: &[u8]) -> (r: Option<&str>)
    ensures
        r is Some <==> valid_utf8(b@),
        r matches Some(s) ==> s.spec_bytes() == b@,
{
    std::str::from_utf8(b).ok()
}

/// Header bytes of the game title.
pub open spec fn title_bytes(d: Seq<u8>) -> Seq<u8> {
    d.subrange(0x134, 0x143)
}

/// Header bytes of the manufacturer code.
pub open spec fn manufacturer_bytes(d: Seq<u8>) -> Seq<u8> {
    d.subrange(0x13F, 0x142)
}

/// Header bytes of the licensee code.
pub open spec fn licensee_bytes(d: Seq<u8>) -> Seq<u8> {
    d.subrange(0x144, 0x146)
}

/// Publisher name for a licensee code.
pub open spec fn licensee_name(code: Seq<u8>) -> Seq<char> {
    if code == seq![0x30u8, 0x30u8] {
        "None"@
    } else if code == seq![0x30u8, 0x31u8] {
        "Nintendo R&D 1"@
    } else if code == seq![0x33u8, 0x31u8] {
        "Nintendo"@
    } else {
        "Other"@
    }
}

/// Outcome of cartridge validation: the first field that fails, in header order.
pub open spec fn spec_validate(d: Seq<u8>) -> Result<(), Error> {
    if !valid_utf8(title_bytes(d)) {
        Err(Error::Cartridge(CartridgeError::Title))
    } else if !valid_utf8(manufacturer_bytes(d)) {
        Err(Error::Cartridge(CartridgeError::ManufacturerCode))
    } else if !valid_utf8(licensee_bytes(d)) {
        Err(Error::Cartridge(CartridgeError::LicenseeCode))
    } else if CartridgeType::spec_try_from_code(d[0x147]) is Err {
        Err(Error::Cartridge(CartridgeError::Type))
    } else if RomSize::spec_try_from_code(d[0x148]) is Err {
        Err(Error::Cartridge(CartridgeError::RomSize))
    } else if RamSize::spec_try_from_code(d[0x149]) is Err {
        Err(Error::Cartridge(CartridgeError::RamSize))
    } else {
        Ok(())
    }
}

/// Raw cartridge image: header and ROM.
pub struct Cartridge {
    /// Raw cartridge data
    pub(crate) data: Vec<u8>,
}

impl View for Cartridge {
    type V = Seq<u8>;

    closed spec fn view(&self) -> Seq<u8> {
        self.data@
    }
}

impl Cartridge {
    pub fn from_bytes(data: Vec<u8>) -> (r: Self)
        ensures
            r@ == data@,
    {
        Self { data }
    }

    /// Check every header field; the error names the first that fails.
    pub fn validate(&self) -> (r: Result<(), Error>)
        requires
            self@.len() > 0x149,
        ensures
            r == spec_validate(self@),
    {
        if self.title().is_err() {
            return Err(Error::Cartridge(CartridgeError::Title));
        }
        if self.manufacturer_code().is_err() {
            return Err(Error::Cartridge(CartridgeError::ManufacturerCode));
        }
        if self.licensee_code().is_err() {
            return Err(Error::Cartridge(CartridgeError::LicenseeCode));
        }
        if self.cartridge_type().is_err() {
            return Err(Error::Cartridge(CartridgeError::Type));
        }
        if self.rom_size().is_err() {
            return Err(Error::Cartridge(CartridgeError::RomSize));
        }
        if self.ram_size().is_err() {
            return Err(Error::Cartridge(CartridgeError::RamSize));
        }
        Ok(())
    }

    /// Game title, padding included.
    pub fn title(&self) -> (r: Result<&str, Error>)
        requires
            self@.len() >= 0x143,
        ensures
            r is Ok <==> valid_utf8(title_bytes(self@)),
            r matches Ok(s) ==> s.spec_bytes() == title_bytes(self@),
            r matches Err(e) ==> e == Error::Utf8,
    {
        let raw = vstd::slice::slice_subrange(self.data.as_slice(), 0x134, 0x143);
        match text_of(raw) {
            Some(s) => Ok(s),
            None => Err(Error::Utf8),
        }
    }

    /// Manufacturer code
    pub fn manufacturer_code(&self) -> (r: Result<&str, Error>)
        requires
            self@.len() >= 0x142,
        ensures
            r is Ok <==> valid_utf8(manufacturer_bytes(self@)),
            r matches Ok(s) ==> s.spec_bytes() == manufacturer_bytes(self@),
            r matches Err(e) ==> e == Error::Utf8,
    {
        let raw = vstd::slice::slice_subrange(self.data.as_slice(), 0x13F, 0x142);
        match text_of(raw) {
            Some(s) => Ok(s),
            None => Err(Error::Utf8),
        }
    }

    /// Licensee code (replaced manufacturer code on newer games), as a name
    pub fn licensee_code(&self) -> (r: Result<&str, Error>)
        requires
            self@.len() >= 0x146,
        ensures
            r is Ok <==> valid_utf8(licensee_bytes(self@)),
            r matches Ok(s) ==> s@ == licensee_name(licensee_bytes(self@)),
            r matches Err(e) ==> e == Error::Utf8,
    {
        let raw = vstd::slice::slice_subrange(self.data.as_slice(), 0x144, 0x146);
        if text_of(raw).is_none() {
            return Err(Error::Utf8);
        }
        let ghost code = raw@;
        if raw[0] == 0x30 && raw[1] == 0x30 {
            assert(code =~= seq![0x30u8, 0x30u8]);
            Ok("None")
        } else if raw[0] == 0x30 && raw[1] == 0x31 {
            assert(code =~= seq![0x30u8, 0x31u8]);
            Ok("Nintendo R&D 1")
        } else if raw[0] == 0x33 && raw[1] == 0x31 {
            assert(code =~= seq![0x33u8, 0x31u8]);
            Ok("Nintendo")
        } else {
            assert(code != seq![0x30u8, 0x30u8]);
            assert(code != seq![0x30u8, 0x31u8]);
            assert(code != seq![0x33u8, 0x31u8]);
            Ok("Other")
        }
    }

    /// Cartridge type
    pub fn cartridge_type(&self) -> (r: Result<CartridgeType, Error>)
        requires
            self@.len() > 0x147,
        ensures
            r == CartridgeType::spec_try_from_code(self@[0x147]),
    {
        CartridgeType::try_from(self.data[0x147])
    }

    /// ROM size
    pub fn rom_size(&self) -> (r: Result<RomSize, Error>)
        requires
            self@.len() > 0x148,
        ensures
            r == RomSize::spec_try_from_code(self@[0x148]),
    {
        RomSize::try_from(self.data[0x148])
    }

    /// RAM size
    pub fn ram_size(&self) -> (r: Result<RamSize, Error>)
        requires
            self@.len() > 0x149,
        ensures
            r == RamSize::spec_try_from_code(self@[0x149]),
    {
        RamSize::try_from(self.data[0x149])
    }
}

/// Bank seen at 0x4000-0x7FFF after writing `value` to the ROM bank register:
/// the low five bits, with 0 read as 1.
pub open spec fn rom_bank_select(value: u8) -> u16 {
    let b = value & 0x1F;
    if b == 0 {
        1
    } else {
        b as u16
    }
}

/// Fixed bank for the two-bit register in advanced banking mode.
pub open spec fn advanced_bank_0(value: u8) -> u16 {
    let v = value & 3;
    if v == 0 {
        0
    } else if v == 1 {
        0x20
    } else if v == 2 {
        0x40
    } else {
        0x60
    }
}

/// Bank 1 with the two-bit register as its upper bits, in simple banking mode.
pub open spec fn upper_bank_1(bank1: u16, value: u8) -> u16 {
    bank1 | (((value & 3) as u16) << 5u16)
}

/// Abstract state of the bank controller.
pub struct ControllerView {
    pub rom: RomView,
    pub ram: Option<RamView>,
    pub rom_size: RomSize,
    pub ram_size: RamSize,
    pub cartridge_type: CartridgeType,
    pub banking_mode: bool,
    pub ram_enable: bool,
    pub ram_rom_bank: u8,
}

/// RAM of the given size as built by a reset: none, or all 0xFF.
pub open spec fn fresh_ram(size: RamSize) -> Option<RamView> {
    if size == RamSize::NotPresent {
        None
    } else {
        Some(RamView::fresh(size))
    }
}

impl ControllerView {
    pub open spec fn wf(self) -> bool {
        &&& self.rom.wf()
        &&& self.rom.size == self.rom_size
        &&& self.ram matches Some(r) ==> r.wf()
        &&& self.ram_size != RamSize::NotPresent ==> self.ram is Some
    }

    /// Controller state right after construction.
    pub open spec fn initial(rom: RomView, t: CartridgeType, rom_size: RomSize, ram_size: RamSize) -> ControllerView {
        ControllerView {
            rom,
            ram: fresh_ram(ram_size),
            rom_size,
            ram_size,
            cartridge_type: t,
            banking_mode: false,
            ram_enable: false,
            ram_rom_bank: 0,
        }
    }

    /// RAM of 32K or more.
    pub open spec fn large_ram(self) -> bool {
        self.ram_size.spec_bytes() >= 32 * 1024
    }

    /// ROM of 1M or more.
    pub open spec fn large_rom(self) -> bool {
        self.rom_size.spec_bytes() >= 1024 * 1024
    }

    pub open spec fn readable(self, addr: u16) -> bool {
        &&& self.wf()
        &&& addr <= 0x7FFF || (0xA000 <= addr <= 0xBFFF && (self.ram matches Some(r) && r.readable(addr)))
    }

    pub open spec fn read_at(self, addr: u16) -> u8 {
        if addr <= 0x7FFF {
            self.rom.read_at(addr)
        } else {
            self.ram->0.read_at(addr)
        }
    }

    /// A write is defined unless it would select a ROM bank that does not
    /// exist, or store to RAM that is enabled but absent or too small.
    pub open spec fn writable(self, addr: u16, value: u8) -> bool {
        let mbc1 = self.cartridge_type.spec_is_mbc1();
        &&& self.wf()
        &&& if 0x2000 <= addr <= 0x3FFF && mbc1 {
            rom_bank_select(value) < self.rom.num_banks
        } else if 0x4000 <= addr <= 0x5FFF && mbc1 {
            if self.ram_size == RamSize::_32K {
                true
            } else if self.large_rom() {
                if !self.banking_mode {
                    upper_bank_1(self.rom.bank1 as u16, value) < self.rom.num_banks
                } else {
                    advanced_bank_0(value) < self.rom.num_banks
                }
            } else {
                true
            }
        } else if 0xA000 <= addr <= 0xBFFF {
            self.ram_enable ==> (self.ram matches Some(r) && r.readable(addr))
        } else {
            true
        }
    }

    /// State after writing `value` at `addr`.
    pub open spec fn after_write(self, addr: u16, value: u8) -> ControllerView {
        let mbc1 = self.cartridge_type.spec_is_mbc1();
        if addr <= 0x1FFF && mbc1 {
            ControllerView { ram_enable: value & 0x0F == 0x0A, ..self }
        } else if 0x2000 <= addr <= 0x3FFF && mbc1 {
            ControllerView { rom: RomView { bank1: rom_bank_select(value) as nat, ..self.rom }, ..self }
        } else if 0x4000 <= addr <= 0x5FFF && mbc1 {
            let v = value & 3;
            let s = if self.ram_size == RamSize::_32K {
                ControllerView { ram: Some(self.ram->0.after_set_bank(v)), ..self }
            } else if self.large_rom() {
                if !self.banking_mode {
                    ControllerView {
                        rom: RomView { bank1: upper_bank_1(self.rom.bank1 as u16, v) as nat, ..self.rom },
                        ..self
                    }
                } else {
                    ControllerView { rom: RomView { bank0: advanced_bank_0(v) as nat, ..self.rom }, ..self }
                }
            } else {
                self
            };
            ControllerView { ram_rom_bank: v, ..s }
        } else if 0x6000 <= addr <= 0x7FFF && mbc1 {
            if !self.large_ram() && !self.large_rom() {
                self
            } else {
                let mode = value & 1 == 1;
                let s = if self.ram_enable && self.large_ram() && mode {
                    ControllerView { ram: Some(self.ram->0.after_set_bank(self.ram_rom_bank)), ..self }
                } else {
                    self
                };
                ControllerView { banking_mode: mode, ..s }
            }
        } else if 0xA000 <= addr <= 0xBFFF && self.ram_enable {
            ControllerView { ram: Some(self.ram->0.after_write(addr, value)), ..self }
        } else {
            self
        }
    }
}

/// A byte written to cartridge RAM reads back while RAM is enabled; while RAM
/// is disabled the write is dropped and the stored byte stays as it was.
pub proof fn lemma_cart_ram_write_read(c: ControllerView, addr: u16, v: u8)
    requires
        0xA000 <= addr <= 0xBFFF,
        c.readable(addr),
    ensures
        c.writable(addr, v),
        c.after_write(addr, v).readable(addr),
        c.ram_enable ==> c.after_write(addr, v).read_at(addr) == v,
        !c.ram_enable ==> c.after_write(addr, v).read_at(addr) == c.read_at(addr),
{
}

/// Cartridge ROM controller
pub struct Controller {
    /// ROM
    pub(crate) rom: Rom,
    /// RAM
    pub(crate) ram: Option<Ram>,
    /// ROM size
    rom_size: RomSize,
    /// RAM size
    ram_size: RamSize,
    /// Cartridge type
    cartridge_type: CartridgeType,
    /// Bank mode
    banking_mode: bool,
    /// RAM enable flag
    ram_enable: bool,
    /// RAM/ROM bank select register
    ram_rom_bank: u8,
}

impl View for Controller {
    type V = ControllerView;

    closed spec fn view(&self) -> ControllerView {
        ControllerView {
            rom: self.rom@,
            ram: match self.ram {
                Some(r) => Some(r@),
                None => None,
            },
            rom_size: self.rom_size,
            ram_size: self.ram_size,
            cartridge_type: self.cartridge_type,
            banking_mode: self.banking_mode,
            ram_enable: self.ram_enable,
            ram_rom_bank: self.ram_rom_bank,
        }
    }
}

/// What the header yields for building a controller: the first field that
/// fails, or the cartridge type and both sizes.
pub open spec fn spec_header(d: Seq<u8>) -> Result<(CartridgeType, RomSize, RamSize), Error> {
    match CartridgeType::spec_try_from_code(d[0x147]) {
        Err(e) => Err(e),
        Ok(t) => match RomSize::spec_try_from_code(d[0x148]) {
            Err(e) => Err(e),
            Ok(rs) => match RamSize::spec_try_from_code(d[0x149]) {
                Err(e) => Err(e),
                Ok(ms) => Ok((t, rs, ms)),
            },
        },
    }
}

impl Controller {
    pub open spec fn wf(&self) -> bool {
        self@.wf()
    }

    /// A blank MBC1 cartridge: erased 32K ROM and 8K RAM.
    pub fn new() -> (r: Self)
        ensures
            r.wf(),
            r@ == ControllerView::initial(
                RomView::initial(Seq::new(RomSize::_32K.spec_bytes(), |i: int| 0xFFu8), RomSize::_32K),
                CartridgeType::MBC1,
                RomSize::_32K,
                RamSize::_8K,
            ),
    {
        let rom_size = RomSize::_32K;
        let ram_size = RamSize::_8K;
        Self {
            rom: Rom::new(rom_size),
            ram: Ram::new(ram_size),
            rom_size,
            ram_size,
            cartridge_type: CartridgeType::MBC1,
            banking_mode: false,
            ram_enable: false,
            ram_rom_bank: 0,
        }
    }

    /// Create a controller from a cartridge whose image is as long as its
    /// header's ROM size says.
    pub fn from_cartridge(cartridge: Cartridge) -> (r: Result<Self, Error>)
        requires
            cartridge@.len() > 0x149,
            spec_header(cartridge@) matches Ok((_, rs, _)) ==> cartridge@.len() == rs.spec_bytes(),
        ensures
            match spec_header(cartridge@) {
                Ok((t, rs, ms)) => r matches Ok(c) && c.wf() && c@ == ControllerView::initial(
                    RomView::initial(cartridge@, rs),
                    t,
                    rs,
                    ms,
                ),
                Err(e) => r matches Err(e2) && e2 == e,
            },
    {
        let cartridge_type = cartridge.cartridge_type()?;
        let rom_size = cartridge.rom_size()?;
        let ram_size = cartridge.ram_size()?;
        let rom = Rom::from_bytes(cartridge.data.as_slice(), rom_size);
        let ram = Ram::new(ram_size);
        Ok(Self {
            rom,
            ram,
            rom_size,
            ram_size,
            cartridge_type,
            banking_mode: false,
            ram_enable: false,
            ram_rom_bank: 0,
        })
    }

    /// The cartridge ROM.
    pub fn rom(&self) -> (r: &Rom)
        ensures
            r@ == self@.rom,
    {
        &self.rom
    }

    /// The cartridge RAM, if there is any.
    pub fn ram(&self) -> (r: Option<&Ram>)
        ensures
            r is None <==> self@.ram is None,
            r matches Some(x) ==> self@.ram == Some(x@),
    {
        match &self.ram {
            Some(x) => Some(x),
            None => None,
        }
    }

    /// Whether cartridge RAM writes are enabled.
    pub fn ram_enabled(&self) -> (r: bool)
        ensures
            r == self@.ram_enable,
    {
        self.ram_enable
    }

    /// Whether advanced banking mode is selected.
    pub fn banking_mode(&self) -> (r: bool)
        ensures
            r == self@.banking_mode,
    {
        self.banking_mode
    }

    /// Load raw RAM data into this controller
    ///
    /// Fails, leaving the controller as it was, when the length is not that
    /// of a present RAM size (an empty blob included).
    pub fn load_ram(&mut self, data: &[u8]) -> (r: Result<(), Error>)
        requires
            old(self).wf(),
        ensures
            final(self).wf(),
            match RamSize::spec_try_from_blob(data@.len() as usize) {
                Ok(s) => r is Ok && final(self)@ == (ControllerView {
                    ram: Some(RamView { data: data@, active_bank: 0, num_banks: s.spec_banks(), size: s, dirty: false }),
                    ..old(self)@
                }),
                Err(e) => r == Err::<(), Error>(e) && final(self)@ == old(self)@,
            },
    {
        let ram = Ram::from_bytes(data)?;
        self.ram = Some(ram);
        Ok(())
    }

    /// Load ROM data, as long as the ROM's size, into this controller
    pub fn load_rom(&mut self, data: Vec<u8>)
        requires
            old(self).wf(),
            data@.len() == old(self)@.rom_size.spec_bytes(),
        ensures
            final(self).wf(),
            final(self)@ == (ControllerView { rom: RomView { data: data@, ..old(self)@.rom }, ..old(self)@ }),
    {
        self.rom.load(data);
    }

    /// Reset this controller: RAM goes back to all 0xFF; ROM, banks and
    /// control registers are kept.
    pub fn reset(&mut self)
        requires
            old(self).wf(),
        ensures
            final(self).wf(),
            final(self)@ == (ControllerView { ram: fresh_ram(old(self)@.ram_size), ..old(self)@ }),
    {
        self.ram = Ram::new(self.ram_size);
    }
}

impl MemoryRead<u16, u8> for Controller {
    open spec fn readable(&self, addr: u16) -> bool {
        self@.readable(addr)
    }

    open spec fn read_value(&self, addr: u16) -> u8 {
        self@.read_at(addr)
    }

    fn read(&self, addr: u16) -> (r: u8) {
        if addr <= Rom::LAST_ADDR {
            self.rom.read(addr)
        } else {
            match &self.ram {
                Some(ram) => ram.read(addr),
                // `readable` rules out reading absent RAM
                None => 0,
            }
        }
    }
}

impl MemoryWrite<u16, u8> for Controller {
    open spec fn writable(&self, addr: u16, value: u8) -> bool {
        self@.writable(addr, value)
    }

    open spec fn written(&self, after: &Self, addr: u16, value: u8) -> bool {
        after@ == self@.after_write(addr, value) && after.wf()
    }

    /// Writes to 0x0000-0x7FFF set MBC1 control registers; writes to
    /// 0xA000-0xBFFF store to RAM while it is enabled; the rest are ignored.
    fn write(&mut self, addr: u16, value: u8) {
        let mbc1 = self.cartridge_type.is_mbc1();
        if addr <= 0x1FFF && mbc1 {
            // Cartridge RAM enable/disable
            self.ram_enable = value & 0xF == 0xA;
        } else if 0x2000 <= addr && addr <= 0x3FFF && mbc1 {
            // MBC1 ROM bank select
            let value = value & 0x1F;
            let value = if value == 0 { 1 } else { value };
            self.rom.update_bank_1(value as u16);
        } else if 0x4000 <= addr && addr <= 0x5FFF && mbc1 {
            // MBC1 RAM bank select or upper 2 bits of ROM bank
            let v = value & 0x3;
            assert(v & 3 == v && v < 4) by (bit_vector)
                requires
                    v == value & 3,
            ;
            let value = v;
            if self.ram_size == RamSize::_32K {
                match &mut self.ram {
                    Some(ram) => ram.set_bank(value),
                    None => {},
                }
            } else if usize::from(self.rom_size) >= usize::from(RomSize::_1M) {
                if !self.banking_mode {
                    // Simple banking mode
                    let bank = self.rom.active_bank_1 | (value as u16) << 5u16;
                    self.rom.update_bank_1(bank);
                } else {
                    // Advanced banking mode
                    let bank0: u16 = if value == 0 {
                        0
                    } else if value == 1 {
                        0x20
                    } else if value == 2 {
                        0x40
                    } else {
                        0x60
                    };
                    self.rom.update_bank_0(bank0);
                }
            }
            self.ram_rom_bank = value;
        } else if 0x6000 <= addr && addr <= 0x7FFF && mbc1 {
            // MBC1 banking mode select
            let large_ram = usize::from(self.ram_size) >= usize::from(RamSize::_32K);
            let large_rom = usize::from(self.rom_size) >= usize::from(RomSize::_1M);
            if large_ram || large_rom {
                let banking_mode = value & 0x01 == 1;
                if self.ram_enable && large_ram && banking_mode {
                    // Large RAM, switch to previously selected bank immediately
                    let bank = self.ram_rom_bank;
                    match &mut self.ram {
                        Some(ram) => ram.set_bank(bank),
                        None => {},
                    }
                }
                self.banking_mode = banking_mode;
            }
        } else if Ram::BASE_ADDR <= addr && addr <= Ram::LAST_ADDR {
            if self.ram_enable {
                match &mut self.ram {
                    Some(ram) => ram.write(addr, value),
                    None => {},
                }
            }
        }
    }
}

} // verus!
