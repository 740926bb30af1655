use vstd::prelude::*;

verus! {

/// 8 bit register names
#[derive(Clone, Copy, Debug, PartialEq, Eq, Structural)]
pub enum Reg8 {
    A,
    F,
    B,
    C,
    D,
    E,
    H,
    L,
}

impl Reg8 {
    /// Register name.
    pub fn name(&self) -> (r: &'static str)
        ensures
            r@ == match *self {
                Reg8::A => "A"@,
                Reg8::F => "F"@,
                Reg8::B => "B"@,
                Reg8::C => "C"@,
                Reg8::D => "D"@,
                Reg8::E => "E"@,
                Reg8::H => "H"@,
                Reg8::L => "L"@,
            },
    {
        match self {
            Reg8::A => "A",
            Reg8::F => "F",
            Reg8::B => "B",
            Reg8::C => "C",
            Reg8::D => "D",
            Reg8::E => "E",
            Reg8::H => "H",
            Reg8::L => "L",
        }
    }
}

/// 16 bit register names
#[derive(Clone, Copy, Debug, PartialEq, Eq, Structural)]
pub enum Reg16 {
    AF,
    BC,
    DE,
    HL,
    PC,
    SP,
}

impl Reg16 {
    /// Register name.
    pub fn name(&self) -> (r: &'static str)
        ensures
            r@ == match *self {
                Reg16::AF => "AF"@,
                Reg16::BC => "BC"@,
                Reg16::DE => "DE"@,
                Reg16::HL => "HL"@,
                Reg16::PC => "PC"@,
                Reg16::SP => "SP"@,
            },
    {
        match self {
            Reg16::AF => "AF",
            Reg16::BC => "BC",
            Reg16::DE => "DE",
            Reg16::HL => "HL",
            Reg16::PC => "PC",
            Reg16::SP => "SP",
        }
    }
}

/// Basic register operations
pub trait RegisterOps<R, V> {
    /// The value held by `reg`.
    spec fn reg_value(&self, reg: R) -> V;

    /// Whether `after` is the state that writing `value` to `reg` leaves.
    spec fn reg_written(&self, after: &Self, reg: R, value: V) -> bool;

    fn read(&self, reg: R) -> (r: V)
        ensures
            r == self.reg_value(reg),
    ;

    fn write(&mut self, reg: R, value: V)
        ensures
            old(self).reg_written(final(self), reg, value),
    ;
}

/// Flags of the F register
#[derive(Clone, Copy, PartialEq, Eq, Structural)]
pub enum Flag {
    Zero,
    Subtract,
    HalfCarry,
    Carry,
}

impl Flag {
    pub open spec fn spec_bit(self) -> u8 {
        match self {
            Flag::Zero => 7,
            Flag::Subtract => 6,
            Flag::HalfCarry => 5,
            Flag::Carry => 4,
        }
    }

    /// Bit position of this flag in F.
    pub fn bit(&self) -> (r: u8)
        ensures
            r == self.spec_bit(),
    {
        match self {
            Flag::Zero => 7,
            Flag::Subtract => 6,
            Flag::HalfCarry => 5,
            Flag::Carry => 4,
        }
    }
}

/// Abstract state of the register file.
pub struct RegistersView {
    pub a: u8,
    pub f: u8,
    pub b: u8,
    pub c: u8,
    pub d: u8,
    pub e: u8,
    pub h: u8,
    pub l: u8,
    pub pc: u16,
    pub sp: u16,
}

/// Register pair value of a high and a low byte.
pub open spec fn pair(hi: u8, lo: u8) -> u16 {
    (hi * 256 + lo) as u16
}

/// High byte of a 16-bit value.
pub open spec fn high(v: u16) -> u8 {
    (v / 256) as u8
}

/// Low byte of a 16-bit value.
pub open spec fn low(v: u16) -> u8 {
    (v % 256) as u8
}

/// Whether bit `bit` of `f` is set.
pub open spec fn flag_set(f: u8, bit: u8) -> bool {
    (f >> bit) & 1 == 1
}

#[allow(non_snake_case)]
#[derive(Default)]
pub struct Registers {
    A: u8,
    F: u8,
    B: u8,
    C: u8,
    D: u8,
    E: u8,
    H: u8,
    L: u8,
    pub PC: u16,
    pub SP: u16,
}

impl View for Registers {
    type V = RegistersView;

    closed spec fn view(&self) -> RegistersView {
        RegistersView {
            a: self.A,
            f: self.F,
            b: self.B,
            c: self.C,
            d: self.D,
            e: self.E,
            h: self.H,
            l: self.L,
            pc: self.PC,
            sp: self.SP,
        }
    }
}

proof fn lemma_pair_bits(hi: u8, lo: u8)
    ensures
        ((hi as u16) << 8u16) | (lo as u16) == pair(hi, lo),
{
    assert(((hi as u16) << 8u16) | (lo as u16) == (hi as u16) * 256 + (lo as u16)) by (bit_vector);
}

proof fn lemma_split_bits(v: u16)
    ensures
        (v >> 8u16) as u8 == high(v),
        v as u8 == low(v),
        pair(high(v), low(v)) == v,
{
    assert((v >> 8u16) as u8 == v / 256) by (bit_vector);
    assert(v as u8 == v % 256) by (bit_vector);
}

proof fn lemma_flag_mask(f: u8, bit: u8, mask: u8)
    requires
        4 <= bit <= 7,
        mask == 1u8 << bit,
    ensures
        flag_set(f | mask, bit),
        !flag_set(f & !mask, bit),
        forall|k: u8| 4 <= k <= 7 && k != bit ==> (flag_set(f | mask, k) == flag_set(f, k) && flag_set(f & !mask, k) == flag_set(f, k)),
{
    assert(flag_set(f | mask, bit)) by (bit_vector)
        requires
            4 <= bit <= 7,
            mask == 1u8 << bit,
    ;
    assert(!flag_set(f & !mask, bit)) by (bit_vector)
        requires
            4 <= bit <= 7,
            mask == 1u8 << bit,
    ;
    assert forall|k: u8| 4 <= k <= 7 && k != bit implies (flag_set(f | mask, k) == flag_set(f, k) && flag_set(
        f & !mask,
        k,
    ) == flag_set(f, k)) by {
        assert(flag_set(f | mask, k) == flag_set(f, k) && flag_set(f & !mask, k) == flag_set(f, k)) by (bit_vector)
            requires
                4 <= bit <= 7,
                4 <= k <= 7,
                k != bit,
                mask == 1u8 << bit,
        ;
    }
}

impl Registers {
    const ZERO_MASK: u8 = 0x80;
    const SUBTRACT_MASK: u8 = 0x40;
    const HALF_CARRY_MASK: u8 = 0x20;
    const CARRY_MASK: u8 = 0x10;

    /// All registers zero.
    pub fn empty() -> (r: Self)
        ensures
            r@ == (RegistersView { a: 0, f: 0, b: 0, c: 0, d: 0, e: 0, h: 0, l: 0, pc: 0, sp: 0 }),
    {
        Self { A: 0, F: 0, B: 0, C: 0, D: 0, E: 0, H: 0, L: 0, PC: 0, SP: 0 }
    }

    /// Registers as left by the boot ROM.
    pub fn new() -> (r: Self)
        ensures
            r@ == (RegistersView {
                a: 0x01,
                f: 0xB0,
                b: 0x00,
                c: 0x13,
                d: 0x00,
                e: 0xD8,
                h: 0x01,
                l: 0x41,
                pc: 0x0100,
                sp: 0xFFFE,
            }),
    {
        Self { A: 0x01, F: 0xB0, B: 0x00, C: 0x13, D: 0x00, E: 0xD8, H: 0x01, L: 0x41, PC: 0x0100, SP: 0xFFFE }
    }

    /// Set or clear a flag; the other bits of F are kept.
    pub fn set(&mut self, flag: Flag, value: bool)
        ensures
            final(self)@ == (RegistersView {
                f: if value {
                    old(self)@.f | (1u8 << flag.spec_bit())
                } else {
                    old(self)@.f & !(1u8 << flag.spec_bit())
                },
                ..old(self)@
            }),
            flag_set(final(self)@.f, flag.spec_bit()) == value,
            forall|k: u8|
                4 <= k <= 7 && k != flag.spec_bit() ==> flag_set(final(self)@.f, k) == flag_set(old(self)@.f, k),
    {
        let mask: u8 = 1u8 << flag.bit();
        proof {
            lemma_flag_mask(self.F, flag.spec_bit(), mask);
        }
        if value {
            self.F = self.F | mask;
        } else {
            self.F = self.F & !mask;
        }
    }

    /// Clear a flag; the other bits of F are kept.
    pub fn clear(&mut self, flag: Flag)
        ensures
            final(self)@ == (RegistersView { f: old(self)@.f & !(1u8 << flag.spec_bit()), ..old(self)@ }),
            !flag_set(final(self)@.f, flag.spec_bit()),
            forall|k: u8|
                4 <= k <= 7 && k != flag.spec_bit() ==> flag_set(final(self)@.f, k) == flag_set(old(self)@.f, k),
    {
        let mask: u8 = 1u8 << flag.bit();
        proof {
            lemma_flag_mask(self.F, flag.spec_bit(), mask);
        }
        self.F = self.F & !mask;
    }

    pub fn flags(&self) -> (r: u8)
        ensures
            r == self@.f,
    {
        self.F
    }

    pub fn zero(&self) -> (r: bool)
        ensures
            r == flag_set(self@.f, 7),
    {
        let f = self.F;
        assert((f & 0x80 != 0) == ((f >> 7u8) & 1 == 1)) by (bit_vector);
        (self.F & Self::ZERO_MASK) != 0
    }

    pub fn subtract(&self) -> (r: bool)
        ensures
            r == flag_set(self@.f, 6),
    {
        let f = self.F;
        assert((f & 0x40 != 0) == ((f >> 6u8) & 1 == 1)) by (bit_vector);
        (self.F & Self::SUBTRACT_MASK) != 0
    }

    pub fn half_carry(&self) -> (r: bool)
        ensures
            r == flag_set(self@.f, 5),
    {
        let f = self.F;
        assert((f & 0x20 != 0) == ((f >> 5u8) & 1 == 1)) by (bit_vector);
        (self.F & Self::HALF_CARRY_MASK) != 0
    }

    pub fn carry(&self) -> (r: bool)
        ensures
            r == flag_set(self@.f, 4),
    {
        let f = self.F;
        assert((f & 0x10 != 0) == ((f >> 4u8) & 1 == 1)) by (bit_vector);
        (self.F & Self::CARRY_MASK) != 0
    }
}

impl RegisterOps<Reg8, u8> for Registers {
    open spec fn reg_value(&self, reg: Reg8) -> u8 {
        match reg {
            Reg8::A => self@.a,
            Reg8::F => self@.f,
            Reg8::B => self@.b,
            Reg8::C => self@.c,
            Reg8::D => self@.d,
            Reg8::E => self@.e,
            Reg8::H => self@.h,
            Reg8::L => self@.l,
        }
    }

    /// The low four bits of F always read as zero.
    open spec fn reg_written(&self, after: &Self, reg: Reg8, value: u8) -> bool {
        after@ == match reg {
            Reg8::A => RegistersView { a: value, ..self@ },
            Reg8::F => RegistersView { f: value & 0xF0, ..self@ },
            Reg8::B => RegistersView { b: value, ..self@ },
            Reg8::C => RegistersView { c: value, ..self@ },
            Reg8::D => RegistersView { d: value, ..self@ },
            Reg8::E => RegistersView { e: value, ..self@ },
            Reg8::H => RegistersView { h: value, ..self@ },
            Reg8::L => RegistersView { l: value, ..self@ },
        }
    }

    fn read(&self, reg: Reg8) -> (r: u8) {
        match reg {
            Reg8::A => self.A,
            Reg8::F => self.F,
            Reg8::B => self.B,
            Reg8::C => self.C,
            Reg8::D => self.D,
            Reg8::E => self.E,
            Reg8::H => self.H,
            Reg8::L => self.L,
        }
    }

    fn write(&mut self, reg: Reg8, value: u8) {
        match reg {
            Reg8::A => self.A = value,
            Reg8::F => self.F = value & 0xF0,
            Reg8::B => self.B = value,
            Reg8::C => self.C = value,
            Reg8::D => self.D = value,
            Reg8::E => self.E = value,
            Reg8::H => self.H = value,
            Reg8::L => self.L = value,
        }
    }
}

impl RegisterOps<Reg16, u16> for Registers {
    open spec fn reg_value(&self, reg: Reg16) -> u16 {
        match reg {
            Reg16::AF => pair(self@.a, self@.f),
            Reg16::BC => pair(self@.b, self@.c),
            Reg16::DE => pair(self@.d, self@.e),
            Reg16::HL => pair(self@.h, self@.l),
            Reg16::PC => self@.pc,
            Reg16::SP => self@.sp,
        }
    }

    /// A pair takes the high byte first; the low four bits of F stay zero.
    open spec fn reg_written(&self, after: &Self, reg: Reg16, value: u16) -> bool {
        after@ == match reg {
            Reg16::AF => RegistersView { a: high(value), f: low(value) & 0xF0, ..self@ },
            Reg16::BC => RegistersView { b: high(value), c: low(value), ..self@ },
            Reg16::DE => RegistersView { d: high(value), e: low(value), ..self@ },
            Reg16::HL => RegistersView { h: high(value), l: low(value), ..self@ },
            Reg16::PC => RegistersView { pc: value, ..self@ },
            Reg16::SP => RegistersView { sp: value, ..self@ },
        }
    }

    fn read(&self, reg: Reg16) -> (r: u16) {
        proof {
            lemma_pair_bits(self.A, self.F);
            lemma_pair_bits(self.B, self.C);
            lemma_pair_bits(self.D, self.E);
            lemma_pair_bits(self.H, self.L);
        }
        match reg {
            Reg16::AF => (self.A as u16) << 8u16 | self.F as u16,
            Reg16::BC => (self.B as u16) << 8u16 | self.C as u16,
            Reg16::DE => (self.D as u16) << 8u16 | self.E as u16,
            Reg16::HL => (self.H as u16) << 8u16 | self.L as u16,
            Reg16::PC => self.PC,
            Reg16::SP => self.SP,
        }
    }

    fn write(&mut self, reg: Reg16, value: u16) {
        proof {
            lemma_split_bits(value);
        }
        match reg {
            Reg16::AF => {
                self.A = (value >> 8u16) as u8;
                self.F = value as u8 & 0xF0;
            },
            Reg16::BC => {
                self.B = (value >> 8u16) as u8;
                self.C = value as u8;
            },
            Reg16::DE => {
                self.D = (value >> 8u16) as u8;
                self.E = value as u8;
            },
            Reg16::HL => {
                self.H = (value >> 8u16) as u8;
                self.L = value as u8;
            },
            Reg16::PC => self.PC = value,
            Reg16::SP => self.SP = value,
        }
    }
}

} // verus!
