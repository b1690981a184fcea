use vstd::prelude::*;

verus! {

/// The four condition flags of the processor.
#[derive(Debug, Copy, Clone, PartialEq, Eq, Structural)]
pub enum CpuFlag {
    /// Zero: bit 7 of the flag byte.
    Z,
    /// Subtract: bit 6 of the flag byte.
    N,
    /// Half carry: bit 5 of the flag byte.
    H,
    /// Carry: bit 4 of the flag byte.
    C,
}

impl CpuFlag {
    /// The bit that the flag occupies in the flag byte.
    pub open spec fn spec_mask(self) -> u8 {
        match self {
            CpuFlag::Z => 0x80,
            CpuFlag::N => 0x40,
            CpuFlag::H => 0x20,
            CpuFlag::C => 0x10,
        }
    }

    #[verifier::when_used_as_spec(spec_mask)]
    pub fn mask(self) -> (m: u8)
        ensures
            m == self.spec_mask(),
    {
        match self {
            CpuFlag::Z => 0x80,
            CpuFlag::N => 0x40,
            CpuFlag::H => 0x20,
            CpuFlag::C => 0x10,
        }
    }
}

/// The names of the seven general 8-bit registers.
#[derive(Debug, Copy, Clone, PartialEq, Eq, Structural)]
pub enum RegisterName8 {
    A,
    B,
    C,
    D,
    E,
    H,
    L,
}

/// The names of the 16-bit registers and register pairs. `HLI` and `HLD`
/// read HL and then increment or decrement it.
#[derive(Debug, Copy, Clone, PartialEq, Eq, Structural)]
pub enum RegisterName16 {
    AF,
    BC,
    DE,
    HL,
    SP,
    PC,
    HLI,
    HLD,
}

/// The flag register, one `bool` per flag. The byte that programs see is
/// `raw()`; its low nibble is zero whatever the flags are.
#[derive(Debug, Copy, Clone, PartialEq, Eq, Structural)]
pub struct FlagRegister {
    pub z: bool,
    pub n: bool,
    pub h: bool,
    pub c: bool,
}

impl FlagRegister {
    /// The flag byte: Z in bit 7, N in bit 6, H in bit 5, C in bit 4.
    pub open spec fn raw(self) -> u8 {
        ((if self.z { 0x80int } else { 0 }) + (if self.n { 0x40int } else { 0 })
            + (if self.h { 0x20int } else { 0 }) + (if self.c { 0x10int } else { 0 })) as u8
    }

    /// The flags that a byte stands for; its low nibble is not looked at.
    pub open spec fn spec_from_raw(byte: u8) -> FlagRegister {
        FlagRegister {
            z: byte >= 0x80,
            n: (byte / 0x40) % 2 == 1,
            h: (byte / 0x20) % 2 == 1,
            c: (byte / 0x10) % 2 == 1,
        }
    }

    /// The value of one flag.
    pub open spec fn flag(self, cpu_flag: CpuFlag) -> bool {
        match cpu_flag {
            CpuFlag::Z => self.z,
            CpuFlag::N => self.n,
            CpuFlag::H => self.h,
            CpuFlag::C => self.c,
        }
    }

    /// The flags with one of them replaced.
    pub open spec fn with_flag(self, cpu_flag: CpuFlag, value: bool) -> FlagRegister {
        match cpu_flag {
            CpuFlag::Z => FlagRegister { z: value, ..self },
            CpuFlag::N => FlagRegister { n: value, ..self },
            CpuFlag::H => FlagRegister { h: value, ..self },
            CpuFlag::C => FlagRegister { c: value, ..self },
        }
    }

    /// All four flags cleared.
    pub open spec fn cleared() -> FlagRegister {
        FlagRegister { z: false, n: false, h: false, c: false }
    }

    pub fn new() -> (flags: FlagRegister)
        ensures
            flags == Self::cleared(),
    {
        FlagRegister { z: false, n: false, h: false, c: false }
    }

    pub fn get_raw(&self) -> (byte: u8)
        ensures
            byte == self.raw(),
            byte & 0x0F == 0,
            byte % 16 == 0,
    {
        let z: u8 = if self.z { 0x80 } else { 0 };
        let n: u8 = if self.n { 0x40 } else { 0 };
        let h: u8 = if self.h { 0x20 } else { 0 };
        let c: u8 = if self.c { 0x10 } else { 0 };
        let byte: u8 = z + n + h + c;
        proof {
            lemma_low_nibble(byte);
        }
        byte
    }

    pub fn from_raw(byte: u8) -> (flags: FlagRegister)
        ensures
            flags == Self::spec_from_raw(byte),
            flags.raw() == byte - byte % 16,
            flags.raw() == byte & 0xF0,
    {
        proof {
            lemma_high_nibble(byte);
        }
        FlagRegister {
            z: byte >= 0x80,
            n: (byte / 0x40) % 2 == 1,
            h: (byte / 0x20) % 2 == 1,
            c: (byte / 0x10) % 2 == 1,
        }
    }

    pub fn get_flag(&self, cpu_flag: CpuFlag) -> (value: bool)
        ensures
            value == self.flag(cpu_flag),
    {
        match cpu_flag {
            CpuFlag::Z => self.z,
            CpuFlag::N => self.n,
            CpuFlag::H => self.h,
            CpuFlag::C => self.c,
        }
    }

    pub fn set_flag(&mut self, cpu_flag: CpuFlag, value: bool)
        ensures
            *final(self) == old(self).with_flag(cpu_flag, value),
    {
        match cpu_flag {
            CpuFlag::Z => self.z = value,
            CpuFlag::N => self.n = value,
            CpuFlag::H => self.h = value,
            CpuFlag::C => self.c = value,
        }
    }

    pub fn reset_flags(&mut self)
        ensures
            *final(self) == Self::cleared(),
    {
        self.z = false;
        self.n = false;
        self.h = false;
        self.c = false;
    }
}

/// The low nibble of a byte in both notations.
pub proof fn lemma_low_nibble(byte: u8)
    ensures
        byte & 0x0F == byte % 16,
{
    assert(byte & 0x0F == byte % 16) by (bit_vector);
}

/// The high nibble of a byte in both notations.
pub proof fn lemma_high_nibble(byte: u8)
    ensures
        byte & 0xF0 == byte - byte % 16,
{
    assert(byte & 0xF0 == byte - byte % 16) by (bit_vector);
}

/// The flag byte always has a zero low nibble, and a byte written to the
/// flags reads back with its low nibble cleared.
pub proof fn lemma_flag_byte(flags: FlagRegister, byte: u8)
    ensures
        flags.raw() & 0x0F == 0,
        FlagRegister::spec_from_raw(byte).raw() & 0x0F == 0,
        FlagRegister::spec_from_raw(byte).raw() == byte & 0xF0,
        FlagRegister::spec_from_raw(flags.raw()) == flags,
{
    lemma_low_nibble(flags.raw());
    lemma_low_nibble(FlagRegister::spec_from_raw(byte).raw());
    lemma_high_nibble(byte);
}

/// The register file: eight 8-bit registers (the flags among them), the
/// stack pointer and the program counter.
#[derive(Debug, Copy, Clone, PartialEq, Eq, Structural)]
pub struct Registers {
    pub a: u8,
    pub flags: FlagRegister,
    pub b: u8,
    pub c: u8,
    pub d: u8,
    pub e: u8,
    pub h: u8,
    pub l: u8,
    pub sp: u16,
    pub pc: u16,
}

/// The 16-bit value of a register pair: `high` is the most significant byte.
pub open spec fn pair(high: u8, low: u8) -> u16 {
    (high * 256 + low) as u16
}

/// The most significant byte of a word.
pub open spec fn high_byte(w: u16) -> u8 {
    (w / 256) as u8
}

/// The least significant byte of a word.
pub open spec fn low_byte(w: u16) -> u8 {
    (w % 256) as u8
}

fn join(high: u8, low: u8) -> (w: u16)
    ensures
        w == pair(high, low),
{
    (high as u16) * 256 + (low as u16)
}

impl Registers {
    /// The register file as the boot sequence leaves it.
    pub open spec fn initial() -> Registers {
        Registers {
            a: 0x01,
            flags: FlagRegister { z: true, n: false, h: true, c: true },
            b: 0x00,
            c: 0x13,
            d: 0x00,
            e: 0xD8,
            h: 0x01,
            l: 0x4D,
            sp: 0xFFFE,
            pc: 0x0100,
        }
    }

    pub open spec fn af(self) -> u16 {
        pair(self.a, self.flags.raw())
    }

    pub open spec fn bc(self) -> u16 {
        pair(self.b, self.c)
    }

    pub open spec fn de(self) -> u16 {
        pair(self.d, self.e)
    }

    pub open spec fn hl(self) -> u16 {
        pair(self.h, self.l)
    }

    pub open spec fn with_bc(self, w: u16) -> Registers {
        Registers { b: high_byte(w), c: low_byte(w), ..self }
    }

    pub open spec fn with_de(self, w: u16) -> Registers {
        Registers { d: high_byte(w), e: low_byte(w), ..self }
    }

    pub open spec fn with_hl(self, w: u16) -> Registers {
        Registers { h: high_byte(w), l: low_byte(w), ..self }
    }

    /// A written to from the high byte of `w`, the flags from its low byte.
    pub open spec fn with_af(self, w: u16) -> Registers {
        Registers { a: high_byte(w), flags: FlagRegister::spec_from_raw(low_byte(w)), ..self }
    }

    /// The value of an 8-bit register.
    pub open spec fn reg(self, name: RegisterName8) -> u8 {
        match name {
            RegisterName8::A => self.a,
            RegisterName8::B => self.b,
            RegisterName8::C => self.c,
            RegisterName8::D => self.d,
            RegisterName8::E => self.e,
            RegisterName8::H => self.h,
            RegisterName8::L => self.l,
        }
    }

    /// The register file with one 8-bit register replaced.
    pub open spec fn with_reg(self, name: RegisterName8, value: u8) -> Registers {
        match name {
            RegisterName8::A => Registers { a: value, ..self },
            RegisterName8::B => Registers { b: value, ..self },
            RegisterName8::C => Registers { c: value, ..self },
            RegisterName8::D => Registers { d: value, ..self },
            RegisterName8::E => Registers { e: value, ..self },
            RegisterName8::H => Registers { h: value, ..self },
            RegisterName8::L => Registers { l: value, ..self },
        }
    }

    /// The value that reading a 16-bit register yields.
    pub open spec fn reg16(self, name: RegisterName16) -> u16 {
        match name {
            RegisterName16::AF => self.af(),
            RegisterName16::BC => self.bc(),
            RegisterName16::DE => self.de(),
            RegisterName16::HL => self.hl(),
            RegisterName16::HLI => self.hl(),
            RegisterName16::HLD => self.hl(),
            RegisterName16::SP => self.sp,
            RegisterName16::PC => self.pc,
        }
    }

    /// The register file after a 16-bit register was read: `HLI` and `HLD`
    /// step HL, the others change nothing.
    pub open spec fn after_read16(self, name: RegisterName16) -> Registers {
        match name {
            RegisterName16::HLI => self.with_hl(wrapping_inc16(self.hl())),
            RegisterName16::HLD => self.with_hl(wrapping_dec16(self.hl())),
            _ => self,
        }
    }

    /// The register file after a 16-bit register was written. Writing AF
    /// loads A alone; `HLI` and `HLD` cannot be written.
    pub open spec fn with_reg16(self, name: RegisterName16, value: u16) -> Registers {
        match name {
            RegisterName16::AF => Registers { a: high_byte(value), ..self },
            RegisterName16::BC => self.with_bc(value),
            RegisterName16::DE => self.with_de(value),
            RegisterName16::HL => self.with_hl(value),
            RegisterName16::SP => Registers { sp: value, ..self },
            RegisterName16::PC => Registers { pc: value, ..self },
            _ => self,
        }
    }

    pub fn new() -> (registers: Registers)
        ensures
            registers == Self::initial(),
    {
        Registers {
            a: 0x01,
            flags: FlagRegister { z: true, n: false, h: true, c: true },
            b: 0x00,
            c: 0x13,
            d: 0x00,
            e: 0xD8,
            h: 0x01,
            l: 0x4D,
            sp: 0xFFFE,
            pc: 0x0100,
        }
    }

    pub fn get(&self, name: RegisterName8) -> (value: u8)
        ensures
            value == self.reg(name),
    {
        match name {
            RegisterName8::A => self.a,
            RegisterName8::B => self.b,
            RegisterName8::C => self.c,
            RegisterName8::D => self.d,
            RegisterName8::E => self.e,
            RegisterName8::H => self.h,
            RegisterName8::L => self.l,
        }
    }

    pub fn get16(&mut self, name: RegisterName16) -> (value: u16)
        ensures
            value == old(self).reg16(name),
            *final(self) == old(self).after_read16(name),
    {
        match name {
            RegisterName16::AF => self.get_af(),
            RegisterName16::BC => self.get_bc(),
            RegisterName16::DE => self.get_de(),
            RegisterName16::HL => self.get_hl(),
            RegisterName16::HLI => self.get_hli(),
            RegisterName16::HLD => self.get_hld(),
            RegisterName16::SP => self.sp,
            RegisterName16::PC => self.pc,
        }
    }

    pub fn get_af(&self) -> (w: u16)
        ensures
            w == self.af(),
            w & 0x000F == 0,
    {
        let f: u8 = self.flags.get_raw();
        let w: u16 = join(self.a, f);
        assert(w & 0x000F == 0) by (bit_vector)
            requires
                w % 16 == 0,
        ;
        w
    }

    pub fn get_bc(&self) -> (w: u16)
        ensures
            w == self.bc(),
    {
        join(self.b, self.c)
    }

    pub fn get_de(&self) -> (w: u16)
        ensures
            w == self.de(),
    {
        join(self.d, self.e)
    }

    pub fn get_hl(&self) -> (w: u16)
        ensures
            w == self.hl(),
    {
        join(self.h, self.l)
    }

    /// Reads HL, then increments it with wrap-around.
    pub fn get_hli(&mut self) -> (w: u16)
        ensures
            w == old(self).hl(),
            *final(self) == old(self).with_hl(wrapping_inc16(old(self).hl())),
    {
        let hl: u16 = self.get_hl();
        self.set_hl(hl.wrapping_add(1));
        hl
    }

    /// Reads HL, then decrements it with wrap-around.
    pub fn get_hld(&mut self) -> (w: u16)
        ensures
            w == old(self).hl(),
            *final(self) == old(self).with_hl(wrapping_dec16(old(self).hl())),
    {
        let hl: u16 = self.get_hl();
        self.set_hl(hl.wrapping_sub(1));
        hl
    }

    pub fn set(&mut self, name: RegisterName8, value: u8)
        ensures
            *final(self) == old(self).with_reg(name, value),
    {
        match name {
            RegisterName8::A => self.a = value,
            RegisterName8::B => self.b = value,
            RegisterName8::C => self.c = value,
            RegisterName8::D => self.d = value,
            RegisterName8::E => self.e = value,
            RegisterName8::H => self.h = value,
            RegisterName8::L => self.l = value,
        }
    }

    pub fn set16(&mut self, name: RegisterName16, value: u16)
        requires
            name != RegisterName16::HLI,
            name != RegisterName16::HLD,
        ensures
            *final(self) == old(self).with_reg16(name, value),
    {
        match name {
            RegisterName16::AF => self.set_af(value),
            RegisterName16::BC => self.set_bc(value),
            RegisterName16::DE => self.set_de(value),
            RegisterName16::HL => self.set_hl(value),
            RegisterName16::SP => self.sp = value,
            RegisterName16::PC => self.pc = value,
            _ => {},
        }
    }

    /// Loads A from the high byte of `w`. The flags are not written: they
    /// change through `set_flag`, `reset_flags` and `set_f` only.
    pub fn set_af(&mut self, w: u16)
        ensures
            *final(self) == (Registers { a: high_byte(w), ..*old(self) }),
    {
        self.a = (w / 256) as u8;
    }

    /// Writes the flag byte; the low nibble of `byte` is dropped.
    pub fn set_f(&mut self, byte: u8)
        ensures
            *final(self) == (Registers { flags: FlagRegister::spec_from_raw(byte), ..*old(self) }),
            final(self).flags.raw() == byte & 0xF0,
            final(self).flags.raw() & 0x0F == 0,
    {
        self.flags = FlagRegister::from_raw(byte);
        proof {
            lemma_flag_byte(self.flags, byte);
        }
    }

    pub fn set_bc(&mut self, w: u16)
        ensures
            *final(self) == old(self).with_bc(w),
    {
        self.b = (w / 256) as u8;
        self.c = (w % 256) as u8;
    }

    pub fn set_de(&mut self, w: u16)
        ensures
            *final(self) == old(self).with_de(w),
    {
        self.d = (w / 256) as u8;
        self.e = (w % 256) as u8;
    }

    pub fn set_hl(&mut self, w: u16)
        ensures
            *final(self) == old(self).with_hl(w),
    {
        self.h = (w / 256) as u8;
        self.l = (w % 256) as u8;
    }

    pub fn get_flag(&self, cpu_flag: CpuFlag) -> (value: bool)
        ensures
            value == self.flags.flag(cpu_flag),
    {
        self.flags.get_flag(cpu_flag)
    }

    pub fn set_flag(&mut self, cpu_flag: CpuFlag, value: bool)
        ensures
            *final(self) == (Registers {
                flags: old(self).flags.with_flag(cpu_flag, value),
                ..*old(self)
            }),
    {
        self.flags.set_flag(cpu_flag, value);
    }

    /// Clears all four flags at once.
    pub fn reset_flags(&mut self)
        ensures
            *final(self) == (Registers { flags: FlagRegister::cleared(), ..*old(self) }),
    {
        self.flags.reset_flags();
    }
}

/// `w + 1` modulo 2^16.
pub open spec fn wrapping_inc16(w: u16) -> u16 {
    if w == 0xFFFF {
        0
    } else {
        (w + 1) as u16
    }
}

/// `w - 1` modulo 2^16.
pub open spec fn wrapping_dec16(w: u16) -> u16 {
    if w == 0 {
        0xFFFF
    } else {
        (w - 1) as u16
    }
}

/// A register pair that was written reads back unchanged.
pub proof fn lemma_pair_round_trip(registers: Registers, w: u16)
    ensures
        registers.with_bc(w).bc() == w,
        registers.with_de(w).de() == w,
        registers.with_hl(w).hl() == w,
        pair(high_byte(w), low_byte(w)) == w,
{
}

/// The two bytes of a pair are what the pair was made of.
pub proof fn lemma_pair_bytes(high: u8, low: u8)
    ensures
        high_byte(pair(high, low)) == high,
        low_byte(pair(high, low)) == low,
{
}

/// AF reads back as it was written, less the low nibble.
pub proof fn lemma_af_round_trip(registers: Registers, w: u16)
    ensures
        registers.with_af(w).af() == w - w % 16,
        registers.with_af(w).af() == w & 0xFFF0,
        registers.with_af(registers.af()) == registers,
{
    let f = low_byte(w);
    lemma_flag_byte(registers.flags, f);
    lemma_high_nibble(f);
    assert(w & 0xFFF0 == w - w % 16) by (bit_vector);
}

} // verus!
