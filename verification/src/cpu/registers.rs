use crate::cpu::ExecutionMode;
use vstd::prelude::*;

verus! {

/// One of the seven 8-bit general purpose CPU registers.
#[derive(Debug, Clone, Copy, PartialEq, Eq, Structural)]
pub enum CpuRegister {
    A,
    B,
    C,
    D,
    E,
    H,
    L,
}

/// The register named by a 3-bit register code (`110` names no register).
pub open spec fn register_from_code(code: u8) -> Option<CpuRegister> {
    if code == 0 {
        Some(CpuRegister::B)
    } else if code == 1 {
        Some(CpuRegister::C)
    } else if code == 2 {
        Some(CpuRegister::D)
    } else if code == 3 {
        Some(CpuRegister::E)
    } else if code == 4 {
        Some(CpuRegister::H)
    } else if code == 5 {
        Some(CpuRegister::L)
    } else if code == 7 {
        Some(CpuRegister::A)
    } else {
        None
    }
}

impl CpuRegister {
    /// Parses a CPU register out of bits 3-5 in the given byte.
    ///
    /// Returns None if those bits are 110 which is not a valid register code.
    pub fn from_mid_opcode_bits(bits: u8) -> (r: Option<Self>)
        ensures
            r == register_from_code(((bits & 0x38) >> 3) as u8),
    {
        let masked = bits & 0x38;
        assert(masked == 0x00 || masked == 0x08 || masked == 0x10 || masked == 0x18 || masked
            == 0x20 || masked == 0x28 || masked == 0x30 || masked == 0x38) by (bit_vector)
            requires
                masked == bits & 0x38,
        ;
        assert(masked >> 3 == masked / 8) by (bit_vector);
        match masked {
            0x00 => Some(Self::B),
            0x08 => Some(Self::C),
            0x10 => Some(Self::D),
            0x18 => Some(Self::E),
            0x20 => Some(Self::H),
            0x28 => Some(Self::L),
            0x38 => Some(Self::A),
            _ => None,
        }
    }

    /// Parses a CPU register out of bits 0-2 in the given byte.
    ///
    /// Returns None if those bits are 110 which is not a valid register code.
    pub fn from_low_opcode_bits(bits: u8) -> (r: Option<Self>)
        ensures
            r == register_from_code(bits & 0x07),
    {
        let masked = bits & 0x07;
        assert(masked <= 7) by (bit_vector)
            requires
                masked == bits & 0x07,
        ;
        match masked {
            0x00 => Some(Self::B),
            0x01 => Some(Self::C),
            0x02 => Some(Self::D),
            0x03 => Some(Self::E),
            0x04 => Some(Self::H),
            0x05 => Some(Self::L),
            0x07 => Some(Self::A),
            _ => None,
        }
    }
}

/// A pair of 8-bit registers read or written as one 16-bit value, or the stack pointer.
#[derive(Debug, Clone, Copy, PartialEq, Eq, Structural)]
pub enum CpuRegisterPair {
    AF,
    BC,
    DE,
    HL,
    SP,
}

/// The zero flag (bit 7 of F).
#[derive(Debug, Clone, Copy, PartialEq, Eq, Structural)]
pub struct ZFlag(pub bool);

/// The subtraction flag (bit 6 of F).
#[derive(Debug, Clone, Copy, PartialEq, Eq, Structural)]
pub struct NFlag(pub bool);

/// The half-carry flag (bit 5 of F).
#[derive(Debug, Clone, Copy, PartialEq, Eq, Structural)]
pub struct HFlag(pub bool);

/// The carry flag (bit 4 of F).
#[derive(Debug, Clone, Copy, PartialEq, Eq, Structural)]
pub struct CFlag(pub bool);

pub const Z_FLAG_BIT: u8 = 0x80;

pub const N_FLAG_BIT: u8 = 0x40;

pub const H_FLAG_BIT: u8 = 0x20;

pub const C_FLAG_BIT: u8 = 0x10;

/// The F register byte with all four flags given and the unused low nibble clear.
pub open spec fn flags_byte(z: bool, n: bool, h: bool, c: bool) -> u8 {
    ((if z { 0x80u8 } else { 0u8 }) | (if n { 0x40u8 } else { 0u8 }) | (if h { 0x20u8 } else { 0u8 })
        | (if c { 0x10u8 } else { 0u8 }))
}

/// The F register after one flag update: `Some(true)` sets the bit, `Some(false)` clears it and
/// `None` leaves it as it was.
pub open spec fn apply_flag(flags: u8, bit: u8, value: Option<bool>) -> u8 {
    match value {
        Some(true) => flags | bit,
        Some(false) => flags & !bit,
        None => flags,
    }
}

/// The F register after `set_some_flags`.
pub open spec fn flags_after_update(
    flags: u8,
    z: Option<ZFlag>,
    n: Option<NFlag>,
    h: Option<HFlag>,
    c: Option<CFlag>,
) -> u8 {
    let f = apply_flag(
        flags,
        0x80,
        match z {
            Some(ZFlag(b)) => Some(b),
            None => None,
        },
    );
    let f = apply_flag(
        f,
        0x40,
        match n {
            Some(NFlag(b)) => Some(b),
            None => None,
        },
    );
    let f = apply_flag(
        f,
        0x20,
        match h {
            Some(HFlag(b)) => Some(b),
            None => None,
        },
    );
    apply_flag(
        f,
        0x10,
        match c {
            Some(CFlag(b)) => Some(b),
            None => None,
        },
    )
}

fn z_bit(flag: ZFlag) -> (r: u8)
    ensures
        r == (if flag.0 { 0x80u8 } else { 0u8 }),
{
    if flag.0 {
        Z_FLAG_BIT
    } else {
        0
    }
}

fn n_bit(flag: NFlag) -> (r: u8)
    ensures
        r == (if flag.0 { 0x40u8 } else { 0u8 }),
{
    if flag.0 {
        N_FLAG_BIT
    } else {
        0
    }
}

fn h_bit(flag: HFlag) -> (r: u8)
    ensures
        r == (if flag.0 { 0x20u8 } else { 0u8 }),
{
    if flag.0 {
        H_FLAG_BIT
    } else {
        0
    }
}

fn c_bit(flag: CFlag) -> (r: u8)
    ensures
        r == (if flag.0 { 0x10u8 } else { 0u8 }),
{
    if flag.0 {
        C_FLAG_BIT
    } else {
        0
    }
}

/// Game Boy Color CPU speed.
#[derive(Debug, Clone, Copy, PartialEq, Eq, Structural)]
pub enum CgbSpeedMode {
    Normal,
    Double,
}

impl CgbSpeedMode {
    /// The other speed mode.
    pub fn toggle(self) -> (r: Self)
        ensures
            r == (match self {
                CgbSpeedMode::Normal => CgbSpeedMode::Double,
                CgbSpeedMode::Double => CgbSpeedMode::Normal,
            }),
    {
        match self {
            Self::Normal => Self::Double,
            Self::Double => Self::Normal,
        }
    }
}

/// The 16-bit value whose high byte is `hi` and low byte is `lo`.
pub open spec fn u16_from_bytes(hi: u8, lo: u8) -> u16 {
    (hi as int * 256 + lo as int) as u16
}

/// The high byte of a 16-bit value.
pub open spec fn high_byte(v: u16) -> u8 {
    (v / 256) as u8
}

/// The low byte of a 16-bit value.
pub open spec fn low_byte(v: u16) -> u8 {
    (v % 256) as u8
}

pub fn bytes_to_u16(hi: u8, lo: u8) -> (r: u16)
    ensures
        r == u16_from_bytes(hi, lo),
{
    (hi as u16) * 256 + (lo as u16)
}

pub fn u16_high_byte(v: u16) -> (r: u8)
    ensures
        r == high_byte(v),
{
    (v / 256) as u8
}

pub fn u16_low_byte(v: u16) -> (r: u8)
    ensures
        r == low_byte(v),
{
    (v % 256) as u8
}

/// Splitting a 16-bit value into its high and low bytes and joining them again gives the value
/// back: a register pair reads back what was written to it.
pub proof fn law_register_pair_bytes_roundtrip(v: u16)
    ensures
        u16_from_bytes(high_byte(v), low_byte(v)) == v,
{
}

/// The CPU's register file plus the CPU state flags that instructions and interrupts act on.
#[derive(Debug, Clone, PartialEq, Eq, Structural)]
pub struct CpuRegisters {
    pub accumulator: u8,
    pub flags: u8,
    pub b: u8,
    pub c: u8,
    pub d: u8,
    pub e: u8,
    pub h: u8,
    pub l: u8,
    pub sp: u16,
    pub pc: u16,
    pub ime: bool,
    // Tracks whether the previous instruction was EI
    pub interrupt_delay: bool,
    pub halted: bool,
    pub halt_bug_triggered: bool,
    pub execution_mode: ExecutionMode,
    pub cgb_speed_mode: CgbSpeedMode,
    pub speed_switch_wait_cycles_remaining: Option<u32>,
}

impl CpuRegisters {
    pub open spec fn spec_af(self) -> u16 {
        u16_from_bytes(self.accumulator, self.flags)
    }

    pub open spec fn spec_bc(self) -> u16 {
        u16_from_bytes(self.b, self.c)
    }

    pub open spec fn spec_de(self) -> u16 {
        u16_from_bytes(self.d, self.e)
    }

    pub open spec fn spec_hl(self) -> u16 {
        u16_from_bytes(self.h, self.l)
    }

    pub open spec fn spec_z(self) -> bool {
        self.flags & 0x80 != 0
    }

    pub open spec fn spec_n(self) -> bool {
        self.flags & 0x40 != 0
    }

    pub open spec fn spec_h(self) -> bool {
        self.flags & 0x20 != 0
    }

    pub open spec fn spec_c(self) -> bool {
        self.flags & 0x10 != 0
    }

    /// The value of an 8-bit register.
    pub open spec fn register_value(self, register: CpuRegister) -> u8 {
        match register {
            CpuRegister::A => self.accumulator,
            CpuRegister::B => self.b,
            CpuRegister::C => self.c,
            CpuRegister::D => self.d,
            CpuRegister::E => self.e,
            CpuRegister::H => self.h,
            CpuRegister::L => self.l,
        }
    }

    /// These registers with one 8-bit register replaced.
    pub open spec fn with_register(self, register: CpuRegister, value: u8) -> CpuRegisters {
        match register {
            CpuRegister::A => CpuRegisters { accumulator: value, ..self },
            CpuRegister::B => CpuRegisters { b: value, ..self },
            CpuRegister::C => CpuRegisters { c: value, ..self },
            CpuRegister::D => CpuRegisters { d: value, ..self },
            CpuRegister::E => CpuRegisters { e: value, ..self },
            CpuRegister::H => CpuRegisters { h: value, ..self },
            CpuRegister::L => CpuRegisters { l: value, ..self },
        }
    }

    /// These registers with H and L replaced by the bytes of `hl`.
    pub open spec fn with_hl(self, hl: u16) -> CpuRegisters {
        CpuRegisters { h: high_byte(hl), l: low_byte(hl), ..self }
    }

    /// The value of a register pair.
    pub open spec fn pair_value(self, pair: CpuRegisterPair) -> u16 {
        match pair {
            CpuRegisterPair::AF => self.spec_af(),
            CpuRegisterPair::BC => self.spec_bc(),
            CpuRegisterPair::DE => self.spec_de(),
            CpuRegisterPair::HL => self.spec_hl(),
            CpuRegisterPair::SP => self.sp,
        }
    }

    /// These registers with a register pair replaced; the low nibble of F always reads as zero.
    pub open spec fn with_pair(self, pair: CpuRegisterPair, value: u16) -> CpuRegisters {
        match pair {
            CpuRegisterPair::AF => CpuRegisters {
                accumulator: high_byte(value),
                flags: low_byte(value) & 0xF0,
                ..self
            },
            CpuRegisterPair::BC => CpuRegisters { b: high_byte(value), c: low_byte(value), ..self },
            CpuRegisterPair::DE => CpuRegisters { d: high_byte(value), e: low_byte(value), ..self },
            CpuRegisterPair::HL => self.with_hl(value),
            CpuRegisterPair::SP => CpuRegisters { sp: value, ..self },
        }
    }

    /// These registers with F replaced by a byte holding exactly the four given flags.
    pub open spec fn with_flags(self, z: bool, n: bool, h: bool, c: bool) -> CpuRegisters {
        CpuRegisters { flags: flags_byte(z, n, h, c), ..self }
    }

    /// These registers after `set_some_flags`.
    pub open spec fn with_some_flags(
        self,
        z: Option<ZFlag>,
        n: Option<NFlag>,
        h: Option<HFlag>,
        c: Option<CFlag>,
    ) -> CpuRegisters {
        CpuRegisters { flags: flags_after_update(self.flags, z, n, h, c), ..self }
    }

    /// The register values at power-on, as left behind by the boot ROM.
    pub open spec fn power_on(execution_mode: ExecutionMode) -> CpuRegisters {
        CpuRegisters {
            accumulator: 0x01,
            flags: 0x00,
            b: 0x00,
            c: 0x13,
            d: 0x00,
            e: 0xD8,
            h: 0x01,
            l: 0x4D,
            sp: 0xFFFE,
            pc: 0x0100,
            ime: false,
            interrupt_delay: false,
            halted: false,
            halt_bug_triggered: false,
            execution_mode,
            cgb_speed_mode: CgbSpeedMode::Normal,
            speed_switch_wait_cycles_remaining: None,
        }
    }

    /// Creates a new `CpuRegisters` value with all fields initialized to reasonable values.
    ///
    /// In particular, the program counter is initialized to 0x0100 (entry point in cartridge ROM),
    /// and the stack pointer is initialized to 0xFFFE (last address in HRAM).
    pub fn new(execution_mode: ExecutionMode) -> (r: Self)
        ensures
            r == Self::power_on(execution_mode),
    {
        Self {
            accumulator: 0x01,
            flags: 0x00,
            b: 0x00,
            c: 0x13,
            d: 0x00,
            e: 0xD8,
            h: 0x01,
            l: 0x4D,
            pc: 0x0100,
            sp: 0xFFFE,
            ime: false,
            interrupt_delay: false,
            halted: false,
            halt_bug_triggered: false,
            execution_mode,
            cgb_speed_mode: CgbSpeedMode::Normal,
            speed_switch_wait_cycles_remaining: None,
        }
    }

    /// Read the A and F registers together as a 16-bit value.
    pub fn af(&self) -> (r: u16)
        ensures
            r == self.spec_af(),
    {
        bytes_to_u16(self.accumulator, self.flags)
    }

    /// Read the B and C registers together as a 16-bit value.
    pub fn bc(&self) -> (r: u16)
        ensures
            r == self.spec_bc(),
    {
        bytes_to_u16(self.b, self.c)
    }

    /// Read the D and E registers together as a 16-bit value.
    pub fn de(&self) -> (r: u16)
        ensures
            r == self.spec_de(),
    {
        bytes_to_u16(self.d, self.e)
    }

    /// Read the H and L registers together as a 16-bit value.
    pub fn hl(&self) -> (r: u16)
        ensures
            r == self.spec_hl(),
    {
        bytes_to_u16(self.h, self.l)
    }

    /// Set the H and L registers together as a 16-bit value. The first byte is assigned to H
    /// and the second byte is assigned to L.
    pub fn set_hl(&mut self, hl: u16)
        ensures
            *final(self) == old(self).with_hl(hl),
    {
        self.h = u16_high_byte(hl);
        self.l = u16_low_byte(hl);
    }

    /// Read the value from the given register.
    pub fn read_register(&self, register: CpuRegister) -> (r: u8)
        ensures
            r == self.register_value(register),
    {
        match register {
            CpuRegister::A => self.accumulator,
            CpuRegister::B => self.b,
            CpuRegister::C => self.c,
            CpuRegister::D => self.d,
            CpuRegister::E => self.e,
            CpuRegister::H => self.h,
            CpuRegister::L => self.l,
        }
    }

    /// Assign a value to the given register.
    pub fn set_register(&mut self, register: CpuRegister, value: u8)
        ensures
            *final(self) == old(self).with_register(register, value),
    {
        match register {
            CpuRegister::A => {
                self.accumulator = value;
            },
            CpuRegister::B => {
                self.b = value;
            },
            CpuRegister::C => {
                self.c = value;
            },
            CpuRegister::D => {
                self.d = value;
            },
            CpuRegister::E => {
                self.e = value;
            },
            CpuRegister::H => {
                self.h = value;
            },
            CpuRegister::L => {
                self.l = value;
            },
        }
    }

    /// Obtain a mutable reference to the given register's value.
    pub fn get_register_mut(&mut self, register: CpuRegister) -> (r: &mut u8)
        ensures
            *r == old(self).register_value(register),
            *final(self) == old(self).with_register(register, *final(r)),
    {
        match register {
            CpuRegister::A => &mut self.accumulator,
            CpuRegister::B => &mut self.b,
            CpuRegister::C => &mut self.c,
            CpuRegister::D => &mut self.d,
            CpuRegister::E => &mut self.e,
            CpuRegister::H => &mut self.h,
            CpuRegister::L => &mut self.l,
        }
    }

    /// Read the given pair of registers as a 16-bit value, except for SP which is a 16-bit
    /// register and is read directly.
    pub fn read_register_pair(&self, register_pair: CpuRegisterPair) -> (r: u16)
        ensures
            r == self.pair_value(register_pair),
    {
        match register_pair {
            CpuRegisterPair::AF => self.af(),
            CpuRegisterPair::BC => self.bc(),
            CpuRegisterPair::DE => self.de(),
            CpuRegisterPair::HL => self.hl(),
            CpuRegisterPair::SP => self.sp,
        }
    }

    /// Assign a 16-bit value to the given pair of registers, except for SP which is a 16-bit
    /// register and is assigned directly.
    pub fn set_register_pair(&mut self, register_pair: CpuRegisterPair, value: u16)
        ensures
            *final(self) == old(self).with_pair(register_pair, value),
    {
        match register_pair {
            CpuRegisterPair::AF => {
                self.accumulator = u16_high_byte(value);
                // Lower 4 bits of flags register are unused
                self.flags = u16_low_byte(value) & 0xF0;
            },
            CpuRegisterPair::BC => {
                self.b = u16_high_byte(value);
                self.c = u16_low_byte(value);
            },
            CpuRegisterPair::DE => {
                self.d = u16_high_byte(value);
                self.e = u16_low_byte(value);
            },
            CpuRegisterPair::HL => {
                self.set_hl(value);
            },
            CpuRegisterPair::SP => {
                self.sp = value;
            },
        }
    }

    /// Set all four flags in the F register.
    pub fn set_flags(&mut self, z: ZFlag, n: NFlag, h: HFlag, c: CFlag)
        ensures
            *final(self) == old(self).with_flags(z.0, n.0, h.0, c.0),
    {
        self.flags = z_bit(z) | n_bit(n) | h_bit(h) | c_bit(c);
    }

    /// Set any number of flags in the F register.
    ///
    /// Some(true) will set the flag to 1, Some(false) will set the flag to 0, and None will leave
    /// the flag unchanged.
    pub fn set_some_flags(
        &mut self,
        z: Option<ZFlag>,
        n: Option<NFlag>,
        h: Option<HFlag>,
        c: Option<CFlag>,
    )
        ensures
            *final(self) == old(self).with_some_flags(z, n, h, c),
    {
        match z {
            Some(ZFlag(true)) => {
                self.flags = self.flags | Z_FLAG_BIT;
            },
            Some(ZFlag(false)) => {
                self.flags = self.flags & !Z_FLAG_BIT;
            },
            None => {},
        }
        match n {
            Some(NFlag(true)) => {
                self.flags = self.flags | N_FLAG_BIT;
            },
            Some(NFlag(false)) => {
                self.flags = self.flags & !N_FLAG_BIT;
            },
            None => {},
        }
        match h {
            Some(HFlag(true)) => {
                self.flags = self.flags | H_FLAG_BIT;
            },
            Some(HFlag(false)) => {
                self.flags = self.flags & !H_FLAG_BIT;
            },
            None => {},
        }
        match c {
            Some(CFlag(true)) => {
                self.flags = self.flags | C_FLAG_BIT;
            },
            Some(CFlag(false)) => {
                self.flags = self.flags & !C_FLAG_BIT;
            },
            None => {},
        }
    }

    /// Return whether or not the Z flag (last result zero) is currently set in the F register.
    pub fn z_flag(&self) -> (r: bool)
        ensures
            r == self.spec_z(),
    {
        self.flags & Z_FLAG_BIT != 0
    }

    /// Return whether or not the N flag (last op subtraction) is currently set in the F register.
    pub fn n_flag(&self) -> (r: bool)
        ensures
            r == self.spec_n(),
    {
        self.flags & N_FLAG_BIT != 0
    }

    /// Return whether or not the H flag (half carry) is currently set in the F register.
    pub fn h_flag(&self) -> (r: bool)
        ensures
            r == self.spec_h(),
    {
        self.flags & H_FLAG_BIT != 0
    }

    /// Return whether or not the C flag (carry) is currently set in the F register.
    pub fn c_flag(&self) -> (r: bool)
        ensures
            r == self.spec_c(),
    {
        self.flags & C_FLAG_BIT != 0
    }
}

/// Setting all four flags and then reading them back gives the flags that were set, and the
/// unused low nibble of F reads as zero.
pub proof fn law_flags_read_back(z: bool, n: bool, h: bool, c: bool)
    ensures
        (flags_byte(z, n, h, c) & 0x80 != 0) == z,
        (flags_byte(z, n, h, c) & 0x40 != 0) == n,
        (flags_byte(z, n, h, c) & 0x20 != 0) == h,
        (flags_byte(z, n, h, c) & 0x10 != 0) == c,
        flags_byte(z, n, h, c) & 0x0F == 0,
{
    let zb: u8 = if z { 0x80 } else { 0 };
    let nb: u8 = if n { 0x40 } else { 0 };
    let hb: u8 = if h { 0x20 } else { 0 };
    let cb: u8 = if c { 0x10 } else { 0 };
    assert(((zb | nb | hb | cb) & 0x80 != 0) == (zb == 0x80) && ((zb | nb | hb | cb) & 0x40 != 0)
        == (nb == 0x40) && ((zb | nb | hb | cb) & 0x20 != 0) == (hb == 0x20) && ((zb | nb | hb | cb)
        & 0x10 != 0) == (cb == 0x10) && (zb | nb | hb | cb) & 0x0F == 0) by (bit_vector)
        requires
            zb == 0x80 || zb == 0,
            nb == 0x40 || nb == 0,
            hb == 0x20 || hb == 0,
            cb == 0x10 || cb == 0,
    ;
}

/// Updating some flags changes exactly those flags: each given flag reads back as given, each
/// flag passed as `None` and the low nibble of F keep their old values.
pub proof fn law_set_some_flags(
    flags: u8,
    z: Option<ZFlag>,
    n: Option<NFlag>,
    h: Option<HFlag>,
    c: Option<CFlag>,
)
    ensures
        ({
            let f = flags_after_update(flags, z, n, h, c);
            &&& (f & 0x80 != 0) == (match z {
                Some(ZFlag(b)) => b,
                None => flags & 0x80 != 0,
            })
            &&& (f & 0x40 != 0) == (match n {
                Some(NFlag(b)) => b,
                None => flags & 0x40 != 0,
            })
            &&& (f & 0x20 != 0) == (match h {
                Some(HFlag(b)) => b,
                None => flags & 0x20 != 0,
            })
            &&& (f & 0x10 != 0) == (match c {
                Some(CFlag(b)) => b,
                None => flags & 0x10 != 0,
            })
            &&& f & 0x0F == flags & 0x0F
        }),
{
    let f1 = apply_flag(
        flags,
        0x80,
        match z {
            Some(ZFlag(b)) => Some(b),
            None => None,
        },
    );
    let f2 = apply_flag(
        f1,
        0x40,
        match n {
            Some(NFlag(b)) => Some(b),
            None => None,
        },
    );
    let f3 = apply_flag(
        f2,
        0x20,
        match h {
            Some(HFlag(b)) => Some(b),
            None => None,
        },
    );
    lemma_apply_flag(flags, 0x80, match z { Some(ZFlag(b)) => Some(b), None => None });
    lemma_apply_flag(f1, 0x40, match n { Some(NFlag(b)) => Some(b), None => None });
    lemma_apply_flag(f2, 0x20, match h { Some(HFlag(b)) => Some(b), None => None });
    lemma_apply_flag(f3, 0x10, match c { Some(CFlag(b)) => Some(b), None => None });
}

/// One flag update sets or clears exactly its own bit.
proof fn lemma_apply_flag(f: u8, b: u8, v: Option<bool>)
    requires
        b == 0x80 || b == 0x40 || b == 0x20 || b == 0x10,
    ensures
        (apply_flag(f, b, v) & b != 0) == (match v {
            Some(x) => x,
            None => f & b != 0,
        }),
        b != 0x80 ==> apply_flag(f, b, v) & 0x80 == f & 0x80,
        b != 0x40 ==> apply_flag(f, b, v) & 0x40 == f & 0x40,
        b != 0x20 ==> apply_flag(f, b, v) & 0x20 == f & 0x20,
        b != 0x10 ==> apply_flag(f, b, v) & 0x10 == f & 0x10,
        apply_flag(f, b, v) & 0x0F == f & 0x0F,
{
    let s = f | b;
    let r = f & !b;
    assert((s & b != 0) && (b != 0x80 ==> s & 0x80 == f & 0x80) && (b != 0x40 ==> s & 0x40 == f
        & 0x40) && (b != 0x20 ==> s & 0x20 == f & 0x20) && (b != 0x10 ==> s & 0x10 == f & 0x10) && s
        & 0x0F == f & 0x0F) by (bit_vector)
        requires
            s == f | b,
            b == 0x80 || b == 0x40 || b == 0x20 || b == 0x10,
    ;
    assert((r & b == 0) && (b != 0x80 ==> r & 0x80 == f & 0x80) && (b != 0x40 ==> r & 0x40 == f
        & 0x40) && (b != 0x20 ==> r & 0x20 == f & 0x20) && (b != 0x10 ==> r & 0x10 == f & 0x10) && r
        & 0x0F == f & 0x0F) by (bit_vector)
        requires
            r == f & !b,
            b == 0x80 || b == 0x40 || b == 0x20 || b == 0x10,
    ;
}

} // verus!
