mod lcdc;

use crate::cpu::{ExecutionMode, InterruptType};
use crate::memory::address;
use crate::ppu::Mode as PpuMode;
pub use lcdc::{AddressRange, Lcdc, SpriteMode, TileDataRange};
use vstd::prelude::*;

verus! {

/// A memory-mapped hardware register in the I/O region 0xFF00-0xFF7F.
#[derive(Debug, Clone, Copy, PartialEq, Eq, Structural)]
pub enum IoRegister {
    JOYP,
    SB,
    SC,
    DIV,
    TIMA,
    TMA,
    TAC,
    IF,
    NR10,
    NR11,
    NR12,
    NR13,
    NR14,
    NR21,
    NR22,
    NR23,
    NR24,
    NR30,
    NR31,
    NR32,
    NR33,
    NR34,
    NR41,
    NR42,
    NR43,
    NR44,
    NR50,
    NR51,
    NR52,
    LCDC,
    STAT,
    SCY,
    SCX,
    LY,
    LYC,
    DMA,
    BGP,
    OBP0,
    OBP1,
    WY,
    WX,
    // CGB-only registers start here
    KEY1,
    VBK,
    HDMA1,
    HDMA2,
    HDMA3,
    HDMA4,
    HDMA5,
    RP,
    BCPS,
    BCPD,
    OCPS,
    OCPD,
    OPRI,
    SVBK,
    PCM12,
    PCM34,
}

impl IoRegister {
    pub open spec fn spec_relative_address(self) -> int {
        match self {
            IoRegister::JOYP => 0x00,
            IoRegister::SB => 0x01,
            IoRegister::SC => 0x02,
            IoRegister::DIV => 0x04,
            IoRegister::TIMA => 0x05,
            IoRegister::TMA => 0x06,
            IoRegister::TAC => 0x07,
            IoRegister::IF => 0x0F,
            IoRegister::NR10 => 0x10,
            IoRegister::NR11 => 0x11,
            IoRegister::NR12 => 0x12,
            IoRegister::NR13 => 0x13,
            IoRegister::NR14 => 0x14,
            IoRegister::NR21 => 0x16,
            IoRegister::NR22 => 0x17,
            IoRegister::NR23 => 0x18,
            IoRegister::NR24 => 0x19,
            IoRegister::NR30 => 0x1A,
            IoRegister::NR31 => 0x1B,
            IoRegister::NR32 => 0x1C,
            IoRegister::NR33 => 0x1D,
            IoRegister::NR34 => 0x1E,
            IoRegister::NR41 => 0x20,
            IoRegister::NR42 => 0x21,
            IoRegister::NR43 => 0x22,
            IoRegister::NR44 => 0x23,
            IoRegister::NR50 => 0x24,
            IoRegister::NR51 => 0x25,
            IoRegister::NR52 => 0x26,
            IoRegister::LCDC => 0x40,
            IoRegister::STAT => 0x41,
            IoRegister::SCY => 0x42,
            IoRegister::SCX => 0x43,
            IoRegister::LY => 0x44,
            IoRegister::LYC => 0x45,
            IoRegister::DMA => 0x46,
            IoRegister::BGP => 0x47,
            IoRegister::OBP0 => 0x48,
            IoRegister::OBP1 => 0x49,
            IoRegister::WY => 0x4A,
            IoRegister::WX => 0x4B,
            IoRegister::KEY1 => 0x4D,
            IoRegister::VBK => 0x4F,
            IoRegister::HDMA1 => 0x51,
            IoRegister::HDMA2 => 0x52,
            IoRegister::HDMA3 => 0x53,
            IoRegister::HDMA4 => 0x54,
            IoRegister::HDMA5 => 0x55,
            IoRegister::RP => 0x56,
            IoRegister::BCPS => 0x68,
            IoRegister::BCPD => 0x69,
            IoRegister::OCPS => 0x6A,
            IoRegister::OCPD => 0x6B,
            IoRegister::OPRI => 0x6C,
            IoRegister::SVBK => 0x70,
            IoRegister::PCM12 => 0x76,
            IoRegister::PCM34 => 0x77,
        }
    }

    /// The register at an address of the I/O region, if there is one.
    pub open spec fn spec_from_address(address: u16) -> Option<IoRegister> {
        if address == 0xFF00 {
            Some(IoRegister::JOYP)
        } else if address == 0xFF01 {
            Some(IoRegister::SB)
        } else if address == 0xFF02 {
            Some(IoRegister::SC)
        } else if address == 0xFF04 {
            Some(IoRegister::DIV)
        } else if address == 0xFF05 {
            Some(IoRegister::TIMA)
        } else if address == 0xFF06 {
            Some(IoRegister::TMA)
        } else if address == 0xFF07 {
            Some(IoRegister::TAC)
        } else if address == 0xFF0F {
            Some(IoRegister::IF)
        } else if address == 0xFF10 {
            Some(IoRegister::NR10)
        } else if address == 0xFF11 {
            Some(IoRegister::NR11)
        } else if address == 0xFF12 {
            Some(IoRegister::NR12)
        } else if address == 0xFF13 {
            Some(IoRegister::NR13)
        } else if address == 0xFF14 {
            Some(IoRegister::NR14)
        } else if address == 0xFF16 {
            Some(IoRegister::NR21)
        } else if address == 0xFF17 {
            Some(IoRegister::NR22)
        } else if address == 0xFF18 {
            Some(IoRegister::NR23)
        } else if address == 0xFF19 {
            Some(IoRegister::NR24)
        } else if address == 0xFF1A {
            Some(IoRegister::NR30)
        } else if address == 0xFF1B {
            Some(IoRegister::NR31)
        } else if address == 0xFF1C {
            Some(IoRegister::NR32)
        } else if address == 0xFF1D {
            Some(IoRegister::NR33)
        } else if address == 0xFF1E {
            Some(IoRegister::NR34)
        } else if address == 0xFF20 {
            Some(IoRegister::NR41)
        } else if address == 0xFF21 {
            Some(IoRegister::NR42)
        } else if address == 0xFF22 {
            Some(IoRegister::NR43)
        } else if address == 0xFF23 {
            Some(IoRegister::NR44)
        } else if address == 0xFF24 {
            Some(IoRegister::NR50)
        } else if address == 0xFF25 {
            Some(IoRegister::NR51)
        } else if address == 0xFF26 {
            Some(IoRegister::NR52)
        } else if address == 0xFF40 {
            Some(IoRegister::LCDC)
        } else if address == 0xFF41 {
            Some(IoRegister::STAT)
        } else if address == 0xFF42 {
            Some(IoRegister::SCY)
        } else if address == 0xFF43 {
            Some(IoRegister::SCX)
        } else if address == 0xFF44 {
            Some(IoRegister::LY)
        } else if address == 0xFF45 {
            Some(IoRegister::LYC)
        } else if address == 0xFF46 {
            Some(IoRegister::DMA)
        } else if address == 0xFF47 {
            Some(IoRegister::BGP)
        } else if address == 0xFF48 {
            Some(IoRegister::OBP0)
        } else if address == 0xFF49 {
            Some(IoRegister::OBP1)
        } else if address == 0xFF4A {
            Some(IoRegister::WY)
        } else if address == 0xFF4B {
            Some(IoRegister::WX)
        } else if address == 0xFF4D {
            Some(IoRegister::KEY1)
        } else if address == 0xFF4F {
            Some(IoRegister::VBK)
        } else if address == 0xFF51 {
            Some(IoRegister::HDMA1)
        } else if address == 0xFF52 {
            Some(IoRegister::HDMA2)
        } else if address == 0xFF53 {
            Some(IoRegister::HDMA3)
        } else if address == 0xFF54 {
            Some(IoRegister::HDMA4)
        } else if address == 0xFF55 {
            Some(IoRegister::HDMA5)
        } else if address == 0xFF56 {
            Some(IoRegister::RP)
        } else if address == 0xFF68 {
            Some(IoRegister::BCPS)
        } else if address == 0xFF69 {
            Some(IoRegister::BCPD)
        } else if address == 0xFF6A {
            Some(IoRegister::OCPS)
        } else if address == 0xFF6B {
            Some(IoRegister::OCPD)
        } else if address == 0xFF6C {
            Some(IoRegister::OPRI)
        } else if address == 0xFF70 {
            Some(IoRegister::SVBK)
        } else if address == 0xFF76 {
            Some(IoRegister::PCM12)
        } else if address == 0xFF77 {
            Some(IoRegister::PCM34)
        } else {
            None
        }
    }

    /// Return the hardware register corresponding to the given address.
    pub fn from_address(address: u16) -> (r: Option<Self>)
        ensures
            r == Self::spec_from_address(address),
    {
        let register = match address {
            0xFF00 => Self::JOYP,
            0xFF01 => Self::SB,
            0xFF02 => Self::SC,
            0xFF04 => Self::DIV,
            0xFF05 => Self::TIMA,
            0xFF06 => Self::TMA,
            0xFF07 => Self::TAC,
            0xFF0F => Self::IF,
            0xFF10 => Self::NR10,
            0xFF11 => Self::NR11,
            0xFF12 => Self::NR12,
            0xFF13 => Self::NR13,
            0xFF14 => Self::NR14,
            0xFF16 => Self::NR21,
            0xFF17 => Self::NR22,
            0xFF18 => Self::NR23,
            0xFF19 => Self::NR24,
            0xFF1A => Self::NR30,
            0xFF1B => Self::NR31,
            0xFF1C => Self::NR32,
            0xFF1D => Self::NR33,
            0xFF1E => Self::NR34,
            0xFF20 => Self::NR41,
            0xFF21 => Self::NR42,
            0xFF22 => Self::NR43,
            0xFF23 => Self::NR44,
            0xFF24 => Self::NR50,
            0xFF25 => Self::NR51,
            0xFF26 => Self::NR52,
            0xFF40 => Self::LCDC,
            0xFF41 => Self::STAT,
            0xFF42 => Self::SCY,
            0xFF43 => Self::SCX,
            0xFF44 => Self::LY,
            0xFF45 => Self::LYC,
            0xFF46 => Self::DMA,
            0xFF47 => Self::BGP,
            0xFF48 => Self::OBP0,
            0xFF49 => Self::OBP1,
            0xFF4A => Self::WY,
            0xFF4B => Self::WX,
            0xFF4D => Self::KEY1,
            0xFF4F => Self::VBK,
            0xFF51 => Self::HDMA1,
            0xFF52 => Self::HDMA2,
            0xFF53 => Self::HDMA3,
            0xFF54 => Self::HDMA4,
            0xFF55 => Self::HDMA5,
            0xFF56 => Self::RP,
            0xFF68 => Self::BCPS,
            0xFF69 => Self::BCPD,
            0xFF6A => Self::OCPS,
            0xFF6B => Self::OCPD,
            0xFF6C => Self::OPRI,
            0xFF70 => Self::SVBK,
            0xFF76 => Self::PCM12,
            0xFF77 => Self::PCM34,
            _ => {
                return None;
            },
        };
        Some(register)
    }

    pub fn to_relative_address(self) -> (r: usize)
        ensures
            r == self.spec_relative_address(),
            r < 0x80,
    {
        match self {
            Self::JOYP => 0x00,
            Self::SB => 0x01,
            Self::SC => 0x02,
            Self::DIV => 0x04,
            Self::TIMA => 0x05,
            Self::TMA => 0x06,
            Self::TAC => 0x07,
            Self::IF => 0x0F,
            Self::NR10 => 0x10,
            Self::NR11 => 0x11,
            Self::NR12 => 0x12,
            Self::NR13 => 0x13,
            Self::NR14 => 0x14,
            Self::NR21 => 0x16,
            Self::NR22 => 0x17,
            Self::NR23 => 0x18,
            Self::NR24 => 0x19,
            Self::NR30 => 0x1A,
            Self::NR31 => 0x1B,
            Self::NR32 => 0x1C,
            Self::NR33 => 0x1D,
            Self::NR34 => 0x1E,
            Self::NR41 => 0x20,
            Self::NR42 => 0x21,
            Self::NR43 => 0x22,
            Self::NR44 => 0x23,
            Self::NR50 => 0x24,
            Self::NR51 => 0x25,
            Self::NR52 => 0x26,
            Self::LCDC => 0x40,
            Self::STAT => 0x41,
            Self::SCY => 0x42,
            Self::SCX => 0x43,
            Self::LY => 0x44,
            Self::LYC => 0x45,
            Self::DMA => 0x46,
            Self::BGP => 0x47,
            Self::OBP0 => 0x48,
            Self::OBP1 => 0x49,
            Self::WY => 0x4A,
            Self::WX => 0x4B,
            Self::KEY1 => 0x4D,
            Self::VBK => 0x4F,
            Self::HDMA1 => 0x51,
            Self::HDMA2 => 0x52,
            Self::HDMA3 => 0x53,
            Self::HDMA4 => 0x54,
            Self::HDMA5 => 0x55,
            Self::RP => 0x56,
            Self::BCPS => 0x68,
            Self::BCPD => 0x69,
            Self::OCPS => 0x6A,
            Self::OCPD => 0x6B,
            Self::OPRI => 0x6C,
            Self::SVBK => 0x70,
            Self::PCM12 => 0x76,
            Self::PCM34 => 0x77,
        }
    }

    pub open spec fn spec_cpu_readable(self) -> bool {
        !(self == IoRegister::NR13
            || self == IoRegister::NR23
            || self == IoRegister::NR31
            || self == IoRegister::NR33
            || self == IoRegister::NR41
            || self == IoRegister::HDMA1
            || self == IoRegister::HDMA2
            || self == IoRegister::HDMA3
            || self == IoRegister::HDMA4)
    }

    pub open spec fn spec_cpu_writable(self) -> bool {
        !(self == IoRegister::LY
            || self == IoRegister::PCM12
            || self == IoRegister::PCM34)
    }

    pub open spec fn spec_audio(self) -> bool {
        self == IoRegister::NR10
            || self == IoRegister::NR11
            || self == IoRegister::NR12
            || self == IoRegister::NR13
            || self == IoRegister::NR14
            || self == IoRegister::NR21
            || self == IoRegister::NR22
            || self == IoRegister::NR23
            || self == IoRegister::NR24
            || self == IoRegister::NR30
            || self == IoRegister::NR31
            || self == IoRegister::NR32
            || self == IoRegister::NR33
            || self == IoRegister::NR34
            || self == IoRegister::NR41
            || self == IoRegister::NR42
            || self == IoRegister::NR43
            || self == IoRegister::NR44
            || self == IoRegister::NR50
            || self == IoRegister::NR51
            || self == IoRegister::NR52
    }

    pub open spec fn spec_cgb_only(self) -> bool {
        self == IoRegister::KEY1
            || self == IoRegister::VBK
            || self == IoRegister::HDMA1
            || self == IoRegister::HDMA2
            || self == IoRegister::HDMA3
            || self == IoRegister::HDMA4
            || self == IoRegister::HDMA5
            || self == IoRegister::RP
            || self == IoRegister::BCPS
            || self == IoRegister::BCPD
            || self == IoRegister::OCPS
            || self == IoRegister::OCPD
            || self == IoRegister::OPRI
            || self == IoRegister::SVBK
            || self == IoRegister::PCM12
            || self == IoRegister::PCM34
    }

    /// Return whether or not the CPU is allowed to read this hardware register.
    pub fn is_cpu_readable(self) -> (r: bool)
        ensures
            r == self.spec_cpu_readable(),
    {
        !matches!(
            self,
            Self::NR13
                | Self::NR23
                | Self::NR31
                | Self::NR33
                | Self::NR41
                | Self::HDMA1
                | Self::HDMA2
                | Self::HDMA3
                | Self::HDMA4
        )
    }

    /// Return whether or not the CPU is allowed to write to this hardware register.
    pub fn is_cpu_writable(self) -> (r: bool)
        ensures
            r == self.spec_cpu_writable(),
    {
        !matches!(self, Self::LY
                | Self::PCM12
                | Self::PCM34)
    }

    /// Return whether or not this is an audio register.
    pub fn is_audio_register(self) -> (r: bool)
        ensures
            r == self.spec_audio(),
    {
        matches!(
            self,
            Self::NR10
                | Self::NR11
                | Self::NR12
                | Self::NR13
                | Self::NR14
                | Self::NR21
                | Self::NR22
                | Self::NR23
                | Self::NR24
                | Self::NR30
                | Self::NR31
                | Self::NR32
                | Self::NR33
                | Self::NR34
                | Self::NR41
                | Self::NR42
                | Self::NR43
                | Self::NR44
                | Self::NR50
                | Self::NR51
                | Self::NR52
        )
    }

    /// Return whether this register is only accessible in CGB mode.
    pub fn is_cgb_only_register(self) -> (r: bool)
        ensures
            r == self.spec_cgb_only(),
    {
        matches!(
            self,
            Self::KEY1
                | Self::VBK
                | Self::HDMA1
                | Self::HDMA2
                | Self::HDMA3
                | Self::HDMA4
                | Self::HDMA5
                | Self::RP
                | Self::BCPS
                | Self::BCPD
                | Self::OCPS
                | Self::OCPD
                | Self::OPRI
                | Self::SVBK
                | Self::PCM12
                | Self::PCM34
        )
    }
}

/// The bit of the dirty-bit word that records writes to a register, for the registers whose
/// writes are tracked.
pub open spec fn spec_dirty_bit(io_register: IoRegister) -> Option<u16> {
    match io_register {
        IoRegister::NR10 => Some(0x0001u16),
        IoRegister::NR11 => Some(0x0002u16),
        IoRegister::NR12 => Some(0x0004u16),
        IoRegister::NR13 => Some(0x0008u16),
        IoRegister::NR14 => Some(0x0010u16),
        IoRegister::NR21 => Some(0x0020u16),
        IoRegister::NR22 => Some(0x0040u16),
        IoRegister::NR23 => Some(0x0080u16),
        IoRegister::NR24 => Some(0x0100u16),
        IoRegister::NR31 => Some(0x0200u16),
        IoRegister::NR33 => Some(0x0400u16),
        IoRegister::NR34 => Some(0x0800u16),
        IoRegister::NR41 => Some(0x1000u16),
        IoRegister::NR44 => Some(0x2000u16),
        IoRegister::DMA => Some(0x4000u16),
        IoRegister::HDMA5 => Some(0x8000u16),
        _ => None,
    }
}

fn dirty_bit_for_register(io_register: IoRegister) -> (r: Option<u16>)
    ensures
        r == spec_dirty_bit(io_register),
{
    match io_register {
        IoRegister::NR10 => Some(0x0001),
        IoRegister::NR11 => Some(0x0002),
        IoRegister::NR12 => Some(0x0004),
        IoRegister::NR13 => Some(0x0008),
        IoRegister::NR14 => Some(0x0010),
        IoRegister::NR21 => Some(0x0020),
        IoRegister::NR22 => Some(0x0040),
        IoRegister::NR23 => Some(0x0080),
        IoRegister::NR24 => Some(0x0100),
        IoRegister::NR31 => Some(0x0200),
        IoRegister::NR33 => Some(0x0400),
        IoRegister::NR34 => Some(0x0800),
        IoRegister::NR41 => Some(0x1000),
        IoRegister::NR44 => Some(0x2000),
        IoRegister::DMA => Some(0x4000),
        IoRegister::HDMA5 => Some(0x8000),
        _ => None,
    }
}

/// Addresses 0xFF30-0xFF3F hold the custom waveform samples of the wave channel.
pub open spec fn spec_is_waveform_address(address: u16) -> bool {
    0xFF30 <= address <= 0xFF3F
}

fn is_waveform_address(address: u16) -> (r: bool)
    ensures
        r == spec_is_waveform_address(address),
{
    0xFF30 <= address && address <= 0xFF3F
}

/// The interrupt types in priority order, as bits of the IE and IF registers.
pub open spec fn spec_highest_priority_interrupt(masked: u8) -> Option<InterruptType> {
    if masked & 0x01 != 0 {
        Some(InterruptType::VBlank)
    } else if masked & 0x02 != 0 {
        Some(InterruptType::LcdStatus)
    } else if masked & 0x04 != 0 {
        Some(InterruptType::Timer)
    } else if masked & 0x08 != 0 {
        Some(InterruptType::Serial)
    } else if masked & 0x10 != 0 {
        Some(InterruptType::Joypad)
    } else {
        None
    }
}

/// A copy of the IF register (requested interrupts) with helpers to inspect and edit it; an
/// edited copy is stored back with `IoRegisters::set_interrupt_flags`.
#[derive(Debug, Clone, Copy, PartialEq, Eq, Structural)]
pub struct InterruptFlags(pub u8);

impl InterruptFlags {
    /// Returns the highest priority requested + enabled interrupt, or None if no enabled interrupts
    /// have been requested.
    pub fn highest_priority_interrupt(&self, ie_value: u8) -> (r: Option<InterruptType>)
        ensures
            r == spec_highest_priority_interrupt(self.0 & ie_value),
    {
        let masked_if = self.0 & ie_value;
        if masked_if & 0x01 != 0 {
            Some(InterruptType::VBlank)
        } else if masked_if & 0x02 != 0 {
            Some(InterruptType::LcdStatus)
        } else if masked_if & 0x04 != 0 {
            Some(InterruptType::Timer)
        } else if masked_if & 0x08 != 0 {
            Some(InterruptType::Serial)
        } else if masked_if & 0x10 != 0 {
            Some(InterruptType::Joypad)
        } else {
            None
        }
    }

    /// Whether the bit for the given interrupt type is set.
    pub fn get(&self, interrupt_type: InterruptType) -> (r: bool)
        ensures
            r == (self.0 & interrupt_type.spec_bit() != 0),
    {
        self.0 & interrupt_type.bit() != 0
    }

    /// Sets the bit for the given interrupt type.
    pub fn set(&mut self, interrupt_type: InterruptType)
        ensures
            final(self).0 == old(self).0 | interrupt_type.spec_bit(),
    {
        self.0 = self.0 | interrupt_type.bit();
    }

    /// Clears the bit for the given interrupt type.
    pub fn clear(&mut self, interrupt_type: InterruptType)
        ensures
            final(self).0 == old(self).0 & !interrupt_type.spec_bit(),
    {
        self.0 = self.0 & !interrupt_type.bit();
    }
}

/// The abstract contents of the I/O registers.
pub struct IoRegistersView {
    pub contents: Seq<u8>,
    pub bg_palette_ram: Seq<u8>,
    pub obj_palette_ram: Seq<u8>,
    pub dirty_bits: u16,
    pub execution_mode: ExecutionMode,
    pub ppu_mode: PpuMode,
}

impl IoRegistersView {
    pub open spec fn wf(self) -> bool {
        &&& self.contents.len() == 0x80
        &&& self.bg_palette_ram.len() == 64
        &&& self.obj_palette_ram.len() == 64
    }

    /// The raw byte stored for a register.
    pub open spec fn byte(self, register: IoRegister) -> u8 {
        self.contents[register.spec_relative_address()]
    }

    /// These registers with the raw byte of one register replaced.
    pub open spec fn with_byte(self, register: IoRegister, value: u8) -> IoRegistersView {
        IoRegistersView {
            contents: self.contents.update(register.spec_relative_address(), value),
            ..self
        }
    }

    pub open spec fn is_cgb(self) -> bool {
        self.execution_mode == ExecutionMode::GameBoyColor
    }

    pub open spec fn bg_palette_address(self) -> int {
        (self.byte(IoRegister::BCPS) & 0x3F) as int
    }

    pub open spec fn obj_palette_address(self) -> int {
        (self.byte(IoRegister::OCPS) & 0x3F) as int
    }

    /// The value the CPU reads from a register: 0xFF for registers it cannot read, otherwise the
    /// stored byte with its unusable bits reading as 1.
    pub open spec fn read_register(self, register: IoRegister) -> u8 {
        if !register.spec_cpu_readable() {
            0xFF
        } else if !self.is_cgb() && register.spec_cgb_only() {
            0xFF
        } else {
            let byte = self.byte(register);
            match register {
                IoRegister::JOYP => byte | 0xC0,
                IoRegister::STAT | IoRegister::NR10 => byte | 0x80,
                IoRegister::NR11 | IoRegister::NR21 => byte | 0x3F,
                IoRegister::NR30 => byte | 0x7F,
                IoRegister::NR32 => byte | 0x9F,
                IoRegister::NR14 | IoRegister::NR24 | IoRegister::NR34 | IoRegister::NR44 => byte
                    | 0xBF,
                IoRegister::NR52 => byte | 0x70,
                IoRegister::KEY1 => byte | 0x7E,
                IoRegister::VBK => byte | 0xFE,
                IoRegister::SVBK => byte | 0xF8,
                IoRegister::BCPD => if self.ppu_mode == PpuMode::RenderingScanline {
                    0xFF
                } else {
                    self.bg_palette_ram[self.bg_palette_address()]
                },
                IoRegister::OCPD => if self.ppu_mode == PpuMode::RenderingScanline {
                    0xFF
                } else {
                    self.obj_palette_ram[self.obj_palette_address()]
                },
                _ => byte,
            }
        }
    }

    pub open spec fn apu_enabled(self) -> bool {
        self.byte(IoRegister::NR52) & 0x80 != 0
    }

    /// Whether a CPU write to the register has any effect at all.
    pub open spec fn write_accepted(self, register: IoRegister) -> bool {
        &&& register.spec_cpu_writable()
        &&& (self.is_cgb() || !register.spec_cgb_only())
        &&& (self.apu_enabled() || !register.spec_audio() || register == IoRegister::NR52)
    }

    pub open spec fn with_dirty(self, register: IoRegister) -> IoRegistersView {
        match spec_dirty_bit(register) {
            Some(bit) => IoRegistersView { dirty_bits: self.dirty_bits | bit, ..self },
            None => self,
        }
    }

    /// The registers after palette data is written through BCPD (`bg` true) or OCPD.
    pub open spec fn with_palette_write(self, bg: bool, value: u8) -> IoRegistersView {
        if bg {
            let addr = self.bg_palette_address();
            let s2 = if self.ppu_mode != PpuMode::RenderingScanline {
                IoRegistersView { bg_palette_ram: self.bg_palette_ram.update(addr, value), ..self }
            } else {
                self
            };
            if s2.byte(IoRegister::BCPS) & 0x80 != 0 {
                s2.with_byte(IoRegister::BCPS, 0x80 | (((addr + 1) % 64) as u8))
            } else {
                s2
            }
        } else {
            let addr = self.obj_palette_address();
            let s2 = if self.ppu_mode != PpuMode::RenderingScanline {
                IoRegistersView { obj_palette_ram: self.obj_palette_ram.update(addr, value), ..self }
            } else {
                self
            };
            if s2.byte(IoRegister::OCPS) & 0x80 != 0 {
                s2.with_byte(IoRegister::OCPS, 0x80 | (((addr + 1) % 64) as u8))
            } else {
                s2
            }
        }
    }

    /// The registers after the CPU writes `value` to `register`: only the CPU-writable bits
    /// change, DIV resets to zero, palette data writes go to palette RAM (auto-incrementing the
    /// palette index when requested), and writes to tracked registers set their dirty bit.
    pub open spec fn write_register(self, register: IoRegister, value: u8) -> IoRegistersView {
        if !self.write_accepted(register) {
            self
        } else {
            let s = self.with_dirty(register);
            let existing = s.byte(register);
            match register {
                IoRegister::DIV => s.with_byte(register, 0),
                IoRegister::JOYP => s.with_byte(register, (existing & 0xCF) | (value & 0x30)),
                IoRegister::STAT => s.with_byte(register, (existing & 0x87) | (value & 0x78)),
                IoRegister::NR52 => s.with_byte(register, (existing & 0x0F) | (value & 0x80)),
                IoRegister::KEY1 => s.with_byte(register, (existing & 0xFE) | (value & 0x01)),
                IoRegister::BCPD => s.with_palette_write(true, value),
                IoRegister::OCPD => s.with_palette_write(false, value),
                _ => s.with_byte(register, value),
            }
        }
    }

    /// The value the CPU reads at an address of the I/O region.
    pub open spec fn read_address(self, address: u16) -> u8 {
        if spec_is_waveform_address(address) {
            self.contents[address - 0xFF00]
        } else {
            match IoRegister::spec_from_address(address) {
                Some(register) => self.read_register(register),
                None => 0xFF,
            }
        }
    }

    /// The registers after the CPU writes at an address of the I/O region.
    pub open spec fn write_address(self, address: u16, value: u8) -> IoRegistersView {
        if spec_is_waveform_address(address) {
            IoRegistersView { contents: self.contents.update(address - 0xFF00, value), ..self }
        } else {
            match IoRegister::spec_from_address(address) {
                Some(register) => self.write_register(register, value),
                None => self,
            }
        }
    }

    /// The current CGB VRAM bank (0 or 1) from VBK bit 0.
    pub open spec fn cgb_vram_bank(self) -> int {
        (self.byte(IoRegister::VBK) & 0x01) as int
    }

    /// The current CGB working RAM bank (1-7) from SVBK bits 0-2, where 0 selects bank 1.
    pub open spec fn cgb_working_ram_bank(self) -> int {
        let svbk = self.byte(IoRegister::SVBK) & 0x07;
        if svbk == 0 {
            1
        } else {
            svbk as int
        }
    }

    /// The registers with the IF byte replaced.
    pub open spec fn with_interrupt_requests(self, value: u8) -> IoRegistersView {
        self.with_byte(IoRegister::IF, value)
    }
}

/// An I/O register file whose bytes are all zero.
pub open spec fn zeroed_contents() -> Seq<u8> {
    Seq::new(0x80, |i: int| 0u8)
}

/// The I/O register values at power-on.
pub open spec fn initial_contents(execution_mode: ExecutionMode) -> Seq<u8> {
    let c = zeroed_contents().update(0x00, 0xCF).update(0x04, 0x18).update(0x07, 0xF8).update(
        0x0F,
        0xE1,
    ).update(0x40, 0x91).update(0x41, 0x81).update(0x44, 0x91).update(0x46, 0xFF).update(
        0x47,
        0xFC,
    );
    let c = c.update(0x10, 0x80).update(0x11, 0xBF).update(0x12, 0xF3).update(0x13, 0xFF).update(
        0x14,
        0xBF,
    ).update(0x16, 0x3F).update(0x18, 0xFF).update(0x19, 0xBF).update(0x1A, 0x7F).update(
        0x1B,
        0xFF,
    ).update(0x1C, 0x9F).update(0x1D, 0xFF).update(0x1E, 0xBF).update(0x20, 0xFF).update(
        0x23,
        0xBF,
    ).update(0x24, 0x77).update(0x25, 0xF3).update(0x26, 0xF1);
    if execution_mode == ExecutionMode::GameBoyColor {
        c.update(0x4D, 0x7E).update(0x51, 0xFF).update(0x52, 0xFF).update(0x53, 0xFF).update(
            0x54,
            0xFF,
        ).update(0x55, 0xFF).update(0x68, 0xC0).update(0x6A, 0xC1)
    } else {
        c
    }
}

/// The dirty bits at power-on: every bit except those of the DMA and HDMA5 registers.
pub open spec fn initial_dirty_bits() -> u16 {
    !0x4000u16 & !0x8000u16
}

/// The hardware registers in the I/O region plus CGB palette RAM.
#[derive(Debug, Clone)]
pub struct IoRegisters {
    contents: [u8; 0x80],
    cgb_bg_palette_ram: [u8; 64],
    cgb_obj_palette_ram: [u8; 64],
    dirty_bits: u16,
    execution_mode: ExecutionMode,
    current_ppu_mode: PpuMode,
}

impl View for IoRegisters {
    type V = IoRegistersView;

    closed spec fn view(&self) -> IoRegistersView {
        IoRegistersView {
            contents: self.contents@,
            bg_palette_ram: self.cgb_bg_palette_ram@,
            obj_palette_ram: self.cgb_obj_palette_ram@,
            dirty_bits: self.dirty_bits,
            execution_mode: self.execution_mode,
            ppu_mode: self.current_ppu_mode,
        }
    }
}

/// The register arrays always have their fixed lengths.
pub broadcast proof fn lemma_io_registers_wf(io: &IoRegisters)
    ensures
        #[trigger] io@.wf(),
{
}

fn init_audio_registers(contents: &mut [u8; 0x80])
    ensures
        final(contents)@ == old(contents)@.update(0x10, 0x80).update(0x11, 0xBF).update(
            0x12,
            0xF3,
        ).update(0x13, 0xFF).update(0x14, 0xBF).update(0x16, 0x3F).update(0x18, 0xFF).update(
            0x19,
            0xBF,
        ).update(0x1A, 0x7F).update(0x1B, 0xFF).update(0x1C, 0x9F).update(0x1D, 0xFF).update(
            0x1E,
            0xBF,
        ).update(0x20, 0xFF).update(0x23, 0xBF).update(0x24, 0x77).update(0x25, 0xF3).update(
            0x26,
            0xF1,
        ),
{
    contents[IoRegister::NR10.to_relative_address()] = 0x80;
    contents[IoRegister::NR11.to_relative_address()] = 0xBF;
    contents[IoRegister::NR12.to_relative_address()] = 0xF3;
    contents[IoRegister::NR13.to_relative_address()] = 0xFF;
    contents[IoRegister::NR14.to_relative_address()] = 0xBF;
    contents[IoRegister::NR21.to_relative_address()] = 0x3F;
    contents[IoRegister::NR23.to_relative_address()] = 0xFF;
    contents[IoRegister::NR24.to_relative_address()] = 0xBF;
    contents[IoRegister::NR30.to_relative_address()] = 0x7F;
    contents[IoRegister::NR31.to_relative_address()] = 0xFF;
    contents[IoRegister::NR32.to_relative_address()] = 0x9F;
    contents[IoRegister::NR33.to_relative_address()] = 0xFF;
    contents[IoRegister::NR34.to_relative_address()] = 0xBF;
    contents[IoRegister::NR41.to_relative_address()] = 0xFF;
    contents[IoRegister::NR44.to_relative_address()] = 0xBF;
    contents[IoRegister::NR50.to_relative_address()] = 0x77;
    contents[IoRegister::NR51.to_relative_address()] = 0xF3;
    contents[IoRegister::NR52.to_relative_address()] = 0xF1;
}

impl IoRegisters {
    /// The registers at power-on for the given hardware.
    pub fn new(execution_mode: ExecutionMode) -> (r: Self)
        ensures
            r@.contents == initial_contents(execution_mode),
            r@.bg_palette_ram == Seq::new(64, |i: int| 0xFFu8),
            r@.obj_palette_ram == Seq::new(64, |i: int| 0xFFu8),
            r@.dirty_bits == initial_dirty_bits(),
            r@.execution_mode == execution_mode,
            r@.ppu_mode == PpuMode::VBlank,
    {
        let mut contents = [0u8; 0x80];
        contents[IoRegister::JOYP.to_relative_address()] = 0xCF;
        contents[IoRegister::DIV.to_relative_address()] = 0x18;
        contents[IoRegister::TAC.to_relative_address()] = 0xF8;
        contents[IoRegister::IF.to_relative_address()] = 0xE1;
        contents[IoRegister::LCDC.to_relative_address()] = 0x91;
        contents[IoRegister::STAT.to_relative_address()] = 0x81;
        contents[IoRegister::LY.to_relative_address()] = 0x91;
        contents[IoRegister::DMA.to_relative_address()] = 0xFF;
        contents[IoRegister::BGP.to_relative_address()] = 0xFC;
        init_audio_registers(&mut contents);
        if matches!(execution_mode, ExecutionMode::GameBoyColor) {
            contents[IoRegister::KEY1.to_relative_address()] = 0x7E;
            contents[IoRegister::HDMA1.to_relative_address()] = 0xFF;
            contents[IoRegister::HDMA2.to_relative_address()] = 0xFF;
            contents[IoRegister::HDMA3.to_relative_address()] = 0xFF;
            contents[IoRegister::HDMA4.to_relative_address()] = 0xFF;
            contents[IoRegister::HDMA5.to_relative_address()] = 0xFF;
            contents[IoRegister::BCPS.to_relative_address()] = 0xC0;
            contents[IoRegister::OCPS.to_relative_address()] = 0xC1;
        }
        assert(contents@ =~= initial_contents(execution_mode));
        // Don't boot with DMA transfer registers flagged as dirty
        let dma_bit = match dirty_bit_for_register(IoRegister::DMA) {
            Some(bit) => bit,
            None => 0,
        };
        let hdma5_bit = match dirty_bit_for_register(IoRegister::HDMA5) {
            Some(bit) => bit,
            None => 0,
        };
        let dirty_bits = !dma_bit & !hdma5_bit;
        let r = Self {
            contents,
            cgb_bg_palette_ram: [0xFF; 64],
            cgb_obj_palette_ram: [0xFF; 64],
            dirty_bits,
            execution_mode,
            current_ppu_mode: PpuMode::VBlank,
        };
        assert(r@.bg_palette_ram =~= Seq::new(64, |i: int| 0xFFu8));
        assert(r@.obj_palette_ram =~= Seq::new(64, |i: int| 0xFFu8));
        r
    }

    /// A register file whose register bytes, palette RAM and dirty bits are all zero, for the
    /// given hardware with the PPU in VBlank; a blank starting point for tests of register
    /// behaviour.
    pub fn zeroed(execution_mode: ExecutionMode) -> (r: Self)
        ensures
            r@.contents == zeroed_contents(),
            r@.bg_palette_ram == Seq::new(64, |i: int| 0u8),
            r@.obj_palette_ram == Seq::new(64, |i: int| 0u8),
            r@.dirty_bits == 0,
            r@.execution_mode == execution_mode,
            r@.ppu_mode == PpuMode::VBlank,
    {
        let r = Self {
            contents: [0; 0x80],
            cgb_bg_palette_ram: [0; 64],
            cgb_obj_palette_ram: [0; 64],
            dirty_bits: 0,
            execution_mode,
            current_ppu_mode: PpuMode::VBlank,
        };
        assert(r@.contents =~= zeroed_contents());
        assert(r@.bg_palette_ram =~= Seq::new(64, |i: int| 0u8));
        assert(r@.obj_palette_ram =~= Seq::new(64, |i: int| 0u8));
        r
    }

    /// Read the value from the hardware register at the given address. Returns 0xFF if the address
    /// is invalid or the register is not readable by the CPU.
    pub fn read_address(&self, address: u16) -> (r: u8)
        requires
            address::IO_REGISTERS_START <= address <= address::IO_REGISTERS_END,
        ensures
            r == self@.read_address(address),
    {
        if is_waveform_address(address) {
            return self.contents[(address - address::IO_REGISTERS_START) as usize];
        }
        let register = match IoRegister::from_address(address) {
            Some(register) => register,
            None => {
                return 0xFF;
            },
        };
        self.read_register(register)
    }

    /// Assign a value to the hardware register at the given address. Does nothing if the address
    /// is invalid or the register is not writable by the CPU.
    pub fn write_address(&mut self, address: u16, value: u8)
        requires
            address::IO_REGISTERS_START <= address <= address::IO_REGISTERS_END,
        ensures
            final(self)@ == old(self)@.write_address(address, value),
    {
        if is_waveform_address(address) {
            self.contents[(address - address::IO_REGISTERS_START) as usize] = value;
            return;
        }
        let register = match IoRegister::from_address(address) {
            Some(register) => register,
            None => {
                return;
            },
        };
        self.write_register(register, value);
    }

    fn current_bg_palette_address(&self) -> (r: usize)
        ensures
            r == self@.bg_palette_address(),
            r < 64,
    {
        let v = self.contents[IoRegister::BCPS.to_relative_address()];
        assert(v & 0x3F < 64) by (bit_vector);
        (v & 0x3F) as usize
    }

    fn current_obj_palette_address(&self) -> (r: usize)
        ensures
            r == self@.obj_palette_address(),
            r < 64,
    {
        let v = self.contents[IoRegister::OCPS.to_relative_address()];
        assert(v & 0x3F < 64) by (bit_vector);
        (v & 0x3F) as usize
    }

    /// Read the value from the given hardware register. Returns 0xFF if the register is not
    /// readable by the CPU.
    pub fn read_register(&self, register: IoRegister) -> (r: u8)
        ensures
            r == self@.read_register(register),
    {
        if !register.is_cpu_readable() {
            return 0xFF;
        }
        if !matches!(self.execution_mode, ExecutionMode::GameBoyColor)
            && register.is_cgb_only_register() {
            return 0xFF;
        }
        let byte = self.contents[register.to_relative_address()];
        match register {
            IoRegister::JOYP => byte | 0xC0,
            IoRegister::STAT | IoRegister::NR10 => byte | 0x80,
            IoRegister::NR11 | IoRegister::NR21 => byte | 0x3F,
            IoRegister::NR30 => byte | 0x7F,
            IoRegister::NR32 => byte | 0x9F,
            IoRegister::NR14 | IoRegister::NR24 | IoRegister::NR34 | IoRegister::NR44 => byte
                | 0xBF,
            IoRegister::NR52 => byte | 0x70,
            IoRegister::KEY1 => byte | 0x7E,
            IoRegister::VBK => byte | 0xFE,
            IoRegister::SVBK => byte | 0xF8,
            IoRegister::BCPD => match self.current_ppu_mode {
                PpuMode::RenderingScanline => 0xFF,
                _ => self.cgb_bg_palette_ram[self.current_bg_palette_address()],
            },
            IoRegister::OCPD => match self.current_ppu_mode {
                PpuMode::RenderingScanline => 0xFF,
                _ => self.cgb_obj_palette_ram[self.current_obj_palette_address()],
            },
            _ => byte,
        }
    }

    /// Assign a value to the given hardware register. Does nothing if the register is not
    /// writable by the CPU.
    pub fn write_register(&mut self, register: IoRegister, value: u8)
        ensures
            final(self)@ == old(self)@.write_register(register, value),
    {
        if !register.is_cpu_writable() {
            return;
        }
        if !matches!(self.execution_mode, ExecutionMode::GameBoyColor)
            && register.is_cgb_only_register() {
            return;
        }
        // Audio registers other than NR52 are not writable while the APU is disabled
        let apu_enabled = self.contents[IoRegister::NR52.to_relative_address()] & 0x80 != 0;
        if !apu_enabled && register.is_audio_register() && !matches!(register, IoRegister::NR52) {
            return;
        }
        if let Some(bit) = dirty_bit_for_register(register) {
            self.dirty_bits = self.dirty_bits | bit;
        }
        let relative_addr = register.to_relative_address();
        match register {
            IoRegister::DIV => {
                // All CPU writes to DIV reset the value to 0
                self.contents[relative_addr] = 0x00;
            },
            IoRegister::JOYP => {
                let existing_value = self.contents[relative_addr];
                // Only bits 4 and 5 are CPU-writable
                self.contents[relative_addr] = (existing_value & 0xCF) | (value & 0x30);
            },
            IoRegister::STAT => {
                let existing_value = self.contents[relative_addr];
                // Only bits 3-6 are CPU-writable
                self.contents[relative_addr] = (existing_value & 0x87) | (value & 0x78);
            },
            IoRegister::NR52 => {
                let existing_value = self.contents[relative_addr];
                // Only bit 7 is CPU-writable and bits 4-6 are unused
                self.contents[relative_addr] = (existing_value & 0x0F) | (value & 0x80);
            },
            IoRegister::KEY1 => {
                let existing_value = self.contents[relative_addr];
                // Only bit 0 is CPU-writable
                self.contents[relative_addr] = (existing_value & 0xFE) | (value & 0x01);
            },
            IoRegister::BCPD => {
                let bg_palette_address = self.current_bg_palette_address();
                if !matches!(self.current_ppu_mode, PpuMode::RenderingScanline) {
                    self.cgb_bg_palette_ram[bg_palette_address] = value;
                }
                if self.contents[IoRegister::BCPS.to_relative_address()] & 0x80 != 0 {
                    // Auto-increment BG palette index
                    let new_palette_address = ((bg_palette_address + 1) % 64) as u8;
                    self.contents[IoRegister::BCPS.to_relative_address()] = 0x80
                        | new_palette_address;
                }
            },
            IoRegister::OCPD => {
                let obj_palette_address = self.current_obj_palette_address();
                if !matches!(self.current_ppu_mode, PpuMode::RenderingScanline) {
                    self.cgb_obj_palette_ram[obj_palette_address] = value;
                }
                if self.contents[IoRegister::OCPS.to_relative_address()] & 0x80 != 0 {
                    // Auto-increment OBJ palette index
                    let new_palette_address = ((obj_palette_address + 1) % 64) as u8;
                    self.contents[IoRegister::OCPS.to_relative_address()] = 0x80
                        | new_palette_address;
                }
            },
            _ => {
                self.contents[relative_addr] = value;
            },
        }
        assert(self@ =~= old(self)@.write_register(register, value));
    }

    /// Assign a value to the JOYP register, including bits that the CPU cannot write.
    pub fn privileged_set_joyp(&mut self, value: u8)
        ensures
            final(self)@ == old(self)@.with_byte(IoRegister::JOYP, value & 0x3F),
    {
        self.contents[IoRegister::JOYP.to_relative_address()] = value & 0x3F;
        assert(self@ =~= old(self)@.with_byte(IoRegister::JOYP, value & 0x3F));
    }

    /// Assign a value to the STAT register (LCD status), including bits that the CPU cannot write.
    /// Should only be used by the PPU.
    pub fn ppu_set_stat(&mut self, value: u8)
        ensures
            final(self)@ == old(self)@.with_byte(IoRegister::STAT, value & 0x7F),
    {
        self.contents[IoRegister::STAT.to_relative_address()] = value & 0x7F;
        assert(self@ =~= old(self)@.with_byte(IoRegister::STAT, value & 0x7F));
    }

    /// Assign a value to the LY register (current scanline), which the CPU cannot normally write
    /// to. Should only be used by the PPU.
    pub fn ppu_set_ly(&mut self, value: u8)
        ensures
            final(self)@ == old(self)@.with_byte(IoRegister::LY, value),
    {
        self.contents[IoRegister::LY.to_relative_address()] = value;
        assert(self@ =~= old(self)@.with_byte(IoRegister::LY, value));
    }

    /// Read an HDMA register which is normally not readable by the CPU. Should only be called
    /// by the VRAM DMA transfer code.
    pub fn privileged_read_hdma_register(&self, register: IoRegister) -> (r: u8)
        requires
            register == IoRegister::HDMA1 || register == IoRegister::HDMA2 || register
                == IoRegister::HDMA3 || register == IoRegister::HDMA4 || register
                == IoRegister::HDMA5,
        ensures
            r == self@.byte(register),
    {
        self.contents[register.to_relative_address()]
    }

    /// Assign a value to the HDMA5 register, which the CPU cannot normally write to without
    /// triggering a VRAM DMA transfer. Should only be called by the VRAM DMA transfer code.
    pub fn privileged_set_hdma5(&mut self, value: u8)
        ensures
            final(self)@ == old(self)@.with_byte(IoRegister::HDMA5, value),
    {
        self.contents[IoRegister::HDMA5.to_relative_address()] = value;
        assert(self@ =~= old(self)@.with_byte(IoRegister::HDMA5, value));
    }

    /// Assign a value to the DIV register (timer divider), which is normally always reset to 0x00
    /// when the CPU writes to it. Should only be used by the timer code.
    pub fn privileged_set_div(&mut self, value: u8)
        ensures
            final(self)@ == old(self)@.with_byte(IoRegister::DIV, value),
    {
        self.contents[IoRegister::DIV.to_relative_address()] = value;
        assert(self@ =~= old(self)@.with_byte(IoRegister::DIV, value));
    }

    /// Assign a value to the KEY1 register, which normally only allows the CPU to write to bit 0.
    /// Meant to be used by the code that toggles CGB double speed mode on and off.
    pub fn privileged_set_key1(&mut self, value: u8)
        ensures
            final(self)@ == old(self)@.with_byte(IoRegister::KEY1, value),
    {
        self.contents[IoRegister::KEY1.to_relative_address()] = value;
        assert(self@ =~= old(self)@.with_byte(IoRegister::KEY1, value));
    }

    /// Read an audio register from the perspective of the APU, bypassing CPU access checks (both
    /// register-level and bit-level).
    pub fn apu_read_register(&self, register: IoRegister) -> (r: u8)
        requires
            register.spec_audio(),
        ensures
            r == self@.byte(register),
    {
        self.contents[register.to_relative_address()]
    }

    /// Assign a value to an audio register from the perspective of the APU, bypassing CPU access
    /// checks (both register-level and bit-level).
    pub fn apu_write_register(&mut self, register: IoRegister, value: u8)
        requires
            register.spec_audio(),
        ensures
            final(self)@ == old(self)@.with_byte(register, value),
    {
        self.contents[register.to_relative_address()] = value;
        assert(self@ =~= old(self)@.with_byte(register, value));
    }

    /// A copy of the LCDC register (LCD control).
    pub fn lcdc(&self) -> (r: Lcdc)
        ensures
            r.0 == self@.byte(IoRegister::LCDC),
    {
        Lcdc(self.contents[IoRegister::LCDC.to_relative_address()])
    }

    /// A copy of the IF register (interrupt request flags).
    pub fn interrupt_flags(&self) -> (r: InterruptFlags)
        ensures
            r.0 == self@.byte(IoRegister::IF),
    {
        InterruptFlags(self.contents[IoRegister::IF.to_relative_address()])
    }

    /// Store an edited copy of the IF register.
    pub fn set_interrupt_flags(&mut self, flags: InterruptFlags)
        ensures
            final(self)@ == old(self)@.with_byte(IoRegister::IF, flags.0),
    {
        self.contents[IoRegister::IF.to_relative_address()] = flags.0;
        assert(self@ =~= old(self)@.with_byte(IoRegister::IF, flags.0));
    }

    /// Request an interrupt by setting its bit in IF.
    pub fn request_interrupt(&mut self, interrupt_type: InterruptType)
        ensures
            final(self)@ == old(self)@.with_byte(
                IoRegister::IF,
                old(self)@.byte(IoRegister::IF) | interrupt_type.spec_bit(),
            ),
    {
        let mut flags = self.interrupt_flags();
        flags.set(interrupt_type);
        self.set_interrupt_flags(flags);
    }

    /// Returns whether or not the given register has been written to. Dirty bits are only
    /// tracked for the DMA register and specific audio registers.
    pub fn get_dirty_bit(&self, register: IoRegister) -> (r: bool)
        requires
            spec_dirty_bit(register) is Some,
        ensures
            r == (self@.dirty_bits & spec_dirty_bit(register).unwrap() != 0),
    {
        match dirty_bit_for_register(register) {
            Some(bit) => self.dirty_bits & bit != 0,
            None => false,
        }
    }

    /// Clears the dirty bit for the given register.
    pub fn clear_dirty_bit(&mut self, register: IoRegister)
        requires
            spec_dirty_bit(register) is Some,
        ensures
            final(self)@ == (IoRegistersView {
                dirty_bits: old(self)@.dirty_bits & !spec_dirty_bit(register).unwrap(),
                ..old(self)@
            }),
    {
        if let Some(bit) = dirty_bit_for_register(register) {
            self.dirty_bits = self.dirty_bits & !bit;
        }
    }

    /// Get the current CGB VRAM bank number according to the VBK register. Only bit 0 is read,
    /// other bits are ignored.
    pub fn get_cgb_vram_bank(&self) -> (r: usize)
        ensures
            r == self@.cgb_vram_bank(),
            r <= 1,
    {
        let v = self.contents[IoRegister::VBK.to_relative_address()];
        assert(v & 0x01 <= 1) by (bit_vector);
        (v & 0x01) as usize
    }

    /// Get the current CGB working RAM bank number according to the SVBK register. Only bits 0-2
    /// are read, other bits are ignored. Additionally, a value of 0 is treated as a bank number of
    /// 1.
    pub fn get_cgb_working_ram_bank(&self) -> (r: usize)
        ensures
            r == self@.cgb_working_ram_bank(),
            1 <= r <= 7,
    {
        let v = self.contents[IoRegister::SVBK.to_relative_address()];
        let svbk_value = v & 0x07;
        assert(v & 0x07 <= 7) by (bit_vector);
        // SVBK value of 0 is treated as RAM bank 1
        if svbk_value == 0 {
            1
        } else {
            svbk_value as usize
        }
    }

    /// Update the current PPU mode. This is necessary because the CPU cannot access CGB palette RAM
    /// while the PPU is rendering a scanline.
    pub fn update_ppu_mode(&mut self, mode: PpuMode)
        ensures
            final(self)@ == (IoRegistersView { ppu_mode: mode, ..old(self)@ }),
    {
        self.current_ppu_mode = mode;
    }

    /// Retrieve a reference to BG palette RAM (CGB-only). This should only be called by the PPU.
    pub fn get_bg_palette_ram(&self) -> (r: &[u8; 64])
        ensures
            r@ == self@.bg_palette_ram,
    {
        &self.cgb_bg_palette_ram
    }

    /// Retrieve a reference to OBJ palette RAM (CGB-only). This should only be called by the PPU.
    pub fn get_obj_palette_ram(&self) -> (r: &[u8; 64])
        ensures
            r@ == self@.obj_palette_ram,
    {
        &self.cgb_obj_palette_ram
    }
}

/// Each register sits at exactly one address of the I/O region, 0xFF00 plus its offset, and the
/// address of each register is the one address that names it; offsets lie below 0x80, outside
/// wave RAM (0x30-0x3F), and no two registers share one.
#[verifier::rlimit(40)]
pub proof fn law_register_address(register: IoRegister, other: IoRegister, address: u16)
    ensures
        IoRegister::spec_from_address(address) == Some(register) <==> address == 0xFF00
            + register.spec_relative_address(),
        0 <= register.spec_relative_address() < 0x80,
        !(0x30 <= register.spec_relative_address() <= 0x3F),
        register != other ==> register.spec_relative_address() != other.spec_relative_address(),
{
}

/// The byte written to a register is the byte stored there; no other register changes, nor
/// the palette RAMs, the dirty bits, the mode or the PPU mode.
pub proof fn law_register_write_read(
    io: IoRegistersView,
    register: IoRegister,
    other: IoRegister,
    value: u8,
)
    requires
        io.wf(),
    ensures
        io.with_byte(register, value).byte(register) == value,
        other != register ==> io.with_byte(register, value).byte(other) == io.byte(other),
        io.with_byte(register, value).bg_palette_ram == io.bg_palette_ram,
        io.with_byte(register, value).obj_palette_ram == io.obj_palette_ram,
        io.with_byte(register, value).dirty_bits == io.dirty_bits,
        io.with_byte(register, value).execution_mode == io.execution_mode,
        io.with_byte(register, value).ppu_mode == io.ppu_mode,
{
    law_register_address(register, other, 0);
}

/// Clearing a register's dirty bit leaves it clear, and leaves the other dirty bits as they
/// were.
pub proof fn law_dirty_bit_cleared(dirty_bits: u16, bit: u16, other: u16)
    ensures
        (dirty_bits & !bit) & bit == 0,
        other & bit == 0 ==> ((dirty_bits & !bit) & other) == (dirty_bits & other),
{
    assert((dirty_bits & !bit) & bit == 0) by (bit_vector);
    assert(other & bit == 0 ==> ((dirty_bits & !bit) & other) == (dirty_bits & other))
        by (bit_vector);
}

} // verus!
