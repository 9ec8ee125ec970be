pub mod laws;
pub mod parse;

use crate::cpu::registers::{
    CFlag, CgbSpeedMode, CpuRegister, CpuRegisterPair, CpuRegisters, HFlag, NFlag, ZFlag,
};
use crate::cpu::ExecutionMode;
use crate::memory::ioregisters::IoRegister;
use crate::memory::{AddressSpace, AddressSpaceView};
use crate::ppu::{PpuAccess, PpuState};
use vstd::prelude::*;

pub use parse::{parse_next_instruction, parse_next_instruction_with_halt_bug, ParseError};

verus! {

broadcast use crate::memory::lemma_address_space_wf;

/// A 16-bit value taken modulo 2^16, the way the CPU's 16-bit arithmetic wraps.
pub open spec fn wrap16(v: int) -> u16 {
    (v % 0x10000) as u16
}

/// The address 0xFF00 + `low`, used by the LDH instructions.
pub open spec fn ff_page(low: u8) -> u16 {
    (0xFF00 + low) as u16
}

fn ff_page_address(low: u8) -> (r: u16)
    ensures
        r == ff_page(low),
{
    0xFF00u16 + low as u16
}

fn wrapping_inc(v: u16) -> (r: u16)
    ensures
        r == wrap16(v + 1),
{
    v.wrapping_add(1)
}

fn wrapping_dec(v: u16) -> (r: u16)
    ensures
        r == wrap16(v - 1),
{
    v.wrapping_sub(1)
}

pub(crate) fn wrapping_add2(v: u16) -> (r: u16)
    ensures
        r == wrap16(v + 2),
{
    v.wrapping_add(2)
}

pub(crate) fn wrapping_sub2(v: u16) -> (r: u16)
    ensures
        r == wrap16(v - 2),
{
    v.wrapping_sub(2)
}

/// The target of a relative jump: `base` plus the signed offset, wrapping.
fn relative_address(base: u16, offset: i8) -> (r: u16)
    ensures
        r == wrap16(base + offset),
{
    base.wrapping_add_signed(offset as i16)
}

/// The condition of a conditional jump, call or return.
#[derive(Debug, Clone, Copy, PartialEq, Eq, Structural)]
pub enum JumpCondition {
    NZ,
    Z,
    NC,
    C,
}

impl JumpCondition {
    pub open spec fn spec_check(self, regs: CpuRegisters) -> bool {
        match self {
            JumpCondition::NZ => !regs.spec_z(),
            JumpCondition::Z => regs.spec_z(),
            JumpCondition::NC => !regs.spec_c(),
            JumpCondition::C => regs.spec_c(),
        }
    }

    fn check(self, cpu_registers: &CpuRegisters) -> (r: bool)
        ensures
            r == self.spec_check(*cpu_registers),
    {
        match self {
            Self::NZ => !cpu_registers.z_flag(),
            Self::Z => cpu_registers.z_flag(),
            Self::NC => !cpu_registers.c_flag(),
            Self::C => cpu_registers.c_flag(),
        }
    }
}

/// Where an instruction reads an 8-bit operand from.
#[derive(Debug, Clone, Copy, PartialEq, Eq, Structural)]
pub enum ReadTarget {
    Register(CpuRegister),
    Immediate(u8),
    IndirectHL,
    IndirectHLInc,
    IndirectHLDec,
    IndirectBC,
    IndirectDE,
    Accumulator,
    FFIndirectC,
    FFDirect(u8),
    Direct(u16),
}

impl ReadTarget {
    /// The value read and the registers afterwards (HL moves for the (HL+) and (HL-) forms).
    pub open spec fn spec_read(self, regs: CpuRegisters, mem: AddressSpaceView, ppu: PpuAccess) -> (
        u8,
        CpuRegisters,
    ) {
        match self {
            ReadTarget::Register(register) => (regs.register_value(register), regs),
            ReadTarget::Immediate(n) => (n, regs),
            ReadTarget::IndirectHL => (mem.read(regs.spec_hl(), ppu), regs),
            ReadTarget::IndirectHLInc => (
                mem.read(regs.spec_hl(), ppu),
                regs.with_hl(wrap16(regs.spec_hl() + 1)),
            ),
            ReadTarget::IndirectHLDec => (
                mem.read(regs.spec_hl(), ppu),
                regs.with_hl(wrap16(regs.spec_hl() - 1)),
            ),
            ReadTarget::IndirectBC => (mem.read(regs.spec_bc(), ppu), regs),
            ReadTarget::IndirectDE => (mem.read(regs.spec_de(), ppu), regs),
            ReadTarget::Accumulator => (regs.accumulator, regs),
            ReadTarget::FFIndirectC => (mem.read(ff_page(regs.c), ppu), regs),
            ReadTarget::FFDirect(n) => (mem.read(ff_page(n), ppu), regs),
            ReadTarget::Direct(nn) => (mem.read(nn, ppu), regs),
        }
    }

    pub open spec fn spec_cycles(self) -> u32 {
        match self {
            ReadTarget::Register(..) | ReadTarget::Accumulator => 0,
            ReadTarget::FFDirect(..) => 8,
            ReadTarget::Direct(..) => 12,
            _ => 4,
        }
    }

    fn read_value(
        self,
        cpu_registers: &mut CpuRegisters,
        address_space: &AddressSpace,
        ppu_state: &PpuState,
    ) -> (r: u8)
        ensures
            (r, *final(cpu_registers)) == self.spec_read(
                *old(cpu_registers),
                address_space@,
                ppu_state@.access(),
            ),
    {
        match self {
            Self::Register(register) => cpu_registers.read_register(register),
            Self::Immediate(n) => n,
            Self::IndirectHL => address_space.read_address_u8(cpu_registers.hl(), ppu_state),
            Self::IndirectHLInc => {
                let hl = cpu_registers.hl();
                let value = address_space.read_address_u8(hl, ppu_state);
                cpu_registers.set_hl(wrapping_inc(hl));
                value
            },
            Self::IndirectHLDec => {
                let hl = cpu_registers.hl();
                let value = address_space.read_address_u8(hl, ppu_state);
                cpu_registers.set_hl(wrapping_dec(hl));
                value
            },
            Self::IndirectBC => address_space.read_address_u8(cpu_registers.bc(), ppu_state),
            Self::IndirectDE => address_space.read_address_u8(cpu_registers.de(), ppu_state),
            Self::Accumulator => cpu_registers.accumulator,
            Self::FFIndirectC => {
                let address = ff_page_address(cpu_registers.c);
                address_space.read_address_u8(address, ppu_state)
            },
            Self::FFDirect(n) => {
                let address = ff_page_address(n);
                address_space.read_address_u8(address, ppu_state)
            },
            Self::Direct(nn) => address_space.read_address_u8(nn, ppu_state),
        }
    }

    fn cycles_required(self) -> (r: u32)
        ensures
            r == self.spec_cycles(),
    {
        match self {
            Self::Register(..) | Self::Accumulator => 0,
            Self::Immediate(..)
            | Self::IndirectHL
            | Self::IndirectHLInc
            | Self::IndirectHLDec
            | Self::IndirectBC
            | Self::IndirectDE
            | Self::FFIndirectC => 4,
            Self::FFDirect(..) => 8,
            Self::Direct(..) => 12,
        }
    }
}

/// Where an instruction writes an 8-bit result to.
#[derive(Debug, Clone, Copy, PartialEq, Eq, Structural)]
pub enum WriteTarget {
    Register(CpuRegister),
    IndirectHL,
    IndirectHLInc,
    IndirectHLDec,
    IndirectBC,
    IndirectDE,
    Accumulator,
    FFIndirectC,
    FFDirect(u8),
    Direct(u16),
}

impl WriteTarget {
    /// The registers and memory after writing `value`.
    pub open spec fn spec_write(
        self,
        value: u8,
        regs: CpuRegisters,
        mem: AddressSpaceView,
        ppu: PpuAccess,
    ) -> (CpuRegisters, AddressSpaceView) {
        match self {
            WriteTarget::Register(register) => (regs.with_register(register, value), mem),
            WriteTarget::IndirectHL => (regs, mem.write(regs.spec_hl(), value, ppu)),
            WriteTarget::IndirectHLInc => (
                regs.with_hl(wrap16(regs.spec_hl() + 1)),
                mem.write(regs.spec_hl(), value, ppu),
            ),
            WriteTarget::IndirectHLDec => (
                regs.with_hl(wrap16(regs.spec_hl() - 1)),
                mem.write(regs.spec_hl(), value, ppu),
            ),
            WriteTarget::IndirectBC => (regs, mem.write(regs.spec_bc(), value, ppu)),
            WriteTarget::IndirectDE => (regs, mem.write(regs.spec_de(), value, ppu)),
            WriteTarget::Accumulator => (CpuRegisters { accumulator: value, ..regs }, mem),
            WriteTarget::FFIndirectC => (regs, mem.write(ff_page(regs.c), value, ppu)),
            WriteTarget::FFDirect(n) => (regs, mem.write(ff_page(n), value, ppu)),
            WriteTarget::Direct(nn) => (regs, mem.write(nn, value, ppu)),
        }
    }

    pub open spec fn spec_cycles(self) -> u32 {
        match self {
            WriteTarget::Register(..) | WriteTarget::Accumulator => 0,
            WriteTarget::FFDirect(..) => 8,
            WriteTarget::Direct(..) => 12,
            _ => 4,
        }
    }

    fn write_value(
        self,
        value: u8,
        cpu_registers: &mut CpuRegisters,
        address_space: &mut AddressSpace,
        ppu_state: &PpuState,
    )
        ensures
            (*final(cpu_registers), final(address_space)@) == self.spec_write(
                value,
                *old(cpu_registers),
                old(address_space)@,
                ppu_state@.access(),
            ),
    {
        match self {
            Self::Register(register) => {
                cpu_registers.set_register(register, value);
            },
            Self::IndirectHL => {
                address_space.write_address_u8(cpu_registers.hl(), value, ppu_state);
            },
            Self::IndirectHLInc => {
                let hl = cpu_registers.hl();
                address_space.write_address_u8(hl, value, ppu_state);
                cpu_registers.set_hl(wrapping_inc(hl));
            },
            Self::IndirectHLDec => {
                let hl = cpu_registers.hl();
                address_space.write_address_u8(hl, value, ppu_state);
                cpu_registers.set_hl(wrapping_dec(hl));
            },
            Self::IndirectBC => {
                address_space.write_address_u8(cpu_registers.bc(), value, ppu_state);
            },
            Self::IndirectDE => {
                address_space.write_address_u8(cpu_registers.de(), value, ppu_state);
            },
            Self::Accumulator => {
                cpu_registers.accumulator = value;
            },
            Self::FFIndirectC => {
                let address = ff_page_address(cpu_registers.c);
                address_space.write_address_u8(address, value, ppu_state);
            },
            Self::FFDirect(n) => {
                let address = ff_page_address(n);
                address_space.write_address_u8(address, value, ppu_state);
            },
            Self::Direct(nn) => {
                address_space.write_address_u8(nn, value, ppu_state);
            },
        }
    }

    fn cycles_required(self) -> (r: u32)
        ensures
            r == self.spec_cycles(),
    {
        match self {
            Self::Register(..) | Self::Accumulator => 0,
            Self::IndirectHL
            | Self::IndirectHLInc
            | Self::IndirectHLDec
            | Self::IndirectBC
            | Self::IndirectDE
            | Self::FFIndirectC => 4,
            Self::FFDirect(..) => 8,
            Self::Direct(..) => 12,
        }
    }
}

/// An 8-bit operand that an instruction reads and writes back.
#[derive(Debug, Clone, Copy, PartialEq, Eq, Structural)]
pub enum ModifyTarget {
    Register(CpuRegister),
    IndirectHL,
    Accumulator,
}

impl ModifyTarget {
    pub open spec fn spec_read(self, regs: CpuRegisters, mem: AddressSpaceView, ppu: PpuAccess) -> u8 {
        match self {
            ModifyTarget::Register(register) => regs.register_value(register),
            ModifyTarget::IndirectHL => mem.read(regs.spec_hl(), ppu),
            ModifyTarget::Accumulator => regs.accumulator,
        }
    }

    pub open spec fn spec_write(
        self,
        value: u8,
        regs: CpuRegisters,
        mem: AddressSpaceView,
        ppu: PpuAccess,
    ) -> (CpuRegisters, AddressSpaceView) {
        match self {
            ModifyTarget::Register(register) => (regs.with_register(register, value), mem),
            ModifyTarget::IndirectHL => (regs, mem.write(regs.spec_hl(), value, ppu)),
            ModifyTarget::Accumulator => (CpuRegisters { accumulator: value, ..regs }, mem),
        }
    }

    pub open spec fn spec_cycles(self) -> u32 {
        match self {
            ModifyTarget::IndirectHL => 4,
            _ => 0,
        }
    }

    fn read_value(
        self,
        cpu_registers: &CpuRegisters,
        address_space: &AddressSpace,
        ppu_state: &PpuState,
    ) -> (r: u8)
        ensures
            r == self.spec_read(*cpu_registers, address_space@, ppu_state@.access()),
    {
        match self {
            Self::Register(register) => cpu_registers.read_register(register),
            Self::IndirectHL => address_space.read_address_u8(cpu_registers.hl(), ppu_state),
            Self::Accumulator => cpu_registers.accumulator,
        }
    }

    fn write_value(
        self,
        value: u8,
        cpu_registers: &mut CpuRegisters,
        address_space: &mut AddressSpace,
        ppu_state: &PpuState,
    )
        ensures
            (*final(cpu_registers), final(address_space)@) == self.spec_write(
                value,
                *old(cpu_registers),
                old(address_space)@,
                ppu_state@.access(),
            ),
    {
        match self {
            Self::Register(register) => {
                cpu_registers.set_register(register, value);
            },
            Self::IndirectHL => {
                address_space.write_address_u8(cpu_registers.hl(), value, ppu_state);
            },
            Self::Accumulator => {
                cpu_registers.accumulator = value;
            },
        }
    }

    fn cycles_required(self) -> (r: u32)
        ensures
            r == self.spec_cycles(),
    {
        match self {
            Self::Register(..) | Self::Accumulator => 0,
            Self::IndirectHL => 4,
        }
    }
}

/// 1 for a set carry, 0 otherwise.
pub open spec fn carry_value(carry: bool) -> int {
    if carry {
        1
    } else {
        0
    }
}

/// 8-bit addition with carry-in: the wrapped sum, the carry out of bit 7 and the carry out of
/// bit 3.
pub open spec fn alu_add(l: u8, r: u8, carry: bool) -> (u8, bool, bool) {
    let total = l + r + carry_value(carry);
    ((total % 256) as u8, total >= 256, l % 16 + r % 16 + carry_value(carry) >= 16)
}

/// 16-bit addition: the wrapped sum, the carry out of bit 15 and the carry out of bit 11.
pub open spec fn alu_add_u16(l: u16, r: u16) -> (u16, bool, bool) {
    (wrap16(l + r), l + r >= 0x10000, l % 0x1000 + r % 0x1000 >= 0x1000)
}

/// 8-bit subtraction with borrow-in: the wrapped difference, the borrow into bit 7 and the
/// borrow into bit 3.
pub open spec fn alu_sub(l: u8, r: u8, carry: bool) -> (u8, bool, bool) {
    (
        ((l - r - carry_value(carry)) % 256) as u8,
        l < r + carry_value(carry),
        l % 16 < r % 16 + carry_value(carry),
    )
}

/// Rotate left: bit 7 moves to bit 0 and to the carry.
pub open spec fn alu_rotate_left(v: u8) -> (u8, bool) {
    (((v * 2) % 256 + v / 128) as u8, v >= 128)
}

/// Rotate left through the carry: the old carry moves to bit 0 and bit 7 to the carry.
pub open spec fn alu_rotate_left_thru_carry(v: u8, carry: bool) -> (u8, bool) {
    (((v * 2) % 256 + carry_value(carry)) as u8, v >= 128)
}

/// Rotate right: bit 0 moves to bit 7 and to the carry.
pub open spec fn alu_rotate_right(v: u8) -> (u8, bool) {
    ((v / 2 + (v % 2) * 128) as u8, v % 2 == 1)
}

/// Rotate right through the carry: the old carry moves to bit 7 and bit 0 to the carry.
pub open spec fn alu_rotate_right_thru_carry(v: u8, carry: bool) -> (u8, bool) {
    ((v / 2 + carry_value(carry) * 128) as u8, v % 2 == 1)
}

/// Shift left: bit 7 moves to the carry and bit 0 becomes 0.
pub open spec fn alu_shift_left(v: u8) -> (u8, bool) {
    (((v * 2) % 256) as u8, v >= 128)
}

/// Arithmetic shift right: bit 7 is kept and bit 0 moves to the carry.
pub open spec fn alu_shift_right_arithmetic(v: u8) -> (u8, bool) {
    ((v / 2 + (v / 128) * 128) as u8, v % 2 == 1)
}

/// Logical shift right: bit 7 becomes 0 and bit 0 moves to the carry.
pub open spec fn alu_shift_right_logical(v: u8) -> (u8, bool) {
    ((v / 2) as u8, v % 2 == 1)
}

/// The byte with its two nibbles exchanged.
pub open spec fn alu_swap(v: u8) -> u8 {
    ((v % 16) * 16 + v / 16) as u8
}

/// SP plus a signed offset, with the H and C flags the way ADD SP,e and LD HL,SP+e set them:
/// for a non-negative offset the carries out of bits 3 and 7 of the low byte; for a negative
/// offset whether the low nibble (for H) and low byte (for C) of SP are at least the
/// offset's magnitude.
pub open spec fn alu_sp_offset(sp: u16, offset: i8) -> (u16, bool, bool) {
    if offset >= 0 {
        (wrap16(sp + offset), sp % 256 + offset >= 256, sp % 16 + offset % 16 >= 16)
    } else {
        (wrap16(sp + offset), -offset <= sp % 256, (-offset) % 16 <= sp % 16)
    }
}

/// The accumulator and carry after DAA, from the accumulator and the N, H and C flags.
pub open spec fn alu_decimal_adjust(a: u8, n: bool, h: bool, c: bool) -> (u8, bool) {
    if n {
        let v1: int = if h {
            (a - 0x06) % 256
        } else {
            a as int
        };
        let v2: int = if c {
            (v1 - 0x60) % 256
        } else {
            v1
        };
        (v2 as u8, c)
    } else {
        let carry = a > 0x99 || c;
        let v1: int = if carry {
            (a + 0x60) % 256
        } else {
            a as int
        };
        let v2: int = if v1 % 16 >= 10 || h {
            (v1 + 0x06) % 256
        } else {
            v1
        };
        (v2 as u8, carry)
    }
}

fn add_u8(l_value: u8, r_value: u8, carry: bool) -> (r: (u8, CFlag, HFlag))
    ensures
        (r.0, r.1.0, r.2.0) == alu_add(l_value, r_value, carry),
{
    let carry: u16 = if carry {
        1
    } else {
        0
    };
    let total: u16 = l_value as u16 + r_value as u16 + carry;
    let h_flag = (l_value % 16) as u16 + (r_value % 16) as u16 + carry >= 16;
    ((total % 256) as u8, CFlag(total >= 256), HFlag(h_flag))
}

fn add_u16(l_value: u16, r_value: u16) -> (r: (u16, CFlag, HFlag))
    ensures
        (r.0, r.1.0, r.2.0) == alu_add_u16(l_value, r_value),
{
    let total: u32 = l_value as u32 + r_value as u32;
    let h_flag = l_value % 0x1000 + r_value % 0x1000 >= 0x1000;
    ((total % 0x10000) as u16, CFlag(total >= 0x10000), HFlag(h_flag))
}

fn sub_u8(l_value: u8, r_value: u8, carry: bool) -> (r: (u8, CFlag, HFlag))
    ensures
        (r.0, r.1.0, r.2.0) == alu_sub(l_value, r_value, carry),
{
    let carry: u16 = if carry {
        1
    } else {
        0
    };
    let subtrahend: u16 = r_value as u16 + carry;
    let borrow = (l_value as u16) < subtrahend;
    let difference: u16 = (l_value as u16 + 256) - subtrahend;
    let h_flag = ((l_value % 16) as u16) < (r_value % 16) as u16 + carry;
    ((difference % 256) as u8, CFlag(borrow), HFlag(h_flag))
}

fn rotate_left(value: u8) -> (r: (u8, CFlag))
    ensures
        (r.0, r.1.0) == alu_rotate_left(value),
{
    let leftmost_set = value >= 0x80;
    let new_value = ((value as u16 * 2) % 256 + (value / 128) as u16) as u8;
    (new_value, CFlag(leftmost_set))
}

fn rotate_left_thru_carry(value: u8, carry: bool) -> (r: (u8, CFlag))
    ensures
        (r.0, r.1.0) == alu_rotate_left_thru_carry(value, carry),
{
    let carry: u16 = if carry {
        1
    } else {
        0
    };
    let new_value = ((value as u16 * 2) % 256 + carry) as u8;
    (new_value, CFlag(value >= 0x80))
}

fn rotate_right(value: u8) -> (r: (u8, CFlag))
    ensures
        (r.0, r.1.0) == alu_rotate_right(value),
{
    let rightmost_set = value % 2 == 1;
    let new_value = (value / 2 + (value % 2) * 128) as u8;
    (new_value, CFlag(rightmost_set))
}

fn rotate_right_thru_carry(value: u8, carry: bool) -> (r: (u8, CFlag))
    ensures
        (r.0, r.1.0) == alu_rotate_right_thru_carry(value, carry),
{
    let carry: u8 = if carry {
        0x80
    } else {
        0
    };
    (value / 2 + carry, CFlag(value % 2 == 1))
}

fn shift_left(value: u8) -> (r: (u8, CFlag))
    ensures
        (r.0, r.1.0) == alu_shift_left(value),
{
    (((value as u16 * 2) % 256) as u8, CFlag(value >= 0x80))
}

fn shift_right_arithmetic(value: u8) -> (r: (u8, CFlag))
    ensures
        (r.0, r.1.0) == alu_shift_right_arithmetic(value),
{
    (value / 2 + (value / 128) * 128, CFlag(value % 2 == 1))
}

fn shift_right_logical(value: u8) -> (r: (u8, CFlag))
    ensures
        (r.0, r.1.0) == alu_shift_right_logical(value),
{
    (value / 2, CFlag(value % 2 == 1))
}

fn swap_bits(value: u8) -> (r: u8)
    ensures
        r == alu_swap(value),
{
    (value % 16) * 16 + value / 16
}

fn add_sp_offset(sp: u16, offset: i8) -> (r: (u16, CFlag, HFlag))
    ensures
        (r.0, r.1.0, r.2.0) == alu_sp_offset(sp, offset),
{
    if offset >= 0 {
        let offset = offset as u16;
        let h_flag = sp % 16 + offset % 16 >= 16;
        let carry_flag = sp % 256 + offset >= 256;
        (sp.wrapping_add(offset), CFlag(carry_flag), HFlag(h_flag))
    } else {
        let offset = (-(offset as i16)) as u16;
        // These flags do the opposite of what one would expect for a subtraction.
        let h_flag = offset % 16 <= sp % 16;
        let carry_flag = offset <= sp % 256;
        (sp.wrapping_sub(offset), CFlag(carry_flag), HFlag(h_flag))
    }
}

fn decimal_adjust_accumulator(cpu_registers: &mut CpuRegisters)
    ensures
        ({
            let (value, carry) = alu_decimal_adjust(
                old(cpu_registers).accumulator,
                old(cpu_registers).spec_n(),
                old(cpu_registers).spec_h(),
                old(cpu_registers).spec_c(),
            );
            *final(cpu_registers) == (CpuRegisters { accumulator: value, ..*old(cpu_registers) }).with_some_flags(
                Some(ZFlag(value == 0)),
                None,
                Some(HFlag(false)),
                if old(cpu_registers).spec_n() {
                    None
                } else {
                    Some(CFlag(carry))
                },
            )
        }),
{
    let (value, carry) = decimal_adjust(
        cpu_registers.accumulator,
        cpu_registers.n_flag(),
        cpu_registers.h_flag(),
        cpu_registers.c_flag(),
    );
    let n_flag = cpu_registers.n_flag();
    cpu_registers.accumulator = value;
    if n_flag {
        // Last op was subtraction
        cpu_registers.set_some_flags(Some(ZFlag(value == 0)), None, Some(HFlag(false)), None);
    } else {
        // Last op was addition
        cpu_registers.set_some_flags(
            Some(ZFlag(value == 0)),
            None,
            Some(HFlag(false)),
            Some(CFlag(carry)),
        );
    }
}

fn decimal_adjust(accumulator: u8, n: bool, h: bool, c: bool) -> (r: (u8, bool))
    ensures
        r == alu_decimal_adjust(accumulator, n, h, c),
{
    if n {
        let mut value = accumulator;
        if h {
            value = value.wrapping_sub(0x06);
        }
        assert(value as int == if h { (accumulator - 0x06) % 256 } else { accumulator as int });
        let ghost v1: int = value as int;
        if c {
            value = value.wrapping_sub(0x60);
        }
        assert(value as int == if c { (v1 - 0x60) % 256 } else { v1 });
        (value, c)
    } else {
        let mut value = accumulator;
        let mut carry = false;
        if value > 0x99 || c {
            value = value.wrapping_add(0x60);
            carry = true;
        }
        assert(value as int == if carry { (accumulator + 0x60) % 256 } else { accumulator as int });
        let ghost v1: int = value as int;
        if value % 16 >= 0x0A || h {
            value = value.wrapping_add(0x06);
        }
        assert(value as int == if v1 % 16 >= 10 || h { (v1 + 0x06) % 256 } else { v1 });
        (value, carry)
    }
}

/// One decoded CPU instruction.
#[derive(Debug, Clone, Copy, PartialEq, Eq, Structural)]
pub enum Instruction {
    // All 8-bit LD/LDH instructions
    Load(WriteTarget, ReadTarget),
    // LD rr, nn
    LoadRegisterPairImmediate(CpuRegisterPair, u16),
    // LD (nn), SP
    LoadDirectStackPointer(u16),
    // LD SP, HL
    LoadStackPointerHL,
    // LDHL SP, e
    LoadHLStackPointerOffset(i8),
    // PUSH rr
    PushStack(CpuRegisterPair),
    // POP rr
    PopStack(CpuRegisterPair),
    // ADD r / (HL) / n
    Add(ReadTarget),
    // ADC r / (HL) / n
    AddWithCarry(ReadTarget),
    // SUB r / (HL) / n
    Subtract(ReadTarget),
    // SBC r / (HL) / n
    SubtractWithCarry(ReadTarget),
    // CP r / (HL) / n
    Compare(ReadTarget),
    // INC r / (HL)
    Increment(ModifyTarget),
    // DEC r / (HL)
    Decrement(ModifyTarget),
    // AND r / (HL) / n
    And(ReadTarget),
    // OR r / (HL) / n
    Or(ReadTarget),
    // XOR r / (HL) / n
    Xor(ReadTarget),
    // ADD HL, rr
    AddHLRegister(CpuRegisterPair),
    // INC rr,
    IncRegisterPair(CpuRegisterPair),
    // DEC rr,
    DecRegisterPair(CpuRegisterPair),
    // ADD SP, e
    AddSPImmediate(i8),
    // RLCA / RLC r / RLC (HL)
    RotateLeft(ModifyTarget),
    // RLA / RL r / RL (HL)
    RotateLeftThruCarry(ModifyTarget),
    // RRCA / RRC r / RRC (HL)
    RotateRight(ModifyTarget),
    // RRA / RR r / RR (HL)
    RotateRightThruCarry(ModifyTarget),
    // SLA r / (HL)
    ShiftLeft(ModifyTarget),
    // SWAP r / (HL)
    Swap(ModifyTarget),
    // SRA r / (HL)
    ArithmeticShiftRight(ModifyTarget),
    // SRL r / (HL)
    LogicalShiftRight(ModifyTarget),
    // BIT n, r / (HL)
    TestBit(u8, ReadTarget),
    // RES n, r / (HL)
    ResetBit(u8, ModifyTarget),
    // SET n, r / (HL)
    SetBit(u8, ModifyTarget),
    // CCF
    ComplementCarryFlag,
    // SCF
    SetCarryFlag,
    // DAA
    DecimalAdjustAccumulator,
    // CPL
    ComplementAccumulator,
    // JP nn
    Jump(u16),
    // JP HL
    JumpHL,
    // JP cc, nn
    JumpCond(JumpCondition, u16),
    // JR e
    RelativeJump(i8),
    // JR cc, e
    RelativeJumpCond(JumpCondition, i8),
    // CALL nn,
    Call(u16),
    // CALL cc, nn
    CallCond(JumpCondition, u16),
    // RET
    Return,
    // RET cc
    ReturnCond(JumpCondition),
    // RETI
    ReturnFromInterruptHandler,
    // RST n
    RestartCall(u8),
    // HALT
    Halt,
    // STOP
    Stop,
    // DI
    DisableInterrupts,
    // EI
    EnableInterrupts,
    // NOP
    NoOp,
}

/// Why an instruction could not be executed.
#[derive(Debug, Clone, Copy, PartialEq, Eq, Structural)]
pub enum ExecutionError {
    /// STOP other than as a CGB speed switch (KEY1 bit 0 set in CGB mode) is not supported.
    UnsupportedStop,
}

/// The registers with SP lowered by 2 and memory with `value` pushed at the new SP.
pub open spec fn push_u16(regs: CpuRegisters, mem: AddressSpaceView, value: u16, ppu: PpuAccess) -> (
    CpuRegisters,
    AddressSpaceView,
) {
    let sp = wrap16(regs.sp - 2);
    (CpuRegisters { sp, ..regs }, mem.write_u16(sp, value, ppu))
}

/// The registers with PC loaded from the top of the stack and SP raised by 2.
pub open spec fn pop_pc(regs: CpuRegisters, mem: AddressSpaceView, ppu: PpuAccess) -> CpuRegisters {
    CpuRegisters { pc: mem.read_u16(regs.sp, ppu), sp: wrap16(regs.sp + 2), ..regs }
}

/// The result of an 8-bit rotate or shift written back to its operand: Z is set for a zero
/// result (never for the one-byte accumulator forms when `accumulator_z_clear`), N and H are
/// cleared and C takes the bit shifted out.
pub open spec fn write_shifted(
    target: ModifyTarget,
    result: (u8, bool),
    accumulator_z_clear: bool,
    regs: CpuRegisters,
    mem: AddressSpaceView,
    ppu: PpuAccess,
) -> (CpuRegisters, AddressSpaceView) {
    let (value, carry) = result;
    let (r1, m1) = target.spec_write(value, regs, mem, ppu);
    let z = if accumulator_z_clear {
        target != ModifyTarget::Accumulator && value == 0
    } else {
        value == 0
    };
    (r1.with_flags(z, false, false, carry), m1)
}

/// KEY1 after a speed switch: bit 0 (switch armed) cleared and bit 7 showing the new speed.
pub open spec fn key1_after_switch(key1: u8, new_mode: CgbSpeedMode) -> u8 {
    match new_mode {
        CgbSpeedMode::Normal => key1 & 0x7E,
        CgbSpeedMode::Double => (key1 & 0x7E) | 0x80,
    }
}

impl Instruction {
    /// Whether the instruction is one of the loads, stack pushes and pops.
    pub open spec fn spec_is_load(self) -> bool {
        self is Load || self is LoadRegisterPairImmediate || self is LoadDirectStackPointer || self is LoadStackPointerHL || self is LoadHLStackPointerOffset || self is PushStack || self is PopStack
    }

    /// Whether the instruction is one of the 8-bit additions and subtractions into the
    /// accumulator.
    pub open spec fn spec_is_add_sub(self) -> bool {
        self is Add || self is AddWithCarry || self is Subtract || self is SubtractWithCarry
    }

    /// Whether the instruction is one of the comparisons and bitwise logic instructions on the
    /// accumulator.
    pub open spec fn spec_is_logic(self) -> bool {
        self is Compare || self is And || self is Or || self is Xor
    }

    /// Whether the instruction is one of the increments, decrements, 16-bit additions and flag
    /// instructions.
    pub open spec fn spec_is_arithmetic(self) -> bool {
        self is Increment || self is Decrement || self is AddHLRegister || self is IncRegisterPair || self is DecRegisterPair || self is AddSPImmediate || self is ComplementCarryFlag || self is SetCarryFlag || self is DecimalAdjustAccumulator || self is ComplementAccumulator
    }

    /// Whether the instruction is one of the rotates.
    pub open spec fn spec_is_rotate(self) -> bool {
        self is RotateLeft || self is RotateLeftThruCarry || self is RotateRight
            || self is RotateRightThruCarry
    }

    /// Whether the instruction is one of the shifts, the nibble swap and the single-bit
    /// instructions.
    pub open spec fn spec_is_shift_bit(self) -> bool {
        self is ShiftLeft || self is Swap || self is ArithmeticShiftRight || self is LogicalShiftRight
            || self is TestBit || self is SetBit || self is ResetBit
    }

    /// Whether the instruction is one of jumps, calls, returns and the CPU control instructions.
    pub open spec fn spec_is_control(self) -> bool {
        self is Jump || self is JumpHL || self is JumpCond || self is RelativeJump || self is RelativeJumpCond || self is Call || self is CallCond || self is Return || self is ReturnCond || self is ReturnFromInterruptHandler || self is RestartCall || self is Halt || self is Stop || self is DisableInterrupts || self is EnableInterrupts || self is NoOp
    }

    /// The bit index of BIT/SET/RES names one of the 8 bits of a byte.
    pub open spec fn spec_well_formed(self) -> bool {
        match self {
            Instruction::TestBit(n, _) => n < 8,
            Instruction::SetBit(n, _) => n < 8,
            Instruction::ResetBit(n, _) => n < 8,
            _ => true,
        }
    }

    /// What the instruction does to the registers and memory, apart from the interrupt delay
    /// flag; PC has already been advanced past the instruction.
    #[verifier::opaque]
    pub open spec fn spec_effect(self, regs: CpuRegisters, mem: AddressSpaceView, ppu: PpuAccess) -> Result<
        (CpuRegisters, AddressSpaceView),
        ExecutionError,
    > {
        match self {
            Instruction::Load(write_target, read_target) => {
                let (value, r1) = read_target.spec_read(regs, mem, ppu);
                Ok(write_target.spec_write(value, r1, mem, ppu))
            },
            Instruction::LoadRegisterPairImmediate(rr, nn) => Ok((regs.with_pair(rr, nn), mem)),
            Instruction::LoadDirectStackPointer(nn) => Ok((regs, mem.write_u16(nn, regs.sp, ppu))),
            Instruction::LoadStackPointerHL => Ok((CpuRegisters { sp: regs.spec_hl(), ..regs }, mem)),
            Instruction::LoadHLStackPointerOffset(e) => {
                let (sum, c, h) = alu_sp_offset(regs.sp, e);
                Ok((regs.with_hl(sum).with_flags(false, false, h, c), mem))
            },
            Instruction::PushStack(rr) => {
                let r1 = CpuRegisters { sp: wrap16(regs.sp - 2), ..regs };
                Ok((r1, mem.write_u16(r1.sp, r1.pair_value(rr), ppu)))
            },
            Instruction::PopStack(rr) => {
                let r1 = regs.with_pair(rr, mem.read_u16(regs.sp, ppu));
                Ok((CpuRegisters { sp: wrap16(r1.sp + 2), ..r1 }, mem))
            },
            Instruction::Add(read_target) => {
                let (value, r1) = read_target.spec_read(regs, mem, ppu);
                let (sum, c, h) = alu_add(regs.accumulator, value, false);
                Ok((CpuRegisters { accumulator: sum, ..r1 }.with_flags(sum == 0, false, h, c), mem))
            },
            Instruction::AddWithCarry(read_target) => {
                let (value, r1) = read_target.spec_read(regs, mem, ppu);
                let (sum, c, h) = alu_add(regs.accumulator, value, regs.spec_c());
                Ok((CpuRegisters { accumulator: sum, ..r1 }.with_flags(sum == 0, false, h, c), mem))
            },
            Instruction::Subtract(read_target) => {
                let (value, r1) = read_target.spec_read(regs, mem, ppu);
                let (d, c, h) = alu_sub(regs.accumulator, value, false);
                Ok((CpuRegisters { accumulator: d, ..r1 }.with_flags(d == 0, true, h, c), mem))
            },
            Instruction::SubtractWithCarry(read_target) => {
                let (value, r1) = read_target.spec_read(regs, mem, ppu);
                let (d, c, h) = alu_sub(regs.accumulator, value, regs.spec_c());
                Ok((CpuRegisters { accumulator: d, ..r1 }.with_flags(d == 0, true, h, c), mem))
            },
            Instruction::Compare(read_target) => {
                let (value, r1) = read_target.spec_read(regs, mem, ppu);
                let (d, c, h) = alu_sub(regs.accumulator, value, false);
                Ok((r1.with_flags(d == 0, true, h, c), mem))
            },
            Instruction::Increment(target) => {
                let (sum, _, h) = alu_add(target.spec_read(regs, mem, ppu), 1, false);
                let (r1, m1) = target.spec_write(sum, regs, mem, ppu);
                Ok(
                    (
                        r1.with_some_flags(
                            Some(ZFlag(sum == 0)),
                            Some(NFlag(false)),
                            Some(HFlag(h)),
                            None,
                        ),
                        m1,
                    ),
                )
            },
            Instruction::Decrement(target) => {
                let (d, _, h) = alu_sub(target.spec_read(regs, mem, ppu), 1, false);
                let (r1, m1) = target.spec_write(d, regs, mem, ppu);
                Ok(
                    (
                        r1.with_some_flags(
                            Some(ZFlag(d == 0)),
                            Some(NFlag(true)),
                            Some(HFlag(h)),
                            None,
                        ),
                        m1,
                    ),
                )
            },
            Instruction::And(read_target) => {
                let (value, r1) = read_target.spec_read(regs, mem, ppu);
                let result = regs.accumulator & value;
                Ok(
                    (
                        CpuRegisters { accumulator: result, ..r1 }.with_flags(
                            result == 0,
                            false,
                            true,
                            false,
                        ),
                        mem,
                    ),
                )
            },
            Instruction::Or(read_target) => {
                let (value, r1) = read_target.spec_read(regs, mem, ppu);
                let result = regs.accumulator | value;
                Ok(
                    (
                        CpuRegisters { accumulator: result, ..r1 }.with_flags(
                            result == 0,
                            false,
                            false,
                            false,
                        ),
                        mem,
                    ),
                )
            },
            Instruction::Xor(read_target) => {
                let (value, r1) = read_target.spec_read(regs, mem, ppu);
                let result = regs.accumulator ^ value;
                Ok(
                    (
                        CpuRegisters { accumulator: result, ..r1 }.with_flags(
                            result == 0,
                            false,
                            false,
                            false,
                        ),
                        mem,
                    ),
                )
            },
            Instruction::AddHLRegister(rr) => {
                let (sum, c, h) = alu_add_u16(regs.spec_hl(), regs.pair_value(rr));
                Ok(
                    (
                        regs.with_hl(sum).with_some_flags(
                            None,
                            Some(NFlag(false)),
                            Some(HFlag(h)),
                            Some(CFlag(c)),
                        ),
                        mem,
                    ),
                )
            },
            Instruction::IncRegisterPair(rr) => Ok(
                (regs.with_pair(rr, wrap16(regs.pair_value(rr) + 1)), mem),
            ),
            Instruction::DecRegisterPair(rr) => Ok(
                (regs.with_pair(rr, wrap16(regs.pair_value(rr) - 1)), mem),
            ),
            Instruction::AddSPImmediate(e) => {
                let (sum, c, h) = alu_sp_offset(regs.sp, e);
                Ok((CpuRegisters { sp: sum, ..regs }.with_flags(false, false, h, c), mem))
            },
            Instruction::RotateLeft(target) => Ok(
                write_shifted(
                    target,
                    alu_rotate_left(target.spec_read(regs, mem, ppu)),
                    true,
                    regs,
                    mem,
                    ppu,
                ),
            ),
            Instruction::RotateLeftThruCarry(target) => Ok(
                write_shifted(
                    target,
                    alu_rotate_left_thru_carry(target.spec_read(regs, mem, ppu), regs.spec_c()),
                    true,
                    regs,
                    mem,
                    ppu,
                ),
            ),
            Instruction::RotateRight(target) => Ok(
                write_shifted(
                    target,
                    alu_rotate_right(target.spec_read(regs, mem, ppu)),
                    true,
                    regs,
                    mem,
                    ppu,
                ),
            ),
            Instruction::RotateRightThruCarry(target) => Ok(
                write_shifted(
                    target,
                    alu_rotate_right_thru_carry(target.spec_read(regs, mem, ppu), regs.spec_c()),
                    true,
                    regs,
                    mem,
                    ppu,
                ),
            ),
            Instruction::ShiftLeft(target) => Ok(
                write_shifted(
                    target,
                    alu_shift_left(target.spec_read(regs, mem, ppu)),
                    false,
                    regs,
                    mem,
                    ppu,
                ),
            ),
            Instruction::Swap(target) => Ok(
                write_shifted(
                    target,
                    (alu_swap(target.spec_read(regs, mem, ppu)), false),
                    false,
                    regs,
                    mem,
                    ppu,
                ),
            ),
            Instruction::ArithmeticShiftRight(target) => Ok(
                write_shifted(
                    target,
                    alu_shift_right_arithmetic(target.spec_read(regs, mem, ppu)),
                    false,
                    regs,
                    mem,
                    ppu,
                ),
            ),
            Instruction::LogicalShiftRight(target) => Ok(
                write_shifted(
                    target,
                    alu_shift_right_logical(target.spec_read(regs, mem, ppu)),
                    false,
                    regs,
                    mem,
                    ppu,
                ),
            ),
            Instruction::TestBit(n, read_target) => {
                let (value, r1) = read_target.spec_read(regs, mem, ppu);
                Ok(
                    (
                        r1.with_some_flags(
                            Some(ZFlag(value & (1u8 << n) == 0)),
                            Some(NFlag(false)),
                            Some(HFlag(true)),
                            None,
                        ),
                        mem,
                    ),
                )
            },
            Instruction::SetBit(n, target) => Ok(
                target.spec_write((1u8 << n) | target.spec_read(regs, mem, ppu), regs, mem, ppu),
            ),
            Instruction::ResetBit(n, target) => Ok(
                target.spec_write(!(1u8 << n) & target.spec_read(regs, mem, ppu), regs, mem, ppu),
            ),
            Instruction::ComplementCarryFlag => Ok(
                (
                    regs.with_some_flags(
                        None,
                        Some(NFlag(false)),
                        Some(HFlag(false)),
                        Some(CFlag(!regs.spec_c())),
                    ),
                    mem,
                ),
            ),
            Instruction::SetCarryFlag => Ok(
                (
                    regs.with_some_flags(
                        None,
                        Some(NFlag(false)),
                        Some(HFlag(false)),
                        Some(CFlag(true)),
                    ),
                    mem,
                ),
            ),
            Instruction::DecimalAdjustAccumulator => {
                let (value, carry) = alu_decimal_adjust(
                    regs.accumulator,
                    regs.spec_n(),
                    regs.spec_h(),
                    regs.spec_c(),
                );
                Ok(
                    (
                        CpuRegisters { accumulator: value, ..regs }.with_some_flags(
                            Some(ZFlag(value == 0)),
                            None,
                            Some(HFlag(false)),
                            if regs.spec_n() {
                                None
                            } else {
                                Some(CFlag(carry))
                            },
                        ),
                        mem,
                    ),
                )
            },
            Instruction::ComplementAccumulator => Ok(
                (
                    CpuRegisters { accumulator: !regs.accumulator, ..regs }.with_some_flags(
                        None,
                        Some(NFlag(true)),
                        Some(HFlag(true)),
                        None,
                    ),
                    mem,
                ),
            ),
            Instruction::Jump(nn) => Ok((CpuRegisters { pc: nn, ..regs }, mem)),
            Instruction::JumpHL => Ok((CpuRegisters { pc: regs.spec_hl(), ..regs }, mem)),
            Instruction::JumpCond(cc, nn) => Ok(
                (
                    if cc.spec_check(regs) {
                        CpuRegisters { pc: nn, ..regs }
                    } else {
                        regs
                    },
                    mem,
                ),
            ),
            Instruction::RelativeJump(e) => Ok(
                (CpuRegisters { pc: wrap16(regs.pc + e), ..regs }, mem),
            ),
            Instruction::RelativeJumpCond(cc, e) => Ok(
                (
                    if cc.spec_check(regs) {
                        CpuRegisters { pc: wrap16(regs.pc + e), ..regs }
                    } else {
                        regs
                    },
                    mem,
                ),
            ),
            Instruction::Call(nn) => {
                let (r1, m1) = push_u16(regs, mem, regs.pc, ppu);
                Ok((CpuRegisters { pc: nn, ..r1 }, m1))
            },
            Instruction::CallCond(cc, nn) => if cc.spec_check(regs) {
                let (r1, m1) = push_u16(regs, mem, regs.pc, ppu);
                Ok((CpuRegisters { pc: nn, ..r1 }, m1))
            } else {
                Ok((regs, mem))
            },
            Instruction::Return => Ok((pop_pc(regs, mem, ppu), mem)),
            Instruction::ReturnCond(cc) => Ok(
                (
                    if cc.spec_check(regs) {
                        pop_pc(regs, mem, ppu)
                    } else {
                        regs
                    },
                    mem,
                ),
            ),
            Instruction::ReturnFromInterruptHandler => Ok(
                (CpuRegisters { ime: true, ..pop_pc(regs, mem, ppu) }, mem),
            ),
            Instruction::RestartCall(rst_address) => {
                let (r1, m1) = push_u16(regs, mem, regs.pc, ppu);
                Ok((CpuRegisters { pc: rst_address as u16, ..r1 }, m1))
            },
            Instruction::Halt => Ok((CpuRegisters { halted: true, ..regs }, mem)),
            Instruction::Stop => {
                let key1 = mem.io.read_register(IoRegister::KEY1);
                if regs.execution_mode == ExecutionMode::GameBoyColor && key1 & 0x01 != 0 {
                    let new_mode = match regs.cgb_speed_mode {
                        CgbSpeedMode::Normal => CgbSpeedMode::Double,
                        CgbSpeedMode::Double => CgbSpeedMode::Normal,
                    };
                    Ok(
                        (
                            CpuRegisters {
                                cgb_speed_mode: new_mode,
                                speed_switch_wait_cycles_remaining: Some(2050),
                                ..regs
                            },
                            mem.with_io(
                                mem.io.with_byte(IoRegister::KEY1, key1_after_switch(key1, new_mode)),
                            ),
                        ),
                    )
                } else {
                    Err(ExecutionError::UnsupportedStop)
                }
            },
            Instruction::DisableInterrupts => Ok((CpuRegisters { ime: false, ..regs }, mem)),
            Instruction::EnableInterrupts => Ok((CpuRegisters { ime: true, ..regs }, mem)),
            Instruction::NoOp => Ok((regs, mem)),
        }
    }

    /// The effect of executing the instruction: `spec_effect`, with the interrupt delay flag set
    /// by EI and cleared by every other instruction.
    pub open spec fn spec_execute(self, regs: CpuRegisters, mem: AddressSpaceView, ppu: PpuAccess) -> Result<
        (CpuRegisters, AddressSpaceView),
        ExecutionError,
    > {
        match self.spec_effect(regs, mem, ppu) {
            Ok((r, m)) => Ok(
                (CpuRegisters { interrupt_delay: self == Instruction::EnableInterrupts, ..r }, m),
            ),
            Err(e) => Err(e),
        }
    }

    /// Clock cycles taken, given the registers at the time the instruction starts.
    pub open spec fn spec_cycles(self, regs: CpuRegisters) -> u32 {
        match self {
            Instruction::DecimalAdjustAccumulator
            | Instruction::ComplementAccumulator
            | Instruction::RotateLeft(ModifyTarget::Accumulator)
            | Instruction::RotateLeftThruCarry(ModifyTarget::Accumulator)
            | Instruction::RotateRight(ModifyTarget::Accumulator)
            | Instruction::RotateRightThruCarry(ModifyTarget::Accumulator)
            | Instruction::SetCarryFlag
            | Instruction::ComplementCarryFlag
            | Instruction::NoOp
            | Instruction::DisableInterrupts
            | Instruction::EnableInterrupts
            | Instruction::JumpHL
            | Instruction::Halt
            | Instruction::Stop => 4,
            Instruction::LoadStackPointerHL
            | Instruction::AddHLRegister(..)
            | Instruction::IncRegisterPair(..)
            | Instruction::DecRegisterPair(..) => 8,
            Instruction::LoadRegisterPairImmediate(..)
            | Instruction::PopStack(..)
            | Instruction::LoadHLStackPointerOffset(..)
            | Instruction::RelativeJump(..) => 12,
            Instruction::PushStack(..)
            | Instruction::AddSPImmediate(..)
            | Instruction::Jump(..)
            | Instruction::Return
            | Instruction::ReturnFromInterruptHandler
            | Instruction::RestartCall(..) => 16,
            Instruction::LoadDirectStackPointer(..) => 20,
            Instruction::Call(..) => 24,
            Instruction::JumpCond(cc, ..) => if cc.spec_check(regs) {
                16
            } else {
                12
            },
            Instruction::RelativeJumpCond(cc, ..) => if cc.spec_check(regs) {
                12
            } else {
                8
            },
            Instruction::CallCond(cc, ..) => if cc.spec_check(regs) {
                24
            } else {
                12
            },
            Instruction::ReturnCond(cc) => if cc.spec_check(regs) {
                20
            } else {
                8
            },
            Instruction::Load(write_target, read_target) => (4 + read_target.spec_cycles()
                + write_target.spec_cycles()) as u32,
            Instruction::Add(read_target)
            | Instruction::AddWithCarry(read_target)
            | Instruction::Subtract(read_target)
            | Instruction::SubtractWithCarry(read_target)
            | Instruction::And(read_target)
            | Instruction::Or(read_target)
            | Instruction::Xor(read_target)
            | Instruction::Compare(read_target) => (4 + read_target.spec_cycles()) as u32,
            Instruction::TestBit(_, read_target) => (8 + read_target.spec_cycles()) as u32,
            Instruction::Increment(target) | Instruction::Decrement(target) => (4 + 2
                * target.spec_cycles()) as u32,
            Instruction::RotateLeft(target)
            | Instruction::RotateRight(target)
            | Instruction::RotateLeftThruCarry(target)
            | Instruction::RotateRightThruCarry(target)
            | Instruction::ShiftLeft(target)
            | Instruction::ArithmeticShiftRight(target)
            | Instruction::LogicalShiftRight(target)
            | Instruction::Swap(target)
            | Instruction::ResetBit(_, target)
            | Instruction::SetBit(_, target) => (8 + 2 * target.spec_cycles()) as u32,
        }
    }

    /// Execute the given CPU instruction, modifying CPU registers/flags and memory as needed.
    ///
    /// This method does *not* update the PC register for the given instruction. It expects that the
    /// PC register was updated before this method was called.
    pub fn execute(
        self,
        address_space: &mut AddressSpace,
        cpu_registers: &mut CpuRegisters,
        ppu_state: &PpuState,
    ) -> (r: Result<(), ExecutionError>)
        requires
            self.spec_well_formed(),
        ensures
            match self.spec_execute(*old(cpu_registers), old(address_space)@, ppu_state@.access()) {
                Ok((regs, mem)) => r is Ok && *final(cpu_registers) == regs && final(address_space)@
                    == mem,
                Err(e) => r == Err::<(), ExecutionError>(e) && *final(cpu_registers) == *old(
                    cpu_registers,
                ) && final(address_space)@ == old(address_space)@,
            },
    {
        let result = match self {
            Self::Load(..) | Self::LoadRegisterPairImmediate(..) | Self::LoadDirectStackPointer(..) | Self::LoadStackPointerHL | Self::LoadHLStackPointerOffset(..) | Self::PushStack(..) | Self::PopStack(..) => {
                self.execute_load(address_space, cpu_registers, ppu_state)
            },
            Self::Add(..) | Self::AddWithCarry(..) | Self::Subtract(..) | Self::SubtractWithCarry(..) => {
                self.execute_add_sub(address_space, cpu_registers, ppu_state)
            },
            Self::Compare(..) | Self::And(..) | Self::Or(..) | Self::Xor(..) => {
                self.execute_logic(address_space, cpu_registers, ppu_state)
            },
            Self::Increment(..) | Self::Decrement(..) | Self::AddHLRegister(..) | Self::IncRegisterPair(..) | Self::DecRegisterPair(..) | Self::AddSPImmediate(..) | Self::ComplementCarryFlag | Self::SetCarryFlag | Self::DecimalAdjustAccumulator | Self::ComplementAccumulator => {
                self.execute_arithmetic(address_space, cpu_registers, ppu_state)
            },
            Self::RotateLeft(..) | Self::RotateLeftThruCarry(..) | Self::RotateRight(..) | Self::RotateRightThruCarry(..) => {
                self.execute_rotate(address_space, cpu_registers, ppu_state)
            },
            Self::ShiftLeft(..) | Self::Swap(..) | Self::ArithmeticShiftRight(..) | Self::LogicalShiftRight(..) | Self::TestBit(..) | Self::SetBit(..) | Self::ResetBit(..) => {
                self.execute_shift_bit(address_space, cpu_registers, ppu_state)
            },
            Self::Jump(..) | Self::JumpHL | Self::JumpCond(..) | Self::RelativeJump(..) | Self::RelativeJumpCond(..) | Self::Call(..) | Self::CallCond(..) | Self::Return | Self::ReturnCond(..) | Self::ReturnFromInterruptHandler | Self::RestartCall(..) | Self::Halt | Self::Stop | Self::DisableInterrupts | Self::EnableInterrupts | Self::NoOp => {
                self.execute_control(address_space, cpu_registers, ppu_state)
            },
        };
        if result.is_err() {
            return result;
        }
        cpu_registers.interrupt_delay = matches!(self, Self::EnableInterrupts);
        Ok(())
    }

    /// Execute one of the loads, stack pushes and pops.
    #[verifier::rlimit(50)]
    fn execute_load(
        self,
        address_space: &mut AddressSpace,
        cpu_registers: &mut CpuRegisters,
        ppu_state: &PpuState,
    ) -> (r: Result<(), ExecutionError>)
        requires
            self.spec_well_formed(),
            self.spec_is_load(),
        ensures
            match self.spec_effect(*old(cpu_registers), old(address_space)@, ppu_state@.access()) {
                Ok((regs, mem)) => r is Ok && *final(cpu_registers) == regs && final(address_space)@
                    == mem,
                Err(e) => r == Err::<(), ExecutionError>(e) && *final(cpu_registers) == *old(
                    cpu_registers,
                ) && final(address_space)@ == old(address_space)@,
            },
    {
        proof {
            reveal(Instruction::spec_effect);
        }
        match self {
            Self::Load(write_target, read_target) => {
                let value = read_target.read_value(cpu_registers, address_space, ppu_state);
                write_target.write_value(value, cpu_registers, address_space, ppu_state);
            },
            Self::LoadRegisterPairImmediate(rr, nn) => {
                cpu_registers.set_register_pair(rr, nn);
            },
            Self::LoadDirectStackPointer(nn) => {
                address_space.write_address_u16(nn, cpu_registers.sp, ppu_state);
            },
            Self::LoadStackPointerHL => {
                cpu_registers.sp = cpu_registers.hl();
            },
            Self::LoadHLStackPointerOffset(e) => {
                let (sp, c_flag, h_flag) = add_sp_offset(cpu_registers.sp, e);
                cpu_registers.set_hl(sp);
                cpu_registers.set_flags(ZFlag(false), NFlag(false), h_flag, c_flag);
            },
            Self::PushStack(rr) => {
                cpu_registers.sp = wrapping_sub2(cpu_registers.sp);
                address_space.write_address_u16(
                    cpu_registers.sp,
                    cpu_registers.read_register_pair(rr),
                    ppu_state,
                );
            },
            Self::PopStack(rr) => {
                let value = address_space.read_address_u16(cpu_registers.sp, ppu_state);
                cpu_registers.set_register_pair(rr, value);
                cpu_registers.sp = wrapping_add2(cpu_registers.sp);
            },
            _ => {},
        }
        Ok(())
    }

    /// Execute one of the 8-bit additions and subtractions into the accumulator.
    #[verifier::rlimit(50)]
    fn execute_add_sub(
        self,
        address_space: &mut AddressSpace,
        cpu_registers: &mut CpuRegisters,
        ppu_state: &PpuState,
    ) -> (r: Result<(), ExecutionError>)
        requires
            self.spec_well_formed(),
            self.spec_is_add_sub(),
        ensures
            match self.spec_effect(*old(cpu_registers), old(address_space)@, ppu_state@.access()) {
                Ok((regs, mem)) => r is Ok && *final(cpu_registers) == regs && final(address_space)@
                    == mem,
                Err(e) => r == Err::<(), ExecutionError>(e) && *final(cpu_registers) == *old(
                    cpu_registers,
                ) && final(address_space)@ == old(address_space)@,
            },
    {
        proof {
            reveal(Instruction::spec_effect);
        }
        match self {
            Self::Add(read_target) => {
                let accumulator = cpu_registers.accumulator;
                let value = read_target.read_value(cpu_registers, address_space, ppu_state);
                let (sum, c_flag, h_flag) = add_u8(accumulator, value, false);
                cpu_registers.accumulator = sum;
                cpu_registers.set_flags(ZFlag(sum == 0), NFlag(false), h_flag, c_flag);
            },
            Self::AddWithCarry(read_target) => {
                let accumulator = cpu_registers.accumulator;
                let value = read_target.read_value(cpu_registers, address_space, ppu_state);
                let (sum, c_flag, h_flag) = add_u8(accumulator, value, cpu_registers.c_flag());
                cpu_registers.accumulator = sum;
                cpu_registers.set_flags(ZFlag(sum == 0), NFlag(false), h_flag, c_flag);
            },
            Self::Subtract(read_target) => {
                let accumulator = cpu_registers.accumulator;
                let value = read_target.read_value(cpu_registers, address_space, ppu_state);
                let (difference, c_flag, h_flag) = sub_u8(accumulator, value, false);
                cpu_registers.accumulator = difference;
                cpu_registers.set_flags(ZFlag(difference == 0), NFlag(true), h_flag, c_flag);
            },
            Self::SubtractWithCarry(read_target) => {
                let accumulator = cpu_registers.accumulator;
                let value = read_target.read_value(cpu_registers, address_space, ppu_state);
                let (difference, c_flag, h_flag) = sub_u8(accumulator, value, cpu_registers.c_flag());
                cpu_registers.accumulator = difference;
                cpu_registers.set_flags(ZFlag(difference == 0), NFlag(true), h_flag, c_flag);
            },
            _ => {},
        }
        Ok(())
    }

    /// Execute one of the comparisons and bitwise logic instructions on the accumulator.
    #[verifier::rlimit(50)]
    fn execute_logic(
        self,
        address_space: &mut AddressSpace,
        cpu_registers: &mut CpuRegisters,
        ppu_state: &PpuState,
    ) -> (r: Result<(), ExecutionError>)
        requires
            self.spec_well_formed(),
            self.spec_is_logic(),
        ensures
            match self.spec_effect(*old(cpu_registers), old(address_space)@, ppu_state@.access()) {
                Ok((regs, mem)) => r is Ok && *final(cpu_registers) == regs && final(address_space)@
                    == mem,
                Err(e) => r == Err::<(), ExecutionError>(e) && *final(cpu_registers) == *old(
                    cpu_registers,
                ) && final(address_space)@ == old(address_space)@,
            },
    {
        proof {
            reveal(Instruction::spec_effect);
        }
        match self {
            Self::Compare(read_target) => {
                let accumulator = cpu_registers.accumulator;
                let value = read_target.read_value(cpu_registers, address_space, ppu_state);
                let (difference, c_flag, h_flag) = sub_u8(accumulator, value, false);
                cpu_registers.set_flags(ZFlag(difference == 0), NFlag(true), h_flag, c_flag);
            },
            Self::And(read_target) => {
                let accumulator = cpu_registers.accumulator;
                let value = accumulator & read_target.read_value(
                    cpu_registers,
                    address_space,
                    ppu_state,
                );
                cpu_registers.accumulator = value;
                cpu_registers.set_flags(ZFlag(value == 0), NFlag(false), HFlag(true), CFlag(false));
            },
            Self::Or(read_target) => {
                let accumulator = cpu_registers.accumulator;
                let value = accumulator | read_target.read_value(
                    cpu_registers,
                    address_space,
                    ppu_state,
                );
                cpu_registers.accumulator = value;
                cpu_registers.set_flags(
                    ZFlag(value == 0),
                    NFlag(false),
                    HFlag(false),
                    CFlag(false),
                );
            },
            Self::Xor(read_target) => {
                let accumulator = cpu_registers.accumulator;
                let value = accumulator ^ read_target.read_value(
                    cpu_registers,
                    address_space,
                    ppu_state,
                );
                cpu_registers.accumulator = value;
                cpu_registers.set_flags(
                    ZFlag(value == 0),
                    NFlag(false),
                    HFlag(false),
                    CFlag(false),
                );
            },
            _ => {},
        }
        Ok(())
    }

    /// Execute one of the increments, decrements, 16-bit additions and flag instructions.
    #[verifier::rlimit(50)]
    fn execute_arithmetic(
        self,
        address_space: &mut AddressSpace,
        cpu_registers: &mut CpuRegisters,
        ppu_state: &PpuState,
    ) -> (r: Result<(), ExecutionError>)
        requires
            self.spec_well_formed(),
            self.spec_is_arithmetic(),
        ensures
            match self.spec_effect(*old(cpu_registers), old(address_space)@, ppu_state@.access()) {
                Ok((regs, mem)) => r is Ok && *final(cpu_registers) == regs && final(address_space)@
                    == mem,
                Err(e) => r == Err::<(), ExecutionError>(e) && *final(cpu_registers) == *old(
                    cpu_registers,
                ) && final(address_space)@ == old(address_space)@,
            },
    {
        proof {
            reveal(Instruction::spec_effect);
        }
        match self {
            Self::Increment(modify_target) => {
                let value = modify_target.read_value(cpu_registers, address_space, ppu_state);
                let (sum, _, h_flag) = add_u8(value, 1, false);
                modify_target.write_value(sum, cpu_registers, address_space, ppu_state);
                cpu_registers.set_some_flags(
                    Some(ZFlag(sum == 0)),
                    Some(NFlag(false)),
                    Some(h_flag),
                    None,
                );
            },
            Self::Decrement(modify_target) => {
                let value = modify_target.read_value(cpu_registers, address_space, ppu_state);
                let (difference, _, h_flag) = sub_u8(value, 1, false);
                modify_target.write_value(difference, cpu_registers, address_space, ppu_state);
                cpu_registers.set_some_flags(
                    Some(ZFlag(difference == 0)),
                    Some(NFlag(true)),
                    Some(h_flag),
                    None,
                );
            },
            Self::AddHLRegister(rr) => {
                let (sum, c_flag, h_flag) = add_u16(
                    cpu_registers.hl(),
                    cpu_registers.read_register_pair(rr),
                );
                cpu_registers.set_hl(sum);
                cpu_registers.set_some_flags(None, Some(NFlag(false)), Some(h_flag), Some(c_flag));
            },
            Self::IncRegisterPair(rr) => {
                let value = wrapping_inc(cpu_registers.read_register_pair(rr));
                cpu_registers.set_register_pair(rr, value);
            },
            Self::DecRegisterPair(rr) => {
                let value = wrapping_dec(cpu_registers.read_register_pair(rr));
                cpu_registers.set_register_pair(rr, value);
            },
            Self::AddSPImmediate(e) => {
                let (sp, c_flag, h_flag) = add_sp_offset(cpu_registers.sp, e);
                cpu_registers.sp = sp;
                cpu_registers.set_flags(ZFlag(false), NFlag(false), h_flag, c_flag);
            },
            Self::ComplementCarryFlag => {
                let c_flag = cpu_registers.c_flag();
                cpu_registers.set_some_flags(
                    None,
                    Some(NFlag(false)),
                    Some(HFlag(false)),
                    Some(CFlag(!c_flag)),
                );
            },
            Self::SetCarryFlag => {
                cpu_registers.set_some_flags(
                    None,
                    Some(NFlag(false)),
                    Some(HFlag(false)),
                    Some(CFlag(true)),
                );
            },
            Self::DecimalAdjustAccumulator => {
                decimal_adjust_accumulator(cpu_registers);
            },
            Self::ComplementAccumulator => {
                cpu_registers.accumulator = !cpu_registers.accumulator;
                cpu_registers.set_some_flags(None, Some(NFlag(true)), Some(HFlag(true)), None);
            },
            _ => {},
        }
        Ok(())
    }

    /// Execute one of the rotates.
    #[verifier::rlimit(50)]
    fn execute_rotate(
        self,
        address_space: &mut AddressSpace,
        cpu_registers: &mut CpuRegisters,
        ppu_state: &PpuState,
    ) -> (r: Result<(), ExecutionError>)
        requires
            self.spec_well_formed(),
            self.spec_is_rotate(),
        ensures
            match self.spec_effect(*old(cpu_registers), old(address_space)@, ppu_state@.access()) {
                Ok((regs, mem)) => r is Ok && *final(cpu_registers) == regs && final(address_space)@
                    == mem,
                Err(e) => r == Err::<(), ExecutionError>(e) && *final(cpu_registers) == *old(
                    cpu_registers,
                ) && final(address_space)@ == old(address_space)@,
            },
    {
        proof {
            reveal(Instruction::spec_effect);
        }
        match self {
            Self::RotateLeft(modify_target) => {
                let (value, c_flag) = rotate_left(
                    modify_target.read_value(cpu_registers, address_space, ppu_state),
                );
                modify_target.write_value(value, cpu_registers, address_space, ppu_state);
                let z_flag = ZFlag(modify_target != ModifyTarget::Accumulator && value == 0);
                cpu_registers.set_flags(z_flag, NFlag(false), HFlag(false), c_flag);
            },
            Self::RotateLeftThruCarry(modify_target) => {
                let (value, c_flag) = rotate_left_thru_carry(
                    modify_target.read_value(cpu_registers, address_space, ppu_state),
                    cpu_registers.c_flag(),
                );
                modify_target.write_value(value, cpu_registers, address_space, ppu_state);
                let z_flag = ZFlag(modify_target != ModifyTarget::Accumulator && value == 0);
                cpu_registers.set_flags(z_flag, NFlag(false), HFlag(false), c_flag);
            },
            Self::RotateRight(modify_target) => {
                let (value, c_flag) = rotate_right(
                    modify_target.read_value(cpu_registers, address_space, ppu_state),
                );
                modify_target.write_value(value, cpu_registers, address_space, ppu_state);
                let z_flag = ZFlag(modify_target != ModifyTarget::Accumulator && value == 0);
                cpu_registers.set_flags(z_flag, NFlag(false), HFlag(false), c_flag);
            },
            Self::RotateRightThruCarry(modify_target) => {
                let (value, c_flag) = rotate_right_thru_carry(
                    modify_target.read_value(cpu_registers, address_space, ppu_state),
                    cpu_registers.c_flag(),
                );
                modify_target.write_value(value, cpu_registers, address_space, ppu_state);
                let z_flag = ZFlag(modify_target != ModifyTarget::Accumulator && value == 0);
                cpu_registers.set_flags(z_flag, NFlag(false), HFlag(false), c_flag);
            },
            _ => {},
        }
        Ok(())
    }

    /// Execute one of the shifts, the nibble swap and the single-bit instructions.
    #[verifier::rlimit(50)]
    fn execute_shift_bit(
        self,
        address_space: &mut AddressSpace,
        cpu_registers: &mut CpuRegisters,
        ppu_state: &PpuState,
    ) -> (r: Result<(), ExecutionError>)
        requires
            self.spec_well_formed(),
            self.spec_is_shift_bit(),
        ensures
            match self.spec_effect(*old(cpu_registers), old(address_space)@, ppu_state@.access()) {
                Ok((regs, mem)) => r is Ok && *final(cpu_registers) == regs && final(address_space)@
                    == mem,
                Err(e) => r == Err::<(), ExecutionError>(e) && *final(cpu_registers) == *old(
                    cpu_registers,
                ) && final(address_space)@ == old(address_space)@,
            },
    {
        proof {
            reveal(Instruction::spec_effect);
        }
        match self {
            Self::ShiftLeft(modify_target) => {
                let (value, c_flag) = shift_left(
                    modify_target.read_value(cpu_registers, address_space, ppu_state),
                );
                modify_target.write_value(value, cpu_registers, address_space, ppu_state);
                cpu_registers.set_flags(ZFlag(value == 0), NFlag(false), HFlag(false), c_flag);
            },
            Self::Swap(modify_target) => {
                let value = swap_bits(
                    modify_target.read_value(cpu_registers, address_space, ppu_state),
                );
                modify_target.write_value(value, cpu_registers, address_space, ppu_state);
                cpu_registers.set_flags(
                    ZFlag(value == 0),
                    NFlag(false),
                    HFlag(false),
                    CFlag(false),
                );
            },
            Self::ArithmeticShiftRight(modify_target) => {
                let (value, c_flag) = shift_right_arithmetic(
                    modify_target.read_value(cpu_registers, address_space, ppu_state),
                );
                modify_target.write_value(value, cpu_registers, address_space, ppu_state);
                cpu_registers.set_flags(ZFlag(value == 0), NFlag(false), HFlag(false), c_flag);
            },
            Self::LogicalShiftRight(modify_target) => {
                let (value, c_flag) = shift_right_logical(
                    modify_target.read_value(cpu_registers, address_space, ppu_state),
                );
                modify_target.write_value(value, cpu_registers, address_space, ppu_state);
                cpu_registers.set_flags(ZFlag(value == 0), NFlag(false), HFlag(false), c_flag);
            },
            Self::TestBit(n, read_target) => {
                let r_value = read_target.read_value(cpu_registers, address_space, ppu_state);
                let z_flag = ZFlag(r_value & (1u8 << n) == 0);
                cpu_registers.set_some_flags(
                    Some(z_flag),
                    Some(NFlag(false)),
                    Some(HFlag(true)),
                    None,
                );
            },
            Self::SetBit(n, modify_target) => {
                let value = (1u8 << n) | modify_target.read_value(
                    cpu_registers,
                    address_space,
                    ppu_state,
                );
                modify_target.write_value(value, cpu_registers, address_space, ppu_state);
            },
            Self::ResetBit(n, modify_target) => {
                let value = !(1u8 << n) & modify_target.read_value(
                    cpu_registers,
                    address_space,
                    ppu_state,
                );
                modify_target.write_value(value, cpu_registers, address_space, ppu_state);
            },
            _ => {},
        }
        Ok(())
    }

    /// Execute one of jumps, calls, returns and the CPU control instructions.
    #[verifier::rlimit(50)]
    fn execute_control(
        self,
        address_space: &mut AddressSpace,
        cpu_registers: &mut CpuRegisters,
        ppu_state: &PpuState,
    ) -> (r: Result<(), ExecutionError>)
        requires
            self.spec_well_formed(),
            self.spec_is_control(),
        ensures
            match self.spec_effect(*old(cpu_registers), old(address_space)@, ppu_state@.access()) {
                Ok((regs, mem)) => r is Ok && *final(cpu_registers) == regs && final(address_space)@
                    == mem,
                Err(e) => r == Err::<(), ExecutionError>(e) && *final(cpu_registers) == *old(
                    cpu_registers,
                ) && final(address_space)@ == old(address_space)@,
            },
    {
        proof {
            reveal(Instruction::spec_effect);
        }
        match self {
            Self::Jump(nn) => {
                cpu_registers.pc = nn;
            },
            Self::JumpHL => {
                cpu_registers.pc = cpu_registers.hl();
            },
            Self::JumpCond(cc, nn) => {
                if cc.check(cpu_registers) {
                    cpu_registers.pc = nn;
                }
            },
            Self::RelativeJump(e) => {
                cpu_registers.pc = relative_address(cpu_registers.pc, e);
            },
            Self::RelativeJumpCond(cc, e) => {
                if cc.check(cpu_registers) {
                    cpu_registers.pc = relative_address(cpu_registers.pc, e);
                }
            },
            Self::Call(nn) => {
                cpu_registers.sp = wrapping_sub2(cpu_registers.sp);
                address_space.write_address_u16(cpu_registers.sp, cpu_registers.pc, ppu_state);
                cpu_registers.pc = nn;
            },
            Self::CallCond(cc, nn) => {
                if cc.check(cpu_registers) {
                    cpu_registers.sp = wrapping_sub2(cpu_registers.sp);
                    address_space.write_address_u16(cpu_registers.sp, cpu_registers.pc, ppu_state);
                    cpu_registers.pc = nn;
                }
            },
            Self::Return => {
                cpu_registers.pc = address_space.read_address_u16(cpu_registers.sp, ppu_state);
                cpu_registers.sp = wrapping_add2(cpu_registers.sp);
            },
            Self::ReturnCond(cc) => {
                if cc.check(cpu_registers) {
                    cpu_registers.pc = address_space.read_address_u16(cpu_registers.sp, ppu_state);
                    cpu_registers.sp = wrapping_add2(cpu_registers.sp);
                }
            },
            Self::ReturnFromInterruptHandler => {
                cpu_registers.pc = address_space.read_address_u16(cpu_registers.sp, ppu_state);
                cpu_registers.sp = wrapping_add2(cpu_registers.sp);
                cpu_registers.ime = true;
            },
            Self::RestartCall(rst_address) => {
                cpu_registers.sp = wrapping_sub2(cpu_registers.sp);
                address_space.write_address_u16(cpu_registers.sp, cpu_registers.pc, ppu_state);
                cpu_registers.pc = rst_address as u16;
            },
            Self::Halt => {
                cpu_registers.halted = true;
            },
            Self::Stop => {
                let key1_value = address_space.get_io_registers().read_register(IoRegister::KEY1);
                if matches!(cpu_registers.execution_mode, ExecutionMode::GameBoyColor) && key1_value
                    & 0x01 != 0 {
                    // In CGB mode, STOP when KEY1 bit 0 is set means speed switch
                    toggle_cgb_speed_mode(address_space, cpu_registers, key1_value);
                } else {
                    return Err(ExecutionError::UnsupportedStop);
                }
            },
            Self::DisableInterrupts => {
                cpu_registers.ime = false;
            },
            Self::EnableInterrupts => {
                cpu_registers.ime = true;
            },
            Self::NoOp => {},
            _ => {},
        }
        Ok(())
    }

    /// Return the number of clock cycles that are required to execute this instruction.
    ///
    /// Requires CPU registers as a parameter because conditional control flow instructions can
    /// take different numbers of cycles depending on whether the condition is true or false.
    pub fn cycles_required(self, cpu_registers: &CpuRegisters) -> (r: u32)
        ensures
            r == self.spec_cycles(*cpu_registers),
    {
        match self {
            Self::DecimalAdjustAccumulator
            | Self::ComplementAccumulator
            | Self::RotateLeft(ModifyTarget::Accumulator)
            | Self::RotateLeftThruCarry(ModifyTarget::Accumulator)
            | Self::RotateRight(ModifyTarget::Accumulator)
            | Self::RotateRightThruCarry(ModifyTarget::Accumulator)
            | Self::SetCarryFlag
            | Self::ComplementCarryFlag
            | Self::NoOp
            | Self::DisableInterrupts
            | Self::EnableInterrupts
            | Self::JumpHL
            | Self::Halt
            | Self::Stop => 4,
            Self::LoadStackPointerHL
            | Self::AddHLRegister(..)
            | Self::IncRegisterPair(..)
            | Self::DecRegisterPair(..) => 8,
            Self::LoadRegisterPairImmediate(..)
            | Self::PopStack(..)
            | Self::LoadHLStackPointerOffset(..)
            | Self::RelativeJump(..) => 12,
            Self::PushStack(..)
            | Self::AddSPImmediate(..)
            | Self::Jump(..)
            | Self::Return
            | Self::ReturnFromInterruptHandler
            | Self::RestartCall(..) => 16,
            Self::LoadDirectStackPointer(..) => 20,
            Self::Call(..) => 24,
            Self::JumpCond(cc, ..) => {
                if cc.check(cpu_registers) {
                    16
                } else {
                    12
                }
            },
            Self::RelativeJumpCond(cc, ..) => {
                if cc.check(cpu_registers) {
                    12
                } else {
                    8
                }
            },
            Self::CallCond(cc, ..) => {
                if cc.check(cpu_registers) {
                    24
                } else {
                    12
                }
            },
            Self::ReturnCond(cc) => {
                if cc.check(cpu_registers) {
                    20
                } else {
                    8
                }
            },
            Self::Load(write_target, read_target) => {
                4 + read_target.cycles_required() + write_target.cycles_required()
            },
            Self::Add(read_target)
            | Self::AddWithCarry(read_target)
            | Self::Subtract(read_target)
            | Self::SubtractWithCarry(read_target)
            | Self::And(read_target)
            | Self::Or(read_target)
            | Self::Xor(read_target)
            | Self::Compare(read_target) => 4 + read_target.cycles_required(),
            Self::TestBit(_, read_target) => 8 + read_target.cycles_required(),
            Self::Increment(modify_target) | Self::Decrement(modify_target) => {
                4 + 2 * modify_target.cycles_required()
            },
            Self::RotateLeft(modify_target)
            | Self::RotateRight(modify_target)
            | Self::RotateLeftThruCarry(modify_target)
            | Self::RotateRightThruCarry(modify_target)
            | Self::ShiftLeft(modify_target)
            | Self::ArithmeticShiftRight(modify_target)
            | Self::LogicalShiftRight(modify_target)
            | Self::Swap(modify_target)
            | Self::ResetBit(_, modify_target)
            | Self::SetBit(_, modify_target) => 8 + 2 * modify_target.cycles_required(),
        }
    }
}

fn toggle_cgb_speed_mode(
    address_space: &mut AddressSpace,
    cpu_registers: &mut CpuRegisters,
    key1_value: u8,
)
    ensures
        ({
            let new_mode = match old(cpu_registers).cgb_speed_mode {
                CgbSpeedMode::Normal => CgbSpeedMode::Double,
                CgbSpeedMode::Double => CgbSpeedMode::Normal,
            };
            &&& *final(cpu_registers) == (CpuRegisters {
                cgb_speed_mode: new_mode,
                speed_switch_wait_cycles_remaining: Some(2050),
                ..*old(cpu_registers)
            })
            &&& final(address_space)@ == old(address_space)@.with_io(
                old(address_space)@.io.with_byte(
                    IoRegister::KEY1,
                    key1_after_switch(key1_value, new_mode),
                ),
            )
        }),
{
    let new_speed_mode = cpu_registers.cgb_speed_mode.toggle();
    cpu_registers.cgb_speed_mode = new_speed_mode;
    cpu_registers.speed_switch_wait_cycles_remaining = Some(2050);
    // Clear bit 0, and conditionally set/clear bit 7 based on new speed mode
    let new_key1 = match new_speed_mode {
        CgbSpeedMode::Normal => key1_value & 0x7E,
        CgbSpeedMode::Double => (key1_value & 0x7E) | 0x80,
    };
    address_space.get_io_registers_mut().privileged_set_key1(new_key1);
}

/// Pushing PC onto a stack in working RAM or HRAM and popping it again (a CALL followed by a
/// RET) gives back PC and SP.
#[verifier::rlimit(50)]
pub proof fn law_push_pop_pc(regs: CpuRegisters, mem: AddressSpaceView, ppu: PpuAccess)
    requires
        mem.wf(),
        (0xC002 <= regs.sp <= 0xE000 && !ppu.oam_dma_active) || 0xFF82 <= regs.sp <= 0xFFFF,
    ensures
        ({
            let (pushed, mem1) = push_u16(regs, mem, regs.pc, ppu);
            let popped = pop_pc(pushed, mem1, ppu);
            popped.pc == regs.pc && popped.sp == regs.sp
        }),
{
    let sp = wrap16(regs.sp - 2);
    assert(sp == regs.sp - 2);
    let next = ((sp as int + 1) % 0x10000) as u16;
    assert(next == sp + 1);
    let lsb = (regs.pc % 256) as u8;
    let msb = (regs.pc / 256) as u8;
    let mem1 = mem.write(sp, lsb, ppu);
    let mem2 = mem1.write(next, msb, ppu);
    assert(mem.write_u16(sp, regs.pc, ppu) == mem2);
    crate::memory::law_ram_write_read(mem, sp, lsb, ppu);
    crate::memory::lemma_ram_write_wf(mem, sp, lsb, ppu);
    crate::memory::law_ram_write_read(mem1, next, msb, ppu);
    crate::memory::law_ram_write_other(mem1, next, sp, msb, ppu);
    assert(mem2.read(sp, ppu) == lsb);
    assert(mem2.read(next, ppu) == msb);
    assert(mem2.read_u16(sp, ppu) == regs.pc);
}

} // verus!
