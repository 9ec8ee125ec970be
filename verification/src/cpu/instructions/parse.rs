use crate::cpu::instructions::{
    wrap16, Instruction, JumpCondition, ModifyTarget, ReadTarget, WriteTarget,
};
use crate::cpu::registers::{register_from_code, CpuRegister, CpuRegisterPair, CpuRegisters};
use crate::memory::{AddressSpace, AddressSpaceView};
use crate::ppu::{PpuAccess, PpuState};
use vstd::prelude::*;

verus! {

broadcast use crate::memory::lemma_address_space_wf;

/// The error returned for a byte sequence that is not an instruction.
#[derive(Debug, Clone)]
pub enum ParseError {
    InvalidOpcode { opcodes: Vec<u8> },
}

/// Bits 3-5 of an opcode, which name a register, a bit index or an operation.
pub open spec fn mid_code(opcode: u8) -> u8 {
    ((opcode & 0x38) >> 3) as u8
}

/// Bits 0-2 of an opcode, which name a register.
pub open spec fn low_code(opcode: u8) -> u8 {
    opcode & 0x07
}

/// A 3-bit register code as a read operand: register code 110 names (HL).
pub open spec fn read_target_for(code: u8) -> ReadTarget {
    match register_from_code(code) {
        Some(register) => ReadTarget::Register(register),
        None => ReadTarget::IndirectHL,
    }
}

/// A 3-bit register code as a write operand: register code 110 names (HL).
pub open spec fn write_target_for(code: u8) -> WriteTarget {
    match register_from_code(code) {
        Some(register) => WriteTarget::Register(register),
        None => WriteTarget::IndirectHL,
    }
}

/// A 3-bit register code as a read-modify-write operand: register code 110 names (HL).
pub open spec fn modify_target_for(code: u8) -> ModifyTarget {
    match register_from_code(code) {
        Some(register) => ModifyTarget::Register(register),
        None => ModifyTarget::IndirectHL,
    }
}

/// The register pair named by bits 4-5 of LD rr,nn / INC rr / DEC rr / ADD HL,rr.
pub open spec fn pair_for_other_ops(opcode: u8) -> CpuRegisterPair {
    let code = (opcode / 16) % 4;
    if code == 0 {
        CpuRegisterPair::BC
    } else if code == 1 {
        CpuRegisterPair::DE
    } else if code == 2 {
        CpuRegisterPair::HL
    } else {
        CpuRegisterPair::SP
    }
}

/// The register pair named by bits 4-5 of PUSH rr / POP rr.
pub open spec fn pair_for_push_pop(opcode: u8) -> CpuRegisterPair {
    let code = (opcode / 16) % 4;
    if code == 0 {
        CpuRegisterPair::BC
    } else if code == 1 {
        CpuRegisterPair::DE
    } else if code == 2 {
        CpuRegisterPair::HL
    } else {
        CpuRegisterPair::AF
    }
}

/// The condition named by bits 3-4 of a conditional jump, call or return.
pub open spec fn condition_for(opcode: u8) -> JumpCondition {
    let code = (opcode / 8) % 4;
    if code == 0 {
        JumpCondition::NZ
    } else if code == 1 {
        JumpCondition::Z
    } else if code == 2 {
        JumpCondition::NC
    } else {
        JumpCondition::C
    }
}

/// The 8-bit accumulator operation numbered `kind` (ADD, ADC, SUB, SBC, AND, XOR, OR, CP).
pub open spec fn alu_instruction(kind: u8, operand: ReadTarget) -> Instruction {
    if kind == 0 {
        Instruction::Add(operand)
    } else if kind == 1 {
        Instruction::AddWithCarry(operand)
    } else if kind == 2 {
        Instruction::Subtract(operand)
    } else if kind == 3 {
        Instruction::SubtractWithCarry(operand)
    } else if kind == 4 {
        Instruction::And(operand)
    } else if kind == 5 {
        Instruction::Xor(operand)
    } else if kind == 6 {
        Instruction::Or(operand)
    } else {
        Instruction::Compare(operand)
    }
}

/// The rotate or shift numbered `kind` in the CB table (RLC, RRC, RL, RR, SLA, SRA, SWAP, SRL).
pub open spec fn shift_instruction(kind: u8, target: ModifyTarget) -> Instruction {
    if kind == 0 {
        Instruction::RotateLeft(target)
    } else if kind == 1 {
        Instruction::RotateRight(target)
    } else if kind == 2 {
        Instruction::RotateLeftThruCarry(target)
    } else if kind == 3 {
        Instruction::RotateRightThruCarry(target)
    } else if kind == 4 {
        Instruction::ShiftLeft(target)
    } else if kind == 5 {
        Instruction::ArithmeticShiftRight(target)
    } else if kind == 6 {
        Instruction::Swap(target)
    } else {
        Instruction::LogicalShiftRight(target)
    }
}

/// The instruction for the second byte of a CB-prefixed opcode.
pub open spec fn spec_decode_cb(opcode: u8) -> Instruction {
    if opcode <= 0x3F {
        shift_instruction(opcode / 8, modify_target_for(low_code(opcode)))
    } else if opcode <= 0x7F {
        Instruction::TestBit(mid_code(opcode), read_target_for(low_code(opcode)))
    } else if opcode <= 0xBF {
        Instruction::ResetBit(mid_code(opcode), modify_target_for(low_code(opcode)))
    } else {
        Instruction::SetBit(mid_code(opcode), modify_target_for(low_code(opcode)))
    }
}

/// The instruction and its length in bytes for an opcode in 0x00-0x3F, given the byte `n` and
/// the little-endian word `nn` that follow the opcode.
pub open spec fn spec_decode_low_block(opcode: u8, n: u8, nn: u16) -> (Instruction, u16) {
    match opcode {
        0x00 => (Instruction::NoOp, 1),
        0x01 | 0x11 | 0x21 | 0x31 => (
            Instruction::LoadRegisterPairImmediate(pair_for_other_ops(opcode), nn),
            3,
        ),
        0x02 => (Instruction::Load(WriteTarget::IndirectBC, ReadTarget::Accumulator), 1),
        0x03 | 0x13 | 0x23 | 0x33 => (Instruction::IncRegisterPair(pair_for_other_ops(opcode)), 1),
        0x04 | 0x0C | 0x14 | 0x1C | 0x24 | 0x2C | 0x34 | 0x3C => (
            Instruction::Increment(modify_target_for(mid_code(opcode))),
            1,
        ),
        0x05 | 0x0D | 0x15 | 0x1D | 0x25 | 0x2D | 0x35 | 0x3D => (
            Instruction::Decrement(modify_target_for(mid_code(opcode))),
            1,
        ),
        0x06 | 0x0E | 0x16 | 0x1E | 0x26 | 0x2E | 0x36 | 0x3E => (
            Instruction::Load(write_target_for(mid_code(opcode)), ReadTarget::Immediate(n)),
            2,
        ),
        0x07 => (Instruction::RotateLeft(ModifyTarget::Accumulator), 1),
        0x08 => (Instruction::LoadDirectStackPointer(nn), 3),
        0x09 | 0x19 | 0x29 | 0x39 => (Instruction::AddHLRegister(pair_for_other_ops(opcode)), 1),
        0x0A => (Instruction::Load(WriteTarget::Accumulator, ReadTarget::IndirectBC), 1),
        0x0B | 0x1B | 0x2B | 0x3B => (Instruction::DecRegisterPair(pair_for_other_ops(opcode)), 1),
        0x0F => (Instruction::RotateRight(ModifyTarget::Accumulator), 1),
        0x10 => (Instruction::Stop, 2),
        0x12 => (Instruction::Load(WriteTarget::IndirectDE, ReadTarget::Accumulator), 1),
        0x17 => (Instruction::RotateLeftThruCarry(ModifyTarget::Accumulator), 1),
        0x18 => (Instruction::RelativeJump(n as i8), 2),
        0x1A => (Instruction::Load(WriteTarget::Accumulator, ReadTarget::IndirectDE), 1),
        0x1F => (Instruction::RotateRightThruCarry(ModifyTarget::Accumulator), 1),
        0x20 | 0x28 | 0x30 | 0x38 => (
            Instruction::RelativeJumpCond(condition_for(opcode), n as i8),
            2,
        ),
        0x22 => (Instruction::Load(WriteTarget::IndirectHLInc, ReadTarget::Accumulator), 1),
        0x27 => (Instruction::DecimalAdjustAccumulator, 1),
        0x2A => (Instruction::Load(WriteTarget::Accumulator, ReadTarget::IndirectHLInc), 1),
        0x2F => (Instruction::ComplementAccumulator, 1),
        0x32 => (Instruction::Load(WriteTarget::IndirectHLDec, ReadTarget::Accumulator), 1),
        0x37 => (Instruction::SetCarryFlag, 1),
        0x3A => (Instruction::Load(WriteTarget::Accumulator, ReadTarget::IndirectHLDec), 1),
        _ => (Instruction::ComplementCarryFlag, 1),
    }
}

/// The instruction and its length in bytes for an opcode in 0xC0-0xFF other than the CB prefix;
/// None for the eleven unused opcodes.
pub open spec fn spec_decode_high_block(opcode: u8, n: u8, nn: u16) -> Option<(Instruction, u16)> {
    match opcode {
        0xC0 | 0xC8 | 0xD0 | 0xD8 => Some((Instruction::ReturnCond(condition_for(opcode)), 1)),
        0xC1 | 0xD1 | 0xE1 | 0xF1 => Some((Instruction::PopStack(pair_for_push_pop(opcode)), 1)),
        0xC2 | 0xCA | 0xD2 | 0xDA => Some((Instruction::JumpCond(condition_for(opcode), nn), 3)),
        0xC3 => Some((Instruction::Jump(nn), 3)),
        0xC4 | 0xCC | 0xD4 | 0xDC => Some((Instruction::CallCond(condition_for(opcode), nn), 3)),
        0xC5 | 0xD5 | 0xE5 | 0xF5 => Some((Instruction::PushStack(pair_for_push_pop(opcode)), 1)),
        0xC6 | 0xCE | 0xD6 | 0xDE | 0xE6 | 0xEE | 0xF6 | 0xFE => Some(
            (alu_instruction(((opcode - 0xC0) / 8) as u8, ReadTarget::Immediate(n)), 2),
        ),
        0xC7 | 0xCF | 0xD7 | 0xDF | 0xE7 | 0xEF | 0xF7 | 0xFF => Some(
            (Instruction::RestartCall(opcode & 0x38), 1),
        ),
        0xC9 => Some((Instruction::Return, 1)),
        0xCD => Some((Instruction::Call(nn), 3)),
        0xD9 => Some((Instruction::ReturnFromInterruptHandler, 1)),
        0xE0 => Some((Instruction::Load(WriteTarget::FFDirect(n), ReadTarget::Accumulator), 2)),
        0xE2 => Some((Instruction::Load(WriteTarget::FFIndirectC, ReadTarget::Accumulator), 1)),
        0xE8 => Some((Instruction::AddSPImmediate(n as i8), 2)),
        0xE9 => Some((Instruction::JumpHL, 1)),
        0xEA => Some((Instruction::Load(WriteTarget::Direct(nn), ReadTarget::Accumulator), 3)),
        0xF0 => Some((Instruction::Load(WriteTarget::Accumulator, ReadTarget::FFDirect(n)), 2)),
        0xF2 => Some((Instruction::Load(WriteTarget::Accumulator, ReadTarget::FFIndirectC), 1)),
        0xF3 => Some((Instruction::DisableInterrupts, 1)),
        0xF8 => Some((Instruction::LoadHLStackPointerOffset(n as i8), 2)),
        0xF9 => Some((Instruction::LoadStackPointerHL, 1)),
        0xFA => Some((Instruction::Load(WriteTarget::Accumulator, ReadTarget::Direct(nn)), 3)),
        0xFB => Some((Instruction::EnableInterrupts, 1)),
        _ => None,
    }
}

/// The instruction an opcode encodes and its length in bytes, given the byte `n` and the
/// little-endian word `nn` that follow the opcode (for CB-prefixed opcodes `n` is the second
/// opcode byte); None for an opcode that is not an instruction.
#[verifier::opaque]
pub open spec fn spec_decode(opcode: u8, n: u8, nn: u16) -> Option<(Instruction, u16)> {
    if opcode <= 0x3F {
        Some(spec_decode_low_block(opcode, n, nn))
    } else if opcode <= 0x7F {
        if opcode == 0x76 {
            Some((Instruction::Halt, 1))
        } else {
            Some(
                (
                    Instruction::Load(
                        write_target_for(mid_code(opcode)),
                        read_target_for(low_code(opcode)),
                    ),
                    1,
                ),
            )
        }
    } else if opcode <= 0xBF {
        Some((alu_instruction(((opcode - 0x80) / 8) as u8, read_target_for(low_code(opcode))), 1))
    } else if opcode == 0xCB {
        Some((spec_decode_cb(n), 2))
    } else {
        spec_decode_high_block(opcode, n, nn)
    }
}

/// The instruction at `pc` and the address after it, or the opcode that is not an instruction.
/// When the HALT bug triggered, the byte at `pc` is read twice: operands and the next address
/// count from `pc - 1`.
pub open spec fn spec_parse(
    mem: AddressSpaceView,
    ppu: PpuAccess,
    pc: u16,
    halt_bug_triggered: bool,
) -> Result<(Instruction, u16), u8> {
    let opcode = mem.read(pc, ppu);
    let base = if halt_bug_triggered {
        wrap16(pc - 1)
    } else {
        pc
    };
    let operand_address = wrap16(base + 1);
    match spec_decode(opcode, mem.read(operand_address, ppu), mem.read_u16(operand_address, ppu)) {
        Some((instruction, length)) => Ok((instruction, wrap16(base + length))),
        None => Err(opcode),
    }
}

/// Whether a parse result is the expected one: the same instruction and next address, or an
/// error naming the same single opcode.
pub open spec fn parse_result_is(
    r: Result<(Instruction, u16), ParseError>,
    expected: Result<(Instruction, u16), u8>,
) -> bool {
    match (r, expected) {
        (Ok(x), Ok(y)) => x == y,
        (Err(ParseError::InvalidOpcode { opcodes }), Err(opcode)) => opcodes@ == seq![opcode],
        _ => false,
    }
}

/// Every decoded BIT/SET/RES names a bit index below 8.
pub proof fn lemma_mid_code_bound(opcode: u8)
    ensures
        mid_code(opcode) < 8,
{
    assert((opcode & 0x38) >> 3 < 8) by (bit_vector);
}

/// Every instruction the decoder produces is well formed.
pub proof fn lemma_decode_well_formed(opcode: u8, n: u8, nn: u16)
    ensures
        spec_decode(opcode, n, nn) matches Some((instruction, _)) ==> instruction.spec_well_formed(),
{
    reveal(spec_decode);
    lemma_mid_code_bound(n);
}

/// Every instruction the decoder produces takes at most six machine cycles (24 clock cycles),
/// whatever the registers hold.
#[verifier::rlimit(60)]
pub proof fn law_decoded_cycles(opcode: u8, n: u8, nn: u16, regs: CpuRegisters)
    ensures
        spec_decode(opcode, n, nn) matches Some((instruction, _)) ==> instruction.spec_cycles(regs)
            <= 24,
{
    reveal(spec_decode);
}

fn read_target_from(code_bits: Option<CpuRegister>) -> (r: ReadTarget)
    ensures
        r == (match code_bits {
            Some(register) => ReadTarget::Register(register),
            None => ReadTarget::IndirectHL,
        }),
{
    match code_bits {
        Some(register) => ReadTarget::Register(register),
        None => ReadTarget::IndirectHL,
    }
}

fn write_target_from(code_bits: Option<CpuRegister>) -> (r: WriteTarget)
    ensures
        r == (match code_bits {
            Some(register) => WriteTarget::Register(register),
            None => WriteTarget::IndirectHL,
        }),
{
    match code_bits {
        Some(register) => WriteTarget::Register(register),
        None => WriteTarget::IndirectHL,
    }
}

fn modify_target_from(code_bits: Option<CpuRegister>) -> (r: ModifyTarget)
    ensures
        r == (match code_bits {
            Some(register) => ModifyTarget::Register(register),
            None => ModifyTarget::IndirectHL,
        }),
{
    match code_bits {
        Some(register) => ModifyTarget::Register(register),
        None => ModifyTarget::IndirectHL,
    }
}

fn register_pair_for_other_ops(opcode: u8) -> (r: CpuRegisterPair)
    ensures
        r == pair_for_other_ops(opcode),
{
    match (opcode / 16) % 4 {
        0 => CpuRegisterPair::BC,
        1 => CpuRegisterPair::DE,
        2 => CpuRegisterPair::HL,
        _ => CpuRegisterPair::SP,
    }
}

fn register_pair_for_push_pop(opcode: u8) -> (r: CpuRegisterPair)
    ensures
        r == pair_for_push_pop(opcode),
{
    match (opcode / 16) % 4 {
        0 => CpuRegisterPair::BC,
        1 => CpuRegisterPair::DE,
        2 => CpuRegisterPair::HL,
        _ => CpuRegisterPair::AF,
    }
}

fn parse_jump_condition(opcode: u8) -> (r: JumpCondition)
    ensures
        r == condition_for(opcode),
{
    match (opcode / 8) % 4 {
        0 => JumpCondition::NZ,
        1 => JumpCondition::Z,
        2 => JumpCondition::NC,
        _ => JumpCondition::C,
    }
}

fn alu_instruction_for(kind: u8, operand: ReadTarget) -> (r: Instruction)
    ensures
        r == alu_instruction(kind, operand),
{
    match kind {
        0 => Instruction::Add(operand),
        1 => Instruction::AddWithCarry(operand),
        2 => Instruction::Subtract(operand),
        3 => Instruction::SubtractWithCarry(operand),
        4 => Instruction::And(operand),
        5 => Instruction::Xor(operand),
        6 => Instruction::Or(operand),
        _ => Instruction::Compare(operand),
    }
}

fn shift_instruction_for(kind: u8, target: ModifyTarget) -> (r: Instruction)
    ensures
        r == shift_instruction(kind, target),
{
    match kind {
        0 => Instruction::RotateLeft(target),
        1 => Instruction::RotateRight(target),
        2 => Instruction::RotateLeftThruCarry(target),
        3 => Instruction::RotateRightThruCarry(target),
        4 => Instruction::ShiftLeft(target),
        5 => Instruction::ArithmeticShiftRight(target),
        6 => Instruction::Swap(target),
        _ => Instruction::LogicalShiftRight(target),
    }
}

fn parse_cb_prefixed_opcode(opcode: u8) -> (r: Instruction)
    ensures
        r == spec_decode_cb(opcode),
{
    let bit = (opcode & 0x38) >> 3;
    if opcode <= 0x3F {
        let modify_target = modify_target_from(CpuRegister::from_low_opcode_bits(opcode));
        shift_instruction_for(opcode / 8, modify_target)
    } else if opcode <= 0x7F {
        let read_target = read_target_from(CpuRegister::from_low_opcode_bits(opcode));
        Instruction::TestBit(bit, read_target)
    } else if opcode <= 0xBF {
        let modify_target = modify_target_from(CpuRegister::from_low_opcode_bits(opcode));
        Instruction::ResetBit(bit, modify_target)
    } else {
        let modify_target = modify_target_from(CpuRegister::from_low_opcode_bits(opcode));
        Instruction::SetBit(bit, modify_target)
    }
}

fn decode_low_block(opcode: u8, n: u8, nn: u16) -> (r: (Instruction, u16))
    requires
        opcode <= 0x3F,
    ensures
        r == spec_decode_low_block(opcode, n, nn),
{
    match opcode {
        0x00 => (Instruction::NoOp, 1),
        0x01 | 0x11 | 0x21 | 0x31 => {
            let rr = register_pair_for_other_ops(opcode);
            (Instruction::LoadRegisterPairImmediate(rr, nn), 3)
        },
        0x02 => (Instruction::Load(WriteTarget::IndirectBC, ReadTarget::Accumulator), 1),
        0x03 | 0x13 | 0x23 | 0x33 => {
            let rr = register_pair_for_other_ops(opcode);
            (Instruction::IncRegisterPair(rr), 1)
        },
        0x04 | 0x0C | 0x14 | 0x1C | 0x24 | 0x2C | 0x34 | 0x3C => {
            let modify_target = modify_target_from(CpuRegister::from_mid_opcode_bits(opcode));
            (Instruction::Increment(modify_target), 1)
        },
        0x05 | 0x0D | 0x15 | 0x1D | 0x25 | 0x2D | 0x35 | 0x3D => {
            let modify_target = modify_target_from(CpuRegister::from_mid_opcode_bits(opcode));
            (Instruction::Decrement(modify_target), 1)
        },
        0x06 | 0x0E | 0x16 | 0x1E | 0x26 | 0x2E | 0x36 | 0x3E => {
            let write_target = write_target_from(CpuRegister::from_mid_opcode_bits(opcode));
            (Instruction::Load(write_target, ReadTarget::Immediate(n)), 2)
        },
        0x07 => (Instruction::RotateLeft(ModifyTarget::Accumulator), 1),
        0x08 => (Instruction::LoadDirectStackPointer(nn), 3),
        0x09 | 0x19 | 0x29 | 0x39 => {
            let rr = register_pair_for_other_ops(opcode);
            (Instruction::AddHLRegister(rr), 1)
        },
        0x0A => (Instruction::Load(WriteTarget::Accumulator, ReadTarget::IndirectBC), 1),
        0x0B | 0x1B | 0x2B | 0x3B => {
            let rr = register_pair_for_other_ops(opcode);
            (Instruction::DecRegisterPair(rr), 1)
        },
        0x0F => (Instruction::RotateRight(ModifyTarget::Accumulator), 1),
        0x10 => (Instruction::Stop, 2),
        0x12 => (Instruction::Load(WriteTarget::IndirectDE, ReadTarget::Accumulator), 1),
        0x17 => (Instruction::RotateLeftThruCarry(ModifyTarget::Accumulator), 1),
        0x18 => (Instruction::RelativeJump(n as i8), 2),
        0x1A => (Instruction::Load(WriteTarget::Accumulator, ReadTarget::IndirectDE), 1),
        0x1F => (Instruction::RotateRightThruCarry(ModifyTarget::Accumulator), 1),
        0x20 | 0x28 | 0x30 | 0x38 => {
            let cc = parse_jump_condition(opcode);
            (Instruction::RelativeJumpCond(cc, n as i8), 2)
        },
        0x22 => (Instruction::Load(WriteTarget::IndirectHLInc, ReadTarget::Accumulator), 1),
        0x27 => (Instruction::DecimalAdjustAccumulator, 1),
        0x2A => (Instruction::Load(WriteTarget::Accumulator, ReadTarget::IndirectHLInc), 1),
        0x2F => (Instruction::ComplementAccumulator, 1),
        0x32 => (Instruction::Load(WriteTarget::IndirectHLDec, ReadTarget::Accumulator), 1),
        0x37 => (Instruction::SetCarryFlag, 1),
        0x3A => (Instruction::Load(WriteTarget::Accumulator, ReadTarget::IndirectHLDec), 1),
        _ => (Instruction::ComplementCarryFlag, 1),
    }
}

fn decode_high_block(opcode: u8, n: u8, nn: u16) -> (r: Option<(Instruction, u16)>)
    requires
        opcode >= 0xC0,
    ensures
        r == spec_decode_high_block(opcode, n, nn),
{
    match opcode {
        0xC0 | 0xC8 | 0xD0 | 0xD8 => {
            let cc = parse_jump_condition(opcode);
            Some((Instruction::ReturnCond(cc), 1))
        },
        0xC1 | 0xD1 | 0xE1 | 0xF1 => {
            let rr = register_pair_for_push_pop(opcode);
            Some((Instruction::PopStack(rr), 1))
        },
        0xC2 | 0xCA | 0xD2 | 0xDA => {
            let cc = parse_jump_condition(opcode);
            Some((Instruction::JumpCond(cc, nn), 3))
        },
        0xC3 => Some((Instruction::Jump(nn), 3)),
        0xC4 | 0xCC | 0xD4 | 0xDC => {
            let cc = parse_jump_condition(opcode);
            Some((Instruction::CallCond(cc, nn), 3))
        },
        0xC5 | 0xD5 | 0xE5 | 0xF5 => {
            let rr = register_pair_for_push_pop(opcode);
            Some((Instruction::PushStack(rr), 1))
        },
        0xC6 | 0xCE | 0xD6 | 0xDE | 0xE6 | 0xEE | 0xF6 | 0xFE => {
            Some((alu_instruction_for((opcode - 0xC0) / 8, ReadTarget::Immediate(n)), 2))
        },
        0xC7 | 0xCF | 0xD7 | 0xDF | 0xE7 | 0xEF | 0xF7 | 0xFF => {
            let rst_address = opcode & 0x38;
            Some((Instruction::RestartCall(rst_address), 1))
        },
        0xC9 => Some((Instruction::Return, 1)),
        0xCD => Some((Instruction::Call(nn), 3)),
        0xD9 => Some((Instruction::ReturnFromInterruptHandler, 1)),
        0xE0 => Some((Instruction::Load(WriteTarget::FFDirect(n), ReadTarget::Accumulator), 2)),
        0xE2 => Some((Instruction::Load(WriteTarget::FFIndirectC, ReadTarget::Accumulator), 1)),
        0xE8 => Some((Instruction::AddSPImmediate(n as i8), 2)),
        0xE9 => Some((Instruction::JumpHL, 1)),
        0xEA => Some((Instruction::Load(WriteTarget::Direct(nn), ReadTarget::Accumulator), 3)),
        0xF0 => Some((Instruction::Load(WriteTarget::Accumulator, ReadTarget::FFDirect(n)), 2)),
        0xF2 => Some((Instruction::Load(WriteTarget::Accumulator, ReadTarget::FFIndirectC), 1)),
        0xF3 => Some((Instruction::DisableInterrupts, 1)),
        0xF8 => Some((Instruction::LoadHLStackPointerOffset(n as i8), 2)),
        0xF9 => Some((Instruction::LoadStackPointerHL, 1)),
        0xFA => Some((Instruction::Load(WriteTarget::Accumulator, ReadTarget::Direct(nn)), 3)),
        0xFB => Some((Instruction::EnableInterrupts, 1)),
        _ => None,
    }
}

/// Decode an opcode given the byte and the little-endian word that follow it.
fn decode(opcode: u8, n: u8, nn: u16) -> (r: Option<(Instruction, u16)>)
    ensures
        r == spec_decode(opcode, n, nn),
{
    reveal(spec_decode);
    if opcode <= 0x3F {
        Some(decode_low_block(opcode, n, nn))
    } else if opcode <= 0x7F {
        if opcode == 0x76 {
            Some((Instruction::Halt, 1))
        } else {
            let write_target = write_target_from(CpuRegister::from_mid_opcode_bits(opcode));
            let read_target = read_target_from(CpuRegister::from_low_opcode_bits(opcode));
            Some((Instruction::Load(write_target, read_target), 1))
        }
    } else if opcode <= 0xBF {
        let read_target = read_target_from(CpuRegister::from_low_opcode_bits(opcode));
        Some((alu_instruction_for((opcode - 0x80) / 8, read_target), 1))
    } else if opcode == 0xCB {
        Some((parse_cb_prefixed_opcode(n), 2))
    } else {
        decode_high_block(opcode, n, nn)
    }
}

/// Parse the instruction at `pc`, returning it together with the address of the next
/// instruction.
pub fn parse_next_instruction(address_space: &AddressSpace, pc: u16, ppu_state: &PpuState) -> (r:
    Result<(Instruction, u16), ParseError>)
    ensures
        parse_result_is(r, spec_parse(address_space@, ppu_state@.access(), pc, false)),
        r matches Ok((instruction, _)) ==> instruction.spec_well_formed(),
{
    parse_next_instruction_with_halt_bug(address_space, pc, ppu_state, false)
}

/// Parse the instruction at `pc`. If the HALT bug triggered, the opcode byte is read twice:
/// the operands and the returned next address count from `pc - 1`.
#[verifier::rlimit(40)]
pub fn parse_next_instruction_with_halt_bug(
    address_space: &AddressSpace,
    pc: u16,
    ppu_state: &PpuState,
    halt_bug_triggered: bool,
) -> (r: Result<(Instruction, u16), ParseError>)
    ensures
        parse_result_is(r, spec_parse(address_space@, ppu_state@.access(), pc, halt_bug_triggered)),
        r matches Ok((instruction, _)) ==> instruction.spec_well_formed(),
{
    let opcode = address_space.read_address_u8(pc, ppu_state);
    // If HALT bug triggered, act as if the opcode read did not advance the PC
    let base = if halt_bug_triggered {
        pc.wrapping_sub(1)
    } else {
        pc
    };
    assert(base == if halt_bug_triggered { wrap16(pc - 1) } else { pc });
    let operand_address = base.wrapping_add(1);
    assert(operand_address == wrap16(base + 1));
    let n = address_space.read_address_u8(operand_address, ppu_state);
    let nn = address_space.read_address_u16(operand_address, ppu_state);
    proof {
        lemma_decode_well_formed(opcode, n, nn);
    }
    match decode(opcode, n, nn) {
        Some((instruction, length)) => {
            let next = base.wrapping_add(length);
            assert(next == wrap16(base + length));
            Ok((instruction, next))
        },
        None => {
            let mut opcodes = Vec::new();
            opcodes.push(opcode);
            assert(opcodes@ == seq![opcode]);
            Err(ParseError::InvalidOpcode { opcodes })
        },
    }
}

} // verus!
