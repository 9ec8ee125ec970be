use crate::cpu::instructions::{
    alu_rotate_left, alu_rotate_left_thru_carry, alu_rotate_right, alu_rotate_right_thru_carry,
    alu_shift_left, alu_shift_right_arithmetic, alu_shift_right_logical, alu_swap, wrap16,
    write_shifted, ExecutionError,
    Instruction, ModifyTarget, ReadTarget, WriteTarget,
};
use crate::cpu::instructions::parse::spec_decode;
use crate::cpu::instructions::JumpCondition;
use crate::cpu::registers::{law_flags_read_back, CpuRegister, CpuRegisterPair, CpuRegisters};
use crate::memory::{law_ram_write_other, law_ram_write_read, lemma_ram_write_wf, AddressSpaceView};
use crate::ppu::PpuAccess;
use vstd::prelude::*;

verus! {

/// Whether the instruction is one of the conditional jumps, calls and returns.
pub open spec fn is_conditional(instruction: Instruction) -> bool {
    instruction is JumpCond || instruction is RelativeJumpCond || instruction is CallCond
        || instruction is ReturnCond
}

/// The interrupt master enable after an instruction: set by EI and RETI, cleared by DI and
/// kept by every other instruction.
pub open spec fn ime_after(instruction: Instruction, ime: bool) -> bool {
    match instruction {
        Instruction::EnableInterrupts | Instruction::ReturnFromInterruptHandler => true,
        Instruction::DisableInterrupts => false,
        _ => ime,
    }
}

#[verifier::rlimit(40)]
proof fn lemma_load_keeps_ime(
    instruction: Instruction,
    regs: CpuRegisters,
    mem: AddressSpaceView,
    ppu: PpuAccess,
)
    requires
        instruction.spec_is_load(),
    ensures
        instruction.spec_effect(regs, mem, ppu) matches Ok((r, _)) && r.ime == regs.ime,
{
    reveal(Instruction::spec_effect);
}

#[verifier::rlimit(40)]
proof fn lemma_add_sub_keeps_ime(
    instruction: Instruction,
    regs: CpuRegisters,
    mem: AddressSpaceView,
    ppu: PpuAccess,
)
    requires
        instruction.spec_is_add_sub(),
    ensures
        instruction.spec_effect(regs, mem, ppu) matches Ok((r, _)) && r.ime == regs.ime,
{
    reveal(Instruction::spec_effect);
}

#[verifier::rlimit(40)]
proof fn lemma_logic_keeps_ime(
    instruction: Instruction,
    regs: CpuRegisters,
    mem: AddressSpaceView,
    ppu: PpuAccess,
)
    requires
        instruction.spec_is_logic(),
    ensures
        instruction.spec_effect(regs, mem, ppu) matches Ok((r, _)) && r.ime == regs.ime,
{
    reveal(Instruction::spec_effect);
}

#[verifier::rlimit(40)]
proof fn lemma_arithmetic_keeps_ime(
    instruction: Instruction,
    regs: CpuRegisters,
    mem: AddressSpaceView,
    ppu: PpuAccess,
)
    requires
        instruction.spec_is_arithmetic(),
    ensures
        instruction.spec_effect(regs, mem, ppu) matches Ok((r, _)) && r.ime == regs.ime,
{
    reveal(Instruction::spec_effect);
}

#[verifier::rlimit(40)]
proof fn lemma_rotate_keeps_ime(
    instruction: Instruction,
    regs: CpuRegisters,
    mem: AddressSpaceView,
    ppu: PpuAccess,
)
    requires
        instruction.spec_is_rotate(),
    ensures
        instruction.spec_effect(regs, mem, ppu) matches Ok((r, _)) && r.ime == regs.ime,
{
    reveal(Instruction::spec_effect);
}

#[verifier::rlimit(40)]
proof fn lemma_shift_bit_keeps_ime(
    instruction: Instruction,
    regs: CpuRegisters,
    mem: AddressSpaceView,
    ppu: PpuAccess,
)
    requires
        instruction.spec_is_shift_bit(),
    ensures
        instruction.spec_effect(regs, mem, ppu) matches Ok((r, _)) && r.ime == regs.ime,
{
    reveal(Instruction::spec_effect);
}

#[verifier::rlimit(40)]
proof fn lemma_control_ime(
    instruction: Instruction,
    regs: CpuRegisters,
    mem: AddressSpaceView,
    ppu: PpuAccess,
)
    requires
        instruction.spec_is_control(),
    ensures
        instruction != Instruction::Stop ==> instruction.spec_effect(regs, mem, ppu) is Ok,
        instruction.spec_effect(regs, mem, ppu) matches Ok((r, _)) ==> r.ime == ime_after(
            instruction,
            regs.ime,
        ),
{
    reveal(Instruction::spec_effect);
}

/// Every instruction but STOP completes. EI arms the one-instruction interrupt delay and every
/// other instruction that completes clears it; EI and RETI leave interrupts enabled, DI leaves
/// them disabled, and every other instruction leaves the interrupt master enable as it was.
pub proof fn law_execute_interrupt_flags(
    instruction: Instruction,
    regs: CpuRegisters,
    mem: AddressSpaceView,
    ppu: PpuAccess,
)
    ensures
        instruction != Instruction::Stop ==> instruction.spec_execute(regs, mem, ppu) is Ok,
        instruction.spec_execute(regs, mem, ppu) matches Ok((r, _)) ==> {
            &&& r.interrupt_delay == (instruction == Instruction::EnableInterrupts)
            &&& r.ime == ime_after(instruction, regs.ime)
        },
{
    if instruction.spec_is_load() {
        lemma_load_keeps_ime(instruction, regs, mem, ppu);
    } else if instruction.spec_is_add_sub() {
        lemma_add_sub_keeps_ime(instruction, regs, mem, ppu);
    } else if instruction.spec_is_logic() {
        lemma_logic_keeps_ime(instruction, regs, mem, ppu);
    } else if instruction.spec_is_arithmetic() {
        lemma_arithmetic_keeps_ime(instruction, regs, mem, ppu);
    } else if instruction.spec_is_rotate() {
        lemma_rotate_keeps_ime(instruction, regs, mem, ppu);
    } else if instruction.spec_is_shift_bit() {
        lemma_shift_bit_keeps_ime(instruction, regs, mem, ppu);
    } else {
        lemma_control_ime(instruction, regs, mem, ppu);
    }
}

/// What PUSH rr does: SP drops by two and the pair's value is written there.
proof fn lemma_push_effect(pair: CpuRegisterPair, regs: CpuRegisters, mem: AddressSpaceView, ppu: PpuAccess)
    ensures
        ({
            let r1 = CpuRegisters { sp: wrap16(regs.sp - 2), ..regs };
            Instruction::PushStack(pair).spec_effect(regs, mem, ppu) == Ok::<
                (CpuRegisters, AddressSpaceView),
                ExecutionError,
            >((r1, mem.write_u16(r1.sp, r1.pair_value(pair), ppu)))
        }),
{
    reveal(Instruction::spec_effect);
}

/// What POP rr does: the pair takes the word at SP and SP rises by two.
proof fn lemma_pop_effect(pair: CpuRegisterPair, regs: CpuRegisters, mem: AddressSpaceView, ppu: PpuAccess)
    ensures
        ({
            let r1 = regs.with_pair(pair, mem.read_u16(regs.sp, ppu));
            Instruction::PopStack(pair).spec_effect(regs, mem, ppu) == Ok::<
                (CpuRegisters, AddressSpaceView),
                ExecutionError,
            >((CpuRegisters { sp: wrap16(r1.sp + 2), ..r1 }, mem))
        }),
{
    reveal(Instruction::spec_effect);
}

/// PUSH of a register pair followed by POP of the same pair, with the stack in working RAM or
/// HRAM, leaves the pair's value at the new top of the stack, then gives back SP and the pair
/// (AF with the low nibble of F cleared) and changes no other register but the interrupt delay,
/// which it clears; the POP leaves memory as the PUSH left it.
#[verifier::rlimit(60)]
#[verifier::spinoff_prover]
pub proof fn law_push_pop_register_pair(
    pair: CpuRegisterPair,
    regs: CpuRegisters,
    mem: AddressSpaceView,
    ppu: PpuAccess,
)
    requires
        mem.wf(),
        pair != CpuRegisterPair::SP,
        (0xC002 <= regs.sp <= 0xE000 && !ppu.oam_dma_active) || 0xFF82 <= regs.sp <= 0xFFFF,
    ensures
        Instruction::PushStack(pair).spec_execute(regs, mem, ppu) matches Ok((r1, m1)) && {
            &&& r1.sp == regs.sp - 2
            &&& m1.read_u16(r1.sp, ppu) == regs.pair_value(pair)
            &&& Instruction::PopStack(pair).spec_execute(r1, m1, ppu) == Ok::<
                (CpuRegisters, AddressSpaceView),
                ExecutionError,
            >(
                (
                    CpuRegisters {
                        interrupt_delay: false,
                        flags: if pair == CpuRegisterPair::AF {
                            regs.flags & 0xF0
                        } else {
                            regs.flags
                        },
                        ..regs
                    },
                    m1,
                ),
            )
        },
{
    let value = regs.pair_value(pair);
    let sp = wrap16(regs.sp - 2);
    assert(sp == regs.sp - 2);
    let pushed = CpuRegisters { sp, ..regs };
    let r1 = CpuRegisters { interrupt_delay: false, ..pushed };
    let m1 = mem.write_u16(sp, value, ppu);
    assert(pushed.pair_value(pair) == value);
    lemma_stack_word_write_read(mem, sp, value, ppu);
    lemma_push_effect(pair, regs, mem, ppu);
    lemma_execute_of_effect(Instruction::PushStack(pair), regs, mem, ppu, pushed, m1);
    lemma_pair_write_back(pair, r1);
    let loaded = r1.with_pair(pair, value);
    assert(wrap16(loaded.sp + 2) == regs.sp);
    let popped = CpuRegisters { sp: wrap16(loaded.sp + 2), ..loaded };
    lemma_pop_effect(pair, r1, m1, ppu);
    lemma_execute_of_effect(Instruction::PopStack(pair), r1, m1, ppu, popped, m1);
}

/// An instruction other than EI that completes clears the interrupt delay and otherwise does
/// what its effect says.
proof fn lemma_execute_of_effect(
    instruction: Instruction,
    regs: CpuRegisters,
    mem: AddressSpaceView,
    ppu: PpuAccess,
    r: CpuRegisters,
    m: AddressSpaceView,
)
    requires
        instruction != Instruction::EnableInterrupts,
        instruction.spec_effect(regs, mem, ppu) == Ok::<(CpuRegisters, AddressSpaceView), ExecutionError>((r, m)),
    ensures
        instruction.spec_execute(regs, mem, ppu) == Ok::<(CpuRegisters, AddressSpaceView), ExecutionError>(
            (CpuRegisters { interrupt_delay: false, ..r }, m),
        ),
{
}

/// A word the CPU writes to a stack slot in working RAM or HRAM is the word it reads back there.
#[verifier::rlimit(40)]
proof fn lemma_stack_word_write_read(mem: AddressSpaceView, sp: u16, value: u16, ppu: PpuAccess)
    requires
        mem.wf(),
        (0xC000 <= sp <= 0xDFFE && !ppu.oam_dma_active) || 0xFF80 <= sp <= 0xFFFD,
    ensures
        mem.write_u16(sp, value, ppu).read_u16(sp, ppu) == value,
{
    let next = ((sp as int + 1) % 0x10000) as u16;
    assert(next == sp + 1);
    let lsb = (value % 256) as u8;
    let msb = (value / 256) as u8;
    let mem1 = mem.write(sp, lsb, ppu);
    let mem2 = mem1.write(next, msb, ppu);
    law_ram_write_read(mem, sp, lsb, ppu);
    lemma_ram_write_wf(mem, sp, lsb, ppu);
    law_ram_write_read(mem1, next, msb, ppu);
    law_ram_write_other(mem1, next, sp, msb, ppu);
    assert(mem2.read(sp, ppu) == lsb);
    assert(mem2.read(next, ppu) == msb);
}

/// Writing a register pair's own value back into it changes nothing, but that the low nibble
/// of F reads as zero.
#[verifier::rlimit(40)]
proof fn lemma_pair_write_back(pair: CpuRegisterPair, regs: CpuRegisters)
    requires
        pair != CpuRegisterPair::SP,
    ensures
        regs.with_pair(pair, regs.pair_value(pair)) == (CpuRegisters {
            flags: if pair == CpuRegisterPair::AF {
                regs.flags & 0xF0
            } else {
                regs.flags
            },
            ..regs
        }),
{
}

/// Every instruction takes a whole number of machine cycles (a multiple of 4 clock cycles),
/// at least one and at most seven; only the conditional jumps, calls and returns depend on the
/// registers, and for those a taken branch costs more than one not taken.
pub proof fn law_instruction_cycles(instruction: Instruction, regs: CpuRegisters, other: CpuRegisters)
    ensures
        instruction.spec_cycles(regs) % 4 == 0,
        4 <= instruction.spec_cycles(regs) <= 28,
        !is_conditional(instruction) ==> instruction.spec_cycles(regs) == instruction.spec_cycles(
            other,
        ),
        instruction matches Instruction::JumpCond(cc, _) ==> (cc.spec_check(regs) && !cc.spec_check(
            other,
        ) ==> instruction.spec_cycles(regs) > instruction.spec_cycles(other)),
        instruction matches Instruction::RelativeJumpCond(cc, _) ==> (cc.spec_check(regs)
            && !cc.spec_check(other) ==> instruction.spec_cycles(regs) > instruction.spec_cycles(
            other,
        )),
        instruction matches Instruction::CallCond(cc, _) ==> (cc.spec_check(regs) && !cc.spec_check(
            other,
        ) ==> instruction.spec_cycles(regs) > instruction.spec_cycles(other)),
        instruction matches Instruction::ReturnCond(cc) ==> (cc.spec_check(regs) && !cc.spec_check(
            other,
        ) ==> instruction.spec_cycles(regs) > instruction.spec_cycles(other)),
{
}

/// What SRA and SRL do to their operand: the operand shifted right through the carry.
proof fn lemma_shift_right_effect(
    target: ModifyTarget,
    regs: CpuRegisters,
    mem: AddressSpaceView,
    ppu: PpuAccess,
)
    ensures
        Instruction::ArithmeticShiftRight(target).spec_effect(regs, mem, ppu) == Ok::<
            (CpuRegisters, AddressSpaceView),
            ExecutionError,
        >(
            write_shifted(
                target,
                alu_shift_right_arithmetic(target.spec_read(regs, mem, ppu)),
                false,
                regs,
                mem,
                ppu,
            ),
        ),
        Instruction::LogicalShiftRight(target).spec_effect(regs, mem, ppu) == Ok::<
            (CpuRegisters, AddressSpaceView),
            ExecutionError,
        >(
            write_shifted(
                target,
                alu_shift_right_logical(target.spec_read(regs, mem, ppu)),
                false,
                regs,
                mem,
                ppu,
            ),
        ),
{
    reveal(Instruction::spec_effect);
}

/// SRA r shifts the register right by one and keeps its sign: bit 7 of the result is bit 7 of
/// the operand and bits 0-6 are its bits 1-7. SRL r shifts a zero into bit 7 instead. Either
/// way C takes the bit shifted out (bit 0), Z is set exactly for a zero result, N and H are
/// cleared, no other register but F changes and memory is untouched.
#[verifier::rlimit(40)]
pub proof fn law_shift_right(register: CpuRegister, regs: CpuRegisters, mem: AddressSpaceView, ppu: PpuAccess)
    ensures
        ({
            let v = regs.register_value(register);
            &&& Instruction::ArithmeticShiftRight(ModifyTarget::Register(register)).spec_execute(
                regs,
                mem,
                ppu,
            ) matches Ok((r, m)) && {
                let res = r.register_value(register);
                &&& res & 0x80 == v & 0x80
                &&& res & 0x7F == v >> 1
                &&& r.spec_c() == (v & 1 == 1)
                &&& r.spec_z() == (res == 0)
                &&& !r.spec_n() && !r.spec_h()
                &&& r == (CpuRegisters { flags: r.flags, interrupt_delay: false, ..regs.with_register(register, res) })
                &&& m == mem
            }
            &&& Instruction::LogicalShiftRight(ModifyTarget::Register(register)).spec_execute(
                regs,
                mem,
                ppu,
            ) matches Ok((r, m)) && {
                let res = r.register_value(register);
                &&& res & 0x80 == 0
                &&& res & 0x7F == v >> 1
                &&& r.spec_c() == (v & 1 == 1)
                &&& r.spec_z() == (res == 0)
                &&& !r.spec_n() && !r.spec_h()
                &&& r == (CpuRegisters { flags: r.flags, interrupt_delay: false, ..regs.with_register(register, res) })
                &&& m == mem
            }
        }),
{
    let target = ModifyTarget::Register(register);
    lemma_shift_right_effect(target, regs, mem, ppu);
    let v = regs.register_value(register);
    let sra = (v / 2 + (v / 128) * 128) as u8;
    let srl = (v / 2) as u8;
    assert(sra & 0x80 == v & 0x80 && sra & 0x7F == v >> 1 && (v % 2 == 1) == (v & 1 == 1)
        && srl & 0x80 == 0 && srl & 0x7F == v >> 1) by (bit_vector)
        requires
            sra == (v / 2 + (v / 128) * 128) as u8,
            srl == (v / 2) as u8,
    ;
    law_flags_read_back(sra == 0, false, false, v % 2 == 1);
    law_flags_read_back(srl == 0, false, false, v % 2 == 1);
}

/// Whether `r` holds `regs` with `register` replaced by `res`, F showing Z for a zero result,
/// N and H clear and C equal to `carry`, the interrupt delay cleared and nothing else changed.
pub open spec fn shifted_into(regs: CpuRegisters, register: CpuRegister, r: CpuRegisters, res: u8, carry: bool) -> bool {
    &&& r.register_value(register) == res
    &&& r.spec_z() == (res == 0)
    &&& !r.spec_n()
    &&& !r.spec_h()
    &&& r.spec_c() == carry
    &&& r == (CpuRegisters { flags: r.flags, interrupt_delay: false, ..regs.with_register(register, res) })
}

/// What RotateLeft does to its operand.
proof fn lemma_rotate_left_effect(target: ModifyTarget, regs: CpuRegisters, mem: AddressSpaceView, ppu: PpuAccess)
    ensures
        Instruction::RotateLeft(target).spec_effect(regs, mem, ppu) == Ok::<
            (CpuRegisters, AddressSpaceView),
            ExecutionError,
        >(write_shifted(target, alu_rotate_left(target.spec_read(regs, mem, ppu)), true, regs, mem, ppu)),
{
    reveal(Instruction::spec_effect);
}

/// What RotateRight does to its operand.
proof fn lemma_rotate_right_effect(target: ModifyTarget, regs: CpuRegisters, mem: AddressSpaceView, ppu: PpuAccess)
    ensures
        Instruction::RotateRight(target).spec_effect(regs, mem, ppu) == Ok::<
            (CpuRegisters, AddressSpaceView),
            ExecutionError,
        >(write_shifted(target, alu_rotate_right(target.spec_read(regs, mem, ppu)), true, regs, mem, ppu)),
{
    reveal(Instruction::spec_effect);
}

/// What RotateLeftThruCarry does to its operand.
proof fn lemma_rotate_left_thru_carry_effect(target: ModifyTarget, regs: CpuRegisters, mem: AddressSpaceView, ppu: PpuAccess)
    ensures
        Instruction::RotateLeftThruCarry(target).spec_effect(regs, mem, ppu) == Ok::<
            (CpuRegisters, AddressSpaceView),
            ExecutionError,
        >(write_shifted(target, alu_rotate_left_thru_carry(target.spec_read(regs, mem, ppu), regs.spec_c()), true, regs, mem, ppu)),
{
    reveal(Instruction::spec_effect);
}

/// What RotateRightThruCarry does to its operand.
proof fn lemma_rotate_right_thru_carry_effect(target: ModifyTarget, regs: CpuRegisters, mem: AddressSpaceView, ppu: PpuAccess)
    ensures
        Instruction::RotateRightThruCarry(target).spec_effect(regs, mem, ppu) == Ok::<
            (CpuRegisters, AddressSpaceView),
            ExecutionError,
        >(write_shifted(target, alu_rotate_right_thru_carry(target.spec_read(regs, mem, ppu), regs.spec_c()), true, regs, mem, ppu)),
{
    reveal(Instruction::spec_effect);
}

/// What ShiftLeft does to its operand.
proof fn lemma_shift_left_effect(target: ModifyTarget, regs: CpuRegisters, mem: AddressSpaceView, ppu: PpuAccess)
    ensures
        Instruction::ShiftLeft(target).spec_effect(regs, mem, ppu) == Ok::<
            (CpuRegisters, AddressSpaceView),
            ExecutionError,
        >(write_shifted(target, alu_shift_left(target.spec_read(regs, mem, ppu)), false, regs, mem, ppu)),
{
    reveal(Instruction::spec_effect);
}

/// What Swap does to its operand.
proof fn lemma_swap_effect(target: ModifyTarget, regs: CpuRegisters, mem: AddressSpaceView, ppu: PpuAccess)
    ensures
        Instruction::Swap(target).spec_effect(regs, mem, ppu) == Ok::<
            (CpuRegisters, AddressSpaceView),
            ExecutionError,
        >(write_shifted(target, (alu_swap(target.spec_read(regs, mem, ppu)), false), false, regs, mem, ppu)),
{
    reveal(Instruction::spec_effect);
}

/// The integer forms of the rotates, shifts and nibble swap are the bit operations.
proof fn lemma_rotate_bits(v: u8, c: u8)
    requires
        c <= 1,
    ensures
        ((v * 2) % 256 + v / 128) as u8 == (v << 1u8) | (v >> 7u8),
        (v / 2 + (v % 2) * 128) as u8 == (v >> 1u8) | (v << 7u8),
        ((v * 2) % 256) as u8 == v << 1u8,
        ((v % 16) * 16 + v / 16) as u8 == (v << 4u8) | (v >> 4u8),
        ((v * 2) % 256 + c) as u8 == (v << 1u8) | c,
        (v / 2 + c * 128) as u8 == (v >> 1u8) | (c << 7u8),
        (v >= 128) == (v & 0x80 != 0),
        (v % 2 == 1) == (v & 1 != 0),
{
    assert(((v * 2) % 256 + v / 128) as u8 == (v << 1u8) | (v >> 7u8) && (v / 2 + (v % 2) * 128) as u8
        == (v >> 1u8) | (v << 7u8) && ((v * 2) % 256) as u8 == v << 1u8 && ((v % 16) * 16 + v
        / 16) as u8 == (v << 4u8) | (v >> 4u8) && ((v * 2) % 256 + c) as u8 == (v << 1u8) | c && (v
        / 2 + c * 128) as u8 == (v >> 1u8) | (c << 7u8) && (v >= 128) == (v & 0x80 != 0) && (v % 2
        == 1) == (v & 1 != 0)) by (bit_vector)
        requires
            c <= 1,
    ;
}

/// The CB-prefixed rotates and shifts of a register, bit by bit: RLC rotates left (bit 7 to
/// bit 0 and to C), RRC rotates right (bit 0 to bit 7 and to C), RL rotates left through the
/// carry (old C to bit 0, bit 7 to C), RR rotates right through the carry (old C to bit 7, bit 0
/// to C), SLA shifts left (a zero into bit 0, bit 7 to C) and SWAP exchanges the nibbles
/// (C cleared). Z is set exactly for a zero result, N and H are cleared, no other register but F
/// changes and memory is untouched.
#[verifier::rlimit(60)]
pub proof fn law_rotate_register(register: CpuRegister, regs: CpuRegisters, mem: AddressSpaceView, ppu: PpuAccess)
    ensures
        ({
            let v = regs.register_value(register);
            let t = ModifyTarget::Register(register);
            let c: u8 = if regs.spec_c() { 1 } else { 0 };
            &&& Instruction::RotateLeft(t).spec_execute(regs, mem, ppu) matches Ok((r, m))
                && shifted_into(regs, register, r, (v << 1u8) | (v >> 7u8), v & 0x80 != 0) && m == mem
            &&& Instruction::RotateRight(t).spec_execute(regs, mem, ppu) matches Ok((r, m))
                && shifted_into(regs, register, r, (v >> 1u8) | (v << 7u8), v & 1 != 0) && m == mem
            &&& Instruction::RotateLeftThruCarry(t).spec_execute(regs, mem, ppu) matches Ok((r, m))
                && shifted_into(regs, register, r, (v << 1u8) | c, v & 0x80 != 0) && m == mem
            &&& Instruction::RotateRightThruCarry(t).spec_execute(regs, mem, ppu) matches Ok((r, m))
                && shifted_into(regs, register, r, (v >> 1u8) | (c << 7u8), v & 1 != 0) && m == mem
            &&& Instruction::ShiftLeft(t).spec_execute(regs, mem, ppu) matches Ok((r, m))
                && shifted_into(regs, register, r, v << 1u8, v & 0x80 != 0) && m == mem
            &&& Instruction::Swap(t).spec_execute(regs, mem, ppu) matches Ok((r, m))
                && shifted_into(regs, register, r, (v << 4u8) | (v >> 4u8), false) && m == mem
        }),
{
    let t = ModifyTarget::Register(register);
    let v = regs.register_value(register);
    let c: u8 = if regs.spec_c() {
        1
    } else {
        0
    };
    lemma_rotate_bits(v, c);
    lemma_rotate_left_effect(t, regs, mem, ppu);
    lemma_rotate_right_effect(t, regs, mem, ppu);
    lemma_rotate_left_thru_carry_effect(t, regs, mem, ppu);
    lemma_rotate_right_thru_carry_effect(t, regs, mem, ppu);
    lemma_shift_left_effect(t, regs, mem, ppu);
    lemma_swap_effect(t, regs, mem, ppu);
    let (rlc, rlc_c) = alu_rotate_left(v);
    lemma_shifted_register(Instruction::RotateLeft(t), register, regs, mem, ppu, rlc, rlc_c, true);
    let (rrc, rrc_c) = alu_rotate_right(v);
    lemma_shifted_register(Instruction::RotateRight(t), register, regs, mem, ppu, rrc, rrc_c, true);
    let (rl, rl_c) = alu_rotate_left_thru_carry(v, regs.spec_c());
    assert(rl == ((v * 2) % 256 + c) as u8);
    lemma_shifted_register(
        Instruction::RotateLeftThruCarry(t),
        register,
        regs,
        mem,
        ppu,
        rl,
        rl_c,
        true,
    );
    let (rr, rr_c) = alu_rotate_right_thru_carry(v, regs.spec_c());
    assert(rr == (v / 2 + c * 128) as u8);
    lemma_shifted_register(
        Instruction::RotateRightThruCarry(t),
        register,
        regs,
        mem,
        ppu,
        rr,
        rr_c,
        true,
    );
    let (sla, sla_c) = alu_shift_left(v);
    lemma_shifted_register(Instruction::ShiftLeft(t), register, regs, mem, ppu, sla, sla_c, false);
    lemma_shifted_register(Instruction::Swap(t), register, regs, mem, ppu, alu_swap(v), false, false);
}

/// An instruction other than EI whose effect writes a rotated or shifted value back to a
/// register leaves the registers as `shifted_into` describes and memory as it was.
proof fn lemma_shifted_register(
    instruction: Instruction,
    register: CpuRegister,
    regs: CpuRegisters,
    mem: AddressSpaceView,
    ppu: PpuAccess,
    res: u8,
    carry: bool,
    accumulator_z_clear: bool,
)
    requires
        instruction != Instruction::EnableInterrupts,
        instruction.spec_effect(regs, mem, ppu) == Ok::<(CpuRegisters, AddressSpaceView), ExecutionError>(
            write_shifted(ModifyTarget::Register(register), (res, carry), accumulator_z_clear, regs, mem, ppu),
        ),
    ensures
        instruction.spec_execute(regs, mem, ppu) matches Ok((r, m)) && shifted_into(
            regs,
            register,
            r,
            res,
            carry,
        ) && m == mem,
{
    law_flags_read_back(res == 0, false, false, carry);
}

/// The 8-bit operand an opcode names in a 3-bit field, by the Game Boy opcode table: B, C, D,
/// E, H, L, (HL), A for 0-7.
pub open spec fn table_modify_operand(code: int) -> ModifyTarget {
    if code == 0 {
        ModifyTarget::Register(CpuRegister::B)
    } else if code == 1 {
        ModifyTarget::Register(CpuRegister::C)
    } else if code == 2 {
        ModifyTarget::Register(CpuRegister::D)
    } else if code == 3 {
        ModifyTarget::Register(CpuRegister::E)
    } else if code == 4 {
        ModifyTarget::Register(CpuRegister::H)
    } else if code == 5 {
        ModifyTarget::Register(CpuRegister::L)
    } else if code == 6 {
        ModifyTarget::IndirectHL
    } else {
        ModifyTarget::Register(CpuRegister::A)
    }
}

/// `table_modify_operand` as an operand that is only read.
pub open spec fn table_read_operand(code: int) -> ReadTarget {
    if code == 0 {
        ReadTarget::Register(CpuRegister::B)
    } else if code == 1 {
        ReadTarget::Register(CpuRegister::C)
    } else if code == 2 {
        ReadTarget::Register(CpuRegister::D)
    } else if code == 3 {
        ReadTarget::Register(CpuRegister::E)
    } else if code == 4 {
        ReadTarget::Register(CpuRegister::H)
    } else if code == 5 {
        ReadTarget::Register(CpuRegister::L)
    } else if code == 6 {
        ReadTarget::IndirectHL
    } else {
        ReadTarget::Register(CpuRegister::A)
    }
}

/// `table_modify_operand` as an operand that is only written.
pub open spec fn table_write_operand(code: int) -> WriteTarget {
    if code == 0 {
        WriteTarget::Register(CpuRegister::B)
    } else if code == 1 {
        WriteTarget::Register(CpuRegister::C)
    } else if code == 2 {
        WriteTarget::Register(CpuRegister::D)
    } else if code == 3 {
        WriteTarget::Register(CpuRegister::E)
    } else if code == 4 {
        WriteTarget::Register(CpuRegister::H)
    } else if code == 5 {
        WriteTarget::Register(CpuRegister::L)
    } else if code == 6 {
        WriteTarget::IndirectHL
    } else {
        WriteTarget::Register(CpuRegister::A)
    }
}

/// The two-byte CB-prefixed opcodes decode by the Game Boy opcode table: CB 00-3F are, eight
/// opcodes each, RLC, RRC, RL, RR, SLA, SRA, SWAP and SRL; CB 40-7F are BIT, CB 80-BF RES and
/// CB C0-FF SET, with the bit number in bits 3-5; the operand is named by bits 0-2.
#[verifier::rlimit(40)]
pub proof fn law_decode_cb_table(op: u8, nn: u16)
    ensures
        ({
            let t = table_modify_operand((op % 8) as int);
            let decoded = spec_decode(0xCB, op, nn);
            &&& op <= 0x07 ==> decoded == Some((Instruction::RotateLeft(t), 2u16))
            &&& 0x08 <= op <= 0x0F ==> decoded == Some((Instruction::RotateRight(t), 2u16))
            &&& 0x10 <= op <= 0x17 ==> decoded == Some((Instruction::RotateLeftThruCarry(t), 2u16))
            &&& 0x18 <= op <= 0x1F ==> decoded == Some((Instruction::RotateRightThruCarry(t), 2u16))
            &&& 0x20 <= op <= 0x27 ==> decoded == Some((Instruction::ShiftLeft(t), 2u16))
            &&& 0x28 <= op <= 0x2F ==> decoded == Some((Instruction::ArithmeticShiftRight(t), 2u16))
            &&& 0x30 <= op <= 0x37 ==> decoded == Some((Instruction::Swap(t), 2u16))
            &&& 0x38 <= op <= 0x3F ==> decoded == Some((Instruction::LogicalShiftRight(t), 2u16))
            &&& 0x40 <= op <= 0x7F ==> decoded == Some(
                (Instruction::TestBit(((op - 0x40) / 8) as u8, table_read_operand((op % 8) as int)), 2u16),
            )
            &&& 0x80 <= op <= 0xBF ==> decoded == Some(
                (Instruction::ResetBit(((op - 0x80) / 8) as u8, t), 2u16),
            )
            &&& 0xC0 <= op ==> decoded == Some((Instruction::SetBit(((op - 0xC0) / 8) as u8, t), 2u16))
        }),
{
    reveal(spec_decode);
    lemma_opcode_fields(op);
}

/// The one-byte register-to-register opcodes decode by the Game Boy opcode table: 40-7F other
/// than 76 (HALT) are LD with the destination in bits 3-5 and the source in bits 0-2; 80-BF are,
/// eight opcodes each, ADD, ADC, SUB, SBC, AND, XOR, OR and CP of the operand in bits 0-2.
#[verifier::rlimit(40)]
pub proof fn law_decode_register_blocks(op: u8, n: u8, nn: u16)
    ensures
        ({
            let source = table_read_operand((op % 8) as int);
            let decoded = spec_decode(op, n, nn);
            &&& op == 0x76 ==> decoded == Some((Instruction::Halt, 1u16))
            &&& 0x40 <= op <= 0x7F && op != 0x76 ==> decoded == Some(
                (Instruction::Load(table_write_operand((op - 0x40) / 8), source), 1u16),
            )
            &&& 0x80 <= op <= 0x87 ==> decoded == Some((Instruction::Add(source), 1u16))
            &&& 0x88 <= op <= 0x8F ==> decoded == Some((Instruction::AddWithCarry(source), 1u16))
            &&& 0x90 <= op <= 0x97 ==> decoded == Some((Instruction::Subtract(source), 1u16))
            &&& 0x98 <= op <= 0x9F ==> decoded == Some((Instruction::SubtractWithCarry(source), 1u16))
            &&& 0xA0 <= op <= 0xA7 ==> decoded == Some((Instruction::And(source), 1u16))
            &&& 0xA8 <= op <= 0xAF ==> decoded == Some((Instruction::Xor(source), 1u16))
            &&& 0xB0 <= op <= 0xB7 ==> decoded == Some((Instruction::Or(source), 1u16))
            &&& 0xB8 <= op <= 0xBF ==> decoded == Some((Instruction::Compare(source), 1u16))
        }),
{
    reveal(spec_decode);
    lemma_opcode_fields(op);
}

/// The condition a conditional opcode names in bits 3-4, by the Game Boy opcode table: NZ, Z,
/// NC, C.
pub open spec fn table_condition(code: int) -> JumpCondition {
    if code == 0 {
        JumpCondition::NZ
    } else if code == 1 {
        JumpCondition::Z
    } else if code == 2 {
        JumpCondition::NC
    } else {
        JumpCondition::C
    }
}

/// The register pair PUSH and POP name in bits 4-5: BC, DE, HL, AF.
pub open spec fn table_stack_pair(code: int) -> CpuRegisterPair {
    if code == 0 {
        CpuRegisterPair::BC
    } else if code == 1 {
        CpuRegisterPair::DE
    } else if code == 2 {
        CpuRegisterPair::HL
    } else {
        CpuRegisterPair::AF
    }
}

/// The register pair the other 16-bit opcodes name in bits 4-5: BC, DE, HL, SP.
pub open spec fn table_wide_pair(code: int) -> CpuRegisterPair {
    if code == 0 {
        CpuRegisterPair::BC
    } else if code == 1 {
        CpuRegisterPair::DE
    } else if code == 2 {
        CpuRegisterPair::HL
    } else {
        CpuRegisterPair::SP
    }
}

/// The bit fields of an opcode as integers: bits 0-2, bits 3-5, and the RST target of C7 + 8k.
proof fn lemma_opcode_fields(op: u8)
    ensures
        op & 0x07 == op % 8,
        (op & 0x38) >> 3 == (op / 8) % 8,
        op >= 0xC0 && op % 8 == 7 ==> op & 0x38 == op - 0xC7,
{
    assert(op & 0x07 == op % 8 && (op & 0x38) >> 3 == (op / 8) % 8 && (op >= 0xC0 && op % 8 == 7
        ==> op & 0x38 == op - 0xC7)) by (bit_vector);
}

/// The jumps, calls, returns, stack and 16-bit opcodes decode by the Game Boy opcode table,
/// with `n` the byte and `nn` the little-endian word after the opcode: JP nn (C3), JP cc,nn
/// (C2/CA/D2/DA), JR e (18), JR cc,e (20/28/30/38), CALL nn (CD), CALL cc,nn (C4/CC/D4/DC),
/// RET (C9), RET cc (C0/C8/D0/D8), RETI (D9), RST (C7 + 8k, to 8k), PUSH/POP (C5 + 16k /
/// C1 + 16k), LD rr,nn (01 + 16k), INC rr (03 + 16k), DEC rr (0B + 16k), ADD HL,rr (09 + 16k),
/// DI (F3), EI (FB), HALT (76), NOP (00).
#[verifier::rlimit(60)]
pub proof fn law_decode_control_table(op: u8, n: u8, nn: u16)
    ensures
        ({
            let decoded = spec_decode(op, n, nn);
            let cc = table_condition(((op / 8) % 4) as int);
            let k = (op / 16) % 4;
            &&& op == 0xC3 ==> decoded == Some((Instruction::Jump(nn), 3u16))
            &&& (op == 0xC2 || op == 0xCA || op == 0xD2 || op == 0xDA) ==> decoded == Some(
                (Instruction::JumpCond(cc, nn), 3u16),
            )
            &&& op == 0x18 ==> decoded == Some((Instruction::RelativeJump(n as i8), 2u16))
            &&& (op == 0x20 || op == 0x28 || op == 0x30 || op == 0x38) ==> decoded == Some(
                (Instruction::RelativeJumpCond(cc, n as i8), 2u16),
            )
            &&& op == 0xCD ==> decoded == Some((Instruction::Call(nn), 3u16))
            &&& (op == 0xC4 || op == 0xCC || op == 0xD4 || op == 0xDC) ==> decoded == Some(
                (Instruction::CallCond(cc, nn), 3u16),
            )
            &&& op == 0xC9 ==> decoded == Some((Instruction::Return, 1u16))
            &&& (op == 0xC0 || op == 0xC8 || op == 0xD0 || op == 0xD8) ==> decoded == Some(
                (Instruction::ReturnCond(cc), 1u16),
            )
            &&& op == 0xD9 ==> decoded == Some((Instruction::ReturnFromInterruptHandler, 1u16))
            &&& (op >= 0xC0 && op % 8 == 7) ==> decoded == Some(
                (Instruction::RestartCall((op - 0xC7) as u8), 1u16),
            )
            &&& (op >= 0xC0 && op % 16 == 5) ==> decoded == Some(
                (Instruction::PushStack(table_stack_pair(k as int)), 1u16),
            )
            &&& (op >= 0xC0 && op % 16 == 1) ==> decoded == Some(
                (Instruction::PopStack(table_stack_pair(k as int)), 1u16),
            )
            &&& (op < 0x40 && op % 16 == 1) ==> decoded == Some(
                (Instruction::LoadRegisterPairImmediate(table_wide_pair(k as int), nn), 3u16),
            )
            &&& (op < 0x40 && op % 16 == 3) ==> decoded == Some(
                (Instruction::IncRegisterPair(table_wide_pair(k as int)), 1u16),
            )
            &&& (op < 0x40 && op % 16 == 0x0B) ==> decoded == Some(
                (Instruction::DecRegisterPair(table_wide_pair(k as int)), 1u16),
            )
            &&& (op < 0x40 && op % 16 == 9) ==> decoded == Some(
                (Instruction::AddHLRegister(table_wide_pair(k as int)), 1u16),
            )
            &&& op == 0xF3 ==> decoded == Some((Instruction::DisableInterrupts, 1u16))
            &&& op == 0xFB ==> decoded == Some((Instruction::EnableInterrupts, 1u16))
            &&& op == 0x76 ==> decoded == Some((Instruction::Halt, 1u16))
            &&& op == 0x00 ==> decoded == Some((Instruction::NoOp, 1u16))
        }),
{
    reveal(spec_decode);
    lemma_opcode_fields(op);
}

} // verus!
