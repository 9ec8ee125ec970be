pub mod instructions;
pub mod registers;

use crate::cpu::instructions::parse::spec_parse;
use crate::cpu::instructions::{
    parse_next_instruction_with_halt_bug, push_u16, wrapping_sub2, ExecutionError, ParseError,
};
use crate::cpu::registers::CpuRegisters;
use crate::memory::ioregisters::{spec_highest_priority_interrupt, IoRegister};
use crate::memory::{AddressSpace, AddressSpaceView};
use crate::ppu::{PpuAccess, PpuState};
use vstd::prelude::*;

verus! {

/// Whether the emulated hardware is an original Game Boy or a Game Boy Color.
#[derive(Debug, Clone, Copy, PartialEq, Eq, Structural)]
pub enum ExecutionMode {
    GameBoy,
    GameBoyColor,
}

/// The number of clock cycles required to execute the interrupt service routine.
pub const ISR_CYCLES_REQUIRED: u32 = 20;

/// A source of CPU interrupts.
#[derive(Debug, Clone, Copy, PartialEq, Eq, Structural)]
pub enum InterruptType {
    VBlank,
    LcdStatus,
    Timer,
    Serial,
    Joypad,
}

impl InterruptType {
    pub open spec fn spec_handler_address(self) -> u16 {
        match self {
            InterruptType::VBlank => 0x0040,
            InterruptType::LcdStatus => 0x0048,
            InterruptType::Timer => 0x0050,
            InterruptType::Serial => 0x0058,
            InterruptType::Joypad => 0x0060,
        }
    }

    pub open spec fn spec_bit(self) -> u8 {
        match self {
            InterruptType::VBlank => 0x01,
            InterruptType::LcdStatus => 0x02,
            InterruptType::Timer => 0x04,
            InterruptType::Serial => 0x08,
            InterruptType::Joypad => 0x10,
        }
    }

    /// Return the handler address that the CPU should jump to in the interrupt service routine
    /// when this interrupt type is triggered.
    pub fn handler_address(self) -> (r: u16)
        ensures
            r == self.spec_handler_address(),
    {
        match self {
            Self::VBlank => 0x0040,
            Self::LcdStatus => 0x0048,
            Self::Timer => 0x0050,
            Self::Serial => 0x0058,
            Self::Joypad => 0x0060,
        }
    }

    /// Return the bit mask for this interrupt type used in the IE and IF registers.
    pub fn bit(self) -> (r: u8)
        ensures
            r == self.spec_bit(),
    {
        match self {
            Self::VBlank => 0x01,
            Self::LcdStatus => 0x02,
            Self::Timer => 0x04,
            Self::Serial => 0x08,
            Self::Joypad => 0x10,
        }
    }
}

/// Whether some interrupt type (bits 0-4) is both enabled (IE) and requested (IF).
pub open spec fn spec_interrupt_requested(mem: AddressSpaceView) -> bool {
    mem.ie & mem.io.read_register(IoRegister::IF) & 0x1F != 0
}

/// Whether an interrupt triggers: IME is set, the last instruction was not EI, and some
/// interrupt type is both enabled and requested.
pub open spec fn spec_interrupt_triggered(regs: CpuRegisters, mem: AddressSpaceView) -> bool {
    regs.ime && !regs.interrupt_delay && spec_interrupt_requested(mem)
}

/// The interrupt the service routine dispatches to: the highest priority type that is enabled
/// and requested once PC has been pushed (the push may itself write IE).
pub open spec fn spec_isr_interrupt(regs: CpuRegisters, mem: AddressSpaceView, ppu: PpuAccess) -> Option<
    InterruptType,
> {
    let (_, pushed) = push_u16(regs, mem, regs.pc, ppu);
    spec_highest_priority_interrupt(pushed.io.byte(IoRegister::IF) & pushed.ie)
}

/// The interrupt service routine: PC is pushed, PC jumps to the handler of the dispatched
/// interrupt, its IF bit is cleared, IME is cleared and the CPU leaves HALT.
pub open spec fn spec_isr(regs: CpuRegisters, mem: AddressSpaceView, ppu: PpuAccess) -> (
    CpuRegisters,
    AddressSpaceView,
) {
    let (r1, m1) = push_u16(regs, mem, regs.pc, ppu);
    let interrupt = spec_isr_interrupt(regs, mem, ppu)->Some_0;
    (
        CpuRegisters {
            pc: interrupt.spec_handler_address(),
            ime: false,
            halted: false,
            ..r1
        },
        m1.with_io(
            m1.io.with_byte(IoRegister::IF, m1.io.byte(IoRegister::IF) & !interrupt.spec_bit()),
        ),
    )
}

/// Determine whether an interrupt has triggered.
///
/// An interrupt triggers when the IME flag is set (interrupt master flag), the last instruction was
/// not EI (enable interrupts), and at least one interrupt type is set in both the IE register
/// (enabled interrupts) and the IF register (requested interrupts).
pub fn interrupt_triggered(cpu_registers: &CpuRegisters, address_space: &AddressSpace) -> (r: bool)
    ensures
        r == spec_interrupt_triggered(*cpu_registers, address_space@),
{
    cpu_registers.ime && !cpu_registers.interrupt_delay && interrupt_triggered_no_ime_check(
        address_space,
    )
}

/// Whether at least one interrupt type is set in both IE and IF, regardless of IME.
pub fn interrupt_triggered_no_ime_check(address_space: &AddressSpace) -> (r: bool)
    ensures
        r == spec_interrupt_requested(address_space@),
{
    let ie_value = address_space.get_ie_register();
    let if_value = address_space.get_io_registers().read_register(IoRegister::IF);
    ie_value & if_value & 0x1F != 0
}

/// Execute the CPU's interrupt service routine.
///
/// The routine disables the IME flag and then functionally executes CALL N where N is the handler
/// address for the highest priority requested & enabled interrupt type. It also un-halts the CPU
/// if it was previously halted.
///
/// There must be an interrupt type that is both enabled and requested (see
/// [`interrupt_triggered`]).
pub fn execute_interrupt_service_routine(
    cpu_registers: &mut CpuRegisters,
    address_space: &mut AddressSpace,
    ppu_state: &PpuState,
)
    requires
        spec_isr_interrupt(*old(cpu_registers), old(address_space)@, ppu_state@.access()) is Some,
    ensures
        (*final(cpu_registers), final(address_space)@) == spec_isr(
            *old(cpu_registers),
            old(address_space)@,
            ppu_state@.access(),
        ),
{
    service_interrupt(cpu_registers, address_space, ppu_state);
}

/// Push PC and dispatch to the highest priority enabled and requested interrupt. Returns false,
/// with only the push done, if the push left no such interrupt.
fn service_interrupt(
    cpu_registers: &mut CpuRegisters,
    address_space: &mut AddressSpace,
    ppu_state: &PpuState,
) -> (r: bool)
    ensures
        r == spec_isr_interrupt(*old(cpu_registers), old(address_space)@, ppu_state@.access()) is Some,
        r ==> (*final(cpu_registers), final(address_space)@) == spec_isr(
            *old(cpu_registers),
            old(address_space)@,
            ppu_state@.access(),
        ),
{
    cpu_registers.sp = wrapping_sub2(cpu_registers.sp);
    address_space.write_address_u16(cpu_registers.sp, cpu_registers.pc, ppu_state);
    let ie_value = address_space.get_ie_register();
    let mut flags = address_space.get_io_registers().interrupt_flags();
    let interrupt_type = match flags.highest_priority_interrupt(ie_value) {
        Some(interrupt_type) => interrupt_type,
        None => {
            return false;
        },
    };
    cpu_registers.pc = interrupt_type.handler_address();
    flags.clear(interrupt_type);
    address_space.get_io_registers_mut().set_interrupt_flags(flags);
    cpu_registers.ime = false;
    cpu_registers.halted = false;
    true
}

/// Why the CPU could not advance.
#[derive(Debug, Clone)]
pub enum CpuError {
    InstructionParse { source: ParseError },
    Execution { source: ExecutionError },
    /// The state admits no step: a speed switch wait count of zero, or an interrupt that the
    /// push of PC cleared before it could be serviced.
    InvalidState,
}

/// Why a CPU step fails, in terms of plain values: the opcode that could not be parsed, the
/// instruction that could not be executed, or a state with no step.
pub enum CpuFault {
    Parse(u8),
    Execution(ExecutionError),
    InvalidState,
}

/// The error value that reports a fault.
pub open spec fn reports_fault(e: CpuError, fault: CpuFault) -> bool {
    match fault {
        CpuFault::Parse(opcode) => e matches CpuError::InstructionParse {
            source: ParseError::InvalidOpcode { opcodes },
        } && opcodes@ == seq![opcode],
        CpuFault::Execution(error) => e matches CpuError::Execution { source } && source == error,
        CpuFault::InvalidState => e is InvalidState,
    }
}

/// What one CPU step does, decided from the state before it.
pub enum CpuStep {
    /// Wait out one M-cycle of a CGB speed switch.
    SpeedSwitchWait,
    /// Run the interrupt service routine.
    ServiceInterrupt,
    /// Fetch, decode and execute the next instruction (leaving HALT if halted).
    Execute,
    /// Stay halted for one M-cycle.
    Halted,
}

/// Which step the CPU takes: a pending speed switch first, then a triggered interrupt, then the
/// next instruction unless the CPU is halted with nothing requested.
pub open spec fn spec_cpu_step(regs: CpuRegisters, mem: AddressSpaceView) -> CpuStep {
    if regs.speed_switch_wait_cycles_remaining is Some {
        CpuStep::SpeedSwitchWait
    } else if spec_interrupt_triggered(regs, mem) {
        CpuStep::ServiceInterrupt
    } else if !regs.halted || spec_interrupt_requested(mem) {
        CpuStep::Execute
    } else {
        CpuStep::Halted
    }
}

/// Whether the CPU step from this state is defined: a speed switch wait counts down from a
/// positive number, and an interrupt service routine has an interrupt to dispatch to.
pub open spec fn spec_cpu_step_defined(regs: CpuRegisters, mem: AddressSpaceView, ppu: PpuAccess) -> bool {
    &&& regs.speed_switch_wait_cycles_remaining != Some(0u32)
    &&& spec_cpu_step(regs, mem) is ServiceInterrupt ==> spec_isr_interrupt(regs, mem, ppu) is Some
}

/// The registers after one M-cycle of waiting for a speed switch to finish.
pub open spec fn spec_speed_switch_wait(regs: CpuRegisters) -> CpuRegisters {
    let remaining = regs.speed_switch_wait_cycles_remaining->Some_0;
    CpuRegisters {
        speed_switch_wait_cycles_remaining: if remaining == 1 {
            None
        } else {
            Some((remaining - 1) as u32)
        },
        ..regs
    }
}

/// The outcome of one CPU step: the new registers and memory with the clock cycles taken, or the
/// reason the next instruction could not be parsed (the opcode) or executed.
pub open spec fn spec_tick_cpu(regs: CpuRegisters, mem: AddressSpaceView, ppu: PpuAccess) -> Result<
    (CpuRegisters, AddressSpaceView, u32),
    Result<u8, ExecutionError>,
> {
    match spec_cpu_step(regs, mem) {
        CpuStep::SpeedSwitchWait => Ok((spec_speed_switch_wait(regs), mem, 4)),
        CpuStep::ServiceInterrupt => {
            let (r, m) = spec_isr(regs, mem, ppu);
            Ok((r, m, ISR_CYCLES_REQUIRED))
        },
        CpuStep::Execute => {
            let unhalted = CpuRegisters { halted: false, ..regs };
            match spec_parse(mem, ppu, regs.pc, regs.halt_bug_triggered) {
                Err(opcode) => Err(Ok(opcode)),
                Ok((instruction, pc)) => {
                    let fetched = CpuRegisters { halt_bug_triggered: false, pc, ..unhalted };
                    match instruction.spec_execute(fetched, mem, ppu) {
                        Ok((r, m)) => Ok((r, m, instruction.spec_cycles(fetched))),
                        Err(e) => Err(Err(e)),
                    }
                },
            }
        },
        CpuStep::Halted => Ok((regs, mem, 4)),
    }
}

/// One CPU step with its faults: a state with no step fails, otherwise the step of
/// [`spec_tick_cpu`].
#[verifier::opaque]
pub open spec fn spec_cpu_tick(regs: CpuRegisters, mem: AddressSpaceView, ppu: PpuAccess) -> Result<
    (CpuRegisters, AddressSpaceView, u32),
    CpuFault,
> {
    if !spec_cpu_step_defined(regs, mem, ppu) {
        Err(CpuFault::InvalidState)
    } else {
        match spec_tick_cpu(regs, mem, ppu) {
            Ok(step) => Ok(step),
            Err(Ok(opcode)) => Err(CpuFault::Parse(opcode)),
            Err(Err(e)) => Err(CpuFault::Execution(e)),
        }
    }
}

/// Every CPU step takes between 4 and 28 clock cycles.
pub proof fn lemma_cpu_tick_cycles(regs: CpuRegisters, mem: AddressSpaceView, ppu: PpuAccess)
    ensures
        spec_cpu_tick(regs, mem, ppu) matches Ok((_, _, cycles)) ==> 4 <= cycles <= 28,
{
    reveal(spec_cpu_tick);
    if spec_cpu_step(regs, mem) is Execute {
        let unhalted = CpuRegisters { halted: false, ..regs };
        if let Ok((instruction, pc)) = spec_parse(mem, ppu, regs.pc, regs.halt_bug_triggered) {
            let fetched = CpuRegisters { halt_bug_triggered: false, pc, ..unhalted };
            assert(4 <= instruction.spec_cycles(fetched) <= 28);
        }
    }
}

/// Advance the CPU by one step: wait out a CGB speed switch, service an interrupt, or fetch and
/// execute one instruction. Returns the number of clock cycles taken.
pub fn tick_cpu(
    address_space: &mut AddressSpace,
    cpu_registers: &mut CpuRegisters,
    ppu_state: &PpuState,
) -> (r: Result<u32, CpuError>)
    ensures
        match spec_cpu_tick(*old(cpu_registers), old(address_space)@, ppu_state@.access()) {
            Ok((regs, mem, cycles)) => r == Ok::<u32, CpuError>(cycles) && *final(cpu_registers)
                == regs && final(address_space)@ == mem,
            Err(fault) => r matches Err(e) && reports_fault(e, fault),
        },
{
    reveal(spec_cpu_tick);
    if let Some(wait_cycles_remaining) = cpu_registers.speed_switch_wait_cycles_remaining {
        if wait_cycles_remaining == 0 {
            return Err(CpuError::InvalidState);
        }
        if wait_cycles_remaining == 1 {
            cpu_registers.speed_switch_wait_cycles_remaining = None;
        } else {
            cpu_registers.speed_switch_wait_cycles_remaining = Some(wait_cycles_remaining - 1);
        }
        Ok(4)
    } else if interrupt_triggered(cpu_registers, address_space) {
        if service_interrupt(cpu_registers, address_space, ppu_state) {
            Ok(ISR_CYCLES_REQUIRED)
        } else {
            Err(CpuError::InvalidState)
        }
    } else if !cpu_registers.halted || interrupt_triggered_no_ime_check(address_space) {
        cpu_registers.halted = false;
        let (instruction, pc) = match parse_next_instruction_with_halt_bug(
            address_space,
            cpu_registers.pc,
            ppu_state,
            cpu_registers.halt_bug_triggered,
        ) {
            Ok(parsed) => parsed,
            Err(source) => {
                return Err(CpuError::InstructionParse { source });
            },
        };
        cpu_registers.halt_bug_triggered = false;
        cpu_registers.pc = pc;
        let cycles_required = instruction.cycles_required(cpu_registers);
        match instruction.execute(address_space, cpu_registers, ppu_state) {
            Ok(()) => Ok(cycles_required),
            Err(source) => Err(CpuError::Execution { source }),
        }
    } else {
        // Do nothing, let other processors execute for 1 M-cycle
        Ok(4)
    }
}

} // verus!
