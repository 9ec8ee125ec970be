//! Assembling the emulated machine around a loaded cartridge.
use crate::apu::{ApuState, ApuStateView};
use crate::cpu::registers::CpuRegisters;
use crate::cpu::ExecutionMode;
use crate::memory::ioregisters;
use crate::memory::{AddressSpace, Cartridge, CartridgeView};
use crate::ppu::{blank_frame, power_on_state, Mode, PpuState};
use vstd::prelude::*;

verus! {

/// The whole emulated machine.
pub struct EmulationState {
    pub execution_mode: ExecutionMode,
    pub address_space: AddressSpace,
    pub cpu_registers: CpuRegisters,
    pub ppu_state: PpuState,
    pub apu_state: ApuState,
}

/// The mode a cartridge runs in: Game Boy Color mode when it is asked for and the cartridge
/// header declares support for it, Game Boy mode otherwise.
pub open spec fn spec_execution_mode(requested: ExecutionMode, cartridge: CartridgeView) -> ExecutionMode {
    if requested == ExecutionMode::GameBoyColor && cartridge.rom.len() > 0x0143
        && cartridge.supports_cgb() {
        ExecutionMode::GameBoyColor
    } else {
        ExecutionMode::GameBoy
    }
}

/// The machine at power-on with the given cartridge inserted, running in the requested mode if
/// the cartridge supports it.
pub fn init_emulation_state(cartridge: Cartridge, requested_mode: ExecutionMode) -> (r:
    EmulationState)
    ensures
        r.execution_mode == spec_execution_mode(requested_mode, cartridge@),
        r.address_space@.execution_mode == r.execution_mode,
        r.address_space@.cartridge == cartridge@,
        r.address_space@.vram == Seq::new(16384, |i: int| 0u8),
        r.address_space@.working_ram == Seq::new(32768, |i: int| 0u8),
        r.address_space@.oam == Seq::new(160, |i: int| 0u8),
        r.address_space@.hram == Seq::new(127, |i: int| 0u8),
        r.address_space@.io.contents == ioregisters::initial_contents(r.execution_mode),
        r.address_space@.io.execution_mode == r.execution_mode,
        r.address_space@.io.dirty_bits == ioregisters::initial_dirty_bits(),
        r.address_space@.io.ppu_mode == Mode::VBlank,
        r.address_space@.ie == 0,
        r.cpu_registers == CpuRegisters::power_on(r.execution_mode),
        r.ppu_state@.wf(),
        r.ppu_state@.enabled,
        r.ppu_state@.state == power_on_state(),
        r.ppu_state@.oam_dma_status is None,
        r.ppu_state@.frame_buffer == blank_frame(),
        !r.ppu_state@.last_stat_interrupt_line,
        r.apu_state@ == (ApuStateView {
            enabled: true,
            last_divider: 0,
            clock_ticks: 0,
            ..r.apu_state@.disabled()
        }),
        r.apu_state@.wf(),
{
    let execution_mode = match requested_mode {
        ExecutionMode::GameBoy => ExecutionMode::GameBoy,
        ExecutionMode::GameBoyColor => {
            if cartridge.supports_cgb_mode() {
                ExecutionMode::GameBoyColor
            } else {
                // The cartridge does not support CGB mode enhancements, run in GB mode
                ExecutionMode::GameBoy
            }
        },
    };
    let address_space = AddressSpace::new(cartridge, execution_mode);
    let cpu_registers = CpuRegisters::new(execution_mode);
    let ppu_state = PpuState::new();
    let apu_state = ApuState::new();
    EmulationState { execution_mode, address_space, cpu_registers, ppu_state, apu_state }
}

} // verus!
