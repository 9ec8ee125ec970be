//! One step of the emulation loop: run the CPU for at least one M-cycle, then advance the timer,
//! the OAM DMA transfer, the PPU and the APU by the same number of M-cycles. Rendering, audio
//! output and input events are handled by the caller between steps.
use crate::apu::{self, ApuState, ApuStateView};
use crate::cpu::registers::{CgbSpeedMode, CpuRegisters};
use crate::cpu::{lemma_cpu_tick_cycles, spec_cpu_tick, tick_cpu, reports_fault, CpuError, CpuFault};
use crate::input::{spec_update_joyp, update_joyp_register, JoypadState, JoypadView};
use crate::memory::ioregisters::{IoRegister, IoRegistersView};
use crate::memory::{AddressSpace, AddressSpaceView};
use crate::ppu::{self, dma_step_memory, Mode, PpuAccess, PpuState, PpuView};
use crate::startup::EmulationState;
use crate::timer::{self, spec_update_timer, TimerCounter};
use vstd::prelude::*;

verus! {

/// 4 MiHz clock cycles per 60Hz frame.
pub const CYCLES_PER_FRAME: u64 = 69905;

/// What the APU hands to audio output after one M-cycle: whether it is on, the clock before
/// and after, the master volume (NR50) and panning (NR51) registers, each channel's digital
/// sample, and whether any DAC is on.
#[derive(Debug, Clone, Copy, PartialEq, Eq, Structural)]
pub struct ApuTickOutput {
    pub apu_on: bool,
    pub prev_clock_ticks: u64,
    pub clock_ticks: u64,
    pub nr50: u8,
    pub nr51: u8,
    pub channel_1: Option<u8>,
    pub channel_2: Option<u8>,
    pub channel_3: Option<u8>,
    pub channel_4: Option<u8>,
    pub any_dac_enabled: bool,
}

/// The audio output of an M-cycle that left the APU in `apu` and the registers in `io`.
pub open spec fn spec_apu_output(
    apu_on: bool,
    prev_clock_ticks: u64,
    apu: ApuStateView,
    io: IoRegistersView,
) -> ApuTickOutput {
    ApuTickOutput {
        apu_on,
        prev_clock_ticks,
        clock_ticks: apu.clock_ticks,
        nr50: io.byte(IoRegister::NR50),
        nr51: io.byte(IoRegister::NR51),
        channel_1: apu.channel_1.spec_sample_digital(),
        channel_2: apu.channel_2.spec_sample_digital(),
        channel_3: apu.channel_3.spec_sample_digital(),
        channel_4: apu.channel_4.spec_sample_digital(),
        any_dac_enabled: apu.channel_1.dac_on || apu.channel_2.dac_on || apu.channel_3.dac_on
            || apu.channel_4.dac_on,
    }
}

/// The CPU run until at least 4 clock cycles (counted at the 4 MiHz rate, so halved in double
/// speed mode) have been taken, starting from `cycles` already taken; or the first fault.
#[verifier::opaque]
pub open spec fn spec_run_cpu(
    regs: CpuRegisters,
    mem: AddressSpaceView,
    ppu: PpuAccess,
    cycles: u32,
) -> Result<(CpuRegisters, AddressSpaceView, u32), CpuFault>
    decreases if cycles < 4 {
        4 - cycles
    } else {
        0
    },
{
    if cycles >= 4 {
        Ok((regs, mem, cycles))
    } else {
        match spec_cpu_tick(regs, mem, ppu) {
            Ok((r, m, c)) => {
                proof {
                    lemma_cpu_tick_cycles(regs, mem, ppu);
                }
                let taken = if r.cgb_speed_mode == CgbSpeedMode::Double {
                    c / 2
                } else {
                    c
                };
                spec_run_cpu(r, m, ppu, (cycles + taken) as u32)
            },
            Err(fault) => Err(fault),
        }
    }
}

/// Run the CPU until it has taken at least 4 clock cycles at the 4 MiHz rate, starting from
/// `cycles` already taken. Returns the cycles taken.
fn run_cpu(
    address_space: &mut AddressSpace,
    cpu_registers: &mut CpuRegisters,
    ppu_state: &PpuState,
    cycles: u32,
) -> (r: Result<u32, CpuError>)
    requires
        cycles < 4,
    ensures
        match spec_run_cpu(*old(cpu_registers), old(address_space)@, ppu_state@.access(), cycles) {
            Ok((regs, mem, taken)) => r == Ok::<u32, CpuError>(taken) && *final(cpu_registers)
                == regs && final(address_space)@ == mem,
            Err(fault) => r matches Err(e) && reports_fault(e, fault),
        },
        r matches Ok(taken) ==> 4 <= taken < 32,
{
    reveal(spec_run_cpu);
    let mut cycles_required = cycles;
    while cycles_required < 4
        invariant
            cycles_required < 32,
            spec_run_cpu(*old(cpu_registers), old(address_space)@, ppu_state@.access(), cycles)
                == spec_run_cpu(
                *cpu_registers,
                address_space@,
                ppu_state@.access(),
                cycles_required,
            ),
        decreases if cycles_required < 4 {
            4 - cycles_required
        } else {
            0
        },
    {
        reveal(spec_run_cpu);
        proof {
            lemma_cpu_tick_cycles(*cpu_registers, address_space@, ppu_state@.access());
        }
        let tick_cycles = match tick_cpu(address_space, cpu_registers, ppu_state) {
            Ok(tick_cycles) => tick_cycles,
            Err(e) => {
                return Err(e);
            },
        };
        if cpu_registers.cgb_speed_mode == CgbSpeedMode::Double {
            cycles_required += tick_cycles / 2;
        } else {
            cycles_required += tick_cycles;
        }
    }
    Ok(cycles_required)
}

/// One M-cycle of the hardware besides the CPU: the OAM DMA transfer (twice in double speed),
/// the PPU and the APU; with the audio output of the M-cycle.
#[verifier::opaque]
pub open spec fn spec_hardware_m_cycle(
    ppu: PpuView,
    mem: AddressSpaceView,
    apu: ApuStateView,
    cgb_speed_mode: CgbSpeedMode,
) -> (PpuView, AddressSpaceView, ApuStateView, ApuTickOutput) {
    let (dma1, mem1) = dma_step_memory(ppu.oam_dma_status, mem);
    let (dma2, mem2) = if cgb_speed_mode == CgbSpeedMode::Double {
        dma_step_memory(dma1, mem1)
    } else {
        (dma1, mem1)
    };
    let (ppu3, mem3) = ppu::spec_tick_m_cycle(PpuView { oam_dma_status: dma2, ..ppu }, mem2);
    let (apu4, io4, apu_on) = apu::spec_tick_m_cycle(apu, mem3.io, cgb_speed_mode);
    (ppu3, mem3.with_io(io4), apu4, spec_apu_output(apu_on, apu.clock_ticks, apu4, io4))
}

/// The hardware after `m_cycles` M-cycles, with the audio output of each.
#[verifier::opaque]
pub open spec fn spec_run_hardware(
    ppu: PpuView,
    mem: AddressSpaceView,
    apu: ApuStateView,
    cgb_speed_mode: CgbSpeedMode,
    m_cycles: nat,
) -> (PpuView, AddressSpaceView, ApuStateView, Seq<ApuTickOutput>)
    decreases m_cycles,
{
    if m_cycles == 0 {
        (ppu, mem, apu, Seq::empty())
    } else {
        let (ppu1, mem1, apu1, output) = spec_hardware_m_cycle(ppu, mem, apu, cgb_speed_mode);
        let (ppu2, mem2, apu2, outputs) = spec_run_hardware(
            ppu1,
            mem1,
            apu1,
            cgb_speed_mode,
            (m_cycles - 1) as nat,
        );
        (ppu2, mem2, apu2, seq![output] + outputs)
    }
}

/// Advance the OAM DMA transfer, the PPU and the APU by one M-cycle. Returns its audio output.
fn hardware_m_cycle(
    ppu_state: &mut PpuState,
    address_space: &mut AddressSpace,
    apu_state: &mut ApuState,
    cgb_speed_mode: CgbSpeedMode,
) -> (r: ApuTickOutput)
    requires
        old(ppu_state)@.wf(),
        old(apu_state)@.wf(),
        old(apu_state)@.clock_ticks + 4 <= u64::MAX,
    ensures
        (final(ppu_state)@, final(address_space)@, final(apu_state)@, r) == spec_hardware_m_cycle(
            old(ppu_state)@,
            old(address_space)@,
            old(apu_state)@,
            cgb_speed_mode,
        ),
        final(ppu_state)@.wf(),
        final(apu_state)@.wf(),
        final(apu_state)@.clock_ticks == old(apu_state)@.clock_ticks + 4,
{
    reveal(spec_hardware_m_cycle);
    ppu::progress_oam_dma_transfer(ppu_state, address_space);
    if cgb_speed_mode == CgbSpeedMode::Double {
        // OAM DMA transfers progress at double speed in double speed mode so call twice
        ppu::progress_oam_dma_transfer(ppu_state, address_space);
    }
    assert(ppu_state@ == PpuView { oam_dma_status: ppu_state@.oam_dma_status, ..old(ppu_state)@ });
    ppu::tick_m_cycle(ppu_state, address_space);
    let prev_clock_ticks = apu_state.clock_ticks();
    let apu_on = apu::tick_m_cycle(apu_state, address_space.get_io_registers_mut(), cgb_speed_mode);
    let io_registers = address_space.get_io_registers();
    let samples = apu_state.sample_digital();
    ApuTickOutput {
        apu_on,
        prev_clock_ticks,
        clock_ticks: apu_state.clock_ticks(),
        nr50: io_registers.apu_read_register(IoRegister::NR50),
        nr51: io_registers.apu_read_register(IoRegister::NR51),
        channel_1: samples[0],
        channel_2: samples[1],
        channel_3: samples[2],
        channel_4: samples[3],
        any_dac_enabled: apu_state.any_dac_enabled(),
    }
}

/// Advance the OAM DMA transfer, the PPU and the APU by `m_cycles` M-cycles. Returns the audio
/// output of each M-cycle.
fn run_hardware(
    ppu_state: &mut PpuState,
    address_space: &mut AddressSpace,
    apu_state: &mut ApuState,
    cgb_speed_mode: CgbSpeedMode,
    m_cycles: u32,
) -> (r: Vec<ApuTickOutput>)
    requires
        old(ppu_state)@.wf(),
        old(apu_state)@.wf(),
        old(apu_state)@.clock_ticks + 4 * m_cycles <= u64::MAX,
    ensures
        (final(ppu_state)@, final(address_space)@, final(apu_state)@, r@) == spec_run_hardware(
            old(ppu_state)@,
            old(address_space)@,
            old(apu_state)@,
            cgb_speed_mode,
            m_cycles as nat,
        ),
        final(ppu_state)@.wf(),
        final(apu_state)@.wf(),
        final(apu_state)@.clock_ticks == old(apu_state)@.clock_ticks + 4 * m_cycles,
{
    let mut outputs: Vec<ApuTickOutput> = Vec::new();
    let mut i: u32 = 0;
    proof {
        reveal_with_fuel(spec_run_hardware, 1);
        let (p, m, a, os) = spec_run_hardware(
            ppu_state@,
            address_space@,
            apu_state@,
            cgb_speed_mode,
            m_cycles as nat,
        );
        assert(outputs@ + os =~= os);
    }
    while i < m_cycles
        invariant
            i <= m_cycles,
            ppu_state@.wf(),
            apu_state@.wf(),
            apu_state@.clock_ticks == old(apu_state)@.clock_ticks + 4 * i,
            old(apu_state)@.clock_ticks + 4 * m_cycles <= u64::MAX,
            spec_run_hardware(
                old(ppu_state)@,
                old(address_space)@,
                old(apu_state)@,
                cgb_speed_mode,
                m_cycles as nat,
            ) == ({
                let (p, m, a, os) = spec_run_hardware(
                    ppu_state@,
                    address_space@,
                    apu_state@,
                    cgb_speed_mode,
                    (m_cycles - i) as nat,
                );
                (p, m, a, outputs@ + os)
            }),
        decreases m_cycles - i,
    {
        let ghost rest = (m_cycles - i - 1) as nat;
        let ghost before = (ppu_state@, address_space@, apu_state@);
        let output = hardware_m_cycle(ppu_state, address_space, apu_state, cgb_speed_mode);
        proof {
            reveal_with_fuel(spec_run_hardware, 1);
            let k = (m_cycles - i) as nat;
            let (p, m, a, os) = spec_run_hardware(
                ppu_state@,
                address_space@,
                apu_state@,
                cgb_speed_mode,
                rest,
            );
            assert(spec_run_hardware(before.0, before.1, before.2, cgb_speed_mode, k) == (
                p,
                m,
                a,
                seq![output] + os,
            ));
            assert(outputs@.push(output) + os =~= outputs@ + (seq![output] + os));
        }
        outputs.push(output);
        i += 1;
    }
    proof {
        reveal_with_fuel(spec_run_hardware, 1);
        assert(outputs@ + Seq::<ApuTickOutput>::empty() =~= outputs@);
    }
    outputs
}

/// What a step of the loop hands back besides the new machine state: the clock cycles run (a
/// multiple of 4), the CPU cycles left over for the next step, whether a frame is ready to show,
/// and the audio output of each M-cycle.
pub struct StepOutcome {
    pub cycles: u32,
    pub leftover_cpu_cycles: u32,
    pub frame_ready: bool,
    pub apu_output: Vec<ApuTickOutput>,
}

/// The machine state a step works on.
pub struct StepState {
    pub cpu: CpuRegisters,
    pub mem: AddressSpaceView,
    pub ppu: PpuView,
    pub apu: ApuStateView,
    pub timer_counter: u64,
}

/// What a step does: the joypad state is written to JOYP, TMA is read, the CPU runs for at
/// least 4 clock cycles (with the leftover cycles of the last step counted in); the cycles run
/// are rounded down to a multiple of 4, the rest left over. The timer then advances by the cycles
/// run (twice as many in double speed mode), and the OAM DMA transfer, PPU and APU by one M-cycle
/// per 4 cycles. A frame is ready when the PPU entered VBlank or was just turned off.
pub open spec fn spec_run_step(
    s: StepState,
    joypad: JoypadView,
    leftover_cpu_cycles: u32,
) -> Result<(StepState, u32, u32, bool, Seq<ApuTickOutput>), CpuFault> {
    let mem1 = s.mem.with_io(spec_update_joyp(s.mem.io, joypad));
    let timer_modulo = mem1.io.read_register(IoRegister::TMA);
    match spec_run_cpu(s.cpu, mem1, s.ppu.access(), leftover_cpu_cycles) {
        Err(fault) => Err(fault),
        Ok((cpu, mem2, taken)) => {
            let leftover = taken & 0x03;
            let cycles = taken & 0xFFFFFFFC;
            let timer_cycles: u64 = if cpu.cgb_speed_mode == CgbSpeedMode::Double {
                (2 * cycles) as u64
            } else {
                cycles as u64
            };
            let (io3, timer_counter) = spec_update_timer(
                mem2.io,
                s.timer_counter,
                timer_modulo,
                timer_cycles,
            );
            let (ppu, mem, apu, outputs) = spec_run_hardware(
                s.ppu,
                mem2.with_io(io3),
                s.apu,
                cpu.cgb_speed_mode,
                (cycles / 4) as nat,
            );
            let frame_ready = (s.ppu.state.spec_mode() != Mode::VBlank && ppu.state.spec_mode()
                == Mode::VBlank) || (s.ppu.enabled && !ppu.enabled);
            Ok(
                (
                    StepState { cpu, mem, ppu, apu, timer_counter },
                    cycles,
                    leftover,
                    frame_ready,
                    outputs,
                ),
            )
        },
    }
}

/// The state a step works on, read off the machine and the timer counter.
pub open spec fn step_state(state: EmulationState, timer_counter: TimerCounter) -> StepState {
    StepState {
        cpu: state.cpu_registers,
        mem: state.address_space@,
        ppu: state.ppu_state@,
        apu: state.apu_state@,
        timer_counter: timer_counter.0,
    }
}

/// Run one step of the emulation loop (see [`spec_run_step`]).
#[verifier::rlimit(40)]
pub fn run_step(
    state: &mut EmulationState,
    timer_counter: &mut TimerCounter,
    joypad_state: &JoypadState,
    leftover_cpu_cycles: u32,
) -> (r: Result<StepOutcome, CpuError>)
    requires
        leftover_cpu_cycles < 4,
        old(state).ppu_state@.wf(),
        old(state).apu_state@.wf(),
        old(state).apu_state@.clock_ticks <= u64::MAX - 64,
        old(timer_counter).0 <= u64::MAX - 64,
    ensures
        match spec_run_step(step_state(*old(state), *old(timer_counter)), joypad_state@, leftover_cpu_cycles) {
            Ok((s, cycles, leftover, frame_ready, outputs)) => r matches Ok(outcome) && step_state(
                *final(state),
                *final(timer_counter),
            ) == s && outcome.cycles == cycles && outcome.leftover_cpu_cycles == leftover
                && outcome.frame_ready == frame_ready && outcome.apu_output@ == outputs,
            Err(fault) => r matches Err(e) && reports_fault(e, fault),
        },
        r is Ok ==> final(state).ppu_state@.wf() && final(state).apu_state@.wf(),
        r matches Ok(outcome) ==> outcome.leftover_cpu_cycles < 4 && 4 <= outcome.cycles <= 28
            && outcome.cycles % 4 == 0
            && final(state).apu_state@.clock_ticks == old(state).apu_state@.clock_ticks + outcome.cycles
            && final(timer_counter).0 <= old(timer_counter).0 + 2 * outcome.cycles,
        final(state).execution_mode == old(state).execution_mode,
{
    update_joyp_register(joypad_state, state.address_space.get_io_registers_mut());
    // Read TMA register before executing anything in case the instruction updates the register
    let timer_modulo = timer::read_timer_modulo(state.address_space.get_io_registers());
    // The number of 4MHz clock cycles
    // (CPU M-cycles * 4 in normal speed, CPU M-cycles * 2 in double speed)
    let taken = match run_cpu(
        &mut state.address_space,
        &mut state.cpu_registers,
        &state.ppu_state,
        leftover_cpu_cycles,
    ) {
        Ok(taken) => taken,
        Err(e) => {
            return Err(e);
        },
    };
    let leftover = taken & 0x00000003;
    let cycles_required = taken & 0xFFFFFFFC;
    assert(4 <= taken < 32 ==> 4 <= taken & 0xFFFFFFFC <= 28 && (taken & 0xFFFFFFFC) % 4 == 0
        && taken & 0x03 < 4) by (bit_vector);
    let double_speed = state.cpu_registers.cgb_speed_mode == CgbSpeedMode::Double;
    // Timer and divider registers update twice as fast in double speed mode
    let timer_cycles: u64 = if double_speed {
        2 * cycles_required as u64
    } else {
        cycles_required as u64
    };
    timer::update_timer_registers(
        state.address_space.get_io_registers_mut(),
        timer_counter,
        timer_modulo,
        timer_cycles,
    );
    let prev_mode = state.ppu_state.mode();
    let prev_enabled = state.ppu_state.enabled();
    let apu_output = run_hardware(
        &mut state.ppu_state,
        &mut state.address_space,
        &mut state.apu_state,
        state.cpu_registers.cgb_speed_mode,
        cycles_required / 4,
    );
    // The next frame is ready when the PPU just entered VBlank, or was just turned off (which
    // shows a blank frame)
    let frame_ready = (prev_mode != Mode::VBlank && state.ppu_state.mode() == Mode::VBlank) || (
    prev_enabled && !state.ppu_state.enabled());
    Ok(
        StepOutcome {
            cycles: cycles_required,
            leftover_cpu_cycles: leftover,
            frame_ready,
            apu_output,
        },
    )
}

} // verus!
