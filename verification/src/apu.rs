//! The digital part of the audio processing unit: the four sound channels, the 512Hz frame
//! sequencer driven by DIV, and the NR52 status bits. Turning the digital samples into filtered
//! analog output happens outside this crate.
use crate::apu::channels::noise::NoiseChannel;
use crate::apu::channels::pulse::PulseChannel;
use crate::apu::channels::wave::WaveChannel;
use crate::cpu::registers::CgbSpeedMode;
use crate::memory::ioregisters::{IoRegister, IoRegisters, IoRegistersView};
use vstd::prelude::*;

pub mod channels;

verus! {

/// Output sample frequency in Hz.
pub const OUTPUT_FREQUENCY: u64 = 48000;

/// APU clock cycles in one CPU M-cycle.
pub const CLOCK_CYCLES_PER_M_CYCLE: u64 = 4;

/// The APU clock speed in Hz.
pub const APU_CLOCK_SPEED: u64 = 4194304;

/// The abstract APU state.
pub struct ApuStateView {
    pub enabled: bool,
    pub last_divider: u8,
    pub divider_ticks: u64,
    pub clock_ticks: u64,
    pub channel_1: PulseChannel,
    pub channel_2: PulseChannel,
    pub channel_3: WaveChannel,
    pub channel_4: NoiseChannel,
}

impl ApuStateView {
    /// The channels are well formed (channel 1 with sweep, channel 2 without), and the divider
    /// tick count and the noise channel's timer never run ahead of the clock.
    pub open spec fn wf(self) -> bool {
        &&& self.channel_1.wf()
        &&& self.channel_1.nr0 is Some
        &&& self.channel_2.wf()
        &&& self.channel_2.nr0 is None
        &&& self.channel_3.wf()
        &&& self.channel_4.wf()
        &&& self.divider_ticks <= self.clock_ticks
        &&& self.channel_4.frequency_timer <= self.clock_ticks
    }

    /// The state after one M-cycle of the channels' frequency timers (while enabled).
    pub open spec fn tick_clock(self, io: IoRegistersView) -> ApuStateView {
        let clock_ticks = (self.clock_ticks + CLOCK_CYCLES_PER_M_CYCLE) as u64;
        if self.enabled {
            ApuStateView {
                clock_ticks,
                channel_1: self.channel_1.spec_tick_clock(),
                channel_2: self.channel_2.spec_tick_clock(),
                channel_3: self.channel_3.spec_tick_clock(io),
                channel_4: self.channel_4.spec_tick_clock(),
                ..self
            }
        } else {
            ApuStateView { clock_ticks, ..self }
        }
    }

    /// The state and registers after one 512Hz frame sequencer tick.
    pub open spec fn tick_divider(self, io: IoRegistersView) -> (ApuStateView, IoRegistersView) {
        let divider_ticks = (self.divider_ticks + 1) as u64;
        if self.enabled {
            let (channel_1, io1) = self.channel_1.spec_tick_divider(divider_ticks, io);
            let (channel_2, io2) = self.channel_2.spec_tick_divider(divider_ticks, io1);
            (
                ApuStateView {
                    divider_ticks,
                    channel_1,
                    channel_2,
                    channel_3: self.channel_3.spec_tick_divider(divider_ticks),
                    channel_4: self.channel_4.spec_tick_divider(divider_ticks),
                    ..self
                },
                io2,
            )
        } else {
            (ApuStateView { divider_ticks, ..self }, io)
        }
    }

    /// The state and registers after every channel took in its register writes (while
    /// enabled).
    pub open spec fn process_register_updates(self, io: IoRegistersView) -> (
        ApuStateView,
        IoRegistersView,
    ) {
        if self.enabled {
            let (channel_1, io1) = self.channel_1.spec_process_register_updates(
                io,
                self.divider_ticks,
            );
            let (channel_2, io2) = self.channel_2.spec_process_register_updates(
                io1,
                self.divider_ticks,
            );
            let (channel_3, io3) = self.channel_3.spec_process_register_updates(
                io2,
                self.divider_ticks,
            );
            let (channel_4, io4) = self.channel_4.spec_process_register_updates(
                io3,
                self.divider_ticks,
            );
            (ApuStateView { channel_1, channel_2, channel_3, channel_4, ..self }, io4)
        } else {
            (self, io)
        }
    }

    /// The state with the APU off: all channels reset and the divider count cleared.
    pub open spec fn disabled(self) -> ApuStateView {
        ApuStateView {
            enabled: false,
            divider_ticks: 0,
            channel_1: PulseChannel::spec_new(
                Some(IoRegister::NR10),
                IoRegister::NR11,
                IoRegister::NR12,
                IoRegister::NR13,
                IoRegister::NR14,
            ),
            channel_2: PulseChannel::spec_new(
                None,
                IoRegister::NR21,
                IoRegister::NR22,
                IoRegister::NR23,
                IoRegister::NR24,
            ),
            channel_3: WaveChannel::spec_new(),
            channel_4: NoiseChannel::spec_new(),
            ..self
        }
    }

    /// NR52 with the APU enable bit kept and the read-only channel status bits written out.
    pub open spec fn nr52_status(self, nr52_value: u8) -> u8 {
        (nr52_value & 0x80) | ((if self.channel_4.generation_on {
            1u8
        } else {
            0u8
        }) << 3u8) | ((if self.channel_3.generation_on {
            1u8
        } else {
            0u8
        }) << 2u8) | ((if self.channel_2.generation_on {
            1u8
        } else {
            0u8
        }) << 1u8) | (if self.channel_1.generation_on {
            1u8
        } else {
            0u8
        })
    }
}

/// The registers with all 21 audio registers zeroed.
pub open spec fn spec_clear_audio_registers(io: IoRegistersView) -> IoRegistersView {
    io.with_byte(IoRegister::NR10, 0).with_byte(IoRegister::NR11, 0).with_byte(
        IoRegister::NR12,
        0,
    ).with_byte(IoRegister::NR13, 0).with_byte(IoRegister::NR14, 0).with_byte(
        IoRegister::NR21,
        0,
    ).with_byte(IoRegister::NR22, 0).with_byte(IoRegister::NR23, 0).with_byte(
        IoRegister::NR24,
        0,
    ).with_byte(IoRegister::NR30, 0).with_byte(IoRegister::NR31, 0).with_byte(
        IoRegister::NR32,
        0,
    ).with_byte(IoRegister::NR33, 0).with_byte(IoRegister::NR34, 0).with_byte(
        IoRegister::NR41,
        0,
    ).with_byte(IoRegister::NR42, 0).with_byte(IoRegister::NR43, 0).with_byte(
        IoRegister::NR44,
        0,
    ).with_byte(IoRegister::NR50, 0).with_byte(IoRegister::NR51, 0).with_byte(
        IoRegister::NR52,
        0,
    )
}

/// Zero every audio register.
fn clear_audio_registers(io_registers: &mut IoRegisters)
    ensures
        final(io_registers)@ == spec_clear_audio_registers(old(io_registers)@),
{
    io_registers.apu_write_register(IoRegister::NR10, 0);
    io_registers.apu_write_register(IoRegister::NR11, 0);
    io_registers.apu_write_register(IoRegister::NR12, 0);
    io_registers.apu_write_register(IoRegister::NR13, 0);
    io_registers.apu_write_register(IoRegister::NR14, 0);
    io_registers.apu_write_register(IoRegister::NR21, 0);
    io_registers.apu_write_register(IoRegister::NR22, 0);
    io_registers.apu_write_register(IoRegister::NR23, 0);
    io_registers.apu_write_register(IoRegister::NR24, 0);
    io_registers.apu_write_register(IoRegister::NR30, 0);
    io_registers.apu_write_register(IoRegister::NR31, 0);
    io_registers.apu_write_register(IoRegister::NR32, 0);
    io_registers.apu_write_register(IoRegister::NR33, 0);
    io_registers.apu_write_register(IoRegister::NR34, 0);
    io_registers.apu_write_register(IoRegister::NR41, 0);
    io_registers.apu_write_register(IoRegister::NR42, 0);
    io_registers.apu_write_register(IoRegister::NR43, 0);
    io_registers.apu_write_register(IoRegister::NR44, 0);
    io_registers.apu_write_register(IoRegister::NR50, 0);
    io_registers.apu_write_register(IoRegister::NR51, 0);
    io_registers.apu_write_register(IoRegister::NR52, 0);
}

/// The DIV bit whose falling edge clocks the frame sequencer: bit 4, or bit 5 in double speed.
pub open spec fn spec_divider_mask(cgb_speed_mode: CgbSpeedMode) -> u8 {
    match cgb_speed_mode {
        CgbSpeedMode::Normal => 0x10,
        CgbSpeedMode::Double => 0x20,
    }
}

/// The APU state and registers after one M-cycle, and whether the APU is on (its samples are
/// then mixed; otherwise it outputs silence). The frequency timers always tick. With NR52 bit 7
/// clear, an APU that was on zeroes all audio registers and resets. Otherwise the frame
/// sequencer ticks on a falling edge of the DIV bit, the channels take in register writes, and
/// NR52's channel status bits are written out.
#[verifier::opaque]
pub open spec fn spec_tick_m_cycle(
    apu: ApuStateView,
    io: IoRegistersView,
    cgb_speed_mode: CgbSpeedMode,
) -> (ApuStateView, IoRegistersView, bool) {
    let nr52_value = io.byte(IoRegister::NR52);
    let clocked = apu.tick_clock(io);
    if nr52_value & 0x80 == 0 {
        if clocked.enabled {
            (clocked.disabled(), spec_clear_audio_registers(io), false)
        } else {
            (clocked, io, false)
        }
    } else {
        let on = ApuStateView { enabled: true, ..clocked };
        let divider = io.read_register(IoRegister::DIV);
        let mask = spec_divider_mask(cgb_speed_mode);
        let (sequenced, io1) = if on.last_divider & mask != 0 && divider & mask == 0 {
            on.tick_divider(io)
        } else {
            (on, io)
        };
        let (updated, io2) = ApuStateView {
            last_divider: divider,
            ..sequenced
        }.process_register_updates(io1);
        (updated, io2.with_byte(IoRegister::NR52, updated.nr52_status(nr52_value)), true)
    }
}

/// The state of the APU's digital side.
#[derive(Debug, Clone)]
pub struct ApuState {
    enabled: bool,
    last_divider: u8,
    divider_ticks: u64,
    clock_ticks: u64,
    channel_1: PulseChannel,
    channel_2: PulseChannel,
    channel_3: WaveChannel,
    channel_4: NoiseChannel,
}

impl View for ApuState {
    type V = ApuStateView;

    closed spec fn view(&self) -> ApuStateView {
        ApuStateView {
            enabled: self.enabled,
            last_divider: self.last_divider,
            divider_ticks: self.divider_ticks,
            clock_ticks: self.clock_ticks,
            channel_1: self.channel_1,
            channel_2: self.channel_2,
            channel_3: self.channel_3,
            channel_4: self.channel_4,
        }
    }
}

impl ApuState {
    /// A powered-on APU with all channels silent.
    pub fn new() -> (r: Self)
        ensures
            r@.enabled,
            r@.last_divider == 0,
            r@.divider_ticks == 0,
            r@.clock_ticks == 0,
            r@ == (ApuStateView { enabled: true, last_divider: 0, clock_ticks: 0, ..r@.disabled() }),
            r@.wf(),
    {
        Self {
            enabled: true,
            last_divider: 0x00,
            divider_ticks: 0,
            clock_ticks: 0,
            channel_1: PulseChannel::new_channel_1(),
            channel_2: PulseChannel::new_channel_2(),
            channel_3: WaveChannel::new(),
            channel_4: NoiseChannel::new(),
        }
    }

    /// APU clock cycles run so far.
    pub fn clock_ticks(&self) -> (r: u64)
        ensures
            r == self@.clock_ticks,
    {
        self.clock_ticks
    }

    /// Whether the APU is on.
    pub fn enabled(&self) -> (r: bool)
        ensures
            r == self@.enabled,
    {
        self.enabled
    }

    /// The digital samples (each in [0, 15], `None` for a channel whose DAC is off) of the four
    /// channels.
    pub fn sample_digital(&self) -> (r: [Option<u8>; 4])
        requires
            self@.wf(),
        ensures
            r@ == seq![
                self@.channel_1.spec_sample_digital(),
                self@.channel_2.spec_sample_digital(),
                self@.channel_3.spec_sample_digital(),
                self@.channel_4.spec_sample_digital(),
            ],
            forall|i: int| 0 <= i < 4 ==> (#[trigger] r@[i] matches Some(s) ==> s <= 15),
    {
        let r = [
            self.channel_1.sample_digital(),
            self.channel_2.sample_digital(),
            self.channel_3.sample_digital(),
            self.channel_4.sample_digital(),
        ];
        assert(r@ =~= seq![
            self@.channel_1.spec_sample_digital(),
            self@.channel_2.spec_sample_digital(),
            self@.channel_3.spec_sample_digital(),
            self@.channel_4.spec_sample_digital(),
        ]);
        r
    }

    /// Whether any of the four channels' DACs is on.
    pub fn any_dac_enabled(&self) -> (r: bool)
        ensures
            r == (self@.channel_1.dac_on || self@.channel_2.dac_on || self@.channel_3.dac_on
                || self@.channel_4.dac_on),
    {
        self.channel_1.dac_enabled() || self.channel_2.dac_enabled()
            || self.channel_3.dac_enabled() || self.channel_4.dac_enabled()
    }

    fn process_register_updates(&mut self, io_registers: &mut IoRegisters)
        requires
            old(self)@.wf(),
        ensures
            (final(self)@, final(io_registers)@) == old(self)@.process_register_updates(
                old(io_registers)@,
            ),
            final(self)@.wf(),
    {
        if self.enabled {
            self.channel_1.process_register_updates(io_registers, self.divider_ticks);
            self.channel_2.process_register_updates(io_registers, self.divider_ticks);
            self.channel_3.process_register_updates(io_registers, self.divider_ticks);
            self.channel_4.process_register_updates(io_registers, self.divider_ticks);
        }
    }

    // Tick 512Hz timers by 1 tick
    fn tick_divider(&mut self, io_registers: &mut IoRegisters)
        requires
            old(self)@.wf(),
            old(self)@.divider_ticks < old(self)@.clock_ticks,
        ensures
            (final(self)@, final(io_registers)@) == old(self)@.tick_divider(old(io_registers)@),
            final(self)@.wf(),
    {
        self.divider_ticks += 1;
        if self.enabled {
            self.channel_1.tick_divider(self.divider_ticks, io_registers);
            self.channel_2.tick_divider(self.divider_ticks, io_registers);
            self.channel_3.tick_divider(self.divider_ticks);
            self.channel_4.tick_divider(self.divider_ticks);
        }
    }

    // Tick M-cycle / APU clock cycle timers by 1 M-cycle (4 APU clock cycles)
    fn tick_clock(&mut self, io_registers: &IoRegisters)
        requires
            old(self)@.wf(),
            old(self)@.clock_ticks <= u64::MAX - CLOCK_CYCLES_PER_M_CYCLE,
        ensures
            final(self)@ == old(self)@.tick_clock(io_registers@),
            final(self)@.wf(),
    {
        self.clock_ticks += CLOCK_CYCLES_PER_M_CYCLE;
        if self.enabled {
            self.channel_1.tick_clock();
            self.channel_2.tick_clock();
            self.channel_3.tick_clock(io_registers);
            self.channel_4.tick_clock();
        }
    }

    // Turn off the APU and disable all channels and DACs
    fn disable(&mut self)
        requires
            old(self)@.wf(),
        ensures
            final(self)@ == old(self)@.disabled(),
            final(self)@.wf(),
    {
        self.enabled = false;
        self.divider_ticks = 0;
        self.channel_1 = PulseChannel::new_channel_1();
        self.channel_2 = PulseChannel::new_channel_2();
        self.channel_3 = WaveChannel::new();
        self.channel_4 = NoiseChannel::new();
    }
}

fn channel_bit(enabled: bool) -> (r: u8)
    ensures
        r == (if enabled {
            1u8
        } else {
            0u8
        }),
{
    if enabled {
        1
    } else {
        0
    }
}

/// Progress the APU by 1 M-cycle (4 APU clock cycles). Returns whether the APU is on, in which
/// case its channel samples are to be mixed into the output; otherwise the output is silence.
pub fn tick_m_cycle(
    apu_state: &mut ApuState,
    io_registers: &mut IoRegisters,
    cgb_speed_mode: CgbSpeedMode,
) -> (r: bool)
    requires
        old(apu_state)@.wf(),
        old(apu_state)@.clock_ticks <= u64::MAX - CLOCK_CYCLES_PER_M_CYCLE,
    ensures
        (final(apu_state)@, final(io_registers)@, r) == spec_tick_m_cycle(
            old(apu_state)@,
            old(io_registers)@,
            cgb_speed_mode,
        ),
        final(apu_state)@.wf(),
        final(apu_state)@.clock_ticks == old(apu_state)@.clock_ticks + CLOCK_CYCLES_PER_M_CYCLE,
{
    reveal(spec_tick_m_cycle);
    let nr52_value = io_registers.apu_read_register(IoRegister::NR52);
    let apu_enabled = nr52_value & 0x80 != 0;
    // Tick M-cycle / APU clock cycle timers
    apu_state.tick_clock(io_registers);
    if !apu_enabled {
        if apu_state.enabled {
            // If the APU was just disabled, clear all audio registers and reset all channels
            clear_audio_registers(io_registers);
            apu_state.disable();
        }
        return false;
    }
    apu_state.enabled = true;
    // Tick 512Hz timers every time DIV bit 4 flips from 1 to 0 (bit 5 in double speed mode)
    let divider = io_registers.read_register(IoRegister::DIV);
    let divider_mask: u8 = match cgb_speed_mode {
        CgbSpeedMode::Normal => 0x10,
        CgbSpeedMode::Double => 0x20,
    };
    if apu_state.last_divider & divider_mask != 0 && divider & divider_mask == 0 {
        apu_state.tick_divider(io_registers);
    }
    apu_state.last_divider = divider;
    // Update channel states based on audio register contents and updates
    apu_state.process_register_updates(io_registers);
    // Write out the read-only NR52 bits that specify which channels are enabled
    let new_nr52_value = (nr52_value & 0x80) | (channel_bit(apu_state.channel_4.channel_enabled())
        << 3) | (channel_bit(apu_state.channel_3.channel_enabled()) << 2) | (channel_bit(
        apu_state.channel_2.channel_enabled(),
    ) << 1) | channel_bit(apu_state.channel_1.channel_enabled());
    io_registers.apu_write_register(IoRegister::NR52, new_nr52_value);
    true
}

/// Turning the APU off (clearing NR52 bit 7) while it is on silences it: the tick reports it
/// off, every channel's DAC is off so no channel outputs a signal, and all audio registers are
/// zeroed, NR50, NR51 and NR52 among them.
#[verifier::rlimit(40)]
pub proof fn law_apu_off_silences(apu: ApuStateView, io: IoRegistersView, cgb_speed_mode: CgbSpeedMode)
    requires
        apu.enabled,
        io.wf(),
        io.byte(IoRegister::NR52) & 0x80 == 0,
    ensures
        ({
            let (after, io1, on) = spec_tick_m_cycle(apu, io, cgb_speed_mode);
            &&& !on
            &&& !after.enabled
            &&& after.channel_1.spec_sample_digital() is None
            &&& after.channel_2.spec_sample_digital() is None
            &&& after.channel_3.spec_sample_digital() is None
            &&& after.channel_4.spec_sample_digital() is None
            &&& io1 == spec_clear_audio_registers(io)
            &&& io1.byte(IoRegister::NR52) == 0
            &&& io1.byte(IoRegister::NR51) == 0
            &&& io1.byte(IoRegister::NR50) == 0
        }),
{
    let clocked = apu.tick_clock(io);
    assert(clocked.enabled);
    reveal(spec_tick_m_cycle);
}

} // verus!
