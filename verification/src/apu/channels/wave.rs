//! The custom wave channel (channel 3), which plays 32 4-bit samples from waveform RAM.
use crate::apu::channels::{
    cleared_if, is_dirty, read_frequency, spec_read_frequency, FrequencyTimer, LengthTimer,
};
use crate::memory::ioregisters::{IoRegister, IoRegisters, IoRegistersView};
use vstd::prelude::*;

verus! {

/// The volume shift selected by NR32 bits 5-6: 8 (muted), 0 (100%), 1 (50%) or 2 (25%).
pub open spec fn spec_volume_shift(nr32_value: u8) -> u8 {
    let bits = nr32_value & 0x60;
    if bits == 0x00 {
        8
    } else if bits == 0x20 {
        0
    } else if bits == 0x40 {
        1
    } else {
        2
    }
}

fn volume_shift(nr32_value: u8) -> (r: u8)
    ensures
        r == spec_volume_shift(nr32_value),
{
    let bits = nr32_value & 0x60;
    if bits == 0x00 {
        8
    } else if bits == 0x20 {
        0
    } else if bits == 0x40 {
        1
    } else {
        2
    }
}

/// A custom wave channel (channel 3).
#[derive(Debug, Clone, Copy, PartialEq, Eq, Structural)]
pub struct WaveChannel {
    pub generation_on: bool,
    pub dac_on: bool,
    pub length_timer: LengthTimer,
    pub volume_shift: u8,
    pub frequency_timer: FrequencyTimer,
    pub sample_index: u8,
    pub last_sample: u8,
}

impl WaveChannel {
    /// The frequency timer runs at twice the pulse channels' rate, the sample index is one of
    /// 32 positions and the buffered sample has 4 bits.
    pub open spec fn wf(self) -> bool {
        &&& self.frequency_timer.wf()
        &&& self.frequency_timer.period_multiplier == 2
        &&& self.sample_index < 32
        &&& self.last_sample <= 15
        &&& self.volume_shift <= 2 || self.volume_shift == 8
    }

    pub open spec fn spec_new() -> WaveChannel {
        WaveChannel {
            generation_on: false,
            dac_on: false,
            length_timer: LengthTimer { enabled: false, timer: 0 },
            volume_shift: 0,
            frequency_timer: FrequencyTimer { frequency: 0, timer: 4096, period_multiplier: 2 },
            sample_index: 1,
            last_sample: 0,
        }
    }

    pub fn new() -> (r: Self)
        ensures
            r == Self::spec_new(),
            r.wf(),
    {
        Self {
            generation_on: false,
            dac_on: false,
            length_timer: LengthTimer::new(),
            volume_shift: 0,
            frequency_timer: FrequencyTimer::new(2),
            sample_index: 1,
            last_sample: 0,
        }
    }

    /// The channel after taking in NR30-NR34: a write to NR31 reloads the 8-bit length timer,
    /// NR32 sets the volume shift, NR33/NR34 the frequency, NR34 bit 6 enables the length timer
    /// and bit 7 triggers the channel, and NR30 bit 7 turns the DAC on.
    pub open spec fn spec_process_register_updates(
        self,
        io: IoRegistersView,
        divider_ticks: u64,
    ) -> (WaveChannel, IoRegistersView) {
        let nr30_value = io.byte(IoRegister::NR30);
        let nr31_value = io.byte(IoRegister::NR31);
        let nr34_value = io.byte(IoRegister::NR34);
        let nr31_dirty = is_dirty(io, IoRegister::NR31);
        let io1 = cleared_if(io, IoRegister::NR31, nr31_dirty);
        let c1 = if nr31_dirty {
            WaveChannel {
                length_timer: LengthTimer {
                    timer: (256 - nr31_value) as u16,
                    ..self.length_timer
                },
                ..self
            }
        } else {
            self
        };
        let c2 = WaveChannel {
            volume_shift: spec_volume_shift(io.byte(IoRegister::NR32)),
            frequency_timer: FrequencyTimer {
                frequency: spec_read_frequency(io, IoRegister::NR33, IoRegister::NR34),
                ..c1.frequency_timer
            },
            ..c1
        };
        let prev_enabled = c2.length_timer.enabled;
        let length_timer = LengthTimer { enabled: nr34_value & 0x40 != 0, ..c2.length_timer };
        let c3 = if !prev_enabled && length_timer.enabled && divider_ticks % 2 == 0 {
            let (ticked, expired) = length_timer.spec_tick();
            WaveChannel {
                length_timer: ticked,
                generation_on: if expired {
                    false
                } else {
                    c2.generation_on
                },
                ..c2
            }
        } else {
            WaveChannel { length_timer, ..c2 }
        };
        let triggered = nr34_value & 0x80 != 0;
        let (c4, io2) = if triggered {
            (
                WaveChannel {
                    frequency_timer: c3.frequency_timer.spec_reset_timer(),
                    sample_index: 1,
                    length_timer: c3.length_timer.spec_trigger(256, divider_ticks),
                    generation_on: true,
                    ..c3
                },
                io1.with_byte(IoRegister::NR34, nr34_value & 0x7F),
            )
        } else {
            (c3, io1)
        };
        let dac_on = nr30_value & 0x80 != 0;
        (WaveChannel { dac_on, generation_on: c4.generation_on && dac_on, ..c4 }, io2)
    }

    /// Update the channel's internal state based on audio register contents and updates.
    pub fn process_register_updates(&mut self, io_registers: &mut IoRegisters, divider_ticks: u64)
        requires
            old(self).wf(),
        ensures
            (*final(self), final(io_registers)@) == old(self).spec_process_register_updates(
                old(io_registers)@,
                divider_ticks,
            ),
            final(self).wf(),
    {
        let nr30_value = io_registers.apu_read_register(IoRegister::NR30);
        let nr31_value = io_registers.apu_read_register(IoRegister::NR31);
        let nr32_value = io_registers.apu_read_register(IoRegister::NR32);
        let nr34_value = io_registers.apu_read_register(IoRegister::NR34);
        let frequency = read_frequency(io_registers, IoRegister::NR33, IoRegister::NR34);
        // Update 8-bit length timer immediately if NR31 was written to
        if io_registers.get_dirty_bit(IoRegister::NR31) {
            io_registers.clear_dirty_bit(IoRegister::NR31);
            self.length_timer.timer = 256 - nr31_value as u16;
        }
        // Sync volume shift from NR32, updates take effect immediately
        self.volume_shift = volume_shift(nr32_value);
        // Sync frequency with NR33 and NR34 registers, updates take effect "immediately" (the
        // next time the frequency timer clocks)
        self.frequency_timer.frequency = frequency;
        // Sync length timer enabled flag with NRx4 bit 6, updates take effect immediately
        let prev_length_timer_enabled = self.length_timer.enabled;
        self.length_timer.enabled = nr34_value & 0x40 != 0;
        if !prev_length_timer_enabled && self.length_timer.enabled && divider_ticks % 2 == 0 {
            let mut length_timer = self.length_timer;
            let expired = length_timer.tick();
            self.length_timer = length_timer;
            if expired {
                self.generation_on = false;
            }
        }
        // Re-initialize channel if NR34 bit 7 was set
        let triggered = nr34_value & 0x80 != 0;
        if triggered {
            // Clear trigger flag
            io_registers.apu_write_register(IoRegister::NR34, nr34_value & 0x7F);
            // Reset frequency timer and wave sample index
            let mut frequency_timer = self.frequency_timer;
            frequency_timer.trigger();
            self.frequency_timer = frequency_timer;
            self.sample_index = 1;
            // Reset length timer to the maximum possible if it expired
            let mut length_timer = self.length_timer;
            length_timer.trigger(256, divider_ticks);
            self.length_timer = length_timer;
            self.generation_on = true;
        }
        // DAC is on iff NR30 bit 7 is set
        self.dac_on = nr30_value & 0x80 != 0;
        if !self.dac_on {
            // Disable channel if DAC is off
            self.generation_on = false;
        }
    }

    /// The channel after one 512Hz divider tick: the length timer ticks at 256Hz.
    pub open spec fn spec_tick_divider(self, divider_ticks: u64) -> WaveChannel {
        if divider_ticks % 2 == 0 {
            let (length_timer, expired) = self.length_timer.spec_tick();
            WaveChannel {
                length_timer,
                generation_on: if expired {
                    false
                } else {
                    self.generation_on
                },
                ..self
            }
        } else {
            self
        }
    }

    /// Tick internal sequencer timers. This should be called at a rate of 512Hz.
    pub fn tick_divider(&mut self, divider_ticks: u64)
        requires
            old(self).wf(),
        ensures
            *final(self) == old(self).spec_tick_divider(divider_ticks),
            final(self).wf(),
    {
        // Length timer ticks at a rate of 256Hz
        if divider_ticks % 2 == 0 {
            let mut length_timer = self.length_timer;
            let expired = length_timer.tick();
            self.length_timer = length_timer;
            if expired {
                // Disable channel when length timer expires
                self.generation_on = false;
            }
        }
    }

    /// The 4-bit sample at a position of waveform RAM (high nibble first).
    pub open spec fn spec_wave_sample(io: IoRegistersView, sample_index: u8) -> u8 {
        let samples = io.read_address((0xFF30 + sample_index / 2) as u16);
        if sample_index % 2 == 0 {
            samples >> 4u8
        } else {
            samples & 0x0F
        }
    }

    /// The channel after one M-cycle: whenever the frequency timer clocks, the next waveform
    /// sample is buffered and the position advances, looping over 32 samples.
    pub open spec fn spec_tick_clock(self, io: IoRegistersView) -> WaveChannel {
        let (frequency_timer, clocked) = self.frequency_timer.spec_tick_m_cycle();
        if clocked {
            WaveChannel {
                frequency_timer,
                last_sample: Self::spec_wave_sample(io, self.sample_index),
                sample_index: ((self.sample_index + 1) % 32) as u8,
                ..self
            }
        } else {
            WaveChannel { frequency_timer, ..self }
        }
    }

    /// Tick frequency timer for 1 M-cycle (4 APU clock cycles).
    pub fn tick_clock(&mut self, io_registers: &IoRegisters)
        requires
            old(self).wf(),
        ensures
            *final(self) == old(self).spec_tick_clock(io_registers@),
            final(self).wf(),
    {
        let mut frequency_timer = self.frequency_timer;
        let clocked = frequency_timer.tick_m_cycle();
        self.frequency_timer = frequency_timer;
        if clocked {
            // Read the current 4-bit sample from custom waveform RAM and update the internal
            // sample buffer
            let samples = io_registers.read_address(0xFF30 + (self.sample_index / 2) as u16);
            let sample = if self.sample_index % 2 == 0 {
                samples >> 4
            } else {
                samples & 0x0F
            };
            assert(samples >> 4u8 <= 15 && samples & 0x0F <= 15) by (bit_vector);
            self.last_sample = sample;
            // The 32 samples loop forever (or until the length timer expires)
            self.sample_index = (self.sample_index + 1) % 32;
        }
    }

    pub fn channel_enabled(&self) -> (r: bool)
        ensures
            r == self.generation_on,
    {
        self.generation_on
    }

    pub fn dac_enabled(&self) -> (r: bool)
        ensures
            r == self.dac_on,
    {
        self.dac_on
    }

    /// The digital output: no signal with the DAC off, 0 while stopped or muted, otherwise the
    /// buffered sample shifted right by the volume shift.
    pub open spec fn spec_sample_digital(self) -> Option<u8> {
        if !self.dac_on {
            None
        } else if !self.generation_on || self.volume_shift == 8 {
            Some(0u8)
        } else {
            Some(self.last_sample >> self.volume_shift)
        }
    }

    /// Digital sample in the range [0, 15].
    pub fn sample_digital(&self) -> (r: Option<u8>)
        requires
            self.wf(),
        ensures
            r == self.spec_sample_digital(),
            r matches Some(s) ==> s <= 15,
    {
        if !self.dac_on {
            // Output no signal if DAC is off
            return None;
        }
        if !self.generation_on || self.volume_shift == 8 {
            // Output a constant 0 if the channel is off or channel volume is set to 0%
            return Some(0);
        }
        let last_sample = self.last_sample;
        let shift = self.volume_shift;
        assert(last_sample <= 15 ==> last_sample >> shift <= 15) by (bit_vector);
        Some(last_sample >> shift)
    }
}

} // verus!
