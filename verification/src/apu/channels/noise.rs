//! The pseudo-random noise channel (channel 4), driven by a linear-feedback shift register.
use crate::apu::channels::{cleared_if, is_dirty, lemma_byte_fields, LengthTimer, VolumeControl};
use crate::memory::ioregisters::{IoRegister, IoRegisters, IoRegistersView};
use vstd::prelude::*;

verus! {

/// The LFSR after one clock: the inverted XOR of bits 0 and 1 is fed into bit 15 (and, for the
/// 7-bit width, through a 16-bit shift of the whole inverted word into bits 7 and up), then the
/// register shifts right by one.
pub open spec fn spec_lfsr_step(lfsr: u16, lfsr_width: u8) -> u16 {
    let bit_1 = (lfsr & 0x02) >> 1u16;
    let bit_0 = lfsr & 0x01;
    let new_bit = !(bit_1 ^ bit_0);
    let new_lfsr = if lfsr_width == 15 {
        (new_bit << 15u16) | (lfsr & 0x7FFF)
    } else {
        (new_bit << 15u16) | (new_bit << 7u16) | (lfsr & 0x7F7F)
    };
    new_lfsr >> 1u16
}

/// The LFSR clock period in APU cycles: 16 * divider * 2^shift, a divider of 0 counting as 0.5.
pub open spec fn spec_lfsr_period(clock_divider: u8, clock_shift: u8) -> u64 {
    if clock_divider != 0 {
        (16 * ((clock_divider as u32) << (clock_shift as u32))) as u64
    } else {
        (8 * (1u32 << (clock_shift as u32))) as u64
    }
}

/// A pseudo-random noise channel (channel 4).
#[derive(Debug, Clone, Copy, PartialEq, Eq, Structural)]
pub struct NoiseChannel {
    pub generation_on: bool,
    pub dac_on: bool,
    pub length_timer: LengthTimer,
    pub volume_control: VolumeControl,
    pub clock_shift: u8,
    pub lfsr: u16,
    pub lfsr_width: u8,
    pub clock_divider: u8,
    pub frequency_timer: u64,
}

impl NoiseChannel {
    /// The envelope is well formed, the clock shift has 4 bits and the divider 3.
    pub open spec fn wf(self) -> bool {
        &&& self.volume_control.wf()
        &&& self.clock_shift <= 15
        &&& self.clock_divider <= 7
    }

    pub open spec fn spec_new() -> NoiseChannel {
        NoiseChannel {
            generation_on: false,
            dac_on: false,
            length_timer: LengthTimer { enabled: false, timer: 0 },
            volume_control: VolumeControl {
                volume: 0,
                envelope_direction: crate::apu::channels::SlopeDirection::Decreasing,
                pace: 0,
                timer: 0,
                envelope_enabled: false,
            },
            clock_shift: 0,
            lfsr: 0,
            lfsr_width: 7,
            clock_divider: 0,
            frequency_timer: 0,
        }
    }

    pub fn new() -> (r: Self)
        ensures
            r == Self::spec_new(),
            r.wf(),
    {
        Self {
            generation_on: false,
            dac_on: false,
            length_timer: LengthTimer::new(),
            volume_control: VolumeControl::new(),
            clock_shift: 0,
            lfsr: 0,
            lfsr_width: 7,
            clock_divider: 0,
            frequency_timer: 0,
        }
    }

    /// The channel after taking in NR41-NR44: a write to NR41 reloads the 6-bit length timer,
    /// NR43 sets the clock shift (bits 4-7), the LFSR width (bit 7 set: 7 bits) and the divider
    /// (bits 0-2), NR44 bit 6 enables the length timer and bit 7 triggers the channel, and the
    /// DAC is on iff any of NR42 bits 3-7 are set.
    pub open spec fn spec_process_register_updates(
        self,
        io: IoRegistersView,
        divider_ticks: u64,
    ) -> (NoiseChannel, IoRegistersView) {
        let nr41_value = io.byte(IoRegister::NR41);
        let nr42_value = io.byte(IoRegister::NR42);
        let nr43_value = io.byte(IoRegister::NR43);
        let nr44_value = io.byte(IoRegister::NR44);
        let nr41_dirty = is_dirty(io, IoRegister::NR41);
        let io1 = cleared_if(io, IoRegister::NR41, nr41_dirty);
        let c1 = if nr41_dirty {
            NoiseChannel {
                length_timer: LengthTimer {
                    timer: (64 - (nr41_value & 0x3F)) as u16,
                    ..self.length_timer
                },
                ..self
            }
        } else {
            self
        };
        let c2 = NoiseChannel {
            clock_shift: nr43_value >> 4u8,
            lfsr_width: if nr43_value & 0x80 != 0 {
                7
            } else {
                15
            },
            clock_divider: nr43_value & 0x07,
            ..c1
        };
        let prev_enabled = c2.length_timer.enabled;
        let length_timer = LengthTimer { enabled: nr44_value & 0x40 != 0, ..c2.length_timer };
        let c3 = if !prev_enabled && length_timer.enabled && divider_ticks % 2 == 0 {
            let (ticked, expired) = length_timer.spec_tick();
            NoiseChannel {
                length_timer: ticked,
                generation_on: if expired {
                    false
                } else {
                    c2.generation_on
                },
                ..c2
            }
        } else {
            NoiseChannel { length_timer, ..c2 }
        };
        let (c4, io2) = if nr44_value & 0x80 != 0 {
            (
                NoiseChannel {
                    frequency_timer: 0,
                    volume_control: VolumeControl::spec_from_byte(nr42_value),
                    length_timer: c3.length_timer.spec_trigger(64, divider_ticks),
                    lfsr: 0,
                    generation_on: true,
                    ..c3
                },
                io1.with_byte(IoRegister::NR44, nr44_value & 0x7F),
            )
        } else {
            (c3, io1)
        };
        let dac_on = nr42_value & 0xF8 != 0;
        (NoiseChannel { dac_on, generation_on: c4.generation_on && dac_on, ..c4 }, io2)
    }

    /// Update the channel's internal state based on audio register contents and updates.
    pub fn process_register_updates(&mut self, io_registers: &mut IoRegisters, divider_ticks: u64)
        requires
            old(self).wf(),
        ensures
            (*final(self), final(io_registers)@) == old(self).spec_process_register_updates(
                old(io_registers)@,
                divider_ticks,
            ),
            final(self).wf(),
            final(self).frequency_timer == 0 || final(self).frequency_timer
                == old(self).frequency_timer,
    {
        let nr41_value = io_registers.apu_read_register(IoRegister::NR41);
        let nr42_value = io_registers.apu_read_register(IoRegister::NR42);
        let nr43_value = io_registers.apu_read_register(IoRegister::NR43);
        let nr44_value = io_registers.apu_read_register(IoRegister::NR44);
        proof {
            lemma_byte_fields(nr41_value);
            lemma_byte_fields(nr43_value);
        }
        // Update 6-bit length timer if NR41 was written to
        if io_registers.get_dirty_bit(IoRegister::NR41) {
            io_registers.clear_dirty_bit(IoRegister::NR41);
            self.length_timer.timer = (64 - (nr41_value & 0x3F)) as u16;
        }
        // Update LFSR parameters from NR43, updates take effect the next frequency timer clock
        self.clock_shift = nr43_value >> 4;
        self.lfsr_width = if nr43_value & 0x80 != 0 {
            7
        } else {
            15
        };
        self.clock_divider = nr43_value & 0x07;
        // Sync length timer enabled flag with NRx4 bit 6, updates take effect immediately
        let prev_length_timer_enabled = self.length_timer.enabled;
        self.length_timer.enabled = nr44_value & 0x40 != 0;
        if !prev_length_timer_enabled && self.length_timer.enabled && divider_ticks % 2 == 0 {
            let mut length_timer = self.length_timer;
            let expired = length_timer.tick();
            self.length_timer = length_timer;
            if expired {
                self.generation_on = false;
            }
        }
        // Re-initialize channel if NR44 bit 7 was set
        let triggered = nr44_value & 0x80 != 0;
        if triggered {
            // Clear trigger flag
            io_registers.apu_write_register(IoRegister::NR44, nr44_value & 0x7F);
            self.frequency_timer = 0;
            self.volume_control = VolumeControl::from_byte(nr42_value);
            let mut length_timer = self.length_timer;
            length_timer.trigger(64, divider_ticks);
            self.length_timer = length_timer;
            // Fully clear the LFSR
            self.lfsr = 0;
            self.generation_on = true;
        }
        // DAC is on iff any of NR42 bits 3-7 are set
        self.dac_on = nr42_value & 0xF8 != 0;
        if !self.dac_on {
            // Disable channel if DAC is off
            self.generation_on = false;
        }
    }

    /// The channel after one 512Hz divider tick: the length timer at 256Hz and the envelope at
    /// 64Hz.
    pub open spec fn spec_tick_divider(self, divider_ticks: u64) -> NoiseChannel {
        let c1 = if divider_ticks % 2 == 0 {
            let (length_timer, expired) = self.length_timer.spec_tick();
            NoiseChannel {
                length_timer,
                generation_on: if expired {
                    false
                } else {
                    self.generation_on
                },
                ..self
            }
        } else {
            self
        };
        if divider_ticks % 8 == 7 {
            NoiseChannel { volume_control: c1.volume_control.spec_tick(), ..c1 }
        } else {
            c1
        }
    }

    /// Tick internal sequencer timers (512Hz).
    pub fn tick_divider(&mut self, divider_ticks: u64)
        requires
            old(self).wf(),
        ensures
            *final(self) == old(self).spec_tick_divider(divider_ticks),
            final(self).wf(),
    {
        // Length timer ticks at a rate of 256Hz
        if divider_ticks % 2 == 0 {
            let mut length_timer = self.length_timer;
            let expired = length_timer.tick();
            self.length_timer = length_timer;
            if expired {
                // Disable channel if length timer expired
                self.generation_on = false;
            }
        }
        // Volume envelope timer ticks at a rate of 64Hz
        if divider_ticks % 8 == 7 {
            let mut volume_control = self.volume_control;
            volume_control.tick();
            self.volume_control = volume_control;
        }
    }

    /// The channel after one M-cycle: the frequency timer advances by 4 APU cycles and the LFSR
    /// steps if that crossed a multiple of its period.
    pub open spec fn spec_tick_clock(self) -> NoiseChannel {
        let prev_clock = self.frequency_timer;
        let frequency_timer = (self.frequency_timer + 4) as u64;
        let period = spec_lfsr_period(self.clock_divider, self.clock_shift);
        NoiseChannel {
            frequency_timer,
            lfsr: if prev_clock / period != frequency_timer / period {
                spec_lfsr_step(self.lfsr, self.lfsr_width)
            } else {
                self.lfsr
            },
            ..self
        }
    }

    /// Tick internal frequency timer for 1 M-cycle (4 APU clock cycles).
    pub fn tick_clock(&mut self)
        requires
            old(self).wf(),
            old(self).frequency_timer <= u64::MAX - 4,
        ensures
            *final(self) == old(self).spec_tick_clock(),
            final(self).wf(),
    {
        let prev_clock = self.frequency_timer;
        self.frequency_timer += 4;
        // LFSR timer clocks at a rate of (16 * divider * 2^shift) Hz, treating divider of 0 as 0.5
        let divider = self.clock_divider as u32;
        let shift = self.clock_shift as u32;
        assert(1 <= divider <= 7 && shift <= 15 ==> 1 <= divider << shift <= 0x38000)
            by (bit_vector);
        assert(shift <= 15 ==> 1 <= 1u32 << shift <= 0x8000) by (bit_vector);
        let lfsr_period: u64 = if divider != 0 {
            (16 * (divider << shift)) as u64
        } else {
            (8 * (1u32 << shift)) as u64
        };
        if prev_clock / lfsr_period != self.frequency_timer / lfsr_period {
            // Update and shift LFSR
            let lfsr = self.lfsr;
            let bit_1 = (lfsr & 0x02) >> 1;
            let bit_0 = lfsr & 0x01;
            let new_bit = !(bit_1 ^ bit_0);
            // Feedback always applies to bit 15, and if LFSR width is 7 it also applies to bit 7
            let new_lfsr = if self.lfsr_width == 15 {
                (new_bit << 15) | (lfsr & 0x7FFF)
            } else {
                (new_bit << 15) | (new_bit << 7) | (lfsr & 0x7F7F)
            };
            self.lfsr = new_lfsr >> 1;
        }
    }

    pub fn channel_enabled(&self) -> (r: bool)
        ensures
            r == self.generation_on,
    {
        self.generation_on
    }

    pub fn dac_enabled(&self) -> (r: bool)
        ensures
            r == self.dac_on,
    {
        self.dac_on
    }

    /// The digital output: no signal with the DAC off, 0 while stopped, otherwise the volume
    /// when LFSR bit 0 is set and 0 when it is clear.
    pub open spec fn spec_sample_digital(self) -> Option<u8> {
        if !self.dac_on {
            None
        } else if !self.generation_on {
            Some(0u8)
        } else if self.lfsr & 0x0001 != 0 {
            Some(self.volume_control.volume)
        } else {
            Some(0u8)
        }
    }

    /// Digital sample in the range [0, 15].
    pub fn sample_digital(&self) -> (r: Option<u8>)
        requires
            self.wf(),
        ensures
            r == self.spec_sample_digital(),
            r matches Some(s) ==> s <= 15,
    {
        if !self.dac_on {
            // Output no signal if DAC is off
            return None;
        }
        if !self.generation_on {
            // Output a constant 0 if channel is off but DAC is on
            return Some(0);
        }
        // Output 0 or <volume> based on the current LFSR bit 0
        if self.lfsr & 0x0001 != 0 {
            Some(self.volume_control.volume)
        } else {
            Some(0)
        }
    }
}

} // verus!
