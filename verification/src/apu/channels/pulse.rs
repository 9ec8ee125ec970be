//! The square wave channels (channels 1 and 2); channel 1 also has a frequency sweep.
use crate::apu::channels::{
    cleared_if, is_dirty, lemma_byte_fields, read_frequency, spec_read_frequency, FrequencyTimer,
    LengthTimer, SlopeDirection, VolumeControl,
};
use crate::memory::ioregisters::{IoRegister, IoRegisters, IoRegistersView};
use vstd::prelude::*;

verus! {

/// Waveform duty of a square wave channel (12.5% / 25% / 50% / 75%).
#[derive(Debug, Clone, Copy, PartialEq, Eq, Structural)]
pub enum DutyCycle {
    OneEighth,
    OneFourth,
    OneHalf,
    ThreeFourths,
}

impl DutyCycle {
    /// The 8 samples (each 0 or 1) of the waveform.
    pub open spec fn spec_waveform(self) -> Seq<u8> {
        match self {
            DutyCycle::OneEighth => seq![0u8, 0, 0, 0, 0, 0, 0, 1],
            DutyCycle::OneFourth => seq![1u8, 0, 0, 0, 0, 0, 0, 1],
            DutyCycle::OneHalf => seq![1u8, 0, 0, 0, 0, 1, 1, 1],
            DutyCycle::ThreeFourths => seq![0u8, 1, 1, 1, 1, 1, 1, 0],
        }
    }

    pub fn waveform(self) -> (r: [u8; 8])
        ensures
            r@ == self.spec_waveform(),
    {
        let r = match self {
            Self::OneEighth => [0, 0, 0, 0, 0, 0, 0, 1],
            Self::OneFourth => [1, 0, 0, 0, 0, 0, 0, 1],
            Self::OneHalf => [1, 0, 0, 0, 0, 1, 1, 1],
            Self::ThreeFourths => [0, 1, 1, 1, 1, 1, 1, 0],
        };
        assert(r@ =~= self.spec_waveform());
        r
    }

    /// The duty cycle selected by NRx1 bits 6-7.
    pub open spec fn spec_from_nr1(nr1_value: u8) -> DutyCycle {
        let bits = nr1_value & 0xC0;
        if bits == 0x00 {
            DutyCycle::OneEighth
        } else if bits == 0x40 {
            DutyCycle::OneFourth
        } else if bits == 0x80 {
            DutyCycle::OneHalf
        } else {
            DutyCycle::ThreeFourths
        }
    }

    pub fn from_nr1(nr1_value: u8) -> (r: Self)
        ensures
            r == Self::spec_from_nr1(nr1_value),
    {
        let bits = nr1_value & 0xC0;
        if bits == 0x00 {
            Self::OneEighth
        } else if bits == 0x40 {
            Self::OneFourth
        } else if bits == 0x80 {
            Self::OneHalf
        } else {
            Self::ThreeFourths
        }
    }
}

/// Every waveform sample is 0 or 1.
proof fn lemma_waveform_bits(duty: DutyCycle, i: int)
    requires
        0 <= i < 8,
    ensures
        duty.spec_waveform()[i] <= 1,
{
    let w = duty.spec_waveform();
    assert(w[0] <= 1 && w[1] <= 1 && w[2] <= 1 && w[3] <= 1);
    assert(w[4] <= 1 && w[5] <= 1 && w[6] <= 1 && w[7] <= 1);
    assert(i == 0 || i == 1 || i == 2 || i == 3 || i == 4 || i == 5 || i == 6 || i == 7);
}

/// The outcome of a sweep tick.
#[derive(Debug, Clone, Copy, PartialEq, Eq, Structural)]
pub enum SweepResult {
    Unchanged,
    Overflowed,
    Changed(u16),
}

/// Square wave channel sweep configuration and state.
#[derive(Debug, Clone, Copy, PartialEq, Eq, Structural)]
pub struct PulseSweep {
    pub pace: u8,
    pub direction: SlopeDirection,
    pub shift: u8,
    pub timer: u8,
    pub enabled: bool,
    pub shadow_frequency: u16,
    pub generated_with_negate: bool,
}

impl PulseSweep {
    /// Pace and shift are 3 bits, a running timer is between 1 and 8, and the shadow frequency
    /// is 11 bits.
    pub open spec fn wf(self) -> bool {
        &&& self.pace <= 7
        &&& self.shift <= 7
        &&& self.timer <= 8
        &&& self.enabled ==> self.timer >= 1
        &&& self.shadow_frequency <= 0x07FF
    }

    pub fn disabled() -> (r: Self)
        ensures
            r == (PulseSweep {
                pace: 0,
                direction: SlopeDirection::Decreasing,
                shift: 0,
                timer: 0,
                enabled: false,
                shadow_frequency: 0,
                generated_with_negate: false,
            }),
            r.wf(),
    {
        Self {
            pace: 0,
            direction: SlopeDirection::Decreasing,
            shift: 0,
            timer: 0,
            enabled: false,
            shadow_frequency: 0,
            generated_with_negate: false,
        }
    }

    /// The timer restarted from the pace, a pace of 0 counting as 8.
    pub open spec fn spec_reset_timer(self) -> PulseSweep {
        PulseSweep {
            timer: if self.pace > 0 {
                self.pace
            } else {
                8
            },
            ..self
        }
    }

    fn reset_timer(&mut self)
        ensures
            *final(self) == old(self).spec_reset_timer(),
    {
        self.timer = if self.pace > 0 {
            self.pace
        } else {
            8
        };
    }

    /// The next frequency of the sweep (`None` on overflow), with the note that a decreasing
    /// calculation happened.
    pub open spec fn spec_next_frequency(self) -> (PulseSweep, Option<u16>) {
        let sweep = if self.direction == SlopeDirection::Decreasing {
            PulseSweep { generated_with_negate: true, ..self }
        } else {
            self
        };
        let frequency = self.shadow_frequency;
        let delta = frequency >> self.shift;
        let next_frequency: u16 = match self.direction {
            SlopeDirection::Increasing => (frequency + delta) as u16,
            SlopeDirection::Decreasing => frequency.wrapping_sub(delta),
        };
        (
            sweep,
            if next_frequency <= 0x07FF {
                Some(next_frequency)
            } else {
                None
            },
        )
    }

    /// Compute the next frequency given the current sweep. Returns None on overflow/underflow.
    pub fn next_frequency(&mut self) -> (r: Option<u16>)
        requires
            old(self).wf(),
        ensures
            (*final(self), r) == old(self).spec_next_frequency(),
            final(self).wf(),
    {
        if self.direction == SlopeDirection::Decreasing {
            self.generated_with_negate = true;
        }
        let frequency = self.shadow_frequency;
        let shift = self.shift;
        assert(frequency >> shift <= frequency) by (bit_vector);
        let delta = frequency >> shift;
        let next_frequency = match self.direction {
            SlopeDirection::Increasing => frequency + delta,
            SlopeDirection::Decreasing => frequency.wrapping_sub(delta),
        };
        if next_frequency <= 0x07FF {
            Some(next_frequency)
        } else {
            None
        }
    }

    /// The sweep after one 128Hz tick, with what it did to the frequency.
    pub open spec fn spec_tick(self) -> (PulseSweep, SweepResult) {
        if !self.enabled {
            (self, SweepResult::Unchanged)
        } else if self.timer - 1 > 0 {
            (PulseSweep { timer: (self.timer - 1) as u8, ..self }, SweepResult::Unchanged)
        } else {
            let reset = self.spec_reset_timer();
            if self.pace == 0 {
                (reset, SweepResult::Unchanged)
            } else {
                let (sweep, next) = reset.spec_next_frequency();
                match next {
                    Some(new_frequency) => if self.shift > 0 {
                        (
                            PulseSweep { shadow_frequency: new_frequency, ..sweep },
                            SweepResult::Changed(new_frequency),
                        )
                    } else {
                        (sweep, SweepResult::Unchanged)
                    },
                    None => (sweep, SweepResult::Overflowed),
                }
            }
        }
    }

    /// Tick the sweep timer. This should be called at a rate of 128Hz.
    pub fn tick(&mut self) -> (r: SweepResult)
        requires
            old(self).wf(),
        ensures
            (*final(self), r) == old(self).spec_tick(),
            final(self).wf(),
            r matches SweepResult::Changed(f) ==> f <= 0x07FF,
    {
        if !self.enabled {
            return SweepResult::Unchanged;
        }
        self.timer -= 1;
        if self.timer > 0 {
            return SweepResult::Unchanged;
        }
        self.reset_timer();
        if self.pace == 0 {
            // Don't perform frequency calculations if pace is 0
            return SweepResult::Unchanged;
        }
        match self.next_frequency() {
            Some(new_frequency) => {
                if self.shift > 0 {
                    self.shadow_frequency = new_frequency;
                    SweepResult::Changed(new_frequency)
                } else {
                    SweepResult::Unchanged
                }
            },
            None => SweepResult::Overflowed,
        }
    }

    /// The sweep re-initialized on a channel trigger at the given frequency.
    pub open spec fn spec_trigger(self, frequency: u16) -> PulseSweep {
        PulseSweep {
            enabled: self.pace != 0 || self.shift != 0,
            shadow_frequency: frequency,
            generated_with_negate: false,
            ..self
        }.spec_reset_timer()
    }

    /// Re-init the sweep, which resets the enabled flag, the shadow frequency, and the timer.
    pub fn trigger(&mut self, frequency: u16)
        requires
            old(self).wf(),
            frequency <= 0x07FF,
        ensures
            *final(self) == old(self).spec_trigger(frequency),
            final(self).wf(),
    {
        self.enabled = self.pace != 0 || self.shift != 0;
        self.shadow_frequency = frequency;
        self.generated_with_negate = false;
        self.reset_timer();
    }
}

/// What a pulse channel reads from its registers when any of them was written: the values of
/// the written registers, NRx2 and NRx4, and the frequency if NRx3 or NRx4 was written.
#[derive(Debug, Clone, Copy, PartialEq, Eq, Structural)]
pub struct PulseRegisterWrites {
    pub nr0: Option<u8>,
    pub nr1: Option<u8>,
    pub nr2_dirty: bool,
    pub nr2_value: u8,
    pub nr4_dirty: bool,
    pub nr4_value: u8,
    pub frequency: Option<u16>,
}

/// A square wave channel (channels 1 & 2).
#[derive(Debug, Clone, Copy, PartialEq, Eq, Structural)]
pub struct PulseChannel {
    pub generation_on: bool,
    pub dac_on: bool,
    pub duty_cycle: DutyCycle,
    pub length_timer: LengthTimer,
    pub volume_control: VolumeControl,
    pub frequency_timer: FrequencyTimer,
    pub sweep: PulseSweep,
    pub phase_position: u64,
    pub nr0: Option<IoRegister>,
    pub nr1: IoRegister,
    pub nr2: IoRegister,
    pub nr3: IoRegister,
    pub nr4: IoRegister,
}

impl PulseChannel {
    /// The channel reads the registers of channel 1 (with sweep) or channel 2, its timers and
    /// envelope are well formed, and the phase is one of the 8 waveform positions.
    pub open spec fn wf(self) -> bool {
        &&& self.volume_control.wf()
        &&& self.frequency_timer.wf()
        &&& self.frequency_timer.period_multiplier == 4
        &&& self.sweep.wf()
        &&& self.phase_position < 8
        &&& (self.nr0 == Some(IoRegister::NR10) && self.nr1 == IoRegister::NR11 && self.nr2
            == IoRegister::NR12 && self.nr3 == IoRegister::NR13 && self.nr4 == IoRegister::NR14)
            || (self.nr0 is None && self.nr1 == IoRegister::NR21 && self.nr2 == IoRegister::NR22
            && self.nr3 == IoRegister::NR23 && self.nr4 == IoRegister::NR24)
    }

    /// A silent channel reading the given registers.
    pub open spec fn spec_new(
        nr0: Option<IoRegister>,
        nr1: IoRegister,
        nr2: IoRegister,
        nr3: IoRegister,
        nr4: IoRegister,
    ) -> PulseChannel {
        PulseChannel {
            generation_on: false,
            dac_on: false,
            duty_cycle: DutyCycle::OneEighth,
            length_timer: LengthTimer { enabled: false, timer: 0 },
            volume_control: VolumeControl {
                volume: 0,
                envelope_direction: SlopeDirection::Decreasing,
                pace: 0,
                timer: 0,
                envelope_enabled: false,
            },
            frequency_timer: FrequencyTimer { frequency: 0, timer: 8192, period_multiplier: 4 },
            sweep: PulseSweep {
                pace: 0,
                direction: SlopeDirection::Decreasing,
                shift: 0,
                timer: 0,
                enabled: false,
                shadow_frequency: 0,
                generated_with_negate: false,
            },
            phase_position: 0,
            nr0,
            nr1,
            nr2,
            nr3,
            nr4,
        }
    }

    fn new(
        nr0: Option<IoRegister>,
        nr1: IoRegister,
        nr2: IoRegister,
        nr3: IoRegister,
        nr4: IoRegister,
    ) -> (r: Self)
        ensures
            r == Self::spec_new(nr0, nr1, nr2, nr3, nr4),
    {
        Self {
            generation_on: false,
            dac_on: false,
            duty_cycle: DutyCycle::OneEighth,
            length_timer: LengthTimer::new(),
            volume_control: VolumeControl::new(),
            frequency_timer: FrequencyTimer::new(4),
            sweep: PulseSweep::disabled(),
            phase_position: 0,
            nr0,
            nr1,
            nr2,
            nr3,
            nr4,
        }
    }

    /// A square wave channel configured to read from channel 1 audio registers (with sweep).
    pub fn new_channel_1() -> (r: Self)
        ensures
            r == Self::spec_new(
                Some(IoRegister::NR10),
                IoRegister::NR11,
                IoRegister::NR12,
                IoRegister::NR13,
                IoRegister::NR14,
            ),
            r.wf(),
    {
        Self::new(
            Some(IoRegister::NR10),
            IoRegister::NR11,
            IoRegister::NR12,
            IoRegister::NR13,
            IoRegister::NR14,
        )
    }

    /// A square wave channel configured to read from channel 2 audio registers (no sweep).
    pub fn new_channel_2() -> (r: Self)
        ensures
            r == Self::spec_new(
                None,
                IoRegister::NR21,
                IoRegister::NR22,
                IoRegister::NR23,
                IoRegister::NR24,
            ),
            r.wf(),
    {
        Self::new(None, IoRegister::NR21, IoRegister::NR22, IoRegister::NR23, IoRegister::NR24)
    }

    /// Whether any of the channel's registers was written since the last update.
    pub open spec fn spec_any_dirty(self, io: IoRegistersView) -> bool {
        ||| (self.nr0 matches Some(nr0) && is_dirty(io, nr0))
        ||| is_dirty(io, self.nr1)
        ||| is_dirty(io, self.nr2)
        ||| is_dirty(io, self.nr3)
        ||| is_dirty(io, self.nr4)
    }

    /// What the channel reads from its registers.
    pub open spec fn spec_register_writes(self, io: IoRegistersView) -> PulseRegisterWrites {
        PulseRegisterWrites {
            nr0: match self.nr0 {
                Some(nr0) => if is_dirty(io, nr0) {
                    Some(io.byte(nr0))
                } else {
                    None
                },
                None => None,
            },
            nr1: if is_dirty(io, self.nr1) {
                Some(io.byte(self.nr1))
            } else {
                None
            },
            nr2_dirty: is_dirty(io, self.nr2),
            nr2_value: io.byte(self.nr2),
            nr4_dirty: is_dirty(io, self.nr4),
            nr4_value: io.byte(self.nr4),
            frequency: if is_dirty(io, self.nr3) || is_dirty(io, self.nr4) {
                Some(spec_read_frequency(io, self.nr3, self.nr4))
            } else {
                None
            },
        }
    }

    /// The registers with the dirty bits of the channel's written registers cleared.
    pub open spec fn spec_clear_dirty_bits(self, io: IoRegistersView) -> IoRegistersView {
        let io1 = match self.nr0 {
            Some(nr0) => cleared_if(io, nr0, is_dirty(io, nr0)),
            None => io,
        };
        let io2 = cleared_if(io1, self.nr1, is_dirty(io, self.nr1));
        let io3 = cleared_if(io2, self.nr2, is_dirty(io, self.nr2));
        let io4 = cleared_if(io3, self.nr3, is_dirty(io, self.nr3));
        cleared_if(io4, self.nr4, is_dirty(io, self.nr4))
    }

    /// A write to NRx0 sets the sweep's pace (bits 4-6), direction (bit 3) and shift (bits 0-2);
    /// switching to an increasing sweep after a decreasing calculation stops the channel.
    pub open spec fn spec_apply_sweep_config(self, nr0: Option<u8>) -> PulseChannel {
        match nr0 {
            Some(value) => {
                let direction = if value & 0x08 != 0 {
                    SlopeDirection::Decreasing
                } else {
                    SlopeDirection::Increasing
                };
                PulseChannel {
                    sweep: PulseSweep {
                        pace: (value & 0x70) >> 4u8,
                        direction,
                        shift: value & 0x07,
                        ..self.sweep
                    },
                    generation_on: if self.sweep.generated_with_negate && direction
                        == SlopeDirection::Increasing {
                        false
                    } else {
                        self.generation_on
                    },
                    ..self
                }
            },
            None => self,
        }
    }

    fn apply_sweep_config(&mut self, nr0: Option<u8>)
        requires
            old(self).wf(),
        ensures
            *final(self) == old(self).spec_apply_sweep_config(nr0),
            final(self).wf(),
    {
        if let Some(nr0_value) = nr0 {
            proof {
                lemma_byte_fields(nr0_value);
            }
            let sweep_pace = (nr0_value & 0x70) >> 4;
            let sweep_direction = if nr0_value & 0x08 != 0 {
                SlopeDirection::Decreasing
            } else {
                SlopeDirection::Increasing
            };
            let sweep_shift = nr0_value & 0x07;
            self.sweep.pace = sweep_pace;
            self.sweep.direction = sweep_direction;
            self.sweep.shift = sweep_shift;
            // If the sweep generated any frequency calculations with decreasing sweep since the
            // last trigger, switching to increasing sweep should disable the channel
            if self.sweep.generated_with_negate && sweep_direction == SlopeDirection::Increasing {
                self.generation_on = false;
            }
        }
    }

    /// A write to NRx1 sets the duty cycle (bits 6-7) and reloads the 6-bit length timer.
    pub open spec fn spec_apply_nr1(self, nr1: Option<u8>) -> PulseChannel {
        match nr1 {
            Some(value) => PulseChannel {
                duty_cycle: DutyCycle::spec_from_nr1(value),
                length_timer: LengthTimer {
                    timer: (64 - (value & 0x3F)) as u16,
                    ..self.length_timer
                },
                ..self
            },
            None => self,
        }
    }

    fn apply_nr1(&mut self, nr1: Option<u8>)
        requires
            old(self).wf(),
        ensures
            *final(self) == old(self).spec_apply_nr1(nr1),
            final(self).wf(),
    {
        if let Some(nr1_value) = nr1 {
            proof {
                lemma_byte_fields(nr1_value);
            }
            // Sync duty cycle with NRx1 register (bits 6-7), updates take effect immediately
            self.duty_cycle = DutyCycle::from_nr1(nr1_value);
            self.length_timer.timer = (64 - (nr1_value & 0x3F)) as u16;
        }
    }

    /// Zombie mode: a write to NRx2 while the envelope runs with pace 0 and the new value asks
    /// for an increasing envelope raises the volume by 1, wrapping from 15 to 0.
    pub open spec fn spec_apply_nr2(self, nr2_dirty: bool, nr2_value: u8) -> PulseChannel {
        if nr2_dirty && self.volume_control.envelope_enabled && self.volume_control.pace == 0
            && VolumeControl::spec_from_byte(nr2_value).envelope_direction
            == SlopeDirection::Increasing {
            PulseChannel {
                volume_control: VolumeControl {
                    volume: ((self.volume_control.volume + 1) as u8) & 0x0F,
                    ..self.volume_control
                },
                ..self
            }
        } else {
            self
        }
    }

    fn apply_nr2(&mut self, nr2_dirty: bool, nr2_value: u8)
        requires
            old(self).wf(),
        ensures
            *final(self) == old(self).spec_apply_nr2(nr2_dirty, nr2_value),
            final(self).wf(),
    {
        if nr2_dirty {
            let pending_volume_control = VolumeControl::from_byte(nr2_value);
            if self.volume_control.envelope_enabled && self.volume_control.pace == 0
                && pending_volume_control.envelope_direction == SlopeDirection::Increasing {
                let volume = self.volume_control.volume + 1;
                assert(volume & 0x0F <= 15) by (bit_vector);
                self.volume_control.volume = volume & 0x0F;
            }
        }
    }

    /// NRx4 bit 6 enables the length timer; enabling it on an off-cycle of the divider ticks it
    /// at once, and the channel stops if it runs out.
    pub open spec fn spec_apply_length_enable(self, nr4_value: u8, divider_ticks: u64) -> PulseChannel {
        let prev_enabled = self.length_timer.enabled;
        let length_timer = LengthTimer { enabled: nr4_value & 0x40 != 0, ..self.length_timer };
        if !prev_enabled && length_timer.enabled && divider_ticks % 2 == 0 {
            let (ticked, expired) = length_timer.spec_tick();
            PulseChannel {
                length_timer: ticked,
                generation_on: if expired {
                    false
                } else {
                    self.generation_on
                },
                ..self
            }
        } else {
            PulseChannel { length_timer, ..self }
        }
    }

    fn apply_length_enable(&mut self, nr4_value: u8, divider_ticks: u64)
        requires
            old(self).wf(),
        ensures
            *final(self) == old(self).spec_apply_length_enable(nr4_value, divider_ticks),
            final(self).wf(),
    {
        let prev_length_timer_enabled = self.length_timer.enabled;
        self.length_timer.enabled = nr4_value & 0x40 != 0;
        if !prev_length_timer_enabled && self.length_timer.enabled && divider_ticks % 2 == 0 {
            let mut length_timer = self.length_timer;
            let expired = length_timer.tick();
            self.length_timer = length_timer;
            if expired {
                self.generation_on = false;
            }
        }
    }

    /// The channel re-initialized by a write of NRx4 with bit 7 set.
    pub open spec fn spec_trigger(self, nr2_value: u8, divider_ticks: u64) -> PulseChannel {
        let sweep = self.sweep.spec_trigger(self.frequency_timer.frequency);
        let (checked_sweep, next) = sweep.spec_next_frequency();
        PulseChannel {
            sweep: if sweep.shift > 0 {
                checked_sweep
            } else {
                sweep
            },
            volume_control: VolumeControl::spec_from_byte(nr2_value),
            length_timer: self.length_timer.spec_trigger(64, divider_ticks),
            frequency_timer: self.frequency_timer.spec_reset_timer(),
            generation_on: !(sweep.shift > 0 && next is None),
            ..self
        }
    }

    fn trigger(&mut self, nr2_value: u8, divider_ticks: u64)
        requires
            old(self).wf(),
        ensures
            *final(self) == old(self).spec_trigger(nr2_value, divider_ticks),
            final(self).wf(),
    {
        // Re-initialize sweep (if applicable)
        let mut sweep = self.sweep;
        sweep.trigger(self.frequency_timer.frequency);
        // Re-initialize volume & envelope
        self.volume_control = VolumeControl::from_byte(nr2_value);
        // Reset length timer to the maximum possible if it expired
        let mut length_timer = self.length_timer;
        length_timer.trigger(64, divider_ticks);
        self.length_timer = length_timer;
        // Re-initialize frequency timer
        let mut frequency_timer = self.frequency_timer;
        frequency_timer.trigger();
        self.frequency_timer = frequency_timer;
        self.generation_on = true;
        // Do a sweep overflow check immediately on trigger and disable the channel if it trips
        if sweep.shift > 0 && sweep.next_frequency().is_none() {
            self.generation_on = false;
        }
        self.sweep = sweep;
    }

    /// The channel after taking in the register writes: the sweep, duty, zombie volume and
    /// length settings, the new frequency, a trigger if NRx4 bit 7 was written, and the DAC,
    /// which is on iff any of NRx2 bits 3-7 are set (the channel stops while it is off).
    pub open spec fn spec_apply_register_writes(
        self,
        writes: PulseRegisterWrites,
        divider_ticks: u64,
    ) -> PulseChannel {
        let c1 = self.spec_apply_sweep_config(writes.nr0);
        let c2 = c1.spec_apply_nr1(writes.nr1);
        let c3 = c2.spec_apply_nr2(writes.nr2_dirty, writes.nr2_value);
        let c4 = c3.spec_apply_length_enable(writes.nr4_value, divider_ticks);
        let c5 = match writes.frequency {
            Some(frequency) => PulseChannel {
                frequency_timer: FrequencyTimer { frequency, ..c4.frequency_timer },
                ..c4
            },
            None => c4,
        };
        let c6 = if writes.nr4_dirty && writes.nr4_value & 0x80 != 0 {
            c5.spec_trigger(writes.nr2_value, divider_ticks)
        } else {
            c5
        };
        let dac_on = writes.nr2_value & 0xF8 != 0;
        PulseChannel { dac_on, generation_on: c6.generation_on && dac_on, ..c6 }
    }

    fn apply_register_writes(&mut self, writes: PulseRegisterWrites, divider_ticks: u64)
        requires
            old(self).wf(),
            writes.frequency matches Some(f) ==> f <= 0x07FF,
        ensures
            *final(self) == old(self).spec_apply_register_writes(writes, divider_ticks),
            final(self).wf(),
    {
        self.apply_sweep_config(writes.nr0);
        self.apply_nr1(writes.nr1);
        self.apply_nr2(writes.nr2_dirty, writes.nr2_value);
        self.apply_length_enable(writes.nr4_value, divider_ticks);
        // Immediately update frequency if NRx3 or NRx4 was written to
        if let Some(frequency) = writes.frequency {
            self.frequency_timer.frequency = frequency;
        }
        // Re-initialize the channel if a value was written to NRx4 with bit 7 set
        if writes.nr4_dirty && writes.nr4_value & 0x80 != 0 {
            self.trigger(writes.nr2_value, divider_ticks);
        }
        // The channel's DAC is on iff any of NRx2 bits 3-7 are set
        self.dac_on = writes.nr2_value & 0xF8 != 0;
        if !self.dac_on {
            // Disable the channel if the DAC is disabled
            self.generation_on = false;
        }
    }

    /// The channel and registers after taking in register writes: nothing changes unless one
    /// of the channel's registers was written.
    pub open spec fn spec_process_register_updates(
        self,
        io: IoRegistersView,
        divider_ticks: u64,
    ) -> (PulseChannel, IoRegistersView) {
        if !self.spec_any_dirty(io) {
            (self, io)
        } else {
            (
                self.spec_apply_register_writes(self.spec_register_writes(io), divider_ticks),
                self.spec_clear_dirty_bits(io),
            )
        }
    }

    /// Update the channel's internal state based on audio register contents and updates.
    pub fn process_register_updates(&mut self, io_registers: &mut IoRegisters, divider_ticks: u64)
        requires
            old(self).wf(),
        ensures
            (*final(self), final(io_registers)@) == old(self).spec_process_register_updates(
                old(io_registers)@,
                divider_ticks,
            ),
            final(self).wf(),
    {
        let nr0_dirty = match self.nr0 {
            Some(nr0) => io_registers.get_dirty_bit(nr0),
            None => false,
        };
        let nr1_dirty = io_registers.get_dirty_bit(self.nr1);
        let nr2_dirty = io_registers.get_dirty_bit(self.nr2);
        let nr3_dirty = io_registers.get_dirty_bit(self.nr3);
        let nr4_dirty = io_registers.get_dirty_bit(self.nr4);
        if !nr0_dirty && !nr1_dirty && !nr2_dirty && !nr3_dirty && !nr4_dirty {
            return;
        }
        let writes = PulseRegisterWrites {
            nr0: match self.nr0 {
                Some(nr0) => if nr0_dirty {
                    Some(io_registers.apu_read_register(nr0))
                } else {
                    None
                },
                None => None,
            },
            nr1: if nr1_dirty {
                Some(io_registers.apu_read_register(self.nr1))
            } else {
                None
            },
            nr2_dirty,
            nr2_value: io_registers.apu_read_register(self.nr2),
            nr4_dirty,
            nr4_value: io_registers.apu_read_register(self.nr4),
            frequency: if nr3_dirty || nr4_dirty {
                Some(read_frequency(io_registers, self.nr3, self.nr4))
            } else {
                None
            },
        };
        if let Some(nr0) = self.nr0 {
            if nr0_dirty {
                io_registers.clear_dirty_bit(nr0);
            }
        }
        if nr1_dirty {
            io_registers.clear_dirty_bit(self.nr1);
        }
        if nr2_dirty {
            io_registers.clear_dirty_bit(self.nr2);
        }
        if nr3_dirty {
            io_registers.clear_dirty_bit(self.nr3);
        }
        if nr4_dirty {
            io_registers.clear_dirty_bit(self.nr4);
        }
        self.apply_register_writes(writes, divider_ticks);
    }

    /// A sweep tick: an overflow stops the channel; a changed frequency (with a non-zero shift)
    /// becomes the channel's frequency, is written back to NRx3 and NRx4 bits 0-2, and is
    /// checked for overflow once more.
    pub open spec fn spec_process_sweep_tick(self, io: IoRegistersView) -> (
        PulseChannel,
        IoRegistersView,
    ) {
        let (sweep, result) = self.sweep.spec_tick();
        let ticked = PulseChannel { sweep, ..self };
        match result {
            SweepResult::Unchanged => (ticked, io),
            SweepResult::Overflowed => (PulseChannel { generation_on: false, ..ticked }, io),
            SweepResult::Changed(frequency) => if sweep.shift > 0 {
                let io1 = io.with_byte(self.nr3, (frequency & 0xFF) as u8);
                let io2 = io1.with_byte(
                    self.nr4,
                    (io1.byte(self.nr4) & 0xF8) | ((frequency >> 8u16) as u8),
                );
                let (checked_sweep, next) = sweep.spec_next_frequency();
                (
                    PulseChannel {
                        sweep: checked_sweep,
                        frequency_timer: FrequencyTimer { frequency, ..self.frequency_timer },
                        generation_on: if next is None {
                            false
                        } else {
                            self.generation_on
                        },
                        ..self
                    },
                    io2,
                )
            } else {
                (ticked, io)
            },
        }
    }

    /// Should be called when the sweep timer clocks.
    fn process_sweep_tick(&mut self, io_registers: &mut IoRegisters)
        requires
            old(self).wf(),
        ensures
            (*final(self), final(io_registers)@) == old(self).spec_process_sweep_tick(
                old(io_registers)@,
            ),
            final(self).wf(),
    {
        let mut sweep = self.sweep;
        let sweep_result = sweep.tick();
        self.sweep = sweep;
        match sweep_result {
            SweepResult::Unchanged => {},
            SweepResult::Overflowed => {
                // Disable channel when sweep overflows/underflows frequency
                self.generation_on = false;
            },
            SweepResult::Changed(frequency) => {
                // Only update frequency timer if shift is non-zero
                if self.sweep.shift > 0 {
                    self.frequency_timer.frequency = frequency;
                    // Write out updated frequency to NRx3 and NRx4
                    io_registers.apu_write_register(self.nr3, (frequency & 0xFF) as u8);
                    let nr4 = io_registers.apu_read_register(self.nr4);
                    io_registers.apu_write_register(
                        self.nr4,
                        (nr4 & 0xF8) | (frequency >> 8) as u8,
                    );
                    // Immediately run an overflow check and disable the channel if it trips
                    let mut sweep = self.sweep;
                    let next = sweep.next_frequency();
                    self.sweep = sweep;
                    if next.is_none() {
                        self.generation_on = false;
                    }
                }
            },
        }
    }

    /// The channel and registers after one 512Hz divider tick: the sweep (channel 1 only) at
    /// 128Hz, the length timer at 256Hz and the envelope at 64Hz.
    pub open spec fn spec_tick_divider(self, divider_ticks: u64, io: IoRegistersView) -> (
        PulseChannel,
        IoRegistersView,
    ) {
        let (c1, io1) = if self.nr0 is Some && divider_ticks % 4 == 2 {
            self.spec_process_sweep_tick(io)
        } else {
            (self, io)
        };
        let c2 = if divider_ticks % 2 == 0 {
            let (length_timer, expired) = c1.length_timer.spec_tick();
            PulseChannel {
                length_timer,
                generation_on: if expired {
                    false
                } else {
                    c1.generation_on
                },
                ..c1
            }
        } else {
            c1
        };
        let c3 = if divider_ticks % 8 == 7 {
            PulseChannel { volume_control: c2.volume_control.spec_tick(), ..c2 }
        } else {
            c2
        };
        (c3, io1)
    }

    /// Tick the channel's sequencer timers for one divider cycle (512Hz).
    pub fn tick_divider(&mut self, divider_ticks: u64, io_registers: &mut IoRegisters)
        requires
            old(self).wf(),
        ensures
            (*final(self), final(io_registers)@) == old(self).spec_tick_divider(
                divider_ticks,
                old(io_registers)@,
            ),
            final(self).wf(),
    {
        // Pulse sweep timer ticks at a rate of 128 Hz
        if self.nr0.is_some() && divider_ticks % 4 == 2 {
            self.process_sweep_tick(io_registers);
        }
        // Length timer ticks at a rate of 256Hz
        if divider_ticks % 2 == 0 {
            let mut length_timer = self.length_timer;
            let expired = length_timer.tick();
            self.length_timer = length_timer;
            if expired {
                // Disable channel when length timer expires
                self.generation_on = false;
            }
        }
        // Volume envelope timer ticks at a rate of 64Hz
        if divider_ticks % 8 == 7 {
            let mut volume_control = self.volume_control;
            volume_control.tick();
            self.volume_control = volume_control;
        }
    }

    /// The channel after one M-cycle: the phase advances (looping over 8 positions) whenever
    /// the frequency timer clocks.
    pub open spec fn spec_tick_clock(self) -> PulseChannel {
        let (frequency_timer, clocked) = self.frequency_timer.spec_tick_m_cycle();
        PulseChannel {
            frequency_timer,
            phase_position: if clocked {
                ((self.phase_position + 1) % 8) as u64
            } else {
                self.phase_position
            },
            ..self
        }
    }

    /// Tick the channel's frequency timer for 1 M-cycle (4 APU clock cycles).
    pub fn tick_clock(&mut self)
        requires
            old(self).wf(),
        ensures
            *final(self) == old(self).spec_tick_clock(),
            final(self).wf(),
    {
        let mut frequency_timer = self.frequency_timer;
        let clocked = frequency_timer.tick_m_cycle();
        self.frequency_timer = frequency_timer;
        if clocked {
            // The 8 phase positions loop forever
            self.phase_position = (self.phase_position + 1) % 8;
        }
    }

    pub fn channel_enabled(&self) -> (r: bool)
        ensures
            r == self.generation_on,
    {
        self.generation_on
    }

    pub fn dac_enabled(&self) -> (r: bool)
        ensures
            r == self.dac_on,
    {
        self.dac_on
    }

    /// The digital output: no signal with the DAC off, 0 while the channel is stopped, otherwise
    /// the volume where the waveform is 1 and 0 where it is 0.
    pub open spec fn spec_sample_digital(self) -> Option<u8> {
        if !self.dac_on {
            None
        } else if !self.generation_on {
            Some(0u8)
        } else {
            Some(
                (self.duty_cycle.spec_waveform()[self.phase_position as int]
                    * self.volume_control.volume) as u8,
            )
        }
    }

    /// Digital sample in the range [0, 15].
    pub fn sample_digital(&self) -> (r: Option<u8>)
        requires
            self.wf(),
        ensures
            r == self.spec_sample_digital(),
            r matches Some(s) ==> s <= 15,
    {
        if !self.dac_on {
            // Return no signal if the DAC is disabled
            return None;
        }
        if !self.generation_on {
            // Return a constant 0 if the channel is disabled but the DAC is on
            return Some(0);
        }
        // Digital output is 0 if waveform sample is 0, {volume} otherwise
        let waveform = self.duty_cycle.waveform();
        let wave_step = waveform[self.phase_position as usize];
        proof {
            lemma_waveform_bits(self.duty_cycle, self.phase_position as int);
        }
        let volume = self.volume_control.volume;
        assert(wave_step * volume <= 15) by (nonlinear_arith)
            requires
                wave_step <= 1,
                volume <= 15,
        ;
        Some(wave_step * volume)
    }
}

/// A write to NR10 configures the sweep from its bit fields: bit 3 set makes the sweep lower the
/// frequency and bit 3 clear makes it raise it; the pace is bits 4-6 and the shift bits 0-2. A
/// channel whose sweep already lowered the frequency since its trigger stops when switched to
/// raising; otherwise the channel's other state is kept. No write changes nothing.
pub proof fn law_sweep_config(channel: PulseChannel, value: u8)
    ensures
        ({
            let configured = channel.spec_apply_sweep_config(Some(value));
            &&& (configured.sweep.direction == SlopeDirection::Decreasing) == (value & 0x08 == 0x08)
            &&& (configured.sweep.direction == SlopeDirection::Increasing) == (value & 0x08 == 0)
            &&& configured.sweep.pace == (value / 16) % 8
            &&& configured.sweep.shift == value % 8
            &&& configured.sweep.shadow_frequency == channel.sweep.shadow_frequency
            &&& configured.generation_on == (channel.generation_on && !(
            channel.sweep.generated_with_negate && value & 0x08 == 0))
        }),
        channel.spec_apply_sweep_config(None) == channel,
{
    assert((value & 0x08 != 0) == (value & 0x08 == 0x08) && (value & 0x70) >> 4u8 == (value / 16)
        % 8 && value & 0x07 == value % 8) by (bit_vector);
}

/// A sweep step moves the shadow frequency by the frequency shifted right by the shift, in the
/// sweep's direction: a decreasing sweep never raises it (and never fails), an increasing one
/// never lowers it and fails exactly when the result leaves 11 bits. A decreasing step is
/// remembered, an increasing one leaves the sweep as it was.
pub proof fn law_sweep_next_frequency(sweep: PulseSweep)
    requires
        sweep.shadow_frequency <= 0x07FF,
    ensures
        ({
            let (after, next) = sweep.spec_next_frequency();
            let f = sweep.shadow_frequency;
            let delta = f >> sweep.shift;
            &&& sweep.direction == SlopeDirection::Decreasing ==> next == Some((f - delta) as u16)
                && delta <= f && after == (PulseSweep { generated_with_negate: true, ..sweep })
            &&& sweep.direction == SlopeDirection::Increasing ==> next == (if f + delta <= 0x07FF {
                Some((f + delta) as u16)
            } else {
                None
            }) && after == sweep
        }),
{
    let f = sweep.shadow_frequency;
    let s = sweep.shift;
    assert(f >> s <= f) by (bit_vector);
}

} // verus!
