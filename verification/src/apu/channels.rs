//! Building blocks shared by the four sound channels: length timers, volume envelopes, frequency
//! timers and the frequency registers.
use crate::memory::ioregisters::{spec_dirty_bit, IoRegister, IoRegisters, IoRegistersView};
use vstd::prelude::*;

pub mod noise;
pub mod pulse;
pub mod wave;

verus! {

/// APU clock cycles in one CPU M-cycle.
pub const APU_CYCLES_PER_M_CYCLE: u16 = 4;

/// Facts about the bit fields of a register byte.
pub proof fn lemma_byte_fields(b: u8)
    ensures
        b >> 4u8 <= 15,
        b & 0x07 <= 7,
        b & 0x3F <= 63,
        (b & 0x70) >> 4u8 <= 7,
        b & 0xF8 == 0 ==> b <= 7,
{
    assert(b >> 4u8 <= 15 && b & 0x07 <= 7 && b & 0x3F <= 63 && (b & 0x70) >> 4u8 <= 7 && (b
        & 0xF8 == 0 ==> b <= 7)) by (bit_vector);
}

/// Whether a register's dirty bit is set.
pub open spec fn is_dirty(io: IoRegistersView, register: IoRegister) -> bool {
    io.dirty_bits & spec_dirty_bit(register).unwrap() != 0
}

/// The registers with one register's dirty bit cleared.
pub open spec fn cleared(io: IoRegistersView, register: IoRegister) -> IoRegistersView {
    IoRegistersView { dirty_bits: io.dirty_bits & !spec_dirty_bit(register).unwrap(), ..io }
}

/// The registers with the dirty bit of `register` cleared if `dirty` holds.
pub open spec fn cleared_if(io: IoRegistersView, register: IoRegister, dirty: bool) -> IoRegistersView {
    if dirty {
        cleared(io, register)
    } else {
        io
    }
}

/// A length timer: while enabled it counts down at 256Hz, and the channel stops when it runs out.
#[derive(Debug, Clone, Copy, PartialEq, Eq, Structural)]
pub struct LengthTimer {
    pub enabled: bool,
    pub timer: u16,
}

impl LengthTimer {
    pub fn new() -> (r: Self)
        ensures
            r == (LengthTimer { enabled: false, timer: 0 }),
    {
        Self { enabled: false, timer: 0 }
    }

    /// The timer after one tick, and whether it has run out.
    pub open spec fn spec_tick(self) -> (LengthTimer, bool) {
        if !self.enabled {
            (self, false)
        } else {
            let timer: u16 = if self.timer == 0 {
                0
            } else {
                (self.timer - 1) as u16
            };
            (LengthTimer { timer, ..self }, timer == 0)
        }
    }

    /// Count down one tick if enabled. Returns whether the timer has run out.
    pub fn tick(&mut self) -> (r: bool)
        ensures
            (*final(self), r) == old(self).spec_tick(),
    {
        if !self.enabled {
            return false;
        }
        self.timer = self.timer.saturating_sub(1);
        self.timer == 0
    }

    /// The timer after a channel trigger: an expired timer restarts from `max_value`, one tick
    /// lower if it is enabled and this is an off-cycle of the divider.
    pub open spec fn spec_trigger(self, max_value: u16, divider_ticks: u64) -> LengthTimer {
        if self.timer == 0 {
            LengthTimer {
                timer: if self.enabled && divider_ticks % 2 == 0 {
                    (max_value - 1) as u16
                } else {
                    max_value
                },
                ..self
            }
        } else {
            self
        }
    }

    pub fn trigger(&mut self, max_value: u16, divider_ticks: u64)
        requires
            max_value > 0,
        ensures
            *final(self) == old(self).spec_trigger(max_value, divider_ticks),
    {
        if self.timer == 0 {
            self.timer = max_value;
            // Immediately tick if the length timer is enabled and this is an off-cycle
            if self.enabled && divider_ticks % 2 == 0 {
                self.timer -= 1;
            }
        }
    }
}

/// The direction of a volume envelope or frequency sweep.
#[derive(Debug, Clone, Copy, PartialEq, Eq, Structural)]
pub enum SlopeDirection {
    Increasing,
    Decreasing,
}

/// Volume state and envelope.
#[derive(Debug, Clone, Copy, PartialEq, Eq, Structural)]
pub struct VolumeControl {
    pub volume: u8,
    pub envelope_direction: SlopeDirection,
    pub pace: u8,
    pub timer: u8,
    pub envelope_enabled: bool,
}

impl VolumeControl {
    /// The volume is 4 bits, the pace 3 bits, and a running envelope timer counts from the pace
    /// down to 1.
    pub open spec fn wf(self) -> bool {
        &&& self.volume <= 15
        &&& self.pace <= 7
        &&& self.timer <= self.pace
        &&& self.pace != 0 ==> self.timer >= 1
    }

    pub fn new() -> (r: Self)
        ensures
            r == (VolumeControl {
                volume: 0,
                envelope_direction: SlopeDirection::Decreasing,
                pace: 0,
                timer: 0,
                envelope_enabled: false,
            }),
            r.wf(),
    {
        Self {
            volume: 0,
            envelope_direction: SlopeDirection::Decreasing,
            pace: 0,
            timer: 0,
            envelope_enabled: false,
        }
    }

    /// The volume control an NRx2 value starts: volume in bits 4-7, direction in bit 3, pace in
    /// bits 0-2.
    pub open spec fn spec_from_byte(byte: u8) -> VolumeControl {
        VolumeControl {
            volume: byte >> 4u8,
            envelope_direction: if byte & 0x08 != 0 {
                SlopeDirection::Increasing
            } else {
                SlopeDirection::Decreasing
            },
            pace: byte & 0x07,
            timer: byte & 0x07,
            envelope_enabled: true,
        }
    }

    /// Create a newly initialized volume control from the given NRx2 value.
    pub fn from_byte(byte: u8) -> (r: Self)
        ensures
            r == Self::spec_from_byte(byte),
            r.wf(),
    {
        proof {
            lemma_byte_fields(byte);
        }
        let pace = byte & 0x07;
        Self {
            volume: byte >> 4,
            envelope_direction: if byte & 0x08 != 0 {
                SlopeDirection::Increasing
            } else {
                SlopeDirection::Decreasing
            },
            pace,
            timer: pace,
            envelope_enabled: true,
        }
    }

    /// The volume control after one 64Hz envelope tick: when the timer runs out it restarts,
    /// and the volume moves one step in its direction, or the envelope stops at 0 or 15.
    pub open spec fn spec_tick(self) -> VolumeControl {
        if self.pace != 0 && self.envelope_enabled {
            let timer = (self.timer - 1) as u8;
            if timer == 0 {
                let overflowed = match self.envelope_direction {
                    SlopeDirection::Increasing => self.volume == 0x0F,
                    SlopeDirection::Decreasing => self.volume == 0x00,
                };
                if overflowed {
                    VolumeControl { timer: self.pace, envelope_enabled: false, ..self }
                } else {
                    VolumeControl {
                        timer: self.pace,
                        volume: match self.envelope_direction {
                            SlopeDirection::Increasing => (self.volume + 1) as u8,
                            SlopeDirection::Decreasing => (self.volume - 1) as u8,
                        },
                        ..self
                    }
                }
            } else {
                VolumeControl { timer, ..self }
            }
        } else {
            self
        }
    }

    /// Tick the envelope timer. This should be called at a rate of 64Hz.
    pub fn tick(&mut self)
        requires
            old(self).wf(),
        ensures
            *final(self) == old(self).spec_tick(),
            final(self).wf(),
    {
        if self.pace != 0 && self.envelope_enabled {
            self.timer -= 1;
            if self.timer == 0 {
                self.timer = self.pace;
                let overflowed = match self.envelope_direction {
                    SlopeDirection::Increasing => self.volume == 0x0F,
                    SlopeDirection::Decreasing => self.volume == 0x00,
                };
                if overflowed {
                    self.envelope_enabled = false;
                } else {
                    let new_volume = match self.envelope_direction {
                        SlopeDirection::Increasing => self.volume + 1,
                        SlopeDirection::Decreasing => self.volume - 1,
                    };
                    self.volume = new_volume;
                }
            }
        }
    }
}

/// An NRx2 byte starts a running envelope that rises exactly when bit 3 is set and falls
/// otherwise, from the volume in bits 4-7, at the pace in bits 0-2.
pub proof fn law_volume_control_from_byte(byte: u8)
    ensures
        (VolumeControl::spec_from_byte(byte).envelope_direction == SlopeDirection::Increasing)
            == (byte & 0x08 == 0x08),
        (VolumeControl::spec_from_byte(byte).envelope_direction == SlopeDirection::Decreasing)
            == (byte & 0x08 == 0),
        VolumeControl::spec_from_byte(byte).volume == byte / 16,
        VolumeControl::spec_from_byte(byte).pace == byte % 8,
        VolumeControl::spec_from_byte(byte).envelope_enabled,
{
    assert((byte & 0x08 != 0) == (byte & 0x08 == 0x08) && byte >> 4u8 == byte / 16 && byte & 0x07
        == byte % 8) by (bit_vector);
}

/// An envelope tick moves the volume by at most one step and only in the envelope's direction:
/// a falling envelope never raises the volume and a rising one never lowers it; the volume stays
/// within 0-15.
pub proof fn law_envelope_tick_direction(control: VolumeControl)
    requires
        control.wf(),
    ensures
        control.spec_tick().volume <= 15,
        control.envelope_direction == SlopeDirection::Decreasing ==> control.spec_tick().volume
            <= control.volume,
        control.envelope_direction == SlopeDirection::Increasing ==> control.spec_tick().volume
            >= control.volume,
        control.spec_tick().volume == control.volume || control.spec_tick().volume
            == control.volume + 1 || control.spec_tick().volume + 1 == control.volume,
        control.spec_tick().envelope_direction == control.envelope_direction,
{
}

/// A timer with a clock period of `period_multiplier * (2048 - frequency)` APU cycles.
#[derive(Debug, Clone, Copy, PartialEq, Eq, Structural)]
pub struct FrequencyTimer {
    pub frequency: u16,
    pub timer: u16,
    pub period_multiplier: u16,
}

impl FrequencyTimer {
    /// The frequency is 11 bits, the multiplier 2 or 4, and the timer counts down from its
    /// period to 1.
    pub open spec fn wf(self) -> bool {
        &&& self.frequency <= 0x07FF
        &&& self.period_multiplier == 2 || self.period_multiplier == 4
        &&& 1 <= self.timer <= self.period_multiplier * 2048
    }

    pub fn new(period_multiplier: u16) -> (r: Self)
        requires
            period_multiplier == 2 || period_multiplier == 4,
        ensures
            r == (FrequencyTimer {
                frequency: 0,
                timer: (period_multiplier * 2048) as u16,
                period_multiplier,
            }),
            r.wf(),
    {
        Self { frequency: 0, timer: period_multiplier * 2048, period_multiplier }
    }

    /// The timer restarted from the period of the current frequency.
    pub open spec fn spec_reset_timer(self) -> FrequencyTimer {
        FrequencyTimer {
            timer: (self.period_multiplier * (2048 - self.frequency)) as u16,
            ..self
        }
    }

    /// Reset the timer based on the current frequency.
    pub fn reset_timer(&mut self)
        requires
            old(self).wf(),
        ensures
            *final(self) == old(self).spec_reset_timer(),
            final(self).wf(),
    {
        self.timer = self.period_multiplier * (2048 - self.frequency);
    }

    /// The timer after one APU clock cycle.
    pub open spec fn spec_tick(self) -> FrequencyTimer {
        if self.timer == 1 {
            self.spec_reset_timer()
        } else {
            FrequencyTimer { timer: (self.timer - 1) as u16, ..self }
        }
    }

    fn tick(&mut self)
        requires
            old(self).wf(),
        ensures
            *final(self) == old(self).spec_tick(),
            final(self).wf(),
    {
        if self.timer == 1 {
            self.reset_timer();
        } else {
            self.timer -= 1;
        }
    }

    /// The timer after one M-cycle (4 APU clock cycles), and whether it clocked in that time.
    pub open spec fn spec_tick_m_cycle(self) -> (FrequencyTimer, bool) {
        if self.timer > APU_CYCLES_PER_M_CYCLE {
            (FrequencyTimer { timer: (self.timer - APU_CYCLES_PER_M_CYCLE) as u16, ..self }, false)
        } else {
            (self.spec_tick().spec_tick().spec_tick().spec_tick(), true)
        }
    }

    /// Tick the timer for 1 M-cycle (4 APU clock cycles). Returns whether the timer clocked.
    pub fn tick_m_cycle(&mut self) -> (r: bool)
        requires
            old(self).wf(),
        ensures
            (*final(self), r) == old(self).spec_tick_m_cycle(),
            final(self).wf(),
    {
        if self.timer > APU_CYCLES_PER_M_CYCLE {
            self.timer -= APU_CYCLES_PER_M_CYCLE;
            return false;
        }
        self.tick();
        self.tick();
        self.tick();
        self.tick();
        true
    }

    /// Re-initialize the timer.
    pub fn trigger(&mut self)
        requires
            old(self).wf(),
        ensures
            *final(self) == old(self).spec_reset_timer(),
            final(self).wf(),
    {
        self.reset_timer();
    }
}

/// The 11-bit frequency held in an NRx3 register (low 8 bits) and NRx4 bits 0-2 (high 3 bits).
pub open spec fn spec_read_frequency(io: IoRegistersView, nr3: IoRegister, nr4: IoRegister) -> u16 {
    (((io.byte(nr4) as u16) & 0x07) << 8u16) | (io.byte(nr3) as u16)
}

/// Read an 11-bit wave frequency out of the specified NRx3 and NRx4 registers.
pub fn read_frequency(io_registers: &IoRegisters, nr3: IoRegister, nr4: IoRegister) -> (r: u16)
    requires
        nr3.spec_audio(),
        nr4.spec_audio(),
    ensures
        r == spec_read_frequency(io_registers@, nr3, nr4),
        r <= 0x07FF,
{
    let nr3_value = io_registers.apu_read_register(nr3) as u16;
    let nr4_value = io_registers.apu_read_register(nr4) as u16;
    assert(nr3_value <= 0xFF && nr4_value <= 0xFF ==> ((nr4_value & 0x07) << 8u16) | nr3_value
        <= 0x07FF) by (bit_vector);
    ((nr4_value & 0x07) << 8) | nr3_value
}

} // verus!
