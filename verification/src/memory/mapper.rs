pub mod mbc7;

use crate::memory::address;
use crate::memory::mapper::mbc7::Mbc7Eeprom;
use vstd::prelude::*;

verus! {

/// The memory bank controller family of a cartridge.
#[derive(Debug, Clone, Copy, PartialEq, Eq, Structural)]
pub enum MapperType {
    NoMapper,
    MBC1,
    MBC2,
    MBC3,
    MBC5,
    MBC7,
}

/// A point in time of the MBC3 real-time clock.
#[derive(Debug, Clone, Copy, PartialEq, Eq, Structural)]
pub struct RtcTime {
    pub nanos: u32,
    pub seconds: u8,
    pub minutes: u8,
    pub hours: u8,
    pub days: u16,
    pub day_overflow_flag: bool,
}

pub const NANOS_PER_SECOND: u128 = 1_000_000_000;

/// The clock time after `elapsed` nanoseconds: each unit carries into the next (seconds and
/// minutes at 60, hours at 24, days at 512) and carrying out of the day counter sets the
/// day-overflow flag.
pub open spec fn rtc_advance(t: RtcTime, elapsed: int) -> RtcTime {
    let nanos = t.nanos + elapsed;
    let t1 = RtcTime { nanos: (nanos % 1_000_000_000) as u32, ..t };
    if nanos < 1_000_000_000 {
        t1
    } else {
        let seconds = t.seconds + nanos / 1_000_000_000;
        let t2 = RtcTime { seconds: (seconds % 60) as u8, ..t1 };
        if seconds < 60 {
            t2
        } else {
            let minutes = t.minutes + seconds / 60;
            let t3 = RtcTime { minutes: (minutes % 60) as u8, ..t2 };
            if minutes < 60 {
                t3
            } else {
                let hours = t.hours + minutes / 60;
                let t4 = RtcTime { hours: (hours % 24) as u8, ..t3 };
                if hours < 24 {
                    t4
                } else {
                    let days = t.days + hours / 24;
                    let t5 = RtcTime { days: (days % 512) as u16, ..t4 };
                    if days < 512 {
                        t5
                    } else {
                        RtcTime { day_overflow_flag: true, ..t5 }
                    }
                }
            }
        }
    }
}

impl RtcTime {
    pub fn new() -> (r: Self)
        ensures
            r == (RtcTime {
                nanos: 0,
                seconds: 0,
                minutes: 0,
                hours: 0,
                days: 0,
                day_overflow_flag: false,
            }),
    {
        Self { nanos: 0, seconds: 0, minutes: 0, hours: 0, days: 0, day_overflow_flag: false }
    }
}

/// The MBC3 real-time clock. Times are nanoseconds since the Unix epoch.
#[derive(Debug, Clone, Copy, PartialEq, Eq, Structural)]
pub struct RealTimeClock {
    pub last_update: u64,
    pub current_time: RtcTime,
    pub latched_time: Option<RtcTime>,
    pub pre_latched: bool,
    pub halted: bool,
}

impl RealTimeClock {
    /// The clock after an update at time `now`: the time since the last update (zero if time
    /// went backwards) is added unless the clock is halted.
    pub open spec fn spec_updated(self, now: u64) -> RealTimeClock {
        let since: int = if now >= self.last_update { now - self.last_update } else { 0 };
        if self.halted {
            RealTimeClock { last_update: now, ..self }
        } else {
            RealTimeClock {
                last_update: now,
                current_time: rtc_advance(self.current_time, since),
                ..self
            }
        }
    }

    /// The clock after a write to the latch register: writing 0x00 then 0x01 latches the current
    /// time; any other write clears the latch.
    pub open spec fn spec_register_write(self, value: u8) -> RealTimeClock {
        if value == 0x01 && self.pre_latched {
            RealTimeClock { pre_latched: false, latched_time: Some(self.current_time), ..self }
        } else if value == 0x00 {
            RealTimeClock { pre_latched: true, latched_time: None, ..self }
        } else {
            RealTimeClock { pre_latched: false, latched_time: None, ..self }
        }
    }

    /// A running clock at time zero, last updated at `now`.
    pub fn new(now: u64) -> (r: Self)
        ensures
            r == (RealTimeClock {
                last_update: now,
                current_time: RtcTime {
                    nanos: 0,
                    seconds: 0,
                    minutes: 0,
                    hours: 0,
                    days: 0,
                    day_overflow_flag: false,
                },
                latched_time: None,
                pre_latched: false,
                halted: false,
            }),
    {
        Self {
            last_update: now,
            current_time: RtcTime::new(),
            latched_time: None,
            pre_latched: false,
            halted: false,
        }
    }

    pub fn update(&mut self, now: u64)
        ensures
            *final(self) == old(self).spec_updated(now),
    {
        let since: u64 = if now >= self.last_update {
            now - self.last_update
        } else {
            0
        };
        self.last_update = now;
        if self.halted {
            return;
        }
        let nanos: u128 = self.current_time.nanos as u128 + since as u128;
        self.current_time.nanos = (nanos % NANOS_PER_SECOND) as u32;
        if nanos < NANOS_PER_SECOND {
            return;
        }
        proof {
            vstd::arithmetic::div_mod::lemma_div_is_ordered(
                nanos as int,
                0x1_0000_0001_0000_0000int,
                1_000_000_000int,
            );
            assert(0x1_0000_0001_0000_0000int / 1_000_000_000int < 0x1_0000_0000_0000int);
        }
        let seconds: u64 = self.current_time.seconds as u64 + (nanos / NANOS_PER_SECOND) as u64;
        self.current_time.seconds = (seconds % 60) as u8;
        if seconds < 60 {
            return;
        }
        let minutes: u64 = self.current_time.minutes as u64 + (seconds / 60);
        self.current_time.minutes = (minutes % 60) as u8;
        if minutes < 60 {
            return;
        }
        let hours: u64 = self.current_time.hours as u64 + (minutes / 60);
        self.current_time.hours = (hours % 24) as u8;
        if hours < 24 {
            return;
        }
        let days: u64 = self.current_time.days as u64 + (hours / 24);
        self.current_time.days = (days % 512) as u16;
        if days < 512 {
            return;
        }
        self.current_time.day_overflow_flag = true;
    }

    pub fn process_register_write(&mut self, value: u8)
        ensures
            *final(self) == old(self).spec_register_write(value),
    {
        if value == 0x01 && self.pre_latched {
            self.pre_latched = false;
            self.latched_time = Some(self.current_time);
        } else if value == 0x00 {
            self.pre_latched = true;
            self.latched_time = None;
        } else {
            self.pre_latched = false;
            self.latched_time = None;
        }
    }
}

/// Where a CPU access to cartridge RAM goes.
#[derive(Debug, Clone, Copy, PartialEq, Eq, Structural)]
pub enum RamMapResult {
    // Relative address into the full RAM array
    RamAddress(u32),
    // The RAM address is currently mapped to a cartridge-internal register
    MapperRegister,
    // The RAM address is invalid or RAM access is disabled
    Unmapped,
}

/// Optional hardware present on a cartridge.
#[derive(Debug, Clone, Copy, PartialEq, Eq, Structural)]
pub struct MapperFeatures {
    pub has_ram: bool,
    pub has_battery: bool,
    pub has_rtc: bool,
}

impl MapperFeatures {
    /// A one-line description of the features.
    pub fn describe(&self) -> (r: String)
        ensures
            r@ == describe_features(*self),
    {
        let mut s = String::new();
        s.append("has_ram=");
        s.append(if self.has_ram { "true" } else { "false" });
        s.append(", has_battery=");
        s.append(if self.has_battery { "true" } else { "false" });
        s.append(", has_rtc=");
        s.append(if self.has_rtc { "true" } else { "false" });
        s
    }
}

pub open spec fn bool_text(b: bool) -> Seq<char> {
    if b { "true"@ } else { "false"@ }
}

pub open spec fn describe_features(f: MapperFeatures) -> Seq<char> {
    "has_ram="@ + bool_text(f.has_ram) + ", has_battery="@ + bool_text(f.has_battery) + ", has_rtc="@
        + bool_text(f.has_rtc)
}

/// The cartridge hardware that a mapper byte of the header names, or None for bytes that name
/// no supported mapper.
pub open spec fn spec_parse_byte(mapper_byte: u8) -> Option<(MapperType, MapperFeatures)> {
    let has_rtc = mapper_byte == 0x0F || mapper_byte == 0x10;
    let found: Option<(MapperType, bool, bool)> = if mapper_byte == 0x00 {
        Some((MapperType::NoMapper, false, false))
    } else if mapper_byte == 0x01 {
        Some((MapperType::MBC1, false, false))
    } else if mapper_byte == 0x02 {
        Some((MapperType::MBC1, true, false))
    } else if mapper_byte == 0x03 {
        Some((MapperType::MBC1, true, true))
    } else if mapper_byte == 0x05 {
        Some((MapperType::MBC2, true, false))
    } else if mapper_byte == 0x06 {
        Some((MapperType::MBC2, true, true))
    } else if mapper_byte == 0x0F {
        Some((MapperType::MBC3, false, true))
    } else if mapper_byte == 0x10 || mapper_byte == 0x13 {
        Some((MapperType::MBC3, true, true))
    } else if mapper_byte == 0x11 {
        Some((MapperType::MBC3, false, false))
    } else if mapper_byte == 0x12 {
        Some((MapperType::MBC3, true, false))
    } else if mapper_byte == 0x19 || mapper_byte == 0x1C {
        Some((MapperType::MBC5, false, false))
    } else if mapper_byte == 0x1A || mapper_byte == 0x1D {
        Some((MapperType::MBC5, true, false))
    } else if mapper_byte == 0x1B || mapper_byte == 0x1E {
        Some((MapperType::MBC5, true, true))
    } else if mapper_byte == 0x22 {
        Some((MapperType::MBC7, true, true))
    } else {
        None
    };
    match found {
        Some((t, has_ram, has_battery)) => Some((t, MapperFeatures { has_ram, has_battery, has_rtc })),
        None => None,
    }
}

/// Decode the mapper byte of a cartridge header.
pub fn parse_byte(mapper_byte: u8) -> (r: Option<(MapperType, MapperFeatures)>)
    ensures
        r == spec_parse_byte(mapper_byte),
{
    let (mapper_type, has_ram, has_battery) = match mapper_byte {
        0x00 => (MapperType::NoMapper, false, false),
        0x01 => (MapperType::MBC1, false, false),
        0x02 => (MapperType::MBC1, true, false),
        0x03 => (MapperType::MBC1, true, true),
        0x05 => (MapperType::MBC2, true, false),
        0x06 => (MapperType::MBC2, true, true),
        0x0F => (MapperType::MBC3, false, true),
        // 0x10 is w/ RTC, 0x13 is w/o RTC
        0x10 | 0x13 => (MapperType::MBC3, true, true),
        0x11 => (MapperType::MBC3, false, false),
        0x12 => (MapperType::MBC3, true, false),
        // 0x19 is w/o rumble, 0x1C is w/ rumble
        0x19 | 0x1C => (MapperType::MBC5, false, false),
        // 0x1A is w/o rumble, 0x1D is w/ rumble
        0x1A | 0x1D => (MapperType::MBC5, true, false),
        // 0x1B is w/o rumble, 0x1E is w/ rumble
        0x1B | 0x1E => (MapperType::MBC5, true, true),
        0x22 => (MapperType::MBC7, true, true),
        _ => {
            return None;
        },
    };
    let has_rtc = mapper_byte == 0x0F || mapper_byte == 0x10;
    Some((mapper_type, MapperFeatures { has_ram, has_battery, has_rtc }))
}

/// Reads the system clock as nanoseconds since the Unix epoch.
///
/// Calls `std::time::SystemTime::now` and `duration_since(UNIX_EPOCH)`; the result depends on the
/// machine's clock, so nothing is promised of it (a clock before the epoch reads as 0, one past
/// the `u64` range saturates).
#[verifier::external_body]
pub(crate) fn current_time_nanos() -> u64 {
    match std::time::SystemTime::now().duration_since(std::time::UNIX_EPOCH) {
        Ok(d) => u64::try_from(d.as_nanos()).unwrap_or(u64::MAX),
        Err(_) => 0,
    }
}

/// The cartridge's memory bank controller with its registers.
#[derive(Debug, Clone, Copy)]
pub enum Mapper {
    NoMapper,
    MBC1 {
        rom_bank_bit_mask: u8,
        ram_bank_bit_mask: u8,
        ram_enable: u8,
        rom_bank_number: u8,
        ram_bank_number: u8,
        banking_mode_select: u8,
    },
    MBC2 { rom_bank_bit_mask: u8, ram_enable: u8, rom_bank_number: u8 },
    MBC3 {
        rom_bank_bit_mask: u8,
        ram_enable: u8,
        rom_bank_number: u8,
        ram_bank_number: u8,
        real_time_clock: Option<RealTimeClock>,
    },
    MBC5 {
        rom_bank_bit_mask: u16,
        ram_bank_bit_mask: u8,
        ram_enable: u8,
        rom_bank_number: u16,
        ram_bank_number: u8,
    },
    MBC7 { eeprom: Mbc7Eeprom, rom_bank_bit_mask: u16, rom_bank_number: u16 },
}

/// The mask of ROM bank bits for a ROM of the given size: the number of 16 KiB banks minus one.
pub open spec fn rom_mask_for(rom_size: u32) -> u16 {
    if rom_size >= 0x4000 {
        ((rom_size / 0x4000) - 1) as u16
    } else {
        0
    }
}

/// The mask of RAM bank bits for a RAM of the given size: the number of 8 KiB banks minus one.
pub open spec fn ram_mask_for(ram_size: u32) -> u8 {
    if ram_size >= 0x2000 {
        ((ram_size / 0x2000) - 1) as u8
    } else {
        0
    }
}

impl Mapper {
    pub open spec fn wf(self) -> bool {
        match self {
            Mapper::MBC7 { eeprom, .. } => eeprom.wf(),
            _ => true,
        }
    }

    /// The address in cartridge ROM that a CPU address in 0x0000-0x7FFF reads.
    pub open spec fn spec_map_rom(self, address: u16) -> u32 {
        match self {
            Mapper::NoMapper => address as u32,
            Mapper::MBC1 {
                rom_bank_bit_mask,
                rom_bank_number,
                ram_bank_number,
                banking_mode_select,
                ..
            } => {
                let rom_bank_number = if rom_bank_number == 0 { 1u8 } else { rom_bank_number };
                if address <= 0x3FFF {
                    if banking_mode_select == 0 {
                        address as u32
                    } else {
                        let bank = (ram_bank_number << 5u8) & rom_bank_bit_mask;
                        (address as int + bank as int * 0x4000) as u32
                    }
                } else {
                    let bank = if banking_mode_select == 0 {
                        rom_bank_number & rom_bank_bit_mask
                    } else {
                        (rom_bank_number | (ram_bank_number << 5u8)) & rom_bank_bit_mask
                    };
                    (address - 0x4000 + bank as int * 0x4000) as u32
                }
            },
            Mapper::MBC2 { rom_bank_bit_mask, rom_bank_number, .. }
            | Mapper::MBC3 { rom_bank_bit_mask, rom_bank_number, .. } => {
                let rom_bank_number = if rom_bank_number == 0 { 1u8 } else { rom_bank_number };
                if address <= 0x3FFF {
                    address as u32
                } else {
                    (address - 0x4000 + (rom_bank_number & rom_bank_bit_mask) as int * 0x4000) as u32
                }
            },
            Mapper::MBC5 { rom_bank_bit_mask, rom_bank_number, .. }
            | Mapper::MBC7 { rom_bank_bit_mask, rom_bank_number, .. } => {
                // ROM bank 0 is actually bank 0 in MBC5 and MBC7
                if address <= 0x3FFF {
                    address as u32
                } else {
                    (address - 0x4000 + (rom_bank_number & rom_bank_bit_mask) as int * 0x4000) as u32
                }
            },
        }
    }

    /// The mapper after the CPU writes to a ROM address (which sets mapper registers).
    pub open spec fn spec_write_rom(self, address: u16, value: u8) -> Mapper {
        match self {
            Mapper::NoMapper => self,
            Mapper::MBC1 {
                rom_bank_bit_mask,
                ram_bank_bit_mask,
                ram_enable,
                rom_bank_number,
                ram_bank_number,
                banking_mode_select,
            } => if address <= 0x1FFF {
                Mapper::MBC1 {
                    rom_bank_bit_mask,
                    ram_bank_bit_mask,
                    ram_enable: value,
                    rom_bank_number,
                    ram_bank_number,
                    banking_mode_select,
                }
            } else if address <= 0x3FFF {
                Mapper::MBC1 {
                    rom_bank_bit_mask,
                    ram_bank_bit_mask,
                    ram_enable,
                    rom_bank_number: value & 0x1F,
                    ram_bank_number,
                    banking_mode_select,
                }
            } else if address <= 0x5FFF {
                Mapper::MBC1 {
                    rom_bank_bit_mask,
                    ram_bank_bit_mask,
                    ram_enable,
                    rom_bank_number,
                    ram_bank_number: value & 0x03,
                    banking_mode_select,
                }
            } else {
                Mapper::MBC1 {
                    rom_bank_bit_mask,
                    ram_bank_bit_mask,
                    ram_enable,
                    rom_bank_number,
                    ram_bank_number,
                    banking_mode_select: value & 0x01,
                }
            },
            Mapper::MBC2 { rom_bank_bit_mask, ram_enable, rom_bank_number } => if address <= 0x3FFF {
                if address & 0x0100 != 0 {
                    Mapper::MBC2 { rom_bank_bit_mask, ram_enable, rom_bank_number: value & 0x0F }
                } else {
                    Mapper::MBC2 { rom_bank_bit_mask, ram_enable: value, rom_bank_number }
                }
            } else {
                self
            },
            Mapper::MBC3 {
                rom_bank_bit_mask,
                ram_enable,
                rom_bank_number,
                ram_bank_number,
                real_time_clock,
            } => if address <= 0x1FFF {
                Mapper::MBC3 {
                    rom_bank_bit_mask,
                    ram_enable: value,
                    rom_bank_number,
                    ram_bank_number,
                    real_time_clock,
                }
            } else if address <= 0x3FFF {
                Mapper::MBC3 {
                    rom_bank_bit_mask,
                    ram_enable,
                    rom_bank_number: value & 0x7F,
                    ram_bank_number,
                    real_time_clock,
                }
            } else if address <= 0x5FFF {
                Mapper::MBC3 {
                    rom_bank_bit_mask,
                    ram_enable,
                    rom_bank_number,
                    ram_bank_number: value,
                    real_time_clock,
                }
            } else {
                Mapper::MBC3 {
                    rom_bank_bit_mask,
                    ram_enable,
                    rom_bank_number,
                    ram_bank_number,
                    real_time_clock: match real_time_clock {
                        Some(rtc) => Some(rtc.spec_register_write(value)),
                        None => None,
                    },
                }
            },
            Mapper::MBC5 {
                rom_bank_bit_mask,
                ram_bank_bit_mask,
                ram_enable,
                rom_bank_number,
                ram_bank_number,
            } => if address <= 0x1FFF {
                Mapper::MBC5 {
                    rom_bank_bit_mask,
                    ram_bank_bit_mask,
                    ram_enable: value,
                    rom_bank_number,
                    ram_bank_number,
                }
            } else if address <= 0x2FFF {
                Mapper::MBC5 {
                    rom_bank_bit_mask,
                    ram_bank_bit_mask,
                    ram_enable,
                    rom_bank_number: (rom_bank_number & 0xFF00) | (value as u16),
                    ram_bank_number,
                }
            } else if address <= 0x3FFF {
                Mapper::MBC5 {
                    rom_bank_bit_mask,
                    ram_bank_bit_mask,
                    ram_enable,
                    rom_bank_number: ((value as u16) << 8u16) | (rom_bank_number & 0x00FF),
                    ram_bank_number,
                }
            } else if address <= 0x5FFF {
                Mapper::MBC5 {
                    rom_bank_bit_mask,
                    ram_bank_bit_mask,
                    ram_enable,
                    rom_bank_number,
                    ram_bank_number: value,
                }
            } else {
                self
            },
            Mapper::MBC7 { eeprom, rom_bank_bit_mask, rom_bank_number } => if 0x2000 <= address
                <= 0x3FFF {
                Mapper::MBC7 { eeprom, rom_bank_bit_mask, rom_bank_number: value as u16 }
            } else {
                self
            },
        }
    }

    /// Where a CPU access to an address in 0xA000-0xBFFF goes.
    pub open spec fn spec_map_ram(self, address: u16) -> RamMapResult {
        let relative_address = (address - 0xA000) as int;
        match self {
            Mapper::NoMapper => RamMapResult::RamAddress(relative_address as u32),
            Mapper::MBC1 { ram_bank_bit_mask, ram_enable, ram_bank_number, banking_mode_select, .. } => {
                if ram_enable & 0x0A == 0x0A {
                    if banking_mode_select == 0 {
                        RamMapResult::RamAddress(relative_address as u32)
                    } else {
                        RamMapResult::RamAddress(
                            (relative_address + (ram_bank_number & ram_bank_bit_mask) as int * 0x2000) as u32,
                        )
                    }
                } else {
                    RamMapResult::Unmapped
                }
            },
            Mapper::MBC2 { ram_enable, .. } => if ram_enable == 0x0A {
                RamMapResult::RamAddress(relative_address as u32)
            } else {
                RamMapResult::Unmapped
            },
            Mapper::MBC3 { ram_enable, ram_bank_number, .. } => if ram_enable & 0x0A == 0x0A {
                if ram_bank_number <= 0x03 {
                    RamMapResult::RamAddress((relative_address + ram_bank_number as int * 0x2000) as u32)
                } else if 0x08 <= ram_bank_number <= 0x0C {
                    RamMapResult::MapperRegister
                } else {
                    RamMapResult::Unmapped
                }
            } else {
                RamMapResult::Unmapped
            },
            Mapper::MBC5 { ram_bank_bit_mask, ram_enable, ram_bank_number, .. } => if ram_enable & 0x0A
                == 0x0A {
                let bank = ram_bank_number & ram_bank_bit_mask;
                if bank <= 0x03 {
                    RamMapResult::RamAddress((relative_address + bank as int * 0x2000) as u32)
                } else if 0x08 <= bank <= 0x0C {
                    RamMapResult::MapperRegister
                } else {
                    RamMapResult::Unmapped
                }
            } else {
                RamMapResult::Unmapped
            },
            Mapper::MBC7 { .. } => RamMapResult::MapperRegister,
        }
    }

    /// The value of the cartridge register mapped into RAM (MBC3 clock registers), if any.
    pub open spec fn spec_read_register(self) -> Option<u8> {
        match self {
            Mapper::MBC3 { ram_bank_number, real_time_clock: Some(rtc), .. } => {
                let time = match rtc.latched_time {
                    Some(t) => t,
                    None => rtc.current_time,
                };
                if ram_bank_number == 0x08 {
                    Some(time.seconds)
                } else if ram_bank_number == 0x09 {
                    Some(time.minutes)
                } else if ram_bank_number == 0x0A {
                    Some(time.hours)
                } else if ram_bank_number == 0x0B {
                    Some((time.days % 256) as u8)
                } else if ram_bank_number == 0x0C {
                    Some(
                        ((if time.day_overflow_flag { 0x80u8 } else { 0u8 }) | (if rtc.halted {
                            0x40u8
                        } else {
                            0u8
                        }) | ((time.days / 256) as u8)),
                    )
                } else {
                    None
                }
            },
            _ => None,
        }
    }

    /// The clock after a write to one of its RAM-mapped registers.
    pub open spec fn spec_rtc_register_write(rtc: RealTimeClock, bank: u8, value: u8) -> RealTimeClock {
        let t = rtc.current_time;
        if bank == 0x08 {
            RealTimeClock { current_time: RtcTime { seconds: value, nanos: 0, ..t }, ..rtc }
        } else if bank == 0x09 {
            RealTimeClock { current_time: RtcTime { minutes: value, ..t }, ..rtc }
        } else if bank == 0x0A {
            RealTimeClock { current_time: RtcTime { hours: value, ..t }, ..rtc }
        } else if bank == 0x0B {
            RealTimeClock {
                current_time: RtcTime { days: ((t.days / 256) * 256 + value) as u16, ..t },
                ..rtc
            }
        } else if bank == 0x0C {
            RealTimeClock {
                current_time: RtcTime {
                    days: ((t.days % 256) + (if value & 0x01 != 0 { 256int } else { 0 })) as u16,
                    day_overflow_flag: value & 0x80 != 0,
                    ..t
                },
                halted: value & 0x40 != 0,
                ..rtc
            }
        } else {
            rtc
        }
    }

    /// The mapper after a write to the register mapped into RAM.
    pub open spec fn spec_write_register(self, value: u8) -> Mapper {
        match self {
            Mapper::MBC3 {
                rom_bank_bit_mask,
                ram_enable,
                rom_bank_number,
                ram_bank_number,
                real_time_clock: Some(rtc),
            } => Mapper::MBC3 {
                rom_bank_bit_mask,
                ram_enable,
                rom_bank_number,
                ram_bank_number,
                real_time_clock: Some(Self::spec_rtc_register_write(rtc, ram_bank_number, value)),
            },
            _ => self,
        }
    }

    /// A freshly reset mapper of the given type for the given ROM and RAM sizes, with the clock
    /// (MBC3 with RTC) brought up to time `now`. MBC7 mappers carry EEPROM contents and are
    /// described by `Mapper::new_at` directly; this function gives no MBC7 value.
    pub open spec fn spec_new(
        mapper_type: MapperType,
        mapper_features: MapperFeatures,
        rtc: Option<RealTimeClock>,
        rom_size: u32,
        ram_size: u32,
        now: u64,
    ) -> Mapper {
        let rom_mask = rom_mask_for(rom_size);
        let ram_mask = ram_mask_for(ram_size);
        match mapper_type {
            MapperType::NoMapper => Mapper::NoMapper,
            MapperType::MBC1 => Mapper::MBC1 {
                rom_bank_bit_mask: rom_mask as u8,
                ram_bank_bit_mask: ram_mask,
                ram_enable: 0,
                rom_bank_number: 0,
                ram_bank_number: 0,
                banking_mode_select: 0,
            },
            MapperType::MBC2 => Mapper::MBC2 {
                rom_bank_bit_mask: rom_mask as u8,
                ram_enable: 0,
                rom_bank_number: 0,
            },
            MapperType::MBC3 => Mapper::MBC3 {
                rom_bank_bit_mask: rom_mask as u8,
                ram_enable: 0,
                rom_bank_number: 0,
                ram_bank_number: 0,
                real_time_clock: if mapper_features.has_rtc {
                    Some(
                        match rtc {
                            Some(c) => c.spec_updated(now),
                            None => RealTimeClock {
                                last_update: now,
                                current_time: RtcTime {
                                    nanos: 0,
                                    seconds: 0,
                                    minutes: 0,
                                    hours: 0,
                                    days: 0,
                                    day_overflow_flag: false,
                                },
                                latched_time: None,
                                pre_latched: false,
                                halted: false,
                            },
                        },
                    )
                } else {
                    None
                },
            },
            MapperType::MBC5 => Mapper::MBC5 {
                rom_bank_bit_mask: rom_mask,
                ram_bank_bit_mask: ram_mask,
                ram_enable: 0,
                rom_bank_number: 1,
                ram_bank_number: 0,
            },
            MapperType::MBC7 => Mapper::NoMapper,
        }
    }
}

/// The EEPROM contents an MBC7 mapper starts with: the saved bytes when exactly 256 were saved,
/// zeros otherwise.
pub open spec fn initial_eeprom_memory(loaded_ram: Option<Seq<u8>>) -> Seq<u8> {
    match loaded_ram {
        Some(ram) => if ram.len() == 256 { ram } else { Seq::new(256, |i: int| 0u8) },
        None => Seq::new(256, |i: int| 0u8),
    }
}

impl Mapper {
    /// A freshly reset mapper, using `now` (nanoseconds since the Unix epoch) as the current time
    /// for the real-time clock.
    pub fn new_at(
        mapper_type: MapperType,
        mapper_features: MapperFeatures,
        rtc: Option<RealTimeClock>,
        rom_size: u32,
        ram_size: u32,
        loaded_ram: Option<&Vec<u8>>,
        now: u64,
    ) -> (r: Self)
        ensures
            r.wf(),
            mapper_type != MapperType::MBC7 ==> r == Mapper::spec_new(
                mapper_type,
                mapper_features,
                rtc,
                rom_size,
                ram_size,
                now,
            ),
            mapper_type == MapperType::MBC7 ==> (r matches Mapper::MBC7 {
                eeprom,
                rom_bank_bit_mask,
                rom_bank_number,
            } && rom_bank_bit_mask == rom_mask_for(rom_size) && rom_bank_number == 1
                && eeprom.state == mbc7::ChipState::Standby(mbc7::WriteStatus::Disabled)
                && eeprom.last_clock == mbc7::Clock(false) && eeprom.memory@ == initial_eeprom_memory(
                match loaded_ram {
                    Some(v) => Some(v@),
                    None => None,
                },
            )),
    {
        let rom_bank_bit_mask: u16 = if rom_size >= 0x4000 {
            ((rom_size / 0x4000) - 1) as u16
        } else {
            0
        };
        let ram_bank_bit_mask: u8 = if ram_size >= 0x2000 {
            ((ram_size / 0x2000) - 1) as u8
        } else {
            0
        };
        match mapper_type {
            MapperType::NoMapper => Self::NoMapper,
            MapperType::MBC1 => Self::MBC1 {
                rom_bank_bit_mask: rom_bank_bit_mask as u8,
                ram_bank_bit_mask,
                ram_enable: 0x00,
                rom_bank_number: 0x00,
                ram_bank_number: 0x00,
                banking_mode_select: 0x00,
            },
            MapperType::MBC2 => Self::MBC2 {
                rom_bank_bit_mask: rom_bank_bit_mask as u8,
                ram_enable: 0x00,
                rom_bank_number: 0x00,
            },
            MapperType::MBC3 => {
                let real_time_clock = if mapper_features.has_rtc {
                    match rtc {
                        Some(rtc) => {
                            let mut rtc = rtc;
                            rtc.update(now);
                            Some(rtc)
                        },
                        None => Some(RealTimeClock::new(now)),
                    }
                } else {
                    None
                };
                Self::MBC3 {
                    rom_bank_bit_mask: rom_bank_bit_mask as u8,
                    ram_enable: 0x00,
                    rom_bank_number: 0x00,
                    ram_bank_number: 0x00,
                    real_time_clock,
                }
            },
            MapperType::MBC5 => Self::MBC5 {
                rom_bank_bit_mask,
                ram_bank_bit_mask,
                ram_enable: 0x00,
                rom_bank_number: 0x01,
                ram_bank_number: 0x00,
            },
            MapperType::MBC7 => Self::MBC7 {
                eeprom: Mbc7Eeprom::new(loaded_ram),
                rom_bank_bit_mask,
                rom_bank_number: 0x01,
            },
        }
    }

    /// A freshly reset mapper; an MBC3 real-time clock is brought up to the current system time.
    pub fn new(
        mapper_type: MapperType,
        mapper_features: MapperFeatures,
        rtc: Option<RealTimeClock>,
        rom_size: u32,
        ram_size: u32,
        loaded_ram: Option<&Vec<u8>>,
    ) -> (r: Self)
        ensures
            r.wf(),
            mapper_type != MapperType::MBC7 && !(mapper_type == MapperType::MBC3
                && mapper_features.has_rtc) ==> r == Mapper::spec_new(
                mapper_type,
                mapper_features,
                rtc,
                rom_size,
                ram_size,
                0,
            ),
            mapper_type == MapperType::MBC3 && mapper_features.has_rtc ==> exists|now: u64|
                r == Mapper::spec_new(mapper_type, mapper_features, rtc, rom_size, ram_size, now),
            mapper_type == MapperType::MBC7 ==> (r matches Mapper::MBC7 {
                eeprom,
                rom_bank_bit_mask,
                rom_bank_number,
            } && rom_bank_bit_mask == rom_mask_for(rom_size) && rom_bank_number == 1
                && eeprom.memory@ == initial_eeprom_memory(
                match loaded_ram {
                    Some(v) => Some(v@),
                    None => None,
                },
            )),
    {
        let now = current_time_nanos();
        Self::new_at(mapper_type, mapper_features, rtc, rom_size, ram_size, loaded_ram, now)
    }

    /// Map a CPU ROM address (0x0000-0x7FFF) to an address in cartridge ROM.
    pub fn map_rom_address(&self, address: u16) -> (r: u32)
        requires
            address <= 0x7FFF,
        ensures
            r == self.spec_map_rom(address),
    {
        match *self {
            Self::NoMapper => address as u32,
            Self::MBC1 {
                rom_bank_bit_mask,
                rom_bank_number,
                ram_bank_number,
                banking_mode_select,
                ..
            } => {
                let rom_bank_number = if rom_bank_number == 0x00 {
                    0x01
                } else {
                    rom_bank_number
                };
                if address <= 0x3FFF {
                    if banking_mode_select == 0x00 {
                        address as u32
                    } else {
                        let bank_number = (ram_bank_number << 5) & rom_bank_bit_mask;
                        (address as u32) + (bank_number as u32) * 0x4000
                    }
                } else {
                    let bank_number = if banking_mode_select == 0x00 {
                        rom_bank_number & rom_bank_bit_mask
                    } else {
                        (rom_bank_number | (ram_bank_number << 5)) & rom_bank_bit_mask
                    };
                    ((address - 0x4000) as u32) + (bank_number as u32) * 0x4000
                }
            },
            Self::MBC2 { rom_bank_bit_mask, rom_bank_number, .. }
            | Self::MBC3 { rom_bank_bit_mask, rom_bank_number, .. } => {
                let rom_bank_number = if rom_bank_number == 0x00 {
                    0x01
                } else {
                    rom_bank_number
                };
                if address <= 0x3FFF {
                    address as u32
                } else {
                    let bank_number = rom_bank_number & rom_bank_bit_mask;
                    ((address - 0x4000) as u32) + (bank_number as u32) * 0x4000
                }
            },
            Self::MBC5 { rom_bank_bit_mask, rom_bank_number, .. }
            | Self::MBC7 { rom_bank_bit_mask, rom_bank_number, .. } => {
                // ROM bank 0 is actually bank 0 in MBC5 and MBC7
                if address <= 0x3FFF {
                    address as u32
                } else {
                    let bank_number = rom_bank_number & rom_bank_bit_mask;
                    ((address - 0x4000) as u32) + (bank_number as u32) * 0x4000
                }
            },
        }
    }

    /// ROM writes don't actually modify the ROM (it is read-only after all) but they do modify
    /// cartridge registers.
    pub fn write_rom_address(&mut self, address: u16, value: u8)
        requires
            address <= 0x7FFF,
            old(self).wf(),
        ensures
            final(self).wf(),
            *final(self) == old(self).spec_write_rom(address, value),
    {
        match self {
            Self::NoMapper => {},
            Self::MBC1 { ram_enable, rom_bank_number, ram_bank_number, banking_mode_select, .. } => {
                if address <= 0x1FFF {
                    *ram_enable = value;
                } else if address <= 0x3FFF {
                    *rom_bank_number = value & 0x1F;
                } else if address <= 0x5FFF {
                    *ram_bank_number = value & 0x03;
                } else {
                    *banking_mode_select = value & 0x01;
                }
            },
            Self::MBC2 { ram_enable, rom_bank_number, .. } => {
                if address <= 0x3FFF {
                    if address & 0x0100 != 0 {
                        *rom_bank_number = value & 0x0F;
                    } else {
                        *ram_enable = value;
                    }
                }
            },
            Self::MBC3 { ram_enable, rom_bank_number, ram_bank_number, real_time_clock, .. } => {
                if address <= 0x1FFF {
                    *ram_enable = value;
                } else if address <= 0x3FFF {
                    *rom_bank_number = value & 0x7F;
                } else if address <= 0x5FFF {
                    *ram_bank_number = value;
                } else {
                    if let Some(real_time_clock) = real_time_clock {
                        real_time_clock.process_register_write(value);
                    }
                }
            },
            Self::MBC5 { ram_enable, rom_bank_number, ram_bank_number, .. } => {
                if address <= 0x1FFF {
                    *ram_enable = value;
                } else if address <= 0x2FFF {
                    *rom_bank_number = (*rom_bank_number & 0xFF00) | (value as u16);
                } else if address <= 0x3FFF {
                    *rom_bank_number = ((value as u16) << 8) | (*rom_bank_number & 0x00FF);
                } else if address <= 0x5FFF {
                    *ram_bank_number = value;
                }
            },
            Self::MBC7 { rom_bank_number, .. } => {
                // 0x0000-0x1FFF and 0x4000-0x5FFF are the RAM enable registers, which are not
                // emulated; 0x2000-0x3FFF selects the ROM bank
                if 0x2000 <= address && address <= 0x3FFF {
                    *rom_bank_number = value as u16;
                }
            },
        }
    }

    /// Map a CPU address in 0xA000-0xBFFF to cartridge RAM or a mapper register.
    pub fn map_ram_address(&self, address: u16) -> (r: RamMapResult)
        requires
            address::EXTERNAL_RAM_START <= address <= address::EXTERNAL_RAM_END,
        ensures
            r == self.spec_map_ram(address),
    {
        let relative_address = address - address::EXTERNAL_RAM_START;
        match *self {
            Self::NoMapper => RamMapResult::RamAddress(relative_address as u32),
            Self::MBC1 { ram_bank_bit_mask, ram_enable, ram_bank_number, banking_mode_select, .. } => {
                if ram_enable & 0x0A == 0x0A {
                    if banking_mode_select == 0x00 {
                        RamMapResult::RamAddress(relative_address as u32)
                    } else {
                        let bank_number = ram_bank_number & ram_bank_bit_mask;
                        RamMapResult::RamAddress((relative_address as u32) + (bank_number as u32) * 0x2000)
                    }
                } else {
                    RamMapResult::Unmapped
                }
            },
            Self::MBC2 { ram_enable, .. } => {
                if ram_enable == 0x0A {
                    RamMapResult::RamAddress(relative_address as u32)
                } else {
                    RamMapResult::Unmapped
                }
            },
            Self::MBC3 { ram_enable, ram_bank_number, .. } => {
                if ram_enable & 0x0A == 0x0A {
                    if ram_bank_number <= 0x03 {
                        RamMapResult::RamAddress((relative_address as u32) + (ram_bank_number as u32) * 0x2000)
                    } else if 0x08 <= ram_bank_number && ram_bank_number <= 0x0C {
                        // 0x08-0x0C are RTC registers
                        RamMapResult::MapperRegister
                    } else {
                        RamMapResult::Unmapped
                    }
                } else {
                    RamMapResult::Unmapped
                }
            },
            Self::MBC5 { ram_bank_bit_mask, ram_enable, ram_bank_number, .. } => {
                if ram_enable & 0x0A == 0x0A {
                    let bank_number = ram_bank_number & ram_bank_bit_mask;
                    if bank_number <= 0x03 {
                        RamMapResult::RamAddress((relative_address as u32) + (bank_number as u32) * 0x2000)
                    } else if 0x08 <= bank_number && bank_number <= 0x0C {
                        RamMapResult::MapperRegister
                    } else {
                        RamMapResult::Unmapped
                    }
                } else {
                    RamMapResult::Unmapped
                }
            },
            Self::MBC7 { .. } => {
                // RAM enable is not emulated for MBC7
                RamMapResult::MapperRegister
            },
        }
    }

    /// Read the cartridge register currently mapped into RAM (MBC3 clock registers).
    pub fn read_ram_addressed_register(&self) -> (r: Option<u8>)
        ensures
            r == self.spec_read_register(),
    {
        match self {
            Self::MBC3 { ram_bank_number, real_time_clock: Some(real_time_clock), .. } => {
                let time = match real_time_clock.latched_time {
                    Some(t) => t,
                    None => real_time_clock.current_time,
                };
                let ram_bank_number = *ram_bank_number;
                if ram_bank_number == 0x08 {
                    Some(time.seconds)
                } else if ram_bank_number == 0x09 {
                    Some(time.minutes)
                } else if ram_bank_number == 0x0A {
                    Some(time.hours)
                } else if ram_bank_number == 0x0B {
                    Some((time.days % 256) as u8)
                } else if ram_bank_number == 0x0C {
                    let overflow: u8 = if time.day_overflow_flag { 0x80 } else { 0 };
                    let halted: u8 = if real_time_clock.halted { 0x40 } else { 0 };
                    Some(overflow | halted | ((time.days / 256) as u8))
                } else {
                    None
                }
            },
            _ => None,
        }
    }

    /// Write the cartridge register currently mapped into RAM (MBC3 clock registers).
    pub fn write_ram_addressed_register(&mut self, value: u8)
        requires
            old(self).wf(),
        ensures
            final(self).wf(),
            *final(self) == old(self).spec_write_register(value),
    {
        match self {
            Self::MBC3 { ram_bank_number, real_time_clock: Some(real_time_clock), .. } => {
                let bank = *ram_bank_number;
                if bank == 0x08 {
                    real_time_clock.current_time.seconds = value;
                    real_time_clock.current_time.nanos = 0;
                } else if bank == 0x09 {
                    real_time_clock.current_time.minutes = value;
                } else if bank == 0x0A {
                    real_time_clock.current_time.hours = value;
                } else if bank == 0x0B {
                    real_time_clock.current_time.days = (real_time_clock.current_time.days / 256) * 256
                        + (value as u16);
                } else if bank == 0x0C {
                    let high: u16 = if value & 0x01 != 0 { 256 } else { 0 };
                    real_time_clock.current_time.days = (real_time_clock.current_time.days % 256) + high;
                    real_time_clock.halted = value & 0x40 != 0;
                    real_time_clock.current_time.day_overflow_flag = value & 0x80 != 0;
                }
            },
            _ => {},
        }
    }

    /// The mapper with its real-time clock (if any) brought up to time `now`.
    pub open spec fn spec_update_rtc(self, now: u64) -> Mapper {
        match self {
            Mapper::MBC3 {
                rom_bank_bit_mask,
                ram_enable,
                rom_bank_number,
                ram_bank_number,
                real_time_clock: Some(rtc),
            } => Mapper::MBC3 {
                rom_bank_bit_mask,
                ram_enable,
                rom_bank_number,
                ram_bank_number,
                real_time_clock: Some(rtc.spec_updated(now)),
            },
            _ => self,
        }
    }

    /// Bring the real-time clock (if any) up to time `now` (nanoseconds since the Unix epoch).
    pub fn update_rtc_at(&mut self, now: u64)
        requires
            old(self).wf(),
        ensures
            final(self).wf(),
            *final(self) == old(self).spec_update_rtc(now),
    {
        match self {
            Self::MBC3 { real_time_clock: Some(real_time_clock), .. } => {
                real_time_clock.update(now);
            },
            _ => {},
        }
    }

    /// Bring the real-time clock (if any) up to the current system time.
    pub fn update_rtc(&mut self)
        requires
            old(self).wf(),
        ensures
            final(self).wf(),
            exists|now: u64| *final(self) == old(self).spec_update_rtc(now),
    {
        let now = current_time_nanos();
        self.update_rtc_at(now);
    }

    /// The real-time clock, for MBC3 mappers that have one.
    pub fn get_clock(&self) -> (r: Option<&RealTimeClock>)
        ensures
            (r is Some) == (self matches Mapper::MBC3 { real_time_clock: Some(_), .. }),
            self matches Mapper::MBC3 { real_time_clock: Some(c), .. } ==> *r.unwrap() == c,
    {
        match self {
            Self::MBC3 { real_time_clock: Some(c), .. } => Some(c),
            _ => None,
        }
    }

    /// Get a reference to the mapper chip's raw EEPROM, if any (only MBC7 mapper has such a chip)
    pub fn get_eeprom_memory(&self) -> (r: Option<&[u8; 256]>)
        ensures
            (r is Some) == (self is MBC7),
            self matches Mapper::MBC7 { eeprom, .. } ==> r.unwrap()@ == eeprom.memory@,
    {
        match self {
            Self::MBC7 { eeprom, .. } => Some(eeprom.raw_memory()),
            _ => None,
        }
    }
}

/// On an MBC1 cartridge in simple banking mode, writing a bank number to 0x2000-0x3FFF selects
/// that bank (its low 5 bits, 0 counting as 1, masked to the ROM size) for 0x4000-0x7FFF, while
/// 0x0000-0x3FFF keeps showing bank 0.
pub proof fn law_mbc1_rom_bank_select(mapper: Mapper, bank: u8, register_address: u16, address: u16)
    requires
        mapper matches Mapper::MBC1 { banking_mode_select, .. } && banking_mode_select == 0,
        0x2000 <= register_address <= 0x3FFF,
        address <= 0x7FFF,
    ensures
        ({
            let switched = mapper.spec_write_rom(register_address, bank);
            let selected = if bank & 0x1F == 0 {
                1u8
            } else {
                bank & 0x1F
            };
            &&& address <= 0x3FFF ==> switched.spec_map_rom(address) == address
            &&& address >= 0x4000 ==> switched.spec_map_rom(address) == (address - 0x4000 + (
                selected & mapper->MBC1_rom_bank_bit_mask) as int * 0x4000) as u32
        }),
{
}

/// On an MBC3 cartridge, writing a bank number to 0x2000-0x3FFF selects that bank (its low 7
/// bits, so any of 128 banks, 0 counting as 1, masked to the ROM size) for 0x4000-0x7FFF, while
/// 0x0000-0x3FFF keeps showing bank 0.
pub proof fn law_mbc3_rom_bank_select(mapper: Mapper, bank: u8, register_address: u16, address: u16)
    requires
        mapper is MBC3,
        0x2000 <= register_address <= 0x3FFF,
        address <= 0x7FFF,
    ensures
        ({
            let switched = mapper.spec_write_rom(register_address, bank);
            let selected: int = if bank % 128 == 0 {
                1
            } else {
                (bank % 128) as int
            };
            &&& address <= 0x3FFF ==> switched.spec_map_rom(address) == address
            &&& address >= 0x4000 ==> switched.spec_map_rom(address) == address - 0x4000 + (
                (selected as u8) & mapper->MBC3_rom_bank_bit_mask) as int * 0x4000
            &&& address >= 0x4000 && mapper->MBC3_rom_bank_bit_mask == 0x7F
                ==> switched.spec_map_rom(address) == address - 0x4000 + selected * 0x4000
        }),
{
    assert(bank & 0x7F == bank % 128) by (bit_vector);
    let sel: u8 = if bank & 0x7F == 0 { 1 } else { bank & 0x7F };
    assert(sel & 0x7F == sel) by (bit_vector)
        requires
            sel <= 0x7F,
    ;
}

/// On an MBC5 cartridge the ROM bank is nine bits wide: its low byte is written to
/// 0x2000-0x2FFF and its high part to 0x3000-0x3FFF, in either order, and 0x4000-0x7FFF then
/// shows that bank (bank 0 included), masked to the ROM size, while 0x0000-0x3FFF shows bank 0.
pub proof fn law_mbc5_rom_bank_select(
    mapper: Mapper,
    low: u8,
    high: u8,
    low_address: u16,
    high_address: u16,
    address: u16,
)
    requires
        mapper is MBC5,
        0x2000 <= low_address <= 0x2FFF,
        0x3000 <= high_address <= 0x3FFF,
        address <= 0x7FFF,
    ensures
        ({
            let bank = (high as int * 256 + low as int) as u16;
            let low_first = mapper.spec_write_rom(low_address, low).spec_write_rom(high_address, high);
            let high_first = mapper.spec_write_rom(high_address, high).spec_write_rom(low_address, low);
            &&& address <= 0x3FFF ==> low_first.spec_map_rom(address) == address
            &&& address >= 0x4000 ==> low_first.spec_map_rom(address) == address - 0x4000 + (bank
                & mapper->MBC5_rom_bank_bit_mask) as int * 0x4000
            &&& address >= 0x4000 ==> high_first.spec_map_rom(address) == address - 0x4000 + (bank
                & mapper->MBC5_rom_bank_bit_mask) as int * 0x4000
        }),
{
    let r = mapper->MBC5_rom_bank_number;
    let bank = (high as int * 256 + low as int) as u16;
    let a = (r & 0xFF00) | (low as u16);
    let b = ((high as u16) << 8u16) | (r & 0x00FF);
    assert(((high as u16) << 8u16) | (a & 0x00FF) == bank && (b & 0xFF00) | (low as u16) == bank)
        by (bit_vector)
        requires
            a == (r & 0xFF00) | (low as u16),
            b == ((high as u16) << 8u16) | (r & 0x00FF),
            bank == (high as int * 256 + low as int) as u16,
    ;
}

/// On an MBC2 cartridge a write to 0x0000-0x3FFF with address bit 8 set selects the ROM bank
/// in the value's low 4 bits (0 counting as 1, masked to the ROM size) for 0x4000-0x7FFF; with
/// bit 8 clear it leaves the ROM mapping alone.
pub proof fn law_mbc2_rom_bank_select(mapper: Mapper, value: u8, register_address: u16, address: u16)
    requires
        mapper is MBC2,
        register_address <= 0x3FFF,
        0x4000 <= address <= 0x7FFF,
    ensures
        ({
            let switched = mapper.spec_write_rom(register_address, value);
            let selected: int = if value % 16 == 0 {
                1
            } else {
                (value % 16) as int
            };
            &&& register_address & 0x0100 != 0 ==> switched.spec_map_rom(address) == address
                - 0x4000 + ((selected as u8) & mapper->MBC2_rom_bank_bit_mask) as int * 0x4000
            &&& register_address & 0x0100 == 0 ==> switched.spec_map_rom(address)
                == mapper.spec_map_rom(address)
        }),
{
    assert(value & 0x0F == value % 16) by (bit_vector);
}

} // verus!
