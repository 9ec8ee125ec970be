use vstd::prelude::*;

verus! {

/// The EEPROM chip-select line (register bit 7).
#[derive(Debug, Clone, Copy, PartialEq, Eq, Structural)]
pub struct ChipSelect(pub bool);

impl ChipSelect {
    pub fn from_register_byte(byte: u8) -> (r: Self)
        ensures
            r.0 == (byte & 0x80 != 0),
    {
        Self(byte & 0x80 != 0)
    }
}

/// The EEPROM clock line (register bit 6).
#[derive(Debug, Clone, Copy, PartialEq, Eq, Structural)]
pub struct Clock(pub bool);

impl Clock {
    pub fn from_register_byte(byte: u8) -> (r: Self)
        ensures
            r.0 == (byte & 0x40 != 0),
    {
        Self(byte & 0x40 != 0)
    }

    /// The line level as a bit.
    pub fn to_bit(self) -> (r: u8)
        ensures
            r == (if self.0 { 1u8 } else { 0u8 }),
    {
        if self.0 {
            1
        } else {
            0
        }
    }
}

/// The EEPROM data-in line (register bit 1).
#[derive(Debug, Clone, Copy, PartialEq, Eq, Structural)]
pub struct DataIn(pub bool);

impl DataIn {
    pub fn from_register_byte(byte: u8) -> (r: Self)
        ensures
            r.0 == (byte & 0x02 != 0),
    {
        Self(byte & 0x02 != 0)
    }

    /// The line level as a bit.
    pub fn to_bit(self) -> (r: u16)
        ensures
            r == (if self.0 { 1u16 } else { 0u16 }),
    {
        if self.0 {
            1
        } else {
            0
        }
    }
}

/// The EEPROM data-out line.
#[derive(Debug, Clone, Copy, PartialEq, Eq, Structural)]
pub struct DataOut(pub bool);

impl DataOut {
    /// The line level as a bit.
    pub fn to_bit(self) -> (r: u8)
        ensures
            r == (if self.0 { 1u8 } else { 0u8 }),
    {
        if self.0 {
            1
        } else {
            0
        }
    }
}

/// Whether erase/write operations are currently allowed.
#[derive(Debug, Clone, Copy, PartialEq, Eq, Structural)]
pub enum WriteStatus {
    Enabled,
    Disabled,
}

/// An EEPROM command decoded from the 10-bit opcode word.
#[derive(Debug, Clone, Copy, PartialEq, Eq, Structural)]
pub enum Operation {
    Read { address: u8 },
    Write { address: u8 },
    WriteAll,
    Erase { address: u8 },
    EraseAll,
    WriteEnable,
    WriteDisable,
}

impl Operation {
    pub open spec fn spec_from_opcode(opcode: u16) -> Operation {
        let kind = opcode & 0x0300;
        let address = (opcode & 0x007F) as u8;
        if kind == 0x0000 {
            let sub = opcode & 0x00C0;
            if sub == 0x0000 {
                Operation::WriteDisable
            } else if sub == 0x0040 {
                Operation::WriteAll
            } else if sub == 0x0080 {
                Operation::EraseAll
            } else {
                Operation::WriteEnable
            }
        } else if kind == 0x0100 {
            Operation::Write { address }
        } else if kind == 0x0200 {
            Operation::Read { address }
        } else {
            Operation::Erase { address }
        }
    }

    pub fn from_opcode(opcode: u16) -> (r: Self)
        ensures
            r == Self::spec_from_opcode(opcode),
    {
        let kind = opcode & 0x0300;
        let address = (opcode & 0x007F) as u8;
        if kind == 0x0000 {
            let sub = opcode & 0x00C0;
            if sub == 0x0000 {
                Self::WriteDisable
            } else if sub == 0x0040 {
                Self::WriteAll
            } else if sub == 0x0080 {
                Self::EraseAll
            } else {
                Self::WriteEnable
            }
        } else if kind == 0x0100 {
            Self::Write { address }
        } else if kind == 0x0200 {
            Self::Read { address }
        } else {
            Self::Erase { address }
        }
    }
}

/// Where a write command stores its data word.
#[derive(Debug, Clone, Copy, PartialEq, Eq, Structural)]
pub enum WriteType {
    SingleAddress(u8),
    All,
}

/// A partially received opcode: bits are shifted in from the most significant end.
#[derive(Debug, Clone, Copy, PartialEq, Eq, Structural)]
pub struct OpInput {
    pub input_bits: u16,
    pub bits_remaining: u8,
}

impl OpInput {
    pub fn new() -> (r: Self)
        ensures
            r == (OpInput { input_bits: 0, bits_remaining: 10 }),
    {
        Self { input_bits: 0, bits_remaining: 10 }
    }
}

/// A partially received 16-bit data word.
#[derive(Debug, Clone, Copy, PartialEq, Eq, Structural)]
pub struct WriteInput {
    pub input_bits: u16,
    pub bits_remaining: u8,
}

impl WriteInput {
    pub fn new() -> (r: Self)
        ensures
            r == (WriteInput { input_bits: 0, bits_remaining: 16 }),
    {
        Self { input_bits: 0, bits_remaining: 16 }
    }
}

/// A 16-bit word being shifted out, most significant bit first.
#[derive(Debug, Clone, Copy, PartialEq, Eq, Structural)]
pub struct ReadOutput {
    pub value: u16,
    pub current_bit: u8,
}

impl ReadOutput {
    pub fn new(value: u16) -> (r: Self)
        ensures
            r == (ReadOutput { value, current_bit: 16 }),
    {
        Self { value, current_bit: 16 }
    }

    pub open spec fn spec_output(self) -> bool {
        self.current_bit < 16 && self.value & (1u16 << self.current_bit) != 0
    }

    /// The bit currently driven on the data-out line (low before the first bit is clocked out).
    pub fn current_output(self) -> (r: DataOut)
        ensures
            r.0 == self.spec_output(),
    {
        if self.current_bit < 16 {
            DataOut(self.value & (1u16 << self.current_bit) != 0)
        } else {
            DataOut(false)
        }
    }
}

/// The serial-protocol state of the EEPROM chip.
#[derive(Debug, Clone, Copy, PartialEq, Eq, Structural)]
pub enum ChipState {
    Standby(WriteStatus),
    ReadingOp(WriteStatus, OpInput),
    ReadingData(WriteType, WriteInput),
    SendingOutput(WriteStatus, ReadOutput),
    Finished(WriteStatus),
}

/// The 16-bit big-endian word stored at word `address` (0-127).
pub open spec fn word_at(memory: Seq<u8>, address: u8) -> u16 {
    (memory[2 * address as int] as int * 256 + memory[2 * address as int + 1] as int) as u16
}

/// Memory with every even byte `high` and every odd byte `low`.
pub open spec fn filled_with_word(high: u8, low: u8) -> Seq<u8> {
    Seq::new(256, |i: int| if i % 2 == 0 { high } else { low })
}

/// The state reached and memory left after a completed 10-bit opcode.
pub open spec fn after_opcode(write_status: WriteStatus, opcode: u16, memory: Seq<u8>) -> (ChipState, Seq<u8>) {
    match (Operation::spec_from_opcode(opcode), write_status) {
        (Operation::Read { address }, _) => (
            ChipState::SendingOutput(write_status, ReadOutput { value: word_at(memory, address), current_bit: 16 }),
            memory,
        ),
        (Operation::WriteEnable, _) => (ChipState::Finished(WriteStatus::Enabled), memory),
        (Operation::WriteDisable, _) => (ChipState::Finished(WriteStatus::Disabled), memory),
        (_, WriteStatus::Disabled) => (ChipState::Finished(WriteStatus::Disabled), memory),
        (Operation::Write { address }, WriteStatus::Enabled) => (
            ChipState::ReadingData(WriteType::SingleAddress(address), WriteInput { input_bits: 0, bits_remaining: 16 }),
            memory,
        ),
        (Operation::WriteAll, WriteStatus::Enabled) => (
            ChipState::ReadingData(WriteType::All, WriteInput { input_bits: 0, bits_remaining: 16 }),
            memory,
        ),
        (Operation::Erase { address }, WriteStatus::Enabled) => (
            ChipState::Finished(WriteStatus::Enabled),
            memory.update(2 * address as int, 0).update(2 * address as int + 1, 0),
        ),
        (Operation::EraseAll, WriteStatus::Enabled) => (
            ChipState::Finished(WriteStatus::Enabled),
            Seq::new(256, |i: int| 0u8),
        ),
    }
}

impl ChipState {
    /// Counters stay in range: opcode bits remaining at most 10 and at least 1, data bits remaining
    /// at most 16 and at least 1, output bit at most 16.
    pub open spec fn wf(self) -> bool {
        match self {
            ChipState::ReadingOp(_, op) => 1 <= op.bits_remaining <= 10,
            ChipState::ReadingData(wt, w) => {
                &&& 1 <= w.bits_remaining <= 16
                &&& (wt matches WriteType::SingleAddress(a) ==> a <= 127)
            },
            ChipState::SendingOutput(_, o) => o.current_bit <= 16,
            _ => true,
        }
    }

    /// The state and memory after one rising clock edge with the given chip-select and data-in
    /// levels.
    pub open spec fn spec_clock(self, cs: bool, din: bool, memory: Seq<u8>) -> (ChipState, Seq<u8>) {
        let bit: u16 = if din { 1 } else { 0 };
        match self {
            ChipState::Standby(ws) => if cs && din {
                (ChipState::ReadingOp(ws, OpInput { input_bits: 0, bits_remaining: 10 }), memory)
            } else {
                (ChipState::Standby(ws), memory)
            },
            ChipState::ReadingOp(ws, op) => if !cs {
                (ChipState::Standby(ws), memory)
            } else {
                let remaining = (op.bits_remaining - 1) as u8;
                let bits = op.input_bits | (bit << remaining);
                if remaining > 0 {
                    (ChipState::ReadingOp(ws, OpInput { input_bits: bits, bits_remaining: remaining }), memory)
                } else {
                    after_opcode(ws, bits, memory)
                }
            },
            ChipState::ReadingData(wt, w) => if !cs {
                (ChipState::Standby(WriteStatus::Enabled), memory)
            } else {
                let remaining = (w.bits_remaining - 1) as u8;
                let bits = w.input_bits | (bit << remaining);
                if remaining > 0 {
                    (ChipState::ReadingData(wt, WriteInput { input_bits: bits, bits_remaining: remaining }), memory)
                } else {
                    let high = (bits / 256) as u8;
                    let low = (bits % 256) as u8;
                    match wt {
                        WriteType::SingleAddress(address) => (
                            ChipState::Finished(WriteStatus::Enabled),
                            memory.update(2 * address as int, high).update(2 * address as int + 1, low),
                        ),
                        WriteType::All => (ChipState::Finished(WriteStatus::Enabled), filled_with_word(high, low)),
                    }
                }
            },
            ChipState::SendingOutput(ws, out) => if !cs {
                (ChipState::Standby(ws), memory)
            } else if out.current_bit > 0 {
                (ChipState::SendingOutput(ws, ReadOutput { current_bit: (out.current_bit - 1) as u8, ..out }), memory)
            } else {
                (ChipState::Finished(ws), memory)
            },
            ChipState::Finished(ws) => if !cs {
                (ChipState::Standby(ws), memory)
            } else {
                (ChipState::Finished(ws), memory)
            },
        }
    }

    pub fn clock(self, chip_select: ChipSelect, data_in: DataIn, memory: &mut [u8; 256]) -> (r: Self)
        requires
            self.wf(),
        ensures
            (r, final(memory)@) == self.spec_clock(chip_select.0, data_in.0, old(memory)@),
            r.wf(),
    {
        match self {
            Self::Standby(write_status) => {
                if chip_select.0 && data_in.0 {
                    Self::ReadingOp(write_status, OpInput::new())
                } else {
                    Self::Standby(write_status)
                }
            },
            Self::ReadingOp(write_status, op_input) => {
                if !chip_select.0 {
                    return Self::Standby(write_status);
                }
                let mut op_input = op_input;
                op_input.bits_remaining = op_input.bits_remaining - 1;
                op_input.input_bits = op_input.input_bits | (data_in.to_bit() << op_input.bits_remaining);
                if op_input.bits_remaining > 0 {
                    return Self::ReadingOp(write_status, op_input);
                }
                let operation = Operation::from_opcode(op_input.input_bits);
                let ghost bits = op_input.input_bits;
                assert((bits & 0x007F) as u8 <= 127) by (bit_vector);
                match (operation, write_status) {
                    (Operation::Read { address }, _) => {
                        let memory_address = (2 * address) as usize;
                        let value = (memory[memory_address] as u16) * 256 + (memory[memory_address + 1] as u16);
                        Self::SendingOutput(write_status, ReadOutput::new(value))
                    },
                    (Operation::WriteEnable, _) => Self::Finished(WriteStatus::Enabled),
                    (Operation::WriteDisable, _) => Self::Finished(WriteStatus::Disabled),
                    (Operation::Write { .. }, WriteStatus::Disabled)
                    | (Operation::WriteAll, WriteStatus::Disabled)
                    | (Operation::Erase { .. }, WriteStatus::Disabled)
                    | (Operation::EraseAll, WriteStatus::Disabled) => Self::Finished(WriteStatus::Disabled),
                    (Operation::Write { address }, WriteStatus::Enabled) => {
                        Self::ReadingData(WriteType::SingleAddress(address), WriteInput::new())
                    },
                    (Operation::WriteAll, WriteStatus::Enabled) => {
                        Self::ReadingData(WriteType::All, WriteInput::new())
                    },
                    (Operation::Erase { address }, WriteStatus::Enabled) => {
                        let memory_address = (2 * address) as usize;
                        memory[memory_address] = 0;
                        memory[memory_address + 1] = 0;
                        Self::Finished(WriteStatus::Enabled)
                    },
                    (Operation::EraseAll, WriteStatus::Enabled) => {
                        *memory = [0; 256];
                        assert(memory@ =~= Seq::new(256, |i: int| 0u8));
                        Self::Finished(WriteStatus::Enabled)
                    },
                }
            },
            Self::ReadingData(write_type, write_input) => {
                if !chip_select.0 {
                    return Self::Standby(WriteStatus::Enabled);
                }
                let mut write_input = write_input;
                write_input.bits_remaining = write_input.bits_remaining - 1;
                write_input.input_bits = write_input.input_bits | (data_in.to_bit() << write_input.bits_remaining);
                if write_input.bits_remaining > 0 {
                    return Self::ReadingData(write_type, write_input);
                }
                let value = write_input.input_bits;
                let high = (value / 256) as u8;
                let low = (value % 256) as u8;
                match write_type {
                    WriteType::SingleAddress(address) => {
                        let memory_address = (2 * address) as usize;
                        memory[memory_address] = high;
                        memory[memory_address + 1] = low;
                        Self::Finished(WriteStatus::Enabled)
                    },
                    WriteType::All => {
                        let ghost old_mem = memory@;
                        let mut i: usize = 0;
                        while i < 256
                            invariant
                                0 <= i <= 256,
                                forall|j: int| 0 <= j < i ==> memory@[j] == (if j % 2 == 0 { high } else { low }),
                            decreases 256 - i,
                        {
                            memory[i] = if i % 2 == 0 { high } else { low };
                            i = i + 1;
                        }
                        assert(memory@ =~= filled_with_word(high, low));
                        Self::Finished(WriteStatus::Enabled)
                    },
                }
            },
            Self::SendingOutput(write_status, read_output) => {
                if !chip_select.0 {
                    return Self::Standby(write_status);
                }
                if read_output.current_bit > 0 {
                    let mut read_output = read_output;
                    read_output.current_bit = read_output.current_bit - 1;
                    Self::SendingOutput(write_status, read_output)
                } else {
                    Self::Finished(write_status)
                }
            },
            Self::Finished(write_status) => {
                if !chip_select.0 {
                    Self::Standby(write_status)
                } else {
                    Self::Finished(write_status)
                }
            },
        }
    }
}

/// The MBC7 mapper's 93LC56 EEPROM: 256 bytes of memory behind a serial protocol.
#[derive(Debug, Clone, Copy)]
pub struct Mbc7Eeprom {
    pub memory: [u8; 256],
    pub state: ChipState,
    pub last_clock: Clock,
}

impl Mbc7Eeprom {
    pub open spec fn wf(self) -> bool {
        self.state.wf()
    }

    /// A chip in standby with writes disabled, holding `loaded_ram` when it has exactly 256 bytes
    /// and zeros otherwise.
    pub fn new(loaded_ram: Option<&Vec<u8>>) -> (r: Self)
        ensures
            r.wf(),
            r.state == ChipState::Standby(WriteStatus::Disabled),
            r.last_clock == Clock(false),
            r.memory@ == (match loaded_ram {
                Some(ram) => if ram@.len() == 256 { ram@ } else { Seq::new(256, |i: int| 0u8) },
                None => Seq::new(256, |i: int| 0u8),
            }),
    {
        let mut memory = [0u8; 256];
        assert(memory@ =~= Seq::new(256, |i: int| 0u8));
        match loaded_ram {
            Some(loaded_ram) => {
                if loaded_ram.len() == 256 {
                    let mut i: usize = 0;
                    while i < 256
                        invariant
                            0 <= i <= 256,
                            loaded_ram@.len() == 256,
                            forall|j: int| 0 <= j < i ==> memory@[j] == loaded_ram@[j],
                        decreases 256 - i,
                    {
                        memory[i] = loaded_ram[i];
                        i = i + 1;
                    }
                    assert(memory@ =~= loaded_ram@);
                }
            },
            None => {},
        }
        Self { memory, state: ChipState::Standby(WriteStatus::Disabled), last_clock: Clock(false) }
    }

    pub open spec fn spec_read(self) -> u8 {
        let data_out = match self.state {
            ChipState::SendingOutput(_, out) => out.spec_output(),
            _ => true,
        };
        0xBE | ((if self.last_clock.0 { 1u8 } else { 0u8 }) << 6u8) | (if data_out { 1u8 } else { 0u8 })
    }

    /// The register byte seen when reading the EEPROM: the last clock level in bit 6 and the
    /// data-out line in bit 0, other bits high except bit 6's neighbours as wired.
    pub fn handle_read(&self) -> (r: u8)
        ensures
            r == self.spec_read(),
    {
        let data_out = match self.state {
            ChipState::SendingOutput(_, read_output) => read_output.current_output(),
            _ => DataOut(true),
        };
        0xBE | (self.last_clock.to_bit() << 6) | data_out.to_bit()
    }

    pub fn handle_write(&mut self, value: u8)
        requires
            old(self).wf(),
        ensures
            final(self).wf(),
            final(self).last_clock == Clock(value & 0x40 != 0),
            !old(self).last_clock.0 && (value & 0x40 != 0) ==> (final(self).state, final(self).memory@)
                == old(self).state.spec_clock(value & 0x80 != 0, value & 0x02 != 0, old(self).memory@),
            !(!old(self).last_clock.0 && (value & 0x40 != 0)) ==> final(self).memory@ == old(self).memory@,
            !(!old(self).last_clock.0 && (value & 0x40 != 0)) && (value & 0x80 == 0) ==> final(self).state
                == (match old(self).state {
                ChipState::ReadingData(..) => ChipState::Standby(WriteStatus::Enabled),
                ChipState::ReadingOp(ws, _) => ChipState::Standby(ws),
                ChipState::SendingOutput(ws, _) => ChipState::Standby(ws),
                ChipState::Finished(ws) => ChipState::Standby(ws),
                ChipState::Standby(ws) => ChipState::Standby(ws),
            }),
            !(!old(self).last_clock.0 && (value & 0x40 != 0)) && (value & 0x80 != 0) ==> final(self).state
                == old(self).state,
    {
        let chip_select = ChipSelect::from_register_byte(value);
        let clock = Clock::from_register_byte(value);
        let data_in = DataIn::from_register_byte(value);
        if !self.last_clock.0 && clock.0 {
            let state = self.state;
            self.state = state.clock(chip_select, data_in, &mut self.memory);
        } else if !chip_select.0 {
            // CS going low sets the chip to standby even if it hasn't clocked
            match self.state {
                ChipState::ReadingOp(write_status, ..)
                | ChipState::SendingOutput(write_status, ..)
                | ChipState::Finished(write_status) => {
                    self.state = ChipState::Standby(write_status);
                },
                ChipState::ReadingData(..) => {
                    self.state = ChipState::Standby(WriteStatus::Enabled);
                },
                _ => {},
            }
        }
        self.last_clock = clock;
    }

    /// The EEPROM's raw memory.
    pub fn raw_memory(&self) -> (r: &[u8; 256])
        ensures
            r@ == self.memory@,
    {
        &self.memory
    }
}

} // verus!

