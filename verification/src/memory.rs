pub mod address;
pub mod ioregisters;
pub mod mapper;

use crate::cpu::ExecutionMode;
use crate::memory::ioregisters::{IoRegisters, IoRegistersView};
use crate::memory::mapper::{MapperFeatures, MapperType, Mapper, RamMapResult, RealTimeClock};
use crate::ppu::{Mode as PpuMode, PpuAccess, PpuState};
use vstd::prelude::*;

verus! {

broadcast use crate::memory::ioregisters::lemma_io_registers_wf;

/// Why a ROM image could not be loaded as a cartridge.
#[derive(Debug, Clone, PartialEq, Eq)]
pub enum CartridgeLoadError {
    /// The ROM is shorter than the 0x150-byte header.
    HeaderTooShort { header_len: usize },
    /// The header's mapper byte names no supported mapper.
    InvalidMapper { mapper_byte: u8 },
    /// The header's RAM size code is not 0 or 2-5.
    InvalidRamSize { ram_size_code: u8 },
    /// A file could not be read.
    FileReadError { file_path: String, message: String },
    /// A path had no usable directory or file name.
    PathError { file_path: String },
}

/// Persisted cartridge RAM: present when the cartridge's RAM is backed by a save file, holding
/// that file's bytes when it already exists.
#[derive(Debug, Clone, PartialEq, Eq)]
pub struct SaveFile {
    pub ram: Option<Vec<u8>>,
}

/// Copy a byte vector.
pub fn copy_bytes(v: &Vec<u8>) -> (r: Vec<u8>)
    ensures
        r@ == v@,
{
    let mut r: Vec<u8> = Vec::new();
    let mut i: usize = 0;
    while i < v.len()
        invariant
            0 <= i <= v@.len(),
            r@ == v@.subrange(0, i as int),
        decreases v@.len() - i,
    {
        r.push(v[i]);
        i = i + 1;
    }
    assert(r@ =~= v@);
    r
}

/// The external RAM size that a header RAM size code declares, if the code is valid.
pub open spec fn spec_ram_size(code: u8) -> Option<usize> {
    if code == 0x00 {
        Some(0)
    } else if code == 0x02 {
        Some(8192)
    } else if code == 0x03 {
        Some(32768)
    } else if code == 0x04 {
        Some(131072)
    } else if code == 0x05 {
        Some(65536)
    } else {
        None
    }
}

fn ram_size_for_code(code: u8) -> (r: Option<usize>)
    ensures
        r == spec_ram_size(code),
{
    match code {
        0x00 => Some(0),
        0x02 => Some(8192),  // 8 KB
        0x03 => Some(32768),  // 32 KB
        0x04 => Some(131072),  // 128 KB
        0x05 => Some(65536),  // 64 KB
        _ => None,
    }
}

/// The abstract state of a cartridge.
pub struct CartridgeView {
    pub rom: Seq<u8>,
    pub mapper: Mapper,
    pub ram: Seq<u8>,
    pub has_battery: bool,
    pub ram_dirty: bool,
}

impl CartridgeView {
    /// The byte the CPU reads at a ROM address; 0xFF where the mapped address lies past the end
    /// of the ROM image.
    pub open spec fn read_rom(self, address: u16) -> u8 {
        let m = self.mapper.spec_map_rom(address);
        if m < self.rom.len() {
            self.rom[m as int]
        } else {
            0xFF
        }
    }

    /// The cartridge after a CPU write to a ROM address (a mapper register write).
    pub open spec fn write_rom(self, address: u16, value: u8) -> CartridgeView {
        CartridgeView { mapper: self.mapper.spec_write_rom(address, value), ..self }
    }

    /// The byte the CPU reads at a cartridge RAM address: the RAM byte, the mapped register, or
    /// 0xFF when RAM is disabled or the address lies past the end of RAM.
    pub open spec fn read_ram(self, address: u16) -> u8 {
        match self.mapper.spec_map_ram(address) {
            RamMapResult::RamAddress(m) => if m < self.ram.len() {
                self.ram[m as int]
            } else {
                0xFF
            },
            RamMapResult::MapperRegister => match self.mapper.spec_read_register() {
                Some(v) => v,
                None => 0xFF,
            },
            RamMapResult::Unmapped => 0xFF,
        }
    }

    /// The cartridge after a CPU write to a cartridge RAM address; a RAM write to a
    /// battery-backed cartridge marks the RAM as needing to be saved.
    pub open spec fn write_ram(self, address: u16, value: u8) -> CartridgeView {
        match self.mapper.spec_map_ram(address) {
            RamMapResult::RamAddress(m) => if m < self.ram.len() {
                CartridgeView {
                    ram: self.ram.update(m as int, value),
                    ram_dirty: self.ram_dirty || self.has_battery,
                    ..self
                }
            } else {
                self
            },
            RamMapResult::MapperRegister => CartridgeView {
                mapper: self.mapper.spec_write_register(value),
                ..self
            },
            RamMapResult::Unmapped => self,
        }
    }

    /// Whether the ROM header declares Game Boy Color support.
    pub open spec fn supports_cgb(self) -> bool {
        self.rom[0x0143] & 0x80 != 0
    }
}

/// What a save file holds, as plain values: whether there is one, and the RAM it stores.
pub open spec fn saved_ram_view(save: Option<SaveFile>) -> Option<Option<Seq<u8>>> {
    match save {
        Some(s) => Some(
            match s.ram {
                Some(v) => Some(v@),
                None => None,
            },
        ),
        None => None,
    }
}

/// A game cartridge: ROM, the mapper chip and external RAM.
pub struct Cartridge {
    rom: Vec<u8>,
    mapper: Mapper,
    ram: Vec<u8>,
    has_battery: bool,
    ram_dirty: bool,
}

impl View for Cartridge {
    type V = CartridgeView;

    closed spec fn view(&self) -> CartridgeView {
        CartridgeView {
            rom: self.rom@,
            mapper: self.mapper,
            ram: self.ram@,
            has_battery: self.has_battery,
            ram_dirty: self.ram_dirty,
        }
    }
}

impl Cartridge {
    #[verifier::type_invariant]
    spec fn inv(self) -> bool {
        self.mapper.wf()
    }

    pub closed spec fn spec_mapper_wf(&self) -> bool {
        self.mapper.wf()
    }

    /// The cartridge a ROM image and an optional save file load as, or the reason they do not:
    /// a ROM shorter than its header, an unknown mapper byte, or an invalid RAM size code for a
    /// cartridge with RAM whose saved RAM is not restored.
    pub open spec fn load_result(rom: Seq<u8>, save: Option<Option<Seq<u8>>>) -> Result<
        (MapperType, MapperFeatures, Seq<u8>, bool),
        CartridgeLoadError,
    > {
        if rom.len() < 0x0150 {
            Err(CartridgeLoadError::HeaderTooShort { header_len: rom.len() as usize })
        } else {
            match mapper::spec_parse_byte(rom[0x0147]) {
                None => Err(CartridgeLoadError::InvalidMapper { mapper_byte: rom[0x0147] }),
                Some((mapper_type, features)) => {
                    let loaded = match save {
                        Some(Some(ram)) => Some(ram),
                        _ => None,
                    };
                    let has_battery_file = features.has_battery && save is Some;
                    if features.has_ram && features.has_battery && loaded is Some {
                        Ok((mapper_type, features, loaded.unwrap(), has_battery_file))
                    } else if features.has_ram {
                        match spec_ram_size(rom[0x0149]) {
                            Some(size) => Ok(
                                (
                                    mapper_type,
                                    features,
                                    Seq::new(size as nat, |i: int| 0u8),
                                    has_battery_file,
                                ),
                            ),
                            None => Err(
                                CartridgeLoadError::InvalidRamSize { ram_size_code: rom[0x0149] },
                            ),
                        }
                    } else {
                        Ok((mapper_type, features, Seq::<u8>::empty(), has_battery_file))
                    }
                },
            }
        }
    }

    /// Create a new Cartridge value from the given ROM, restoring saved RAM from `save` when the
    /// cartridge has battery-backed RAM.
    ///
    /// This function will return an error in the following scenarios:
    /// * The ROM is too short (must be at least 0x150 bytes)
    /// * The mapper byte in the cartridge header is invalid (or not implemented yet)
    /// * The RAM size byte in the cartridge header is invalid
    #[verifier::rlimit(40)]
    pub fn new(rom: Vec<u8>, save: Option<SaveFile>) -> (r: Result<Self, CartridgeLoadError>)
        ensures
            ({
                let save_view = saved_ram_view(save);
                match (r, Self::load_result(rom@, save_view)) {
                    (Ok(c), Ok((mapper_type, features, ram, battery))) => {
                        &&& c@.rom == rom@
                        &&& c@.ram == ram
                        &&& c@.has_battery == battery
                        &&& !c@.ram_dirty
                        &&& mapper_type != MapperType::MBC7 && !(mapper_type == MapperType::MBC3
                            && features.has_rtc) ==> c@.mapper == Mapper::spec_new(
                            mapper_type,
                            features,
                            None,
                            rom@.len() as u32,
                            ram.len() as u32,
                            0,
                        )
                        &&& mapper_type == MapperType::MBC3 && features.has_rtc ==> exists|now: u64|
                            c@.mapper == #[trigger] Mapper::spec_new(
                                mapper_type,
                                features,
                                None,
                                rom@.len() as u32,
                                ram.len() as u32,
                                now,
                            )
                        &&& mapper_type == MapperType::MBC7 ==> (c@.mapper matches Mapper::MBC7 {
                            eeprom,
                            rom_bank_bit_mask,
                            rom_bank_number,
                        } && rom_bank_bit_mask == mapper::rom_mask_for(rom@.len() as u32)
                            && rom_bank_number == 1 && eeprom.memory@ == mapper::initial_eeprom_memory(
                            match save_view {
                                Some(Some(v)) => Some(v),
                                _ => None,
                            },
                        ))
                    },
                    (Err(e), Err(expected)) => e == expected,
                    _ => false,
                }
            }),
    {
        let ghost save_view = saved_ram_view(save);
        if rom.len() < 0x0150 {
            return Err(CartridgeLoadError::HeaderTooShort { header_len: rom.len() });
        }
        let mapper_byte = rom[address::MAPPER as usize];
        let (mapper_type, features) = match mapper::parse_byte(mapper_byte) {
            Some(parsed) => parsed,
            None => {
                return Err(CartridgeLoadError::InvalidMapper { mapper_byte });
            },
        };
        let has_save = save.is_some();
        let loaded: Option<Vec<u8>> = match save {
            Some(s) => s.ram,
            None => None,
        };
        let ram: Vec<u8> = if features.has_ram && features.has_battery && loaded.is_some() {
            match &loaded {
                Some(v) => copy_bytes(v),
                None => Vec::new(),
            }
        } else if features.has_ram {
            let ram_size_code = rom[address::RAM_SIZE as usize];
            match ram_size_for_code(ram_size_code) {
                Some(size) => {
                    let v = vec![0u8; size];
                    assert(v@ =~= Seq::new(size as nat, |i: int| 0u8));
                    v
                },
                None => {
                    return Err(CartridgeLoadError::InvalidRamSize { ram_size_code });
                },
            }
        } else {
            Vec::new()
        };
        let has_battery = features.has_battery && has_save;
        let mapper = Mapper::new(
            mapper_type,
            features,
            None,
            rom.len() as u32,
            ram.len() as u32,
            loaded.as_ref(),
        );
        let c = Self { rom, mapper, ram, has_battery, ram_dirty: false };
        assert(Self::load_result(c.rom@, save_view) == Ok::<
            (MapperType, MapperFeatures, Seq<u8>, bool),
            CartridgeLoadError,
        >((mapper_type, features, c.ram@, has_battery)));
        Ok(c)
    }

    /// Read a value from the given ROM address (0x0000-0x7FFF).
    pub fn read_rom_address(&self, address: u16) -> (r: u8)
        requires
            address <= address::ROM_END,
        ensures
            r == self@.read_rom(address),
    {
        let mapped_address = self.mapper.map_rom_address(address);
        if (mapped_address as usize) < self.rom.len() {
            self.rom[mapped_address as usize]
        } else {
            0xFF
        }
    }

    /// Write a value to the given ROM address (0x0000-0x7FFF), which in reality sets a cartridge
    /// register.
    pub fn write_rom_address(&mut self, address: u16, value: u8)
        requires
            address <= address::ROM_END,
        ensures
            final(self)@ == old(self)@.write_rom(address, value),
    {
        proof {
            use_type_invariant(&*self);
        }
        let mut mapper = self.mapper;
        mapper.write_rom_address(address, value);
        self.mapper = mapper;
    }

    /// Read a value from the given cartridge RAM address. Returns 0xFF if the address is not valid.
    pub fn read_ram_address(&self, address: u16) -> (r: u8)
        requires
            address::EXTERNAL_RAM_START <= address <= address::EXTERNAL_RAM_END,
        ensures
            r == self@.read_ram(address),
    {
        match self.mapper.map_ram_address(address) {
            RamMapResult::RamAddress(mapped_address) => {
                if (mapped_address as usize) < self.ram.len() {
                    self.ram[mapped_address as usize]
                } else {
                    0xFF
                }
            },
            RamMapResult::MapperRegister => match self.mapper.read_ram_addressed_register() {
                Some(v) => v,
                None => 0xFF,
            },
            RamMapResult::Unmapped => 0xFF,
        }
    }

    /// Write a value to the given cartridge RAM address. Does nothing if the address is not valid.
    pub fn write_ram_address(&mut self, address: u16, value: u8)
        requires
            address::EXTERNAL_RAM_START <= address <= address::EXTERNAL_RAM_END,
        ensures
            final(self)@ == old(self)@.write_ram(address, value),
    {
        proof {
            use_type_invariant(&*self);
        }
        match self.mapper.map_ram_address(address) {
            RamMapResult::RamAddress(mapped_address) => {
                if (mapped_address as usize) < self.ram.len() {
                    let mut ram = Vec::new();
                    std::mem::swap(&mut ram, &mut self.ram);
                    ram.set(mapped_address as usize, value);
                    self.ram = ram;
                    if self.has_battery {
                        self.ram_dirty = true;
                    }
                }
            },
            RamMapResult::MapperRegister => {
                let mut mapper = self.mapper;
                mapper.write_ram_addressed_register(value);
                self.mapper = mapper;
            },
            RamMapResult::Unmapped => {},
        }
    }

    /// The RAM bytes to write to the save file, when the RAM is battery-backed and has changed
    /// since it was last saved.
    pub fn external_ram_to_persist(&self) -> (r: Option<&Vec<u8>>)
        ensures
            (r is Some) == (self@.has_battery && self@.ram_dirty),
            r is Some ==> r.unwrap()@ == self@.ram,
    {
        if self.has_battery && self.ram_dirty {
            Some(&self.ram)
        } else {
            None
        }
    }

    /// Record that the RAM has been written to the save file.
    pub fn mark_external_ram_persisted(&mut self)
        ensures
            final(self)@ == (CartridgeView { ram_dirty: false, ..old(self)@ }),
    {
        proof {
            use_type_invariant(&*self);
        }
        self.ram_dirty = false;
    }

    /// Bring the mapper's real-time clock (if any) up to time `now` (nanoseconds since the Unix
    /// epoch).
    pub fn update_rtc_at(&mut self, now: u64)
        ensures
            final(self)@ == (CartridgeView { mapper: old(self)@.mapper.spec_update_rtc(now), ..old(self)@ }),
    {
        proof {
            use_type_invariant(&*self);
        }
        let mut mapper = self.mapper;
        mapper.update_rtc_at(now);
        self.mapper = mapper;
    }

    /// The mapper's real-time clock, if it has one.
    pub fn get_clock(&self) -> (r: Option<&RealTimeClock>)
        ensures
            (r is Some) == (self@.mapper matches Mapper::MBC3 { real_time_clock: Some(_), .. }),
    {
        self.mapper.get_clock()
    }

    /// Whether the ROM header declares Game Boy Color support.
    pub fn supports_cgb_mode(&self) -> (r: bool)
        ensures
            r == (self@.rom.len() > 0x0143 && self@.supports_cgb()),
    {
        self.rom.len() > address::CGB_SUPPORT as usize
            && self.rom[address::CGB_SUPPORT as usize] & 0x80 != 0
    }

    /// A header-only Game Boy Color ROM (0x150 bytes, CGB flag set, no mapper, no RAM).
    pub fn new_cgb_test() -> (r: Self)
        ensures
            r@.rom.len() == 0x150,
            r@.mapper is NoMapper,
            r@.ram.len() == 0,
    {
        let mut rom = vec![0u8; 0x0150];
        rom.set(address::CGB_SUPPORT as usize, 0x80);
        assert(rom@[0x0147] == 0);
        let c = Self::new(rom, None);
        match c {
            Ok(c) => c,
            Err(_) => {
                // unreachable: the ROM is long enough, names no mapper and has no RAM
                Self { rom: Vec::new(), mapper: Mapper::NoMapper, ram: Vec::new(), has_battery: false, ram_dirty: false }
            },
        }
    }
}

/// Which of the two CGB VRAM banks to read.
#[derive(Debug, Clone, Copy, PartialEq, Eq, Structural)]
pub enum VramBank {
    Bank0,
    Bank1,
}

/// Whether the CPU may access an address while the PPU is in the given state: only HRAM during
/// an OAM DMA transfer, no OAM while the PPU scans OAM or renders, and no VRAM while it renders.
pub open spec fn cpu_access_allowed(address: u16, ppu: PpuAccess) -> bool {
    if ppu.oam_dma_active && !(0xFF80 <= address <= 0xFFFE) {
        false
    } else if ppu.enabled && (ppu.mode == PpuMode::ScanningOAM || ppu.mode == PpuMode::RenderingScanline)
        && 0xFE00 <= address <= 0xFE9F {
        false
    } else {
        !(ppu.enabled && ppu.mode == PpuMode::RenderingScanline && 0x8000 <= address <= 0x9FFF)
    }
}

/// The abstract state of the whole CPU-visible memory map.
pub struct AddressSpaceView {
    pub execution_mode: ExecutionMode,
    pub cartridge: CartridgeView,
    pub vram: Seq<u8>,
    pub working_ram: Seq<u8>,
    pub oam: Seq<u8>,
    pub io: IoRegistersView,
    pub hram: Seq<u8>,
    pub ie: u8,
}

impl AddressSpaceView {
    pub open spec fn wf(self) -> bool {
        &&& self.vram.len() == 16384
        &&& self.working_ram.len() == 32768
        &&& self.oam.len() == 160
        &&& self.hram.len() == 127
        &&& self.io.wf()
    }

    /// The index into VRAM of a VRAM address: the CGB bank selects which 8 KiB half.
    pub open spec fn vram_index(self, address: u16) -> int {
        match self.execution_mode {
            ExecutionMode::GameBoy => address - 0x8000,
            ExecutionMode::GameBoyColor => self.io.cgb_vram_bank() * 8192 + (address - 0x8000),
        }
    }

    /// The index into working RAM of a working RAM address: in CGB mode 0xD000-0xDFFF shows the
    /// bank selected by SVBK.
    pub open spec fn working_ram_index(self, address: u16) -> int {
        match self.execution_mode {
            ExecutionMode::GameBoy => address - 0xC000,
            ExecutionMode::GameBoyColor => if address <= 0xCFFF {
                address - 0xC000
            } else {
                self.io.cgb_working_ram_bank() * 4096 + (address - 0xD000)
            },
        }
    }

    /// The byte at an address, ignoring PPU access restrictions.
    pub open spec fn read_unchecked(self, address: u16) -> u8 {
        if address <= 0x7FFF {
            self.cartridge.read_rom(address)
        } else if address <= 0x9FFF {
            self.vram[self.vram_index(address)]
        } else if address <= 0xBFFF {
            self.cartridge.read_ram(address)
        } else if address <= 0xDFFF {
            self.working_ram[self.working_ram_index(address)]
        } else if address <= 0xFDFF {
            self.working_ram[self.working_ram_index((address - 0x2000) as u16)]
        } else if address <= 0xFE9F {
            self.oam[address - 0xFE00]
        } else if address <= 0xFEFF {
            0xFF
        } else if address <= 0xFF7F {
            self.io.read_address(address)
        } else if address <= 0xFFFE {
            self.hram[address - 0xFF80]
        } else {
            self.ie
        }
    }

    /// The memory after writing a byte at an address, ignoring PPU access restrictions.
    pub open spec fn write_unchecked(self, address: u16, value: u8) -> AddressSpaceView {
        if address <= 0x7FFF {
            AddressSpaceView { cartridge: self.cartridge.write_rom(address, value), ..self }
        } else if address <= 0x9FFF {
            AddressSpaceView { vram: self.vram.update(self.vram_index(address), value), ..self }
        } else if address <= 0xBFFF {
            AddressSpaceView { cartridge: self.cartridge.write_ram(address, value), ..self }
        } else if address <= 0xDFFF {
            AddressSpaceView {
                working_ram: self.working_ram.update(self.working_ram_index(address), value),
                ..self
            }
        } else if address <= 0xFDFF {
            AddressSpaceView {
                working_ram: self.working_ram.update(
                    self.working_ram_index((address - 0x2000) as u16),
                    value,
                ),
                ..self
            }
        } else if address <= 0xFE9F {
            AddressSpaceView { oam: self.oam.update(address - 0xFE00, value), ..self }
        } else if address <= 0xFEFF {
            self
        } else if address <= 0xFF7F {
            AddressSpaceView { io: self.io.write_address(address, value), ..self }
        } else if address <= 0xFFFE {
            AddressSpaceView { hram: self.hram.update(address - 0xFF80, value), ..self }
        } else {
            AddressSpaceView { ie: value, ..self }
        }
    }

    /// The byte the CPU reads at an address: 0xFF where the PPU blocks the access.
    pub open spec fn read(self, address: u16, ppu: PpuAccess) -> u8 {
        if cpu_access_allowed(address, ppu) {
            self.read_unchecked(address)
        } else {
            0xFF
        }
    }

    /// The memory after the CPU writes a byte; writes the PPU blocks are ignored.
    pub open spec fn write(self, address: u16, value: u8, ppu: PpuAccess) -> AddressSpaceView {
        if cpu_access_allowed(address, ppu) {
            self.write_unchecked(address, value)
        } else {
            self
        }
    }

    /// The little-endian 16-bit value the CPU reads at an address and the next one (wrapping).
    pub open spec fn read_u16(self, address: u16, ppu: PpuAccess) -> u16 {
        let lsb = self.read(address, ppu);
        let msb = self.read(((address as int + 1) % 0x10000) as u16, ppu);
        (msb as int * 256 + lsb as int) as u16
    }

    /// The memory after the CPU writes a little-endian 16-bit value at an address and the next
    /// one (wrapping).
    pub open spec fn write_u16(self, address: u16, value: u16, ppu: PpuAccess) -> AddressSpaceView {
        self.write(address, (value % 256) as u8, ppu).write(
            ((address as int + 1) % 0x10000) as u16,
            (value / 256) as u8,
            ppu,
        )
    }

    /// The byte of a VRAM address in the given bank, whichever bank VBK selects.
    pub open spec fn vram_bank_byte(self, address: u16, bank: VramBank) -> u8 {
        self.vram[(address - 0x8000) + (if bank == VramBank::Bank1 {
            8192int
        } else {
            0
        })]
    }

    /// The VRAM bank the CPU sees: bank 1 only on a Game Boy Color with VBK bit 0 set.
    pub open spec fn cpu_vram_bank(self) -> VramBank {
        if self.execution_mode == ExecutionMode::GameBoyColor && self.io.byte(
            ioregisters::IoRegister::VBK,
        ) & 0x01 == 1 {
            VramBank::Bank1
        } else {
            VramBank::Bank0
        }
    }

    /// The memory with the IO register file replaced.
    pub open spec fn with_io(self, io: IoRegistersView) -> AddressSpaceView {
        AddressSpaceView { io, ..self }
    }
}

/// The CPU-visible memory map: cartridge, VRAM, working RAM, OAM, I/O registers, HRAM and IE.
pub struct AddressSpace {
    execution_mode: ExecutionMode,
    cartridge: Cartridge,
    vram: [u8; 16384],
    working_ram: [u8; 32768],
    oam: [u8; 160],
    io_registers: IoRegisters,
    hram: [u8; 127],
    ie_register: u8,
}

impl View for AddressSpace {
    type V = AddressSpaceView;

    closed spec fn view(&self) -> AddressSpaceView {
        AddressSpaceView {
            execution_mode: self.execution_mode,
            cartridge: self.cartridge@,
            vram: self.vram@,
            working_ram: self.working_ram@,
            oam: self.oam@,
            io: self.io_registers@,
            hram: self.hram@,
            ie: self.ie_register,
        }
    }
}

/// The memory map's arrays always have their fixed lengths.
pub broadcast proof fn lemma_address_space_wf(a: &AddressSpace)
    ensures
        #[trigger] a@.wf(),
{
}

impl AddressSpace {
    /// A memory map with the given cartridge, all RAM zeroed and the I/O registers at their
    /// power-on values.
    pub fn new(cartridge: Cartridge, execution_mode: ExecutionMode) -> (r: Self)
        ensures
            r@.execution_mode == execution_mode,
            r@.cartridge == cartridge@,
            r@.vram == Seq::new(16384, |i: int| 0u8),
            r@.working_ram == Seq::new(32768, |i: int| 0u8),
            r@.oam == Seq::new(160, |i: int| 0u8),
            r@.hram == Seq::new(127, |i: int| 0u8),
            r@.io.contents == ioregisters::initial_contents(execution_mode),
            r@.io.execution_mode == execution_mode,
            r@.io.dirty_bits == ioregisters::initial_dirty_bits(),
            r@.io.ppu_mode == PpuMode::VBlank,
            r@.ie == 0,
    {
        let r = Self {
            execution_mode,
            cartridge,
            vram: [0; 16384],
            working_ram: [0; 32768],
            oam: [0; 160],
            io_registers: IoRegisters::new(execution_mode),
            hram: [0; 127],
            ie_register: 0,
        };
        assert(r@.vram =~= Seq::new(16384, |i: int| 0u8));
        assert(r@.working_ram =~= Seq::new(32768, |i: int| 0u8));
        assert(r@.oam =~= Seq::new(160, |i: int| 0u8));
        assert(r@.hram =~= Seq::new(127, |i: int| 0u8));
        r
    }

    fn is_cpu_access_allowed(address: u16, ppu_state: &PpuState) -> (r: bool)
        ensures
            r == cpu_access_allowed(address, ppu_state@.access()),
    {
        // Non-HRAM access not allowed while an OAM DMA transfer is active, even if the PPU is disabled
        if ppu_state.oam_dma_status().is_some() && !(address::HRAM_START <= address && address
            <= address::HRAM_END) {
            return false;
        }
        let mode = ppu_state.mode();
        // OAM access not allowed while PPU is scanning OAM or rendering a scanline
        if ppu_state.enabled() && (matches!(mode, PpuMode::ScanningOAM) || matches!(mode, PpuMode::RenderingScanline))
            && (address::OAM_START <= address && address <= address::OAM_END) {
            return false;
        }
        // VRAM access not allowed while PPU is rendering a scanline
        !(ppu_state.enabled() && matches!(mode, PpuMode::RenderingScanline) && (address::VRAM_START
            <= address && address <= address::VRAM_END))
    }

    /// Read the value at the given address from the perspective of the CPU. Returns 0xFF if the
    /// CPU is not able to access the given address because of PPU state.
    pub fn read_address_u8(&self, address: u16, ppu_state: &PpuState) -> (r: u8)
        ensures
            r == self@.read(address, ppu_state@.access()),
    {
        if !Self::is_cpu_access_allowed(address, ppu_state) {
            return 0xFF;
        }
        self.read_address_u8_no_access_check(address)
    }

    fn map_vram_address(&self, address: u16) -> (r: usize)
        requires
            address::VRAM_START <= address <= address::VRAM_END,
        ensures
            r == self@.vram_index(address),
            r < 16384,
    {
        match self.execution_mode {
            ExecutionMode::GameBoy => (address - address::VRAM_START) as usize,
            ExecutionMode::GameBoyColor => {
                self.io_registers.get_cgb_vram_bank() * 8192 + (address - address::VRAM_START) as usize
            },
        }
    }

    fn map_working_ram_address(&self, address: u16) -> (r: usize)
        requires
            address::WORKING_RAM_START <= address <= address::WORKING_RAM_END,
        ensures
            r == self@.working_ram_index(address),
            r < 32768,
    {
        match self.execution_mode {
            ExecutionMode::GameBoy => (address - address::WORKING_RAM_START) as usize,
            ExecutionMode::GameBoyColor => {
                if address <= address::CGB_BANK_0_WORKING_RAM_END {
                    (address - address::WORKING_RAM_START) as usize
                } else {
                    let ram_bank_number = self.io_registers.get_cgb_working_ram_bank();
                    ram_bank_number * 4096 + (address - address::CGB_BANKED_WORKING_RAM_START) as usize
                }
            },
        }
    }

    fn read_address_u8_no_access_check(&self, address: u16) -> (r: u8)
        ensures
            r == self@.read_unchecked(address),
    {
        if address <= address::ROM_END {
            self.cartridge.read_rom_address(address)
        } else if address <= address::VRAM_END {
            self.vram[self.map_vram_address(address)]
        } else if address <= address::EXTERNAL_RAM_END {
            self.cartridge.read_ram_address(address)
        } else if address <= address::WORKING_RAM_END {
            self.working_ram[self.map_working_ram_address(address)]
        } else if address <= address::ECHO_RAM_END {
            self.working_ram[self.map_working_ram_address(address - address::ECHO_RAM_START + address::WORKING_RAM_START)]
        } else if address <= address::OAM_END {
            self.oam[(address - address::OAM_START) as usize]
        } else if address <= address::UNUSABLE_END {
            0xFF
        } else if address <= address::IO_REGISTERS_END {
            self.io_registers.read_address(address)
        } else if address <= address::HRAM_END {
            self.hram[(address - address::HRAM_START) as usize]
        } else {
            self.ie_register
        }
    }

    /// Read the OAM/VRAM value at the given address from the perspective of the PPU, bypassing the
    /// CPU access check (VRAM bank 0).
    pub fn ppu_read_address_u8(&self, address: u16) -> (r: u8)
        requires
            (address::OAM_START <= address <= address::OAM_END) || (address::VRAM_START <= address
                <= address::VRAM_END),
        ensures
            address::OAM_START <= address ==> r == self@.oam[address - 0xFE00],
            address <= address::VRAM_END ==> r == self@.vram[address - 0x8000],
    {
        if address::OAM_START <= address {
            self.oam[(address - address::OAM_START) as usize]
        } else {
            self.vram[(address - address::VRAM_START) as usize]
        }
    }

    /// Read the value at the given address and the following address as a little-endian 16-bit
    /// value.
    pub fn read_address_u16(&self, address: u16, ppu_state: &PpuState) -> (r: u16)
        ensures
            r == self@.read_u16(address, ppu_state@.access()),
    {
        let lsb = self.read_address_u8(address, ppu_state);
        let msb = self.read_address_u8(address.wrapping_add(1), ppu_state);
        (msb as u16) * 256 + (lsb as u16)
    }

    /// Assign a value to the given address from the perspective of the CPU. The write is ignored
    /// if the CPU is not allowed to access the given address due to PPU state.
    pub fn write_address_u8(&mut self, address: u16, value: u8, ppu_state: &PpuState)
        ensures
            final(self)@ == old(self)@.write(address, value, ppu_state@.access()),
    {
        if !Self::is_cpu_access_allowed(address, ppu_state) {
            return;
        }
        self.write_address_u8_no_access_check(address, value);
    }

    fn write_address_u8_no_access_check(&mut self, address: u16, value: u8)
        ensures
            final(self)@ == old(self)@.write_unchecked(address, value),
    {
        let ghost old_view = self@;
        if address <= address::ROM_END {
            self.cartridge.write_rom_address(address, value);
        } else if address <= address::VRAM_END {
            let i = self.map_vram_address(address);
            self.vram[i] = value;
        } else if address <= address::EXTERNAL_RAM_END {
            self.cartridge.write_ram_address(address, value);
        } else if address <= address::WORKING_RAM_END {
            let i = self.map_working_ram_address(address);
            self.working_ram[i] = value;
        } else if address <= address::ECHO_RAM_END {
            let i = self.map_working_ram_address(address - address::ECHO_RAM_START + address::WORKING_RAM_START);
            self.working_ram[i] = value;
        } else if address <= address::OAM_END {
            self.oam[(address - address::OAM_START) as usize] = value;
        } else if address <= address::UNUSABLE_END {
        } else if address <= address::IO_REGISTERS_END {
            self.io_registers.write_address(address, value);
        } else if address <= address::HRAM_END {
            self.hram[(address - address::HRAM_START) as usize] = value;
        } else {
            self.ie_register = value;
        }
        assert(self@ =~= old_view.write_unchecked(address, value));
    }

    /// Assign a 16-bit value to the given address and the following address, using
    /// little-endian.
    pub fn write_address_u16(&mut self, address: u16, value: u16, ppu_state: &PpuState)
        ensures
            final(self)@ == old(self)@.write_u16(address, value, ppu_state@.access()),
    {
        let lsb = (value % 256) as u8;
        let msb = (value / 256) as u8;
        let next = address.wrapping_add(1);
        assert(next == ((address as int + 1) % 0x10000) as u16);
        self.write_address_u8(address, lsb, ppu_state);
        self.write_address_u8(next, msb, ppu_state);
    }

    pub fn get_io_registers(&self) -> (r: &IoRegisters)
        ensures
            r@ == self@.io,
    {
        &self.io_registers
    }

    pub fn get_io_registers_mut(&mut self) -> (r: &mut IoRegisters)
        ensures
            r@ == old(self)@.io,
            final(self)@ == old(self)@.with_io(final(r)@),
    {
        &mut self.io_registers
    }

    /// Read a byte directly from VRAM using the given address+bank. This should only be called
    /// by the PPU.
    pub fn read_vram_direct(&self, address: u16, vram_bank: VramBank) -> (r: u8)
        requires
            address::VRAM_START <= address <= address::VRAM_END,
        ensures
            r == self@.vram_bank_byte(address, vram_bank),
    {
        match vram_bank {
            VramBank::Bank0 => self.vram[(address - address::VRAM_START) as usize],
            VramBank::Bank1 => self.vram[8192 + (address - address::VRAM_START) as usize],
        }
    }

    /// Retrieve the current value of the IE register (interrupts enabled).
    pub fn get_ie_register(&self) -> (r: u8)
        ensures
            r == self@.ie,
    {
        self.ie_register
    }

    /// Copy a byte from the given source address to the given destination address, bypassing
    /// access checks related to PPU state. Intended for use in OAM DMA transfer.
    pub fn copy_byte(&mut self, src_address: u16, dst_address: u16)
        ensures
            final(self)@ == old(self)@.write_unchecked(dst_address, old(self)@.read_unchecked(src_address)),
    {
        let byte = self.read_address_u8_no_access_check(src_address);
        self.write_address_u8_no_access_check(dst_address, byte);
    }

    /// The cartridge RAM bytes to write to the save file, when they are battery-backed and have
    /// changed since they were last saved.
    pub fn cartridge_ram_to_persist(&self) -> (r: Option<&Vec<u8>>)
        ensures
            (r is Some) == (self@.cartridge.has_battery && self@.cartridge.ram_dirty),
            r is Some ==> r.unwrap()@ == self@.cartridge.ram,
    {
        self.cartridge.external_ram_to_persist()
    }

    /// Record that the cartridge RAM has been written to the save file.
    pub fn mark_cartridge_ram_persisted(&mut self)
        ensures
            final(self)@ == (AddressSpaceView {
                cartridge: CartridgeView { ram_dirty: false, ..old(self)@.cartridge },
                ..old(self)@
            }),
    {
        self.cartridge.mark_external_ram_persisted();
    }

    /// Bring the cartridge's real-time clock (if any) up to time `now`.
    pub fn update_rtc_at(&mut self, now: u64)
        ensures
            final(self)@ == (AddressSpaceView {
                cartridge: CartridgeView { mapper: old(self)@.cartridge.mapper.spec_update_rtc(now), ..old(self)@.cartridge },
                ..old(self)@
            }),
    {
        self.cartridge.update_rtc_at(now);
    }

    /// Replace this memory's cartridge ROM with a copy of another memory's cartridge ROM.
    pub fn copy_cartridge_rom_from(&mut self, other: &Self)
        ensures
            final(self)@ == (AddressSpaceView {
                cartridge: CartridgeView { rom: other@.cartridge.rom, ..old(self)@.cartridge },
                ..old(self)@
            }),
    {
        proof {
            use_type_invariant(&self.cartridge);
        }
        let rom = copy_bytes(&other.cartridge.rom);
        self.cartridge.rom = rom;
    }

    /// The working RAM contents (all banks).
    pub fn working_ram(&self) -> (r: &[u8; 32768])
        ensures
            r@ == self@.working_ram,
    {
        &self.working_ram
    }
}

/// A byte the CPU writes to working RAM (or its echo) or HRAM, where it may access memory, is
/// the byte it reads back there.
pub proof fn law_ram_write_read(mem: AddressSpaceView, address: u16, value: u8, ppu: PpuAccess)
    requires
        mem.wf(),
        0xC000 <= address <= 0xFDFF || 0xFF80 <= address <= 0xFFFE,
        cpu_access_allowed(address, ppu),
    ensures
        mem.write(address, value, ppu).read(address, ppu) == value,
{
    let svbk = mem.io.byte(ioregisters::IoRegister::SVBK);
    assert(svbk & 0x07 <= 7) by (bit_vector);
}

/// A CPU write to working RAM (or its echo) or HRAM keeps the memory well formed.
pub proof fn lemma_ram_write_wf(mem: AddressSpaceView, address: u16, value: u8, ppu: PpuAccess)
    requires
        mem.wf(),
        0xC000 <= address <= 0xFDFF || 0xFF80 <= address <= 0xFFFE,
    ensures
        mem.write(address, value, ppu).wf(),
{
    let svbk = mem.io.byte(ioregisters::IoRegister::SVBK);
    assert(svbk & 0x07 <= 7) by (bit_vector);
}

/// A write to working RAM or HRAM leaves every other address of working RAM and HRAM as it
/// was, outside the bank it aliases in echo RAM.
pub proof fn law_ram_write_other(
    mem: AddressSpaceView,
    address: u16,
    other: u16,
    value: u8,
    ppu: PpuAccess,
)
    requires
        mem.wf(),
        0xC000 <= address <= 0xDFFF || 0xFF80 <= address <= 0xFFFE,
        0xC000 <= other <= 0xDFFF || 0xFF80 <= other <= 0xFFFE,
        address != other,
    ensures
        mem.write(address, value, ppu).read(other, ppu) == mem.read(other, ppu),
{
    let svbk = mem.io.byte(ioregisters::IoRegister::SVBK);
    assert(svbk & 0x07 <= 7) by (bit_vector);
}

/// A byte the CPU writes to working RAM is the byte it reads back at the echo address 0x2000
/// above it, and every address other than the written one and its echo reads as before.
pub proof fn law_working_ram_write(
    mem: AddressSpaceView,
    address: u16,
    other: u16,
    value: u8,
    ppu: PpuAccess,
)
    requires
        mem.wf(),
        0xC000 <= address <= 0xDFFF,
        !ppu.oam_dma_active,
    ensures
        address <= 0xDDFF ==> mem.write(address, value, ppu).read((address + 0x2000) as u16, ppu)
            == value,
        other != address && other != address + 0x2000 ==> mem.write(address, value, ppu).read(
            other,
            ppu,
        ) == mem.read(other, ppu),
{
    let svbk = mem.io.byte(ioregisters::IoRegister::SVBK);
    let vbk = mem.io.byte(ioregisters::IoRegister::VBK);
    assert(svbk & 0x07 <= 7 && vbk & 0x01 <= 1) by (bit_vector);
}

/// A write the CPU may not make where the PPU stands (anything but HRAM during an OAM DMA
/// transfer, OAM while the PPU scans or draws, VRAM while it draws) changes nothing.
pub proof fn law_blocked_write_ignored(mem: AddressSpaceView, address: u16, value: u8, ppu: PpuAccess)
    ensures
        !cpu_access_allowed(address, ppu) ==> mem.write(address, value, ppu) == mem,
        ppu.oam_dma_active && !(0xFF80 <= address <= 0xFFFE) ==> mem.write(address, value, ppu)
            == mem,
{
}

/// Where the CPU may access VRAM, it reads the byte of the bank it sees: bank 0 on the Game Boy
/// or when VBK bit 0 is clear (the byte the PPU reads there), bank 1 on a Game Boy Color with
/// VBK bit 0 set.
pub proof fn law_vram_cpu_read(mem: AddressSpaceView, address: u16, ppu: PpuAccess)
    requires
        mem.wf(),
        0x8000 <= address <= 0x9FFF,
        cpu_access_allowed(address, ppu),
    ensures
        mem.read(address, ppu) == mem.vram_bank_byte(address, mem.cpu_vram_bank()),
        mem.cpu_vram_bank() == VramBank::Bank0 ==> mem.read(address, ppu) == mem.vram[address
            - 0x8000],
{
    let vbk = mem.io.byte(ioregisters::IoRegister::VBK);
    assert(vbk & 0x01 <= 1 && (vbk & 0x01 == 1 || vbk & 0x01 == 0)) by (bit_vector);
}

/// A byte written to mapped cartridge RAM is the byte read back there, and on a battery-backed
/// cartridge the RAM is then due to be saved.
pub proof fn law_cartridge_ram_write_read(cartridge: CartridgeView, address: u16, value: u8)
    requires
        cartridge.mapper.spec_map_ram(address) matches RamMapResult::RamAddress(m) && m
            < cartridge.ram.len(),
    ensures
        cartridge.write_ram(address, value).read_ram(address) == value,
        cartridge.has_battery ==> cartridge.write_ram(address, value).ram_dirty,
{
}

} // verus!
