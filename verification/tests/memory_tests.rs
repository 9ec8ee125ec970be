use jgb::cpu::ExecutionMode;
use jgb::memory::ioregisters::{IoRegister, IoRegisters};
use jgb::memory::mapper::{Mapper, MapperFeatures, MapperType, RamMapResult};
use jgb::memory::{AddressSpace, Cartridge};
use jgb::ppu::PpuState;

fn mapper_features() -> MapperFeatures {
    MapperFeatures { has_ram: false, has_battery: false, has_rtc: false }
}

fn empty_io_registers() -> IoRegisters {
    IoRegisters::zeroed(ExecutionMode::GameBoy)
}

#[test]
fn memory_mbc1_mapper_rom_small() {
    // 256KB ROM
    let mut mapper = Mapper::new(MapperType::MBC1, mapper_features(), None, 1 << 18, 0, None);

    assert_eq!(0x0000, mapper.map_rom_address(0x0000));
    assert_eq!(0x3FFF, mapper.map_rom_address(0x3FFF));
    assert_eq!(0x4000, mapper.map_rom_address(0x4000));
    assert_eq!(0x7FFF, mapper.map_rom_address(0x7FFF));

    // Set ROM bank number
    mapper.write_rom_address(0x2000, 0x05);

    assert_eq!(0x0000, mapper.map_rom_address(0x0000));
    assert_eq!(0x3FFF, mapper.map_rom_address(0x3FFF));
    assert_eq!(0x14000, mapper.map_rom_address(0x4000));
    assert_eq!(0x15324, mapper.map_rom_address(0x5324));
    assert_eq!(0x17FFF, mapper.map_rom_address(0x7FFF));

    // Set ROM bank number higher than the highest bank number, should get masked to 0x05
    mapper.write_rom_address(0x2000, 0x15);

    assert_eq!(0x0000, mapper.map_rom_address(0x0000));
    assert_eq!(0x3FFF, mapper.map_rom_address(0x3FFF));
    assert_eq!(0x14000, mapper.map_rom_address(0x4000));
    assert_eq!(0x15324, mapper.map_rom_address(0x5324));
    assert_eq!(0x17FFF, mapper.map_rom_address(0x7FFF));

    // Test that banking select mode + RAM bank number is ignored
    mapper.write_rom_address(0x6000, 0x01);
    mapper.write_rom_address(0x4000, 0x01);

    assert_eq!(0x0000, mapper.map_rom_address(0x0000));
    assert_eq!(0x3FFF, mapper.map_rom_address(0x3FFF));
    assert_eq!(0x14000, mapper.map_rom_address(0x4000));
    assert_eq!(0x15324, mapper.map_rom_address(0x5324));
    assert_eq!(0x17FFF, mapper.map_rom_address(0x7FFF));
}

#[test]
fn memory_mbc1_mapper_rom_large() {
    // 2MB ROM
    let mut mapper = Mapper::new(MapperType::MBC1, mapper_features(), None, 1 << 21, 0, None);

    assert_eq!(0x0000, mapper.map_rom_address(0x0000));
    assert_eq!(0x3FFF, mapper.map_rom_address(0x3FFF));
    assert_eq!(0x4000, mapper.map_rom_address(0x4000));
    assert_eq!(0x7FFF, mapper.map_rom_address(0x7FFF));

    // Set banking select mode, ROM bank number, RAM bank number
    mapper.write_rom_address(0x6000, 0x01);
    mapper.write_rom_address(0x2000, 0x05);
    mapper.write_rom_address(0x4000, 0x02);

    assert_eq!(0x100000, mapper.map_rom_address(0x0000));
    assert_eq!(0x103FFF, mapper.map_rom_address(0x3FFF));
    assert_eq!(0x114000, mapper.map_rom_address(0x4000));
    assert_eq!(0x115234, mapper.map_rom_address(0x5234));
    assert_eq!(0x117FFF, mapper.map_rom_address(0x7FFF));

    // Set ROM bank number to 00, should be treated as 01
    mapper.write_rom_address(0x2000, 0x00);

    assert_eq!(0x100000, mapper.map_rom_address(0x0000));
    assert_eq!(0x103FFF, mapper.map_rom_address(0x3FFF));
    assert_eq!(0x104000, mapper.map_rom_address(0x4000));
    assert_eq!(0x105234, mapper.map_rom_address(0x5234));
    assert_eq!(0x107FFF, mapper.map_rom_address(0x7FFF));
}

#[test]
fn memory_mbc1_mapper_ram() {
    // 256KB ROM, 8KB RAM
    let mut mapper = Mapper::new(MapperType::MBC1, mapper_features(), None, 1 << 18, 8192, None);

    // Enable RAM
    mapper.write_rom_address(0x0000, 0x0A);

    assert_eq!(RamMapResult::RamAddress(0x0000), mapper.map_ram_address(0xA000));
    assert_eq!(RamMapResult::RamAddress(0x1000), mapper.map_ram_address(0xB000));
    assert_eq!(RamMapResult::RamAddress(0x1234), mapper.map_ram_address(0xB234));
}

#[test]
fn cgb_vram_banks() {
    let mut address_space =
        AddressSpace::new(Cartridge::new_cgb_test(), ExecutionMode::GameBoyColor);
    let ppu_state = PpuState::new();

    address_space
        .get_io_registers_mut()
        .write_register(IoRegister::VBK, 0x00);

    assert_eq!(0x00, address_space.read_address_u8(0x8500, &ppu_state));
    address_space.write_address_u8(0x8500, 0xCD, &ppu_state);
    assert_eq!(0xCD, address_space.read_address_u8(0x8500, &ppu_state));

    assert_eq!(0x00, address_space.read_address_u8(0x9CDE, &ppu_state));
    address_space.write_address_u8(0x9CDE, 0x35, &ppu_state);
    assert_eq!(0x35, address_space.read_address_u8(0x9CDE, &ppu_state));

    address_space
        .get_io_registers_mut()
        .write_register(IoRegister::VBK, 0x01);

    assert_eq!(0x00, address_space.read_address_u8(0x8500, &ppu_state));
    assert_eq!(0x00, address_space.read_address_u8(0x9CDE, &ppu_state));

    address_space.write_address_u8(0x8500, 0xEF, &ppu_state);
    assert_eq!(0xEF, address_space.read_address_u8(0x8500, &ppu_state));

    address_space.write_address_u8(0x9CDE, 0x46, &ppu_state);
    assert_eq!(0x46, address_space.read_address_u8(0x9CDE, &ppu_state));

    // Check that bits other than 0 are ignored
    address_space
        .get_io_registers_mut()
        .write_register(IoRegister::VBK, 0xFE);
    assert_eq!(0xCD, address_space.read_address_u8(0x8500, &ppu_state));
    assert_eq!(0x35, address_space.read_address_u8(0x9CDE, &ppu_state));
}

#[test]
fn cgb_working_ram_banks() {
    let mut address_space =
        AddressSpace::new(Cartridge::new_cgb_test(), ExecutionMode::GameBoyColor);
    let ppu_state = PpuState::new();

    address_space
        .get_io_registers_mut()
        .write_register(IoRegister::SVBK, 0x00);

    assert_eq!(0x00, address_space.read_address_u8(0xC500, &ppu_state));
    address_space.write_address_u8(0xC500, 0xDE, &ppu_state);
    assert_eq!(0xDE, address_space.read_address_u8(0xC500, &ppu_state));

    assert_eq!(0x00, address_space.read_address_u8(0xD500, &ppu_state));
    address_space.write_address_u8(0xD500, 0xCF, &ppu_state);
    assert_eq!(0xCF, address_space.read_address_u8(0xD500, &ppu_state));
    assert_eq!(0xDE, address_space.read_address_u8(0xC500, &ppu_state));

    // Bank 1 should behave the same as 0
    address_space
        .get_io_registers_mut()
        .write_register(IoRegister::SVBK, 0x01);
    assert_eq!(0xCF, address_space.read_address_u8(0xD500, &ppu_state));
    assert_eq!(0xCF, address_space.working_ram()[0x1500]);
    assert_eq!(0xDE, address_space.read_address_u8(0xC500, &ppu_state));

    address_space
        .get_io_registers_mut()
        .write_register(IoRegister::SVBK, 0x04);
    assert_eq!(0x00, address_space.read_address_u8(0xD500, &ppu_state));
    assert_eq!(0xDE, address_space.read_address_u8(0xC500, &ppu_state));

    address_space.write_address_u8(0xD500, 0x57, &ppu_state);
    assert_eq!(0x57, address_space.read_address_u8(0xD500, &ppu_state));
    assert_eq!(0x57, address_space.working_ram()[0x4500]);
    assert_eq!(0xDE, address_space.read_address_u8(0xC500, &ppu_state));

    // Check that only the lower 3 bits of SVBK are read
    address_space
        .get_io_registers_mut()
        .write_register(IoRegister::SVBK, 0xF8);
    assert_eq!(0xCF, address_space.read_address_u8(0xD500, &ppu_state));
    assert_eq!(0xDE, address_space.read_address_u8(0xC500, &ppu_state));

    // Test the highest bank number
    address_space
        .get_io_registers_mut()
        .write_register(IoRegister::SVBK, 0x07);
    assert_eq!(0x00, address_space.read_address_u8(0xD500, &ppu_state));
    assert_eq!(0xDE, address_space.read_address_u8(0xC500, &ppu_state));

    address_space.write_address_u8(0xD500, 0x21, &ppu_state);
    assert_eq!(0x21, address_space.read_address_u8(0xD500, &ppu_state));
    assert_eq!(0x21, address_space.working_ram()[0x7500]);
    assert_eq!(0xDE, address_space.read_address_u8(0xC500, &ppu_state));
}

#[test]
fn mapper_mbc1_mapper_rom_small() {
    // 256KB ROM
    let mut mapper = Mapper::new(MapperType::MBC1, mapper_features(), None, 1 << 18, 0, None);

    assert_eq!(0x0000, mapper.map_rom_address(0x0000));
    assert_eq!(0x3FFF, mapper.map_rom_address(0x3FFF));
    assert_eq!(0x4000, mapper.map_rom_address(0x4000));
    assert_eq!(0x7FFF, mapper.map_rom_address(0x7FFF));

    // Set ROM bank number
    mapper.write_rom_address(0x2000, 0x05);

    assert_eq!(0x0000, mapper.map_rom_address(0x0000));
    assert_eq!(0x3FFF, mapper.map_rom_address(0x3FFF));
    assert_eq!(0x14000, mapper.map_rom_address(0x4000));
    assert_eq!(0x15324, mapper.map_rom_address(0x5324));
    assert_eq!(0x17FFF, mapper.map_rom_address(0x7FFF));

    // Set ROM bank number higher than the highest bank number, should get masked to 0x05
    mapper.write_rom_address(0x2000, 0x15);

    assert_eq!(0x0000, mapper.map_rom_address(0x0000));
    assert_eq!(0x3FFF, mapper.map_rom_address(0x3FFF));
    assert_eq!(0x14000, mapper.map_rom_address(0x4000));
    assert_eq!(0x15324, mapper.map_rom_address(0x5324));
    assert_eq!(0x17FFF, mapper.map_rom_address(0x7FFF));

    // Test that banking select mode + RAM bank number is ignored
    mapper.write_rom_address(0x6000, 0x01);
    mapper.write_rom_address(0x4000, 0x01);

    assert_eq!(0x0000, mapper.map_rom_address(0x0000));
    assert_eq!(0x3FFF, mapper.map_rom_address(0x3FFF));
    assert_eq!(0x14000, mapper.map_rom_address(0x4000));
    assert_eq!(0x15324, mapper.map_rom_address(0x5324));
    assert_eq!(0x17FFF, mapper.map_rom_address(0x7FFF));
}

#[test]
fn mapper_mbc1_mapper_rom_large() {
    // 2MB ROM
    let mut mapper = Mapper::new(MapperType::MBC1, mapper_features(), None, 1 << 21, 0, None);

    assert_eq!(0x0000, mapper.map_rom_address(0x0000));
    assert_eq!(0x3FFF, mapper.map_rom_address(0x3FFF));
    assert_eq!(0x4000, mapper.map_rom_address(0x4000));
    assert_eq!(0x7FFF, mapper.map_rom_address(0x7FFF));

    // Set banking select mode, ROM bank number, RAM bank number
    mapper.write_rom_address(0x6000, 0x01);
    mapper.write_rom_address(0x2000, 0x05);
    mapper.write_rom_address(0x4000, 0x02);

    assert_eq!(0x100000, mapper.map_rom_address(0x0000));
    assert_eq!(0x103FFF, mapper.map_rom_address(0x3FFF));
    assert_eq!(0x114000, mapper.map_rom_address(0x4000));
    assert_eq!(0x115234, mapper.map_rom_address(0x5234));
    assert_eq!(0x117FFF, mapper.map_rom_address(0x7FFF));

    // Set ROM bank number to 00, should be treated as 01
    mapper.write_rom_address(0x2000, 0x00);

    assert_eq!(0x100000, mapper.map_rom_address(0x0000));
    assert_eq!(0x103FFF, mapper.map_rom_address(0x3FFF));
    assert_eq!(0x104000, mapper.map_rom_address(0x4000));
    assert_eq!(0x105234, mapper.map_rom_address(0x5234));
    assert_eq!(0x107FFF, mapper.map_rom_address(0x7FFF));
}

#[test]
fn mapper_mbc1_mapper_ram() {
    // 256KB ROM, 8KB RAM
    let mut mapper = Mapper::new(MapperType::MBC1, mapper_features(), None, 1 << 18, 8192, None);

    // Enable RAM
    mapper.write_rom_address(0x0000, 0x0A);

    assert_eq!(
        RamMapResult::RamAddress(0x0000),
        mapper.map_ram_address(0xA000)
    );
    assert_eq!(
        RamMapResult::RamAddress(0x1000),
        mapper.map_ram_address(0xB000)
    );
    assert_eq!(
        RamMapResult::RamAddress(0x1234),
        mapper.map_ram_address(0xB234)
    );
}

#[test]
fn joyp_mask() {
    // Bits 6-7 should be unusable and should always read 1
    // Bits 4-5 should be writable only and should always read 0
    // Bits 0-3 should be readable only, writes should be ignored

    let mut registers = empty_io_registers();

    assert_eq!(0xC0, registers.read_register(IoRegister::JOYP));

    registers.write_register(IoRegister::JOYP, 0x00);
    assert_eq!(0xC0, registers.read_register(IoRegister::JOYP));

    registers.write_register(IoRegister::JOYP, 0x0F);
    assert_eq!(0xC0, registers.read_register(IoRegister::JOYP));

    registers.write_register(IoRegister::JOYP, 0x20);
    assert_eq!(0xE0, registers.read_register(IoRegister::JOYP));

    registers.privileged_set_joyp(0x19);
    assert_eq!(0xD9, registers.read_register(IoRegister::JOYP));
}

#[test]
fn stat_mask() {
    // Bit 7 should be unusable and should always read 1
    // Bits 3-6 should be both readable and writable
    // Bits 0-2 should be readable only, writes should be ignored

    let mut registers = empty_io_registers();

    assert_eq!(0x80, registers.read_register(IoRegister::STAT));

    registers.write_register(IoRegister::STAT, 0x00);
    assert_eq!(0x80, registers.read_register(IoRegister::STAT));

    registers.write_register(IoRegister::STAT, 0x07);
    assert_eq!(0x80, registers.read_register(IoRegister::STAT));

    registers.write_register(IoRegister::STAT, 0x28);
    assert_eq!(0xA8, registers.read_register(IoRegister::STAT));

    registers.ppu_set_stat(0x2F);
    assert_eq!(0xAF, registers.read_register(IoRegister::STAT));
}

#[test]
fn ly() {
    // CPU should be allowed to read LY but not write LY

    let mut registers = empty_io_registers();

    registers.ppu_set_ly(0x57);
    assert_eq!(0x57, registers.read_register(IoRegister::LY));

    registers.write_register(IoRegister::LY, !0x57);
    assert_eq!(0x57, registers.read_register(IoRegister::LY));
}
