use jgb::cpu::ExecutionMode;
use jgb::memory::address::OAM_START;
use jgb::memory::ioregisters::IoRegister;
use jgb::memory::{AddressSpace, Cartridge};
use jgb::ppu::render::scan_oam;
use jgb::ppu::{progress_oam_dma_transfer, OamSpriteData, PpuState};

#[test]
fn oam_dma_transfer_basic_test() {
    let mut address_space = AddressSpace::new(
        Cartridge::new(vec![0; 0x150], None).unwrap(),
        ExecutionMode::GameBoy,
    );
    let mut ppu_state = PpuState::new();

    progress_oam_dma_transfer(&mut ppu_state, &mut address_space);
    assert_eq!(None, ppu_state.oam_dma_status());

    address_space.write_address_u8(0xC500, 0x78, &ppu_state);
    address_space.write_address_u8(0xC555, 0x12, &ppu_state);
    address_space.write_address_u8(0xC59F, 0x34, &ppu_state);
    address_space.write_address_u8(0xC5A0, 0x56, &ppu_state);

    address_space
        .get_io_registers_mut()
        .write_register(IoRegister::DMA, 0xC5);

    progress_oam_dma_transfer(&mut ppu_state, &mut address_space);
    assert!(ppu_state.oam_dma_status().is_some());

    for _ in 0..158 {
        progress_oam_dma_transfer(&mut ppu_state, &mut address_space);
        assert!(ppu_state.oam_dma_status().is_some());
    }

    progress_oam_dma_transfer(&mut ppu_state, &mut address_space);
    assert_eq!(None, ppu_state.oam_dma_status());

    assert_eq!(0x78, address_space.read_address_u8(0xFE00, &ppu_state));
    assert_eq!(0x12, address_space.read_address_u8(0xFE55, &ppu_state));
    assert_eq!(0x34, address_space.read_address_u8(0xFE9F, &ppu_state));
}

#[test]
fn scan_oam_basic_test() {
    let mut address_space = AddressSpace::new(
        Cartridge::new(vec![0; 0x150], None).unwrap(),
        ExecutionMode::GameBoy,
    );
    let ppu_state = PpuState::new();

    address_space.write_address_u8(OAM_START + 40, 53, &ppu_state);
    address_space.write_address_u8(OAM_START + 41, 20, &ppu_state);
    address_space.write_address_u8(OAM_START + 42, 0xC3, &ppu_state);
    address_space.write_address_u8(OAM_START + 43, 0x30, &ppu_state);

    let mut sprites = Vec::new();

    scan_oam(&mut sprites, &address_space, 40, 20);

    assert_eq!(
        sprites,
        vec![OamSpriteData {
            y_pos: 53,
            x_pos: 20,
            tile_index: 0xC3,
            flags: 0x30,
        }]
    );

    // Scanline 45 is past the bottom of the sprite
    scan_oam(&mut sprites, &address_space, 45, 20);
    assert_eq!(1, sprites.len());
}
