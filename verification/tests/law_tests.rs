use jgb::app_config::{bind_key, AppConfig, ConfigurableInput};
use jgb::cpu::instructions::{parse_next_instruction, Instruction as I, JumpCondition};
use jgb::cpu::registers::{CpuRegisterPair, CpuRegisters};
use jgb::cpu::{interrupt_triggered, ExecutionMode};
use jgb::memory::ioregisters::IoRegister;
use jgb::memory::{AddressSpace, Cartridge, VramBank};
use jgb::ppu::PpuState;

fn blank_memory(execution_mode: ExecutionMode) -> AddressSpace {
    let rom = vec![0x00; 0x150];
    AddressSpace::new(Cartridge::new(rom, None).expect("blank ROM should load"), execution_mode)
}

#[test]
fn interrupt_bits_above_four_do_not_trigger() {
    let ppu_state = PpuState::new();
    let mut address_space = blank_memory(ExecutionMode::GameBoy);
    let mut cpu_registers = CpuRegisters::new(ExecutionMode::GameBoy);
    cpu_registers.ime = true;
    cpu_registers.interrupt_delay = false;

    address_space.write_address_u8(0xFFFF, 0xE0, &ppu_state);
    address_space.write_address_u8(0xFF0F, 0xE0, &ppu_state);
    assert!(!interrupt_triggered(&cpu_registers, &address_space));

    address_space.write_address_u8(0xFFFF, 0xE4, &ppu_state);
    address_space.write_address_u8(0xFF0F, 0x04, &ppu_state);
    assert!(interrupt_triggered(&cpu_registers, &address_space));
}

#[test]
fn ei_arms_delay_and_next_instruction_clears_it() {
    let ppu_state = PpuState::new();
    let mut address_space = blank_memory(ExecutionMode::GameBoy);
    let mut cpu_registers = CpuRegisters::new(ExecutionMode::GameBoy);
    cpu_registers.ime = false;

    I::EnableInterrupts.execute(&mut address_space, &mut cpu_registers, &ppu_state).unwrap();
    assert!(cpu_registers.ime);
    assert!(cpu_registers.interrupt_delay);

    I::NoOp.execute(&mut address_space, &mut cpu_registers, &ppu_state).unwrap();
    assert!(cpu_registers.ime);
    assert!(!cpu_registers.interrupt_delay);

    I::DisableInterrupts.execute(&mut address_space, &mut cpu_registers, &ppu_state).unwrap();
    assert!(!cpu_registers.ime);
    assert!(!cpu_registers.interrupt_delay);
}

#[test]
fn push_then_pop_restores_pair() {
    let ppu_state = PpuState::new();
    let mut address_space = blank_memory(ExecutionMode::GameBoy);
    let mut cpu_registers = CpuRegisters::new(ExecutionMode::GameBoy);
    cpu_registers.sp = 0xD000;
    cpu_registers.b = 0x12;
    cpu_registers.c = 0x34;

    I::PushStack(CpuRegisterPair::BC)
        .execute(&mut address_space, &mut cpu_registers, &ppu_state)
        .unwrap();
    assert_eq!(0xCFFE, cpu_registers.sp);
    assert_eq!(0x34, address_space.read_address_u8(0xCFFE, &ppu_state));
    assert_eq!(0x12, address_space.read_address_u8(0xCFFF, &ppu_state));

    cpu_registers.b = 0;
    cpu_registers.c = 0;
    I::PopStack(CpuRegisterPair::BC)
        .execute(&mut address_space, &mut cpu_registers, &ppu_state)
        .unwrap();
    assert_eq!(0xD000, cpu_registers.sp);
    assert_eq!((0x12, 0x34), (cpu_registers.b, cpu_registers.c));
}

#[test]
fn push_then_pop_af_clears_low_flag_nibble() {
    let ppu_state = PpuState::new();
    let mut address_space = blank_memory(ExecutionMode::GameBoy);
    let mut cpu_registers = CpuRegisters::new(ExecutionMode::GameBoy);
    cpu_registers.accumulator = 0xAB;
    cpu_registers.flags = 0xFF;

    I::PushStack(CpuRegisterPair::AF)
        .execute(&mut address_space, &mut cpu_registers, &ppu_state)
        .unwrap();
    I::PopStack(CpuRegisterPair::AF)
        .execute(&mut address_space, &mut cpu_registers, &ppu_state)
        .unwrap();
    assert_eq!(0xFFFE, cpu_registers.sp);
    assert_eq!(0xAB, cpu_registers.accumulator);
    assert_eq!(0xF0, cpu_registers.flags);
}

#[test]
fn branch_cycles_depend_on_condition() {
    let mut cpu_registers = CpuRegisters::new(ExecutionMode::GameBoy);
    cpu_registers.flags = 0x80;
    assert_eq!(16, I::JumpCond(JumpCondition::Z, 0x1234).cycles_required(&cpu_registers));
    assert_eq!(12, I::JumpCond(JumpCondition::NZ, 0x1234).cycles_required(&cpu_registers));
    assert_eq!(24, I::CallCond(JumpCondition::Z, 0x1234).cycles_required(&cpu_registers));
    assert_eq!(12, I::CallCond(JumpCondition::NZ, 0x1234).cycles_required(&cpu_registers));
    assert_eq!(20, I::ReturnCond(JumpCondition::Z).cycles_required(&cpu_registers));
    assert_eq!(8, I::ReturnCond(JumpCondition::NZ).cycles_required(&cpu_registers));
    assert_eq!(24, I::Call(0x1234).cycles_required(&cpu_registers));
    assert_eq!(4, I::NoOp.cycles_required(&cpu_registers));
}

#[test]
fn decoded_instructions_cost_at_most_24_cycles() {
    let ppu_state = PpuState::new();
    let cpu_registers = CpuRegisters::new(ExecutionMode::GameBoy);
    for opcode in 0..=0xFFu8 {
        let mut rom = vec![0x00; 0x150];
        rom[0x100] = opcode;
        rom[0x101] = 0x46;
        let address_space = AddressSpace::new(
            Cartridge::new(rom, None).expect("test ROM should load"),
            ExecutionMode::GameBoy,
        );
        if let Ok((instruction, _)) = parse_next_instruction(&address_space, 0x100, &ppu_state) {
            let cycles = instruction.cycles_required(&cpu_registers);
            assert!(cycles % 4 == 0 && (4..=24).contains(&cycles), "opcode {opcode:02X}");
        }
    }
}

#[test]
fn io_register_addresses_round_trip() {
    assert_eq!(Some(IoRegister::IF), IoRegister::from_address(0xFF0F));
    assert_eq!(0x0F, IoRegister::IF.to_relative_address());
    assert_eq!(Some(IoRegister::SVBK), IoRegister::from_address(0xFF70));
    assert_eq!(0x70, IoRegister::SVBK.to_relative_address());
    assert_eq!(None, IoRegister::from_address(0xFF03));
    assert_eq!(None, IoRegister::from_address(0xFF30));
    assert_eq!(None, IoRegister::from_address(0xFF3F));
    assert_eq!(None, IoRegister::from_address(0xFEFF));
    assert_eq!(None, IoRegister::from_address(0xFF78));
}

#[test]
fn working_ram_write_reads_back_at_echo() {
    let ppu_state = PpuState::new();
    let mut address_space = blank_memory(ExecutionMode::GameBoy);
    address_space.write_address_u8(0xC123, 0x42, &ppu_state);
    assert_eq!(0x42, address_space.read_address_u8(0xC123, &ppu_state));
    assert_eq!(0x42, address_space.read_address_u8(0xE123, &ppu_state));
    assert_eq!(0x00, address_space.read_address_u8(0xC124, &ppu_state));
}

#[test]
fn vram_bank_reads_match_cpu_reads() {
    let ppu_state = PpuState::new();
    let mut address_space = blank_memory(ExecutionMode::GameBoyColor);
    address_space.write_address_u8(0x8010, 0x11, &ppu_state);
    address_space.write_address_u8(0xFF4F, 0x01, &ppu_state);
    address_space.write_address_u8(0x8010, 0x22, &ppu_state);

    assert_eq!(0x22, address_space.read_address_u8(0x8010, &ppu_state));
    assert_eq!(0x22, address_space.read_vram_direct(0x8010, VramBank::Bank1));
    assert_eq!(0x11, address_space.read_vram_direct(0x8010, VramBank::Bank0));
    assert_eq!(0x11, address_space.ppu_read_address_u8(0x8010));

    address_space.write_address_u8(0xFF4F, 0x00, &ppu_state);
    assert_eq!(0x11, address_space.read_address_u8(0x8010, &ppu_state));
}

#[test]
fn binding_a_key_changes_only_that_setting() {
    let mut config = AppConfig::default();
    let before = config.clone();
    bind_key(&mut config, ConfigurableInput::Up, "W".to_string());
    assert_eq!("W", config.input.up);
    assert_eq!(before.input.down, config.input.down);
    assert_eq!(before.hotkeys, config.hotkeys);

    bind_key(&mut config, ConfigurableInput::HotkeySaveState, "F5".to_string());
    assert_eq!(Some("F5".to_string()), config.hotkeys.save_state);
    assert_eq!(before.hotkeys.exit, config.hotkeys.exit);
    assert_eq!("W", config.input.up);
}

#[test]
fn configurable_input_labels() {
    assert_eq!("Up", ConfigurableInput::Up.to_str());
    assert_eq!("Toggle Fullscreen", ConfigurableInput::HotkeyToggleFullscreen.to_str());
    assert_eq!("Load State", ConfigurableInput::HotkeyLoadState.to_str());
}
