use jgb::app_config::AppConfig;
use jgb::apu::{self, ApuState};
use jgb::config::{ColorScheme, ControllerConfig, ControllerInput, HotkeyConfig, InputConfig};
use jgb::cpu::registers::CgbSpeedMode;
use jgb::cpu::{ExecutionMode, InterruptType};
use jgb::eventloop::run_step;
use jgb::graphics::{determine_integer_scale_rect, Modal};
use jgb::input::{Button, ControllerMap, JoypadState, JoystickError};
use jgb::memory::ioregisters::{IoRegister, IoRegisters};
use jgb::memory::{Cartridge, SaveFile};
use jgb::serialize::determine_save_state_path;
use jgb::startup::init_emulation_state;
use jgb::timer::{update_timer_registers, TimerCounter};

/// A 32 KiB ROM without a mapper whose code is all NOPs, with the given CGB flag byte.
fn nop_rom(cgb_flag: u8) -> Vec<u8> {
    let mut rom = vec![0u8; 0x8000];
    rom[0x0143] = cgb_flag;
    rom
}

#[test]
fn app_config_default_does_not_panic() {
    let app_config = AppConfig::default();
    assert!(app_config.vsync_enabled);
}

#[test]
fn app_config_default_values() {
    let app_config = AppConfig::default();
    assert_eq!(640, app_config.window_width);
    assert_eq!(576, app_config.window_height);
    assert!(app_config.rom_search_dir.is_none());
    assert_eq!("Up", app_config.input.up);
}

#[test]
fn color_scheme_name_parse_roundtrip() {
    for scheme in [ColorScheme::BlackAndWhite, ColorScheme::GreenTint] {
        let name = scheme.name();
        assert_eq!(Ok(scheme), ColorScheme::parse(&name));
    }
    assert_eq!("GreenTint", ColorScheme::GreenTint.name());
}

#[test]
fn color_scheme_parse_rejects_unknown_names() {
    let err = ColorScheme::parse("Sepia").unwrap_err();
    assert_eq!("invalid ColorScheme string: 'Sepia'", err);
    assert!(ColorScheme::parse("greentint").is_err());
    assert_eq!(ColorScheme::BlackAndWhite, ColorScheme::default());
}

#[test]
fn save_state_path_replaces_extension() {
    assert_eq!("roms/tetris.ss0", determine_save_state_path("roms/tetris.gb"));
    assert_eq!("roms/pokemon.ss0", determine_save_state_path("roms/pokemon"));
}

#[test]
fn modal_finishes_at_its_end_time() {
    let modal = Modal::new_at(String::from("Saved state"), 1_000, 3_000);
    assert_eq!(4_000, modal.end_time);
    assert!(!modal.is_finished_at(3_999));
    assert!(modal.is_finished_at(4_000));
    assert!(modal.is_finished_at(10_000));

    let forever = Modal::new_at(String::from("x"), u64::MAX - 1, 10);
    assert_eq!(u64::MAX, forever.end_time);
}

#[test]
fn modal_with_zero_end_time_is_finished() {
    let modal = Modal::new_at(String::from("done"), 0, 0);
    assert!(modal.is_finished());
}

#[test]
fn controller_map_rejects_duplicate_input() {
    let mut config = ControllerConfig::default();
    config.up = Some(ControllerInput::Button(3));
    config.down = Some(ControllerInput::Button(3));
    let err = ControllerMap::from_config(&config).unwrap_err();
    assert_eq!(JoystickError::DuplicateInput { input: ControllerInput::Button(3) }, err);
}

#[test]
fn controller_map_rejects_large_deadzone() {
    let mut config = ControllerConfig::default();
    config.axis_deadzone = 40000;
    let err = ControllerMap::from_config(&config).unwrap_err();
    assert_eq!(JoystickError::InvalidDeadzone { deadzone: 40000 }, err);
}

#[test]
fn controller_map_binds_inputs() {
    let mut config = ControllerConfig::default();
    config.a = Some(ControllerInput::Button(0));
    config.left = Some(ControllerInput::AxisNegative(0));
    config.right = Some(ControllerInput::AxisPositive(0));
    let map = ControllerMap::from_config(&config).unwrap();
    assert_eq!(Some(Button::A), map.get(ControllerInput::Button(0)));
    assert_eq!(Some(Button::Left), map.get(ControllerInput::AxisNegative(0)));
    assert_eq!(None, map.get(ControllerInput::Button(1)));
    assert_eq!(5000, map.axis_deadzone());
}

#[test]
fn joypad_press_and_release() {
    let mut config = ControllerConfig::default();
    config.start = Some(ControllerInput::Button(7));
    let map = ControllerMap::from_config(&config).unwrap();
    let mut joypad = JoypadState::new();
    assert!(!joypad.is_pressed(Button::Start));
    joypad.joy_button_down(7, &map);
    assert!(joypad.is_pressed(Button::Start));
    joypad.joy_button_up(7, &map);
    assert!(!joypad.is_pressed(Button::Start));
    // An unbound button changes nothing
    joypad.joy_button_down(8, &map);
    assert!(!joypad.is_pressed(Button::Start));
}

#[test]
fn timer_counts_tima_and_div() {
    let mut io = IoRegisters::zeroed(ExecutionMode::GameBoy);
    let mut counter = TimerCounter::new();
    // TIMA increments every 16 cycles
    io.write_register(IoRegister::TAC, 0x01);
    update_timer_registers(&mut io, &mut counter, 0, 32);
    assert_eq!(2, io.read_register(IoRegister::TIMA));
    assert_eq!(0, io.read_register(IoRegister::DIV));
    assert_eq!(32, counter.0);

    update_timer_registers(&mut io, &mut counter, 0, 224);
    assert_eq!(256, counter.0);
    assert_eq!(1, io.read_register(IoRegister::DIV));
    assert_eq!(16, io.read_register(IoRegister::TIMA));
}

#[test]
fn timer_overflow_reloads_modulo_and_requests_interrupt() {
    let mut io = IoRegisters::zeroed(ExecutionMode::GameBoy);
    let mut counter = TimerCounter::new();
    io.write_register(IoRegister::TAC, 0x01);
    io.write_register(IoRegister::TIMA, 0xFF);
    assert!(!io.interrupt_flags().get(InterruptType::Timer));
    update_timer_registers(&mut io, &mut counter, 0x42, 16);
    assert_eq!(0x42, io.read_register(IoRegister::TIMA));
    assert!(io.interrupt_flags().get(InterruptType::Timer));
}

#[test]
fn timer_disabled_keeps_tima() {
    let mut io = IoRegisters::zeroed(ExecutionMode::GameBoy);
    let mut counter = TimerCounter::new();
    io.write_register(IoRegister::TAC, 0x41);
    io.write_register(IoRegister::TIMA, 0x10);
    update_timer_registers(&mut io, &mut counter, 0, 256);
    assert_eq!(0x10, io.read_register(IoRegister::TIMA));
    assert_eq!(1, io.read_register(IoRegister::DIV));
}

#[test]
fn apu_power_on_triggers_channel_1() {
    let mut io = IoRegisters::new(ExecutionMode::GameBoy);
    let mut apu_state = ApuState::new();
    // All audio registers start dirty; NR14 has its trigger bit set and NR12 turns the DAC on
    // at volume 15, so channel 1 starts playing its 50% duty waveform at a high step
    assert!(apu::tick_m_cycle(&mut apu_state, &mut io, CgbSpeedMode::Normal));
    let samples = apu_state.sample_digital();
    assert_eq!(Some(15), samples[0]);
    assert_eq!(None, samples[1]);
    assert_eq!(None, samples[2]);
    assert_eq!(None, samples[3]);
    assert_eq!(0x81, io.apu_read_register(IoRegister::NR52));
    assert_eq!(4, apu_state.clock_ticks());
    assert!(apu_state.any_dac_enabled());
}

#[test]
fn apu_off_clears_registers() {
    let mut io = IoRegisters::new(ExecutionMode::GameBoy);
    let mut apu_state = ApuState::new();
    assert!(apu::tick_m_cycle(&mut apu_state, &mut io, CgbSpeedMode::Normal));
    io.apu_write_register(IoRegister::NR52, 0x00);
    assert!(!apu::tick_m_cycle(&mut apu_state, &mut io, CgbSpeedMode::Normal));
    assert!(!apu_state.enabled());
    assert_eq!(0, io.apu_read_register(IoRegister::NR12));
    assert_eq!(0, io.apu_read_register(IoRegister::NR50));
    assert_eq!([None, None, None, None], apu_state.sample_digital());
    assert!(!apu_state.any_dac_enabled());
}

#[test]
fn cgb_cartridge_runs_in_cgb_mode_only_when_requested() {
    let cartridge = Cartridge::new(nop_rom(0x80), None).unwrap();
    let state = init_emulation_state(cartridge, ExecutionMode::GameBoyColor);
    assert_eq!(ExecutionMode::GameBoyColor, state.execution_mode);

    let cartridge = Cartridge::new(nop_rom(0x00), None).unwrap();
    let state = init_emulation_state(cartridge, ExecutionMode::GameBoyColor);
    assert_eq!(ExecutionMode::GameBoy, state.execution_mode);

    let cartridge = Cartridge::new(nop_rom(0x80), None).unwrap();
    let state = init_emulation_state(cartridge, ExecutionMode::GameBoy);
    assert_eq!(ExecutionMode::GameBoy, state.execution_mode);
}

#[test]
fn run_step_executes_one_nop() {
    let cartridge = Cartridge::new(nop_rom(0x00), None).unwrap();
    let mut state = init_emulation_state(cartridge, ExecutionMode::GameBoy);
    let mut timer_counter = TimerCounter::new();
    let joypad = JoypadState::new();
    assert_eq!(0x0100, state.cpu_registers.pc);

    let outcome = run_step(&mut state, &mut timer_counter, &joypad, 0).unwrap();
    assert_eq!(4, outcome.cycles);
    assert_eq!(0, outcome.leftover_cpu_cycles);
    assert_eq!(1, outcome.apu_output.len());
    assert_eq!(0x0101, state.cpu_registers.pc);
    assert_eq!(4, timer_counter.0);
    assert_eq!(4, state.apu_state.clock_ticks());

    for _ in 0..9 {
        run_step(&mut state, &mut timer_counter, &joypad, 0).unwrap();
    }
    assert_eq!(0x010A, state.cpu_registers.pc);
    assert_eq!(40, timer_counter.0);
}

#[test]
fn run_step_reaches_a_frame() {
    let cartridge = Cartridge::new(nop_rom(0x00), None).unwrap();
    let mut state = init_emulation_state(cartridge, ExecutionMode::GameBoy);
    let mut timer_counter = TimerCounter::new();
    let joypad = JoypadState::new();
    let mut frames = 0;
    let mut steps = 0;
    // One frame is 70224 clock cycles; NOPs run one M-cycle per step
    while frames < 2 && steps < 40000 {
        let outcome = run_step(&mut state, &mut timer_counter, &joypad, 0).unwrap();
        if outcome.frame_ready {
            frames += 1;
        }
        steps += 1;
    }
    assert_eq!(2, frames);
}

#[test]
fn controller_input_parse_accepts_buttons_and_axes() {
    assert_eq!(Ok(ControllerInput::Button(3)), ControllerInput::parse("button 3"));
    assert_eq!(Ok(ControllerInput::Button(12)), ControllerInput::parse("Button 12"));
    assert_eq!(Ok(ControllerInput::Button(7)), ControllerInput::parse("button +7"));
    assert_eq!(Ok(ControllerInput::AxisPositive(2)), ControllerInput::parse("AXIS 2 +"));
    assert_eq!(Ok(ControllerInput::AxisNegative(0)), ControllerInput::parse("axis 0 -"));
    assert_eq!(Ok(ControllerInput::AxisNegative(255)), ControllerInput::parse("axis 255 -"));
}

#[test]
fn controller_input_parse_rejects_bad_input() {
    assert_eq!(
        Err(String::from("invalid button index: 'x'")),
        ControllerInput::parse("button x")
    );
    assert_eq!(
        Err(String::from("invalid axis index: '300'")),
        ControllerInput::parse("Axis 300 +")
    );
    assert_eq!(
        Err(String::from("invalid button index: ''")),
        ControllerInput::parse("button ")
    );
    assert_eq!(
        Err(String::from("invalid controller input string: 'joystick 1'")),
        ControllerInput::parse("Joystick 1")
    );
    assert_eq!(
        Err(String::from("invalid controller input string: 'button  3'")),
        ControllerInput::parse("button  3")
    );
    assert_eq!(
        Err(String::from("invalid controller input string: 'axis 1'")),
        ControllerInput::parse("axis 1")
    );
}

#[test]
fn controller_input_display_roundtrip() {
    assert_eq!("Button 3", ControllerInput::Button(3).to_display_string());
    assert_eq!("Axis 10 -", ControllerInput::AxisNegative(10).to_display_string());
    assert_eq!("Axis 255 +", ControllerInput::AxisPositive(255).to_display_string());
    for n in [0u8, 9, 10, 99, 100, 255] {
        for input in [
            ControllerInput::Button(n),
            ControllerInput::AxisNegative(n),
            ControllerInput::AxisPositive(n),
        ] {
            assert_eq!(Ok(input), ControllerInput::parse(&input.to_display_string()));
        }
    }
}

#[test]
fn palettes_map_shades_to_rgb() {
    assert_eq!([255, 255, 255], jgb::graphics::palette_for(ColorScheme::BlackAndWhite)[0]);
    assert_eq!([0, 0, 0], jgb::graphics::palette_for(ColorScheme::BlackAndWhite)[3]);
    assert_eq!([0x75, 0x9C, 0x68], jgb::graphics::palette_for(ColorScheme::GreenTint)[1]);
}

#[test]
fn frame_to_rgb_uses_the_palette() {
    let mut frame = [[0u8; 160]; 144];
    frame[0][1] = 3;
    frame[143][159] = 2;
    let palette = jgb::graphics::palette_for(ColorScheme::BlackAndWhite);
    let pixels = jgb::graphics::frame_to_rgb(&frame, &palette);
    assert_eq!(144 * 480, pixels.len());
    assert_eq!(&[255, 255, 255], &pixels[0..3]);
    assert_eq!(&[0, 0, 0], &pixels[3..6]);
    assert_eq!(&[85, 85, 85], &pixels[143 * 480 + 3 * 159..143 * 480 + 3 * 159 + 3]);
}

#[test]
fn integer_scale_rect_centres_the_screen() {
    assert_eq!(Some((0, 0, 640, 576)), determine_integer_scale_rect(640, 576));
    assert_eq!(Some((80, 12, 640, 576)), determine_integer_scale_rect(800, 600));
    assert_eq!(Some((0, 0, 160, 144)), determine_integer_scale_rect(160, 144));
    assert_eq!(None, determine_integer_scale_rect(100, 100));
    assert_eq!(None, determine_integer_scale_rect(1000, 143));
}

#[test]
fn configs_display_as_in_logs() {
    assert_eq!(
        "Up=Up, Down=Down, Left=Left, Right=Right, A=Z, B=X, Start=Return, Select=Right Shift",
        InputConfig::default().to_display_string()
    );
    assert_eq!(
        "Exit=Escape, ToggleFullscreen=F9, SaveState=F5, LoadState=F6, FastForward=Tab",
        HotkeyConfig::default().to_display_string()
    );
    let mut controller = ControllerConfig::default();
    controller.a = Some(ControllerInput::Button(1));
    controller.left = Some(ControllerInput::AxisNegative(0));
    assert_eq!(
        "Up=<None>, Down=<None>, Left=Axis 0 -, Right=<None>, A=Button 1, B=<None>, Start=<None>, Select=<None>, Deadzone=5000",
        controller.to_display_string()
    );
}

#[test]
fn battery_ram_write_reads_back_and_is_due_for_saving() {
    let mut rom = vec![0u8; 0x8000];
    rom[0x0147] = 0x03; // MBC1 + RAM + battery
    rom[0x0149] = 0x02; // 8 KiB of RAM
    let mut cartridge = Cartridge::new(rom, Some(SaveFile { ram: None })).unwrap();
    assert!(cartridge.external_ram_to_persist().is_none());
    // RAM is disabled until 0x0A is written to 0x0000-0x1FFF
    cartridge.write_ram_address(0xA000, 0x42);
    assert_eq!(0xFF, cartridge.read_ram_address(0xA000));
    cartridge.write_rom_address(0x0000, 0x0A);
    cartridge.write_ram_address(0xA000, 0x42);
    assert_eq!(0x42, cartridge.read_ram_address(0xA000));
    let saved = cartridge.external_ram_to_persist().unwrap();
    assert_eq!(8192, saved.len());
    assert_eq!(0x42, saved[0]);
    cartridge.mark_external_ram_persisted();
    assert!(cartridge.external_ram_to_persist().is_none());
}

#[test]
fn saved_ram_is_restored() {
    let mut rom = vec![0u8; 0x8000];
    rom[0x0147] = 0x03;
    rom[0x0149] = 0x02;
    let mut ram = vec![0u8; 8192];
    ram[5] = 0x99;
    let mut cartridge = Cartridge::new(rom, Some(SaveFile { ram: Some(ram) })).unwrap();
    cartridge.write_rom_address(0x0000, 0x0A);
    assert_eq!(0x99, cartridge.read_ram_address(0xA005));
}

#[test]
fn mbc1_bank_select_keeps_bank_zero_fixed() {
    let mut rom = vec![0u8; 0x20000];
    rom[0x0147] = 0x01; // MBC1
    rom[0x0148] = 0x02; // 128 KiB
    for bank in 0..8 {
        rom[bank * 0x4000 + 0x10] = bank as u8;
    }
    let mut cartridge = Cartridge::new(rom, None).unwrap();
    cartridge.write_rom_address(0x2000, 0x05);
    assert_eq!(5, cartridge.read_rom_address(0x4010));
    assert_eq!(0, cartridge.read_rom_address(0x0010));
    // Bank 0 selects bank 1 for the switchable region
    cartridge.write_rom_address(0x3FFF, 0x00);
    assert_eq!(1, cartridge.read_rom_address(0x4010));
    // Bank numbers are masked to the ROM size (8 banks)
    cartridge.write_rom_address(0x2000, 0x0E);
    assert_eq!(6, cartridge.read_rom_address(0x4010));
}

#[test]
fn ram_writes_read_back_and_leave_other_bytes() {
    let cartridge = Cartridge::new(nop_rom(0x00), None).unwrap();
    let state = init_emulation_state(cartridge, ExecutionMode::GameBoy);
    let mut address_space = state.address_space;
    let ppu_state = state.ppu_state;
    address_space.write_address_u8(0xFF90, 0x12, &ppu_state);
    address_space.write_address_u8(0xC123, 0x34, &ppu_state);
    assert_eq!(0x12, address_space.read_address_u8(0xFF90, &ppu_state));
    assert_eq!(0x34, address_space.read_address_u8(0xC123, &ppu_state));
    // Echo RAM shows working RAM
    assert_eq!(0x34, address_space.read_address_u8(0xE123, &ppu_state));
    assert_eq!(0x00, address_space.read_address_u8(0xFF91, &ppu_state));
    assert_eq!(0x00, address_space.read_address_u8(0xC124, &ppu_state));
}

#[test]
fn register_pair_reads_back_what_was_written() {
    let mut registers = jgb::cpu::registers::CpuRegisters::new(ExecutionMode::GameBoy);
    registers.set_register_pair(jgb::cpu::registers::CpuRegisterPair::BC, 0xBEEF);
    assert_eq!(0xBEEF, registers.read_register_pair(jgb::cpu::registers::CpuRegisterPair::BC));
    assert_eq!(0xBE, registers.b);
    assert_eq!(0xEF, registers.c);
}

#[test]
fn dirty_bit_clears_and_register_reads_back() {
    let mut io = IoRegisters::zeroed(ExecutionMode::GameBoy);
    io.write_register(IoRegister::NR52, 0x80);
    io.write_register(IoRegister::NR11, 0x3F);
    assert!(io.get_dirty_bit(IoRegister::NR11));
    io.clear_dirty_bit(IoRegister::NR11);
    assert!(!io.get_dirty_bit(IoRegister::NR11));
    io.apu_write_register(IoRegister::NR43, 0x5A);
    assert_eq!(0x5A, io.apu_read_register(IoRegister::NR43));
    assert_eq!(0x3F, io.apu_read_register(IoRegister::NR11));
}

#[test]
fn ppu_reports_ly_after_each_line() {
    let cartridge = Cartridge::new(nop_rom(0x00), None).unwrap();
    let mut state = init_emulation_state(cartridge, ExecutionMode::GameBoy);
    // 114 M-cycles make one 456-dot line
    for _ in 0..114 {
        jgb::ppu::tick_m_cycle(&mut state.ppu_state, &mut state.address_space);
    }
    let ly_after_one_line = state.address_space.get_io_registers().read_register(IoRegister::LY);
    for _ in 0..114 {
        jgb::ppu::tick_m_cycle(&mut state.ppu_state, &mut state.address_space);
    }
    let ly_after_two_lines = state.address_space.get_io_registers().read_register(IoRegister::LY);
    assert_eq!((ly_after_one_line + 1) % 154, ly_after_two_lines);
    let stat = state.address_space.get_io_registers().read_register(IoRegister::STAT);
    let mode_bits = match state.ppu_state.mode() {
        jgb::ppu::Mode::HBlank => 0,
        jgb::ppu::Mode::VBlank => 1,
        jgb::ppu::Mode::ScanningOAM => 2,
        jgb::ppu::Mode::RenderingScanline => 3,
    };
    assert_eq!(mode_bits, stat & 0x03);
}

#[test]
fn overlapping_sprites_draw_the_leftmost_first() {
    let cartridge = Cartridge::new(nop_rom(0x00), None).unwrap();
    let mut state = init_emulation_state(cartridge, ExecutionMode::GameBoy);
    let ppu_state = &state.ppu_state;
    let address_space = &mut state.address_space;
    // Tile 1 is all color 1, tile 2 all color 2
    for row in 0..8u16 {
        address_space.write_address_u8(0x8010 + 2 * row, 0xFF, ppu_state);
        address_space.write_address_u8(0x8011 + 2 * row, 0x00, ppu_state);
        address_space.write_address_u8(0x8020 + 2 * row, 0x00, ppu_state);
        address_space.write_address_u8(0x8021 + 2 * row, 0xFF, ppu_state);
    }
    // OAM entry 0: X=10 (screen 2-9) with tile 1; entry 1: X=9 (screen 1-8) with tile 2
    for (entry, x, tile) in [(0u16, 10u8, 1u8), (1, 9, 2)] {
        address_space.write_address_u8(0xFE00 + 4 * entry, 16, ppu_state);
        address_space.write_address_u8(0xFE01 + 4 * entry, x, ppu_state);
        address_space.write_address_u8(0xFE02 + 4 * entry, tile, ppu_state);
        address_space.write_address_u8(0xFE03 + 4 * entry, 0x00, ppu_state);
    }
    // Identity object palette; LCD and sprites on, background off
    address_space.write_address_u8(0xFF48, 0xE4, ppu_state);
    address_space.write_address_u8(0xFF40, 0x82, ppu_state);

    // From power-on (line 145) through line 0
    for _ in 0..(10 * 114) {
        jgb::ppu::tick_m_cycle(&mut state.ppu_state, &mut state.address_space);
    }
    let frame = state.ppu_state.frame_buffer();
    assert_eq!(0, frame[0][0]);
    assert_eq!(2, frame[0][1]);
    // Both sprites cover X=2-8; the one further left (X=9) wins
    assert_eq!(2, frame[0][2]);
    assert_eq!(2, frame[0][8]);
    assert_eq!(1, frame[0][9]);
    assert_eq!(0, frame[0][10]);
}
