use jgb::cpu::instructions::{
    parse_next_instruction, Instruction as I, JumpCondition, ModifyTarget, ReadTarget, WriteTarget,
};
use jgb::cpu::registers::{CpuRegister, CpuRegisterPair, CpuRegisters};
use jgb::cpu::ExecutionMode;
use jgb::memory::{AddressSpace, Cartridge};
use jgb::ppu::PpuState;
use std::collections::HashMap;

fn to_opcode_bits(register: CpuRegister) -> u8 {
    match register {
        CpuRegister::A => 0x07,
        CpuRegister::B => 0x00,
        CpuRegister::C => 0x01,
        CpuRegister::D => 0x02,
        CpuRegister::E => 0x03,
        CpuRegister::H => 0x04,
        CpuRegister::L => 0x05,
    }
}

/// A small deterministic generator standing in for random operand bytes.
fn next_random(seed: &mut u32) -> u8 {
    *seed = seed.wrapping_mul(1_103_515_245).wrapping_add(12_345);
    (*seed >> 16) as u8
}

#[derive(Debug, Clone, Copy, PartialEq, Eq)]
struct HexFormattableBool(bool);

impl From<bool> for HexFormattableBool {
    fn from(value: bool) -> Self {
        Self(value)
    }
}

impl HexFormattableBool {
    fn hex(self) -> u8 {
        u8::from(self.0)
    }
}

struct ExpectedState {
    a: Option<u8>,
    f: Option<u8>,
    b: Option<u8>,
    c: Option<u8>,
    d: Option<u8>,
    e: Option<u8>,
    h: Option<u8>,
    l: Option<u8>,
    sp: Option<u16>,
    pc: Option<u16>,
    ime: Option<HexFormattableBool>,
    interrupt_delay: Option<HexFormattableBool>,
    memory: HashMap<u16, u8>,
}

fn hash_map(entries: &[(u16, u8)]) -> HashMap<u16, u8> {
    entries.iter().copied().collect()
}

fn compare_byte(match_fails: &mut Vec<String>, name: &str, expected: Option<u8>, actual: u8) {
    if let Some(expected) = expected {
        if expected != actual {
            match_fails.push(format!(
                "{name} mismatch: expected 0x{expected:02X}, actual 0x{actual:02X}"
            ));
        }
    }
}

fn compare_word(match_fails: &mut Vec<String>, name: &str, expected: Option<u16>, actual: u16) {
    if let Some(expected) = expected {
        if expected != actual {
            match_fails.push(format!(
                "{name} mismatch: expected 0x{expected:04X}, actual 0x{actual:04X}"
            ));
        }
    }
}

impl ExpectedState {
    fn empty() -> Self {
        Self {
            a: None,
            f: None,
            b: None,
            c: None,
            d: None,
            e: None,
            h: None,
            l: None,
            sp: None,
            pc: None,
            ime: None,
            interrupt_delay: None,
            memory: HashMap::new(),
        }
    }

    fn assert_matches(
        &self,
        cpu_registers: &CpuRegisters,
        address_space: &AddressSpace,
        ppu_state: &PpuState,
    ) {
        let mut match_fails = Vec::new();
        compare_byte(&mut match_fails, "A", self.a, cpu_registers.accumulator);
        compare_byte(&mut match_fails, "F", self.f, cpu_registers.flags);
        compare_byte(&mut match_fails, "B", self.b, cpu_registers.b);
        compare_byte(&mut match_fails, "C", self.c, cpu_registers.c);
        compare_byte(&mut match_fails, "D", self.d, cpu_registers.d);
        compare_byte(&mut match_fails, "E", self.e, cpu_registers.e);
        compare_byte(&mut match_fails, "H", self.h, cpu_registers.h);
        compare_byte(&mut match_fails, "L", self.l, cpu_registers.l);
        compare_word(&mut match_fails, "SP", self.sp, cpu_registers.sp);
        compare_word(&mut match_fails, "PC", self.pc, cpu_registers.pc);
        compare_byte(
            &mut match_fails,
            "IME",
            self.ime.map(HexFormattableBool::hex),
            u8::from(cpu_registers.ime),
        );
        compare_byte(
            &mut match_fails,
            "INTERRUPT_DELAY",
            self.interrupt_delay.map(HexFormattableBool::hex),
            u8::from(cpu_registers.interrupt_delay),
        );

        for (&address, &expected) in &self.memory {
            let actual = address_space.read_address_u8(address, ppu_state);
            if expected != actual {
                match_fails.push(format!("Mismatch at memory address 0x{address:04X}: expected = 0x{expected:02X}, actual = 0x{actual:02X}"));
            }
        }

        if !match_fails.is_empty() {
            let error_msgs: Vec<_> = match_fails.into_iter().map(|s| format!("[{s}]")).collect();
            let error_msg = error_msgs.join(", ");
            panic!("Expected state does not match actual state: {error_msg}");
        }
    }
}

fn run_test(program_hex: &str, expected_state: &ExpectedState) {
    if program_hex.len() % 2 != 0 {
        panic!("program length is {}, must be a multiple of 2", program_hex.len());
    }

    if program_hex.chars().any(|c| !c.is_digit(16)) {
        panic!("program contains non-hexadecimal characters: '{program_hex}'");
    }

    let mut rom = vec![0x00; 0x150];
    // JP 0x0150
    rom[0x100..0x104].copy_from_slice(&[0x00, 0xC3, 0x50, 0x01]);

    for i in (0..program_hex.len()).step_by(2) {
        let byte_str = &program_hex[i..i + 2];
        let byte = u8::from_str_radix(byte_str, 16)
            .expect("program should only contain valid hexadecimal digits");
        rom.push(byte);
    }

    let rom_len = rom.len() as u16;

    let mut address_space = AddressSpace::new(
        Cartridge::new(rom, None).expect("synthesized test ROM should be valid"),
        ExecutionMode::GameBoy,
    );
    let mut cpu_registers = CpuRegisters::new(ExecutionMode::GameBoy);
    let ppu_state = PpuState::new();

    while cpu_registers.pc >= 0x0100 && cpu_registers.pc < rom_len {
        let (instruction, pc) =
            parse_next_instruction(&address_space, cpu_registers.pc, &ppu_state)
                .expect("all instructions in program should be valid");
        cpu_registers.pc = pc;

        instruction
            .execute(&mut address_space, &mut cpu_registers, &ppu_state)
            .expect("all instructions in program should successfully execute");
    }

    expected_state.assert_matches(&cpu_registers, &address_space, &ppu_state);
}

const ALL_REGISTERS: [CpuRegister; 7] = [
    CpuRegister::A,
    CpuRegister::B,
    CpuRegister::C,
    CpuRegister::D,
    CpuRegister::E,
    CpuRegister::H,
    CpuRegister::L,
];

fn set_in_state(state: &mut ExpectedState, register: CpuRegister, value: u8) {
    let var_ref = match register {
        CpuRegister::A => &mut state.a,
        CpuRegister::B => &mut state.b,
        CpuRegister::C => &mut state.c,
        CpuRegister::D => &mut state.d,
        CpuRegister::E => &mut state.e,
        CpuRegister::H => &mut state.h,
        CpuRegister::L => &mut state.l,
    };

    *var_ref = Some(value);
}

// ---- arithmetic ----
#[test]
fn add_immediate() {
    run_test(
        // LD A, 0x05; ADD 0xDE
        "3E05C6DE",
        &ExpectedState { a: Some(0xE3), f: Some(0x20), ..ExpectedState::empty() },
    );

    run_test(
        // LD A, 0x01; ADD 0x03
        "3E01C603",
        &ExpectedState { a: Some(0x04), f: Some(0x00), ..ExpectedState::empty() },
    );

    run_test(
        // LD A, 0x55; ADD 0xAB
        "3E55C6AB",
        &ExpectedState { a: Some(0x00), f: Some(0xB0), ..ExpectedState::empty() },
    );

    run_test(
        // LD A, 0xFF; ADD 0x12
        "3EFFC612",
        &ExpectedState { a: Some(0x11), f: Some(0x30), ..ExpectedState::empty() },
    );

    run_test(
        // LD A, 0xFF; SCF; ADD 0x12
        "3EFF37C612",
        &ExpectedState { a: Some(0x11), f: Some(0x30), ..ExpectedState::empty() },
    );
}

#[test]
fn add_indirect_hl() {
    run_test(
        // LD HL, 0xCDA4; LD (HL), 0x3B; LD A, 0xA1; ADD (HL)
        "21A4CD363B3EA186",
        &ExpectedState { a: Some(0xDC), f: Some(0x00), ..ExpectedState::empty() },
    );
}

#[test]
fn add_register() {
    for r in ALL_REGISTERS {
        let load_opcode = 0x06 | (to_opcode_bits(r) << 3);
        let load_opcode_hex = format!("{load_opcode:02x}");

        let add_opcode = 0x80 | to_opcode_bits(r);
        let add_opcode_hex = format!("{add_opcode:02x}");

        let (expected_a, expected_f) = match r {
            CpuRegister::A => (0x68, 0x10),
            _ => (0xEA, 0x00),
        };

        run_test(
            // LD A, 0x36; LD <r>, 0xB4; ADD <r>
            &format!("3E36{load_opcode_hex}B4{add_opcode_hex}"),
            &ExpectedState { a: Some(expected_a), f: Some(expected_f), ..ExpectedState::empty() },
        );
    }
}

#[test]
fn adc_immediate() {
    run_test(
        // LD A, 0xBC; ADC 0x15
        "3EBCCE15",
        &ExpectedState { a: Some(0xD1), f: Some(0x20), ..ExpectedState::empty() },
    );

    run_test(
        // LD A, 0xBC; SCF; ADC 0x15
        "3EBC37CE15",
        &ExpectedState { a: Some(0xD2), f: Some(0x20), ..ExpectedState::empty() },
    );

    run_test(
        // LD A, 0xFD; SCF; ADC 0x02
        "3EFD37CE02",
        &ExpectedState { a: Some(0x00), f: Some(0xB0), ..ExpectedState::empty() },
    );
}

#[test]
fn adc_indirect_hl() {
    run_test(
        // LD HL, 0xC612; LD (HL), 0xFD; LD A, 0x02; SCF; ADC (HL)
        "2112C636FD3E02378E",
        &ExpectedState { a: Some(0x00), f: Some(0xB0), ..ExpectedState::empty() },
    );
}

#[test]
fn adc_register() {
    for r in ALL_REGISTERS {
        let load_opcode = 0x06 | (to_opcode_bits(r) << 3);
        let load_opcode_hex = format!("{load_opcode:02x}");

        let adc_opcode = 0x88 | to_opcode_bits(r);
        let adc_opcode_hex = format!("{adc_opcode:02x}");

        let (expected_a, expected_f) = match r {
            CpuRegister::A => (0xA3, 0x10),
            _ => (0x19, 0x10),
        };

        run_test(
            // LD <r>, 0x47; LD A, 0xD1; SCF; ADC <r>
            &format!("{load_opcode_hex}473ED137{adc_opcode_hex}"),
            &ExpectedState { a: Some(expected_a), f: Some(expected_f), ..ExpectedState::empty() },
        );
    }
}

#[test]
fn sub_immediate() {
    run_test(
        // LD A, 0xF5; SUB 0x13
        "3EF5D613",
        &ExpectedState { a: Some(0xE2), f: Some(0x40), ..ExpectedState::empty() },
    );

    run_test(
        // LD A, 0xF5; SCF; SUB 0x13
        "3EF537D613",
        &ExpectedState { a: Some(0xE2), f: Some(0x40), ..ExpectedState::empty() },
    );

    run_test(
        // LD A, 0xCC; SUB 0xCC
        "3ECCD6CC",
        &ExpectedState { a: Some(0x00), f: Some(0xC0), ..ExpectedState::empty() },
    );

    run_test(
        // LD A, 0x12; SUB 0x51
        "3E12D651",
        &ExpectedState { a: Some(0xC1), f: Some(0x50), ..ExpectedState::empty() },
    );

    run_test(
        // LD A, 0xF3; SUB 0x0A
        "3EF3D60A",
        &ExpectedState { a: Some(0xE9), f: Some(0x60), ..ExpectedState::empty() },
    );

    run_test(
        // LD A, 0x00; SUB 0xFF
        "3E00D6FF",
        &ExpectedState { a: Some(0x01), f: Some(0x70), ..ExpectedState::empty() },
    );
}

#[test]
fn sub_indirect_hl() {
    run_test(
        // LD HL, 0xD0BC; LD (HL), 0xDD; LD A, 0x88; SUB (HL)
        "21BCD036DD3E8896",
        &ExpectedState { a: Some(0xAB), f: Some(0x70), ..ExpectedState::empty() },
    );
}

#[test]
fn sub_register() {
    for r in ALL_REGISTERS {
        let load_opcode = 0x06 | (to_opcode_bits(r) << 3);
        let load_opcode_hex = format!("{load_opcode:02x}");

        let sub_opcode = 0x90 | to_opcode_bits(r);
        let sub_opcode_hex = format!("{sub_opcode:02x}");

        let (expected_a, expected_f) = match r {
            CpuRegister::A => (0x00, 0xC0),
            _ => (0x2F, 0x60),
        };

        run_test(
            // LD <r>, 0xAF; LD A, 0xDE; SUB <r>
            &format!("{load_opcode_hex}AF3EDE{sub_opcode_hex}"),
            &ExpectedState { a: Some(expected_a), f: Some(expected_f), ..ExpectedState::empty() },
        );
    }
}

#[test]
fn sbc_immediate() {
    run_test(
        // LD A, 0x5E; SBC 0x23
        "3E5EDE23",
        &ExpectedState { a: Some(0x3B), f: Some(0x40), ..ExpectedState::empty() },
    );

    run_test(
        // LD A, 0x5E; SCF; SBC 0x23
        "3E5E37DE23",
        &ExpectedState { a: Some(0x3A), f: Some(0x40), ..ExpectedState::empty() },
    );

    run_test(
        // LD A, 0x01; SCF; SBC 0x01
        "3E0137DE01",
        &ExpectedState { a: Some(0xFF), f: Some(0x70), ..ExpectedState::empty() },
    );

    run_test(
        // LD A, 0x01; SCF; SBC 0x00
        "3E0137DE00",
        &ExpectedState { a: Some(0x00), f: Some(0xC0), ..ExpectedState::empty() },
    );
}

#[test]
fn sbc_indirect_hl() {
    run_test(
        // LD HL, 0xD9DC; LD (HL), 0xFC; LD A, 0xF3; SCF; SBC (HL)
        "21DCD936FC3EF3379E",
        &ExpectedState { a: Some(0xF6), f: Some(0x70), ..ExpectedState::empty() },
    );
}

#[test]
fn sbc_register() {
    for r in ALL_REGISTERS {
        let load_opcode = 0x06 | (to_opcode_bits(r) << 3);
        let load_opcode_hex = format!("{load_opcode:02x}");

        let sbc_opcode = 0x98 | to_opcode_bits(r);
        let sbc_opcode_hex = format!("{sbc_opcode:02x}");

        let (expected_a, expected_f) = match r {
            CpuRegister::A => (0xFF, 0x70),
            _ => (0xF6, 0x70),
        };

        run_test(
            // LD <r>, 0xFC; LD A, 0xF3; SCF; SBC <r>
            &format!("{load_opcode_hex}FC3EF337{sbc_opcode_hex}"),
            &ExpectedState { a: Some(expected_a), f: Some(expected_f), ..ExpectedState::empty() },
        );
    }
}

#[test]
fn cp_immediate() {
    run_test(
        // LD A, 0xF5; CP 0x13
        "3EF5FE13",
        &ExpectedState { a: Some(0xF5), f: Some(0x40), ..ExpectedState::empty() },
    );

    run_test(
        // LD A, 0xCC; CP 0xCC
        "3ECCFECC",
        &ExpectedState { a: Some(0xCC), f: Some(0xC0), ..ExpectedState::empty() },
    );

    run_test(
        // LD A, 0xCC; SCF; CP 0xCD
        "3ECC37FECD",
        &ExpectedState { a: Some(0xCC), f: Some(0x70), ..ExpectedState::empty() },
    );

    run_test(
        // LD A, 0x12; CP 0x51
        "3E12FE51",
        &ExpectedState { a: Some(0x12), f: Some(0x50), ..ExpectedState::empty() },
    );

    run_test(
        // LD A, 0xF3; CP 0x0A
        "3EF3FE0A",
        &ExpectedState { a: Some(0xF3), f: Some(0x60), ..ExpectedState::empty() },
    );

    run_test(
        // LD A, 0x00; CP 0xFF
        "3E00FEFF",
        &ExpectedState { a: Some(0x00), f: Some(0x70), ..ExpectedState::empty() },
    );
}

#[test]
fn cp_indirect_hl() {
    run_test(
        // LD HL, 0xD0BC; LD (HL), 0xDD; LD A, 0x88; CP (HL)
        "21BCD036DD3E88BE",
        &ExpectedState { a: Some(0x88), f: Some(0x70), ..ExpectedState::empty() },
    );

    run_test(
        // LD HL, 0xD0BC; LD (HL), 0xDD; LD A, 0xDD; CP (HL)
        "21BCD036DD3EDDBE",
        &ExpectedState { a: Some(0xDD), f: Some(0xC0), ..ExpectedState::empty() },
    );
}

#[test]
fn cp_register() {
    for r in ALL_REGISTERS {
        let load_opcode = 0x06 | (to_opcode_bits(r) << 3);
        let load_opcode_hex = format!("{load_opcode:02x}");

        let cp_opcode = 0xB8 | to_opcode_bits(r);
        let cp_opcode_hex = format!("{cp_opcode:02x}");

        let (expected_a, expected_f) = match r {
            CpuRegister::A => (0xDE, 0xC0),
            _ => (0xDE, 0x60),
        };

        run_test(
            // LD <r>, 0xAF; LD A, 0xDE; CP <r>
            &format!("{load_opcode_hex}AF3EDE{cp_opcode_hex}"),
            &ExpectedState { a: Some(expected_a), f: Some(expected_f), ..ExpectedState::empty() },
        );
    }
}

#[test]
fn inc_register() {
    for r in ALL_REGISTERS {
        let load_opcode = 0x06 | (to_opcode_bits(r) << 3);
        let load_opcode_hex = format!("{load_opcode:02x}");

        let inc_opcode = 0x04 | (to_opcode_bits(r) << 3);
        let inc_opcode_hex = format!("{inc_opcode:02x}");

        let mut expected_state = ExpectedState::empty();
        set_in_state(&mut expected_state, r, 0x39);
        expected_state.f = Some(0x00);

        run_test(
            // LD <r>, 0x38; INC <r>
            &format!("{load_opcode_hex}38{inc_opcode_hex}"),
            &expected_state,
        );

        let mut expected_state = ExpectedState::empty();
        set_in_state(&mut expected_state, r, 0x39);
        expected_state.f = Some(0x10);

        run_test(
            // LD <r>, 0x38; SCF; INC <r>
            &format!("{load_opcode_hex}3837{inc_opcode_hex}"),
            &expected_state,
        );

        let mut expected_state = ExpectedState::empty();
        set_in_state(&mut expected_state, r, 0xA0);
        expected_state.f = Some(0x20);

        run_test(
            // LD <r>, 0x9F; INC <r>
            &format!("{load_opcode_hex}9F{inc_opcode_hex}"),
            &expected_state,
        );

        let mut expected_state = ExpectedState::empty();
        set_in_state(&mut expected_state, r, 0x00);
        expected_state.f = Some(0xA0);

        run_test(
            // LD <r>, 0xFF; INC <r>
            &format!("{load_opcode_hex}FF{inc_opcode_hex}"),
            &expected_state,
        );
    }
}

#[test]
fn inc_indirect_hl() {
    run_test(
        // LD HL, 0xDB3D; LD (HL), 0x20; INC (HL)
        "213DDB362034",
        &ExpectedState {
            f: Some(0x00),
            memory: hash_map(&[(0xDB3D, 0x21)]),
            ..ExpectedState::empty()
        },
    );

    run_test(
        // LD HL, 0xDB3D; LD (HL), 0x20; SCF; INC (HL)
        "213DDB36203734",
        &ExpectedState {
            f: Some(0x10),
            memory: hash_map(&[(0xDB3D, 0x21)]),
            ..ExpectedState::empty()
        },
    );

    run_test(
        // LD HL, 0xC545; LD (HL), 0xCF; INC (HL)
        "2145C536CF34",
        &ExpectedState {
            f: Some(0x20),
            memory: hash_map(&[(0xC545, 0xD0)]),
            ..ExpectedState::empty()
        },
    );

    run_test(
        // LD HL, 0xDE3A; LD (HL), 0xFF; INC (HL)
        "213ADE36FF34",
        &ExpectedState {
            f: Some(0xA0),
            memory: hash_map(&[(0xDE3A, 0x00)]),
            ..ExpectedState::empty()
        },
    );
}

#[test]
fn dec_register() {
    for r in ALL_REGISTERS {
        let load_opcode = 0x06 | (to_opcode_bits(r) << 3);
        let load_opcode_hex = format!("{load_opcode:02x}");

        let dec_opcode = 0x05 | (to_opcode_bits(r) << 3);
        let dec_opcode_hex = format!("{dec_opcode:02x}");

        let mut expected_state = ExpectedState::empty();
        set_in_state(&mut expected_state, r, 0x3D);
        expected_state.f = Some(0x40);

        run_test(
            // LD <r>, 0x3E; DEC <r>
            &format!("{load_opcode_hex}3E{dec_opcode_hex}"),
            &expected_state,
        );

        let mut expected_state = ExpectedState::empty();
        set_in_state(&mut expected_state, r, 0x3D);
        expected_state.f = Some(0x50);

        run_test(
            // LD <r>, 0x3E; SCF; DEC <r>
            &format!("{load_opcode_hex}3E37{dec_opcode_hex}"),
            &expected_state,
        );

        let mut expected_state = ExpectedState::empty();
        set_in_state(&mut expected_state, r, 0x9F);
        expected_state.f = Some(0x60);

        run_test(
            // LD <r> 0xA0; DEC <r>
            &format!("{load_opcode_hex}A0{dec_opcode_hex}"),
            &expected_state,
        );

        let mut expected_state = ExpectedState::empty();
        set_in_state(&mut expected_state, r, 0x00);
        expected_state.f = Some(0xC0);

        run_test(
            // LD <r> 0x01; DEC <r>
            &format!("{load_opcode_hex}01{dec_opcode_hex}"),
            &expected_state,
        );

        let mut expected_state = ExpectedState::empty();
        set_in_state(&mut expected_state, r, 0xFF);
        expected_state.f = Some(0x60);

        run_test(
            // LD <r> 0x00; DEC <r>
            &format!("{load_opcode_hex}00{dec_opcode_hex}"),
            &expected_state,
        );
    }
}

#[test]
fn dec_indirect_hl() {
    run_test(
        // LD HL, 0xDA48; LD (HL), 0x3E; DEC (HL)
        "2148DA363E35",
        &ExpectedState {
            f: Some(0x40),
            memory: hash_map(&[(0xDA48, 0x3D)]),
            ..ExpectedState::empty()
        },
    );

    run_test(
        // LD HL, 0xC5EC; LD (HL), 0x3E; SCF; DEC (HL)
        "21ECC5363E3735",
        &ExpectedState {
            f: Some(0x50),
            memory: hash_map(&[(0xC5EC, 0x3D)]),
            ..ExpectedState::empty()
        },
    );

    run_test(
        // LD HL, 0xDBCF; LD (HL), 0x20; DEC (HL)
        "21CFDB362035",
        &ExpectedState {
            f: Some(0x60),
            memory: hash_map(&[(0xDBCF, 0x1F)]),
            ..ExpectedState::empty()
        },
    );

    run_test(
        // LD HL, 0xC1D5; LD (HL), 0x01; DEC (HL)
        "21D5C1360135",
        &ExpectedState {
            f: Some(0xC0),
            memory: hash_map(&[(0xC1D5, 0x00)]),
            ..ExpectedState::empty()
        },
    );

    run_test(
        // LD HL, 0xD31C; LD (HL), 0x00; DEC (HL)
        "211CD3360035",
        &ExpectedState {
            f: Some(0x60),
            memory: hash_map(&[(0xD31C, 0xFF)]),
            ..ExpectedState::empty()
        },
    );
}

#[test]
fn and_immediate() {
    for n in 0x00..=0xFF {
        let nn = format!("{n:02x}");
        run_test(
            // LD A, 0x00; AND <n>
            &format!("3E00E6{nn}"),
            &ExpectedState { a: Some(0x00), f: Some(0xA0), ..ExpectedState::empty() },
        );

        run_test(
            // LD A, <n>; AND 0x00
            &format!("3E{nn}E600"),
            &ExpectedState { a: Some(0x00), f: Some(0xA0), ..ExpectedState::empty() },
        );

        let expected_f = if n & 0xA5 == 0 { 0xA0 } else { 0x20 };
        run_test(
            // LD A, <n>; AND 0xA5
            &format!("3E{nn}E6A5"),
            &ExpectedState { a: Some(n & 0xA5), f: Some(expected_f), ..ExpectedState::empty() },
        );

        let expected_f = if n & 0x5A == 0 { 0xA0 } else { 0x20 };
        run_test(
            // LD A, <n>; SCF; AND 0x5A
            &format!("3E{nn}37E65A"),
            &ExpectedState { a: Some(n & 0x5A), f: Some(expected_f), ..ExpectedState::empty() },
        );
    }
}

#[test]
fn and_indirect_hl() {
    run_test(
        // LD HL, 0xDDDE; LD (HL), 0xF0; LD A, 0x0F; AND (HL)
        "21DEDD36F03E0FA6",
        &ExpectedState { a: Some(0x00), f: Some(0xA0), ..ExpectedState::empty() },
    );

    run_test(
        // LD HL, 0xC83A; LD (HL), 0x3E; LD A, 0x9A; AND (HL)
        "213AC8363E3E9AA6",
        &ExpectedState { a: Some(0x1A), f: Some(0x20), ..ExpectedState::empty() },
    );
}

#[test]
fn and_register() {
    for r in ALL_REGISTERS {
        let load_opcode = 0x06 | (to_opcode_bits(r) << 3);
        let load_opcode_hex = format!("{load_opcode:02x}");

        let and_opcode = 0xA0 | to_opcode_bits(r);
        let and_opcode_hex = format!("{and_opcode:02x}");

        let (expected_a, expected_f) = match r {
            CpuRegister::A => (0xE5, 0x20),
            _ => (0x25, 0x20),
        };

        run_test(
            // LD <r>, 0x37; LD A, 0xE5; AND <r>
            &format!("{load_opcode_hex}373EE5{and_opcode_hex}"),
            &ExpectedState { a: Some(expected_a), f: Some(expected_f), ..ExpectedState::empty() },
        );

        let (expected_a, expected_f) = match r {
            CpuRegister::A => (0xAA, 0x20),
            _ => (0x00, 0xA0),
        };

        run_test(
            // LD <r>, 0x55; LD A, 0xAA; AND <r>
            &format!("{load_opcode_hex}553EAA{and_opcode_hex}"),
            &ExpectedState { a: Some(expected_a), f: Some(expected_f), ..ExpectedState::empty() },
        );
    }
}

#[test]
fn or_immediate() {
    for n in 0x00..=0xFF {
        let nn = format!("{n:02x}");

        let expected_f = if n == 0x00 { 0x80 } else { 0x00 };
        run_test(
            // LD A, 0x00; OR <n>
            &format!("3E00F6{nn}"),
            &ExpectedState { a: Some(n), f: Some(expected_f), ..ExpectedState::empty() },
        );

        run_test(
            // LD A, 0xFF; SCF; OR <n>
            &format!("3EFF37F6{nn}"),
            &ExpectedState { a: Some(0xFF), f: Some(0x00), ..ExpectedState::empty() },
        );

        let expected_f = if n == 0x00 { 0x80 } else { 0x00 };
        run_test(
            // LD A, <n>; OR 0x00
            &format!("3E{nn}F600"),
            &ExpectedState { a: Some(n), f: Some(expected_f), ..ExpectedState::empty() },
        );

        run_test(
            // LD A, 0x32; OR <n>
            &format!("3E32F6{nn}"),
            &ExpectedState { a: Some(n | 0x32), f: Some(0x00), ..ExpectedState::empty() },
        );
    }
}

#[test]
fn or_indirect_hl() {
    run_test(
        // LD HL, 0xC610; LD (HL), 0x6A; LD A, 0x00; OR (HL)
        "2110C6366A3E00B6",
        &ExpectedState { a: Some(0x6A), f: Some(0x00), ..ExpectedState::empty() },
    );

    run_test(
        // LD HL, 0xC610; LD (HL), 0x6A; LD A, 0x33; OR (HL)
        "2110C6366A3E33B6",
        &ExpectedState { a: Some(0x7B), f: Some(0x00), ..ExpectedState::empty() },
    );

    run_test(
        // LD HL, 0xC610; LD (HL), 0x00; LD A, 0x00; OR (HL)
        "2110C636003E00B6",
        &ExpectedState { a: Some(0x00), f: Some(0x80), ..ExpectedState::empty() },
    );
}

#[test]
fn or_register() {
    for r in ALL_REGISTERS {
        let load_opcode = 0x06 | (to_opcode_bits(r) << 3);
        let load_opcode_hex = format!("{load_opcode:02x}");

        let or_opcode = 0xB0 | to_opcode_bits(r);
        let or_opcode_hex = format!("{or_opcode:02x}");

        let (expected_a, expected_f) = match r {
            CpuRegister::A => (0x86, 0x00),
            _ => (0xFE, 0x00),
        };
        run_test(
            // LD <r>, 0xFA; LD A, 0x86; SCF; OR <r>
            &format!("{load_opcode_hex}FA3E8637{or_opcode_hex}"),
            &ExpectedState { a: Some(expected_a), f: Some(expected_f), ..ExpectedState::empty() },
        );

        run_test(
            // LD <r>, 0x00; LD A, 0x00; OR <r>
            &format!("{load_opcode_hex}003E00{or_opcode_hex}"),
            &ExpectedState { a: Some(0x00), f: Some(0x80), ..ExpectedState::empty() },
        );
    }
}

#[test]
fn xor_immediate() {
    for n in 0x00..=0xFF {
        let nn = format!("{n:02x}");

        let expected_f = if n == 0x00 { 0x80 } else { 0x00 };
        run_test(
            // LD A, 0x00; XOR <n>
            &format!("3E00EE{nn}"),
            &ExpectedState { a: Some(n), f: Some(expected_f), ..ExpectedState::empty() },
        );

        let expected_f = if n ^ 0xFF == 0x00 { 0x80 } else { 0x00 };
        run_test(
            // LD A, 0xFF; XOR <n>
            &format!("3EFFEE{nn}"),
            &ExpectedState { a: Some(n ^ 0xFF), f: Some(expected_f), ..ExpectedState::empty() },
        );

        run_test(
            // LD A, <n>; XOR 0xFF
            &format!("3E{nn}EEFF"),
            &ExpectedState { a: Some(n ^ 0xFF), f: Some(expected_f), ..ExpectedState::empty() },
        );
    }

    run_test(
        // LD A, 0x00; SUB 0x01; XOR 0x33
        "3E00D601EE33",
        &ExpectedState { a: Some(0xCC), f: Some(0x00), ..ExpectedState::empty() },
    );
}

#[test]
fn xor_indirect_hl() {
    run_test(
        // LD HL, 0xDF9F; LD (HL), 0xD3; LD A, 0x98; XOR (HL)
        "219FDF36D33E98AE",
        &ExpectedState { a: Some(0x4B), f: Some(0x00), ..ExpectedState::empty() },
    );

    run_test(
        // LD A, 0x00; SUB 0x01; LD HL, 0xDF9F; LD (HL), 0x44; LD A, 0x44; XOR (HL)
        "3E00D601219FDF36443E44AE",
        &ExpectedState { a: Some(0x00), f: Some(0x80), ..ExpectedState::empty() },
    );
}

#[test]
fn xor_register() {
    for r in ALL_REGISTERS {
        let load_opcode = 0x06 | (to_opcode_bits(r) << 3);
        let load_opcode_hex = format!("{load_opcode:02x}");

        let xor_opcode = 0xA8 | to_opcode_bits(r);
        let xor_opcode_hex = format!("{xor_opcode:02x}");

        let (expected_a, expected_f) = match r {
            CpuRegister::A => (0x00, 0x80),
            _ => (0x8C, 0x00),
        };
        run_test(
            // LD A, 0x00; SUB 0x01; LD <r>, 0x1A; LD A, 0x96; XOR <r>
            &format!("3E00D601{load_opcode_hex}1A3E96{xor_opcode_hex}"),
            &ExpectedState { a: Some(expected_a), f: Some(expected_f), ..ExpectedState::empty() },
        );
    }
}

#[test]
fn carry_flag_manipulation() {
    run_test(
        // SCF
        "37",
        &ExpectedState { f: Some(0x10), ..ExpectedState::empty() },
    );

    run_test(
        // SCF; SCF
        "3737",
        &ExpectedState { f: Some(0x10), ..ExpectedState::empty() },
    );

    run_test(
        // CCF
        "3F",
        &ExpectedState { f: Some(0x10), ..ExpectedState::empty() },
    );

    run_test(
        // CCF; CCF
        "3F3F",
        &ExpectedState { f: Some(0x00), ..ExpectedState::empty() },
    );

    run_test(
        // LD A, 0x10; SUB 0x01; SCF
        "3E10D60137",
        &ExpectedState { f: Some(0x10), ..ExpectedState::empty() },
    );

    run_test(
        // LD A, 0x00; SUB 0x01; CCF
        "3E00D6013F",
        &ExpectedState { f: Some(0x00), ..ExpectedState::empty() },
    );

    run_test(
        // LD A, 0x10; SUB 0x01; CCF
        "3E10D6013F",
        &ExpectedState { f: Some(0x10), ..ExpectedState::empty() },
    );
}

#[test]
fn complement_accumulator() {
    for n in 0x00..=0xFF {
        let nn = format!("{n:02x}");

        run_test(
            // LD A, <n>; CPL
            &format!("3E{nn}2F"),
            &ExpectedState { a: Some(!n), f: Some(0x60), ..ExpectedState::empty() },
        );
    }

    run_test(
        // LD A, 0xC3; SCF; CPL
        "3EC3372F",
        &ExpectedState { a: Some(0x3C), f: Some(0x70), ..ExpectedState::empty() },
    );

    run_test(
        // LD A, 0x01; SUB 0x01; CPL
        "3E01D6012F",
        &ExpectedState { a: Some(0xFF), f: Some(0xE0), ..ExpectedState::empty() },
    );
}

#[test]
fn bcd_add() {
    run_test(
        // LD A, 0x33; LD B, 0x57; ADD B; DAA
        "3E3306578027",
        &ExpectedState { a: Some(0x90), f: Some(0x00), ..ExpectedState::empty() },
    );

    run_test(
        // LD A, 0x99; LD B, 0x11; ADD B; DAA
        "3E9906118027",
        &ExpectedState { a: Some(0x10), f: Some(0x10), ..ExpectedState::empty() },
    );

    run_test(
        // LD A, 0x25; LD B, 0x75; ADD B; DAA
        "3E2506758027",
        &ExpectedState { a: Some(0x00), f: Some(0x90), ..ExpectedState::empty() },
    );
}

#[test]
fn bcd_sub() {
    run_test(
        // LD A, 0x30; LD B, 0x05; SUB B; DAA
        "3E3006059027",
        &ExpectedState { a: Some(0x25), f: Some(0x40), ..ExpectedState::empty() },
    );

    run_test(
        // LD A, 0x13; LD B, 0x73; SUB B; DAA
        "3E1306739027",
        &ExpectedState { a: Some(0x40), f: Some(0x50), ..ExpectedState::empty() },
    );

    run_test(
        // LD A, 0x99; SUB A; DAA
        "3E999727",
        &ExpectedState { a: Some(0x00), f: Some(0xC0), ..ExpectedState::empty() },
    );
}

#[test]
fn add_hl_register_pair() {
    run_test(
        // LD HL, 0x1234; LD BC, 0x5678; ADD HL, BC
        "21341201785609",
        &ExpectedState { h: Some(0x68), l: Some(0xAC), f: Some(0x00), ..ExpectedState::empty() },
    );

    run_test(
        // LD HL, 0xFFEE; LD DE, 0x0155; ADD HL, DE
        "21EEFF11550119",
        &ExpectedState { h: Some(0x01), l: Some(0x43), f: Some(0x30), ..ExpectedState::empty() },
    );

    run_test(
        // LD HL, 0x3911; ADD HL, HL
        "21113929",
        &ExpectedState { h: Some(0x72), l: Some(0x22), f: Some(0x20), ..ExpectedState::empty() },
    );

    run_test(
        // LD HL, 0xC123; ADD HL, SP
        "2123C139",
        &ExpectedState { h: Some(0xC1), l: Some(0x21), f: Some(0x30), ..ExpectedState::empty() },
    );

    run_test(
        // LD HL, 0xFEF0; LD BC, 0x0110; ADD HL, BC
        "21F0FE01100109",
        &ExpectedState { h: Some(0x00), l: Some(0x00), f: Some(0x30), ..ExpectedState::empty() },
    );
}

#[test]
fn inc_register_pair() {
    run_test(
        // LD BC, 0x4C2F; INC BC
        "012F4C03",
        &ExpectedState { b: Some(0x4C), c: Some(0x30), f: Some(0x00), ..ExpectedState::empty() },
    );

    run_test(
        // LD DE, 0x4CFF; INC DE
        "11FF4C13",
        &ExpectedState { d: Some(0x4D), e: Some(0x00), f: Some(0x00), ..ExpectedState::empty() },
    );

    run_test(
        // LD HL, 0xFFFF; INC HL
        "21FFFF23",
        &ExpectedState { h: Some(0x00), l: Some(0x00), f: Some(0x00), ..ExpectedState::empty() },
    );

    run_test(
        // INC SP
        "33",
        &ExpectedState { sp: Some(0xFFFF), f: Some(0x00), ..ExpectedState::empty() },
    );
}

#[test]
fn dec_register_pair() {
    run_test(
        // LD BC, 0x3652; DEC BC
        "0152360B",
        &ExpectedState { b: Some(0x36), c: Some(0x51), f: Some(0x00), ..ExpectedState::empty() },
    );

    run_test(
        // LD DE, 0xFF00; DEC DE
        "1100FF1B",
        &ExpectedState { d: Some(0xFE), e: Some(0xFF), f: Some(0x00), ..ExpectedState::empty() },
    );

    run_test(
        // LD HL, 0x0000; DEC HL
        "2100002B",
        &ExpectedState { h: Some(0xFF), l: Some(0xFF), f: Some(0x00), ..ExpectedState::empty() },
    );

    run_test(
        // DEC SP
        "3B",
        &ExpectedState { sp: Some(0xFFFD), f: Some(0x00), ..ExpectedState::empty() },
    );
}

#[test]
fn add_sp_offset() {
    run_test(
        // ADD SP, 5
        "E805",
        &ExpectedState { sp: Some(0x0003), f: Some(0x30), ..ExpectedState::empty() },
    );

    run_test(
        // ADD SP, -5
        "E8FB",
        &ExpectedState { sp: Some(0xFFF9), f: Some(0x30), ..ExpectedState::empty() },
    );

    run_test(
        // LD SP, 0x0FF0; ADD SP, 16
        "31F00FE810",
        &ExpectedState { sp: Some(0x1000), f: Some(0x10), ..ExpectedState::empty() },
    );

    run_test(
        // LD SP, 0x0005; ADD SP, -11
        "310500E8F5",
        &ExpectedState { sp: Some(0xFFFA), f: Some(0x00), ..ExpectedState::empty() },
    );

    run_test(
        // LD SP, 0xF005; ADD SP, -37
        "3105F0E8DB",
        &ExpectedState { sp: Some(0xEFE0), f: Some(0x20), ..ExpectedState::empty() },
    );
}

#[test]
fn load_hl_sp_offset() {
    run_test(
        // LD HL, SP+5
        "F805",
        &ExpectedState {
            h: Some(0x00),
            l: Some(0x03),
            sp: Some(0xFFFE),
            f: Some(0x30),
            ..ExpectedState::empty()
        },
    );

    run_test(
        // LD HL, SP-5
        "F8FB",
        &ExpectedState {
            h: Some(0xFF),
            l: Some(0xF9),
            sp: Some(0xFFFE),
            f: Some(0x30),
            ..ExpectedState::empty()
        },
    );

    run_test(
        // LD SP, 0x0FF0; LD HL, SP+16
        "31F00FF810",
        &ExpectedState {
            h: Some(0x10),
            l: Some(0x00),
            sp: Some(0x0FF0),
            f: Some(0x10),
            ..ExpectedState::empty()
        },
    );

    run_test(
        // LD SP, 0x0005; LD HL, SP-11
        "310500F8F5",
        &ExpectedState {
            h: Some(0xFF),
            l: Some(0xFA),
            sp: Some(0x0005),
            f: Some(0x00),
            ..ExpectedState::empty()
        },
    );

    run_test(
        // LD SP, 0xF005; LD HL, SP-37
        "3105F0F8DB",
        &ExpectedState {
            h: Some(0xEF),
            l: Some(0xE0),
            sp: Some(0xF005),
            f: Some(0x20),
            ..ExpectedState::empty()
        },
    );
}

// ---- bits ----
#[test]
fn bits_rotate_left_accumulator() {
    run_test(
        // LD A, 0x00; RLCA
        "3E0007",
        &ExpectedState {
            a: Some(0x00),
            f: Some(0x00),
            ..ExpectedState::empty()
        },
    );

    run_test(
        // LD A, 0x0F; RLCA
        "3E0F07",
        &ExpectedState {
            a: Some(0x1E),
            f: Some(0x00),
            ..ExpectedState::empty()
        },
    );

    run_test(
        // LD A, 0xC1; RLCA
        "3EC107",
        &ExpectedState {
            a: Some(0x83),
            f: Some(0x10),
            ..ExpectedState::empty()
        },
    );

    run_test(
        // LD A, 0x00; SUB 0x02; RLCA
        "3E00D60207",
        &ExpectedState {
            a: Some(0xFD),
            f: Some(0x10),
            ..ExpectedState::empty()
        },
    );
}

#[test]
fn bits_rotate_left_accumulator_thru_carry() {
    run_test(
        // LD A, 0x00; RLA
        "3E0017",
        &ExpectedState {
            a: Some(0x00),
            f: Some(0x00),
            ..ExpectedState::empty()
        },
    );

    run_test(
        // LD A, 0x36; RLA
        "3E3617",
        &ExpectedState {
            a: Some(0x6C),
            f: Some(0x00),
            ..ExpectedState::empty()
        },
    );

    run_test(
        // LD A, 0x91; RLA
        "3E9117",
        &ExpectedState {
            a: Some(0x22),
            f: Some(0x10),
            ..ExpectedState::empty()
        },
    );

    run_test(
        // LD A, 0x7D; SCF; RLA
        "3E7D3717",
        &ExpectedState {
            a: Some(0xFB),
            f: Some(0x00),
            ..ExpectedState::empty()
        },
    );

    run_test(
        // LD A, 0xC8; SCF; RLA
        "3EC83717",
        &ExpectedState {
            a: Some(0x91),
            f: Some(0x10),
            ..ExpectedState::empty()
        },
    );

    run_test(
        // LD A, 0x00; SUB 0x01; RLA
        "3E00D60117",
        &ExpectedState {
            a: Some(0xFF),
            f: Some(0x10),
            ..ExpectedState::empty()
        },
    );
}

#[test]
fn bits_rotate_right_accumulator() {
    run_test(
        // LD A, 0x00; RRCA
        "3E000F",
        &ExpectedState {
            a: Some(0x00),
            f: Some(0x00),
            ..ExpectedState::empty()
        },
    );

    run_test(
        // LD A, 0xFF; RRCA
        "3EFF0F",
        &ExpectedState {
            a: Some(0xFF),
            f: Some(0x10),
            ..ExpectedState::empty()
        },
    );

    run_test(
        // LD A, 0x18; RRCA
        "3E180F",
        &ExpectedState {
            a: Some(0x0C),
            f: Some(0x00),
            ..ExpectedState::empty()
        },
    );

    run_test(
        // LD A, 0x39; RRCA
        "3E390F",
        &ExpectedState {
            a: Some(0x9C),
            f: Some(0x10),
            ..ExpectedState::empty()
        },
    );

    run_test(
        // LD A, 0x00; SUB 0x01; LD A, 0x18; RRCA
        "3E00D6013E180F",
        &ExpectedState {
            a: Some(0x0C),
            f: Some(0x00),
            ..ExpectedState::empty()
        },
    );
}

#[test]
fn bits_rotate_right_accumulator_thru_carry() {
    run_test(
        // LD A, 0x00; RRA
        "3E001F",
        &ExpectedState {
            a: Some(0x00),
            f: Some(0x00),
            ..ExpectedState::empty()
        },
    );

    run_test(
        // LD A, 0xFF; RRA
        "3EFF1F",
        &ExpectedState {
            a: Some(0x7F),
            f: Some(0x10),
            ..ExpectedState::empty()
        },
    );

    run_test(
        // LD A, 0xFF; SCF; RRA
        "3EFF371F",
        &ExpectedState {
            a: Some(0xFF),
            f: Some(0x10),
            ..ExpectedState::empty()
        },
    );

    run_test(
        // LD A, 0x34; RRA
        "3E341F",
        &ExpectedState {
            a: Some(0x1A),
            f: Some(0x00),
            ..ExpectedState::empty()
        },
    );

    run_test(
        // LD A, 0x34; SCF; RRA
        "3E34371F",
        &ExpectedState {
            a: Some(0x9A),
            f: Some(0x00),
            ..ExpectedState::empty()
        },
    );

    run_test(
        // LD A, 0x00; SUB 0x01; LD A, 0x11; RRA
        "3E00D6013E111F",
        &ExpectedState {
            a: Some(0x88),
            f: Some(0x10),
            ..ExpectedState::empty()
        },
    );
}

// ---- bitshift ----
#[test]
fn bitshift_rotate_left_accumulator() {
    run_test(
        // LD A, 0x00; RLCA
        "3E0007",
        &ExpectedState {
            a: Some(0x00),
            f: Some(0x00),
            ..ExpectedState::empty()
        },
    );

    run_test(
        // LD A, 0x0F; RLCA
        "3E0F07",
        &ExpectedState {
            a: Some(0x1E),
            f: Some(0x00),
            ..ExpectedState::empty()
        },
    );

    run_test(
        // LD A, 0xC1; RLCA
        "3EC107",
        &ExpectedState {
            a: Some(0x83),
            f: Some(0x10),
            ..ExpectedState::empty()
        },
    );

    run_test(
        // LD A, 0x00; SUB 0x02; RLCA
        "3E00D60207",
        &ExpectedState {
            a: Some(0xFD),
            f: Some(0x10),
            ..ExpectedState::empty()
        },
    );
}

#[test]
fn rotate_left_indirect_hl() {
    run_test(
        // LD HL, 0xD6BE; LD (HL), 0x00; RLC (HL)
        "21BED63600CB06",
        &ExpectedState {
            memory: hash_map(&[(0xD6BE, 0x00)]),
            f: Some(0x80),
            ..ExpectedState::empty()
        },
    );

    run_test(
        // LD HL, 0xCD6E; LD (HL), 0x0F; RLC (HL)
        "216ECD360FCB06",
        &ExpectedState {
            memory: hash_map(&[(0xCD6E, 0x1E)]),
            f: Some(0x00),
            ..ExpectedState::empty()
        },
    );

    run_test(
        // LD HL, 0xD78F; LD (HL), 0xC1; RLC (HL)
        "218FD736C1CB06",
        &ExpectedState {
            memory: hash_map(&[(0xD78F, 0x83)]),
            f: Some(0x10),
            ..ExpectedState::empty()
        },
    );

    run_test(
        // LD A, 0x00; SUB 0x02; LD HL, 0xCF42; LD (HL), 0xFE; RLC (HL)
        "3E00D6022142CF36FECB06",
        &ExpectedState {
            memory: hash_map(&[(0xCF42, 0xFD)]),
            f: Some(0x10),
            ..ExpectedState::empty()
        },
    );
}

#[test]
fn rotate_left_register() {
    for r in ALL_REGISTERS {
        let load_opcode = 0x06 | (to_opcode_bits(r) << 3);
        let load_opcode_hex = format!("{load_opcode:02x}");

        let rlc_opcode = to_opcode_bits(r);
        let rlc_opcode_hex = format!("CB{rlc_opcode:02x}");

        let mut expected_state = ExpectedState::empty();
        set_in_state(&mut expected_state, r, 0x00);
        expected_state.f = Some(0x80);
        run_test(
            // LD <r>, 0x00; RLC <r>
            &format!("{load_opcode_hex}00{rlc_opcode_hex}"),
            &expected_state,
        );

        let mut expected_state = ExpectedState::empty();
        set_in_state(&mut expected_state, r, 0x1E);
        expected_state.f = Some(0x00);
        run_test(
            // LD <r>, 0x0F; RLC <r>
            &format!("{load_opcode_hex}0F{rlc_opcode_hex}"),
            &expected_state,
        );

        let mut expected_state = ExpectedState::empty();
        set_in_state(&mut expected_state, r, 0x83);
        expected_state.f = Some(0x10);
        run_test(
            // LD <r>, 0xC1; RLC <r>
            &format!("{load_opcode_hex}C1{rlc_opcode_hex}"),
            &expected_state,
        );

        let mut expected_state = ExpectedState::empty();
        set_in_state(&mut expected_state, r, 0xFD);
        expected_state.f = Some(0x10);
        run_test(
            // LD A, 0x00; SUB 0x02; LD <r>, 0xFE; RLC <r>
            // LD A, 0x00; SUB 0x02; RLCA
            &format!("3E00D602{load_opcode_hex}FE{rlc_opcode_hex}"),
            &expected_state,
        );
    }
}

#[test]
fn bitshift_rotate_left_accumulator_thru_carry() {
    run_test(
        // LD A, 0x00; RLA
        "3E0017",
        &ExpectedState {
            a: Some(0x00),
            f: Some(0x00),
            ..ExpectedState::empty()
        },
    );

    run_test(
        // LD A, 0x80; RLA
        "3E8017",
        &ExpectedState {
            a: Some(0x00),
            f: Some(0x10),
            ..ExpectedState::empty()
        },
    );

    run_test(
        // LD A, 0x36; RLA
        "3E3617",
        &ExpectedState {
            a: Some(0x6C),
            f: Some(0x00),
            ..ExpectedState::empty()
        },
    );

    run_test(
        // LD A, 0x91; RLA
        "3E9117",
        &ExpectedState {
            a: Some(0x22),
            f: Some(0x10),
            ..ExpectedState::empty()
        },
    );

    run_test(
        // LD A, 0x7D; SCF; RLA
        "3E7D3717",
        &ExpectedState {
            a: Some(0xFB),
            f: Some(0x00),
            ..ExpectedState::empty()
        },
    );

    run_test(
        // LD A, 0xC8; SCF; RLA
        "3EC83717",
        &ExpectedState {
            a: Some(0x91),
            f: Some(0x10),
            ..ExpectedState::empty()
        },
    );

    run_test(
        // LD A, 0x00; SUB 0x01; RLA
        "3E00D60117",
        &ExpectedState {
            a: Some(0xFF),
            f: Some(0x10),
            ..ExpectedState::empty()
        },
    );
}

#[test]
fn rotate_left_indirect_hl_thru_carry() {
    run_test(
        // LD HL, 0xCD29; LD (HL), 0x00; RL (HL)
        "2129CD3600CB16",
        &ExpectedState {
            memory: hash_map(&[(0xCD29, 0x00)]),
            f: Some(0x80),
            ..ExpectedState::empty()
        },
    );

    run_test(
        // LD HL, 0xCD29; LD (HL), 0x80; RL (HL)
        "2129CD3680CB16",
        &ExpectedState {
            memory: hash_map(&[(0xCD29, 0x00)]),
            f: Some(0x90),
            ..ExpectedState::empty()
        },
    );

    run_test(
        // LD HL, 0xD156; LD (HL), 0x36; RL (HL)
        "2156D13636CB16",
        &ExpectedState {
            memory: hash_map(&[(0xD156, 0x6C)]),
            f: Some(0x00),
            ..ExpectedState::empty()
        },
    );

    run_test(
        // LD HL, 0xC85F; LD (HL), 0x91; RL (HL)
        "215FC83691CB16",
        &ExpectedState {
            memory: hash_map(&[(0xC85F, 0x22)]),
            f: Some(0x10),
            ..ExpectedState::empty()
        },
    );

    run_test(
        // LD HL, 0xCED9; LD (HL), 0x7D; SCF; RL (HL)
        "21D9CE367D37CB16",
        &ExpectedState {
            memory: hash_map(&[(0xCED9, 0xFB)]),
            f: Some(0x00),
            ..ExpectedState::empty()
        },
    );

    run_test(
        // LD HL, 0xCAA8; LD (HL), 0xC8; SCF; RL (HL)
        "21A8CA36C837CB16",
        &ExpectedState {
            memory: hash_map(&[(0xCAA8, 0x91)]),
            f: Some(0x10),
            ..ExpectedState::empty()
        },
    );

    run_test(
        // LD A, 0x00; SUB 0x01; LD HL, 0xC1A7; LD (HL), A; RL (HL)
        "3E00D60121A7C177CB16",
        &ExpectedState {
            memory: hash_map(&[(0xC1A7, 0xFF)]),
            f: Some(0x10),
            ..ExpectedState::empty()
        },
    );
}

#[test]
fn rotate_left_register_thru_carry() {
    for r in ALL_REGISTERS {
        let load_opcode = 0x06 | (to_opcode_bits(r) << 3);
        let load_opcode_hex = format!("{load_opcode:02x}");

        let rl_opcode = 0x10 | to_opcode_bits(r);
        let rl_opcode_hex = format!("CB{rl_opcode:02x}");

        let mut expected_state = ExpectedState::empty();
        set_in_state(&mut expected_state, r, 0x00);
        expected_state.f = Some(0x80);
        run_test(
            // LD <r>, 0x00; RL <r>
            &format!("{load_opcode_hex}00{rl_opcode_hex}"),
            &expected_state,
        );

        let mut expected_state = ExpectedState::empty();
        set_in_state(&mut expected_state, r, 0x00);
        expected_state.f = Some(0x90);
        run_test(
            // LD <r> 0x80; RL <r>
            &format!("{load_opcode_hex}80{rl_opcode_hex}"),
            &expected_state,
        );

        let mut expected_state = ExpectedState::empty();
        set_in_state(&mut expected_state, r, 0x6C);
        expected_state.f = Some(0x00);
        run_test(
            // LD <r>, 0x36; RL <r>
            &format!("{load_opcode_hex}36{rl_opcode_hex}"),
            &expected_state,
        );

        let mut expected_state = ExpectedState::empty();
        set_in_state(&mut expected_state, r, 0x22);
        expected_state.f = Some(0x10);
        run_test(
            // LD <r>, 0x91; RL <r>
            &format!("{load_opcode_hex}91{rl_opcode_hex}"),
            &expected_state,
        );

        let mut expected_state = ExpectedState::empty();
        set_in_state(&mut expected_state, r, 0xFB);
        expected_state.f = Some(0x00);
        run_test(
            // LD <r>, 0x7D; SCF; RL <r>
            &format!("{load_opcode_hex}7D37{rl_opcode_hex}"),
            &expected_state,
        );

        let mut expected_state = ExpectedState::empty();
        set_in_state(&mut expected_state, r, 0x91);
        expected_state.f = Some(0x10);
        run_test(
            // LD <r>, 0xC8; SCF; RL <r>
            &format!("{load_opcode_hex}C837{rl_opcode_hex}"),
            &expected_state,
        );

        let mut expected_state = ExpectedState::empty();
        set_in_state(&mut expected_state, r, 0xFF);
        expected_state.f = Some(0x10);
        run_test(
            // LD A, 0x00; SUB 0x01; LD <r>, 0xFF; RL <r>
            &format!("3E00D601{load_opcode_hex}FF{rl_opcode_hex}"),
            &expected_state,
        );
    }
}

#[test]
fn bitshift_rotate_right_accumulator() {
    run_test(
        // LD A, 0x00; RRCA
        "3E000F",
        &ExpectedState {
            a: Some(0x00),
            f: Some(0x00),
            ..ExpectedState::empty()
        },
    );

    run_test(
        // LD A, 0xFF; RRCA
        "3EFF0F",
        &ExpectedState {
            a: Some(0xFF),
            f: Some(0x10),
            ..ExpectedState::empty()
        },
    );

    run_test(
        // LD A, 0x18; RRCA
        "3E180F",
        &ExpectedState {
            a: Some(0x0C),
            f: Some(0x00),
            ..ExpectedState::empty()
        },
    );

    run_test(
        // LD A, 0x39; RRCA
        "3E390F",
        &ExpectedState {
            a: Some(0x9C),
            f: Some(0x10),
            ..ExpectedState::empty()
        },
    );

    run_test(
        // LD A, 0x00; SUB 0x01; LD A, 0x18; RRCA
        "3E00D6013E180F",
        &ExpectedState {
            a: Some(0x0C),
            f: Some(0x00),
            ..ExpectedState::empty()
        },
    );
}

#[test]
fn rotate_right_indirect_hl() {
    run_test(
        // LD HL, 0xCCBC; LD (HL), 0x00; RRC (HL)
        "21BCCC3600CB0E",
        &ExpectedState {
            memory: hash_map(&[(0xCCBC, 0x00)]),
            f: Some(0x80),
            ..ExpectedState::empty()
        },
    );

    run_test(
        // LD HL, 0xCB48; LD (HL), 0xFF; RRC (HL)
        "2148CB36FFCB0E",
        &ExpectedState {
            memory: hash_map(&[(0xCB48, 0xFF)]),
            f: Some(0x10),
            ..ExpectedState::empty()
        },
    );

    run_test(
        // LD HL, 0xD893; LD (HL), 0x18; RRC (HL)
        "2193D83618CB0E",
        &ExpectedState {
            memory: hash_map(&[(0xD893, 0x0C)]),
            f: Some(0x00),
            ..ExpectedState::empty()
        },
    );

    run_test(
        // LD HL, 0xD6B4; LD (HL), 0x39; RRC (HL)
        "21B4D63639CB0E",
        &ExpectedState {
            memory: hash_map(&[(0xD6B4, 0x9C)]),
            f: Some(0x10),
            ..ExpectedState::empty()
        },
    );

    run_test(
        // LD A, 0x00; SUB 0x01; LD HL, 0xDB24; LD (HL), 0x18; RRC (HL)
        "3E00D6012124DB3618CB0E",
        &ExpectedState {
            memory: hash_map(&[(0xDB24, 0x0C)]),
            f: Some(0x00),
            ..ExpectedState::empty()
        },
    );
}

#[test]
fn rotate_right_register() {
    for r in ALL_REGISTERS {
        let load_opcode = 0x06 | (to_opcode_bits(r) << 3);
        let load_opcode_hex = format!("{load_opcode:02x}");

        let rrc_opcode = 0x08 | to_opcode_bits(r);
        let rrc_opcode_hex = format!("CB{rrc_opcode:02x}");

        let mut expected_state = ExpectedState::empty();
        set_in_state(&mut expected_state, r, 0x00);
        expected_state.f = Some(0x80);
        run_test(
            // LD <r>, 0x00; RRC <r>
            &format!("{load_opcode_hex}00{rrc_opcode_hex}"),
            &expected_state,
        );

        let mut expected_state = ExpectedState::empty();
        set_in_state(&mut expected_state, r, 0xFF);
        expected_state.f = Some(0x10);
        run_test(
            // LD <r>, 0xFF; RRC <r>
            &format!("{load_opcode_hex}FF{rrc_opcode_hex}"),
            &expected_state,
        );

        let mut expected_state = ExpectedState::empty();
        set_in_state(&mut expected_state, r, 0x0C);
        expected_state.f = Some(0x00);
        run_test(
            // LD <r>, 0x18; RRC <r>
            &format!("{load_opcode_hex}18{rrc_opcode_hex}"),
            &expected_state,
        );

        let mut expected_state = ExpectedState::empty();
        set_in_state(&mut expected_state, r, 0x9C);
        expected_state.f = Some(0x10);
        run_test(
            // LD <r>, 0x39; RRC <r>
            &format!("{load_opcode_hex}39{rrc_opcode_hex}"),
            &expected_state,
        );

        let mut expected_state = ExpectedState::empty();
        set_in_state(&mut expected_state, r, 0x0C);
        expected_state.f = Some(0x00);
        run_test(
            // LD A, 0x00; SUB 0x01; LD <r>, 0x18; RRC <r>
            &format!("3E00D601{load_opcode_hex}18{rrc_opcode_hex}"),
            &expected_state,
        );
    }
}

#[test]
fn bitshift_rotate_right_accumulator_thru_carry() {
    run_test(
        // LD A, 0x00; RRA
        "3E001F",
        &ExpectedState {
            a: Some(0x00),
            f: Some(0x00),
            ..ExpectedState::empty()
        },
    );

    run_test(
        // LD A, 0x01; RRA
        "3E011F",
        &ExpectedState {
            a: Some(0x00),
            f: Some(0x10),
            ..ExpectedState::empty()
        },
    );

    run_test(
        // LD A, 0xFF; RRA
        "3EFF1F",
        &ExpectedState {
            a: Some(0x7F),
            f: Some(0x10),
            ..ExpectedState::empty()
        },
    );

    run_test(
        // LD A, 0xFF; SCF; RRA
        "3EFF371F",
        &ExpectedState {
            a: Some(0xFF),
            f: Some(0x10),
            ..ExpectedState::empty()
        },
    );

    run_test(
        // LD A, 0x34; RRA
        "3E341F",
        &ExpectedState {
            a: Some(0x1A),
            f: Some(0x00),
            ..ExpectedState::empty()
        },
    );

    run_test(
        // LD A, 0x34; SCF; RRA
        "3E34371F",
        &ExpectedState {
            a: Some(0x9A),
            f: Some(0x00),
            ..ExpectedState::empty()
        },
    );

    run_test(
        // LD A, 0x00; SUB 0x01; LD A, 0x11; RRA
        "3E00D6013E111F",
        &ExpectedState {
            a: Some(0x88),
            f: Some(0x10),
            ..ExpectedState::empty()
        },
    );
}

#[test]
fn rotate_right_indirect_hl_thru_carry() {
    run_test(
        // LD HL, 0xCCC1; LD (HL), 0x00, RR (HL)
        "21C1CC3600CB1E",
        &ExpectedState {
            memory: hash_map(&[(0xCCC1, 0x00)]),
            f: Some(0x80),
            ..ExpectedState::empty()
        },
    );

    run_test(
        // LD HL, 0xCCC1; LD (HL), 0x01; RR (HL)
        "21C1CC3601CB1E",
        &ExpectedState {
            memory: hash_map(&[(0xCCC1, 0x00)]),
            f: Some(0x90),
            ..ExpectedState::empty()
        },
    );

    run_test(
        // LD HL, 0xCD6C; LD (HL), 0xFF; RR (HL)
        "216CCD36FFCB1E",
        &ExpectedState {
            memory: hash_map(&[(0xCD6C, 0x7F)]),
            f: Some(0x10),
            ..ExpectedState::empty()
        },
    );

    run_test(
        // LD HL, 0xD623; LD (HL), 0xFF; SCF; RR (HL)
        "2123D636FF37CB1E",
        &ExpectedState {
            memory: hash_map(&[(0xD623, 0xFF)]),
            f: Some(0x10),
            ..ExpectedState::empty()
        },
    );

    run_test(
        // LD HL, 0xD114; LD (HL), 0x34; RR (HL)
        "2114D13634CB1E",
        &ExpectedState {
            memory: hash_map(&[(0xD114, 0x1A)]),
            f: Some(0x00),
            ..ExpectedState::empty()
        },
    );

    run_test(
        // LD HL, 0xD5D5; LD (HL), 0x34; SCF; RR (HL)
        "21D5D5363437CB1E",
        &ExpectedState {
            memory: hash_map(&[(0xD5D5, 0x9A)]),
            f: Some(0x00),
            ..ExpectedState::empty()
        },
    );

    run_test(
        // LD A, 0x00; SUB 0x01; LD HL, 0xC251; LD (HL), 0x11; RR (HL)
        "3E00D6012151C23611CB1E",
        &ExpectedState {
            memory: hash_map(&[(0xC251, 0x88)]),
            f: Some(0x10),
            ..ExpectedState::empty()
        },
    );
}

#[test]
fn rotate_right_register_thru_carry() {
    for r in ALL_REGISTERS {
        let load_opcode = 0x06 | (to_opcode_bits(r) << 3);
        let load_opcode_hex = format!("{load_opcode:02x}");

        let rr_opcode = 0x18 | to_opcode_bits(r);
        let rr_opcode_hex = format!("CB{rr_opcode:02x}");

        let mut expected_state = ExpectedState::empty();
        set_in_state(&mut expected_state, r, 0x00);
        expected_state.f = Some(0x80);
        run_test(
            // LD <r>, 0x00; RR <r>
            &format!("{load_opcode_hex}00{rr_opcode_hex}"),
            &expected_state,
        );

        let mut expected_state = ExpectedState::empty();
        set_in_state(&mut expected_state, r, 0x00);
        expected_state.f = Some(0x90);
        run_test(
            // LD <r>, 0x01; RR <r>
            &format!("{load_opcode_hex}01{rr_opcode_hex}"),
            &expected_state,
        );

        let mut expected_state = ExpectedState::empty();
        set_in_state(&mut expected_state, r, 0x7F);
        expected_state.f = Some(0x10);
        run_test(
            // LD <r>, 0xFF; RR <r>
            &format!("{load_opcode_hex}FF{rr_opcode_hex}"),
            &expected_state,
        );

        let mut expected_state = ExpectedState::empty();
        set_in_state(&mut expected_state, r, 0xFF);
        expected_state.f = Some(0x10);
        run_test(
            // LD <r>, 0xFF; SCF; RR <r>
            &format!("{load_opcode_hex}FF37{rr_opcode_hex}"),
            &expected_state,
        );

        let mut expected_state = ExpectedState::empty();
        set_in_state(&mut expected_state, r, 0x1A);
        expected_state.f = Some(0x00);
        run_test(
            // LD <r>, 0x34; RR <r>
            &format!("{load_opcode_hex}34{rr_opcode_hex}"),
            &expected_state,
        );

        let mut expected_state = ExpectedState::empty();
        set_in_state(&mut expected_state, r, 0x9A);
        expected_state.f = Some(0x00);
        run_test(
            // LD <r>, 0x34; SCF; RR <r>
            &format!("{load_opcode_hex}3437{rr_opcode_hex}"),
            &expected_state,
        );

        let mut expected_state = ExpectedState::empty();
        set_in_state(&mut expected_state, r, 0x88);
        expected_state.f = Some(0x10);
        run_test(
            // LD A, 0x00; SUB 0x01; LD <r>, 0x11; RR <r>
            &format!("3E00D601{load_opcode_hex}11{rr_opcode_hex}"),
            &expected_state,
        );
    }
}

#[test]
fn shift_left_indirect_hl() {
    run_test(
        // LD HL, 0xDF1D; LD (HL), 0x00; SLA (HL)
        "211DDF3600CB26",
        &ExpectedState {
            memory: hash_map(&[(0xDF1D, 0x00)]),
            f: Some(0x80),
            ..ExpectedState::empty()
        },
    );

    run_test(
        // LD HL, 0xD346; LD (HL), 0x31; SLA (HL)
        "2146D33631CB26",
        &ExpectedState {
            memory: hash_map(&[(0xD346, 0x62)]),
            f: Some(0x00),
            ..ExpectedState::empty()
        },
    );

    run_test(
        // LD HL, 0xC783; LD (HL), 0x84; SLA (HL)
        "2183C73684CB26",
        &ExpectedState {
            memory: hash_map(&[(0xC783, 0x08)]),
            f: Some(0x10),
            ..ExpectedState::empty()
        },
    );

    run_test(
        // LD HL, 0xDA1E; LD (HL), 0x80; SLA (HL)
        "211EDA3680CB26",
        &ExpectedState {
            memory: hash_map(&[(0xDA1E, 0x00)]),
            f: Some(0x90),
            ..ExpectedState::empty()
        },
    );

    run_test(
        // LD A, 0x00; SUB 0x01; LD HL, 0xDA3B; LD (HL), 0x03; SLA (HL)
        "3E00D601213BDA3603CB26",
        &ExpectedState {
            memory: hash_map(&[(0xDA3B, 0x06)]),
            f: Some(0x00),
            ..ExpectedState::empty()
        },
    );
}

#[test]
fn shift_left_register() {
    for r in ALL_REGISTERS {
        let ld = 0x06 | (to_opcode_bits(r) << 3);
        let ld = format!("{ld:02x}");

        let sla = 0x20 | to_opcode_bits(r);
        let sla = format!("CB{sla:02x}");

        let mut expected_state = ExpectedState::empty();
        set_in_state(&mut expected_state, r, 0x00);
        expected_state.f = Some(0x80);
        run_test(
            // LD <r>, 0x00; SLA <r>
            &format!("{ld}00{sla}"),
            &expected_state,
        );

        let mut expected_state = ExpectedState::empty();
        set_in_state(&mut expected_state, r, 0x62);
        expected_state.f = Some(0x00);
        run_test(
            // LD <r>, 0x31; SLA <r>
            &format!("{ld}31{sla}"),
            &expected_state,
        );

        let mut expected_state = ExpectedState::empty();
        set_in_state(&mut expected_state, r, 0x08);
        expected_state.f = Some(0x10);
        run_test(
            // LD <r> 0x84; SLA <r>
            &format!("{ld}84{sla}"),
            &expected_state,
        );

        let mut expected_state = ExpectedState::empty();
        set_in_state(&mut expected_state, r, 0x00);
        expected_state.f = Some(0x90);
        run_test(
            // LD <r> 0x80; SLA <r>
            &format!("{ld}80{sla}"),
            &expected_state,
        );

        let mut expected_state = ExpectedState::empty();
        set_in_state(&mut expected_state, r, 0x06);
        expected_state.f = Some(0x00);
        run_test(
            // LD A, 0x00; SUB 0x01; LD <r>, 0x03; SLA <r>
            &format!("3E00D601{ld}03{sla}"),
            &expected_state,
        );
    }
}

// ---- controlflow ----
#[test]
fn jump() {
    run_test(
        "3E55C357013E330677",
        &ExpectedState {
            a: Some(0x55),
            b: Some(0x77),
            ..ExpectedState::empty()
        },
    );

    run_test(
        "C35A013E330655C35F013E77C355010E88",
        &ExpectedState {
            a: Some(0x77),
            b: Some(0x55),
            c: Some(0x88),
            ..ExpectedState::empty()
        },
    );
}

#[test]
fn jump_hl() {
    run_test(
        "2158013EAAE93ECC06DD",
        &ExpectedState {
            a: Some(0xAA),
            b: Some(0xDD),
            ..ExpectedState::empty()
        },
    );
}

#[test]
fn conditional_jump_nz() {
    run_test(
        "06AA3E00FE00C25B0106BB0ECC",
        &ExpectedState {
            a: Some(0x00),
            b: Some(0xBB),
            c: Some(0xCC),
            f: Some(0xC0),
            ..ExpectedState::empty()
        },
    );

    run_test(
        "06AA3E01FE00C25B0106BB0ECC",
        &ExpectedState {
            a: Some(0x01),
            b: Some(0xAA),
            c: Some(0xCC),
            f: Some(0x40),
            ..ExpectedState::empty()
        },
    );
}

#[test]
fn conditional_jump_z() {
    run_test(
        "06AA3E00FE00CA5B0106BB0ECC",
        &ExpectedState {
            a: Some(0x00),
            b: Some(0xAA),
            c: Some(0xCC),
            f: Some(0xC0),
            ..ExpectedState::empty()
        },
    );

    run_test(
        "06AA3E01FE00CA5B0106BB0ECC",
        &ExpectedState {
            a: Some(0x01),
            b: Some(0xBB),
            c: Some(0xCC),
            f: Some(0x40),
            ..ExpectedState::empty()
        },
    );
}

#[test]
fn conditional_jump_nc() {
    run_test(
        "06AA373FD2590106BB0ECC",
        &ExpectedState {
            b: Some(0xAA),
            c: Some(0xCC),
            f: Some(0x00),
            ..ExpectedState::empty()
        },
    );

    run_test(
        "06AA37D2580106BB0ECC",
        &ExpectedState {
            b: Some(0xBB),
            c: Some(0xCC),
            f: Some(0x10),
            ..ExpectedState::empty()
        },
    );
}

#[test]
fn conditional_jump_c() {
    run_test(
        "06AA373FDA590106BB0ECC",
        &ExpectedState {
            b: Some(0xBB),
            c: Some(0xCC),
            f: Some(0x00),
            ..ExpectedState::empty()
        },
    );

    run_test(
        "06AA37DA580106BB0ECC",
        &ExpectedState {
            b: Some(0xAA),
            c: Some(0xCC),
            f: Some(0x10),
            ..ExpectedState::empty()
        },
    );
}

#[test]
fn relative_jump() {
    run_test(
        "06AA180206BB0ECC",
        &ExpectedState {
            b: Some(0xAA),
            c: Some(0xCC),
            ..ExpectedState::empty()
        },
    );

    run_test(
        "06AA180606883E99180218FA0ECC",
        &ExpectedState {
            a: Some(0x99),
            b: Some(0xAA),
            c: Some(0xCC),
            ..ExpectedState::empty()
        },
    );
}

#[test]
fn relative_jump_nz_z() {
    run_test(
        "06AA0ECC3E01FE00200606BB16DD180428FA20F81EEE",
        &ExpectedState {
            a: Some(0x01),
            b: Some(0xAA),
            c: Some(0xCC),
            d: Some(0xDD),
            e: Some(0xEE),
            f: Some(0x40),
            ..ExpectedState::empty()
        },
    );

    run_test(
        "06AA0ECC3E00FE00280606BB16DD180420FA28F81EEE",
        &ExpectedState {
            a: Some(0x00),
            b: Some(0xAA),
            c: Some(0xCC),
            d: Some(0xDD),
            e: Some(0xEE),
            f: Some(0xC0),
            ..ExpectedState::empty()
        },
    );
}

#[test]
fn call_return() {
    run_test(
        "06AA180706BB0ECCC906FF16DDCD56011EEE",
        &ExpectedState {
            b: Some(0xAA),
            c: Some(0xCC),
            d: Some(0xDD),
            e: Some(0xEE),
            sp: Some(0xFFFE),
            memory: hash_map(&[(0xFFFC, 0x60), (0xFFFD, 0x01)]),
            ..ExpectedState::empty()
        },
    );
}

#[test]
fn conditional_call_nz_z() {
    // C4: CALL NZ, nn
    // CC: CALL Z, nn
}

#[test]
fn conditional_call_nc_c() {
    // D4: CALL NC, nn
    // DC: CALL C, nn
}

#[test]
fn conditional_return_nz_z() {
    // C0: RET NZ
    // C8: RET Z
}

#[test]
fn conditional_return_nc_c() {
    // D0: RET NC
    // D8: RET C
}
#[test]
fn rst_call() {
    // Note: this test depends on the test harness stopping execution when PC < 0x0100

    run_test(
        // RST 0x00
        "C7",
        &ExpectedState {
            pc: Some(0x0000),
            sp: Some(0xFFFC),
            memory: hash_map(&[(0xFFFC, 0x51), (0xFFFD, 0x01)]),
            ..ExpectedState::empty()
        },
    );

    run_test(
        // RST 0x08
        "CF",
        &ExpectedState {
            pc: Some(0x0008),
            sp: Some(0xFFFC),
            memory: hash_map(&[(0xFFFC, 0x51), (0xFFFD, 0x01)]),
            ..ExpectedState::empty()
        },
    );

    run_test(
        // RST 0x10
        "D7",
        &ExpectedState {
            pc: Some(0x0010),
            sp: Some(0xFFFC),
            memory: hash_map(&[(0xFFFC, 0x51), (0xFFFD, 0x01)]),
            ..ExpectedState::empty()
        },
    );

    run_test(
        // RST 0x18
        "DF",
        &ExpectedState {
            pc: Some(0x0018),
            sp: Some(0xFFFC),
            memory: hash_map(&[(0xFFFC, 0x51), (0xFFFD, 0x01)]),
            ..ExpectedState::empty()
        },
    );

    run_test(
        // NOP; RST 0x20
        "00E7",
        &ExpectedState {
            pc: Some(0x0020),
            sp: Some(0xFFFC),
            memory: hash_map(&[(0xFFFC, 0x52), (0xFFFD, 0x01)]),
            ..ExpectedState::empty()
        },
    );

    run_test(
        // LD BC, 0x1234; PUSH BC; RST 0x28
        "013412C5EF",
        &ExpectedState {
            pc: Some(0x0028),
            sp: Some(0xFFFA),
            memory: hash_map(&[(0xFFFA, 0x55), (0xFFFB, 0x01), (0xFFFC, 0x34), (0xFFFD, 0x12)]),
            ..ExpectedState::empty()
        },
    );

    run_test(
        // RST 0x30
        "F7",
        &ExpectedState {
            pc: Some(0x0030),
            sp: Some(0xFFFC),
            memory: hash_map(&[(0xFFFC, 0x51), (0xFFFD, 0x01)]),
            ..ExpectedState::empty()
        },
    );

    run_test(
        // RST 0x38
        "FF",
        &ExpectedState {
            pc: Some(0x0038),
            sp: Some(0xFFFC),
            memory: hash_map(&[(0xFFFC, 0x51), (0xFFFD, 0x01)]),
            ..ExpectedState::empty()
        },
    );
}

#[test]
fn enable_interrupts() {
    run_test(
        // EI
        "FB",
        &ExpectedState {
            ime: Some(true.into()),
            interrupt_delay: Some(true.into()),
            ..ExpectedState::empty()
        },
    );

    run_test(
        // EI; EI
        "FBFB",
        &ExpectedState {
            ime: Some(true.into()),
            interrupt_delay: Some(true.into()),
            ..ExpectedState::empty()
        },
    );

    run_test(
        // EI; NOP
        "FB00",
        &ExpectedState {
            ime: Some(true.into()),
            interrupt_delay: Some(false.into()),
            ..ExpectedState::empty()
        },
    );
}

#[test]
fn disable_interrupts() {
    run_test(
        // DI
        "F3",
        &ExpectedState {
            ime: Some(false.into()),
            ..ExpectedState::empty()
        },
    );

    run_test(
        // EI; DI
        "FBF3",
        &ExpectedState {
            ime: Some(false.into()),
            ..ExpectedState::empty()
        },
    );
}

#[test]
fn return_from_interrupt_handler() {
    run_test(
        "06BBF3180506CC0EDDD916FFCD57011E55",
        &ExpectedState {
            b: Some(0xBB),
            c: Some(0xDD),
            d: Some(0xFF),
            e: Some(0x55),
            sp: Some(0xFFFE),
            ime: Some(true.into()),
            interrupt_delay: Some(false.into()),
            memory: hash_map(&[(0xFFFC, 0x5F), (0xFFFD, 0x01)]),
            ..ExpectedState::empty()
        },
    );

    run_test(
        "F31801D9CD5301",
        &ExpectedState {
            sp: Some(0xFFFE),
            ime: Some(true.into()),
            interrupt_delay: Some(false.into()),
            memory: hash_map(&[(0xFFFC, 0x57), (0xFFFD, 0x01)]),
            ..ExpectedState::empty()
        },
    );
}

// ---- cyclecount ----
#[test]
fn validate_cycles_required() {

    let cr = CpuRegisters::new(ExecutionMode::GameBoy);

    // 8-bit load instructions
    assert_eq!(
        4,
        I::Load(WriteTarget::Register(CpuRegister::A), ReadTarget::Register(CpuRegister::B))
            .cycles_required(&cr)
    );
    assert_eq!(
        8,
        I::Load(WriteTarget::Register(CpuRegister::A), ReadTarget::Immediate(0))
            .cycles_required(&cr)
    );
    assert_eq!(
        8,
        I::Load(WriteTarget::Register(CpuRegister::A), ReadTarget::IndirectHL).cycles_required(&cr)
    );
    assert_eq!(
        8,
        I::Load(WriteTarget::IndirectHL, ReadTarget::Register(CpuRegister::A)).cycles_required(&cr)
    );
    assert_eq!(12, I::Load(WriteTarget::IndirectHL, ReadTarget::Immediate(0)).cycles_required(&cr));
    assert_eq!(8, I::Load(WriteTarget::Accumulator, ReadTarget::IndirectBC).cycles_required(&cr));
    assert_eq!(8, I::Load(WriteTarget::Accumulator, ReadTarget::IndirectDE).cycles_required(&cr));
    assert_eq!(8, I::Load(WriteTarget::IndirectBC, ReadTarget::Accumulator).cycles_required(&cr));
    assert_eq!(8, I::Load(WriteTarget::IndirectDE, ReadTarget::Accumulator).cycles_required(&cr));
    assert_eq!(16, I::Load(WriteTarget::Accumulator, ReadTarget::Direct(0)).cycles_required(&cr));
    assert_eq!(16, I::Load(WriteTarget::Direct(0), ReadTarget::Accumulator).cycles_required(&cr));
    assert_eq!(8, I::Load(WriteTarget::Accumulator, ReadTarget::FFIndirectC).cycles_required(&cr));
    assert_eq!(8, I::Load(WriteTarget::FFIndirectC, ReadTarget::Accumulator).cycles_required(&cr));
    assert_eq!(12, I::Load(WriteTarget::Accumulator, ReadTarget::FFDirect(0)).cycles_required(&cr));
    assert_eq!(12, I::Load(WriteTarget::FFDirect(0), ReadTarget::Accumulator).cycles_required(&cr));
    assert_eq!(
        8,
        I::Load(WriteTarget::Accumulator, ReadTarget::IndirectHLDec).cycles_required(&cr)
    );
    assert_eq!(
        8,
        I::Load(WriteTarget::IndirectHLDec, ReadTarget::Accumulator).cycles_required(&cr)
    );
    assert_eq!(
        8,
        I::Load(WriteTarget::Accumulator, ReadTarget::IndirectHLInc).cycles_required(&cr)
    );
    assert_eq!(
        8,
        I::Load(WriteTarget::IndirectHLInc, ReadTarget::Accumulator).cycles_required(&cr)
    );

    // 16-bit load instructions
    assert_eq!(12, I::LoadRegisterPairImmediate(CpuRegisterPair::BC, 0).cycles_required(&cr));
    assert_eq!(20, I::LoadDirectStackPointer(0).cycles_required(&cr));
    assert_eq!(8, I::LoadStackPointerHL.cycles_required(&cr));
    assert_eq!(16, I::PushStack(CpuRegisterPair::BC).cycles_required(&cr));
    assert_eq!(12, I::PopStack(CpuRegisterPair::BC).cycles_required(&cr));

    // 8-bit arithmetic/logical instructions
    assert_eq!(4, I::Add(ReadTarget::Register(CpuRegister::B)).cycles_required(&cr));
    assert_eq!(8, I::Add(ReadTarget::IndirectHL).cycles_required(&cr));
    assert_eq!(8, I::Add(ReadTarget::Immediate(0)).cycles_required(&cr));
    assert_eq!(4, I::AddWithCarry(ReadTarget::Register(CpuRegister::B)).cycles_required(&cr));
    assert_eq!(8, I::AddWithCarry(ReadTarget::IndirectHL).cycles_required(&cr));
    assert_eq!(8, I::AddWithCarry(ReadTarget::Immediate(0)).cycles_required(&cr));
    assert_eq!(4, I::Subtract(ReadTarget::Register(CpuRegister::B)).cycles_required(&cr));
    assert_eq!(8, I::Subtract(ReadTarget::IndirectHL).cycles_required(&cr));
    assert_eq!(8, I::Subtract(ReadTarget::Immediate(0)).cycles_required(&cr));
    assert_eq!(4, I::SubtractWithCarry(ReadTarget::Register(CpuRegister::B)).cycles_required(&cr));
    assert_eq!(8, I::SubtractWithCarry(ReadTarget::IndirectHL).cycles_required(&cr));
    assert_eq!(8, I::SubtractWithCarry(ReadTarget::Immediate(0)).cycles_required(&cr));
    assert_eq!(4, I::Compare(ReadTarget::Register(CpuRegister::B)).cycles_required(&cr));
    assert_eq!(8, I::Compare(ReadTarget::IndirectHL).cycles_required(&cr));
    assert_eq!(8, I::Compare(ReadTarget::Immediate(0)).cycles_required(&cr));
    assert_eq!(4, I::Increment(ModifyTarget::Register(CpuRegister::B)).cycles_required(&cr));
    assert_eq!(12, I::Increment(ModifyTarget::IndirectHL).cycles_required(&cr));
    assert_eq!(4, I::Decrement(ModifyTarget::Register(CpuRegister::B)).cycles_required(&cr));
    assert_eq!(12, I::Decrement(ModifyTarget::IndirectHL).cycles_required(&cr));
    assert_eq!(4, I::And(ReadTarget::Register(CpuRegister::B)).cycles_required(&cr));
    assert_eq!(8, I::And(ReadTarget::IndirectHL).cycles_required(&cr));
    assert_eq!(8, I::And(ReadTarget::Immediate(0)).cycles_required(&cr));
    assert_eq!(4, I::Or(ReadTarget::Register(CpuRegister::B)).cycles_required(&cr));
    assert_eq!(8, I::Or(ReadTarget::IndirectHL).cycles_required(&cr));
    assert_eq!(8, I::Or(ReadTarget::Immediate(0)).cycles_required(&cr));
    assert_eq!(4, I::Xor(ReadTarget::Register(CpuRegister::B)).cycles_required(&cr));
    assert_eq!(8, I::Xor(ReadTarget::IndirectHL).cycles_required(&cr));
    assert_eq!(8, I::Xor(ReadTarget::Immediate(0)).cycles_required(&cr));
    assert_eq!(4, I::ComplementCarryFlag.cycles_required(&cr));
    assert_eq!(4, I::SetCarryFlag.cycles_required(&cr));
    assert_eq!(4, I::DecimalAdjustAccumulator.cycles_required(&cr));
    assert_eq!(4, I::ComplementAccumulator.cycles_required(&cr));

    // 16-bit arithmetic instructions
    assert_eq!(8, I::AddHLRegister(CpuRegisterPair::BC).cycles_required(&cr));
    assert_eq!(8, I::IncRegisterPair(CpuRegisterPair::BC).cycles_required(&cr));
    assert_eq!(8, I::DecRegisterPair(CpuRegisterPair::BC).cycles_required(&cr));
    assert_eq!(16, I::AddSPImmediate(0).cycles_required(&cr));
    assert_eq!(12, I::LoadHLStackPointerOffset(0).cycles_required(&cr));

    // Bit rotate/shift instructions
    assert_eq!(4, I::RotateLeft(ModifyTarget::Accumulator).cycles_required(&cr));
    assert_eq!(4, I::RotateLeftThruCarry(ModifyTarget::Accumulator).cycles_required(&cr));
    assert_eq!(4, I::RotateRight(ModifyTarget::Accumulator).cycles_required(&cr));
    assert_eq!(4, I::RotateRightThruCarry(ModifyTarget::Accumulator).cycles_required(&cr));
    assert_eq!(8, I::RotateLeft(ModifyTarget::Register(CpuRegister::B)).cycles_required(&cr));
    assert_eq!(16, I::RotateLeft(ModifyTarget::IndirectHL).cycles_required(&cr));
    assert_eq!(
        8,
        I::RotateLeftThruCarry(ModifyTarget::Register(CpuRegister::B)).cycles_required(&cr)
    );
    assert_eq!(16, I::RotateLeftThruCarry(ModifyTarget::IndirectHL).cycles_required(&cr));
    assert_eq!(8, I::RotateRight(ModifyTarget::Register(CpuRegister::B)).cycles_required(&cr));
    assert_eq!(16, I::RotateRight(ModifyTarget::IndirectHL).cycles_required(&cr));
    assert_eq!(
        8,
        I::RotateRightThruCarry(ModifyTarget::Register(CpuRegister::B)).cycles_required(&cr)
    );
    assert_eq!(16, I::RotateRightThruCarry(ModifyTarget::IndirectHL).cycles_required(&cr));
    assert_eq!(8, I::ShiftLeft(ModifyTarget::Register(CpuRegister::B)).cycles_required(&cr));
    assert_eq!(16, I::ShiftLeft(ModifyTarget::IndirectHL).cycles_required(&cr));
    assert_eq!(
        8,
        I::ArithmeticShiftRight(ModifyTarget::Register(CpuRegister::B)).cycles_required(&cr)
    );
    assert_eq!(16, I::ArithmeticShiftRight(ModifyTarget::IndirectHL).cycles_required(&cr));
    assert_eq!(
        8,
        I::LogicalShiftRight(ModifyTarget::Register(CpuRegister::B)).cycles_required(&cr)
    );
    assert_eq!(16, I::LogicalShiftRight(ModifyTarget::IndirectHL).cycles_required(&cr));
    assert_eq!(8, I::Swap(ModifyTarget::Register(CpuRegister::B)).cycles_required(&cr));
    assert_eq!(16, I::Swap(ModifyTarget::IndirectHL).cycles_required(&cr));

    // Single bit instructions
    assert_eq!(8, I::TestBit(0, ReadTarget::Register(CpuRegister::B)).cycles_required(&cr));
    assert_eq!(12, I::TestBit(0, ReadTarget::IndirectHL).cycles_required(&cr));
    assert_eq!(8, I::SetBit(0, ModifyTarget::Register(CpuRegister::B)).cycles_required(&cr));
    assert_eq!(16, I::SetBit(0, ModifyTarget::IndirectHL).cycles_required(&cr));
    assert_eq!(8, I::ResetBit(0, ModifyTarget::Register(CpuRegister::B)).cycles_required(&cr));
    assert_eq!(16, I::ResetBit(0, ModifyTarget::IndirectHL).cycles_required(&cr));

    // Unconditional control flow instructions
    assert_eq!(16, I::Jump(0).cycles_required(&cr));
    assert_eq!(4, I::JumpHL.cycles_required(&cr));
    assert_eq!(12, I::RelativeJump(0).cycles_required(&cr));
    assert_eq!(24, I::Call(0).cycles_required(&cr));
    assert_eq!(16, I::Return.cycles_required(&cr));
    assert_eq!(16, I::ReturnFromInterruptHandler.cycles_required(&cr));
    assert_eq!(16, I::RestartCall(0).cycles_required(&cr));
    assert_eq!(4, I::DisableInterrupts.cycles_required(&cr));
    assert_eq!(4, I::EnableInterrupts.cycles_required(&cr));
    assert_eq!(4, I::NoOp.cycles_required(&cr));
    assert_eq!(4, I::Halt.cycles_required(&cr));

    // Conditional control flow instructions
    let all_flags_false = CpuRegisters { flags: 0x00, ..CpuRegisters::new(ExecutionMode::GameBoy) };

    assert_eq!(12, I::JumpCond(JumpCondition::Z, 0).cycles_required(&all_flags_false));
    assert_eq!(16, I::JumpCond(JumpCondition::NZ, 0).cycles_required(&all_flags_false));

    assert_eq!(8, I::RelativeJumpCond(JumpCondition::Z, 0).cycles_required(&all_flags_false));
    assert_eq!(12, I::RelativeJumpCond(JumpCondition::NZ, 0).cycles_required(&all_flags_false));

    assert_eq!(12, I::CallCond(JumpCondition::Z, 0).cycles_required(&all_flags_false));
    assert_eq!(24, I::CallCond(JumpCondition::NZ, 0).cycles_required(&all_flags_false));

    assert_eq!(8, I::ReturnCond(JumpCondition::Z).cycles_required(&all_flags_false));
    assert_eq!(20, I::ReturnCond(JumpCondition::NZ).cycles_required(&all_flags_false));
}

// ---- load ----
#[test]
fn load_register_immediate() {
    run_test(
        // LD A, 0x45
        "3E45",
        &ExpectedState { a: Some(0x45), ..ExpectedState::empty() },
    );

    run_test(
        // LD B, 0x45
        "0645",
        &ExpectedState { b: Some(0x45), ..ExpectedState::empty() },
    );

    run_test(
        // LD C, 0x45
        "0E45",
        &ExpectedState { c: Some(0x45), ..ExpectedState::empty() },
    );

    run_test(
        // LD D, 0x45
        "1645",
        &ExpectedState { d: Some(0x45), ..ExpectedState::empty() },
    );

    run_test(
        // LD E, 0x45
        "1E45",
        &ExpectedState { e: Some(0x45), ..ExpectedState::empty() },
    );

    run_test(
        // LD H, 0x45
        "2645",
        &ExpectedState { h: Some(0x45), ..ExpectedState::empty() },
    );

    run_test(
        // LD L, 0x45
        "2E45",
        &ExpectedState { l: Some(0x45), ..ExpectedState::empty() },
    );
}

#[test]
fn load_register_register() {
    for r1 in ALL_REGISTERS {
        let ldri = 0x06 | (to_opcode_bits(r1) << 3);
        // LD <R>, 0x45
        let ldri = format!("{ldri:02x}45");

        for r2 in ALL_REGISTERS {
            let opcode = 0x40 | (to_opcode_bits(r2) << 3) | to_opcode_bits(r1);

            // LD <R2>, <R1>
            let ldrr = format!("{opcode:02x}");
            let program_hex = format!("{ldri}{ldrr}");

            let mut expected_state = ExpectedState::empty();
            set_in_state(&mut expected_state, r2, 0x45);

            run_test(&program_hex, &expected_state);
        }
    }
}

#[test]
fn load_register_immediate_16() {
    run_test(
        // LD BC, 0x2468
        "016824",
        &ExpectedState { b: Some(0x24), c: Some(0x68), ..ExpectedState::empty() },
    );

    run_test(
        // LD DE, 0x2468
        "116824",
        &ExpectedState { d: Some(0x24), e: Some(0x68), ..ExpectedState::empty() },
    );

    run_test(
        // LD HL, 0x2468
        "216824",
        &ExpectedState { h: Some(0x24), l: Some(0x68), ..ExpectedState::empty() },
    );

    run_test(
        // LD SP, 0x2468
        "316824",
        &ExpectedState { sp: Some(0x2468), ..ExpectedState::empty() },
    );
}

#[test]
fn load_register_indirect_hl() {
    for r in ALL_REGISTERS {
        let opcode = 0x46 | (to_opcode_bits(r) << 3);
        let opcode_hex = format!("{opcode:02x}");

        // LD HL, 0x0157; LD <R>, (HL); JP 0xFFFF; <data>
        let program_hex = format!("215701{opcode_hex}C3FFFF47");
        let mut expected_state = ExpectedState::empty();
        set_in_state(&mut expected_state, r, 0x47);

        run_test(&program_hex, &expected_state);
    }
}

#[test]
fn load_indirect_hl_immediate() {
    run_test(
        // LD HL, 0xC105; LD (HL), 0x83
        "2105C13683",
        &ExpectedState { memory: hash_map(&[(0xC105, 0x83)]), ..ExpectedState::empty() },
    );
}

#[test]
fn load_indirect_hl_register() {
    for r in ALL_REGISTERS {
        let preload_opcode = 0x06 | (to_opcode_bits(r) << 3);
        let preload_opcode_hex = format!("{preload_opcode:02x}");

        let opcode = 0x70 | to_opcode_bits(r);
        let opcode_hex = format!("{opcode:02x}");

        // LD <R>, 0xE3; LD HL, 0xD075; LD (HL), <R>
        let program_hex = format!("{preload_opcode_hex}E32175D0{opcode_hex}");
        let expected_value = match r {
            CpuRegister::H => 0xD0,
            CpuRegister::L => 0x75,
            _ => 0xE3,
        };

        run_test(&program_hex, &ExpectedState {
            memory: hash_map(&[(0xD075, expected_value)]),
            ..ExpectedState::empty()
        });
    }
}

#[test]
fn load_accumulator_indirect_bc() {
    run_test(
        // LD HL, 0xC555; LD (HL), 0xC4; LD BC, 0xC555; LD A, (BC)
        "2155C536C40155C50A",
        &ExpectedState { a: Some(0xC4), ..ExpectedState::empty() },
    );
}

#[test]
fn load_accumulator_indirect_de() {
    run_test(
        // LD HL, 0xC555; LD (HL), 0x2F; LD DE, 0xC555; LD A, (DE)
        "2155C5362F1155C51A",
        &ExpectedState { a: Some(0x2F), ..ExpectedState::empty() },
    );
}

#[test]
fn load_accumulator_direct_16() {
    run_test(
        // LD HL, 0xD943; LD (HL), 0x1B; LD A, (0xD943)
        "2143D9361BFA43D9",
        &ExpectedState { a: Some(0x1B), ..ExpectedState::empty() },
    );
}

#[test]
fn load_indirect_bc_accumulator() {
    run_test(
        // LD A, 0xFA; LD BC, 0xC560; LD (BC), A
        "3EFA0160C502",
        &ExpectedState { memory: hash_map(&[(0xC560, 0xFA)]), ..ExpectedState::empty() },
    );
}

#[test]
fn load_indirect_de_accumulator() {
    run_test(
        // LD A, 0x65; LD DE, 0xC010; LD (DE), A
        "3E651110C012",
        &ExpectedState { memory: hash_map(&[(0xC010, 0x65)]), ..ExpectedState::empty() },
    );
}

#[test]
fn load_direct_16_accumulator() {
    run_test(
        // LD A, 0x90; LD (0xD40E), A
        "3E90EA0ED4",
        &ExpectedState { memory: hash_map(&[(0xD40E, 0x90)]), ..ExpectedState::empty() },
    );
}

#[test]
fn ldh_accumulator_immediate() {
    run_test(
        // LD HL, 0xFF40; LD (HL), 0xC8; LDH A, (0x40)
        "2140FF36C8F040",
        &ExpectedState { a: Some(0xC8), ..ExpectedState::empty() },
    );
}

#[test]
fn ldh_accumulator_c() {
    // LD HL, 0xFF40; LD (HL), 0xEE; LD C, 0x40; LDH A, (C)
    run_test("2140FF36EE0E40F2", &ExpectedState { a: Some(0xEE), ..ExpectedState::empty() });
}

#[test]
fn ldh_immediate_accumulator() {
    run_test(
        // LD A, 0x72; LDH (0x40), A
        "3E72E040",
        &ExpectedState { memory: hash_map(&[(0xFF40, 0x72)]), ..ExpectedState::empty() },
    );
}

#[test]
fn ldh_c_accumulator() {
    run_test(
        // LD A, 0xCB; LD C, 0x40; LDH (C), A
        "3ECB0E40E2",
        &ExpectedState { memory: hash_map(&[(0xFF40, 0xCB)]), ..ExpectedState::empty() },
    );
}

#[test]
fn load_accumulator_indirect_hl_inc() {
    run_test(
        // LD HL, 0xDC60; LD (HL), 0xD5; LD A, (HL+)
        "2160DC36D52A",
        &ExpectedState { a: Some(0xD5), h: Some(0xDC), l: Some(0x61), ..ExpectedState::empty() },
    );

    run_test(
        // LD HL, 0xCFFF; LD (HL), 0x93; LD A, (HL+)
        "21FFCF36932A",
        &ExpectedState { a: Some(0x93), h: Some(0xD0), l: Some(0x00), ..ExpectedState::empty() },
    );
}

#[test]
fn load_accumulator_indirect_hl_dec() {
    run_test(
        // LD HL, 0xD49A; LD (HL), 0x92; LD A, (HL-)
        "219AD436923A",
        &ExpectedState { a: Some(0x92), h: Some(0xD4), l: Some(0x99), ..ExpectedState::empty() },
    );

    run_test(
        // LD HL, 0xD000; LD (HL), 0xF9; LD A, (HL-)
        "2100D036F93A",
        &ExpectedState { a: Some(0xF9), h: Some(0xCF), l: Some(0xFF), ..ExpectedState::empty() },
    );
}

#[test]
fn load_indirect_hl_inc_accumulator() {
    run_test(
        // LD A, 0x04; LD HL, 0xD55F; LD (HL+), A
        "3E04215FD522",
        &ExpectedState {
            h: Some(0xD5),
            l: Some(0x60),
            memory: hash_map(&[(0xD55F, 0x04)]),
            ..ExpectedState::empty()
        },
    );

    run_test(
        // LD A, 0x0D; LD HL, 0xCFFF; LD (HL+), A
        "3E0D21FFCF22",
        &ExpectedState {
            h: Some(0xD0),
            l: Some(0x00),
            memory: hash_map(&[(0xCFFF, 0x0D)]),
            ..ExpectedState::empty()
        },
    );
}

#[test]
fn load_indirect_hl_dec_accumulator() {
    run_test(
        // LD A, 0x19; LD HL, 0xD37F; LD (HL-), A
        "3E19217FD332",
        &ExpectedState {
            h: Some(0xD3),
            l: Some(0x7E),
            memory: hash_map(&[(0xD37F, 0x19)]),
            ..ExpectedState::empty()
        },
    );

    run_test(
        // LD A, 0x4A; LD HL, 0xD000; LD (HL-), A
        "3E4A2100D032",
        &ExpectedState {
            h: Some(0xCF),
            l: Some(0xFF),
            memory: hash_map(&[(0xD000, 0x4A)]),
            ..ExpectedState::empty()
        },
    );
}

#[test]
fn load_sp_hl() {
    run_test(
        // LD HL, 0xFFBB; LD SP, HL
        "21BBFFF9",
        &ExpectedState { sp: Some(0xFFBB), ..ExpectedState::empty() },
    );
}

#[test]
fn load_direct_sp() {
    run_test(
        // LD HL, 0xFFEB; LD SP, HL; LD (0xD58F), SP
        "21EBFFF9088FD5",
        &ExpectedState {
            memory: hash_map(&[(0xD58F, 0xEB), (0xD590, 0xFF)]),
            ..ExpectedState::empty()
        },
    );
}

#[test]
fn push_stack() {
    // BC, DE, HL
    for rr_bits in [0x00, 0x10, 0x20] {
        let preload_opcode = 0x01 | rr_bits;
        // LD <rr>, 0x912C
        let preload_hex = format!("{preload_opcode:02x}2C91");

        let opcode = 0xC5 | rr_bits;
        let opcode_hex = format!("{opcode:02x}");

        run_test(
            // LD <rr>, 0x912C; PUSH <rr>; PUSH <rr>
            &format!("{preload_hex}{opcode_hex}{opcode_hex}"),
            &ExpectedState {
                sp: Some(0xFFFA),
                memory: hash_map(&[(0xFFFA, 0x2C), (0xFFFB, 0x91), (0xFFFC, 0x2C), (0xFFFD, 0x91)]),
                ..ExpectedState::empty()
            },
        );
    }

    // AF
    run_test(
        // LD A, 0x91; SCF; PUSH AF; PUSH AF
        "3E9137F5F5",
        &ExpectedState {
            sp: Some(0xFFFA),
            memory: hash_map(&[(0xFFFA, 0x10), (0xFFFB, 0x91), (0xFFFC, 0x10), (0xFFFD, 0x91)]),
            ..ExpectedState::empty()
        },
    );
}

#[test]
fn pop_stack() {
    for (rr, rr_bits) in [
        (CpuRegisterPair::BC, 0x00),
        (CpuRegisterPair::DE, 0x10),
        (CpuRegisterPair::HL, 0x20),
        (CpuRegisterPair::AF, 0x30),
    ] {
        let opcode = 0xC1 | rr_bits;
        let opcode_hex = format!("{opcode:02x}");

        let mut expected_state = ExpectedState::empty();
        let (high_ref, low_ref) = match rr {
            CpuRegisterPair::BC => (&mut expected_state.b, &mut expected_state.c),
            CpuRegisterPair::DE => (&mut expected_state.d, &mut expected_state.e),
            CpuRegisterPair::HL => (&mut expected_state.h, &mut expected_state.l),
            CpuRegisterPair::AF => (&mut expected_state.a, &mut expected_state.f),
            _ => panic!("unexpected register pair: {rr:?}"),
        };
        *high_ref = Some(0x6B);
        *low_ref = Some(match rr {
            CpuRegisterPair::AF => 0x50,
            _ => 0x57,
        });
        expected_state.sp = Some(0xFFFC);

        run_test(
            // LD A, 0x57
            // LDH (0xFA), A
            // LD A, 0x6B
            // LDH (0xFB), A
            // LD SP, 0xFFFA
            // POP <rr>
            &format!("3E57E0FA3E6BE0FB31FAFF{opcode_hex}"),
            &expected_state,
        );
    }
}

// ---- singlebit ----
#[test]
fn test_bit_register() {
    let mut seed: u32 = 0x1234_5678;
    for r in ALL_REGISTERS {
        let ld = 0x06 | (to_opcode_bits(r) << 3);
        let ld = format!("{ld:02x}");

        for bit in 0..8 {
            let opcode = 0x40 | (bit << 3) | to_opcode_bits(r);
            let opcode = format!("CB{opcode:02x}");

            let n: u8 = next_random(&mut seed);
            let n_hex = format!("{n:02x}");

            let mut expected_state = ExpectedState::empty();
            set_in_state(&mut expected_state, r, n);
            let expected_z_flag = u8::from(n & (1 << bit) == 0);
            expected_state.f = Some(0x20 | (expected_z_flag << 7));
            run_test(
                // LD <r>, <n>; BIT <b>, <r>
                &format!("{ld}{n_hex}{opcode}"),
                &expected_state,
            );
        }
    }

    run_test(
        // LD A, 0x00; SUB 0x01; LD A, 0xF7; BIT 3, A
        "3E00D6013EF7CB5F",
        &ExpectedState {
            a: Some(0xF7),
            f: Some(0xB0),
            ..ExpectedState::empty()
        },
    );
}

#[test]
fn test_bit_indirect_hl() {
    let mut seed: u32 = 0x0BAD_F00D;
    for _ in 0..10 {
        let n: u8 = next_random(&mut seed);
        let n_hex = format!("{n:02x}");

        for bit in 0..8 {
            let opcode = 0x46 | (bit << 3);
            let opcode = format!("CB{opcode:02x}");

            let expected_z_flag = u8::from(n & (1 << bit) == 0);
            run_test(
                // LD HL, 0xC53E; LD (HL), <n>; BIT <b>, (HL)
                &format!("213EC536{n_hex}{opcode}"),
                &ExpectedState {
                    memory: hash_map(&[(0xC53E, n)]),
                    f: Some(0x20 | (expected_z_flag << 7)),
                    ..ExpectedState::empty()
                },
            );
        }
    }

    run_test(
        // LD A, 0x00; SUB 0x01; LD HL, 0xC53E; LD (HL), 0xF7; BIT 3, (HL)
        "3E00D601213EC536F7CB5E",
        &ExpectedState {
            memory: hash_map(&[(0xC53E, 0xF7)]),
            f: Some(0xB0),
            ..ExpectedState::empty()
        },
    );
}
