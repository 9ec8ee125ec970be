//! A Game Boy / Game Boy Color emulator core: CPU, memory map, cartridge mappers, PPU, timer,
//! joypad and configuration logic, each with its behaviour stated as contracts.
pub mod apu;
pub mod app_config;
pub mod audio;
pub mod config;
pub mod cpu;
pub mod eventloop;
pub mod graphics;
pub mod input;
pub mod memory;
pub mod ppu;
pub mod serialize;
pub mod startup;
pub mod timer;
