# jgb

A Game Boy / Game Boy Color emulator core whose behaviour is stated as Verus contracts and
proved.

## Layout

- `src/` — the verified library:
  - `cpu` (register file, instruction decoding and execution, interrupts, one CPU step),
  - `memory` (address space, I/O registers, cartridges and the MBC1/2/3/5/7 mappers),
  - `ppu` (OAM DMA, the scanline state machine, pixel FIFOs and frame rendering),
  - `apu` (the four sound channels and the frame sequencer, digital side),
  - `timer`, `input` (joypad register and gamepad bindings), `config`, `app_config` (front-end
    settings and key binding),
    `graphics` (palettes and scaling), `startup` and `eventloop` (one step of the main loop).
- `tests/` — tests of the library.
- `app/` — a command-line runner: argument and settings-file handling, file I/O for ROMs and
  save files, and the floating-point audio mixing and filtering.
