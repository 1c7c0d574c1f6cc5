# ceres_core

A Game Boy and Game Boy Color emulation core, written in Verus: the
executable code carries `requires` / `ensures` contracts over mathematical
models of the hardware, and Verus proves that the code meets them and never
panics or overflows.

## Layout

- `src/lib.rs`: the console (`Gb`), its well-formedness, construction and
  the top-level run loop.
- `src/cpu/`: registers, the arithmetic and logic unit (exact flag
  semantics), instruction execution and interrupt entry.
- `src/memory.rs`, `src/io.rs`, `src/dma.rs`: the memory map, the I/O
  register file and the OAM / VRAM DMA engines.
- `src/ppu/`: the display unit's mode machine and scanline renderer.
- `src/apu/`: the four sound channels, their timers and the frame sequencer.
- `src/cartridge.rs`: cartridge header parsing, memory bank controllers and
  the MBC3 real-time clock.
- `src/timing.rs`, `src/interrupts.rs`, `src/serial.rs`, `src/joypad.rs`,
  `src/input.rs`: timer, interrupt controller, serial port and input.
- `tests/`: executable tests of the library.
- `app/`: a small command-line front end that loads a ROM, runs the core
  headless and can save the battery RAM and a screenshot.

Public proof functions named `law_*` state properties of the library as a
whole (what a read gives back after a write, how flags relate to results,
how long a scanline lasts, and so on).
