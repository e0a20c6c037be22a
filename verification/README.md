# nes_backend

A NES emulator core written in Verus: the 6502 CPU with its instruction set and
addressing modes, the CPU and PPU buses, the PPU's memory, registers and per-dot
background renderer, mapper 000 cartridges, the iNES file format, a disassembler, and
the pattern-table viewers. The functions in `src/` carry contracts over a
mathematical model of the machine (`CpuState`, `PpuState`, `CartridgeState`, ...),
and Verus proves each body against its contract; the front-end trait
`EmulatorImplementation` is left without one, for its implementors.

Layout:

- `src/` — the verified library.
  - `cpu/` — registers, the instruction table, addressing modes, the instruction
    semantics as spec functions (`semantics.rs`), the disassembler and its text form.
  - `ppu/` — PPU memory and registers, the dot clock (`ppu_clock.rs`) and the pattern
    table debug view.
  - `bus.rs`, `cartridge/`, `mapper/`, `file_loading.rs`, `nes.rs` — the rest of the
    console.
  - `rendering.rs`, `implementations/`, `frontend.rs`, `emulator.rs` — pixel buffers,
    palettes, and the state the front ends keep.
  - `bit_facts.rs` — masks and shifts as arithmetic, proved once by the bit-vector
    solver.
- `tests/` — scenario tests of the library.
- `app/` — the programs around it: an egui front end and a minifb one (windows,
  files, the run loop).
