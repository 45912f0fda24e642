# nes

A NES emulator core whose logic is verified with Verus: the 6502 CPU
(documented opcodes, addressing modes, interrupts, decimal arithmetic and the
execution trace), the APU's channels and frame sequencer, the master clock,
the OAM DMA unit, the console that drives the processor and the APU on one
master clock, the CPU and PPU memory maps, the cartridge boards (NROM, MMC1,
UxROM, CNROM, MMC3, AxROM, Color Dreams), iNES image parsing, joypads and the
frame buffer.

Each board's contract states exactly when its reads and writes succeed. On
a bus a board serves every address: an access it cannot serve at the moment
(an MMC3 bank data write while bank select names no register, a bank past the
end of a ROM) is a fault, which the bus device marks. The console's step
requires that it leave no fault, so a program that would make the board fault
is stopped before that step, and every board, MMC3 included, runs on the
console.

Layout:

- `src/` — the verified library (`cargo`-style crate `nes`).
  - `emulator/cpu/` — decoding (`decode.rs`), the instruction semantics as
    spec functions (`semantics.rs`), the executable instructions and
    addressing modes proved against them, tracing, and laws such as
    JSR/RTS and interrupt/RTI round trips (`laws.rs`).
  - `emulator/memory.rs` — the `Reader`/`Writer`/`Mapper` interfaces, RAM and
    ROM, the I/O registers and the CPU and PPU memory maps with their
    mirroring laws.
  - `emulator/mappers/` — the cartridge boards and the `Cartridge` enum that
    `ines::ROM::get_mapper` returns.
  - `emulator/mod.rs` — the console (`NES`): construction from an iNES
    image, the master-clock step and reset.
  - `emulator/apu/`, `emulator/clock.rs`, `emulator/dma.rs`,
    `emulator/controller.rs`, `emulator/io/` — sound channels, clocking,
    DMA, joypads, events and the screen buffer.
- `tests/` — the project's test suite and further tests of each module.
- `app/` — a terminal runner that traces a cartridge's program, and the
  floating-point audio filters.
