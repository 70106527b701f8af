# nesemu

A NES emulator whose core is verified with Verus: the 6502 CPU, the CPU
address space, the PPU (registers, VRAM mirroring, scrolling, sprite
evaluation and pixel output), the cartridge mappers (NROM, UxROM, MMC1,
MMC3), the iNES loader, the joypads and the integer part of the APU.

Each operation states its effect over a mathematical model of the machine
(`CpuState`, `MemState`, `PpuState`, `PpuView`, ...), and the laws that the
emulator relies on (stack push/pull, JSR/RTS, memory mirrors, PPUADDR and
PPUDATA, vertical blank timing, scroll increments, the MMC1 shift register,
the joypad strobe) are proved as proof functions next to the code.

Layout:

- `src/` — the verified library (`cpu`, `ppu`, `apu`, `mapper`, `rom`,
  `joypad`, `nes`, `graphic`).
- `app/` — the SDL2 front end: window, keyboard, sound output and mixing,
  save states (JSON), and a pattern-table viewer.
- `tests/` — unit tests of the library.

Usage: `nesemu run <rom>`, `nesemu load <state>`, `nesemu patterns <rom>`.
Keys: WASD / ZX / FG for player one, IJKL / NM / OP for player two, Space
to pause (the nametables are shown while paused), Return for debug, F2 to
save, Escape to quit.
