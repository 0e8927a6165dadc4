# gba_core

The core of a Game Boy Advance emulator, written in Verus: the ARM7TDMI CPU
(ARM and Thumb decoding, execution and disassembly), the memory bus with its
DMA channels, timers, interrupts and open-bus behaviour, the LCD renderer
(bitmap modes, sprites, windows and colour effects), the sound channels and
the keypad. Each operation carries a contract over a mathematical model of the
machine state, and Verus proves the code against it.

Layout:

- `src/` — the verified library: `cpu` (with `arm`, `thumb` and `text`),
  `bus`, `lcd`, `apu` (with its channels), `timer`, `keypad`, `cartridge`,
  `data_access` (byte lanes of I/O registers), `stack` (what the stack
  instructions give back) and `bits`.
- `tests/` — executable tests of the library.
- `app/` — a headless runner: loads a ROM, runs it for a number of frames and
  prints the checksum of the last frame.
