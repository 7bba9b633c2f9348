# lib — a verified NES emulator core

The library models the console's chips and buses as plain data with contracts proved by
Verus:

- `nes::cpu` — the 6502: the opcode table, addressing modes, every instruction's effect,
  interrupts, and the processor's `tick`/`run`, all stated against an abstract bus
  (`CpuBusInterface`); `nes::cpu::addressing_cycles` resolves operand addresses and runs
  read, write, read-modify-write and branch instructions one cycle at a time, dummy
  reads and writes included.
- `nes::bus::simple_bus` — a processor over 64 KiB of flat RAM.
- `nes::bus::nes_bus` — the console's memory map with the processor, PPU and APU on it:
  APU registers, sprite DMA scheduling and its per-cycle copy, NMI delivery, reset.
- `apu`, `nes::apu` — length counters, sequence timers, envelopes, sweep units, the frame
  sequencer and the pulse, triangle, noise and DMC channels, and the APU register file.
- `nes::ppu` — PPU registers, nametable and palette mirroring, the $2007 data port, dot
  timing with vertical blank and NMI, the per-dot operation schedule, and reset.
- `bus` — the CPU memory map (RAM mirroring, PPU registers, sprite DMA, controller,
  cartridge, open bus); `cartridge`, `nes::cartridge` — NROM, MMC1 and CNROM mappers.
- `controller`, `memory`, `rom`, `display`, `error` — the joypad, memory blocks, cartridge
  images and small shared types.

`app/` holds a headless command-line runner; `tests/` exercises the library.
