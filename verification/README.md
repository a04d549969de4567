# snes_core

A cycle-stepped Super Nintendo emulator core written in Verus. Every
function under `src/` is verified free of panics and overflow (four small
wrappers around std text formatting are trusted); how much of its
behaviour the contracts pin down varies by part:

- stated exactly: cartridge header parsing and the memory map, bus reads
  and writes of memory and the system registers (multiplier, divider,
  joypad port, NMI flag), PPU register reads and writes, SRAM restore and
  flush, the DSP-1 command protocol and its transform commands;
- stated per instruction for a subset of opcodes: the 65c816 (immediate
  and register operations including decimal ADC/SBC, flag operations,
  transfers, branches, JMP, JSR, RTS, LDA/STA absolute), the SPC700
  (immediate, register and direct-page moves, immediate ALU operations,
  flag operations, branches, MUL, DIV with its quotient/remainder law,
  STOP) and the Super FX (prefixes, INC/DEC, NOP);
- stated in part: audio mixing (the output sample when muted, which RAM
  an echo write touches), the audio CPU's clocking while stopped,
  scanline rendering (forced blank and zero brightness give black rows),
  beam timing, the frame counter, and DMA and HDMA (the A-bus address
  after a transfer; no active channel, no change).

Layout:

- `src/cartridge.rs`: ROM image loading (copier header, LoROM/HiROM
  detection by header score) and the cartridge address map.
- `src/bus.rs`: the 65c816's memory map, WRAM, SRAM, hardware
  multiplier/divider, joypad auto-read, DMA and HDMA, interrupt lines.
- `src/cpu.rs`: the 65c816 interpreter.
- `src/ppu.rs`, `src/ppu/render.rs`: PPU registers and beam timing;
  background/sprite pixels, colour math and the composed scanline.
- `src/spc700.rs`, `src/spc700/dsp.rs`: the audio CPU, its timers and
  mailbox ports, and the 8-voice sample DSP.
- `src/dsp1.rs`: the DSP-1 math coprocessor (command protocol and
  fixed-point operations); its data ROM is installed with
  `Dsp1::with_tables`.
- `src/superfx.rs`: the Super FX (GSU) coprocessor.
- `src/text.rs`: text dumps of the HDMA state for debugging.
- `src/bits.rs`: small bit-level lemmas shared by the modules.
- `src/lib.rs`: `Snes`, the whole console, stepping by instruction or frame.

`app/main.rs` is a headless runner: it loads a ROM file, keeps the battery
save in a `.srm` file beside it, runs frames and can write the last frame
as a PPM image.
