//! snes_core: cycle-stepped SNES emulator core with verified contracts.

pub mod bits;
pub mod bus;
pub mod cartridge;
pub mod cpu;
pub mod dsp1;
pub mod ppu;
pub mod spc700;
pub mod superfx;
pub mod text;

use vstd::prelude::*;
use crate::bus::Bus;
use crate::cartridge::Cartridge;
use crate::cpu::Cpu;

verus! {

/// The console: CPU, bus (memory map, PPU, APU, coprocessors) and a
/// frame counter.
pub struct Snes {
    pub cpu: Cpu,
    pub bus: Bus,
    pub frame_count: u64,
}

/// Master clocks in one frame: 262 lines of 1364.
pub open spec fn frame_clocks() -> int {
    262int * 1364int
}

impl Snes {
    pub open spec fn wf(&self) -> bool {
        self.bus.wf()
    }

    pub fn new(rom: Cartridge) -> (s: Self)
        requires
            Bus::can_map(rom),
        ensures
            s.wf(),
            s.bus.rom == rom,
            s.frame_count == 0,
            s.cpu == Cpu::new_state(),
    {
        Snes { cpu: Cpu::new(), bus: Bus::new(rom), frame_count: 0 }
    }

    pub fn reset(&mut self)
        requires
            old(self).wf(),
        ensures
            final(self).wf(),
            Bus::progress(old(self).bus, final(self).bus),
            final(self).frame_count == old(self).frame_count,
            final(self).cpu.e,
            final(self).cpu.sp == 0x01FF,
    {
        self.cpu.reset(&mut self.bus);
    }

    /// Run one instruction plus the bus time it consumed, then latch the
    /// interrupt lines into the CPU.
    pub fn step(&mut self)
        requires
            old(self).wf(),
        ensures
            final(self).wf(),
            final(self).frame_count == old(self).frame_count,
            old(self).bus.frame_ready ==> final(self).bus.frame_ready,
            !final(self).bus.ppu.frame_ended,
            final(self).bus.frame_ready || final(self).bus.ppu.beam() > old(self).bus.ppu.beam(),
            old(self).cpu.stopped ==> final(self).cpu == (Cpu {
                nmi_pending: final(self).cpu.nmi_pending,
                irq_pending: final(self).cpu.irq_pending,
                ..old(self).cpu
            }),
            cpu::runs_instruction(old(self).cpu) && cpu::next_instr_specified(old(self).bus, old(self).cpu)
                ==> final(self).cpu == (Cpu {
                cycles: final(self).cpu.cycles,
                nmi_pending: final(self).cpu.nmi_pending,
                irq_pending: final(self).cpu.irq_pending,
                ..cpu::next_instr_state(old(self).bus, old(self).cpu)
            }),
    {
        self.bus.dbg_pc = ((self.cpu.pb as u32) << 16u32) | self.cpu.pc as u32;
        let cycles = cpu::step(&mut self.cpu, &mut self.bus);
        self.bus.tick(cycles);
        self.bus.poll_interrupts();
        self.latch_interrupts();
    }

    /// Move a raised NMI line into the CPU's pending NMI and mirror the
    /// IRQ input.
    fn latch_interrupts(&mut self)
        requires
            old(self).wf(),
        ensures
            final(self).wf(),
            final(self).frame_count == old(self).frame_count,
            final(self).bus.frame_ready == old(self).bus.frame_ready,
            final(self).bus.ppu == old(self).bus.ppu,
            old(self).bus.nmi_line ==> final(self).cpu.nmi_pending && !final(self).bus.nmi_line,
            final(self).cpu == (Cpu {
                nmi_pending: final(self).cpu.nmi_pending,
                irq_pending: final(self).cpu.irq_pending,
                ..old(self).cpu
            }),
    {
        let nmi = self.bus.nmi_line;
        self.bus.nmi_line = false;
        self.cpu.nmi_pending = self.cpu.nmi_pending || nmi;
        self.cpu.irq_pending = self.bus.cpu_irq();
    }

    /// Run until the PPU completes a frame.
    pub fn run_frame(&mut self)
        requires
            old(self).wf(),
        ensures
            final(self).wf(),
            final(self).frame_count == vstd::wrapping::u64_specs::wrapping_add(old(self).frame_count, 1),
            !final(self).bus.frame_ready,
    {
        self.bus.frame_ready = false;
        self.step();
        while !self.bus.frame_ready
            invariant
                self.wf(),
                self.frame_count == old(self).frame_count,
                !self.bus.ppu.frame_ended,
            decreases (if self.bus.frame_ready { 0int } else { frame_clocks() - self.bus.ppu.beam() }),
        {
            self.step();
        }
        self.bus.frame_ready = false;
        self.frame_count = self.frame_count.wrapping_add(1);
    }

    /// Install a battery save read from disk. It is used only when the
    /// cartridge has SRAM and the file is exactly its size: a stale or
    /// foreign save must not break the game. A used save leaves SRAM clean.
    pub fn restore_sram(&mut self, file: Option<Vec<u8>>)
        requires
            old(self).wf(),
        ensures
            final(self).wf(),
            (file matches Some(f) && old(self).bus.sram@.len() > 0 && f@.len() == old(self).bus.sram@.len()) ==> {
                &&& final(self).bus.sram@ == file->Some_0@
                &&& *final(self) == (Snes {
                    bus: Bus { sram: final(self).bus.sram, sram_dirty: false, ..old(self).bus },
                    ..*old(self)
                })
            },
            !(file matches Some(f) && old(self).bus.sram@.len() > 0 && f@.len() == old(self).bus.sram@.len())
                ==> *final(self) == *old(self),
    {
        if self.bus.sram.len() == 0 {
            return ;
        }
        if let Some(data) = file {
            if data.len() == self.bus.sram.len() {
                let mut i: usize = 0;
                while i < data.len()
                    invariant
                        i <= data@.len(),
                        data@.len() == self.bus.sram@.len(),
                        old(self).wf(),
                        data@.len() == old(self).bus.sram@.len(),
                        self.bus == (Bus { sram: self.bus.sram, ..old(self).bus }),
                        self.cpu == old(self).cpu,
                        self.frame_count == old(self).frame_count,
                        forall|k: int| 0 <= k < i ==> self.bus.sram@[k] == data@[k],
                    decreases data@.len() - i,
                {
                    self.bus.sram.set(i, data[i]);
                    i += 1;
                }
                assert(self.bus.sram@ == data@);
                self.bus.sram_dirty = false;
            }
        }
    }

    /// The SRAM image to write to disk, when the cartridge has SRAM and the
    /// game wrote to it since the last flush.
    pub fn sram_to_flush(&self) -> (r: Option<&[u8]>)
        ensures
            r is Some <==> (self.bus.sram@.len() > 0 && self.bus.sram_dirty),
            r matches Some(s) ==> s@ == self.bus.sram@,
    {
        if self.bus.sram.len() > 0 && self.bus.sram_dirty {
            Some(self.bus.sram.as_slice())
        } else {
            None
        }
    }

    /// Record the outcome of a flush: a successful write leaves SRAM clean.
    pub fn note_flushed(&mut self, ok: bool)
        ensures
            *final(self) == (Snes {
                bus: Bus { sram_dirty: old(self).bus.sram_dirty && !ok, ..old(self).bus },
                ..*old(self)
            }),
    {
        if ok {
            self.bus.sram_dirty = false;
        }
    }

    /// The RGB888 framebuffer, 256 x 240.
    pub fn framebuffer(&self) -> (fb: &[u32])
        ensures
            fb@ == self.bus.ppu.framebuffer@,
    {
        self.bus.ppu.framebuffer.as_slice()
    }
}

} // verus!
