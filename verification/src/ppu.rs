//! Picture Processing Unit: register file, scanline timing, renderer.
//!
//! NTSC timing: 1364 master clocks per scanline, 262 scanlines per frame.
//! HBlank begins at dot 1096. VBlank begins at scanline 225 (240 in overscan).

pub mod render;

use vstd::prelude::*;
use crate::bits::{
    lemma_and_le_u8, lemma_and_le_u16, lemma_and_le_u32, lemma_and_le_usize, lemma_flip_bit0_u8,
    lemma_mask_1ff_u16, lemma_mask_1ff_usize, lemma_mirror3_usize, lemma_shr_le_u32,
};

pub use render::sprite_sizes;

verus! {

pub const WIDTH: usize = 256;

pub const HEIGHT: usize = 240;

pub const DOTS_PER_LINE: u64 = 1364;

pub const HDOT_START: u64 = 1096;

pub const LINES_PER_FRAME: u64 = 262;

/// OBJ layer id in the priority tables.
const OBJ_LAYER: u8 = 4;

pub struct Ppu {
    // --- memories ---
    pub vram: Box<[u8; 0x10000]>,  // 64 KiB, word-addressed via VMADD
    pub cgram: Box<[u8; 0x200]>,  // 512 bytes, 256 colors x 15-bit
    pub oam: Box<[u8; 0x220]>,  // 544 bytes
    // --- timing ---
    pub master_accum: u64,
    pub dot: u64,
    pub line: u64,
    pub last_irq_frame: u64,
    pub last_irq_line: u64,
    pub nmi_flag: bool,
    pub nmi_delay: u64,  // NMI fires N cycles after vblank starts (matches real 5A22)
    pub hdma_due: bool,
    /// Set at the line-0 frame wrap: HDMA pointers re-init at frame start,
    /// independent of NMI timing.
    pub hdma_init_due: bool,
    pub frame: u64,
    pub frame_ended: bool,
    pub wram_refresh_pending: bool,
    // --- registers ---
    pub cg_writes: u32,
    pub m7_dbg: Box<[u8; 256]>,  // debug: mode 7 indices captured at line 100
    pub m7_dbg_valid: bool,
    pub dbg_mode_count: [u32; 8],  // debug: render_scanline mode histogram
    pub dbg_pc: u32,  // debug: CPU pc at last register write
    pub dbg_vram_log: bool,  // debug: VMADDR writes are of interest to the frontend
    pub dbg_scroll_log: bool,  // debug: record per-scanline BG scroll in dbg_scroll_ring
    pub dbg_scroll_ring: Vec<(u16, u16, u16, u16, u16)>,  // (fb_row, hofs0, vofs0, hofs1, vofs1)
    pub inidisp: u8,
    pub obsel: u8,
    pub oam_addr: u16,
    pub oam_latch: u8,
    pub oam_flip: u8,  // $2104 write flip-flop: 0 = low byte (latch), 1 = high byte (commit)
    pub oam_priority_rotation: bool,  // $2103 bit 7
    pub first_sprite: u8,  // sprite with highest OBJ priority when rotation is on
    pub bgmode: u8,
    pub mosaic: u8,
    pub bg_sc: [u8; 4],
    pub bg_nba12: u8,
    pub bg_nba34: u8,
    pub bg_hofs: [u16; 4],
    pub bg_vofs: [u16; 4],
    pub ofs_latch: u8,  // write-twice latch for scroll regs
    pub m7_latch: u8,  // write-twice latch for mode 7 regs
    pub vmain: u8,
    pub vmadd: u16,
    pub vram_prefetch: u16,
    pub cgadd: u8,
    pub cg_latch: u8,  // 0 = next access is low byte, 1 = high byte
    pub cg_latch_val: u8,
    pub m7sel: u8,
    pub m7: [u16; 8],  // A,B,C,D,centerX,centerY,hofs,vofs
    pub w12sel: u8,
    pub w34sel: u8,
    pub wobjsel: u8,
    pub wh: [u8; 4],
    pub wbglog: u8,
    pub wobjlog: u8,
    pub tm: u8,
    pub ts: u8,
    pub tmw: u8,
    pub tsw: u8,
    pub cgwsel: u8,
    pub cgadsub: u8,
    /// Fixed color for color math, one 8-bit channel per R/G/B. COLDATA
    /// writes update only the channel(s) whose apply bit is set.
    pub fixed_rgb: [u8; 3],
    pub setini: u8,
    pub hv_latch_h: u16,
    pub hv_latch_v: u16,
    /// $213C/$213D byte-toggle flip-flops. These are independent on
    /// hardware; both are cleared by a $213F (STAT78) read.
    pub h_flip: bool,
    pub v_flip: bool,
    pub stat78_lsb: bool,
    /// RGB888 framebuffer, WIDTH x HEIGHT.
    pub framebuffer: Box<[u32; 61440]>,
}

/// Byte address in VRAM of the low (`high == false`) or high byte of a word.
pub open spec fn vram_byte_index(word_addr: u16, high: bool) -> int {
    ((word_addr & 0x7FFF) as int) * 2 + if high {
        1int
    } else {
        0int
    }
}

pub open spec fn spec_read_vram_word(vram: Seq<u8>, word_addr: u16) -> u16 {
    ((vram[vram_byte_index(word_addr, false)] as u16) | ((vram[vram_byte_index(word_addr, true)]
        as u16) << 8u16)) as u16
}

/// VMAIN address increment (bits 1-0: 1, 32 or 128 words).
pub open spec fn vram_step(vmain: u8) -> u16 {
    if vmain & 0x03 == 0 {
        1
    } else if vmain & 0x03 == 1 {
        32
    } else {
        128
    }
}

/// VMADD after a data-port access; VMAIN bit 7 selects which byte increments.
pub open spec fn vmadd_after(vmadd: u16, vmain: u8, high: bool) -> u16 {
    if (vmain & 0x80 != 0) == high {
        vstd::wrapping::u16_specs::wrapping_add(vmadd, vram_step(vmain))
    } else {
        vmadd
    }
}

/// The (width, height) pairs for small and large sprites per OBSEL size field.
pub open spec fn spec_sprite_sizes(sel: u8) -> ((i32, i32), (i32, i32)) {
    if sel == 0 {
        ((8, 8), (16, 16))
    } else if sel == 1 {
        ((8, 8), (32, 32))
    } else if sel == 2 {
        ((8, 8), (64, 64))
    } else if sel == 3 {
        ((16, 16), (32, 32))
    } else if sel == 4 {
        ((16, 16), (64, 64))
    } else if sel == 5 {
        ((32, 32), (64, 64))
    } else if sel == 6 {
        ((16, 32), (32, 64))
    } else {
        ((32, 64), (64, 64))
    }
}

/// Window logic for one layer at screen column `x` (true = masked).
pub open spec fn spec_window_masked(wh: [u8; 4], sel: u8, x: int) -> bool {
    let w1_en = sel & 0x02 != 0;
    let w1_inv = sel & 0x01 != 0;
    let w2_en = sel & 0x20 != 0;
    let w2_inv = sel & 0x10 != 0;
    let logic = (sel >> 6u8) & 3;
    let in1 = wh[0] <= x && x <= wh[1];
    let in2 = wh[2] <= x && x <= wh[3];
    let a = if w1_en {
        in1 != w1_inv
    } else {
        false
    };
    let b = if w2_en {
        in2 != w2_inv
    } else {
        false
    };
    if w1_en && w2_en {
        if logic == 0 {
            a || b
        } else if logic == 1 {
            a && b
        } else if logic == 2 {
            a != b
        } else {
            a == b
        }
    } else if w1_en {
        a
    } else if w2_en {
        b
    } else {
        false
    }
}

/// One colour-math channel: add or subtract, optionally halve, clamp to 0..=255.
pub open spec fn spec_color_math(c: u8, f: u8, sub: bool, half: bool) -> u8 {
    let v: int = if sub {
        c - f
    } else {
        c + f
    };
    let h: int = if half {
        if v < 0 {
            -((-v) / 2)
        } else {
            v / 2
        }
    } else {
        v
    };
    if h < 0 {
        0
    } else if h > 255 {
        255
    } else {
        h as u8
    }
}

pub open spec fn spec_vblank_start(setini: u8) -> u64 {
    if setini & 0x04 != 0 {
        240
    } else {
        225
    }
}

impl Ppu {
    /// Beam position within the frame, in master clocks.
    pub open spec fn beam(&self) -> int {
        self.line * 1364 + self.dot
    }

    /// Well-formedness: the beam position and the register latches stay in range.
    pub open spec fn wf(&self) -> bool {
        &&& self.master_accum == 0
        &&& self.inv()
    }

    /// Range facts that also hold in the middle of a `tick`.
    pub open spec fn inv(&self) -> bool {
        &&& self.dot < DOTS_PER_LINE
        &&& self.line < LINES_PER_FRAME
        &&& self.oam_addr <= 0x1FF
        &&& self.oam_flip <= 1
        &&& self.cg_latch <= 1
    }

    /// Every register and latch other than INIDISP (forced blank at power
    /// on) holds zero.
    pub open spec fn registers_cleared(&self) -> bool {
        &&& self.obsel == 0 && self.oam_latch == 0 && !self.oam_priority_rotation && self.first_sprite == 0
        &&& self.bgmode == 0 && self.mosaic == 0 && self.bg_nba12 == 0 && self.bg_nba34 == 0
        &&& forall|i: int| 0 <= i < 4 ==> self.bg_sc[i] == 0 && self.bg_hofs[i] == 0 && self.bg_vofs[i] == 0
            && self.wh[i] == 0
        &&& self.ofs_latch == 0 && self.m7_latch == 0 && self.vram_prefetch == 0 && self.cg_latch_val == 0
        &&& self.m7sel == 0 && forall|i: int| 0 <= i < 8 ==> self.m7[i] == 0
        &&& self.w12sel == 0 && self.w34sel == 0 && self.wobjsel == 0 && self.wbglog == 0 && self.wobjlog == 0
        &&& self.tm == 0 && self.ts == 0 && self.tmw == 0 && self.tsw == 0 && self.cgwsel == 0 && self.cgadsub == 0
        &&& forall|i: int| 0 <= i < 3 ==> self.fixed_rgb[i] == 0
        &&& self.setini == 0 && self.hv_latch_h == 0 && self.hv_latch_v == 0
        &&& !self.h_flip && !self.v_flip && !self.stat78_lsb
    }

    pub fn new() -> (p: Self)
        ensures
            p.wf(),
            p.line == 0,
            p.dot == 0,
            p.inidisp == 0x80,
            p.frame == 0,
            p.vmadd == 0,
            p.vmain == 0,
            p.cgadd == 0,
            p.cg_latch == 0,
            p.oam_addr == 0,
            p.oam_flip == 0,
            !p.nmi_flag,
            !p.hdma_due,
            !p.hdma_init_due,
            !p.frame_ended,
            !p.wram_refresh_pending,
            forall|i: int| 0 <= i < 0x10000 ==> p.vram[i] == 0,
            forall|i: int| 0 <= i < 0x200 ==> p.cgram[i] == 0,
            forall|i: int| 0 <= i < 0x220 ==> p.oam[i] == 0,
            p.registers_cleared(),
            forall|i: int| 0 <= i < 61440 ==> p.framebuffer[i] == 0,
    {
        Ppu {
            vram: Box::new([0;0x10000]),
            cgram: Box::new([0;0x200]),
            oam: Box::new([0;0x220]),
            master_accum: 0,
            dot: 0,
            line: 0,
            last_irq_frame: u64::MAX,
            last_irq_line: u64::MAX,
            nmi_flag: false,
            nmi_delay: 0,
            hdma_due: false,
            hdma_init_due: false,
            frame: 0,
            wram_refresh_pending: false,
            frame_ended: false,
            inidisp: 0x80,  // forced blank at power-on
            obsel: 0,
            oam_addr: 0,
            oam_latch: 0,
            oam_flip: 0,
            oam_priority_rotation: false,
            first_sprite: 0,
            bgmode: 0,
            mosaic: 0,
            bg_sc: [0;4],
            bg_nba12: 0,
            bg_nba34: 0,
            bg_hofs: [0;4],
            bg_vofs: [0;4],
            ofs_latch: 0,
            m7_latch: 0,
            vmain: 0,
            vmadd: 0,
            vram_prefetch: 0,
            cg_writes: 0,
            m7_dbg: Box::new([0;256]),
            m7_dbg_valid: false,
            dbg_mode_count: [0;8],
            dbg_vram_log: false,
            dbg_scroll_log: false,
            dbg_scroll_ring: Vec::new(),
            dbg_pc: 0,
            cgadd: 0,
            cg_latch: 0,
            cg_latch_val: 0,
            m7sel: 0,
            m7: [0;8],
            w12sel: 0,
            w34sel: 0,
            wobjsel: 0,
            wh: [0;4],
            wbglog: 0,
            wobjlog: 0,
            tm: 0,
            ts: 0,
            tmw: 0,
            tsw: 0,
            cgwsel: 0,
            cgadsub: 0,
            fixed_rgb: [0;3],
            setini: 0,
            hv_latch_h: 0,
            hv_latch_v: 0,
            h_flip: false,
            v_flip: false,
            stat78_lsb: false,
            framebuffer: Box::new([0;61440]),
        }
    }

    // ----- timing -----
    /// Advance the beam by `master_cycles` dots; a scanline is 1364 dots
    /// and a frame 262 scanlines.
    #[verifier::spinoff_prover]
    pub fn tick(&mut self, master_cycles: u64)
        requires
            old(self).wf(),
        ensures
            final(self).wf(),
            final(self).dot == (old(self).dot + master_cycles) % 1364,
            final(self).line == (old(self).line + (old(self).dot + master_cycles) / 1364)
                % 262,
            old(self).frame_ended ==> final(self).frame_ended,
            old(self).beam() + master_cycles >= 262 * 1364 ==> final(self).frame_ended,
            old(self).beam() + master_cycles < 262 * 1364 ==> final(self).beam() == old(self).beam() + master_cycles,
            final(self).setini == old(self).setini,
            old(self).nmi_flag ==> final(self).nmi_flag,
            old(self).nmi_delay > 0 && master_cycles >= old(self).nmi_delay ==> final(self).nmi_flag,
            ({
                let vb = spec_vblank_start(old(self).setini);
                let l1 = old(self).line + (old(self).dot + master_cycles) / 1364;
                old(self).line < vb <= l1 < 262 ==> final(self).nmi_delay == 4
            }),
            old(self).beam() + master_cycles < 262 * 1364 ==> final(self).frame == old(self).frame,
            final(self).inidisp == old(self).inidisp,
            old(self).beam() + master_cycles < 262 * 1364 && (old(self).inidisp & 0x80 != 0 || old(self).inidisp & 0x0F == 0) ==> forall|i: int|
                0 <= i && (old(self).line - 1) * 256 <= i < (final(self).line - 1) * 256 && i < (spec_vblank_start(
                    old(self).setini,
                ) - 1) * 256 ==> final(self).framebuffer[i] == 0,
    {
        // NMI delay countdown
        if self.nmi_delay > 0 {
            if master_cycles >= self.nmi_delay {
                self.nmi_delay = 0;
                self.nmi_flag = true;
            } else {
                self.nmi_delay = self.nmi_delay - master_cycles;
            }
        }
        let ghost d0 = self.dot as int;
        let ghost l0 = self.line as int;
        let ghost m = master_cycles as int;
        let ghost f0 = self.frame_ended;
        let ghost flag0 = self.nmi_flag;
        let ghost delay0 = self.nmi_delay;
        let ghost vb = spec_vblank_start(self.setini);
        let ghost mut k: int = 0;
        self.master_accum = master_cycles;
        loop
            invariant_except_break
                self.inv(),
                k >= 0,
                d0 + m == k * 1364 + self.dot + self.master_accum,
                self.line == (l0 + k) % 262,
                f0 ==> self.frame_ended,
                l0 + k >= 262 ==> self.frame_ended,
                0 <= l0 < 262,
                vb == spec_vblank_start(self.setini),
                self.setini == old(self).setini,
                self.nmi_flag == flag0,
                l0 + k < 262 && (l0 + k < vb || l0 >= vb) ==> self.nmi_delay == delay0,
                l0 < vb <= l0 + k < 262 ==> self.nmi_delay == 4,
                self.inidisp == old(self).inidisp,
                l0 + k <= 261 ==> self.frame == old(self).frame,
                (old(self).inidisp & 0x80 != 0 || old(self).inidisp & 0x0F == 0) ==> forall|i: int|
                    0 <= i && (l0 - 1) * 256 <= i < (l0 + k - 1) * 256 && i < (vb - 1) * 256 && l0 + k <= 262
                        ==> self.framebuffer[i] == 0,
            ensures
                self.wf(),
                k >= 0,
                d0 + m == k * 1364 + self.dot,
                self.line == (l0 + k) % 262,
                f0 ==> self.frame_ended,
                l0 + k >= 262 ==> self.frame_ended,
                self.setini == old(self).setini,
                self.nmi_flag == flag0,
                l0 < vb <= l0 + k < 262 ==> self.nmi_delay == 4,
                self.inidisp == old(self).inidisp,
                l0 + k <= 261 ==> self.frame == old(self).frame,
                (old(self).inidisp & 0x80 != 0 || old(self).inidisp & 0x0F == 0) ==> forall|i: int|
                    0 <= i && (l0 - 1) * 256 <= i < (l0 + k - 1) * 256 && i < (vb - 1) * 256 && l0 + k <= 262
                        ==> self.framebuffer[i] == 0,
            decreases self.master_accum,
        {
            let line_left = DOTS_PER_LINE - self.dot;
            if self.master_accum < line_left {
                self.dot = self.dot + self.master_accum;
                self.master_accum = 0;
                break ;
            }
            // finish current scanline
            self.master_accum = self.master_accum - line_left;
            self.dot = 0;
            let ghost before = self.line as int;
            self.end_of_line();
            proof {
                vstd::arithmetic::div_mod::lemma_add_mod_noop(l0 + k, 1, 262);
                assert((l0 + k) % 262 == before);
                if l0 + k == 261 {
                    assert(before == 261);
                }
                if l0 + k < 261 {
                    vstd::arithmetic::div_mod::lemma_small_mod((l0 + k) as nat, 262);
                    vstd::arithmetic::div_mod::lemma_small_mod((l0 + k + 1) as nat, 262);
                }
                assert(1int % 262 == 1);
                k = k + 1;
            }
        }
        proof {
            vstd::arithmetic::div_mod::lemma_fundamental_div_mod_converse(
                d0 + m,
                1364,
                k,
                self.dot as int,
            );
            let dt = self.dot as int;
            assert(l0 * 1364 + d0 + m >= 262 * 1364 ==> l0 + k >= 262) by (nonlinear_arith)
                requires
                    d0 + m == k * 1364 + dt,
                    0 <= dt < 1364,
            ;
            assert(l0 * 1364 + d0 + m < 262 * 1364 ==> 0 <= l0 + k < 262) by (nonlinear_arith)
                requires
                    d0 + m == k * 1364 + dt,
                    0 <= dt < 1364,
                    k >= 0,
                    l0 >= 0,
            ;
            if l0 * 1364 + d0 + m < 262 * 1364 {
                vstd::arithmetic::div_mod::lemma_small_mod((l0 + k) as nat, 262);
            }
            assert(k == (d0 + m) / 1364) by {
                vstd::arithmetic::div_mod::lemma_fundamental_div_mod_converse(d0 + m, 1364, k, dt);
            }
        }
    }

    #[verifier::rlimit(80)]
    #[verifier::spinoff_prover]
    fn end_of_line(&mut self)
        requires
            old(self).inv(),
        ensures
            final(self).inv(),
            final(self).master_accum == old(self).master_accum,
            final(self).dot == old(self).dot,
            final(self).line == (old(self).line + 1) % 262,
            old(self).frame_ended ==> final(self).frame_ended,
            old(self).line == 261 ==> final(self).frame_ended,
            final(self).setini == old(self).setini,
            final(self).nmi_flag == old(self).nmi_flag,
            final(self).nmi_delay == if old(self).line + 1 == spec_vblank_start(old(self).setini) {
                4
            } else {
                old(self).nmi_delay
            },
            final(self).inidisp == old(self).inidisp,
            final(self).frame == if old(self).line == 261 {
                vstd::wrapping::u64_specs::wrapping_add(old(self).frame, 1)
            } else {
                old(self).frame
            },
            forall|i: int|
                0 <= i < 61440 && !(1 <= old(self).line < spec_vblank_start(old(self).setini) && (old(self).line - 1)
                    * 256 <= i < old(self).line * 256) ==> final(self).framebuffer[i] == old(self).framebuffer[i],
            1 <= old(self).line < spec_vblank_start(old(self).setini) && (old(self).inidisp & 0x80 != 0 || old(self).inidisp & 0x0F == 0) ==> forall|i: int|
                (old(self).line - 1) * 256 <= i < old(self).line * 256 ==> final(self).framebuffer[i] == 0,
    {
        let vblank_start = self.vblank_start();
        // Visible PPU lines are 1..vblank_start-1; line N is presented at
        // framebuffer row N-1. Line 0 is not displayed.
        if self.line >= 1 && self.line < vblank_start {
            self.render_scanline((self.line - 1) as usize);
        }
        let ghost rendered = *self;
        assert(forall|i: int|
            0 <= i < 61440 && !(1 <= old(self).line < vblank_start && (old(self).line - 1) * 256 <= i < old(self).line
                * 256) ==> rendered.framebuffer[i] == old(self).framebuffer[i]);
        self.line = self.line + 1;
        if self.line == vblank_start {
            // NMI is flagged at vblank start but fires after a delay; the
            // tick() countdown sets nmi_flag when the delay expires.
            self.nmi_delay = 4;
        } else if self.line >= LINES_PER_FRAME {
            self.line = 0;
            self.frame_ended = true;
            self.frame = self.frame.wrapping_add(1);
            self.hdma_init_due = true;
        }
        if self.line < vblank_start {
            self.hdma_due = true;
        }
        // WRAM refresh fires once per visible scanline at ~dot 132
        if self.line < vblank_start {
            self.wram_refresh_pending = true;
        }
    }

    fn vblank_start(&self) -> (v: u64)
        ensures
            v == spec_vblank_start(self.setini),
    {
        if self.setini & 0x04 != 0 {
            240
        } else {
            225
        }
    }

    pub fn take_nmi(&mut self) -> (v: bool)
        requires
            old(self).wf(),
        ensures
            final(self).wf(),
            v == old(self).nmi_flag,
            !final(self).nmi_flag,
            *final(self) == (Ppu { nmi_flag: false, ..*old(self) }),
    {
        let v = self.nmi_flag;
        self.nmi_flag = false;
        v
    }

    pub fn take_hdma_due(&mut self) -> (v: bool)
        requires
            old(self).wf(),
        ensures
            final(self).wf(),
            v == old(self).hdma_due,
            *final(self) == (Ppu { hdma_due: false, ..*old(self) }),
    {
        let v = self.hdma_due;
        self.hdma_due = false;
        v
    }

    pub fn take_hdma_init_due(&mut self) -> (v: bool)
        requires
            old(self).wf(),
        ensures
            final(self).wf(),
            v == old(self).hdma_init_due,
            *final(self) == (Ppu { hdma_init_due: false, ..*old(self) }),
    {
        let v = self.hdma_init_due;
        self.hdma_init_due = false;
        v
    }

    pub fn in_vblank(&self) -> (v: bool)
        ensures
            v == (self.line >= spec_vblank_start(self.setini)),
    {
        self.line >= self.vblank_start()
    }

    pub fn in_hblank(&self) -> (v: bool)
        ensures
            v == (self.dot >= HDOT_START),
    {
        self.dot >= HDOT_START
    }

    pub fn scanline(&self) -> (v: u16)
        ensures
            v == self.line as u16,
    {
        self.line as u16
    }

    /// H/V timer comparison, evaluated at line/dot granularity; fires at most
    /// once per (frame, line).
    pub fn irq_hit(&mut self, htime: u16, vtime: u16, nmitimen: u8) -> (hit: bool)
        requires
            old(self).wf(),
        ensures
            final(self).wf(),
            hit == ((old(self).last_irq_frame != old(self).frame || old(self).last_irq_line
                != old(self).line) && ({
                let vt_hit = old(self).line == vtime as u64;
                let ht_hit = old(self).dot >= (htime as u64) * 4;
                let mode = nmitimen & 0x30;
                if mode == 0x10 {
                    ht_hit
                } else if mode == 0x20 {
                    vt_hit
                } else if mode == 0x30 {
                    vt_hit && ht_hit
                } else {
                    false
                }
            })),
            hit ==> *final(self) == (Ppu {
                last_irq_frame: old(self).frame,
                last_irq_line: old(self).line,
                ..*old(self)
            }),
            !hit ==> *final(self) == *old(self),
    {
        if self.last_irq_frame == self.frame && self.last_irq_line == self.line {
            return false;
        }
        let mode = nmitimen & 0x30;
        let vt_hit = self.line == vtime as u64;
        // Fire once the dot has passed HTIME; the (frame, line) latch above
        // keeps this to one hit per line.
        let ht_hit = self.dot >= (htime as u64) * 4;
        let hit = if mode == 0x10 {
            ht_hit
        } else if mode == 0x20 {
            vt_hit
        } else if mode == 0x30 {
            vt_hit && ht_hit
        } else {
            false
        };
        if hit {
            self.last_irq_frame = self.frame;
            self.last_irq_line = self.line;
        }
        hit
    }

    // ----- CPU register interface -----
    /// M7 multiply result ($2134-$2136): byte `sel` of the signed 16x8
    /// product M7A * (M7B >> 8).
    fn m7_product_byte(&self, sel: u16) -> (v: u8)
        requires
            sel <= 2,
        ensures
            v == ((((self.m7[0] as i16 as i32) * ((((self.m7[1] >> 8u16) as u8) as i8) as i32)) as i32) >> ((sel * 8) as u32)) as u8,
    {
        let a = self.m7[0] as i16 as i32;
        let b = ((self.m7[1] >> 8u16) as u8) as i8 as i32;
        proof {
            assert(-32768 * 128 <= a * b <= 32768 * 128) by (nonlinear_arith)
                requires -32768 <= a <= 32767, -128 <= b <= 127;
        }
        let r = a * b;
        (r >> ((sel * 8) as u32)) as u8
    }

    /// $2138: OAM data read; the address advances by one word per byte.
    fn read_oam_data(&mut self) -> (v: u8)
        requires
            old(self).inv(),
        ensures
            final(self).inv(),
            v == old(self).oam[(((old(self).oam_addr * 2) as usize) & 0x21F) as int],
            *final(self) == (Ppu { oam_addr: ((old(self).oam_addr + 1) % 0x200) as u16, ..*old(self) }),
    {
        let byte_addr = (self.oam_addr * 2) as usize;
        proof {
            lemma_and_le_usize(byte_addr, 0x21F);
        }
        let v = self.oam[byte_addr & 0x21F];
        let a0 = self.oam_addr;
        self.oam_addr = self.oam_addr.wrapping_add(1) & 0x1FF;
        proof {
            lemma_mask_1ff_u16(vstd::wrapping::u16_specs::wrapping_add(a0, 1));
        }
        v
    }

    /// $2139/$213A: VRAM read through the prefetch latch.
    #[verifier::rlimit(40)]
    fn read_vram_data(&mut self, high: bool) -> (v: u8)
        requires
            old(self).inv(),
        ensures
            final(self).inv(),
            v == if high { (old(self).vram_prefetch >> 8u16) as u8 } else { old(self).vram_prefetch as u8 },
            final(self).vmadd == vmadd_after(old(self).vmadd, old(self).vmain, high),
            *final(self) == (Ppu { vmadd: final(self).vmadd, vram_prefetch: final(self).vram_prefetch, ..*old(self) }),
    {
        proof {
            lemma_and_le_u16(self.vmadd, 0x7FFF);
        }
        let idx = (self.vmadd & 0x7FFF) as usize * 2;
        let v;
        if high {
            v = (self.vram_prefetch >> 8u16) as u8;
            self.vram_prefetch = (self.vram_prefetch & 0x00FF) | ((self.vram[idx + 1] as u16) << 8u16);
        } else {
            v = self.vram_prefetch as u8;
            self.vram_prefetch = (self.vram_prefetch & 0xFF00) | self.vram[idx] as u16;
        }
        self.vmadd_inc(high);
        v
    }

    /// $213B: CGRAM read, low byte then high byte of the current entry.
    fn read_cgram_data(&mut self) -> (v: u8)
        requires
            old(self).inv(),
        ensures
            final(self).inv(),
            v == old(self).cgram[((old(self).cgadd as int) * 2 + old(self).cg_latch) % 0x200],
            final(self).cg_latch == 1 - old(self).cg_latch,
            final(self).cgadd == if old(self).cg_latch == 1 {
                vstd::wrapping::u8_specs::wrapping_add(old(self).cgadd, 1)
            } else {
                old(self).cgadd
            },
            *final(self) == (Ppu { cgadd: final(self).cgadd, cg_latch: final(self).cg_latch, ..*old(self) }),
    {
        let a = (self.cgadd as usize) * 2 + self.cg_latch as usize;
        proof {
            lemma_and_le_usize(a, 0x1FF);
            lemma_mask_1ff_usize(a);
        }
        let v = self.cgram[a & 0x1FF];
        if self.cg_latch == 1 {
            self.cgadd = self.cgadd.wrapping_add(1);
        }
        let c0 = self.cg_latch;
        self.cg_latch = self.cg_latch ^ 1;
        proof {
            lemma_flip_bit0_u8(c0);
        }
        v
    }

    #[verifier::rlimit(40)]
    #[verifier::spinoff_prover]
    pub fn read_register(&mut self, addr: u16) -> (v: u8)
        requires
            old(self).wf(),
        ensures
            final(self).wf(),
            final(self).vram == old(self).vram,
            final(self).cgram == old(self).cgram,
            final(self).oam == old(self).oam,
            final(self).framebuffer == old(self).framebuffer,
            final(self).line == old(self).line,
            final(self).dot == old(self).dot,
            final(self).frame_ended == old(self).frame_ended,
            final(self).setini == old(self).setini,
            addr == 0x213E ==> v == 0x01,
            0x2139 <= addr <= 0x213A ==> final(self).vmadd == vmadd_after(old(self).vmadd, old(self).vmain, addr == 0x213A),
            addr == 0x213B ==> v == old(self).cgram[((old(self).cgadd as int) * 2 + old(self).cg_latch) % 0x200],
            addr == 0x2138 ==> v == old(self).oam[(((old(self).oam_addr * 2) as usize) & 0x21F) as int],
            (addr < 0x2134 || addr > 0x213F) ==> v == 0 && *final(self) == *old(self),
            0x2134 <= addr <= 0x2136 ==> v == ((((old(self).m7[0] as i16 as i32) * ((((old(self).m7[1] >> 8u16) as u8)
                as i8) as i32)) as i32) >> (((addr - 0x2134) * 8) as u32)) as u8,
            addr == 0x2137 ==> v == 0 && final(self).hv_latch_h == (old(self).dot / 4) as u16
                && final(self).hv_latch_v == old(self).line as u16,
            addr == 0x2139 ==> v == old(self).vram_prefetch as u8,
            addr == 0x213A ==> v == (old(self).vram_prefetch >> 8u16) as u8,
            addr == 0x213C ==> v == (if old(self).h_flip { (old(self).hv_latch_h >> 8u16) as u8 } else {
                old(self).hv_latch_h as u8
            }) && final(self).h_flip == !old(self).h_flip,
            addr == 0x213D ==> v == (if old(self).v_flip { (old(self).hv_latch_v >> 8u16) as u8 } else {
                old(self).hv_latch_v as u8
            }) && final(self).v_flip == !old(self).v_flip,
            addr == 0x213F ==> v == (if old(self).stat78_lsb { 1u8 } else { 0u8 }) && !final(self).h_flip
                && !final(self).v_flip && final(self).stat78_lsb == !old(self).stat78_lsb,
            0x2134 <= addr <= 0x2136 ==> *final(self) == *old(self),
            addr == 0x213B ==> final(self).cg_latch == 1 - old(self).cg_latch && final(self).cgadd == if old(self).cg_latch
                == 1 {
                vstd::wrapping::u8_specs::wrapping_add(old(self).cgadd, 1)
            } else {
                old(self).cgadd
            },
            addr == 0x2138 ==> final(self).oam_addr == ((old(self).oam_addr + 1) % 0x200) as u16,
    {
        if addr >= 0x2134 && addr <= 0x2136 {
            self.m7_product_byte(addr - 0x2134)
        } else if addr == 0x2137 {
            self.hv_latch_h = (self.dot / 4) as u16;
            self.hv_latch_v = self.line as u16;
            0
        } else if addr == 0x2138 {
            self.read_oam_data()
        } else if addr == 0x2139 {
            self.read_vram_data(false)
        } else if addr == 0x213A {
            self.read_vram_data(true)
        } else if addr == 0x213B {
            self.read_cgram_data()
        } else if addr == 0x213C {
            if !self.h_flip {
                self.h_flip = true;
                self.hv_latch_h as u8
            } else {
                self.h_flip = false;
                (self.hv_latch_h >> 8u16) as u8
            }
        } else if addr == 0x213D {
            if !self.v_flip {
                self.v_flip = true;
                self.hv_latch_v as u8
            } else {
                self.v_flip = false;
                (self.hv_latch_v >> 8u16) as u8
            }
        } else if addr == 0x213E {
            0x01  // PPU1 version, no flags
        } else if addr == 0x213F {
            // STAT78 read clears the H/V counter byte toggles.
            self.h_flip = false;
            self.v_flip = false;
            let v: u8 = if self.stat78_lsb {
                0x01
            } else {
                0x00
            };
            self.stat78_lsb = !self.stat78_lsb;
            v  // NTSC, PPU2 v1
        } else {
            0  // write-only registers read as open bus (approximated as 0)
        }
    }

    fn vmadd_inc(&mut self, high: bool)
        ensures
            *final(self) == (Ppu {
                vmadd: vmadd_after(old(self).vmadd, old(self).vmain, high),
                ..*old(self)
            }),
    {
        // increment applies after accessing the byte selected by VMAIN bit 7
        let inc_on_high = self.vmain & 0x80 != 0;
        if inc_on_high != high {
            return ;
        }
        let step: u16 = if self.vmain & 0x03 == 0 {
            1
        } else if self.vmain & 0x03 == 1 {
            32
        } else {
            128
        };
        self.vmadd = self.vmadd.wrapping_add(step);
    }

    pub fn read_vram_word(&self, word_addr: u16) -> (w: u16)
        ensures
            w == spec_read_vram_word(self.vram@, word_addr),
    {
        proof {
            lemma_and_le_u16(word_addr, 0x7FFF);
        }
        let a = (word_addr & 0x7FFF) as usize * 2;
        (self.vram[a] as u16) | ((self.vram[a + 1] as u16) << 8u16)
    }
}


/// Byte written to OAM by a $2104 access (None for the latching first byte).
pub open spec fn oam_write_effect(oam: Seq<u8>, oam_addr: u16, flip: u8, latch: u8, v: u8) -> Seq<u8> {
    if oam_addr & 0x100 != 0 {
        oam.update((0x200 + ((oam_addr & 0x0F) as int) * 2 + flip) % 0x220, v)
    } else if flip == 0 {
        oam
    } else {
        oam.update(((oam_addr as int) * 2) % 0x200, latch).update(((oam_addr as int) * 2 + 1) % 0x200, v)
    }
}

/// OAM address after a $2104 access: it advances once both bytes of a word
/// (or a high-table byte pair) have been written.
pub open spec fn oam_addr_after_write(oam_addr: u16, flip: u8) -> u16 {
    if flip == 1 {
        ((oam_addr + 1) % 0x200) as u16
    } else {
        oam_addr
    }
}


impl Ppu {
    #[verifier::spinoff_prover]
    pub fn write_register(&mut self, addr: u16, v: u8)
        requires
            old(self).wf(),
        ensures
            final(self).wf(),
            addr != 0x2100 ==> final(self).inidisp == old(self).inidisp,
            addr != 0x2101 ==> final(self).obsel == old(self).obsel,
            addr != 0x2105 ==> final(self).bgmode == old(self).bgmode,
            addr != 0x2106 ==> final(self).mosaic == old(self).mosaic,
            !(0x2107 <= addr <= 0x210A) ==> final(self).bg_sc == old(self).bg_sc,
            addr != 0x210B ==> final(self).bg_nba12 == old(self).bg_nba12,
            addr != 0x210C ==> final(self).bg_nba34 == old(self).bg_nba34,
            !(0x210D <= addr <= 0x2114) ==> final(self).bg_hofs == old(self).bg_hofs && final(self).bg_vofs
                == old(self).bg_vofs && final(self).ofs_latch == old(self).ofs_latch,
            addr != 0x2115 ==> final(self).vmain == old(self).vmain,
            !(addr == 0x2116 || addr == 0x2117 || addr == 0x2118 || addr == 0x2119) ==> final(self).vmadd
                == old(self).vmadd,
            addr != 0x211A ==> final(self).m7sel == old(self).m7sel,
            !(0x211B <= addr <= 0x2120 || addr == 0x210D || addr == 0x210E) ==> final(self).m7 == old(self).m7
                && final(self).m7_latch == old(self).m7_latch,
            !(addr == 0x2121 || addr == 0x2122) ==> final(self).cgadd == old(self).cgadd && final(self).cg_latch
                == old(self).cg_latch,
            !(0x2123 <= addr <= 0x212B) ==> final(self).w12sel == old(self).w12sel && final(self).w34sel
                == old(self).w34sel && final(self).wobjsel == old(self).wobjsel && final(self).wh == old(self).wh
                && final(self).wbglog == old(self).wbglog && final(self).wobjlog == old(self).wobjlog,
            addr != 0x212C ==> final(self).tm == old(self).tm,
            addr != 0x212D ==> final(self).ts == old(self).ts,
            addr != 0x212E ==> final(self).tmw == old(self).tmw,
            addr != 0x212F ==> final(self).tsw == old(self).tsw,
            addr != 0x2130 ==> final(self).cgwsel == old(self).cgwsel,
            addr != 0x2131 ==> final(self).cgadsub == old(self).cgadsub,
            addr != 0x2132 ==> final(self).fixed_rgb == old(self).fixed_rgb,
            addr != 0x2133 ==> final(self).setini == old(self).setini,
            !(0x2102 <= addr <= 0x2104) ==> final(self).oam_addr == old(self).oam_addr && final(self).oam_flip
                == old(self).oam_flip,
            final(self).line == old(self).line,
            final(self).dot == old(self).dot,
            final(self).frame_ended == old(self).frame_ended,
            final(self).framebuffer == old(self).framebuffer,
            addr != 0x2118 && addr != 0x2119 ==> final(self).vram == old(self).vram,
            addr != 0x2122 ==> final(self).cgram == old(self).cgram,
            addr != 0x2104 ==> final(self).oam == old(self).oam,
            addr == 0x2100 ==> final(self).inidisp == v,
            addr == 0x2101 ==> final(self).obsel == v,
            addr == 0x2105 ==> final(self).bgmode == v,
            addr == 0x2133 ==> final(self).setini == v,
            addr == 0x212C ==> final(self).tm == v,
            addr == 0x212D ==> final(self).ts == v,
            addr == 0x2115 ==> final(self).vmain == v,
            addr == 0x2116 ==> final(self).vmadd == ((old(self).vmadd & 0xFF00) | (v as u16)),
            addr == 0x2117 ==> final(self).vmadd == ((old(self).vmadd & 0x00FF) | ((v as u16) << 8u16)),
            addr == 0x2118 ==> {
                &&& final(self).vram@ == old(self).vram@.update(vram_byte_index(old(self).vmadd, false), v)
                &&& final(self).vmadd == vmadd_after(old(self).vmadd, old(self).vmain, false)
            },
            addr == 0x2119 ==> {
                &&& final(self).vram@ == old(self).vram@.update(vram_byte_index(old(self).vmadd, true), v)
                &&& final(self).vmadd == vmadd_after(old(self).vmadd, old(self).vmain, true)
            },
            addr == 0x2121 ==> final(self).cgadd == v && final(self).cg_latch == 0,
            addr == 0x2122 ==> if old(self).cg_latch == 0 {
                &&& final(self).cgram == old(self).cgram
                &&& final(self).cg_latch == 1
                &&& final(self).cg_latch_val == v
                &&& final(self).cgadd == old(self).cgadd
            } else {
                &&& final(self).cgram@ == old(self).cgram@.update(
                    (old(self).cgadd as int) * 2,
                    old(self).cg_latch_val,
                ).update((old(self).cgadd as int) * 2 + 1, v)
                &&& final(self).cg_latch == 0
                &&& final(self).cgadd == vstd::wrapping::u8_specs::wrapping_add(old(self).cgadd, 1)
            },
            addr == 0x2102 ==> final(self).oam_addr == ((old(self).oam_addr & 0xFF00) | (v as u16)) && final(self).oam_flip == 0,
            addr == 0x2103 ==> final(self).oam_addr == ((old(self).oam_addr & 0x00FF) | (((v as u16) & 0x01) << 8u16)) && final(self).oam_flip == 0,
            addr == 0x2104 ==> {
                &&& final(self).oam@ == oam_write_effect(old(self).oam@, old(self).oam_addr, old(self).oam_flip, old(self).oam_latch, v)
                &&& final(self).oam_flip == 1 - old(self).oam_flip
                &&& final(self).oam_addr == oam_addr_after_write(old(self).oam_addr, old(self).oam_flip)
                &&& (old(self).oam_addr & 0x100 == 0 && old(self).oam_flip == 0 ==> final(self).oam_latch == v)
            },
            addr == 0x2106 ==> final(self).mosaic == v,
            0x2107 <= addr <= 0x210A ==> final(self).bg_sc@ == old(self).bg_sc@.update(addr - 0x2107, v),
            addr == 0x210B ==> final(self).bg_nba12 == v,
            addr == 0x210C ==> final(self).bg_nba34 == v,
            0x210D <= addr <= 0x2114 ==> {
                let layer = (addr - 0x210D) / 2;
                let word = (((v as u16) << 8u16) | old(self).ofs_latch as u16) & 0x3FF;
                &&& final(self).ofs_latch == v
                &&& addr % 2 == 1 ==> final(self).bg_hofs@ == old(self).bg_hofs@.update(layer, word)
                    && final(self).bg_vofs == old(self).bg_vofs
                &&& addr % 2 == 0 ==> final(self).bg_vofs@ == old(self).bg_vofs@.update(layer, word)
                    && final(self).bg_hofs == old(self).bg_hofs
            },
            addr == 0x211A ==> final(self).m7sel == v,
            0x211B <= addr <= 0x2120 ==> final(self).m7@ == old(self).m7@.update(
                addr - 0x211B,
                ((v as u16) << 8u16) | old(self).m7_latch as u16,
            ) && final(self).m7_latch == v,
            addr == 0x2123 ==> final(self).w12sel == v,
            addr == 0x2124 ==> final(self).w34sel == v,
            addr == 0x2125 ==> final(self).wobjsel == v,
            0x2126 <= addr <= 0x2129 ==> final(self).wh@ == old(self).wh@.update(addr - 0x2126, v),
            addr == 0x212A ==> final(self).wbglog == v,
            addr == 0x212B ==> final(self).wobjlog == v,
            addr == 0x212E ==> final(self).tmw == v,
            addr == 0x212F ==> final(self).tsw == v,
            addr == 0x2130 ==> final(self).cgwsel == v,
            addr == 0x2131 ==> final(self).cgadsub == v,
            addr == 0x2132 ==> {
                &&& final(self).fixed_rgb[0] == if v & 0x20 != 0 { (v & 0x1F) << 3u8 } else { old(self).fixed_rgb[0] }
                &&& final(self).fixed_rgb[1] == if v & 0x40 != 0 { (v & 0x1F) << 3u8 } else { old(self).fixed_rgb[1] }
                &&& final(self).fixed_rgb[2] == if v & 0x80 != 0 { (v & 0x1F) << 3u8 } else { old(self).fixed_rgb[2] }
            },
    {
        if addr == 0x2100 {
            self.inidisp = v;
        } else if addr == 0x2101 {
            self.obsel = v;
        } else if addr == 0x2102 {
            self.oam_addr = (self.oam_addr & 0xFF00) | v as u16;
            proof {
                lemma_oam_addr_bits(old(self).oam_addr, v);
            }
            self.oam_flip = 0;
            if self.oam_priority_rotation {
                self.first_sprite = ((self.oam_addr & 0xFE) >> 1u16) as u8;
            }
        } else if addr == 0x2103 {
            self.oam_addr = (self.oam_addr & 0x00FF) | ((v as u16 & 0x01) << 8u16);
            proof {
                lemma_oam_addr_bits(old(self).oam_addr, v);
            }
            self.oam_flip = 0;
            self.oam_priority_rotation = v & 0x80 != 0;
            self.first_sprite = if self.oam_priority_rotation {
                ((self.oam_addr & 0xFE) >> 1u16) as u8
            } else {
                0
            };
        } else if addr == 0x2104 {
            if self.oam_addr & 0x100 != 0 {
                // High table: 32 bytes at oam[0x200..0x220], written byte-by-byte.
                let idx = 0x200 + ((self.oam_addr & 0x0F) as usize) * 2 + self.oam_flip as usize;
                proof {
                    lemma_and_le_u16(self.oam_addr, 0x0F);
                    lemma_high_table_index(idx);
                    lemma_and_le_usize(idx, 0x21F);
                }
                self.oam[idx & 0x21F] = v;
            } else if self.oam_flip == 0 {
                self.oam_latch = v;
            } else {
                // Commit the latched low byte plus this high byte as one word.
                let base = (self.oam_addr as usize) * 2;
                proof {
                    let b1 = (base + 1) as usize;
                    lemma_mask_1ff_usize(base);
                    lemma_mask_1ff_usize(b1);
                    lemma_and_le_usize(base, 0x1FF);
                    lemma_and_le_usize(b1, 0x1FF);
                }
                self.oam[base & 0x1FF] = self.oam_latch;
                self.oam[(base + 1) & 0x1FF] = v;
            }
            self.oam_flip = self.oam_flip ^ 1;
            proof {
                lemma_flip_bit0_u8(old(self).oam_flip);
            }
            if self.oam_flip == 0 {
                self.oam_addr = self.oam_addr.wrapping_add(1) & 0x1FF;
                proof {
                    lemma_mask_1ff_u16(vstd::wrapping::u16_specs::wrapping_add(old(self).oam_addr, 1));
                }
            }
        } else if addr == 0x2105 {
            self.bgmode = v;
        } else if addr == 0x2106 {
            self.mosaic = v;
        } else if addr >= 0x2107 && addr <= 0x210A {
            self.bg_sc[(addr - 0x2107) as usize] = v;
        } else if addr == 0x210B {
            self.bg_nba12 = v;
        } else if addr == 0x210C {
            self.bg_nba34 = v;
        } else if addr >= 0x210D && addr <= 0x2114 {
            let idx = ((addr - 0x210D) >> 1u16) as usize;
            proof {
                vstd::bits::lemma_u16_shr_is_div((addr - 0x210D) as u16, 1);
                vstd::arithmetic::power2::lemma2_to64();
            }
            // $210D/210F/2111/2113 are HOFS (odd), $210E/2110/2112/2114 VOFS (even)
            let is_h = addr & 1 != 0;
            proof {
                vstd::bits::lemma_low_bits_mask_values();
                vstd::bits::lemma_u16_low_bits_mask_is_mod(addr, 1);
                assert(is_h == (addr % 2 == 1));
            }
            let val16 = ((v as u16) << 8u16) | self.ofs_latch as u16;
            if is_h {
                self.bg_hofs[idx] = val16 & 0x3FF;
            } else {
                self.bg_vofs[idx] = val16 & 0x3FF;
            }
            self.ofs_latch = v;
            // $210D/$210E double as M7HOFS/M7VOFS, sharing the mode 7
            // write-twice latch with $211B-$2120.
            if addr == 0x210D {
                self.m7[6] = ((v as u16) << 8u16) | self.m7_latch as u16;
                self.m7_latch = v;
            } else if addr == 0x210E {
                self.m7[7] = ((v as u16) << 8u16) | self.m7_latch as u16;
                self.m7_latch = v;
            }
        } else if addr == 0x2115 {
            self.vmain = v;
        } else if addr == 0x2116 {
            self.vmadd = (self.vmadd & 0xFF00) | v as u16;
            self.vram_prefetch = self.read_vram_word(self.vmadd);
        } else if addr == 0x2117 {
            self.vmadd = (self.vmadd & 0x00FF) | ((v as u16) << 8u16);
            self.vram_prefetch = self.read_vram_word(self.vmadd);
        } else if addr == 0x2118 {
            proof {
                lemma_and_le_u16(self.vmadd, 0x7FFF);
            }
            self.vram[(self.vmadd & 0x7FFF) as usize * 2] = v;
            self.vmadd_inc(false);
        } else if addr == 0x2119 {
            proof {
                lemma_and_le_u16(self.vmadd, 0x7FFF);
            }
            self.vram[(self.vmadd & 0x7FFF) as usize * 2 + 1] = v;
            self.vmadd_inc(true);
        } else if addr == 0x211A {
            self.m7sel = v;
        } else if addr >= 0x211B && addr <= 0x2120 {
            let idx = (addr - 0x211B) as usize;
            self.m7[idx] = ((v as u16) << 8u16) | self.m7_latch as u16;
            self.m7_latch = v;
        } else if addr == 0x2121 {
            self.cgadd = v;
            self.cg_latch = 0;
        } else if addr == 0x2122 {
            self.cg_writes = self.cg_writes.wrapping_add(1);
            if self.cg_latch == 0 {
                self.cg_latch_val = v;
                self.cg_latch = 1;
            } else {
                let a = (self.cgadd as usize) * 2;
                self.cgram[a] = self.cg_latch_val;
                self.cgram[a + 1] = v;
                self.cgadd = self.cgadd.wrapping_add(1);
                self.cg_latch = 0;
            }
        } else if addr == 0x2123 {
            self.w12sel = v;
        } else if addr == 0x2124 {
            self.w34sel = v;
        } else if addr == 0x2125 {
            self.wobjsel = v;
        } else if addr >= 0x2126 && addr <= 0x2129 {
            self.wh[(addr - 0x2126) as usize] = v;
        } else if addr == 0x212A {
            self.wbglog = v;
        } else if addr == 0x212B {
            self.wobjlog = v;
        } else if addr == 0x212C {
            self.tm = v;
        } else if addr == 0x212D {
            self.ts = v;
        } else if addr == 0x212E {
            self.tmw = v;
        } else if addr == 0x212F {
            self.tsw = v;
        } else if addr == 0x2130 {
            self.cgwsel = v;
        } else if addr == 0x2131 {
            self.cgadsub = v;
        } else if addr == 0x2132 {
            // Per-channel fixed color: only channels with an apply bit change.
            if v & 0x20 != 0 {
                self.fixed_rgb[0] = (v & 0x1F) << 3u8;
            }
            if v & 0x40 != 0 {
                self.fixed_rgb[1] = (v & 0x1F) << 3u8;
            }
            if v & 0x80 != 0 {
                self.fixed_rgb[2] = (v & 0x1F) << 3u8;
            }
        } else if addr == 0x2133 {
            self.setini = v;
        }
    }

}

/// An OAM address rebuilt from one new byte stays within 9 bits.
proof fn lemma_oam_addr_bits(a0: u16, v: u8)
    by (bit_vector)
    ensures
        a0 <= 0x1FF ==> (a0 & 0xFF00) | (v as u16) <= 0x1FF,
        (a0 & 0x00FF) | (((v as u16) & 0x01) << 8u16) <= 0x1FF,
{
}

/// Indices into the 32-byte high table are fixed by the `0x21F` mask.
proof fn lemma_high_table_index(idx: usize)
    by (bit_vector)
    requires
        0x200 <= idx < 0x220,
    ensures
        idx & 0x21F == idx % 0x220,
{
}

} // verus!
