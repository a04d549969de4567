use snes_core::spc700::dsp::{clamp16, counter_fires, decode_brr, interpolate, Dsp, Voice};
use snes_core::spc700::Spc700;

/// ADDW YA,dp must write back BOTH bytes of YA.
#[test]
fn addw_writeback() {
    let mut s = Spc700::new();
    // MOV A,#0C; MOV $10,A; MOV $11,A; MOV A,#F2; MOV Y,#FF; ADDW YA,$10; MOVW $12,YA; STOP
    let code: [u8; 16] = [
        0xE8, 0x0C, 0xC4, 0x10, 0xC4, 0x11, 0xE8, 0xF2,
        0x8D, 0xFF, 0x7A, 0x10, 0xDA, 0x12, 0xEF, 0x00,
    ];
    s.ram[0x200..0x210].copy_from_slice(&code);
    s.pc = 0x200;
    for _ in 0..200 {
        s.tick(21); // ~1 SPC cycle per call
    }
    assert_eq!(s.ram[0x12], 0xFE, "ADDW low byte wrong: YA={:02X}{:02X}", s.ram[0x13], s.ram[0x12]);
    assert_eq!(s.ram[0x13], 0x0B, "ADDW high byte wrong");
}

#[test]
fn cpu_port_write_is_read_by_spc() {
    let mut s = Spc700::new();
    s.write_port(1, 0x5A);
    assert_eq!(s.read(0x00F5), 0x5A);
    s.write_port(5, 0x33); // port number wraps at 4
    assert_eq!(s.read(0x00F5), 0x33);
}

#[test]
fn spc_port_write_is_read_by_cpu() {
    let mut s = Spc700::new();
    s.write(0x00F6, 0x77);
    assert_eq!(s.read_port(2), 0x77);
}

#[test]
fn clamp16_saturates() {
    assert_eq!(clamp16(40000), 32767);
    assert_eq!(clamp16(-40000), -32768);
    assert_eq!(clamp16(1234), 1234);
}

#[test]
fn counter_rate_zero_never_fires() {
    for c in 0..100 {
        assert!(!counter_fires(c, 0));
    }
}

#[test]
fn tick_accumulates_master_clocks() {
    let mut s = Spc700::new();
    s.tick(20);
    assert_eq!(s.master_acc, 20);
    s.tick(1);
    assert_eq!(s.master_acc, 0);
}

#[test]
fn gaussian_interpolation_of_a_flat_signal_is_unit_gain() {
    let mut v = Voice::new();
    v.buf = [1000; 24];
    v.interp_pos = 0;
    // Taps 370 + 1305 + 374 + 0 = 2049, scaled by 2^-11, low bit cleared.
    assert_eq!(interpolate(&v), 998);
}

#[test]
fn gaussian_interpolation_mixes_four_samples() {
    let mut v = Voice::new();
    v.buf = [0; 24];
    v.buf[0] = -20000;
    v.buf[1] = 30000;
    v.buf[2] = 30000;
    v.buf[3] = -5000;
    v.interp_pos = 0x800; // coefficient offset 0x80, ring position 0
    assert_eq!(interpolate(&v), 27640);
}

#[test]
fn brr_block_decodes_four_shifted_nybbles() {
    let mut v = Voice::new(); // block at $0000, data byte pair at offset 1
    let mut ram = [0u8; 0x10000];
    ram[2] = 0x7F; // the byte after the data byte
    // Shift 11, no filter: nybbles 1, 2, 7, -1.
    decode_brr(&mut v, 0xB0, 0x12, &ram);
    assert_eq!(&v.buf[0..4], &[2048, 4096, 14336, -2048]);
    assert_eq!(&v.buf[12..16], &[2048, 4096, 14336, -2048]);
    assert_eq!(v.buf_pos, 4);
}

#[test]
fn brr_filter_one_feeds_back_the_previous_sample() {
    let mut v = Voice::new();
    v.buf[11] = 1000;
    v.buf[10] = 2000;
    let mut ram = [0u8; 0x10000];
    ram[2] = 0x80;
    // Shift 7, filter 1 (s + p1 * 15/16).
    decode_brr(&mut v, 0x74, 0x1F, &ram);
    assert_eq!(&v.buf[0..4], &[1064, 868, -212, -200]);
}

#[test]
fn timer_registers_enable_target_and_read_clear() {
    let mut spc = Spc700::new();
    spc.write(0xFA, 0x10); // timer 0 target
    assert_eq!(spc.timers[0].target, 0x10);
    spc.timers[0].output = 5;
    spc.write(0xF1, 0x01); // enable timer 0 (was disabled: stages reset)
    assert!(spc.timers[0].enabled);
    assert!(!spc.timers[1].enabled);
    assert_eq!(spc.timers[0].output, 0);
    spc.timers[0].output = 3;
    assert_eq!(spc.read(0xFD), 3);
    assert_eq!(spc.read(0xFD), 0);
}

#[test]
fn control_register_clears_input_ports() {
    let mut spc = Spc700::new();
    spc.write_port(0, 0x11);
    spc.write_port(1, 0x22);
    spc.write_port(2, 0x33);
    spc.write_port(3, 0x44);
    spc.write(0xF1, 0x20); // clear ports 0 and 1
    assert_eq!(spc.read(0xF4), 0);
    assert_eq!(spc.read(0xF5), 0);
    assert_eq!(spc.read(0xF6), 0x33);
    assert_eq!(spc.read(0xF7), 0x44);
}

fn run_spc_program(code: &[u8]) -> Spc700 {
    let mut s = Spc700::new();
    s.ram[0x200..0x200 + code.len()].copy_from_slice(code);
    s.pc = 0x200;
    for _ in 0..400 {
        s.tick(21);
    }
    s
}

#[test]
fn div_gives_quotient_and_remainder() {
    // MOV A,#02; MOV Y,#00; MOV X,#01; DIV YA,X; MOV $20,A; MOV $21,Y; STOP
    let s = run_spc_program(&[0xE8, 0x02, 0x8D, 0x00, 0xCD, 0x01, 0x9E, 0xC4, 0x20, 0xCB, 0x21, 0xEF]);
    assert_eq!(s.ram[0x20], 0x02);
    assert_eq!(s.ram[0x21], 0x00);
    // 0x1234 / 0x56 = 0x36 remainder 0x10
    let s = run_spc_program(&[0xE8, 0x34, 0x8D, 0x12, 0xCD, 0x56, 0x9E, 0xC4, 0x20, 0xCB, 0x21, 0xEF]);
    assert_eq!(s.ram[0x20], 0x36);
    assert_eq!(s.ram[0x21], 0x10);
}

/// Power-on FLG ($E0) mutes the output and write-protects the echo buffer:
/// every sample is silent and RAM is untouched, whatever the volumes say.
#[test]
fn muted_dsp_outputs_silence_and_keeps_ram() {
    let mut d = Dsp::new();
    for (reg, v) in [(0x0Cu8, 0x7Fu8), (0x1C, 0x7F), (0x2C, 0x7F), (0x3C, 0x7F), (0x0D, 0x40)] {
        d.write(reg, v);
    }
    let mut ram = vec![0x55u8; 0x10000];
    let ram_arr: &mut [u8; 0x10000] = (&mut ram[..]).try_into().unwrap();
    for _ in 0..64 {
        d.cycle(ram_arr);
    }
    let mut out = Vec::new();
    d.drain(&mut out);
    assert_eq!(out.len(), 2);
    assert!(out.iter().all(|s| *s == (0, 0)));
    assert!(ram.iter().all(|b| *b == 0x55));
}

/// With echo writes enabled (FLG bit 5 clear) one sample writes the four
/// echo-buffer bytes at ESA*$100 and nothing else.
#[test]
fn echo_write_touches_only_the_echo_slot() {
    let mut d = Dsp::new();
    d.write(0x6C, 0x00); // FLG: no reset, no mute, echo writes on
    d.write(0x6D, 0x40); // ESA: echo buffer at $4000
    let mut ram = vec![0x55u8; 0x10000];
    let ram_arr: &mut [u8; 0x10000] = (&mut ram[..]).try_into().unwrap();
    for _ in 0..32 {
        d.cycle(ram_arr);
    }
    assert_eq!(&ram[0x4000..0x4004], &[0, 0, 0, 0]);
    assert!(ram[..0x4000].iter().all(|b| *b == 0x55));
    assert!(ram[0x4004..].iter().all(|b| *b == 0x55));
}
