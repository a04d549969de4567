use snes_core::dsp1::Dsp1;

fn send(d: &mut Dsp1, bytes: &[u8]) {
    for &b in bytes {
        d.set_byte(b, 0x6000);
    }
}

fn word(d: &mut Dsp1) -> u16 {
    let lo = d.get_byte(0x6000) as u16;
    let hi = d.get_byte(0x6000) as u16;
    lo | hi << 8
}

#[test]
fn multiply_command_returns_q15_product() {
    let mut d = Dsp1::new();
    // $00: multiply 0x4000 (0.5) by 0x2000 (0.25) -> 0x1000 (0.125)
    send(&mut d, &[0x00, 0x00, 0x40, 0x00, 0x20]);
    assert_eq!(d.out_count, 2);
    assert_eq!(word(&mut d), 0x1000);
    // Nothing left to read.
    assert_eq!(d.get_byte(0x6000), 0x80);
}

#[test]
fn multiply_negative_operands() {
    let mut d = Dsp1::new();
    // -0x4000 * 0x4000 >> 15 = -0x2000
    send(&mut d, &[0x00, 0x00, 0xC0, 0x00, 0x40]);
    assert_eq!(word(&mut d), 0xE000);
}

#[test]
fn rounded_multiply_adds_one() {
    let mut d = Dsp1::new();
    send(&mut d, &[0x20, 0x00, 0x40, 0x00, 0x20]);
    assert_eq!(word(&mut d), 0x1001);
}

#[test]
fn range_command() {
    let mut d = Dsp1::new();
    // x=0x100, y=0x200, z=0, r=0x100: (0x10000 + 0x40000 - 0x10000) >> 15 = 8
    send(&mut d, &[0x18, 0x00, 0x01, 0x00, 0x02, 0x00, 0x00, 0x00, 0x01]);
    assert_eq!(word(&mut d), 8);
}

#[test]
fn memory_size_and_dump_size_commands() {
    let mut d = Dsp1::new();
    send(&mut d, &[0x0F, 0x12, 0x34]);
    assert_eq!(word(&mut d), 0x0000);
    send(&mut d, &[0x2F, 0x12, 0x34]);
    assert_eq!(word(&mut d), 0x0100);
}

#[test]
fn unknown_command_is_ignored() {
    let mut d = Dsp1::new();
    send(&mut d, &[0x80]);
    assert!(d.waiting4command);
    assert_eq!(d.get_byte(0x6000), 0x80);
    assert_eq!(d.command_log_count, 1);
}

#[test]
fn addresses_past_the_boundary_are_unmapped() {
    let mut d = Dsp1::new();
    d.set_byte(0x00, 0x7000);
    assert!(d.waiting4command);
    assert_eq!(d.command_log_count, 0);
    assert_eq!(d.get_byte(0x7000), 0x80);
}

#[test]
fn parameters_collect_until_command_runs() {
    let mut d = Dsp1::new();
    send(&mut d, &[0x00, 0x01]);
    assert!(!d.waiting4command);
    assert_eq!(d.in_count, 3);
    assert_eq!(d.parameters[0], 0x01);
    send(&mut d, &[0x02, 0x03, 0x04]);
    assert!(d.waiting4command);
    assert_eq!(d.in_count, 0);
}

#[test]
fn attitude_then_objective_with_blank_tables() {
    // With blank mask-ROM tables every sine is 0, so the attitude matrix is
    // zero and the objective transform yields zeros.
    let mut d = Dsp1::new();
    send(&mut d, &[0x01, 0x00, 0x40, 0, 0, 0, 0, 0, 0]);
    send(&mut d, &[0x0D, 0x00, 0x10, 0x00, 0x20, 0x00, 0x30]);
    assert_eq!(d.out_count, 6);
    assert_eq!(word(&mut d), 0);
    assert_eq!(word(&mut d), 0);
    assert_eq!(word(&mut d), 0);
}

#[test]
fn objective_and_subjective_transforms_use_matrix_a() {
    let mut d = Dsp1::new();
    d.matrix_a = [[0x4000, 0, 0], [0, 0x2000, 0], [0, 0, 0x7FFF]];
    // $0D: matrix A * (0x1000, 0x2000, 0x4000), each product >> 15.
    send(&mut d, &[0x0D, 0x00, 0x10, 0x00, 0x20, 0x00, 0x40]);
    assert_eq!(word(&mut d), 0x0800);
    assert_eq!(word(&mut d), 0x0800);
    assert_eq!(word(&mut d), 0x3FFF);
    // $03: (F, L, U) * matrix A; a diagonal matrix gives the same products.
    send(&mut d, &[0x03, 0x00, 0x10, 0x00, 0x20, 0x00, 0x40]);
    assert_eq!(word(&mut d), 0x0800);
    assert_eq!(word(&mut d), 0x0800);
    assert_eq!(word(&mut d), 0x3FFF);
}

#[test]
fn inverse_of_zero_saturates() {
    let mut d = Dsp1::new();
    // $10: inverse of 0 * 2^5 -> (0x7FFF, 0x002F)
    send(&mut d, &[0x10, 0x00, 0x00, 0x05, 0x00]);
    assert_eq!(word(&mut d), 0x7FFF);
    assert_eq!(word(&mut d), 0x002F);
}

#[test]
fn sine_and_cosine_of_zero_radius_are_zero() {
    let mut d = Dsp1::new();
    // $04: angle 0x2000, radius 0 -> sin and cos scaled to 0
    send(&mut d, &[0x04, 0x00, 0x20, 0x00, 0x00]);
    assert_eq!(word(&mut d), 0x0000);
    assert_eq!(word(&mut d), 0x0000);
}
