use epd47::pulse::encode_pulse;
use epd47::waveform::{line_buffer_reorder, prepare_dma_buffer, update_lut};
use epd47::{ConfigRegister, DrawMode};

#[test]
fn lut_default_depends_on_mode() {
    assert_eq!(DrawMode::BlackOnWhite.lut_default(), 0x55);
    assert_eq!(DrawMode::WhiteOnWhite.lut_default(), 0xAA);
    assert_eq!(DrawMode::WhiteOnBlack.lut_default(), 0xAA);
}

#[test]
fn contrast_cycles_match_the_tuned_tables() {
    let dark = [30, 30, 20, 20, 30, 30, 30, 40, 40, 50, 50, 50, 100, 200, 300];
    let light = [10, 10, 8, 8, 8, 8, 8, 10, 10, 15, 15, 20, 20, 100, 300];
    assert_eq!(DrawMode::BlackOnWhite.contrast_cycles(), dark);
    assert_eq!(DrawMode::WhiteOnWhite.contrast_cycles(), dark);
    assert_eq!(DrawMode::WhiteOnBlack.contrast_cycles(), light);
}

#[test]
fn update_lut_masks_the_matching_nibbles_reversed() {
    // Dark-target transitions mask level 14 at the first phase.
    let mut lut = vec![0x55u8; 1 << 16];
    update_lut(&mut lut, 0, DrawMode::BlackOnWhite);
    assert_eq!(lut[0x000E], 0x54); // low nibble 14: pixel 0 sub-field cleared
    assert_eq!(lut[0x00E0], 0x51); // nibble 1 is 14: pixel 1 sub-field cleared
    assert_eq!(lut[0xEEEE], 0x00); // every nibble 14: fully masked
    assert_eq!(lut[0x0000], 0x55); // no nibble 14: untouched
}

#[test]
fn update_lut_masks_the_matching_nibbles_forward() {
    // Lightening transitions mask level 0 at the first phase.
    let mut lut = vec![0xAAu8; 1 << 16];
    update_lut(&mut lut, 0, DrawMode::WhiteOnBlack);
    assert_eq!(lut[0x0000], 0x00);
    assert_eq!(lut[0x1111], 0xAA);
    assert_eq!(lut[0x0010], 0x08); // only nibble 1 differs from 0
}

#[test]
fn lut_masking_is_monotonic_across_phases() {
    for &mode in &[DrawMode::BlackOnWhite, DrawMode::WhiteOnBlack, DrawMode::WhiteOnWhite] {
        let mut lut = vec![mode.lut_default(); 1 << 16];
        let mut masked = vec![false; (1 << 16) * 4];
        for k in 0..15 {
            update_lut(&mut lut, k, mode);
            for code in 0..(1 << 16) {
                for j in 0..4 {
                    let now = lut[code] & (0x03 << (2 * j)) == 0;
                    let before = masked[code * 4 + j];
                    assert!(!before || now, "sub-field unmasked again");
                    masked[code * 4 + j] = now;
                }
            }
        }
    }
}

#[test]
fn reorder_swaps_the_halves_of_each_group() {
    let mut row = vec![1u8, 2, 3, 4, 5, 6, 7, 8];
    line_buffer_reorder(&mut row);
    assert_eq!(row, vec![3, 4, 1, 2, 7, 8, 5, 6]);
}

#[test]
fn reorder_twice_is_the_identity() {
    let mut row: Vec<u8> = (0..240).map(|i| (i * 7 % 256) as u8).collect();
    let original = row.clone();
    line_buffer_reorder(&mut row);
    assert_ne!(row, original);
    line_buffer_reorder(&mut row);
    assert_eq!(row, original);
}

#[test]
fn prepare_dma_buffer_looks_up_quad_codes() {
    let mut lut = vec![0u8; 1 << 16];
    for i in 0..(1 << 16) {
        lut[i] = (i % 251) as u8;
    }
    let mut line = vec![0u8; 480];
    for i in 0..240 {
        line[2 * i] = (i % 256) as u8;
        line[2 * i + 1] = (i / 3) as u8;
    }
    let out = prepare_dma_buffer(&line, &lut);
    assert_eq!(out.len(), 240);
    for i in 0..240 {
        let code = line[2 * i] as usize + 256 * line[2 * i + 1] as usize;
        assert_eq!(out[i], lut[code]);
    }
}

#[test]
fn encode_pulse_builds_the_two_level_frame() {
    let frame = encode_pulse(30, 50);
    assert!(frame[0].level1 && frame[0].length1 == 30);
    assert!(!frame[0].level2 && frame[0].length2 == 50);
    assert!(!frame[1].level1 && frame[1].length1 == 0 && frame[1].length2 == 0);
}

#[test]
fn encode_pulse_degenerates_to_low_only() {
    let frame = encode_pulse(0, 80);
    assert!(!frame[0].level1);
    assert_eq!(frame[0].length1, 80);
    assert_eq!(frame[0].length2, 0);
}

#[test]
fn register_bits_come_out_in_wire_order() {
    let r = ConfigRegister {
        latch_enable: true,
        power_disable: false,
        pos_power_enable: true,
        neg_power_enable: false,
        stv: true,
        power_enable: false,
        mode: true,
        output_enable: false,
    };
    let bits = epd47::actions::register_bits(&r);
    assert_eq!(
        bits,
        [false, true, false, true, false, true, false, true]
    );
}
