use epd47::{Action, Display, DrawMode, Rectangle};

fn count_frame_starts(acts: &[Action]) -> usize {
    acts.iter()
        .filter(|a| matches!(a, Action::Pulse { high: 10000, low: 1000, wait: false }))
        .count()
}

fn count_transfers(acts: &[Action]) -> usize {
    acts.iter().filter(|a| matches!(a, Action::Transfer(_))).count()
}

#[test]
fn take_actions_drains_the_log() {
    let mut d = Display::new();
    // construction shifts the safe initial register state out once
    let boot = d.take_actions();
    assert_eq!(boot.len(), 1);
    assert!(matches!(
        boot[0],
        Action::Register(r)
            if r.power_disable && r.stv && r.power_enable
                && !r.latch_enable && !r.pos_power_enable && !r.neg_power_enable
                && !r.mode && !r.output_enable
    ));
    assert!(d.take_actions().is_empty());
    d.power_on();
    let first = d.take_actions();
    assert!(!first.is_empty());
    assert!(d.take_actions().is_empty());
}

#[test]
fn power_on_writes_the_ramp_sequence() {
    let mut d = Display::new();
    d.take_actions(); // drop the construction-time register write
    d.power_on();
    let acts = d.take_actions();
    assert_eq!(acts.len(), 7);
    assert!(matches!(acts[0], Action::Register(r) if r.power_enable && !r.power_disable));
    assert!(matches!(acts[1], Action::DelayCycles(24000)));
    assert!(matches!(acts[2], Action::Register(r) if r.neg_power_enable));
    assert!(matches!(acts[3], Action::DelayCycles(120000)));
    assert!(matches!(acts[4], Action::Register(r) if r.pos_power_enable));
    assert!(matches!(acts[5], Action::DelayCycles(24000)));
    assert!(matches!(acts[6], Action::Register(r) if r.stv));
}

#[test]
fn power_off_drops_the_rails_in_order() {
    let mut d = Display::new();
    d.take_actions(); // drop the construction-time register write
    d.power_off();
    let acts = d.take_actions();
    assert_eq!(acts.len(), 5);
    assert!(matches!(acts[0], Action::Register(r) if !r.power_enable && !r.pos_power_enable));
    assert!(matches!(acts[1], Action::DelayCycles(2400)));
    assert!(matches!(acts[2], Action::Register(r) if !r.neg_power_enable));
    assert!(matches!(acts[3], Action::DelayCycles(24000)));
    assert!(matches!(acts[4], Action::Register(r) if r.power_disable && !r.mode && !r.stv));
}

#[test]
fn skip_counter_policy_follows_write_skip_skip_skip() {
    let mut d = Display::new();
    d.take_actions(); // drop the construction-time register write
    d.row_write(30).unwrap(); // W
    d.row_skip(30).unwrap(); // U: one real output of a blanked row
    d.row_skip(30).unwrap(); // U: one minimal-duration output
    d.row_skip(30).unwrap(); // U: a pure skip pulse
    let acts = d.take_actions();
    assert_eq!(acts.len(), 13);
    // W: latch, latch, drive pulse, transfer
    assert!(matches!(acts[2], Action::Pulse { high: 30, low: 50, wait: false }));
    assert!(matches!(acts[3], Action::Transfer(_)));
    // first skip: still a real output_row, from a blanked buffer
    assert!(matches!(acts[6], Action::Pulse { high: 30, low: 50, wait: false }));
    match &acts[7] {
        Action::Transfer(data) => {
            assert_eq!(data.len(), 248);
            assert!(data.iter().all(|&b| b == 0));
        }
        other => panic!("expected a transfer, got {:?}", other),
    }
    // second skip: minimal-duration output_row
    assert!(matches!(acts[10], Action::Pulse { high: 10, low: 50, wait: false }));
    assert!(matches!(acts[11], Action::Transfer(_)));
    // third skip: pure skip pulse, no transfer
    assert!(matches!(acts[12], Action::Pulse { high: 45, low: 5, wait: false }));
}

#[test]
fn push_pixels_stages_the_reordered_pattern() {
    let mut d = Display::new();
    d.push_pixels(Rectangle { x: 0, y: 0, width: 960, height: 540 }, 50, 0).unwrap();
    let acts = d.take_actions();
    let first_transfer = acts
        .iter()
        .find_map(|a| match a {
            Action::Transfer(data) => Some(data),
            _ => None,
        })
        .expect("no transfer recorded");
    assert_eq!(first_transfer.len(), 248);
    assert!(first_transfer[..240].iter().all(|&b| b == 0x55));
    assert!(first_transfer[240..].iter().all(|&b| b == 0));
}

#[test]
fn push_pixels_narrow_area_lands_after_reorder() {
    let mut d = Display::new();
    // Columns 0..4 fill pattern byte 0; the bus reorder moves it to
    // index 2 of the transferred row.
    d.push_pixels(Rectangle { x: 0, y: 0, width: 4, height: 540 }, 50, 1).unwrap();
    let acts = d.take_actions();
    let first_transfer = acts
        .iter()
        .find_map(|a| match a {
            Action::Transfer(data) => Some(data),
            _ => None,
        })
        .expect("no transfer recorded");
    assert_eq!(first_transfer[2], 0xAA);
    assert_eq!(first_transfer[0], 0x00);
    assert!(first_transfer[3..240].iter().all(|&b| b == 0));
}

#[test]
fn push_pixels_skips_rows_outside_the_band() {
    let mut d = Display::new();
    d.push_pixels(Rectangle { x: 0, y: 2, width: 960, height: 1 }, 50, 0).unwrap();
    let acts = d.take_actions();
    // rows 0 and 1 skip (real + minimal), row 2 writes, rows 3 and 4
    // skip (real + minimal), rows 5..539 use the cheap pulse, and one
    // trailing write flushes the pipeline
    assert_eq!(count_transfers(&acts), 6);
    let cheap = acts
        .iter()
        .filter(|a| matches!(a, Action::Pulse { high: 45, low: 5, wait: false }))
        .count();
    assert_eq!(cheap, 535);
}

#[test]
fn clear_runs_four_cycles_of_eight_pushes() {
    let mut d = Display::new();
    d.clear().unwrap();
    let acts = d.take_actions();
    assert_eq!(count_frame_starts(&acts), 32);
}

#[test]
fn clear_area_flashes_only_the_given_region() {
    let mut d = Display::new();
    d.clear_area(Rectangle { x: 8, y: 100, width: 16, height: 50 }).unwrap();
    let acts = d.take_actions();
    assert_eq!(count_frame_starts(&acts), 32);
    // dark and light pattern rows both appear, confined to the
    // region's columns: bytes 2..6 of the pattern, moved by the bus
    // reorder within their 4-byte groups
    let mut saw_dark = false;
    let mut saw_light = false;
    for a in &acts {
        if let Action::Transfer(data) = a {
            if data[0] == 0x55 && data[1] == 0x55 && data[6] == 0x55 && data[7] == 0x55 {
                saw_dark = true;
                assert!(data[2] == 0 && data[8..240].iter().all(|&b| b == 0));
            }
            if data[0] == 0xAA && data[1] == 0xAA && data[6] == 0xAA && data[7] == 0xAA {
                saw_light = true;
            }
        }
    }
    assert!(saw_dark && saw_light);
}

#[test]
fn clear_cycles_scales_with_the_cycle_count() {
    let mut d = Display::new();
    d.clear_cycles(Rectangle { x: 0, y: 0, width: 960, height: 540 }, 1, 50).unwrap();
    let acts = d.take_actions();
    assert_eq!(count_frame_starts(&acts), 8);
}

#[test]
fn full_flush_runs_fifteen_phases_with_the_tuned_durations() {
    let mut d = Display::new();
    d.take_actions(); // drop the construction-time register write
    d.power_on();
    d.fill(0).unwrap();
    d.flush(DrawMode::BlackOnWhite).unwrap();
    let acts = d.take_actions();

    // the power-up ramp comes first
    assert!(matches!(acts[1], Action::DelayCycles(24000)));

    assert_eq!(count_frame_starts(&acts), 15);

    // group the row-drive pulses by phase
    let dark = [30u16, 30, 20, 20, 30, 30, 30, 40, 40, 50, 50, 50, 100, 200, 300];
    let mut phase: usize = 0;
    let mut outputs_in_phase = [0usize; 16];
    for a in &acts {
        match a {
            Action::Pulse { high: 10000, low: 1000, wait: false } => phase += 1,
            Action::Pulse { high, low: 50, wait: false } => {
                assert!(phase >= 1, "row drive before the first frame start");
                assert_eq!(*high, dark[phase - 1], "wrong duration in phase {}", phase - 1);
                outputs_in_phase[phase] += 1;
            }
            Action::Pulse { high: 45, low: 5, wait: false } => {
                panic!("no row should be skipped after a full fill");
            }
            _ => {}
        }
    }
    assert_eq!(phase, 15);
    for k in 1..=15 {
        // every row written, plus the trailing pipeline flush
        assert_eq!(outputs_in_phase[k], 541);
    }

    // afterwards the buffer is white and untainted
    for row in 0..540 {
        assert!(!d.is_tainted(row));
    }
    assert_eq!(d.get_pixel(0, 0), Ok(15));
    assert_eq!(d.get_pixel(959, 539), Ok(15));
}

#[test]
fn grayscale_rows_are_reordered_before_transfer() {
    let mut d = Display::new();
    d.take_actions(); // drop the construction-time register write
    d.set_pixel(0, 0, 0).unwrap();
    d.flush(DrawMode::BlackOnWhite).unwrap();
    let acts = d.take_actions();
    // Pixel 0 is the only non-white pixel, so its quad's LUT entry
    // differs from the rest of the row exactly in the last phase,
    // when gray level 0 is masked.  The packing puts that difference
    // in byte 0 of the row; the bus byte reorder must move it to
    // byte 2 of the transferred bytes.
    let mut phase: usize = 0;
    let mut checked = false;
    for a in &acts {
        match a {
            Action::Pulse { high: 10000, low: 1000, wait: false } => phase += 1,
            Action::Transfer(data) => {
                if phase == 15 && !checked {
                    assert_eq!(data[2], 0x54);
                    assert_eq!(data[0], 0x55);
                    assert_eq!(data[1], 0x55);
                    assert_eq!(data[3], 0x55);
                    checked = true;
                }
            }
            _ => {}
        }
    }
    assert!(checked);
}

#[test]
fn flush_without_tainted_rows_degenerates_to_skips() {
    let mut d = Display::new();
    d.flush(DrawMode::WhiteOnBlack).unwrap();
    let acts = d.take_actions();
    assert_eq!(count_frame_starts(&acts), 15);
    // the first frame still clocks out one real row and one
    // minimal-duration row before pure-timing skips take over; later
    // frames are all skips
    assert_eq!(count_transfers(&acts), 2);
    let cheap = acts
        .iter()
        .filter(|a| matches!(a, Action::Pulse { high: 45, low: 5, wait: false }))
        .count();
    assert_eq!(cheap, 538 + 14 * 540);
}

#[test]
fn repair_interleaves_pushes_and_pauses() {
    let mut d = Display::new();
    d.repair().unwrap();
    let acts = d.take_actions();
    // three clears of 32 pushes each, plus 20 dark and 40 light passes
    assert_eq!(count_frame_starts(&acts), 156);
    let pauses = acts.iter().filter(|a| matches!(a, Action::DelayMillis(500))).count();
    assert_eq!(pauses, 60);
}
