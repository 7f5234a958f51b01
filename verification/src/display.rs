//! The display orchestrator.
//!
//! The display owns the packed framebuffer, the per-row taint bitmap,
//! and the panel controller.  Pixel and fill operations mutate the
//! framebuffer and taint the touched rows; the draw operations turn
//! the buffer into the action sequence that renders it, phase by
//! phase, row by row.

use crate::actions::{acts, Act, Action, ConfigRegister};
use crate::panel::{
    frame_end_acts, frame_start_acts, output_row_acts, power_off_acts, power_on_acts, skip_acts,
    stage_bytes, PanelController, PanelState, BYTES_PER_ROW, TRANSFER_SIZE,
};
use crate::waveform::{
    dma_line, initial_lut, lut_after, prepare_dma_buffer, reorder_bytes, update_lut, DrawMode,
    FRAME_COUNT, LINE_BYTES_4BPP, LUT_SIZE,
};
use crate::Error;
use vstd::prelude::*;
use vstd::slice::slice_subrange;

verus! {

/// Width of the panel in pixels.
pub const WIDTH: u16 = 960;

/// Height of the panel in pixels.
pub const HEIGHT: u16 = 540;

/// Bytes in the packed framebuffer: two 4-bit pixels per byte.
pub const FRAMEBUFFER_SIZE: usize = 480 * 540;

/// Bytes in the taint bitmap: one bit per panel row.
pub const TAINTED_ROWS_SIZE: usize = 68;

/// An axis-aligned region in panel pixel coordinates.
#[derive(Clone, Copy, Debug, PartialEq, Eq, Structural)]
pub struct Rectangle {
    pub x: u16,
    pub y: u16,
    pub width: u16,
    pub height: u16,
}

impl Rectangle {
    /// The region lies within the panel.
    pub open spec fn valid(self) -> bool {
        self.x + self.width <= WIDTH && self.y + self.height <= HEIGHT
    }
}

/// The full-panel region.
pub fn bounding_box() -> (r: Rectangle)
    ensures
        r == (Rectangle { x: 0, y: 0, width: WIDTH, height: HEIGHT }),
{
    Rectangle { x: 0, y: 0, width: WIDTH, height: HEIGHT }
}

/// Whether bit `i` of `b` is set.
pub open spec fn bit_of(b: u8, i: u8) -> bool {
    b & (1u8 << i) != 0
}

/// Whether `row` is marked tainted in the bitmap `taint`.
pub open spec fn row_tainted_in(taint: Seq<u8>, row: int) -> bool {
    bit_of(taint[row / 8], (row % 8) as u8)
}

/// The drive state threaded through the draw loops: the controller
/// state plus the consecutive-skip counter.
#[verifier::ext_equal]
pub struct DriveState {
    pub panel: PanelState,
    pub skipping: u8,
}

/// The display: framebuffer, taint bitmap, skip counter, and the
/// panel controller.
pub struct Display {
    pub epd: PanelController,
    pub skipping: u8,
    pub framebuffer: Vec<u8>,
    pub tainted_rows: Vec<u8>,
}

impl Display {
    /// Structural well-formedness: fixed buffer sizes, well-formed
    /// controller.
    pub open spec fn wf(self) -> bool {
        &&& self.epd.wf()
        &&& self.framebuffer@.len() == FRAMEBUFFER_SIZE
        &&& self.tainted_rows@.len() == TAINTED_ROWS_SIZE
    }

    /// The gray level of pixel `(x, y)`: even columns sit in the low
    /// nibble of their byte, odd columns in the high nibble.
    pub open spec fn pixel(self, x: int, y: int) -> u8 {
        let b = self.framebuffer@[y * 480 + x / 2];
        if x % 2 == 1 {
            b >> 4
        } else {
            b & 0x0F
        }
    }

    /// Whether `row` has changed since the last flush.
    pub open spec fn row_tainted(self, row: int) -> bool {
        row_tainted_in(self.tainted_rows@, row)
    }

    /// The recorded action trace.
    pub open spec fn trace(self) -> Seq<Act> {
        self.epd.trace()
    }

    /// The drive state the draw loops thread through.
    pub open spec fn drive(self) -> DriveState {
        DriveState { panel: self.epd.state(), skipping: self.skipping }
    }

    /// A fresh display: all-white framebuffer, no tainted rows, reset
    /// controller.  Construction records the one register write that
    /// puts the panel into its safe initial state.
    pub fn new() -> (d: Display)
        ensures
            d.wf(),
            d.skipping == 0,
            d.framebuffer@ == Seq::new(FRAMEBUFFER_SIZE as nat, |i: int| 0xFFu8),
            d.tainted_rows@ == Seq::new(TAINTED_ROWS_SIZE as nat, |i: int| 0u8),
            d.epd.reg == ConfigRegister::initial(),
            d.epd.staged@ == Seq::new(TRANSFER_SIZE as nat, |i: int| 0u8),
            !d.epd.pulses.in_flight,
            d.trace() == seq![Act::Register(ConfigRegister::initial())],
    {
        let framebuffer = filled_bytes(FRAMEBUFFER_SIZE, 0xFF);
        let tainted_rows = filled_bytes(TAINTED_ROWS_SIZE, 0);
        Display { epd: PanelController::new(), skipping: 0, framebuffer, tainted_rows }
    }

    /// Read back the gray level of one pixel.
    pub fn get_pixel(&self, x: u16, y: u16) -> (c: Result<u8, Error>)
        requires
            self.wf(),
        ensures
            x < WIDTH && y < HEIGHT ==> c == Ok::<u8, Error>(
                self.pixel(x as int, y as int),
            ) && self.pixel(x as int, y as int) <= 0x0F,
            x >= WIDTH || y >= HEIGHT ==> c == Err::<u8, Error>(Error::OutOfBounds),
    {
        if x >= WIDTH || y >= HEIGHT {
            return Err(Error::OutOfBounds);
        }
        proof {
            assert(x as usize / 2 <= 479 && y as usize <= 539);
        }
        let index: usize = x as usize / 2 + y as usize * (WIDTH as usize / 2);
        let value = self.framebuffer[index];
        proof {
            lemma_nibble_bounds();
        }
        if x % 2 == 1 {
            Ok(value >> 4)
        } else {
            Ok(value & 0x0F)
        }
    }

    /// Whether `row` has changed since the last flush.
    pub fn is_tainted(&self, row: u16) -> (t: bool)
        requires
            self.wf(),
            row < HEIGHT,
        ensures
            t == self.row_tainted(row as int),
    {
        let index: usize = row as usize / 8;
        (self.tainted_rows[index] & (1u8 << (row % 8) as u8)) != 0
    }

    /// Set one pixel without updating the panel.
    ///
    /// Fails with `OutOfBounds` when the coordinates exceed the panel
    /// extent and with `InvalidColor` when the gray level exceeds
    /// `0x0F`; in both cases nothing changes.  On success exactly the
    /// addressed pixel takes the new level and its row becomes
    /// tainted; no other pixel and no other row mark changes, and no
    /// action is recorded.
    pub fn set_pixel(&mut self, x: u16, y: u16, color: u8) -> (r: Result<(), Error>)
        requires
            old(self).wf(),
        ensures
            final(self).wf(),
            x >= WIDTH || y >= HEIGHT ==> r == Err::<(), Error>(Error::OutOfBounds) && *final(self)
                == *old(self),
            x < WIDTH && y < HEIGHT && color > 0x0F ==> r == Err::<(), Error>(Error::InvalidColor)
                && *final(self) == *old(self),
            x < WIDTH && y < HEIGHT && color <= 0x0F ==> {
                &&& r == Ok::<(), Error>(())
                &&& final(self).pixel(x as int, y as int) == color
                &&& forall|xx: int, yy: int|
                    0 <= xx < WIDTH && 0 <= yy < HEIGHT && !(xx == x && yy == y)
                        ==> final(self).pixel(xx, yy) == old(self).pixel(xx, yy)
                &&& final(self).row_tainted(y as int)
                &&& forall|rr: int|
                    0 <= rr < HEIGHT && rr != y ==> final(self).row_tainted(rr) == old(
                        self,
                    ).row_tainted(rr)
                &&& final(self).epd == old(self).epd
                &&& final(self).skipping == old(self).skipping
            },
    {
        if x >= WIDTH || y >= HEIGHT {
            return Err(Error::OutOfBounds);
        }
        if color > 0x0F {
            return Err(Error::InvalidColor);
        }
        proof {
            assert(x as usize / 2 <= 479 && y as usize <= 539);
        }
        let index: usize = x as usize / 2 + y as usize * (WIDTH as usize / 2);
        let value = self.framebuffer[index];
        let updated: u8 = if x % 2 == 1 {
            (value & 0x0F) | ((color << 4) & 0xF0)
        } else {
            (value & 0xF0) | (color & 0x0F)
        };
        self.framebuffer.set(index, updated);
        let tainted_index: usize = y as usize / 8;
        let bits = self.tainted_rows[tainted_index];
        self.tainted_rows.set(tainted_index, bits | (1u8 << (y % 8) as u8));
        proof {
            lemma_nibble_write();
            lemma_taint_bits();
            let xi = x as int;
            let yi = y as int;
            assert forall|xx: int, yy: int|
                0 <= xx < WIDTH && 0 <= yy < HEIGHT && !(xx == xi && yy == yi) implies self.pixel(
                xx,
                yy,
            ) == old(self).pixel(xx, yy) by {
                if yy * 480 + xx / 2 == index {
                    assert(yy == yi && xx / 2 == xi / 2);
                    assert(xx % 2 != xi % 2);
                }
            }
            assert forall|rr: int| 0 <= rr < HEIGHT && rr != yi implies self.row_tainted(rr) == old(
                self,
            ).row_tainted(rr) by {
                if rr / 8 == tainted_index {
                    assert(rr % 8 != yi % 8);
                }
            }
        }
        Ok(())
    }

    /// Fill the whole framebuffer with one gray level.
    ///
    /// Fails with `InvalidColor` above `0x0F`, changing nothing.  On
    /// success every byte holds the level in both nibbles and every
    /// row is tainted; no action is recorded.
    pub fn fill(&mut self, color: u8) -> (r: Result<(), Error>)
        requires
            old(self).wf(),
        ensures
            final(self).wf(),
            color > 0x0F ==> r == Err::<(), Error>(Error::InvalidColor) && *final(self) == *old(self),
            color <= 0x0F ==> r == Ok::<(), Error>(()) && fill_post(*old(self), *final(self), color),
    {
        if color > 0x0F {
            return Err(Error::InvalidColor);
        }
        self.framebuffer = filled_bytes(FRAMEBUFFER_SIZE, (color << 4) | color);
        self.tainted_rows = filled_bytes(TAINTED_ROWS_SIZE, 0xFF);
        Ok(())
    }
}

/// An all-zero bus row.
pub open spec fn blank_row() -> Seq<u8> {
    Seq::new(BYTES_PER_ROW as nat, |i: int| 0u8)
}

/// The skip counter after one more skipped row; it saturates once
/// skips are cheap.
pub open spec fn next_skipping(s: u8) -> u8 {
    if s < 3 {
        (s + 1) as u8
    } else {
        s
    }
}

/// Actions and state of skipping one row.  The panel needs at least
/// two real clock-outs after bus data before pure-timing skips are
/// safe: the first skip after a run of writes outputs one real row
/// from a blanked buffer, the second outputs a minimal-duration row,
/// and only the third and later degenerate to the cheap skip pulse.
pub open spec fn row_skip_step(s: DriveState, output_time: u16) -> (Seq<Act>, DriveState) {
    if s.skipping == 0 {
        let staged = stage_bytes(s.panel.staged, blank_row());
        let (a, p) = output_row_acts(PanelState { staged, ..s.panel }, output_time);
        (a, DriveState { panel: p, skipping: 1 })
    } else if s.skipping == 1 {
        let (a, p) = output_row_acts(s.panel, 10);
        (a, DriveState { panel: p, skipping: 2 })
    } else {
        let (a, p) = skip_acts(s.panel);
        (a, DriveState { panel: p, skipping: next_skipping(s.skipping) })
    }
}

/// Actions and state of writing one row: the staged bytes go out and
/// the skip counter resets.
pub open spec fn row_write_step(s: DriveState, output_time: u16) -> (Seq<Act>, DriveState) {
    let (a, p) = output_row_acts(s.panel, output_time);
    (a, DriveState { panel: p, skipping: 0 })
}

impl Display {
    /// Run the panel power-up sequence.
    pub fn power_on(&mut self)
        requires
            old(self).wf(),
        ensures
            final(self).wf(),
            final(self).trace() == old(self).trace() + power_on_acts(old(self).epd.state()).0,
            final(self).epd.state() == power_on_acts(old(self).epd.state()).1,
            final(self).framebuffer == old(self).framebuffer,
            final(self).tainted_rows == old(self).tainted_rows,
            final(self).skipping == old(self).skipping,
    {
        self.epd.power_on()
    }

    /// Run the panel power-down sequence.
    pub fn power_off(&mut self)
        requires
            old(self).wf(),
        ensures
            final(self).wf(),
            final(self).trace() == old(self).trace() + power_off_acts(old(self).epd.state()).0,
            final(self).epd.state() == power_off_acts(old(self).epd.state()).1,
            final(self).framebuffer == old(self).framebuffer,
            final(self).tainted_rows == old(self).tainted_rows,
            final(self).skipping == old(self).skipping,
    {
        self.epd.power_off()
    }

    /// Hand over the recorded actions for execution, leaving the log
    /// empty.  The returned list is also the retry unit: a flush
    /// resets the framebuffer when its schedule is recorded, so after
    /// a fault during execution an embedding re-runs this list from
    /// the start rather than re-reading the buffer.
    pub fn take_actions(&mut self) -> (v: Vec<Action>)
        requires
            old(self).wf(),
        ensures
            final(self).wf(),
            acts(v@) == old(self).trace(),
            final(self).trace() == Seq::<Act>::empty(),
            final(self).framebuffer == old(self).framebuffer,
            final(self).tainted_rows == old(self).tainted_rows,
            final(self).drive() == old(self).drive(),
    {
        let mut v: Vec<Action> = Vec::new();
        core::mem::swap(&mut self.epd.log, &mut v);
        proof {
            assert(final(self).trace() =~= Seq::<Act>::empty());
            assert(final(self).drive() =~= old(self).drive());
        }
        v
    }

    /// Skip one row, following the pipeline-safety policy of
    /// `row_skip_step`.
    pub fn row_skip(&mut self, output_time: u16) -> (r: Result<(), Error>)
        requires
            old(self).wf(),
        ensures
            final(self).wf(),
            r == Ok::<(), Error>(()),
            final(self).framebuffer == old(self).framebuffer,
            final(self).tainted_rows == old(self).tainted_rows,
            final(self).trace() == old(self).trace() + row_skip_step(
                old(self).drive(),
                output_time,
            ).0,
            final(self).drive() == row_skip_step(old(self).drive(), output_time).1,
    {
        if self.skipping == 0 {
            let blank = filled_bytes(BYTES_PER_ROW, 0);
            proof {
                assert(blank@ =~= blank_row());
            }
            self.epd.set_buffer(blank.as_slice());
            self.epd.output_row(output_time);
        } else if self.skipping < 2 {
            self.epd.output_row(10);
        } else {
            self.epd.skip();
        }
        if self.skipping < 3 {
            self.skipping = self.skipping + 1;
        }
        proof {
            assert(self.trace() =~= old(self).trace() + row_skip_step(
                old(self).drive(),
                output_time,
            ).0);
            assert(self.drive() =~= row_skip_step(old(self).drive(), output_time).1);
        }
        Ok(())
    }

    /// Write one row from the staged bytes, resetting the skip
    /// counter.
    pub fn row_write(&mut self, output_time: u16) -> (r: Result<(), Error>)
        requires
            old(self).wf(),
        ensures
            final(self).wf(),
            r == Ok::<(), Error>(()),
            final(self).framebuffer == old(self).framebuffer,
            final(self).tainted_rows == old(self).tainted_rows,
            final(self).trace() == old(self).trace() + row_write_step(
                old(self).drive(),
                output_time,
            ).0,
            final(self).drive() == row_write_step(old(self).drive(), output_time).1,
    {
        self.skipping = 0;
        self.epd.output_row(output_time);
        proof {
            assert(self.drive() =~= row_write_step(old(self).drive(), output_time).1);
        }
        Ok(())
    }
}

/// The full-panel rectangle.
pub open spec fn full_rect() -> Rectangle {
    Rectangle { x: 0, y: 0, width: WIDTH, height: HEIGHT }
}

/// The 2-bit drive code a uniform push writes for each covered
/// pixel: drive toward light for color `1`, toward dark otherwise.
pub open spec fn drive_pair(color: u16) -> u8 {
    if color == 1 {
        2u8
    } else {
        1u8
    }
}

/// Byte `b` of the uniform push row before the bus reorder: each of
/// its four pixels gets the drive code if its column lies in the
/// region.
pub open spec fn push_row_byte(area: Rectangle, color: u16, b: int) -> u8 {
    let p = drive_pair(color);
    (if area.x <= 4 * b < area.x + area.width {
        p
    } else {
        0u8
    }) | ((if area.x <= 4 * b + 1 < area.x + area.width {
        p
    } else {
        0u8
    }) << 2) | ((if area.x <= 4 * b + 2 < area.x + area.width {
        p
    } else {
        0u8
    }) << 4) | ((if area.x <= 4 * b + 3 < area.x + area.width {
        p
    } else {
        0u8
    }) << 6)
}

/// The uniform push row as staged for transfer: the pattern bytes
/// after the bus reorder.
pub open spec fn push_row(area: Rectangle, color: u16) -> Seq<u8> {
    reorder_bytes(Seq::new(BYTES_PER_ROW as nat, |b: int| push_row_byte(area, color, b)))
}

/// Actions and state of the first `y` rows of a uniform push: rows
/// above and below the region are skipped, the region's first row
/// stages the pattern and writes it, and the rest of the region
/// rewrites the staged pattern.
pub open spec fn push_rows_step(
    s: DriveState,
    area: Rectangle,
    time: u16,
    color: u16,
    y: int,
) -> (Seq<Act>, DriveState)
    decreases y,
{
    if y <= 0 {
        (Seq::<Act>::empty(), s)
    } else {
        let (a, s1) = push_rows_step(s, area, time, color, y - 1);
        let i = y - 1;
        let (b, s2) = if i < area.y {
            row_skip_step(s1, time)
        } else if i == area.y {
            let staged = stage_bytes(s1.panel.staged, push_row(area, color));
            row_write_step(
                DriveState { panel: PanelState { staged, ..s1.panel }, skipping: s1.skipping },
                time,
            )
        } else if i >= area.y + area.height {
            row_skip_step(s1, time)
        } else {
            row_write_step(s1, time)
        };
        (a + b, s2)
    }
}

/// Actions and state of one full uniform push over the panel: frame
/// start, the per-row pass, one trailing row write to flush the
/// pipeline, frame end.
pub open spec fn push_pixels_acts(
    s: DriveState,
    area: Rectangle,
    time: u16,
    color: u16,
) -> (Seq<Act>, DriveState) {
    let (a0, p0) = frame_start_acts(s.panel);
    let (a1, s1) = push_rows_step(
        DriveState { panel: p0, skipping: s.skipping },
        area,
        time,
        color,
        HEIGHT as int,
    );
    let (a2, s2) = row_write_step(s1, time);
    let (a3, p3) = frame_end_acts(s2.panel);
    (a0 + a1 + a2 + a3, DriveState { panel: p3, skipping: s2.skipping })
}

/// Actions and state of `n` repeated uniform pushes.
pub open spec fn push_repeat_acts(
    s: DriveState,
    area: Rectangle,
    time: u16,
    color: u16,
    n: int,
) -> (Seq<Act>, DriveState)
    decreases n,
{
    if n <= 0 {
        (Seq::<Act>::empty(), s)
    } else {
        let (a, s1) = push_repeat_acts(s, area, time, color, n - 1);
        let (b, s2) = push_pixels_acts(s1, area, time, color);
        (a + b, s2)
    }
}

/// Actions and state of `cycles` clear cycles: four dark pushes then
/// four light pushes per cycle.
pub open spec fn clear_cycles_acts(
    s: DriveState,
    area: Rectangle,
    cycles: int,
    cycle_time: u16,
) -> (Seq<Act>, DriveState)
    decreases cycles,
{
    if cycles <= 0 {
        (Seq::<Act>::empty(), s)
    } else {
        let (a, s1) = clear_cycles_acts(s, area, cycles - 1, cycle_time);
        let (b, s2) = push_repeat_acts(s1, area, cycle_time, 0, 4);
        let (c, s3) = push_repeat_acts(s2, area, cycle_time, 1, 4);
        (a + b + c, s3)
    }
}

/// Actions and state of `n` recovery passes: each one full-panel
/// uniform push followed by a half-second pause.
pub open spec fn repair_pass_acts(s: DriveState, color: u16, n: int) -> (Seq<Act>, DriveState)
    decreases n,
{
    if n <= 0 {
        (Seq::<Act>::empty(), s)
    } else {
        let (a, s1) = repair_pass_acts(s, color, n - 1);
        let (b, s2) = push_pixels_acts(s1, full_rect(), 50, color);
        (a + b.push(Act::DelayMillis(500)), s2)
    }
}

/// Actions and state of the whole burn-in recovery routine.
pub open spec fn repair_acts(s: DriveState) -> (Seq<Act>, DriveState) {
    let (a, s1) = clear_cycles_acts(s, full_rect(), 4, 50);
    let (b, s2) = repair_pass_acts(s1, 0, 20);
    let (c, s3) = clear_cycles_acts(s2, full_rect(), 4, 50);
    let (d, s4) = repair_pass_acts(s3, 1, 40);
    let (e, s5) = clear_cycles_acts(s4, full_rect(), 4, 50);
    (a + b + c + d + e, s5)
}

impl Display {
    /// Drive one uniform binary pattern over every row of `area`,
    /// bypassing the framebuffer.
    pub fn push_pixels(&mut self, area: Rectangle, time: u16, color: u16) -> (r: Result<
        (),
        Error,
    >)
        requires
            old(self).wf(),
            area.valid(),
        ensures
            final(self).wf(),
            r == Ok::<(), Error>(()),
            final(self).framebuffer == old(self).framebuffer,
            final(self).tainted_rows == old(self).tainted_rows,
            final(self).trace() == old(self).trace() + push_pixels_acts(
                old(self).drive(),
                area,
                time,
                color,
            ).0,
            final(self).drive() == push_pixels_acts(old(self).drive(), area, time, color).1,
    {
        let pair: u8 = if color == 1 {
            2
        } else {
            1
        };
        let x0 = area.x as usize;
        let x1 = area.x as usize + area.width as usize;
        let mut row: Vec<u8> = Vec::new();
        let mut b: usize = 0;
        while b < BYTES_PER_ROW
            invariant
                b <= BYTES_PER_ROW,
                row@.len() == b,
                pair == drive_pair(color),
                x0 == area.x,
                x1 == area.x + area.width,
                forall|q: int| 0 <= q < b ==> row@[q] == push_row_byte(area, color, q),
            decreases BYTES_PER_ROW - b,
        {
            let c0: u8 = if x0 <= 4 * b && 4 * b < x1 {
                pair
            } else {
                0
            };
            let c1: u8 = if x0 <= 4 * b + 1 && 4 * b + 1 < x1 {
                pair
            } else {
                0
            };
            let c2: u8 = if x0 <= 4 * b + 2 && 4 * b + 2 < x1 {
                pair
            } else {
                0
            };
            let c3: u8 = if x0 <= 4 * b + 3 && 4 * b + 3 < x1 {
                pair
            } else {
                0
            };
            let byte: u8 = c0 | (c1 << 2) | (c2 << 4) | (c3 << 6);
            row.push(byte);
            b += 1;
        }
        proof {
            assert(row@ =~= Seq::new(BYTES_PER_ROW as nat, |q: int| push_row_byte(area, color, q)));
        }
        crate::waveform::line_buffer_reorder(&mut row);
        proof {
            assert(row@ == push_row(area, color));
        }
        self.epd.frame_start();
        let ghost s_rows = DriveState {
            panel: frame_start_acts(old(self).drive().panel).1,
            skipping: old(self).skipping,
        };
        let ghost tr_rows = self.trace();
        proof {
            assert(self.drive() =~= s_rows);
        }
        let mut i: u16 = 0;
        while i < HEIGHT
            invariant
                i <= HEIGHT,
                self.wf(),
                area.valid(),
                row@ == push_row(area, color),
                self.framebuffer == old(self).framebuffer,
                self.tainted_rows == old(self).tainted_rows,
                self.trace() == tr_rows + push_rows_step(s_rows, area, time, color, i as int).0,
                self.drive() == push_rows_step(s_rows, area, time, color, i as int).1,
            decreases HEIGHT - i,
        {
            let ghost s_prev = push_rows_step(s_rows, area, time, color, i as int).1;
            if i < area.y {
                self.row_skip(time)?;
            } else if i == area.y {
                self.epd.set_buffer(row.as_slice());
                proof {
                    assert(self.drive() =~= (DriveState {
                        panel: PanelState {
                            staged: stage_bytes(s_prev.panel.staged, push_row(area, color)),
                            ..s_prev.panel
                        },
                        skipping: s_prev.skipping,
                    }));
                }
                self.row_write(time)?;
            } else if i >= area.y + area.height {
                self.row_skip(time)?;
            } else {
                self.row_write(time)?;
            }
            proof {
                assert(self.trace() =~= tr_rows + push_rows_step(
                    s_rows,
                    area,
                    time,
                    color,
                    i as int + 1,
                ).0);
            }
            i += 1;
        }
        self.row_write(time)?;
        self.epd.frame_end();
        proof {
            assert(self.trace() =~= old(self).trace() + push_pixels_acts(
                old(self).drive(),
                area,
                time,
                color,
            ).0);
            assert(self.drive() =~= push_pixels_acts(old(self).drive(), area, time, color).1);
        }
        Ok(())
    }
}

impl Display {
    /// Run `cycles` uniform clear cycles over `area`: four dark
    /// pushes then four light pushes per cycle.
    pub fn clear_cycles(&mut self, area: Rectangle, cycles: u16, cycle_time: u16) -> (r: Result<
        (),
        Error,
    >)
        requires
            old(self).wf(),
            area.valid(),
        ensures
            final(self).wf(),
            r == Ok::<(), Error>(()),
            final(self).framebuffer == old(self).framebuffer,
            final(self).tainted_rows == old(self).tainted_rows,
            final(self).trace() == old(self).trace() + clear_cycles_acts(
                old(self).drive(),
                area,
                cycles as int,
                cycle_time,
            ).0,
            final(self).drive() == clear_cycles_acts(
                old(self).drive(),
                area,
                cycles as int,
                cycle_time,
            ).1,
    {
        let mut c: u16 = 0;
        while c < cycles
            invariant
                c <= cycles,
                self.wf(),
                area.valid(),
                self.framebuffer == old(self).framebuffer,
                self.tainted_rows == old(self).tainted_rows,
                self.trace() == old(self).trace() + clear_cycles_acts(
                    old(self).drive(),
                    area,
                    c as int,
                    cycle_time,
                ).0,
                self.drive() == clear_cycles_acts(old(self).drive(), area, c as int, cycle_time).1,
            decreases cycles - c,
        {
            let ghost s_c = clear_cycles_acts(old(self).drive(), area, c as int, cycle_time).1;
            let ghost tr_c = self.trace();
            let mut p: u16 = 0;
            while p < 4
                invariant
                    p <= 4,
                    self.wf(),
                    area.valid(),
                    self.framebuffer == old(self).framebuffer,
                    self.tainted_rows == old(self).tainted_rows,
                    self.trace() == tr_c + push_repeat_acts(s_c, area, cycle_time, 0, p as int).0,
                    self.drive() == push_repeat_acts(s_c, area, cycle_time, 0, p as int).1,
                decreases 4 - p,
            {
                self.push_pixels(area, cycle_time, 0)?;
                proof {
                    assert(self.trace() =~= tr_c + push_repeat_acts(
                        s_c,
                        area,
                        cycle_time,
                        0,
                        p as int + 1,
                    ).0);
                }
                p += 1;
            }
            let ghost s_w = push_repeat_acts(s_c, area, cycle_time, 0, 4).1;
            let ghost tr_w = self.trace();
            let mut q: u16 = 0;
            while q < 4
                invariant
                    q <= 4,
                    self.wf(),
                    area.valid(),
                    self.framebuffer == old(self).framebuffer,
                    self.tainted_rows == old(self).tainted_rows,
                    self.trace() == tr_w + push_repeat_acts(s_w, area, cycle_time, 1, q as int).0,
                    self.drive() == push_repeat_acts(s_w, area, cycle_time, 1, q as int).1,
                decreases 4 - q,
            {
                self.push_pixels(area, cycle_time, 1)?;
                proof {
                    assert(self.trace() =~= tr_w + push_repeat_acts(
                        s_w,
                        area,
                        cycle_time,
                        1,
                        q as int + 1,
                    ).0);
                }
                q += 1;
            }
            proof {
                assert(self.trace() =~= old(self).trace() + clear_cycles_acts(
                    old(self).drive(),
                    area,
                    c as int + 1,
                    cycle_time,
                ).0);
            }
            c += 1;
        }
        Ok(())
    }

    /// Clear `area` with the standard four cycles at 50-tick timing.
    pub fn clear_area(&mut self, area: Rectangle) -> (r: Result<(), Error>)
        requires
            old(self).wf(),
            area.valid(),
        ensures
            final(self).wf(),
            r == Ok::<(), Error>(()),
            final(self).framebuffer == old(self).framebuffer,
            final(self).tainted_rows == old(self).tainted_rows,
            final(self).trace() == old(self).trace() + clear_cycles_acts(
                old(self).drive(),
                area,
                4,
                50,
            ).0,
            final(self).drive() == clear_cycles_acts(old(self).drive(), area, 4, 50).1,
    {
        self.clear_cycles(area, 4, 50)
    }

    /// Clear the whole screen.
    pub fn clear(&mut self) -> (r: Result<(), Error>)
        requires
            old(self).wf(),
        ensures
            final(self).wf(),
            r == Ok::<(), Error>(()),
            final(self).framebuffer == old(self).framebuffer,
            final(self).tainted_rows == old(self).tainted_rows,
            final(self).trace() == old(self).trace() + clear_cycles_acts(
                old(self).drive(),
                full_rect(),
                4,
                50,
            ).0,
            final(self).drive() == clear_cycles_acts(old(self).drive(), full_rect(), 4, 50).1,
    {
        self.clear_area(bounding_box())
    }

    /// Run the burn-in recovery routine: clear, twenty dark passes,
    /// clear, forty light passes, clear, with a half-second pause
    /// after every pass.
    pub fn repair(&mut self) -> (r: Result<(), Error>)
        requires
            old(self).wf(),
        ensures
            final(self).wf(),
            r == Ok::<(), Error>(()),
            final(self).framebuffer == old(self).framebuffer,
            final(self).tainted_rows == old(self).tainted_rows,
            final(self).trace() == old(self).trace() + repair_acts(old(self).drive()).0,
            final(self).drive() == repair_acts(old(self).drive()).1,
    {
        self.clear()?;
        let ghost s_b = clear_cycles_acts(old(self).drive(), full_rect(), 4, 50).1;
        let ghost tr_b = self.trace();
        let mut n: u16 = 0;
        while n < 20
            invariant
                n <= 20,
                self.wf(),
                self.framebuffer == old(self).framebuffer,
                self.tainted_rows == old(self).tainted_rows,
                self.trace() == tr_b + repair_pass_acts(s_b, 0, n as int).0,
                self.drive() == repair_pass_acts(s_b, 0, n as int).1,
            decreases 20 - n,
        {
            self.push_pixels(bounding_box(), 50, 0)?;
            self.epd.delay_millis(500);
            proof {
                assert(self.trace() =~= tr_b + repair_pass_acts(s_b, 0, n as int + 1).0);
                assert(self.drive() =~= repair_pass_acts(s_b, 0, n as int + 1).1);
            }
            n += 1;
        }
        self.clear()?;
        let ghost s_w = clear_cycles_acts(repair_pass_acts(s_b, 0, 20).1, full_rect(), 4, 50).1;
        let ghost tr_w = self.trace();
        let mut m: u16 = 0;
        while m < 40
            invariant
                m <= 40,
                self.wf(),
                self.framebuffer == old(self).framebuffer,
                self.tainted_rows == old(self).tainted_rows,
                self.trace() == tr_w + repair_pass_acts(s_w, 1, m as int).0,
                self.drive() == repair_pass_acts(s_w, 1, m as int).1,
            decreases 40 - m,
        {
            self.push_pixels(bounding_box(), 50, 1)?;
            self.epd.delay_millis(500);
            proof {
                assert(self.trace() =~= tr_w + repair_pass_acts(s_w, 1, m as int + 1).0);
                assert(self.drive() =~= repair_pass_acts(s_w, 1, m as int + 1).1);
            }
            m += 1;
        }
        let res = self.clear();
        proof {
            assert(self.trace() =~= old(self).trace() + repair_acts(old(self).drive()).0);
            assert(self.drive() =~= repair_acts(old(self).drive()).1);
        }
        res
    }
}

/// Actions and state of the first `y` rows of one grayscale phase:
/// unchanged rows follow the skip policy, tainted rows stage their
/// packed bytes — run through the bus byte reorder, like every row —
/// and write them.
pub open spec fn draw_rows_step(
    s: DriveState,
    fb: Seq<u8>,
    taint: Seq<u8>,
    lut: Seq<u8>,
    duration: u16,
    y: int,
) -> (Seq<Act>, DriveState)
    decreases y,
{
    if y <= 0 {
        (Seq::<Act>::empty(), s)
    } else {
        let (a, s1) = draw_rows_step(s, fb, taint, lut, duration, y - 1);
        let i = y - 1;
        let (b, s2) = if !row_tainted_in(taint, i) {
            row_skip_step(s1, duration)
        } else {
            let line = reorder_bytes(dma_line(fb.subrange(480 * i, 480 * i + 480), lut));
            let staged = stage_bytes(s1.panel.staged, line);
            row_write_step(
                DriveState { panel: PanelState { staged, ..s1.panel }, skipping: s1.skipping },
                duration,
            )
        };
        (a + b, s2)
    }
}

/// Actions and state of grayscale phase `k`: mask the table, start
/// the frame, emit the rows, flush the write pipeline once more if
/// the last row was written, end the frame.
pub open spec fn draw_phase_step(
    s: DriveState,
    fb: Seq<u8>,
    taint: Seq<u8>,
    mode: DrawMode,
    k: int,
) -> (Seq<Act>, DriveState) {
    let lut = lut_after(mode, k + 1);
    let duration = mode.contrast_cycles_spec()[k];
    let (a0, p0) = frame_start_acts(s.panel);
    let (a1, s1) = draw_rows_step(
        DriveState { panel: p0, skipping: s.skipping },
        fb,
        taint,
        lut,
        duration,
        HEIGHT as int,
    );
    let (a2, s2) = if s1.skipping == 0 {
        row_write_step(s1, duration)
    } else {
        (Seq::<Act>::empty(), s1)
    };
    let (a3, p3) = frame_end_acts(s2.panel);
    (a0 + a1 + a2 + a3, DriveState { panel: p3, skipping: s2.skipping })
}

/// Actions and state of the first `n` grayscale phases of a flush.
pub open spec fn draw_acts(
    s: DriveState,
    fb: Seq<u8>,
    taint: Seq<u8>,
    mode: DrawMode,
    n: int,
) -> (Seq<Act>, DriveState)
    decreases n,
{
    if n <= 0 {
        (Seq::<Act>::empty(), s)
    } else {
        let (a, s1) = draw_acts(s, fb, taint, mode, n - 1);
        let (b, s2) = draw_phase_step(s1, fb, taint, mode, n - 1);
        (a + b, s2)
    }
}

/// How `flush(mode)` relates the display before and after: the whole
/// fifteen-phase draw schedule for the pre-flush buffer and taint map
/// is recorded, then the buffer resets to all-white and every row
/// mark clears.
pub open spec fn flush_post(pre: Display, post: Display, mode: DrawMode) -> bool {
    &&& post.framebuffer@.len() == FRAMEBUFFER_SIZE
    &&& forall|i: int| 0 <= i < FRAMEBUFFER_SIZE ==> post.framebuffer@[i] == 0xFFu8
    &&& post.tainted_rows@.len() == TAINTED_ROWS_SIZE
    &&& forall|i: int| 0 <= i < TAINTED_ROWS_SIZE ==> post.tainted_rows@[i] == 0u8
    &&& post.trace() == pre.trace() + draw_acts(
        pre.drive(),
        pre.framebuffer@,
        pre.tainted_rows@,
        mode,
        FRAME_COUNT as int,
    ).0
    &&& post.drive() == draw_acts(
        pre.drive(),
        pre.framebuffer@,
        pre.tainted_rows@,
        mode,
        FRAME_COUNT as int,
    ).1
}

impl Display {
    /// Run the fifteen-phase grayscale draw loop for the current
    /// framebuffer without resetting it.
    #[verifier::rlimit(100)]
    fn draw(&mut self, mode: DrawMode) -> (r: Result<(), Error>)
        requires
            old(self).wf(),
        ensures
            final(self).wf(),
            r == Ok::<(), Error>(()),
            final(self).framebuffer == old(self).framebuffer,
            final(self).tainted_rows == old(self).tainted_rows,
            final(self).trace() == old(self).trace() + draw_acts(
                old(self).drive(),
                old(self).framebuffer@,
                old(self).tainted_rows@,
                mode,
                FRAME_COUNT as int,
            ).0,
            final(self).drive() == draw_acts(
                old(self).drive(),
                old(self).framebuffer@,
                old(self).tainted_rows@,
                mode,
                FRAME_COUNT as int,
            ).1,
    {
        let mut lut: Vec<u8> = filled_bytes(LUT_SIZE, mode.lut_default());
        proof {
            assert(lut@ =~= initial_lut(mode));
        }
        let durations = mode.contrast_cycles();
        let mut k: usize = 0;
        while k < FRAME_COUNT
            invariant
                k <= FRAME_COUNT,
                self.wf(),
                lut@.len() == LUT_SIZE,
                lut@ == lut_after(mode, k as int),
                durations@ == mode.contrast_cycles_spec(),
                self.framebuffer == old(self).framebuffer,
                self.tainted_rows == old(self).tainted_rows,
                self.trace() == old(self).trace() + draw_acts(
                    old(self).drive(),
                    old(self).framebuffer@,
                    old(self).tainted_rows@,
                    mode,
                    k as int,
                ).0,
                self.drive() == draw_acts(
                    old(self).drive(),
                    old(self).framebuffer@,
                    old(self).tainted_rows@,
                    mode,
                    k as int,
                ).1,
            decreases FRAME_COUNT - k,
        {
            update_lut(&mut lut, k, mode);
            proof {
                assert(lut@ =~= lut_after(mode, k as int + 1));
            }
            self.epd.frame_start();
            let ghost s_rows = DriveState {
                panel: frame_start_acts(
                    draw_acts(
                        old(self).drive(),
                        old(self).framebuffer@,
                        old(self).tainted_rows@,
                        mode,
                        k as int,
                    ).1.panel,
                ).1,
                skipping: self.skipping,
            };
            let ghost tr_rows = self.trace();
            proof {
                assert(self.drive() =~= s_rows);
            }
            let duration = durations[k];
            let mut y: u16 = 0;
            while y < HEIGHT
                invariant
                    y <= HEIGHT,
                    self.wf(),
                    lut@ == lut_after(mode, k as int + 1),
                    lut@.len() == LUT_SIZE,
                    k < FRAME_COUNT,
                    duration == mode.contrast_cycles_spec()[k as int],
                    self.framebuffer == old(self).framebuffer,
                    self.tainted_rows == old(self).tainted_rows,
                    self.trace() == tr_rows + draw_rows_step(
                        s_rows,
                        old(self).framebuffer@,
                        old(self).tainted_rows@,
                        lut@,
                        duration,
                        y as int,
                    ).0,
                    self.drive() == draw_rows_step(
                        s_rows,
                        old(self).framebuffer@,
                        old(self).tainted_rows@,
                        lut@,
                        duration,
                        y as int,
                    ).1,
                decreases HEIGHT - y,
            {
                let ghost s_prev = draw_rows_step(
                    s_rows,
                    old(self).framebuffer@,
                    old(self).tainted_rows@,
                    lut@,
                    duration,
                    y as int,
                ).1;
                if !self.is_tainted(y) {
                    self.row_skip(duration)?;
                } else {
                    proof {
                        assert(y as usize <= 539);
                    }
                    let start = y as usize * LINE_BYTES_4BPP;
                    let line = slice_subrange(
                        self.framebuffer.as_slice(),
                        start,
                        start + LINE_BYTES_4BPP,
                    );
                    let mut buf = prepare_dma_buffer(line, &lut);
                    crate::waveform::line_buffer_reorder(&mut buf);
                    self.epd.set_buffer(buf.as_slice());
                    proof {
                        assert(self.drive() =~= (DriveState {
                            panel: PanelState {
                                staged: stage_bytes(
                                    s_prev.panel.staged,
                                    reorder_bytes(dma_line(
                                        old(self).framebuffer@.subrange(
                                            480 * y as int,
                                            480 * y as int + 480,
                                        ),
                                        lut@,
                                    )),
                                ),
                                ..s_prev.panel
                            },
                            skipping: s_prev.skipping,
                        }));
                    }
                    self.row_write(duration)?;
                }
                proof {
                    assert(self.trace() =~= tr_rows + draw_rows_step(
                        s_rows,
                        old(self).framebuffer@,
                        old(self).tainted_rows@,
                        lut@,
                        duration,
                        y as int + 1,
                    ).0);
                }
                y += 1;
            }
            if self.skipping == 0 {
                self.row_write(duration)?;
            }
            self.epd.frame_end();
            proof {
                assert(self.trace() =~= old(self).trace() + draw_acts(
                    old(self).drive(),
                    old(self).framebuffer@,
                    old(self).tainted_rows@,
                    mode,
                    k as int + 1,
                ).0);
                assert(self.drive() =~= draw_acts(
                    old(self).drive(),
                    old(self).framebuffer@,
                    old(self).tainted_rows@,
                    mode,
                    k as int + 1,
                ).1);
            }
            k += 1;
        }
        Ok(())
    }

    /// Render the framebuffer: record the fifteen-phase draw
    /// schedule, then clear every row mark and reset the buffer to
    /// white.  The provided mode should match the contents of the
    /// framebuffer.
    ///
    /// The buffer is reset when the schedule is recorded, not when it
    /// is executed: after a fault during execution the recorded
    /// action list itself — see `take_actions` — is what an embedding
    /// re-runs to retry the draw.
    pub fn flush(&mut self, mode: DrawMode) -> (r: Result<(), Error>)
        requires
            old(self).wf(),
        ensures
            final(self).wf(),
            r == Ok::<(), Error>(()),
            flush_post(*old(self), *final(self), mode),
    {
        self.draw(mode)?;
        self.tainted_rows = filled_bytes(TAINTED_ROWS_SIZE, 0);
        self.framebuffer = filled_bytes(FRAMEBUFFER_SIZE, 0xFF);
        Ok(())
    }
}

/// Filling taints every row, and a following flush clears every row
/// again and leaves the buffer equal to the all-white fill pattern.
pub proof fn lemma_fill_then_flush(
    d0: Display,
    d1: Display,
    d2: Display,
    color: u8,
    mode: DrawMode,
)
    requires
        color <= 0x0F,
        fill_post(d0, d1, color),
        flush_post(d1, d2, mode),
    ensures
        forall|r: int| 0 <= r < HEIGHT ==> d1.row_tainted(r),
        forall|r: int| 0 <= r < HEIGHT ==> !d2.row_tainted(r),
        forall|i: int| 0 <= i < FRAMEBUFFER_SIZE ==> d2.framebuffer@[i] == 0xFFu8,
{
    lemma_taint_bits();
    assert forall|r: int| 0 <= r < HEIGHT implies d1.row_tainted(r) by {
        assert(d1.tainted_rows@[r / 8] == 0xFFu8);
    }
    assert forall|r: int| 0 <= r < HEIGHT implies !d2.row_tainted(r) by {
        assert(d2.tainted_rows@[r / 8] == 0u8);
    }
}

/// The skip-counter policy, spelled out for a written row followed by
/// three unchanged rows: the first skip still performs one real row
/// output from a blanked buffer, the second a minimal-duration row
/// output, and the third only the cheap skip pulse.
pub proof fn lemma_skip_policy(s: DriveState, t: u16)
    ensures
        ({
            let (aw, sw) = row_write_step(s, t);
            let (a1, s1) = row_skip_step(sw, t);
            let (a2, s2) = row_skip_step(s1, t);
            let (a3, s3) = row_skip_step(s2, t);
            &&& a1 == output_row_acts(
                PanelState { staged: stage_bytes(sw.panel.staged, blank_row()), ..sw.panel },
                t,
            ).0
            &&& a2 == output_row_acts(s1.panel, 10).0
            &&& a3 == seq![Act::Pulse { high: 45, low: 5, wait: false }]
            &&& s3.skipping == 3
        }),
{
}

/// How `fill(color)` relates the display before and after: every
/// framebuffer byte carries the level in both nibbles, every row is
/// tainted, and the controller and skip counter are untouched.
pub open spec fn fill_post(pre: Display, post: Display, color: u8) -> bool {
    &&& post.framebuffer@.len() == FRAMEBUFFER_SIZE
    &&& forall|i: int|
        0 <= i < FRAMEBUFFER_SIZE ==> post.framebuffer@[i] == ((color << 4) | color)
    &&& post.tainted_rows@.len() == TAINTED_ROWS_SIZE
    &&& forall|i: int| 0 <= i < TAINTED_ROWS_SIZE ==> post.tainted_rows@[i] == 0xFFu8
    &&& post.epd == pre.epd
    &&& post.skipping == pre.skipping
}

/// A vector of `n` copies of `b`.
fn filled_bytes(n: usize, b: u8) -> (v: Vec<u8>)
    ensures
        v@ == Seq::new(n as nat, |i: int| b),
{
    let mut v: Vec<u8> = Vec::new();
    let mut i: usize = 0;
    while i < n
        invariant
            i <= n,
            v@.len() == i,
            forall|j: int| 0 <= j < i ==> v@[j] == b,
        decreases n - i,
    {
        v.push(b);
        i += 1;
    }
    proof {
        assert(v@ =~= Seq::new(n as nat, |i: int| b));
    }
    v
}

/// Nibble reads stay within the 4-bit range.
proof fn lemma_nibble_bounds()
    by (bit_vector)
    ensures
        forall|v: u8| #[trigger] (v >> 4) <= 0x0F,
        forall|v: u8| #[trigger] (v & 0x0F) <= 0x0F,
{
}

/// Writing one nibble of a byte sets that nibble and keeps the other.
proof fn lemma_nibble_write()
    by (bit_vector)
    ensures
        forall|v: u8, c: u8|
            c <= 0x0F ==> (#[trigger] ((v & 0xF0) | (c & 0x0F))) & 0x0F == c,
        forall|v: u8, c: u8| ((v & 0xF0) | (c & 0x0F)) >> 4 == v >> 4,
        forall|v: u8, c: u8|
            c <= 0x0F ==> (#[trigger] ((v & 0x0F) | ((c << 4) & 0xF0))) >> 4 == c,
        forall|v: u8, c: u8| ((v & 0x0F) | ((c << 4) & 0xF0)) & 0x0F == v & 0x0F,
{
}

/// Setting one bit of a taint byte marks exactly that bit; an
/// all-ones byte marks every bit and a zero byte none.
proof fn lemma_taint_bits()
    by (bit_vector)
    ensures
        forall|b: u8, i: u8| i < 8 ==> (#[trigger] (b | (1u8 << i))) & (1u8 << i) != 0,
        forall|b: u8, i: u8, j: u8|
            i < 8 && j < 8 && i != j ==> ((b | (1u8 << i)) & (1u8 << j)) == (b & (1u8 << j)),
        forall|i: u8| i < 8 ==> 0xFFu8 & (1u8 << i) != 0,
        forall|i: u8| i < 8 ==> 0u8 & (1u8 << i) == 0,
{
}

} // verus!
