//! The grayscale waveform engine.
//!
//! A pixel's 4-bit gray value encodes how many of the fifteen drive
//! phases it takes part in.  The engine keeps a lookup table indexed
//! by a pixel quad — four consecutive 4-bit pixels packed into one
//! 16-bit code — whose entries hold four independent 2-bit drive
//! sub-fields, one per pixel.  The table starts each flush at an
//! all-drive default and is masked once per phase: sub-fields whose
//! pixel nibble equals the phase's effective index are cleared, and
//! never set again.  The engine also owns the per-phase drive
//! durations and the bus packing rules for one row.

use vstd::arithmetic::div_mod::{
    lemma_add_mod_noop, lemma_mod_self_0, lemma_small_mod, lemma_sub_mod_noop,
};
use vstd::prelude::*;
use vstd::slice::slice_subrange;

verus! {

/// Entries of the waveform lookup table: one per 16-bit pixel quad.
pub const LUT_SIZE: usize = 65536;

/// Bytes per framebuffer row: panel width at 4 bits per pixel.
pub const LINE_BYTES_4BPP: usize = 480;

/// Number of drive phases in one grayscale flush.
pub const FRAME_COUNT: usize = 15;

/// Selects the waveform set for one flush.
#[derive(Clone, Copy, Debug, PartialEq, Eq, Structural)]
pub enum DrawMode {
    /// Darkening transition on a white background.
    BlackOnWhite,
    /// Lightening pass over a white background.
    WhiteOnWhite,
    /// Lightening transition on a black background.
    WhiteOnBlack,
}

/// Per-phase drive durations tuned for darkening transitions.
pub open spec fn contrast_cycles_dark() -> Seq<u16> {
    seq![30u16, 30, 20, 20, 30, 30, 30, 40, 40, 50, 50, 50, 100, 200, 300]
}

/// Per-phase drive durations for the faster-discharging lightening
/// transition.
pub open spec fn contrast_cycles_light() -> Seq<u16> {
    seq![10u16, 10, 8, 8, 8, 8, 8, 10, 10, 15, 15, 20, 20, 100, 300]
}

impl DrawMode {
    /// The all-drive default LUT entry: every sub-field drives toward
    /// the dark extreme (`01` pairs) for a dark-target transition,
    /// toward the light extreme (`10` pairs) otherwise.
    pub open spec fn lut_default_spec(self) -> u8 {
        match self {
            DrawMode::BlackOnWhite => 0x55,
            DrawMode::WhiteOnBlack | DrawMode::WhiteOnWhite => 0xAA,
        }
    }

    /// The default byte the LUT is reset to at the start of a flush.
    pub fn lut_default(&self) -> (b: u8)
        ensures
            b == self.lut_default_spec(),
    {
        match self {
            DrawMode::BlackOnWhite => 0x55,
            DrawMode::WhiteOnBlack | DrawMode::WhiteOnWhite => 0xAA,
        }
    }

    /// Whether the phase index runs backwards through the gray levels.
    pub open spec fn reverse_phase(self) -> bool {
        match self {
            DrawMode::BlackOnWhite | DrawMode::WhiteOnWhite => true,
            DrawMode::WhiteOnBlack => false,
        }
    }

    /// The drive-duration table this mode uses.
    pub open spec fn contrast_cycles_spec(self) -> Seq<u16> {
        match self {
            DrawMode::WhiteOnBlack => contrast_cycles_light(),
            DrawMode::BlackOnWhite | DrawMode::WhiteOnWhite => contrast_cycles_dark(),
        }
    }

    /// The per-phase drive durations, in clock ticks.
    pub fn contrast_cycles(&self) -> (t: [u16; 15])
        ensures
            t@ == self.contrast_cycles_spec(),
    {
        let t: [u16; 15] = match self {
            DrawMode::WhiteOnBlack => [10, 10, 8, 8, 8, 8, 8, 10, 10, 15, 15, 20, 20, 100, 300],
            DrawMode::BlackOnWhite | DrawMode::WhiteOnWhite => [
                30,
                30,
                20,
                20,
                30,
                30,
                30,
                40,
                40,
                50,
                50,
                50,
                100,
                200,
                300,
            ],
        };
        proof {
            assert(t@ =~= self.contrast_cycles_spec());
        }
        t
    }
}

/// The effective gray level masked at phase `k`: dark-target
/// transitions run the levels backwards from 14, lightening ones
/// forwards from 0.
pub open spec fn effective_phase(mode: DrawMode, k: int) -> int {
    if mode.reverse_phase() {
        14 - k
    } else {
        k
    }
}

/// The mask phase `kp` applies to LUT entry `code`: each 2-bit drive
/// sub-field (bits `2i` and `2i + 1` for packed pixel position `i`)
/// whose pixel nibble equals `kp` is cleared, the rest are kept.
pub open spec fn lut_mask(code: u16, kp: u16) -> u8 {
    (if code & 0xF == kp {
        0u8
    } else {
        0x03u8
    }) | (if (code >> 4) & 0xF == kp {
        0u8
    } else {
        0x0Cu8
    }) | (if (code >> 8) & 0xF == kp {
        0u8
    } else {
        0x30u8
    }) | (if (code >> 12) & 0xF == kp {
        0u8
    } else {
        0xC0u8
    })
}

/// The table at the start of a flush: every entry all-drive.
pub open spec fn initial_lut(mode: DrawMode) -> Seq<u8> {
    Seq::new(LUT_SIZE as nat, |c: int| mode.lut_default_spec())
}

/// One masking pass over the whole table.
pub open spec fn mask_phase(lut: Seq<u8>, kp: int) -> Seq<u8> {
    Seq::new(lut.len(), |c: int| lut[c] & lut_mask(c as u16, kp as u16))
}

/// The table after the masking passes of phases `0 .. n`.
pub open spec fn lut_after(mode: DrawMode, n: int) -> Seq<u8>
    decreases n,
{
    if n <= 0 {
        initial_lut(mode)
    } else {
        mask_phase(lut_after(mode, n - 1), effective_phase(mode, n - 1))
    }
}

/// Apply the masking pass of phase `k` to the table.
pub fn update_lut(conversion_lut: &mut Vec<u8>, k: usize, mode: DrawMode)
    requires
        old(conversion_lut)@.len() == LUT_SIZE,
        k < FRAME_COUNT,
    ensures
        final(conversion_lut)@ == mask_phase(old(conversion_lut)@, effective_phase(mode, k as int)),
{
    let kp: u16 = match mode {
        DrawMode::BlackOnWhite | DrawMode::WhiteOnWhite => 14 - (k as u16),
        DrawMode::WhiteOnBlack => k as u16,
    };
    let mut l: usize = 0;
    while l < LUT_SIZE
        invariant
            l <= LUT_SIZE,
            conversion_lut@.len() == LUT_SIZE,
            kp == effective_phase(mode, k as int),
            forall|c: int|
                0 <= c < l ==> conversion_lut@[c] == (old(conversion_lut)@[c] & lut_mask(
                    c as u16,
                    kp,
                )),
            forall|c: int| l <= c < LUT_SIZE ==> conversion_lut@[c] == old(conversion_lut)@[c],
        decreases LUT_SIZE - l,
    {
        let code = l as u16;
        let m: u8 = (if code & 0xF == kp {
            0u8
        } else {
            0x03u8
        }) | (if (code >> 4) & 0xF == kp {
            0u8
        } else {
            0x0Cu8
        }) | (if (code >> 8) & 0xF == kp {
            0u8
        } else {
            0x30u8
        }) | (if (code >> 12) & 0xF == kp {
            0u8
        } else {
            0xC0u8
        });
        let entry = conversion_lut[l];
        conversion_lut.set(l, entry & m);
        l += 1;
    }
    proof {
        assert(conversion_lut@ =~= mask_phase(old(conversion_lut)@, effective_phase(
            mode,
            k as int,
        )));
    }
}

/// The 2-bit drive sub-field of packed pixel position `i` within a
/// LUT entry byte.
pub open spec fn sub_mask(i: int) -> u8 {
    if i == 0 {
        0x03u8
    } else if i == 1 {
        0x0Cu8
    } else if i == 2 {
        0x30u8
    } else {
        0xC0u8
    }
}

/// Whether the drive sub-field of pixel position `i` in entry `code`
/// has been masked to zero.
pub open spec fn subfield_masked(lut: Seq<u8>, code: int, i: int) -> bool {
    lut[code] & sub_mask(i) == 0
}

/// Masking with any byte keeps zeroed bits zeroed.
proof fn lemma_and_preserves_zero()
    by (bit_vector)
    ensures
        forall|x: u8, m: u8, p: u8| x & p == 0 ==> #[trigger] ((x & m) & p) == 0,
{
}

/// The table keeps its full size through every masking pass.
pub proof fn lemma_lut_after_len(mode: DrawMode, n: int)
    ensures
        lut_after(mode, n).len() == LUT_SIZE,
    decreases
            if n > 0 {
                n
            } else {
                0
            },
{
    if n > 0 {
        lemma_lut_after_len(mode, n - 1);
    }
}

/// One sub-field, one entry: masking passes never unmask.
proof fn lemma_subfield_stays_masked(mode: DrawMode, k1: int, k2: int, code: int, i: int)
    requires
        0 <= k1 <= k2 <= FRAME_COUNT,
        0 <= code < LUT_SIZE,
        0 <= i < 4,
        subfield_masked(lut_after(mode, k1), code, i),
    ensures
        subfield_masked(lut_after(mode, k2), code, i),
    decreases k2 - k1,
{
    if k2 > k1 {
        lemma_subfield_stays_masked(mode, k1, k2 - 1, code, i);
        lemma_lut_after_len(mode, k2 - 1);
        lemma_and_preserves_zero();
        assert(lut_after(mode, k2)[code] == lut_after(mode, k2 - 1)[code] & lut_mask(
            code as u16,
            effective_phase(mode, k2 - 1) as u16,
        ));
    }
}

/// LUT masking is monotonic: for a fixed draw mode and phases
/// `k1 <= k2`, the set of masked (zeroed) drive sub-fields after the
/// first `k2` phases is a superset of the set after the first `k1`
/// phases — later passes only clear drive bits, never set them.
pub proof fn lemma_lut_masking_monotonic(mode: DrawMode, k1: int, k2: int)
    requires
        0 <= k1 <= k2 <= FRAME_COUNT,
    ensures
        forall|code: int, i: int|
            0 <= code < LUT_SIZE && 0 <= i < 4 && subfield_masked(lut_after(mode, k1), code, i)
                ==> subfield_masked(lut_after(mode, k2), code, i),
{
    assert forall|code: int, i: int|
        0 <= code < LUT_SIZE && 0 <= i < 4 && subfield_masked(
            lut_after(mode, k1),
            code,
            i,
        ) implies subfield_masked(lut_after(mode, k2), code, i) by {
        lemma_subfield_stays_masked(mode, k1, k2, code, i);
    }
}

/// Where byte `i` of a row moves under the bus byte reorder: within
/// each 4-byte group the 16-bit halves swap places.
pub open spec fn reorder_index(i: int) -> int {
    if i % 4 < 2 {
        i + 2
    } else {
        i - 2
    }
}

/// One row's bytes after the bus byte reorder.
pub open spec fn reorder_bytes(s: Seq<u8>) -> Seq<u8> {
    Seq::new(s.len(), |i: int| s[reorder_index(i)])
}

/// Swap the 16-bit halves of every 4-byte group in place.  This
/// matches the panel's bus wiring and is applied to every row before
/// transfer, whatever the row's source.
pub fn line_buffer_reorder(data: &mut Vec<u8>)
    requires
        old(data)@.len() % 4 == 0,
    ensures
        final(data)@ == reorder_bytes(old(data)@),
{
    let n = data.len();
    let groups = n / 4;
    let mut j: usize = 0;
    while j < groups
        invariant
            j <= groups,
            n == data@.len(),
            n == old(data)@.len(),
            n % 4 == 0,
            groups == n / 4,
            forall|i: int| 0 <= i < 4 * j ==> data@[i] == reorder_bytes(old(data)@)[i],
            forall|i: int| 4 * j <= i < n ==> data@[i] == old(data)@[i],
        decreases groups - j,
    {
        let base = 4 * j;
        let b0 = data[base];
        let b1 = data[base + 1];
        let b2 = data[base + 2];
        let b3 = data[base + 3];
        data.set(base, b2);
        data.set(base + 1, b3);
        data.set(base + 2, b0);
        data.set(base + 3, b1);
        proof {
            let b = base as int;
            assert(b % 4 == 0 && (b + 1) % 4 == 1 && (b + 2) % 4 == 2 && (b + 3) % 4 == 3)
                by (nonlinear_arith)
                requires
                    b == 4 * (j as int),
                    0 <= j,
            ;
        }
        j += 1;
    }
}

/// Applying the bus byte reorder twice returns the original row.
pub proof fn lemma_reorder_involution(s: Seq<u8>)
    requires
        s.len() % 4 == 0,
    ensures
        reorder_bytes(reorder_bytes(s)) == s,
{
    assert forall|i: int| 0 <= i < s.len() implies reorder_bytes(reorder_bytes(s))[i] == s[i] by {
        let r = reorder_index(i);
        assert(0 <= r < s.len() && reorder_index(r) == i) by {
            lemma_reorder_index_involutive(i, s.len() as int);
        }
    }
    assert(reorder_bytes(reorder_bytes(s)) =~= s);
}

/// The reorder map is its own inverse and stays inside the row.
proof fn lemma_reorder_index_involutive(i: int, n: int)
    requires
        0 <= i < n,
        n % 4 == 0,
    ensures
        0 <= reorder_index(i) < n,
        reorder_index(reorder_index(i)) == i,
{
    let r = i % 4;
    lemma_mod_self_0(4);
    if r < 2 {
        lemma_add_mod_noop(i, 2, 4);
        lemma_small_mod((r + 2) as nat, 4);
        assert((i + 2) % 4 == r + 2);
        if i + 2 >= n {
            lemma_sub_mod_noop(n, i, 4);
        }
    } else {
        lemma_sub_mod_noop(i, 2, 4);
        lemma_small_mod((r - 2) as nat, 4);
        assert((i - 2) % 4 == r - 2);
    }
}

/// One bus row packed from one framebuffer row through the LUT: byte
/// `i` is the LUT entry selected by the 16-bit quad code formed from
/// framebuffer bytes `2i` and `2i + 1` in little-endian order.
pub open spec fn dma_line(line: Seq<u8>, lut: Seq<u8>) -> Seq<u8> {
    Seq::new(line.len() / 2, |i: int| lut[line[2 * i] + 256 * line[2 * i + 1]])
}

/// Pack one framebuffer row into its bus-ready form through the LUT.
pub fn prepare_dma_buffer(line_data: &[u8], conversion_lut: &Vec<u8>) -> (out: Vec<u8>)
    requires
        line_data@.len() == LINE_BYTES_4BPP,
        conversion_lut@.len() == LUT_SIZE,
    ensures
        out@ == dma_line(line_data@, conversion_lut@),
{
    let mut out: Vec<u8> = Vec::new();
    let mut i: usize = 0;
    while i < LINE_BYTES_4BPP / 2
        invariant
            i <= LINE_BYTES_4BPP / 2,
            line_data@.len() == LINE_BYTES_4BPP,
            conversion_lut@.len() == LUT_SIZE,
            out@.len() == i,
            forall|q: int| 0 <= q < i ==> out@[q] == dma_line(line_data@, conversion_lut@)[q],
        decreases LINE_BYTES_4BPP / 2 - i,
    {
        let lo = line_data[2 * i];
        let hi = line_data[2 * i + 1];
        let code: usize = lo as usize + 256 * (hi as usize);
        let b = conversion_lut[code];
        out.push(b);
        i += 1;
    }
    proof {
        assert(out@ =~= dma_line(line_data@, conversion_lut@));
    }
    out
}

} // verus!
