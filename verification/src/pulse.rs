//! The timing-pulse generator and its latency-hiding discipline.
//!
//! One electrical pulse train is described by a pair of levels with
//! durations.  The generator owns a single transmission channel: a
//! pulse issued without waiting parks the channel as in flight, and
//! the next pulse request first reclaims it.  This is the only
//! overlap in the system; it lets the caller prepare the next row
//! while the previous pulse is still physically completing.

use crate::actions::{Act, Action};
use vstd::prelude::*;

verus! {

/// One entry of a pulse transmission frame: two levels, each held for
/// a duration in timer ticks.
#[derive(Clone, Copy, Debug, PartialEq, Eq, Structural)]
pub struct PulseCode {
    pub level1: bool,
    pub length1: u16,
    pub level2: bool,
    pub length2: u16,
}

/// The all-zero entry that terminates a transmission frame.
pub open spec fn end_marker() -> PulseCode {
    PulseCode { level1: false, length1: 0, level2: false, length2: 0 }
}

/// The frame a pulse request encodes to: high for `high` ticks then
/// low for `low` ticks, followed by the end marker.  A request with
/// `high == 0` degenerates to a single low-only pulse of duration
/// `low`, used for hold-low timing.
pub open spec fn pulse_frame(high: u16, low: u16) -> Seq<PulseCode> {
    if high > 0 {
        seq![
            PulseCode { level1: true, length1: high, level2: false, length2: low },
            end_marker(),
        ]
    } else {
        seq![
            PulseCode { level1: false, length1: low, level2: false, length2: 0 },
            end_marker(),
        ]
    }
}

/// Encode one pulse request as the transmission frame the channel
/// hardware consumes.
pub fn encode_pulse(high: u16, low: u16) -> (frame: [PulseCode; 2])
    ensures
        frame@ == pulse_frame(high, low),
{
    let first = if high > 0 {
        PulseCode { level1: true, length1: high, level2: false, length2: low }
    } else {
        PulseCode { level1: false, length1: low, level2: false, length2: 0 }
    };
    let frame: [PulseCode; 2] = [
        first,
        PulseCode { level1: false, length1: 0, level2: false, length2: 0 },
    ];
    proof {
        assert(frame@ =~= pulse_frame(high, low));
    }
    frame
}

/// State of the single pulse channel: at most one transmission is in
/// flight at any time.
pub struct PulseGenerator {
    pub in_flight: bool,
}

impl PulseGenerator {
    /// A fresh generator with an idle channel.
    pub fn new() -> (p: PulseGenerator)
        ensures
            !p.in_flight,
    {
        PulseGenerator { in_flight: false }
    }

    /// Issue one pulse.  The returned action stands for: reclaim any
    /// in-flight transmission, then transmit `pulse_frame(high, low)`,
    /// and block for completion exactly when `wait` is set.
    pub fn pulse(&mut self, high: u16, low: u16, wait: bool) -> (a: Action)
        ensures
            a@ == (Act::Pulse { high, low, wait }),
            final(self).in_flight == !wait,
    {
        self.in_flight = !wait;
        Action::Pulse { high, low, wait }
    }
}

} // verus!
