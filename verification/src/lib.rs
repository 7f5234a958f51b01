//! Driver core for a 960x540 four-bit-grayscale e-paper panel.
//!
//! The library keeps a packed framebuffer with per-row taint tracking,
//! computes the multi-phase grayscale waveform schedule, and drives a
//! model of the panel controller that records the exact sequence of
//! electrical actions (control-register writes, timing pulses, bus
//! transfers, delays) the panel protocol requires.  An embedding runs
//! that action sequence against the real hardware.

pub mod actions;
pub mod display;
pub mod panel;
pub mod pulse;
pub mod waveform;

pub use actions::{Action, ConfigRegister};
pub use display::{Display, Rectangle};
pub use waveform::DrawMode;

use vstd::prelude::*;

verus! {

/// Failures surfaced by the driver.
#[derive(Clone, Copy, Debug, PartialEq, Eq, Structural)]
pub enum Error {
    /// Provided pixel coordinates exceed the display boundary.
    OutOfBounds,
    /// Provided color exceeds the allowed range of 0x0 - 0x0F.
    InvalidColor,
    /// A timing-pulse transmission failed.
    PulseFailure,
    /// A parallel-bus transfer failed.
    BusTransferFailure,
    /// Internal driver state was corrupted.
    Unknown,
}

} // verus!
