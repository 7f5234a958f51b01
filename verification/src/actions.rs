//! The electrical interface of the panel, modelled as data.
//!
//! Every operation of the driver core bottoms out in one of a few
//! elementary electrical actions: shifting the eight control bits into
//! the panel's control register, emitting a timed pulse on the timing
//! line, transferring one staged row over the parallel bus, or holding
//! still for a calibrated delay.  The controller records these actions
//! in order; an embedding performs them against the hardware.

use vstd::prelude::*;

verus! {

/// Shadow state of the panel's eight boolean control lines.  The
/// physical register is only as current as the last `Register` action
/// in the log.
#[derive(Clone, Copy, Debug, PartialEq, Eq, Structural)]
pub struct ConfigRegister {
    pub latch_enable: bool,
    pub power_disable: bool,
    pub pos_power_enable: bool,
    pub neg_power_enable: bool,
    pub stv: bool,
    pub power_enable: bool,
    pub mode: bool,
    pub output_enable: bool,
}

impl ConfigRegister {
    /// The register value the panel expects before power-up.
    pub open spec fn initial() -> ConfigRegister {
        ConfigRegister {
            latch_enable: false,
            power_disable: true,
            pos_power_enable: false,
            neg_power_enable: false,
            stv: true,
            power_enable: true,
            mode: false,
            output_enable: false,
        }
    }
}

impl Default for ConfigRegister {
    fn default() -> (r: Self)
        ensures
            r == ConfigRegister::initial(),
    {
        ConfigRegister {
            latch_enable: false,
            power_disable: true,
            pos_power_enable: false,
            neg_power_enable: false,
            stv: true,
            power_enable: true,
            mode: false,
            output_enable: false,
        }
    }
}

/// The order in which the control bits are shifted out on the wire:
/// `output_enable` first, `latch_enable` last.
pub open spec fn wire_bits(r: ConfigRegister) -> Seq<bool> {
    seq![
        r.output_enable,
        r.mode,
        r.power_enable,
        r.stv,
        r.neg_power_enable,
        r.pos_power_enable,
        r.power_disable,
        r.latch_enable,
    ]
}

/// The control bits in wire order, for an embedding that clocks them
/// out serially.
pub fn register_bits(r: &ConfigRegister) -> (bits: [bool; 8])
    ensures
        bits@ == wire_bits(*r),
{
    let bits: [bool; 8] = [
        r.output_enable,
        r.mode,
        r.power_enable,
        r.stv,
        r.neg_power_enable,
        r.pos_power_enable,
        r.power_disable,
        r.latch_enable,
    ];
    proof {
        assert(bits@ =~= wire_bits(*r));
    }
    bits
}

/// One electrical action of the panel protocol.
#[derive(Debug, PartialEq)]
pub enum Action {
    /// Shift the eight control bits out and strobe them into the panel.
    Register(ConfigRegister),
    /// Emit one two-level timing pulse; `wait` blocks until it has
    /// physically completed, otherwise the transmission stays in
    /// flight and the next pulse reclaims it first.
    Pulse { high: u16, low: u16, wait: bool },
    /// One fixed-size parallel-bus transfer of the staged row bytes.
    Transfer(Vec<u8>),
    /// Calibrated busy-wait, counted in clock cycles.
    DelayCycles(u32),
    /// Millisecond pause between recovery passes.
    DelayMillis(u32),
}

/// Mathematical image of an `Action`.
pub enum Act {
    Register(ConfigRegister),
    Pulse { high: u16, low: u16, wait: bool },
    Transfer(Seq<u8>),
    DelayCycles(u32),
    DelayMillis(u32),
}

impl View for Action {
    type V = Act;

    open spec fn view(&self) -> Act {
        match self {
            Action::Register(r) => Act::Register(*r),
            Action::Pulse { high, low, wait } => (Act::Pulse { high: *high, low: *low, wait: *wait }),
            Action::Transfer(data) => Act::Transfer(data@),
            Action::DelayCycles(c) => Act::DelayCycles(*c),
            Action::DelayMillis(m) => Act::DelayMillis(*m),
        }
    }
}

/// An action log, viewed as the sequence of its mathematical actions.
pub open spec fn acts(log: Seq<Action>) -> Seq<Act> {
    log.map_values(|a: Action| a@)
}

} // verus!
