//! The low-level panel controller.
//!
//! The controller owns the control-register shadow, the staged bus
//! row, the pulse channel, and the ordered action log.  Each protocol
//! step — power sequencing, frame start and end, row output, row skip
//! — appends an exact, fixed sequence of electrical actions to the
//! log.  The sequences are hardware contracts: reordering the
//! register writes or shortening the delays risks damaging the panel,
//! so each method's contract pins its sequence down completely.

use crate::actions::{acts, Act, Action, ConfigRegister};
use crate::pulse::PulseGenerator;
use vstd::prelude::*;

verus! {

/// Bytes per staged bus row: panel width at 2 bits per pixel.
pub const BYTES_PER_ROW: usize = 240;

/// Size of the fixed transfer buffer.  A bus transfer always sends
/// the whole buffer; `set_buffer` overwrites its leading bytes.
pub const TRANSFER_SIZE: usize = 248;

/// Clock ticks per microsecond of calibrated busy-wait.
pub const CYCLES_PER_US: u32 = 240;

/// Mathematical state of the controller between actions.
#[verifier::ext_equal]
pub struct PanelState {
    pub reg: ConfigRegister,
    pub staged: Seq<u8>,
    pub in_flight: bool,
}

/// Actions and final state of the power-up sequence: enable the
/// charge pumps in order, with the ramp delays the panel requires.
pub open spec fn power_on_acts(s: PanelState) -> (Seq<Act>, PanelState) {
    let r1 = ConfigRegister { power_enable: true, power_disable: false, ..s.reg };
    let r2 = ConfigRegister { neg_power_enable: true, ..r1 };
    let r3 = ConfigRegister { pos_power_enable: true, ..r2 };
    let r4 = ConfigRegister { stv: true, ..r3 };
    (
        seq![
            Act::Register(r1),
            Act::DelayCycles((100 * CYCLES_PER_US) as u32),
            Act::Register(r2),
            Act::DelayCycles((500 * CYCLES_PER_US) as u32),
            Act::Register(r3),
            Act::DelayCycles((100 * CYCLES_PER_US) as u32),
            Act::Register(r4),
        ],
        PanelState { reg: r4, ..s },
    )
}

/// Actions and final state of the power-down sequence.
pub open spec fn power_off_acts(s: PanelState) -> (Seq<Act>, PanelState) {
    let r1 = ConfigRegister { power_enable: false, pos_power_enable: false, ..s.reg };
    let r2 = ConfigRegister { neg_power_enable: false, ..r1 };
    let r3 = ConfigRegister { power_disable: true, mode: false, stv: false, ..r2 };
    (
        seq![
            Act::Register(r1),
            Act::DelayCycles((10 * CYCLES_PER_US) as u32),
            Act::Register(r2),
            Act::DelayCycles((100 * CYCLES_PER_US) as u32),
            Act::Register(r3),
        ],
        PanelState { reg: r3, ..s },
    )
}

/// Actions and final state of the start-of-frame protocol: raise
/// `mode`, drop `stv` around a long low pulse, re-raise it, clock four
/// short pulses, then enable output.
pub open spec fn frame_start_acts(s: PanelState) -> (Seq<Act>, PanelState) {
    let r1 = ConfigRegister { mode: true, ..s.reg };
    let r2 = ConfigRegister { stv: false, ..r1 };
    let r3 = ConfigRegister { stv: true, ..r2 };
    let r4 = ConfigRegister { output_enable: true, ..r3 };
    (
        seq![
            Act::Register(r1),
            Act::Pulse { high: 10, low: 10, wait: true },
            Act::Register(r2),
            Act::Pulse { high: 10000, low: 1000, wait: false },
            Act::Register(r3),
            Act::Pulse { high: 10, low: 10, wait: true },
            Act::Pulse { high: 10, low: 10, wait: true },
            Act::Pulse { high: 10, low: 10, wait: true },
            Act::Pulse { high: 10, low: 10, wait: true },
            Act::Register(r4),
            Act::Pulse { high: 10, low: 10, wait: true },
        ],
        PanelState { reg: r4, in_flight: false, ..s },
    )
}

/// Actions of committing one shift-register row: latch on, latch off.
pub open spec fn latch_row_acts(s: PanelState) -> (Seq<Act>, PanelState) {
    let r1 = ConfigRegister { latch_enable: true, ..s.reg };
    let r2 = ConfigRegister { latch_enable: false, ..r1 };
    (seq![Act::Register(r1), Act::Register(r2)], PanelState { reg: r2, ..s })
}

/// Actions of advancing the panel's row pointer without emitting data.
pub open spec fn skip_acts(s: PanelState) -> (Seq<Act>, PanelState) {
    (
        seq![Act::Pulse { high: 45, low: 5, wait: false }],
        PanelState { in_flight: true, ..s },
    )
}

/// Actions of emitting one row: latch it, drive it for `output_time`
/// ticks, and transfer the staged bytes over the bus.
pub open spec fn output_row_acts(s: PanelState, output_time: u16) -> (Seq<Act>, PanelState) {
    let (latch, s1) = latch_row_acts(s);
    (
        latch + seq![
            Act::Pulse { high: output_time, low: 50, wait: false },
            Act::Transfer(s.staged),
        ],
        PanelState { in_flight: true, ..s1 },
    )
}

/// Actions and final state of the end-of-frame protocol.
pub open spec fn frame_end_acts(s: PanelState) -> (Seq<Act>, PanelState) {
    let r1 = ConfigRegister { output_enable: false, ..s.reg };
    let r2 = ConfigRegister { mode: true, ..r1 };
    (
        seq![
            Act::Register(r1),
            Act::Register(r2),
            Act::Pulse { high: 10, low: 10, wait: true },
            Act::Pulse { high: 10, low: 10, wait: true },
        ],
        PanelState { reg: r2, in_flight: false, ..s },
    )
}

/// The staged buffer after `set_buffer(data)`: the leading bytes are
/// replaced, the tail keeps its previous contents.
pub open spec fn stage_bytes(staged: Seq<u8>, data: Seq<u8>) -> Seq<u8> {
    data + staged.skip(data.len() as int)
}

/// An owned copy of a byte vector.
fn copy_bytes(src: &Vec<u8>) -> (v: Vec<u8>)
    ensures
        v@ == src@,
{
    let mut v: Vec<u8> = Vec::new();
    let n = src.len();
    let mut i: usize = 0;
    while i < n
        invariant
            i <= n,
            n == src@.len(),
            v@ == src@.take(i as int),
        decreases n - i,
    {
        let b = src[i];
        v.push(b);
        proof {
            assert(v@ =~= src@.take(i + 1));
        }
        i += 1;
    }
    proof {
        assert(v@ =~= src@);
    }
    v
}

/// The controller: control-register shadow, staged row, pulse
/// channel, and the ordered log of electrical actions.
pub struct PanelController {
    pub reg: ConfigRegister,
    pub staged: Vec<u8>,
    pub pulses: PulseGenerator,
    pub log: Vec<Action>,
}

impl PanelController {
    /// The staged buffer always has the fixed transfer size.
    pub open spec fn wf(self) -> bool {
        self.staged@.len() == TRANSFER_SIZE
    }

    /// The controller's mathematical state.
    pub open spec fn state(self) -> PanelState {
        PanelState { reg: self.reg, staged: self.staged@, in_flight: self.pulses.in_flight }
    }

    /// The log as a sequence of mathematical actions.
    pub open spec fn trace(self) -> Seq<Act> {
        acts(self.log@)
    }

    /// A fresh controller: reset register, zeroed staged buffer, idle
    /// channel.  The safe initial register state is shifted out to
    /// the panel once, before any power-up, so the log starts with
    /// that one write.
    pub fn new() -> (c: PanelController)
        ensures
            c.wf(),
            c.reg == ConfigRegister::initial(),
            c.staged@ == Seq::new(TRANSFER_SIZE as nat, |i: int| 0u8),
            !c.pulses.in_flight,
            c.trace() == seq![Act::Register(ConfigRegister::initial())],
    {
        let staged: Vec<u8> = vec![0u8; TRANSFER_SIZE];
        let mut c = PanelController {
            reg: Default::default(),
            staged,
            pulses: PulseGenerator::new(),
            log: Vec::new(),
        };
        c.write_register();
        proof {
            assert(c.staged@ =~= Seq::new(TRANSFER_SIZE as nat, |i: int| 0u8));
            assert(c.trace() =~= seq![Act::Register(ConfigRegister::initial())]);
        }
        c
    }

    /// Issue one timing pulse through the channel and log it.
    fn pulse(&mut self, high: u16, low: u16, wait: bool)
        ensures
            final(self).trace() == old(self).trace().push(Act::Pulse { high, low, wait }),
            final(self).pulses.in_flight == !wait,
            final(self).reg == old(self).reg,
            final(self).staged == old(self).staged,
    {
        let a = self.pulses.pulse(high, low, wait);
        self.log.push(a);
        proof {
            assert(final(self).trace() =~= old(self).trace().push(Act::Pulse { high, low, wait }));
        }
    }

    /// Write the shadow register out to the panel and log it.
    fn write_register(&mut self)
        ensures
            final(self).trace() == old(self).trace().push(Act::Register(old(self).reg)),
            final(self).reg == old(self).reg,
            final(self).staged == old(self).staged,
            final(self).pulses == old(self).pulses,
    {
        let a = Action::Register(self.reg);
        self.log.push(a);
        proof {
            assert(final(self).trace() =~= old(self).trace().push(Act::Register(old(self).reg)));
        }
    }

    /// Log one calibrated busy-wait.
    fn busy_delay(&mut self, wait_cycles: u32)
        ensures
            final(self).trace() == old(self).trace().push(Act::DelayCycles(wait_cycles)),
            final(self).reg == old(self).reg,
            final(self).staged == old(self).staged,
            final(self).pulses == old(self).pulses,
    {
        self.log.push(Action::DelayCycles(wait_cycles));
        proof {
            assert(final(self).trace() =~= old(self).trace().push(Act::DelayCycles(wait_cycles)));
        }
    }

    /// Log one millisecond pause.
    pub fn delay_millis(&mut self, ms: u32)
        ensures
            final(self).trace() == old(self).trace().push(Act::DelayMillis(ms)),
            final(self).state() == old(self).state(),
    {
        self.log.push(Action::DelayMillis(ms));
        proof {
            assert(final(self).trace() =~= old(self).trace().push(Act::DelayMillis(ms)));
            assert(final(self).state() =~= old(self).state());
        }
    }

    /// Run the power-up sequence.
    pub fn power_on(&mut self)
        requires
            old(self).wf(),
        ensures
            final(self).wf(),
            final(self).trace() == old(self).trace() + power_on_acts(old(self).state()).0,
            final(self).state() == power_on_acts(old(self).state()).1,
    {
        self.reg.power_enable = true;
        self.reg.power_disable = false;
        self.write_register();
        self.busy_delay(100 * CYCLES_PER_US);
        self.reg.neg_power_enable = true;
        self.write_register();
        self.busy_delay(500 * CYCLES_PER_US);
        self.reg.pos_power_enable = true;
        self.write_register();
        self.busy_delay(100 * CYCLES_PER_US);
        self.reg.stv = true;
        self.write_register();
        proof {
            assert(final(self).trace() =~= old(self).trace() + power_on_acts(old(self).state()).0);
            assert(final(self).state() =~= power_on_acts(old(self).state()).1);
        }
    }

    /// Run the power-down sequence.
    pub fn power_off(&mut self)
        requires
            old(self).wf(),
        ensures
            final(self).wf(),
            final(self).trace() == old(self).trace() + power_off_acts(old(self).state()).0,
            final(self).state() == power_off_acts(old(self).state()).1,
    {
        self.reg.power_enable = false;
        self.reg.pos_power_enable = false;
        self.write_register();
        self.busy_delay(10 * CYCLES_PER_US);
        self.reg.neg_power_enable = false;
        self.write_register();
        self.busy_delay(100 * CYCLES_PER_US);
        self.reg.power_disable = true;
        self.reg.mode = false;
        self.reg.stv = false;
        self.write_register();
        proof {
            assert(final(self).trace() =~= old(self).trace() + power_off_acts(old(self).state()).0);
            assert(final(self).state() =~= power_off_acts(old(self).state()).1);
        }
    }

    /// Signal the start of one frame.
    pub fn frame_start(&mut self)
        requires
            old(self).wf(),
        ensures
            final(self).wf(),
            final(self).trace() == old(self).trace() + frame_start_acts(old(self).state()).0,
            final(self).state() == frame_start_acts(old(self).state()).1,
    {
        self.reg.mode = true;
        self.write_register();
        self.pulse(10, 10, true);
        self.reg.stv = false;
        self.write_register();
        self.pulse(10000, 1000, false);
        self.reg.stv = true;
        self.write_register();
        self.pulse(10, 10, true);
        self.pulse(10, 10, true);
        self.pulse(10, 10, true);
        self.pulse(10, 10, true);
        self.reg.output_enable = true;
        self.write_register();
        self.pulse(10, 10, true);
        proof {
            assert(final(self).trace() =~= old(self).trace() + frame_start_acts(old(self).state()).0);
            assert(final(self).state() =~= frame_start_acts(old(self).state()).1);
        }
    }

    /// Commit one row into the panel's shift register.
    fn latch_row(&mut self)
        requires
            old(self).wf(),
        ensures
            final(self).wf(),
            final(self).trace() == old(self).trace() + latch_row_acts(old(self).state()).0,
            final(self).state() == latch_row_acts(old(self).state()).1,
    {
        self.reg.latch_enable = true;
        self.write_register();
        self.reg.latch_enable = false;
        self.write_register();
        proof {
            assert(final(self).trace() =~= old(self).trace() + latch_row_acts(old(self).state()).0);
            assert(final(self).state() =~= latch_row_acts(old(self).state()).1);
        }
    }

    /// Advance the panel's internal row pointer without emitting data.
    pub fn skip(&mut self)
        requires
            old(self).wf(),
        ensures
            final(self).wf(),
            final(self).trace() == old(self).trace() + skip_acts(old(self).state()).0,
            final(self).state() == skip_acts(old(self).state()).1,
    {
        self.pulse(45, 5, false);
        proof {
            assert(final(self).trace() =~= old(self).trace() + skip_acts(old(self).state()).0);
            assert(final(self).state() =~= skip_acts(old(self).state()).1);
        }
    }

    /// Latch and drive one row, then transfer the staged bytes.
    pub fn output_row(&mut self, output_time: u16)
        requires
            old(self).wf(),
        ensures
            final(self).wf(),
            final(self).trace() == old(self).trace() + output_row_acts(old(self).state(), output_time).0,
            final(self).state() == output_row_acts(old(self).state(), output_time).1,
    {
        self.latch_row();
        let ghost tr1 = self.trace();
        self.pulse(output_time, 50, false);
        let ghost tr2 = self.trace();
        let data = copy_bytes(&self.staged);
        self.log.push(Action::Transfer(data));
        proof {
            let s0 = old(self).state();
            let tr0 = old(self).trace();
            let latch = latch_row_acts(s0).0;
            let p = Act::Pulse { high: output_time, low: 50, wait: false };
            let t = Act::Transfer(data@);
            assert(data@ == s0.staged);
            assert(tr1 == tr0 + latch);
            assert(tr2 == tr1.push(p));
            assert(self.trace() =~= tr2.push(t));
            assert(tr2.push(t) =~= tr0 + output_row_acts(s0, output_time).0);
            assert(self.state() =~= output_row_acts(s0, output_time).1);
        }
    }

    /// Signal the end of one frame.
    pub fn frame_end(&mut self)
        requires
            old(self).wf(),
        ensures
            final(self).wf(),
            final(self).trace() == old(self).trace() + frame_end_acts(old(self).state()).0,
            final(self).state() == frame_end_acts(old(self).state()).1,
    {
        self.reg.output_enable = false;
        self.write_register();
        self.reg.mode = true;
        self.write_register();
        self.pulse(10, 10, true);
        self.pulse(10, 10, true);
        proof {
            assert(final(self).trace() =~= old(self).trace() + frame_end_acts(old(self).state()).0);
            assert(final(self).state() =~= frame_end_acts(old(self).state()).1);
        }
    }

    /// Stage one row's bytes for the next transfers.
    pub fn set_buffer(&mut self, data: &[u8])
        requires
            old(self).wf(),
            data@.len() <= TRANSFER_SIZE,
        ensures
            final(self).wf(),
            final(self).trace() == old(self).trace(),
            final(self).state() == (PanelState {
                staged: stage_bytes(old(self).staged@, data@),
                ..old(self).state()
            }),
    {
        let n = data.len();
        let mut i: usize = 0;
        while i < n
            invariant
                i <= n,
                n == data@.len(),
                n <= TRANSFER_SIZE,
                self.staged@.len() == TRANSFER_SIZE,
                self.reg == old(self).reg,
                self.pulses == old(self).pulses,
                self.log == old(self).log,
                forall|j: int| 0 <= j < i ==> self.staged@[j] == data@[j],
                forall|j: int| i <= j < TRANSFER_SIZE ==> self.staged@[j] == old(self).staged@[j],
            decreases n - i,
        {
            let b = data[i];
            self.staged.set(i, b);
            i += 1;
        }
        proof {
            assert(final(self).staged@ =~= stage_bytes(old(self).staged@, data@));
            assert(final(self).state() =~= (PanelState {
                staged: stage_bytes(old(self).staged@, data@),
                ..old(self).state()
            }));
        }
    }
}

} // verus!
