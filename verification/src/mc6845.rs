//! The 6845 CRT controller, reduced to its 50 Hz vertical-sync output:
//! each time the microsecond clock crosses a 20 ms boundary, the vsync
//! signal is raised.

use vstd::prelude::*;

use crate::devices::{Clocked, Device, Signal};

verus! {

/// One vertical sync period, in microseconds (50 Hz).
pub const FIFTY_HERZ: u64 = 20_000;

/// The CRT controller: a clock and the vsync signal it drives.
pub struct CRTC {
    pub vsync: Signal,
    clock_us: u64,
}

/// What a CRTC holds: its vsync line state and its clock.
pub struct CrtcView {
    pub vsync: bool,
    pub clock: u64,
}

impl View for CRTC {
    type V = CrtcView;

    closed spec fn view(&self) -> CrtcView {
        CrtcView { vsync: self.vsync@, clock: self.clock_us }
    }
}

impl CRTC {
    pub fn new() -> (r: CRTC)
        ensures
            r@ == (CrtcView { vsync: false, clock: 0 }),
    {
        CRTC { vsync: Signal::new(), clock_us: 0 }
    }

    /// Senses and consumes the vsync signal.
    pub fn sense_vsync(&mut self) -> (r: bool)
        ensures
            r == old(self)@.vsync,
            final(self)@ == (CrtcView { vsync: false, ..old(self)@ }),
    {
        self.vsync.sense()
    }
}

impl Device for CRTC {
    fn name(&self) -> &'static str {
        "6845 CRTC video controller"
    }
}

/// The CRTC after one clock step: vsync raised exactly when the step
/// crosses a 20 ms boundary.
pub open spec fn spec_crtc_step(v: CrtcView, us: u64) -> CrtcView {
    CrtcView {
        vsync: if v.clock / FIFTY_HERZ != us / FIFTY_HERZ {
            true
        } else {
            v.vsync
        },
        clock: us,
    }
}

impl Clocked for CRTC {
    open spec fn clocked_inv(&self) -> bool {
        true
    }

    open spec fn clock(&self) -> u64 {
        self@.clock
    }

    open spec fn stride_ok(&self, us: u64) -> bool {
        true
    }

    open spec fn step_state(v: CrtcView, us: u64) -> CrtcView {
        spec_crtc_step(v, us)
    }

    fn step(&mut self, us: u64) {
        if self.clock_us / FIFTY_HERZ != us / FIFTY_HERZ {
            self.vsync.raise();
        }
        self.clock_us = us;
    }
}

} // verus!
