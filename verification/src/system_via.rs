//! The System VIA's port wiring: Port A multiplexes the keyboard onto the
//! slow data bus under IC32 control, Port B drives the IC32 addressable
//! latch; both share the keyboard, the latch, and the CRTC vsync line.

use vstd::prelude::*;

use crate::devices::Device;
use crate::ic32::{spec_ic32_has, spec_ic32_write, IC32, IC32_KEYBOARD};
use crate::keyboard::{
    spec_decode, spec_is_key_pressed, spec_scan_column, spec_scan_interrupt, Keyboard,
};
use crate::mos6522::{Peripherals, Port, VIA};

verus! {

/// The peripherals both System VIA ports reach: the IC32 latch, the
/// keyboard matrix, and the vertical sync line from the CRT controller.
pub struct SystemShared {
    pub ic32: IC32,
    pub keyboard: Keyboard,
    pub crtc_vsync: crate::devices::Signal,
}

/// What the shared peripherals hold.
pub struct SystemSharedView {
    pub ic32: u8,
    pub keyboard: Seq<u8>,
    pub vsync: bool,
}

impl View for SystemShared {
    type V = SystemSharedView;

    open spec fn view(&self) -> SystemSharedView {
        SystemSharedView { ic32: self.ic32@, keyboard: self.keyboard@, vsync: self.crtc_vsync@ }
    }
}

impl Peripherals for SystemShared {
    open spec fn inv(&self) -> bool {
        self.keyboard.inv()
    }
}

impl SystemShared {
    pub fn new(ic32: IC32, keyboard: Keyboard) -> (r: SystemShared)
        requires
            keyboard.inv(),
        ensures
            r.inv(),
            r@ == (SystemSharedView { ic32: ic32@, keyboard: keyboard@, vsync: false }),
    {
        SystemShared { ic32, keyboard, crtc_vsync: crate::devices::Signal::new() }
    }
}

/// Whether the IC32 latch has keyboard autoscan enabled.
pub open spec fn spec_autoscan(ic32: u8) -> bool {
    spec_ic32_has(ic32, IC32_KEYBOARD)
}

/// Port A: the slow data bus to the keyboard. Holds the latched PA value,
/// whose low bits select the key to probe in manual-scan mode.
pub struct SystemPortA {
    pub pa: u8,
}

impl View for SystemPortA {
    type V = u8;

    open spec fn view(&self) -> u8 {
        self.pa
    }
}

impl SystemPortA {
    pub fn new() -> (r: SystemPortA)
        ensures
            r@ == 0,
    {
        SystemPortA { pa: 0 }
    }
}

/// The byte a Port A read returns: in manual-scan mode, the probed key's
/// state lands in bit 7 over the latched select value; under autoscan the
/// latch reads back unchanged.
pub open spec fn spec_port_a_read(pa: u8, s: SystemSharedView) -> u8 {
    if !spec_autoscan(s.ic32) {
        if spec_is_key_pressed(s.keyboard, pa) {
            pa | 0x80
        } else {
            pa & 0x7F
        }
    } else {
        pa
    }
}

/// Port A's control lines: CA1 senses (and consumes) the CRTC vertical
/// sync; CA2 senses a key anywhere under autoscan, or a key in the
/// currently selected column under manual scan (row 0 never counts).
pub open spec fn spec_port_a_control(pa: u8, s: SystemSharedView) -> (bool, bool) {
    let ca1 = s.vsync;
    let ca2 = if spec_autoscan(s.ic32) {
        spec_scan_interrupt(s.keyboard)
    } else {
        spec_scan_column(s.keyboard, spec_decode(pa).1)
    };
    (ca1, ca2)
}

impl Port<SystemShared> for SystemPortA {
    open spec fn inv(&self) -> bool {
        true
    }

    open spec fn control_value(p: u8, s: SystemSharedView) -> (bool, bool) {
        spec_port_a_control(p, s)
    }

    open spec fn control_state(p: u8, s: SystemSharedView) -> (u8, SystemSharedView) {
        (p, SystemSharedView { vsync: false, ..s })
    }

    open spec fn read_value(p: u8, s: SystemSharedView, ddr_mask: u8) -> u8 {
        spec_port_a_read(p, s)
    }

    open spec fn write_state(p: u8, s: SystemSharedView, value: u8, ddr_mask: u8) -> (
        u8,
        SystemSharedView,
    ) {
        ((p & !ddr_mask) | (value & ddr_mask), s)
    }

    fn control(&mut self, shared: &mut SystemShared) -> (r: (bool, bool)) {
        let ca1 = shared.crtc_vsync.sense();
        let auto_scan = shared.ic32.has(IC32_KEYBOARD);
        let ca2 = if auto_scan {
            shared.keyboard.scan_interrupt()
        } else {
            let (_row, col) = Keyboard::decode(self.pa);
            shared.keyboard.scan_column(col)
        };
        (ca1, ca2)
    }

    fn read(&self, shared: &SystemShared, ddr_mask: u8) -> (r: u8) {
        let mut value = self.pa;
        let auto_scan = shared.ic32.has(IC32_KEYBOARD);
        if !auto_scan {
            // manual scan: report the probed key's state in bit 7
            if shared.keyboard.is_key_pressed(value) {
                value = value | 0x80;
            } else {
                value = value & 0x7F;
            }
        }
        value
    }

    fn write(&mut self, shared: &mut SystemShared, value: u8, ddr_mask: u8) {
        self.pa = (self.pa & !ddr_mask) | (value & ddr_mask);
    }
}

/// Port B: bits 0-2 address the IC32 latch, bit 3 carries the written
/// value; the input bits surface joystick and speech status, stubbed
/// as unset in this scope.
pub struct SystemPortB {
    pub pb: u8,
}

impl View for SystemPortB {
    type V = u8;

    open spec fn view(&self) -> u8 {
        self.pb
    }
}

impl SystemPortB {
    pub fn new() -> (r: SystemPortB)
        ensures
            r@ == 0,
    {
        SystemPortB { pb: 0 }
    }

    /// Splits a Port B write into the IC32 latch address (bits 0-2) and
    /// the bit value to store (bit 3).
    pub fn decode(value: u8) -> (r: (u8, bool))
        ensures
            r == spec_port_b_decode(value),
            r.0 < 8,
    {
        proof {
            assert(value & 0x07 < 8) by (bit_vector);
        }
        (value & 0x07, value & 0x08 != 0)
    }
}

/// The IC32 address and value bits of a Port B write.
pub open spec fn spec_port_b_decode(value: u8) -> (u8, bool) {
    (value & 0x07, value & 0x08 != 0)
}

impl Port<SystemShared> for SystemPortB {
    open spec fn inv(&self) -> bool {
        true
    }

    open spec fn control_value(p: u8, s: SystemSharedView) -> (bool, bool) {
        (false, false)
    }

    open spec fn control_state(p: u8, s: SystemSharedView) -> (u8, SystemSharedView) {
        (p, s)
    }

    open spec fn read_value(p: u8, s: SystemSharedView, ddr_mask: u8) -> u8 {
        p & !ddr_mask
    }

    open spec fn write_state(p: u8, s: SystemSharedView, value: u8, ddr_mask: u8) -> (
        u8,
        SystemSharedView,
    ) {
        let decoded = spec_port_b_decode(value);
        (
            (p & !ddr_mask) | (value & ddr_mask),
            SystemSharedView { ic32: spec_ic32_write(s.ic32, decoded.0, decoded.1), ..s },
        )
    }

    fn control(&mut self, shared: &mut SystemShared) -> (r: (bool, bool)) {
        // CB1 (ADC end-of-conversion) and CB2 (light pen strobe) are not
        // wired in this scope
        (false, false)
    }

    fn read(&self, shared: &SystemShared, ddr_mask: u8) -> (r: u8) {
        // joystick buttons (PB4, PB5) and speech status (PB6, PB7) read
        // as unset
        self.pb & !ddr_mask
    }

    fn write(&mut self, shared: &mut SystemShared, value: u8, ddr_mask: u8) {
        self.pb = (self.pb & !ddr_mask) | (value & ddr_mask);
        let (address, bit) = SystemPortB::decode(value);
        shared.ic32.write(address, bit);
    }
}

/// The System VIA: the 6522 wired to the keyboard, IC32 and vsync line.
pub type SystemVIA = VIA<SystemShared, SystemPortA, SystemPortB>;

impl Device for SystemVIA {
    fn name(&self) -> &'static str {
        "6522 System VIA"
    }
}

} // verus!
