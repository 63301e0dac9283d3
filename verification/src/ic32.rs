//! The IC32 addressable latch (74LS259): eight named control bits for the
//! slow data bus, keyboard scan mode, hardware scrolling and lock LEDs.

use vstd::prelude::*;

verus! {

/// Write enable for the sound generator (active low).
pub const IC32_SOUND: u8 = 0;

/// Read select on the speech processor (active low).
pub const IC32_SPEECH_R: u8 = 1;

/// Write select on the speech processor (active low).
pub const IC32_SPEECH_W: u8 = 2;

/// Keyboard autoscan enable.
pub const IC32_KEYBOARD: u8 = 3;

/// Hardware-scroll adjust bit C0.
pub const IC32_C0_B4: u8 = 4;

/// Hardware-scroll adjust bit C1.
pub const IC32_C1_B5: u8 = 5;

/// CAPS LOCK LED (active low).
pub const IC32_CAPS_L: u8 = 6;

/// SHIFT LOCK LED (active low).
pub const IC32_SHIFT_L: u8 = 7;

/// The 8-bit addressable latch. Written one bit at a time through System
/// VIA Port B; read by Port A's slow-bus decode and the display logic.
pub struct IC32 {
    latch: u8,
}

impl View for IC32 {
    type V = u8;

    closed spec fn view(&self) -> u8 {
        self.latch
    }
}

/// Whether a latch bit is set.
pub open spec fn spec_ic32_has(latch: u8, bit: u8) -> bool {
    latch & (1u8 << bit) != 0
}

/// The latch after one addressed bit is written.
pub open spec fn spec_ic32_write(latch: u8, address: u8, value: bool) -> u8 {
    if value {
        latch | (1u8 << address)
    } else {
        latch & !(1u8 << address)
    }
}

/// The one's-complement count of 2 KB blocks that hardware scrolling
/// subtracts from the screen start address, selected by latch bits C0/C1.
pub open spec fn spec_mode_adjust(latch: u8) -> u8 {
    match (spec_ic32_has(latch, IC32_C1_B5), spec_ic32_has(latch, IC32_C0_B4)) {
        (false, false) => 0b0111,
        (false, true) => 0b1011,
        (true, false) => 0b0101,
        (true, true) => 0b1010,
    }
}

impl IC32 {
    pub fn new() -> (r: IC32)
        ensures
            r@ == 0,
    {
        IC32 { latch: 0 }
    }

    pub fn get_mask(address: u8) -> (r: u8)
        requires
            address < 8,
        ensures
            r == (1u8 << address),
    {
        1u8 << address
    }

    pub fn has(&self, bit: u8) -> (r: bool)
        requires
            bit < 8,
        ensures
            r == spec_ic32_has(self@, bit),
    {
        self.latch & IC32::get_mask(bit) != 0
    }

    /// Writes one addressed bit of the latch.
    pub fn write(&mut self, address: u8, value: bool)
        requires
            address < 8,
        ensures
            final(self)@ == spec_ic32_write(old(self)@, address, value),
    {
        let mask = IC32::get_mask(address);
        if value {
            self.latch = self.latch | mask;
        } else {
            self.latch = self.latch & !mask;
        }
    }

    /// The hardware-scroll wrap offset for the current C0/C1 bits, as a
    /// one's-complement 2 KB block count to be subtracted with borrow.
    pub fn lookup_mode_adjust(&self) -> (r: u8)
        ensures
            r == spec_mode_adjust(self@),
    {
        match (self.has(IC32_C1_B5), self.has(IC32_C0_B4)) {
            (false, false) => 0b0111,
            (false, true) => 0b1011,
            (true, false) => 0b0101,
            (true, true) => 0b1010,
        }
    }

    /// A human-readable account of one latch write, for diagnostics.
    pub fn get_message(address: u8, value: bool) -> (r: &'static str)
        requires
            address < 8,
    {
        if value {
            match address {
                0 => "Disable sound chip",
                1 => "Disable Read Speech",
                2 => "Disable Write Speech",
                3 => "Enable Keyboard auto scanning",
                4 => "Hardware scrolling - set C0=1",
                5 => "Hardware scrolling - set C1=1",
                6 => "Turn off CAPS LOCK LED",
                _ => "Turn off SHIFT LOCK LED",
            }
        } else {
            match address {
                0 => "Enable sound chip",
                1 => "Enable Read Speech",
                2 => "Enable Write Speech",
                3 => "Disable Keyboard auto scanning",
                4 => "Hardware scrolling - set C0=0",
                5 => "Hardware scrolling - set C1=0",
                6 => "Turn on CAPS LOCK LED",
                _ => "Turn on SHIFT LOCK LED",
            }
        }
    }
}

} // verus!
