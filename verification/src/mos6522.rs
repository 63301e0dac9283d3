//! The 6522 Versatile Interface Adapter: a register file of two I/O ports
//! with direction masks, two down-counting timers with one-shot and
//! continuous modes, the interrupt flag/enable OR-logic, and level-polled
//! control-line sensing.
//!
//! The adapter is generic over its two port connections and over a shared
//! peripheral state handed to both ports (the system VIA's keyboard, latch
//! and vsync line; nothing for the user VIA). Every register access and
//! every clock step is pinned down by a transition function over the
//! adapter's view.

use vstd::prelude::*;

use crate::devices::{Clocked, Device, Signal};
use crate::memory::{Address, MemoryBus};

verus! {

pub const VIA_BIT7: u8 = 0x80;

/// IFR bit 0: active edge on CA2.
pub const IFR_CA2_BIT: u8 = 0x01;

/// IFR bit 1: active edge on CA1.
pub const IFR_CA1_BIT: u8 = 0x02;

/// IFR bit 3: active edge on CB2.
pub const IFR_CB2_BIT: u8 = 0x08;

/// IFR bit 4: active edge on CB1.
pub const IFR_CB1_BIT: u8 = 0x10;

/// IFR bit 5: timer 2 timeout.
pub const IFR_T2_BIT: u8 = 0x20;

/// IFR bit 6: timer 1 timeout.
pub const IFR_T1_BIT: u8 = 0x40;

/// ACR bit 0: latch port A input.
pub const ACR_PA_LATCH_BIT: u8 = 0x01;

/// ACR bit 1: latch port B input.
pub const ACR_PB_LATCH_BIT: u8 = 0x02;

/// ACR bit 5: timer 2 counts PB6 pulses instead of clock ticks.
pub const ACR_T2_PB6_BIT: u8 = 0x20;

/// ACR bit 6: timer 1 free-runs, reloading from its latch.
pub const ACR_T1_REPEAT_BIT: u8 = 0x40;

/// ACR bit 7: timer 1 drives a square wave on PB7.
pub const ACR_T1_PB7_BIT: u8 = 0x80;

/// Peripheral state shared by the two ports of one adapter: the wiring
/// carries its own well-formedness, which every port operation preserves.
pub trait Peripherals: View {
    spec fn inv(&self) -> bool;
}

impl Peripherals for () {
    open spec fn inv(&self) -> bool {
        true
    }
}

/// A port connection: two control-line senses and an 8-bit bus gated by a
/// direction mask, with access to the shared peripheral state `S`.
///
/// `control` may consume shared one-shot signals, so it has a state
/// transition of its own; `read` is side-effect free.
pub trait Port<S: Peripherals>: Sized + View {
    /// The port's own well-formedness.
    spec fn inv(&self) -> bool;

    /// The control-line pair (C1, C2) a poll returns.
    spec fn control_value(p: Self::V, s: S::V) -> (bool, bool);

    /// The port and shared state a control poll leaves behind.
    spec fn control_state(p: Self::V, s: S::V) -> (Self::V, S::V);

    /// The byte a port read returns; bits set in `ddr_mask` are outputs.
    spec fn read_value(p: Self::V, s: S::V, ddr_mask: u8) -> u8;

    /// The port and shared state a port write leaves behind.
    spec fn write_state(p: Self::V, s: S::V, value: u8, ddr_mask: u8) -> (Self::V, S::V);

    fn control(&mut self, shared: &mut S) -> (r: (bool, bool))
        requires
            old(self).inv(),
            old(shared).inv(),
        ensures
            final(self).inv(),
            final(shared).inv(),
            r == Self::control_value(old(self)@, old(shared)@),
            (final(self)@, final(shared)@) == Self::control_state(old(self)@, old(shared)@),
    ;

    fn read(&self, shared: &S, ddr_mask: u8) -> (r: u8)
        requires
            self.inv(),
            shared.inv(),
        ensures
            r == Self::read_value(self@, shared@, ddr_mask),
    ;

    fn write(&mut self, shared: &mut S, value: u8, ddr_mask: u8)
        requires
            old(self).inv(),
            old(shared).inv(),
        ensures
            final(self).inv(),
            final(shared).inv(),
            (final(self)@, final(shared)@) == Self::write_state(
                old(self)@,
                old(shared)@,
                value,
                ddr_mask,
            ),
    ;
}

/// A stand-in port holding one byte: C1 senses value 1, C2 senses value 2;
/// reads return the input bits, writes keep the output bits.
pub struct BogusPort {
    pub value: u8,
}

impl View for BogusPort {
    type V = u8;

    open spec fn view(&self) -> u8 {
        self.value
    }
}

impl BogusPort {
    pub fn new(value: u8) -> (r: BogusPort)
        ensures
            r@ == value,
    {
        BogusPort { value }
    }

    /// Reads the port's pin state directly, as a test probe.
    pub fn read_pins(&self, ddr_mask: u8) -> (r: u8)
        ensures
            r == self.value & !ddr_mask,
    {
        self.value & !ddr_mask
    }
}

impl Port<()> for BogusPort {
    open spec fn inv(&self) -> bool {
        true
    }

    open spec fn control_value(p: u8, s: ()) -> (bool, bool) {
        (p == 1, p == 2)
    }

    open spec fn control_state(p: u8, s: ()) -> (u8, ()) {
        (p, s)
    }

    open spec fn read_value(p: u8, s: (), ddr_mask: u8) -> u8 {
        p & !ddr_mask
    }

    open spec fn write_state(p: u8, s: (), value: u8, ddr_mask: u8) -> (u8, ()) {
        (value & ddr_mask, s)
    }

    fn control(&mut self, shared: &mut ()) -> (r: (bool, bool)) {
        (self.value == 1, self.value == 2)
    }

    fn read(&self, shared: &(), ddr_mask: u8) -> (r: u8) {
        self.value & !ddr_mask
    }

    fn write(&mut self, shared: &mut (), value: u8, ddr_mask: u8) {
        self.value = value & ddr_mask;
    }
}

pub type UserPortA = BogusPort;

pub type UserPortB = BogusPort;

/// The user VIA: the 6522 with nothing connected to its ports.
pub type UserVIA = VIA<(), UserPortA, UserPortB>;

impl Device for UserVIA {
    fn name(&self) -> &'static str {
        "6522 User VIA"
    }
}

/// The 6522 register file, its ports, and the IRQ line it drives.
pub struct VIA<S: Peripherals, PA: Port<S>, PB: Port<S>> {
    /// The interrupt request line, hard-wired by the board's OR logic.
    pub irq: Signal,
    /// Input/output latch for port B.
    pub iorb: u8,
    /// Input/output latch for port A.
    pub iora: u8,
    /// Data direction register for port B: 1 bits are outputs.
    pub ddrb: u8,
    /// Data direction register for port A.
    pub ddra: u8,
    /// Timer 1 latch.
    pub t1l: u16,
    /// Timer 2 latch.
    pub t2l: u16,
    /// Timer 1 down-counter.
    pub t1c: u16,
    /// Timer 2 down-counter.
    pub t2c: u16,
    /// Shift register (storage only in this scope).
    pub sr: u8,
    /// Auxiliary control register.
    pub acr: u8,
    /// Peripheral control register.
    pub pcr: u8,
    /// Interrupt flag register; bit 7 is the OR of the enabled flags.
    pub ifr: u8,
    /// Interrupt enable register.
    pub ier: u8,
    /// Peripheral state shared by both ports.
    pub shared: S,
    pub port_a: PA,
    pub port_b: PB,
    /// Absolute time of the last clock step, in microseconds.
    pub clock_us: u64,
    /// Whether timer 1 reports its next timeout.
    pub t1_active: bool,
    /// Whether timer 2 reports its next timeout.
    pub t2_active: bool,
}

/// Everything a 6522 holds, over the views of its ports and peripherals.
pub struct ViaView<SV, PAV, PBV> {
    pub irq: bool,
    pub iorb: u8,
    pub iora: u8,
    pub ddrb: u8,
    pub ddra: u8,
    pub t1l: u16,
    pub t2l: u16,
    pub t1c: u16,
    pub t2c: u16,
    pub sr: u8,
    pub acr: u8,
    pub pcr: u8,
    pub ifr: u8,
    pub ier: u8,
    pub shared: SV,
    pub pa: PAV,
    pub pb: PBV,
    pub clock: u64,
    pub t1_active: bool,
    pub t2_active: bool,
}

impl<S: Peripherals, PA: Port<S>, PB: Port<S>> View for VIA<S, PA, PB> {
    type V = ViaView<S::V, PA::V, PB::V>;

    open spec fn view(&self) -> ViaView<S::V, PA::V, PB::V> {
        ViaView {
            irq: self.irq@,
            iorb: self.iorb,
            iora: self.iora,
            ddrb: self.ddrb,
            ddra: self.ddra,
            t1l: self.t1l,
            t2l: self.t2l,
            t1c: self.t1c,
            t2c: self.t2c,
            sr: self.sr,
            acr: self.acr,
            pcr: self.pcr,
            ifr: self.ifr,
            ier: self.ier,
            shared: self.shared@,
            pa: self.port_a@,
            pb: self.port_b@,
            clock: self.clock_us,
            t1_active: self.t1_active,
            t2_active: self.t2_active,
        }
    }
}

/// Whether a CA2/CB2 control code marks an independent interrupt: one that
/// reads and writes of the data register do not clear.
pub open spec fn spec_is_independent(cx2_control: u8) -> bool {
    cx2_control == 1 || cx2_control == 3
}

/// Replaces the masked bits of a register with the written bits.
pub open spec fn spec_mask_bits(register: u8, value: u8, mask: u8) -> u8 {
    (register & !mask) | (value & mask)
}

/// Re-evaluates the interrupt OR: if an enabled flag is pending, IFR bit 7
/// is set and the IRQ line raised; otherwise bit 7 is cleared (the line,
/// being a sticky one-shot, stays as it was).
pub open spec fn spec_update_ifr_irq<SV, PAV, PBV>(v: ViaView<SV, PAV, PBV>) -> ViaView<
    SV,
    PAV,
    PBV,
> {
    if (v.ier & 0x7F) & (v.ifr & 0x7F) != 0 {
        ViaView { ifr: v.ifr | 0x80, irq: true, ..v }
    } else {
        ViaView { ifr: v.ifr & 0x7F, ..v }
    }
}

/// Clears the given flag bits, then re-evaluates the interrupt OR.
pub open spec fn spec_clear_ifr_bits<SV, PAV, PBV>(
    v: ViaView<SV, PAV, PBV>,
    bits: u8,
) -> ViaView<SV, PAV, PBV> {
    spec_update_ifr_irq(ViaView { ifr: v.ifr & !bits, ..v })
}

/// Sets the given flag bits, then re-evaluates the interrupt OR.
pub open spec fn spec_set_ifr_bits<SV, PAV, PBV>(v: ViaView<SV, PAV, PBV>, bits: u8) -> ViaView<
    SV,
    PAV,
    PBV,
> {
    spec_update_ifr_irq(ViaView { ifr: v.ifr | bits, ..v })
}

/// The CB1/CB2 flag bits a port B data access clears, depending on whether
/// the PCR marks CB2 as an independent interrupt.
pub open spec fn spec_cb_clear_bits(pcr: u8) -> u8 {
    if spec_is_independent((pcr & 0xE0) >> 5u8) {
        IFR_CB1_BIT
    } else {
        IFR_CB1_BIT | IFR_CB2_BIT
    }
}

/// The CA1/CA2 flag bits a port A data access clears.
pub open spec fn spec_ca_clear_bits(pcr: u8) -> u8 {
    if spec_is_independent((pcr & 0x0E) >> 1u8) {
        IFR_CA1_BIT
    } else {
        IFR_CA1_BIT | IFR_CA2_BIT
    }
}

/// The byte a read of register `reg` (the low 4 address bits) returns.
pub open spec fn spec_via_read_value<S: Peripherals, PA: Port<S>, PB: Port<S>>(
    v: ViaView<S::V, PA::V, PB::V>,
    reg: u8,
) -> u8 {
    match reg {
        0x0 => {
            let outputs = v.iorb & v.ddrb;
            if v.acr & ACR_PB_LATCH_BIT != 0 {
                outputs | (v.iorb & !v.ddrb)
            } else {
                outputs | PB::read_value(v.pb, v.shared, v.ddrb)
            }
        },
        0x1 => if v.acr & ACR_PA_LATCH_BIT != 0 {
            v.iora
        } else {
            PA::read_value(v.pa, v.shared, v.ddra)
        },
        0x2 => v.ddrb,
        0x3 => v.ddra,
        0x4 => (v.t1c & 0x00FF) as u8,
        0x5 => ((v.t1c & 0xFF00) >> 8u16) as u8,
        0x6 => (v.t1l & 0x00FF) as u8,
        0x7 => ((v.t1l & 0xFF00) >> 8u16) as u8,
        0x8 => (v.t2c & 0x00FF) as u8,
        0x9 => ((v.t2c & 0xFF00) >> 8u16) as u8,
        0xA => v.sr,
        0xB => v.acr,
        0xC => v.pcr,
        0xD => v.ifr,
        0xE => v.ier | 0x80,
        _ => PA::read_value(v.pa, v.shared, v.ddra),
    }
}

/// The state a read of register `reg` leaves behind: reads of the data
/// registers clear their control-line flags, reading T1C-low clears the
/// timer 1 flag, and reading T2C-low clears the timer 2 flag and stops
/// its reporting.
pub open spec fn spec_via_read_state<S: Peripherals, PA: Port<S>, PB: Port<S>>(
    v: ViaView<S::V, PA::V, PB::V>,
    reg: u8,
) -> ViaView<S::V, PA::V, PB::V> {
    match reg {
        0x0 => spec_clear_ifr_bits(v, spec_cb_clear_bits(v.pcr)),
        0x1 => spec_clear_ifr_bits(v, spec_ca_clear_bits(v.pcr)),
        0x4 => spec_clear_ifr_bits(v, IFR_T1_BIT),
        0x8 => ViaView { t2_active: false, ..spec_clear_ifr_bits(v, IFR_T2_BIT) },
        _ => v,
    }
}

/// The state a write of `value` to register `reg` leaves behind.
pub open spec fn spec_via_write_state<S: Peripherals, PA: Port<S>, PB: Port<S>>(
    v: ViaView<S::V, PA::V, PB::V>,
    reg: u8,
    value: u8,
) -> ViaView<S::V, PA::V, PB::V> {
    match reg {
        0x0 => {
            let v1 = ViaView { iorb: spec_mask_bits(v.iorb, value, v.ddrb), ..v };
            let v2 = if v1.acr & ACR_PB_LATCH_BIT == 0 {
                let ported = PB::write_state(v1.pb, v1.shared, value, v1.ddrb);
                ViaView { pb: ported.0, shared: ported.1, ..v1 }
            } else {
                v1
            };
            spec_clear_ifr_bits(v2, spec_cb_clear_bits(v2.pcr))
        },
        0x1 => {
            let v1 = ViaView { iora: spec_mask_bits(v.iora, value, v.ddra), ..v };
            let v2 = if v1.acr & ACR_PA_LATCH_BIT == 0 {
                let ported = PA::write_state(v1.pa, v1.shared, value, v1.ddra);
                ViaView { pa: ported.0, shared: ported.1, ..v1 }
            } else {
                v1
            };
            spec_clear_ifr_bits(v2, spec_ca_clear_bits(v2.pcr))
        },
        0x2 => ViaView { ddrb: value, ..v },
        0x3 => ViaView { ddra: value, ..v },
        0x4 => ViaView { t1l: (v.t1l & 0xFF00) | value as u16, ..v },
        0x5 => {
            let latch = (v.t1l & 0x00FF) | ((value as u16) << 8u16);
            let v1 = ViaView { t1l: latch, t1c: latch, ..v };
            let v2 = if v1.acr & ACR_T1_PB7_BIT != 0 {
                let ported = PB::write_state(v1.pb, v1.shared, 0, VIA_BIT7);
                ViaView { pb: ported.0, shared: ported.1, ..v1 }
            } else {
                v1
            };
            ViaView { t1_active: true, ..spec_clear_ifr_bits(v2, IFR_T1_BIT) }
        },
        0x6 => ViaView { t1l: (v.t1l & 0xFF00) | value as u16, ..v },
        0x7 => {
            let v1 = ViaView { t1l: (v.t1l & 0x00FF) | ((value as u16) << 8u16), ..v };
            ViaView { t1_active: false, ..spec_clear_ifr_bits(v1, IFR_T1_BIT) }
        },
        0x8 => ViaView { t2l: (v.t2l & 0xFF00) | value as u16, ..v },
        0x9 => {
            let latch = (v.t2l & 0x00FF) | ((value as u16) << 8u16);
            let v1 = ViaView { t2l: latch, t2c: latch, ..v };
            ViaView { t2_active: true, ..spec_clear_ifr_bits(v1, IFR_T2_BIT) }
        },
        0xA => ViaView { sr: value, ..v },
        0xB => ViaView { acr: value, ..v },
        0xC => ViaView { pcr: value, ..v },
        0xD => spec_clear_ifr_bits(v, value & 0x7F),
        0xE => {
            let mask = value & 0x7F;
            let ier1 = if value & 0x80 != 0 {
                v.ier | mask
            } else {
                v.ier & !mask
            };
            spec_update_ifr_irq(ViaView { ier: ier1, ..v })
        },
        _ => {
            let ported = PA::write_state(v.pa, v.shared, value, v.ddra);
            spec_update_ifr_irq(ViaView { pa: ported.0, shared: ported.1, ..v })
        },
    }
}

/// One clock step: the control lines are polled and level-sensed into the
/// flag register; timer 1 counts down, and on timeout raises its flag,
/// reloads from its latch (continuous mode) or free-runs from 0xFFFF
/// (one-shot), and toggles PB7 if so configured; timer 2, in timed mode,
/// raises its flag once on timeout and keeps counting down, wrapping.
pub open spec fn spec_via_step<S: Peripherals, PA: Port<S>, PB: Port<S>>(
    v: ViaView<S::V, PA::V, PB::V>,
    us: u64,
) -> ViaView<S::V, PA::V, PB::V> {
    let ticks = (us - v.clock) as u16;
    let v0 = ViaView { clock: us, ..v };
    let lines = PA::control_value(v0.pa, v0.shared);
    let polled = PA::control_state(v0.pa, v0.shared);
    let v1 = ViaView { pa: polled.0, shared: polled.1, ..v0 };
    let v2 = if lines.0 {
        spec_set_ifr_bits(v1, IFR_CA1_BIT)
    } else {
        v1
    };
    let v3 = if lines.1 {
        spec_set_ifr_bits(v2, IFR_CA2_BIT)
    } else {
        v2
    };
    let v4 = if v3.t1_active {
        if v3.t1c <= ticks {
            let difference = (ticks - v3.t1c) as u16;
            let va = spec_set_ifr_bits(v3, IFR_T1_BIT);
            let vb = if va.acr & ACR_T1_REPEAT_BIT != 0 {
                ViaView { t1c: (va.t1l - difference) as u16, ..va }
            } else {
                ViaView { t1_active: false, t1c: (0xFFFF - difference) as u16, ..va }
            };
            spec_update_port_b7::<S, PA, PB>(vb)
        } else {
            ViaView { t1c: (v3.t1c - ticks) as u16, ..v3 }
        }
    } else {
        v3
    };
    if v4.acr & ACR_T2_PB6_BIT == 0 {
        let v5 = if v4.t2c <= ticks && v4.t2_active {
            spec_set_ifr_bits(ViaView { t2_active: false, ..v4 }, IFR_T2_BIT)
        } else {
            v4
        };
        ViaView { t2c: v5.t2c.wrapping_sub(ticks), ..v5 }
    } else {
        v4
    }
}

/// Toggles bit 7 of port B's output, if the ACR drives a square wave.
pub open spec fn spec_update_port_b7<S: Peripherals, PA: Port<S>, PB: Port<S>>(
    v: ViaView<S::V, PA::V, PB::V>,
) -> ViaView<S::V, PA::V, PB::V> {
    if v.acr & ACR_T1_PB7_BIT != 0 {
        let pin = PB::read_value(v.pb, v.shared, !VIA_BIT7);
        let ported = PB::write_state(v.pb, v.shared, pin ^ VIA_BIT7, VIA_BIT7);
        ViaView { pb: ported.0, shared: ported.1, ..v }
    } else {
        v
    }
}

impl<S: Peripherals, PA: Port<S>, PB: Port<S>> VIA<S, PA, PB> {
    /// Both ports and the shared peripherals well-formed.
    pub open spec fn wf(&self) -> bool {
        self.shared.inv() && self.port_a.inv() && self.port_b.inv()
    }

    /// A 6522 wired to the given shared peripherals, all registers clear.
    pub fn with_shared(shared: S, port_a: PA, port_b: PB) -> (r: VIA<S, PA, PB>)
        requires
            shared.inv(),
            port_a.inv(),
            port_b.inv(),
        ensures
            r.wf(),
            r@ == (ViaView {
                irq: false,
                iorb: 0u8,
                iora: 0u8,
                ddrb: 0u8,
                ddra: 0u8,
                t1l: 0u16,
                t2l: 0u16,
                t1c: 0u16,
                t2c: 0u16,
                sr: 0u8,
                acr: 0u8,
                pcr: 0u8,
                ifr: 0u8,
                ier: 0u8,
                shared: shared@,
                pa: port_a@,
                pb: port_b@,
                clock: 0u64,
                t1_active: false,
                t2_active: false,
            }),
    {
        VIA {
            irq: Signal::new(),
            iorb: 0,
            iora: 0,
            ddrb: 0,
            ddra: 0,
            t1l: 0,
            t2l: 0,
            t1c: 0,
            t2c: 0,
            sr: 0,
            acr: 0,
            pcr: 0,
            ifr: 0,
            ier: 0,
            shared,
            port_a,
            port_b,
            clock_us: 0,
            t1_active: false,
            t2_active: false,
        }
    }

    /// Re-evaluates the interrupt OR against the current IFR and IER.
    pub fn update_ifr_irq(&mut self)
        requires
            old(self).wf(),
        ensures
            final(self).wf(),
            final(self)@ == spec_update_ifr_irq(old(self)@),
    {
        let ier_mask = self.ier & 0x7F;
        let ifr_mask = self.ifr & 0x7F;
        if ier_mask & ifr_mask != 0 {
            self.ifr = self.ifr | 0x80;
            self.irq.raise();
        } else {
            self.ifr = self.ifr & 0x7F;
        }
    }

    fn clear_ifr_bits(&mut self, bits: u8)
        requires
            old(self).wf(),
        ensures
            final(self).wf(),
            final(self)@ == spec_clear_ifr_bits(old(self)@, bits),
    {
        self.ifr = self.ifr & !bits;
        self.update_ifr_irq();
    }

    fn set_ifr_bits(&mut self, bits: u8)
        requires
            old(self).wf(),
        ensures
            final(self).wf(),
            final(self)@ == spec_set_ifr_bits(old(self)@, bits),
    {
        self.ifr = self.ifr | bits;
        self.update_ifr_irq();
    }

    fn update_port_b7(&mut self)
        requires
            old(self).wf(),
        ensures
            final(self).wf(),
            final(self)@ == spec_update_port_b7::<S, PA, PB>(old(self)@),
    {
        if self.acr & ACR_T1_PB7_BIT != 0 {
            let pin = self.port_b.read(&self.shared, !VIA_BIT7);
            self.port_b.write(&mut self.shared, pin ^ VIA_BIT7, VIA_BIT7);
        }
    }

    /// Senses and consumes the IRQ line.
    pub fn sense_irq(&mut self) -> (r: bool)
        ensures
            r == old(self)@.irq,
            final(self)@ == (ViaView { irq: false, ..old(self)@ }),
    {
        self.irq.sense()
    }
}

impl<PA: Port<()>, PB: Port<()>> VIA<(), PA, PB> {
    /// A free-standing 6522 with no shared peripherals.
    pub fn new(port_a: PA, port_b: PB) -> (r: VIA<(), PA, PB>)
        requires
            port_a.inv(),
            port_b.inv(),
        ensures
            r.wf(),
            r@ == (ViaView {
                irq: false,
                iorb: 0u8,
                iora: 0u8,
                ddrb: 0u8,
                ddra: 0u8,
                t1l: 0u16,
                t2l: 0u16,
                t1c: 0u16,
                t2c: 0u16,
                sr: 0u8,
                acr: 0u8,
                pcr: 0u8,
                ifr: 0u8,
                ier: 0u8,
                shared: (),
                pa: port_a@,
                pb: port_b@,
                clock: 0u64,
                t1_active: false,
                t2_active: false,
            }),
    {
        VIA::with_shared((), port_a, port_b)
    }
}

impl<S: Peripherals, PA: Port<S>, PB: Port<S>> MemoryBus for VIA<S, PA, PB> {
    open spec fn inv(&self) -> bool {
        self.wf()
    }

    open spec fn read_value(v: ViaView<S::V, PA::V, PB::V>, address: u16) -> u8 {
        spec_via_read_value::<S, PA, PB>(v, (address & 0x000F) as u8)
    }

    open spec fn read_state(v: ViaView<S::V, PA::V, PB::V>, address: u16) -> ViaView<
        S::V,
        PA::V,
        PB::V,
    > {
        spec_via_read_state::<S, PA, PB>(v, (address & 0x000F) as u8)
    }

    open spec fn write_state(v: ViaView<S::V, PA::V, PB::V>, address: u16, value: u8) -> ViaView<
        S::V,
        PA::V,
        PB::V,
    > {
        spec_via_write_state::<S, PA, PB>(v, (address & 0x000F) as u8, value)
    }

    fn read(&mut self, address: Address) -> (r: u8) {
        let reg: u8 = (address.to_u16() & 0x000F) as u8;
        match reg {
            0x0 => {
                self.clear_ifr_bits(cb_clear_bits(self.pcr));
                let mut irb: u8 = self.iorb & self.ddrb;
                if self.acr & ACR_PB_LATCH_BIT != 0 {
                    irb = irb | (self.iorb & !self.ddrb);
                } else {
                    irb = irb | self.port_b.read(&self.shared, self.ddrb);
                }
                irb
            },
            0x1 => {
                self.clear_ifr_bits(ca_clear_bits(self.pcr));
                if self.acr & ACR_PA_LATCH_BIT != 0 {
                    self.iora
                } else {
                    self.port_a.read(&self.shared, self.ddra)
                }
            },
            0x2 => self.ddrb,
            0x3 => self.ddra,
            0x4 => {
                self.clear_ifr_bits(IFR_T1_BIT);
                (self.t1c & 0x00FF) as u8
            },
            0x5 => ((self.t1c & 0xFF00) >> 8u16) as u8,
            0x6 => (self.t1l & 0x00FF) as u8,
            0x7 => ((self.t1l & 0xFF00) >> 8u16) as u8,
            0x8 => {
                self.clear_ifr_bits(IFR_T2_BIT);
                self.t2_active = false;
                (self.t2c & 0x00FF) as u8
            },
            0x9 => ((self.t2c & 0xFF00) >> 8u16) as u8,
            0xA => self.sr,
            0xB => self.acr,
            0xC => self.pcr,
            0xD => self.ifr,
            0xE => self.ier | 0x80,
            _ => self.port_a.read(&self.shared, self.ddra),
        }
    }

    fn write(&mut self, address: Address, value: u8) {
        let reg: u8 = (address.to_u16() & 0x000F) as u8;
        match reg {
            0x0 => {
                self.iorb = mask_bits(self.iorb, value, self.ddrb);
                if self.acr & ACR_PB_LATCH_BIT == 0 {
                    self.port_b.write(&mut self.shared, value, self.ddrb);
                }
                self.clear_ifr_bits(cb_clear_bits(self.pcr));
            },
            0x1 => {
                self.iora = mask_bits(self.iora, value, self.ddra);
                if self.acr & ACR_PA_LATCH_BIT == 0 {
                    self.port_a.write(&mut self.shared, value, self.ddra);
                }
                self.clear_ifr_bits(ca_clear_bits(self.pcr));
            },
            0x2 => {
                self.ddrb = value;
            },
            0x3 => {
                self.ddra = value;
            },
            0x4 => {
                // write into the low order latch, as the 6522 routes this
                // register's writes
                self.t1l = (self.t1l & 0xFF00) | value as u16;
            },
            0x5 => {
                // write into the high order latch and copy the latch into
                // the counter, (re)starting it
                self.t1l = (self.t1l & 0x00FF) | ((value as u16) << 8u16);
                self.t1c = self.t1l;
                if self.acr & ACR_T1_PB7_BIT != 0 {
                    // one shot: pull PB7 low
                    self.port_b.write(&mut self.shared, 0, VIA_BIT7);
                }
                self.clear_ifr_bits(IFR_T1_BIT);
                self.t1_active = true;
            },
            0x6 => {
                self.t1l = (self.t1l & 0xFF00) | value as u16;
            },
            0x7 => {
                self.t1l = (self.t1l & 0x00FF) | ((value as u16) << 8u16);
                self.clear_ifr_bits(IFR_T1_BIT);
                self.t1_active = false;
            },
            0x8 => {
                self.t2l = (self.t2l & 0xFF00) | value as u16;
            },
            0x9 => {
                self.t2l = (self.t2l & 0x00FF) | ((value as u16) << 8u16);
                self.t2c = self.t2l;
                self.clear_ifr_bits(IFR_T2_BIT);
                self.t2_active = true;
            },
            0xA => {
                self.sr = value;
            },
            0xB => {
                self.acr = value;
            },
            0xC => {
                self.pcr = value;
            },
            0xD => {
                // writing a one into a flag bit clears it; bit 7 is not
                // directly writable
                self.clear_ifr_bits(value & 0x7F);
            },
            0xE => {
                // bit 7 of the written value selects set (one) or clear
                // (zero) mode for the other seven enable bits
                let mask = value & 0x7F;
                if value & 0x80 != 0 {
                    self.ier = self.ier | mask;
                } else {
                    self.ier = self.ier & !mask;
                }
                self.update_ifr_irq();
            },
            _ => {
                self.port_a.write(&mut self.shared, value, self.ddra);
                self.update_ifr_irq();
            },
        }
    }

    fn peek(&self, address: Address) -> (r: u8) {
        let reg: u8 = (address.to_u16() & 0x000F) as u8;
        match reg {
            0x0 => {
                let outputs = self.iorb & self.ddrb;
                if self.acr & ACR_PB_LATCH_BIT != 0 {
                    outputs | (self.iorb & !self.ddrb)
                } else {
                    outputs | self.port_b.read(&self.shared, self.ddrb)
                }
            },
            0x1 => if self.acr & ACR_PA_LATCH_BIT != 0 {
                self.iora
            } else {
                self.port_a.read(&self.shared, self.ddra)
            },
            0x2 => self.ddrb,
            0x3 => self.ddra,
            0x4 => (self.t1c & 0x00FF) as u8,
            0x5 => ((self.t1c & 0xFF00) >> 8u16) as u8,
            0x6 => (self.t1l & 0x00FF) as u8,
            0x7 => ((self.t1l & 0xFF00) >> 8u16) as u8,
            0x8 => (self.t2c & 0x00FF) as u8,
            0x9 => ((self.t2c & 0xFF00) >> 8u16) as u8,
            0xA => self.sr,
            0xB => self.acr,
            0xC => self.pcr,
            0xD => self.ifr,
            0xE => self.ier | 0x80,
            _ => self.port_a.read(&self.shared, self.ddra),
        }
    }
}

/// The CB flag bits a port B access clears (see `spec_cb_clear_bits`).
fn cb_clear_bits(pcr: u8) -> (r: u8)
    ensures
        r == spec_cb_clear_bits(pcr),
        r & 0x80 == 0,
{
    proof {
        assert((pcr & 0xE0) >> 5u8 < 8) by (bit_vector);
        assert(IFR_CB1_BIT & 0x80 == 0 && (IFR_CB1_BIT | IFR_CB2_BIT) & 0x80 == 0) by (bit_vector);
    }
    let cb2_control = (pcr & 0xE0) >> 5u8;
    if cb2_control == 1 || cb2_control == 3 {
        IFR_CB1_BIT
    } else {
        IFR_CB1_BIT | IFR_CB2_BIT
    }
}

/// The CA flag bits a port A access clears (see `spec_ca_clear_bits`).
fn ca_clear_bits(pcr: u8) -> (r: u8)
    ensures
        r == spec_ca_clear_bits(pcr),
{
    let ca2_control = (pcr & 0x0E) >> 1u8;
    if ca2_control == 1 || ca2_control == 3 {
        IFR_CA1_BIT
    } else {
        IFR_CA1_BIT | IFR_CA2_BIT
    }
}

/// Replaces the masked bits of a register with the written bits.
fn mask_bits(register: u8, value: u8, mask: u8) -> (r: u8)
    ensures
        r == spec_mask_bits(register, value, mask),
{
    (register & !mask) | (value & mask)
}

impl<S: Peripherals, PA: Port<S>, PB: Port<S>> Clocked for VIA<S, PA, PB> {
    open spec fn clocked_inv(&self) -> bool {
        self.wf()
    }

    open spec fn clock(&self) -> u64 {
        self.clock_us
    }

    /// A step may cover at most 65535 microseconds; and a continuous-mode
    /// timer 1 may not be overshot past its latch, which would lose the
    /// periodic phase.
    open spec fn stride_ok(&self, us: u64) -> bool {
        let ticks = us - self.clock_us;
        &&& ticks < 0x10000
        &&& (self.t1_active && self.acr & ACR_T1_REPEAT_BIT != 0 && self.t1c <= ticks
            ==> ticks - self.t1c <= self.t1l)
    }

    open spec fn step_state(v: ViaView<S::V, PA::V, PB::V>, us: u64) -> ViaView<
        S::V,
        PA::V,
        PB::V,
    > {
        spec_via_step::<S, PA, PB>(v, us)
    }

    fn step(&mut self, us: u64) {
        let ticks: u16 = (us - self.clock_us) as u16;
        self.clock_us = us;
        let (ca1, ca2) = self.port_a.control(&mut self.shared);
        if ca1 {
            self.set_ifr_bits(IFR_CA1_BIT);
        }
        if ca2 {
            self.set_ifr_bits(IFR_CA2_BIT);
        }
        if self.t1_active {
            if self.t1c <= ticks {
                let difference = ticks - self.t1c;
                self.set_ifr_bits(IFR_T1_BIT);
                if self.acr & ACR_T1_REPEAT_BIT != 0 {
                    // continuous: reload from the latch, keeping the
                    // overshoot
                    self.t1c = self.t1l - difference;
                } else {
                    // one shot: free-run from 0xFFFF
                    self.t1_active = false;
                    self.t1c = 0xFFFF - difference;
                }
                self.update_port_b7();
            } else {
                self.t1c = self.t1c - ticks;
            }
        }
        if self.acr & ACR_T2_PB6_BIT == 0 {
            // timed-interrupt mode: report the first timeout, then keep
            // counting down from the wraparound
            if self.t2c <= ticks && self.t2_active {
                self.t2_active = false;
                self.set_ifr_bits(IFR_T2_BIT);
            }
            self.t2c = self.t2c.wrapping_sub(ticks);
        }
    }
}

/// The interrupt OR-wiring law: re-evaluating the flag/enable logic
/// asserts the IRQ line and IFR bit 7 exactly when some enabled flag is
/// pending; with no enabled flag pending, bit 7 reads clear and the line
/// is left as it was (it is a sticky one-shot, consumed only by its
/// reader's sense).
pub proof fn lemma_irq_or_wiring<SV, PAV, PBV>(v: ViaView<SV, PAV, PBV>)
    ensures
        (v.ier & 0x7F) & (v.ifr & 0x7F) != 0 ==> {
            &&& spec_update_ifr_irq(v).irq
            &&& spec_update_ifr_irq(v).ifr & 0x80 != 0
        },
        (v.ier & 0x7F) & (v.ifr & 0x7F) == 0 ==> {
            &&& spec_update_ifr_irq(v).irq == v.irq
            &&& spec_update_ifr_irq(v).ifr & 0x80 == 0
        },
{
    let ifr = v.ifr;
    assert((ifr | 0x80) & 0x80 != 0) by (bit_vector);
    assert((ifr & 0x7F) & 0x80 == 0) by (bit_vector);
}

/// Clearing every contributing flag source de-asserts the interrupt
/// output: once the masked flags are gone, bit 7 reads clear and the line
/// is not raised again.
pub proof fn lemma_irq_deasserts<SV, PAV, PBV>(v: ViaView<SV, PAV, PBV>, bits: u8)
    requires
        (v.ier & 0x7F) & ((v.ifr & !bits) & 0x7F) == 0,
    ensures
        spec_clear_ifr_bits(v, bits).ifr & 0x80 == 0,
        spec_clear_ifr_bits(v, bits).irq == v.irq,
{
    let cleared = v.ifr & !bits;
    assert((cleared & 0x7F) & 0x80 == 0) by (bit_vector);
}

/// Timer 1 periodicity: in continuous mode, from a freshly (re)loaded
/// counter equal to the latch, stepping exactly one period raises the
/// timer 1 flag (and the IRQ line, when enabled) and reloads the counter
/// to the same latch - so the timeout recurs at N, 2N, 3N, ... ticks.
pub proof fn lemma_t1_periodic(v: ViaView<(), u8, u8>, us: u64)
    requires
        v.acr == ACR_T1_REPEAT_BIT,  // free-run; no latching, PB7 or pulse counting
        v.pa != 1 && v.pa != 2,  // the stand-in port senses no control lines
        v.t1_active,
        v.t1c == v.t1l,
        v.t1c > 0,
        v.t2_active == false,
        v.clock < us,
        us - v.clock == v.t1c,
    ensures
        ({
            let s = spec_via_step::<(), BogusPort, BogusPort>(v, us);
            &&& s.ifr & IFR_T1_BIT != 0
            &&& s.t1c == v.t1l
            &&& s.t1_active
            &&& s.t1l == v.t1l
            &&& s.acr == v.acr
            &&& s.ier == v.ier
            &&& s.pa == v.pa
            &&& s.t2_active == false
            &&& s.clock == us
            &&& (v.ier & IFR_T1_BIT != 0 ==> s.irq && s.ifr & 0x80 != 0)
        }),
{
    let ifr = v.ifr;
    let ier = v.ier;
    assert(ACR_T1_REPEAT_BIT & ACR_T1_PB7_BIT == 0) by (bit_vector);
    assert(ACR_T1_REPEAT_BIT & ACR_T2_PB6_BIT == 0) by (bit_vector);
    assert(ACR_T1_REPEAT_BIT & ACR_T1_REPEAT_BIT != 0) by (bit_vector);
    assert(((ifr | IFR_T1_BIT) | 0x80) & IFR_T1_BIT != 0) by (bit_vector);
    assert(((ifr | IFR_T1_BIT) & 0x7F) & IFR_T1_BIT != 0) by (bit_vector);
    assert(ier & IFR_T1_BIT != 0 ==> (ier & 0x7F) & ((ifr | IFR_T1_BIT) & 0x7F) != 0)
        by (bit_vector);
    assert(((ifr | IFR_T1_BIT) | 0x80) & 0x80 != 0) by (bit_vector);
}

/// The PB7 square wave: with the square-wave and free-run bits set, each
/// timer 1 period toggles bit 7 of port B's output and reloads the
/// counter - one toggle per period, so the output alternates at N, 2N,
/// 3N, ... ticks.
pub proof fn lemma_t1_square_wave(v: ViaView<(), u8, u8>, us: u64)
    requires
        v.acr == ACR_T1_PB7_BIT | ACR_T1_REPEAT_BIT,
        v.pa != 1 && v.pa != 2,
        v.t1_active,
        v.t1c == v.t1l,
        v.t1c > 0,
        v.t2_active == false,
        v.clock < us,
        us - v.clock == v.t1c,
    ensures
        ({
            let s = spec_via_step::<(), BogusPort, BogusPort>(v, us);
            &&& s.pb & 0x80 == (v.pb & 0x80) ^ 0x80
            &&& s.t1c == v.t1l
            &&& s.t1_active
            &&& s.t1l == v.t1l
            &&& s.acr == v.acr
            &&& s.ier == v.ier
            &&& s.pa == v.pa
            &&& s.t2_active == false
            &&& s.clock == us
            &&& s.ifr & IFR_T1_BIT != 0
            &&& (v.ier & IFR_T1_BIT != 0 ==> s.irq && s.ifr & 0x80 != 0)
        }),
{
    let ifr = v.ifr;
    let pb = v.pb;
    let ier = v.ier;
    assert(ier & IFR_T1_BIT != 0 ==> (ier & 0x7F) & ((ifr | IFR_T1_BIT) & 0x7F) != 0)
        by (bit_vector);
    assert(((ifr | IFR_T1_BIT) | 0x80) & 0x80 != 0) by (bit_vector);
    assert((ACR_T1_PB7_BIT | ACR_T1_REPEAT_BIT) & ACR_T1_PB7_BIT != 0) by (bit_vector);
    assert((ACR_T1_PB7_BIT | ACR_T1_REPEAT_BIT) & ACR_T2_PB6_BIT == 0) by (bit_vector);
    assert((ACR_T1_PB7_BIT | ACR_T1_REPEAT_BIT) & ACR_T1_REPEAT_BIT != 0) by (bit_vector);
    assert(((ifr | IFR_T1_BIT) | 0x80) & IFR_T1_BIT != 0) by (bit_vector);
    assert(((ifr | IFR_T1_BIT) & 0x7F) & IFR_T1_BIT != 0) by (bit_vector);
    assert((((pb & !(!VIA_BIT7)) ^ VIA_BIT7) & VIA_BIT7) & 0x80 == (pb & 0x80) ^ 0x80)
        by (bit_vector);
}

/// The adapter's state after `k` further clock steps, one per timer 1
/// period of `period` microseconds.
pub open spec fn spec_via_step_periods<S: Peripherals, PA: Port<S>, PB: Port<S>>(
    v: ViaView<S::V, PA::V, PB::V>,
    period: u16,
    k: nat,
) -> ViaView<S::V, PA::V, PB::V>
    decreases k,
{
    if k == 0 {
        v
    } else {
        let prev = spec_via_step_periods::<S, PA, PB>(v, period, (k - 1) as nat);
        spec_via_step::<S, PA, PB>(prev, (prev.clock + period) as u64)
    }
}

/// Steps that end strictly inside a running timer 1 period raise nothing:
/// the interrupt flags, the IRQ line and both ports are untouched; only
/// the clock advances, timer 1 counts down by the elapsed ticks, and
/// timer 2 wraps on.
pub proof fn lemma_t1_quiet_step(v: ViaView<(), u8, u8>, us: u64)
    requires
        v.pa != 1 && v.pa != 2,  // the stand-in port senses no control lines
        v.acr & ACR_T2_PB6_BIT == 0,
        v.t1_active,
        v.t2_active == false,
        v.clock < us,
        us - v.clock < v.t1c,
    ensures
        spec_via_step::<(), BogusPort, BogusPort>(v, us) == (ViaView {
            clock: us,
            t1c: (v.t1c - (us - v.clock)) as u16,
            t2c: v.t2c.wrapping_sub((us - v.clock) as u16),
            ..v
        }),
{
}

/// Timer 1 periodicity over any number of periods: in continuous mode,
/// starting from a freshly loaded counter equal to the latch, each of the
/// `k` period-long steps raises the timer 1 flag (and the IRQ line, when
/// enabled) and reloads the counter to the latch, so the timeout recurs
/// at exactly N, 2N, ..., kN microseconds after the load.
pub proof fn lemma_t1_periodic_periods(v: ViaView<(), u8, u8>, k: nat)
    requires
        v.acr == ACR_T1_REPEAT_BIT,
        v.pa != 1 && v.pa != 2,
        v.t1_active,
        v.t1c == v.t1l,
        v.t1c > 0,
        v.t2_active == false,
        v.clock + k * v.t1c <= u64::MAX,
    ensures
        ({
            let s = spec_via_step_periods::<(), BogusPort, BogusPort>(v, v.t1c, k);
            &&& s.t1c == v.t1l
            &&& s.t1l == v.t1l
            &&& s.t1_active
            &&& s.acr == v.acr
            &&& s.ier == v.ier
            &&& s.pa == v.pa
            &&& s.t2_active == false
            &&& s.clock == v.clock + k * v.t1c
            &&& (k > 0 ==> s.ifr & IFR_T1_BIT != 0)
            &&& (k > 0 && v.ier & IFR_T1_BIT != 0 ==> s.irq && s.ifr & 0x80 != 0)
        }),
    decreases k,
{
    if k > 0 {
        assert((k - 1) * v.t1c + v.t1c == k * v.t1c) by (nonlinear_arith)
            requires
                k >= 1,
        ;
        lemma_t1_periodic_periods(v, (k - 1) as nat);
        let prev = spec_via_step_periods::<(), BogusPort, BogusPort>(v, v.t1c, (k - 1) as nat);
        assert(prev.clock + v.t1c == v.clock + k * v.t1c);
        assert(prev.clock + v.t1c <= u64::MAX);
        lemma_t1_periodic(prev, (prev.clock + v.t1c) as u64);
    } else {
        assert(k * v.t1c == 0) by (nonlinear_arith)
            requires
                k == 0,
        ;
    }
}

/// Whether bit 7 has been toggled an odd number of times.
pub open spec fn spec_bit7_after_toggles(pb: u8, k: nat) -> u8 {
    if k % 2 == 0 {
        pb & 0x80
    } else {
        (pb & 0x80) ^ 0x80
    }
}

/// The PB7 square wave over any number of periods: with the square-wave
/// and free-run bits set, bit 7 of port B's output alternates exactly
/// once per timer 1 period, holding over all `k` consecutive toggles.
pub proof fn lemma_t1_square_wave_periods(v: ViaView<(), u8, u8>, k: nat)
    requires
        v.acr == ACR_T1_PB7_BIT | ACR_T1_REPEAT_BIT,
        v.pa != 1 && v.pa != 2,
        v.t1_active,
        v.t1c == v.t1l,
        v.t1c > 0,
        v.t2_active == false,
        v.clock + k * v.t1c <= u64::MAX,
    ensures
        ({
            let s = spec_via_step_periods::<(), BogusPort, BogusPort>(v, v.t1c, k);
            &&& s.pb & 0x80 == spec_bit7_after_toggles(v.pb, k)
            &&& s.t1c == v.t1l
            &&& s.t1l == v.t1l
            &&& s.t1_active
            &&& s.acr == v.acr
            &&& s.ier == v.ier
            &&& s.pa == v.pa
            &&& s.t2_active == false
            &&& s.clock == v.clock + k * v.t1c
            &&& (k > 0 ==> s.ifr & IFR_T1_BIT != 0)
        }),
    decreases k,
{
    if k > 0 {
        assert((k - 1) * v.t1c + v.t1c == k * v.t1c) by (nonlinear_arith)
            requires
                k >= 1,
        ;
        lemma_t1_square_wave_periods(v, (k - 1) as nat);
        let prev = spec_via_step_periods::<(), BogusPort, BogusPort>(v, v.t1c, (k - 1) as nat);
        assert(prev.clock + v.t1c == v.clock + k * v.t1c);
        assert(prev.clock + v.t1c <= u64::MAX);
        lemma_t1_square_wave(prev, (prev.clock + v.t1c) as u64);
        let pb = v.pb;
        assert(((pb & 0x80) ^ 0x80) ^ 0x80 == pb & 0x80) by (bit_vector);
        assert((pb & 0x80) & 0x80 == pb & 0x80) by (bit_vector);
        assert(((pb & 0x80) ^ 0x80) & 0x80 == (pb & 0x80) ^ 0x80) by (bit_vector);
    } else {
        assert(k * v.t1c == 0) by (nonlinear_arith)
            requires
                k == 0,
        ;
    }
}

} // verus!
