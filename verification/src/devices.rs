//! Shared device plumbing: the sticky one-shot interrupt signal, the
//! clock-driven device contract, and device naming for diagnostics.

use vstd::prelude::*;

verus! {

/// A sticky one-shot boolean: raised by an edge source, consumed (reset to
/// false) by the single reader that senses it. Used for the IRQ-line OR
/// wiring between interrupt sources and for the CRTC vertical sync line.
pub struct Signal {
    raised: bool,
}

impl View for Signal {
    type V = bool;

    closed spec fn view(&self) -> bool {
        self.raised
    }
}

impl Signal {
    pub fn new() -> (r: Signal)
        ensures
            r@ == false,
    {
        Signal { raised: false }
    }

    /// Asserts the signal; it stays raised until sensed.
    pub fn raise(&mut self)
        ensures
            final(self)@ == true,
    {
        self.raised = true;
    }

    /// Senses and consumes: returns whether the signal was raised, and
    /// lowers it, so a second sense without an intervening raise is false.
    pub fn sense(&mut self) -> (r: bool)
        ensures
            r == old(self)@,
            final(self)@ == false,
    {
        let r = self.raised;
        self.raised = false;
        r
    }
}

/// A device driven by the shared microsecond clock. The caller hands in
/// strictly increasing absolute times; each implementor states its own
/// stride bound and its whole step transition over its view.
pub trait Clocked: Sized + View {
    /// The implementor's well-formedness invariant.
    spec fn clocked_inv(&self) -> bool;

    /// The absolute time of the last step.
    spec fn clock(&self) -> u64;

    /// Whether a step to absolute time `us` is within the device's stride.
    spec fn stride_ok(&self, us: u64) -> bool;

    /// The state a step to absolute time `us` leaves behind.
    spec fn step_state(v: Self::V, us: u64) -> Self::V;

    fn step(&mut self, us: u64)
        requires
            old(self).clocked_inv(),
            old(self).clock() < us,
            old(self).stride_ok(us),
        ensures
            final(self).clocked_inv(),
            final(self).clock() == us,
            final(self)@ == Self::step_state(old(self)@, us),
    ;
}

/// Diagnostic naming for addressable devices.
pub trait Device {
    fn name(&self) -> &'static str;
}

/// The SHEILA device page (0xFE): dispatches each access by its offset's
/// top nibble to the CRT controller, the ACIA stub, the System VIA, the
/// User VIA, or the floating-bus stub. Unmapped ranges read back zero, as
/// the MOS ROM's probing code expects of real hardware.
pub struct SheilaPage {
    pub crtc: crate::mc6845::CRTC,
    pub system_via: crate::system_via::SystemVIA,
    pub user_via: crate::mos6522::UserVIA,
}

/// What the SHEILA page holds.
pub struct SheilaView {
    pub crtc: crate::mc6845::CrtcView,
    pub system_via: crate::mos6522::ViaView<crate::system_via::SystemSharedView, u8, u8>,
    pub user_via: crate::mos6522::ViaView<(), u8, u8>,
}

impl View for SheilaPage {
    type V = SheilaView;

    open spec fn view(&self) -> SheilaView {
        SheilaView { crtc: self.crtc@, system_via: self.system_via@, user_via: self.user_via@ }
    }
}

/// Which device a SHEILA offset selects: the top nibble of the low byte.
pub open spec fn spec_sheila_select(address: u16) -> u8 {
    (address & 0x00F0) as u8
}

/// The byte a SHEILA read returns: the VIAs answer in their ranges; the
/// CRT controller, ACIA stub and unmapped ranges read back zero.
pub open spec fn spec_sheila_read_value(v: SheilaView, address: u16) -> u8 {
    let sel = spec_sheila_select(address);
    if sel == 0x40 || sel == 0x50 {
        crate::mos6522::spec_via_read_value::<
            crate::system_via::SystemShared,
            crate::system_via::SystemPortA,
            crate::system_via::SystemPortB,
        >(v.system_via, (address & 0x000F) as u8)
    } else if sel == 0x60 || sel == 0x70 {
        crate::mos6522::spec_via_read_value::<
            (),
            crate::mos6522::UserPortA,
            crate::mos6522::UserPortB,
        >(v.user_via, (address & 0x000F) as u8)
    } else {
        0
    }
}

/// The state a SHEILA read leaves behind: only the VIAs have read side
/// effects.
pub open spec fn spec_sheila_read_state(v: SheilaView, address: u16) -> SheilaView {
    let sel = spec_sheila_select(address);
    if sel == 0x40 || sel == 0x50 {
        SheilaView {
            system_via: crate::mos6522::spec_via_read_state::<
                crate::system_via::SystemShared,
                crate::system_via::SystemPortA,
                crate::system_via::SystemPortB,
            >(v.system_via, (address & 0x000F) as u8),
            ..v
        }
    } else if sel == 0x60 || sel == 0x70 {
        SheilaView {
            user_via: crate::mos6522::spec_via_read_state::<
                (),
                crate::mos6522::UserPortA,
                crate::mos6522::UserPortB,
            >(v.user_via, (address & 0x000F) as u8),
            ..v
        }
    } else {
        v
    }
}

/// The state a SHEILA write leaves behind: writes land in the VIAs; all
/// other ranges ignore them.
pub open spec fn spec_sheila_write_state(v: SheilaView, address: u16, value: u8) -> SheilaView {
    let sel = spec_sheila_select(address);
    if sel == 0x40 || sel == 0x50 {
        SheilaView {
            system_via: crate::mos6522::spec_via_write_state::<
                crate::system_via::SystemShared,
                crate::system_via::SystemPortA,
                crate::system_via::SystemPortB,
            >(v.system_via, (address & 0x000F) as u8, value),
            ..v
        }
    } else if sel == 0x60 || sel == 0x70 {
        SheilaView {
            user_via: crate::mos6522::spec_via_write_state::<
                (),
                crate::mos6522::UserPortA,
                crate::mos6522::UserPortB,
            >(v.user_via, (address & 0x000F) as u8, value),
            ..v
        }
    } else {
        v
    }
}

impl SheilaPage {
    /// The two VIAs and their wiring well-formed, with the CRT controller
    /// and System VIA sharing one clock.
    pub open spec fn wf(&self) -> bool {
        &&& self.system_via.wf()
        &&& self.user_via.wf()
        &&& self.crtc@.clock == self.system_via.clock_us
    }

    /// A fresh SHEILA page around the given keyboard, all registers clear.
    pub fn new(keyboard: crate::keyboard::Keyboard) -> (r: SheilaPage)
        requires
            keyboard.inv(),
        ensures
            r.wf(),
            r@.crtc == (crate::mc6845::CrtcView { vsync: false, clock: 0 }),
            r@.system_via == (crate::mos6522::ViaView {
                irq: false,
                iorb: 0u8,
                iora: 0u8,
                ddrb: 0u8,
                ddra: 0u8,
                t1l: 0u16,
                t2l: 0u16,
                t1c: 0u16,
                t2c: 0u16,
                sr: 0u8,
                acr: 0u8,
                pcr: 0u8,
                ifr: 0u8,
                ier: 0u8,
                shared: crate::system_via::SystemSharedView {
                    ic32: 0,
                    keyboard: keyboard@,
                    vsync: false,
                },
                pa: 0u8,
                pb: 0u8,
                clock: 0u64,
                t1_active: false,
                t2_active: false,
            }),
            r@.user_via == (crate::mos6522::ViaView {
                irq: false,
                iorb: 0u8,
                iora: 0u8,
                ddrb: 0u8,
                ddra: 0u8,
                t1l: 0u16,
                t2l: 0u16,
                t1c: 0u16,
                t2c: 0u16,
                sr: 0u8,
                acr: 0u8,
                pcr: 0u8,
                ifr: 0u8,
                ier: 0u8,
                shared: (),
                pa: 0u8,
                pb: 0u8,
                clock: 0u64,
                t1_active: false,
                t2_active: false,
            }),
    {
        let ic32 = crate::ic32::IC32::new();
        let shared = crate::system_via::SystemShared::new(ic32, keyboard);
        let port_a = crate::system_via::SystemPortA::new();
        let port_b = crate::system_via::SystemPortB::new();
        let system_via = crate::mos6522::VIA::with_shared(shared, port_a, port_b);
        let user_via = crate::mos6522::VIA::new(
            crate::mos6522::BogusPort::new(0),
            crate::mos6522::BogusPort::new(0),
        );
        SheilaPage { crtc: crate::mc6845::CRTC::new(), system_via, user_via }
    }

    /// Senses and consumes the shared IRQ line: the OR of the System and
    /// User VIA interrupt outputs.
    pub fn sense_irq(&mut self) -> (r: bool)
        ensures
            r == (old(self)@.system_via.irq || old(self)@.user_via.irq),
            final(self)@ == (SheilaView {
                system_via: crate::mos6522::ViaView { irq: false, ..old(self)@.system_via },
                user_via: crate::mos6522::ViaView { irq: false, ..old(self)@.user_via },
                ..old(self)@
            }),
    {
        let system = self.system_via.irq.sense();
        let user = self.user_via.irq.sense();
        system || user
    }
}

impl Device for SheilaPage {
    fn name(&self) -> &'static str {
        "SHEILA memory-mapped I/O page"
    }
}

impl crate::memory::MemoryBus for SheilaPage {
    open spec fn inv(&self) -> bool {
        self.wf()
    }

    open spec fn read_value(v: SheilaView, address: u16) -> u8 {
        spec_sheila_read_value(v, address)
    }

    open spec fn read_state(v: SheilaView, address: u16) -> SheilaView {
        spec_sheila_read_state(v, address)
    }

    open spec fn write_state(v: SheilaView, address: u16, value: u8) -> SheilaView {
        spec_sheila_write_state(v, address, value)
    }

    fn read(&mut self, address: crate::memory::Address) -> (r: u8) {
        let sel: u8 = (address.to_u16() & 0x00F0) as u8;
        if sel == 0x40 || sel == 0x50 {
            self.system_via.read(address)
        } else if sel == 0x60 || sel == 0x70 {
            self.user_via.read(address)
        } else {
            0
        }
    }

    fn write(&mut self, address: crate::memory::Address, value: u8) {
        let sel: u8 = (address.to_u16() & 0x00F0) as u8;
        if sel == 0x40 || sel == 0x50 {
            self.system_via.write(address, value);
        } else if sel == 0x60 || sel == 0x70 {
            self.user_via.write(address, value);
        }
    }

    fn peek(&self, address: crate::memory::Address) -> (r: u8) {
        let sel: u8 = (address.to_u16() & 0x00F0) as u8;
        if sel == 0x40 || sel == 0x50 {
            self.system_via.peek(address)
        } else if sel == 0x60 || sel == 0x70 {
            self.user_via.peek(address)
        } else {
            0
        }
    }
}

/// One SHEILA clock step: the CRT controller steps first; a fresh vsync is
/// handed to the System VIA's CA1 line, and the System VIA steps. (The
/// User VIA is not clocked in this scope, matching the board wiring.)
pub open spec fn spec_sheila_step(v: SheilaView, us: u64) -> SheilaView {
    let crtc1 = crate::mc6845::spec_crtc_step(v.crtc, us);
    let sys0 = if crtc1.vsync {
        crate::mos6522::ViaView {
            shared: crate::system_via::SystemSharedView { vsync: true, ..v.system_via.shared },
            ..v.system_via
        }
    } else {
        v.system_via
    };
    SheilaView {
        crtc: crate::mc6845::CrtcView { vsync: false, ..crtc1 },
        system_via: crate::mos6522::spec_via_step::<
            crate::system_via::SystemShared,
            crate::system_via::SystemPortA,
            crate::system_via::SystemPortB,
        >(sys0, us),
        ..v
    }
}

impl Clocked for SheilaPage {
    open spec fn clocked_inv(&self) -> bool {
        self.wf()
    }

    open spec fn clock(&self) -> u64 {
        self.system_via.clock_us
    }

    open spec fn stride_ok(&self, us: u64) -> bool {
        self.system_via.stride_ok(us)
    }

    open spec fn step_state(v: SheilaView, us: u64) -> SheilaView {
        spec_sheila_step(v, us)
    }

    fn step(&mut self, us: u64) {
        self.crtc.step(us);
        if self.crtc.sense_vsync() {
            self.system_via.shared.crtc_vsync.raise();
        }
        self.system_via.step(us);
    }
}

} // verus!
