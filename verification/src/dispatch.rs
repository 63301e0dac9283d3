//! The page dispatcher: routes every memory access by its page (high
//! address byte) to RAM or to the registered device page, so that all
//! 65536 addresses resolve somewhere.

use vstd::prelude::*;

use crate::devices::{SheilaPage, SheilaView};
use crate::memory::{spec_hi_u8, Address, MemoryBus};
use crate::ram::RAM;

verus! {

/// A page-number-addressed device page: its fixed page in the address
/// space.
pub trait DevicePage<const PAGE: u8>: MemoryBus {
    fn page() -> (r: u8)
        ensures
            r == PAGE,
    ;
}

impl DevicePage<0xFE> for SheilaPage {
    fn page() -> (r: u8) {
        0xFE
    }
}

/// Routes accesses between the RAM catch-all and the device page
/// registered for one page of the address space.
pub struct PageDispatcher {
    pub ram: RAM,
    pub sheila: Option<SheilaPage>,
    pub sheila_page: u8,
}

/// What the dispatcher holds: flat memory, and the device page with the
/// page number it answers for.
pub struct DispatchView {
    pub ram: Seq<u8>,
    pub sheila: Option<SheilaView>,
    pub page: u8,
}

impl View for PageDispatcher {
    type V = DispatchView;

    open spec fn view(&self) -> DispatchView {
        DispatchView {
            ram: self.ram@,
            sheila: match self.sheila {
                Some(ref s) => Some(s@),
                None => None,
            },
            page: self.sheila_page,
        }
    }
}

/// Whether an address is answered by the device page.
pub open spec fn spec_on_device_page(v: DispatchView, address: u16) -> bool {
    v.sheila is Some && spec_hi_u8(address) == v.page
}

impl PageDispatcher {
    /// A dispatcher over plain RAM, with no device page yet.
    pub fn new(ram: RAM) -> (r: PageDispatcher)
        requires
            ram.inv(),
        ensures
            r.inv(),
            r@ == (DispatchView { ram: ram@, sheila: None::<SheilaView>, page: 0 }),
    {
        PageDispatcher { ram, sheila: None, sheila_page: 0 }
    }

    /// Registers the SHEILA device page for the given page number.
    pub fn add_backend(&mut self, page: u8, sheila: SheilaPage)
        requires
            old(self).inv(),
            sheila.wf(),
        ensures
            final(self).inv(),
            final(self)@ == (DispatchView { sheila: Some(sheila@), page, ..old(self)@ }),
    {
        self.sheila = Some(sheila);
        self.sheila_page = page;
    }
}

impl MemoryBus for PageDispatcher {
    open spec fn inv(&self) -> bool {
        &&& self.ram.inv()
        &&& match self.sheila {
            Some(ref s) => s.wf(),
            None => true,
        }
    }

    open spec fn read_value(v: DispatchView, address: u16) -> u8 {
        if spec_on_device_page(v, address) {
            spec_sheila_value(v.sheila->Some_0, address)
        } else {
            v.ram[address as int]
        }
    }

    open spec fn read_state(v: DispatchView, address: u16) -> DispatchView {
        if spec_on_device_page(v, address) {
            DispatchView {
                sheila: Some(crate::devices::spec_sheila_read_state(v.sheila->Some_0, address)),
                ..v
            }
        } else {
            v
        }
    }

    open spec fn write_state(v: DispatchView, address: u16, value: u8) -> DispatchView {
        if spec_on_device_page(v, address) {
            DispatchView {
                sheila: Some(
                    crate::devices::spec_sheila_write_state(v.sheila->Some_0, address, value),
                ),
                ..v
            }
        } else {
            DispatchView { ram: v.ram.update(address as int, value), ..v }
        }
    }

    fn read(&mut self, address: Address) -> (r: u8) {
        let hi = address.hi_u8();
        if self.sheila.is_some() && hi == self.sheila_page {
            match self.sheila {
                Some(ref mut s) => s.read(address),
                None => 0,
            }
        } else {
            self.ram.read(address)
        }
    }

    fn write(&mut self, address: Address, value: u8) {
        let hi = address.hi_u8();
        if self.sheila.is_some() && hi == self.sheila_page {
            match self.sheila {
                Some(ref mut s) => s.write(address, value),
                None => {},
            }
        } else {
            self.ram.write(address, value);
        }
    }

    fn peek(&self, address: Address) -> (r: u8) {
        let hi = address.hi_u8();
        if self.sheila.is_some() && hi == self.sheila_page {
            match self.sheila {
                Some(ref s) => s.peek(address),
                None => 0,
            }
        } else {
            self.ram.peek(address)
        }
    }
}

/// The byte the SHEILA page answers, named for the dispatcher's contract.
pub open spec fn spec_sheila_value(v: SheilaView, address: u16) -> u8 {
    crate::devices::spec_sheila_read_value(v, address)
}

} // verus!
