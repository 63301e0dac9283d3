//! The 6502 register file: the processor status flag set, the page-one
//! stack pointer, and the full register bundle owned by the CPU.

use vstd::prelude::*;

use crate::memory::Address;

verus! {

/// A named processor status flag.
#[derive(Clone, Copy, PartialEq, Eq, Structural, Debug)]
pub enum Flag {
    /// Negative: bit 7 of the last result.
    N,
    /// Overflow: signed overflow of the last arithmetic result.
    V,
    /// Break: distinguishes BRK/PHP pushes from hardware interrupt pushes.
    B,
    /// Decimal mode: ADC and SBC use BCD correction.
    D,
    /// Interrupt disable.
    I,
    /// Zero: the last result was zero.
    Z,
    /// Carry.
    C,
}

/// The mask of the bit a flag occupies within the status byte.
pub open spec fn spec_flag_mask(flag: Flag) -> u8 {
    match flag {
        Flag::N => 0x80,
        Flag::V => 0x40,
        Flag::B => 0x10,
        Flag::D => 0x08,
        Flag::I => 0x04,
        Flag::Z => 0x02,
        Flag::C => 0x01,
    }
}

/// Bit 5 of the status byte is reserved and always reads as one.
pub const STATUS_RESERVED: u8 = 0x20;

/// The processor status byte with named-bit accessors.
#[derive(Clone, Copy, PartialEq, Eq, Structural, Debug)]
pub struct Status {
    pub bits: u8,
}

impl Status {
    pub open spec fn spec_has(self, flag: Flag) -> bool {
        self.bits & spec_flag_mask(flag) != 0
    }

    pub open spec fn spec_set(self, flag: Flag, value: bool) -> Status {
        if value {
            Status { bits: self.bits | spec_flag_mask(flag) }
        } else {
            Status { bits: self.bits & !spec_flag_mask(flag) }
        }
    }

    /// Sets Zero and Negative from a just-computed 8-bit result.
    pub open spec fn spec_set_nz(self, value: u8) -> Status {
        self.spec_set(Flag::Z, value == 0).spec_set(Flag::N, value & 0x80 != 0)
    }

    pub fn new() -> (r: Status)
        ensures
            r.bits == STATUS_RESERVED,
    {
        Status { bits: STATUS_RESERVED }
    }

    /// Builds a status value from a raw byte; the reserved bit reads as one.
    pub fn from(value: u8) -> (r: Status)
        ensures
            r.bits == value | STATUS_RESERVED,
    {
        Status { bits: value | STATUS_RESERVED }
    }

    pub fn get_mask(flag: Flag) -> (r: u8)
        ensures
            r == spec_flag_mask(flag),
    {
        match flag {
            Flag::N => 0x80,
            Flag::V => 0x40,
            Flag::B => 0x10,
            Flag::D => 0x08,
            Flag::I => 0x04,
            Flag::Z => 0x02,
            Flag::C => 0x01,
        }
    }

    pub fn has(&self, flag: Flag) -> (r: bool)
        ensures
            r == self.spec_has(flag),
    {
        self.bits & Status::get_mask(flag) != 0
    }

    pub fn set(&mut self, flag: Flag, value: bool)
        ensures
            *final(self) == old(self).spec_set(flag, value),
    {
        let mask = Status::get_mask(flag);
        if value {
            self.bits = self.bits | mask;
        } else {
            self.bits = self.bits & !mask;
        }
    }

    /// As `set`; kept as the direct counterpart of the flag instructions
    /// (SEC, CLC, SEI, ...).
    pub fn set_flag(&mut self, flag: Flag, value: bool)
        ensures
            *final(self) == old(self).spec_set(flag, value),
    {
        self.set(flag, value);
    }

    pub fn set_nz_from_u8(&mut self, value: u8)
        ensures
            *final(self) == old(self).spec_set_nz(value),
    {
        self.set(Flag::Z, value == 0);
        self.set(Flag::N, value & 0x80 != 0);
    }

    pub fn to_u8(&self) -> (r: u8)
        ensures
            r == self.bits,
    {
        self.bits
    }
}

/// The stack pointer: an 8-bit offset into page one, wrapping on
/// increment and decrement.
#[derive(Clone, Copy, PartialEq, Eq, Structural, Debug)]
pub struct StackPointer {
    pub offset: u8,
}

impl StackPointer {
    /// The page-one address the pointer currently designates.
    pub open spec fn spec_address(self) -> u16 {
        (0x0100 + self.offset) as u16
    }

    pub fn to_address(&self) -> (r: Address)
        ensures
            r.value == self.spec_address(),
    {
        Address::from_le_bytes(self.offset, 0x01)
    }

    pub fn to_u8(&self) -> (r: u8)
        ensures
            r == self.offset,
    {
        self.offset
    }

    pub fn set(&mut self, value: u8)
        ensures
            final(self).offset == value,
    {
        self.offset = value;
    }

    /// Pull: increment before the read.
    pub fn inc(&mut self)
        ensures
            final(self).offset == old(self).offset.wrapping_add(1),
    {
        self.offset = self.offset.wrapping_add(1);
    }

    /// Push: decrement after the write.
    pub fn dec(&mut self)
        ensures
            final(self).offset == old(self).offset.wrapping_sub(1),
    {
        self.offset = self.offset.wrapping_sub(1);
    }
}

/// The CPU register file, owned exclusively by the CPU and mutated only by
/// instruction handlers and interrupt sequencing.
#[derive(Clone, Copy, PartialEq, Eq, Structural, Debug)]
pub struct Registers {
    pub a: u8,
    pub x: u8,
    pub y: u8,
    pub p: Status,
    pub pc: Address,
    pub s: StackPointer,
}

impl Registers {
    pub fn new() -> (r: Registers)
        ensures
            r == spec_registers_new(),
    {
        Registers {
            a: 0,
            x: 0,
            y: 0,
            p: Status::new(),
            pc: Address::from(0),
            s: StackPointer { offset: 0xFF },
        }
    }
}

pub open spec fn spec_registers_new() -> Registers {
    Registers {
        a: 0,
        x: 0,
        y: 0,
        p: Status { bits: STATUS_RESERVED },
        pc: Address { value: 0 },
        s: StackPointer { offset: 0xFF },
    }
}

} // verus!
