//! The 16-bit address value type and the memory-bus capability contract
//! implemented by RAM and by every memory-mapped device.

use vstd::prelude::*;

verus! {

/// A 16-bit address; decomposes into a page (high byte) and an offset
/// (low byte), and wraps on increment and decrement.
#[derive(Clone, Copy, PartialEq, Eq, Structural, Debug)]
pub struct Address {
    pub value: u16,
}

impl Address {
    pub fn from(address: u16) -> (r: Address)
        ensures
            r.value == address,
    {
        Address { value: address }
    }

    /// Composes an address from two bytes in little-endian order.
    pub fn from_le_bytes(lo: u8, hi: u8) -> (r: Address)
        ensures
            r.value == spec_le_bytes(lo, hi),
    {
        Address { value: hi as u16 * 256 + lo as u16 }
    }

    pub fn to_u16(&self) -> (r: u16)
        ensures
            r == self.value,
    {
        self.value
    }

    /// The page: the high byte of the address.
    pub fn hi_u8(&self) -> (r: u8)
        ensures
            r == spec_hi_u8(self.value),
    {
        (self.value / 256) as u8
    }

    /// The offset within the page: the low byte of the address.
    pub fn lo_u8(&self) -> (r: u8)
        ensures
            r == spec_lo_u8(self.value),
    {
        (self.value % 256) as u8
    }

    /// The following address, wrapping at the top of memory.
    pub fn next(&self) -> (r: Address)
        ensures
            r.value == self.value.wrapping_add(1),
    {
        Address { value: self.value.wrapping_add(1) }
    }

    /// Moves the address forward by an 8-bit delta, wrapping.
    pub fn inc_by(&mut self, plus: u8)
        ensures
            final(self).value == old(self).value.wrapping_add(plus as u16),
    {
        self.value = self.value.wrapping_add(plus as u16);
    }

    /// Moves the address back by an 8-bit delta, wrapping.
    pub fn dec_by(&mut self, minus: u8)
        ensures
            final(self).value == old(self).value.wrapping_sub(minus as u16),
    {
        self.value = self.value.wrapping_sub(minus as u16);
    }
}

/// The 16-bit value two bytes compose in little-endian order.
pub open spec fn spec_le_bytes(lo: u8, hi: u8) -> u16 {
    (hi * 256 + lo) as u16
}

pub open spec fn spec_hi_u8(value: u16) -> u8 {
    (value / 256) as u8
}

pub open spec fn spec_lo_u8(value: u16) -> u8 {
    (value % 256) as u8
}

/// The read/write capability every addressable unit implements.
///
/// A read may have side effects (several 6522 registers clear interrupt
/// flags when read), so the whole transition is pinned down over the
/// implementor's view: `read_value` gives the byte a read returns,
/// `read_state` the state it leaves behind, and `write_state` the state
/// a write leaves behind. `peek` observes a byte without side effects.
pub trait MemoryBus: Sized + View {
    /// The implementor's well-formedness invariant.
    spec fn inv(&self) -> bool;

    /// The byte a read at `address` returns.
    spec fn read_value(v: Self::V, address: u16) -> u8;

    /// The state a read at `address` leaves behind.
    spec fn read_state(v: Self::V, address: u16) -> Self::V;

    /// The state a write of `value` at `address` leaves behind.
    spec fn write_state(v: Self::V, address: u16, value: u8) -> Self::V;

    fn read(&mut self, address: Address) -> (r: u8)
        requires
            old(self).inv(),
        ensures
            final(self).inv(),
            r == Self::read_value(old(self)@, address.value),
            final(self)@ == Self::read_state(old(self)@, address.value),
    ;

    fn write(&mut self, address: Address, value: u8)
        requires
            old(self).inv(),
        ensures
            final(self).inv(),
            final(self)@ == Self::write_state(old(self)@, address.value, value),
    ;

    /// Reads the byte a read would return, without the read's side effects.
    fn peek(&self, address: Address) -> (r: u8)
        requires
            self.inv(),
        ensures
            r == Self::read_value(self@, address.value),
    ;
}

/// The 16-bit value read from two consecutive bytes in little-endian order,
/// together with the state the two reads leave behind.
pub open spec fn spec_read_address<M: MemoryBus>(v: M::V, address: u16) -> (u16, M::V) {
    let lo = M::read_value(v, address);
    let v1 = M::read_state(v, address);
    let hi = M::read_value(v1, address.wrapping_add(1));
    let v2 = M::read_state(v1, address.wrapping_add(1));
    (spec_le_bytes(lo, hi), v2)
}

/// Constructs a 16-bit address from two memory bytes in little-endian order.
pub fn read_address<M: MemoryBus>(memory: &mut M, address: Address) -> (r: Address)
    requires
        old(memory).inv(),
    ensures
        final(memory).inv(),
        r.value == spec_read_address::<M>(old(memory)@, address.value).0,
        final(memory)@ == spec_read_address::<M>(old(memory)@, address.value).1,
{
    let lo = memory.read(address);
    let hi = memory.read(address.next());
    Address::from_le_bytes(lo, hi)
}

/// The address `count` places after `base`, wrapping at the top of memory.
pub open spec fn spec_address_offset(base: u16, count: int) -> u16 {
    ((base + count) % 0x10000) as u16
}

/// Stepping one place past an offset address lands on the next offset.
pub proof fn lemma_address_offset_step(base: u16, count: int)
    requires
        count >= 0,
    ensures
        spec_address_offset(base, count).wrapping_add(1) == spec_address_offset(base, count + 1),
{
    let m = 0x10000int;
    let cur = (base + count) % m;
    vstd::arithmetic::div_mod::lemma_add_mod_noop(base + count, 1, m);
    vstd::arithmetic::div_mod::lemma_small_mod(1nat, m as nat);
    if cur == m - 1 {
        vstd::arithmetic::div_mod::lemma_mod_self_0(m);
    } else {
        vstd::arithmetic::div_mod::lemma_small_mod((cur + 1) as nat, m as nat);
    }
}

/// Copies `size` bytes starting at `address` out of memory, without read
/// side effects, wrapping at the top of memory.
pub fn slice<M: MemoryBus>(memory: &M, address: Address, size: usize) -> (r: Vec<u8>)
    requires
        memory.inv(),
    ensures
        r@.len() == size,
        forall|i: int|
            0 <= i < size ==> r@[i] == M::read_value(
                memory@,
                #[trigger] spec_address_offset(address.value, i),
            ),
{
    let mut vec: Vec<u8> = Vec::new();
    let mut current = address;
    let mut remaining = size;
    proof {
        vstd::arithmetic::div_mod::lemma_small_mod(address.value as nat, 0x10000);
    }
    while remaining != 0
        invariant
            memory.inv(),
            remaining <= size,
            vec@.len() == size - remaining,
            current.value == spec_address_offset(address.value, size - remaining),
            forall|i: int|
                0 <= i < vec@.len() ==> vec@[i] == M::read_value(
                    memory@,
                    #[trigger] spec_address_offset(address.value, i),
                ),
        decreases remaining,
    {
        vec.push(memory.peek(current));
        current = current.next();
        remaining = remaining - 1;
        proof {
            lemma_address_offset_step(address.value, size - remaining - 1);
        }
    }
    vec
}

} // verus!
