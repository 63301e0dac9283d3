//! Flat 64 KB byte memory implementing the memory-bus contract, with a
//! bulk loader for program images.

use vstd::prelude::*;

use crate::memory::{spec_address_offset, Address, MemoryBus};

verus! {

/// The size of the address space: 64 KB.
pub const MEMORY_SIZE: usize = 0x10000;

/// Flat 64 KB random-access memory.
pub struct RAM {
    bytes: Vec<u8>,
}

impl View for RAM {
    type V = Seq<u8>;

    closed spec fn view(&self) -> Seq<u8> {
        self.bytes@
    }
}

/// The memory contents after a program image is written byte by byte
/// starting at `address`, wrapping at the top of memory.
pub open spec fn spec_load_at(mem: Seq<u8>, program: Seq<u8>, address: u16) -> Seq<u8>
    decreases program.len(),
{
    if program.len() == 0 {
        mem
    } else {
        spec_load_at(
            mem.update(address as int, program[0]),
            program.drop_first(),
            address.wrapping_add(1),
        )
    }
}

/// Loading a program and then one more byte equals loading the program and
/// updating the following cell.
proof fn lemma_load_at_push(mem: Seq<u8>, program: Seq<u8>, x: u8, address: u16)
    requires
        mem.len() == 0x10000,
    ensures
        spec_load_at(mem, program.push(x), address) == spec_load_at(mem, program, address).update(
            spec_address_offset(address, program.len() as int) as int,
            x,
        ),
    decreases program.len(),
{
    if program.len() == 0 {
        let u2 = mem.update(address as int, x);
        let a1 = address.wrapping_add(1);
        assert(program.push(x).drop_first() =~= Seq::<u8>::empty());
        assert(program.push(x)[0] == x);
        assert(spec_load_at(mem, program.push(x), address) == spec_load_at(
            u2,
            Seq::<u8>::empty(),
            a1,
        ));
        assert(spec_load_at(u2, Seq::<u8>::empty(), a1) == u2);
        assert(spec_load_at(mem, program, address) == mem);
        assert(spec_address_offset(address, 0) == address) by {
            vstd::arithmetic::div_mod::lemma_small_mod(address as nat, 0x10000);
        }
    } else {
        let u = mem.update(address as int, program[0]);
        let d = program.drop_first();
        let a1 = address.wrapping_add(1);
        assert(program.push(x)[0] == program[0]);
        assert(program.push(x).drop_first() =~= d.push(x));
        assert(spec_load_at(mem, program.push(x), address) == spec_load_at(u, d.push(x), a1));
        lemma_load_at_push(u, d, x, a1);
        assert(spec_load_at(u, d, a1) == spec_load_at(mem, program, address));
        assert(spec_address_offset(a1, d.len() as int) == spec_address_offset(
            address,
            program.len() as int,
        )) by {
            if address as int + 1 == 0x10000 {
                vstd::arithmetic::div_mod::lemma_mod_add_multiples_vanish(
                    program.len() - 1,
                    0x10000,
                );
            }
        }
    }
}

impl RAM {
    /// Fresh memory, all zeroes.
    pub fn new() -> (r: RAM)
        ensures
            r.inv(),
            r@ == Seq::new(0x10000, |i: int| 0u8),
    {
        let mut bytes: Vec<u8> = Vec::new();
        let mut i: usize = 0;
        while i < MEMORY_SIZE
            invariant
                i <= MEMORY_SIZE,
                bytes@.len() == i,
                forall|j: int| 0 <= j < i ==> bytes@[j] == 0u8,
            decreases MEMORY_SIZE - i,
        {
            bytes.push(0);
            i = i + 1;
        }
        let r = RAM { bytes };
        proof {
            assert(r@ =~= Seq::new(0x10000, |i: int| 0u8));
        }
        r
    }

    /// Writes a program image into memory byte by byte starting at
    /// `address`, wrapping at the top of memory; returns its length.
    pub fn load_at(&mut self, program: &[u8], address: Address) -> (r: usize)
        requires
            old(self).inv(),
        ensures
            final(self).inv(),
            final(self)@ == spec_load_at(old(self)@, program@, address.value),
            r == program@.len(),
    {
        let mut current = address;
        let mut i: usize = 0;
        let len = program.len();
        proof {
            vstd::arithmetic::div_mod::lemma_small_mod(address.value as nat, 0x10000);
        }
        while i < len
            invariant
                self.inv(),
                i <= len,
                len == program@.len(),
                current.value == spec_address_offset(address.value, i as int),
                self@ == spec_load_at(old(self)@, program@.take(i as int), address.value),
                old(self)@.len() == 0x10000,
            decreases len - i,
        {
            proof {
                assert(program@.take(i as int).push(program@[i as int]) =~= program@.take(
                    i as int + 1,
                ));
                lemma_load_at_push(
                    old(self)@,
                    program@.take(i as int),
                    program@[i as int],
                    address.value,
                );
            }
            self.write(current, program[i]);
            current = current.next();
            i = i + 1;
            proof {
                crate::memory::lemma_address_offset_step(address.value, i - 1);
            }
        }
        proof {
            assert(program@.take(len as int) =~= program@);
        }
        len
    }
}

impl MemoryBus for RAM {
    closed spec fn inv(&self) -> bool {
        self.bytes@.len() == 0x10000
    }

    open spec fn read_value(v: Seq<u8>, address: u16) -> u8 {
        v[address as int]
    }

    open spec fn read_state(v: Seq<u8>, address: u16) -> Seq<u8> {
        v
    }

    open spec fn write_state(v: Seq<u8>, address: u16, value: u8) -> Seq<u8> {
        v.update(address as int, value)
    }

    fn read(&mut self, address: Address) -> (r: u8) {
        self.bytes[address.to_u16() as usize]
    }

    fn write(&mut self, address: Address, value: u8) {
        self.bytes.set(address.to_u16() as usize, value);
    }

    fn peek(&self, address: Address) -> (r: u8) {
        self.bytes[address.to_u16() as usize]
    }
}

/// One step of the hex-image parser: hexadecimal digits accumulate a
/// value; whitespace flushes the value as the next memory byte; a colon
/// makes the value an address label, which fixes the start address or
/// must match the current position. Anything else is ignored, and any
/// malformed input (an over-wide value, a byte over 0xFF, a label over
/// 0xFFFF or out of order) marks the parse as failed.
pub struct HexParse {
    pub mem: Seq<u8>,
    pub start: Option<u16>,
    pub current: u16,
    pub value: Option<u32>,
    pub ok: bool,
}

/// The numeric value of one hexadecimal digit, if the byte is one.
pub open spec fn spec_hex_digit(c: u8) -> Option<u8> {
    if 0x30 <= c <= 0x39 {
        Some((c - 0x30) as u8)
    } else if 0x61 <= c <= 0x66 {
        Some((c - 0x57) as u8)
    } else if 0x41 <= c <= 0x46 {
        Some((c - 0x37) as u8)
    } else {
        None
    }
}

/// Whether a byte is ASCII whitespace.
pub open spec fn spec_is_space(c: u8) -> bool {
    c == 0x20 || c == 0x09 || c == 0x0A || c == 0x0D || c == 0x0C
}

/// One parser step on one input byte.
pub open spec fn spec_hex_step(st: HexParse, c: u8) -> HexParse {
    if !st.ok {
        st
    } else if spec_hex_digit(c) is Some {
        let digit = spec_hex_digit(c)->Some_0;
        match st.value {
            Some(value) => if value > 0x0FFF_FFFF {
                HexParse { ok: false, ..st }
            } else {
                HexParse { value: Some((value * 16 + digit) as u32), ..st }
            },
            None => HexParse { value: Some(digit as u32), ..st },
        }
    } else if spec_is_space(c) && st.value is Some {
        let value = st.value->Some_0;
        if value >= 256 {
            HexParse { ok: false, ..st }
        } else {
            HexParse {
                mem: st.mem.update(st.current as int, value as u8),
                current: st.current.wrapping_add(1),
                value: None,
                ..st
            }
        }
    } else if c == 0x3A && st.value is Some {
        let value = st.value->Some_0;
        if value >= 0x10000 {
            HexParse { ok: false, ..st }
        } else if st.start is None {
            HexParse {
                start: Some(value as u16),
                current: value as u16,
                value: None,
                ..st
            }
        } else if st.current != value {
            HexParse { ok: false, ..st }
        } else {
            HexParse { value: None, ..st }
        }
    } else {
        st
    }
}

/// The parser folded over a whole input.
pub open spec fn spec_hex_parse(st: HexParse, text: Seq<u8>) -> HexParse
    decreases text.len(),
{
    if text.len() == 0 {
        st
    } else {
        spec_hex_parse(spec_hex_step(st, text[0]), text.drop_first())
    }
}

/// Folding one more byte steps the folded state once.
proof fn lemma_hex_parse_push(st: HexParse, text: Seq<u8>, c: u8)
    ensures
        spec_hex_parse(st, text.push(c)) == spec_hex_step(spec_hex_parse(st, text), c),
    decreases text.len(),
{
    if text.len() == 0 {
        assert(text.push(c).drop_first() =~= Seq::<u8>::empty());
        assert(text.push(c)[0] == c);
        assert(spec_hex_parse(spec_hex_step(st, c), Seq::<u8>::empty()) == spec_hex_step(
            st,
            c,
        ));
        assert(spec_hex_parse(st, Seq::<u8>::empty()) == st);
    } else {
        assert(text.push(c)[0] == text[0]);
        assert(text.push(c).drop_first() =~= text.drop_first().push(c));
        lemma_hex_parse_push(spec_hex_step(st, text[0]), text.drop_first(), c);
    }
}

/// A failed parse stays failed, with nothing more written.
proof fn lemma_hex_parse_failed(st: HexParse, text: Seq<u8>)
    requires
        !st.ok,
    ensures
        spec_hex_parse(st, text) == st,
    decreases text.len(),
{
    if text.len() > 0 {
        lemma_hex_parse_failed(st, text.drop_first());
    }
}

/// The parse of a whole image over the given memory.
pub open spec fn spec_load_hex(mem: Seq<u8>, text: Seq<u8>) -> HexParse {
    spec_hex_parse(
        HexParse { mem, start: None, current: 0, value: None, ok: true },
        text,
    )
}

/// Whether a finished parse yields a loaded image: nothing malformed, a
/// start label seen, and the write position not wrapped below it.
pub open spec fn spec_hex_complete(st: HexParse) -> bool {
    st.ok && st.start is Some && st.current >= st.start->Some_0
}

impl RAM {
    /// Loads a whitespace-separated hex image, with `address:` labels
    /// fixing the load position, and returns the start address and size;
    /// malformed input yields nothing, with the bytes up to the flaw
    /// already in place.
    pub fn load_hex(&mut self, text: &[u8]) -> (r: Option<(Address, usize)>)
        requires
            old(self).inv(),
        ensures
            final(self).inv(),
            final(self)@ == spec_load_hex(old(self)@, text@).mem,
            ({
                let st = spec_load_hex(old(self)@, text@);
                if spec_hex_complete(st) {
                    r == Some(
                        (
                            Address { value: st.start->Some_0 },
                            (st.current - st.start->Some_0) as usize,
                        ),
                    )
                } else {
                    r is None
                }
            }),
    {
        let ghost init = HexParse {
            mem: old(self)@,
            start: None,
            current: 0u16,
            value: None,
            ok: true,
        };
        let mut start: Option<u16> = None;
        let mut current = Address::from(0);
        let mut value: Option<u32> = None;
        let mut i: usize = 0;
        let len = text.len();
        while i < len
            invariant
                self.inv(),
                i <= len,
                len == text@.len(),
                init == (HexParse {
                    mem: old(self)@,
                    start: None::<u16>,
                    current: 0u16,
                    value: None::<u32>,
                    ok: true,
                }),
                spec_hex_parse(init, text@.take(i as int)) == (HexParse {
                    mem: self@,
                    start: start,
                    current: current.value,
                    value: value,
                    ok: true,
                }),
            decreases len - i,
        {
            let c = text[i];
            proof {
                assert(text@.take(i as int).push(text@[i as int]) =~= text@.take(i as int + 1));
                lemma_hex_parse_push(init, text@.take(i as int), text@[i as int]);
            }
            let digit: Option<u8> = if 0x30 <= c && c <= 0x39 {
                Some(c - 0x30)
            } else if 0x61 <= c && c <= 0x66 {
                Some(c - 0x57)
            } else if 0x41 <= c && c <= 0x46 {
                Some(c - 0x37)
            } else {
                None
            };
            match digit {
                Some(digit) => {
                    match value {
                        Some(v) => {
                            if v > 0x0FFF_FFFF {
                                proof {
                                    lemma_hex_parse_failed(
                                        spec_hex_parse(init, text@.take(i as int + 1)),
                                        text@.skip(i as int + 1),
                                    );
                                    lemma_hex_parse_split(init, text@, i as int + 1);
                                }
                                return None;
                            }
                            value = Some(v * 16 + digit as u32);
                        },
                        None => {
                            value = Some(digit as u32);
                        },
                    }
                },
                None => {
                    let space = c == 0x20 || c == 0x09 || c == 0x0A || c == 0x0D || c == 0x0C;
                    if space && value.is_some() {
                        let v = match value {
                            Some(v) => v,
                            None => 0,
                        };
                        if v >= 256 {
                            proof {
                                lemma_hex_parse_failed(
                                    spec_hex_parse(init, text@.take(i as int + 1)),
                                    text@.skip(i as int + 1),
                                );
                                lemma_hex_parse_split(init, text@, i as int + 1);
                            }
                            return None;
                        }
                        self.write(current, v as u8);
                        current = current.next();
                        value = None;
                    } else if c == 0x3A && value.is_some() {
                        let v = match value {
                            Some(v) => v,
                            None => 0,
                        };
                        if v >= 0x10000 {
                            proof {
                                lemma_hex_parse_failed(
                                    spec_hex_parse(init, text@.take(i as int + 1)),
                                    text@.skip(i as int + 1),
                                );
                                lemma_hex_parse_split(init, text@, i as int + 1);
                            }
                            return None;
                        }
                        match start {
                            None => {
                                start = Some(v as u16);
                                current = Address::from(v as u16);
                                value = None;
                            },
                            Some(_) => {
                                if current.to_u16() != v as u16 || v >= 0x10000 {
                                    proof {
                                        lemma_hex_parse_failed(
                                            spec_hex_parse(init, text@.take(i as int + 1)),
                                            text@.skip(i as int + 1),
                                        );
                                        lemma_hex_parse_split(init, text@, i as int + 1);
                                    }
                                    return None;
                                }
                                value = None;
                            },
                        }
                    }
                },
            }
            i = i + 1;
        }
        proof {
            assert(text@.take(len as int) =~= text@);
        }
        match start {
            Some(s) => {
                if current.to_u16() >= s {
                    Some((Address::from(s), (current.to_u16() - s) as usize))
                } else {
                    None
                }
            },
            None => None,
        }
    }
}

/// Splitting the input at any point composes the folds.
proof fn lemma_hex_parse_split(st: HexParse, text: Seq<u8>, at: int)
    requires
        0 <= at <= text.len(),
    ensures
        spec_hex_parse(st, text) == spec_hex_parse(
            spec_hex_parse(st, text.take(at)),
            text.skip(at),
        ),
    decreases at,
{
    if at == 0 {
        assert(text.take(0) =~= Seq::<u8>::empty());
        assert(text.skip(0) =~= text);
    } else {
        assert(text.take(at)[0] == text[0]);
        assert(text.take(at).drop_first() =~= text.drop_first().take(at - 1));
        assert(text.skip(at) =~= text.drop_first().skip(at - 1));
        lemma_hex_parse_split(spec_hex_step(st, text[0]), text.drop_first(), at - 1);
    }
}

} // verus!
