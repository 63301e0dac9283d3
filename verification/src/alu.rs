//! Pure, stateless 6502 arithmetic: add/subtract with carry in binary and
//! decimal (BCD) mode, shifts and rotates, and the BIT test. Each operation
//! has a specification twin that pins its result down bit for bit.

use vstd::prelude::*;

use crate::registers::{Flag, Status};

verus! {

/// Binary add with carry: result, carry out, and signed overflow.
pub open spec fn spec_add_with_carry(register: u8, value: u8, carry: bool) -> (u8, bool, bool) {
    let total = register + value + (if carry { 1int } else { 0int });
    let result = (total % 256) as u8;
    let carry_out = total >= 256;
    let overflow = (result ^ register) & (result ^ value) & 0x80 != 0;
    (result, carry_out, overflow)
}

pub fn add_with_carry(register: u8, value: u8, carry: bool) -> (r: (u8, bool, bool))
    ensures
        r == spec_add_with_carry(register, value, carry),
{
    let total: u16 = register as u16 + value as u16 + (if carry { 1u16 } else { 0u16 });
    let result: u8 = (total % 256) as u8;
    let carry_out: bool = total >= 256;
    let overflow: bool = (result ^ register) & (result ^ value) & 0x80 != 0;
    (result, carry_out, overflow)
}

/// Binary subtract with carry (carry set means no borrow).
pub open spec fn spec_sub_with_carry(register: u8, value: u8, carry: bool) -> (u8, bool, bool) {
    let total = 256 + register - value - (if carry { 0int } else { 1int });
    let result = (total % 256) as u8;
    let carry_out = total >= 256;
    let overflow = (result ^ register) & (result ^ value) & 0x80 != 0;
    (result, carry_out, overflow)
}

pub fn sub_with_carry(register: u8, value: u8, carry: bool) -> (r: (u8, bool, bool))
    ensures
        r == spec_sub_with_carry(register, value, carry),
{
    let total: u16 = 256 + register as u16 - value as u16 - (if carry { 0u16 } else { 1u16 });
    let result: u8 = (total % 256) as u8;
    let carry_out: bool = total >= 256;
    let overflow: bool = (result ^ register) & (result ^ value) & 0x80 != 0;
    (result, carry_out, overflow)
}

/// Adding with some carry and subtracting the same value with the resulting
/// carry returns to the start, whenever the carry out differs from the carry
/// in. (When the two agree the round trip is off by one: the subtraction
/// takes away `value` plus the borrow, while the addition put in `value`
/// plus the carry.)
pub proof fn lemma_add_sub_round_trip(a: u8, b: u8, carry: bool)
    requires
        carry != spec_add_with_carry(a, b, carry).1,
    ensures
        spec_sub_with_carry(
            spec_add_with_carry(a, b, carry).0,
            b,
            spec_add_with_carry(a, b, carry).1,
        ).0 == a,
{
    let cin = if carry { 1int } else { 0int };
    let total = a + b + cin;
    let r1 = (total % 256) as u8;
    if total >= 256 {
        assert(r1 == total - 256);
        assert((256 + r1 - b) % 256 == a);
    } else {
        assert(r1 == total);
        assert((256 + r1 - b - 1) % 256 == a);
    }
}

/// The low nibble of a byte.
pub open spec fn spec_lo_nibble(value: u8) -> u8 {
    value & 0x0F
}

/// The high nibble of a byte, shifted down.
pub open spec fn spec_hi_nibble(value: u8) -> u8 {
    (value & 0xF0) >> 4u8
}

fn lo_nibble(value: u8) -> (r: u8)
    ensures
        r == spec_lo_nibble(value),
        r < 16,
{
    proof {
        assert(value & 0x0F < 16) by (bit_vector);
    }
    value & 0x0F
}

fn hi_nibble(value: u8) -> (r: u8)
    ensures
        r == spec_hi_nibble(value),
        r < 16,
{
    proof {
        assert((value & 0xF0) >> 4u8 < 16) by (bit_vector);
    }
    (value & 0xF0) >> 4u8
}

/// One nibble of a BCD addition: corrected to stay within 0..=9 by adding 6
/// on overflow, with the decimal carry placed in the high nibble.
pub open spec fn spec_add_bcd_nibble(lhs: u8, rhs: u8, carry: u8) -> u8 {
    let total = (lhs + rhs + carry) as u8;
    if total >= 0xA {
        (0x10 + spec_lo_nibble((total + 6) as u8)) as u8
    } else {
        total
    }
}

fn add_bcd_nibble(lhs: u8, rhs: u8, carry: u8) -> (r: u8)
    requires
        lhs < 16,
        rhs < 16,
        carry < 2,
    ensures
        r == spec_add_bcd_nibble(lhs, rhs, carry),
        r <= 0x1F,
{
    let total: u8 = lhs + rhs + carry;
    if total >= 0xA {
        let corrected = lo_nibble(total + 6);
        proof {
            assert(corrected < 16);
        }
        0x10 + corrected
    } else {
        total
    }
}

/// Decimal-mode add with carry: per-nibble BCD correction; the overflow flag
/// is computed from the decimal result (a 6502 quirk, unlike decimal SBC).
pub open spec fn spec_add_decimal_with_carry(register: u8, value: u8, carry: bool) -> (
    u8,
    bool,
    bool,
) {
    let cin: u8 = if carry { 1u8 } else { 0u8 };
    let lo = spec_add_bcd_nibble(spec_lo_nibble(register), spec_lo_nibble(value), cin);
    let hi = spec_add_bcd_nibble(
        spec_hi_nibble(register),
        spec_hi_nibble(value),
        spec_hi_nibble(lo),
    );
    let carry_out = spec_hi_nibble(hi) != 0;
    let result = (spec_lo_nibble(hi) * 16 + spec_lo_nibble(lo)) as u8;
    let overflow = (result ^ register) & (result ^ value) & 0x80 != 0;
    (result, carry_out, overflow)
}

pub fn add_decimal_with_carry(register: u8, value: u8, carry: bool) -> (r: (u8, bool, bool))
    ensures
        r == spec_add_decimal_with_carry(register, value, carry),
{
    let cin: u8 = if carry { 1u8 } else { 0u8 };
    let lo = add_bcd_nibble(lo_nibble(register), lo_nibble(value), cin);
    proof {
        assert(lo <= 0x1F ==> (lo & 0xF0) >> 4u8 < 2) by (bit_vector);
    }
    let hi = add_bcd_nibble(hi_nibble(register), hi_nibble(value), hi_nibble(lo));
    let result: u8 = lo_nibble(hi) * 16 + lo_nibble(lo);
    let carry_out: bool = hi_nibble(hi) != 0;
    let overflow: bool = (result ^ register) & (result ^ value) & 0x80 != 0;
    (result, carry_out, overflow)
}

/// One nibble of a BCD subtraction: the high nibble of the raw difference
/// signals a borrow; 0x10 in the result means no borrow.
pub open spec fn spec_sub_bcd_nibble(lhs: u8, rhs: u8, carry: u8) -> u8 {
    let raw = lhs.wrapping_sub((rhs + 1 - carry) as u8);
    if spec_hi_nibble(raw) != 0 {
        spec_lo_nibble(raw.wrapping_sub(6))
    } else {
        0x10 | raw
    }
}

fn sub_bcd_nibble(lhs: u8, rhs: u8, carry: u8) -> (r: u8)
    requires
        lhs < 16,
        rhs < 16,
        carry < 2,
    ensures
        r == spec_sub_bcd_nibble(lhs, rhs, carry),
        r <= 0x1F,
{
    let raw = lhs.wrapping_sub(rhs + 1 - carry);
    if hi_nibble(raw) != 0 {
        let r = lo_nibble(raw.wrapping_sub(6));
        proof {
            assert(r < 16);
        }
        r
    } else {
        proof {
            assert((raw & 0xF0) >> 4u8 == 0 ==> (0x10u8 | raw) <= 0x1F) by (bit_vector);
        }
        0x10 | raw
    }
}

/// Decimal-mode subtract with carry. The overflow flag is taken from the
/// binary (non-decimal) subtraction, per documented 6502 behaviour.
pub open spec fn spec_sub_decimal_with_carry(register: u8, value: u8, carry: bool) -> (
    u8,
    bool,
    bool,
) {
    let cin: u8 = if carry { 1u8 } else { 0u8 };
    let lo = spec_sub_bcd_nibble(spec_lo_nibble(register), spec_lo_nibble(value), cin);
    let hi = spec_sub_bcd_nibble(
        spec_hi_nibble(register),
        spec_hi_nibble(value),
        spec_hi_nibble(lo),
    );
    let carry_out = spec_hi_nibble(hi) != 0;
    let result = (spec_lo_nibble(hi) * 16 + spec_lo_nibble(lo)) as u8;
    let binary = register.wrapping_sub(value).wrapping_sub((1 - cin) as u8);
    let overflow = (binary ^ register) & (binary ^ value) & 0x80 != 0;
    (result, carry_out, overflow)
}

pub fn sub_decimal_with_carry(register: u8, value: u8, carry: bool) -> (r: (u8, bool, bool))
    ensures
        r == spec_sub_decimal_with_carry(register, value, carry),
{
    let cin: u8 = if carry { 1u8 } else { 0u8 };
    let lo = sub_bcd_nibble(lo_nibble(register), lo_nibble(value), cin);
    proof {
        assert(lo <= 0x1F ==> (lo & 0xF0) >> 4u8 < 2) by (bit_vector);
    }
    let hi = sub_bcd_nibble(hi_nibble(register), hi_nibble(value), hi_nibble(lo));
    let result: u8 = lo_nibble(hi) * 16 + lo_nibble(lo);
    let carry_out: bool = hi_nibble(hi) != 0;
    let binary = register.wrapping_sub(value).wrapping_sub(1 - cin);
    let overflow: bool = (binary ^ register) & (binary ^ value) & 0x80 != 0;
    (result, carry_out, overflow)
}

pub open spec fn spec_and(accumulator: u8, value: u8) -> u8 {
    accumulator & value
}

pub fn and(accumulator: u8, value: u8) -> (r: u8)
    ensures
        r == spec_and(accumulator, value),
{
    accumulator & value
}

pub open spec fn spec_eor(accumulator: u8, value: u8) -> u8 {
    accumulator ^ value
}

pub fn eor(accumulator: u8, value: u8) -> (r: u8)
    ensures
        r == spec_eor(accumulator, value),
{
    accumulator ^ value
}

pub open spec fn spec_ora(accumulator: u8, value: u8) -> u8 {
    accumulator | value
}

pub fn ora(accumulator: u8, value: u8) -> (r: u8)
    ensures
        r == spec_ora(accumulator, value),
{
    accumulator | value
}

/// The BIT test: Zero from `A & M == 0`, Overflow from bit 6 of the memory
/// value, Negative from bit 7; the accumulator itself is unmodified.
pub open spec fn spec_bit(accumulator: u8, value: u8, status: Status) -> Status {
    let s1 = status.spec_set(Flag::Z, accumulator & value == 0);
    let s2 = s1.spec_set(Flag::V, 0x40 & value != 0);
    s2.spec_set(Flag::N, 0x80 & value != 0)
}

pub fn bit(accumulator: u8, value: u8, status: Status) -> (r: Status)
    ensures
        r == spec_bit(accumulator, value, status),
{
    let mut status = status;
    status.set(Flag::Z, accumulator & value == 0);
    status.set(Flag::V, 0x40 & value != 0);
    status.set(Flag::N, 0x80 & value != 0);
    status
}

pub open spec fn spec_inc(register: u8) -> u8 {
    register.wrapping_add(1)
}

pub fn inc(register: u8) -> (r: u8)
    ensures
        r == spec_inc(register),
{
    register.wrapping_add(1)
}

pub open spec fn spec_dec(register: u8) -> u8 {
    register.wrapping_sub(1)
}

pub fn dec(register: u8) -> (r: u8)
    ensures
        r == spec_dec(register),
{
    register.wrapping_sub(1)
}

/// Arithmetic shift left: bit 7 becomes the carry out, bit 0 becomes zero.
pub open spec fn spec_asl(value: u8) -> (u8, bool) {
    (((value & 0x7F) * 2) as u8, value & 0x80 != 0)
}

pub fn asl(value: u8) -> (r: (u8, bool))
    ensures
        r == spec_asl(value),
{
    let out_carry: bool = value & 0x80 != 0;
    proof {
        assert(value & 0x7F < 0x80) by (bit_vector);
    }
    let result: u8 = (value & 0x7F) * 2;
    (result, out_carry)
}

/// Rotate left: as ASL, with the old carry shifted into bit 0.
pub open spec fn spec_rol(value: u8, in_carry: bool) -> (u8, bool) {
    let shifted = spec_asl(value);
    if in_carry {
        (shifted.0 | 1, shifted.1)
    } else {
        shifted
    }
}

pub fn rol(value: u8, in_carry: bool) -> (r: (u8, bool))
    ensures
        r == spec_rol(value, in_carry),
{
    let (mut result, out_carry) = asl(value);
    if in_carry {
        result = result | 1;
    }
    (result, out_carry)
}

/// Logical shift right: bit 0 becomes the carry out, bit 7 becomes zero.
pub open spec fn spec_lsr(value: u8) -> (u8, bool) {
    (value / 2, value & 1 != 0)
}

pub fn lsr(value: u8) -> (r: (u8, bool))
    ensures
        r == spec_lsr(value),
{
    let out_carry: bool = value & 1 != 0;
    let result: u8 = value / 2;
    (result, out_carry)
}

/// Rotate right: as LSR, with the old carry shifted into bit 7.
pub open spec fn spec_ror(value: u8, in_carry: bool) -> (u8, bool) {
    let shifted = spec_lsr(value);
    if in_carry {
        (shifted.0 | 0x80, shifted.1)
    } else {
        shifted
    }
}

pub fn ror(value: u8, in_carry: bool) -> (r: (u8, bool))
    ensures
        r == spec_ror(value, in_carry),
{
    let (mut result, out_carry) = lsr(value);
    if in_carry {
        result = result | 0x80;
    }
    (result, out_carry)
}

/// Shifting left then right recovers the low seven bits and returns bit 7
/// through the carry; rotating with the carry fed back recovers the byte.
pub proof fn lemma_shift_round_trip(value: u8)
    ensures
        spec_ror(spec_rol(value, false).0, spec_rol(value, false).1).0 == value,
        spec_rol(spec_ror(value, false).0, spec_ror(value, false).1).0 == value,
{
    assert(({
        let r1 = ((value & 0x7F) * 2) as u8;
        let c1 = value & 0x80 != 0;
        (if c1 {
            r1 / 2 | 0x80
        } else {
            r1 / 2
        }) == value
    })) by (bit_vector);
    assert(({
        let r2 = value / 2;
        let c2 = value & 1 != 0;
        (if c2 {
            (((r2 & 0x7F) * 2) as u8) | 1
        } else {
            ((r2 & 0x7F) * 2) as u8
        }) == value
    })) by (bit_vector);
}

} // verus!
