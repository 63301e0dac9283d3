use bbc_b::alu::{
    add_decimal_with_carry, add_with_carry, asl, lsr, rol, ror, sub_decimal_with_carry,
    sub_with_carry,
};

#[test]
fn adc_decimal() {
    assert_eq!(add_decimal_with_carry(0x09, 0x09, true), (0x19, false, false));
    assert_eq!(add_decimal_with_carry(0x98, 0x01, true), (0x00, true, false));
    assert_eq!(add_decimal_with_carry(0x79, 0x00, true), (0x80, false, true));
    assert_eq!(add_decimal_with_carry(0x24, 0x56, false), (0x80, false, true));
    assert_eq!(add_decimal_with_carry(0x82, 0x93, false), (0x75, true, true));
    // out of bound / invalid input: C, but no V (both 80, f0 and d0 are negative)
    assert_eq!(add_decimal_with_carry(0x80, 0xf0, false), (0xd0, true, false));
    // overflow first nibble carries 1, not 2, into high byte
    assert_eq!(add_decimal_with_carry(0x0f, 0x0f, true), (0x15, false, false));
}

#[test]
fn test_sbc() {
    assert_eq!(sub_with_carry(0, 0, true), (0, true, false));
    assert_eq!(sub_with_carry(1, 0, true), (1, true, false));
    assert_eq!(sub_with_carry(0, 1, true), (255, false, true));
    assert_eq!(sub_with_carry(1, 1, true), (0, true, false));
}

#[test]
fn sbc_decimal() {
    assert_eq!(sub_decimal_with_carry(0, 0, true), (0x00, true, false));
    assert_eq!(sub_decimal_with_carry(1, 0, true), (0x01, true, false));
    assert_eq!(sub_decimal_with_carry(0, 1, true), (0x99, false, true));
    assert_eq!(sub_decimal_with_carry(1, 1, true), (0x00, true, false));
    assert_eq!(sub_decimal_with_carry(0x09, 0x09, true), (0x0, true, false));
    assert_eq!(sub_decimal_with_carry(0x50, 0x50, true), (0x0, true, false));
    assert_eq!(sub_decimal_with_carry(0x79, 0x79, true), (0x0, true, false));
    assert_eq!(sub_decimal_with_carry(0x80, 0x80, true), (0x0, true, true));
    // out of bound / invalid input: C, but no V (both 80, f0 and d0 are negative)
    assert_eq!(sub_decimal_with_carry(0x80, 0xf0, false), (0x29, false, false));
}

#[test]
fn shift_left() {
    assert_eq!(asl(0b1000_0000), (0, true));
    assert_eq!(asl(0b0000_0000), (0, false));
    assert_eq!(asl(0b0000_0001), (0b000_0010, false));
    assert_eq!(rol(0b1000_0000, false), (0, true));
    assert_eq!(rol(0b1000_0000, true), (1, true));
    assert_eq!(rol(0b0000_0001, false), (2, false));
    assert_eq!(rol(0b0000_0001, true), (0b0000_0011, false));
    assert_eq!(rol(0b0100_0000, false), (0b1000_0000, false));
}

#[test]
fn shift_right() {
    assert_eq!(lsr(0b0000_0001), (0, true));
    assert_eq!(lsr(0b0000_0000), (0, false));
    assert_eq!(lsr(0b1000_0000), (0b0100_0000, false));
    assert_eq!(lsr(0b1000_0001), (0b0100_0000, true));
    assert_eq!(ror(0b0000_0001, false), (0, true));
    assert_eq!(ror(0b0000_0001, true), (0b1000_0000, true));
    assert_eq!(ror(0b0000_0010, false), (0b0000_0001, false));
    assert_eq!(ror(0b1000_0000, false), (0b0100_0000, false));
    assert_eq!(ror(0b1000_0000, true), (0b1100_0000, false));
}

#[test]
fn add_then_sub_returns_to_start() {
    // the carry out differs from the carry in: the round trip recovers
    // the first operand
    let (r, c, _) = add_with_carry(10, 250, false);
    assert_eq!((r, c), (4, true));
    let (back, _, _) = sub_with_carry(r, 250, c);
    assert_eq!(back, 10);

    let (r, c, _) = add_with_carry(30, 12, true);
    assert_eq!((r, c), (43, false));
    let (back, _, _) = sub_with_carry(r, 12, c);
    assert_eq!(back, 30);

    // with carry in and carry out agreeing the round trip is off by one
    let (r, c, _) = add_with_carry(0, 0, false);
    assert_eq!((r, c), (0, false));
    let (back, _, _) = sub_with_carry(r, 0, c);
    assert_eq!(back, 255);
}

#[test]
fn shift_round_trips() {
    for value in 0..=255u8 {
        let (left, carry) = rol(value, false);
        let (back, _) = ror(left, carry);
        assert_eq!(back, value);
        let (right, carry) = ror(value, false);
        let (back, _) = rol(right, carry);
        assert_eq!(back, value);
    }
}
