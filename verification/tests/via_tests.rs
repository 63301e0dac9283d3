use bbc_b::devices::Clocked;
use bbc_b::memory::{Address, MemoryBus};
use bbc_b::mos6522::{BogusPort, VIA, VIA_BIT7};

#[test]
fn via_ca1() {
    let pa = BogusPort::new(1); // CA1 is high
    let pb = BogusPort::new(0);
    let mut via = VIA::new(pa, pb);
    assert!(!via.irq.sense());
    via.write(Address::from(14), VIA_BIT7 | 1 << 1); // set IER_CA1_BIT
    assert!(!via.irq.sense()); // enabled, but CA1 not scanned yet
    via.step(1);
    assert!(via.irq.sense());
    via.write(Address::from(14), 1 << 1); // clear IER_CA1_BIT, mask interrupt
    via.update_ifr_irq(); // re-evaluate IRQ
    assert!(!via.irq.sense());
}

#[test]
fn via_ca2() {
    let pa = BogusPort::new(2); // CA2 is high
    let pb = BogusPort::new(0);
    let mut via = VIA::new(pa, pb);
    assert!(!via.irq.sense());
    via.write(Address::from(14), VIA_BIT7 | 1 << 0); // set IER_CA2_BIT
    assert!(!via.irq.sense()); // enabled, but CA1 not scanned yet
    via.step(1);
    assert!(via.irq.sense());
    via.update_ifr_irq(); // re-evaluate IRQ
    assert!(via.irq.sense());
    via.read(Address::from(1)); // clear by reading from IRA
    via.update_ifr_irq(); // re-evaluate IRQ
    assert!(!via.irq.sense());

    via.step(2); // ca1 raises interrupt again
    assert!(via.irq.sense());

    via.write(Address::from(1), 42); // clear by writing to ORA
    via.update_ifr_irq(); // re-evaluate IRQ
    assert!(!via.irq.sense());
}

#[test]
fn via_timer1() {
    let pa = BogusPort::new(0);
    let pb = BogusPort::new(0);
    let mut via = VIA::new(pa, pb);
    via.write(Address::from(5), 0); // activate t1
    via.step(100);
    assert!(!via.irq.sense());
    via.write(Address::from(14), VIA_BIT7 | 1 << 6); // set IER_T1_BIT
    assert!(via.irq.sense());
    via.write(Address::from(13), 1 << 6); // clear IFR_T1_BIT
    via.update_ifr_irq(); // re-evaluate IRQ
    assert!(!via.irq.sense());
    via.write(Address::from(6), 1); // T1L-low
    // timer won't start till we write to T1 high latch
    assert!(!via.irq.sense());
    assert_eq!(via.port_b.read_pins(0), 0);
    via.write(Address::from(5), 0); // T1C-high, also T1L-low -> T1C-low
    via.step(200);
    assert!(via.irq.sense());
    assert_eq!(via.port_b.read_pins(0), 0); // Auxiliary control bit 7 not set

    // read clears interrupt
    let v = via.read(Address::from(4)); // T1C-low
    via.update_ifr_irq(); // re-evaluate IRQ
    assert!(!via.irq.sense());
    assert_eq!(v, 156); // 255 + 1 (from t1l) - 100 ticks
    // ACR square wave on Port B bit 7
    via.write(Address::from(11), 1 << 7); // ACR_T1_PB7_BIT
    via.write(Address::from(5), 128); // T1C-high; restart timer
    via.step(300);
}

#[test]
fn timer1_periodic_interrupts() {
    // T1 in continuous mode with period 100: the interrupt recurs at
    // 100, 200, 300 and 400 microseconds, each cleared by reading T1C-low
    let mut via = VIA::new(BogusPort::new(0), BogusPort::new(0));
    via.write(Address::from(11), 1 << 6); // ACR: T1 free-run
    via.write(Address::from(14), 0x80 | 1 << 6); // enable T1 interrupt
    via.write(Address::from(6), 100); // T1L-low
    via.write(Address::from(5), 0); // T1C-high: start at 100

    let mut t: u64 = 0;
    for _period in 0..4 {
        // nothing during the period
        for _ in 0..99 {
            t += 1;
            via.step(t);
            assert!(!via.irq.sense());
        }
        t += 1;
        via.step(t);
        assert!(via.irq.sense()); // timeout raises the line
        assert_eq!(via.read(Address::from(13)) & 0x40, 0x40);
        via.read(Address::from(4)); // reading T1C-low clears the flag
        assert_eq!(via.read(Address::from(13)), 0);
    }
}

#[test]
fn timer1_pb7_square_wave() {
    // square-wave mode with period 100: PB7 starts low and toggles once
    // per period, verified over four toggles
    let mut via = VIA::new(BogusPort::new(0), BogusPort::new(0));
    via.write(Address::from(11), 0b1100_0000); // ACR: free-run + PB7 wave
    via.write(Address::from(6), 100); // T1L-low
    via.write(Address::from(5), 0); // T1C-high: start, pulls PB7 low
    assert_eq!(via.port_b.read_pins(0) & 0x80, 0);

    let mut t: u64 = 0;
    let mut expected: u8 = 0;
    for _toggle in 0..4 {
        for _ in 0..99 {
            t += 1;
            via.step(t);
            assert_eq!(via.port_b.read_pins(0) & 0x80, expected);
        }
        t += 1;
        via.step(t);
        expected ^= 0x80;
        assert_eq!(via.port_b.read_pins(0) & 0x80, expected);
    }
}

#[test]
fn timer2_one_shot() {
    // T2 in timed-interrupt mode flags its first timeout only; reading
    // T2C-low clears the flag and stops further reporting
    let mut via = VIA::new(BogusPort::new(0), BogusPort::new(0));
    via.write(Address::from(14), 0x80 | 1 << 5); // enable T2 interrupt
    via.write(Address::from(8), 50); // T2L-low
    via.write(Address::from(9), 0); // T2C-high: start at 50
    via.step(49);
    assert!(!via.irq.sense());
    via.step(50);
    assert!(via.irq.sense());
    assert_eq!(via.read(Address::from(13)) & 0x20, 0x20);
    via.read(Address::from(8)); // clears the flag, stops the timer
    assert_eq!(via.read(Address::from(13)), 0);
    via.step(200); // wraps on, but reports nothing further
    assert!(!via.irq.sense());
}
