use bbc_b::cpu::{stop_after, stop_when, CPU};
use bbc_b::memory::{Address, MemoryBus};
use bbc_b::ram::RAM;
use bbc_b::registers::Flag;

const PROGRAM: [u8; 38] = [
    0xA9, 0x01, // LDA #1
    0x69, 0x07, // ADC #7
    0x65, 0x01, // ADC &01
    0xA2, 0x01, // LDX #1
    0x75, 0x02, // ADC &02,X
    0x6D, 0x01, 0x80, // ADC &8001
    0xA2, 0x08, // LDX #8
    0x7D, 0x00, 0x80, // ADC &8000,X
    0xA0, 0x04, // LDY #4
    0x79, 0x00, 0x80, // ADC &8000,Y
    0xA2, 0x05, // LDX #5
    0x61, 0x03, // ADC (&03,X)
    0xA0, 0x10, // LDY #16
    0x71, 0x0F, // ADC (&0F),Y
    0x0A, // ASL A
    0xF0, 0x02, // BEQ pc + 2
    0x90, 0xFB, // BCC pc - 5
    0xEA, // NOP :)
    0xFF, // Something invalid -- the end!
];

#[test]
fn test_program() {
    let start = Address::from(0);
    let mut ram = RAM::new();
    let _size = ram.load_at(&PROGRAM, start);
    let mut cpu = CPU::new();

    const NOP: u8 = 0xEA;
    cpu.run(&mut ram, &stop_when::<NOP, RAM>);
    let regs = &mut cpu.registers;
    assert_eq!(regs.a, 0);
    assert_eq!(regs.x, 5);
    assert_eq!(regs.y, 16);
    assert_eq!(regs.s.to_u8(), 0xFF);
    assert!(regs.p.has(Flag::C));
    assert!(!regs.p.has(Flag::V));
    assert!(!regs.p.has(Flag::N));
    assert!(regs.p.has(Flag::Z));
}

#[test]
fn another_test() {
    // addr instr     disass        |AC XR YR SP|nvdizc|#
    // EB14 38        SEC           |C0 07 00 F9|000111|2
    // EB15 E9 40     SBC #$40      |80 07 00 F9|100101|2
    // EB17 4A        LSR A         |40 07 00 F9|000100|2
    let mut ram = RAM::new();
    let start = Address::from(0xEB14);
    ram.load_at(&[0x38, 0xE9, 0x40, 0x4A], start);
    let mut cpu = CPU::new();
    cpu.registers.a = 0xC0;
    cpu.registers.pc = start;
    cpu.registers.p.set(Flag::I, true);
    cpu.registers.p.set(Flag::Z, true);
    assert_eq!(cpu.registers.p.has(Flag::C), false);
    cpu.step(&mut ram); // SEC
    assert_eq!(cpu.registers.p.has(Flag::C), true);
    cpu.step(&mut ram);
    assert_eq!(cpu.registers.a, 0x80);
    assert_eq!(cpu.registers.p.has(Flag::C), true);
    assert_eq!(cpu.registers.p.has(Flag::N), true);
    assert_eq!(cpu.registers.p.has(Flag::V), false);
    assert_eq!(cpu.registers.p.has(Flag::Z), false);
    cpu.step(&mut ram);
    assert_eq!(cpu.registers.a, 0x40);
    assert_eq!(cpu.registers.p.has(Flag::C), false);
    assert_eq!(cpu.registers.p.has(Flag::N), false);
    assert_eq!(cpu.registers.p.has(Flag::V), false);
    assert_eq!(cpu.registers.p.has(Flag::Z), false);
}

#[test]
fn euclidi_gcd() {
    // Euclid's algorithm for finding the Greatest Common Denominator

    const EUCLID: [u8; 34] = [
        // :algo (&1008)
        0xa5, 0x00, // LDA &00
        // :algo_ (&100a)
        0x38, // SEC
        0xe5, 0x01, // SBC &01
        0xf0, 0x07, // BEQ pc + 7 (to :end)
        0x30, 0x08, // BMI pc + 8 (to :swap)
        0x85, 0x00, // STA &00
        0x4c, 0x0a, 0x10, // JMP &100a
        // :end
        0xa5, 0x00, // LDA &00
        0x00, // BRK <--- STOP HERE
        // :swap
        0xa6, 0x00, // LDX &00
        0xa4, 0x01, // LDY &01
        0x86, 0x01, // STX &01
        0x84, 0x00, // STY &00
        0x4c, 0x08, 0x10, // JMP &1008
        0x4c, 0x1c, 0x10, // JMP &101c
        0x4c, 0x1f, 0x10, // JMP &101f
    ];

    let start = Address::from(0x1008);
    let mut ram = RAM::new();
    ram.load_at(&EUCLID, start);

    let mut compute_gcd = |a: u8, b: u8| -> u8 {
        // GCD(&0x00, &0x01) inputs first two bytes in zero page
        ram.write(Address::from(0x0000), a);
        ram.write(Address::from(0x0001), b);
        let mut cpu = CPU::new();
        cpu.registers.pc = start;
        // stop emulation at the BRK instruction at 0x1010
        const BRK: u8 = 0x00;
        cpu.run(&mut ram, &stop_when::<BRK, RAM>);
        // result in accumulator
        cpu.registers.a
    };

    assert_eq!(compute_gcd(35, 21), 7);
    assert_eq!(compute_gcd(135, 90), 45);
    assert_eq!(compute_gcd(255, 180), 15);
    assert_eq!(compute_gcd(54, 180), 18);
}

fn load_program() -> (RAM, Address, Address, Address) {
    // Shortly after the CPU enters START, it spins in a loop waiting for
    // mem[0] to become 0. This never happens unless the INTERRUPT routine
    // is executed. The spin loop either exits after 255 tries with
    // accumulator = 0 (failure) or after the semaphore is freed with
    // accumulator = 1 (success). Execution must stop when reaching BRK and
    // this must be the final BRK, so on exit the pc points at the end of
    // the program.

    const PROGRAM: [u8; 40] = [
        //                  .ORG $FF00
        0xa2, 0xff, // START:    ldx #$FF
        0x86, 0x00, //           stx $00     ; initialize semaphore
        0x20, 0x0d, 0xff, //     jsr loop
        0x4c, 0x27, 0xff, //     jmp END     ; we're done
        0x00, //           brk
        0x00, //           brk
        0x00, //           brk
        0xca, // loop:     dex
        0xf0, 0x07, //           beq timeout ; stop, failed
        0xa5, 0x00, //           lda $00     ; read semaphore
        0xd0, 0xf9, //           bne loop    ; spin back
        0xa9, 0x01, //           lda #1      ; OK
        0x60, //           rts
        0xa9, 0x00, // timeout:  lda #0      ; Failed
        0x60, //           rts
        0x00, //           brk
        0x00, //           brk
        0x00, //           brk
        0xe6, 0x00, // INTERRUPT:inc $00     ; 0xFF1D <- release semaphore
        0x40, //           rti
        0x00, //           brk
        0x00, //           brk
        0x00, //           brk
        0x78, // dummy:    sei         ; don't use this jump
        0x20, 0x1d, 0xff, // jsr INTERRUPT
        0x00, // END:      brk         ; 0xFF27
    ];

    let start = Address::from(0xFF00);
    let end = Address::from(0xFF27);
    let irq_entry = Address::from(0xFF1D);
    let mut ram = RAM::new();
    let _size = ram.load_at(&PROGRAM, start);
    // setup IRQ vector
    let irq_vector = Address::from(0xFFFE);
    ram.write(irq_vector, irq_entry.lo_u8());
    ram.write(irq_vector.next(), irq_entry.hi_u8());

    (ram, start, end, irq_entry)
}

#[test]
fn test_interrupt() {
    let (mut ram, start, end, _) = load_program();

    // Run without interruption
    // - stopped at END label (pc = 0xFF27)
    // - accumulator == 0 on exit -> failure
    // - X == 0 -> watchdog depleted
    let mut cpu = CPU::new();
    cpu.registers.pc = start;

    const BRK: u8 = 0x0;
    cpu.run(&mut ram, &stop_when::<BRK, RAM>);
    let regs = &mut cpu.registers;
    assert_eq!(regs.pc, end);
    assert_eq!(regs.a, 0); // FAIL
    assert_eq!(regs.x, 0);
    assert_eq!(regs.s.to_u8(), 0xFF); // Initial value
    assert!(!regs.p.has(Flag::I));
}

#[test]
fn test_no_interrupt() {
    let (mut ram, start, end, irq_entry) = load_program();

    // Interrupt after 100 "cycles"
    // - stopped at END label (pc = 0xFF27)
    // - accumulator == 1 on exit -> success
    // - X != 0 -> watchdog not depleted
    let mut cpu = CPU::new();
    cpu.registers.pc = start;

    const BRK: u8 = 0x0;
    cpu.run(&mut ram, &stop_after::<100, RAM>);

    // stopped arbitrarily after 100 "cycles"; we're somewhere in the spin loop
    assert_eq!(cpu.registers.pc, Address::from(0xFF0E));
    assert_eq!(cpu.registers.a, 0xFF);

    cpu.handle_irq(&mut ram);
    // We're servicing the interrupt, going step-by-step
    assert_eq!(cpu.registers.pc, irq_entry);
    assert!(cpu.registers.p.has(Flag::I));
    assert!(!cpu.registers.p.has(Flag::B));

    cpu.step(&mut ram); // 1
    assert_eq!(cpu.registers.pc, irq_entry.next().next()); // @ RTI, now
    assert!(cpu.registers.p.has(Flag::I));
    assert!(!cpu.registers.p.has(Flag::B));
    cpu.step(&mut ram); // 2

    assert_eq!(cpu.registers.pc, Address::from(0xFF0E)); // back in the spin loop
    assert!(!cpu.registers.p.has(Flag::I));

    // run till END
    cpu.run(&mut ram, &stop_when::<BRK, RAM>);

    assert_eq!(cpu.registers.pc, end);
    assert_eq!(cpu.registers.a, 1); // SUCCESS
    assert_eq!(cpu.registers.x, 230); // not depleted
    assert_eq!(cpu.registers.s.to_u8(), 0xFF); // Initial value
    assert!(!cpu.registers.p.has(Flag::I));
}
