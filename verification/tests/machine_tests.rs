use bbc_b::cpu::{stop_at, CPU};
use bbc_b::devices::{Clocked, SheilaPage};
use bbc_b::disassemble::disassemble_with_address;
use bbc_b::dispatch::{DevicePage, PageDispatcher};
use bbc_b::keyboard::Keyboard;
use bbc_b::memory::{slice, Address, MemoryBus};
use bbc_b::ram::RAM;

#[test]
fn loop_keyboard() {
    // Excerpt from .scanKeyboard (MOS 1.20):
    // outer loop through the columns, inner loop through the rows

    const START_PC: u16 = 0xF0E3;
    const MOS_CLIP: [u8; 68] = [
        //                .loopKeyboardColumns = f0e3
        0xEA, 0xEA, 0xEA, // NOPs to avoid a jump to code outside scope
        0xa9, 0x7f, //       LDA #%01111111
        0x8d, 0x43, 0xfe, // STA .systemVIADataDirectionRegisterA
        0xa9, 0x03, //       LDA #3
        0x8d, 0x40, 0xfe, // STA .systemVIARegisterB ; stop auto scanning
        0xa9, 0x0f, //       LDA #15
        0x8d, 0x4f, 0xfe, // STA .systemVIARegisterANoHandshake ; column 15
        0xa9, 0x01, //       LDA #1
        0x8d, 0x4d, 0xfe, // STA .systemVIAInterruptFlagRegister
        0x8e, 0x4f, 0xfe, // STX .systemVIARegisterANoHandshake ; select col X
        0x2c, 0x4d, 0xfe, // BIT .systemVIAInterruptFlagRegister
        0xf0, 0x21, //       BEQ .tryNextKeyboardColumn
        0x8a, //             TXA
        //                .loopKeyboardRows
        0xd9, 0xdf, 0x01, // CMP .previousKeyPressed...,Y
        0x90, 0x16, //       BCC .tryNextKeyboardRow
        0x8d, 0x4f, 0xfe, // STA .systemVIARegisterANoHandshake ; select key
        0x2c, 0x4f, 0xfe, // BIT .systemVIARegisterANoHandshake ; key down?
        0x10, 0x0e, //       BPL .tryNextKeyboardRow
        0xEA, 0xEA, //       NOPs for PLP, PHP (no stack in scope)
        0xb0, 0x13, //       BCS .finishKeyboardScanning
        0x48, //             PHA
        0x59, 0x00, 0x00, // EOR $0000,Y
        0x0a, //             ASL
        0xc9, 0x01, //       CMP #1
        0x68, //             PLA
        0xb0, 0x09, //       BCS .finishKeyboardScanning
        //                .tryNextKeyboardRow
        0x18, //             CLC
        0x69, 0x10, //       ADC #16
        0x10, 0xe0, //       BPL .loopKeyboardRows
        //                .tryNextKeyboardColumn
        0xca, //             DEX
        0x10, 0xbd, //       BPL .loopKeyboardColumns
        0x8a, //             TXA
        //                .finishKeyboardScanning
    ];

    let start = Address::from(START_PC);
    let mut ram = RAM::new();
    ram.load_at(&MOS_CLIP, start);
    let mut mem = PageDispatcher::new(ram);
    let sheila = SheilaPage::new(Keyboard::new());

    // configure system VIA DDRB to IIIIOOOO, where the O's map to ic32;
    // written before the device page is registered, this lands in plain RAM
    let system_via_ddrb = Address::from(0xFE42);
    mem.write(system_via_ddrb, 0b0000_1111);

    mem.add_backend(SheilaPage::page(), sheila);

    let mut cpu = CPU::new();

    fn run_loop_keyboard(cpu: &mut CPU, mem: &mut PageDispatcher) {
        cpu.registers.pc = Address::from(START_PC);
        cpu.registers.x = 9;
        cpu.registers.y = 0xEE;
        println!("Entering .loop_keyboard");
        while !stop_at::<0xF127, PageDispatcher>(cpu, mem) {
            let bytes = slice(mem, cpu.registers.pc, 3);
            let dump = disassemble_with_address(cpu.registers.pc, &bytes);
            cpu.step(mem);
            if let Some(sheila) = mem.sheila.as_mut() {
                sheila.step(cpu.cycles);
            }
            println!(
                "{dump:<30} | a:{} x:{} y:{} p:{:?}",
                cpu.registers.a, cpu.registers.x, cpu.registers.y, cpu.registers.p,
            );
        }
    }

    // 1. with no keys pressed
    run_loop_keyboard(&mut cpu, &mut mem);
    assert_eq!(cpu.registers.a, 0xFF);
    assert_eq!(cpu.registers.x, 0xFF);

    // 2. with 'B' key pressed
    let key_code_b = 0x64; // row 6, column 4
    mem.sheila.as_mut().unwrap().system_via.shared.keyboard.press_key_ascii(b'b');
    run_loop_keyboard(&mut cpu, &mut mem);
    assert_eq!(cpu.registers.a, key_code_b);
    assert_eq!(cpu.registers.x, key_code_b & 0x0F);

    // 2 1/2. with 'B' key released (as 1)
    mem.sheila.as_mut().unwrap().system_via.shared.keyboard.release_key_ascii(b'b');
    run_loop_keyboard(&mut cpu, &mut mem);
    assert_eq!(cpu.registers.a, 0xFF);
    assert_eq!(cpu.registers.x, 0xFF);

    // 2. with '|' key pressed
    let key_code_bar = 0x78; // row 7, column 8
    mem.sheila.as_mut().unwrap().system_via.shared.keyboard.press_key_ascii(b'|');
    run_loop_keyboard(&mut cpu, &mut mem);
    assert_eq!(cpu.registers.a, key_code_bar);
    assert_eq!(cpu.registers.x, key_code_bar & 0x0F);
}

#[test]
fn interrupt_or_wiring() {
    // the shared IRQ line is the OR of the CRTC-vsync-fed System VIA and
    // the User VIA; it reports once per raise
    let mut sheila = SheilaPage::new(Keyboard::new());
    assert!(!sheila.sense_irq());

    // CRTC vsync -> System VIA CA1: enable CA1 and step across the 20 ms
    // boundary
    sheila.write(Address::from(0xFE4E), 0x80 | 0x02); // IER: enable CA1
    sheila.step(20_001);
    assert!(sheila.sense_irq());
    assert!(!sheila.sense_irq()); // sense-once: consumed

    // the User VIA asserts the same line through its own timer
    let user = &mut sheila.user_via;
    user.write(Address::from(14), 0x80 | 0x40); // IER: enable T1
    user.write(Address::from(5), 0); // T1C-high: start at 0
    user.step(1); // immediate timeout
    assert!(sheila.sense_irq());
    assert!(!sheila.sense_irq());

    // clearing the one pending source leaves the line quiet
    sheila.write(Address::from(0xFE4D), 0x7F); // clear all System VIA flags
    sheila.user_via.write(Address::from(13), 0x7F);
    sheila.step(20_002); // no boundary crossed, no new source
    assert!(!sheila.sense_irq());
}

#[test]
fn sheila_unmapped_ranges_read_zero() {
    let mut sheila = SheilaPage::new(Keyboard::new());
    // CRTC and ACIA stubs, and unmapped ranges, read back the bogus value
    assert_eq!(sheila.read(Address::from(0xFE00)), 0);
    assert_eq!(sheila.read(Address::from(0xFE08)), 0);
    assert_eq!(sheila.read(Address::from(0xFE20)), 0);
    assert_eq!(sheila.read(Address::from(0xFEE0)), 0);
    // the VIA ranges answer: IER reads with bit 7 set
    assert_eq!(sheila.read(Address::from(0xFE4E)), 0x80);
    assert_eq!(sheila.read(Address::from(0xFE6E)), 0x80);
}

#[test]
fn dispatcher_routes_by_page() {
    let mut mem = PageDispatcher::new(RAM::new());
    mem.write(Address::from(0xFE40), 0x55); // lands in RAM: no device yet
    assert_eq!(mem.read(Address::from(0xFE40)), 0x55);

    let mut mem = PageDispatcher::new(RAM::new());
    mem.add_backend(SheilaPage::page(), SheilaPage::new(Keyboard::new()));
    mem.write(Address::from(0x1234), 0x42);
    assert_eq!(mem.read(Address::from(0x1234)), 0x42);
    // SHEILA page now answers instead of RAM
    assert_eq!(mem.read(Address::from(0xFE4E)), 0x80); // System VIA IER
    assert_eq!(mem.read(Address::from(0xFE00)), 0x00); // CRTC stub
}

#[test]
fn reset_sequence() {
    let mut ram = RAM::new();
    // reset vector -> 0xD9CD
    ram.write(Address::from(0xFFFC), 0xCD);
    ram.write(Address::from(0xFFFD), 0xD9);
    let mut cpu = CPU::new();
    cpu.reset(&mut ram);
    assert_eq!(cpu.registers.a, 0xAA);
    assert_eq!(cpu.registers.s.to_u8(), 0xFD);
    assert_eq!(cpu.registers.pc.to_u16(), 0xD9CD);
    assert_eq!(cpu.cycles, 9);
}

#[test]
fn load_hex_image() {
    let mut ram = RAM::new();
    let r = ram.load_hex(b"1000: a9 01 60 \n");
    assert_eq!(r, Some((Address::from(0x1000), 3)));
    assert_eq!(ram.read(Address::from(0x1000)), 0xA9);
    assert_eq!(ram.read(Address::from(0x1001)), 0x01);
    assert_eq!(ram.read(Address::from(0x1002)), 0x60);

    // an in-line label must match the current position
    let mut ram = RAM::new();
    assert_eq!(
        ram.load_hex(b"1000: a9 1001: 02 "),
        Some((Address::from(0x1000), 2))
    );
    let mut ram = RAM::new();
    assert_eq!(ram.load_hex(b"1000: a9 1003: 02 "), None);

    // a byte over 0xFF, or a missing start label, is malformed
    let mut ram = RAM::new();
    assert_eq!(ram.load_hex(b"1000: 1a9 "), None);
    let mut ram = RAM::new();
    assert_eq!(ram.load_hex(b"a9 60 "), None);
}
