use bbc_b::cpu::CPU;
use bbc_b::disassemble::{disassemble, Chunks};
use bbc_b::instructions::{acc_op, AccOp, Instruction};
use bbc_b::memory::{Address, MemoryBus};
use bbc_b::ram::RAM;
use bbc_b::registers::{Flag, Status};

#[test]
fn test_adc_70_plus_70() {
    let mut accumulator = 0x70;
    let mut status = Status::new();
    assert!(!status.has(Flag::C));
    acc_op(AccOp::Adc, &mut accumulator, &mut status, 0x70);
    assert_eq!(accumulator, 0xE0);
    assert!(!status.has(Flag::C));
    assert!(status.has(Flag::N));
    assert!(status.has(Flag::V));
    assert!(!status.has(Flag::Z));
}

#[test]
fn test_adc_d0_plus_90() {
    let mut accumulator = 0xD0;
    let mut status = Status::new();
    assert!(!status.has(Flag::C));
    acc_op(AccOp::Adc, &mut accumulator, &mut status, 0x90);
    assert_eq!(accumulator, 0x60);
    assert!(status.has(Flag::C));
    assert!(!status.has(Flag::N));
    assert!(status.has(Flag::V));
    assert!(!status.has(Flag::Z));
}

#[test]
fn test_adc_d1_plus_d1() {
    let mut accumulator = 0xD1;
    let mut status = Status::new();
    assert!(!status.has(Flag::C));
    acc_op(AccOp::Adc, &mut accumulator, &mut status, 0xD1);
    assert_eq!(accumulator, 0xA2);
    assert!(status.has(Flag::C));
    assert!(status.has(Flag::N));
    assert!(!status.has(Flag::V));
    assert!(!status.has(Flag::Z));
}

#[test]
fn test_sbc_50_minus_f0() {
    let mut accumulator = 0x50;
    let mut status = Status::new();
    status.set_flag(Flag::Z, true);
    status.set_flag(Flag::C, true);
    acc_op(AccOp::Sbc, &mut accumulator, &mut status, 0xF0);
    assert_eq!(accumulator, 0x60);
    assert!(!status.has(Flag::C));
    assert!(!status.has(Flag::N));
    assert!(!status.has(Flag::V)); // + minus - = +, no overflow
    assert!(!status.has(Flag::Z));
}

#[test]
fn test_sbc_bf_minus_40() {
    let mut accumulator = 0xBF;
    let mut status = Status::new();
    status.set_flag(Flag::C, true);
    acc_op(AccOp::Sbc, &mut accumulator, &mut status, 0x40);
    assert_eq!(accumulator, 0x7F);
    assert!(status.has(Flag::C)); // no borrow
    assert!(!status.has(Flag::N));
    assert!(!status.has(Flag::V));
    assert!(!status.has(Flag::Z));
}

#[test]
fn test_sbc_d0_minus_70() {
    //    D0 = 208 | -48
    //    70 = 112 | 112
    //    -------------- -
    // (1)60 = 96  |  96
    let mut accumulator = 0xd0;
    let mut status = Status::new();
    status.set_flag(Flag::C, true);
    acc_op(AccOp::Sbc, &mut accumulator, &mut status, 0x70);
    assert_eq!(accumulator, 0x60);
    assert!(status.has(Flag::C)); // no borrow
    assert!(!status.has(Flag::N));
    assert!(!status.has(Flag::V));
    assert!(!status.has(Flag::Z));
}

#[test]
fn step_by_step() {
    let mut cpu = CPU::new();
    let mut mem = RAM::new();
    let addr = Address::from(0);

    mem.write(addr, 0x69); // ADC #0xFF
    mem.write(addr.next(), 0xFF);
    mem.write(addr.next().next(), 0x65); // ADC &0x00 (=0x69)

    assert_eq!(cpu.registers.a, 0);
    assert!(!cpu.registers.p.has(Flag::C));
    assert_eq!(cpu.registers.pc.to_u16(), 0);
    let inst = Instruction::lookup(mem.read(addr));
    inst.execute(&mut cpu.registers, &mut mem);
    assert_eq!(cpu.registers.a, 0xFF);
    assert!(!cpu.registers.p.has(Flag::C));
    assert_eq!(cpu.registers.pc.to_u16(), 2);

    let inst = Instruction::lookup(mem.read(cpu.registers.pc));
    inst.execute(&mut cpu.registers, &mut mem);
    assert_eq!(cpu.registers.a, 0x68);
    assert!(cpu.registers.p.has(Flag::C));
    assert_eq!(cpu.registers.pc.to_u16(), 4);

    cpu.registers.pc = addr; // reset; add 0xFF + carry
    assert_eq!(cpu.registers.a, 0x68);
    assert!(cpu.registers.p.has(Flag::C));
    assert_eq!(cpu.registers.pc.to_u16(), 0);
    let inst = Instruction::lookup(mem.read(cpu.registers.pc));
    inst.execute(&mut cpu.registers, &mut mem);
    assert_eq!(cpu.registers.a, 0x68);
    assert!(cpu.registers.p.has(Flag::C));
    assert_eq!(cpu.registers.pc.to_u16(), 2);

    cpu.registers.pc = addr; // reset; add 0xFF without carry
    cpu.registers.p.set(Flag::C, false);
    assert_eq!(cpu.registers.a, 0x68);
    assert!(!cpu.registers.p.has(Flag::C));
    assert_eq!(cpu.registers.pc.to_u16(), 0);
    let inst = Instruction::lookup(mem.read(cpu.registers.pc));
    inst.execute(&mut cpu.registers, &mut mem);
    assert_eq!(cpu.registers.a, 0x67); // 0x68 - 1
    assert!(cpu.registers.p.has(Flag::C));
    assert_eq!(cpu.registers.pc.to_u16(), 2);
}

#[test]
fn display_instructions() {
    // bunch of interesting looking opcodes
    for opcode in 0xb4..0xc1u16 {
        println!("ADDR  {:}", disassemble(&[opcode as u8, 0x12, 0x34]));
    }
}

const PROGRAM: [u8; 38] = [
    0xA9, 0x01, // LDA #1
    0x69, 0x07, // ADC #7
    0x65, 0x01, // ADC &01
    0xA2, 0x01, // LDX #1
    0x75, 0x02, // ADC &02,X
    0x6D, 0x01, 0x80, // ADC &8001
    0xA2, 0x08, // LDX #8
    0x7D, 0x00, 0x80, // ADC &8000,X
    0xA0, 0x04, // LDY #4
    0x79, 0x00, 0x80, // ADC &8000,Y
    0xA2, 0x05, // LDX #5
    0x61, 0x03, // ADC (&03,X)
    0xA0, 0x10, // LDY #16
    0x71, 0x0F, // ADC (&0F),Y
    0x0A, // ASL A
    0xF0, 0x02, // BEQ pc + 2
    0x90, 0xFB, // BCC pc - 5
    0xEA, // NOP :)
    0xFF, // Something invalid -- the end!
];

#[test]
fn display_program() {
    let mut addr = Address::from(0);
    let mut chunks = Chunks::new(&PROGRAM);
    while let Some(bytes) = chunks.next() {
        println!("{:?} {}", addr, disassemble(bytes));
        assert!(bytes.len() <= 3);
        addr.inc_by(bytes.len() as u8);
    }
}
