//! The 6502 instruction engine: opcode decode, addressing modes, the
//! per-instruction semantic effect, and interrupt entry sequencing.
//!
//! Every instruction's effect on the register file and the memory bus is
//! pinned down by a specification interpreter: `spec_execute` gives, for a
//! decoded instruction, exactly the registers and memory view the handler
//! leaves behind, composed from the per-mode address and value fetches.

use vstd::prelude::*;

use crate::alu;
use crate::memory::{spec_le_bytes, spec_read_address, Address, MemoryBus};
use crate::registers::{Flag, Registers, StackPointer, Status, STATUS_RESERVED};

verus! {

/// Instruction mnemonics. `UND` marks table slots with no documented
/// instruction; executing one is a fatal error, ruled out by contract.
#[derive(Clone, Copy, PartialEq, Eq, Structural, Debug)]
pub enum Mnemonic {
    ADC,
    AND,
    ASL,
    BCC,
    BCS,
    BEQ,
    BIT,
    BMI,
    BNE,
    BPL,
    BRK,
    BVC,
    BVS,
    CLC,
    CLD,
    CLI,
    CLV,
    CMP,
    CPX,
    CPY,
    DEC,
    DEX,
    DEY,
    EOR,
    INC,
    INX,
    INY,
    JMP,
    JSR,
    LDA,
    LDX,
    LDY,
    LSR,
    NOP,
    ORA,
    PHA,
    PHP,
    PLA,
    PLP,
    ROL,
    ROR,
    RTI,
    RTS,
    SBC,
    SEC,
    SED,
    SEI,
    STA,
    STX,
    STY,
    TAX,
    TAY,
    TSX,
    TXA,
    TXS,
    TYA,
}

/// The three-letter text of a mnemonic.
pub open spec fn spec_mnemonic_text(m: Mnemonic) -> Seq<char> {
    match m {
        Mnemonic::ADC => "ADC"@,
        Mnemonic::AND => "AND"@,
        Mnemonic::ASL => "ASL"@,
        Mnemonic::BCC => "BCC"@,
        Mnemonic::BCS => "BCS"@,
        Mnemonic::BEQ => "BEQ"@,
        Mnemonic::BIT => "BIT"@,
        Mnemonic::BMI => "BMI"@,
        Mnemonic::BNE => "BNE"@,
        Mnemonic::BPL => "BPL"@,
        Mnemonic::BRK => "BRK"@,
        Mnemonic::BVC => "BVC"@,
        Mnemonic::BVS => "BVS"@,
        Mnemonic::CLC => "CLC"@,
        Mnemonic::CLD => "CLD"@,
        Mnemonic::CLI => "CLI"@,
        Mnemonic::CLV => "CLV"@,
        Mnemonic::CMP => "CMP"@,
        Mnemonic::CPX => "CPX"@,
        Mnemonic::CPY => "CPY"@,
        Mnemonic::DEC => "DEC"@,
        Mnemonic::DEX => "DEX"@,
        Mnemonic::DEY => "DEY"@,
        Mnemonic::EOR => "EOR"@,
        Mnemonic::INC => "INC"@,
        Mnemonic::INX => "INX"@,
        Mnemonic::INY => "INY"@,
        Mnemonic::JMP => "JMP"@,
        Mnemonic::JSR => "JSR"@,
        Mnemonic::LDA => "LDA"@,
        Mnemonic::LDX => "LDX"@,
        Mnemonic::LDY => "LDY"@,
        Mnemonic::LSR => "LSR"@,
        Mnemonic::NOP => "NOP"@,
        Mnemonic::ORA => "ORA"@,
        Mnemonic::PHA => "PHA"@,
        Mnemonic::PHP => "PHP"@,
        Mnemonic::PLA => "PLA"@,
        Mnemonic::PLP => "PLP"@,
        Mnemonic::ROL => "ROL"@,
        Mnemonic::ROR => "ROR"@,
        Mnemonic::RTI => "RTI"@,
        Mnemonic::RTS => "RTS"@,
        Mnemonic::SBC => "SBC"@,
        Mnemonic::SEC => "SEC"@,
        Mnemonic::SED => "SED"@,
        Mnemonic::SEI => "SEI"@,
        Mnemonic::STA => "STA"@,
        Mnemonic::STX => "STX"@,
        Mnemonic::STY => "STY"@,
        Mnemonic::TAX => "TAX"@,
        Mnemonic::TAY => "TAY"@,
        Mnemonic::TSX => "TSX"@,
        Mnemonic::TXA => "TXA"@,
        Mnemonic::TXS => "TXS"@,
        Mnemonic::TYA => "TYA"@,
    }
}

impl Mnemonic {
    pub fn to_str(&self) -> (r: &'static str)
        ensures
            r@ == spec_mnemonic_text(*self),
    {
        match self {
            Mnemonic::ADC => "ADC",
            Mnemonic::AND => "AND",
            Mnemonic::ASL => "ASL",
            Mnemonic::BCC => "BCC",
            Mnemonic::BCS => "BCS",
            Mnemonic::BEQ => "BEQ",
            Mnemonic::BIT => "BIT",
            Mnemonic::BMI => "BMI",
            Mnemonic::BNE => "BNE",
            Mnemonic::BPL => "BPL",
            Mnemonic::BRK => "BRK",
            Mnemonic::BVC => "BVC",
            Mnemonic::BVS => "BVS",
            Mnemonic::CLC => "CLC",
            Mnemonic::CLD => "CLD",
            Mnemonic::CLI => "CLI",
            Mnemonic::CLV => "CLV",
            Mnemonic::CMP => "CMP",
            Mnemonic::CPX => "CPX",
            Mnemonic::CPY => "CPY",
            Mnemonic::DEC => "DEC",
            Mnemonic::DEX => "DEX",
            Mnemonic::DEY => "DEY",
            Mnemonic::EOR => "EOR",
            Mnemonic::INC => "INC",
            Mnemonic::INX => "INX",
            Mnemonic::INY => "INY",
            Mnemonic::JMP => "JMP",
            Mnemonic::JSR => "JSR",
            Mnemonic::LDA => "LDA",
            Mnemonic::LDX => "LDX",
            Mnemonic::LDY => "LDY",
            Mnemonic::LSR => "LSR",
            Mnemonic::NOP => "NOP",
            Mnemonic::ORA => "ORA",
            Mnemonic::PHA => "PHA",
            Mnemonic::PHP => "PHP",
            Mnemonic::PLA => "PLA",
            Mnemonic::PLP => "PLP",
            Mnemonic::ROL => "ROL",
            Mnemonic::ROR => "ROR",
            Mnemonic::RTI => "RTI",
            Mnemonic::RTS => "RTS",
            Mnemonic::SBC => "SBC",
            Mnemonic::SEC => "SEC",
            Mnemonic::SED => "SED",
            Mnemonic::SEI => "SEI",
            Mnemonic::STA => "STA",
            Mnemonic::STX => "STX",
            Mnemonic::STY => "STY",
            Mnemonic::TAX => "TAX",
            Mnemonic::TAY => "TAY",
            Mnemonic::TSX => "TSX",
            Mnemonic::TXA => "TXA",
            Mnemonic::TXS => "TXS",
            Mnemonic::TYA => "TYA",
        }
    }
}

/// The 6502's addressing forms, as a closed set of strategies.
#[derive(Clone, Copy, PartialEq, Eq, Structural, Debug)]
pub enum AddressingMode {
    Accumulator,
    Implied,
    Immediate,
    ZeroPage,
    ZeroPageX,
    ZeroPageY,
    Relative,
    Absolute,
    AbsoluteX,
    AbsoluteY,
    Indirect,
    IndexedIndirectX,
    IndirectIndexedY,
}

/// The operand size of an addressing mode, in bytes past the opcode.
pub open spec fn spec_mode_size(mode: AddressingMode) -> u8 {
    match mode {
        AddressingMode::Accumulator => 0,
        AddressingMode::Implied => 0,
        AddressingMode::Immediate => 1,
        AddressingMode::ZeroPage => 1,
        AddressingMode::ZeroPageX => 1,
        AddressingMode::ZeroPageY => 1,
        AddressingMode::Relative => 1,
        AddressingMode::Absolute => 2,
        AddressingMode::AbsoluteX => 2,
        AddressingMode::AbsoluteY => 2,
        AddressingMode::Indirect => 2,
        AddressingMode::IndexedIndirectX => 1,
        AddressingMode::IndirectIndexedY => 1,
    }
}

impl AddressingMode {
    pub fn get_size(&self) -> (r: u8)
        ensures
            r == spec_mode_size(*self),
    {
        match self {
            AddressingMode::Accumulator => 0,
            AddressingMode::Implied => 0,
            AddressingMode::Immediate => 1,
            AddressingMode::ZeroPage => 1,
            AddressingMode::ZeroPageX => 1,
            AddressingMode::ZeroPageY => 1,
            AddressingMode::Relative => 1,
            AddressingMode::Absolute => 2,
            AddressingMode::AbsoluteX => 2,
            AddressingMode::AbsoluteY => 2,
            AddressingMode::Indirect => 2,
            AddressingMode::IndexedIndirectX => 1,
            AddressingMode::IndirectIndexedY => 1,
        }
    }

    pub fn get_name(&self) -> (r: &'static str) {
        match self {
            AddressingMode::Accumulator => "accumulator",
            AddressingMode::Implied => "implied",
            AddressingMode::Immediate => "immediate",
            AddressingMode::ZeroPage => "zero page",
            AddressingMode::ZeroPageX => "zero page X",
            AddressingMode::ZeroPageY => "zero page Y",
            AddressingMode::Relative => "relative",
            AddressingMode::Absolute => "absolute",
            AddressingMode::AbsoluteX => "absolute X",
            AddressingMode::AbsoluteY => "absolute Y",
            AddressingMode::Indirect => "indirect",
            AddressingMode::IndexedIndirectX => "indexed indirect X",
            AddressingMode::IndirectIndexedY => "indirect indexed Y",
        }
    }
}

/// The registers with the program counter moved forward by `n` bytes.
pub open spec fn spec_pc_plus(regs: Registers, n: u8) -> Registers {
    Registers { pc: Address { value: regs.pc.value.wrapping_add(n as u16) }, ..regs }
}

/// The effective address an addressing mode designates, with the memory
/// state its operand reads leave behind. Modes without an effective
/// address (accumulator, implied, immediate) yield address zero untouched;
/// no handler asks them for one.
pub open spec fn spec_get_address<M: MemoryBus>(
    mode: AddressingMode,
    regs: Registers,
    v: M::V,
) -> (u16, M::V) {
    match mode {
        AddressingMode::ZeroPage => {
            let operand = M::read_value(v, regs.pc.value);
            (operand as u16, M::read_state(v, regs.pc.value))
        },
        AddressingMode::ZeroPageX => {
            let operand = M::read_value(v, regs.pc.value);
            (operand.wrapping_add(regs.x) as u16, M::read_state(v, regs.pc.value))
        },
        AddressingMode::ZeroPageY => {
            let operand = M::read_value(v, regs.pc.value);
            (operand.wrapping_add(regs.y) as u16, M::read_state(v, regs.pc.value))
        },
        AddressingMode::Relative => {
            let operand = M::read_value(v, regs.pc.value);
            let target = if operand & 0x80 == 0 {
                regs.pc.value.wrapping_add(operand as u16)
            } else {
                regs.pc.value.wrapping_sub(((!operand).wrapping_add(1)) as u16)
            };
            (target, M::read_state(v, regs.pc.value))
        },
        AddressingMode::Absolute => spec_read_address::<M>(v, regs.pc.value),
        AddressingMode::AbsoluteX => {
            let base = spec_read_address::<M>(v, regs.pc.value);
            (base.0.wrapping_add(regs.x as u16), base.1)
        },
        AddressingMode::AbsoluteY => {
            let base = spec_read_address::<M>(v, regs.pc.value);
            (base.0.wrapping_add(regs.y as u16), base.1)
        },
        AddressingMode::Indirect => {
            let base = spec_read_address::<M>(v, regs.pc.value);
            spec_read_address::<M>(base.1, base.0)
        },
        AddressingMode::IndexedIndirectX => {
            let operand = M::read_value(v, regs.pc.value);
            let v1 = M::read_state(v, regs.pc.value);
            spec_read_address::<M>(v1, operand.wrapping_add(regs.x) as u16)
        },
        AddressingMode::IndirectIndexedY => {
            let operand = M::read_value(v, regs.pc.value);
            let v1 = M::read_state(v, regs.pc.value);
            let base = spec_read_address::<M>(v1, operand as u16);
            (base.0.wrapping_add(regs.y as u16), base.1)
        },
        _ => (0, v),
    }
}

/// The operand value an addressing mode fetches, with the memory state the
/// fetch leaves behind.
pub open spec fn spec_get_value<M: MemoryBus>(
    mode: AddressingMode,
    regs: Registers,
    v: M::V,
) -> (u8, M::V) {
    match mode {
        AddressingMode::Accumulator => (regs.a, v),
        AddressingMode::Implied => (0, v),
        AddressingMode::Immediate => (
            M::read_value(v, regs.pc.value),
            M::read_state(v, regs.pc.value),
        ),
        _ => {
            let a = spec_get_address::<M>(mode, regs, v);
            (M::read_value(a.1, a.0), M::read_state(a.1, a.0))
        },
    }
}

/// Stores a just-computed result: into the accumulator for accumulator
/// mode, else at the mode's effective address (recomputed, re-reading the
/// operand bytes, as the hardware's read-modify-write cycle does).
pub open spec fn spec_write_mode<M: MemoryBus>(
    mode: AddressingMode,
    regs: Registers,
    v: M::V,
    value: u8,
) -> (Registers, M::V) {
    if mode == AddressingMode::Accumulator {
        (Registers { a: value, ..regs }, v)
    } else {
        let a = spec_get_address::<M>(mode, regs, v);
        (regs, M::write_state(a.1, a.0, value))
    }
}

/// A push: the value goes to the stack page at the current pointer, which
/// then steps down.
pub open spec fn spec_stack_push<M: MemoryBus>(regs: Registers, v: M::V, value: u8) -> (
    Registers,
    M::V,
) {
    let v1 = M::write_state(v, regs.s.spec_address(), value);
    (Registers { s: StackPointer { offset: regs.s.offset.wrapping_sub(1) }, ..regs }, v1)
}

/// A pull: the pointer steps up, then the value is read from the stack page.
pub open spec fn spec_stack_pull<M: MemoryBus>(regs: Registers, v: M::V) -> (
    u8,
    Registers,
    M::V,
) {
    let s1 = StackPointer { offset: regs.s.offset.wrapping_add(1) };
    let value = M::read_value(v, s1.spec_address());
    (value, Registers { s: s1, ..regs }, M::read_state(v, s1.spec_address()))
}

/// The operations that combine an operand into the accumulator.
#[derive(Clone, Copy, PartialEq, Eq, Structural, Debug)]
pub enum AccOp {
    Adc,
    And,
    Eor,
    Ora,
    Sbc,
}

/// The accumulator and status after an accumulator operation.
pub open spec fn spec_acc_op(op: AccOp, a: u8, p: Status, value: u8) -> (u8, Status) {
    match op {
        AccOp::Adc => {
            let r = alu::spec_add_with_carry(a, value, p.spec_has(Flag::C));
            (
                r.0,
                p.spec_set(Flag::C, r.1).spec_set(Flag::N, r.0 & 0x80 != 0).spec_set(
                    Flag::V,
                    r.2,
                ).spec_set(Flag::Z, r.0 == 0),
            )
        },
        AccOp::Sbc => {
            let r = alu::spec_sub_with_carry(a, value, p.spec_has(Flag::C));
            (
                r.0,
                p.spec_set(Flag::C, r.1).spec_set(Flag::N, r.0 & 0x80 != 0).spec_set(
                    Flag::V,
                    r.2,
                ).spec_set(Flag::Z, r.0 == 0),
            )
        },
        AccOp::And => (alu::spec_and(a, value), p.spec_set_nz(alu::spec_and(a, value))),
        AccOp::Eor => (alu::spec_eor(a, value), p.spec_set_nz(alu::spec_eor(a, value))),
        AccOp::Ora => (alu::spec_ora(a, value), p.spec_set_nz(alu::spec_ora(a, value))),
    }
}

/// Applies an accumulator operation, updating the flags it affects.
pub fn acc_op(op: AccOp, accumulator: &mut u8, status: &mut Status, value: u8)
    ensures
        (*final(accumulator), *final(status)) == spec_acc_op(
            op,
            *old(accumulator),
            *old(status),
            value,
        ),
{
    match op {
        AccOp::Adc => {
            let (result, carry, overflow) = alu::add_with_carry(
                *accumulator,
                value,
                status.has(Flag::C),
            );
            *accumulator = result;
            status.set(Flag::C, carry);
            status.set(Flag::N, result & 0x80 != 0);
            status.set(Flag::V, overflow);
            status.set(Flag::Z, result == 0);
        },
        AccOp::Sbc => {
            let (result, carry, overflow) = alu::sub_with_carry(
                *accumulator,
                value,
                status.has(Flag::C),
            );
            *accumulator = result;
            status.set(Flag::C, carry);
            status.set(Flag::N, result & 0x80 != 0);
            status.set(Flag::V, overflow);
            status.set(Flag::Z, result == 0);
        },
        AccOp::And => {
            let result = alu::and(*accumulator, value);
            status.set_nz_from_u8(result);
            *accumulator = result;
        },
        AccOp::Eor => {
            let result = alu::eor(*accumulator, value);
            status.set_nz_from_u8(result);
            *accumulator = result;
        },
        AccOp::Ora => {
            let result = alu::ora(*accumulator, value);
            status.set_nz_from_u8(result);
            *accumulator = result;
        },
    }
}

/// The read-modify-write operations: shifts, rotates, increment, decrement.
#[derive(Clone, Copy, PartialEq, Eq, Structural, Debug)]
pub enum RefOp {
    Asl,
    Rol,
    Lsr,
    Ror,
    Increment,
    Decrement,
}

/// The rewritten value and status after a read-modify-write operation.
pub open spec fn spec_ref_op(op: RefOp, data: u8, p: Status) -> (u8, Status) {
    match op {
        RefOp::Asl => {
            let r = alu::spec_asl(data);
            (r.0, p.spec_set(Flag::C, r.1).spec_set_nz(r.0))
        },
        RefOp::Rol => {
            let r = alu::spec_rol(data, p.spec_has(Flag::C));
            (r.0, p.spec_set(Flag::C, r.1).spec_set_nz(r.0))
        },
        RefOp::Lsr => {
            let r = alu::spec_lsr(data);
            (r.0, p.spec_set(Flag::C, r.1).spec_set_nz(r.0))
        },
        RefOp::Ror => {
            let r = alu::spec_ror(data, p.spec_has(Flag::C));
            (r.0, p.spec_set(Flag::C, r.1).spec_set_nz(r.0))
        },
        RefOp::Increment => (alu::spec_inc(data), p.spec_set_nz(alu::spec_inc(data))),
        RefOp::Decrement => (alu::spec_dec(data), p.spec_set_nz(alu::spec_dec(data))),
    }
}

/// Applies a read-modify-write operation to a fetched byte.
pub fn ref_op(op: RefOp, data: &mut u8, status: &mut Status)
    ensures
        (*final(data), *final(status)) == spec_ref_op(op, *old(data), *old(status)),
{
    match op {
        RefOp::Asl => {
            let (result, carry) = alu::asl(*data);
            status.set(Flag::C, carry);
            status.set_nz_from_u8(result);
            *data = result;
        },
        RefOp::Rol => {
            let (result, carry) = alu::rol(*data, status.has(Flag::C));
            status.set(Flag::C, carry);
            status.set_nz_from_u8(result);
            *data = result;
        },
        RefOp::Lsr => {
            let (result, carry) = alu::lsr(*data);
            status.set(Flag::C, carry);
            status.set_nz_from_u8(result);
            *data = result;
        },
        RefOp::Ror => {
            let (result, carry) = alu::ror(*data, status.has(Flag::C));
            status.set(Flag::C, carry);
            status.set_nz_from_u8(result);
            *data = result;
        },
        RefOp::Increment => {
            let result = alu::inc(*data);
            status.set_nz_from_u8(result);
            *data = result;
        },
        RefOp::Decrement => {
            let result = alu::dec(*data);
            status.set_nz_from_u8(result);
            *data = result;
        },
    }
}

/// One of the three 8-bit registers an instruction may name.
#[derive(Clone, Copy, PartialEq, Eq, Structural, Debug)]
pub enum IndexReg {
    A,
    X,
    Y,
}

pub open spec fn spec_reg_value(reg: IndexReg, regs: Registers) -> u8 {
    match reg {
        IndexReg::A => regs.a,
        IndexReg::X => regs.x,
        IndexReg::Y => regs.y,
    }
}

pub open spec fn spec_reg_store(reg: IndexReg, regs: Registers, value: u8) -> Registers {
    match reg {
        IndexReg::A => Registers { a: value, ..regs },
        IndexReg::X => Registers { x: value, ..regs },
        IndexReg::Y => Registers { y: value, ..regs },
    }
}

/// A register readable by the transfer instructions: A, X, Y or S.
#[derive(Clone, Copy, PartialEq, Eq, Structural, Debug)]
pub enum TransferReg {
    A,
    X,
    Y,
    S,
}

pub open spec fn spec_transfer_value(reg: TransferReg, regs: Registers) -> u8 {
    match reg {
        TransferReg::A => regs.a,
        TransferReg::X => regs.x,
        TransferReg::Y => regs.y,
        TransferReg::S => regs.s.offset,
    }
}

pub open spec fn spec_transfer_store(reg: TransferReg, regs: Registers, value: u8) -> Registers {
    match reg {
        TransferReg::A => Registers { a: value, ..regs },
        TransferReg::X => Registers { x: value, ..regs },
        TransferReg::Y => Registers { y: value, ..regs },
        TransferReg::S => Registers { s: StackPointer { offset: value }, ..regs },
    }
}

// ---------------------------------------------------------------------------
// Per-handler specifications: the registers and memory view each handler
// leaves behind, given registers already advanced past the opcode byte.
// ---------------------------------------------------------------------------

pub open spec fn spec_by_acc<M: MemoryBus>(
    op: AccOp,
    mode: AddressingMode,
    regs: Registers,
    v: M::V,
) -> (Registers, M::V) {
    let fetched = spec_get_value::<M>(mode, regs, v);
    let regs1 = spec_pc_plus(regs, spec_mode_size(mode));
    let applied = spec_acc_op(op, regs1.a, regs1.p, fetched.0);
    (Registers { a: applied.0, p: applied.1, ..regs1 }, fetched.1)
}

pub open spec fn spec_by_ref<M: MemoryBus>(
    op: RefOp,
    mode: AddressingMode,
    regs: Registers,
    v: M::V,
) -> (Registers, M::V) {
    let fetched = spec_get_value::<M>(mode, regs, v);
    let applied = spec_ref_op(op, fetched.0, regs.p);
    let regs1 = Registers { p: applied.1, ..regs };
    let written = spec_write_mode::<M>(mode, regs1, fetched.1, applied.0);
    (spec_pc_plus(written.0, spec_mode_size(mode)), written.1)
}

pub open spec fn spec_compare<M: MemoryBus>(
    reg: IndexReg,
    mode: AddressingMode,
    regs: Registers,
    v: M::V,
) -> (Registers, M::V) {
    let lhs = spec_reg_value(reg, regs);
    let fetched = spec_get_value::<M>(mode, regs, v);
    let r = alu::spec_sub_with_carry(lhs, fetched.0, true);
    let p1 = regs.p.spec_set(Flag::C, r.1).spec_set(Flag::N, r.0 & 0x80 != 0).spec_set(
        Flag::V,
        r.2,
    ).spec_set(Flag::Z, r.0 == 0);
    (spec_pc_plus(Registers { p: p1, ..regs }, spec_mode_size(mode)), fetched.1)
}

pub open spec fn spec_bit_test<M: MemoryBus>(
    mode: AddressingMode,
    regs: Registers,
    v: M::V,
) -> (Registers, M::V) {
    let fetched = spec_get_value::<M>(mode, regs, v);
    let p1 = alu::spec_bit(regs.a, fetched.0, regs.p);
    (spec_pc_plus(Registers { p: p1, ..regs }, spec_mode_size(mode)), fetched.1)
}

pub open spec fn spec_step_register(reg: IndexReg, up: bool, regs: Registers) -> Registers {
    let value = spec_reg_value(reg, regs);
    let result = if up {
        alu::spec_inc(value)
    } else {
        alu::spec_dec(value)
    };
    let regs1 = spec_reg_store(reg, regs, result);
    Registers { p: regs.p.spec_set_nz(result), ..regs1 }
}

pub open spec fn spec_jump<M: MemoryBus>(mode: AddressingMode, regs: Registers, v: M::V) -> (
    Registers,
    M::V,
) {
    let a = spec_get_address::<M>(mode, regs, v);
    (Registers { pc: Address { value: a.0 }, ..regs }, a.1)
}

pub open spec fn spec_jump_sub<M: MemoryBus>(mode: AddressingMode, regs: Registers, v: M::V) -> (
    Registers,
    M::V,
) {
    let a = spec_get_address::<M>(mode, regs, v);
    let ret = regs.pc.value.wrapping_add(spec_mode_size(mode) as u16).wrapping_sub(1);
    let pushed_hi = spec_stack_push::<M>(regs, a.1, crate::memory::spec_hi_u8(ret));
    let pushed_lo = spec_stack_push::<M>(pushed_hi.0, pushed_hi.1, crate::memory::spec_lo_u8(ret));
    (Registers { pc: Address { value: a.0 }, ..pushed_lo.0 }, pushed_lo.1)
}

pub open spec fn spec_return_sub<M: MemoryBus>(regs: Registers, v: M::V) -> (Registers, M::V) {
    let lo = spec_stack_pull::<M>(regs, v);
    let hi = spec_stack_pull::<M>(lo.1, lo.2);
    let ret = spec_le_bytes(lo.0, hi.0);
    (Registers { pc: Address { value: ret.wrapping_add(1) }, ..hi.1 }, hi.2)
}

pub open spec fn spec_return_interrupt<M: MemoryBus>(regs: Registers, v: M::V) -> (
    Registers,
    M::V,
) {
    let st = spec_stack_pull::<M>(regs, v);
    let lo = spec_stack_pull::<M>(st.1, st.2);
    let hi = spec_stack_pull::<M>(lo.1, lo.2);
    let p1 = Status { bits: st.0 | STATUS_RESERVED }.spec_set(Flag::B, false);
    (Registers { p: p1, pc: Address { value: spec_le_bytes(lo.0, hi.0) }, ..hi.1 }, hi.2)
}

pub open spec fn spec_branch<M: MemoryBus>(flag: Flag, set: bool, regs: Registers, v: M::V) -> (
    Registers,
    M::V,
) {
    let a = spec_get_address::<M>(AddressingMode::Relative, regs, v);
    let fallthrough = regs.pc.value.wrapping_add(1);
    let target = a.0.wrapping_add(1);
    let pc1 = if regs.p.spec_has(flag) == set {
        target
    } else {
        fallthrough
    };
    (Registers { pc: Address { value: pc1 }, ..regs }, a.1)
}

pub open spec fn spec_load<M: MemoryBus>(
    reg: IndexReg,
    mode: AddressingMode,
    regs: Registers,
    v: M::V,
) -> (Registers, M::V) {
    let fetched = spec_get_value::<M>(mode, regs, v);
    let regs1 = spec_reg_store(reg, regs, fetched.0);
    let regs2 = Registers { p: regs.p.spec_set_nz(fetched.0), ..regs1 };
    (spec_pc_plus(regs2, spec_mode_size(mode)), fetched.1)
}

pub open spec fn spec_store<M: MemoryBus>(
    reg: IndexReg,
    mode: AddressingMode,
    regs: Registers,
    v: M::V,
) -> (Registers, M::V) {
    let value = spec_reg_value(reg, regs);
    let a = spec_get_address::<M>(mode, regs, v);
    (spec_pc_plus(regs, spec_mode_size(mode)), M::write_state(a.1, a.0, value))
}

pub open spec fn spec_transfer(from: TransferReg, to: TransferReg, regs: Registers) -> Registers {
    let value = spec_transfer_value(from, regs);
    let regs1 = Registers { p: regs.p.spec_set_nz(value), ..regs };
    spec_transfer_store(to, regs1, value)
}

/// A pushable register: the accumulator, or the status byte. A pushed
/// status always carries the Break bit, as BRK and PHP do on hardware.
#[derive(Clone, Copy, PartialEq, Eq, Structural, Debug)]
pub enum PushReg {
    A,
    P,
}

pub open spec fn spec_push_register<M: MemoryBus>(reg: PushReg, regs: Registers, v: M::V) -> (
    Registers,
    M::V,
) {
    let value = match reg {
        PushReg::A => regs.a,
        PushReg::P => 0x10 | regs.p.bits,
    };
    spec_stack_push::<M>(regs, v, value)
}

pub open spec fn spec_pull_accumulator<M: MemoryBus>(regs: Registers, v: M::V) -> (
    Registers,
    M::V,
) {
    let pulled = spec_stack_pull::<M>(regs, v);
    let regs1 = Registers { a: pulled.0, p: pulled.1.p.spec_set_nz(pulled.0), ..pulled.1 };
    (regs1, pulled.2)
}

pub open spec fn spec_pull_status<M: MemoryBus>(regs: Registers, v: M::V) -> (Registers, M::V) {
    let pulled = spec_stack_pull::<M>(regs, v);
    (Registers { p: Status { bits: pulled.0 | STATUS_RESERVED }, ..pulled.1 }, pulled.2)
}

/// Hardware/software interrupt entry: pushes the return address and status,
/// loads the handler address from the vector, and sets interrupt-disable.
pub open spec fn spec_handle_interrupt<M: MemoryBus>(
    vector: u16,
    regs: Registers,
    v: M::V,
) -> (Registers, M::V) {
    let p1 = spec_stack_push::<M>(regs, v, crate::memory::spec_hi_u8(regs.pc.value));
    let p2 = spec_stack_push::<M>(p1.0, p1.1, crate::memory::spec_lo_u8(regs.pc.value));
    let p3 = spec_stack_push::<M>(p2.0, p2.1, p2.0.p.bits);
    let fetched = spec_read_address::<M>(p3.1, vector);
    (
        Registers {
            pc: Address { value: fetched.0 },
            p: p3.0.p.spec_set(Flag::I, true),
            ..p3.0
        },
        fetched.1,
    )
}

pub open spec fn spec_handle_brk<M: MemoryBus>(regs: Registers, v: M::V) -> (Registers, M::V) {
    spec_handle_interrupt::<M>(0xFFFE, Registers { p: regs.p.spec_set(Flag::B, true), ..regs }, v)
}

// ---------------------------------------------------------------------------
// Executable addressing-mode strategies and instruction handlers.
// ---------------------------------------------------------------------------

/// The effective address the mode designates; reads the operand bytes.
pub fn get_address<M: MemoryBus>(mode: AddressingMode, registers: &Registers, memory: &mut M) -> (r:
    Address)
    requires
        old(memory).inv(),
    ensures
        final(memory).inv(),
        r.value == spec_get_address::<M>(mode, *registers, old(memory)@).0,
        final(memory)@ == spec_get_address::<M>(mode, *registers, old(memory)@).1,
{
    match mode {
        AddressingMode::ZeroPage => {
            let operand = memory.read(registers.pc);
            Address::from_le_bytes(operand, 0)
        },
        AddressingMode::ZeroPageX => {
            let operand = memory.read(registers.pc);
            Address::from_le_bytes(operand.wrapping_add(registers.x), 0)
        },
        AddressingMode::ZeroPageY => {
            let operand = memory.read(registers.pc);
            Address::from_le_bytes(operand.wrapping_add(registers.y), 0)
        },
        AddressingMode::Relative => {
            let operand = memory.read(registers.pc);
            let mut address = registers.pc;
            if operand & 0x80 == 0 {
                address.inc_by(operand);
            } else {
                address.dec_by((!operand).wrapping_add(1));
            }
            address
        },
        AddressingMode::Absolute => crate::memory::read_address(memory, registers.pc),
        AddressingMode::AbsoluteX => {
            let mut operand = crate::memory::read_address(memory, registers.pc);
            operand.inc_by(registers.x);
            operand
        },
        AddressingMode::AbsoluteY => {
            let mut operand = crate::memory::read_address(memory, registers.pc);
            operand.inc_by(registers.y);
            operand
        },
        AddressingMode::Indirect => {
            let address = crate::memory::read_address(memory, registers.pc);
            crate::memory::read_address(memory, address)
        },
        AddressingMode::IndexedIndirectX => {
            let operand = memory.read(registers.pc);
            let zero_page_address = operand.wrapping_add(registers.x);
            crate::memory::read_address(memory, Address::from_le_bytes(zero_page_address, 0))
        },
        AddressingMode::IndirectIndexedY => {
            let operand = memory.read(registers.pc);
            let mut address = crate::memory::read_address(
                memory,
                Address::from_le_bytes(operand, 0),
            );
            address.inc_by(registers.y);
            address
        },
        _ => Address::from(0),
    }
}

/// The operand value the mode fetches.
pub fn get_value<M: MemoryBus>(mode: AddressingMode, registers: &Registers, memory: &mut M) -> (r:
    u8)
    requires
        old(memory).inv(),
    ensures
        final(memory).inv(),
        r == spec_get_value::<M>(mode, *registers, old(memory)@).0,
        final(memory)@ == spec_get_value::<M>(mode, *registers, old(memory)@).1,
{
    match mode {
        AddressingMode::Accumulator => registers.a,
        AddressingMode::Implied => 0,
        AddressingMode::Immediate => memory.read(registers.pc),
        _ => {
            let address = get_address(mode, registers, memory);
            memory.read(address)
        },
    }
}

/// Stores a result through the mode: accumulator, or memory at the
/// recomputed effective address.
pub fn write_mode<M: MemoryBus>(
    mode: AddressingMode,
    registers: &mut Registers,
    memory: &mut M,
    value: u8,
)
    requires
        old(memory).inv(),
    ensures
        final(memory).inv(),
        (*final(registers), final(memory)@) == spec_write_mode::<M>(
            mode,
            *old(registers),
            old(memory)@,
            value,
        ),
{
    match mode {
        AddressingMode::Accumulator => {
            registers.a = value;
        },
        _ => {
            let address = get_address(mode, registers, memory);
            memory.write(address, value);
        },
    }
}

/// Pushes a byte at the stack pointer, which then steps down.
pub fn stack_push<M: MemoryBus>(registers: &mut Registers, memory: &mut M, value: u8)
    requires
        old(memory).inv(),
    ensures
        final(memory).inv(),
        (*final(registers), final(memory)@) == spec_stack_push::<M>(
            *old(registers),
            old(memory)@,
            value,
        ),
{
    memory.write(registers.s.to_address(), value);
    registers.s.dec();
}

/// Steps the stack pointer up, then pulls the byte it designates.
pub fn stack_pull<M: MemoryBus>(registers: &mut Registers, memory: &mut M) -> (r: u8)
    requires
        old(memory).inv(),
    ensures
        final(memory).inv(),
        r == spec_stack_pull::<M>(*old(registers), old(memory)@).0,
        *final(registers) == spec_stack_pull::<M>(*old(registers), old(memory)@).1,
        final(memory)@ == spec_stack_pull::<M>(*old(registers), old(memory)@).2,
{
    registers.s.inc();
    memory.read(registers.s.to_address())
}

pub fn by_acc<M: MemoryBus>(
    op: AccOp,
    mode: AddressingMode,
    registers: &mut Registers,
    memory: &mut M,
)
    requires
        old(memory).inv(),
    ensures
        final(memory).inv(),
        (*final(registers), final(memory)@) == spec_by_acc::<M>(
            op,
            mode,
            *old(registers),
            old(memory)@,
        ),
{
    let value = get_value(mode, registers, memory);
    registers.pc.inc_by(mode.get_size());
    let mut a = registers.a;
    let mut p = registers.p;
    acc_op(op, &mut a, &mut p, value);
    registers.a = a;
    registers.p = p;
}

pub fn by_ref<M: MemoryBus>(
    op: RefOp,
    mode: AddressingMode,
    registers: &mut Registers,
    memory: &mut M,
)
    requires
        old(memory).inv(),
    ensures
        final(memory).inv(),
        (*final(registers), final(memory)@) == spec_by_ref::<M>(
            op,
            mode,
            *old(registers),
            old(memory)@,
        ),
{
    let mut value = get_value(mode, registers, memory);
    let mut p = registers.p;
    ref_op(op, &mut value, &mut p);
    registers.p = p;
    write_mode(mode, registers, memory, value);
    registers.pc.inc_by(mode.get_size());
}

pub fn compare<M: MemoryBus>(
    reg: IndexReg,
    mode: AddressingMode,
    registers: &mut Registers,
    memory: &mut M,
)
    requires
        old(memory).inv(),
    ensures
        final(memory).inv(),
        (*final(registers), final(memory)@) == spec_compare::<M>(
            reg,
            mode,
            *old(registers),
            old(memory)@,
        ),
{
    let lhs = match reg {
        IndexReg::A => registers.a,
        IndexReg::X => registers.x,
        IndexReg::Y => registers.y,
    };
    let rhs = get_value(mode, registers, memory);
    let (result, carry, overflow) = alu::sub_with_carry(lhs, rhs, true);
    registers.p.set(Flag::C, carry);
    registers.p.set(Flag::N, result & 0x80 != 0);
    registers.p.set(Flag::V, overflow);
    registers.p.set(Flag::Z, result == 0);
    registers.pc.inc_by(mode.get_size());
}

pub fn bit_test<M: MemoryBus>(mode: AddressingMode, registers: &mut Registers, memory: &mut M)
    requires
        old(memory).inv(),
    ensures
        final(memory).inv(),
        (*final(registers), final(memory)@) == spec_bit_test::<M>(
            mode,
            *old(registers),
            old(memory)@,
        ),
{
    let value = get_value(mode, registers, memory);
    let status = alu::bit(registers.a, value, registers.p);
    registers.p = status;
    registers.pc.inc_by(mode.get_size());
}

/// INX/INY/DEX/DEY: steps an index register and sets N and Z.
pub fn step_register(reg: IndexReg, up: bool, registers: &mut Registers)
    ensures
        *final(registers) == spec_step_register(reg, up, *old(registers)),
{
    let value = match reg {
        IndexReg::A => registers.a,
        IndexReg::X => registers.x,
        IndexReg::Y => registers.y,
    };
    let result = if up {
        alu::inc(value)
    } else {
        alu::dec(value)
    };
    registers.p.set_nz_from_u8(result);
    match reg {
        IndexReg::A => registers.a = result,
        IndexReg::X => registers.x = result,
        IndexReg::Y => registers.y = result,
    }
}

pub fn jump<M: MemoryBus>(mode: AddressingMode, registers: &mut Registers, memory: &mut M)
    requires
        old(memory).inv(),
    ensures
        final(memory).inv(),
        (*final(registers), final(memory)@) == spec_jump::<M>(mode, *old(registers), old(memory)@),
{
    let jump_address = get_address(mode, registers, memory);
    registers.pc = jump_address;
}

pub fn jump_sub<M: MemoryBus>(mode: AddressingMode, registers: &mut Registers, memory: &mut M)
    requires
        old(memory).inv(),
    ensures
        final(memory).inv(),
        (*final(registers), final(memory)@) == spec_jump_sub::<M>(
            mode,
            *old(registers),
            old(memory)@,
        ),
{
    let jump_address = get_address(mode, registers, memory);
    let mut return_address = registers.pc;
    return_address.inc_by(mode.get_size());
    // the 6502 pushes the last byte of the JSR instruction, not the next one
    return_address.dec_by(1);
    stack_push(registers, memory, return_address.hi_u8());
    stack_push(registers, memory, return_address.lo_u8());
    registers.pc = jump_address;
}

pub fn return_sub<M: MemoryBus>(registers: &mut Registers, memory: &mut M)
    requires
        old(memory).inv(),
    ensures
        final(memory).inv(),
        (*final(registers), final(memory)@) == spec_return_sub::<M>(*old(registers), old(memory)@),
{
    let lo = stack_pull(registers, memory);
    let hi = stack_pull(registers, memory);
    let return_address = Address::from_le_bytes(lo, hi);
    registers.pc = return_address.next();
}

pub fn return_interrupt<M: MemoryBus>(registers: &mut Registers, memory: &mut M)
    requires
        old(memory).inv(),
    ensures
        final(memory).inv(),
        (*final(registers), final(memory)@) == spec_return_interrupt::<M>(
            *old(registers),
            old(memory)@,
        ),
{
    let status = stack_pull(registers, memory);
    let lo = stack_pull(registers, memory);
    let hi = stack_pull(registers, memory);
    registers.p = Status::from(status);
    registers.p.set(Flag::B, false);
    registers.pc = Address::from_le_bytes(lo, hi);
}

pub fn branch<M: MemoryBus>(flag: Flag, set: bool, registers: &mut Registers, memory: &mut M)
    requires
        old(memory).inv(),
    ensures
        final(memory).inv(),
        (*final(registers), final(memory)@) == spec_branch::<M>(
            flag,
            set,
            *old(registers),
            old(memory)@,
        ),
{
    let address = get_address(AddressingMode::Relative, registers, memory);
    registers.pc.inc_by(1);
    let target = address.next();
    if registers.p.has(flag) == set {
        registers.pc = target;
    }
}

/// CLC/SEC/CLI/SEI/CLV/CLD/SED: writes one status flag.
pub fn set_flag(flag: Flag, set: bool, registers: &mut Registers)
    ensures
        *final(registers) == (Registers {
            p: old(registers).p.spec_set(flag, set),
            ..*old(registers)
        }),
{
    registers.p.set_flag(flag, set);
}

pub fn load<M: MemoryBus>(
    reg: IndexReg,
    mode: AddressingMode,
    registers: &mut Registers,
    memory: &mut M,
)
    requires
        old(memory).inv(),
    ensures
        final(memory).inv(),
        (*final(registers), final(memory)@) == spec_load::<M>(
            reg,
            mode,
            *old(registers),
            old(memory)@,
        ),
{
    let value = get_value(mode, registers, memory);
    registers.p.set_nz_from_u8(value);
    match reg {
        IndexReg::A => registers.a = value,
        IndexReg::X => registers.x = value,
        IndexReg::Y => registers.y = value,
    }
    registers.pc.inc_by(mode.get_size());
}

pub fn store<M: MemoryBus>(
    reg: IndexReg,
    mode: AddressingMode,
    registers: &mut Registers,
    memory: &mut M,
)
    requires
        old(memory).inv(),
    ensures
        final(memory).inv(),
        (*final(registers), final(memory)@) == spec_store::<M>(
            reg,
            mode,
            *old(registers),
            old(memory)@,
        ),
{
    let value = match reg {
        IndexReg::A => registers.a,
        IndexReg::X => registers.x,
        IndexReg::Y => registers.y,
    };
    let address = get_address(mode, registers, memory);
    memory.write(address, value);
    registers.pc.inc_by(mode.get_size());
}

/// TAX/TAY/TSX/TXA/TXS/TYA: copies one register into another, setting N
/// and Z from the copied value.
pub fn transfer(from: TransferReg, to: TransferReg, registers: &mut Registers)
    ensures
        *final(registers) == spec_transfer(from, to, *old(registers)),
{
    let value = match from {
        TransferReg::A => registers.a,
        TransferReg::X => registers.x,
        TransferReg::Y => registers.y,
        TransferReg::S => registers.s.to_u8(),
    };
    registers.p.set_nz_from_u8(value);
    match to {
        TransferReg::A => registers.a = value,
        TransferReg::X => registers.x = value,
        TransferReg::Y => registers.y = value,
        TransferReg::S => registers.s.set(value),
    }
}

pub fn push_register<M: MemoryBus>(reg: PushReg, registers: &mut Registers, memory: &mut M)
    requires
        old(memory).inv(),
    ensures
        final(memory).inv(),
        (*final(registers), final(memory)@) == spec_push_register::<M>(
            reg,
            *old(registers),
            old(memory)@,
        ),
{
    let value = match reg {
        PushReg::A => registers.a,
        PushReg::P => 0x10 | registers.p.to_u8(),
    };
    stack_push(registers, memory, value);
}

pub fn pull_accumulator<M: MemoryBus>(registers: &mut Registers, memory: &mut M)
    requires
        old(memory).inv(),
    ensures
        final(memory).inv(),
        (*final(registers), final(memory)@) == spec_pull_accumulator::<M>(
            *old(registers),
            old(memory)@,
        ),
{
    let value = stack_pull(registers, memory);
    registers.a = value;
    registers.p.set_nz_from_u8(value);
}

pub fn pull_status<M: MemoryBus>(registers: &mut Registers, memory: &mut M)
    requires
        old(memory).inv(),
    ensures
        final(memory).inv(),
        (*final(registers), final(memory)@) == spec_pull_status::<M>(
            *old(registers),
            old(memory)@,
        ),
{
    let value = stack_pull(registers, memory);
    registers.p = Status::from(value);
}

pub fn no_operation(registers: &mut Registers)
    ensures
        *final(registers) == *old(registers),
{
}

/// Pushes the return address and status, sets interrupt-disable, and loads
/// the program counter from the given vector.
pub fn handle_interrupt<M: MemoryBus>(vector: u16, registers: &mut Registers, memory: &mut M)
    requires
        old(memory).inv(),
    ensures
        final(memory).inv(),
        (*final(registers), final(memory)@) == spec_handle_interrupt::<M>(
            vector,
            *old(registers),
            old(memory)@,
        ),
{
    let pc = registers.pc;
    stack_push(registers, memory, pc.hi_u8());
    stack_push(registers, memory, pc.lo_u8());
    let status = registers.p.to_u8();
    stack_push(registers, memory, status);
    registers.pc = crate::memory::read_address(memory, Address::from(vector));
    registers.p.set_flag(Flag::I, true);
}

/// BRK: sets the Break flag and enters the IRQ/BRK vector.
pub fn handle_brk<M: MemoryBus>(registers: &mut Registers, memory: &mut M)
    requires
        old(memory).inv(),
    ensures
        final(memory).inv(),
        (*final(registers), final(memory)@) == spec_handle_brk::<M>(
            *old(registers),
            old(memory)@,
        ),
{
    registers.p.set_flag(Flag::B, true);
    handle_interrupt(0xFFFE, registers, memory);
}

/// A hardware IRQ: as BRK, but with the Break flag cleared in the pushed
/// status.
pub fn handle_irq<M: MemoryBus>(registers: &mut Registers, memory: &mut M)
    requires
        old(memory).inv(),
    ensures
        final(memory).inv(),
        (*final(registers), final(memory)@) == spec_handle_interrupt::<M>(
            0xFFFE,
            Registers { p: old(registers).p.spec_set(Flag::B, false), ..*old(registers) },
            old(memory)@,
        ),
{
    registers.p.set_flag(Flag::B, false);
    handle_interrupt(0xFFFE, registers, memory);
}

/// A non-maskable interrupt, through the NMI vector.
pub fn handle_nmi<M: MemoryBus>(registers: &mut Registers, memory: &mut M)
    requires
        old(memory).inv(),
    ensures
        final(memory).inv(),
        (*final(registers), final(memory)@) == spec_handle_interrupt::<M>(
            0xFFFA,
            Registers { p: old(registers).p.spec_set(Flag::B, false), ..*old(registers) },
            old(memory)@,
        ),
{
    registers.p.set_flag(Flag::B, false);
    handle_interrupt(0xFFFA, registers, memory);
}

// ---------------------------------------------------------------------------
// Decode and dispatch.
// ---------------------------------------------------------------------------

/// One slot of the 256-entry dispatch table. Invalid slots keep a NOP
/// mnemonic for diagnostics but are marked not valid; a few documented
/// opcodes the engine does not implement are likewise marked not valid
/// under their own mnemonic.
#[derive(Clone, Copy, PartialEq, Eq, Structural, Debug)]
pub struct Instruction {
    pub mnemonic: Mnemonic,
    pub addressing_mode: AddressingMode,
    pub valid: bool,
}

impl Instruction {
    pub fn new(mnemonic: Mnemonic, addressing_mode: AddressingMode, valid: bool) -> (r:
        Instruction)
        ensures
            r == (Instruction { mnemonic, addressing_mode, valid }),
    {
        Instruction { mnemonic, addressing_mode, valid }
    }

    /// Whether the slot holds an implemented, documented instruction.
    pub fn is_valid(&self) -> (r: bool)
        ensures
            r == self.valid,
    {
        self.valid
    }

    pub fn lookup(byte: u8) -> (r: Instruction)
        ensures
            r == spec_lookup(byte),
    {
        lookup_table(byte)
    }

    /// Advances the program counter past the opcode byte and performs the
    /// instruction's semantic effect.
    pub fn execute<M: MemoryBus>(&self, registers: &mut Registers, memory: &mut M)
        requires
            self.valid,
            old(memory).inv(),
        ensures
            final(memory).inv(),
            (*final(registers), final(memory)@) == spec_execute::<M>(
                *self,
                *old(registers),
                old(memory)@,
            ),
    {
        registers.pc = registers.pc.next();
        dispatch(self.mnemonic, self.addressing_mode, registers, memory);
    }
}

/// The instruction's whole effect: the program counter steps past the
/// opcode, then the handler for the mnemonic runs.
pub open spec fn spec_execute<M: MemoryBus>(instr: Instruction, regs: Registers, v: M::V) -> (
    Registers,
    M::V,
) {
    spec_dispatch::<M>(instr.mnemonic, instr.addressing_mode, spec_pc_plus(regs, 1), v)
}

/// The handler each mnemonic runs, on registers already past the opcode.
pub open spec fn spec_dispatch<M: MemoryBus>(
    mnemonic: Mnemonic,
    mode: AddressingMode,
    regs: Registers,
    v: M::V,
) -> (Registers, M::V) {
    match mnemonic {
        Mnemonic::ADC => spec_by_acc::<M>(AccOp::Adc, mode, regs, v),
        Mnemonic::AND => spec_by_acc::<M>(AccOp::And, mode, regs, v),
        Mnemonic::EOR => spec_by_acc::<M>(AccOp::Eor, mode, regs, v),
        Mnemonic::ORA => spec_by_acc::<M>(AccOp::Ora, mode, regs, v),
        Mnemonic::SBC => spec_by_acc::<M>(AccOp::Sbc, mode, regs, v),
        Mnemonic::ASL => spec_by_ref::<M>(RefOp::Asl, mode, regs, v),
        Mnemonic::ROL => spec_by_ref::<M>(RefOp::Rol, mode, regs, v),
        Mnemonic::LSR => spec_by_ref::<M>(RefOp::Lsr, mode, regs, v),
        Mnemonic::ROR => spec_by_ref::<M>(RefOp::Ror, mode, regs, v),
        Mnemonic::INC => spec_by_ref::<M>(RefOp::Increment, mode, regs, v),
        Mnemonic::DEC => spec_by_ref::<M>(RefOp::Decrement, mode, regs, v),
        Mnemonic::CMP => spec_compare::<M>(IndexReg::A, mode, regs, v),
        Mnemonic::CPX => spec_compare::<M>(IndexReg::X, mode, regs, v),
        Mnemonic::CPY => spec_compare::<M>(IndexReg::Y, mode, regs, v),
        Mnemonic::BIT => spec_bit_test::<M>(mode, regs, v),
        Mnemonic::INX => (spec_step_register(IndexReg::X, true, regs), v),
        Mnemonic::INY => (spec_step_register(IndexReg::Y, true, regs), v),
        Mnemonic::DEX => (spec_step_register(IndexReg::X, false, regs), v),
        Mnemonic::DEY => (spec_step_register(IndexReg::Y, false, regs), v),
        Mnemonic::JMP => spec_jump::<M>(mode, regs, v),
        Mnemonic::JSR => spec_jump_sub::<M>(mode, regs, v),
        Mnemonic::RTS => spec_return_sub::<M>(regs, v),
        Mnemonic::RTI => spec_return_interrupt::<M>(regs, v),
        Mnemonic::BCC => spec_branch::<M>(Flag::C, false, regs, v),
        Mnemonic::BCS => spec_branch::<M>(Flag::C, true, regs, v),
        Mnemonic::BEQ => spec_branch::<M>(Flag::Z, true, regs, v),
        Mnemonic::BNE => spec_branch::<M>(Flag::Z, false, regs, v),
        Mnemonic::BMI => spec_branch::<M>(Flag::N, true, regs, v),
        Mnemonic::BPL => spec_branch::<M>(Flag::N, false, regs, v),
        Mnemonic::BVC => spec_branch::<M>(Flag::V, false, regs, v),
        Mnemonic::BVS => spec_branch::<M>(Flag::V, true, regs, v),
        Mnemonic::CLC => (Registers { p: regs.p.spec_set(Flag::C, false), ..regs }, v),
        Mnemonic::SEC => (Registers { p: regs.p.spec_set(Flag::C, true), ..regs }, v),
        Mnemonic::CLI => (Registers { p: regs.p.spec_set(Flag::I, false), ..regs }, v),
        Mnemonic::SEI => (Registers { p: regs.p.spec_set(Flag::I, true), ..regs }, v),
        Mnemonic::CLV => (Registers { p: regs.p.spec_set(Flag::V, false), ..regs }, v),
        Mnemonic::CLD => (Registers { p: regs.p.spec_set(Flag::D, false), ..regs }, v),
        Mnemonic::SED => (Registers { p: regs.p.spec_set(Flag::D, true), ..regs }, v),
        Mnemonic::LDA => spec_load::<M>(IndexReg::A, mode, regs, v),
        Mnemonic::LDX => spec_load::<M>(IndexReg::X, mode, regs, v),
        Mnemonic::LDY => spec_load::<M>(IndexReg::Y, mode, regs, v),
        Mnemonic::STA => spec_store::<M>(IndexReg::A, mode, regs, v),
        Mnemonic::STX => spec_store::<M>(IndexReg::X, mode, regs, v),
        Mnemonic::STY => spec_store::<M>(IndexReg::Y, mode, regs, v),
        Mnemonic::TAX => (spec_transfer(TransferReg::A, TransferReg::X, regs), v),
        Mnemonic::TAY => (spec_transfer(TransferReg::A, TransferReg::Y, regs), v),
        Mnemonic::TSX => (spec_transfer(TransferReg::S, TransferReg::X, regs), v),
        Mnemonic::TXA => (spec_transfer(TransferReg::X, TransferReg::A, regs), v),
        Mnemonic::TXS => (spec_transfer(TransferReg::X, TransferReg::S, regs), v),
        Mnemonic::TYA => (spec_transfer(TransferReg::Y, TransferReg::A, regs), v),
        Mnemonic::PHA => spec_push_register::<M>(PushReg::A, regs, v),
        Mnemonic::PHP => spec_push_register::<M>(PushReg::P, regs, v),
        Mnemonic::PLA => spec_pull_accumulator::<M>(regs, v),
        Mnemonic::PLP => spec_pull_status::<M>(regs, v),
        Mnemonic::BRK => spec_handle_brk::<M>(regs, v),
        Mnemonic::NOP => (regs, v),
    }
}

#[verifier::rlimit(100)]
fn dispatch<M: MemoryBus>(
    mnemonic: Mnemonic,
    mode: AddressingMode,
    registers: &mut Registers,
    memory: &mut M,
)
    requires
        old(memory).inv(),
    ensures
        final(memory).inv(),
        (*final(registers), final(memory)@) == spec_dispatch::<M>(
            mnemonic,
            mode,
            *old(registers),
            old(memory)@,
        ),
{
    match mnemonic {
        Mnemonic::ADC => by_acc(AccOp::Adc, mode, registers, memory),
        Mnemonic::AND => by_acc(AccOp::And, mode, registers, memory),
        Mnemonic::EOR => by_acc(AccOp::Eor, mode, registers, memory),
        Mnemonic::ORA => by_acc(AccOp::Ora, mode, registers, memory),
        Mnemonic::SBC => by_acc(AccOp::Sbc, mode, registers, memory),
        Mnemonic::ASL => by_ref(RefOp::Asl, mode, registers, memory),
        Mnemonic::ROL => by_ref(RefOp::Rol, mode, registers, memory),
        Mnemonic::LSR => by_ref(RefOp::Lsr, mode, registers, memory),
        Mnemonic::ROR => by_ref(RefOp::Ror, mode, registers, memory),
        Mnemonic::INC => by_ref(RefOp::Increment, mode, registers, memory),
        Mnemonic::DEC => by_ref(RefOp::Decrement, mode, registers, memory),
        Mnemonic::CMP => compare(IndexReg::A, mode, registers, memory),
        Mnemonic::CPX => compare(IndexReg::X, mode, registers, memory),
        Mnemonic::CPY => compare(IndexReg::Y, mode, registers, memory),
        Mnemonic::BIT => bit_test(mode, registers, memory),
        Mnemonic::INX => step_register(IndexReg::X, true, registers),
        Mnemonic::INY => step_register(IndexReg::Y, true, registers),
        Mnemonic::DEX => step_register(IndexReg::X, false, registers),
        Mnemonic::DEY => step_register(IndexReg::Y, false, registers),
        Mnemonic::JMP => jump(mode, registers, memory),
        Mnemonic::JSR => jump_sub(mode, registers, memory),
        Mnemonic::RTS => return_sub(registers, memory),
        Mnemonic::RTI => return_interrupt(registers, memory),
        Mnemonic::BCC => branch(Flag::C, false, registers, memory),
        Mnemonic::BCS => branch(Flag::C, true, registers, memory),
        Mnemonic::BEQ => branch(Flag::Z, true, registers, memory),
        Mnemonic::BNE => branch(Flag::Z, false, registers, memory),
        Mnemonic::BMI => branch(Flag::N, true, registers, memory),
        Mnemonic::BPL => branch(Flag::N, false, registers, memory),
        Mnemonic::BVC => branch(Flag::V, false, registers, memory),
        Mnemonic::BVS => branch(Flag::V, true, registers, memory),
        Mnemonic::CLC => set_flag(Flag::C, false, registers),
        Mnemonic::SEC => set_flag(Flag::C, true, registers),
        Mnemonic::CLI => set_flag(Flag::I, false, registers),
        Mnemonic::SEI => set_flag(Flag::I, true, registers),
        Mnemonic::CLV => set_flag(Flag::V, false, registers),
        Mnemonic::CLD => set_flag(Flag::D, false, registers),
        Mnemonic::SED => set_flag(Flag::D, true, registers),
        Mnemonic::LDA => load(IndexReg::A, mode, registers, memory),
        Mnemonic::LDX => load(IndexReg::X, mode, registers, memory),
        Mnemonic::LDY => load(IndexReg::Y, mode, registers, memory),
        Mnemonic::STA => store(IndexReg::A, mode, registers, memory),
        Mnemonic::STX => store(IndexReg::X, mode, registers, memory),
        Mnemonic::STY => store(IndexReg::Y, mode, registers, memory),
        Mnemonic::TAX => transfer(TransferReg::A, TransferReg::X, registers),
        Mnemonic::TAY => transfer(TransferReg::A, TransferReg::Y, registers),
        Mnemonic::TSX => transfer(TransferReg::S, TransferReg::X, registers),
        Mnemonic::TXA => transfer(TransferReg::X, TransferReg::A, registers),
        Mnemonic::TXS => transfer(TransferReg::X, TransferReg::S, registers),
        Mnemonic::TYA => transfer(TransferReg::Y, TransferReg::A, registers),
        Mnemonic::PHA => push_register(PushReg::A, registers, memory),
        Mnemonic::PHP => push_register(PushReg::P, registers, memory),
        Mnemonic::PLA => pull_accumulator(registers, memory),
        Mnemonic::PLP => pull_status(registers, memory),
        Mnemonic::BRK => handle_brk(registers, memory),
        Mnemonic::NOP => no_operation(registers),
    }
}

/// The 256-entry dispatch table, as a function from opcode byte to slot.
pub open spec fn spec_lookup(byte: u8) -> Instruction {
    match byte {
        0x00 => Instruction { mnemonic: Mnemonic::BRK, addressing_mode: AddressingMode::Implied, valid: true },
        0x01 => Instruction { mnemonic: Mnemonic::ORA, addressing_mode: AddressingMode::IndexedIndirectX, valid: true },
        0x05 => Instruction { mnemonic: Mnemonic::ORA, addressing_mode: AddressingMode::ZeroPage, valid: true },
        0x06 => Instruction { mnemonic: Mnemonic::ASL, addressing_mode: AddressingMode::ZeroPage, valid: true },
        0x08 => Instruction { mnemonic: Mnemonic::PHP, addressing_mode: AddressingMode::Implied, valid: true },
        0x09 => Instruction { mnemonic: Mnemonic::ORA, addressing_mode: AddressingMode::Immediate, valid: true },
        0x0A => Instruction { mnemonic: Mnemonic::ASL, addressing_mode: AddressingMode::Accumulator, valid: true },
        0x0D => Instruction { mnemonic: Mnemonic::ORA, addressing_mode: AddressingMode::Absolute, valid: true },
        0x0E => Instruction { mnemonic: Mnemonic::ASL, addressing_mode: AddressingMode::Absolute, valid: true },
        0x10 => Instruction { mnemonic: Mnemonic::BPL, addressing_mode: AddressingMode::Relative, valid: true },
        0x11 => Instruction { mnemonic: Mnemonic::ORA, addressing_mode: AddressingMode::IndirectIndexedY, valid: true },
        0x15 => Instruction { mnemonic: Mnemonic::ORA, addressing_mode: AddressingMode::ZeroPageX, valid: true },
        0x16 => Instruction { mnemonic: Mnemonic::ASL, addressing_mode: AddressingMode::ZeroPageX, valid: true },
        0x18 => Instruction { mnemonic: Mnemonic::CLC, addressing_mode: AddressingMode::Implied, valid: true },
        0x19 => Instruction { mnemonic: Mnemonic::ORA, addressing_mode: AddressingMode::AbsoluteY, valid: true },
        0x1D => Instruction { mnemonic: Mnemonic::ORA, addressing_mode: AddressingMode::AbsoluteX, valid: true },
        0x1E => Instruction { mnemonic: Mnemonic::ASL, addressing_mode: AddressingMode::AbsoluteX, valid: true },
        0x20 => Instruction { mnemonic: Mnemonic::JSR, addressing_mode: AddressingMode::Absolute, valid: true },
        0x21 => Instruction { mnemonic: Mnemonic::AND, addressing_mode: AddressingMode::IndexedIndirectX, valid: true },
        0x24 => Instruction { mnemonic: Mnemonic::BIT, addressing_mode: AddressingMode::ZeroPage, valid: true },
        0x25 => Instruction { mnemonic: Mnemonic::AND, addressing_mode: AddressingMode::ZeroPage, valid: true },
        0x26 => Instruction { mnemonic: Mnemonic::ROL, addressing_mode: AddressingMode::ZeroPage, valid: true },
        0x28 => Instruction { mnemonic: Mnemonic::PLP, addressing_mode: AddressingMode::Implied, valid: true },
        0x29 => Instruction { mnemonic: Mnemonic::AND, addressing_mode: AddressingMode::Immediate, valid: true },
        0x2A => Instruction { mnemonic: Mnemonic::ROL, addressing_mode: AddressingMode::Accumulator, valid: true },
        0x2C => Instruction { mnemonic: Mnemonic::BIT, addressing_mode: AddressingMode::Absolute, valid: true },
        0x2D => Instruction { mnemonic: Mnemonic::AND, addressing_mode: AddressingMode::Absolute, valid: true },
        0x2E => Instruction { mnemonic: Mnemonic::ROL, addressing_mode: AddressingMode::Absolute, valid: true },
        0x30 => Instruction { mnemonic: Mnemonic::BMI, addressing_mode: AddressingMode::Relative, valid: true },
        0x31 => Instruction { mnemonic: Mnemonic::AND, addressing_mode: AddressingMode::IndirectIndexedY, valid: true },
        0x35 => Instruction { mnemonic: Mnemonic::AND, addressing_mode: AddressingMode::ZeroPageX, valid: true },
        0x36 => Instruction { mnemonic: Mnemonic::ROL, addressing_mode: AddressingMode::ZeroPageX, valid: true },
        0x38 => Instruction { mnemonic: Mnemonic::SEC, addressing_mode: AddressingMode::Implied, valid: true },
        0x39 => Instruction { mnemonic: Mnemonic::AND, addressing_mode: AddressingMode::AbsoluteY, valid: true },
        0x3D => Instruction { mnemonic: Mnemonic::AND, addressing_mode: AddressingMode::AbsoluteX, valid: true },
        0x3E => Instruction { mnemonic: Mnemonic::ROL, addressing_mode: AddressingMode::AbsoluteX, valid: true },
        0x40 => Instruction { mnemonic: Mnemonic::RTI, addressing_mode: AddressingMode::Implied, valid: true },
        0x41 => Instruction { mnemonic: Mnemonic::EOR, addressing_mode: AddressingMode::IndexedIndirectX, valid: true },
        0x45 => Instruction { mnemonic: Mnemonic::EOR, addressing_mode: AddressingMode::ZeroPage, valid: true },
        0x46 => Instruction { mnemonic: Mnemonic::LSR, addressing_mode: AddressingMode::ZeroPage, valid: true },
        0x48 => Instruction { mnemonic: Mnemonic::PHA, addressing_mode: AddressingMode::Implied, valid: true },
        0x49 => Instruction { mnemonic: Mnemonic::EOR, addressing_mode: AddressingMode::Immediate, valid: true },
        0x4A => Instruction { mnemonic: Mnemonic::LSR, addressing_mode: AddressingMode::Accumulator, valid: true },
        0x4C => Instruction { mnemonic: Mnemonic::JMP, addressing_mode: AddressingMode::Absolute, valid: true },
        0x4D => Instruction { mnemonic: Mnemonic::EOR, addressing_mode: AddressingMode::Absolute, valid: true },
        0x4E => Instruction { mnemonic: Mnemonic::LSR, addressing_mode: AddressingMode::Absolute, valid: true },
        0x50 => Instruction { mnemonic: Mnemonic::BVC, addressing_mode: AddressingMode::Relative, valid: true },
        0x51 => Instruction { mnemonic: Mnemonic::EOR, addressing_mode: AddressingMode::IndirectIndexedY, valid: true },
        0x55 => Instruction { mnemonic: Mnemonic::EOR, addressing_mode: AddressingMode::ZeroPageX, valid: true },
        0x56 => Instruction { mnemonic: Mnemonic::LSR, addressing_mode: AddressingMode::ZeroPageX, valid: true },
        0x58 => Instruction { mnemonic: Mnemonic::CLI, addressing_mode: AddressingMode::Implied, valid: true },
        0x59 => Instruction { mnemonic: Mnemonic::EOR, addressing_mode: AddressingMode::AbsoluteY, valid: true },
        0x5D => Instruction { mnemonic: Mnemonic::EOR, addressing_mode: AddressingMode::AbsoluteX, valid: true },
        0x5E => Instruction { mnemonic: Mnemonic::LSR, addressing_mode: AddressingMode::AbsoluteX, valid: true },
        0x60 => Instruction { mnemonic: Mnemonic::RTS, addressing_mode: AddressingMode::Implied, valid: true },
        0x61 => Instruction { mnemonic: Mnemonic::ADC, addressing_mode: AddressingMode::IndexedIndirectX, valid: true },
        0x65 => Instruction { mnemonic: Mnemonic::ADC, addressing_mode: AddressingMode::ZeroPage, valid: true },
        0x66 => Instruction { mnemonic: Mnemonic::ROR, addressing_mode: AddressingMode::ZeroPage, valid: true },
        0x68 => Instruction { mnemonic: Mnemonic::PLA, addressing_mode: AddressingMode::Implied, valid: true },
        0x69 => Instruction { mnemonic: Mnemonic::ADC, addressing_mode: AddressingMode::Immediate, valid: true },
        0x6A => Instruction { mnemonic: Mnemonic::ROR, addressing_mode: AddressingMode::Accumulator, valid: true },
        0x6C => Instruction { mnemonic: Mnemonic::JMP, addressing_mode: AddressingMode::Indirect, valid: true },
        0x6D => Instruction { mnemonic: Mnemonic::ADC, addressing_mode: AddressingMode::Absolute, valid: true },
        0x6E => Instruction { mnemonic: Mnemonic::ROR, addressing_mode: AddressingMode::Absolute, valid: true },
        0x70 => Instruction { mnemonic: Mnemonic::BVS, addressing_mode: AddressingMode::Relative, valid: true },
        0x71 => Instruction { mnemonic: Mnemonic::ADC, addressing_mode: AddressingMode::IndirectIndexedY, valid: true },
        0x75 => Instruction { mnemonic: Mnemonic::ADC, addressing_mode: AddressingMode::ZeroPageX, valid: true },
        0x76 => Instruction { mnemonic: Mnemonic::ROR, addressing_mode: AddressingMode::ZeroPageX, valid: true },
        0x78 => Instruction { mnemonic: Mnemonic::SEI, addressing_mode: AddressingMode::Implied, valid: true },
        0x79 => Instruction { mnemonic: Mnemonic::ADC, addressing_mode: AddressingMode::AbsoluteY, valid: true },
        0x7D => Instruction { mnemonic: Mnemonic::ADC, addressing_mode: AddressingMode::AbsoluteX, valid: true },
        0x7E => Instruction { mnemonic: Mnemonic::ROR, addressing_mode: AddressingMode::AbsoluteX, valid: true },
        0x81 => Instruction { mnemonic: Mnemonic::STA, addressing_mode: AddressingMode::IndexedIndirectX, valid: true },
        0x84 => Instruction { mnemonic: Mnemonic::STY, addressing_mode: AddressingMode::ZeroPage, valid: true },
        0x85 => Instruction { mnemonic: Mnemonic::STA, addressing_mode: AddressingMode::ZeroPage, valid: true },
        0x86 => Instruction { mnemonic: Mnemonic::STX, addressing_mode: AddressingMode::ZeroPage, valid: true },
        0x88 => Instruction { mnemonic: Mnemonic::DEY, addressing_mode: AddressingMode::Implied, valid: true },
        0x8A => Instruction { mnemonic: Mnemonic::TXA, addressing_mode: AddressingMode::Implied, valid: true },
        0x8C => Instruction { mnemonic: Mnemonic::STY, addressing_mode: AddressingMode::Absolute, valid: true },
        0x8D => Instruction { mnemonic: Mnemonic::STA, addressing_mode: AddressingMode::Absolute, valid: true },
        0x8E => Instruction { mnemonic: Mnemonic::STX, addressing_mode: AddressingMode::Absolute, valid: true },
        0x90 => Instruction { mnemonic: Mnemonic::BCC, addressing_mode: AddressingMode::Relative, valid: true },
        0x91 => Instruction { mnemonic: Mnemonic::STA, addressing_mode: AddressingMode::IndirectIndexedY, valid: true },
        0x94 => Instruction { mnemonic: Mnemonic::STY, addressing_mode: AddressingMode::ZeroPageX, valid: true },
        0x95 => Instruction { mnemonic: Mnemonic::STA, addressing_mode: AddressingMode::ZeroPageX, valid: true },
        0x96 => Instruction { mnemonic: Mnemonic::STX, addressing_mode: AddressingMode::ZeroPageY, valid: true },
        0x98 => Instruction { mnemonic: Mnemonic::TYA, addressing_mode: AddressingMode::Implied, valid: true },
        0x99 => Instruction { mnemonic: Mnemonic::STA, addressing_mode: AddressingMode::AbsoluteY, valid: true },
        0x9A => Instruction { mnemonic: Mnemonic::TXS, addressing_mode: AddressingMode::Implied, valid: true },
        0x9D => Instruction { mnemonic: Mnemonic::STA, addressing_mode: AddressingMode::AbsoluteX, valid: true },
        0xA0 => Instruction { mnemonic: Mnemonic::LDY, addressing_mode: AddressingMode::Immediate, valid: true },
        0xA1 => Instruction { mnemonic: Mnemonic::LDA, addressing_mode: AddressingMode::IndexedIndirectX, valid: true },
        0xA2 => Instruction { mnemonic: Mnemonic::LDX, addressing_mode: AddressingMode::Immediate, valid: true },
        0xA4 => Instruction { mnemonic: Mnemonic::LDY, addressing_mode: AddressingMode::ZeroPage, valid: true },
        0xA5 => Instruction { mnemonic: Mnemonic::LDA, addressing_mode: AddressingMode::ZeroPage, valid: true },
        0xA6 => Instruction { mnemonic: Mnemonic::LDX, addressing_mode: AddressingMode::ZeroPage, valid: true },
        0xA8 => Instruction { mnemonic: Mnemonic::TAY, addressing_mode: AddressingMode::Implied, valid: true },
        0xA9 => Instruction { mnemonic: Mnemonic::LDA, addressing_mode: AddressingMode::Immediate, valid: true },
        0xAA => Instruction { mnemonic: Mnemonic::TAX, addressing_mode: AddressingMode::Implied, valid: true },
        0xAC => Instruction { mnemonic: Mnemonic::LDY, addressing_mode: AddressingMode::Absolute, valid: true },
        0xAD => Instruction { mnemonic: Mnemonic::LDA, addressing_mode: AddressingMode::Absolute, valid: true },
        0xAE => Instruction { mnemonic: Mnemonic::LDX, addressing_mode: AddressingMode::Absolute, valid: true },
        0xB0 => Instruction { mnemonic: Mnemonic::BCS, addressing_mode: AddressingMode::Relative, valid: true },
        0xB1 => Instruction { mnemonic: Mnemonic::LDA, addressing_mode: AddressingMode::IndirectIndexedY, valid: true },
        0xB4 => Instruction { mnemonic: Mnemonic::LDY, addressing_mode: AddressingMode::ZeroPageX, valid: true },
        0xB5 => Instruction { mnemonic: Mnemonic::LDA, addressing_mode: AddressingMode::ZeroPageX, valid: true },
        0xB6 => Instruction { mnemonic: Mnemonic::LDX, addressing_mode: AddressingMode::ZeroPageY, valid: true },
        0xB8 => Instruction { mnemonic: Mnemonic::CLV, addressing_mode: AddressingMode::Implied, valid: true },
        0xB9 => Instruction { mnemonic: Mnemonic::LDA, addressing_mode: AddressingMode::AbsoluteY, valid: true },
        0xBA => Instruction { mnemonic: Mnemonic::TSX, addressing_mode: AddressingMode::Implied, valid: true },
        0xBC => Instruction { mnemonic: Mnemonic::LDY, addressing_mode: AddressingMode::AbsoluteX, valid: true },
        0xBD => Instruction { mnemonic: Mnemonic::LDA, addressing_mode: AddressingMode::AbsoluteX, valid: true },
        0xBE => Instruction { mnemonic: Mnemonic::LDX, addressing_mode: AddressingMode::AbsoluteY, valid: true },
        0xC0 => Instruction { mnemonic: Mnemonic::CPY, addressing_mode: AddressingMode::Immediate, valid: true },
        0xC1 => Instruction { mnemonic: Mnemonic::CMP, addressing_mode: AddressingMode::IndexedIndirectX, valid: true },
        0xC4 => Instruction { mnemonic: Mnemonic::CPY, addressing_mode: AddressingMode::ZeroPage, valid: true },
        0xC5 => Instruction { mnemonic: Mnemonic::CMP, addressing_mode: AddressingMode::ZeroPage, valid: true },
        0xC6 => Instruction { mnemonic: Mnemonic::DEC, addressing_mode: AddressingMode::ZeroPage, valid: true },
        0xC8 => Instruction { mnemonic: Mnemonic::INY, addressing_mode: AddressingMode::Implied, valid: true },
        0xC9 => Instruction { mnemonic: Mnemonic::CMP, addressing_mode: AddressingMode::Immediate, valid: true },
        0xCA => Instruction { mnemonic: Mnemonic::DEX, addressing_mode: AddressingMode::Implied, valid: true },
        0xCC => Instruction { mnemonic: Mnemonic::CPY, addressing_mode: AddressingMode::Absolute, valid: true },
        0xCD => Instruction { mnemonic: Mnemonic::CMP, addressing_mode: AddressingMode::Absolute, valid: true },
        0xCE => Instruction { mnemonic: Mnemonic::DEC, addressing_mode: AddressingMode::Absolute, valid: true },
        0xD0 => Instruction { mnemonic: Mnemonic::BNE, addressing_mode: AddressingMode::Relative, valid: true },
        0xD1 => Instruction { mnemonic: Mnemonic::CMP, addressing_mode: AddressingMode::IndirectIndexedY, valid: true },
        0xD5 => Instruction { mnemonic: Mnemonic::CMP, addressing_mode: AddressingMode::ZeroPageX, valid: true },
        0xD6 => Instruction { mnemonic: Mnemonic::DEC, addressing_mode: AddressingMode::ZeroPageX, valid: true },
        0xD8 => Instruction { mnemonic: Mnemonic::CLD, addressing_mode: AddressingMode::Implied, valid: true },
        0xD9 => Instruction { mnemonic: Mnemonic::CMP, addressing_mode: AddressingMode::AbsoluteY, valid: true },
        0xDD => Instruction { mnemonic: Mnemonic::CMP, addressing_mode: AddressingMode::AbsoluteX, valid: true },
        0xDE => Instruction { mnemonic: Mnemonic::DEC, addressing_mode: AddressingMode::AbsoluteX, valid: true },
        0xE0 => Instruction { mnemonic: Mnemonic::CPX, addressing_mode: AddressingMode::Immediate, valid: true },
        0xE1 => Instruction { mnemonic: Mnemonic::SBC, addressing_mode: AddressingMode::IndexedIndirectX, valid: false },
        0xE4 => Instruction { mnemonic: Mnemonic::CPX, addressing_mode: AddressingMode::ZeroPage, valid: true },
        0xE5 => Instruction { mnemonic: Mnemonic::SBC, addressing_mode: AddressingMode::ZeroPage, valid: true },
        0xE6 => Instruction { mnemonic: Mnemonic::INC, addressing_mode: AddressingMode::ZeroPage, valid: true },
        0xE8 => Instruction { mnemonic: Mnemonic::INX, addressing_mode: AddressingMode::Implied, valid: true },
        0xE9 => Instruction { mnemonic: Mnemonic::SBC, addressing_mode: AddressingMode::Immediate, valid: true },
        0xEA => Instruction { mnemonic: Mnemonic::NOP, addressing_mode: AddressingMode::Implied, valid: true },
        0xEC => Instruction { mnemonic: Mnemonic::CPX, addressing_mode: AddressingMode::Absolute, valid: true },
        0xED => Instruction { mnemonic: Mnemonic::SBC, addressing_mode: AddressingMode::Absolute, valid: true },
        0xEE => Instruction { mnemonic: Mnemonic::INC, addressing_mode: AddressingMode::Absolute, valid: true },
        0xF0 => Instruction { mnemonic: Mnemonic::BEQ, addressing_mode: AddressingMode::Relative, valid: true },
        0xF1 => Instruction { mnemonic: Mnemonic::SBC, addressing_mode: AddressingMode::IndirectIndexedY, valid: true },
        0xF5 => Instruction { mnemonic: Mnemonic::SBC, addressing_mode: AddressingMode::ZeroPageX, valid: true },
        0xF6 => Instruction { mnemonic: Mnemonic::INC, addressing_mode: AddressingMode::ZeroPageX, valid: true },
        0xF8 => Instruction { mnemonic: Mnemonic::SED, addressing_mode: AddressingMode::Implied, valid: true },
        0xF9 => Instruction { mnemonic: Mnemonic::SBC, addressing_mode: AddressingMode::AbsoluteY, valid: true },
        0xFD => Instruction { mnemonic: Mnemonic::SBC, addressing_mode: AddressingMode::AbsoluteX, valid: true },
        0xFE => Instruction { mnemonic: Mnemonic::INC, addressing_mode: AddressingMode::AbsoluteX, valid: true },
        _ => Instruction { mnemonic: Mnemonic::NOP, addressing_mode: AddressingMode::Implied, valid: false },
    }
}

fn lookup_table(byte: u8) -> (r: Instruction)
    ensures
        r == spec_lookup(byte),
{
    match byte {
        0x00 => Instruction { mnemonic: Mnemonic::BRK, addressing_mode: AddressingMode::Implied, valid: true },
        0x01 => Instruction { mnemonic: Mnemonic::ORA, addressing_mode: AddressingMode::IndexedIndirectX, valid: true },
        0x05 => Instruction { mnemonic: Mnemonic::ORA, addressing_mode: AddressingMode::ZeroPage, valid: true },
        0x06 => Instruction { mnemonic: Mnemonic::ASL, addressing_mode: AddressingMode::ZeroPage, valid: true },
        0x08 => Instruction { mnemonic: Mnemonic::PHP, addressing_mode: AddressingMode::Implied, valid: true },
        0x09 => Instruction { mnemonic: Mnemonic::ORA, addressing_mode: AddressingMode::Immediate, valid: true },
        0x0A => Instruction { mnemonic: Mnemonic::ASL, addressing_mode: AddressingMode::Accumulator, valid: true },
        0x0D => Instruction { mnemonic: Mnemonic::ORA, addressing_mode: AddressingMode::Absolute, valid: true },
        0x0E => Instruction { mnemonic: Mnemonic::ASL, addressing_mode: AddressingMode::Absolute, valid: true },
        0x10 => Instruction { mnemonic: Mnemonic::BPL, addressing_mode: AddressingMode::Relative, valid: true },
        0x11 => Instruction { mnemonic: Mnemonic::ORA, addressing_mode: AddressingMode::IndirectIndexedY, valid: true },
        0x15 => Instruction { mnemonic: Mnemonic::ORA, addressing_mode: AddressingMode::ZeroPageX, valid: true },
        0x16 => Instruction { mnemonic: Mnemonic::ASL, addressing_mode: AddressingMode::ZeroPageX, valid: true },
        0x18 => Instruction { mnemonic: Mnemonic::CLC, addressing_mode: AddressingMode::Implied, valid: true },
        0x19 => Instruction { mnemonic: Mnemonic::ORA, addressing_mode: AddressingMode::AbsoluteY, valid: true },
        0x1D => Instruction { mnemonic: Mnemonic::ORA, addressing_mode: AddressingMode::AbsoluteX, valid: true },
        0x1E => Instruction { mnemonic: Mnemonic::ASL, addressing_mode: AddressingMode::AbsoluteX, valid: true },
        0x20 => Instruction { mnemonic: Mnemonic::JSR, addressing_mode: AddressingMode::Absolute, valid: true },
        0x21 => Instruction { mnemonic: Mnemonic::AND, addressing_mode: AddressingMode::IndexedIndirectX, valid: true },
        0x24 => Instruction { mnemonic: Mnemonic::BIT, addressing_mode: AddressingMode::ZeroPage, valid: true },
        0x25 => Instruction { mnemonic: Mnemonic::AND, addressing_mode: AddressingMode::ZeroPage, valid: true },
        0x26 => Instruction { mnemonic: Mnemonic::ROL, addressing_mode: AddressingMode::ZeroPage, valid: true },
        0x28 => Instruction { mnemonic: Mnemonic::PLP, addressing_mode: AddressingMode::Implied, valid: true },
        0x29 => Instruction { mnemonic: Mnemonic::AND, addressing_mode: AddressingMode::Immediate, valid: true },
        0x2A => Instruction { mnemonic: Mnemonic::ROL, addressing_mode: AddressingMode::Accumulator, valid: true },
        0x2C => Instruction { mnemonic: Mnemonic::BIT, addressing_mode: AddressingMode::Absolute, valid: true },
        0x2D => Instruction { mnemonic: Mnemonic::AND, addressing_mode: AddressingMode::Absolute, valid: true },
        0x2E => Instruction { mnemonic: Mnemonic::ROL, addressing_mode: AddressingMode::Absolute, valid: true },
        0x30 => Instruction { mnemonic: Mnemonic::BMI, addressing_mode: AddressingMode::Relative, valid: true },
        0x31 => Instruction { mnemonic: Mnemonic::AND, addressing_mode: AddressingMode::IndirectIndexedY, valid: true },
        0x35 => Instruction { mnemonic: Mnemonic::AND, addressing_mode: AddressingMode::ZeroPageX, valid: true },
        0x36 => Instruction { mnemonic: Mnemonic::ROL, addressing_mode: AddressingMode::ZeroPageX, valid: true },
        0x38 => Instruction { mnemonic: Mnemonic::SEC, addressing_mode: AddressingMode::Implied, valid: true },
        0x39 => Instruction { mnemonic: Mnemonic::AND, addressing_mode: AddressingMode::AbsoluteY, valid: true },
        0x3D => Instruction { mnemonic: Mnemonic::AND, addressing_mode: AddressingMode::AbsoluteX, valid: true },
        0x3E => Instruction { mnemonic: Mnemonic::ROL, addressing_mode: AddressingMode::AbsoluteX, valid: true },
        0x40 => Instruction { mnemonic: Mnemonic::RTI, addressing_mode: AddressingMode::Implied, valid: true },
        0x41 => Instruction { mnemonic: Mnemonic::EOR, addressing_mode: AddressingMode::IndexedIndirectX, valid: true },
        0x45 => Instruction { mnemonic: Mnemonic::EOR, addressing_mode: AddressingMode::ZeroPage, valid: true },
        0x46 => Instruction { mnemonic: Mnemonic::LSR, addressing_mode: AddressingMode::ZeroPage, valid: true },
        0x48 => Instruction { mnemonic: Mnemonic::PHA, addressing_mode: AddressingMode::Implied, valid: true },
        0x49 => Instruction { mnemonic: Mnemonic::EOR, addressing_mode: AddressingMode::Immediate, valid: true },
        0x4A => Instruction { mnemonic: Mnemonic::LSR, addressing_mode: AddressingMode::Accumulator, valid: true },
        0x4C => Instruction { mnemonic: Mnemonic::JMP, addressing_mode: AddressingMode::Absolute, valid: true },
        0x4D => Instruction { mnemonic: Mnemonic::EOR, addressing_mode: AddressingMode::Absolute, valid: true },
        0x4E => Instruction { mnemonic: Mnemonic::LSR, addressing_mode: AddressingMode::Absolute, valid: true },
        0x50 => Instruction { mnemonic: Mnemonic::BVC, addressing_mode: AddressingMode::Relative, valid: true },
        0x51 => Instruction { mnemonic: Mnemonic::EOR, addressing_mode: AddressingMode::IndirectIndexedY, valid: true },
        0x55 => Instruction { mnemonic: Mnemonic::EOR, addressing_mode: AddressingMode::ZeroPageX, valid: true },
        0x56 => Instruction { mnemonic: Mnemonic::LSR, addressing_mode: AddressingMode::ZeroPageX, valid: true },
        0x58 => Instruction { mnemonic: Mnemonic::CLI, addressing_mode: AddressingMode::Implied, valid: true },
        0x59 => Instruction { mnemonic: Mnemonic::EOR, addressing_mode: AddressingMode::AbsoluteY, valid: true },
        0x5D => Instruction { mnemonic: Mnemonic::EOR, addressing_mode: AddressingMode::AbsoluteX, valid: true },
        0x5E => Instruction { mnemonic: Mnemonic::LSR, addressing_mode: AddressingMode::AbsoluteX, valid: true },
        0x60 => Instruction { mnemonic: Mnemonic::RTS, addressing_mode: AddressingMode::Implied, valid: true },
        0x61 => Instruction { mnemonic: Mnemonic::ADC, addressing_mode: AddressingMode::IndexedIndirectX, valid: true },
        0x65 => Instruction { mnemonic: Mnemonic::ADC, addressing_mode: AddressingMode::ZeroPage, valid: true },
        0x66 => Instruction { mnemonic: Mnemonic::ROR, addressing_mode: AddressingMode::ZeroPage, valid: true },
        0x68 => Instruction { mnemonic: Mnemonic::PLA, addressing_mode: AddressingMode::Implied, valid: true },
        0x69 => Instruction { mnemonic: Mnemonic::ADC, addressing_mode: AddressingMode::Immediate, valid: true },
        0x6A => Instruction { mnemonic: Mnemonic::ROR, addressing_mode: AddressingMode::Accumulator, valid: true },
        0x6C => Instruction { mnemonic: Mnemonic::JMP, addressing_mode: AddressingMode::Indirect, valid: true },
        0x6D => Instruction { mnemonic: Mnemonic::ADC, addressing_mode: AddressingMode::Absolute, valid: true },
        0x6E => Instruction { mnemonic: Mnemonic::ROR, addressing_mode: AddressingMode::Absolute, valid: true },
        0x70 => Instruction { mnemonic: Mnemonic::BVS, addressing_mode: AddressingMode::Relative, valid: true },
        0x71 => Instruction { mnemonic: Mnemonic::ADC, addressing_mode: AddressingMode::IndirectIndexedY, valid: true },
        0x75 => Instruction { mnemonic: Mnemonic::ADC, addressing_mode: AddressingMode::ZeroPageX, valid: true },
        0x76 => Instruction { mnemonic: Mnemonic::ROR, addressing_mode: AddressingMode::ZeroPageX, valid: true },
        0x78 => Instruction { mnemonic: Mnemonic::SEI, addressing_mode: AddressingMode::Implied, valid: true },
        0x79 => Instruction { mnemonic: Mnemonic::ADC, addressing_mode: AddressingMode::AbsoluteY, valid: true },
        0x7D => Instruction { mnemonic: Mnemonic::ADC, addressing_mode: AddressingMode::AbsoluteX, valid: true },
        0x7E => Instruction { mnemonic: Mnemonic::ROR, addressing_mode: AddressingMode::AbsoluteX, valid: true },
        0x81 => Instruction { mnemonic: Mnemonic::STA, addressing_mode: AddressingMode::IndexedIndirectX, valid: true },
        0x84 => Instruction { mnemonic: Mnemonic::STY, addressing_mode: AddressingMode::ZeroPage, valid: true },
        0x85 => Instruction { mnemonic: Mnemonic::STA, addressing_mode: AddressingMode::ZeroPage, valid: true },
        0x86 => Instruction { mnemonic: Mnemonic::STX, addressing_mode: AddressingMode::ZeroPage, valid: true },
        0x88 => Instruction { mnemonic: Mnemonic::DEY, addressing_mode: AddressingMode::Implied, valid: true },
        0x8A => Instruction { mnemonic: Mnemonic::TXA, addressing_mode: AddressingMode::Implied, valid: true },
        0x8C => Instruction { mnemonic: Mnemonic::STY, addressing_mode: AddressingMode::Absolute, valid: true },
        0x8D => Instruction { mnemonic: Mnemonic::STA, addressing_mode: AddressingMode::Absolute, valid: true },
        0x8E => Instruction { mnemonic: Mnemonic::STX, addressing_mode: AddressingMode::Absolute, valid: true },
        0x90 => Instruction { mnemonic: Mnemonic::BCC, addressing_mode: AddressingMode::Relative, valid: true },
        0x91 => Instruction { mnemonic: Mnemonic::STA, addressing_mode: AddressingMode::IndirectIndexedY, valid: true },
        0x94 => Instruction { mnemonic: Mnemonic::STY, addressing_mode: AddressingMode::ZeroPageX, valid: true },
        0x95 => Instruction { mnemonic: Mnemonic::STA, addressing_mode: AddressingMode::ZeroPageX, valid: true },
        0x96 => Instruction { mnemonic: Mnemonic::STX, addressing_mode: AddressingMode::ZeroPageY, valid: true },
        0x98 => Instruction { mnemonic: Mnemonic::TYA, addressing_mode: AddressingMode::Implied, valid: true },
        0x99 => Instruction { mnemonic: Mnemonic::STA, addressing_mode: AddressingMode::AbsoluteY, valid: true },
        0x9A => Instruction { mnemonic: Mnemonic::TXS, addressing_mode: AddressingMode::Implied, valid: true },
        0x9D => Instruction { mnemonic: Mnemonic::STA, addressing_mode: AddressingMode::AbsoluteX, valid: true },
        0xA0 => Instruction { mnemonic: Mnemonic::LDY, addressing_mode: AddressingMode::Immediate, valid: true },
        0xA1 => Instruction { mnemonic: Mnemonic::LDA, addressing_mode: AddressingMode::IndexedIndirectX, valid: true },
        0xA2 => Instruction { mnemonic: Mnemonic::LDX, addressing_mode: AddressingMode::Immediate, valid: true },
        0xA4 => Instruction { mnemonic: Mnemonic::LDY, addressing_mode: AddressingMode::ZeroPage, valid: true },
        0xA5 => Instruction { mnemonic: Mnemonic::LDA, addressing_mode: AddressingMode::ZeroPage, valid: true },
        0xA6 => Instruction { mnemonic: Mnemonic::LDX, addressing_mode: AddressingMode::ZeroPage, valid: true },
        0xA8 => Instruction { mnemonic: Mnemonic::TAY, addressing_mode: AddressingMode::Implied, valid: true },
        0xA9 => Instruction { mnemonic: Mnemonic::LDA, addressing_mode: AddressingMode::Immediate, valid: true },
        0xAA => Instruction { mnemonic: Mnemonic::TAX, addressing_mode: AddressingMode::Implied, valid: true },
        0xAC => Instruction { mnemonic: Mnemonic::LDY, addressing_mode: AddressingMode::Absolute, valid: true },
        0xAD => Instruction { mnemonic: Mnemonic::LDA, addressing_mode: AddressingMode::Absolute, valid: true },
        0xAE => Instruction { mnemonic: Mnemonic::LDX, addressing_mode: AddressingMode::Absolute, valid: true },
        0xB0 => Instruction { mnemonic: Mnemonic::BCS, addressing_mode: AddressingMode::Relative, valid: true },
        0xB1 => Instruction { mnemonic: Mnemonic::LDA, addressing_mode: AddressingMode::IndirectIndexedY, valid: true },
        0xB4 => Instruction { mnemonic: Mnemonic::LDY, addressing_mode: AddressingMode::ZeroPageX, valid: true },
        0xB5 => Instruction { mnemonic: Mnemonic::LDA, addressing_mode: AddressingMode::ZeroPageX, valid: true },
        0xB6 => Instruction { mnemonic: Mnemonic::LDX, addressing_mode: AddressingMode::ZeroPageY, valid: true },
        0xB8 => Instruction { mnemonic: Mnemonic::CLV, addressing_mode: AddressingMode::Implied, valid: true },
        0xB9 => Instruction { mnemonic: Mnemonic::LDA, addressing_mode: AddressingMode::AbsoluteY, valid: true },
        0xBA => Instruction { mnemonic: Mnemonic::TSX, addressing_mode: AddressingMode::Implied, valid: true },
        0xBC => Instruction { mnemonic: Mnemonic::LDY, addressing_mode: AddressingMode::AbsoluteX, valid: true },
        0xBD => Instruction { mnemonic: Mnemonic::LDA, addressing_mode: AddressingMode::AbsoluteX, valid: true },
        0xBE => Instruction { mnemonic: Mnemonic::LDX, addressing_mode: AddressingMode::AbsoluteY, valid: true },
        0xC0 => Instruction { mnemonic: Mnemonic::CPY, addressing_mode: AddressingMode::Immediate, valid: true },
        0xC1 => Instruction { mnemonic: Mnemonic::CMP, addressing_mode: AddressingMode::IndexedIndirectX, valid: true },
        0xC4 => Instruction { mnemonic: Mnemonic::CPY, addressing_mode: AddressingMode::ZeroPage, valid: true },
        0xC5 => Instruction { mnemonic: Mnemonic::CMP, addressing_mode: AddressingMode::ZeroPage, valid: true },
        0xC6 => Instruction { mnemonic: Mnemonic::DEC, addressing_mode: AddressingMode::ZeroPage, valid: true },
        0xC8 => Instruction { mnemonic: Mnemonic::INY, addressing_mode: AddressingMode::Implied, valid: true },
        0xC9 => Instruction { mnemonic: Mnemonic::CMP, addressing_mode: AddressingMode::Immediate, valid: true },
        0xCA => Instruction { mnemonic: Mnemonic::DEX, addressing_mode: AddressingMode::Implied, valid: true },
        0xCC => Instruction { mnemonic: Mnemonic::CPY, addressing_mode: AddressingMode::Absolute, valid: true },
        0xCD => Instruction { mnemonic: Mnemonic::CMP, addressing_mode: AddressingMode::Absolute, valid: true },
        0xCE => Instruction { mnemonic: Mnemonic::DEC, addressing_mode: AddressingMode::Absolute, valid: true },
        0xD0 => Instruction { mnemonic: Mnemonic::BNE, addressing_mode: AddressingMode::Relative, valid: true },
        0xD1 => Instruction { mnemonic: Mnemonic::CMP, addressing_mode: AddressingMode::IndirectIndexedY, valid: true },
        0xD5 => Instruction { mnemonic: Mnemonic::CMP, addressing_mode: AddressingMode::ZeroPageX, valid: true },
        0xD6 => Instruction { mnemonic: Mnemonic::DEC, addressing_mode: AddressingMode::ZeroPageX, valid: true },
        0xD8 => Instruction { mnemonic: Mnemonic::CLD, addressing_mode: AddressingMode::Implied, valid: true },
        0xD9 => Instruction { mnemonic: Mnemonic::CMP, addressing_mode: AddressingMode::AbsoluteY, valid: true },
        0xDD => Instruction { mnemonic: Mnemonic::CMP, addressing_mode: AddressingMode::AbsoluteX, valid: true },
        0xDE => Instruction { mnemonic: Mnemonic::DEC, addressing_mode: AddressingMode::AbsoluteX, valid: true },
        0xE0 => Instruction { mnemonic: Mnemonic::CPX, addressing_mode: AddressingMode::Immediate, valid: true },
        0xE1 => Instruction { mnemonic: Mnemonic::SBC, addressing_mode: AddressingMode::IndexedIndirectX, valid: false },
        0xE4 => Instruction { mnemonic: Mnemonic::CPX, addressing_mode: AddressingMode::ZeroPage, valid: true },
        0xE5 => Instruction { mnemonic: Mnemonic::SBC, addressing_mode: AddressingMode::ZeroPage, valid: true },
        0xE6 => Instruction { mnemonic: Mnemonic::INC, addressing_mode: AddressingMode::ZeroPage, valid: true },
        0xE8 => Instruction { mnemonic: Mnemonic::INX, addressing_mode: AddressingMode::Implied, valid: true },
        0xE9 => Instruction { mnemonic: Mnemonic::SBC, addressing_mode: AddressingMode::Immediate, valid: true },
        0xEA => Instruction { mnemonic: Mnemonic::NOP, addressing_mode: AddressingMode::Implied, valid: true },
        0xEC => Instruction { mnemonic: Mnemonic::CPX, addressing_mode: AddressingMode::Absolute, valid: true },
        0xED => Instruction { mnemonic: Mnemonic::SBC, addressing_mode: AddressingMode::Absolute, valid: true },
        0xEE => Instruction { mnemonic: Mnemonic::INC, addressing_mode: AddressingMode::Absolute, valid: true },
        0xF0 => Instruction { mnemonic: Mnemonic::BEQ, addressing_mode: AddressingMode::Relative, valid: true },
        0xF1 => Instruction { mnemonic: Mnemonic::SBC, addressing_mode: AddressingMode::IndirectIndexedY, valid: true },
        0xF5 => Instruction { mnemonic: Mnemonic::SBC, addressing_mode: AddressingMode::ZeroPageX, valid: true },
        0xF6 => Instruction { mnemonic: Mnemonic::INC, addressing_mode: AddressingMode::ZeroPageX, valid: true },
        0xF8 => Instruction { mnemonic: Mnemonic::SED, addressing_mode: AddressingMode::Implied, valid: true },
        0xF9 => Instruction { mnemonic: Mnemonic::SBC, addressing_mode: AddressingMode::AbsoluteY, valid: true },
        0xFD => Instruction { mnemonic: Mnemonic::SBC, addressing_mode: AddressingMode::AbsoluteX, valid: true },
        0xFE => Instruction { mnemonic: Mnemonic::INC, addressing_mode: AddressingMode::AbsoluteX, valid: true },
        _ => Instruction { mnemonic: Mnemonic::NOP, addressing_mode: AddressingMode::Implied, valid: false },
    }
}

/// Every mnemonic's text is three characters long.
pub proof fn lemma_mnemonic_text_len(m: Mnemonic)
    ensures
        spec_mnemonic_text(m).len() == 3,
{
    reveal_strlit("ADC");
    reveal_strlit("AND");
    reveal_strlit("ASL");
    reveal_strlit("BCC");
    reveal_strlit("BCS");
    reveal_strlit("BEQ");
    reveal_strlit("BIT");
    reveal_strlit("BMI");
    reveal_strlit("BNE");
    reveal_strlit("BPL");
    reveal_strlit("BRK");
    reveal_strlit("BVC");
    reveal_strlit("BVS");
    reveal_strlit("CLC");
    reveal_strlit("CLD");
    reveal_strlit("CLI");
    reveal_strlit("CLV");
    reveal_strlit("CMP");
    reveal_strlit("CPX");
    reveal_strlit("CPY");
    reveal_strlit("DEC");
    reveal_strlit("DEX");
    reveal_strlit("DEY");
    reveal_strlit("EOR");
    reveal_strlit("INC");
    reveal_strlit("INX");
    reveal_strlit("INY");
    reveal_strlit("JMP");
    reveal_strlit("JSR");
    reveal_strlit("LDA");
    reveal_strlit("LDX");
    reveal_strlit("LDY");
    reveal_strlit("LSR");
    reveal_strlit("NOP");
    reveal_strlit("ORA");
    reveal_strlit("PHA");
    reveal_strlit("PHP");
    reveal_strlit("PLA");
    reveal_strlit("PLP");
    reveal_strlit("ROL");
    reveal_strlit("ROR");
    reveal_strlit("RTI");
    reveal_strlit("RTS");
    reveal_strlit("SBC");
    reveal_strlit("SEC");
    reveal_strlit("SED");
    reveal_strlit("SEI");
    reveal_strlit("STA");
    reveal_strlit("STX");
    reveal_strlit("STY");
    reveal_strlit("TAX");
    reveal_strlit("TAY");
    reveal_strlit("TSX");
    reveal_strlit("TXA");
    reveal_strlit("TXS");
    reveal_strlit("TYA");
}

} // verus!
