//! Disassembly of 6502 machine code into human-readable text, for
//! diagnostics and traces.

use vstd::prelude::*;

use crate::instructions::{AddressingMode, Instruction};
use crate::memory::Address;

verus! {

/// One hexadecimal digit as text.
fn hex_digit(n: u8) -> (r: &'static str)
    requires
        n < 16,
    ensures
        r@.len() == 1,
{
    let r = match n {
        0 => "0",
        1 => "1",
        2 => "2",
        3 => "3",
        4 => "4",
        5 => "5",
        6 => "6",
        7 => "7",
        8 => "8",
        9 => "9",
        10 => "a",
        11 => "b",
        12 => "c",
        13 => "d",
        14 => "e",
        _ => "f",
    };
    proof {
        reveal_strlit("0");
        reveal_strlit("1");
        reveal_strlit("2");
        reveal_strlit("3");
        reveal_strlit("4");
        reveal_strlit("5");
        reveal_strlit("6");
        reveal_strlit("7");
        reveal_strlit("8");
        reveal_strlit("9");
        reveal_strlit("a");
        reveal_strlit("b");
        reveal_strlit("c");
        reveal_strlit("d");
        reveal_strlit("e");
        reveal_strlit("f");
    }
    r
}

/// Appends a byte as two hexadecimal digits.
fn push_hex_byte(out: &mut String, byte: u8)
    ensures
        final(out)@.len() == old(out)@.len() + 2,
        final(out)@.subrange(0, old(out)@.len() as int) == old(out)@,
{
    proof {
        assert(byte >> 4u8 < 16 && (byte & 0x0F) < 16) by (bit_vector);
    }
    out.append(hex_digit(byte >> 4u8));
    out.append(hex_digit(byte & 0x0F));
    proof {
        assert(out@.subrange(0, old(out)@.len() as int) =~= old(out)@);
    }
}

/// Appends a 16-bit value as four hexadecimal digits.
fn push_hex_word(out: &mut String, value: u16)
    ensures
        final(out)@.len() == old(out)@.len() + 4,
        final(out)@.subrange(0, old(out)@.len() as int) == old(out)@,
{
    proof {
        assert((value >> 8u16) < 256 && (value & 0xFF) < 256) by (bit_vector);
    }
    push_hex_byte(out, (value >> 8u16) as u8);
    push_hex_byte(out, (value & 0xFF) as u8);
    proof {
        assert(out@.subrange(0, old(out)@.len() as int) =~= old(out)@);
    }
}

/// The operand bytes of one instruction, up to `size` of them, as aligned
/// hex columns; missing bytes show as `??`.
fn hexdump(bytes: &[u8], size: usize) -> (r: String)
    ensures
        size <= 3 ==> r@.len() == 8,
{
    let shown: usize = if size < bytes.len() {
        size
    } else {
        bytes.len()
    };
    let mut out = String::new();
    let mut i: usize = 0;
    let columns: usize = if size > 3 {
        size
    } else {
        3
    };
    while i < columns
        invariant
            shown <= bytes@.len(),
            i <= columns,
            out@.len() == (if i == 0 {
                0int
            } else {
                3 * i - 1
            }),
        decreases columns - i,
    {
        proof {
            reveal_strlit(" ");
            reveal_strlit("??");
            reveal_strlit("  ");
        }
        if i > 0 {
            out.append(" ");
        }
        if i < shown {
            push_hex_byte(&mut out, bytes[i]);
        } else if i < size {
            out.append("??");
        } else {
            out.append("  ");
        }
        i = i + 1;
    }
    out
}

/// The operand text of one addressing mode, from its raw operand bytes.
impl AddressingMode {
    pub fn get_operand(&self, bytes: &[u8]) -> (r: String)
        requires
            bytes@.len() >= spec_mode_operand_len(*self),
    {
        let mut out = String::new();
        match self {
            AddressingMode::Accumulator => {
                out.append("A");
            },
            AddressingMode::Implied => {},
            AddressingMode::Immediate => {
                out.append("#&");
                push_hex_byte(&mut out, bytes[0]);
            },
            AddressingMode::ZeroPage => {
                out.append("&");
                push_hex_byte(&mut out, bytes[0]);
            },
            AddressingMode::ZeroPageX => {
                out.append("&");
                push_hex_byte(&mut out, bytes[0]);
                out.append(" + X");
            },
            AddressingMode::ZeroPageY => {
                out.append("&");
                push_hex_byte(&mut out, bytes[0]);
                out.append(" + Y");
            },
            AddressingMode::Relative => {
                if bytes[0] & 0x80 == 0 {
                    out.append("pc + ");
                    push_hex_byte(&mut out, bytes[0]);
                } else {
                    out.append("pc - ");
                    push_hex_byte(&mut out, (!bytes[0]).wrapping_add(1));
                }
            },
            AddressingMode::Absolute => {
                out.append("&");
                push_hex_byte(&mut out, bytes[1]);
                push_hex_byte(&mut out, bytes[0]);
            },
            AddressingMode::AbsoluteX => {
                out.append("&");
                push_hex_byte(&mut out, bytes[1]);
                push_hex_byte(&mut out, bytes[0]);
                out.append(" + X");
            },
            AddressingMode::AbsoluteY => {
                out.append("&");
                push_hex_byte(&mut out, bytes[1]);
                push_hex_byte(&mut out, bytes[0]);
                out.append(" + Y");
            },
            AddressingMode::Indirect => {
                out.append("(&");
                push_hex_byte(&mut out, bytes[1]);
                push_hex_byte(&mut out, bytes[0]);
                out.append(")");
            },
            AddressingMode::IndexedIndirectX => {
                out.append("(&");
                push_hex_byte(&mut out, bytes[0]);
                out.append(" + X)");
            },
            AddressingMode::IndirectIndexedY => {
                out.append("(&");
                push_hex_byte(&mut out, bytes[0]);
                out.append(") + Y");
            },
        }
        out
    }
}

/// How many operand bytes `get_operand` reads for a mode.
pub open spec fn spec_mode_operand_len(mode: AddressingMode) -> int {
    crate::instructions::spec_mode_size(mode) as int
}

/// Iterates over 1-3 byte chunks of machine code, one instruction each.
pub struct Chunks<'a> {
    bytes: &'a [u8],
    index: usize,
}

impl<'a> Chunks<'a> {
    pub closed spec fn spec_index(&self) -> int {
        self.index as int
    }

    pub closed spec fn spec_len(&self) -> int {
        self.bytes@.len() as int
    }

    /// The machine code being chunked.
    pub closed spec fn spec_bytes(&self) -> Seq<u8> {
        self.bytes@
    }

    /// How many bytes the instruction at `index` occupies: its opcode and
    /// operand, clipped at the end of the input.
    pub open spec fn spec_chunk_len(&self, index: int) -> int {
        let opcode_len = 1 + crate::instructions::spec_mode_size(
            crate::instructions::spec_lookup(self.spec_bytes()[index]).addressing_mode,
        ) as int;
        let available = self.spec_len() - index;
        if opcode_len <= available {
            opcode_len
        } else {
            available
        }
    }

    pub fn new(bytes: &'a [u8]) -> (r: Chunks<'a>)
        ensures
            r.spec_index() == 0,
            r.spec_len() == bytes@.len(),
            r.spec_bytes() == bytes@,
    {
        Chunks { bytes, index: 0 }
    }

    /// The next instruction's bytes: the opcode and its operand bytes,
    /// clipped at the end of the input. Returns nothing once the input is
    /// exhausted.
    pub fn next(&mut self) -> (r: Option<&'a [u8]>)
        ensures
            final(self).spec_len() == old(self).spec_len(),
            final(self).spec_bytes() == old(self).spec_bytes(),
            r is Some ==> {
                &&& 1 <= r->Some_0@.len() <= 3
                &&& old(self).spec_index() < old(self).spec_len()
                &&& r->Some_0@.len() == old(self).spec_chunk_len(old(self).spec_index())
                &&& r->Some_0@ == old(self).spec_bytes().subrange(
                    old(self).spec_index(),
                    old(self).spec_index() + r->Some_0@.len(),
                )
                &&& final(self).spec_index() == old(self).spec_index() + r->Some_0@.len()
            },
            r is None ==> {
                &&& old(self).spec_index() >= old(self).spec_len()
                &&& final(self).spec_index() == old(self).spec_index()
            },
    {
        if self.index < self.bytes.len() {
            let start = self.index;
            let operation = Instruction::lookup(self.bytes[start]);
            let size = operation.addressing_mode.get_size() as usize;
            let remaining = self.bytes.len() - start;
            let take: usize = if size + 1 <= remaining {
                size + 1
            } else {
                remaining
            };
            let end = start + take;
            self.index = end;
            proof {
                assert(crate::instructions::spec_mode_size(
                    crate::instructions::spec_lookup(self.bytes@[start as int]).addressing_mode,
                ) <= 2);
            }
            Some(vstd::slice::slice_subrange(self.bytes, start, end))
        } else {
            None
        }
    }
}

/// One instruction's text: eight columns of hex bytes, then the mnemonic
/// at a fixed position, then the operand, with a marker on invalid
/// opcodes.
#[verifier::rlimit(60)]
fn do_disassemble(bytes: &[u8], target: Option<Address>) -> (r: String)
    requires
        bytes@.len() > 0,
    ensures
        r@.len() >= 12,
        r@.subrange(9, 12) == crate::instructions::spec_mnemonic_text(
            crate::instructions::spec_lookup(bytes@[0]).mnemonic,
        ),
{
    let operation = Instruction::lookup(bytes[0]);
    let operand_size = operation.addressing_mode.get_size() as usize;
    proof {
        assert(crate::instructions::spec_mode_size(operation.addressing_mode) <= 2);
        reveal_strlit(" ");
        crate::instructions::lemma_mnemonic_text_len(operation.mnemonic);
    }
    let mut out = hexdump(bytes, 1 + operand_size);
    out.append(" ");
    out.append(operation.mnemonic.to_str());
    let ghost head = out@;
    proof {
        let text = crate::instructions::spec_mnemonic_text(operation.mnemonic);
        assert(head.len() == 12);
        assert forall|k: int| 0 <= k < 3 implies head[9 + k] == text[k] by {}
        assert(head.subrange(9, 12) =~= text);
    }
    let mut tail = String::new();
    if bytes.len() < 1 + operand_size {
        tail.append(" ");
        tail.append(operation.addressing_mode.get_name());
    } else if operand_size > 0 {
        tail.append(" ");
        let operand = vstd::slice::slice_subrange(bytes, 1, 1 + operand_size);
        match (operation.addressing_mode, target) {
            (AddressingMode::Relative, Some(address)) => {
                // resolve the branch target against the given address
                let mut resolved = address;
                resolved.inc_by(2);
                if operand[0] & 0x80 == 0 {
                    resolved.inc_by(operand[0]);
                } else {
                    resolved.dec_by((!operand[0]).wrapping_add(1));
                }
                tail.append("&");
                push_hex_word(&mut tail, resolved.to_u16());
            },
            _ => {
                let text = operation.addressing_mode.get_operand(operand);
                tail.append(text.as_str());
            },
        }
    }
    if !operation.is_valid() {
        tail.append(" <-- invalid opcode");
    }
    out.append(tail.as_str());
    proof {
        assert(out@ == head + tail@);
        assert forall|k: int| 0 <= k < 12 implies out@[k] == head[k] by {}
        assert(out@.subrange(9, 12) =~= head.subrange(9, 12));
    }
    out
}

/// Disassembles one instruction: the text carries the decoded mnemonic
/// after the eight hex columns.
pub fn disassemble(bytes: &[u8]) -> (r: String)
    requires
        bytes@.len() > 0,
    ensures
        r@.len() >= 12,
        r@.subrange(9, 12) == crate::instructions::spec_mnemonic_text(
            crate::instructions::spec_lookup(bytes@[0]).mnemonic,
        ),
{
    do_disassemble(bytes, None)
}

/// Disassembles one instruction, resolving branch targets against the
/// address it sits at.
pub fn disassemble_with_address(address: Address, bytes: &[u8]) -> (r: String)
    requires
        bytes@.len() > 0,
    ensures
        r@.len() >= 12,
        r@.subrange(9, 12) == crate::instructions::spec_mnemonic_text(
            crate::instructions::spec_lookup(bytes@[0]).mnemonic,
        ),
{
    do_disassemble(bytes, Some(address))
}

} // verus!
