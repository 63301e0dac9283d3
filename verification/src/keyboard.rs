//! The keyboard matrix: ten columns by eight rows of key state, with the
//! DIP-switch overlay on row zero and the ASCII-to-key-code translation
//! used by the host input path.

use vstd::prelude::*;

verus! {

/// Number of columns in the matrix; row 0 is the SHIFT/CTRL/DIP row.
pub const MAX_COL: u8 = 10;

/// The key matrix: one byte per column, one bit per row.
pub struct Keyboard {
    matrix: Vec<u8>,
}

impl View for Keyboard {
    type V = Seq<u8>;

    closed spec fn view(&self) -> Seq<u8> {
        self.matrix@
    }
}

/// Whether the key at (row, col) is down.
pub open spec fn spec_key(v: Seq<u8>, row: u8, col: u8) -> bool {
    v[col as int] & (1u8 << row) != 0
}

/// The matrix after one key cell is written.
pub open spec fn spec_kb_write(v: Seq<u8>, row: u8, col: u8, value: bool) -> Seq<u8> {
    if value {
        v.update(col as int, v[col as int] | (1u8 << row))
    } else {
        v.update(col as int, v[col as int] & !(1u8 << row))
    }
}

/// The (row, column) cell a 7-bit key code designates: row in bits 4-6,
/// column in bits 0-3.
pub open spec fn spec_decode(key_code: u8) -> (u8, u8) {
    ((0x70 & key_code) >> 4u8, 0x0F & key_code)
}

/// Whether a probe for a key code reads pressed. A code selecting one of
/// the nonexistent columns 10-15 always reads not pressed, as the MOS
/// ROM's deliberate invalid-column probe idiom expects.
pub open spec fn spec_is_key_pressed(v: Seq<u8>, key_code: u8) -> bool {
    if (0x0F & key_code) >= 10 {
        false
    } else {
        spec_key(v, spec_decode(key_code).0, spec_decode(key_code).1)
    }
}

/// Whether a manual scan of one column senses a key: any of rows 1-7 down,
/// row 0 (SHIFT/CTRL/DIP) excluded; nonexistent columns sense nothing.
pub open spec fn spec_scan_column(v: Seq<u8>, col: u8) -> bool {
    col < 10 && v[col as int] & 0xFE != 0
}

/// Whether the autoscan senses a key anywhere: some column's manual scan
/// would sense one.
pub open spec fn spec_scan_interrupt(v: Seq<u8>) -> bool {
    exists|col: u8| #[trigger] spec_scan_column(v, col)
}

/// The matrix after the eight DIP-switch bits are written into row 0,
/// columns 2-9, most significant bit first.
pub open spec fn spec_set_dip_switch(v: Seq<u8>, bits: u8) -> Seq<u8> {
    let v2 = spec_kb_write(v, 0, 2, bits & 0x80 != 0);
    let v3 = spec_kb_write(v2, 0, 3, bits & 0x40 != 0);
    let v4 = spec_kb_write(v3, 0, 4, bits & 0x20 != 0);
    let v5 = spec_kb_write(v4, 0, 5, bits & 0x10 != 0);
    let v6 = spec_kb_write(v5, 0, 6, bits & 0x08 != 0);
    let v7 = spec_kb_write(v6, 0, 7, bits & 0x04 != 0);
    let v8 = spec_kb_write(v7, 0, 8, bits & 0x02 != 0);
    spec_kb_write(v8, 0, 9, bits & 0x01 != 0)
}

/// The key code and required-SHIFT state an ASCII byte translates to, or
/// nothing for bytes outside the keyboard's character set.
pub open spec fn spec_ascii_to_key_code(ascii: u8) -> Option<(u8, bool)> {
    match ascii {
        0x20 => Some((0x62, false)),
        0x09 => Some((0x60, false)),
        0x0A => Some((0x49, false)),
        0x0D => Some((0x49, true)),
        0x30 => Some((0x27, false)),
        0x31 => Some((0x30, false)),
        0x21 => Some((0x30, true)),
        0x32 => Some((0x31, false)),
        0x22 => Some((0x31, true)),
        0x33 => Some((0x11, false)),
        0x23 => Some((0x11, true)),
        0x34 => Some((0x12, false)),
        0x24 => Some((0x12, true)),
        0x35 => Some((0x13, false)),
        0x25 => Some((0x13, true)),
        0x36 => Some((0x34, false)),
        0x26 => Some((0x34, true)),
        0x37 => Some((0x24, false)),
        0x27 => Some((0x24, true)),
        0x38 => Some((0x15, false)),
        0x28 => Some((0x15, true)),
        0x39 => Some((0x26, false)),
        0x29 => Some((0x26, true)),
        0x2D => Some((0x17, false)),
        0x3D => Some((0x17, true)),
        0x5E => Some((0x18, false)),
        0x7E => Some((0x18, true)),
        0x5F => Some((0x28, false)),
        0x5B => Some((0x38, false)),
        0x7B => Some((0x38, true)),
        0x40 => Some((0x47, false)),
        0x3A => Some((0x48, false)),
        0x2A => Some((0x48, true)),
        0x3B => Some((0x57, false)),
        0x2B => Some((0x57, true)),
        0x5D => Some((0x58, false)),
        0x7D => Some((0x58, true)),
        0x2C => Some((0x66, false)),
        0x3C => Some((0x66, true)),
        0x2E => Some((0x67, false)),
        0x3E => Some((0x67, true)),
        0x2F => Some((0x68, false)),
        0x5C => Some((0x78, false)),
        0x7C => Some((0x78, true)),
        0x61 => Some((0x41, false)),
        0x41 => Some((0x41, true)),
        0x62 => Some((0x64, false)),
        0x42 => Some((0x64, true)),
        0x63 => Some((0x52, false)),
        0x43 => Some((0x52, true)),
        0x64 => Some((0x32, false)),
        0x44 => Some((0x32, true)),
        0x65 => Some((0x22, false)),
        0x45 => Some((0x22, true)),
        0x66 => Some((0x43, false)),
        0x46 => Some((0x43, true)),
        0x67 => Some((0x53, false)),
        0x47 => Some((0x53, true)),
        0x68 => Some((0x54, false)),
        0x48 => Some((0x54, true)),
        0x69 => Some((0x25, false)),
        0x49 => Some((0x25, true)),
        0x6A => Some((0x45, false)),
        0x4A => Some((0x45, true)),
        0x6B => Some((0x46, false)),
        0x4B => Some((0x46, true)),
        0x6C => Some((0x56, false)),
        0x4C => Some((0x56, true)),
        0x6D => Some((0x65, false)),
        0x4D => Some((0x65, true)),
        0x6E => Some((0x55, false)),
        0x4E => Some((0x55, true)),
        0x6F => Some((0x36, false)),
        0x4F => Some((0x36, true)),
        0x70 => Some((0x37, false)),
        0x50 => Some((0x37, true)),
        0x71 => Some((0x10, false)),
        0x51 => Some((0x10, true)),
        0x72 => Some((0x33, false)),
        0x52 => Some((0x33, true)),
        0x73 => Some((0x51, false)),
        0x53 => Some((0x51, true)),
        0x74 => Some((0x23, false)),
        0x54 => Some((0x23, true)),
        0x75 => Some((0x35, false)),
        0x55 => Some((0x35, true)),
        0x76 => Some((0x63, false)),
        0x56 => Some((0x63, true)),
        0x77 => Some((0x21, false)),
        0x57 => Some((0x21, true)),
        0x78 => Some((0x42, false)),
        0x58 => Some((0x42, true)),
        0x79 => Some((0x44, false)),
        0x59 => Some((0x44, true)),
        0x7A => Some((0x61, false)),
        0x5A => Some((0x61, true)),
        0x7F => Some((0x59, false)),
        0x1B => Some((0x70, false)),
        _ => None,
    }
}

/// Whether an ASCII byte has a key-code translation.
pub open spec fn spec_ascii_known(ascii: u8) -> bool {
    spec_ascii_to_key_code(ascii) is Some
}

/// Translates an ASCII byte to its key code and SHIFT requirement.
pub fn ascii_to_key_code(ascii: u8) -> (r: Option<(u8, bool)>)
    ensures
        r == spec_ascii_to_key_code(ascii),
        r is Some ==> (0x0F & r->Some_0.0) < 10 && r->Some_0.0 != 15,
{
    proof {
        assert((0x0F & 0x10u8) < 10 && (0x0F & 0x11u8) < 10 && (0x0F & 0x12u8) < 10 && (0x0F & 0x13u8) < 10 && (0x0F & 0x15u8) < 10 && (0x0F & 0x17u8) < 10 && (0x0F & 0x18u8) < 10 && (0x0F & 0x21u8) < 10 && (0x0F & 0x22u8) < 10 && (0x0F & 0x23u8) < 10 && (0x0F & 0x24u8) < 10 && (0x0F & 0x25u8) < 10 && (0x0F & 0x26u8) < 10 && (0x0F & 0x27u8) < 10 && (0x0F & 0x28u8) < 10 && (0x0F & 0x30u8) < 10 && (0x0F & 0x31u8) < 10 && (0x0F & 0x32u8) < 10 && (0x0F & 0x33u8) < 10 && (0x0F & 0x34u8) < 10 && (0x0F & 0x35u8) < 10 && (0x0F & 0x36u8) < 10 && (0x0F & 0x37u8) < 10 && (0x0F & 0x38u8) < 10 && (0x0F & 0x41u8) < 10 && (0x0F & 0x42u8) < 10 && (0x0F & 0x43u8) < 10 && (0x0F & 0x44u8) < 10 && (0x0F & 0x45u8) < 10 && (0x0F & 0x46u8) < 10 && (0x0F & 0x47u8) < 10 && (0x0F & 0x48u8) < 10 && (0x0F & 0x49u8) < 10 && (0x0F & 0x51u8) < 10 && (0x0F & 0x52u8) < 10 && (0x0F & 0x53u8) < 10 && (0x0F & 0x54u8) < 10 && (0x0F & 0x55u8) < 10 && (0x0F & 0x56u8) < 10 && (0x0F & 0x57u8) < 10 && (0x0F & 0x58u8) < 10 && (0x0F & 0x59u8) < 10 && (0x0F & 0x60u8) < 10 && (0x0F & 0x61u8) < 10 && (0x0F & 0x62u8) < 10 && (0x0F & 0x63u8) < 10 && (0x0F & 0x64u8) < 10 && (0x0F & 0x65u8) < 10 && (0x0F & 0x66u8) < 10 && (0x0F & 0x67u8) < 10 && (0x0F & 0x68u8) < 10 && (0x0F & 0x70u8) < 10 && (0x0F & 0x78u8) < 10) by (bit_vector);
    }
    match ascii {
        0x20 => Some((0x62, false)),
        0x09 => Some((0x60, false)),
        0x0A => Some((0x49, false)),
        0x0D => Some((0x49, true)),
        0x30 => Some((0x27, false)),
        0x31 => Some((0x30, false)),
        0x21 => Some((0x30, true)),
        0x32 => Some((0x31, false)),
        0x22 => Some((0x31, true)),
        0x33 => Some((0x11, false)),
        0x23 => Some((0x11, true)),
        0x34 => Some((0x12, false)),
        0x24 => Some((0x12, true)),
        0x35 => Some((0x13, false)),
        0x25 => Some((0x13, true)),
        0x36 => Some((0x34, false)),
        0x26 => Some((0x34, true)),
        0x37 => Some((0x24, false)),
        0x27 => Some((0x24, true)),
        0x38 => Some((0x15, false)),
        0x28 => Some((0x15, true)),
        0x39 => Some((0x26, false)),
        0x29 => Some((0x26, true)),
        0x2D => Some((0x17, false)),
        0x3D => Some((0x17, true)),
        0x5E => Some((0x18, false)),
        0x7E => Some((0x18, true)),
        0x5F => Some((0x28, false)),
        0x5B => Some((0x38, false)),
        0x7B => Some((0x38, true)),
        0x40 => Some((0x47, false)),
        0x3A => Some((0x48, false)),
        0x2A => Some((0x48, true)),
        0x3B => Some((0x57, false)),
        0x2B => Some((0x57, true)),
        0x5D => Some((0x58, false)),
        0x7D => Some((0x58, true)),
        0x2C => Some((0x66, false)),
        0x3C => Some((0x66, true)),
        0x2E => Some((0x67, false)),
        0x3E => Some((0x67, true)),
        0x2F => Some((0x68, false)),
        0x5C => Some((0x78, false)),
        0x7C => Some((0x78, true)),
        0x61 => Some((0x41, false)),
        0x41 => Some((0x41, true)),
        0x62 => Some((0x64, false)),
        0x42 => Some((0x64, true)),
        0x63 => Some((0x52, false)),
        0x43 => Some((0x52, true)),
        0x64 => Some((0x32, false)),
        0x44 => Some((0x32, true)),
        0x65 => Some((0x22, false)),
        0x45 => Some((0x22, true)),
        0x66 => Some((0x43, false)),
        0x46 => Some((0x43, true)),
        0x67 => Some((0x53, false)),
        0x47 => Some((0x53, true)),
        0x68 => Some((0x54, false)),
        0x48 => Some((0x54, true)),
        0x69 => Some((0x25, false)),
        0x49 => Some((0x25, true)),
        0x6A => Some((0x45, false)),
        0x4A => Some((0x45, true)),
        0x6B => Some((0x46, false)),
        0x4B => Some((0x46, true)),
        0x6C => Some((0x56, false)),
        0x4C => Some((0x56, true)),
        0x6D => Some((0x65, false)),
        0x4D => Some((0x65, true)),
        0x6E => Some((0x55, false)),
        0x4E => Some((0x55, true)),
        0x6F => Some((0x36, false)),
        0x4F => Some((0x36, true)),
        0x70 => Some((0x37, false)),
        0x50 => Some((0x37, true)),
        0x71 => Some((0x10, false)),
        0x51 => Some((0x10, true)),
        0x72 => Some((0x33, false)),
        0x52 => Some((0x33, true)),
        0x73 => Some((0x51, false)),
        0x53 => Some((0x51, true)),
        0x74 => Some((0x23, false)),
        0x54 => Some((0x23, true)),
        0x75 => Some((0x35, false)),
        0x55 => Some((0x35, true)),
        0x76 => Some((0x63, false)),
        0x56 => Some((0x63, true)),
        0x77 => Some((0x21, false)),
        0x57 => Some((0x21, true)),
        0x78 => Some((0x42, false)),
        0x58 => Some((0x42, true)),
        0x79 => Some((0x44, false)),
        0x59 => Some((0x44, true)),
        0x7A => Some((0x61, false)),
        0x5A => Some((0x61, true)),
        0x7F => Some((0x59, false)),
        0x1B => Some((0x70, false)),
        _ => None,
    }
}

impl Keyboard {
    /// Ten columns of key state.
    pub closed spec fn inv(&self) -> bool {
        self.matrix@.len() == 10
    }

    pub fn new() -> (r: Keyboard)
        ensures
            r.inv(),
            r@ == Seq::new(10, |i: int| 0u8),
    {
        let mut matrix: Vec<u8> = Vec::new();
        let mut i: usize = 0;
        while i < 10
            invariant
                i <= 10,
                matrix@.len() == i,
                forall|j: int| 0 <= j < i ==> matrix@[j] == 0u8,
            decreases 10 - i,
        {
            matrix.push(0);
            i = i + 1;
        }
        let r = Keyboard { matrix };
        proof {
            assert(r@ =~= Seq::new(10, |i: int| 0u8));
        }
        r
    }

    pub fn decode(key_code: u8) -> (r: (u8, u8))
        ensures
            r == spec_decode(key_code),
            r.0 < 8,
    {
        let col: u8 = 0x0F & key_code;
        let row: u8 = (0x70 & key_code) >> 4u8;
        proof {
            assert((0x70 & key_code) >> 4u8 < 8) by (bit_vector);
        }
        (row, col)
    }

    pub fn read(&self, row: u8, col: u8) -> (r: bool)
        requires
            self.inv(),
            row < 8,
            col < MAX_COL,
        ensures
            r == spec_key(self@, row, col),
    {
        self.matrix[col as usize] & (1u8 << row) != 0
    }

    pub fn write(&mut self, row: u8, col: u8, value: bool)
        requires
            old(self).inv(),
            row < 8,
            col < MAX_COL,
        ensures
            final(self).inv(),
            final(self)@ == spec_kb_write(old(self)@, row, col, value),
    {
        let mask: u8 = 1u8 << row;
        if value {
            let cell = self.matrix[col as usize] | mask;
            self.matrix.set(col as usize, cell);
        } else {
            let cell = self.matrix[col as usize] & !mask;
            self.matrix.set(col as usize, cell);
        }
    }

    /// Probes one key by key code; codes selecting the nonexistent
    /// columns 10-15 always read not pressed.
    pub fn is_key_pressed(&self, key_code: u8) -> (r: bool)
        requires
            self.inv(),
        ensures
            r == spec_is_key_pressed(self@, key_code),
    {
        let (row, col) = Keyboard::decode(key_code);
        if col >= MAX_COL {
            return false;
        }
        self.read(row, col)
    }

    pub fn press_key(&mut self, key_code: u8)
        requires
            old(self).inv(),
            (0x0F & key_code) < 10,
        ensures
            final(self).inv(),
            final(self)@ == spec_kb_write(
                old(self)@,
                spec_decode(key_code).0,
                spec_decode(key_code).1,
                true,
            ),
    {
        let (row, col) = Keyboard::decode(key_code);
        self.write(row, col, true);
    }

    pub fn release_key(&mut self, key_code: u8)
        requires
            old(self).inv(),
            (0x0F & key_code) < 10,
        ensures
            final(self).inv(),
            final(self)@ == spec_kb_write(
                old(self)@,
                spec_decode(key_code).0,
                spec_decode(key_code).1,
                false,
            ),
    {
        let (row, col) = Keyboard::decode(key_code);
        self.write(row, col, false);
    }

    /// Presses the key an ASCII byte names, pressing SHIFT first where the
    /// character requires it.
    pub fn press_key_ascii(&mut self, ascii: u8)
        requires
            old(self).inv(),
            spec_ascii_known(ascii),
        ensures
            final(self).inv(),
            final(self)@ == ({
                let translated = spec_ascii_to_key_code(ascii)->Some_0;
                let v1 = if translated.1 {
                    spec_kb_write(old(self)@, 0, 0, true)
                } else {
                    old(self)@
                };
                spec_kb_write(
                    v1,
                    spec_decode(translated.0).0,
                    spec_decode(translated.0).1,
                    true,
                )
            }),
    {
        let translated = ascii_to_key_code(ascii);
        match translated {
            Some((key_code, shift)) => {
                if shift {
                    self.write(0, 0, true);
                }
                let (row, col) = Keyboard::decode(key_code);
                self.write(row, col, true);
            },
            None => {
                proof {
                    assert(false);
                }
            },
        }
    }

    /// Releases the key an ASCII byte names, and SHIFT with it.
    pub fn release_key_ascii(&mut self, ascii: u8)
        requires
            old(self).inv(),
            spec_ascii_known(ascii),
        ensures
            final(self).inv(),
            final(self)@ == ({
                let translated = spec_ascii_to_key_code(ascii)->Some_0;
                let v1 = spec_kb_write(
                    old(self)@,
                    spec_decode(translated.0).0,
                    spec_decode(translated.0).1,
                    false,
                );
                spec_kb_write(v1, 0, 0, false)
            }),
    {
        let translated = ascii_to_key_code(ascii);
        match translated {
            Some((key_code, _)) => {
                let (row, col) = Keyboard::decode(key_code);
                self.write(row, col, false);
                self.write(0, 0, false);
            },
            None => {
                proof {
                    assert(false);
                }
            },
        }
    }

    /// A manual scan of one column: senses any key in rows 1-7, with row 0
    /// (SHIFT, CTRL, DIP switches) masked out.
    pub fn scan_column(&self, col: u8) -> (r: bool)
        requires
            self.inv(),
        ensures
            r == spec_scan_column(self@, col),
    {
        if col < MAX_COL {
            self.matrix[col as usize] & 0xFE != 0
        } else {
            false
        }
    }

    /// The autoscan interrupt sense: any key down in any column, row 0
    /// excluded.
    pub fn scan_interrupt(&self) -> (r: bool)
        requires
            self.inv(),
        ensures
            r == spec_scan_interrupt(self@),
    {
        let mut col: u8 = 0;
        while col < MAX_COL
            invariant
                self.inv(),
                col <= 10,
                forall|c: u8| c < col ==> !spec_scan_column(self@, c),
            decreases 10 - col,
        {
            if self.scan_column(col) {
                return true;
            }
            col = col + 1;
        }
        proof {
            assert(forall|c: u8| !spec_scan_column(self@, c));
        }
        false
    }

    /// Writes the eight boot-configuration DIP-switch bits into row 0,
    /// columns 2-9, most significant bit first.
    pub fn set_dip_switch(&mut self, bits: u8)
        requires
            old(self).inv(),
        ensures
            final(self).inv(),
            final(self)@ == spec_set_dip_switch(old(self)@, bits),
    {
        self.write(0, 2, bits & 0x80 != 0);
        self.write(0, 3, bits & 0x40 != 0);
        self.write(0, 4, bits & 0x20 != 0);
        self.write(0, 5, bits & 0x10 != 0);
        self.write(0, 6, bits & 0x08 != 0);
        self.write(0, 7, bits & 0x04 != 0);
        self.write(0, 8, bits & 0x02 != 0);
        self.write(0, 9, bits & 0x01 != 0);
    }
}

/// Pressing a key makes the manual probe of its cell, the manual scan of
/// its column and the autoscan interrupt sense agree that a key is down -
/// for every cell outside row 0. Row 0 (SHIFT, CTRL and the DIP switches)
/// is sensed by the direct probe but never by column scan or autoscan.
pub proof fn lemma_autoscan_manual_agree(v: Seq<u8>, row: u8, col: u8)
    requires
        v.len() == 10,
        row < 8,
        col < 10,
    ensures
        ({
            let pressed = spec_kb_write(v, row, col, true);
            &&& spec_decode((row * 16 + col) as u8) == (row, col)
            &&& spec_is_key_pressed(pressed, (row * 16 + col) as u8)
            &&& (1 <= row ==> spec_scan_column(pressed, col))
            &&& (1 <= row ==> spec_scan_interrupt(pressed))
            &&& (row == 0 ==> forall|c: u8|
                spec_scan_column(pressed, c) == spec_scan_column(v, c))
        }),
{
    let pressed = spec_kb_write(v, row, col, true);
    let code = (row * 16 + col) as u8;
    assert(row < 8 && col < 10 ==> ((0x70 & ((row * 16 + col) as u8)) >> 4u8) == row && (0x0F & (
    (row * 16 + col) as u8)) == col) by (bit_vector);
    let cell = v[col as int];
    assert(row < 8 ==> (cell | (1u8 << row)) & (1u8 << row) != 0) by (bit_vector);
    assert(1 <= row < 8 ==> (cell | (1u8 << row)) & 0xFE != 0) by (bit_vector);
    assert((cell | (1u8 << 0u8)) & 0xFE == cell & 0xFE) by (bit_vector);
    if 1 <= row {
        assert(spec_scan_column(pressed, col));
    }
    if row == 0 {
        assert forall|c: u8| spec_scan_column(pressed, c) == spec_scan_column(v, c) by {
            if c < 10 {
                if c == col {
                    assert(pressed[c as int] == (cell | (1u8 << 0u8)));
                } else {
                    assert(pressed[c as int] == v[c as int]);
                }
            }
        }
    }
}

} // verus!
