use bbc_b::keyboard::Keyboard;

#[test]
fn press_keyboard() {
    let mut kb = Keyboard::new();
    // diagonally press and release keys
    for key in 1..8 {
        assert_eq!(kb.scan_interrupt(), false);
        kb.write(key, key, true);
        assert_eq!(kb.scan_interrupt(), true);
        assert!(kb.is_key_pressed(key << 4 | key));
        kb.write(key, key, false);
        assert_eq!(kb.scan_interrupt(), false);
    }

    assert_eq!(kb.scan_interrupt(), false);
    for key in 0..74 {
        let col = key / 8;
        let row = key % 8;
        let key_code = row << 4 | col;
        println!("{key_code:x} {row} {col}");
        assert_eq!(kb.read(row, col), false);
        kb.press_key(key_code);
        if row == 0 {
            // SHIFT, CTRL, and dip switches don't IRQ
            assert_eq!(kb.scan_interrupt(), false);
            if 2 <= col && col <= 9 {
                kb.set_dip_switch(1 << (9 - col));
            }
        } else {
            assert_eq!(kb.scan_interrupt(), true);
        }
        assert_eq!(kb.read(row, col), true);
        kb.release_key(key_code);
        kb.set_dip_switch(0);
        assert_eq!(kb.scan_interrupt(), false);
        assert_eq!(kb.read(row, col), false);
    }
}

#[test]
fn test_dip_switch() {
    let mut kb = Keyboard::new();
    assert_eq!(kb.read(0, 2), false);
    kb.set_dip_switch(0b1101_0101);
    assert_eq!(kb.scan_interrupt(), false);
    assert_eq!(kb.read(0, 2), true);
    assert_eq!(kb.read(0, 3), true);
    assert_eq!(kb.read(0, 4), false);
    assert_eq!(kb.read(0, 5), true);
    assert_eq!(kb.read(0, 6), false);
    assert_eq!(kb.read(0, 7), true);
    assert_eq!(kb.read(0, 8), false);
    assert_eq!(kb.read(0, 9), true);
}

#[test]
fn keyboard_press_keyboard() {
    let mut kb = Keyboard::new();
    assert_eq!(kb.scan_interrupt(), false);
    for key in 0..74 {
        let col = key / 8;
        let row = key % 8;
        println!("{key} {row} {col}");
        assert_eq!(kb.read(row, col), false);
        kb.write(row, col, true);
        assert_eq!(kb.read(row, col), true);
    }
    assert_eq!(kb.scan_interrupt(), true);
}

#[test]
fn keyboard_test_dip_switch() {
    let mut kb = Keyboard::new();
    assert_eq!(kb.read(0, 2), false);
    kb.set_dip_switch(0b1101_0101);
    assert_eq!(kb.scan_interrupt(), false);
    assert_eq!(kb.read(0, 2), true);
    assert_eq!(kb.read(0, 3), true);
    assert_eq!(kb.read(0, 4), false);
    assert_eq!(kb.read(0, 5), true);
    assert_eq!(kb.read(0, 6), false);
    assert_eq!(kb.read(0, 7), true);
    assert_eq!(kb.read(0, 8), false);
    assert_eq!(kb.read(0, 9), true);
}

#[test]
fn autoscan_and_manual_scan_agree() {
    // for a key outside row 0, the direct probe, its column's manual scan
    // and the autoscan interrupt all sense the press alike
    let mut kb = Keyboard::new();
    kb.press_key(0x34); // row 3, column 4
    assert!(kb.is_key_pressed(0x34));
    assert!(kb.scan_column(4));
    assert!(kb.scan_interrupt());
    kb.release_key(0x34);
    assert!(!kb.is_key_pressed(0x34));
    assert!(!kb.scan_column(4));
    assert!(!kb.scan_interrupt());

    // row 0 (SHIFT): the probe sees it, the scans never do
    kb.press_key(0x00);
    assert!(kb.is_key_pressed(0x00));
    assert!(!kb.scan_column(0));
    assert!(!kb.scan_interrupt());
}

#[test]
fn ascii_translation() {
    let mut kb = Keyboard::new();
    kb.press_key_ascii(b'b'); // key code 0x64: row 6, column 4
    assert!(kb.is_key_pressed(0x64));
    assert!(!kb.is_key_pressed(0x00)); // no SHIFT for lower case
    kb.release_key_ascii(b'b');
    assert!(!kb.is_key_pressed(0x64));

    kb.press_key_ascii(b'!'); // shifted '1', key code 0x30
    assert!(kb.is_key_pressed(0x30));
    assert!(kb.is_key_pressed(0x00)); // SHIFT held
    kb.release_key_ascii(b'!');
    assert!(!kb.is_key_pressed(0x30));
    assert!(!kb.is_key_pressed(0x00));
}

#[test]
fn probe_nonexistent_column() {
    let mut kb = Keyboard::new();
    kb.press_key(0x34);
    // the MOS ROM probes key code 15 (column 15) expecting not-pressed
    assert_eq!(kb.is_key_pressed(15), false);
}
