use bbc_b::devices::Clocked;
use bbc_b::ic32::IC32;
use bbc_b::mc6845::CRTC;

#[test]
fn mode_adjust() {
    let ic32 = IC32::new();
    // c1, c0 = b5, b4 = 0, 0
    let offset = ic32.lookup_mode_adjust() as u16;
    let offset = (offset + 1) * 2 * 1024;
    let address = 0x8000;
    let address = address - offset;
    assert_eq!(address, 0x4000); // MODE 3: wraps to &4000
    assert_eq!(offset / 1024, 16); // MODE 3: 16k increase
}

#[test]
fn ic32_bit_writes() {
    let mut ic32 = IC32::new();
    ic32.write(3, true); // enable keyboard autoscan
    assert!(ic32.has(3));
    assert!(!ic32.has(0));
    ic32.write(3, false);
    assert!(!ic32.has(3));
    ic32.write(7, true);
    ic32.write(0, true);
    assert!(ic32.has(7) && ic32.has(0));
}

#[test]
fn vsync_step1() {
    // run for a second
    let mut crtc = CRTC::new();
    let mut count = 0;
    for us in 1..1_000_000u64 {
        crtc.step(us);
        if crtc.vsync.sense() {
            count += 1;
        }
    }

    assert_eq!(count, 49);
}

#[test]
fn vsync_step3() {
    // run for a second
    let mut crtc = CRTC::new();
    let mut count = 0;
    for us in (1..1_000_000u64).step_by(3) {
        crtc.step(us);
        if crtc.vsync.sense() {
            count += 1;
        }
    }

    assert_eq!(count, 49);
}

#[test]
fn signal_is_sense_once() {
    let mut signal = bbc_b::devices::Signal::new();
    assert!(!signal.sense());
    signal.raise();
    signal.raise();
    assert!(signal.sense());
    assert!(!signal.sense()); // consumed: no second report
}
