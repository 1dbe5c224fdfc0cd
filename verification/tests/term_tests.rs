use rattler_pty::{
    allocate, apply_raw, restore, snapshot_and_set_raw, snapshot_attrs, TermAttrs, WindowSize, BRKINT, CS8,
    CSIZE, ECHO, ICANON, ICRNL, IEXTEN, INPCK, ISIG, ISTRIP, IXON, NCCS, OPOST, PARENB, VMIN,
    VTIME,
};

fn sample_attrs() -> TermAttrs {
    TermAttrs {
        iflag: BRKINT | ICRNL | INPCK | ISTRIP | IXON | 0x4000,
        oflag: OPOST | 0x4,
        cflag: PARENB | 0x40 | 0x10,
        lflag: ECHO | ICANON | IEXTEN | ISIG | 0x40,
        line: 0,
        cc: vec![3u8; NCCS],
        ispeed: 15,
        ospeed: 15,
    }
}

#[test]
fn raw_mode_clears_exactly_the_documented_flags() {
    let original = sample_attrs();
    let raw = original.make_raw();
    assert_eq!(raw.iflag, 0x4000);
    assert_eq!(raw.oflag, 0x4);
    assert_eq!(raw.cflag, (PARENB | 0x40 | 0x10) & !(CSIZE | PARENB) | CS8);
    assert_eq!(raw.lflag, 0x40);
    assert_eq!(raw.line, original.line);
    assert_eq!(raw.ispeed, original.ispeed);
    assert_eq!(raw.ospeed, original.ospeed);
    assert_eq!(raw.cc[VMIN], 1);
    assert_eq!(raw.cc[VTIME], 0);
    for (i, b) in raw.cc.iter().enumerate() {
        if i != VMIN && i != VTIME {
            assert_eq!(*b, 3u8);
        }
    }
}

#[test]
fn raw_mode_forces_eight_bit_characters() {
    let mut original = sample_attrs();
    original.cflag = 0;
    let raw = original.make_raw();
    assert_eq!(raw.cflag & CSIZE, CS8);
    assert_eq!(raw.cflag & PARENB, 0);
}

#[test]
fn with_echo_toggles_only_the_echo_bit() {
    let original = sample_attrs();
    let silent = original.with_echo(false);
    assert_eq!(silent.lflag, original.lflag & !ECHO);
    assert_eq!(silent.iflag, original.iflag);
    assert_eq!(silent.oflag, original.oflag);
    assert_eq!(silent.cflag, original.cflag);
    assert_eq!(silent.cc, original.cc);
    let loud = silent.with_echo(true);
    assert_eq!(loud.lflag, original.lflag);
}

#[test]
fn raw_and_restore_round_trip_is_bit_for_bit() {
    let allocation = allocate(None).expect("pty allocation failed");
    let before = snapshot_attrs(&allocation.master).expect("first snapshot failed");
    let snapshot = snapshot_and_set_raw(&allocation.master).expect("entering raw mode failed");
    assert_eq!(before, snapshot);
    let during = snapshot_attrs(&allocation.master).expect("snapshot in raw mode failed");
    assert_eq!(during.lflag & ECHO, 0);
    assert_eq!(during.lflag & ICANON, 0);
    assert_eq!(during.oflag & OPOST, 0);
    restore(&allocation.master, &snapshot).expect("restore failed");
    let after = snapshot_attrs(&allocation.master).expect("second snapshot failed");
    assert_eq!(before, after);
    let returned = apply_raw(&allocation.master, after.clone()).expect("entering raw mode failed");
    assert_eq!(returned, after);
    restore(&allocation.master, &after).expect("restore failed");
}

#[test]
fn requested_window_size_is_kept() {
    let ws = WindowSize {
        rows: 17,
        cols: 33,
        xpixel: 0,
        ypixel: 0,
    };
    let allocation = allocate(Some(ws)).expect("pty allocation failed");
    assert_eq!(allocation.window_size, ws);
}
