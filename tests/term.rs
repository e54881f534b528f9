use bless::{read_char, read_u8, show_cursor, sync, Error, RawMode, TermConfig};

fn config(lflag: u32) -> TermConfig {
    let mut cc = [0u8; 32];
    cc[6] = 1;
    TermConfig { iflag: 0x500, oflag: 0x5, cflag: 0xbf, lflag, line: 0, cc, ispeed: 15, ospeed: 15 }
}

fn same(a: &TermConfig, b: &TermConfig) -> bool {
    a.iflag == b.iflag
        && a.oflag == b.oflag
        && a.cflag == b.cflag
        && a.lflag == b.lflag
        && a.line == b.line
        && a.cc == b.cc
        && a.ispeed == b.ispeed
        && a.ospeed == b.ospeed
}

#[test]
fn cursor_codes() {
    assert_eq!(show_cursor(true), "\x1b[?25h");
    assert_eq!(show_cursor(false), "\x1b[?25l");
}

#[test]
fn read_u8_outcomes() {
    assert_eq!(read_u8(Ok(1), [b'x']).unwrap(), Some(b'x'));
    assert_eq!(read_u8(Ok(0), [b'x']).unwrap(), None);
    match read_u8(Err(Error(String::from("read failed"))), [0]) {
        Err(e) => assert_eq!(e.message(), "read failed"),
        Ok(_) => panic!("the error was lost"),
    }
}

#[test]
fn read_char_outcomes() {
    assert_eq!(read_char(Ok(Some(b'q'))).unwrap(), Some('q'));
    assert_eq!(read_char(Ok(Some(127))).unwrap(), Some('\u{7f}'));
    assert_eq!(read_char(Ok(None)).unwrap(), None);
    match read_char(Ok(Some(0xc3))) {
        Err(e) => assert_eq!(e.message(), "Don't support UTF8 yet."),
        Ok(_) => panic!("a non-ASCII byte was accepted"),
    }
    match read_char(Err(Error(String::from("gone")))) {
        Err(e) => assert_eq!(e.message(), "gone"),
        Ok(_) => panic!("the error was lost"),
    }
}

#[test]
fn sync_succeeds() {
    assert!(sync().is_ok());
}

#[test]
fn raw_on_then_off_restores_captured() {
    let mut m = RawMode::new(2, 8);
    let cooked = config(0x8a3b);
    assert!(m.needs_capture(true));
    let on = m.set_raw_input(true, Some(cooked));
    assert!(on.register_exit);
    let raw = on.apply.unwrap();
    assert_eq!(raw.lflag, 0x8a3b & !(2 | 8));
    assert_eq!(raw.cc, cooked.cc);
    assert!(!m.needs_capture(true));
    let off = m.set_raw_input(false, None);
    assert!(!off.register_exit);
    assert!(same(&off.apply.unwrap(), &cooked));
}

#[test]
fn raw_off_before_on_does_nothing() {
    let mut m = RawMode::new(2, 8);
    assert!(!m.needs_capture(false));
    let off = m.set_raw_input(false, Some(config(0xffff)));
    assert!(off.apply.is_none());
    assert!(!off.register_exit);
    assert!(m.needs_capture(true));
}

#[test]
fn exit_hook_registered_once() {
    let mut m = RawMode::new(2, 8);
    let cooked = config(0x0a);
    assert!(m.set_raw_input(true, Some(cooked)).register_exit);
    let again = m.set_raw_input(true, Some(config(0)));
    assert!(!again.register_exit);
    assert_eq!(again.apply.unwrap().lflag, 0);
    assert!(!m.set_raw_input(false, None).register_exit);
    let back_on = m.set_raw_input(true, None);
    assert!(!back_on.register_exit);
    assert!(same(&m.set_raw_input(false, None).apply.unwrap(), &cooked));
}

#[test]
fn first_entry_without_capture_does_nothing() {
    let mut m = RawMode::new(2, 8);
    let a = m.set_raw_input(true, None);
    assert!(a.apply.is_none());
    assert!(!a.register_exit);
    assert!(m.needs_capture(true));
}

#[test]
fn raw_clears_the_given_bits() {
    let mut m = RawMode::new(0x100, 0x8);
    let cooked = config(0x1ff);
    let on = m.set_raw_input(true, Some(cooked));
    let raw = on.apply.unwrap();
    assert_eq!(raw.lflag, 0x0f7);
    assert_eq!(raw.iflag, cooked.iflag);
    assert_eq!(raw.cflag, cooked.cflag);
    assert_eq!(raw.ispeed, cooked.ispeed);
}
