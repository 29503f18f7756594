use shellshop::keys::{is_quit, pop_key, KeyCode, KeyEvent, KeyModifiers};

fn plain(code: KeyCode) -> KeyEvent {
    KeyEvent { code, modifiers: KeyModifiers::none() }
}

#[test]
fn empty_buffer_has_no_key() {
    let mut buf: Vec<u8> = Vec::new();
    assert_eq!(pop_key(&mut buf), None);
    assert!(buf.is_empty());
}

#[test]
fn ctrl_c_byte_is_control_c() {
    let mut buf = vec![0x03, b'x'];
    let key = pop_key(&mut buf).unwrap();
    assert_eq!(key.code, KeyCode::Char('c'));
    assert!(key.modifiers.is_control());
    assert!(is_quit(&key));
    assert_eq!(buf, vec![b'x']);
}

#[test]
fn csi_and_ss3_arrows() {
    let mut buf = vec![0x1b, b'[', b'A', 0x1b, b'[', b'B', 0x1b, b'O', b'C', 0x1b, b'O', b'D'];
    assert_eq!(pop_key(&mut buf), Some(plain(KeyCode::Up)));
    assert_eq!(pop_key(&mut buf), Some(plain(KeyCode::Down)));
    assert_eq!(pop_key(&mut buf), Some(plain(KeyCode::Right)));
    assert_eq!(pop_key(&mut buf), Some(plain(KeyCode::Left)));
    assert!(buf.is_empty());
}

#[test]
fn unknown_sequence_is_skipped() {
    let mut buf = vec![0x1b, b'[', b'Z', b'q'];
    assert_eq!(pop_key(&mut buf), Some(plain(KeyCode::Char('q'))));
    assert!(buf.is_empty());
}

#[test]
fn unknown_sequence_alone_is_dropped() {
    let mut buf = vec![0x1b, b'O', b'P'];
    assert_eq!(pop_key(&mut buf), None);
    assert!(buf.is_empty());
}

#[test]
fn incomplete_escape_waits() {
    let mut buf = vec![0x1b, b'['];
    assert_eq!(pop_key(&mut buf), None);
    assert_eq!(buf, vec![0x1b, b'[']);
    buf.push(b'C');
    assert_eq!(pop_key(&mut buf), Some(plain(KeyCode::Right)));
    assert!(buf.is_empty());
}

#[test]
fn lone_escape_waits() {
    let mut buf = vec![0x1b];
    assert_eq!(pop_key(&mut buf), None);
    assert_eq!(buf, vec![0x1b]);
}

#[test]
fn escape_followed_by_other_bytes_is_the_escape_key() {
    let mut buf = vec![0x1b, b'q', b'y'];
    assert_eq!(pop_key(&mut buf), Some(plain(KeyCode::Esc)));
    assert_eq!(buf, vec![b'q', b'y']);
    assert_eq!(pop_key(&mut buf), Some(plain(KeyCode::Char('q'))));
}

#[test]
fn escape_then_escape_sequence() {
    let mut buf = vec![0x1b, 0x1b, b'[', b'A'];
    assert_eq!(pop_key(&mut buf), Some(plain(KeyCode::Esc)));
    assert_eq!(pop_key(&mut buf), Some(plain(KeyCode::Up)));
    assert!(buf.is_empty());
}

#[test]
fn escape_then_ss3_prefix_waits() {
    let mut buf = vec![0x1b, b'O'];
    assert_eq!(pop_key(&mut buf), None);
    assert_eq!(buf, vec![0x1b, b'O']);
}

#[test]
fn escape_then_ctrl_c_quits_next() {
    let mut buf = vec![0x1b, 0x03];
    assert_eq!(pop_key(&mut buf), Some(plain(KeyCode::Esc)));
    assert!(is_quit(&pop_key(&mut buf).unwrap()));
}

#[test]
fn carriage_return_and_line_feed_are_enter() {
    let mut buf = vec![b'\r', b'\n'];
    assert_eq!(pop_key(&mut buf), Some(plain(KeyCode::Enter)));
    assert_eq!(pop_key(&mut buf), Some(plain(KeyCode::Enter)));
    assert_eq!(pop_key(&mut buf), None);
}

#[test]
fn other_bytes_are_characters() {
    let mut buf = vec![b'a', 0xe9];
    assert_eq!(pop_key(&mut buf), Some(plain(KeyCode::Char('a'))));
    assert_eq!(pop_key(&mut buf), Some(plain(KeyCode::Char('\u{e9}'))));
}

#[test]
fn quit_keys() {
    assert!(is_quit(&plain(KeyCode::Char('q'))));
    assert!(is_quit(&KeyEvent { code: KeyCode::Char('q'), modifiers: KeyModifiers::control() }));
    assert!(!is_quit(&plain(KeyCode::Char('c'))));
    assert!(is_quit(&KeyEvent { code: KeyCode::Char('c'), modifiers: KeyModifiers { bits: 0x03 } }));
    assert!(!is_quit(&plain(KeyCode::Enter)));
}

#[test]
fn modifier_bits() {
    let m = KeyModifiers { bits: 0x06 };
    assert!(m.contains(KeyModifiers::control()));
    assert!(m.is_control());
    assert!(!KeyModifiers { bits: 0x01 }.is_control());
    assert!(KeyModifiers { bits: 0x01 }.contains(KeyModifiers::none()));
}

#[test]
fn decoding_does_not_depend_on_later_bytes() {
    let mut short = vec![b'x'];
    let mut long = vec![b'x', 0x1b, b'['];
    assert_eq!(pop_key(&mut short), pop_key(&mut long));
    assert!(short.is_empty());
    assert_eq!(long, vec![0x1b, b'[']);
}
