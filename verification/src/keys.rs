//! Keyboard input: the key model shared by SSH sessions and the local terminal,
//! and the decoder that turns raw terminal bytes into keys.

use vstd::prelude::*;

verus! {

/// The byte a terminal sends for Ctrl+C.
pub const CTRL_C_BYTE: u8 = 0x03;

/// The escape byte that starts CSI and SS3 sequences.
pub const ESC_BYTE: u8 = 0x1b;

/// The second byte of a CSI sequence (`[`).
pub const CSI_BYTE: u8 = 0x5b;

/// The second byte of an SS3 sequence (`O`).
pub const SS3_BYTE: u8 = 0x4f;

/// Carriage return.
pub const CR_BYTE: u8 = 0x0d;

/// Line feed.
pub const LF_BYTE: u8 = 0x0a;

/// Which key was pressed.  Keys that the shop does not react to are `Other`.
#[derive(Debug, Clone, Copy, PartialEq, Eq, Structural)]
pub enum KeyCode {
    Up,
    Down,
    Left,
    Right,
    Enter,
    Esc,
    Char(char),
    Other,
}

/// Modifier bits, laid out as the terminal library lays them out
/// (shift = 1, control = 2, alt = 4, ...).
#[derive(Debug, Clone, Copy, PartialEq, Eq, Structural)]
pub struct KeyModifiers {
    pub bits: u8,
}

/// The control modifier bit.
pub const CONTROL_BIT: u8 = 0x02;

impl KeyModifiers {
    /// No modifier held.
    pub fn none() -> (m: KeyModifiers)
        ensures
            m.bits == 0,
    {
        KeyModifiers { bits: 0 }
    }

    /// Only the control modifier held.
    pub fn control() -> (m: KeyModifiers)
        ensures
            m.bits == CONTROL_BIT,
    {
        KeyModifiers { bits: CONTROL_BIT }
    }

    /// Whether the control bit is set.
    pub open spec fn has_control(self) -> bool {
        self.bits & CONTROL_BIT == CONTROL_BIT
    }

    /// Whether every bit of `other` is set in `self`.
    pub fn contains(&self, other: KeyModifiers) -> (r: bool)
        ensures
            r == (self.bits & other.bits == other.bits),
    {
        self.bits & other.bits == other.bits
    }

    /// Whether the control bit is set.
    pub fn is_control(&self) -> (r: bool)
        ensures
            r == self.has_control(),
    {
        self.contains(KeyModifiers::control())
    }
}

/// A single key press.
#[derive(Debug, Clone, Copy, PartialEq, Eq, Structural)]
pub struct KeyEvent {
    pub code: KeyCode,
    pub modifiers: KeyModifiers,
}

/// The key with no modifier.
pub open spec fn plain(code: KeyCode) -> KeyEvent {
    KeyEvent { code, modifiers: KeyModifiers { bits: 0 } }
}

/// The key Ctrl+C.
pub open spec fn ctrl_c() -> KeyEvent {
    KeyEvent { code: KeyCode::Char('c'), modifiers: KeyModifiers { bits: CONTROL_BIT } }
}

/// A key that ends the session: Ctrl+C or `q`.
pub open spec fn is_quit_key(e: KeyEvent) -> bool {
    ||| (e.modifiers.has_control() && e.code == KeyCode::Char('c'))
    ||| e.code == KeyCode::Char('q')
}

/// Whether `e` ends the session: Ctrl+C or `q` (with any modifiers).
pub fn is_quit(e: &KeyEvent) -> (r: bool)
    ensures
        r == is_quit_key(*e),
{
    (e.modifiers.is_control() && e.code == KeyCode::Char('c')) || e.code == KeyCode::Char('q')
}

/// The arrow key that the final byte of a CSI or SS3 sequence names, if any.
pub open spec fn arrow_code(b: u8) -> Option<KeyCode> {
    if b == 0x41 {
        Some(KeyCode::Up)
    } else if b == 0x42 {
        Some(KeyCode::Down)
    } else if b == 0x43 {
        Some(KeyCode::Right)
    } else if b == 0x44 {
        Some(KeyCode::Left)
    } else {
        None
    }
}

/// Whether `buf` starts with a complete three-byte CSI or SS3 sequence.
pub open spec fn starts_with_sequence(buf: Seq<u8>) -> bool {
    buf.len() >= 3 && buf[0] == ESC_BYTE && (buf[1] == CSI_BYTE || buf[1] == SS3_BYTE)
}

/// Whether `buf` is the start of a CSI or SS3 sequence and nothing more:
/// an escape alone, or an escape followed by `[` or `O`.
pub open spec fn is_sequence_prefix(buf: Seq<u8>) -> bool {
    ||| (buf.len() == 1 && buf[0] == ESC_BYTE)
    ||| (buf.len() == 2 && buf[0] == ESC_BYTE && (buf[1] == CSI_BYTE || buf[1] == SS3_BYTE))
}

/// Decoding the front of a byte buffer: the key found, if any, and the bytes left.
///
/// Ctrl+C, CR and LF are one byte each; `ESC [ x` and `ESC O x` are arrows when
/// `x` is `A`..`D` and are skipped otherwise; an escape followed by any other
/// byte is the Escape key; an escape that may still become a sequence (alone,
/// or followed by `[` or `O` only) waits for more bytes; any other byte is
/// that character.
pub open spec fn decode_key(buf: Seq<u8>) -> (Option<KeyEvent>, Seq<u8>)
    decreases buf.len(),
{
    if buf.len() == 0 {
        (None, buf)
    } else if buf[0] == CTRL_C_BYTE {
        (Some(ctrl_c()), buf.drop_first())
    } else if buf[0] == ESC_BYTE {
        if starts_with_sequence(buf) {
            match arrow_code(buf[2]) {
                Some(code) => (Some(plain(code)), buf.subrange(3, buf.len() as int)),
                None => decode_key(buf.subrange(3, buf.len() as int)),
            }
        } else if buf.len() >= 2 && buf[1] != CSI_BYTE && buf[1] != SS3_BYTE {
            (Some(plain(KeyCode::Esc)), buf.drop_first())
        } else {
            (None, buf)
        }
    } else if buf[0] == CR_BYTE || buf[0] == LF_BYTE {
        (Some(plain(KeyCode::Enter)), buf.drop_first())
    } else {
        (Some(plain(KeyCode::Char(buf[0] as char))), buf.drop_first())
    }
}

/// Decoding only ever consumes a prefix: the bytes left are the tail of the
/// input, and strictly shorter whenever a key was found.
pub proof fn lemma_decode_consumes_prefix(buf: Seq<u8>)
    ensures
        decode_key(buf).1.len() <= buf.len(),
        decode_key(buf).1 == buf.subrange(buf.len() - decode_key(buf).1.len(), buf.len() as int),
        decode_key(buf).0 is Some ==> decode_key(buf).1.len() < buf.len(),
    decreases buf.len(),
{
    if buf.len() > 0 && buf[0] == ESC_BYTE && starts_with_sequence(buf) && arrow_code(buf[2]) is None {
        let tail = buf.subrange(3, buf.len() as int);
        lemma_decode_consumes_prefix(tail);
        let k = decode_key(tail).1.len();
        assert(tail.subrange(tail.len() - k, tail.len() as int) =~= buf.subrange(
            buf.len() - k,
            buf.len() as int,
        ));
    }
}

/// When no key is found, what stays in the buffer is empty or the start of a
/// sequence that more bytes can complete (an escape alone, or an escape and
/// `[` or `O`), and decoding it again finds nothing and drops nothing: the
/// decoder only waits when more bytes are needed.
pub proof fn lemma_decode_waits(buf: Seq<u8>)
    requires
        decode_key(buf).0 is None,
    ensures
        decode_key(buf).1.len() == 0 || is_sequence_prefix(decode_key(buf).1),
        decode_key(decode_key(buf).1) == (None::<KeyEvent>, decode_key(buf).1),
    decreases buf.len(),
{
    if buf.len() > 0 && buf[0] == ESC_BYTE && starts_with_sequence(buf) && arrow_code(buf[2]) is None {
        lemma_decode_waits(buf.subrange(3, buf.len() as int));
    }
}

/// A key decoded from the bytes at hand does not depend on bytes that arrive
/// later: appending input leaves the key the same and only lengthens the rest.
pub proof fn lemma_decode_prefix_stable(buf: Seq<u8>, more: Seq<u8>)
    requires
        decode_key(buf).0 is Some,
    ensures
        decode_key(buf + more) == (decode_key(buf).0, decode_key(buf).1 + more),
    decreases buf.len(),
{
    let whole = buf + more;
    assert(whole[0] == buf[0]);
    if buf[0] == CTRL_C_BYTE || buf[0] == CR_BYTE || buf[0] == LF_BYTE {
        assert(whole.drop_first() =~= buf.drop_first() + more);
    } else if buf[0] == ESC_BYTE && !starts_with_sequence(buf) {
        assert(whole[1] == buf[1]);
        assert(whole.drop_first() =~= buf.drop_first() + more);
    } else if buf[0] == ESC_BYTE {
        assert(whole[1] == buf[1] && whole[2] == buf[2]);
        assert(whole.subrange(3, whole.len() as int) =~= buf.subrange(3, buf.len() as int) + more);
        if arrow_code(buf[2]) is None {
            lemma_decode_prefix_stable(buf.subrange(3, buf.len() as int), more);
        }
    } else {
        assert(whole.drop_first() =~= buf.drop_first() + more);
    }
}

/// When the bytes at hand hold no complete key, decoding them together with
/// later bytes is decoding what was left of them together with those bytes.
pub proof fn lemma_decode_waiting_then_more(buf: Seq<u8>, more: Seq<u8>)
    requires
        decode_key(buf).0 is None,
    ensures
        decode_key(buf + more) == decode_key(decode_key(buf).1 + more),
    decreases buf.len(),
{
    if buf.len() > 0 && buf[0] == ESC_BYTE && starts_with_sequence(buf) {
        let whole = buf + more;
        assert(whole[0] == buf[0] && whole[1] == buf[1] && whole[2] == buf[2]);
        assert(whole.subrange(3, whole.len() as int) =~= buf.subrange(3, buf.len() as int) + more);
        lemma_decode_waiting_then_more(buf.subrange(3, buf.len() as int), more);
    }
}

/// An escape that no later byte can turn into a sequence is decoded at once
/// as the Escape key, so it never holds up the keys behind it.
pub proof fn lemma_lone_escape_is_a_key(buf: Seq<u8>)
    requires
        buf.len() >= 2,
        buf[0] == ESC_BYTE,
        buf[1] != CSI_BYTE,
        buf[1] != SS3_BYTE,
    ensures
        decode_key(buf) == (Some(plain(KeyCode::Esc)), buf.drop_first()),
{
}

/// Ctrl+C arriving first is always decoded as the Ctrl+C key, a quit key.
pub proof fn lemma_ctrl_c_quits(buf: Seq<u8>)
    requires
        buf.len() > 0,
        buf[0] == CTRL_C_BYTE,
    ensures
        decode_key(buf).0 == Some(ctrl_c()),
        is_quit_key(ctrl_c()),
{
    assert(CONTROL_BIT & CONTROL_BIT == CONTROL_BIT) by (bit_vector);
}

/// `ESC [ x` (CSI) and `ESC O x` (SS3, what terminals send in
/// application-cursor mode) are the same arrow key, fixed by the final byte:
/// `A` is Up, `B` is Down, `C` is Right and `D` is Left, with no modifier, and
/// exactly those three bytes are consumed, whatever follows them.
pub proof fn lemma_arrow_sequences(introducer: u8, rest: Seq<u8>)
    requires
        introducer == 0x5b || introducer == 0x4f,
    ensures
        decode_key(seq![0x1bu8, introducer, 0x41u8] + rest) == (
            Some(KeyEvent { code: KeyCode::Up, modifiers: KeyModifiers { bits: 0 } }),
            rest,
        ),
        decode_key(seq![0x1bu8, introducer, 0x42u8] + rest) == (
            Some(KeyEvent { code: KeyCode::Down, modifiers: KeyModifiers { bits: 0 } }),
            rest,
        ),
        decode_key(seq![0x1bu8, introducer, 0x43u8] + rest) == (
            Some(KeyEvent { code: KeyCode::Right, modifiers: KeyModifiers { bits: 0 } }),
            rest,
        ),
        decode_key(seq![0x1bu8, introducer, 0x44u8] + rest) == (
            Some(KeyEvent { code: KeyCode::Left, modifiers: KeyModifiers { bits: 0 } }),
            rest,
        ),
{
    let a = seq![0x1bu8, introducer, 0x41u8] + rest;
    let b = seq![0x1bu8, introducer, 0x42u8] + rest;
    let c = seq![0x1bu8, introducer, 0x43u8] + rest;
    let d = seq![0x1bu8, introducer, 0x44u8] + rest;
    assert(a.subrange(3, a.len() as int) =~= rest);
    assert(b.subrange(3, b.len() as int) =~= rest);
    assert(c.subrange(3, c.len() as int) =~= rest);
    assert(d.subrange(3, d.len() as int) =~= rest);
}

/// Removes the first `n` bytes of `buf`.
fn drop_front(buf: &mut Vec<u8>, n: usize)
    requires
        n <= old(buf)@.len(),
    ensures
        final(buf)@ == old(buf)@.subrange(n as int, old(buf)@.len() as int),
{
    let rest = buf.split_off(n);
    *buf = rest;
}

/// Drains one logical key from the front of `buf`, or returns `None` when more
/// bytes are needed (empty buffer, or an escape that may still begin a sequence).
/// Unknown three-byte CSI/SS3 sequences are dropped on the way.
pub fn pop_key(buf: &mut Vec<u8>) -> (r: Option<KeyEvent>)
    ensures
        (r, final(buf)@) == decode_key(old(buf)@),
{
    loop
        invariant
            decode_key(buf@) == decode_key(old(buf)@),
        decreases buf@.len(),
    {
        if buf.len() == 0 {
            return None;
        }
        let first = buf[0];
        if first == CTRL_C_BYTE {
            buf.remove(0);
            return Some(KeyEvent { code: KeyCode::Char('c'), modifiers: KeyModifiers::control() });
        }
        if first == ESC_BYTE {
            if buf.len() >= 3 && (buf[1] == CSI_BYTE || buf[1] == SS3_BYTE) {
                let last = buf[2];
                let code = if last == 0x41 {
                    KeyCode::Up
                } else if last == 0x42 {
                    KeyCode::Down
                } else if last == 0x43 {
                    KeyCode::Right
                } else if last == 0x44 {
                    KeyCode::Left
                } else {
                    drop_front(buf, 3);
                    continue;
                };
                drop_front(buf, 3);
                return Some(KeyEvent { code, modifiers: KeyModifiers::none() });
            }
            if buf.len() >= 2 && buf[1] != CSI_BYTE && buf[1] != SS3_BYTE {
                buf.remove(0);
                return Some(KeyEvent { code: KeyCode::Esc, modifiers: KeyModifiers::none() });
            }
            return None;
        }
        let b = buf.remove(0);
        if b == CR_BYTE || b == LF_BYTE {
            return Some(KeyEvent { code: KeyCode::Enter, modifiers: KeyModifiers::none() });
        }
        return Some(KeyEvent { code: KeyCode::Char(b as char), modifiers: KeyModifiers::none() });
    }
}

} // verus!
