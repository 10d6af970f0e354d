//! Decoded keyboard input and the bytes that a key sends to the session.

use vstd::prelude::*;

verus! {

/// A key, as the input decoder reports it.
#[derive(Clone, Copy, Debug, PartialEq, Eq, Structural)]
pub enum Key {
    Enter,
    Backspace,
    Tab,
    Left,
    Right,
    Up,
    Down,
    Esc,
    PageUp,
    PageDown,
    /// A character key, decoded to its character.
    Char(char),
    /// A function key, by number.
    F(u8),
    /// Any other key.
    Other,
}

/// UTF-8 encoding of a character.
pub open spec fn utf8_of(c: char) -> Seq<u8> {
    let v = c as u32 as int;
    if v < 0x80 {
        seq![v as u8]
    } else if v < 0x800 {
        seq![(0xC0 + v / 64) as u8, (0x80 + v % 64) as u8]
    } else if v < 0x10000 {
        seq![(0xE0 + v / 4096) as u8, (0x80 + (v / 64) % 64) as u8, (0x80 + v % 64) as u8]
    } else {
        seq![
            (0xF0 + v / 262144) as u8,
            (0x80 + (v / 4096) % 64) as u8,
            (0x80 + (v / 64) % 64) as u8,
            (0x80 + v % 64) as u8,
        ]
    }
}

/// The bytes a key sends to the session's input, if it sends any: control
/// characters for Enter, Backspace and Tab, a lone ESC for Escape, the
/// cursor sequences `ESC [ A/B/C/D` for the arrows, and a character's UTF-8
/// encoding.
pub open spec fn key_bytes_spec(key: Key) -> Option<Seq<u8>> {
    match key {
        Key::Enter => Some(seq![0x0Du8]),
        Key::Backspace => Some(seq![0x08u8]),
        Key::Tab => Some(seq![0x09u8]),
        Key::Left => Some(seq![0x1Bu8, 0x5Bu8, 0x44u8]),
        Key::Right => Some(seq![0x1Bu8, 0x5Bu8, 0x43u8]),
        Key::Up => Some(seq![0x1Bu8, 0x5Bu8, 0x41u8]),
        Key::Down => Some(seq![0x1Bu8, 0x5Bu8, 0x42u8]),
        Key::Esc => Some(seq![0x1Bu8]),
        Key::Char(c) => Some(utf8_of(c)),
        _ => None,
    }
}

/// Encodes a character as UTF-8.
pub fn encode_utf8(c: char) -> (out: Vec<u8>)
    ensures
        out@ == utf8_of(c),
{
    let v: u32 = c as u32;
    let mut out: Vec<u8> = Vec::new();
    if v < 0x80 {
        out.push(v as u8);
    } else if v < 0x800 {
        out.push((0xC0 + v / 64) as u8);
        out.push((0x80 + v % 64) as u8);
    } else if v < 0x10000 {
        out.push((0xE0 + v / 4096) as u8);
        out.push((0x80 + (v / 64) % 64) as u8);
        out.push((0x80 + v % 64) as u8);
    } else {
        assert(v <= 0x10FFFF);
        out.push((0xF0 + v / 262144) as u8);
        out.push((0x80 + (v / 4096) % 64) as u8);
        out.push((0x80 + (v / 64) % 64) as u8);
        out.push((0x80 + v % 64) as u8);
    }
    assert(out@ =~= utf8_of(c));
    out
}

/// The bytes `key` sends to the session, or `None` for a key that sends
/// nothing.
pub fn key_bytes(key: Key) -> (r: Option<Vec<u8>>)
    ensures
        match r {
            Some(b) => key_bytes_spec(key) == Some(b@),
            None => key_bytes_spec(key) is None,
        },
{
    let r: Option<Vec<u8>> = match key {
        Key::Enter => Some(vec![0x0Du8]),
        Key::Backspace => Some(vec![0x08u8]),
        Key::Tab => Some(vec![0x09u8]),
        Key::Left => Some(vec![0x1Bu8, 0x5Bu8, 0x44u8]),
        Key::Right => Some(vec![0x1Bu8, 0x5Bu8, 0x43u8]),
        Key::Up => Some(vec![0x1Bu8, 0x5Bu8, 0x41u8]),
        Key::Down => Some(vec![0x1Bu8, 0x5Bu8, 0x42u8]),
        Key::Esc => Some(vec![0x1Bu8]),
        Key::Char(c) => Some(encode_utf8(c)),
        _ => None,
    };
    assert(r matches Some(b) ==> key_bytes_spec(key) == Some(b@));
    r
}

} // verus!
