use myux::keys::{encode_utf8, key_bytes, Key};

#[test]
fn utf8_matches_std_encoding() {
    for c in ['a', '\u{7f}', '\u{80}', 'é', '\u{7ff}', '\u{800}', '€', '\u{ffff}', '\u{10000}', '😀', '\u{10ffff}'] {
        let mut buf = [0u8; 4];
        let expected = c.encode_utf8(&mut buf).as_bytes().to_vec();
        assert_eq!(encode_utf8(c), expected);
    }
}

#[test]
fn utf8_exact_bytes() {
    assert_eq!(encode_utf8('A'), vec![0x41]);
    assert_eq!(encode_utf8('é'), vec![0xC3, 0xA9]);
    assert_eq!(encode_utf8('€'), vec![0xE2, 0x82, 0xAC]);
    assert_eq!(encode_utf8('😀'), vec![0xF0, 0x9F, 0x98, 0x80]);
}

#[test]
fn keys_without_bytes() {
    assert_eq!(key_bytes(Key::PageUp), None);
    assert_eq!(key_bytes(Key::PageDown), None);
    assert_eq!(key_bytes(Key::F(10)), None);
    assert_eq!(key_bytes(Key::Other), None);
    assert_eq!(key_bytes(Key::Enter), Some(vec![0x0D]));
}
