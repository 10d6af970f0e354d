use myux::text::{fit_width, to_wide};

#[test]
fn to_wide_matches_std_and_terminates() {
    for s in ["", "cmd.exe", "héllo", "€ and 😀", "\u{ffff}\u{10000}\u{10ffff}"] {
        let mut expected: Vec<u16> = s.encode_utf16().collect();
        expected.push(0);
        assert_eq!(to_wide(s), expected);
    }
}

#[test]
fn to_wide_exact_units() {
    assert_eq!(to_wide("a"), vec![0x61, 0]);
    assert_eq!(to_wide("😀"), vec![0xD83D, 0xDE00, 0]);
}

#[test]
fn fit_width_pads_and_cuts() {
    assert_eq!(fit_width("ab", 4), "ab  ");
    assert_eq!(fit_width("abcdef", 3), "abc");
    assert_eq!(fit_width("", 0), "");
}
