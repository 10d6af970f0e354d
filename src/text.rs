//! Text helpers over `String`, stated on its view as a sequence of chars.

use vstd::prelude::*;

verus! {

/// Relies on `String::push`, which appends the character to the end.
pub assume_specification[ String::push ](s: &mut String, ch: char)
    ensures
        final(s)@ == old(s)@.push(ch),
;

/// Relies on `String::pop`, which removes and returns the last character,
/// or returns `None` for an empty string.
pub assume_specification[ String::pop ](s: &mut String) -> (r: Option<char>)
    ensures
        old(s)@.len() == 0 ==> r is None && final(s)@ == old(s)@,
        old(s)@.len() > 0 ==> r == Some(old(s)@.last()) && final(s)@ == old(s)@.drop_last(),
;

/// `s` without its trailing spaces.
pub open spec fn trim_end_spaces(s: Seq<char>) -> Seq<char>
    decreases s.len(),
{
    if s.len() > 0 && s.last() == ' ' {
        trim_end_spaces(s.drop_last())
    } else {
        s
    }
}

/// Removes the trailing spaces of `s`.
pub fn trim_trailing_spaces(s: &mut String)
    ensures
        final(s)@ == trim_end_spaces(old(s)@),
{
    loop
        invariant
            trim_end_spaces(s@) == trim_end_spaces(old(s)@),
        ensures
            s@ == trim_end_spaces(old(s)@),
        decreases s@.len(),
    {
        match s.pop() {
            Some(c) => {
                if c != ' ' {
                    s.push(c);
                    return;
                }
            },
            None => {
                return;
            },
        }
    }
}

/// The decimal digits of `n`, most significant first.
pub open spec fn decimal(n: nat) -> Seq<char>
    decreases n,
{
    if n < 10 {
        seq![(48 + n) as char]
    } else {
        decimal(n / 10).push((48 + n % 10) as char)
    }
}

/// Appends the decimal digits of `n` to `s`.
pub fn push_decimal(s: &mut String, n: usize)
    ensures
        final(s)@ == old(s)@ + decimal(n as nat),
    decreases n,
{
    if n >= 10 {
        push_decimal(s, n / 10);
    }
    let d: u8 = (n % 10) as u8;
    s.push((48u8 + d) as char);
    assert(s@ =~= old(s)@ + decimal(n as nat));
}

/// `n` spaces.
pub open spec fn spaces(n: nat) -> Seq<char> {
    Seq::new(n, |i: int| ' ')
}

/// `s` cut or space-padded to exactly `width` characters.
pub open spec fn fit_width_spec(s: Seq<char>, width: nat) -> Seq<char> {
    if s.len() < width {
        s + spaces((width - s.len()) as nat)
    } else {
        s.subrange(0, width as int)
    }
}

/// Cuts or pads `s` with spaces to exactly `width` characters.
pub fn fit_width(s: &str, width: usize) -> (r: String)
    ensures
        r@ == fit_width_spec(s@, width as nat),
        r@.len() == width,
{
    let n = s.unicode_len();
    if n < width {
        let mut r = String::from_str(s);
        let mut k: usize = n;
        while k < width
            invariant
                n <= k <= width,
                n == s@.len(),
                r@ == s@ + spaces((k - n) as nat),
            decreases width - k,
        {
            r.push(' ');
            k = k + 1;
            assert(r@ =~= s@ + spaces((k - n) as nat));
        }
        r
    } else {
        String::from_str(s.substring_char(0, width))
    }
}

/// UTF-16 code units of a character: one below U+10000, else a surrogate
/// pair.
pub open spec fn utf16_of(c: char) -> Seq<u16> {
    let v = c as u32 as int;
    if v < 0x10000 {
        seq![v as u16]
    } else {
        seq![(0xD800 + (v - 0x10000) / 1024) as u16, (0xDC00 + (v - 0x10000) % 1024) as u16]
    }
}

/// UTF-16 encoding of a string.
pub open spec fn utf16_of_str(s: Seq<char>) -> Seq<u16>
    decreases s.len(),
{
    if s.len() == 0 {
        Seq::empty()
    } else {
        utf16_of_str(s.drop_last()) + utf16_of(s.last())
    }
}

/// `s` as a NUL-terminated UTF-16 string, as Windows APIs take it.
pub fn to_wide(s: &str) -> (w: Vec<u16>)
    ensures
        w@ == utf16_of_str(s@).push(0u16),
{
    let n = s.unicode_len();
    let mut w: Vec<u16> = Vec::new();
    let mut i: usize = 0;
    while i < n
        invariant
            i <= n,
            n == s@.len(),
            w@ == utf16_of_str(s@.subrange(0, i as int)),
        decreases n - i,
    {
        let c = s.get_char(i);
        let v: u32 = c as u32;
        if v < 0x10000 {
            w.push(v as u16);
        } else {
            w.push((0xD800 + (v - 0x10000) / 1024) as u16);
            w.push((0xDC00 + (v - 0x10000) % 1024) as u16);
        }
        proof {
            let pre = s@.subrange(0, i as int);
            let next = s@.subrange(0, i + 1);
            assert(next.drop_last() =~= pre);
            assert(next.last() == c);
        }
        i = i + 1;
        assert(w@ =~= utf16_of_str(s@.subrange(0, i as int)));
    }
    assert(s@.subrange(0, n as int) =~= s@);
    w.push(0u16);
    w
}

} // verus!
