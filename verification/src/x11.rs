//! The X11 colour string `H.../H.../H...`: three groups of one to four
//! hexadecimal digits, each the leading digits of a 16-bit intensity.

use vstd::prelude::*;
use crate::error::Error;
use crate::error::Failure;
use crate::error::outcome;
use crate::text::chars_of;
use crate::text::find_from;
use crate::text::position;

verus! {

/// The value of a hexadecimal digit, of either case.
pub open spec fn hex_digit(c: char) -> Option<int> {
    if '0' <= c <= '9' {
        Some(c as int - '0' as int)
    } else if 'a' <= c <= 'f' {
        Some(c as int - 'a' as int + 10)
    } else if 'A' <= c <= 'F' {
        Some(c as int - 'A' as int + 10)
    } else {
        None
    }
}

/// Every character is a hexadecimal digit.
pub open spec fn is_hex(s: Seq<char>) -> bool {
    forall|i: int| 0 <= i < s.len() ==> (#[trigger] hex_digit(s[i])) is Some
}

/// The number that a text of hexadecimal digits writes.
pub open spec fn hex_value(s: Seq<char>) -> int
    decreases s.len(),
{
    if s.len() == 0 {
        0
    } else {
        16 * hex_value(s.drop_last()) + hex_digit(s.last()).unwrap()
    }
}

/// What a group of `len` digits is multiplied by: its digits are the most
/// significant of four.
pub open spec fn scale(len: int) -> int {
    if len == 1 {
        0x1000
    } else if len == 2 {
        0x100
    } else if len == 3 {
        0x10
    } else {
        1
    }
}

/// The intensity that one group stands for; none unless it is one to four
/// hexadecimal digits.
pub open spec fn decode_group(g: Seq<char>) -> Option<u16> {
    if 1 <= g.len() <= 4 && is_hex(g) {
        Some((hex_value(g) * scale(g.len() as int)) as u16)
    } else {
        None
    }
}

/// The first three groups of a colour string, divided by `/`; none where
/// fewer than two `/` occur. What follows a third `/` is left out.
pub open spec fn groups(s: Seq<char>) -> Option<(Seq<char>, Seq<char>, Seq<char>)> {
    let p1 = position(s, '/');
    let t = s.skip(p1 + 1);
    let p2 = position(t, '/');
    let u = t.skip(p2 + 1);
    if p1 >= s.len() || p2 >= t.len() {
        None
    } else {
        Some((s.take(p1), t.take(p2), u.take(position(u, '/'))))
    }
}

/// What `decode_x11_color` returns: the three intensities, or a parse error
/// that holds the whole text where a group is missing, else the first group
/// that is no intensity.
pub open spec fn decode_x11_color_spec(s: Seq<char>) -> Result<(u16, u16, u16), Failure> {
    match groups(s) {
        None => Err(Failure::Parse(s)),
        Some((r, g, b)) => {
            if decode_group(r) is None {
                Err(Failure::Parse(r))
            } else if decode_group(g) is None {
                Err(Failure::Parse(g))
            } else if decode_group(b) is None {
                Err(Failure::Parse(b))
            } else {
                Ok((decode_group(r).unwrap(), decode_group(g).unwrap(), decode_group(b).unwrap()))
            }
        },
    }
}

/// A text of `n` hexadecimal digits, four at most, writes a number below `16^n`.
pub proof fn lemma_hex_value_bound(s: Seq<char>)
    requires
        is_hex(s),
        s.len() <= 4,
    ensures
        0 <= hex_value(s),
        s.len() == 0 ==> hex_value(s) == 0,
        s.len() == 1 ==> hex_value(s) < 0x10,
        s.len() == 2 ==> hex_value(s) < 0x100,
        s.len() == 3 ==> hex_value(s) < 0x1000,
        s.len() == 4 ==> hex_value(s) < 0x10000,
    decreases s.len(),
{
    if s.len() > 0 {
        let t = s.drop_last();
        assert forall|i: int| 0 <= i < t.len() implies (#[trigger] hex_digit(t[i])) is Some by {
            assert(t[i] == s[i]);
        }
        lemma_hex_value_bound(t);
        assert(hex_digit(s[s.len() - 1]) is Some);
    }
}

/// The value of one hexadecimal digit.
fn digit_value(c: char) -> (d: Option<u32>)
    ensures
        match d {
            Some(v) => hex_digit(c) == Some(v as int) && v < 16,
            None => hex_digit(c) is None,
        },
{
    let x: u32 = c as u32;
    if 0x30 <= x && x <= 0x39 {
        Some(x - 0x30)
    } else if 0x61 <= x && x <= 0x66 {
        Some(x - 0x61 + 10)
    } else if 0x41 <= x && x <= 0x46 {
        Some(x - 0x41 + 10)
    } else {
        None
    }
}

/// The intensity that the group `s[from..to]` stands for.
fn decode_hex(s: &Vec<char>, from: usize, to: usize) -> (r: Option<u16>)
    requires
        from <= to <= s.len(),
    ensures
        r == decode_group(s@.subrange(from as int, to as int)),
{
    let ghost g = s@.subrange(from as int, to as int);
    let len: usize = to - from;
    if len < 1 || len > 4 {
        return None;
    }
    let mut acc: u32 = 0;
    let mut i: usize = from;
    while i < to
        invariant
            from <= i <= to <= s.len(),
            to - from <= 4,
            g == s@.subrange(from as int, to as int),
            is_hex(g.take(i - from)),
            acc == hex_value(g.take(i - from)),
            acc < 0x10000,
        decreases to - i,
    {
        let ghost before = g.take(i - from);
        let ghost after = g.take(i - from + 1);
        assert(after.drop_last() == before);
        assert(after.last() == s@[i as int]);
        match digit_value(s[i]) {
            None => {
                proof {
                    assert(g[i - from] == s@[i as int]);
                    assert(hex_digit(g[i - from]) is None);
                }
                return None;
            },
            Some(d) => {
                proof {
                    assert forall|j: int| 0 <= j < after.len() implies (#[trigger] hex_digit(
                        after[j],
                    )) is Some by {
                        if j < before.len() {
                            assert(after[j] == before[j]);
                        }
                    }
                    lemma_hex_value_bound(before);
                    lemma_hex_value_bound(after);
                }
                acc = 16 * acc + d;
            },
        }
        i += 1;
    }
    proof {
        assert(g.take(to - from) == g);
        lemma_hex_value_bound(g);
    }
    let value: u32 = if len == 1 {
        acc * 0x1000
    } else if len == 2 {
        acc * 0x100
    } else if len == 3 {
        acc * 0x10
    } else {
        acc
    };
    Some(value as u16)
}

/// Decodes an X11 colour string into its three 16-bit intensities.
///
/// The text is divided at `/`; the first three groups count. A group of fewer
/// than four digits gives the most significant digits: `"1"` is `0x1000`.
/// Where a group is missing the error holds the text, and where one is not one
/// to four hexadecimal digits the error holds that group.
pub fn decode_x11_color(s: &str) -> (res: Result<(u16, u16, u16), Error>)
    ensures
        outcome(res) == decode_x11_color_spec(s@),
{
    let chars = chars_of(s);
    let n = chars.len();
    let p1 = find_from(&chars, 0, '/');
    assert(chars@.skip(0) == s@);
    if p1 >= n {
        return Err(Error::Parse(s.to_owned()));
    }
    let p2 = find_from(&chars, p1 + 1, '/');
    if p2 >= n {
        return Err(Error::Parse(s.to_owned()));
    }
    let p3 = find_from(&chars, p2 + 1, '/');
    proof {
        let t = s@.skip(p1 + 1);
        let u = t.skip(p2 - p1);
        assert(u == s@.skip(p2 + 1));
        assert(s@.take(p1 as int) == s@.subrange(0, p1 as int));
        assert(t.take(p2 - p1 - 1) == s@.subrange(p1 + 1, p2 as int));
        assert(u.take(p3 - p2 - 1) == s@.subrange(p2 + 1, p3 as int));
    }
    let r = decode_hex(&chars, 0, p1);
    let g = decode_hex(&chars, p1 + 1, p2);
    let b = decode_hex(&chars, p2 + 1, p3);
    match (r, g, b) {
        (Some(r), Some(g), Some(b)) => Ok((r, g, b)),
        (None, _, _) => Err(Error::Parse(s.substring_char(0, p1).to_owned())),
        (_, None, _) => Err(Error::Parse(s.substring_char(p1 + 1, p2).to_owned())),
        _ => Err(Error::Parse(s.substring_char(p2 + 1, p3).to_owned())),
    }
}

/// The digits of a group are the leading digits of its intensity: a group
/// of fewer than four digits stands for the same intensity with a `0`
/// written after it.
pub proof fn lemma_group_pads(g: Seq<char>)
    requires
        1 <= g.len() < 4,
        is_hex(g),
    ensures
        decode_group(g.push('0')) == decode_group(g),
{
    let padded = g.push('0');
    assert(padded.drop_last() == g);
    assert forall|i: int| 0 <= i < padded.len() implies (#[trigger] hex_digit(padded[i])) is Some by {
        if i < g.len() {
            assert(padded[i] == g[i]);
        }
    }
    assert(hex_value(padded) == 16 * hex_value(g));
}

} // verus!
