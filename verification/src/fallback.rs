//! The colour when the query gives none: from `COLORFGBG`, from the legacy
//! Windows console, and the order in which the answers count.

use vstd::prelude::*;
use crate::color::Rgb;
use crate::error::Error;
use crate::error::Failure;
use crate::error::outcome;
use crate::terminal::Host;
use crate::terminal::Terminal;
use crate::text::chars_of;
use crate::text::find_from;
use crate::text::position;

verus! {

/// The value of a decimal digit.
pub open spec fn dec_digit(c: char) -> Option<int> {
    if '0' <= c <= '9' {
        Some(c as int - '0' as int)
    } else {
        None
    }
}

/// Every character is a decimal digit.
pub open spec fn is_decimal(s: Seq<char>) -> bool {
    forall|i: int| 0 <= i < s.len() ==> (#[trigger] dec_digit(s[i])) is Some
}

/// The number that a text of decimal digits writes.
pub open spec fn dec_value(s: Seq<char>) -> int
    decreases s.len(),
{
    if s.len() == 0 {
        0
    } else {
        10 * dec_value(s.drop_last()) + dec_digit(s.last()).unwrap()
    }
}

/// The number up to 255 that a text writes in decimal: an optional `+`, then
/// one digit or more. None for any other text, and for a larger number.
pub open spec fn parse_u8_spec(s: Seq<char>) -> Option<u8> {
    let digits = if s.len() > 0 && s[0] == '+' {
        s.skip(1)
    } else {
        s
    };
    if digits.len() > 0 && is_decimal(digits) && dec_value(digits) <= 255 {
        Some(dec_value(digits) as u8)
    } else {
        None
    }
}

/// A text of digits writes no less than any of its beginnings.
pub proof fn lemma_dec_value_grows(s: Seq<char>, k: int)
    requires
        is_decimal(s),
        0 <= k <= s.len(),
    ensures
        0 <= dec_value(s.take(k)) <= dec_value(s),
    decreases s.len() - k,
{
    if k == s.len() {
        assert(s.take(k) == s);
        lemma_dec_value_nonnegative(s);
    } else {
        let t = s.drop_last();
        assert(is_decimal(t)) by {
            assert forall|i: int| 0 <= i < t.len() implies (#[trigger] dec_digit(t[i])) is Some by {
                assert(t[i] == s[i]);
            }
        }
        lemma_dec_value_grows(t, k);
        assert(t.take(k) == s.take(k));
        assert(dec_digit(s[s.len() - 1]) is Some);
        lemma_dec_value_nonnegative(t);
    }
}

/// A text of digits writes no negative number.
pub proof fn lemma_dec_value_nonnegative(s: Seq<char>)
    requires
        is_decimal(s),
    ensures
        0 <= dec_value(s),
    decreases s.len(),
{
    if s.len() > 0 {
        let t = s.drop_last();
        assert forall|i: int| 0 <= i < t.len() implies (#[trigger] dec_digit(t[i])) is Some by {
            assert(t[i] == s[i]);
        }
        lemma_dec_value_nonnegative(t);
        assert(dec_digit(s[s.len() - 1]) is Some);
    }
}

/// The value of one decimal digit.
fn digit_value(c: char) -> (d: Option<u32>)
    ensures
        match d {
            Some(v) => dec_digit(c) == Some(v as int) && v < 10,
            None => dec_digit(c) is None,
        },
{
    let x: u32 = c as u32;
    if 0x30 <= x && x <= 0x39 {
        Some(x - 0x30)
    } else {
        None
    }
}

/// The number up to 255 that `s[from..to]` writes in decimal.
fn parse_u8(s: &Vec<char>, from: usize, to: usize) -> (r: Option<u8>)
    requires
        from <= to <= s.len(),
    ensures
        r == parse_u8_spec(s@.subrange(from as int, to as int)),
{
    let ghost whole = s@.subrange(from as int, to as int);
    let first: usize = if from < to && s[from] == '+' {
        from + 1
    } else {
        from
    };
    let ghost digits = s@.subrange(first as int, to as int);
    assert(digits == if whole.len() > 0 && whole[0] == '+' {
        whole.skip(1)
    } else {
        whole
    });
    if first >= to {
        return None;
    }
    let mut acc: u32 = 0;
    let mut i: usize = first;
    while i < to
        invariant
            from <= first <= i <= to <= s.len(),
            whole == s@.subrange(from as int, to as int),
            digits == s@.subrange(first as int, to as int),
            digits == if whole.len() > 0 && whole[0] == '+' {
                whole.skip(1)
            } else {
                whole
            },
            is_decimal(digits.take(i - first)),
            acc == dec_value(digits.take(i - first)),
            acc <= 255,
        decreases to - i,
    {
        let ghost before = digits.take(i - first);
        let ghost after = digits.take(i - first + 1);
        assert(after.drop_last() == before);
        assert(after.last() == s@[i as int]);
        let d = match digit_value(s[i]) {
            Some(d) => d,
            None => {
                proof {
                    assert(digits[i - first] == s@[i as int]);
                    assert(dec_digit(digits[i - first]) is None);
                }
                return None;
            },
        };
        acc = 10 * acc + d;
        proof {
            assert forall|j: int| 0 <= j < after.len() implies (#[trigger] dec_digit(
                after[j],
            )) is Some by {
                if j < before.len() {
                    assert(after[j] == before[j]);
                }
            }
        }
        if acc > 255 {
            proof {
                if is_decimal(digits) {
                    lemma_dec_value_grows(digits, i - first + 1);
                }
            }
            return None;
        }
        i += 1;
    }
    assert(digits.take(to - first) == digits);
    Some(acc as u8)
}

/// The sixteen colours of the ANSI palette, as rxvt sets them by default:
/// eight bits for each of red, green and blue.
pub open spec fn ansi_palette() -> Seq<(u8, u8, u8)> {
    seq![
        (0u8, 0u8, 0u8),
        (205u8, 0u8, 0u8),
        (0u8, 205u8, 0u8),
        (205u8, 205u8, 0u8),
        (0u8, 0u8, 238u8),
        (205u8, 0u8, 205u8),
        (0u8, 205u8, 205u8),
        (229u8, 229u8, 229u8),
        (127u8, 127u8, 127u8),
        (255u8, 0u8, 0u8),
        (0u8, 255u8, 0u8),
        (255u8, 255u8, 0u8),
        (92u8, 92u8, 255u8),
        (255u8, 0u8, 255u8),
        (0u8, 255u8, 255u8),
        (255u8, 255u8, 255u8),
    ]
}

/// The palette colour of an index; black for an index beyond the palette.
pub open spec fn palette_color(index: u8) -> (u8, u8, u8) {
    if index < 16 {
        ansi_palette()[index as int]
    } else {
        (0u8, 0u8, 0u8)
    }
}

/// A colour of eight bits a channel in sixteen: each channel times 256.
pub open spec fn widen(c: (u8, u8, u8)) -> Rgb {
    Rgb { r: (c.0 * 256) as u16, g: (c.1 * 256) as u16, b: (c.2 * 256) as u16 }
}

/// A colour of eight bits a channel in sixteen.
fn widened(r: u8, g: u8, b: u8) -> (rgb: Rgb)
    ensures
        rgb == widen((r, g, b)),
{
    Rgb { r: (r as u16) * 256, g: (g as u16) * 256, b: (b as u16) * 256 }
}

/// The palette colour of an index.
fn palette_entry(index: u8) -> (c: (u8, u8, u8))
    ensures
        c == palette_color(index),
{
    match index {
        0 => (0, 0, 0),
        1 => (205, 0, 0),
        2 => (0, 205, 0),
        3 => (205, 205, 0),
        4 => (0, 0, 238),
        5 => (205, 0, 205),
        6 => (0, 205, 205),
        7 => (229, 229, 229),
        8 => (127, 127, 127),
        9 => (255, 0, 0),
        10 => (0, 255, 0),
        11 => (255, 255, 0),
        12 => (92, 92, 255),
        13 => (255, 0, 255),
        14 => (0, 255, 255),
        15 => (255, 255, 255),
        _ => (0, 0, 0),
    }
}

/// The background field of a `COLORFGBG` value `FG;BG[;...]`: the text
/// between the first `;` and the next, or the end. None without a `;`.
pub open spec fn background_field(var: Seq<char>) -> Option<Seq<char>> {
    let p1 = position(var, ';');
    let t = var.skip(p1 + 1);
    if p1 >= var.len() {
        None
    } else {
        Some(t.take(position(t, ';')))
    }
}

/// What `from_env_colorfgbg` returns.
pub open spec fn from_env_colorfgbg_spec(var: Option<Seq<char>>) -> Result<Rgb, Failure> {
    match var {
        None => Err(Failure::Unsupported),
        Some(v) => match background_field(v) {
            None => Err(Failure::Unsupported),
            Some(bg) => match parse_u8_spec(bg) {
                None => Err(Failure::Parse(v)),
                Some(index) => Ok(widen(palette_color(index))),
            },
        },
    }
}

/// The view of an optional text.
pub open spec fn text_view(var: Option<&str>) -> Option<Seq<char>> {
    match var {
        Some(v) => Some(v@),
        None => None,
    }
}

/// The background colour that the value of `COLORFGBG` names.
///
/// The value is `FG;BG[;...]`; `BG` is an index into the ANSI palette, and
/// the colour is the palette's, each channel times 256. An index beyond the
/// palette is black. Unsupported where the variable is not set or holds no
/// `;`; a parse error with the value where `BG` is no number up to 255.
pub fn from_env_colorfgbg(var: Option<&str>) -> (res: Result<Rgb, Error>)
    ensures
        outcome(res) == from_env_colorfgbg_spec(text_view(var)),
{
    let var = match var {
        Some(v) => v,
        None => {
            return Err(Error::Unsupported);
        },
    };
    let chars = chars_of(var);
    let n = chars.len();
    let p1 = find_from(&chars, 0, ';');
    assert(chars@.skip(0) == var@);
    if p1 >= n {
        return Err(Error::Unsupported);
    }
    let p2 = find_from(&chars, p1 + 1, ';');
    assert(var@.skip(p1 + 1).take(p2 - p1 - 1) == var@.subrange(p1 + 1, p2 as int));
    match parse_u8(&chars, p1 + 1, p2) {
        None => Err(Error::Parse(var.to_owned())),
        Some(index) => {
            let (r, g, b) = palette_entry(index);
            Ok(widened(r, g, b))
        },
    }
}

/// The bit of a console attribute word that marks a blue background.
pub const BACKGROUND_BLUE: u16 = 0x0010;

/// The bit that marks a green background.
pub const BACKGROUND_GREEN: u16 = 0x0020;

/// The bit that marks a red background.
pub const BACKGROUND_RED: u16 = 0x0040;

/// The bit that marks an intensified background.
pub const BACKGROUND_INTENSITY: u16 = 0x0080;

/// The colour of the legacy console for each setting of its four background
/// attributes.
pub open spec fn console_color(red: bool, green: bool, blue: bool, bright: bool) -> (u8, u8, u8) {
    match (red, green, blue, bright) {
        (false, false, false, false) => (0u8, 0u8, 0u8),
        (true, false, false, false) => (128u8, 0u8, 0u8),
        (false, true, false, false) => (0u8, 128u8, 0u8),
        (true, true, false, false) => (128u8, 128u8, 0u8),
        (false, false, true, false) => (0u8, 0u8, 128u8),
        (true, false, true, false) => (128u8, 0u8, 128u8),
        (false, true, true, false) => (0u8, 128u8, 128u8),
        (true, true, true, false) => (192u8, 192u8, 192u8),
        (false, false, false, true) => (128u8, 128u8, 128u8),
        (true, false, false, true) => (255u8, 0u8, 0u8),
        (false, true, false, true) => (0u8, 255u8, 0u8),
        (true, true, false, true) => (255u8, 255u8, 0u8),
        (false, false, true, true) => (0u8, 0u8, 255u8),
        (true, false, true, true) => (255u8, 0u8, 255u8),
        (false, true, true, true) => (0u8, 255u8, 255u8),
        (true, true, true, true) => (255u8, 255u8, 255u8),
    }
}

/// What `from_winapi` returns.
pub open spec fn from_winapi_spec(attributes: u16) -> Rgb {
    widen(
        console_color(
            attributes & BACKGROUND_RED != 0,
            attributes & BACKGROUND_GREEN != 0,
            attributes & BACKGROUND_BLUE != 0,
            attributes & BACKGROUND_INTENSITY != 0,
        ),
    )
}

/// A channel at `level` where it is set.
fn channel(set: bool, level: u8) -> (c: u8)
    ensures
        c == if set {
            level
        } else {
            0u8
        },
{
    if set {
        level
    } else {
        0
    }
}

/// The background colour that the attribute word of the legacy Windows
/// console holds. It is the colour set through the console interface, black
/// by default, whatever the window shows.
pub fn from_winapi(attributes: u16) -> (rgb: Rgb)
    ensures
        rgb == from_winapi_spec(attributes),
{
    let red = (attributes & BACKGROUND_RED) != 0;
    let green = (attributes & BACKGROUND_GREEN) != 0;
    let blue = (attributes & BACKGROUND_BLUE) != 0;
    let bright = (attributes & BACKGROUND_INTENSITY) != 0;
    if bright && !red && !green && !blue {
        widened(128, 128, 128)
    } else if !bright && red && green && blue {
        widened(192, 192, 192)
    } else {
        let level: u8 = if bright {
            255
        } else {
            128
        };
        widened(channel(red, level), channel(green, level), channel(blue, level))
    }
}

/// Where the colour of a terminal is looked for first.
#[derive(Copy, Clone, Debug, PartialEq, Eq, Structural)]
pub enum ColorSource {
    /// Nowhere: the terminal answers no query.
    Unsupported,
    /// The terminal itself, by the query.
    Query,
    /// The attributes of the legacy Windows console.
    Console,
}

/// Where the colour of each family is looked for first.
pub open spec fn color_source_spec(term: Terminal) -> ColorSource {
    match term {
        Terminal::Emacs => ColorSource::Unsupported,
        Terminal::Windows => ColorSource::Console,
        _ => ColorSource::Query,
    }
}

/// Where the colour of a terminal of family `term` is looked for first.
pub fn color_source(term: Terminal) -> (source: ColorSource)
    ensures
        source == color_source_spec(term),
{
    match term {
        Terminal::Emacs => ColorSource::Unsupported,
        Terminal::Windows => ColorSource::Console,
        _ => ColorSource::Query,
    }
}

/// Where the colour is looked for once the query is about to be sent: on
/// Windows, a console that does not process escape sequences cannot be
/// asked, and its attributes are read instead.
pub fn query_or_console(host: Host, vt_enabled: bool) -> (source: ColorSource)
    ensures
        source == if host == Host::Windows && !vt_enabled {
            ColorSource::Console
        } else {
            ColorSource::Query
        },
{
    if host == Host::Windows && !vt_enabled {
        ColorSource::Console
    } else {
        ColorSource::Query
    }
}

/// The first answer of a terminal of family `term`, given what its source
/// gave: Emacs has none, whatever was given.
pub open spec fn primary_spec(term: Terminal, probed: Result<Rgb, Error>) -> Result<Rgb, Error> {
    if term == Terminal::Emacs {
        Err(Error::Unsupported)
    } else {
        probed
    }
}

/// get background color by `RGB`
///
/// `probed` is what the source of `term` gave, and `colorfgbg` the value of
/// `COLORFGBG`. The first answer counts where it is a colour; else the colour
/// that `COLORFGBG` names, where it names one; else the error of the first.
pub fn rgb(term: Terminal, probed: Result<Rgb, Error>, colorfgbg: Option<&str>) -> (res: Result<
    Rgb,
    Error,
>)
    ensures
        primary_spec(term, probed) is Ok ==> res == primary_spec(term, probed),
        primary_spec(term, probed) is Err ==> match from_env_colorfgbg_spec(text_view(colorfgbg)) {
            Ok(color) => res == Ok::<Rgb, Error>(color),
            Err(_) => res == primary_spec(term, probed),
        },
{
    let primary = match term {
        Terminal::Emacs => Err(Error::Unsupported),
        _ => probed,
    };
    let fallback = from_env_colorfgbg(colorfgbg);
    if primary.is_ok() {
        primary
    } else if fallback.is_ok() {
        fallback
    } else {
        primary
    }
}

} // verus!
