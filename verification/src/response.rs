//! The emulator's reply: the text that holds `rgb:` and a colour string,
//! complete or cut short.

use vstd::prelude::*;
use crate::color::Rgb;
use crate::error::Error;
use crate::error::Failure;
use crate::error::outcome;
use crate::text::chars_of;
use crate::text::find_from;
use crate::text::lemma_position_unique;
use crate::text::position;
use crate::x11::decode_x11_color;
use crate::x11::decode_x11_color_spec;

verus! {

/// The marker `rgb:` stands at index `i` of `s`.
pub open spec fn marker_at(s: Seq<char>, i: int) -> bool {
    &&& 0 <= i
    &&& i + 4 <= s.len()
    &&& s[i] == 'r'
    &&& s[i + 1] == 'g'
    &&& s[i + 2] == 'b'
    &&& s[i + 3] == ':'
}

/// The index of the first marker at or after `from`.
pub open spec fn marker_from(s: Seq<char>, from: int) -> Option<int>
    decreases s.len() - from,
{
    if from < 0 || from + 4 > s.len() {
        None
    } else if marker_at(s, from) {
        Some(from)
    } else {
        marker_from(s, from + 1)
    }
}

/// The index of the first marker in `s`.
pub open spec fn first_marker(s: Seq<char>) -> Option<int> {
    marker_from(s, 0)
}

/// `marker_from` gives the least index at or after `from` with a marker, and
/// none only where there is no such index.
pub proof fn lemma_marker_from(s: Seq<char>, from: int)
    requires
        0 <= from,
    ensures
        match marker_from(s, from) {
            Some(i) => from <= i && marker_at(s, i) && forall|j: int|
                from <= j < i ==> !marker_at(s, j),
            None => forall|j: int| from <= j ==> !marker_at(s, j),
        },
    decreases s.len() - from,
{
    if from + 4 > s.len() {
    } else if marker_at(s, from) {
    } else {
        lemma_marker_from(s, from + 1);
    }
}

/// An index that holds a marker, with none before it, is the first marker.
pub proof fn lemma_first_marker_unique(s: Seq<char>, i: int)
    requires
        marker_at(s, i),
        forall|j: int| 0 <= j < i ==> !marker_at(s, j),
    ensures
        first_marker(s) == Some(i),
{
    lemma_marker_from(s, 0);
}

/// The text of the error when a reply holds no marker.
pub open spec fn no_marker_detail() -> Seq<char> {
    "Could not find 'rgb:' in terminal response string"@
}

/// What `extract_rgb` returns: the decoding of what follows the first marker.
pub open spec fn extract_rgb_spec(s: Seq<char>) -> Result<(u16, u16, u16), Failure> {
    match first_marker(s) {
        None => Err(Failure::Parse(no_marker_detail())),
        Some(i) => decode_x11_color_spec(s.skip(i + 4)),
    }
}

/// What `parse_response` returns.
pub open spec fn parse_response_spec(s: Seq<char>) -> Result<Rgb, Failure> {
    match extract_rgb_spec(s) {
        Ok((r, g, b)) => Ok(Rgb { r, g, b }),
        Err(f) => Err(f),
    }
}

/// Where the first marker of `s` stands.
fn find_marker(s: &Vec<char>) -> (r: Option<usize>)
    ensures
        match r {
            Some(i) => first_marker(s@) == Some(i as int) && i + 4 <= s.len(),
            None => first_marker(s@) is None,
        },
{
    let n = s.len();
    if n < 4 {
        return None;
    }
    let mut i: usize = 0;
    while i <= n - 4
        invariant
            4 <= n == s.len(),
            marker_from(s@, i as int) == first_marker(s@),
        decreases n - i,
    {
        if s[i] == 'r' && s[i + 1] == 'g' && s[i + 2] == 'b' && s[i + 3] == ':' {
            return Some(i);
        }
        i += 1;
    }
    None
}

/// Whether the text holds `rgb:`.
pub fn contains_marker(text: &str) -> (found: bool)
    ensures
        found == (first_marker(text@) is Some),
{
    let chars = chars_of(text);
    find_marker(&chars).is_some()
}

/// The three intensities of a reply: the colour string that follows the
/// first `rgb:`.
pub fn extract_rgb(response: &str) -> (res: Result<(u16, u16, u16), Error>)
    ensures
        outcome(res) == extract_rgb_spec(response@),
{
    let chars = chars_of(response);
    match find_marker(&chars) {
        None => Err(
            Error::Parse("Could not find 'rgb:' in terminal response string".to_owned()),
        ),
        Some(i) => {
            let rest = response.substring_char(i + 4, chars.len());
            assert(rest@ == response@.skip(i + 4));
            decode_x11_color(rest)
        },
    }
}

/// The colour that a reply reports.
pub fn parse_response(response: &str) -> (res: Result<Rgb, Error>)
    ensures
        outcome(res) == parse_response_spec(response@),
{
    match extract_rgb(response) {
        Ok((r, g, b)) => Ok(Rgb { r, g, b }),
        Err(e) => Err(e),
    }
}

/// The text of the error when a cut-short reply holds no marker.
pub open spec fn missing_marker_detail() -> Seq<char> {
    "Required string `rgb:` not found in response"@
}

/// The text of the error when fewer than two `/` follow the marker.
pub open spec fn incomplete_detail(s: Seq<char>) -> Seq<char> {
    "Incomplete response `"@ + s + "`: does not contain two forward slashes"@
}

/// The text of the error when the fragments do not fit one length.
pub open spec fn unequal_detail(s: Seq<char>) -> Seq<char> {
    "Can't safely reconstitute unterminated response `"@ + s
        + "`from fragments of unequal length"@
}

/// What `decode_unterminated` returns.
///
/// The text after the first marker is divided at its first two `/` into three
/// fragments, the third running to the end. Where the second is as long as the
/// first and the third at least as long, the reply is the marker and three
/// groups of that length: what follows them is cut off.
pub open spec fn decode_unterminated_spec(s: Seq<char>) -> Result<Seq<char>, Failure> {
    match first_marker(s) {
        None => Err(Failure::Parse(missing_marker_detail())),
        Some(i) => {
            let rest = s.skip(i + 4);
            let p1 = position(rest, '/');
            let t = rest.skip(p1 + 1);
            let p2 = position(t, '/');
            let third = t.skip(p2 + 1);
            if p1 >= rest.len() || p2 >= t.len() {
                Err(Failure::Parse(incomplete_detail(s)))
            } else if p2 != p1 || third.len() < p1 {
                Err(Failure::Parse(unequal_detail(s)))
            } else {
                Ok(s.subrange(i, i + 4 + 3 * p1 + 2))
            }
        },
    }
}

/// A result that borrows text, as contracts see it.
pub open spec fn text_outcome(r: Result<&str, Error>) -> Result<Seq<char>, Failure> {
    match r {
        Ok(t) => Ok(t@),
        Err(e) => Err(e@),
    }
}

/// Recovers a reply that arrived without its terminator: the part of
/// `response` from the first `rgb:` to the end of three groups of one length,
/// without what trails them.
///
/// Fails with a parse error where the marker or one of the two `/` is missing,
/// or where the fragments do not fit the length of the first.
pub fn decode_unterminated<'a>(response: &'a str) -> (res: Result<&'a str, Error>)
    ensures
        text_outcome(res) == decode_unterminated_spec(response@),
{
    let chars = chars_of(response);
    let n = chars.len();
    let start = match find_marker(&chars) {
        None => {
            return Err(Error::Parse("Required string `rgb:` not found in response".to_owned()));
        },
        Some(i) => i,
    };
    let mid: usize = start + 4;
    let s1 = find_from(&chars, mid, '/');
    if s1 >= n {
        return Err(Error::Parse(incomplete(response)));
    }
    let s2 = find_from(&chars, s1 + 1, '/');
    proof {
        let rest = response@.skip(mid as int);
        assert(rest.skip(s1 - mid + 1) == response@.skip(s1 + 1));
    }
    if s2 >= n {
        return Err(Error::Parse(incomplete(response)));
    }
    assert(response@.skip(s1 + 1).skip(s2 - s1) == response@.skip(s2 + 1));
    let frag_len: usize = s1 - mid;
    if s2 - (s1 + 1) != frag_len || n - (s2 + 1) < frag_len {
        return Err(
            Error::Parse(
                "Can't safely reconstitute unterminated response `".to_owned().concat(
                    response,
                ).concat("`from fragments of unequal length"),
            ),
        );
    }
    Ok(response.substring_char(start, s2 + 1 + frag_len))
}

/// The error text for a reply with fewer than two `/` after the marker.
fn incomplete(response: &str) -> (detail: String)
    ensures
        detail@ == incomplete_detail(response@),
{
    "Incomplete response `".to_owned().concat(response).concat(
        "`: does not contain two forward slashes",
    )
}

/// The text is three groups of `len` characters each, divided by `/`, of
/// which the first two hold no `/`.
pub open spec fn uniform_groups(rest: Seq<char>, len: int) -> bool {
    &&& 0 <= len
    &&& rest.len() == 3 * len + 2
    &&& rest[len] == '/'
    &&& rest[2 * len + 1] == '/'
    &&& forall|j: int| 0 <= j < len ==> rest[j] != '/'
    &&& forall|j: int| len + 1 <= j < 2 * len + 1 ==> rest[j] != '/'
}

/// A reply whose three groups after the first marker have one length is
/// recovered whole from whatever trails it: cut short, the reply and its
/// trail give the reply from its marker on.
pub proof fn lemma_decode_unterminated_recovers(reply: Seq<char>, trailing: Seq<char>, len: int)
    requires
        first_marker(reply) is Some,
        uniform_groups(reply.skip(first_marker(reply).unwrap() + 4), len),
    ensures
        first_marker(reply + trailing) == first_marker(reply),
        decode_unterminated_spec(reply + trailing) == Ok::<Seq<char>, Failure>(
            reply.skip(first_marker(reply).unwrap()),
        ),
{
    let i = first_marker(reply).unwrap();
    let s = reply + trailing;
    lemma_marker_from(reply, 0);
    assert(marker_at(s, i));
    assert forall|j: int| 0 <= j < i implies !marker_at(s, j) by {
        assert(!marker_at(reply, j));
        assert(s[j] == reply[j] && s[j + 1] == reply[j + 1] && s[j + 2] == reply[j + 2] && s[j
            + 3] == reply[j + 3]);
    }
    lemma_first_marker_unique(s, i);
    let groups = reply.skip(i + 4);
    let rest = s.skip(i + 4);
    assert(rest =~= groups + trailing);
    assert forall|j: int| 0 <= j < len implies rest[j] != '/' by {
        assert(rest[j] == groups[j]);
    }
    assert(rest[len] == groups[len]);
    lemma_position_unique(rest, '/', len);
    let t = rest.skip(len + 1);
    assert forall|j: int| 0 <= j < len implies t[j] != '/' by {
        assert(t[j] == groups[len + 1 + j]);
    }
    assert(t[len] == groups[2 * len + 1]);
    lemma_position_unique(t, '/', len);
    let third = t.skip(len + 1);
    assert(third.len() == len + trailing.len());
    assert(s.subrange(i, i + 4 + 3 * len + 2) =~= reply.skip(i));
}

/// A text loses nothing that counts with what stands before its first
/// marker: from the marker on, it reports the same colour.
pub proof fn lemma_parse_from_marker(reply: Seq<char>)
    requires
        first_marker(reply) is Some,
    ensures
        parse_response_spec(reply.skip(first_marker(reply).unwrap())) == parse_response_spec(
            reply,
        ),
{
    let i = first_marker(reply).unwrap();
    lemma_marker_from(reply, 0);
    let tail = reply.skip(i);
    assert(marker_at(tail, 0));
    lemma_first_marker_unique(tail, 0);
    assert(tail.skip(4) =~= reply.skip(i + 4));
}

} // verus!
