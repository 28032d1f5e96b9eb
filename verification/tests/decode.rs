use termbg::decode_unterminated;
use termbg::decode_x11_color;
use termbg::extract_rgb;
use termbg::parse_response;
use termbg::Error;
use termbg::Rgb;

fn parse_detail<T: std::fmt::Debug>(res: Result<T, Error>) -> String {
    match res {
        Err(Error::Parse(detail)) => detail,
        other => panic!("expected a parse error, got {:?}", other),
    }
}

#[test]
fn test_decode_x11_color() {
    let s = "0000/0000/0000";
    assert_eq!((0, 0, 0), decode_x11_color(s).unwrap());

    let s = "1111/2222/3333";
    assert_eq!((0x1111, 0x2222, 0x3333), decode_x11_color(s).unwrap());

    let s = "111/222/333";
    assert_eq!((0x1110, 0x2220, 0x3330), decode_x11_color(s).unwrap());

    let s = "11/22/33";
    assert_eq!((0x1100, 0x2200, 0x3300), decode_x11_color(s).unwrap());

    let s = "1/2/3";
    assert_eq!((0x1000, 0x2000, 0x3000), decode_x11_color(s).unwrap());
}

#[test]
fn decode_scales_short_groups_to_the_leading_digits() {
    assert_eq!((0x1000, 0x1100, 0x1110), decode_x11_color("1/11/111").unwrap());
    assert_eq!((0x1111, 0x1000, 0x1100), decode_x11_color("1111/1/11").unwrap());
    assert_eq!((0xf000, 0xff00, 0xfff0), decode_x11_color("f/ff/fff").unwrap());
    assert_eq!((0xffff, 0x0000, 0x0010), decode_x11_color("ffff/0/001").unwrap());
}

#[test]
fn decode_pads_like_trailing_zeros() {
    assert_eq!(
        decode_x11_color("a/b7/c0d").unwrap(),
        decode_x11_color("a000/b700/c0d0").unwrap()
    );
}

#[test]
fn decode_takes_either_case() {
    assert_eq!((0xabcd, 0xabcd, 0xef00), decode_x11_color("abcd/ABCD/Ef").unwrap());
}

#[test]
fn decode_leaves_out_what_follows_a_third_slash() {
    assert_eq!((0x1000, 0x2000, 0x3000), decode_x11_color("1/2/3/4").unwrap());
    assert_eq!((0x1000, 0x2000, 0x3000), decode_x11_color("1/2/3/zz").unwrap());
}

#[test]
fn decode_fails_on_fewer_than_three_groups() {
    assert_eq!(parse_detail(decode_x11_color("")), "");
    assert_eq!(parse_detail(decode_x11_color("ffff")), "ffff");
    assert_eq!(parse_detail(decode_x11_color("ffff/cccc")), "ffff/cccc");
}

#[test]
fn decode_fails_on_the_first_bad_group() {
    assert_eq!(parse_detail(decode_x11_color("gg/11/22")), "gg");
    assert_eq!(parse_detail(decode_x11_color("11/x/22")), "x");
    assert_eq!(parse_detail(decode_x11_color("11/22/3 ")), "3 ");
    assert_eq!(parse_detail(decode_x11_color("zz/yy/xx")), "zz");
    assert_eq!(parse_detail(decode_x11_color("11//22")), "");
    assert_eq!(parse_detail(decode_x11_color("11/22/")), "");
    assert_eq!(parse_detail(decode_x11_color("+1/22/33")), "+1");
    assert_eq!(parse_detail(decode_x11_color("11/22/é")), "é");
}

#[test]
fn decode_fails_on_a_group_of_more_than_four_digits() {
    assert_eq!(parse_detail(decode_x11_color("00001/2/3")), "00001");
    assert_eq!(parse_detail(decode_x11_color("1/2/12345")), "12345");
}

#[test]
fn extract_rgb_reads_what_follows_the_first_marker() {
    assert_eq!((0xffff, 0xcccc, 0x9999), extract_rgb("11;rgb:ffff/cccc/9999").unwrap());
    assert_eq!((0xff00, 0xcc00, 0x9900), extract_rgb("rgb:ff/cc/99").unwrap());
    assert_eq!((0x1000, 0x2000, 0x3000), extract_rgb("rgrgb:1/2/3/rgb:4/5/6").unwrap());
}

#[test]
fn extract_rgb_fails_without_the_marker() {
    assert_eq!(
        parse_detail(extract_rgb("11;rgx:ffff/cccc/9999")),
        "Could not find 'rgb:' in terminal response string"
    );
    assert_eq!(
        parse_detail(extract_rgb("")),
        "Could not find 'rgb:' in terminal response string"
    );
    assert_eq!(
        parse_detail(extract_rgb("rgb")),
        "Could not find 'rgb:' in terminal response string"
    );
}

#[test]
fn extract_rgb_hands_on_the_decoder_error() {
    assert_eq!(parse_detail(extract_rgb("11;rgb:ffff/cccc")), "ffff/cccc");
    assert_eq!(parse_detail(extract_rgb("11;rgb:ffff/cccc/99x")), "99x");
}

#[test]
fn parse_response_gives_the_colour() {
    assert_eq!(
        Rgb { r: 0xffff, g: 0xcccc, b: 0x9999 },
        parse_response("\u{1b}]11;rgb:ffff/cccc/9999").unwrap()
    );
    assert_eq!(parse_detail(parse_response("11;rgb:ffff")), "ffff");
}

#[test]
fn decode_unterminated_cuts_off_what_trails() {
    assert_eq!("rgb:ff/cc/99", decode_unterminated("11;rgb:ff/cc/99x").unwrap());
    assert_eq!("rgb:ff/cc/99", decode_unterminated("11;rgb:ff/cc/99").unwrap());
    assert_eq!("rgb:ffff/cccc/9999", decode_unterminated("rgb:ffff/cccc/9999\u{9c}zz").unwrap());
    assert_eq!("rgb:1/2/3", decode_unterminated("rgb:1/2/3/4/5").unwrap());
    assert_eq!("rgb://", decode_unterminated("rgb://").unwrap());
}

#[test]
fn decode_unterminated_fails_without_the_marker() {
    assert_eq!(
        parse_detail(decode_unterminated("11;ff/cc/99")),
        "Required string `rgb:` not found in response"
    );
}

#[test]
fn decode_unterminated_fails_without_two_slashes() {
    assert_eq!(
        parse_detail(decode_unterminated("11;rgb:ff/cc")),
        "Incomplete response `11;rgb:ff/cc`: does not contain two forward slashes"
    );
    assert_eq!(
        parse_detail(decode_unterminated("rgb:")),
        "Incomplete response `rgb:`: does not contain two forward slashes"
    );
}

#[test]
fn decode_unterminated_fails_on_fragments_of_unequal_length() {
    assert_eq!(
        parse_detail(decode_unterminated("rgb:ffff/cccc/99")),
        "Can't safely reconstitute unterminated response `rgb:ffff/cccc/99`from fragments of unequal length"
    );
    assert_eq!(
        parse_detail(decode_unterminated("11;rgb:ff/cc/9")),
        "Can't safely reconstitute unterminated response `11;rgb:ff/cc/9`from fragments of unequal length"
    );
    assert_eq!(
        parse_detail(decode_unterminated("rgb:ff/ccc/999")),
        "Can't safely reconstitute unterminated response `rgb:ff/ccc/999`from fragments of unequal length"
    );
}
