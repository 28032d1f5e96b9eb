use std::io;
use termbg::color_source;
use termbg::from_env_colorfgbg;
use termbg::from_winapi;
use termbg::query_or_console;
use termbg::rgb;
use termbg::ColorSource;
use termbg::Error;
use termbg::Host;
use termbg::Rgb;
use termbg::Terminal;

fn wide(r: u16, g: u16, b: u16) -> Rgb {
    Rgb { r: r * 256, g: g * 256, b: b * 256 }
}

#[test]
fn colorfgbg_black_and_white() {
    assert_eq!(from_env_colorfgbg(Some("15;0")).unwrap(), Rgb { r: 0, g: 0, b: 0 });
    assert_eq!(
        from_env_colorfgbg(Some("0;15")).unwrap(),
        Rgb { r: 0xff00, g: 0xff00, b: 0xff00 }
    );
}

#[test]
fn colorfgbg_maps_each_index_through_the_palette() {
    let palette: Vec<(u16, u16, u16)> = vec![
        (0, 0, 0),
        (205, 0, 0),
        (0, 205, 0),
        (205, 205, 0),
        (0, 0, 238),
        (205, 0, 205),
        (0, 205, 205),
        (229, 229, 229),
        (127, 127, 127),
        (255, 0, 0),
        (0, 255, 0),
        (255, 255, 0),
        (92, 92, 255),
        (255, 0, 255),
        (0, 255, 255),
        (255, 255, 255),
    ];
    for (index, (r, g, b)) in palette.iter().enumerate() {
        let var = format!("7;{}", index);
        assert_eq!(from_env_colorfgbg(Some(&var)).unwrap(), wide(*r, *g, *b), "index {}", index);
    }
}

#[test]
fn colorfgbg_beyond_the_palette_is_black() {
    assert_eq!(from_env_colorfgbg(Some("0;16")).unwrap(), wide(0, 0, 0));
    assert_eq!(from_env_colorfgbg(Some("0;255")).unwrap(), wide(0, 0, 0));
}

#[test]
fn colorfgbg_takes_the_second_field() {
    assert_eq!(from_env_colorfgbg(Some("15;default;0")).is_err(), true);
    assert_eq!(from_env_colorfgbg(Some("15;4;0")).unwrap(), wide(0, 0, 238));
    assert_eq!(from_env_colorfgbg(Some(";12")).unwrap(), wide(92, 92, 255));
    assert_eq!(from_env_colorfgbg(Some("x;7;")).unwrap(), wide(229, 229, 229));
}

#[test]
fn colorfgbg_number_forms() {
    assert_eq!(from_env_colorfgbg(Some("0;+9")).unwrap(), wide(255, 0, 0));
    assert_eq!(from_env_colorfgbg(Some("0;007")).unwrap(), wide(229, 229, 229));
    assert_eq!(from_env_colorfgbg(Some("0;0000000000000000000015")).unwrap(), wide(255, 255, 255));
}

#[test]
fn colorfgbg_unsupported_when_unset_or_without_a_second_field() {
    assert!(matches!(from_env_colorfgbg(None), Err(Error::Unsupported)));
    assert!(matches!(from_env_colorfgbg(Some("")), Err(Error::Unsupported)));
    assert!(matches!(from_env_colorfgbg(Some("15")), Err(Error::Unsupported)));
}

#[test]
fn colorfgbg_parse_error_holds_the_value() {
    for var in ["15;", "15;x", "15;-1", "15;256", "15;1000", "15;+", "15; 1", "15;1 ", "0;１"] {
        match from_env_colorfgbg(Some(var)) {
            Err(Error::Parse(detail)) => assert_eq!(detail, var),
            other => panic!("expected a parse error for {:?}, got {:?}", var, other),
        }
    }
}

#[test]
fn console_attributes_map_through_the_table() {
    let red: u16 = 0x40;
    let green: u16 = 0x20;
    let blue: u16 = 0x10;
    let bright: u16 = 0x80;
    assert_eq!(from_winapi(0), wide(0, 0, 0));
    assert_eq!(from_winapi(red), wide(128, 0, 0));
    assert_eq!(from_winapi(green), wide(0, 128, 0));
    assert_eq!(from_winapi(red | green), wide(128, 128, 0));
    assert_eq!(from_winapi(blue), wide(0, 0, 128));
    assert_eq!(from_winapi(red | blue), wide(128, 0, 128));
    assert_eq!(from_winapi(green | blue), wide(0, 128, 128));
    assert_eq!(from_winapi(red | green | blue), wide(192, 192, 192));
    assert_eq!(from_winapi(bright), wide(128, 128, 128));
    assert_eq!(from_winapi(bright | red), wide(255, 0, 0));
    assert_eq!(from_winapi(bright | green), wide(0, 255, 0));
    assert_eq!(from_winapi(bright | red | green), wide(255, 255, 0));
    assert_eq!(from_winapi(bright | blue), wide(0, 0, 255));
    assert_eq!(from_winapi(bright | red | blue), wide(255, 0, 255));
    assert_eq!(from_winapi(bright | green | blue), wide(0, 255, 255));
    assert_eq!(from_winapi(bright | red | green | blue), wide(255, 255, 255));
}

#[test]
fn console_attributes_read_only_the_background_bits() {
    assert_eq!(from_winapi(0x000f), wide(0, 0, 0));
    assert_eq!(from_winapi(0xff0f), wide(0, 0, 0));
    assert_eq!(from_winapi(0x0047), wide(128, 0, 0));
    assert_eq!(from_winapi(0xffff), wide(255, 255, 255));
}

#[test]
fn color_source_of_each_family() {
    assert_eq!(color_source(Terminal::Emacs), ColorSource::Unsupported);
    assert_eq!(color_source(Terminal::Windows), ColorSource::Console);
    assert_eq!(color_source(Terminal::XtermCompatible), ColorSource::Query);
    assert_eq!(color_source(Terminal::Tmux), ColorSource::Query);
    assert_eq!(color_source(Terminal::Screen), ColorSource::Query);
}

#[test]
fn rgb_prefers_the_first_answer() {
    let probed = Rgb { r: 1, g: 2, b: 3 };
    assert_eq!(rgb(Terminal::XtermCompatible, Ok(probed), Some("0;15")).unwrap(), probed);
    assert_eq!(rgb(Terminal::Windows, Ok(probed), None).unwrap(), probed);
}

#[test]
fn rgb_falls_back_on_colorfgbg() {
    assert_eq!(
        rgb(Terminal::XtermCompatible, Err(Error::Timeout), Some("0;15")).unwrap(),
        wide(255, 255, 255)
    );
    assert_eq!(
        rgb(Terminal::Tmux, Err(Error::Parse(String::from("x"))), Some("15;0")).unwrap(),
        wide(0, 0, 0)
    );
}

#[test]
fn rgb_reports_the_first_error_when_both_fail() {
    assert!(matches!(rgb(Terminal::Screen, Err(Error::Timeout), None), Err(Error::Timeout)));
    match rgb(Terminal::Screen, Err(Error::Parse(String::from("first"))), Some("0;x")) {
        Err(Error::Parse(detail)) => assert_eq!(detail, "first"),
        other => panic!("expected the first error, got {:?}", other),
    }
    let failed = Err(Error::Io { source: io::Error::new(io::ErrorKind::NotFound, "gone") });
    match rgb(Terminal::XtermCompatible, failed, Some("nothing")) {
        Err(Error::Io { source }) => assert_eq!(source.kind(), io::ErrorKind::NotFound),
        other => panic!("expected the first error, got {:?}", other),
    }
}

#[test]
fn rgb_of_emacs_is_unsupported_whatever_was_probed() {
    let probed = Rgb { r: 1, g: 2, b: 3 };
    assert!(matches!(rgb(Terminal::Emacs, Ok(probed), None), Err(Error::Unsupported)));
    assert!(matches!(
        rgb(Terminal::Emacs, Err(Error::Timeout), Some("0")),
        Err(Error::Unsupported)
    ));
    assert_eq!(rgb(Terminal::Emacs, Ok(probed), Some("0;15")).unwrap(), wide(255, 255, 255));
}

#[test]
fn a_console_without_escape_sequences_is_read_not_asked() {
    assert_eq!(query_or_console(Host::Windows, false), ColorSource::Console);
    assert_eq!(query_or_console(Host::Windows, true), ColorSource::Query);
    assert_eq!(query_or_console(Host::Posix, false), ColorSource::Query);
    assert_eq!(query_or_console(Host::Posix, true), ColorSource::Query);
}
