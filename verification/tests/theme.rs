use std::io;
use termbg::color::theme_of;
use termbg::theme;
use termbg::Error;
use termbg::Rgb;
use termbg::Theme;

#[test]
fn black_is_dark_and_white_is_light() {
    assert_eq!(theme(Ok(Rgb { r: 0, g: 0, b: 0 })).unwrap(), Theme::Dark);
    assert_eq!(theme(Ok(Rgb { r: 0xffff, g: 0xffff, b: 0xffff })).unwrap(), Theme::Light);
}

#[test]
fn the_boundary_is_dark() {
    // 0.299 * 32768 + 0.587 * 32768 + 0.114 * 32768 = 32768
    assert_eq!(theme_of(Rgb { r: 32768, g: 32768, b: 32768 }), Theme::Dark);
    assert_eq!(theme_of(Rgb { r: 32769, g: 32768, b: 32768 }), Theme::Light);
    assert_eq!(theme_of(Rgb { r: 32768, g: 32768, b: 32769 }), Theme::Light);
    assert_eq!(theme_of(Rgb { r: 32768, g: 32768, b: 32767 }), Theme::Dark);
    // 0.299 * 65535 + 0.587 * 22459 + 0.114 * 0 = 32778.398
    assert_eq!(theme_of(Rgb { r: 65535, g: 22459, b: 0 }), Theme::Light);
    // 0.299 * 65535 + 0.587 * 22441 + 0.114 * 0 = 32767.832
    assert_eq!(theme_of(Rgb { r: 65535, g: 22441, b: 0 }), Theme::Dark);
}

#[test]
fn the_channels_weigh_differently() {
    // green alone is light: 0.587 * 65535 = 38469.045
    assert_eq!(theme_of(Rgb { r: 0, g: 65535, b: 0 }), Theme::Light);
    // red alone is dark: 0.299 * 65535 = 19594.965
    assert_eq!(theme_of(Rgb { r: 65535, g: 0, b: 0 }), Theme::Dark);
    // blue alone is dark: 0.114 * 65535 = 7470.99
    assert_eq!(theme_of(Rgb { r: 0, g: 0, b: 65535 }), Theme::Dark);
    // red and blue together are dark: 27065.955
    assert_eq!(theme_of(Rgb { r: 65535, g: 0, b: 65535 }), Theme::Dark);
}

#[test]
fn theme_agrees_with_the_luminance_in_floating_point() {
    let samples: Vec<(u16, u16, u16)> = vec![
        (0, 0, 0),
        (0xffff, 0xffff, 0xffff),
        (0xff00, 0xcc00, 0x9900),
        (0x1000, 0x2000, 0x3000),
        (0x8000, 0x7000, 0x9000),
        (12345, 54321, 999),
        (40000, 30000, 20000),
        (20000, 40000, 60000),
    ];
    for (r, g, b) in samples {
        let y = r as f64 * 0.299 + g as f64 * 0.587 + b as f64 * 0.114;
        let expected = if y > 32768.0 { Theme::Light } else { Theme::Dark };
        assert_eq!(theme_of(Rgb { r, g, b }), expected, "{} {} {}", r, g, b);
    }
}

#[test]
fn theme_hands_on_the_error() {
    assert!(matches!(theme(Err(Error::Timeout)), Err(Error::Timeout)));
    assert!(matches!(theme(Err(Error::Unsupported)), Err(Error::Unsupported)));
    match theme(Err(Error::Parse(String::from("ffff")))) {
        Err(Error::Parse(detail)) => assert_eq!(detail, "ffff"),
        other => panic!("expected the parse error, got {:?}", other),
    }
    let failed = Err(Error::Io { source: io::Error::new(io::ErrorKind::TimedOut, "timeout 1") });
    match theme(failed) {
        Err(Error::Io { source }) => assert_eq!(source.kind(), io::ErrorKind::TimedOut),
        other => panic!("expected the io error, got {:?}", other),
    }
}

#[test]
fn error_messages() {
    assert_eq!(Error::Timeout.message(), "timeout");
    assert_eq!(Error::Unsupported.message(), "unsupported");
    assert_eq!(Error::Parse(String::from("x")).message(), "parse error");
    let failed = Error::Io { source: io::Error::new(io::ErrorKind::Other, "x") };
    assert_eq!(failed.message(), "io error");
}
