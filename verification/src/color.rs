//! Colours and the light/dark classification.

use vstd::prelude::*;
use crate::error::Error;

verus! {

/// 16bit RGB color
#[derive(Copy, Clone, Debug, PartialEq, Eq, Structural)]
pub struct Rgb {
    pub r: u16,
    pub g: u16,
    pub b: u16,
}

/// Background theme
#[derive(Copy, Clone, Debug, PartialEq, Eq, Structural)]
pub enum Theme {
    Light,
    Dark,
}

/// A thousand times the ITU-R BT.601 luminance of a colour:
/// `299 R + 587 G + 114 B` stands for `0.299 R + 0.587 G + 0.114 B`.
pub open spec fn luminance_milli(rgb: Rgb) -> int {
    299 * rgb.r + 587 * rgb.g + 114 * rgb.b
}

/// A colour is light when its luminance is strictly above half of the
/// 16-bit range.
pub open spec fn is_light(rgb: Rgb) -> bool {
    luminance_milli(rgb) > 32768 * 1000
}

/// What `theme_of` computes.
pub open spec fn theme_of_spec(rgb: Rgb) -> Theme {
    if is_light(rgb) {
        Theme::Light
    } else {
        Theme::Dark
    }
}

/// The theme of a colour.
pub fn theme_of(rgb: Rgb) -> (theme: Theme)
    ensures
        theme == theme_of_spec(rgb),
{
    let r: u32 = rgb.r as u32;
    let g: u32 = rgb.g as u32;
    let b: u32 = rgb.b as u32;
    let y: u32 = 299 * r + 587 * g + 114 * b;
    if y > 32_768_000 {
        Theme::Light
    } else {
        Theme::Dark
    }
}

/// get background color by `Theme`
///
/// `rgb` is the resolved background colour, or why there is none. A colour
/// is light where its luminance `0.299 R + 0.587 G + 0.114 B` is above 32768,
/// and dark where it is 32768 or less; an error is handed on as it came.
pub fn theme(rgb: Result<Rgb, Error>) -> (res: Result<Theme, Error>)
    ensures
        match rgb {
            Ok(color) => res == Ok::<Theme, Error>(theme_of_spec(color)),
            Err(e) => res == Err::<Theme, Error>(e),
        },
{
    match rgb {
        Ok(color) => Ok(theme_of(color)),
        Err(e) => Err(e),
    }
}

} // verus!
