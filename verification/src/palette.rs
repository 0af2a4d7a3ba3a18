//! The 256-colour palette: what an indexed colour looks like where neither
//! the program nor the theme says otherwise.

use vstd::prelude::*;

verus! {

/// The brightness of step `v` (0 to 5) of the colour cube: 0, then 95 and
/// up in steps of 40.
pub open spec fn cube_level(v: int) -> int {
    if v <= 0 { 0 } else { 55 + 40 * v }
}

/// The red, green and blue of palette entry `i`.
///
/// Entries 0 to 15 are the eight colours of the three bits of the index
/// (1 for red, 2 for green, 4 for blue), at brightness 128 for 0 to 7 and 255
/// for 8 to 15, but that entry 7 is the light grey 192 and entry 8 the dark
/// grey 128. Entries 16 to 231 are a cube of six steps of red, green and
/// blue. Entries 232 to 255 are greys from 8 up in steps of 10.
pub open spec fn default_rgb(i: u8) -> (u8, u8, u8) {
    if i == 7 {
        (192u8, 192u8, 192u8)
    } else if i == 8 {
        (128u8, 128u8, 128u8)
    } else if i < 16 {
        let level = if i < 8 { 128u8 } else { 255u8 };
        (
            if i % 2 == 1 { level } else { 0u8 },
            if (i / 2) % 2 == 1 { level } else { 0u8 },
            if (i / 4) % 2 == 1 { level } else { 0u8 },
        )
    } else if i < 232 {
        let n = i - 16;
        (cube_level(n / 36) as u8, cube_level((n / 6) % 6) as u8, cube_level(n % 6) as u8)
    } else {
        let grey = (8 + 10 * (i - 232)) as u8;
        (grey, grey, grey)
    }
}

fn level(v: u8) -> (l: u8)
    requires
        v <= 5,
    ensures
        l == cube_level(v as int),
{
    if v == 0 { 0 } else { 55 + 40 * v }
}

/// The red, green and blue of palette entry `i`.
pub fn palette_rgb(i: u8) -> (rgb: (u8, u8, u8))
    ensures
        rgb == default_rgb(i),
{
    if i == 7 {
        (192, 192, 192)
    } else if i == 8 {
        (128, 128, 128)
    } else if i < 16 {
        let on: u8 = if i < 8 { 128 } else { 255 };
        (
            if i % 2 == 1 { on } else { 0 },
            if (i / 2) % 2 == 1 { on } else { 0 },
            if (i / 4) % 2 == 1 { on } else { 0 },
        )
    } else if i < 232 {
        let n: u8 = i - 16;
        (level(n / 36), level((n / 6) % 6), level(n % 6))
    } else {
        let grey: u8 = 8 + 10 * (i - 232);
        (grey, grey, grey)
    }
}

} // verus!
