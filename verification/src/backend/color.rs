//! Quantizing a requested colour to the palette of the terminal.

use vstd::prelude::*;

use crate::enums::Color;

verus! {

/// The palette slot of black, and of the other seven colours that every
/// colour terminal has, in the order of the curses library.
pub const COLOR_BLACK: i16 = 0;

pub const COLOR_RED: i16 = 1;

pub const COLOR_GREEN: i16 = 2;

pub const COLOR_YELLOW: i16 = 3;

pub const COLOR_BLUE: i16 = 4;

pub const COLOR_MAGENTA: i16 = 5;

pub const COLOR_CYAN: i16 = 6;

pub const COLOR_WHITE: i16 = 7;

/// The palette slot of light red, and of the other six light colours.
pub const COLOR_LIGHT_RED: i16 = 9;

pub const COLOR_LIGHT_GREEN: i16 = 10;

pub const COLOR_LIGHT_YELLOW: i16 = 11;

pub const COLOR_LIGHT_BLUE: i16 = 12;

pub const COLOR_LIGHT_MAGENTA: i16 = 13;

pub const COLOR_LIGHT_CYAN: i16 = 14;

pub const COLOR_LIGHT_WHITE: i16 = 15;

/// What stands for the colour that the terminal had at startup.
pub const COLOR_DEFAULT: i16 = -1;

/// The level, 0 to 5, of one channel in the 6x6x6 colour cube.
pub open spec fn cube_level(channel: u8) -> int {
    6 * channel / 256
}

/// The step, counted from the darkest, of the grey ramp that is nearest below
/// a grey of the given value. The ramp starts at 8 and rises in steps of 10;
/// what is darker than its first step falls on that step.
pub open spec fn ramp_step(value: u8) -> int {
    if value < 8 {
        0
    } else {
        (value - 8) / 10
    }
}

/// Whether the three channels name a grey that the ramp is consulted for:
/// all equal, not black, and below 250.
pub open spec fn is_ramp_grey(r: u8, g: u8, b: u8) -> bool {
    r == g && g == b && r != 0 && r < 250
}

/// 0 or 1: whether a channel is in the upper half of its range.
pub open spec fn channel_bit(channel: u8) -> int {
    if channel > 127 {
        1
    } else {
        0
    }
}

/// The palette slot of an RGB colour.
///
/// With 256 colours or more a grey goes to the grey ramp (slots from 232), any
/// other colour to the colour cube (slots from 16). With fewer colours each
/// channel gives one bit of a slot among the first eight.
pub open spec fn closest_rgb(r: u8, g: u8, b: u8, max_colors: int) -> int {
    if max_colors >= 256 {
        if is_ramp_grey(r, g, b) {
            232 + ramp_step(r)
        } else {
            16 + 36 * cube_level(r) + 6 * cube_level(g) + cube_level(b)
        }
    } else {
        channel_bit(r) + 2 * channel_bit(g) + 4 * channel_bit(b)
    }
}

/// A colour with an index of the ANSI palette replaced by what the index
/// stands for.
pub open spec fn expanded(color: Color) -> Color {
    match color {
        Color::AnsiValue(n) => Color::from_ansi(n),
        _ => color,
    }
}

/// The palette slot that stands for `color` on a terminal of `max_colors`
/// colours, or -1 for the terminal's default colour.
///
/// A named colour has one slot, whatever the number of colours: the dark
/// ones the slots from 0 to 7, the light ones those from 9 to 15. Only the
/// slot of an RGB colour depends on the number of colours.
pub open spec fn closest(color: Color, max_colors: int) -> int {
    match expanded(color) {
        Color::Black => 0,
        Color::DarkRed => 1,
        Color::DarkGreen => 2,
        Color::DarkYellow => 3,
        Color::DarkBlue => 4,
        Color::DarkMagenta => 5,
        Color::DarkCyan => 6,
        Color::Grey => 7,
        Color::Red => 9,
        Color::Green => 10,
        Color::Yellow => 11,
        Color::Blue => 12,
        Color::Magenta => 13,
        Color::Cyan => 14,
        Color::White => 15,
        Color::Rgb(r, g, b) => closest_rgb(r, g, b, max_colors),
        _ => -1,
    }
}

/// Whether `color` is one of the two greys whose ramp step lies one past the
/// end of the ramp.
pub open spec fn overshoots_ramp(color: Color) -> bool {
    match color {
        Color::Rgb(r, g, b) => r == g && g == b && 248 <= r < 250,
        _ => false,
    }
}

fn rgb_slot(r: u8, g: u8, b: u8, max_colors: i16) -> (slot: i16)
    ensures
        slot == closest_rgb(r, g, b, max_colors as int),
{
    if max_colors >= 256 {
        if r == g && g == b && r != 0 && r < 250 {
            let step: u8 = if r < 8 {
                0
            } else {
                (r - 8) / 10
            };
            232 + step as i16
        } else {
            let red: u16 = 6 * (r as u16) / 256;
            let green: u16 = 6 * (g as u16) / 256;
            let blue: u16 = 6 * (b as u16) / 256;
            (16 + 36 * red + 6 * green + blue) as i16
        }
    } else {
        let red: i16 = if r > 127 {
            1
        } else {
            0
        };
        let green: i16 = if g > 127 {
            1
        } else {
            0
        };
        let blue: i16 = if b > 127 {
            1
        } else {
            0
        };
        red + 2 * green + 4 * blue
    }
}

/// Quantizes `color` to the palette of a terminal with `max_colors` colours.
///
/// The result depends on the two arguments alone.
pub fn find_closest(color: Color, max_colors: i16) -> (slot: i16)
    requires
        max_colors > 0,
    ensures
        slot == closest(color, max_colors as int),
{
    let color = match color {
        Color::AnsiValue(n) => Color::from(n),
        _ => color,
    };
    match color {
        Color::Black => COLOR_BLACK,
        Color::DarkRed => COLOR_RED,
        Color::DarkGreen => COLOR_GREEN,
        Color::DarkYellow => COLOR_YELLOW,
        Color::DarkBlue => COLOR_BLUE,
        Color::DarkMagenta => COLOR_MAGENTA,
        Color::DarkCyan => COLOR_CYAN,
        Color::Grey => COLOR_WHITE,
        Color::Red => COLOR_LIGHT_RED,
        Color::Green => COLOR_LIGHT_GREEN,
        Color::Yellow => COLOR_LIGHT_YELLOW,
        Color::Blue => COLOR_LIGHT_BLUE,
        Color::Magenta => COLOR_LIGHT_MAGENTA,
        Color::Cyan => COLOR_LIGHT_CYAN,
        Color::White => COLOR_LIGHT_WHITE,
        Color::Rgb(r, g, b) => rgb_slot(r, g, b, max_colors),
        _ => COLOR_DEFAULT,
    }
}

/// The slot of a named colour does not depend on the number of colours, nor
/// does that of an index of the ANSI palette that stands for a named colour.
pub proof fn lemma_named_slot_is_fixed(color: Color, first: int, second: int)
    requires
        !(expanded(color) is Rgb),
    ensures
        closest(color, first) == closest(color, second),
{
}

/// On a palette of 8 or of 256 colours an RGB colour is quantized to a slot
/// of that palette. The two greys past the end of the ramp are left out: with
/// 256 colours they go to slot 256. With 256 colours every other colour is
/// quantized to a slot of the palette or to the default, -1; with 8 colours a
/// light named colour keeps its slot beyond the palette, 15 at most.
pub proof fn lemma_closest_in_palette(color: Color, max_colors: int)
    requires
        max_colors == 8 || max_colors == 256,
        !(max_colors == 256 && overshoots_ramp(color)),
    ensures
        color is Rgb ==> 0 <= closest(color, max_colors) < max_colors,
        max_colors == 256 ==> -1 <= closest(color, max_colors) < max_colors,
        max_colors == 8 ==> -1 <= closest(color, max_colors) <= 15,
{
    match expanded(color) {
        Color::Rgb(r, g, b) => {
            assert(0 <= cube_level(r) <= 5 && 0 <= cube_level(g) <= 5 && 0 <= cube_level(b) <= 5);
            if is_ramp_grey(r, g, b) {
                assert(0 <= ramp_step(r) <= 24);
                if color is AnsiValue {
                    assert(ramp_step(r) <= 23);
                }
            }
        },
        _ => {},
    }
}

} // verus!
