use vstd::prelude::*;
use vstd::std_specs::convert::FromSpecImpl;

verus! {

/// A colour, by name, by RGB channels or by its index in the ANSI palette.
#[derive(Copy, Clone, Debug, PartialEq, Eq, Structural, Ord, PartialOrd, Hash)]
pub enum Color {
    /// Resets the terminal color.
    Reset,
    /// Black color.
    Black,
    /// Dark grey color.
    DarkGrey,
    /// Light red color.
    Red,
    /// Dark red color.
    DarkRed,
    /// Light green color.
    Green,
    /// Dark green color.
    DarkGreen,
    /// Light yellow color.
    Yellow,
    /// Dark yellow color.
    DarkYellow,
    /// Light blue color.
    Blue,
    /// Dark blue color.
    DarkBlue,
    /// Light magenta color.
    Magenta,
    /// Dark magenta color.
    DarkMagenta,
    /// Light cyan color.
    Cyan,
    /// Dark cyan color.
    DarkCyan,
    /// White color.
    White,
    /// Grey color.
    Grey,
    /// An RGB color.
    Rgb(u8, u8, u8),
    /// A color of the 256-entry ANSI palette, by its index.
    AnsiValue(u8),
}

impl Color {
    /// The colour that index `n` of the ANSI palette stands for.
    ///
    /// Indices 0 to 15 are the named colours. Indices 16 to 231 walk a
    /// 6x6x6 cube whose coordinates are scaled by 51. Indices 232 to 255 are
    /// a ramp of 24 greys that starts at 8 and rises in steps of 10.
    pub open spec fn from_ansi(n: u8) -> Color {
        if n == 0 {
            Color::Black
        } else if n == 1 {
            Color::Red
        } else if n == 2 {
            Color::Green
        } else if n == 3 {
            Color::Yellow
        } else if n == 4 {
            Color::Blue
        } else if n == 5 {
            Color::Magenta
        } else if n == 6 {
            Color::Cyan
        } else if n == 7 {
            Color::White
        } else if n == 8 {
            Color::Black
        } else if n == 9 {
            Color::DarkRed
        } else if n == 10 {
            Color::DarkGreen
        } else if n == 11 {
            Color::DarkYellow
        } else if n == 12 {
            Color::DarkBlue
        } else if n == 13 {
            Color::DarkMagenta
        } else if n == 14 {
            Color::DarkCyan
        } else if n == 15 {
            Color::Grey
        } else if n < 232 {
            Color::Rgb(
                (((n - 16) / 36) * 51) as u8,
                ((((n - 16) % 36) / 6) * 51) as u8,
                (((n - 16) % 6) * 51) as u8,
            )
        } else {
            Color::Rgb(
                ((n - 232) * 10 + 8) as u8,
                ((n - 232) * 10 + 8) as u8,
                ((n - 232) * 10 + 8) as u8,
            )
        }
    }
}

impl From<u8> for Color {
    fn from(n: u8) -> (color: Color) {
        if n < 16 {
            match n {
                0 => Color::Black,
                1 => Color::Red,
                2 => Color::Green,
                3 => Color::Yellow,
                4 => Color::Blue,
                5 => Color::Magenta,
                6 => Color::Cyan,
                7 => Color::White,
                8 => Color::Black,
                9 => Color::DarkRed,
                10 => Color::DarkGreen,
                11 => Color::DarkYellow,
                12 => Color::DarkBlue,
                13 => Color::DarkMagenta,
                14 => Color::DarkCyan,
                _ => Color::Grey,
            }
        } else if n < 232 {
            let offset: u8 = n - 16;
            let red: u8 = (offset / 36) * 51;
            let green: u8 = ((offset % 36) / 6) * 51;
            let blue: u8 = (offset % 6) * 51;
            Color::Rgb(red, green, blue)
        } else {
            let value: u8 = (n - 232) * 10 + 8;
            Color::Rgb(value, value, value)
        }
    }
}

impl FromSpecImpl<u8> for Color {
    open spec fn obeys_from_spec() -> bool {
        true
    }

    open spec fn from_spec(n: u8) -> Color {
        Color::from_ansi(n)
    }
}

/// A text attribute.
#[derive(Copy, Clone, Debug, PartialEq, Eq, Structural, Ord, PartialOrd, Hash)]
pub enum Attribute {
    /// Resets all the attributes.
    Reset,
    /// Increases the text intensity.
    Bold,
    /// Decreases the text intensity.
    BoldOff,
    /// Emphasises the text.
    Italic,
    /// Turns off the `Italic` attribute.
    ItalicOff,
    /// Underlines the text.
    Underlined,
    /// Turns off the `Underlined` attribute.
    UnderlinedOff,
    /// Makes the text blinking (< 150 per minute).
    SlowBlink,
    /// Makes the text blinking (>= 150 per minute).
    RapidBlink,
    /// Turns off the text blinking (`SlowBlink` or `RapidBlink`).
    BlinkOff,
    /// Crosses the text.
    Crossed,
    /// Turns off the `Crossed` attribute.
    CrossedOff,
    /// Swaps foreground and background colors.
    Reversed,
    /// Turns off the `Reversed` attribute.
    ReversedOff,
    /// Hides the text.
    Conceal,
    /// Turns off the `Conceal` attribute.
    ConcealOff,
    /// Sets the Fraktur typeface.
    Fraktur,
    /// Turns off the `Bold` attribute.
    NormalIntensity,
    /// Switches the text back to normal intensity (no bold, italic).
    BoldItalicOff,
    /// Makes the text framed.
    Framed,
}

impl Attribute {
    /// The name of the attribute.
    pub open spec fn spec_name(self) -> Seq<char> {
        match self {
            Attribute::Reset => "Reset"@,
            Attribute::Bold => "Bold"@,
            Attribute::BoldOff => "BoldOff"@,
            Attribute::Italic => "Italic"@,
            Attribute::ItalicOff => "ItalicOff"@,
            Attribute::Underlined => "Underlined"@,
            Attribute::UnderlinedOff => "UnderlinedOff"@,
            Attribute::SlowBlink => "SlowBlink"@,
            Attribute::RapidBlink => "RapidBlink"@,
            Attribute::BlinkOff => "BlinkOff"@,
            Attribute::Crossed => "Crossed"@,
            Attribute::CrossedOff => "CrossedOff"@,
            Attribute::Reversed => "Reversed"@,
            Attribute::ReversedOff => "ReversedOff"@,
            Attribute::Conceal => "Conceal"@,
            Attribute::ConcealOff => "ConcealOff"@,
            Attribute::Fraktur => "Fraktur"@,
            Attribute::NormalIntensity => "NormalIntensity"@,
            Attribute::BoldItalicOff => "BoldItalicOff"@,
            Attribute::Framed => "Framed"@,
        }
    }

    /// The name of the attribute.
    pub fn name(&self) -> (name: String)
        ensures
            name@ == self.spec_name(),
    {
        String::from_str(
            match self {
                Attribute::Reset => "Reset",
                Attribute::Bold => "Bold",
                Attribute::BoldOff => "BoldOff",
                Attribute::Italic => "Italic",
                Attribute::ItalicOff => "ItalicOff",
                Attribute::Underlined => "Underlined",
                Attribute::UnderlinedOff => "UnderlinedOff",
                Attribute::SlowBlink => "SlowBlink",
                Attribute::RapidBlink => "RapidBlink",
                Attribute::BlinkOff => "BlinkOff",
                Attribute::Crossed => "Crossed",
                Attribute::CrossedOff => "CrossedOff",
                Attribute::Reversed => "Reversed",
                Attribute::ReversedOff => "ReversedOff",
                Attribute::Conceal => "Conceal",
                Attribute::ConcealOff => "ConcealOff",
                Attribute::Fraktur => "Fraktur",
                Attribute::NormalIntensity => "NormalIntensity",
                Attribute::BoldItalicOff => "BoldItalicOff",
                Attribute::Framed => "Framed",
            },
        )
    }
}

} // verus!
