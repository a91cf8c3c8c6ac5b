//! The style that text is currently drawn in.

use vstd::prelude::*;

use crate::enums::{Attribute, Color};

verus! {

/// A rendition of the curses library: one way in which drawn text can differ
/// from plain text. `Normal` is the absence of all the others.
#[derive(Copy, Clone, Debug, PartialEq, Eq, Structural, Hash)]
pub enum Rendition {
    Normal,
    Bold,
    Italic,
    Underline,
    Blink,
    Strikeout,
    Reverse,
    Invisible,
}

/// A set of renditions.
#[derive(Copy, Clone, Debug, PartialEq, Eq, Structural, Hash)]
pub struct Renditions {
    pub bold: bool,
    pub italic: bool,
    pub underline: bool,
    pub blink: bool,
    pub strikeout: bool,
    pub reverse: bool,
    pub invisible: bool,
}

impl Renditions {
    /// The empty set: plain text.
    pub open spec fn normal() -> Renditions {
        Renditions {
            bold: false,
            italic: false,
            underline: false,
            blink: false,
            strikeout: false,
            reverse: false,
            invisible: false,
        }
    }

    /// The set with `rendition` added; with `Normal`, the empty set.
    pub open spec fn with(self, rendition: Rendition) -> Renditions {
        match rendition {
            Rendition::Normal => Renditions::normal(),
            Rendition::Bold => Renditions { bold: true, ..self },
            Rendition::Italic => Renditions { italic: true, ..self },
            Rendition::Underline => Renditions { underline: true, ..self },
            Rendition::Blink => Renditions { blink: true, ..self },
            Rendition::Strikeout => Renditions { strikeout: true, ..self },
            Rendition::Reverse => Renditions { reverse: true, ..self },
            Rendition::Invisible => Renditions { invisible: true, ..self },
        }
    }

    /// The set with `rendition` taken out if it was in, and put in if it was
    /// not; with `Normal`, the set as it is.
    pub open spec fn toggled(self, rendition: Rendition) -> Renditions {
        match rendition {
            Rendition::Normal => self,
            Rendition::Bold => Renditions { bold: !self.bold, ..self },
            Rendition::Italic => Renditions { italic: !self.italic, ..self },
            Rendition::Underline => Renditions { underline: !self.underline, ..self },
            Rendition::Blink => Renditions { blink: !self.blink, ..self },
            Rendition::Strikeout => Renditions { strikeout: !self.strikeout, ..self },
            Rendition::Reverse => Renditions { reverse: !self.reverse, ..self },
            Rendition::Invisible => Renditions { invisible: !self.invisible, ..self },
        }
    }

    /// The empty set: plain text.
    pub fn new() -> (renditions: Renditions)
        ensures
            renditions == Renditions::normal(),
    {
        Renditions {
            bold: false,
            italic: false,
            underline: false,
            blink: false,
            strikeout: false,
            reverse: false,
            invisible: false,
        }
    }

    /// Adds `rendition` to the set; `Normal` empties it.
    pub fn enable(&mut self, rendition: Rendition)
        ensures
            *final(self) == old(self).with(rendition),
    {
        match rendition {
            Rendition::Normal => {
                *self = Renditions::new();
            },
            Rendition::Bold => {
                self.bold = true;
            },
            Rendition::Italic => {
                self.italic = true;
            },
            Rendition::Underline => {
                self.underline = true;
            },
            Rendition::Blink => {
                self.blink = true;
            },
            Rendition::Strikeout => {
                self.strikeout = true;
            },
            Rendition::Reverse => {
                self.reverse = true;
            },
            Rendition::Invisible => {
                self.invisible = true;
            },
        }
    }

    /// Takes `rendition` out of the set if it is in, and puts it in if it is
    /// not; `Normal` changes nothing.
    pub fn toggle(&mut self, rendition: Rendition)
        ensures
            *final(self) == old(self).toggled(rendition),
    {
        match rendition {
            Rendition::Normal => {},
            Rendition::Bold => {
                self.bold = !self.bold;
            },
            Rendition::Italic => {
                self.italic = !self.italic;
            },
            Rendition::Underline => {
                self.underline = !self.underline;
            },
            Rendition::Blink => {
                self.blink = !self.blink;
            },
            Rendition::Strikeout => {
                self.strikeout = !self.strikeout;
            },
            Rendition::Reverse => {
                self.reverse = !self.reverse;
            },
            Rendition::Invisible => {
                self.invisible = !self.invisible;
            },
        }
    }
}

/// The rendition that an attribute switches on, if it switches one on.
pub open spec fn switched_on(attribute: Attribute) -> Option<Rendition> {
    match attribute {
        Attribute::Reset => Some(Rendition::Normal),
        Attribute::Bold => Some(Rendition::Bold),
        Attribute::Italic => Some(Rendition::Italic),
        Attribute::Underlined => Some(Rendition::Underline),
        Attribute::SlowBlink => Some(Rendition::Blink),
        Attribute::RapidBlink => Some(Rendition::Blink),
        Attribute::Crossed => Some(Rendition::Strikeout),
        Attribute::Reversed => Some(Rendition::Reverse),
        Attribute::Conceal => Some(Rendition::Invisible),
        _ => None,
    }
}

/// The rendition that an attribute switches off, if it switches one off.
pub open spec fn switched_off(attribute: Attribute) -> Option<Rendition> {
    match attribute {
        Attribute::BoldOff => Some(Rendition::Bold),
        Attribute::ItalicOff => Some(Rendition::Italic),
        Attribute::UnderlinedOff => Some(Rendition::Underline),
        Attribute::BlinkOff => Some(Rendition::Blink),
        Attribute::CrossedOff => Some(Rendition::Strikeout),
        Attribute::ReversedOff => Some(Rendition::Reverse),
        Attribute::ConcealOff => Some(Rendition::Invisible),
        _ => None,
    }
}

/// The rendition that `attribute` switches on, if it switches one on.
pub fn rendition_on(attribute: Attribute) -> (rendition: Option<Rendition>)
    ensures
        rendition == switched_on(attribute),
{
    match attribute {
        Attribute::Reset => Some(Rendition::Normal),
        Attribute::Bold => Some(Rendition::Bold),
        Attribute::Italic => Some(Rendition::Italic),
        Attribute::Underlined => Some(Rendition::Underline),
        Attribute::SlowBlink | Attribute::RapidBlink => Some(Rendition::Blink),
        Attribute::Crossed => Some(Rendition::Strikeout),
        Attribute::Reversed => Some(Rendition::Reverse),
        Attribute::Conceal => Some(Rendition::Invisible),
        _ => None,
    }
}

/// The rendition that `attribute` switches off, if it switches one off.
pub fn rendition_off(attribute: Attribute) -> (rendition: Option<Rendition>)
    ensures
        rendition == switched_off(attribute),
{
    match attribute {
        Attribute::BoldOff => Some(Rendition::Bold),
        Attribute::ItalicOff => Some(Rendition::Italic),
        Attribute::UnderlinedOff => Some(Rendition::Underline),
        Attribute::BlinkOff => Some(Rendition::Blink),
        Attribute::CrossedOff => Some(Rendition::Strikeout),
        Attribute::ReversedOff => Some(Rendition::Reverse),
        Attribute::ConcealOff => Some(Rendition::Invisible),
        _ => None,
    }
}

/// The colours and renditions that are currently set.
#[derive(Copy, Clone, Debug, PartialEq, Eq, Structural)]
pub struct CurrentStyle {
    pub foreground: Color,
    pub background: Color,
    pub attributes: Renditions,
}

impl CurrentStyle {
    /// The style of a terminal on which nothing has been set: its own
    /// colours, plain text.
    pub open spec fn initial() -> CurrentStyle {
        CurrentStyle {
            foreground: Color::Reset,
            background: Color::Reset,
            attributes: Renditions::normal(),
        }
    }

    pub fn new() -> (style: CurrentStyle)
        ensures
            style == CurrentStyle::initial(),
    {
        CurrentStyle {
            foreground: Color::Reset,
            background: Color::Reset,
            attributes: Renditions::new(),
        }
    }
}

} // verus!
