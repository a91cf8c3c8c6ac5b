use vstd::prelude::*;
use vstd::std_specs::convert::FromSpecImpl;
use vstd::std_specs::ops::BitOrSpecImpl;

verus! {

/// The set of modifier keys held during a key press or a mouse event.
///
/// The empty set is a value like any other: it says that no modifier was held.
#[derive(Copy, Clone, Debug, PartialEq, Eq, Structural, PartialOrd, Hash)]
pub struct KeyModifiers {
    /// Whether the shift key is in the set.
    pub shift: bool,
    /// Whether the control key is in the set.
    pub control: bool,
    /// Whether the alt key is in the set.
    pub alt: bool,
}

impl KeyModifiers {
    /// The union of two sets.
    pub open spec fn spec_union(self, other: KeyModifiers) -> KeyModifiers {
        KeyModifiers {
            shift: self.shift || other.shift,
            control: self.control || other.control,
            alt: self.alt || other.alt,
        }
    }

    /// Whether every key of `other` is in `self`.
    pub open spec fn spec_contains(self, other: KeyModifiers) -> bool {
        &&& other.shift ==> self.shift
        &&& other.control ==> self.control
        &&& other.alt ==> self.alt
    }

    /// The set written as bits: 1 for shift, 2 for control, 4 for alt.
    pub open spec fn spec_bits(self) -> int {
        (if self.shift {
            1int
        } else {
            0int
        }) + (if self.control {
            2int
        } else {
            0int
        }) + (if self.alt {
            4int
        } else {
            0int
        })
    }

    /// The set without any key.
    pub fn empty() -> (modifiers: KeyModifiers)
        ensures
            modifiers == (KeyModifiers { shift: false, control: false, alt: false }),
    {
        KeyModifiers { shift: false, control: false, alt: false }
    }

    /// The set of the shift key alone.
    pub fn shift() -> (modifiers: KeyModifiers)
        ensures
            modifiers == (KeyModifiers { shift: true, control: false, alt: false }),
    {
        KeyModifiers { shift: true, control: false, alt: false }
    }

    /// The set of the control key alone.
    pub fn control() -> (modifiers: KeyModifiers)
        ensures
            modifiers == (KeyModifiers { shift: false, control: true, alt: false }),
    {
        KeyModifiers { shift: false, control: true, alt: false }
    }

    /// The set of the alt key alone.
    pub fn alt() -> (modifiers: KeyModifiers)
        ensures
            modifiers == (KeyModifiers { shift: false, control: false, alt: true }),
    {
        KeyModifiers { shift: false, control: false, alt: true }
    }

    /// The set of all three keys.
    pub fn all() -> (modifiers: KeyModifiers)
        ensures
            modifiers == (KeyModifiers { shift: true, control: true, alt: true }),
    {
        KeyModifiers { shift: true, control: true, alt: true }
    }

    /// Whether no key is in the set.
    pub fn is_empty(&self) -> (empty: bool)
        ensures
            empty == (!self.shift && !self.control && !self.alt),
    {
        !self.shift && !self.control && !self.alt
    }

    /// Whether every key of `other` is in the set.
    pub fn contains(&self, other: KeyModifiers) -> (contained: bool)
        ensures
            contained == self.spec_contains(other),
    {
        (!other.shift || self.shift) && (!other.control || self.control) && (!other.alt
            || self.alt)
    }

    /// The keys that are in either set.
    pub fn union(self, other: KeyModifiers) -> (modifiers: KeyModifiers)
        ensures
            modifiers == self.spec_union(other),
    {
        KeyModifiers {
            shift: self.shift || other.shift,
            control: self.control || other.control,
            alt: self.alt || other.alt,
        }
    }

    /// Adds the keys of `other` to the set.
    pub fn insert(&mut self, other: KeyModifiers)
        ensures
            *final(self) == old(self).spec_union(other),
    {
        self.shift = self.shift || other.shift;
        self.control = self.control || other.control;
        self.alt = self.alt || other.alt;
    }

    /// The set as bits: 1 for shift, 2 for control, 4 for alt.
    pub fn bits(&self) -> (bits: u8)
        ensures
            bits == self.spec_bits(),
    {
        let shift: u8 = if self.shift {
            1
        } else {
            0
        };
        let control: u8 = if self.control {
            2
        } else {
            0
        };
        let alt: u8 = if self.alt {
            4
        } else {
            0
        };
        shift + control + alt
    }
}

impl core::ops::BitOr for KeyModifiers {
    type Output = KeyModifiers;

    fn bitor(self, rhs: KeyModifiers) -> (modifiers: KeyModifiers) {
        self.union(rhs)
    }
}

impl BitOrSpecImpl for KeyModifiers {
    open spec fn obeys_bitor_spec() -> bool {
        true
    }

    open spec fn bitor_req(self, rhs: KeyModifiers) -> bool {
        true
    }

    open spec fn bitor_spec(self, rhs: KeyModifiers) -> KeyModifiers {
        self.spec_union(rhs)
    }
}

/// A mouse button.
#[derive(Copy, Clone, Debug, PartialEq, Eq, Structural, PartialOrd, Hash)]
pub enum MouseButton {
    /// Left mouse button.
    Left,
    /// Right mouse button.
    Right,
    /// Middle mouse button.
    Middle,
    /// The driver could not tell which button it was.
    Unknown,
}

/// A mouse event, with the pointer's column and row and the modifier keys
/// held.
#[derive(Copy, Clone, Debug, PartialEq, Eq, Structural, PartialOrd, Hash)]
pub enum MouseEvent {
    /// Pressed mouse button.
    Down(MouseButton, u16, u16, KeyModifiers),
    /// Released mouse button.
    Up(MouseButton, u16, u16, KeyModifiers),
    /// Moved mouse pointer while pressing a mouse button.
    Drag(MouseButton, u16, u16, KeyModifiers),
    /// Scrolled mouse wheel downwards (towards the user).
    ScrollDown(u16, u16, KeyModifiers),
    /// Scrolled mouse wheel upwards (away from the user).
    ScrollUp(u16, u16, KeyModifiers),
}

impl MouseEvent {
    /// The button of the event, where it has one.
    pub open spec fn spec_button(self) -> Option<MouseButton> {
        match self {
            MouseEvent::Down(button, _, _, _) => Some(button),
            MouseEvent::Up(button, _, _, _) => Some(button),
            MouseEvent::Drag(button, _, _, _) => Some(button),
            _ => None,
        }
    }

    /// The button of the event; a turn of the wheel has none.
    pub fn button(&self) -> (button: Option<MouseButton>)
        ensures
            button == self.spec_button(),
    {
        match self {
            MouseEvent::Down(button, _, _, _) => Some(*button),
            MouseEvent::Up(button, _, _, _) => Some(*button),
            MouseEvent::Drag(button, _, _, _) => Some(*button),
            _ => None,
        }
    }
}

/// A key.
#[derive(Copy, Clone, Debug, PartialEq, Eq, Structural, PartialOrd, Hash)]
pub enum KeyCode {
    /// Backspace key.
    Backspace,
    /// Enter key.
    Enter,
    /// Left arrow key.
    Left,
    /// Right arrow key.
    Right,
    /// Up arrow key.
    Up,
    /// Down arrow key.
    Down,
    /// Home key.
    Home,
    /// End key.
    End,
    /// Page up key.
    PageUp,
    /// Page down key.
    PageDown,
    /// Tab key.
    Tab,
    /// Shift + Tab key.
    BackTab,
    /// Delete key.
    Delete,
    /// Insert key.
    Insert,
    /// A function key: `F(1)` is F1.
    F(u8),
    /// A character.
    Char(char),
    /// Null.
    Null,
    /// Escape key.
    Esc,
}

/// A key press: the key and the modifier keys held with it.
#[derive(Copy, Clone, Debug, PartialEq, Eq, Structural, PartialOrd, Hash)]
pub struct KeyEvent {
    /// The key itself.
    pub code: KeyCode,
    /// Additional key modifiers.
    pub modifiers: KeyModifiers,
}

impl KeyEvent {
    pub fn new(code: KeyCode, modifiers: KeyModifiers) -> (event: KeyEvent)
        ensures
            event == (KeyEvent { code, modifiers }),
    {
        KeyEvent { code, modifiers }
    }

    /// The press of a key with no modifier held.
    pub open spec fn plain(code: KeyCode) -> KeyEvent {
        KeyEvent { code, modifiers: KeyModifiers { shift: false, control: false, alt: false } }
    }
}

impl From<KeyCode> for KeyEvent {
    fn from(code: KeyCode) -> (event: KeyEvent) {
        KeyEvent { code, modifiers: KeyModifiers::empty() }
    }
}

impl FromSpecImpl<KeyCode> for KeyEvent {
    open spec fn obeys_from_spec() -> bool {
        true
    }

    open spec fn from_spec(code: KeyCode) -> KeyEvent {
        KeyEvent::plain(code)
    }
}

/// What the terminal reports: a key, the mouse, a change of its size.
#[derive(Copy, Clone, Debug, PartialEq, Eq, Structural, PartialOrd, Hash)]
pub enum Event {
    /// A single key event with additional pressed modifiers.
    Key(KeyEvent),
    /// A single mouse event with additional pressed modifiers.
    Mouse(MouseEvent),
    /// The terminal was resized.
    Resize,
    /// The input was not one that the driver maps.
    Unknown,
}

} // verus!
