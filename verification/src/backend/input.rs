//! One unit of raw input, as the curses library hands it over.

use vstd::prelude::*;

use crate::enums::{Event, MouseButton};

verus! {

/// What the curses library knows of the mouse when it reports a mouse event.
#[derive(Copy, Clone, Debug, PartialEq, Eq, Structural, Hash)]
pub struct MouseState {
    /// The buttons and modifier keys of the report, one bit each.
    pub bstate: u32,
    /// The column of the pointer.
    pub x: i32,
    /// The row of the pointer.
    pub y: i32,
}

/// One unit of raw input: a character, or a key that the curses library has
/// recognized and named, or a code that it has not.
#[derive(Copy, Clone, Debug, PartialEq, Eq, Structural, Hash)]
pub enum Input {
    /// A character.
    Character(char),
    /// A code that the curses library has no name for.
    Unknown(i32),
    KeyCodeYes,
    KeyBreak,
    KeyDown,
    KeyUp,
    KeyLeft,
    KeyRight,
    KeyHome,
    KeyBackspace,
    KeyF0,
    KeyF1,
    KeyF2,
    KeyF3,
    KeyF4,
    KeyF5,
    KeyF6,
    KeyF7,
    KeyF8,
    KeyF9,
    KeyF10,
    KeyF11,
    KeyF12,
    KeyF13,
    KeyF14,
    KeyF15,
    KeyDL,
    KeyIL,
    KeyDC,
    KeyIC,
    KeyEIC,
    KeyClear,
    KeyEOS,
    KeyEOL,
    KeySF,
    KeySR,
    KeyNPage,
    KeyPPage,
    KeySTab,
    KeyCTab,
    KeyCATab,
    KeyEnter,
    KeySReset,
    KeyReset,
    KeyPrint,
    KeyLL,
    KeyAbort,
    KeySHelp,
    KeyLHelp,
    KeyBTab,
    KeyBeg,
    KeyCancel,
    KeyClose,
    KeyCommand,
    KeyCopy,
    KeyCreate,
    KeyEnd,
    KeyExit,
    KeyFind,
    KeyHelp,
    KeyMark,
    KeyMessage,
    KeyMove,
    KeyNext,
    KeyOpen,
    KeyOptions,
    KeyPrevious,
    KeyRedo,
    KeyReference,
    KeyRefresh,
    KeyReplace,
    KeyRestart,
    KeyResume,
    KeySave,
    KeySBeg,
    KeySCancel,
    KeySCommand,
    KeySCopy,
    KeySCreate,
    KeySDC,
    KeySDL,
    KeySelect,
    KeySEnd,
    KeySEOL,
    KeySExit,
    KeySFind,
    KeySHome,
    KeySIC,
    KeySLeft,
    KeySMessage,
    KeySMove,
    KeySNext,
    KeySOptions,
    KeySPrevious,
    KeySPrint,
    KeySRedo,
    KeySReplace,
    KeySRight,
    KeySResume,
    KeySSave,
    KeySSuspend,
    KeySUndo,
    KeySuspend,
    KeyUndo,
    KeyResize,
    KeyEvent,
    /// The mouse has something to report. With it comes what the curses
    /// library then knows of the mouse, or nothing if it would not say.
    KeyMouse(Option<MouseState>),
    KeyA1,
    KeyA3,
    KeyB2,
    KeyC1,
    KeyC3,
}

/// What the decoder remembers from one unit of input to the next.
#[derive(Copy, Clone, Debug, PartialEq, Eq, Structural)]
pub struct InputCache {
    /// The button of the last press or release. A report of a drag does not
    /// say which button is held, so it is taken from here.
    pub last_mouse_button: Option<MouseButton>,
    /// An event that was decoded together with the one last handed out and
    /// waits to be handed out next.
    pub stored_event: Option<Event>,
}

impl InputCache {
    /// A cache that remembers nothing.
    pub fn new() -> (cache: InputCache)
        ensures
            cache == (InputCache { last_mouse_button: None, stored_event: None }),
    {
        InputCache { last_mouse_button: None, stored_event: None }
    }
}

} // verus!
