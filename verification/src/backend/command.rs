//! The calls that the driver asks its caller to make.
//!
//! The driver decides and the caller performs. What is to be performed is a
//! list of commands; each stands for one call on the curses library or for
//! one write to the output stream. The caller makes the calls in their order,
//! asks [`Command::outcome`] what the code that a call returned means, and
//! stops at the first error.

use vstd::prelude::*;

use crate::backend::current_style::{Rendition, Renditions};
use crate::error::ErrorKind;

verus! {

/// The code with which the curses library reports success.
pub const OK: i32 = 0;

/// The code with which the curses library reports failure.
pub const ERR: i32 = -1;

/// The code that stands for an action that the driver cannot perform.
pub const NOT_SUPPORTED: i32 = 3;

/// A sequence of bytes that switches a mode of the terminal when it is
/// written to the output stream.
#[derive(Copy, Clone, Debug, PartialEq, Eq, Structural, Hash)]
pub enum EscapeSequence {
    /// `ESC [ ? 1 0 0 2 h`: report presses and releases of the mouse, and
    /// its movement while a button is held.
    EnableMouseCapture,
    /// `ESC [ ? 1 0 0 2 l`: report the mouse no longer.
    DisableMouseCapture,
}

impl EscapeSequence {
    /// The bytes of the sequence.
    pub open spec fn spec_bytes(self) -> Seq<u8> {
        match self {
            EscapeSequence::EnableMouseCapture => seq![
                0x1bu8,
                0x5bu8,
                0x3fu8,
                0x31u8,
                0x30u8,
                0x30u8,
                0x32u8,
                0x68u8,
            ],
            EscapeSequence::DisableMouseCapture => seq![
                0x1bu8,
                0x5bu8,
                0x3fu8,
                0x31u8,
                0x30u8,
                0x30u8,
                0x32u8,
                0x6cu8,
            ],
        }
    }

    /// The bytes of the sequence.
    pub fn bytes(&self) -> (bytes: Vec<u8>)
        ensures
            bytes@ == self.spec_bytes(),
    {
        let last: u8 = match self {
            EscapeSequence::EnableMouseCapture => 0x68,
            EscapeSequence::DisableMouseCapture => 0x6c,
        };
        let mut bytes: Vec<u8> = Vec::new();
        bytes.push(0x1b);
        bytes.push(0x5b);
        bytes.push(0x3f);
        bytes.push(0x31);
        bytes.push(0x30);
        bytes.push(0x30);
        bytes.push(0x32);
        bytes.push(last);
        assert(bytes@ =~= self.spec_bytes());
        bytes
    }
}

/// One call that the driver asks for.
#[derive(Copy, Clone, Debug, PartialEq, Eq, Structural, Hash)]
pub enum Command {
    /// Let the window report function keys as single codes, or not.
    Keypad(bool),
    /// Start the use of colours.
    StartColor,
    /// Let -1 stand for the colours that the terminal had at startup.
    UseDefaultColors,
    /// Ask for the mouse events of the mask to be reported.
    MouseMask(u32),
    /// Move the cursor of the window.
    Move { row: i32, column: i32 },
    /// Hide the cursor (0) or show it (1).
    CursorVisibility(i32),
    /// Let the cursor blink, or not.
    Blink(bool),
    /// Clear the window.
    Clear,
    /// Clear the window from the cursor to its end.
    ClearToBottom,
    /// Clear the line of the cursor from the cursor to its end.
    ClearToEndOfLine,
    /// Give the terminal another size.
    Resize { rows: i32, columns: i32 },
    /// Match the window to the size that the terminal now has.
    ResyncSize,
    /// Stop echoing what is typed.
    NoEcho,
    /// Hand keys over as they are typed, signals and all.
    Raw,
    /// Stop translating the return key.
    NoNl,
    /// Echo what is typed.
    Echo,
    /// Leave raw mode.
    NoRaw,
    /// Translate the return key.
    Nl,
    /// Write an escape sequence to the output stream and flush the stream.
    Write(EscapeSequence),
    /// Bind a colour pair that was not bound before to a foreground and a
    /// background colour.
    InitPair { index: i16, foreground: i16, background: i16 },
    /// Bind a colour pair that was bound before to another foreground and
    /// background colour. What was drawn in the pair changes colour at once.
    RebindPair { index: i16, foreground: i16, background: i16 },
    /// Draw in the colours of a pair from now on.
    PairOn(i32),
    /// Switch a rendition on.
    RenditionOn(Rendition),
    /// Switch a rendition off.
    RenditionOff(Rendition),
    /// Switch a set of renditions off.
    RenditionsOff(Renditions),
    /// Bring the terminal up to date with the window, in one redraw.
    Refresh,
    /// Leave the curses library and give the terminal back as it was.
    EndWin,
}

impl Command {
    /// Whether the code that the call returns decides if the action has
    /// failed.
    pub open spec fn spec_is_checked(self) -> bool {
        match self {
            Command::Move { .. } => true,
            Command::CursorVisibility(_) => true,
            Command::Blink(_) => true,
            Command::Clear => true,
            Command::ClearToBottom => true,
            Command::ClearToEndOfLine => true,
            Command::NoEcho => true,
            Command::Raw => true,
            Command::NoNl => true,
            Command::Echo => true,
            Command::NoRaw => true,
            Command::Nl => true,
            Command::PairOn(_) => true,
            Command::RenditionsOff(_) => true,
            _ => false,
        }
    }

    /// Whether the call changes nothing but what the window will show at the
    /// next redraw.
    pub open spec fn spec_is_staged(self) -> bool {
        match self {
            Command::Move { .. } => true,
            Command::Clear => true,
            Command::ClearToBottom => true,
            Command::ClearToEndOfLine => true,
            Command::InitPair { .. } => true,
            Command::PairOn(_) => true,
            Command::RenditionOn(_) => true,
            Command::RenditionOff(_) => true,
            Command::RenditionsOff(_) => true,
            _ => false,
        }
    }

    /// Whether the call switches a mode of the terminal, at once.
    pub open spec fn spec_is_mode_switch(self) -> bool {
        match self {
            Command::NoEcho => true,
            Command::Raw => true,
            Command::NoNl => true,
            Command::Echo => true,
            Command::NoRaw => true,
            Command::Nl => true,
            Command::Write(_) => true,
            _ => false,
        }
    }

    /// Whether the code that the call returns decides if the action has
    /// failed.
    pub fn is_checked(&self) -> (checked: bool)
        ensures
            checked == self.spec_is_checked(),
    {
        match self {
            Command::Move { .. }
            | Command::CursorVisibility(_)
            | Command::Blink(_)
            | Command::Clear
            | Command::ClearToBottom
            | Command::ClearToEndOfLine
            | Command::NoEcho
            | Command::Raw
            | Command::NoNl
            | Command::Echo
            | Command::NoRaw
            | Command::Nl
            | Command::PairOn(_)
            | Command::RenditionsOff(_) => true,
            _ => false,
        }
    }

    /// Whether the call changes nothing but what the window will show at the
    /// next redraw.
    pub fn is_staged(&self) -> (staged: bool)
        ensures
            staged == self.spec_is_staged(),
    {
        match self {
            Command::Move { .. }
            | Command::Clear
            | Command::ClearToBottom
            | Command::ClearToEndOfLine
            | Command::InitPair { .. }
            | Command::PairOn(_)
            | Command::RenditionOn(_)
            | Command::RenditionOff(_)
            | Command::RenditionsOff(_) => true,
            _ => false,
        }
    }

    /// Whether the call switches a mode of the terminal, at once.
    pub fn is_mode_switch(&self) -> (switch: bool)
        ensures
            switch == self.spec_is_mode_switch(),
    {
        match self {
            Command::NoEcho
            | Command::Raw
            | Command::NoNl
            | Command::Echo
            | Command::NoRaw
            | Command::Nl
            | Command::Write(_) => true,
            _ => false,
        }
    }

    /// What the code that the call returned means for the action: an error
    /// if the code is checked and reports one, success otherwise.
    pub fn outcome(&self, code: i32) -> (outcome: Result<(), ErrorKind>)
        ensures
            self.spec_is_checked() ==> is_check_of(code, outcome),
            !self.spec_is_checked() ==> outcome is Ok,
    {
        if self.is_checked() {
            check(code)
        } else {
            Ok(())
        }
    }
}

/// Whether `outcome` is what the check of `code` gives: an I/O error for the
/// code of failure, the refusal of the action for the code that stands for
/// an action that is not supported, and success for every other code.
pub open spec fn is_check_of(code: i32, outcome: Result<(), ErrorKind>) -> bool {
    if code == ERR {
        outcome matches Err(ErrorKind::IoError(_))
    } else if code == NOT_SUPPORTED {
        outcome matches Err(ErrorKind::ActionNotSupported(message)) && message@
            == NOT_SUPPORTED_MESSAGE@
    } else {
        outcome is Ok
    }
}

/// What the error for a call that failed says.
pub const FAILED_MESSAGE: &'static str = "Some error occurred while executing the action";

/// What the error for an action that is not supported says.
pub const NOT_SUPPORTED_MESSAGE: &'static str =
    "The action is not supported by pancurses. Either work around it or use an other backend.";

/// `std::io::Error::new` with the kind `Other`: a new error that says
/// `message`. Nothing is claimed of the error here: it is handed on as it
/// is.
#[verifier::external_body]
fn other_io_error(message: &str) -> (error: std::io::Error) {
    std::io::Error::new(std::io::ErrorKind::Other, message)
}

/// Checks the code that a call on the curses library has returned.
///
/// The code of failure gives an I/O error, the code that stands for an
/// action that is not supported gives the refusal of the action, and every
/// other code is success.
pub fn check(code: i32) -> (outcome: Result<(), ErrorKind>)
    ensures
        is_check_of(code, outcome),
{
    if code == ERR {
        Err(ErrorKind::IoError(other_io_error(FAILED_MESSAGE)))
    } else if code == NOT_SUPPORTED {
        Err(ErrorKind::ActionNotSupported(String::from_str(NOT_SUPPORTED_MESSAGE)))
    } else {
        Ok(())
    }
}

} // verus!
