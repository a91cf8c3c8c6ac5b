//! What can be asked of the terminal: actions to perform, values to retrieve.

use std::time::Duration;
use vstd::prelude::*;

use crate::enums::{Attribute, ClearType, Color, Event};

verus! {

/// A value that can be retrieved from the terminal.
#[derive(Copy, Clone, Debug, PartialEq, Eq)]
pub enum Value {
    /// Get the terminal size.
    TerminalSize,
    /// Get the cursor position.
    CursorPosition,
    /// Try to get an event within the given duration; wait for one without
    /// limit when there is none.
    Event(Option<Duration>),
}

/// What a request for a [`Value`] has retrieved.
#[derive(Copy, Clone, Debug, PartialEq, Eq, Structural)]
pub enum Retrieved {
    /// The terminal size, as its number of columns and of rows.
    TerminalSize(u16, u16),
    /// The cursor position, as its column and row. The top left cell is 0, 0.
    CursorPosition(u16, u16),
    /// An event, or none if the time ran out.
    Event(Option<Event>),
}

/// An action that can be performed on the terminal.
#[derive(Copy, Clone, Debug, PartialEq, Eq, Structural, Ord, PartialOrd, Hash)]
pub enum Action {
    /// Moves the terminal cursor to the given position (column, row).
    MoveCursorTo(u16, u16),
    /// Hides the terminal cursor.
    HideCursor,
    /// Shows the terminal cursor.
    ShowCursor,
    /// Enables blinking of the terminal cursor.
    EnableBlinking,
    /// Disables blinking of the terminal cursor.
    DisableBlinking,
    /// Clears the terminal screen buffer.
    ClearTerminal(ClearType),
    /// Sets the terminal size (columns, rows).
    SetTerminalSize(u16, u16),
    /// Scrolls the terminal screen a given number of rows up.
    ScrollUp(u16),
    /// Scrolls the terminal screen a given number of rows down.
    ScrollDown(u16),
    /// Enables raw mode.
    EnableRawMode,
    /// Disables raw mode.
    DisableRawMode,
    /// Switches to alternate screen.
    EnterAlternateScreen,
    /// Switches back to the main screen.
    LeaveAlternateScreen,
    /// Enables mouse event capturing.
    EnableMouseCapture,
    /// Disables mouse event capturing.
    DisableMouseCapture,
    /// Sets the foreground color.
    SetForegroundColor(Color),
    /// Sets the background color.
    SetBackgroundColor(Color),
    /// Sets an attribute.
    SetAttribute(Attribute),
    /// Resets the colors back to default.
    ResetColor,
}

impl Action {
    /// The name of the action, without what it carries.
    pub open spec fn spec_name(self) -> Seq<char> {
        match self {
            Action::MoveCursorTo(_, _) => "MoveCursorTo"@,
            Action::HideCursor => "HideCursor"@,
            Action::ShowCursor => "ShowCursor"@,
            Action::EnableBlinking => "EnableBlinking"@,
            Action::DisableBlinking => "DisableBlinking"@,
            Action::ClearTerminal(_) => "ClearTerminal"@,
            Action::SetTerminalSize(_, _) => "SetTerminalSize"@,
            Action::ScrollUp(_) => "ScrollUp"@,
            Action::ScrollDown(_) => "ScrollDown"@,
            Action::EnableRawMode => "EnableRawMode"@,
            Action::DisableRawMode => "DisableRawMode"@,
            Action::EnterAlternateScreen => "EnterAlternateScreen"@,
            Action::LeaveAlternateScreen => "LeaveAlternateScreen"@,
            Action::EnableMouseCapture => "EnableMouseCapture"@,
            Action::DisableMouseCapture => "DisableMouseCapture"@,
            Action::SetForegroundColor(_) => "SetForegroundColor"@,
            Action::SetBackgroundColor(_) => "SetBackgroundColor"@,
            Action::SetAttribute(_) => "SetAttribute"@,
            Action::ResetColor => "ResetColor"@,
        }
    }

    /// The name of the action, without what it carries.
    pub fn name(&self) -> (name: String)
        ensures
            name@ == self.spec_name(),
    {
        String::from_str(
            match self {
                Action::MoveCursorTo(_, _) => "MoveCursorTo",
                Action::HideCursor => "HideCursor",
                Action::ShowCursor => "ShowCursor",
                Action::EnableBlinking => "EnableBlinking",
                Action::DisableBlinking => "DisableBlinking",
                Action::ClearTerminal(_) => "ClearTerminal",
                Action::SetTerminalSize(_, _) => "SetTerminalSize",
                Action::ScrollUp(_) => "ScrollUp",
                Action::ScrollDown(_) => "ScrollDown",
                Action::EnableRawMode => "EnableRawMode",
                Action::DisableRawMode => "DisableRawMode",
                Action::EnterAlternateScreen => "EnterAlternateScreen",
                Action::LeaveAlternateScreen => "LeaveAlternateScreen",
                Action::EnableMouseCapture => "EnableMouseCapture",
                Action::DisableMouseCapture => "DisableMouseCapture",
                Action::SetForegroundColor(_) => "SetForegroundColor",
                Action::SetBackgroundColor(_) => "SetBackgroundColor",
                Action::SetAttribute(_) => "SetAttribute",
                Action::ResetColor => "ResetColor",
            },
        )
    }
}

} // verus!
