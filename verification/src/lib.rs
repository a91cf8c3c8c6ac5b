//! A sans-I/O core for a curses-backed terminal driver.
//!
//! The crate holds the decisions of the driver: how a requested colour is
//! quantized to the palette of the terminal, which hardware colour pair a
//! colour is bound to, how one unit of raw input becomes an [`Event`], which
//! calls on the curses library an [`Action`] stands for, and who may mutate the
//! terminal at a given moment. Performing those calls is left to the caller.

pub mod action;
pub mod backend;
pub mod enums;
pub mod error;
pub mod terminal;

pub use crate::action::{Action, Retrieved, Value};
pub use crate::enums::{
    Attribute, ClearType, Color, Event, KeyCode, KeyEvent, KeyModifiers, MouseButton, MouseEvent,
};
pub use crate::terminal::{Terminal, TerminalLock};
