//! The value model: colours, text attributes, clearing modes and events.

pub mod event;
pub mod style;
pub mod terminal;

pub use self::event::{Event, KeyCode, KeyEvent, KeyModifiers, MouseButton, MouseEvent};
pub use self::style::{Attribute, Color};
pub use self::terminal::ClearType;
