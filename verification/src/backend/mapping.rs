//! Decoding one unit of raw input to an event.
//!
//! The stages are tried in their order and the first that knows the input
//! decides: keys without a modifier, keys with shift, with control, with
//! control and alt, and last what is no key at all. Input that no stage knows
//! is an event of its own, `Unknown`, never an error.

use vstd::prelude::*;

use crate::backend::command::Command;
use crate::backend::implementation::{BackendImpl, BackendState};
use crate::backend::input::{Input, InputCache, MouseState};
use crate::backend::mouse::{cache_after_mouse, map_mouse_event, mouse_event};
use crate::enums::{Event, KeyCode, KeyEvent, KeyModifiers};

verus! {

broadcast use vstd::std_specs::hash::group_hash_axioms;

/// How far the code of an input that the curses library has no name for
/// lies below the key code that the terminal reported.
pub const UNKNOWN_CODE_OFFSET: i32 = 304;

/// The press of a key with the control key held.
pub open spec fn with_control(code: KeyCode) -> KeyEvent {
    KeyEvent { code, modifiers: KeyModifiers { shift: false, control: true, alt: false } }
}

/// The key press that a character stands for.
///
/// Return and line feed are the enter key, the tabulator is the tab key,
/// delete and backspace are the backspace key, escape is the escape key. A
/// control character from 1 to 26 is the letter of that number in the
/// alphabet with control held, one from 28 to 31 is the digit from 4 to 7
/// with control held, and the character 0 is the grave accent with control
/// held. Every other character is itself.
pub open spec fn character_key(c: char) -> KeyEvent {
    if c == '\r' || c == '\n' {
        KeyEvent::plain(KeyCode::Enter)
    } else if c == '\t' {
        KeyEvent::plain(KeyCode::Tab)
    } else if c == '\x7F' || c == '\u{8}' {
        KeyEvent::plain(KeyCode::Backspace)
    } else if 0x01 <= c as u32 <= 0x1A {
        with_control(KeyCode::Char((c as u32 - 0x01 + 0x61) as char))
    } else if 0x1C <= c as u32 <= 0x1F {
        with_control(KeyCode::Char((c as u32 - 0x1C + 0x34) as char))
    } else if c as u32 == 0 {
        with_control(KeyCode::Char('`'))
    } else if c == '\u{1b}' {
        KeyEvent::plain(KeyCode::Esc)
    } else {
        KeyEvent::plain(KeyCode::Char(c))
    }
}

/// The key press without a modifier that an input stands for, if it stands
/// for one.
pub open spec fn parsed_key(input: Input) -> Option<KeyEvent> {
    match input {
        Input::Character(c) => Some(character_key(c)),
        Input::KeyDown => Some(KeyEvent::plain(KeyCode::Down)),
        Input::KeyUp => Some(KeyEvent::plain(KeyCode::Up)),
        Input::KeyLeft => Some(KeyEvent::plain(KeyCode::Left)),
        Input::KeyRight => Some(KeyEvent::plain(KeyCode::Right)),
        Input::KeyHome => Some(KeyEvent::plain(KeyCode::Home)),
        Input::KeyBackspace => Some(KeyEvent::plain(KeyCode::Backspace)),
        Input::KeyF0 => Some(KeyEvent::plain(KeyCode::F(0))),
        Input::KeyF1 => Some(KeyEvent::plain(KeyCode::F(1))),
        Input::KeyF2 => Some(KeyEvent::plain(KeyCode::F(2))),
        Input::KeyF3 => Some(KeyEvent::plain(KeyCode::F(3))),
        Input::KeyF4 => Some(KeyEvent::plain(KeyCode::F(4))),
        Input::KeyF5 => Some(KeyEvent::plain(KeyCode::F(5))),
        Input::KeyF6 => Some(KeyEvent::plain(KeyCode::F(6))),
        Input::KeyF7 => Some(KeyEvent::plain(KeyCode::F(7))),
        Input::KeyF8 => Some(KeyEvent::plain(KeyCode::F(8))),
        Input::KeyF9 => Some(KeyEvent::plain(KeyCode::F(9))),
        Input::KeyF10 => Some(KeyEvent::plain(KeyCode::F(10))),
        Input::KeyF11 => Some(KeyEvent::plain(KeyCode::F(11))),
        Input::KeyF12 => Some(KeyEvent::plain(KeyCode::F(12))),
        Input::KeyF13 => Some(KeyEvent::plain(KeyCode::F(13))),
        Input::KeyF14 => Some(KeyEvent::plain(KeyCode::F(14))),
        Input::KeyF15 => Some(KeyEvent::plain(KeyCode::F(15))),
        Input::KeyDL => Some(KeyEvent::plain(KeyCode::Delete)),
        Input::KeyIC => Some(KeyEvent::plain(KeyCode::Insert)),
        Input::KeyNPage => Some(KeyEvent::plain(KeyCode::PageDown)),
        Input::KeyPPage => Some(KeyEvent::plain(KeyCode::PageUp)),
        Input::KeyEnter => Some(KeyEvent::plain(KeyCode::Enter)),
        Input::KeyEnd => Some(KeyEvent::plain(KeyCode::End)),
        _ => None,
    }
}

/// The key that an input stands for with the shift key held, if it stands
/// for one.
pub open spec fn shifted_key(input: Input) -> Option<KeyCode> {
    match input {
        Input::KeySF => Some(KeyCode::Down),
        Input::KeySR => Some(KeyCode::Up),
        Input::KeySTab => Some(KeyCode::Tab),
        Input::KeySDC => Some(KeyCode::Delete),
        Input::KeySEnd => Some(KeyCode::End),
        Input::KeySHome => Some(KeyCode::Home),
        Input::KeySIC => Some(KeyCode::Insert),
        Input::KeySLeft => Some(KeyCode::Left),
        Input::KeySNext => Some(KeyCode::PageDown),
        Input::KeySPrevious => Some(KeyCode::PageUp),
        Input::KeySPrint => Some(KeyCode::End),
        Input::KeySRight => Some(KeyCode::Right),
        Input::KeyBTab => Some(KeyCode::BackTab),
        _ => None,
    }
}

/// The key press with shift held that an input stands for, if it stands for
/// one.
pub open spec fn shift_key(input: Input) -> Option<KeyEvent> {
    match shifted_key(input) {
        Some(code) => Some(
            KeyEvent { code, modifiers: KeyModifiers { shift: true, control: false, alt: false } },
        ),
        None => None,
    }
}

/// The key press with control held that an input stands for, if it stands
/// for one.
pub open spec fn ctrl_key(input: Input) -> Option<KeyEvent> {
    match input {
        Input::KeyCTab => Some(with_control(KeyCode::Tab)),
        _ => None,
    }
}

/// The key press with control and alt held that an input stands for, if it
/// stands for one.
pub open spec fn ctrl_alt_key(input: Input) -> Option<KeyEvent> {
    match input {
        Input::KeyCATab => Some(
            KeyEvent {
                code: KeyCode::Tab,
                modifiers: KeyModifiers { shift: false, control: true, alt: true },
            },
        ),
        _ => None,
    }
}

/// The key press that an input stands for: what the first of the four
/// stages for keys that knows the input makes of it.
pub open spec fn key_event(input: Input) -> Option<KeyEvent> {
    if parsed_key(input) is Some {
        parsed_key(input)
    } else if shift_key(input) is Some {
        shift_key(input)
    } else if ctrl_key(input) is Some {
        ctrl_key(input)
    } else {
        ctrl_alt_key(input)
    }
}

/// The event of a code that the curses library has no name for: what the
/// terminal's own names give for it, and `Unknown` where they give nothing.
pub open spec fn unnamed_event(key_codes: Map<i32, Event>, code: i32) -> Event {
    if code + UNKNOWN_CODE_OFFSET <= i32::MAX && key_codes.contains_key(
        (code + UNKNOWN_CODE_OFFSET) as i32,
    ) {
        key_codes[(code + UNKNOWN_CODE_OFFSET) as i32]
    } else {
        Event::Unknown
    }
}

/// The event that an input which is no key stands for, if it stands for one:
/// a resize, what the mouse reports, or what the terminal's own names give
/// for a code.
pub open spec fn non_key_event(state: BackendState, input: Input) -> Option<Event> {
    match input {
        Input::KeyResize => Some(Event::Resize),
        Input::KeyMouse(mouse) => Some(mouse_event(state.input_cache, mouse)),
        Input::Unknown(code) => Some(unnamed_event(state.key_codes, code)),
        _ => None,
    }
}

/// The call that is to follow the decoding of an input, if one is: when the
/// terminal has been resized, the window is matched to its new size.
pub open spec fn resync_for(input: Input) -> Option<Command> {
    match input {
        Input::KeyResize => Some(Command::ResyncSize),
        _ => None,
    }
}

/// The event that an input which is no key stands for, with the call that is
/// to follow, if the input stands for such an event.
pub open spec fn non_key_decoded(state: BackendState, input: Input) -> Option<
    (Event, Option<Command>),
> {
    match non_key_event(state, input) {
        Some(event) => Some((event, resync_for(input))),
        None => None,
    }
}

/// The event that one unit of input is decoded to.
pub open spec fn decoded(state: BackendState, input: Input) -> Event {
    match key_event(input) {
        Some(key) => Event::Key(key),
        None => match non_key_event(state, input) {
            Some(event) => event,
            None => Event::Unknown,
        },
    }
}

/// What the decoder remembers after one unit of input: only a report of the
/// mouse changes it.
pub open spec fn cache_after(cache: InputCache, input: Input) -> InputCache {
    match input {
        Input::KeyMouse(mouse) => cache_after_mouse(cache, mouse),
        _ => cache,
    }
}

/// What the driver holds after one unit of input.
pub open spec fn state_after_input(state: BackendState, input: Input) -> BackendState {
    BackendState { input_cache: cache_after(state.input_cache, input), ..state }
}

/// The key press that the character `c` stands for.
fn character(c: char) -> (key: KeyEvent)
    ensures
        key == character_key(c),
{
    let code: u32 = c as u32;
    if c == '\r' || c == '\n' {
        KeyEvent::new(KeyCode::Enter, KeyModifiers::empty())
    } else if c == '\t' {
        KeyEvent::new(KeyCode::Tab, KeyModifiers::empty())
    } else if c == '\x7F' || c == '\u{8}' {
        KeyEvent::new(KeyCode::Backspace, KeyModifiers::empty())
    } else if 0x01 <= code && code <= 0x1A {
        let letter: u8 = (code - 0x01 + 0x61) as u8;
        KeyEvent::new(KeyCode::Char(letter as char), KeyModifiers::control())
    } else if 0x1C <= code && code <= 0x1F {
        let digit: u8 = (code - 0x1C + 0x34) as u8;
        KeyEvent::new(KeyCode::Char(digit as char), KeyModifiers::control())
    } else if code == 0 {
        KeyEvent::new(KeyCode::Char('`'), KeyModifiers::control())
    } else if c == '\u{1b}' {
        KeyEvent::new(KeyCode::Esc, KeyModifiers::empty())
    } else {
        KeyEvent::new(KeyCode::Char(c), KeyModifiers::empty())
    }
}

impl BackendImpl {
    /// Matches on keys without modifiers; gives none if the input is not
    /// such a key.
    pub fn try_parse_key(&self, input: &Input) -> (key: Option<KeyEvent>)
        ensures
            key == parsed_key(*input),
    {
        match input {
            Input::Character(c) => Some(character(*c)),
            Input::KeyDown => Some(KeyEvent::new(KeyCode::Down, KeyModifiers::empty())),
            Input::KeyUp => Some(KeyEvent::new(KeyCode::Up, KeyModifiers::empty())),
            Input::KeyLeft => Some(KeyEvent::new(KeyCode::Left, KeyModifiers::empty())),
            Input::KeyRight => Some(KeyEvent::new(KeyCode::Right, KeyModifiers::empty())),
            Input::KeyHome => Some(KeyEvent::new(KeyCode::Home, KeyModifiers::empty())),
            Input::KeyBackspace => Some(KeyEvent::new(KeyCode::Backspace, KeyModifiers::empty())),
            Input::KeyF0 => Some(KeyEvent::new(KeyCode::F(0), KeyModifiers::empty())),
            Input::KeyF1 => Some(KeyEvent::new(KeyCode::F(1), KeyModifiers::empty())),
            Input::KeyF2 => Some(KeyEvent::new(KeyCode::F(2), KeyModifiers::empty())),
            Input::KeyF3 => Some(KeyEvent::new(KeyCode::F(3), KeyModifiers::empty())),
            Input::KeyF4 => Some(KeyEvent::new(KeyCode::F(4), KeyModifiers::empty())),
            Input::KeyF5 => Some(KeyEvent::new(KeyCode::F(5), KeyModifiers::empty())),
            Input::KeyF6 => Some(KeyEvent::new(KeyCode::F(6), KeyModifiers::empty())),
            Input::KeyF7 => Some(KeyEvent::new(KeyCode::F(7), KeyModifiers::empty())),
            Input::KeyF8 => Some(KeyEvent::new(KeyCode::F(8), KeyModifiers::empty())),
            Input::KeyF9 => Some(KeyEvent::new(KeyCode::F(9), KeyModifiers::empty())),
            Input::KeyF10 => Some(KeyEvent::new(KeyCode::F(10), KeyModifiers::empty())),
            Input::KeyF11 => Some(KeyEvent::new(KeyCode::F(11), KeyModifiers::empty())),
            Input::KeyF12 => Some(KeyEvent::new(KeyCode::F(12), KeyModifiers::empty())),
            Input::KeyF13 => Some(KeyEvent::new(KeyCode::F(13), KeyModifiers::empty())),
            Input::KeyF14 => Some(KeyEvent::new(KeyCode::F(14), KeyModifiers::empty())),
            Input::KeyF15 => Some(KeyEvent::new(KeyCode::F(15), KeyModifiers::empty())),
            Input::KeyDL => Some(KeyEvent::new(KeyCode::Delete, KeyModifiers::empty())),
            Input::KeyIC => Some(KeyEvent::new(KeyCode::Insert, KeyModifiers::empty())),
            Input::KeyNPage => Some(KeyEvent::new(KeyCode::PageDown, KeyModifiers::empty())),
            Input::KeyPPage => Some(KeyEvent::new(KeyCode::PageUp, KeyModifiers::empty())),
            Input::KeyEnter => Some(KeyEvent::new(KeyCode::Enter, KeyModifiers::empty())),
            Input::KeyEnd => Some(KeyEvent::new(KeyCode::End, KeyModifiers::empty())),
            _ => None,
        }
    }

    /// Matches on keys with the shift key held; gives none if the input is
    /// not such a key.
    pub fn try_map_shift_key(&self, input: &Input) -> (key: Option<KeyEvent>)
        ensures
            key == shift_key(*input),
    {
        let code = match input {
            Input::KeySF => Some(KeyCode::Down),
            Input::KeySR => Some(KeyCode::Up),
            Input::KeySTab => Some(KeyCode::Tab),
            Input::KeySDC => Some(KeyCode::Delete),
            Input::KeySEnd => Some(KeyCode::End),
            Input::KeySHome => Some(KeyCode::Home),
            Input::KeySIC => Some(KeyCode::Insert),
            Input::KeySLeft => Some(KeyCode::Left),
            Input::KeySNext => Some(KeyCode::PageDown),
            Input::KeySPrevious => Some(KeyCode::PageUp),
            Input::KeySPrint => Some(KeyCode::End),
            Input::KeySRight => Some(KeyCode::Right),
            Input::KeyBTab => Some(KeyCode::BackTab),
            _ => None,
        };
        match code {
            Some(code) => Some(KeyEvent::new(code, KeyModifiers::shift())),
            None => None,
        }
    }

    /// Matches on keys with the control key held; gives none if the input is
    /// not such a key.
    pub fn try_map_ctrl_key(&self, input: &Input) -> (key: Option<KeyEvent>)
        ensures
            key == ctrl_key(*input),
    {
        match input {
            Input::KeyCTab => Some(KeyEvent::new(KeyCode::Tab, KeyModifiers::control())),
            _ => None,
        }
    }

    /// Matches on keys with the control and alt keys held; gives none if the
    /// input is not such a key.
    pub fn try_map_ctrl_alt_key(&self, input: &Input) -> (key: Option<KeyEvent>)
        ensures
            key == ctrl_alt_key(*input),
    {
        match input {
            Input::KeyCATab => Some(
                KeyEvent::new(KeyCode::Tab, KeyModifiers::control() | KeyModifiers::alt()),
            ),
            _ => None,
        }
    }

    /// Decodes a report of the mouse: gives its first event and keeps what
    /// the next unit of input needs.
    pub fn map_mouse_event(&mut self, mouse: Option<MouseState>) -> (event: Event)
        ensures
            final(self).wf() == old(self).wf(),
            event == mouse_event(old(self)@.input_cache, mouse),
            final(self)@ == (BackendState {
                input_cache: cache_after_mouse(old(self)@.input_cache, mouse),
                ..old(self)@
            }),
    {
        map_mouse_event(&mut self.input_cache, mouse)
    }

    /// Matches on input that is no key; gives none if the input is not of
    /// that kind. With the event comes the call that is to follow: a resize
    /// asks for the window to be matched to the new size of the terminal.
    pub fn try_map_non_key_event(&mut self, input: &Input) -> (result: Option<
        (Event, Option<Command>),
    >)
        ensures
            final(self).wf() == old(self).wf(),
            result == non_key_decoded(old(self)@, *input),
            final(self)@ == state_after_input(old(self)@, *input),
    {
        match input {
            Input::KeyResize => Some((Event::Resize, Some(Command::ResyncSize))),
            Input::KeyMouse(mouse) => Some((self.map_mouse_event(*mouse), None)),
            Input::Unknown(code) => {
                if *code > i32::MAX - UNKNOWN_CODE_OFFSET {
                    Some((Event::Unknown, None))
                } else {
                    let key: i32 = *code + UNKNOWN_CODE_OFFSET;
                    match self.key_codes.get(&key) {
                        Some(event) => Some((*event, None)),
                        None => Some((Event::Unknown, None)),
                    }
                }
            },
            _ => None,
        }
    }

    /// Decodes one unit of input: gives its event, and the call that is to
    /// follow, if one is.
    pub fn parse_next(&mut self, input: Input) -> (result: (Event, Option<Command>))
        ensures
            final(self).wf() == old(self).wf(),
            result.0 == decoded(old(self)@, input),
            result.1 == resync_for(input),
            final(self)@ == state_after_input(old(self)@, input),
    {
        if let Some(key) = self.try_parse_key(&input) {
            return (Event::Key(key), None);
        }
        if let Some(key) = self.try_map_shift_key(&input) {
            return (Event::Key(key), None);
        }
        if let Some(key) = self.try_map_ctrl_key(&input) {
            return (Event::Key(key), None);
        }
        if let Some(key) = self.try_map_ctrl_alt_key(&input) {
            return (Event::Key(key), None);
        }
        match self.try_map_non_key_event(&input) {
            Some(result) => result,
            None => (Event::Unknown, None),
        }
    }
}

} // verus!
