//! The state of the driver, and what each action asks of the terminal.

use std::collections::HashMap;
use vstd::prelude::*;

use crate::action::Action;
use crate::backend::color::{closest, find_closest};
use crate::backend::command::{Command, EscapeSequence};
use crate::backend::current_style::{
    rendition_off,
    rendition_on,
    switched_off,
    switched_on,
    CurrentStyle,
};
use crate::backend::input::InputCache;
use crate::backend::keymap::{initialize_keymap, is_keymap};
use crate::backend::mouse::MOUSE_EVENT_MASK;
use crate::backend::pairs::{
    index_after,
    keys_after,
    ColorPairCache,
    DEFAULT_KEY,
    MAX_PAIRS,
};
use crate::enums::{Attribute, ClearType, Color, Event, MouseButton};
use crate::error::ErrorKind;

verus! {

/// The driver of a terminal behind the curses library.
pub struct BackendImpl {
    pub(crate) input_cache: InputCache,
    pub(crate) color_pairs: ColorPairCache,
    pub(crate) key_codes: HashMap<i32, Event>,
    pub(crate) current_style: CurrentStyle,
    pub(crate) max_colors: i16,
}

/// What a driver holds, as plain values.
pub struct BackendState {
    /// What the decoder remembers from one unit of input to the next.
    pub input_cache: InputCache,
    /// The palette slot that each colour pair is found under, by the index
    /// of the pair.
    pub color_pairs: Seq<i16>,
    /// The events of the key codes that the terminal has names for.
    pub key_codes: Map<i32, Event>,
    /// The style that is currently set.
    pub current_style: CurrentStyle,
    /// The number of colours of the terminal.
    pub max_colors: i16,
}

impl View for BackendImpl {
    type V = BackendState;

    open(crate) spec fn view(&self) -> BackendState {
        BackendState {
            input_cache: self.input_cache,
            color_pairs: self.color_pairs@,
            key_codes: self.key_codes@,
            current_style: self.current_style,
            max_colors: self.max_colors,
        }
    }
}

/// Whether the driver has the means to perform an action.
pub open spec fn is_supported(action: Action) -> bool {
    match action {
        Action::ScrollUp(_) => false,
        Action::ScrollDown(_) => false,
        Action::EnterAlternateScreen => false,
        Action::LeaveAlternateScreen => false,
        Action::ClearTerminal(ClearType::FromCursorUp) => false,
        Action::ClearTerminal(ClearType::CurrentLine) => false,
        _ => true,
    }
}

/// Whether the driver has a rendition for an attribute.
pub open spec fn is_rendered(attribute: Attribute) -> bool {
    switched_on(attribute) is Some || switched_off(attribute) is Some
}

/// The palette slot of `color` on a terminal of `max_colors` colours.
pub open spec fn color_key(color: Color, max_colors: i16) -> i16 {
    closest(color, max_colors as int) as i16
}

/// The calls that draw in the pair of `key` from now on. A pair that the key
/// is bound to by this request is first given its colours; where it is taken
/// from another key, what was drawn in it changes colour with it.
pub open spec fn pair_commands(pairs: Seq<i16>, key: i16, foreground: i16, background: i16) -> Seq<
    Command,
> {
    let index = index_after(pairs, key);
    if pairs.contains(key) {
        seq![Command::PairOn(index as i32)]
    } else if pairs.len() < MAX_PAIRS {
        seq![
            Command::InitPair { index: index as i16, foreground, background },
            Command::PairOn(index as i32),
        ]
    } else {
        seq![
            Command::RebindPair { index: index as i16, foreground, background },
            Command::PairOn(index as i32),
        ]
    }
}

/// The calls that an action asks for, in their order.
pub open spec fn commands_for(state: BackendState, action: Action) -> Seq<Command> {
    match action {
        Action::MoveCursorTo(column, row) => seq![
            Command::Move { row: row as i32, column: column as i32 },
        ],
        Action::HideCursor => seq![Command::CursorVisibility(0)],
        Action::ShowCursor => seq![Command::CursorVisibility(1)],
        Action::EnableBlinking => seq![Command::Blink(true)],
        Action::DisableBlinking => seq![Command::Blink(false)],
        Action::ClearTerminal(ClearType::All) => seq![Command::Clear],
        Action::ClearTerminal(ClearType::FromCursorDown) => seq![Command::ClearToBottom],
        Action::ClearTerminal(ClearType::UntilNewLine) => seq![Command::ClearToEndOfLine],
        Action::SetTerminalSize(columns, rows) => seq![
            Command::Resize { rows: rows as i32, columns: columns as i32 },
        ],
        Action::EnableRawMode => seq![Command::NoEcho, Command::Raw, Command::NoNl],
        Action::DisableRawMode => seq![Command::Echo, Command::NoRaw, Command::Nl],
        Action::EnableMouseCapture => seq![Command::Write(EscapeSequence::EnableMouseCapture)],
        Action::DisableMouseCapture => seq![Command::Write(EscapeSequence::DisableMouseCapture)],
        Action::ResetColor => seq![
            Command::PairOn(0),
            Command::RenditionsOff(state.current_style.attributes),
        ],
        Action::SetForegroundColor(color) => {
            let foreground = color_key(color, state.max_colors);
            let background = color_key(state.current_style.background, state.max_colors);
            pair_commands(state.color_pairs, foreground, foreground, background)
        },
        Action::SetBackgroundColor(color) => {
            let foreground = color_key(state.current_style.foreground, state.max_colors);
            let background = color_key(color, state.max_colors);
            pair_commands(state.color_pairs, background, foreground, background)
        },
        Action::SetAttribute(attribute) => match switched_on(attribute) {
            Some(rendition) => seq![Command::RenditionOn(rendition)],
            None => match switched_off(attribute) {
                Some(rendition) => seq![Command::RenditionOff(rendition)],
                None => Seq::empty(),
            },
        },
        _ => Seq::empty(),
    }
}

/// What the driver holds after an action.
///
/// A colour becomes the current one of its channel, and its palette slot has
/// a pair from then on. A rendition that an attribute switches on is added to
/// the current ones; one that an attribute switches off is taken out if it
/// was in and put in if it was not. No other action changes the state.
pub open spec fn state_after(state: BackendState, action: Action) -> BackendState {
    match action {
        Action::SetForegroundColor(color) => BackendState {
            current_style: CurrentStyle { foreground: color, ..state.current_style },
            color_pairs: keys_after(state.color_pairs, color_key(color, state.max_colors)),
            ..state
        },
        Action::SetBackgroundColor(color) => BackendState {
            current_style: CurrentStyle { background: color, ..state.current_style },
            color_pairs: keys_after(state.color_pairs, color_key(color, state.max_colors)),
            ..state
        },
        Action::SetAttribute(attribute) => match switched_on(attribute) {
            Some(rendition) => BackendState {
                current_style: CurrentStyle {
                    attributes: state.current_style.attributes.with(rendition),
                    ..state.current_style
                },
                ..state
            },
            None => match switched_off(attribute) {
                Some(rendition) => BackendState {
                    current_style: CurrentStyle {
                        attributes: state.current_style.attributes.toggled(rendition),
                        ..state.current_style
                    },
                    ..state
                },
                None => state,
            },
        },
        _ => state,
    }
}

/// Why the driver refuses an action, with the name of what it refuses.
pub enum Refusal {
    /// The driver has no means to perform the action of this name.
    Action(Seq<char>),
    /// The driver has no rendition for the attribute of this name.
    Attribute(Seq<char>),
}

/// The refusal that an action meets, if it meets one.
pub open spec fn refusal(action: Action) -> Option<Refusal> {
    if !is_supported(action) {
        Some(Refusal::Action(action.spec_name()))
    } else {
        match action {
            Action::SetAttribute(attribute) => if is_rendered(attribute) {
                None
            } else {
                Some(Refusal::Attribute(attribute.spec_name()))
            },
            _ => None,
        }
    }
}

/// Whether an error states a refusal.
pub open spec fn states(error: ErrorKind, refusal: Refusal) -> bool {
    match refusal {
        Refusal::Action(name) => error matches ErrorKind::ActionNotSupported(stated) && stated@
            == name,
        Refusal::Attribute(name) => error matches ErrorKind::AttributeNotSupported(stated)
            && stated@ == name,
    }
}

/// Whether `result` and `after` are what batching `action` gives in the
/// state `before`.
///
/// An action that the driver has no means for is refused under its name, and
/// so is an attribute that it has no rendition for; the state is then as it
/// was. Every other action gives its calls and leaves the state that follows
/// from it.
pub open spec fn is_batch_of(
    before: BackendState,
    action: Action,
    result: Result<Vec<Command>, ErrorKind>,
    after: BackendState,
) -> bool {
    match refusal(action) {
        Some(refusal) => {
            &&& result matches Err(error) && states(error, refusal)
            &&& after == before
        },
        None => {
            &&& result matches Ok(commands) && commands@ == commands_for(before, action)
            &&& after == state_after(before, action)
        },
    }
}

/// Whether `result` and `after` are what performing `action` gives in the
/// state `before`: what batching it gives, and on success with the redraw
/// that commits it as the last call.
pub open spec fn is_act_of(
    before: BackendState,
    action: Action,
    result: Result<Vec<Command>, ErrorKind>,
    after: BackendState,
) -> bool {
    match refusal(action) {
        Some(refusal) => {
            &&& result matches Err(error) && states(error, refusal)
            &&& after == before
        },
        None => {
            &&& result matches Ok(commands) && commands@ == commands_for(before, action).push(
                Command::Refresh,
            )
            &&& after == state_after(before, action)
        },
    }
}

/// The time, in milliseconds, that the curses library is to wait after an
/// escape character for the rest of an escape sequence. The time it waits
/// when it is not told is long enough to be felt.
pub const ESCAPE_DELAY: u32 = 25;

/// Whether the driver is to use the terminal that the process runs on
/// rather than to open one by its type: it is when no type is named.
pub fn uses_default_terminal(terminal_type: Option<&str>) -> (default: bool)
    ensures
        default == match terminal_type {
            Some(name) => name@.len() == 0,
            None => true,
        },
{
    match terminal_type {
        Some(name) => name.unicode_len() == 0,
        None => true,
    }
}

/// `crosscurses::COLORS`: the number of colours that the curses library
/// says the terminal has. It belongs to the terminal in use, and is 0
/// before colours are started, so nothing is claimed of it here.
#[verifier::external_body]
fn colors() -> (count: i32) {
    crosscurses::COLORS()
}

/// The size of the palette of a terminal with `count` colours.
pub open spec fn palette_of(count: i32) -> Option<i16> {
    if count <= 0 {
        None
    } else if count > i16::MAX {
        Some(i16::MAX)
    } else {
        Some(count as i16)
    }
}

/// The size of the palette of a terminal with `count` colours: none if it
/// has no colours, and the largest size that can be counted if it has more.
pub fn palette_size(count: i32) -> (size: Option<i16>)
    ensures
        size == palette_of(count),
        size matches Some(size) ==> size > 0,
{
    if count <= 0 {
        None
    } else if count > 0x7fff {
        Some(0x7fff)
    } else {
        Some(count as i16)
    }
}

impl BackendImpl {
    /// Whether the driver is in order: its terminal has colours, and its
    /// cache of colour pairs is in order.
    pub open(crate) spec fn wf(&self) -> bool {
        &&& self.max_colors > 0
        &&& self.color_pairs.wf()
    }

    /// A driver for the terminal that the curses library has been started
    /// on, as it is before anything was asked of it, or nothing if that
    /// terminal has no colours. The curses library is asked for the number of
    /// colours and for the names of the terminal's key codes.
    pub fn create() -> (backend: Option<BackendImpl>)
        ensures
            match backend {
                Some(backend) => {
                    &&& backend.wf()
                    &&& backend@.max_colors > 0
                    &&& backend@.current_style == CurrentStyle::initial()
                    &&& backend@.color_pairs == seq![DEFAULT_KEY]
                    &&& backend@.input_cache == (InputCache {
                        last_mouse_button: None,
                        stored_event: None,
                    })
                    &&& is_keymap(backend@.key_codes)
                },
                None => true,
            },
    {
        match palette_size(colors()) {
            Some(max_colors) => Some(BackendImpl::with_key_codes(max_colors, initialize_keymap())),
            None => None,
        }
    }

    /// A driver for a terminal of `max_colors` colours that reports the keys
    /// of `key_codes` under codes of its own, as it is before anything was
    /// asked of it.
    pub fn with_key_codes(max_colors: i16, key_codes: HashMap<i32, Event>) -> (backend:
        BackendImpl)
        requires
            max_colors > 0,
        ensures
            backend.wf(),
            backend@ == (BackendState {
                input_cache: InputCache { last_mouse_button: None, stored_event: None },
                color_pairs: seq![DEFAULT_KEY],
                key_codes: key_codes@,
                current_style: CurrentStyle::initial(),
                max_colors,
            }),
    {
        BackendImpl {
            input_cache: InputCache::new(),
            color_pairs: ColorPairCache::new(),
            key_codes,
            current_style: CurrentStyle::new(),
            max_colors,
        }
    }

    /// The calls that make the curses library ready for the driver: function
    /// keys as single codes, colours with the terminal's own as pair 0, and
    /// every mouse event reported.
    pub fn startup() -> (commands: Vec<Command>)
        ensures
            commands@ == seq![
                Command::Keypad(true),
                Command::StartColor,
                Command::UseDefaultColors,
                Command::MouseMask(MOUSE_EVENT_MASK),
                Command::InitPair { index: 0, foreground: DEFAULT_KEY, background: DEFAULT_KEY },
            ],
    {
        vec![
            Command::Keypad(true),
            Command::StartColor,
            Command::UseDefaultColors,
            Command::MouseMask(MOUSE_EVENT_MASK),
            Command::InitPair { index: 0, foreground: DEFAULT_KEY, background: DEFAULT_KEY },
        ]
    }

    /// The calls that give the terminal back as it was: the mouse is
    /// reported no longer, raw mode is left, and the curses library is left
    /// and with it the screen that it drew on.
    pub fn teardown() -> (commands: Vec<Command>)
        ensures
            commands@ == seq![
                Command::Write(EscapeSequence::DisableMouseCapture),
                Command::Echo,
                Command::NoRaw,
                Command::Nl,
                Command::EndWin,
            ],
    {
        vec![
            Command::Write(EscapeSequence::DisableMouseCapture),
            Command::Echo,
            Command::NoRaw,
            Command::Nl,
            Command::EndWin,
        ]
    }

    /// Puts `event` where the next request for an event finds it, in place
    /// of what waited there.
    pub fn update_input_buffer(&mut self, event: Event)
        ensures
            final(self).wf() == old(self).wf(),
            final(self)@ == (BackendState {
                input_cache: InputCache { stored_event: Some(event), ..old(self)@.input_cache },
                ..old(self)@
            }),
    {
        self.input_cache.stored_event = Some(event);
    }

    /// The event that waits to be handed out, if one does. It goes on
    /// waiting.
    pub fn get_input_buffer(&self) -> (event: Option<Event>)
        ensures
            event == self@.input_cache.stored_event,
    {
        self.input_cache.stored_event
    }

    /// Takes the event that waits to be handed out, if one does.
    pub fn try_take(&mut self) -> (event: Option<Event>)
        ensures
            final(self).wf() == old(self).wf(),
            event == old(self)@.input_cache.stored_event,
            final(self)@ == (BackendState {
                input_cache: InputCache { stored_event: None, ..old(self)@.input_cache },
                ..old(self)@
            }),
    {
        let event = self.input_cache.stored_event;
        self.input_cache.stored_event = None;
        event
    }

    /// Remembers `button` as the one last pressed or released.
    pub fn update_last_btn(&mut self, button: MouseButton)
        ensures
            final(self).wf() == old(self).wf(),
            final(self)@ == (BackendState {
                input_cache: InputCache {
                    last_mouse_button: Some(button),
                    ..old(self)@.input_cache
                },
                ..old(self)@
            }),
    {
        self.input_cache.last_mouse_button = Some(button);
    }

    /// The button last pressed or released, if one is remembered.
    pub fn get_last_btn(&self) -> (button: Option<MouseButton>)
        ensures
            button == self@.input_cache.last_mouse_button,
    {
        self.input_cache.last_mouse_button
    }

    /// The calls that draw in the pair of the palette slot `key`, which is
    /// bound to the two colours if it has no pair yet.
    fn pair_for(&mut self, key: i16, foreground: i16, background: i16) -> (commands: Vec<Command>)
        requires
            old(self).wf(),
        ensures
            final(self).wf(),
            commands@ == pair_commands(old(self)@.color_pairs, key, foreground, background),
            final(self)@ == (BackendState {
                color_pairs: keys_after(old(self)@.color_pairs, key),
                ..old(self)@
            }),
    {
        let full = self.color_pairs.len() >= MAX_PAIRS;
        let (index, bound) = self.color_pairs.get_or_insert(key);
        if !bound {
            vec![Command::PairOn(index)]
        } else if !full {
            vec![
                Command::InitPair { index: index as i16, foreground, background },
                Command::PairOn(index),
            ]
        } else {
            vec![
                Command::RebindPair { index: index as i16, foreground, background },
                Command::PairOn(index),
            ]
        }
    }

    /// The calls that draw in the pair of the foreground colour `fg_color`
    /// from now on. The pair is found under the palette slot of that colour;
    /// where the slot has none yet, it is bound to the colour and the current
    /// background.
    pub fn store_fg(&mut self, fg_color: Color) -> (commands: Vec<Command>)
        requires
            old(self).wf(),
        ensures
            final(self).wf(),
            commands@ == pair_commands(
                old(self)@.color_pairs,
                color_key(fg_color, old(self)@.max_colors),
                color_key(fg_color, old(self)@.max_colors),
                color_key(old(self)@.current_style.background, old(self)@.max_colors),
            ),
            final(self)@ == (BackendState {
                color_pairs: keys_after(
                    old(self)@.color_pairs,
                    color_key(fg_color, old(self)@.max_colors),
                ),
                ..old(self)@
            }),
    {
        let foreground = find_closest(fg_color, self.max_colors);
        let background = find_closest(self.current_style.background, self.max_colors);
        self.pair_for(foreground, foreground, background)
    }

    /// The calls that draw in the pair of the background colour `bg_color`
    /// from now on. The pair is found under the palette slot of that colour;
    /// where the slot has none yet, it is bound to the current foreground and
    /// the colour.
    pub fn store_bg(&mut self, bg_color: Color) -> (commands: Vec<Command>)
        requires
            old(self).wf(),
        ensures
            final(self).wf(),
            commands@ == pair_commands(
                old(self)@.color_pairs,
                color_key(bg_color, old(self)@.max_colors),
                color_key(old(self)@.current_style.foreground, old(self)@.max_colors),
                color_key(bg_color, old(self)@.max_colors),
            ),
            final(self)@ == (BackendState {
                color_pairs: keys_after(
                    old(self)@.color_pairs,
                    color_key(bg_color, old(self)@.max_colors),
                ),
                ..old(self)@
            }),
    {
        let foreground = find_closest(self.current_style.foreground, self.max_colors);
        let background = find_closest(bg_color, self.max_colors);
        self.pair_for(background, foreground, background)
    }

    /// Stages an action: gives the calls that it asks for, and keeps what it
    /// changes of the style and of the colour pairs.
    ///
    /// None of the calls redraws the terminal. What an action changes of the
    /// window shows at the next [`BackendImpl::flush_batch`]; a mode that it
    /// switches is switched by its calls.
    pub fn batch(&mut self, action: Action) -> (result: Result<Vec<Command>, ErrorKind>)
        requires
            old(self).wf(),
        ensures
            final(self).wf(),
            is_batch_of(old(self)@, action, result, final(self)@),
    {
        let ghost before = self@;
        let commands = match action {
            Action::MoveCursorTo(column, row) => vec![
                Command::Move { row: row as i32, column: column as i32 },
            ],
            Action::HideCursor => vec![Command::CursorVisibility(0)],
            Action::ShowCursor => vec![Command::CursorVisibility(1)],
            Action::EnableBlinking => vec![Command::Blink(true)],
            Action::DisableBlinking => vec![Command::Blink(false)],
            Action::ClearTerminal(clear_type) => match clear_type {
                ClearType::All => vec![Command::Clear],
                ClearType::FromCursorDown => vec![Command::ClearToBottom],
                ClearType::UntilNewLine => vec![Command::ClearToEndOfLine],
                ClearType::FromCursorUp | ClearType::CurrentLine => {
                    return Err(ErrorKind::ActionNotSupported(action.name()));
                },
            },
            Action::SetTerminalSize(columns, rows) => vec![
                Command::Resize { rows: rows as i32, columns: columns as i32 },
            ],
            Action::EnableRawMode => vec![Command::NoEcho, Command::Raw, Command::NoNl],
            Action::DisableRawMode => vec![Command::Echo, Command::NoRaw, Command::Nl],
            Action::EnableMouseCapture => vec![
                Command::Write(EscapeSequence::EnableMouseCapture),
            ],
            Action::DisableMouseCapture => vec![
                Command::Write(EscapeSequence::DisableMouseCapture),
            ],
            Action::ResetColor => vec![
                Command::PairOn(0),
                Command::RenditionsOff(self.current_style.attributes),
            ],
            Action::SetForegroundColor(color) => {
                let commands = self.store_fg(color);
                self.current_style.foreground = color;
                commands
            },
            Action::SetBackgroundColor(color) => {
                let commands = self.store_bg(color);
                self.current_style.background = color;
                commands
            },
            Action::SetAttribute(attribute) => {
                if let Some(rendition) = rendition_on(attribute) {
                    self.current_style.attributes.enable(rendition);
                    vec![Command::RenditionOn(rendition)]
                } else if let Some(rendition) = rendition_off(attribute) {
                    self.current_style.attributes.toggle(rendition);
                    vec![Command::RenditionOff(rendition)]
                } else {
                    return Err(ErrorKind::AttributeNotSupported(attribute.name()));
                }
            },
            Action::EnterAlternateScreen
            | Action::LeaveAlternateScreen
            | Action::ScrollUp(_)
            | Action::ScrollDown(_) => {
                return Err(ErrorKind::ActionNotSupported(action.name()));
            },
        };
        assert(commands@ =~= commands_for(before, action));
        Ok(commands)
    }

    /// Commits what was staged: one redraw brings the terminal up to date
    /// with the window.
    pub fn flush_batch(&mut self) -> (result: Result<Vec<Command>, ErrorKind>)
        ensures
            result matches Ok(commands) && commands@ == seq![Command::Refresh],
            *final(self) == *old(self),
    {
        Ok(vec![Command::Refresh])
    }

    /// Performs an action: stages it and commits it at once.
    pub fn act(&mut self, action: Action) -> (result: Result<Vec<Command>, ErrorKind>)
        requires
            old(self).wf(),
        ensures
            final(self).wf(),
            is_act_of(old(self)@, action, result, final(self)@),
    {
        let mut commands = match self.batch(action) {
            Ok(commands) => commands,
            Err(error) => {
                return Err(error);
            },
        };
        commands.push(Command::Refresh);
        Ok(commands)
    }
}

/// Whether an action changes what the window shows and nothing else: where
/// the cursor is, what is cleared, the colours and the renditions.
pub open spec fn is_render_action(action: Action) -> bool {
    match action {
        Action::MoveCursorTo(_, _) => true,
        Action::ClearTerminal(_) => true,
        Action::SetForegroundColor(_) => true,
        Action::SetBackgroundColor(_) => true,
        Action::SetAttribute(_) => true,
        Action::ResetColor => true,
        _ => false,
    }
}

/// Whether an action switches a mode of the terminal.
pub open spec fn is_mode_action(action: Action) -> bool {
    match action {
        Action::EnableRawMode => true,
        Action::DisableRawMode => true,
        Action::EnableMouseCapture => true,
        Action::DisableMouseCapture => true,
        _ => false,
    }
}

/// Whether an action takes a colour pair from the colour that had it: it
/// sets a colour whose palette slot has no pair when no pair is left.
pub open spec fn rebinds_pair(state: BackendState, action: Action) -> bool {
    match action {
        Action::SetForegroundColor(color) => state.color_pairs.len() >= MAX_PAIRS
            && !state.color_pairs.contains(color_key(color, state.max_colors)),
        Action::SetBackgroundColor(color) => state.color_pairs.len() >= MAX_PAIRS
            && !state.color_pairs.contains(color_key(color, state.max_colors)),
        _ => false,
    }
}

/// Staging an action that changes what the window shows asks for no call
/// but such as change what the next redraw will show: nothing of it reaches
/// the terminal before the batch is flushed. An action that takes a colour
/// pair from the colour that had it is left out: what was drawn in that pair
/// changes colour at once.
pub proof fn lemma_render_actions_are_staged(state: BackendState, action: Action, i: int)
    requires
        is_render_action(action),
        !rebinds_pair(state, action),
        0 <= i < commands_for(state, action).len(),
    ensures
        commands_for(state, action)[i].spec_is_staged(),
        commands_for(state, action)[i] != Command::Refresh,
{
}

/// Staging an action that switches a mode of the terminal asks for the calls
/// that switch it, and for at least one: the mode is switched when the
/// action is staged, whether or not the batch is ever flushed.
pub proof fn lemma_mode_actions_switch_at_once(state: BackendState, action: Action, i: int)
    requires
        is_mode_action(action),
        0 <= i < commands_for(state, action).len(),
    ensures
        refusal(action) is None,
        commands_for(state, action).len() >= 1,
        commands_for(state, action)[i].spec_is_mode_switch(),
{
}

} // verus!
