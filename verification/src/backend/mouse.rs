//! Decoding a mouse report of the curses library.
//!
//! A report is a mask of bits. Its low 25 bits are five groups of five, one
//! group for each button from the first to the fifth, and in each group one
//! bit for each gesture: released, pressed, clicked, double-clicked,
//! triple-clicked. Above them lie one bit each for the control, shift and alt
//! keys, and one that says that the pointer moved.

use vstd::prelude::*;

use crate::backend::input::{InputCache, MouseState};
use crate::enums::{Event, KeyModifiers, MouseButton, MouseEvent};

verus! {

pub const BUTTON1_RELEASED: u32 = 0x0000_0001;

pub const BUTTON1_PRESSED: u32 = 0x0000_0002;

pub const BUTTON1_CLICKED: u32 = 0x0000_0004;

pub const BUTTON1_DOUBLE_CLICKED: u32 = 0x0000_0008;

pub const BUTTON1_TRIPLE_CLICKED: u32 = 0x0000_0010;

pub const BUTTON2_RELEASED: u32 = 0x0000_0020;

pub const BUTTON2_PRESSED: u32 = 0x0000_0040;

pub const BUTTON2_CLICKED: u32 = 0x0000_0080;

pub const BUTTON2_DOUBLE_CLICKED: u32 = 0x0000_0100;

pub const BUTTON2_TRIPLE_CLICKED: u32 = 0x0000_0200;

pub const BUTTON3_RELEASED: u32 = 0x0000_0400;

pub const BUTTON3_PRESSED: u32 = 0x0000_0800;

pub const BUTTON3_CLICKED: u32 = 0x0000_1000;

pub const BUTTON3_DOUBLE_CLICKED: u32 = 0x0000_2000;

pub const BUTTON3_TRIPLE_CLICKED: u32 = 0x0000_4000;

pub const BUTTON4_RELEASED: u32 = 0x0000_8000;

pub const BUTTON4_PRESSED: u32 = 0x0001_0000;

pub const BUTTON4_CLICKED: u32 = 0x0002_0000;

pub const BUTTON4_DOUBLE_CLICKED: u32 = 0x0004_0000;

pub const BUTTON4_TRIPLE_CLICKED: u32 = 0x0008_0000;

pub const BUTTON5_RELEASED: u32 = 0x0010_0000;

pub const BUTTON5_PRESSED: u32 = 0x0020_0000;

pub const BUTTON5_CLICKED: u32 = 0x0040_0000;

pub const BUTTON5_DOUBLE_CLICKED: u32 = 0x0080_0000;

pub const BUTTON5_TRIPLE_CLICKED: u32 = 0x0100_0000;

/// The control key was held.
pub const BUTTON_CTRL: u32 = 0x0200_0000;

/// The shift key was held.
pub const BUTTON_SHIFT: u32 = 0x0400_0000;

/// The alt key was held.
pub const BUTTON_ALT: u32 = 0x0800_0000;

/// The pointer moved.
pub const REPORT_MOUSE_POSITION: u32 = 0x1000_0000;

/// Every gesture of every button, and the three modifier keys.
pub const ALL_MOUSE_EVENTS: u32 = 0x0fff_ffff;

/// The mask that asks the curses library for all that it can report.
pub const MOUSE_EVENT_MASK: u32 = 0x1fff_ffff;

/// How many bits of a report stand for gestures of buttons.
pub const GESTURE_BITS: u32 = 25;

/// Whether bit number `bit` of `mask` is set.
pub open spec fn has_bit(mask: u32, bit: u32) -> bool {
    (mask >> bit) & 1 == 1
}

/// The modifier keys that a report names.
pub open spec fn report_modifiers(bstate: u32) -> KeyModifiers {
    KeyModifiers {
        shift: bstate & BUTTON_SHIFT != 0,
        control: bstate & BUTTON_CTRL != 0,
        alt: bstate & BUTTON_ALT != 0,
    }
}

/// A report without the bits of the modifier keys.
pub open spec fn without_modifiers(bstate: u32) -> u32 {
    bstate & !(BUTTON_SHIFT | BUTTON_ALT | BUTTON_CTRL)
}

/// The button that gesture bit number `bit` belongs to. The first three
/// buttons are the left, the middle and the right one; the fourth and fifth
/// are the two directions of the wheel and have no name.
pub open spec fn bit_button(bit: u32) -> MouseButton {
    if bit / 5 == 0 {
        MouseButton::Left
    } else if bit / 5 == 1 {
        MouseButton::Middle
    } else if bit / 5 == 2 {
        MouseButton::Right
    } else {
        MouseButton::Unknown
    }
}

/// A press and the release that follows it, `times` times over.
pub open spec fn clicks(
    times: nat,
    button: MouseButton,
    x: u16,
    y: u16,
    modifiers: KeyModifiers,
) -> Seq<MouseEvent>
    decreases times,
{
    if times == 0 {
        Seq::empty()
    } else {
        clicks((times - 1) as nat, button, x, y, modifiers).push(
            MouseEvent::Down(button, x, y, modifiers),
        ).push(MouseEvent::Up(button, x, y, modifiers))
    }
}

/// The events that gesture bit number `bit` stands for, in their order.
///
/// A release is one event and so is a press. The fourth and the fifth
/// button are the wheel, turned up and turned down, and their presses are
/// scrolls the other way round: the press of the fifth button, the wheel
/// turned down, is a `ScrollUp`, and the press of the fourth, the wheel
/// turned up, is a `ScrollDown`. A click is a press and a release; a double
/// and a triple click are two and three clicks.
pub open spec fn bit_events(bit: u32, x: u16, y: u16, modifiers: KeyModifiers) -> Seq<
    MouseEvent,
> {
    let button = bit_button(bit);
    if bit % 5 == 0 {
        seq![MouseEvent::Up(button, x, y, modifiers)]
    } else if bit % 5 == 1 {
        if bit / 5 == 3 {
            seq![MouseEvent::ScrollDown(x, y, modifiers)]
        } else if bit / 5 == 4 {
            seq![MouseEvent::ScrollUp(x, y, modifiers)]
        } else {
            seq![MouseEvent::Down(button, x, y, modifiers)]
        }
    } else {
        clicks((bit % 5 - 1) as nat, button, x, y, modifiers)
    }
}

/// The events of the gesture bits of `mask` below bit number `bits`, from the
/// lowest bit up.
pub open spec fn events_below(
    mask: u32,
    bits: u32,
    x: u16,
    y: u16,
    modifiers: KeyModifiers,
) -> Seq<MouseEvent>
    decreases bits,
{
    if bits == 0 {
        Seq::empty()
    } else if has_bit(mask, (bits - 1) as u32) {
        events_below(mask, (bits - 1) as u32, x, y, modifiers) + bit_events(
            (bits - 1) as u32,
            x,
            y,
            modifiers,
        )
    } else {
        events_below(mask, (bits - 1) as u32, x, y, modifiers)
    }
}

/// All the events that a report holds, in their order.
pub open spec fn report_events(mouse: MouseState) -> Seq<MouseEvent> {
    events_below(
        without_modifiers(mouse.bstate),
        GESTURE_BITS,
        mouse.x as u16,
        mouse.y as u16,
        report_modifiers(mouse.bstate),
    )
}

/// Whether a report says that the pointer moved, and nothing else.
pub open spec fn is_drag(mouse: MouseState) -> bool {
    without_modifiers(mouse.bstate) == REPORT_MOUSE_POSITION
}

/// The event that a mouse report is decoded to.
///
/// Without a report it is `Unknown`. A report of a drag gives a drag of the
/// button last pressed or released, and `Unknown` if none is remembered. Of
/// any other report the first event is given, and `Unknown` if it holds none.
pub open spec fn mouse_event(cache: InputCache, mouse: Option<MouseState>) -> Event {
    match mouse {
        None => Event::Unknown,
        Some(mouse) => {
            if is_drag(mouse) {
                match cache.last_mouse_button {
                    Some(button) => Event::Mouse(
                        MouseEvent::Drag(
                            button,
                            mouse.x as u16,
                            mouse.y as u16,
                            report_modifiers(mouse.bstate),
                        ),
                    ),
                    None => Event::Unknown,
                }
            } else if report_events(mouse).len() == 0 {
                Event::Unknown
            } else {
                Event::Mouse(report_events(mouse).first())
            }
        },
    }
}

/// What the decoder remembers after a mouse report.
///
/// Where the report holds more than one event, the last of them waits to be
/// handed out next, in place of whatever waited before. The button of the
/// first event, if it has one, is the button last pressed or released.
pub open spec fn cache_after_mouse(cache: InputCache, mouse: Option<MouseState>) -> InputCache {
    match mouse {
        None => cache,
        Some(mouse) => {
            let events = report_events(mouse);
            if is_drag(mouse) || events.len() == 0 {
                cache
            } else {
                InputCache {
                    last_mouse_button: match events.first().spec_button() {
                        Some(button) => Some(button),
                        None => cache.last_mouse_button,
                    },
                    stored_event: if events.len() >= 2 {
                        Some(Event::Mouse(events.last()))
                    } else {
                        cache.stored_event
                    },
                }
            }
        },
    }
}

/// The first of the events `before + events`, given the first of `before`.
pub open spec fn first_after(first: Option<MouseEvent>, events: Seq<MouseEvent>) -> Option<
    MouseEvent,
> {
    if first is Some || events.len() == 0 {
        first
    } else {
        Some(events.first())
    }
}

/// The event that waits after `before + events` have been emitted, given the
/// first of `before` and the event that waited after `before`.
pub open spec fn stored_after(
    first: Option<MouseEvent>,
    stored: Option<Event>,
    events: Seq<MouseEvent>,
) -> Option<Event> {
    if events.len() >= 2 || (first is Some && events.len() == 1) {
        Some(Event::Mouse(events.last()))
    } else {
        stored
    }
}

/// The button that a gesture bit belongs to.
pub fn map_mouse_button(bit: u32) -> (button: MouseButton)
    ensures
        button == bit_button(bit),
{
    let group: u32 = bit / 5;
    if group == 0 {
        MouseButton::Left
    } else if group == 1 {
        MouseButton::Middle
    } else if group == 2 {
        MouseButton::Right
    } else {
        MouseButton::Unknown
    }
}

/// Hands one event out: the first one is kept in `first`, every later one
/// takes the place of the event that waits in the cache.
fn emit(event: MouseEvent, first: &mut Option<MouseEvent>, cache: &mut InputCache)
    ensures
        *final(first) == first_after(*old(first), seq![event]),
        final(cache).stored_event == stored_after(*old(first), old(cache).stored_event, seq![event]),
        final(cache).last_mouse_button == old(cache).last_mouse_button,
{
    if first.is_none() {
        *first = Some(event);
    } else {
        cache.stored_event = Some(Event::Mouse(event));
    }
}

/// Emits the events that gesture bit number `bit` stands for.
pub fn on_mouse_event(
    bit: u32,
    x: u16,
    y: u16,
    modifiers: KeyModifiers,
    first: &mut Option<MouseEvent>,
    cache: &mut InputCache,
)
    ensures
        bit_events(bit, x, y, modifiers).len() >= 1,
        *final(first) == first_after(*old(first), bit_events(bit, x, y, modifiers)),
        final(cache).stored_event == stored_after(
            *old(first),
            old(cache).stored_event,
            bit_events(bit, x, y, modifiers),
        ),
        final(cache).last_mouse_button == old(cache).last_mouse_button,
{
    let button = map_mouse_button(bit);
    let gesture: u32 = bit % 5;
    let group: u32 = bit / 5;
    if gesture == 0 {
        emit(MouseEvent::Up(button, x, y, modifiers), first, cache);
    } else if gesture == 1 {
        if group == 3 {
            emit(MouseEvent::ScrollDown(x, y, modifiers), first, cache);
        } else if group == 4 {
            emit(MouseEvent::ScrollUp(x, y, modifiers), first, cache);
        } else {
            emit(MouseEvent::Down(button, x, y, modifiers), first, cache);
        }
    } else {
        let times: u32 = gesture - 1;
        let mut done: u32 = 0;
        while done < times
            invariant
                1 <= times <= 3,
                done <= times,
                times == bit % 5 - 1,
                button == bit_button(bit),
                cache.last_mouse_button == old(cache).last_mouse_button,
                *first == first_after(*old(first), clicks(done as nat, button, x, y, modifiers)),
                cache.stored_event == stored_after(
                    *old(first),
                    old(cache).stored_event,
                    clicks(done as nat, button, x, y, modifiers),
                ),
                clicks(done as nat, button, x, y, modifiers).len() == 2 * done,
            decreases times - done,
        {
            emit(MouseEvent::Down(button, x, y, modifiers), first, cache);
            emit(MouseEvent::Up(button, x, y, modifiers), first, cache);
            done = done + 1;
        }
    }
}

/// Decodes a mouse report: gives its first event and leaves in the cache
/// what the next one needs.
pub fn map_mouse_event(cache: &mut InputCache, mouse: Option<MouseState>) -> (event: Event)
    ensures
        event == mouse_event(*old(cache), mouse),
        *final(cache) == cache_after_mouse(*old(cache), mouse),
{
    let mouse = match mouse {
        None => {
            return Event::Unknown;
        },
        Some(mouse) => mouse,
    };
    let modifiers = KeyModifiers {
        shift: mouse.bstate & BUTTON_SHIFT != 0,
        control: mouse.bstate & BUTTON_CTRL != 0,
        alt: mouse.bstate & BUTTON_ALT != 0,
    };
    let mask: u32 = mouse.bstate & !(BUTTON_SHIFT | BUTTON_ALT | BUTTON_CTRL);
    let x: u16 = #[verifier::truncate]
    (mouse.x as u16);
    let y: u16 = #[verifier::truncate]
    (mouse.y as u16);
    if mask == REPORT_MOUSE_POSITION {
        return match cache.last_mouse_button {
            Some(button) => Event::Mouse(MouseEvent::Drag(button, x, y, modifiers)),
            None => Event::Unknown,
        };
    }
    let mut first: Option<MouseEvent> = None;
    let mut bit: u32 = 0;
    while bit < GESTURE_BITS
        invariant
            bit <= GESTURE_BITS,
            cache.last_mouse_button == old(cache).last_mouse_button,
            first == first_after(None, events_below(mask, bit, x, y, modifiers)),
            cache.stored_event == stored_after(
                None,
                old(cache).stored_event,
                events_below(mask, bit, x, y, modifiers),
            ),
        decreases GESTURE_BITS - bit,
    {
        if (mask >> bit) & 1 == 1 {
            on_mouse_event(bit, x, y, modifiers, &mut first, cache);
        }
        bit = bit + 1;
    }
    match first {
        Some(event) => {
            if let Some(button) = event.button() {
                cache.last_mouse_button = Some(button);
            }
            Event::Mouse(event)
        },
        None => Event::Unknown,
    }
}

/// The mask of a double click of the button of group `group`, counted from 0.
pub open spec fn double_click_mask(group: u32) -> u32 {
    if group == 0 {
        BUTTON1_DOUBLE_CLICKED
    } else if group == 1 {
        BUTTON2_DOUBLE_CLICKED
    } else if group == 2 {
        BUTTON3_DOUBLE_CLICKED
    } else if group == 3 {
        BUTTON4_DOUBLE_CLICKED
    } else {
        BUTTON5_DOUBLE_CLICKED
    }
}

/// A mask in which one gesture bit is set holds the events of that bit and
/// no others.
pub proof fn lemma_single_gesture(mask: u32, bit: u32, x: u16, y: u16, modifiers: KeyModifiers)
    requires
        bit < GESTURE_BITS,
        forall|i: u32| i < GESTURE_BITS ==> has_bit(mask, i) == (i == bit),
    ensures
        events_below(mask, GESTURE_BITS, x, y, modifiers) == bit_events(bit, x, y, modifiers),
{
    lemma_single_gesture_below(mask, bit, GESTURE_BITS, x, y, modifiers);
}

proof fn lemma_single_gesture_below(
    mask: u32,
    bit: u32,
    bits: u32,
    x: u16,
    y: u16,
    modifiers: KeyModifiers,
)
    requires
        bit < GESTURE_BITS,
        bits <= GESTURE_BITS,
        forall|i: u32| i < GESTURE_BITS ==> has_bit(mask, i) == (i == bit),
    ensures
        events_below(mask, bits, x, y, modifiers) == if bits > bit {
            bit_events(bit, x, y, modifiers)
        } else {
            Seq::empty()
        },
    decreases bits,
{
    if bits > 0 {
        let below = (bits - 1) as u32;
        lemma_single_gesture_below(mask, bit, below, x, y, modifiers);
        assert(Seq::<MouseEvent>::empty() + bit_events(bit, x, y, modifiers) =~= bit_events(
            bit,
            x,
            y,
            modifiers,
        ));
    }
}

/// A report of a double click holds four events: a press, a release, a
/// press and a release of the button. The first press is the event that the
/// report is decoded to; of the three that follow, each takes the place of
/// the one before it, and the last release is the one that then waits to be
/// handed out. This holds whatever modifier keys the report names.
pub proof fn lemma_double_click(cache: InputCache, mouse: MouseState, group: u32)
    requires
        group < 5,
        without_modifiers(mouse.bstate) == double_click_mask(group),
    ensures
        report_events(mouse) == seq![
            MouseEvent::Down(
                bit_button((5 * group) as u32),
                mouse.x as u16,
                mouse.y as u16,
                report_modifiers(mouse.bstate),
            ),
            MouseEvent::Up(
                bit_button((5 * group) as u32),
                mouse.x as u16,
                mouse.y as u16,
                report_modifiers(mouse.bstate),
            ),
            MouseEvent::Down(
                bit_button((5 * group) as u32),
                mouse.x as u16,
                mouse.y as u16,
                report_modifiers(mouse.bstate),
            ),
            MouseEvent::Up(
                bit_button((5 * group) as u32),
                mouse.x as u16,
                mouse.y as u16,
                report_modifiers(mouse.bstate),
            ),
        ],
        mouse_event(cache, Some(mouse)) == Event::Mouse(
            MouseEvent::Down(
                bit_button((5 * group) as u32),
                mouse.x as u16,
                mouse.y as u16,
                report_modifiers(mouse.bstate),
            ),
        ),
        cache_after_mouse(cache, Some(mouse)).stored_event == Some(
            Event::Mouse(
                MouseEvent::Up(
                    bit_button((5 * group) as u32),
                    mouse.x as u16,
                    mouse.y as u16,
                    report_modifiers(mouse.bstate),
                ),
            ),
        ),
        cache_after_mouse(cache, Some(mouse)).last_mouse_button == Some(
            bit_button((5 * group) as u32),
        ),
{
    let mask = without_modifiers(mouse.bstate);
    let bit = (5 * group + 3) as u32;
    let x = mouse.x as u16;
    let y = mouse.y as u16;
    let modifiers = report_modifiers(mouse.bstate);
    let button = bit_button((5 * group) as u32);
    assert(forall|i: u32| i < 25 ==> ((0x0000_0008u32 >> i) & 1 == 1) == (i == 3)) by (bit_vector);
    assert(forall|i: u32| i < 25 ==> ((0x0000_0100u32 >> i) & 1 == 1) == (i == 8)) by (bit_vector);
    assert(forall|i: u32| i < 25 ==> ((0x0000_2000u32 >> i) & 1 == 1) == (i == 13)) by (bit_vector);
    assert(forall|i: u32| i < 25 ==> ((0x0004_0000u32 >> i) & 1 == 1) == (i == 18)) by (bit_vector);
    assert(forall|i: u32| i < 25 ==> ((0x0080_0000u32 >> i) & 1 == 1) == (i == 23)) by (bit_vector);
    lemma_single_gesture(mask, bit, x, y, modifiers);
    reveal_with_fuel(clicks, 3);
    assert(bit_events(bit, x, y, modifiers) =~= seq![
        MouseEvent::Down(button, x, y, modifiers),
        MouseEvent::Up(button, x, y, modifiers),
        MouseEvent::Down(button, x, y, modifiers),
        MouseEvent::Up(button, x, y, modifiers),
    ]);
}

/// A report of a press of the fifth button, the wheel turned down, is
/// decoded to a `ScrollUp`, and one of a press of the fourth button, the
/// wheel turned up, to a `ScrollDown`, whatever modifier keys the report
/// names. Neither changes what the decoder remembers.
pub proof fn lemma_wheel_is_inverted(cache: InputCache, mouse: MouseState)
    requires
        without_modifiers(mouse.bstate) == BUTTON5_PRESSED || without_modifiers(mouse.bstate)
            == BUTTON4_PRESSED,
    ensures
        without_modifiers(mouse.bstate) == BUTTON5_PRESSED ==> mouse_event(cache, Some(mouse))
            == Event::Mouse(
            MouseEvent::ScrollUp(mouse.x as u16, mouse.y as u16, report_modifiers(mouse.bstate)),
        ),
        without_modifiers(mouse.bstate) == BUTTON4_PRESSED ==> mouse_event(cache, Some(mouse))
            == Event::Mouse(
            MouseEvent::ScrollDown(mouse.x as u16, mouse.y as u16, report_modifiers(mouse.bstate)),
        ),
        cache_after_mouse(cache, Some(mouse)) == cache,
{
    let mask = without_modifiers(mouse.bstate);
    let x = mouse.x as u16;
    let y = mouse.y as u16;
    let modifiers = report_modifiers(mouse.bstate);
    assert(forall|i: u32| i < 25 ==> ((0x0020_0000u32 >> i) & 1 == 1) == (i == 21)) by (bit_vector);
    assert(forall|i: u32| i < 25 ==> ((0x0001_0000u32 >> i) & 1 == 1) == (i == 16)) by (bit_vector);
    if mask == BUTTON5_PRESSED {
        lemma_single_gesture(mask, 21, x, y, modifiers);
    } else {
        lemma_single_gesture(mask, 16, x, y, modifiers);
    }
}

} // verus!
