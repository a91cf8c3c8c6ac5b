use std::collections::HashMap;

use terminal::backend::mouse::{
    map_mouse_button, map_mouse_event, BUTTON1_CLICKED, BUTTON1_DOUBLE_CLICKED, BUTTON1_PRESSED,
    BUTTON1_RELEASED, BUTTON1_TRIPLE_CLICKED, BUTTON2_PRESSED, BUTTON3_DOUBLE_CLICKED,
    BUTTON3_PRESSED, BUTTON3_RELEASED, BUTTON4_PRESSED, BUTTON4_RELEASED, BUTTON5_CLICKED,
    BUTTON5_PRESSED, BUTTON_ALT, BUTTON_CTRL, BUTTON_SHIFT, REPORT_MOUSE_POSITION,
};
use terminal::backend::{BackendImpl, Input, InputCache, MouseState, Query, Reply};
use terminal::{Event, KeyModifiers, MouseButton, MouseEvent, Retrieved, Value};

fn report(bstate: u32) -> Option<MouseState> {
    Some(MouseState { bstate, x: 3, y: 4 })
}

fn none() -> KeyModifiers {
    KeyModifiers::empty()
}

#[test]
fn press_and_release_are_one_event_each() {
    let mut cache = InputCache::new();
    assert_eq!(
        map_mouse_event(&mut cache, report(BUTTON1_PRESSED)),
        Event::Mouse(MouseEvent::Down(MouseButton::Left, 3, 4, none()))
    );
    assert_eq!(cache.last_mouse_button, Some(MouseButton::Left));
    assert_eq!(cache.stored_event, None);
    assert_eq!(
        map_mouse_event(&mut cache, report(BUTTON3_RELEASED)),
        Event::Mouse(MouseEvent::Up(MouseButton::Right, 3, 4, none()))
    );
    assert_eq!(cache.last_mouse_button, Some(MouseButton::Right));
    assert_eq!(
        map_mouse_event(&mut cache, report(BUTTON2_PRESSED)),
        Event::Mouse(MouseEvent::Down(MouseButton::Middle, 3, 4, none()))
    );
    assert_eq!(cache.last_mouse_button, Some(MouseButton::Middle));
    assert_eq!(cache.stored_event, None);
}

#[test]
fn wheel_turns_are_scrolls_the_other_way_round() {
    let mut cache = InputCache::new();
    assert_eq!(
        map_mouse_event(&mut cache, report(BUTTON5_PRESSED)),
        Event::Mouse(MouseEvent::ScrollUp(3, 4, none()))
    );
    assert_eq!(
        map_mouse_event(&mut cache, report(BUTTON4_PRESSED)),
        Event::Mouse(MouseEvent::ScrollDown(3, 4, none()))
    );
    assert_eq!(
        map_mouse_event(&mut cache, report(BUTTON5_PRESSED | BUTTON_ALT)),
        Event::Mouse(MouseEvent::ScrollUp(3, 4, KeyModifiers::alt()))
    );
    assert_eq!(cache.last_mouse_button, None);
    assert_eq!(cache.stored_event, None);
    assert_eq!(
        map_mouse_event(&mut cache, report(BUTTON4_RELEASED)),
        Event::Mouse(MouseEvent::Up(MouseButton::Unknown, 3, 4, none()))
    );
    assert_eq!(cache.last_mouse_button, Some(MouseButton::Unknown));
}

#[test]
fn modifier_bits_become_modifiers() {
    let mut cache = InputCache::new();
    assert_eq!(
        map_mouse_event(&mut cache, report(BUTTON1_PRESSED | BUTTON_SHIFT)),
        Event::Mouse(MouseEvent::Down(MouseButton::Left, 3, 4, KeyModifiers::shift()))
    );
    assert_eq!(
        map_mouse_event(&mut cache, report(BUTTON1_PRESSED | BUTTON_CTRL | BUTTON_ALT)),
        Event::Mouse(MouseEvent::Down(
            MouseButton::Left,
            3,
            4,
            KeyModifiers::control() | KeyModifiers::alt()
        ))
    );
    assert_eq!(
        map_mouse_event(
            &mut cache,
            report(BUTTON3_PRESSED | BUTTON_CTRL | BUTTON_ALT | BUTTON_SHIFT)
        ),
        Event::Mouse(MouseEvent::Down(MouseButton::Right, 3, 4, KeyModifiers::all()))
    );
}

#[test]
fn drag_takes_the_button_last_pressed() {
    let mut cache = InputCache::new();
    assert_eq!(map_mouse_event(&mut cache, report(REPORT_MOUSE_POSITION)), Event::Unknown);
    map_mouse_event(&mut cache, report(BUTTON3_PRESSED));
    assert_eq!(
        map_mouse_event(
            &mut cache,
            Some(MouseState { bstate: REPORT_MOUSE_POSITION | BUTTON_SHIFT, x: 10, y: 20 })
        ),
        Event::Mouse(MouseEvent::Drag(MouseButton::Right, 10, 20, KeyModifiers::shift()))
    );
    assert_eq!(cache.last_mouse_button, Some(MouseButton::Right));
    assert_eq!(cache.stored_event, None);
}

#[test]
fn click_is_a_press_and_a_release() {
    let mut cache = InputCache::new();
    assert_eq!(
        map_mouse_event(&mut cache, report(BUTTON1_CLICKED)),
        Event::Mouse(MouseEvent::Down(MouseButton::Left, 3, 4, none()))
    );
    assert_eq!(
        cache.stored_event,
        Some(Event::Mouse(MouseEvent::Up(MouseButton::Left, 3, 4, none())))
    );
    assert_eq!(cache.last_mouse_button, Some(MouseButton::Left));
    let mut cache = InputCache::new();
    assert_eq!(
        map_mouse_event(&mut cache, report(BUTTON5_CLICKED)),
        Event::Mouse(MouseEvent::Down(MouseButton::Unknown, 3, 4, none()))
    );
    assert_eq!(
        cache.stored_event,
        Some(Event::Mouse(MouseEvent::Up(MouseButton::Unknown, 3, 4, none())))
    );
}

#[test]
fn double_and_triple_click_leave_their_last_release() {
    for bstate in [BUTTON1_DOUBLE_CLICKED, BUTTON1_TRIPLE_CLICKED].iter() {
        let mut cache = InputCache::new();
        assert_eq!(
            map_mouse_event(&mut cache, report(*bstate)),
            Event::Mouse(MouseEvent::Down(MouseButton::Left, 3, 4, none()))
        );
        assert_eq!(
            cache.stored_event,
            Some(Event::Mouse(MouseEvent::Up(MouseButton::Left, 3, 4, none())))
        );
    }
}

#[test]
fn double_click_is_served_over_two_requests() {
    let mut backend = BackendImpl::with_key_codes(256, HashMap::new());
    let query = backend.get(Value::Event(None));
    assert_eq!(query, Query::Input { timeout: -1 });
    let reply = Reply::Input(Some(Input::KeyMouse(Some(MouseState {
        bstate: BUTTON3_DOUBLE_CLICKED | BUTTON_CTRL,
        x: 7,
        y: 9,
    }))));
    let down = MouseEvent::Down(MouseButton::Right, 7, 9, KeyModifiers::control());
    let up = MouseEvent::Up(MouseButton::Right, 7, 9, KeyModifiers::control());
    assert_eq!(backend.resolve(reply), (Retrieved::Event(Some(Event::Mouse(down))), None));
    assert_eq!(
        backend.get(Value::Event(None)),
        Query::Done(Retrieved::Event(Some(Event::Mouse(up))))
    );
    assert_eq!(backend.get(Value::Event(None)), Query::Input { timeout: -1 });
    assert_eq!(backend.get_last_btn(), Some(MouseButton::Right));
}

#[test]
fn several_gestures_in_one_report_come_lowest_bit_first() {
    let mut cache = InputCache::new();
    assert_eq!(
        map_mouse_event(&mut cache, report(BUTTON3_PRESSED | BUTTON1_RELEASED)),
        Event::Mouse(MouseEvent::Up(MouseButton::Left, 3, 4, none()))
    );
    assert_eq!(
        cache.stored_event,
        Some(Event::Mouse(MouseEvent::Down(MouseButton::Right, 3, 4, none())))
    );
    assert_eq!(cache.last_mouse_button, Some(MouseButton::Left));
}

#[test]
fn later_report_overwrites_what_waited() {
    let mut cache = InputCache::new();
    map_mouse_event(&mut cache, report(BUTTON1_CLICKED));
    map_mouse_event(&mut cache, report(BUTTON3_PRESSED | BUTTON4_PRESSED));
    assert_eq!(cache.stored_event, Some(Event::Mouse(MouseEvent::ScrollDown(3, 4, none()))));
    map_mouse_event(&mut cache, report(BUTTON1_PRESSED));
    assert_eq!(cache.stored_event, Some(Event::Mouse(MouseEvent::ScrollDown(3, 4, none()))));
}

#[test]
fn report_without_gesture_is_unknown() {
    let mut cache = InputCache::new();
    map_mouse_event(&mut cache, report(BUTTON1_CLICKED));
    let before = cache;
    assert_eq!(map_mouse_event(&mut cache, report(0)), Event::Unknown);
    assert_eq!(map_mouse_event(&mut cache, report(BUTTON_SHIFT)), Event::Unknown);
    assert_eq!(map_mouse_event(&mut cache, report(1 << 29)), Event::Unknown);
    assert_eq!(map_mouse_event(&mut cache, None), Event::Unknown);
    assert_eq!(cache, before);
}

#[test]
fn moved_bit_beside_a_gesture_is_no_drag() {
    let mut cache = InputCache::new();
    assert_eq!(
        map_mouse_event(&mut cache, report(REPORT_MOUSE_POSITION | BUTTON1_PRESSED)),
        Event::Mouse(MouseEvent::Down(MouseButton::Left, 3, 4, none()))
    );
}

#[test]
fn position_is_taken_modulo_65536() {
    let mut cache = InputCache::new();
    assert_eq!(
        map_mouse_event(
            &mut cache,
            Some(MouseState { bstate: BUTTON1_PRESSED, x: 65536 + 5, y: -1 })
        ),
        Event::Mouse(MouseEvent::Down(MouseButton::Left, 5, 65535, none()))
    );
}

#[test]
fn gesture_bits_belong_to_buttons_by_fives() {
    for bit in 0..25u32 {
        let expected = match bit / 5 {
            0 => MouseButton::Left,
            1 => MouseButton::Middle,
            2 => MouseButton::Right,
            _ => MouseButton::Unknown,
        };
        assert_eq!(map_mouse_button(bit), expected);
    }
}

#[test]
fn mouse_input_without_report_is_unknown() {
    let mut backend = BackendImpl::with_key_codes(256, HashMap::new());
    assert_eq!(backend.parse_next(Input::KeyMouse(None)), (Event::Unknown, None));
    assert_eq!(
        backend.try_map_non_key_event(&Input::KeyMouse(report(BUTTON1_RELEASED))),
        Some((Event::Mouse(MouseEvent::Up(MouseButton::Left, 3, 4, none())), None))
    );
    assert_eq!(
        backend.parse_next(Input::KeyMouse(report(BUTTON5_PRESSED))),
        (Event::Mouse(MouseEvent::ScrollUp(3, 4, none())), None)
    );
}
