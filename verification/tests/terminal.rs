use std::collections::HashMap;
use std::time::Duration;

use terminal::backend::{Backend, BackendImpl, Command, Input, Query, Reply};
use terminal::error::ErrorKind;
use terminal::{
    Action, Attribute, Event, KeyCode, KeyEvent, KeyModifiers, MouseButton, Retrieved, Terminal,
    TerminalLock, Value,
};

fn terminal() -> Terminal {
    Terminal::custom(BackendImpl::with_key_codes(256, HashMap::new()))
}

fn is_contention<T>(result: Result<T, ErrorKind>) -> bool {
    match result {
        Err(ErrorKind::AttemptToAcquireLock(reason)) => {
            reason == "`Terminal` can only be mutably borrowed once."
        }
        _ => false,
    }
}

#[test]
fn second_lock_fails_while_the_first_is_out() {
    let mut terminal = terminal();
    let first = terminal.lock_mut();
    assert!(first.is_ok());
    assert!(is_contention(terminal.lock_mut()));
    assert!(is_contention(terminal.lock_mut()));
    terminal.unlock(first.unwrap());
    let again = terminal.lock_mut();
    assert!(again.is_ok());
    assert!(is_contention(terminal.lock_mut()));
    terminal.unlock(again.unwrap());
    assert!(terminal.lock_mut().is_ok());
}

#[test]
fn terminal_refuses_operations_while_locked() {
    let mut terminal = terminal();
    let lock = terminal.lock_mut().unwrap();
    assert!(is_contention(terminal.act(Action::HideCursor)));
    assert!(is_contention(terminal.batch(Action::HideCursor)));
    assert!(is_contention(terminal.flush_batch()));
    assert!(is_contention(terminal.get(Value::TerminalSize)));
    assert!(is_contention(terminal.resolve(Reply::MaxYx { y: 1, x: 1 })));
    terminal.unlock(lock);
    assert_eq!(
        terminal.act(Action::HideCursor).unwrap(),
        vec![Command::CursorVisibility(0), Command::Refresh]
    );
    assert_eq!(
        terminal.batch(Action::ShowCursor).unwrap(),
        vec![Command::CursorVisibility(1)]
    );
    assert_eq!(terminal.flush_batch().unwrap(), vec![Command::Refresh]);
    assert_eq!(terminal.get(Value::CursorPosition).unwrap(), Query::CurYx);
}

#[test]
fn operations_of_the_terminal_give_the_lock_back() {
    let mut terminal = terminal();
    assert!(terminal.act(Action::ScrollUp(1)).is_err());
    assert!(terminal.batch(Action::SetAttribute(Attribute::Framed)).is_err());
    assert!(terminal.lock_mut().is_ok());
}

#[test]
fn what_happens_behind_the_lock_stays() {
    let mut terminal = terminal();
    let mut lock = terminal.lock_mut().unwrap();
    assert_eq!(
        lock.batch(Action::SetForegroundColor(terminal::Color::Blue)).unwrap(),
        vec![
            Command::InitPair { index: 1, foreground: 12, background: -1 },
            Command::PairOn(1)
        ]
    );
    assert_eq!(lock.flush_batch().unwrap(), vec![Command::Refresh]);
    assert_eq!(
        lock.act(Action::MoveCursorTo(1, 2)).unwrap(),
        vec![Command::Move { row: 2, column: 1 }, Command::Refresh]
    );
    terminal.unlock(lock);
    assert_eq!(
        terminal
            .batch(Action::SetForegroundColor(terminal::Color::Blue))
            .unwrap(),
        vec![Command::PairOn(1)]
    );
}

#[test]
fn lock_can_be_made_for_a_backend() {
    let mut lock = TerminalLock::new(BackendImpl::with_key_codes(8, HashMap::new()));
    assert_eq!(lock.get(Value::TerminalSize).unwrap(), Query::MaxYx);
    assert_eq!(
        lock.resolve(Reply::MaxYx { y: 24, x: 80 }),
        (Retrieved::TerminalSize(80, 24), None)
    );
}

#[test]
fn size_and_position_are_column_and_row() {
    let mut terminal = terminal();
    assert_eq!(terminal.get(Value::TerminalSize).unwrap(), Query::MaxYx);
    assert_eq!(
        terminal.resolve(Reply::MaxYx { y: 24, x: 80 }).unwrap(),
        (Retrieved::TerminalSize(80, 24), None)
    );
    assert_eq!(terminal.get(Value::CursorPosition).unwrap(), Query::CurYx);
    assert_eq!(
        terminal.resolve(Reply::CurYx { y: 5, x: 17 }).unwrap(),
        (Retrieved::CursorPosition(17, 5), None)
    );
    assert_eq!(
        terminal.resolve(Reply::CurYx { y: -1, x: 65536 }).unwrap(),
        (Retrieved::CursorPosition(0, 65535), None)
    );
}

#[test]
fn bounded_wait_gives_its_milliseconds() {
    let mut terminal = terminal();
    assert_eq!(
        terminal.get(Value::Event(Some(Duration::from_millis(50)))).unwrap(),
        Query::Input { timeout: 50 }
    );
    assert_eq!(
        terminal.get(Value::Event(Some(Duration::from_micros(1_500_999)))).unwrap(),
        Query::Input { timeout: 1500 }
    );
    assert_eq!(
        terminal.get(Value::Event(Some(Duration::from_millis(0)))).unwrap(),
        Query::Input { timeout: 0 }
    );
    assert_eq!(
        terminal.get(Value::Event(Some(Duration::from_millis(2_147_483_647)))).unwrap(),
        Query::Input { timeout: i32::MAX }
    );
    assert_eq!(
        terminal.get(Value::Event(Some(Duration::from_millis(2_147_483_648)))).unwrap(),
        Query::Input { timeout: i32::MAX }
    );
    assert_eq!(
        terminal.get(Value::Event(Some(Duration::from_secs(u64::MAX)))).unwrap(),
        Query::Input { timeout: i32::MAX }
    );
    assert_eq!(terminal.get(Value::Event(None)).unwrap(), Query::Input { timeout: -1 });
}

#[test]
fn no_input_in_time_is_no_event() {
    let mut terminal = terminal();
    assert_eq!(
        terminal.get(Value::Event(Some(Duration::from_millis(50)))).unwrap(),
        Query::Input { timeout: 50 }
    );
    assert_eq!(
        terminal.resolve(Reply::Input(None)).unwrap(),
        (Retrieved::Event(None), None)
    );
}

#[test]
fn input_is_decoded_to_its_event() {
    let mut terminal = terminal();
    assert_eq!(
        terminal.resolve(Reply::Input(Some(Input::Character('q')))).unwrap(),
        (
            Retrieved::Event(Some(Event::Key(KeyEvent::new(
                KeyCode::Char('q'),
                KeyModifiers::empty()
            )))),
            None
        )
    );
    assert_eq!(
        terminal.resolve(Reply::Input(Some(Input::KeyResize))).unwrap(),
        (Retrieved::Event(Some(Event::Resize)), Some(Command::ResyncSize))
    );
    assert_eq!(
        terminal.resolve(Reply::Input(Some(Input::KeyAbort))).unwrap(),
        (Retrieved::Event(Some(Event::Unknown)), None)
    );
}

#[test]
fn waiting_event_is_handed_out_once() {
    let mut backend = BackendImpl::with_key_codes(256, HashMap::new());
    backend.update_input_buffer(Event::Resize);
    backend.update_input_buffer(Event::Unknown);
    backend.update_last_btn(MouseButton::Middle);
    assert_eq!(backend.get(Value::TerminalSize), Query::MaxYx);
    assert_eq!(
        backend.get(Value::Event(Some(Duration::from_millis(5)))),
        Query::Done(Retrieved::Event(Some(Event::Unknown)))
    );
    assert_eq!(
        backend.get(Value::Event(Some(Duration::from_millis(5)))),
        Query::Input { timeout: 5 }
    );
    assert_eq!(backend.get_last_btn(), Some(MouseButton::Middle));
    backend.update_input_buffer(Event::Resize);
    assert_eq!(backend.get_input_buffer(), Some(Event::Resize));
    assert_eq!(backend.get_input_buffer(), Some(Event::Resize));
    assert_eq!(backend.try_take(), Some(Event::Resize));
    assert_eq!(backend.try_take(), None);
    assert_eq!(backend.get_input_buffer(), None);
}

fn staged<B: Backend>(backend: &mut B, action: Action) -> Result<Vec<Command>, ErrorKind> {
    backend.batch(action)
}

fn performed<B: Backend>(backend: &mut B, action: Action) -> Result<Vec<Command>, ErrorKind> {
    backend.act(action)
}

fn retrieved<B: Backend>(backend: &mut B, value: Value, reply: Reply) -> Retrieved {
    match backend.get(value) {
        Ok(Query::Done(retrieved)) => retrieved,
        Ok(_) => backend.resolve(reply).0,
        Err(error) => panic!("{:?}", error),
    }
}

#[test]
fn driver_is_used_through_its_interface() {
    let mut backend = BackendImpl::with_key_codes(256, HashMap::new());
    assert_eq!(
        staged(&mut backend, Action::MoveCursorTo(4, 2)).unwrap(),
        vec![Command::Move { row: 2, column: 4 }]
    );
    assert_eq!(
        performed(&mut backend, Action::HideCursor).unwrap(),
        vec![Command::CursorVisibility(0), Command::Refresh]
    );
    match staged(&mut backend, Action::ScrollDown(2)) {
        Err(ErrorKind::ActionNotSupported(name)) => assert_eq!(name, "ScrollDown"),
        other => panic!("{:?}", other),
    }
    assert_eq!(Backend::flush_batch(&mut backend).unwrap(), vec![Command::Refresh]);
    assert_eq!(
        retrieved(&mut backend, Value::TerminalSize, Reply::MaxYx { y: 3, x: 9 }),
        Retrieved::TerminalSize(9, 3)
    );
    assert_eq!(
        Backend::get(&mut backend, Value::Event(Some(Duration::from_millis(7)))).unwrap(),
        Query::Input { timeout: 7 }
    );
    assert_eq!(
        Backend::resolve(&mut backend, Reply::Input(Some(Input::KeyResize))),
        (Retrieved::Event(Some(Event::Resize)), Some(Command::ResyncSize))
    );
    assert!(<BackendImpl as Backend>::create().is_none());
}
