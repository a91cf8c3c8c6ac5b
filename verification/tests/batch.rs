use std::collections::HashMap;

use terminal::backend::command::{check, Command, EscapeSequence};
use terminal::backend::current_style::{rendition_off, rendition_on, Rendition, Renditions};
use terminal::backend::implementation::{palette_size, uses_default_terminal, ESCAPE_DELAY};
use terminal::backend::BackendImpl;
use terminal::error::ErrorKind;
use terminal::{Action, Attribute, ClearType, Color};

fn backend(max_colors: i16) -> BackendImpl {
    BackendImpl::with_key_codes(max_colors, HashMap::new())
}

fn a(return_val: i32) -> Result<(), ErrorKind> {
    check(return_val)?;
    Ok(())
}

#[test]
fn test_check_macro() {
    assert!(a(0).is_ok());
    assert!(a(1).is_ok());
    assert!(a(3).is_err());
    assert!(a(-1).is_err());
}

#[test]
fn check_tells_failure_from_refusal() {
    match check(-1) {
        Err(ErrorKind::IoError(error)) => {
            assert_eq!(error.kind(), std::io::ErrorKind::Other);
            assert_eq!(
                format!("{}", error),
                "Some error occurred while executing the action"
            );
        }
        other => panic!("{:?}", other),
    }
    match check(3) {
        Err(ErrorKind::ActionNotSupported(message)) => assert_eq!(
            message,
            "The action is not supported by pancurses. Either work around it or use an other backend."
        ),
        other => panic!("{:?}", other),
    }
    for code in [0, 1, 2, 4, -2, i32::MAX, i32::MIN].iter() {
        assert!(check(*code).is_ok());
    }
}

#[test]
fn only_checked_calls_can_fail_an_action() {
    let checked = [
        Command::Move { row: 1, column: 2 },
        Command::CursorVisibility(0),
        Command::Blink(true),
        Command::Clear,
        Command::ClearToBottom,
        Command::ClearToEndOfLine,
        Command::NoEcho,
        Command::Raw,
        Command::NoNl,
        Command::Echo,
        Command::NoRaw,
        Command::Nl,
        Command::PairOn(3),
        Command::RenditionsOff(Renditions::new()),
    ];
    for command in checked.iter() {
        assert!(command.is_checked());
        assert!(matches!(command.outcome(-1), Err(ErrorKind::IoError(_))));
        assert!(matches!(command.outcome(3), Err(ErrorKind::ActionNotSupported(_))));
        assert!(command.outcome(0).is_ok());
        assert!(command.outcome(2).is_ok());
    }
    let unchecked = [
        Command::Keypad(true),
        Command::StartColor,
        Command::UseDefaultColors,
        Command::MouseMask(1),
        Command::Resize { rows: 1, columns: 2 },
        Command::ResyncSize,
        Command::Write(EscapeSequence::EnableMouseCapture),
        Command::InitPair { index: 1, foreground: 2, background: 3 },
        Command::RebindPair { index: 255, foreground: 2, background: 3 },
        Command::RenditionOn(Rendition::Bold),
        Command::RenditionOff(Rendition::Bold),
        Command::Refresh,
        Command::EndWin,
    ];
    for command in unchecked.iter() {
        assert!(!command.is_checked());
        assert!(command.outcome(-1).is_ok());
        assert!(command.outcome(3).is_ok());
    }
}

#[test]
fn mouse_capture_sequences_are_exact() {
    assert_eq!(EscapeSequence::EnableMouseCapture.bytes(), b"\x1B[?1002h".to_vec());
    assert_eq!(EscapeSequence::DisableMouseCapture.bytes(), b"\x1B[?1002l".to_vec());
}

#[test]
fn cursor_and_clear_actions_give_their_calls() {
    let mut backend = backend(256);
    assert_eq!(
        backend.batch(Action::MoveCursorTo(7, 3)).unwrap(),
        vec![Command::Move { row: 3, column: 7 }]
    );
    assert_eq!(
        backend.batch(Action::MoveCursorTo(65535, 0)).unwrap(),
        vec![Command::Move { row: 0, column: 65535 }]
    );
    assert_eq!(backend.batch(Action::HideCursor).unwrap(), vec![Command::CursorVisibility(0)]);
    assert_eq!(backend.batch(Action::ShowCursor).unwrap(), vec![Command::CursorVisibility(1)]);
    assert_eq!(backend.batch(Action::EnableBlinking).unwrap(), vec![Command::Blink(true)]);
    assert_eq!(backend.batch(Action::DisableBlinking).unwrap(), vec![Command::Blink(false)]);
    assert_eq!(
        backend.batch(Action::ClearTerminal(ClearType::All)).unwrap(),
        vec![Command::Clear]
    );
    assert_eq!(
        backend.batch(Action::ClearTerminal(ClearType::FromCursorDown)).unwrap(),
        vec![Command::ClearToBottom]
    );
    assert_eq!(
        backend.batch(Action::ClearTerminal(ClearType::UntilNewLine)).unwrap(),
        vec![Command::ClearToEndOfLine]
    );
    assert_eq!(
        backend.batch(Action::SetTerminalSize(80, 24)).unwrap(),
        vec![Command::Resize { rows: 24, columns: 80 }]
    );
}

#[test]
fn mode_actions_give_the_calls_that_switch_the_mode() {
    let mut backend = backend(256);
    let raw = backend.batch(Action::EnableRawMode).unwrap();
    assert_eq!(raw, vec![Command::NoEcho, Command::Raw, Command::NoNl]);
    let cooked = backend.batch(Action::DisableRawMode).unwrap();
    assert_eq!(cooked, vec![Command::Echo, Command::NoRaw, Command::Nl]);
    let capture = backend.batch(Action::EnableMouseCapture).unwrap();
    assert_eq!(capture, vec![Command::Write(EscapeSequence::EnableMouseCapture)]);
    let release = backend.batch(Action::DisableMouseCapture).unwrap();
    assert_eq!(release, vec![Command::Write(EscapeSequence::DisableMouseCapture)]);
    for command in raw.iter().chain(cooked.iter()).chain(capture.iter()).chain(release.iter()) {
        assert!(command.is_mode_switch());
        assert!(!command.is_staged());
    }
}

#[test]
fn staged_actions_do_not_redraw() {
    let mut backend = backend(256);
    let actions = [
        Action::MoveCursorTo(1, 1),
        Action::ClearTerminal(ClearType::All),
        Action::SetForegroundColor(Color::Red),
        Action::SetBackgroundColor(Color::Rgb(1, 2, 3)),
        Action::SetForegroundColor(Color::Red),
        Action::SetAttribute(Attribute::Bold),
        Action::SetAttribute(Attribute::BoldOff),
        Action::ResetColor,
    ];
    for action in actions.iter() {
        let commands = backend.batch(*action).unwrap();
        assert!(!commands.is_empty());
        for command in commands.iter() {
            assert!(command.is_staged());
            assert!(!command.is_mode_switch());
            assert_ne!(*command, Command::Refresh);
        }
    }
    assert_eq!(backend.flush_batch().unwrap(), vec![Command::Refresh]);
    assert!(!Command::Refresh.is_staged());
}

#[test]
fn act_is_batch_and_flush() {
    let mut backend = backend(256);
    assert_eq!(
        backend.act(Action::MoveCursorTo(2, 5)).unwrap(),
        vec![Command::Move { row: 5, column: 2 }, Command::Refresh]
    );
    assert_eq!(
        backend.act(Action::EnableRawMode).unwrap(),
        vec![Command::NoEcho, Command::Raw, Command::NoNl, Command::Refresh]
    );
    assert!(matches!(
        backend.act(Action::ScrollUp(1)),
        Err(ErrorKind::ActionNotSupported(_))
    ));
}

#[test]
fn unsupported_actions_are_refused_under_their_name() {
    let mut backend = backend(256);
    let refused = [
        (Action::ScrollUp(3), "ScrollUp"),
        (Action::ScrollDown(1), "ScrollDown"),
        (Action::EnterAlternateScreen, "EnterAlternateScreen"),
        (Action::LeaveAlternateScreen, "LeaveAlternateScreen"),
        (Action::ClearTerminal(ClearType::FromCursorUp), "ClearTerminal"),
        (Action::ClearTerminal(ClearType::CurrentLine), "ClearTerminal"),
    ];
    for (action, name) in refused.iter() {
        match backend.batch(*action) {
            Err(ErrorKind::ActionNotSupported(stated)) => assert_eq!(stated, *name),
            other => panic!("{:?}", other),
        }
    }
}

#[test]
fn attributes_without_rendition_are_refused_under_their_name() {
    let mut backend = backend(256);
    let refused = [
        (Attribute::Fraktur, "Fraktur"),
        (Attribute::NormalIntensity, "NormalIntensity"),
        (Attribute::BoldItalicOff, "BoldItalicOff"),
        (Attribute::Framed, "Framed"),
    ];
    for (attribute, name) in refused.iter() {
        match backend.batch(Action::SetAttribute(*attribute)) {
            Err(ErrorKind::AttributeNotSupported(stated)) => assert_eq!(stated, *name),
            other => panic!("{:?}", other),
        }
    }
}

#[test]
fn attributes_switch_renditions_on_and_off() {
    let mut backend = backend(256);
    let on = [
        (Attribute::Reset, Rendition::Normal),
        (Attribute::Bold, Rendition::Bold),
        (Attribute::Italic, Rendition::Italic),
        (Attribute::Underlined, Rendition::Underline),
        (Attribute::SlowBlink, Rendition::Blink),
        (Attribute::RapidBlink, Rendition::Blink),
        (Attribute::Crossed, Rendition::Strikeout),
        (Attribute::Reversed, Rendition::Reverse),
        (Attribute::Conceal, Rendition::Invisible),
    ];
    for (attribute, rendition) in on.iter() {
        assert_eq!(rendition_on(*attribute), Some(*rendition));
        assert_eq!(rendition_off(*attribute), None);
        assert_eq!(
            backend.batch(Action::SetAttribute(*attribute)).unwrap(),
            vec![Command::RenditionOn(*rendition)]
        );
    }
    let off = [
        (Attribute::BoldOff, Rendition::Bold),
        (Attribute::ItalicOff, Rendition::Italic),
        (Attribute::UnderlinedOff, Rendition::Underline),
        (Attribute::BlinkOff, Rendition::Blink),
        (Attribute::CrossedOff, Rendition::Strikeout),
        (Attribute::ReversedOff, Rendition::Reverse),
        (Attribute::ConcealOff, Rendition::Invisible),
    ];
    for (attribute, rendition) in off.iter() {
        assert_eq!(rendition_on(*attribute), None);
        assert_eq!(rendition_off(*attribute), Some(*rendition));
        assert_eq!(
            backend.batch(Action::SetAttribute(*attribute)).unwrap(),
            vec![Command::RenditionOff(*rendition)]
        );
    }
}

#[test]
fn reset_color_switches_the_current_renditions_off() {
    let mut backend = backend(256);
    assert_eq!(
        backend.batch(Action::ResetColor).unwrap(),
        vec![Command::PairOn(0), Command::RenditionsOff(Renditions::new())]
    );
    backend.batch(Action::SetAttribute(Attribute::Bold)).unwrap();
    backend.batch(Action::SetAttribute(Attribute::Underlined)).unwrap();
    backend.batch(Action::SetAttribute(Attribute::ItalicOff)).unwrap();
    let mut expected = Renditions::new();
    expected.bold = true;
    expected.underline = true;
    expected.italic = true;
    assert_eq!(
        backend.batch(Action::ResetColor).unwrap(),
        vec![Command::PairOn(0), Command::RenditionsOff(expected)]
    );
    backend.batch(Action::SetAttribute(Attribute::Reset)).unwrap();
    assert_eq!(
        backend.batch(Action::ResetColor).unwrap(),
        vec![Command::PairOn(0), Command::RenditionsOff(Renditions::new())]
    );
}

#[test]
fn first_use_of_a_colour_binds_a_pair() {
    let mut backend = backend(256);
    assert_eq!(
        backend.batch(Action::SetForegroundColor(Color::Rgb(138, 138, 138))).unwrap(),
        vec![
            Command::InitPair { index: 1, foreground: 245, background: -1 },
            Command::PairOn(1)
        ]
    );
    assert_eq!(
        backend.batch(Action::SetForegroundColor(Color::Rgb(138, 138, 138))).unwrap(),
        vec![Command::PairOn(1)]
    );
    assert_eq!(
        backend.batch(Action::SetBackgroundColor(Color::DarkBlue)).unwrap(),
        vec![
            Command::InitPair { index: 2, foreground: 245, background: 4 },
            Command::PairOn(2)
        ]
    );
    assert_eq!(
        backend.batch(Action::SetForegroundColor(Color::Red)).unwrap(),
        vec![
            Command::InitPair { index: 3, foreground: 9, background: 4 },
            Command::PairOn(3)
        ]
    );
    assert_eq!(
        backend.batch(Action::SetForegroundColor(Color::AnsiValue(245))).unwrap(),
        vec![Command::PairOn(1)]
    );
    assert_eq!(
        backend.batch(Action::SetBackgroundColor(Color::Reset)).unwrap(),
        vec![Command::PairOn(0)]
    );
}

#[test]
fn store_fg_and_store_bg_pair_with_the_other_channel() {
    let mut backend = backend(8);
    assert_eq!(
        backend.store_fg(Color::Rgb(200, 0, 0)),
        vec![
            Command::InitPair { index: 1, foreground: 1, background: -1 },
            Command::PairOn(1)
        ]
    );
    assert_eq!(
        backend.store_bg(Color::Rgb(0, 0, 200)),
        vec![
            Command::InitPair { index: 2, foreground: -1, background: 4 },
            Command::PairOn(2)
        ]
    );
    assert_eq!(backend.store_bg(Color::Rgb(255, 1, 2)), vec![Command::PairOn(1)]);
    assert_eq!(
        backend.store_bg(Color::Red),
        vec![
            Command::InitPair { index: 3, foreground: -1, background: 9 },
            Command::PairOn(3)
        ]
    );
}

fn colours_of_all_slots() -> Vec<(Color, i16)> {
    let mut colours = vec![
        (Color::Black, 0),
        (Color::DarkRed, 1),
        (Color::DarkGreen, 2),
        (Color::DarkYellow, 3),
        (Color::DarkBlue, 4),
        (Color::DarkMagenta, 5),
        (Color::DarkCyan, 6),
        (Color::Grey, 7),
        (Color::Red, 9),
        (Color::Green, 10),
        (Color::Yellow, 11),
        (Color::Blue, 12),
        (Color::Magenta, 13),
        (Color::Cyan, 14),
        (Color::White, 15),
    ];
    let lowest = [0u8, 43, 86, 128, 171, 214];
    for r in 0..6usize {
        for g in 0..6usize {
            for b in 0..6usize {
                let slot = (16 + 36 * r + 6 * g + b) as i16;
                colours.push((Color::Rgb(lowest[r], lowest[g], lowest[b] + 1), slot));
            }
        }
    }
    for step in 0..24u8 {
        let grey = 8 + 10 * step;
        colours.push((Color::Rgb(grey, grey, grey), 232 + i16::from(step)));
    }
    colours.push((Color::Rgb(248, 248, 248), 256));
    colours
}

#[test]
fn the_256th_colour_reuses_pair_255() {
    let mut backend = backend(256);
    let colours = colours_of_all_slots();
    assert_eq!(colours.len(), 256);
    for (count, (color, slot)) in colours.iter().enumerate() {
        let commands = backend.batch(Action::SetForegroundColor(*color)).unwrap();
        if count < 255 {
            let index = count as i32 + 1;
            assert_eq!(
                commands,
                vec![
                    Command::InitPair { index: index as i16, foreground: *slot, background: -1 },
                    Command::PairOn(index)
                ]
            );
        } else {
            assert_eq!(
                commands,
                vec![
                    Command::RebindPair { index: 255, foreground: *slot, background: -1 },
                    Command::PairOn(255)
                ]
            );
        }
    }
    // The first colour still has its pair, the 255th has lost its own.
    assert_eq!(
        backend.batch(Action::SetForegroundColor(colours[0].0)).unwrap(),
        vec![Command::PairOn(1)]
    );
    assert_eq!(
        backend.batch(Action::SetForegroundColor(colours[253].0)).unwrap(),
        vec![Command::PairOn(254)]
    );
    let rebound = backend.batch(Action::SetForegroundColor(colours[254].0)).unwrap();
    assert_eq!(
        rebound,
        vec![
            Command::RebindPair { index: 255, foreground: colours[254].1, background: -1 },
            Command::PairOn(255)
        ]
    );
    assert!(!rebound[0].is_staged());
    assert!(!rebound[0].is_checked());
    assert!(rebound[1].is_staged());
    assert_eq!(
        backend.batch(Action::SetBackgroundColor(Color::Reset)).unwrap(),
        vec![Command::PairOn(0)]
    );
}

#[test]
fn startup_and_teardown_give_their_calls() {
    assert_eq!(
        BackendImpl::startup(),
        vec![
            Command::Keypad(true),
            Command::StartColor,
            Command::UseDefaultColors,
            Command::MouseMask(0x1fff_ffff),
            Command::InitPair { index: 0, foreground: -1, background: -1 },
        ]
    );
    assert_eq!(
        BackendImpl::teardown(),
        vec![
            Command::Write(EscapeSequence::DisableMouseCapture),
            Command::Echo,
            Command::NoRaw,
            Command::Nl,
            Command::EndWin,
        ]
    );
}

#[test]
fn backend_cannot_be_created_without_colours() {
    // The curses library has not been started, so it knows of no colours.
    assert!(BackendImpl::create().is_none());
}

#[test]
fn palette_is_as_large_as_can_be_counted() {
    assert_eq!(palette_size(0), None);
    assert_eq!(palette_size(-1), None);
    assert_eq!(palette_size(i32::MIN), None);
    assert_eq!(palette_size(1), Some(1));
    assert_eq!(palette_size(8), Some(8));
    assert_eq!(palette_size(256), Some(256));
    assert_eq!(palette_size(32767), Some(32767));
    assert_eq!(palette_size(32768), Some(32767));
    assert_eq!(palette_size(16_777_216), Some(32767));
    assert_eq!(palette_size(i32::MAX), Some(32767));
}

#[test]
fn terminal_without_type_is_the_default_one() {
    assert!(uses_default_terminal(None));
    assert!(uses_default_terminal(Some("")));
    assert!(!uses_default_terminal(Some("xterm-256color")));
    assert!(!uses_default_terminal(Some(" ")));
    assert_eq!(ESCAPE_DELAY, 25);
}

#[test]
fn new_backend_starts_plain() {
    let mut backend = backend(8);
    assert_eq!(backend.get_last_btn(), None);
    assert_eq!(backend.try_take(), None);
    assert_eq!(
        backend.batch(Action::ResetColor).unwrap(),
        vec![Command::PairOn(0), Command::RenditionsOff(Renditions::new())]
    );
    assert_eq!(
        backend.batch(Action::SetForegroundColor(Color::White)).unwrap(),
        vec![
            Command::InitPair { index: 1, foreground: 15, background: -1 },
            Command::PairOn(1)
        ]
    );
}
