//! The keys that a terminal reports under codes of its own.
//!
//! A terminal may report a key pressed together with a modifier as a code of
//! its own rather than as the key and a modifier bit. The curses library
//! gives such a code a name: the letter `k`, the name of the key, and a digit
//! for the modifiers. The driver asks for the names of a range of codes once,
//! at its start, and keeps the events that the names stand for.

use std::collections::HashMap;
use vstd::prelude::*;

use crate::enums::{Event, KeyCode, KeyEvent, KeyModifiers};

verus! {

broadcast use vstd::std_specs::hash::group_hash_axioms;

/// The first code whose name is asked for.
pub const FIRST_KEY_CODE: i32 = 512;

/// The code after the last whose name is asked for.
pub const END_KEY_CODE: i32 = 1024;

/// The key that a name stands for.
pub open spec fn named_key(name: Seq<char>) -> Option<KeyCode> {
    if name == seq!['D', 'C'] {
        Some(KeyCode::Delete)
    } else if name == seq!['D', 'N'] {
        Some(KeyCode::Down)
    } else if name == seq!['E', 'N', 'D'] {
        Some(KeyCode::End)
    } else if name == seq!['H', 'O', 'M'] {
        Some(KeyCode::Home)
    } else if name == seq!['I', 'C'] {
        Some(KeyCode::Insert)
    } else if name == seq!['L', 'F', 'T'] {
        Some(KeyCode::Left)
    } else if name == seq!['N', 'X', 'T'] {
        Some(KeyCode::PageDown)
    } else if name == seq!['P', 'R', 'V'] {
        Some(KeyCode::PageUp)
    } else if name == seq!['R', 'I', 'T'] {
        Some(KeyCode::Right)
    } else if name == seq!['U', 'P'] {
        Some(KeyCode::Up)
    } else {
        None
    }
}

/// The modifier keys that a digit stands for.
pub open spec fn digit_modifiers(digit: char) -> Option<KeyModifiers> {
    if digit == '3' {
        Some(KeyModifiers { shift: false, control: false, alt: true })
    } else if digit == '4' {
        Some(KeyModifiers { shift: true, control: false, alt: true })
    } else if digit == '5' {
        Some(KeyModifiers { shift: false, control: true, alt: false })
    } else if digit == '6' {
        Some(KeyModifiers { shift: false, control: true, alt: false })
    } else if digit == '7' {
        Some(KeyModifiers { shift: false, control: true, alt: true })
    } else {
        None
    }
}

/// The event that the name of a key code stands for: the name is the letter
/// `k`, then the name of a key, then one digit for the modifiers. Any other
/// name stands for none.
pub open spec fn named_event(name: Seq<char>) -> Option<Event> {
    if name.len() >= 2 && name[0] == 'k' {
        match (named_key(name.subrange(1, name.len() - 1)), digit_modifiers(name.last())) {
            (Some(code), Some(modifiers)) => Some(Event::Key(KeyEvent { code, modifiers })),
            _ => None,
        }
    } else {
        None
    }
}

/// The event under a code after the code was given a name, or none.
pub open spec fn entry_after(before: Option<Event>, name: Option<String>) -> Option<Event> {
    match name {
        Some(name) => match named_event(name@) {
            Some(event) => Some(event),
            None => before,
        },
        None => before,
    }
}

/// The event under `code` in `map`, if there is one.
pub open spec fn entry(map: Map<i32, Event>, code: i32) -> Option<Event> {
    if map.contains_key(code) {
        Some(map[code])
    } else {
        None
    }
}

/// Whether every entry of `map` lies in the range of codes that are asked
/// for, and holds an event that some name stands for.
pub open spec fn is_keymap(map: Map<i32, Event>) -> bool {
    forall|code: i32| #[trigger]
        map.contains_key(code) ==> FIRST_KEY_CODE <= code < END_KEY_CODE && exists|
            name: Seq<char>,
        |
            named_event(name) == Some(map[code])
}

/// The key that the characters of `name` between the first and the last
/// stand for.
fn key_named(name: &str, len: usize) -> (code: Option<KeyCode>)
    requires
        len == name@.len(),
        len >= 2,
    ensures
        code == named_key(name@.subrange(1, len - 1)),
{
    let ghost part = name@.subrange(1, len - 1);
    if len == 4 {
        let first = name.get_char(1);
        let second = name.get_char(2);
        assert(part =~= seq![first, second]);
        if first == 'D' && second == 'C' {
            Some(KeyCode::Delete)
        } else if first == 'D' && second == 'N' {
            Some(KeyCode::Down)
        } else if first == 'I' && second == 'C' {
            Some(KeyCode::Insert)
        } else if first == 'U' && second == 'P' {
            Some(KeyCode::Up)
        } else {
            proof {
                lemma_two_letters(first, second);
            }
            None
        }
    } else if len == 5 {
        let first = name.get_char(1);
        let second = name.get_char(2);
        let third = name.get_char(3);
        assert(part =~= seq![first, second, third]);
        if first == 'E' && second == 'N' && third == 'D' {
            Some(KeyCode::End)
        } else if first == 'H' && second == 'O' && third == 'M' {
            Some(KeyCode::Home)
        } else if first == 'L' && second == 'F' && third == 'T' {
            Some(KeyCode::Left)
        } else if first == 'N' && second == 'X' && third == 'T' {
            Some(KeyCode::PageDown)
        } else if first == 'P' && second == 'R' && third == 'V' {
            Some(KeyCode::PageUp)
        } else if first == 'R' && second == 'I' && third == 'T' {
            Some(KeyCode::Right)
        } else {
            proof {
                lemma_three_letters(first, second, third);
            }
            None
        }
    } else {
        proof {
            lemma_other_length(part);
        }
        None
    }
}

/// Two letters name a key only if they are one of the four names of two
/// letters.
proof fn lemma_two_letters(first: char, second: char)
    requires
        !(first == 'D' && second == 'C'),
        !(first == 'D' && second == 'N'),
        !(first == 'I' && second == 'C'),
        !(first == 'U' && second == 'P'),
    ensures
        named_key(seq![first, second]) is None,
{
    let name = seq![first, second];
    assert(name.len() == 2 && name[0] == first && name[1] == second);
}

/// Three letters name a key only if they are one of the six names of three
/// letters.
proof fn lemma_three_letters(first: char, second: char, third: char)
    requires
        !(first == 'E' && second == 'N' && third == 'D'),
        !(first == 'H' && second == 'O' && third == 'M'),
        !(first == 'L' && second == 'F' && third == 'T'),
        !(first == 'N' && second == 'X' && third == 'T'),
        !(first == 'P' && second == 'R' && third == 'V'),
        !(first == 'R' && second == 'I' && third == 'T'),
    ensures
        named_key(seq![first, second, third]) is None,
{
    let name = seq![first, second, third];
    assert(name.len() == 3 && name[0] == first && name[1] == second && name[2] == third);
}

/// No name of a key has fewer than two letters or more than three.
proof fn lemma_other_length(name: Seq<char>)
    requires
        name.len() != 2,
        name.len() != 3,
    ensures
        named_key(name) is None,
{
}

/// The modifier keys that `digit` stands for.
fn modifiers_for(digit: char) -> (modifiers: Option<KeyModifiers>)
    ensures
        modifiers == digit_modifiers(digit),
{
    if digit == '3' {
        Some(KeyModifiers::alt())
    } else if digit == '4' {
        Some(KeyModifiers::alt() | KeyModifiers::shift())
    } else if digit == '5' {
        Some(KeyModifiers::control())
    } else if digit == '6' {
        Some(KeyModifiers::control())
    } else if digit == '7' {
        Some(KeyModifiers::control() | KeyModifiers::alt())
    } else {
        None
    }
}

/// The event that the name of a key code stands for, if it stands for one.
pub fn parse_key_name(name: &str) -> (event: Option<Event>)
    ensures
        event == named_event(name@),
{
    let len = name.unicode_len();
    if len < 2 {
        return None;
    }
    if name.get_char(0) != 'k' {
        return None;
    }
    let code = match key_named(name, len) {
        Some(code) => code,
        None => {
            return None;
        },
    };
    match modifiers_for(name.get_char(len - 1)) {
        Some(modifiers) => Some(Event::Key(KeyEvent { code, modifiers })),
        None => None,
    }
}

/// `crosscurses::keyname`: the name that the curses library has for a key
/// code, or none. The name is taken from the description of the terminal in
/// use, so nothing is claimed of it here.
#[verifier::external_body]
fn key_name(code: i32) -> (name: Option<String>) {
    crosscurses::keyname(code)
}

/// Whether `after` is what stands under `code` once `f` has been asked for
/// the name of the code, where `before` stood there.
pub open spec fn answered<F: Fn(i32) -> Option<String>>(
    f: F,
    code: i32,
    before: Option<Event>,
    after: Option<Event>,
) -> bool {
    exists|name: Option<String>| #[trigger]
        call_ensures(f, (code,), name) && after == entry_after(before, name)
}

/// Asks `f` for the name of each code of the range, and puts under each code
/// whose name stands for an event that event. Other entries stay as they are.
pub fn fill_key_codes<F>(target: &mut HashMap<i32, Event>, f: F) where
    F: Fn(i32) -> Option<String>,

    requires
        forall|code: i32| FIRST_KEY_CODE <= code < END_KEY_CODE ==> call_requires(f, (code,)),
    ensures
        forall|code: i32|
            FIRST_KEY_CODE <= code < END_KEY_CODE ==> answered(
                f,
                code,
                entry(old(target)@, code),
                #[trigger] entry(final(target)@, code),
            ),
        forall|code: i32|
            !(FIRST_KEY_CODE <= code < END_KEY_CODE) ==> #[trigger] entry(final(target)@, code)
                == entry(old(target)@, code),
{
    let mut code: i32 = FIRST_KEY_CODE;
    while code < END_KEY_CODE
        invariant
            FIRST_KEY_CODE <= code <= END_KEY_CODE,
            forall|c: i32| FIRST_KEY_CODE <= c < END_KEY_CODE ==> call_requires(f, (c,)),
            forall|c: i32|
                FIRST_KEY_CODE <= c < code ==> answered(
                    f,
                    c,
                    entry(old(target)@, c),
                    #[trigger] entry(target@, c),
                ),
            forall|c: i32|
                !(FIRST_KEY_CODE <= c < code) ==> #[trigger] entry(target@, c) == entry(
                    old(target)@,
                    c,
                ),
        decreases END_KEY_CODE - code,
    {
        let ghost before = target@;
        let name = f(code);
        let event = match &name {
            Some(name) => parse_key_name(name.as_str()),
            None => None,
        };
        if let Some(event) = event {
            target.insert(code, event);
        }
        proof {
            assert(entry(before, code) == entry(old(target)@, code));
            assert(call_ensures(f, (code,), name) && entry(target@, code) == entry_after(
                entry(old(target)@, code),
                name,
            ));
            assert forall|c: i32| FIRST_KEY_CODE <= c < code + 1 implies answered(
                f,
                c,
                entry(old(target)@, c),
                #[trigger] entry(target@, c),
            ) by {
                if c < code {
                    assert(entry(target@, c) == entry(before, c));
                }
            }
            assert forall|c: i32| !(FIRST_KEY_CODE <= c < code + 1) implies #[trigger] entry(
                target@,
                c,
            ) == entry(old(target)@, c) by {
                assert(entry(target@, c) == entry(before, c));
            }
        }
        code = code + 1;
    }
}

/// The events of the codes that the terminal in use has names for.
pub fn initialize_keymap() -> (map: HashMap<i32, Event>)
    ensures
        is_keymap(map@),
{
    let mut map: HashMap<i32, Event> = HashMap::new();
    let names = |code: i32| -> (name: Option<String>) { key_name(code) };
    fill_key_codes(&mut map, names);
    proof {
        assert forall|code: i32| #[trigger] map@.contains_key(code) implies FIRST_KEY_CODE <= code
            < END_KEY_CODE && exists|name: Seq<char>| named_event(name) == Some(map@[code]) by {
            let found = entry(map@, code);
            if FIRST_KEY_CODE <= code < END_KEY_CODE {
                assert(answered(names, code, entry(Map::<i32, Event>::empty(), code), found));
                let name = choose|name: Option<String>| #[trigger]
                    call_ensures(names, (code,), name) && found == entry_after(None, name);
                assert(named_event(name->Some_0@) == Some(map@[code]));
            } else {
                assert(found == entry(Map::<i32, Event>::empty(), code));
            }
        }
    }
    map
}

} // verus!
