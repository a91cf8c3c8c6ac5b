//! Retrieving a value from the terminal.
//!
//! A request for a value is answered in two steps. The driver first says
//! what it needs to know of the terminal, if it needs anything; the caller
//! finds that out and hands it over; the driver then gives the value.

use std::time::Duration;
use vstd::prelude::*;

use crate::action::{Retrieved, Value};
use crate::backend::command::Command;
use crate::backend::implementation::{BackendImpl, BackendState};
use crate::backend::input::{Input, InputCache};
use crate::backend::mapping::{decoded, resync_for, state_after_input};
use crate::enums::Event;

verus! {

/// The timeout that lets a read of input wait without limit.
pub const NO_TIMEOUT: i32 = -1;

/// What the driver needs to know of the terminal before it can give a value.
#[derive(Copy, Clone, Debug, PartialEq, Eq, Structural)]
pub enum Query {
    /// Nothing: this is the value.
    Done(Retrieved),
    /// The number of rows and of columns of the window.
    MaxYx,
    /// The row and the column of the cursor.
    CurYx,
    /// The next unit of input, waited for no longer than `timeout`
    /// milliseconds, or without limit where `timeout` is negative.
    Input { timeout: i32 },
}

/// What the caller has found out of the terminal.
#[derive(Copy, Clone, Debug, PartialEq, Eq, Structural)]
pub enum Reply {
    /// The number of rows `y` and of columns `x` of the window.
    MaxYx { y: i32, x: i32 },
    /// The row `y` and the column `x` of the cursor.
    CurYx { y: i32, x: i32 },
    /// The next unit of input, or none if the time ran out.
    Input(Option<Input>),
}

/// The whole milliseconds that a duration holds.
pub uninterp spec fn duration_millis(duration: Duration) -> int;

/// `std::time::Duration::as_millis`: the number of whole milliseconds that
/// the duration holds.
#[verifier::external_body]
fn as_millis(duration: &Duration) -> (millis: u128)
    ensures
        millis == duration_millis(*duration),
{
    duration.as_millis()
}

/// The timeout, in milliseconds, of a read that may wait for `millis`
/// milliseconds, or without limit where there is none. A wait too long to be
/// counted is cut to the longest that can be.
pub open spec fn timeout_of(millis: Option<int>) -> int {
    match millis {
        None => NO_TIMEOUT as int,
        Some(millis) => if millis > i32::MAX {
            i32::MAX as int
        } else {
            millis
        },
    }
}

/// The timeout, in milliseconds, of a read that may wait for `millis`
/// milliseconds, or without limit where there is none.
pub fn poll_timeout(millis: Option<u128>) -> (timeout: i32)
    ensures
        timeout == timeout_of(
            match millis {
                Some(millis) => Some(millis as int),
                None => None,
            },
        ),
        millis is Some ==> timeout >= 0,
{
    match millis {
        None => NO_TIMEOUT,
        Some(millis) => if millis > 0x7fff_ffff {
            0x7fff_ffff
        } else {
            millis as i32
        },
    }
}

/// The whole milliseconds that a wait may last, if it has a limit.
pub open spec fn wait_millis(wait: Option<Duration>) -> Option<int> {
    match wait {
        Some(duration) => Some(duration_millis(duration)),
        None => None,
    }
}

/// What the driver needs to know of the terminal to give `value`.
///
/// For an event it needs nothing while one waits from an earlier report;
/// else it needs the next unit of input.
pub open spec fn query_for(state: BackendState, value: Value) -> Query {
    match value {
        Value::TerminalSize => Query::MaxYx,
        Value::CursorPosition => Query::CurYx,
        Value::Event(wait) => match state.input_cache.stored_event {
            Some(event) => Query::Done(Retrieved::Event(Some(event))),
            None => Query::Input { timeout: timeout_of(wait_millis(wait)) as i32 },
        },
    }
}

/// Whether a read of input that `query` asks for ends when its time has run
/// out: it does unless the timeout is negative.
pub open spec fn is_bounded(query: Query) -> bool {
    match query {
        Query::Input { timeout } => timeout >= 0,
        _ => true,
    }
}

/// What the driver holds after a request for `value`: an event that waited
/// has been handed out and waits no longer.
pub open spec fn state_after_query(state: BackendState, value: Value) -> BackendState {
    match value {
        Value::Event(_) => BackendState {
            input_cache: InputCache { stored_event: None, ..state.input_cache },
            ..state
        },
        _ => state,
    }
}

/// The value that follows from what the caller has found out.
///
/// A size and a position are given as column and row, each taken modulo
/// 65536. A unit of input is decoded to its event.
pub open spec fn resolved(state: BackendState, reply: Reply) -> Retrieved {
    match reply {
        Reply::MaxYx { y, x } => Retrieved::TerminalSize(x as u16, y as u16),
        Reply::CurYx { y, x } => Retrieved::CursorPosition(x as u16, y as u16),
        Reply::Input(None) => Retrieved::Event(None),
        Reply::Input(Some(input)) => Retrieved::Event(Some(decoded(state, input))),
    }
}

/// What the driver holds after it was told what the caller has found out.
pub open spec fn state_after_reply(state: BackendState, reply: Reply) -> BackendState {
    match reply {
        Reply::Input(Some(input)) => state_after_input(state, input),
        _ => state,
    }
}

/// The call that is to follow what the caller has found out, if one is: the
/// one that is to follow the decoding of the input.
pub open spec fn follow_up(reply: Reply) -> Option<Command> {
    match reply {
        Reply::Input(Some(input)) => resync_for(input),
        _ => None,
    }
}

impl BackendImpl {
    /// Says what is needed of the terminal to give `value`, or gives the
    /// value where nothing is needed. A wait for an event that has a limit
    /// never becomes one without limit.
    pub fn get(&mut self, value: Value) -> (query: Query)
        ensures
            final(self).wf() == old(self).wf(),
            query == query_for(old(self)@, value),
            value matches Value::Event(Some(_)) ==> is_bounded(query),
            final(self)@ == state_after_query(old(self)@, value),
    {
        match value {
            Value::TerminalSize => Query::MaxYx,
            Value::CursorPosition => Query::CurYx,
            Value::Event(wait) => {
                if let Some(event) = self.try_take() {
                    return Query::Done(Retrieved::Event(Some(event)));
                }
                let millis = match wait {
                    Some(duration) => Some(as_millis(&duration)),
                    None => None,
                };
                Query::Input { timeout: poll_timeout(millis) }
            },
        }
    }

    /// Gives the value that follows from what the caller has found out, and
    /// the call that is to follow, if one is.
    pub fn resolve(&mut self, reply: Reply) -> (result: (Retrieved, Option<Command>))
        ensures
            final(self).wf() == old(self).wf(),
            result.0 == resolved(old(self)@, reply),
            result.1 == follow_up(reply),
            final(self)@ == state_after_reply(old(self)@, reply),
    {
        match reply {
            Reply::MaxYx { y, x } => (
                Retrieved::TerminalSize(
                    #[verifier::truncate]
                    (x as u16),
                    #[verifier::truncate]
                    (y as u16),
                ),
                None,
            ),
            Reply::CurYx { y, x } => (
                Retrieved::CursorPosition(
                    #[verifier::truncate]
                    (x as u16),
                    #[verifier::truncate]
                    (y as u16),
                ),
                None,
            ),
            Reply::Input(None) => (Retrieved::Event(None), None),
            Reply::Input(Some(input)) => {
                let (event, command) = self.parse_next(input);
                (Retrieved::Event(Some(event)), command)
            },
        }
    }
}

} // verus!
