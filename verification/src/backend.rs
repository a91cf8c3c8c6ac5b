//! The curses driver: everything it decides, nothing it performs.

use vstd::prelude::*;

use crate::action::{Action, Retrieved, Value};
use crate::backend::implementation::{is_act_of, is_batch_of};
use crate::backend::keymap::is_keymap;
use crate::backend::pairs::DEFAULT_KEY;
use crate::backend::query::{
    follow_up,
    is_bounded,
    query_for,
    resolved,
    state_after_query,
    state_after_reply,
};
use crate::error::ErrorKind;

pub mod color;
pub mod command;
pub mod current_style;
pub mod implementation;
pub mod input;
pub mod keymap;
pub mod mapping;
pub mod mouse;
pub mod pairs;
pub mod query;

pub use self::color::find_closest;
pub use self::command::{check, Command, EscapeSequence};
pub use self::current_style::{CurrentStyle, Rendition, Renditions};
pub use self::implementation::BackendImpl;
pub use self::input::{Input, InputCache, MouseState};
pub use self::keymap::{fill_key_codes, initialize_keymap, parse_key_name};
pub use self::pairs::ColorPairCache;
pub use self::query::{poll_timeout, Query, Reply};

verus! {

/// What a driver of a terminal offers: it stages actions and commits them,
/// and it retrieves values. A driver decides what is to be done and hands
/// the calls to its caller; what each of its functions gives is laid down by
/// the driver itself, in the predicate of that function.
pub trait Backend: Sized {
    /// Whether the driver is in order.
    spec fn is_ready(&self) -> bool;

    /// Whether the driver is as it is before anything was asked of it.
    spec fn is_new(&self) -> bool;

    /// Whether `result` and `after` are what performing `action` gives in
    /// this state.
    spec fn acts(
        &self,
        action: Action,
        result: Result<Vec<Command>, ErrorKind>,
        after: Self,
    ) -> bool;

    /// Whether `result` and `after` are what staging `action` gives in this
    /// state.
    spec fn batches(
        &self,
        action: Action,
        result: Result<Vec<Command>, ErrorKind>,
        after: Self,
    ) -> bool;

    /// Whether `result` and `after` are what committing the staged actions
    /// gives in this state.
    spec fn flushes(&self, result: Result<Vec<Command>, ErrorKind>, after: Self) -> bool;

    /// Whether `result` and `after` are what a request for `value` gives in
    /// this state.
    spec fn asks(&self, value: Value, result: Result<Query, ErrorKind>, after: Self) -> bool;

    /// Whether `result` and `after` are what follows in this state from
    /// what the caller has found out.
    spec fn resolves(
        &self,
        reply: Reply,
        result: (Retrieved, Option<Command>),
        after: Self,
    ) -> bool;

    /// A driver as it is before anything was asked of it, or nothing if the
    /// terminal cannot be driven.
    fn create() -> (backend: Option<Self>)
        ensures
            match backend {
                Some(backend) => backend.is_ready() && backend.is_new(),
                None => true,
            },
    ;

    /// Performs an action: stages it and commits it at once. A driver that
    /// has no means for the action refuses it under the action's name.
    fn act(&mut self, action: Action) -> (result: Result<Vec<Command>, ErrorKind>)
        requires
            old(self).is_ready(),
        ensures
            final(self).is_ready(),
            old(self).acts(action, result, *final(self)),
            match result {
                Err(ErrorKind::ActionNotSupported(name)) => name@ == action.spec_name(),
                _ => true,
            },
    ;

    /// Stages an action. A driver that has no means for the action refuses
    /// it under the action's name.
    fn batch(&mut self, action: Action) -> (result: Result<Vec<Command>, ErrorKind>)
        requires
            old(self).is_ready(),
        ensures
            final(self).is_ready(),
            old(self).batches(action, result, *final(self)),
            match result {
                Err(ErrorKind::ActionNotSupported(name)) => name@ == action.spec_name(),
                _ => true,
            },
    ;

    /// Commits what was staged.
    fn flush_batch(&mut self) -> (result: Result<Vec<Command>, ErrorKind>)
        requires
            old(self).is_ready(),
        ensures
            final(self).is_ready(),
            old(self).flushes(result, *final(self)),
    ;

    /// Says what is needed of the terminal to give `value`, or gives the
    /// value where nothing is needed.
    fn get(&mut self, value: Value) -> (result: Result<Query, ErrorKind>)
        requires
            old(self).is_ready(),
        ensures
            final(self).is_ready(),
            old(self).asks(value, result, *final(self)),
    ;

    /// Gives the value that follows from what the caller has found out, and
    /// the call that is to follow, if one is.
    fn resolve(&mut self, reply: Reply) -> (result: (Retrieved, Option<Command>))
        requires
            old(self).is_ready(),
        ensures
            final(self).is_ready(),
            old(self).resolves(reply, result, *final(self)),
    ;
}

impl Backend for BackendImpl {
    open spec fn is_ready(&self) -> bool {
        self.wf()
    }

    open spec fn is_new(&self) -> bool {
        &&& self@.current_style == CurrentStyle::initial()
        &&& self@.color_pairs == seq![DEFAULT_KEY]
        &&& self@.input_cache == (InputCache { last_mouse_button: None, stored_event: None })
        &&& is_keymap(self@.key_codes)
    }

    open spec fn acts(
        &self,
        action: Action,
        result: Result<Vec<Command>, ErrorKind>,
        after: BackendImpl,
    ) -> bool {
        is_act_of(self@, action, result, after@)
    }

    open spec fn batches(
        &self,
        action: Action,
        result: Result<Vec<Command>, ErrorKind>,
        after: BackendImpl,
    ) -> bool {
        is_batch_of(self@, action, result, after@)
    }

    open spec fn flushes(&self, result: Result<Vec<Command>, ErrorKind>, after: BackendImpl) -> bool {
        &&& result matches Ok(commands) && commands@ == seq![Command::Refresh]
        &&& after@ == self@
    }

    open spec fn asks(&self, value: Value, result: Result<Query, ErrorKind>, after: BackendImpl) -> bool {
        &&& result matches Ok(query) && query == query_for(self@, value) && (value matches Value::Event(
            Some(_),
        ) ==> is_bounded(query))
        &&& after@ == state_after_query(self@, value)
    }

    open spec fn resolves(
        &self,
        reply: Reply,
        result: (Retrieved, Option<Command>),
        after: BackendImpl,
    ) -> bool {
        &&& result.0 == resolved(self@, reply)
        &&& result.1 == follow_up(reply)
        &&& after@ == state_after_reply(self@, reply)
    }

    fn create() -> (backend: Option<BackendImpl>) {
        BackendImpl::create()
    }

    fn act(&mut self, action: Action) -> (result: Result<Vec<Command>, ErrorKind>) {
        BackendImpl::act(self, action)
    }

    fn batch(&mut self, action: Action) -> (result: Result<Vec<Command>, ErrorKind>) {
        BackendImpl::batch(self, action)
    }

    fn flush_batch(&mut self) -> (result: Result<Vec<Command>, ErrorKind>) {
        BackendImpl::flush_batch(self)
    }

    fn get(&mut self, value: Value) -> (result: Result<Query, ErrorKind>) {
        Ok(BackendImpl::get(self, value))
    }

    fn resolve(&mut self, reply: Reply) -> (result: (Retrieved, Option<Command>)) {
        BackendImpl::resolve(self, reply)
    }
}

} // verus!
