//! The terminal, and the lock that gives exclusive access to it.
//!
//! A terminal is mutated by one holder at a time. Whoever wants to mutate it
//! takes its lock; while the lock is out every other attempt to take it fails
//! at once, without waiting. The functions of [`Terminal`] itself take the
//! lock for one operation and give it back.

use vstd::prelude::*;

use crate::action::{Action, Retrieved, Value};
use crate::backend::command::Command;
use crate::backend::implementation::{is_act_of, is_batch_of, BackendImpl, BackendState};
use crate::backend::query::{
    follow_up,
    is_bounded,
    query_for,
    resolved,
    state_after_query,
    state_after_reply,
    Query,
    Reply,
};
use crate::error::ErrorKind;

verus! {

/// What the error of a failed attempt to take the lock says.
pub const LOCK_MESSAGE: &'static str = "`Terminal` can only be mutably borrowed once.";

/// A terminal: the driver, and the lock on it.
pub struct Terminal {
    backend: Option<BackendImpl>,
}

/// The lock of a [`Terminal`], and with it the access to the driver. The
/// terminal stays locked until the lock is given back with
/// [`Terminal::unlock`].
pub struct TerminalLock {
    backend: BackendImpl,
}

impl View for Terminal {
    type V = Option<BackendState>;

    /// What the driver holds, or nothing while the lock is out.
    closed spec fn view(&self) -> Option<BackendState> {
        match self.backend {
            Some(backend) => Some(backend@),
            None => None,
        }
    }
}

impl View for TerminalLock {
    type V = BackendState;

    closed spec fn view(&self) -> BackendState {
        self.backend@
    }
}

/// Whether an error says that the lock was out.
pub open spec fn is_contention(error: ErrorKind) -> bool {
    error matches ErrorKind::AttemptToAcquireLock(reason) && reason@ == LOCK_MESSAGE@
}

/// Whether an attempt to take the lock of a terminal succeeds: it does
/// unless the lock is out.
pub open spec fn grants_lock(terminal: Option<BackendState>) -> bool {
    terminal is Some
}

/// The terminal after an attempt to take its lock: the lock is out, whether
/// it was taken by this attempt or before it.
pub open spec fn after_lock(terminal: Option<BackendState>) -> Option<BackendState> {
    None
}

/// The terminal after a lock was given back, with what the driver held
/// behind the lock at that moment.
pub open spec fn after_unlock(terminal: Option<BackendState>, state: BackendState) -> Option<
    BackendState,
> {
    Some(state)
}

/// Of two attempts in a row to take the lock of a terminal the second
/// fails, and an attempt made after the lock was given back succeeds.
pub proof fn lemma_lock_is_exclusive(terminal: Option<BackendState>, returned: BackendState)
    ensures
        !grants_lock(after_lock(terminal)),
        grants_lock(after_unlock(after_lock(terminal), returned)),
{
}

impl TerminalLock {
    /// Whether the driver behind the lock is in order.
    pub closed spec fn wf(&self) -> bool {
        self.backend.wf()
    }

    /// A lock that gives access to `backend`.
    pub fn new(backend: BackendImpl) -> (lock: TerminalLock)
        ensures
            lock@ == backend@,
            lock.wf() == backend.wf(),
    {
        TerminalLock { backend }
    }

    /// See [`BackendImpl::act`].
    pub fn act(&mut self, action: Action) -> (result: Result<Vec<Command>, ErrorKind>)
        requires
            old(self).wf(),
        ensures
            final(self).wf(),
            is_act_of(old(self)@, action, result, final(self)@),
    {
        self.backend.act(action)
    }

    /// See [`BackendImpl::batch`].
    pub fn batch(&mut self, action: Action) -> (result: Result<Vec<Command>, ErrorKind>)
        requires
            old(self).wf(),
        ensures
            final(self).wf(),
            is_batch_of(old(self)@, action, result, final(self)@),
    {
        self.backend.batch(action)
    }

    /// See [`BackendImpl::flush_batch`].
    pub fn flush_batch(&mut self) -> (result: Result<Vec<Command>, ErrorKind>)
        ensures
            result matches Ok(commands) && commands@ == seq![Command::Refresh],
            final(self)@ == old(self)@,
            final(self).wf() == old(self).wf(),
    {
        self.backend.flush_batch()
    }

    /// See [`BackendImpl::get`].
    pub fn get(&mut self, value: Value) -> (result: Result<Query, ErrorKind>)
        ensures
            final(self).wf() == old(self).wf(),
            result matches Ok(query) && query == query_for(old(self)@, value) && (value matches Value::Event(
                Some(_),
            ) ==> is_bounded(query)),
            final(self)@ == state_after_query(old(self)@, value),
    {
        Ok(self.backend.get(value))
    }

    /// See [`BackendImpl::resolve`].
    pub fn resolve(&mut self, reply: Reply) -> (result: (Retrieved, Option<Command>))
        ensures
            final(self).wf() == old(self).wf(),
            result.0 == resolved(old(self)@, reply),
            result.1 == follow_up(reply),
            final(self)@ == state_after_reply(old(self)@, reply),
    {
        self.backend.resolve(reply)
    }
}

impl Terminal {
    /// Whether the driver of the terminal is in order, if the lock is not
    /// out.
    pub closed spec fn wf(&self) -> bool {
        match self.backend {
            Some(backend) => backend.wf(),
            None => true,
        }
    }

    /// A terminal, not locked, on the driver `backend`.
    pub fn custom(backend: BackendImpl) -> (terminal: Terminal)
        requires
            backend.wf(),
        ensures
            terminal.wf(),
            grants_lock(terminal@),
            terminal@ == Some(backend@),
    {
        Terminal { backend: Some(backend) }
    }

    /// Takes the lock of the terminal if it is not out, and fails at once if
    /// it is.
    pub fn lock_mut(&mut self) -> (result: Result<TerminalLock, ErrorKind>)
        requires
            old(self).wf(),
        ensures
            final(self).wf(),
            result is Ok <==> grants_lock(old(self)@),
            final(self)@ == after_lock(old(self)@),
            match old(self)@ {
                Some(state) => result matches Ok(lock) && lock@ == state && lock.wf(),
                None => result matches Err(error) && is_contention(error),
            },
    {
        match self.backend.take() {
            Some(backend) => Ok(TerminalLock::new(backend)),
            None => Err(ErrorKind::AttemptToAcquireLock(String::from_str(LOCK_MESSAGE))),
        }
    }

    /// Gives the lock back: the terminal is not locked from then on, and its
    /// driver holds what it held behind the lock.
    pub fn unlock(&mut self, lock: TerminalLock)
        requires
            lock.wf(),
        ensures
            final(self).wf(),
            final(self)@ == after_unlock(old(self)@, lock@),
    {
        self.backend = Some(lock.backend);
    }

    /// Performs an action under a lock of its own; fails if the lock is out.
    pub fn act(&mut self, action: Action) -> (result: Result<Vec<Command>, ErrorKind>)
        requires
            old(self).wf(),
        ensures
            final(self).wf(),
            match old(self)@ {
                Some(state) => final(self)@ matches Some(after) && is_act_of(
                    state,
                    action,
                    result,
                    after,
                ),
                None => {
                    &&& result matches Err(error) && is_contention(error)
                    &&& final(self)@ == old(self)@
                },
            },
    {
        let mut lock = match self.lock_mut() {
            Ok(lock) => lock,
            Err(error) => {
                return Err(error);
            },
        };
        let result = lock.act(action);
        self.unlock(lock);
        result
    }

    /// Stages an action under a lock of its own; fails if the lock is out.
    pub fn batch(&mut self, action: Action) -> (result: Result<Vec<Command>, ErrorKind>)
        requires
            old(self).wf(),
        ensures
            final(self).wf(),
            match old(self)@ {
                Some(state) => final(self)@ matches Some(after) && is_batch_of(
                    state,
                    action,
                    result,
                    after,
                ),
                None => {
                    &&& result matches Err(error) && is_contention(error)
                    &&& final(self)@ == old(self)@
                },
            },
    {
        let mut lock = match self.lock_mut() {
            Ok(lock) => lock,
            Err(error) => {
                return Err(error);
            },
        };
        let result = lock.batch(action);
        self.unlock(lock);
        result
    }

    /// Commits what was staged, under a lock of its own; fails if the lock
    /// is out.
    pub fn flush_batch(&mut self) -> (result: Result<Vec<Command>, ErrorKind>)
        requires
            old(self).wf(),
        ensures
            final(self).wf(),
            final(self)@ == old(self)@,
            match old(self)@ {
                Some(_) => result matches Ok(commands) && commands@ == seq![Command::Refresh],
                None => result matches Err(error) && is_contention(error),
            },
    {
        let mut lock = match self.lock_mut() {
            Ok(lock) => lock,
            Err(error) => {
                return Err(error);
            },
        };
        let result = lock.flush_batch();
        self.unlock(lock);
        result
    }

    /// Says what is needed of the terminal to give `value`, under a lock of
    /// its own; fails if the lock is out.
    pub fn get(&mut self, value: Value) -> (result: Result<Query, ErrorKind>)
        requires
            old(self).wf(),
        ensures
            final(self).wf(),
            match old(self)@ {
                Some(state) => {
                    &&& result matches Ok(query) && query == query_for(state, value) && (value matches Value::Event(
                        Some(_),
                    ) ==> is_bounded(query))
                    &&& final(self)@ == Some(state_after_query(state, value))
                },
                None => {
                    &&& result matches Err(error) && is_contention(error)
                    &&& final(self)@ == old(self)@
                },
            },
    {
        let mut lock = match self.lock_mut() {
            Ok(lock) => lock,
            Err(error) => {
                return Err(error);
            },
        };
        let result = lock.get(value);
        self.unlock(lock);
        result
    }

    /// Gives the value that follows from what the caller has found out,
    /// under a lock of its own; fails if the lock is out.
    pub fn resolve(&mut self, reply: Reply) -> (result: Result<
        (Retrieved, Option<Command>),
        ErrorKind,
    >)
        requires
            old(self).wf(),
        ensures
            final(self).wf(),
            match old(self)@ {
                Some(state) => {
                    &&& result matches Ok(value) && value.0 == resolved(state, reply) && value.1
                        == follow_up(reply)
                    &&& final(self)@ == Some(state_after_reply(state, reply))
                },
                None => {
                    &&& result matches Err(error) && is_contention(error)
                    &&& final(self)@ == old(self)@
                },
            },
    {
        let mut lock = match self.lock_mut() {
            Ok(lock) => lock,
            Err(error) => {
                return Err(error);
            },
        };
        let result = lock.resolve(reply);
        self.unlock(lock);
        Ok(result)
    }
}

} // verus!
