//! The exit signal channel: the cell a platform backend writes a quit or
//! fatal signal into, and that the engine's tick reads and clears.

use vstd::prelude::*;

verus! {

/// An `anyhow::Error`, carried through as an opaque diagnostic payload.
#[verifier::external_type_specification]
#[verifier::external_body]
pub struct ExAnyhowError(anyhow::Error);

/// What the engine's event loop should do next.
pub enum ExitState {
    /// Keep running (the steady state).
    Running,
    /// A graceful quit was requested.
    ExitSuccess,
    /// A fatal error was observed, with its diagnostic.
    ExitError(anyhow::Error),
    /// A fatal error was observed; its diagnostic did not survive the read.
    ExitErrorGeneric,
}

impl ExitState {
    /// Whether this is anything other than `Running`.
    pub open spec fn is_exit(&self) -> bool {
        !(self is Running)
    }
}

/// The state that a read hands out: an error loses its diagnostic, every
/// other state is handed out as it is.
pub open spec fn collapsed(s: ExitState) -> ExitState {
    match s {
        ExitState::ExitError(_) => ExitState::ExitErrorGeneric,
        _ => s,
    }
}

/// Holds the latest requested exit state.
pub struct ExitManager {
    exit_state: ExitState,
}

impl ExitManager {
    /// The exit state currently held.
    pub closed spec fn state(&self) -> ExitState {
        self.exit_state
    }

    /// The step of a read: `r` is what `pre` held, collapsed, and `post`
    /// holds `Running`.
    pub open spec fn takes(pre: ExitManager, post: ExitManager, r: ExitState) -> bool {
        &&& r == collapsed(pre.state())
        &&& post.state() is Running
    }

    /// A channel that starts out `Running`.
    pub fn new() -> (r: ExitManager)
        ensures
            r.state() is Running,
    {
        ExitManager { exit_state: ExitState::Running }
    }

    /// Peeks: true for anything but `Running`, without consuming the state.
    pub fn should_exit(&self) -> (r: bool)
        ensures
            r == self.state().is_exit(),
    {
        match &self.exit_state {
            ExitState::Running => false,
            _ => true,
        }
    }

    /// Overwrites the current state; the last write before a read wins.
    pub fn set(&mut self, value: ExitState)
        ensures
            final(self).state() == value,
    {
        self.exit_state = value;
    }

    /// Reads the state and resets it to `Running`; an error is handed out
    /// as `ExitErrorGeneric`.
    pub fn take_exit_state(&mut self) -> (r: ExitState)
        ensures
            ExitManager::takes(*old(self), *final(self), r),
    {
        let mut taken = ExitState::Running;
        core::mem::swap(&mut self.exit_state, &mut taken);
        match taken {
            ExitState::ExitError(_) => ExitState::ExitErrorGeneric,
            other => other,
        }
    }
}

/// Taking twice in a row with no `set` in between: the second read hands
/// out `Running`, whatever the state was before the first.
pub proof fn lemma_second_take_is_running(
    m0: ExitManager,
    m1: ExitManager,
    m2: ExitManager,
    first: ExitState,
    second: ExitState,
)
    requires
        ExitManager::takes(m0, m1, first),
        ExitManager::takes(m1, m2, second),
    ensures
        second is Running,
        m2.state() is Running,
{
}

} // verus!
