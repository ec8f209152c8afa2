//! The shutdown coordinator: a process-wide latch that every shutdown
//! trigger (an OS signal, a session-close event) drives, and that commits
//! the exit action for exactly one of them.
//!
//! Triggers reach the latch one at a time — the commit is a single
//! check-and-set, realized atomically by the caller — so any mix of
//! concurrent triggers is some sequence of `try_commit` calls, and
//! `lemma_exit_exactly_once` says what every such sequence does.

use vstd::prelude::*;

verus! {

/// The coordinator's state: armed until the first trigger, then terminal.
pub enum ShutdownState {
    Armed,
    ExitRequested,
}

/// Where one shutdown trigger leaves the coordinator: in the terminal state,
/// whatever state it was in.
pub open spec fn after_trigger(s: ShutdownState) -> ShutdownState {
    ShutdownState::ExitRequested
}

/// Whether one shutdown trigger commits the exit action: only from the
/// armed state.
pub open spec fn trigger_commits(s: ShutdownState) -> bool {
    s is Armed
}

/// How many of `n` consecutive shutdown triggers, starting from state `s`,
/// commit the exit action.
pub open spec fn commits(s: ShutdownState, n: nat) -> nat
    decreases n,
{
    if n == 0 {
        0
    } else {
        (if trigger_commits(s) {
            1nat
        } else {
            0nat
        }) + commits(after_trigger(s), (n - 1) as nat)
    }
}

/// Once the coordinator has left the armed state, no later trigger commits
/// anything: every trigger after the first is a no-op.
pub proof fn lemma_no_commit_after_exit(n: nat)
    ensures
        commits(ShutdownState::ExitRequested, n) == 0,
    decreases n,
{
    if n > 0 {
        lemma_no_commit_after_exit((n - 1) as nat);
    }
}

/// The idempotent-shutdown law: for every number of shutdown triggers, one
/// or more, reaching an armed coordinator, the exit action is committed
/// exactly once.
pub proof fn lemma_exit_exactly_once(n: nat)
    requires
        n >= 1,
    ensures
        commits(ShutdownState::Armed, n) == 1,
{
    lemma_no_commit_after_exit((n - 1) as nat);
}

/// The process-wide shutdown latch. The flag is the whole state: no heap,
/// no lock, so the caller can realize `try_commit` as one atomic
/// check-and-set that is safe inside a signal handler.
pub struct ShutdownLatch {
    fired: bool,
}

impl ShutdownLatch {
    /// The coordinator state this latch is in.
    pub closed spec fn state(self) -> ShutdownState {
        if self.fired {
            ShutdownState::ExitRequested
        } else {
            ShutdownState::Armed
        }
    }

    /// A fresh latch, armed.
    pub fn new() -> (l: ShutdownLatch)
        ensures
            l.state() is Armed,
    {
        ShutdownLatch { fired: false }
    }

    /// One shutdown trigger: attempt the armed-to-exit transition. True only
    /// for the one caller that performed it; any later call is a no-op.
    pub fn try_commit(&mut self) -> (committed: bool)
        ensures
            committed == trigger_commits(old(self).state()),
            final(self).state() == after_trigger(old(self).state()),
    {
        let was_fired = self.fired;
        self.fired = true;
        !was_fired
    }
}

} // verus!
