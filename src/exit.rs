use vstd::prelude::*;

use crate::errors::ErrorKind;

verus! {

/// The final outcome of a run: `Ok` on graceful termination.
pub type ExitResult = Result<(), ErrorKind>;

/// The one final result the process entry point acts on.
pub struct ExitSlot {
    pub result: Option<ExitResult>,
}

/// Posting `r` into `s` gives `t`, and says whether `r` was taken.
pub open spec fn post_rel(s: ExitSlot, r: ExitResult, t: ExitSlot, accepted: bool) -> bool {
    if s.result is None {
        accepted && t.result == Some(r)
    } else {
        !accepted && t == s
    }
}

impl ExitSlot {
    pub fn new() -> (r: ExitSlot)
        ensures
            r.result is None,
    {
        ExitSlot { result: None }
    }

    /// Records `r` unless a result was recorded already; the first one wins.
    pub fn post(&mut self, r: ExitResult) -> (accepted: bool)
        ensures
            post_rel(*old(self), r, *final(self), accepted),
    {
        if self.result.is_none() {
            self.result = Some(r);
            true
        } else {
            false
        }
    }

    /// Whether the entry point can shut down now.
    pub fn is_decided(&self) -> (r: bool)
        ensures
            r == self.result is Some,
    {
        self.result.is_some()
    }
}

/// When two threads post a final result, the first one is kept, the second
/// is refused, and the outcome is decided after the first post.
pub proof fn lemma_single_writer_wins(
    s0: ExitSlot,
    first: ExitResult,
    s1: ExitSlot,
    b1: bool,
    second: ExitResult,
    s2: ExitSlot,
    b2: bool,
)
    requires
        s0.result is None,
        post_rel(s0, first, s1, b1),
        post_rel(s1, second, s2, b2),
    ensures
        b1,
        !b2,
        s1.result is Some,
        s2.result == Some(first),
{
}

/// What the signal-trapping thread does once trapping returns.
#[derive(Debug, PartialEq, Eq)]
pub enum TrapOutcome {
    /// A termination signal arrived: ask the handler to exit.
    SendExitCommand,
    /// Signals could not be trapped: end the run with this result directly.
    PostExit(ExitResult),
}

/// Decides what follows trapping signals: a trapped signal becomes an
/// `Exit` command, a failure to trap becomes a final error.
pub fn spawn_trap_exit_signals(trapped: bool) -> (r: TrapOutcome)
    ensures
        trapped ==> r is SendExitCommand,
        !trapped ==> r == TrapOutcome::PostExit(Err(ErrorKind::TrapExitSignals)),
{
    if trapped {
        TrapOutcome::SendExitCommand
    } else {
        TrapOutcome::PostExit(Err(ErrorKind::TrapExitSignals))
    }
}

/// Whether the activity timeout monitor runs: a timeout of zero turns it off.
pub fn spawn_activity_timeout(activity_timeout: u64) -> (r: bool)
    ensures
        r == (activity_timeout != 0),
{
    activity_timeout != 0
}

} // verus!
