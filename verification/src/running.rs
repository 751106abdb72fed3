//! The single-session guard: a process-wide flag with test-and-set
//! acquisition, a scoped token for the holder, and a guaranteed release.
//!
//! The flag's state machine is Closed -> Open -> Closed. Acquisition
//! tests and sets the flag in one step and hands out a [`RunningGuard`]
//! token only on the Closed -> Open edge; releasing consumes the token,
//! so a session cannot be released twice or by a non-holder. The embedder
//! owns the one process-wide [`SessionFlag`] (behind its atomic of
//! choice) and must surrender the token on every exit path — normal
//! return, early return or unwind — and only after the rest of the
//! session's teardown, so that a concurrent observer never sees the flag
//! cleared while the terminal is still being restored.

use vstd::prelude::*;

verus! {

/// The process-wide session flag: set exactly while a session is open.
pub struct SessionFlag {
    running: bool,
}

/// The token held by the open session. Only [`run`] creates one, only
/// [`release`] consumes one, and it cannot be copied: while a guard
/// exists, its flag is set.
pub struct RunningGuard {
    token: (),
}

impl SessionFlag {
    /// Whether the flag is set, i.e. a session is open.
    pub closed spec fn is_running(self) -> bool {
        self.running
    }

    /// A fresh flag in the Closed state.
    pub fn new() -> (r: SessionFlag)
        ensures
            !r.is_running(),
    {
        SessionFlag { running: false }
    }
}

/// Whether an acquisition attempt on a flag in this state succeeds:
/// exactly when the flag is clear.
pub open spec fn spec_acquire_succeeds(flag: SessionFlag) -> bool {
    !flag.is_running()
}

/// The flag state after an acquisition attempt: set, whether the attempt
/// won the flag or lost to the session already holding it.
pub closed spec fn spec_after_acquire(flag: SessionFlag) -> SessionFlag {
    SessionFlag { running: true }
}

/// Reads the flag without changing it.
///
/// A diagnostic query only: the answer says whether a session was open
/// at the moment of the read, and a caller may not build correctness on
/// it across that moment.
pub fn running(flag: &SessionFlag) -> (r: bool)
    ensures
        r == flag.is_running(),
{
    flag.running
}

/// One acquisition attempt: tests and sets the flag in a single step.
///
/// Returns the guard token exactly when the flag was clear; a losing
/// attempt gets nothing and has changed nothing it could observe. Either
/// way the flag is set afterwards, so of any two attempts with no
/// release between them, at most one wins.
pub fn run(flag: &mut SessionFlag) -> (r: Option<RunningGuard>)
    ensures
        r is Some <==> spec_acquire_succeeds(*old(flag)),
        *final(flag) == spec_after_acquire(*old(flag)),
        final(flag).is_running(),
{
    let was_running = flag.running;
    flag.running = true;
    if was_running {
        None
    } else {
        Some(RunningGuard { token: () })
    }
}

/// Ends the open session: consumes its token and clears the flag.
pub fn release(flag: &mut SessionFlag, guard: RunningGuard)
    ensures
        !final(flag).is_running(),
{
    let _ = guard;
    flag.running = false;
}

/// Exactly one of two acquisition attempts on a released flag succeeds:
/// the first finds the flag clear and wins it; the second, made on the
/// state the first leaves behind, finds the flag set and loses.
pub proof fn lemma_exclusive_acquisition(flag: SessionFlag)
    requires
        !flag.is_running(),
    ensures
        spec_acquire_succeeds(flag),
        !spec_acquire_succeeds(spec_after_acquire(flag)),
{
}

} // verus!
