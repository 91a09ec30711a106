//! The single slot that holds the running backend process, and the steps
//! that take it down.
use vstd::prelude::*;
use crate::launcher::LaunchError;
use crate::paths::Platform;

verus! {

/// Holds the handle of the running backend, if any. Empty means either not
/// yet started or already stopped. Callers share it behind a lock.
pub struct ProcessSlot<H> {
    handle: Option<H>,
}

impl<H> View for ProcessSlot<H> {
    type V = Option<H>;

    closed spec fn view(&self) -> Option<H> {
        self.handle
    }
}

/// What a stop does to a slot holding `slot`: the handle it hands over for
/// termination, and what the slot holds afterwards.
pub open spec fn stop_outcome<H>(slot: Option<H>) -> (Option<H>, Option<H>) {
    (slot, None)
}

impl<H> ProcessSlot<H> {
    /// An empty slot.
    pub fn new() -> (r: Self)
        ensures
            r@ is None,
    {
        ProcessSlot { handle: None }
    }

    pub fn is_empty(&self) -> (r: bool)
        ensures
            r == (self@ is None),
    {
        self.handle.is_none()
    }

    /// Records a freshly spawned process, replacing whatever was held.
    pub fn record(&mut self, handle: H)
        ensures
            final(self)@ == Some(handle),
    {
        self.handle = Some(handle);
    }

    /// Starts a stop: hands over the held process, if any, and leaves the slot
    /// empty. With an empty slot there is nothing to terminate.
    pub fn take(&mut self) -> (r: Option<H>)
        ensures
            (r, final(self)@) == stop_outcome(old(self)@),
    {
        let r = self.handle.take();
        r
    }

    /// Finishes a launch from what the spawn returned: a process is recorded,
    /// a refusal becomes an error and leaves the slot as it was.
    pub fn complete_launch(&mut self, spawned: Result<H, String>) -> (r: Result<(), LaunchError>)
        ensures
            match spawned {
                Ok(h) => r is Ok && final(self)@ == Some(h),
                Err(m) => r == Err::<(), LaunchError>(LaunchError::SpawnFailed(m)) && final(self)@
                    == old(self)@,
            },
    {
        match spawned {
            Ok(h) => {
                self.record(h);
                Ok(())
            },
            Err(m) => Err(LaunchError::SpawnFailed(m)),
        }
    }
}

/// Stopping twice in a row: the second stop finds nothing to terminate and
/// leaves the slot as the first one left it.
pub proof fn lemma_stop_twice_is_noop<H>(slot: Option<H>)
    ensures
        stop_outcome(stop_outcome(slot).1).0 is None,
        stop_outcome(stop_outcome(slot).1).1 == stop_outcome(slot).1,
{
}

/// Stopping when nothing was ever launched finds nothing to terminate and
/// leaves the slot empty.
pub proof fn lemma_stop_without_launch_is_noop<H>()
    ensures
        stop_outcome::<H>(None) == (None::<H>, None::<H>),
{
}

/// Milliseconds granted to a terminated process before its tree is killed.
pub const GRACE_PERIOD_MS: u64 = 100;

/// Milliseconds to let the window system settle after a close request before
/// counting the windows that remain.
pub const CLOSE_SETTLE_MS: u64 = 100;

/// One step of taking the backend process down.
#[derive(Clone, Copy, Debug, PartialEq, Eq, Structural)]
pub enum StopAction {
    /// Ask the process to terminate.
    Terminate,
    /// Wait this many milliseconds.
    Pause(u64),
    /// Look whether the process has exited; the answer goes to the next step.
    CheckExited,
    /// Force-kill the process and its children by process identifier.
    KillTree,
    /// Wait for the process to exit and reap it.
    Reap,
    /// Nothing more to do.
    Finished,
}

/// The step after `done` (`None` before the first). `exited` is the answer of
/// a `CheckExited` step and is read only after one. Platforms with signals
/// terminate once; on Windows a process still running after the grace period
/// has its whole tree killed. Every path reaps the process before finishing.
pub open spec fn stop_transition(platform: Platform, done: Option<StopAction>, exited: bool) -> StopAction {
    match done {
        None => StopAction::Terminate,
        Some(StopAction::Terminate) => match platform {
            Platform::Windows => StopAction::Pause(GRACE_PERIOD_MS),
            Platform::Unix => StopAction::Reap,
        },
        Some(StopAction::Pause(_)) => StopAction::CheckExited,
        Some(StopAction::CheckExited) => if exited {
            StopAction::Reap
        } else {
            StopAction::KillTree
        },
        Some(StopAction::KillTree) => StopAction::Reap,
        Some(StopAction::Reap) => StopAction::Finished,
        Some(StopAction::Finished) => StopAction::Finished,
    }
}

/// Decides the next step of a stop.
pub fn next_stop_action(platform: Platform, done: Option<StopAction>, exited: bool) -> (r: StopAction)
    ensures
        r == stop_transition(platform, done, exited),
{
    match done {
        None => StopAction::Terminate,
        Some(StopAction::Terminate) => match platform {
            Platform::Windows => StopAction::Pause(GRACE_PERIOD_MS),
            Platform::Unix => StopAction::Reap,
        },
        Some(StopAction::Pause(_)) => StopAction::CheckExited,
        Some(StopAction::CheckExited) => if exited {
            StopAction::Reap
        } else {
            StopAction::KillTree
        },
        Some(StopAction::KillTree) => StopAction::Reap,
        Some(StopAction::Reap) => StopAction::Finished,
        Some(StopAction::Finished) => StopAction::Finished,
    }
}

/// After a close request has settled: stop the backend only when no window
/// remains open, so closing one of several windows keeps it running.
pub fn should_stop_after_close(open_windows: usize) -> (r: bool)
    ensures
        r == (open_windows == 0),
{
    open_windows == 0
}

/// The action at position `n` of a stop in which every `CheckExited` step is
/// answered with `exited`.
pub open spec fn stop_step_at(platform: Platform, exited: bool, n: nat) -> StopAction
    decreases n,
{
    if n == 0 {
        stop_transition(platform, None, exited)
    } else {
        stop_transition(platform, Some(stop_step_at(platform, exited, (n - 1) as nat)), exited)
    }
}

/// Every stop reaps the process and then finishes within six steps; the
/// process tree is force-killed exactly when, on Windows, the process was
/// still running after the grace period.
pub proof fn lemma_stop_always_reaps(platform: Platform, exited: bool)
    ensures
        exists|n: nat| n < 5 && #[trigger] stop_step_at(platform, exited, n) == StopAction::Reap,
        stop_step_at(platform, exited, 5) == StopAction::Finished,
        (exists|n: nat| n < 6 && #[trigger] stop_step_at(platform, exited, n) == StopAction::KillTree)
            <==> (platform == Platform::Windows && !exited),
{
    reveal_with_fuel(stop_step_at, 6);
    match platform {
        Platform::Unix => {
            assert(stop_step_at(platform, exited, 1) == StopAction::Reap);
        },
        Platform::Windows => {
            if exited {
                assert(stop_step_at(platform, exited, 3) == StopAction::Reap);
            } else {
                assert(stop_step_at(platform, exited, 3) == StopAction::KillTree);
                assert(stop_step_at(platform, exited, 4) == StopAction::Reap);
            }
        },
    }
    assert forall|n: nat| n < 6 && #[trigger] stop_step_at(platform, exited, n) == StopAction::KillTree
        implies platform == Platform::Windows && !exited by {
        assert(n == 0 || n == 1 || n == 2 || n == 3 || n == 4 || n == 5);
    }
}

} // verus!
