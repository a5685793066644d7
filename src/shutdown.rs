//! The bounded shutdown protocol for a backend child process.
//!
//! The protocol is a state machine: each phase names what the caller does
//! next, and the caller reports what happened as an event. One forced kill
//! signal, then a poll every `POLL_INTERVAL_MS` while less than
//! `STOP_TIMEOUT_MS` has elapsed since the signal, then a blocking wait.
use vstd::prelude::*;

verus! {

/// Length of the poll window, measured from just after the kill signal.
pub const STOP_TIMEOUT_MS: u64 = 3000;

/// Pause between two polls.
pub const POLL_INTERVAL_MS: u64 = 100;

/// What a non-blocking status check of the child reported.
#[derive(Clone, Copy, Debug, PartialEq, Eq, Structural)]
pub enum ChildStatus {
    /// The child has exited.
    Exited,
    /// The child is still running.
    Running,
    /// The OS failed to report the child's status.
    Unknown,
}

/// Where the protocol stands, and so what the caller does next.
#[derive(Clone, Copy, Debug, PartialEq, Eq, Structural)]
pub enum StopPhase {
    /// Send the kill signal (a failure to send is ignored), then report `Signalled`.
    Signal,
    /// Read the time elapsed since the signal and report it as `Clock`.
    Check,
    /// Ask, without blocking, whether the child exited, and report `Status`.
    Poll,
    /// Sleep `POLL_INTERVAL_MS`, then report `Paused`.
    Pause,
    /// Block until the child exits, then report `Reaped`.
    Reap,
    /// Done: the child has exited.
    Finished,
}

/// What the caller reports after doing what a phase asks.
#[derive(Clone, Copy, Debug, PartialEq, Eq, Structural)]
pub enum StopEvent {
    Signalled,
    Clock { elapsed_ms: u64 },
    Status { status: ChildStatus },
    Paused,
    Reaped,
}

/// One transition. An event that does not answer the current phase leaves it unchanged.
pub open spec fn spec_stop_step(phase: StopPhase, event: StopEvent) -> StopPhase {
    match phase {
        StopPhase::Signal => if event is Signalled {
            StopPhase::Check
        } else {
            phase
        },
        StopPhase::Check => match event {
            StopEvent::Clock { elapsed_ms } => if elapsed_ms < STOP_TIMEOUT_MS {
                StopPhase::Poll
            } else {
                StopPhase::Reap
            },
            _ => phase,
        },
        StopPhase::Poll => match event {
            StopEvent::Status { status } => match status {
                ChildStatus::Exited => StopPhase::Finished,
                ChildStatus::Running => StopPhase::Pause,
                ChildStatus::Unknown => StopPhase::Reap,
            },
            _ => phase,
        },
        StopPhase::Pause => if event is Paused {
            StopPhase::Check
        } else {
            phase
        },
        StopPhase::Reap => if event is Reaped {
            StopPhase::Finished
        } else {
            phase
        },
        StopPhase::Finished => phase,
    }
}

/// The phase reached from `phase` after the events, in order.
pub open spec fn spec_stop_run(phase: StopPhase, events: Seq<StopEvent>) -> StopPhase
    decreases events.len(),
{
    if events.len() == 0 {
        phase
    } else {
        spec_stop_run(spec_stop_step(phase, events[0]), events.drop_first())
    }
}

/// An event that shows the child has exited.
pub open spec fn shows_exit(event: StopEvent) -> bool {
    event == (StopEvent::Status { status: ChildStatus::Exited }) || event is Reaped
}

/// An event that sends the protocol to the blocking wait: the window has run
/// out, or the status channel failed.
pub open spec fn forces_wait(event: StopEvent) -> bool {
    ||| event matches StopEvent::Clock { elapsed_ms } && elapsed_ms >= STOP_TIMEOUT_MS
    ||| event == (StopEvent::Status { status: ChildStatus::Unknown })
}

impl StopPhase {
    /// The phase in which a stop begins, once a child handle has been taken.
    pub fn initial() -> (r: StopPhase)
        ensures
            r == StopPhase::Signal,
    {
        StopPhase::Signal
    }

    /// Whether the protocol is done.
    pub fn is_finished(self) -> (r: bool)
        ensures
            r == (self == StopPhase::Finished),
    {
        self == StopPhase::Finished
    }

    /// The phase that follows `self` once the caller reports `event`.
    pub fn next(self, event: StopEvent) -> (r: StopPhase)
        ensures
            r == spec_stop_step(self, event),
    {
        match self {
            StopPhase::Signal => match event {
                StopEvent::Signalled => StopPhase::Check,
                _ => self,
            },
            StopPhase::Check => match event {
                StopEvent::Clock { elapsed_ms } => if elapsed_ms < STOP_TIMEOUT_MS {
                    StopPhase::Poll
                } else {
                    StopPhase::Reap
                },
                _ => self,
            },
            StopPhase::Poll => match event {
                StopEvent::Status { status } => match status {
                    ChildStatus::Exited => StopPhase::Finished,
                    ChildStatus::Running => StopPhase::Pause,
                    ChildStatus::Unknown => StopPhase::Reap,
                },
                _ => self,
            },
            StopPhase::Pause => match event {
                StopEvent::Paused => StopPhase::Check,
                _ => self,
            },
            StopPhase::Reap => match event {
                StopEvent::Reaped => StopPhase::Finished,
                _ => self,
            },
            StopPhase::Finished => self,
        }
    }
}

/// How long the caller sleeps in the `Pause` phase, in milliseconds.
pub fn poll_interval_ms() -> (r: u64)
    ensures
        r == POLL_INTERVAL_MS,
{
    POLL_INTERVAL_MS
}

/// Once the poll window has run out the protocol goes to the blocking wait, and
/// from there only the child's exit ends it.
pub proof fn lemma_timeout_forces_wait(elapsed_ms: u64, event: StopEvent)
    requires
        elapsed_ms >= STOP_TIMEOUT_MS,
    ensures
        spec_stop_step(StopPhase::Check, StopEvent::Clock { elapsed_ms }) == StopPhase::Reap,
        !(event is Reaped) ==> spec_stop_step(StopPhase::Reap, event) == StopPhase::Reap,
        event is Reaped ==> spec_stop_step(StopPhase::Reap, event) == StopPhase::Finished,
{
}

/// The protocol never finishes before the child has been seen to exit: any run
/// that reaches `Finished` holds an event that reports the exit.
pub proof fn lemma_finishes_only_after_exit(phase: StopPhase, events: Seq<StopEvent>)
    requires
        phase != StopPhase::Finished,
        spec_stop_run(phase, events) == StopPhase::Finished,
    ensures
        exists|i: int| 0 <= i < events.len() && shows_exit(#[trigger] events[i]),
    decreases events.len(),
{
    if events.len() == 0 {
    } else {
        let next = spec_stop_step(phase, events[0]);
        if next == StopPhase::Finished {
            assert(shows_exit(events[0]));
        } else {
            lemma_finishes_only_after_exit(next, events.drop_first());
            let i = choose|i: int| 0 <= i < events.drop_first().len() && shows_exit(#[trigger] events.drop_first()[i]);
            assert(shows_exit(events[i + 1]));
        }
    }
}

proof fn lemma_no_wait_at_end(phase: StopPhase, events: Seq<StopEvent>)
    requires
        phase != StopPhase::Reap,
        forall|i: int| 0 <= i < events.len() ==> !forces_wait(#[trigger] events[i]),
    ensures
        spec_stop_run(phase, events) != StopPhase::Reap,
    decreases events.len(),
{
    if events.len() > 0 {
        assert(!forces_wait(events[0]));
        let rest = events.drop_first();
        assert forall|i: int| 0 <= i < rest.len() implies !forces_wait(#[trigger] rest[i]) by {
            assert(rest[i] == events[i + 1]);
        }
        lemma_no_wait_at_end(spec_stop_step(phase, events[0]), rest);
    }
}

/// A child that is seen to exit inside the poll window, over a status channel
/// that does not fail, is never waited for: no prefix of such a run from the
/// start of the protocol reaches the blocking wait.
pub proof fn lemma_exit_in_window_skips_wait(events: Seq<StopEvent>, k: int)
    requires
        0 <= k <= events.len(),
        forall|i: int| 0 <= i < events.len() ==> !forces_wait(#[trigger] events[i]),
    ensures
        spec_stop_run(StopPhase::Signal, events.take(k)) != StopPhase::Reap,
{
    let prefix = events.take(k);
    assert forall|i: int| 0 <= i < prefix.len() implies !forces_wait(#[trigger] prefix[i]) by {
        assert(prefix[i] == events[i]);
    }
    lemma_no_wait_at_end(StopPhase::Signal, prefix);
}

} // verus!
