//! The frame-duplication capture loop, as a state machine over the events
//! one loop iteration can observe. The OS work of an iteration — the
//! bounded wait for a frame, the copy into the staging surface, the map,
//! unmap and release — happens outside; each iteration reports its outcome
//! as one event, and the machine decides how the loop goes on.
use vstd::prelude::*;

verus! {

/// Pacing of the duplication loop: how long one acquisition may wait for a
/// frame, and how long the loop rests between iterations. The wait must be
/// finite — an unchanged screen must not hang the loop past the timeout.
#[derive(Debug, Clone, Copy, PartialEq, Eq, Structural)]
pub struct DuplicationConfig {
    pub acquire_timeout_ms: u32,
    pub poll_interval_ms: u32,
}

impl DuplicationConfig {
    pub open spec fn wf(self) -> bool {
        self.acquire_timeout_ms > 0
    }

    /// A configuration with a finite, positive acquisition timeout; no
    /// configuration is handed out for a zero timeout, which would turn
    /// the bounded wait into a poll.
    pub fn new(acquire_timeout_ms: u32, poll_interval_ms: u32) -> (r: Option<DuplicationConfig>)
        ensures
            r is Some <==> acquire_timeout_ms > 0,
            r is Some ==> {
                &&& r->0.wf()
                &&& r->0.acquire_timeout_ms == acquire_timeout_ms
                &&& r->0.poll_interval_ms == poll_interval_ms
            },
    {
        if acquire_timeout_ms > 0 {
            Some(DuplicationConfig { acquire_timeout_ms, poll_interval_ms })
        } else {
            None
        }
    }
}

/// What one loop iteration observed.
#[derive(Debug, Clone, Copy, PartialEq, Eq, Structural)]
pub enum DuplicationEvent {
    /// A frame was acquired, copied into the staging surface, mapped,
    /// consumed, unmapped and released.
    FrameCompleted,
    /// The bounded acquisition wait elapsed with no new frame.
    AcquireTimeout,
    /// The acquisition reported an access-denied condition, as on a secure
    /// desktop or a lock screen.
    AccessDenied,
    /// Some other acquire, copy or map failure: logged, the loop goes on.
    TransientFailure,
    /// The frame could not be released back to the duplication interface.
    ReleaseFailed,
    /// The caller asked the loop to stop, checked between iterations.
    StopRequested,
}

/// The observable state of the duplication loop, with the number of frames
/// delivered so far and the number of failures it has skipped over.
#[derive(Debug, Clone, Copy, PartialEq, Eq, Structural)]
pub enum LoopState {
    /// Acquiring frames.
    Looping { frames: u64, transient_errors: u64 },
    /// The last iteration failed; the loop goes on to the next iteration.
    TransientError { frames: u64, transient_errors: u64 },
    /// Access denied: terminal, capture stays unavailable until a full
    /// re-open with a fresh duplication interface.
    Denied { frames: u64 },
    /// The caller stopped the loop between iterations.
    Stopped { frames: u64 },
    /// A frame was never handed back: terminal, further acquisitions would
    /// starve.
    ReleaseFailed { frames: u64 },
}

pub open spec fn spec_is_terminal(s: LoopState) -> bool {
    ||| s is Denied
    ||| s is Stopped
    ||| s is ReleaseFailed
}

pub open spec fn spec_frames(s: LoopState) -> u64 {
    match s {
        LoopState::Looping { frames, .. } => frames,
        LoopState::TransientError { frames, .. } => frames,
        LoopState::Denied { frames } => frames,
        LoopState::Stopped { frames } => frames,
        LoopState::ReleaseFailed { frames } => frames,
    }
}

pub open spec fn spec_transients(s: LoopState) -> u64 {
    match s {
        LoopState::Looping { transient_errors, .. } => transient_errors,
        LoopState::TransientError { transient_errors, .. } => transient_errors,
        _ => 0,
    }
}

/// How the loop state moves on one iteration's event: a completed frame
/// keeps looping; a timed-out wait retries; a transient failure is counted
/// and the loop goes on; access denied, a failed release, and a stop
/// request end the loop. A terminal state never moves again.
pub open spec fn spec_step(s: LoopState, e: DuplicationEvent) -> LoopState {
    if spec_is_terminal(s) {
        s
    } else {
        let frames = spec_frames(s);
        let transients = spec_transients(s);
        match e {
            DuplicationEvent::FrameCompleted => LoopState::Looping {
                frames: if frames == u64::MAX {
                    frames
                } else {
                    (frames + 1) as u64
                },
                transient_errors: transients,
            },
            DuplicationEvent::AcquireTimeout => LoopState::Looping {
                frames,
                transient_errors: transients,
            },
            DuplicationEvent::TransientFailure => LoopState::TransientError {
                frames,
                transient_errors: if transients == u64::MAX {
                    transients
                } else {
                    (transients + 1) as u64
                },
            },
            DuplicationEvent::AccessDenied => LoopState::Denied { frames },
            DuplicationEvent::ReleaseFailed => LoopState::ReleaseFailed { frames },
            DuplicationEvent::StopRequested => LoopState::Stopped { frames },
        }
    }
}

impl LoopState {
    /// A fresh loop that has delivered nothing yet.
    pub fn start() -> (s: LoopState)
        ensures
            s == (LoopState::Looping { frames: 0, transient_errors: 0 }),
    {
        LoopState::Looping { frames: 0, transient_errors: 0 }
    }

    pub fn is_terminal(&self) -> (r: bool)
        ensures
            r == spec_is_terminal(*self),
    {
        match self {
            LoopState::Denied { .. } => true,
            LoopState::Stopped { .. } => true,
            LoopState::ReleaseFailed { .. } => true,
            _ => false,
        }
    }

    /// How many frames the loop has delivered.
    pub fn frames(&self) -> (r: u64)
        ensures
            r == spec_frames(*self),
    {
        match self {
            LoopState::Looping { frames, .. } => *frames,
            LoopState::TransientError { frames, .. } => *frames,
            LoopState::Denied { frames } => *frames,
            LoopState::Stopped { frames } => *frames,
            LoopState::ReleaseFailed { frames } => *frames,
        }
    }

    /// Move the loop state on one iteration's event.
    pub fn step(&self, e: DuplicationEvent) -> (r: LoopState)
        ensures
            r == spec_step(*self, e),
    {
        if self.is_terminal() {
            return *self;
        }
        let frames = self.frames();
        let transients = match self {
            LoopState::Looping { transient_errors, .. } => *transient_errors,
            LoopState::TransientError { transient_errors, .. } => *transient_errors,
            _ => 0,
        };
        match e {
            DuplicationEvent::FrameCompleted => LoopState::Looping {
                frames: if frames == u64::MAX {
                    frames
                } else {
                    frames + 1
                },
                transient_errors: transients,
            },
            DuplicationEvent::AcquireTimeout => LoopState::Looping {
                frames,
                transient_errors: transients,
            },
            DuplicationEvent::TransientFailure => LoopState::TransientError {
                frames,
                transient_errors: if transients == u64::MAX {
                    transients
                } else {
                    transients + 1
                },
            },
            DuplicationEvent::AccessDenied => LoopState::Denied { frames },
            DuplicationEvent::ReleaseFailed => LoopState::ReleaseFailed { frames },
            DuplicationEvent::StopRequested => LoopState::Stopped { frames },
        }
    }
}

/// Folding the step function over an event script from a given state,
/// stopping at the first terminal state: the final state, and how many
/// events were consumed — one acquisition attempt per consumed event.
pub open spec fn spec_run(s: LoopState, events: Seq<DuplicationEvent>) -> (LoopState, nat)
    decreases events.len(),
{
    if spec_is_terminal(s) || events.len() == 0 {
        (s, 0)
    } else {
        let rest = spec_run(spec_step(s, events[0]), events.skip(1));
        (rest.0, 1 + rest.1)
    }
}

/// Drive a fresh loop over the events of successive iterations until one
/// makes the state terminal or the script runs out: the returned count
/// says how many iterations ran — after a terminal event no further event
/// is consumed and no further acquisition is attempted.
pub fn run_duplication_loop(events: &Vec<DuplicationEvent>) -> (r: (LoopState, usize))
    ensures
        r.0 == spec_run(LoopState::Looping { frames: 0, transient_errors: 0 }, events@).0,
        r.1 as nat == spec_run(
            LoopState::Looping { frames: 0, transient_errors: 0 },
            events@,
        ).1,
        r.1 <= events@.len(),
{
    let ghost init = LoopState::Looping { frames: 0, transient_errors: 0 };
    let mut state = LoopState::start();
    let mut done = false;
    let n = events.len();
    let mut i: usize = 0;
    proof {
        assert(events@.skip(0) =~= events@);
    }
    while i < n && !done
        invariant
            n == events@.len(),
            i <= n,
            done == spec_is_terminal(state),
            spec_run(init, events@).0 == spec_run(state, events@.skip(i as int)).0,
            spec_run(init, events@).1 == i + spec_run(state, events@.skip(i as int)).1,
        decreases n - i,
    {
        let e = events[i];
        proof {
            assert(events@.skip(i as int)[0] == events@[i as int]);
            assert(events@.skip(i as int).skip(1) =~= events@.skip(i as int + 1));
        }
        state = state.step(e);
        i += 1;
        done = state.is_terminal();
    }
    proof {
        if !done {
            assert(events@.skip(n as int) =~= Seq::<DuplicationEvent>::empty());
        }
    }
    (state, i)
}

} // verus!
