use winc::duplication::{
    run_duplication_loop, DuplicationConfig, DuplicationEvent, LoopState,
};

#[test]
fn denied_on_third_acquisition_stops_after_two_frames() {
    let events = vec![
        DuplicationEvent::FrameCompleted,
        DuplicationEvent::FrameCompleted,
        DuplicationEvent::AccessDenied,
        DuplicationEvent::FrameCompleted,
    ];
    let (state, attempts) = run_duplication_loop(&events);
    assert_eq!(state, LoopState::Denied { frames: 2 });
    assert_eq!(attempts, 3);
}

#[test]
fn timeouts_retry_and_transient_failures_are_skipped() {
    let events = vec![
        DuplicationEvent::AcquireTimeout,
        DuplicationEvent::TransientFailure,
        DuplicationEvent::FrameCompleted,
        DuplicationEvent::TransientFailure,
        DuplicationEvent::FrameCompleted,
    ];
    let (state, attempts) = run_duplication_loop(&events);
    assert_eq!(state, LoopState::Looping { frames: 2, transient_errors: 2 });
    assert_eq!(attempts, 5);
}

#[test]
fn stop_request_ends_the_loop_between_iterations() {
    let events = vec![
        DuplicationEvent::FrameCompleted,
        DuplicationEvent::StopRequested,
        DuplicationEvent::FrameCompleted,
    ];
    let (state, attempts) = run_duplication_loop(&events);
    assert_eq!(state, LoopState::Stopped { frames: 1 });
    assert_eq!(attempts, 2);
}

#[test]
fn failed_release_is_fatal() {
    let events = vec![
        DuplicationEvent::FrameCompleted,
        DuplicationEvent::ReleaseFailed,
        DuplicationEvent::FrameCompleted,
    ];
    let (state, attempts) = run_duplication_loop(&events);
    assert_eq!(state, LoopState::ReleaseFailed { frames: 1 });
    assert_eq!(attempts, 2);
}

#[test]
fn terminal_states_never_step() {
    let denied = LoopState::Denied { frames: 7 };
    assert_eq!(denied.step(DuplicationEvent::FrameCompleted), denied);
    let stopped = LoopState::Stopped { frames: 3 };
    assert_eq!(stopped.step(DuplicationEvent::AccessDenied), stopped);
}

#[test]
fn config_requires_a_finite_positive_timeout() {
    let config = DuplicationConfig::new(500, 100).unwrap();
    assert_eq!(config.acquire_timeout_ms, 500);
    assert_eq!(config.poll_interval_ms, 100);
    assert!(DuplicationConfig::new(0, 100).is_none());
}
