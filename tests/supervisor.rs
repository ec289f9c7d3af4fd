use clawtap::supervisor::{poll_slice, Phase, Supervisor, SupervisorAction, SupervisorEvent};

#[test]
fn backoff_doubles_to_the_cap() {
    let mut s = Supervisor::new();
    let mut waits = Vec::new();
    for _ in 0..9 {
        match s.step(SupervisorEvent::ConnectFailed) {
            SupervisorAction::Wait { secs } => waits.push(secs),
            other => panic!("unexpected action {:?}", other),
        }
        assert_eq!(s.step(SupervisorEvent::BackoffElapsed), SupervisorAction::Connect);
    }
    assert_eq!(waits, vec![1, 2, 4, 8, 16, 32, 60, 60, 60]);
}

#[test]
fn streaming_resets_backoff() {
    let mut s = Supervisor::new();
    for _ in 0..4 {
        s.step(SupervisorEvent::ConnectFailed);
        s.step(SupervisorEvent::BackoffElapsed);
    }
    assert_eq!(s.backoff_secs(), 16);
    assert_eq!(s.step(SupervisorEvent::ConnectSucceeded), SupervisorAction::Stream);
    assert_eq!(s.backoff_secs(), 1);
    assert_eq!(s.step(SupervisorEvent::StreamEnded), SupervisorAction::Wait { secs: 1 });
    s.step(SupervisorEvent::BackoffElapsed);
    assert_eq!(s.step(SupervisorEvent::ConnectFailed), SupervisorAction::Wait { secs: 2 });
}

#[test]
fn failure_before_streaming_keeps_backoff() {
    let mut s = Supervisor::new();
    s.step(SupervisorEvent::ConnectFailed);
    s.step(SupervisorEvent::BackoffElapsed);
    assert_eq!(s.step(SupervisorEvent::ConnectFailed), SupervisorAction::Wait { secs: 2 });
}

#[test]
fn shutdown_during_backoff_stops_at_once() {
    let mut s = Supervisor::new();
    for _ in 0..7 {
        s.step(SupervisorEvent::ConnectFailed);
        s.step(SupervisorEvent::BackoffElapsed);
    }
    assert_eq!(s.step(SupervisorEvent::ConnectFailed), SupervisorAction::Wait { secs: 60 });
    assert_eq!(s.phase(), Phase::Backoff);
    assert_eq!(poll_slice(60_000), 200);
    assert_eq!(s.step(SupervisorEvent::ShutdownRequested), SupervisorAction::Stop);
    assert_eq!(s.phase(), Phase::Stopped);
    assert_eq!(s.step(SupervisorEvent::BackoffElapsed), SupervisorAction::Stop);
}

#[test]
fn poll_slices_never_exceed_interval() {
    assert_eq!(poll_slice(0), 0);
    assert_eq!(poll_slice(150), 150);
    assert_eq!(poll_slice(200), 200);
    assert_eq!(poll_slice(u64::MAX), 200);
}

#[test]
fn unrelated_events_change_nothing() {
    let mut s = Supervisor::new();
    assert_eq!(s.step(SupervisorEvent::BackoffElapsed), SupervisorAction::Continue);
    assert_eq!(s.phase(), Phase::Connecting);
}
