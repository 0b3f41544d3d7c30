use server_supervisor::readiness::{
    readiness_warning, ReadinessWait, WaitAction, WaitEvent, WaitPhase, POLL_INTERVAL_MILLIS,
    READINESS_WARNING,
};

/// Drives a wait the way a caller does, with a scripted clock and scripted
/// connection outcomes. Returns the outcome, the number of attempts, the
/// number of pauses and the warnings issued.
fn drive(
    port: u16,
    timeout_secs: u64,
    clock: &[u64],
    attempts: &[bool],
) -> (bool, usize, usize, Vec<String>) {
    let mut wait = ReadinessWait::new(port, timeout_secs);
    let mut action = wait.pending();
    let mut readings = 0;
    let mut attempted = 0;
    let mut paused = 0;
    loop {
        let event = match action {
            WaitAction::ReadClock => {
                let secs = clock[readings];
                readings += 1;
                WaitEvent::Elapsed { secs }
            }
            WaitAction::Connect { port: asked } => {
                assert_eq!(asked, port);
                let connected = attempts[attempted];
                attempted += 1;
                WaitEvent::Probed { connected }
            }
            WaitAction::Sleep { millis } => {
                assert_eq!(millis, 200);
                paused += 1;
                WaitEvent::Paused
            }
            WaitAction::Finish { ready } => {
                let warnings: Vec<String> = readiness_warning(ready).into_iter().collect();
                return (ready, attempted, paused, warnings);
            }
        };
        action = wait.advance(event);
    }
}

#[test]
fn fixed_settings_of_the_wait() {
    assert_eq!(POLL_INTERVAL_MILLIS, 200);
    assert_eq!(READINESS_WARNING, "Warning: Bun server did not start within 15 seconds");
}

#[test]
fn wait_starts_by_reading_the_clock() {
    let wait = ReadinessWait::new(1420, 15);
    assert_eq!(wait.phase(), WaitPhase::Timing);
    assert_eq!(wait.pending(), WaitAction::ReadClock);
}

#[test]
fn one_full_turn() {
    let mut wait = ReadinessWait::new(1420, 15);
    assert_eq!(wait.advance(WaitEvent::Elapsed { secs: 0 }), WaitAction::Connect { port: 1420 });
    assert_eq!(wait.phase(), WaitPhase::Probing);
    assert_eq!(
        wait.advance(WaitEvent::Probed { connected: false }),
        WaitAction::Sleep { millis: 200 }
    );
    assert_eq!(wait.phase(), WaitPhase::Pausing);
    assert_eq!(wait.advance(WaitEvent::Paused), WaitAction::ReadClock);
    assert_eq!(wait.phase(), WaitPhase::Timing);
}

#[test]
fn connection_ends_the_wait_as_ready() {
    let mut wait = ReadinessWait::new(1420, 15);
    wait.advance(WaitEvent::Elapsed { secs: 3 });
    assert_eq!(
        wait.advance(WaitEvent::Probed { connected: true }),
        WaitAction::Finish { ready: true }
    );
    assert_eq!(wait.phase(), WaitPhase::Finished { ready: true });
}

#[test]
fn timeout_boundary_is_exclusive() {
    let mut just_in_time = ReadinessWait::new(1420, 15);
    assert_eq!(
        just_in_time.advance(WaitEvent::Elapsed { secs: 14 }),
        WaitAction::Connect { port: 1420 }
    );
    let mut too_late = ReadinessWait::new(1420, 15);
    assert_eq!(
        too_late.advance(WaitEvent::Elapsed { secs: 15 }),
        WaitAction::Finish { ready: false }
    );
    let mut far_too_late = ReadinessWait::new(1420, 15);
    assert_eq!(
        far_too_late.advance(WaitEvent::Elapsed { secs: u64::MAX }),
        WaitAction::Finish { ready: false }
    );
}

#[test]
fn zero_timeout_never_attempts() {
    let (ready, attempts, pauses, warnings) = drive(1420, 0, &[0], &[]);
    assert!(!ready);
    assert_eq!(attempts, 0);
    assert_eq!(pauses, 0);
    assert_eq!(warnings.len(), 1);
}

#[test]
fn finished_wait_ignores_everything() {
    let mut wait = ReadinessWait::new(1420, 15);
    wait.advance(WaitEvent::Elapsed { secs: 20 });
    let done = wait;
    for event in [
        WaitEvent::Elapsed { secs: 0 },
        WaitEvent::Probed { connected: true },
        WaitEvent::Probed { connected: false },
        WaitEvent::Paused,
    ] {
        assert_eq!(wait.advance(event), WaitAction::Finish { ready: false });
        assert_eq!(wait, done);
    }
}

#[test]
fn event_that_answers_nothing_is_ignored() {
    let mut wait = ReadinessWait::new(1420, 15);
    assert_eq!(wait.advance(WaitEvent::Probed { connected: true }), WaitAction::ReadClock);
    assert_eq!(wait.advance(WaitEvent::Paused), WaitAction::ReadClock);
    wait.advance(WaitEvent::Elapsed { secs: 1 });
    assert_eq!(wait.advance(WaitEvent::Elapsed { secs: 99 }), WaitAction::Connect { port: 1420 });
    assert_eq!(wait.advance(WaitEvent::Paused), WaitAction::Connect { port: 1420 });
    wait.advance(WaitEvent::Probed { connected: false });
    assert_eq!(
        wait.advance(WaitEvent::Probed { connected: true }),
        WaitAction::Sleep { millis: 200 }
    );
    assert_eq!(wait.advance(WaitEvent::Elapsed { secs: 99 }), WaitAction::Sleep { millis: 200 });
}

#[test]
fn server_that_never_answers_times_out_with_one_warning() {
    let clock = [0, 0, 1, 5, 14, 15];
    let attempts = [false, false, false, false, false];
    let (ready, attempted, paused, warnings) = drive(1420, 15, &clock, &attempts);
    assert!(!ready);
    assert_eq!(attempted, 5);
    assert_eq!(paused, 5);
    assert_eq!(warnings, vec![String::from("Warning: Bun server did not start within 15 seconds")]);
}

#[test]
fn server_that_answers_in_time_is_ready_without_warning() {
    let clock = [0, 0, 1];
    let attempts = [false, false, true];
    let (ready, attempted, paused, warnings) = drive(1420, 15, &clock, &attempts);
    assert!(ready);
    assert_eq!(attempted, 3);
    assert_eq!(paused, 2);
    assert!(warnings.is_empty());
}

#[test]
fn server_that_answers_at_once_is_never_paused_for() {
    let (ready, attempted, paused, warnings) = drive(8080, 1, &[0], &[true]);
    assert!(ready);
    assert_eq!(attempted, 1);
    assert_eq!(paused, 0);
    assert!(warnings.is_empty());
}

#[test]
fn warning_only_when_not_ready() {
    assert_eq!(
        readiness_warning(false),
        Some(String::from("Warning: Bun server did not start within 15 seconds"))
    );
    assert_eq!(readiness_warning(true), None);
}

#[test]
fn wait_connects_to_the_port_it_was_given() {
    let mut wait = ReadinessWait::new(65535, 2);
    assert_eq!(wait.advance(WaitEvent::Elapsed { secs: 1 }), WaitAction::Connect { port: 65535 });
}
