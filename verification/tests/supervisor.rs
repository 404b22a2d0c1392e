use sidecar::supervisor::{Action, Event, Phase, RunMode, Supervisor};

#[test]
fn development_mode_never_spawns() {
    let mut sup = Supervisor::new(RunMode::Development);
    let a = sup.step(Event::Start);
    assert_eq!(a, Action::Idle);
    assert_eq!(sup.phase, Phase::Exited);
    assert!(!sup.spawn_requested);
    assert!(!sup.handle_live);
}

#[test]
fn development_setup_twice_still_spawns_nothing() {
    let mut sup = Supervisor::new(RunMode::Development);
    let a1 = sup.step(Event::Start);
    let a2 = sup.step(Event::Start);
    assert_eq!(a1, Action::Idle);
    assert_eq!(a2, Action::Idle);
    assert!(!sup.spawn_requested);
}

#[test]
fn release_setup_spawns_exactly_once() {
    let mut sup = Supervisor::new(RunMode::Release);
    let a = sup.step(Event::Start);
    assert_eq!(a, Action::SpawnBackend);
    assert_eq!(sup.phase, Phase::Spawning);
    // a second setup attempt in the same run must not spawn a second instance
    let a2 = sup.step(Event::Start);
    assert_eq!(a2, Action::Idle);
    let a3 = sup.step(Event::SpawnSucceeded);
    assert_eq!(a3, Action::AwaitEvent);
    let a4 = sup.step(Event::Start);
    assert_eq!(a4, Action::Idle);
    assert_eq!(sup.phase, Phase::Running);
}

#[test]
fn successful_spawn_holds_the_handle() {
    let mut sup = Supervisor::new(RunMode::Release);
    sup.step(Event::Start);
    let a = sup.step(Event::SpawnSucceeded);
    assert_eq!(a, Action::AwaitEvent);
    assert_eq!(sup.phase, Phase::Running);
    assert!(sup.handle_live);
}

#[test]
fn spawn_failure_aborts_startup() {
    let mut sup = Supervisor::new(RunMode::Release);
    sup.step(Event::Start);
    let a = sup.step(Event::SpawnFailed);
    assert_eq!(a, Action::AbortStartup);
    assert_eq!(sup.phase, Phase::Exited);
    assert!(sup.spawn_failed);
    assert!(!sup.handle_live);
}

#[test]
fn immediate_child_exit_is_clean() {
    // the backend starts and exits at once with no output: the drain loop
    // ends promptly and no error is raised
    let mut sup = Supervisor::new(RunMode::Release);
    sup.step(Event::Start);
    sup.step(Event::SpawnSucceeded);
    let a = sup.step(Event::StreamEnded);
    assert_eq!(a, Action::Idle);
    assert_eq!(sup.phase, Phase::Exited);
    assert!(sup.stream_ended);
    assert!(!sup.spawn_failed);
    assert!(!sup.handle_live);
}

#[test]
fn continuous_output_never_drops_the_handle() {
    // the backend writes indefinitely: every event is drained, and the
    // handle stays live the whole time
    let mut sup = Supervisor::new(RunMode::Release);
    sup.step(Event::Start);
    sup.step(Event::SpawnSucceeded);
    let mut i: usize = 0;
    while i < 10_000 {
        let a = sup.step(Event::OutputReceived);
        assert_eq!(a, Action::AwaitEvent);
        assert!(sup.handle_live);
        assert_eq!(sup.phase, Phase::Running);
        i += 1;
    }
}

#[test]
fn handle_released_only_after_stream_end() {
    let mut sup = Supervisor::new(RunMode::Release);
    sup.step(Event::Start);
    sup.step(Event::SpawnSucceeded);
    sup.step(Event::OutputReceived);
    sup.step(Event::OutputReceived);
    assert!(sup.handle_live);
    sup.step(Event::StreamEnded);
    assert!(!sup.handle_live);
    assert!(sup.stream_ended);
}

#[test]
fn stray_events_change_nothing() {
    // stream events cannot arrive before setup or after exit; the machine
    // ignores them rather than spawning or reviving anything
    let mut sup = Supervisor::new(RunMode::Release);
    let a = sup.step(Event::OutputReceived);
    assert_eq!(a, Action::Idle);
    assert_eq!(sup.phase, Phase::NotStarted);
    sup.step(Event::Start);
    sup.step(Event::SpawnSucceeded);
    sup.step(Event::StreamEnded);
    let b = sup.step(Event::SpawnSucceeded);
    assert_eq!(b, Action::Idle);
    assert_eq!(sup.phase, Phase::Exited);
    assert!(!sup.handle_live);
}
