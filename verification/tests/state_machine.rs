use watchdoc::engine::WatchCore;
use watchdoc::events::{BuildOutcome, ChangeKind, WatchEvent};
use watchdoc::orchestrator::{step, Action, OrchestratorState};
use watchdoc::supervisor::BuildSupervisor;

fn change(path: &str) -> WatchEvent {
    WatchEvent::PathChanged(String::from(path), ChangeKind::Modify)
}

#[test]
fn idle_path_change_starts_debounce() {
    let (s, a) = step(OrchestratorState::Idle, &change("src/lib.rs"));
    assert_eq!(s, OrchestratorState::Debouncing);
    assert_eq!(a, Action::StartDebounce);
}

#[test]
fn debouncing_path_change_restarts_debounce() {
    let (s, a) = step(OrchestratorState::Debouncing, &change("src/main.rs"));
    assert_eq!(s, OrchestratorState::Debouncing);
    assert_eq!(a, Action::RestartDebounce);
}

#[test]
fn debounce_elapsed_spawns_build() {
    let (s, a) = step(OrchestratorState::Debouncing, &WatchEvent::DebounceElapsed);
    assert_eq!(s, OrchestratorState::Building);
    assert_eq!(a, Action::SpawnBuild);
}

#[test]
fn building_path_change_marks_pending_restart() {
    let (s, a) = step(OrchestratorState::Building, &change("src/lib.rs"));
    assert_eq!(s, OrchestratorState::BuildingWithPendingRestart);
    assert_eq!(a, Action::Nothing);
}

#[test]
fn building_success_notifies() {
    let (s, a) = step(
        OrchestratorState::Building,
        &WatchEvent::BuildCompleted(BuildOutcome::Success),
    );
    assert_eq!(s, OrchestratorState::Idle);
    assert_eq!(a, Action::NotifyReload);
}

#[test]
fn building_failure_reports_without_reload() {
    let (s, a) = step(
        OrchestratorState::Building,
        &WatchEvent::BuildCompleted(BuildOutcome::Failure(101)),
    );
    assert_eq!(s, OrchestratorState::Idle);
    assert_eq!(a, Action::ReportFailure(101));
}

#[test]
fn pending_restart_discards_success_and_respawns() {
    let (s, a) = step(
        OrchestratorState::BuildingWithPendingRestart,
        &WatchEvent::BuildCompleted(BuildOutcome::Success),
    );
    assert_eq!(s, OrchestratorState::Building);
    assert_eq!(a, Action::RespawnBuild);
}

#[test]
fn pending_restart_discards_failure_and_respawns() {
    let (s, a) = step(
        OrchestratorState::BuildingWithPendingRestart,
        &WatchEvent::BuildCompleted(BuildOutcome::Failure(1)),
    );
    assert_eq!(s, OrchestratorState::Building);
    assert_eq!(a, Action::RespawnBuild);
}

#[test]
fn signal_while_building_cancels_build() {
    let (s, a) = step(OrchestratorState::Building, &WatchEvent::ProcessSignal);
    assert_eq!(s, OrchestratorState::Terminated);
    assert_eq!(a, Action::Shutdown(true));
}

#[test]
fn signal_while_idle_shuts_down_without_cancel() {
    let (s, a) = step(OrchestratorState::Idle, &WatchEvent::ProcessSignal);
    assert_eq!(s, OrchestratorState::Terminated);
    assert_eq!(a, Action::Shutdown(false));
}

#[test]
fn terminated_ignores_further_events() {
    let (s, a) = step(OrchestratorState::Terminated, &change("src/lib.rs"));
    assert_eq!(s, OrchestratorState::Terminated);
    assert_eq!(a, Action::Nothing);
    let (s, a) = step(
        OrchestratorState::Terminated,
        &WatchEvent::BuildCompleted(BuildOutcome::Success),
    );
    assert_eq!(s, OrchestratorState::Terminated);
    assert_eq!(a, Action::Nothing);
}

#[test]
fn stray_events_are_ignored() {
    let (s, a) = step(OrchestratorState::Idle, &WatchEvent::DebounceElapsed);
    assert_eq!(s, OrchestratorState::Idle);
    assert_eq!(a, Action::Nothing);
    let (s, a) = step(
        OrchestratorState::Idle,
        &WatchEvent::BuildCompleted(BuildOutcome::Success),
    );
    assert_eq!(s, OrchestratorState::Idle);
    assert_eq!(a, Action::Nothing);
}

fn spawns(a: Action) -> bool {
    a == Action::SpawnBuild || a == Action::RespawnBuild
}

#[test]
fn rapid_burst_coalesces_into_one_build() {
    let mut s = OrchestratorState::Idle;
    let mut spawned = 0;
    for i in 0..50 {
        let (next, a) = step(s, &change(&format!("src/file{i}.rs")));
        s = next;
        if spawns(a) {
            spawned += 1;
        }
    }
    assert_eq!(spawned, 0);
    assert_eq!(s, OrchestratorState::Debouncing);
    let (next, a) = step(s, &WatchEvent::DebounceElapsed);
    assert_eq!(next, OrchestratorState::Building);
    assert!(spawns(a));
    assert_eq!(spawned + 1, 1);
}

#[test]
fn at_most_one_build_alive_under_overlapping_triggers() {
    // Simulate overlapping triggers, counting live subprocesses by the
    // actions the orchestrator asks for.
    let events = [
        change("a.rs"),
        WatchEvent::DebounceElapsed,
        change("b.rs"),
        change("c.rs"),
        WatchEvent::BuildCompleted(BuildOutcome::Failure(1)),
        change("d.rs"),
        WatchEvent::BuildCompleted(BuildOutcome::Success),
        WatchEvent::DebounceElapsed,
        WatchEvent::BuildCompleted(BuildOutcome::Success),
    ];
    let mut s = OrchestratorState::Idle;
    let mut live: i32 = 0;
    for e in events {
        if matches!(e, WatchEvent::BuildCompleted(_)) {
            // The subprocess exited before its completion is delivered.
            live -= 1;
        }
        let (next, a) = step(s, &e);
        if spawns(a) {
            live += 1;
        }
        if a == Action::Shutdown(true) {
            live -= 1;
        }
        assert!((0..=1).contains(&live), "live builds out of range: {live}");
        s = next;
    }
}

#[test]
fn change_during_build_triggers_followup_build_with_supervisor() {
    let mut sup = BuildSupervisor::new();
    let mut s = OrchestratorState::Idle;
    let (next, a) = step(s, &change("src/lib.rs"));
    s = next;
    assert_eq!(a, Action::StartDebounce);
    let (next, a) = step(s, &WatchEvent::DebounceElapsed);
    s = next;
    assert_eq!(a, Action::SpawnBuild);
    let first = sup.start();
    // A change arrives while the first build runs.
    let (next, a) = step(s, &change("src/lib.rs"));
    s = next;
    assert_eq!(a, Action::Nothing);
    assert_eq!(s, OrchestratorState::BuildingWithPendingRestart);
    // The first build exits; its completion is current, not duplicated.
    assert!(sup.accept_completion(first));
    assert!(!sup.accept_completion(first));
    let (next, a) = step(s, &WatchEvent::BuildCompleted(BuildOutcome::Success));
    s = next;
    assert_eq!(a, Action::RespawnBuild);
    assert_eq!(s, OrchestratorState::Building);
    let second = sup.start();
    assert_ne!(first, second);
    assert!(sup.accept_completion(second));
}

#[test]
fn end_to_end_edit_rebuild_reload() {
    // A viewer subscribed before the edit sees exactly one notification;
    // one that subscribes after the notification sees none until the
    // next successful build.
    let mut core = WatchCore::new();
    let mut early = core.subscribe();
    let a = core.handle(&change("src/lib.rs"));
    assert_eq!(a, Action::StartDebounce);
    let a = core.handle(&change("src/lib.rs"));
    assert_eq!(a, Action::RestartDebounce);
    let a = core.handle(&WatchEvent::DebounceElapsed);
    assert_eq!(a, Action::SpawnBuild);
    assert!(!early.take_pending(&core.channel));
    let a = core.handle(&WatchEvent::BuildCompleted(BuildOutcome::Success));
    assert_eq!(a, Action::NotifyReload);
    assert!(early.take_pending(&core.channel));
    assert!(!early.take_pending(&core.channel));
    let mut late = core.subscribe();
    assert!(!late.take_pending(&core.channel));
    let a = core.handle(&change("src/lib.rs"));
    assert_eq!(a, Action::StartDebounce);
    let a = core.handle(&WatchEvent::DebounceElapsed);
    assert_eq!(a, Action::SpawnBuild);
    let a = core.handle(&WatchEvent::BuildCompleted(BuildOutcome::Success));
    assert_eq!(a, Action::NotifyReload);
    assert!(late.take_pending(&core.channel));
    assert!(early.take_pending(&core.channel));
}

#[test]
fn failed_build_fires_no_notification() {
    let mut core = WatchCore::new();
    let mut viewer = core.subscribe();
    core.handle(&change("src/lib.rs"));
    core.handle(&WatchEvent::DebounceElapsed);
    let a = core.handle(&WatchEvent::BuildCompleted(BuildOutcome::Failure(101)));
    assert_eq!(a, Action::ReportFailure(101));
    assert!(!viewer.take_pending(&core.channel));
}

#[test]
fn stale_outcome_fires_no_notification_and_respawns() {
    for outcome in [BuildOutcome::Success, BuildOutcome::Failure(1)] {
        let mut core = WatchCore::new();
        let mut viewer = core.subscribe();
        core.handle(&change("src/lib.rs"));
        core.handle(&WatchEvent::DebounceElapsed);
        // The tree changes again while the first build runs.
        core.handle(&change("src/lib.rs"));
        let a = core.handle(&WatchEvent::BuildCompleted(outcome));
        assert_eq!(a, Action::RespawnBuild);
        assert_eq!(core.state, OrchestratorState::Building);
        // The stale outcome, successful or not, reloads nobody.
        assert!(!viewer.take_pending(&core.channel));
    }
}

#[test]
fn end_to_end_signal_during_build_exits_cleanly() {
    let mut core = WatchCore::new();
    let mut viewer = core.subscribe();
    let mut sup = BuildSupervisor::new();
    core.handle(&change("src/lib.rs"));
    core.handle(&WatchEvent::DebounceElapsed);
    sup.start();
    let a = core.handle(&WatchEvent::ProcessSignal);
    assert_eq!(a, Action::Shutdown(true));
    sup.cancel();
    assert_eq!(core.state, OrchestratorState::Terminated);
    // No reload notification was fired on the way out.
    assert!(!viewer.take_pending(&core.channel));
}
