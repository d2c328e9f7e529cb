//! The watch–debounce–rebuild–reload state machine.
//!
//! The orchestrator owns one [`OrchestratorState`] and consumes
//! [`WatchEvent`]s strictly in arrival order. Each step yields the next
//! state together with one [`Action`] for the caller to perform: arm or
//! re-arm the debounce timer, spawn the build command, notify the reload
//! channel, or shut everything down. The step function itself is pure, so
//! the caller's event loop is the only place that touches the outside
//! world.

use vstd::prelude::*;

use crate::events::{BuildOutcome, ChangeKind, WatchEvent};

verus! {

/// The orchestrator's state between two events.
#[derive(Clone, Copy, Debug, PartialEq, Eq, Structural)]
pub enum OrchestratorState {
    /// Nothing to do; waiting for a qualifying path change.
    Idle,
    /// A qualifying change arrived; the debounce timer is running.
    Debouncing,
    /// The build command is running and no further change arrived since.
    Building,
    /// The build command is running and a qualifying change arrived while
    /// it ran: its outcome is stale and a fresh build must follow it.
    BuildingWithPendingRestart,
    /// A termination request was seen; no further event has any effect.
    Terminated,
}

/// What the caller must do after one step of the state machine.
#[derive(Clone, Copy, Debug, PartialEq, Eq, Structural)]
pub enum Action {
    /// No outside effect.
    Nothing,
    /// Arm the debounce timer.
    StartDebounce,
    /// Re-arm the debounce timer from the start of its interval.
    RestartDebounce,
    /// Spawn the build command; no build is running.
    SpawnBuild,
    /// The finished build's tree is current: notify viewers to reload.
    NotifyReload,
    /// The finished build failed with this status; report it, no reload.
    ReportFailure(i32),
    /// The finished build's outcome is stale: discard it and spawn a fresh
    /// build immediately.
    RespawnBuild,
    /// Begin shutdown; the flag says whether a running build must be
    /// cancelled first.
    Shutdown(bool),
}

/// Whether a build subprocess is alive in state `s` (between the spawn and
/// the arrival of its completion or a cancelling shutdown).
pub open spec fn build_live(s: OrchestratorState) -> bool {
    s == OrchestratorState::Building || s == OrchestratorState::BuildingWithPendingRestart
}

/// The transition table: next state and action for one event in state `s`.
///
/// Overlapping triggers chain strictly one at a time: a change seen while a
/// restart is already pending leaves the pending restart as it is, since
/// the single rebuild that follows the running build sees the current tree.
pub open spec fn spec_step(s: OrchestratorState, e: WatchEvent) -> (OrchestratorState, Action) {
    if s == OrchestratorState::Terminated {
        (OrchestratorState::Terminated, Action::Nothing)
    } else {
        match e {
            WatchEvent::ProcessSignal => (
                OrchestratorState::Terminated,
                Action::Shutdown(build_live(s)),
            ),
            WatchEvent::PathChanged(_, _) => match s {
                OrchestratorState::Idle => (OrchestratorState::Debouncing, Action::StartDebounce),
                OrchestratorState::Debouncing => (
                    OrchestratorState::Debouncing,
                    Action::RestartDebounce,
                ),
                _ => (OrchestratorState::BuildingWithPendingRestart, Action::Nothing),
            },
            WatchEvent::DebounceElapsed => {
                if s == OrchestratorState::Debouncing {
                    (OrchestratorState::Building, Action::SpawnBuild)
                } else {
                    (s, Action::Nothing)
                }
            },
            WatchEvent::BuildCompleted(outcome) => match s {
                OrchestratorState::Building => match outcome {
                    BuildOutcome::Success => (OrchestratorState::Idle, Action::NotifyReload),
                    BuildOutcome::Failure(code) => (
                        OrchestratorState::Idle,
                        Action::ReportFailure(code),
                    ),
                },
                OrchestratorState::BuildingWithPendingRestart => (
                    OrchestratorState::Building,
                    Action::RespawnBuild,
                ),
                _ => (s, Action::Nothing),
            },
        }
    }
}

/// One step of the orchestrator: the next state and the action to perform.
pub fn step(s: OrchestratorState, e: &WatchEvent) -> (r: (OrchestratorState, Action))
    ensures
        r == spec_step(s, *e),
{
    if s == OrchestratorState::Terminated {
        return (OrchestratorState::Terminated, Action::Nothing);
    }
    match e {
        WatchEvent::ProcessSignal => (
            OrchestratorState::Terminated,
            Action::Shutdown(s == OrchestratorState::Building || s
                == OrchestratorState::BuildingWithPendingRestart),
        ),
        WatchEvent::PathChanged(_, _) => match s {
            OrchestratorState::Idle => (OrchestratorState::Debouncing, Action::StartDebounce),
            OrchestratorState::Debouncing => (OrchestratorState::Debouncing, Action::RestartDebounce),
            _ => (OrchestratorState::BuildingWithPendingRestart, Action::Nothing),
        },
        WatchEvent::DebounceElapsed => {
            if s == OrchestratorState::Debouncing {
                (OrchestratorState::Building, Action::SpawnBuild)
            } else {
                (s, Action::Nothing)
            }
        },
        WatchEvent::BuildCompleted(outcome) => match s {
            OrchestratorState::Building => match outcome {
                BuildOutcome::Success => (OrchestratorState::Idle, Action::NotifyReload),
                BuildOutcome::Failure(code) => (OrchestratorState::Idle, Action::ReportFailure(*code)),
            },
            OrchestratorState::BuildingWithPendingRestart => (
                OrchestratorState::Building,
                Action::RespawnBuild,
            ),
            _ => (s, Action::Nothing),
        },
    }
}

/// Whether action `a` spawns a build subprocess.
pub open spec fn action_spawns(a: Action) -> bool {
    a == Action::SpawnBuild || a == Action::RespawnBuild
}

/// The state after consuming the whole event sequence `es` from state `s`.
pub open spec fn run_trace(s: OrchestratorState, es: Seq<WatchEvent>) -> OrchestratorState
    decreases es.len(),
{
    if es.len() == 0 {
        s
    } else {
        run_trace(spec_step(s, es[0]).0, es.drop_first())
    }
}

/// How many builds are spawned while consuming `es` from state `s`.
pub open spec fn count_spawns(s: OrchestratorState, es: Seq<WatchEvent>) -> nat
    decreases es.len(),
{
    if es.len() == 0 {
        0nat
    } else {
        (if action_spawns(spec_step(s, es[0]).1) {
            1nat
        } else {
            0nat
        }) + count_spawns(spec_step(s, es[0]).0, es.drop_first())
    }
}

/// How many reload notifications are fired while consuming `es` from `s`.
pub open spec fn count_notifies(s: OrchestratorState, es: Seq<WatchEvent>) -> nat
    decreases es.len(),
{
    if es.len() == 0 {
        0nat
    } else {
        (if spec_step(s, es[0]).1 == Action::NotifyReload {
            1nat
        } else {
            0nat
        }) + count_notifies(spec_step(s, es[0]).0, es.drop_first())
    }
}

/// Consuming `es.push(e)` is consuming `es` and then `e`, for the final
/// state and for both counters.
pub proof fn lemma_trace_push(s: OrchestratorState, es: Seq<WatchEvent>, e: WatchEvent)
    ensures
        run_trace(s, es.push(e)) == spec_step(run_trace(s, es), e).0,
        count_spawns(s, es.push(e)) == count_spawns(s, es) + (if action_spawns(
            spec_step(run_trace(s, es), e).1,
        ) {
            1nat
        } else {
            0nat
        }),
        count_notifies(s, es.push(e)) == count_notifies(s, es) + (if spec_step(
            run_trace(s, es),
            e,
        ).1 == Action::NotifyReload {
            1nat
        } else {
            0nat
        }),
    decreases es.len(),
{
    reveal_with_fuel(run_trace, 2);
    reveal_with_fuel(count_spawns, 2);
    reveal_with_fuel(count_notifies, 2);
    if es.len() == 0 {
        assert(es.push(e)[0] == e);
        assert(es.push(e).drop_first() =~= es);
    } else {
        assert(es.push(e)[0] == es[0]);
        assert(es.push(e).drop_first() =~= es.drop_first().push(e));
        lemma_trace_push(spec_step(s, es[0]).0, es.drop_first(), e);
    }
}

/// While the debounce timer runs, further qualifying changes only re-arm
/// it: the state stays `Debouncing` and no build is spawned.
pub proof fn lemma_paths_keep_debouncing(es: Seq<WatchEvent>)
    requires
        forall|i: int| 0 <= i < es.len() ==> es[i] is PathChanged,
    ensures
        run_trace(OrchestratorState::Debouncing, es) == OrchestratorState::Debouncing,
        count_spawns(OrchestratorState::Debouncing, es) == 0,
    decreases es.len(),
{
    if es.len() > 0 {
        lemma_paths_keep_debouncing(es.drop_first());
    }
}

/// Coalescing: a non-empty burst of qualifying changes starting from
/// `Idle` spawns no build by itself, and exactly one build is spawned once
/// the debounce interval elapses with no further qualifying change.
pub proof fn lemma_burst_coalesces_to_one_build(es: Seq<WatchEvent>)
    requires
        es.len() > 0,
        forall|i: int| 0 <= i < es.len() ==> es[i] is PathChanged,
    ensures
        run_trace(OrchestratorState::Idle, es) == OrchestratorState::Debouncing,
        count_spawns(OrchestratorState::Idle, es) == 0,
        run_trace(OrchestratorState::Idle, es.push(WatchEvent::DebounceElapsed))
            == OrchestratorState::Building,
        count_spawns(OrchestratorState::Idle, es.push(WatchEvent::DebounceElapsed)) == 1,
{
    assert(forall|i: int| 0 <= i < es.drop_first().len() ==> es.drop_first()[i] is PathChanged);
    lemma_paths_keep_debouncing(es.drop_first());
    lemma_trace_push(OrchestratorState::Idle, es, WatchEvent::DebounceElapsed);
}

/// An event is admissible in state `s` if it could actually occur there: a
/// completion is only delivered while its build subprocess is alive.
pub open spec fn event_admissible(s: OrchestratorState, e: WatchEvent) -> bool {
    e is BuildCompleted ==> build_live(s)
}

/// Every event of `es` is admissible in the state it is consumed in.
pub open spec fn trace_admissible(s: OrchestratorState, es: Seq<WatchEvent>) -> bool
    decreases es.len(),
{
    es.len() == 0 || (event_admissible(s, es[0]) && trace_admissible(
        spec_step(s, es[0]).0,
        es.drop_first(),
    ))
}

/// The number of live build subprocesses after one step, given `live` of
/// them before it: a completion means one exited, a cancelling shutdown
/// kills one, and a spawning action starts one.
pub open spec fn ledger_step(live: int, s: OrchestratorState, e: WatchEvent) -> int {
    live - (if e is BuildCompleted {
        1int
    } else {
        0int
    }) - (if spec_step(s, e).1 == Action::Shutdown(true) {
        1int
    } else {
        0int
    }) + (if action_spawns(spec_step(s, e).1) {
        1int
    } else {
        0int
    })
}

/// The number of live build subprocesses after consuming all of `es`.
pub open spec fn ledger_trace(live: int, s: OrchestratorState, es: Seq<WatchEvent>) -> int
    decreases es.len(),
{
    if es.len() == 0 {
        live
    } else {
        ledger_trace(ledger_step(live, s, es[0]), spec_step(s, es[0]).0, es.drop_first())
    }
}

/// Mutual exclusion, one step: if exactly as many build subprocesses are
/// alive as the state says (one in the building states, none elsewhere),
/// an admissible event keeps that coupling, and the count stays 0 or 1 —
/// in particular a build is only spawned when none is alive.
pub proof fn lemma_one_build_step(live: int, s: OrchestratorState, e: WatchEvent)
    requires
        live == (if build_live(s) {
            1int
        } else {
            0int
        }),
        event_admissible(s, e),
    ensures
        ledger_step(live, s, e) == (if build_live(spec_step(s, e).0) {
            1int
        } else {
            0int
        }),
        0 <= ledger_step(live, s, e) <= 1,
        action_spawns(spec_step(s, e).1) ==> live - (if e is BuildCompleted {
            1int
        } else {
            0int
        }) == 0,
{
}

/// Mutual exclusion, whole trace: along any admissible trace the number of
/// live build subprocesses equals 1 in the building states and 0
/// elsewhere, so by `lemma_one_build_step` it never exceeds 1 at any
/// point.
pub proof fn lemma_one_build_alive(live: int, s: OrchestratorState, es: Seq<WatchEvent>)
    requires
        live == (if build_live(s) {
            1int
        } else {
            0int
        }),
        trace_admissible(s, es),
    ensures
        ledger_trace(live, s, es) == (if build_live(run_trace(s, es)) {
            1int
        } else {
            0int
        }),
        0 <= ledger_trace(live, s, es) <= 1,
    decreases es.len(),
{
    if es.len() > 0 {
        lemma_one_build_step(live, s, es[0]);
        lemma_one_build_alive(ledger_step(live, s, es[0]), spec_step(s, es[0]).0, es.drop_first());
    }
}

/// Admissibility restricts to a prefix: whatever held of the whole trace
/// holds of its first `i` events.
pub proof fn lemma_admissible_prefix(s: OrchestratorState, es: Seq<WatchEvent>, i: int)
    requires
        trace_admissible(s, es),
        0 <= i <= es.len(),
    ensures
        trace_admissible(s, es.take(i)),
    decreases es.len(),
{
    if i > 0 && es.len() > 0 {
        assert(es.take(i)[0] == es[0]);
        assert(es.take(i).drop_first() =~= es.drop_first().take(i - 1));
        lemma_admissible_prefix(spec_step(s, es[0]).0, es.drop_first(), i - 1);
    } else {
        assert(es.take(i).len() == 0);
    }
}

/// Mutual exclusion at all times: at every point of an admissible trace —
/// after its first `i` events, for any `i` — the number of live build
/// subprocesses is 0 or 1.
pub proof fn lemma_never_two_builds(s: OrchestratorState, es: Seq<WatchEvent>, i: int)
    requires
        !build_live(s),
        trace_admissible(s, es),
        0 <= i <= es.len(),
    ensures
        0 <= ledger_trace(0, s, es.take(i)) <= 1,
{
    lemma_admissible_prefix(s, es, i);
    lemma_one_build_alive(0, s, es.take(i));
}

/// A completion reaching the orchestrator in `Building` fires exactly one
/// reload notification when the build succeeded and none when it failed.
pub proof fn lemma_completion_notifies(code: i32)
    ensures
        spec_step(
            OrchestratorState::Building,
            WatchEvent::BuildCompleted(BuildOutcome::Success),
        ) == (OrchestratorState::Idle, Action::NotifyReload),
        count_notifies(
            OrchestratorState::Building,
            seq![WatchEvent::BuildCompleted(BuildOutcome::Success)],
        ) == 1,
        spec_step(
            OrchestratorState::Building,
            WatchEvent::BuildCompleted(BuildOutcome::Failure(code)),
        ) == (OrchestratorState::Idle, Action::ReportFailure(code)),
        count_notifies(
            OrchestratorState::Building,
            seq![WatchEvent::BuildCompleted(BuildOutcome::Failure(code))],
        ) == 0,
{
    reveal_with_fuel(count_notifies, 2);
    assert(seq![WatchEvent::BuildCompleted(BuildOutcome::Success)].drop_first().len() == 0);
    assert(seq![WatchEvent::BuildCompleted(BuildOutcome::Failure(code))].drop_first().len() == 0);
}

/// Staleness discard: a qualifying change seen while `Building` marks a
/// pending restart without spawning, and the running build's completion —
/// whatever its outcome — is discarded and followed immediately by exactly
/// one fresh build, with no reload notification for the stale outcome.
pub proof fn lemma_stale_outcome_respawns(p: String, k: ChangeKind, o: BuildOutcome)
    ensures
        ({
            let (s1, a1) = spec_step(OrchestratorState::Building, WatchEvent::PathChanged(p, k));
            let (s2, a2) = spec_step(s1, WatchEvent::BuildCompleted(o));
            &&& s1 == OrchestratorState::BuildingWithPendingRestart
            &&& a1 == Action::Nothing
            &&& s2 == OrchestratorState::Building
            &&& a2 == Action::RespawnBuild
            &&& a2 != Action::NotifyReload
        }),
{
}

/// A termination request in any live state begins shutdown at once,
/// cancelling a running build and firing no reload notification.
pub proof fn lemma_signal_shuts_down(s: OrchestratorState)
    requires
        s != OrchestratorState::Terminated,
    ensures
        spec_step(s, WatchEvent::ProcessSignal).0 == OrchestratorState::Terminated,
        spec_step(s, WatchEvent::ProcessSignal).1 == Action::Shutdown(build_live(s)),
        spec_step(s, WatchEvent::ProcessSignal).1 != Action::NotifyReload,
        !action_spawns(spec_step(s, WatchEvent::ProcessSignal).1),
{
}

} // verus!
