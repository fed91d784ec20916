//! The connection liveness watchdog, as a state machine: the driver task
//! sleeps, pings and waits on timers, and feeds what happened back in as an
//! event; the machine decides what to do next. One machine runs per
//! physical connection, and it signals suspected deadness at most once —
//! it never closes the connection itself.
use vstd::prelude::*;

verus! {

/// Milliseconds the watchdog sleeps before the first probe and between
/// probes, so a freshly opened connection is not immediately burdened with
/// a liveness round-trip.
pub const PING_INTERVAL_MS: u64 = 10_000;

/// Milliseconds a probe waits for its pong before the connection is
/// declared suspect.
pub const PING_TIMEOUT_MS: u64 = 20_000;

/// Where the watchdog stands between events.
#[derive(Clone, Copy, Debug, PartialEq, Eq, Structural)]
pub enum WatchdogState {
    /// Sleeping out the probe interval (or the initial grace interval).
    Waiting,
    /// A ping is in flight, its pong awaited under the timeout.
    Probing,
    /// The task has exited: it neither pings nor signals again.
    Finished,
}

/// What the driver observed since the last decision.
#[derive(Clone, Copy, Debug, PartialEq, Eq, Structural)]
pub enum WatchdogEvent {
    /// The interval sleep ended; `torn_down` is the shared teardown flag as
    /// read at that moment.
    SleepDone { torn_down: bool },
    /// The pong arrived in time.
    Pong,
    /// The timeout elapsed with no pong.
    PongTimeout,
    /// The ping mechanism itself failed; `torn_down` as read at that moment.
    PingFailed { torn_down: bool },
}

/// What the driver must do next.
#[derive(Clone, Copy, Debug, PartialEq, Eq, Structural)]
pub enum WatchdogAction {
    /// Issue an opaque ping and wait for the pong under the timeout.
    SendPing,
    /// Sleep the probe interval.
    Sleep,
    /// Fire the one-shot failure signal to the connection owner, then exit.
    SignalFailure,
    /// Exit without signaling.
    Exit,
}

/// The watchdog's transition table: a teardown observed before a probe
/// round exits silently; a pong reschedules the next probe; a timeout
/// signals failure once; a ping error signals failure unless the owner
/// already tore the connection down. An event that cannot arise in a state
/// exits silently.
pub open spec fn watchdog_step_spec(s: WatchdogState, ev: WatchdogEvent) -> (
    WatchdogState,
    WatchdogAction,
) {
    match (s, ev) {
        (WatchdogState::Waiting, WatchdogEvent::SleepDone { torn_down }) => if torn_down {
            (WatchdogState::Finished, WatchdogAction::Exit)
        } else {
            (WatchdogState::Probing, WatchdogAction::SendPing)
        },
        (WatchdogState::Probing, WatchdogEvent::Pong) => (
            WatchdogState::Waiting,
            WatchdogAction::Sleep,
        ),
        (WatchdogState::Probing, WatchdogEvent::PongTimeout) => (
            WatchdogState::Finished,
            WatchdogAction::SignalFailure,
        ),
        (WatchdogState::Probing, WatchdogEvent::PingFailed { torn_down }) => if torn_down {
            (WatchdogState::Finished, WatchdogAction::Exit)
        } else {
            (WatchdogState::Finished, WatchdogAction::SignalFailure)
        },
        _ => (WatchdogState::Finished, WatchdogAction::Exit),
    }
}

/// Decides one watchdog step; the driver performs the returned action.
pub fn do_ping_pong_step(s: WatchdogState, ev: WatchdogEvent) -> (r: (
    WatchdogState,
    WatchdogAction,
))
    ensures
        r == watchdog_step_spec(s, ev),
{
    match (s, ev) {
        (WatchdogState::Waiting, WatchdogEvent::SleepDone { torn_down }) => {
            if torn_down {
                (WatchdogState::Finished, WatchdogAction::Exit)
            } else {
                (WatchdogState::Probing, WatchdogAction::SendPing)
            }
        },
        (WatchdogState::Probing, WatchdogEvent::Pong) => (
            WatchdogState::Waiting,
            WatchdogAction::Sleep,
        ),
        (WatchdogState::Probing, WatchdogEvent::PongTimeout) => (
            WatchdogState::Finished,
            WatchdogAction::SignalFailure,
        ),
        (WatchdogState::Probing, WatchdogEvent::PingFailed { torn_down }) => {
            if torn_down {
                (WatchdogState::Finished, WatchdogAction::Exit)
            } else {
                (WatchdogState::Finished, WatchdogAction::SignalFailure)
            }
        },
        _ => (WatchdogState::Finished, WatchdogAction::Exit),
    }
}

/// How many failure signals a run fires: the machine starts in `s` and
/// takes the events in order.
pub open spec fn run_signal_count(s: WatchdogState, evs: Seq<WatchdogEvent>) -> int
    decreases evs.len(),
{
    if evs.len() == 0 {
        0
    } else {
        let step = watchdog_step_spec(s, evs[0]);
        (if step.1 == WatchdogAction::SignalFailure {
            1int
        } else {
            0int
        }) + run_signal_count(step.0, evs.drop_first())
    }
}

/// How many pings a run issues.
pub open spec fn run_ping_count(s: WatchdogState, evs: Seq<WatchdogEvent>) -> int
    decreases evs.len(),
{
    if evs.len() == 0 {
        0
    } else {
        let step = watchdog_step_spec(s, evs[0]);
        (if step.1 == WatchdogAction::SendPing {
            1int
        } else {
            0int
        }) + run_ping_count(step.0, evs.drop_first())
    }
}

/// Once the watchdog has finished it stays finished and neither signals
/// nor pings again, whatever events the driver might still feed it.
pub proof fn lemma_finished_is_silent(evs: Seq<WatchdogEvent>)
    ensures
        run_signal_count(WatchdogState::Finished, evs) == 0,
        run_ping_count(WatchdogState::Finished, evs) == 0,
    decreases evs.len(),
{
    if evs.len() > 0 {
        lemma_finished_is_silent(evs.drop_first());
    }
}

/// Law: over every sequence of events, from any state, the watchdog fires
/// the failure signal at most once — the step that signals also finishes
/// the machine, and a finished machine is silent.
pub proof fn lemma_at_most_one_signal(s: WatchdogState, evs: Seq<WatchdogEvent>)
    ensures
        run_signal_count(s, evs) <= 1,
    decreases evs.len(),
{
    if evs.len() > 0 {
        let step = watchdog_step_spec(s, evs[0]);
        if step.1 == WatchdogAction::SignalFailure {
            assert(step.0 == WatchdogState::Finished);
            lemma_finished_is_silent(evs.drop_first());
        } else {
            lemma_at_most_one_signal(step.0, evs.drop_first());
        }
    }
}

/// Law: a probe round that times out signals failure exactly once and the
/// watchdog then exits — it issues no second ping and no second signal,
/// whatever events follow.
pub proof fn lemma_timeout_signals_once(evs: Seq<WatchdogEvent>)
    ensures
        watchdog_step_spec(WatchdogState::Probing, WatchdogEvent::PongTimeout) == (
            WatchdogState::Finished,
            WatchdogAction::SignalFailure,
        ),
        run_signal_count(WatchdogState::Probing, seq![WatchdogEvent::PongTimeout] + evs) == 1,
        run_ping_count(WatchdogState::Finished, evs) == 0,
{
    let full = seq![WatchdogEvent::PongTimeout] + evs;
    assert(full[0] == WatchdogEvent::PongTimeout);
    assert(full.drop_first() =~= evs);
    lemma_finished_is_silent(evs);
}

/// Law: a teardown flag observed set when a probe round would start makes
/// the watchdog exit silently — no failure signal then, and none later.
pub proof fn lemma_silent_after_teardown(evs: Seq<WatchdogEvent>)
    ensures
        watchdog_step_spec(
            WatchdogState::Waiting,
            WatchdogEvent::SleepDone { torn_down: true },
        ) == (WatchdogState::Finished, WatchdogAction::Exit),
        run_signal_count(
            WatchdogState::Waiting,
            seq![WatchdogEvent::SleepDone { torn_down: true }] + evs,
        ) == 0,
{
    let full = seq![WatchdogEvent::SleepDone { torn_down: true }] + evs;
    assert(full[0] == WatchdogEvent::SleepDone { torn_down: true });
    assert(full.drop_first() =~= evs);
    lemma_finished_is_silent(evs);
}

} // verus!
