//! The capture trigger: a debounced state machine that turns presence samples
//! into start and stop decisions.
//!
//! Times are readings of a monotonic clock in milliseconds. Durations in the
//! settings are whole seconds, and an elapsed time counts in whole seconds
//! too: a reading that lies before the one it is compared with counts as zero.

use vstd::prelude::*;

verus! {

/// Milliseconds in one second.
pub const MILLIS_PER_SEC: u64 = 1000;

/// The three durations that shape the trigger, in seconds.
#[derive(Clone, Copy, Debug, PartialEq, Eq, Structural)]
pub struct TriggerSettings {
    /// How long presence must hold before a capture starts.
    pub start_debounce_secs: u64,
    /// How long absence must hold before a capture stops.
    pub stop_grace_secs: u64,
    /// The shortest capture that an absence may end.
    pub min_recording_secs: u64,
}

/// The start debounce that holds unless another is configured, in seconds.
pub const START_DEBOUNCE_SECS_DEFAULT: u64 = 2;

/// The stop grace that holds unless another is configured, in seconds.
pub const STOP_GRACE_SECS_DEFAULT: u64 = 10;

/// The minimum duration that holds unless another is configured, in seconds.
pub const MIN_RECORDING_SECS_DEFAULT: u64 = 60;

impl TriggerSettings {
    /// The settings that hold unless others are configured.
    pub fn defaults() -> (s: TriggerSettings)
        ensures
            s == (TriggerSettings {
                start_debounce_secs: START_DEBOUNCE_SECS_DEFAULT,
                stop_grace_secs: STOP_GRACE_SECS_DEFAULT,
                min_recording_secs: MIN_RECORDING_SECS_DEFAULT,
            }),
    {
        TriggerSettings {
            start_debounce_secs: START_DEBOUNCE_SECS_DEFAULT,
            stop_grace_secs: STOP_GRACE_SECS_DEFAULT,
            min_recording_secs: MIN_RECORDING_SECS_DEFAULT,
        }
    }
}

/// Where the trigger stands between two ticks.
#[derive(Clone, Copy, Debug, PartialEq, Eq, Structural)]
pub enum TriggerState {
    /// Nothing is captured and presence was not seen at the last tick.
    Idle,
    /// Presence has held since `since`; no capture runs yet.
    ArmedForStart { since: u64 },
    /// A capture runs; it started at `since`.
    Recording { since: u64 },
    /// A capture that started at `recording_since` runs, and presence has
    /// been missing since `since`.
    ArmedForStop { since: u64, recording_since: u64 },
}

/// What the caller has to do after a tick.
#[derive(Clone, Copy, Debug, PartialEq, Eq, Structural)]
pub enum TriggerAction {
    /// Nothing.
    Hold,
    /// Start a capture now.
    StartCapture,
    /// Stop the running capture and queue it for processing.
    StopCapture,
}

/// One poll of the presence monitor: when it was taken and what it saw.
#[derive(Clone, Copy, Debug, PartialEq, Eq, Structural)]
pub struct Tick {
    pub at: u64,
    pub present: bool,
}

/// Whole seconds from `since` to `now`, zero if `now` lies before `since`.
pub open spec fn elapsed_secs(now: u64, since: u64) -> int {
    if now >= since {
        (now - since) / (MILLIS_PER_SEC as int)
    } else {
        0
    }
}

/// Whole seconds from `since` to `now`, zero if `now` lies before `since`.
pub fn elapsed(now: u64, since: u64) -> (secs: u64)
    ensures
        secs == elapsed_secs(now, since),
{
    if now >= since {
        (now - since) / MILLIS_PER_SEC
    } else {
        0
    }
}

/// The transition table: the state after a tick at `now` and the action it
/// asks for.
pub open spec fn next(
    settings: TriggerSettings,
    state: TriggerState,
    now: u64,
    present: bool,
) -> (TriggerState, TriggerAction) {
    match state {
        TriggerState::Idle => if present {
            (TriggerState::ArmedForStart { since: now }, TriggerAction::Hold)
        } else {
            (TriggerState::Idle, TriggerAction::Hold)
        },
        TriggerState::ArmedForStart { since } => if !present {
            (TriggerState::Idle, TriggerAction::Hold)
        } else if elapsed_secs(now, since) >= settings.start_debounce_secs {
            (TriggerState::Recording { since: now }, TriggerAction::StartCapture)
        } else {
            (state, TriggerAction::Hold)
        },
        TriggerState::Recording { since } => if present {
            (state, TriggerAction::Hold)
        } else {
            (
                TriggerState::ArmedForStop { since: now, recording_since: since },
                TriggerAction::Hold,
            )
        },
        TriggerState::ArmedForStop { since, recording_since } => if present {
            (TriggerState::Recording { since: recording_since }, TriggerAction::Hold)
        } else if elapsed_secs(now, since) >= settings.stop_grace_secs && elapsed_secs(
            now,
            recording_since,
        ) >= settings.min_recording_secs {
            (TriggerState::Idle, TriggerAction::StopCapture)
        } else {
            (state, TriggerAction::Hold)
        },
    }
}

/// Whether a capture runs in `state`.
pub open spec fn capturing(state: TriggerState) -> bool {
    state is Recording || state is ArmedForStop
}

impl TriggerState {
    /// Whether a capture runs in this state.
    pub fn is_capturing(&self) -> (b: bool)
        ensures
            b == capturing(*self),
    {
        match self {
            TriggerState::Recording { .. } => true,
            TriggerState::ArmedForStop { .. } => true,
            _ => false,
        }
    }
}

/// Advances the trigger by one tick taken at `now`.
pub fn step(settings: &TriggerSettings, state: TriggerState, now: u64, present: bool) -> (out: (
    TriggerState,
    TriggerAction,
))
    ensures
        out == next(*settings, state, now, present),
{
    match state {
        TriggerState::Idle => {
            if present {
                (TriggerState::ArmedForStart { since: now }, TriggerAction::Hold)
            } else {
                (TriggerState::Idle, TriggerAction::Hold)
            }
        },
        TriggerState::ArmedForStart { since } => {
            if !present {
                (TriggerState::Idle, TriggerAction::Hold)
            } else if elapsed(now, since) >= settings.start_debounce_secs {
                (TriggerState::Recording { since: now }, TriggerAction::StartCapture)
            } else {
                (state, TriggerAction::Hold)
            }
        },
        TriggerState::Recording { since } => {
            if present {
                (state, TriggerAction::Hold)
            } else {
                (
                    TriggerState::ArmedForStop { since: now, recording_since: since },
                    TriggerAction::Hold,
                )
            }
        },
        TriggerState::ArmedForStop { since, recording_since } => {
            if present {
                (TriggerState::Recording { since: recording_since }, TriggerAction::Hold)
            } else if elapsed(now, since) >= settings.stop_grace_secs && elapsed(
                now,
                recording_since,
            ) >= settings.min_recording_secs {
                (TriggerState::Idle, TriggerAction::StopCapture)
            } else {
                (state, TriggerAction::Hold)
            }
        },
    }
}

/// What a termination signal asks for in `state`: a running capture is
/// stopped at once, whatever the grace and the minimum duration say.
pub open spec fn shutdown_action(state: TriggerState) -> TriggerAction {
    if capturing(state) {
        TriggerAction::StopCapture
    } else {
        TriggerAction::Hold
    }
}

/// Handles a termination signal: the trigger returns to `Idle`, and a running
/// capture is to be stopped and queued without further checks.
pub fn shutdown(state: TriggerState) -> (out: (TriggerState, TriggerAction))
    ensures
        out.0 == TriggerState::Idle,
        out.1 == shutdown_action(state),
{
    if state.is_capturing() {
        (TriggerState::Idle, TriggerAction::StopCapture)
    } else {
        (TriggerState::Idle, TriggerAction::Hold)
    }
}

/// The state after the first `n` ticks of `ticks`, starting from `Idle`.
pub open spec fn state_after(settings: TriggerSettings, ticks: Seq<Tick>, n: nat) -> TriggerState
    decreases n,
{
    if n == 0 {
        TriggerState::Idle
    } else {
        next(
            settings,
            state_after(settings, ticks, (n - 1) as nat),
            ticks[n - 1].at,
            ticks[n - 1].present,
        ).0
    }
}

/// The action that tick `i` of `ticks` asks for.
pub open spec fn action_at(settings: TriggerSettings, ticks: Seq<Tick>, i: int) -> TriggerAction {
    next(settings, state_after(settings, ticks, i as nat), ticks[i].at, ticks[i].present).1
}

/// Every tick from `from` to `to`, both included, saw `present`.
pub open spec fn held(ticks: Seq<Tick>, from: int, to: int, present: bool) -> bool {
    forall|k: int| from <= k <= to ==> (#[trigger] ticks[k]).present == present
}

/// No tick strictly between `from` and `to` stopped a capture.
pub open spec fn no_stop_between(
    settings: TriggerSettings,
    ticks: Seq<Tick>,
    from: int,
    to: int,
) -> bool {
    forall|m: int| from < m < to ==> !(#[trigger] action_at(settings, ticks, m) is StopCapture)
}

/// What the state after `n` ticks says about the ticks that led to it.
pub open spec fn explained(settings: TriggerSettings, ticks: Seq<Tick>, n: nat) -> bool {
    match state_after(settings, ticks, n) {
        TriggerState::Idle => true,
        TriggerState::ArmedForStart { since } => exists|j: int|
            0 <= j < n && (#[trigger] ticks[j]).at == since && held(ticks, j, n - 1, true),
        TriggerState::Recording { since } => exists|k: int|
            0 <= k < n && (#[trigger] action_at(settings, ticks, k)) is StartCapture && ticks[k].at
                == since && no_stop_between(settings, ticks, k, n as int),
        TriggerState::ArmedForStop { since, recording_since } => exists|j: int, k: int|
            0 <= k < j < n && (#[trigger] ticks[j]).at == since && held(ticks, j, n - 1, false) && (
            #[trigger] action_at(settings, ticks, k)) is StartCapture && ticks[k].at
                == recording_since && no_stop_between(settings, ticks, k, n as int),
    }
}

/// Every state that a run reaches is explained by the ticks before it.
pub proof fn lemma_explained(settings: TriggerSettings, ticks: Seq<Tick>, n: nat)
    requires
        n <= ticks.len(),
    ensures
        explained(settings, ticks, n),
    decreases n,
{
    if n > 0 {
        let p = (n - 1) as nat;
        lemma_explained(settings, ticks, p);
        let before = state_after(settings, ticks, p);
        let after = state_after(settings, ticks, n);
        let t = ticks[p as int];
        assert(after == next(settings, before, t.at, t.present).0);
        match before {
            TriggerState::Idle => {
                if t.present {
                    assert(ticks[p as int].at == t.at && held(ticks, p as int, n - 1, true));
                }
            },
            TriggerState::ArmedForStart { since } => {
                if t.present {
                    if elapsed_secs(t.at, since) >= settings.start_debounce_secs {
                        assert(action_at(settings, ticks, p as int) is StartCapture);
                        assert(no_stop_between(settings, ticks, p as int, n as int));
                    } else {
                        let j = choose|j: int|
                            0 <= j < p && (#[trigger] ticks[j]).at == since && held(
                                ticks,
                                j,
                                p - 1,
                                true,
                            );
                        assert(held(ticks, j, n - 1, true));
                    }
                }
            },
            TriggerState::Recording { since } => {
                let k = choose|k: int|
                    0 <= k < p && (#[trigger] action_at(settings, ticks, k)) is StartCapture
                        && ticks[k].at == since && no_stop_between(settings, ticks, k, p as int);
                assert(!(action_at(settings, ticks, p as int) is StopCapture));
                assert(no_stop_between(settings, ticks, k, n as int));
                if !t.present {
                    assert(ticks[p as int].at == t.at && held(ticks, p as int, n - 1, false));
                }
            },
            TriggerState::ArmedForStop { since, recording_since } => {
                let (j, k) = choose|j: int, k: int|
                    0 <= k < j < p && (#[trigger] ticks[j]).at == since && held(
                        ticks,
                        j,
                        p - 1,
                        false,
                    ) && (#[trigger] action_at(settings, ticks, k)) is StartCapture && ticks[k].at
                        == recording_since && no_stop_between(settings, ticks, k, p as int);
                if t.present {
                    assert(!(action_at(settings, ticks, p as int) is StopCapture));
                    assert(no_stop_between(settings, ticks, k, n as int));
                } else if !(after is Idle) {
                    assert(!(action_at(settings, ticks, p as int) is StopCapture));
                    assert(no_stop_between(settings, ticks, k, n as int));
                    assert(held(ticks, j, n - 1, false));
                }
            },
        }
    }
}

/// A capture starts only after presence has held, tick after tick, for at
/// least the start debounce: whatever the ticks are, if tick `i` starts a
/// capture, then some earlier tick `j` opens a run of ticks that all saw
/// presence, up to and including `i`, and at least `start_debounce_secs`
/// lie between `j` and `i`.
pub proof fn lemma_start_needs_debounce(settings: TriggerSettings, ticks: Seq<Tick>, i: int)
    requires
        0 <= i < ticks.len(),
        action_at(settings, ticks, i) is StartCapture,
    ensures
        exists|j: int|
            0 <= j < i && held(ticks, j, i, true) && elapsed_secs(
                ticks[i].at,
                (#[trigger] ticks[j]).at,
            ) >= settings.start_debounce_secs,
{
    lemma_explained(settings, ticks, i as nat);
    let before = state_after(settings, ticks, i as nat);
    assert(before is ArmedForStart);
    let since = before->ArmedForStart_since;
    let j = choose|j: int|
        0 <= j < i && (#[trigger] ticks[j]).at == since && held(ticks, j, i - 1, true);
    assert(ticks[i].present);
    assert(held(ticks, j, i, true));
    assert(elapsed_secs(ticks[i].at, ticks[j].at) >= settings.start_debounce_secs);
}

/// A capture stops only after absence has held, tick after tick, for at least
/// the stop grace, and only once the capture has run for at least the minimum
/// duration: whatever the ticks are, if tick `i` stops a capture, then some
/// earlier tick `j` opens a run of ticks that all saw absence, up to and
/// including `i`, at least `stop_grace_secs` lie between `j` and `i`, and the
/// capture was started by a tick `k` before `j`, at least
/// `min_recording_secs` before `i`, with no other stop in between.
pub proof fn lemma_stop_needs_grace_and_duration(
    settings: TriggerSettings,
    ticks: Seq<Tick>,
    i: int,
)
    requires
        0 <= i < ticks.len(),
        action_at(settings, ticks, i) is StopCapture,
    ensures
        exists|j: int, k: int|
            0 <= k < j < i && held(ticks, j, i, false) && elapsed_secs(
                ticks[i].at,
                (#[trigger] ticks[j]).at,
            ) >= settings.stop_grace_secs && (#[trigger] action_at(settings, ticks, k))
                is StartCapture && elapsed_secs(ticks[i].at, ticks[k].at)
                >= settings.min_recording_secs && no_stop_between(settings, ticks, k, i),
{
    lemma_explained(settings, ticks, i as nat);
    let before = state_after(settings, ticks, i as nat);
    assert(before is ArmedForStop);
    let since = before->ArmedForStop_since;
    let recording_since = before->ArmedForStop_recording_since;
    let (j, k) = choose|j: int, k: int|
        0 <= k < j < i && (#[trigger] ticks[j]).at == since && held(ticks, j, i - 1, false) && (
        #[trigger] action_at(settings, ticks, k)) is StartCapture && ticks[k].at
            == recording_since && no_stop_between(settings, ticks, k, i);
    assert(!ticks[i].present);
    assert(held(ticks, j, i, false));
    assert(elapsed_secs(ticks[i].at, ticks[j].at) >= settings.stop_grace_secs);
    assert(elapsed_secs(ticks[i].at, ticks[k].at) >= settings.min_recording_secs);
}

} // verus!
