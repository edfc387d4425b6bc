//! The monitor: the trigger and the capture controller as one unit. Each
//! tick of the control loop goes in, and what the caller has to do comes
//! out: spawn a producer, finalize a capture, or nothing.

use vstd::prelude::*;
use vstd::string::*;
use crate::capture::{
    first_serving, none_serving, provisional_of, CaptureController, CaptureError, CaptureRequest,
    Finalize, SessionView, StartOutcome, SupportedConfig,
};
use crate::clock::{local_time_text, FILE_STAMP_FORMAT};
use crate::task::{Task, TaskStatus, TASK_TYPE_PROCESS_SESSION};
use crate::task_store::{after_add, TaskRepository};
use crate::text::{chars_of, extend, join_path, path_in, string_of};
use crate::trigger::{
    action_at, capturing, elapsed_secs, held, lemma_start_needs_debounce,
    lemma_stop_needs_grace_and_duration, next, no_stop_between, shutdown, state_after, step, Tick,
    TriggerAction, TriggerSettings, TriggerState,
};

verus! {

/// The file of a capture that begins at the local time `stamp`, in the
/// directory `dir`.
pub open spec fn capture_path_of(dir: Seq<char>, stamp: Seq<char>) -> Seq<char> {
    path_in(dir, stamp + ".wav"@)
}

/// The file of a capture that begins at the local time `stamp`, in the
/// directory `dir`.
pub fn capture_path(dir: &str, stamp: &str) -> (out: String)
    ensures
        out@ == capture_path_of(dir@, stamp@),
{
    let mut name = chars_of(stamp);
    extend(&mut name, &chars_of(".wav"));
    join_path(dir, string_of(&name).as_str())
}

/// What the caller has to do after a tick.
#[derive(Debug)]
pub enum MonitorEffect {
    /// Nothing.
    Idle,
    /// Spawn a producer that writes to `provisional_path` with the device
    /// configuration at `config_index`.
    Start { provisional_path: String, config_index: usize },
    /// The capture could not start: report the error.
    StartFailed { error: CaptureError },
    /// Stop the producer, rename the provisional file, then queue the
    /// capture with `enqueue`.
    Stop { finalize: Finalize },
}

/// The monitor as contracts see it.
pub struct MonitorView {
    pub state: TriggerState,
    pub session: Option<SessionView>,
}

/// What the caller has to do after a tick, as contracts see it.
pub enum EffectView {
    Idle,
    Start { provisional_path: Seq<char>, config_index: usize },
    StartFailed { error: CaptureError },
    Stop { provisional_path: Seq<char>, output_path: Seq<char> },
}

impl View for MonitorEffect {
    type V = EffectView;

    open spec fn view(&self) -> EffectView {
        match self {
            MonitorEffect::Idle => EffectView::Idle,
            MonitorEffect::Start { provisional_path, config_index } => EffectView::Start {
                provisional_path: provisional_path@,
                config_index: *config_index,
            },
            MonitorEffect::StartFailed { error } => EffectView::StartFailed { error: *error },
            MonitorEffect::Stop { finalize } => EffectView::Stop {
                provisional_path: finalize.provisional_path@,
                output_path: finalize.output_path@,
            },
        }
    }
}

/// What a tick does: the monitor `before`, ticked at `now` with the presence
/// `present`, stands at `after` and asks for `effect`, where a capture that
/// starts is named by the local time `stamp`.
///
/// The trigger moves by its table. Where it asks for a start, the capture
/// begins with the first configuration that serves the request; where none
/// does, the start fails and the trigger falls back to `Idle`. Where it asks
/// for a stop, the session ends and its file is to be finalized.
pub open spec fn ticked(
    settings: TriggerSettings,
    directory: Seq<char>,
    request: CaptureRequest,
    before: MonitorView,
    now: u64,
    present: bool,
    stamp: Seq<char>,
    configs: Seq<SupportedConfig>,
    after: MonitorView,
    effect: EffectView,
) -> bool {
    match next(settings, before.state, now, present).1 {
        TriggerAction::Hold => effect is Idle && after == (MonitorView {
            state: next(settings, before.state, now, present).0,
            session: before.session,
        }),
        TriggerAction::StartCapture => match effect {
            EffectView::Start { provisional_path, config_index } => {
                &&& first_serving(configs, request, config_index as int)
                &&& provisional_path == provisional_of(capture_path_of(directory, stamp))
                &&& after == (MonitorView {
                    state: TriggerState::Recording { since: now },
                    session: Some(
                        SessionView {
                            output_path: capture_path_of(directory, stamp),
                            started_at: now,
                        },
                    ),
                })
            },
            EffectView::StartFailed { error } => {
                &&& none_serving(configs, request)
                &&& error == (CaptureError::UnsupportedConfig {
                    sample_rate: request.sample_rate,
                    channels: request.channels,
                })
                &&& after == (MonitorView { state: TriggerState::Idle, session: None })
            },
            _ => false,
        },
        TriggerAction::StopCapture => match effect {
            EffectView::Stop { provisional_path, output_path } => {
                &&& before.session is Some
                &&& output_path == before.session->0.output_path
                &&& provisional_path == provisional_of(output_path)
                &&& after == (MonitorView { state: TriggerState::Idle, session: None })
            },
            _ => false,
        },
    }
}

/// The effects of `effects` as contracts see them.
pub open spec fn effect_views(effects: Seq<MonitorEffect>) -> Seq<EffectView> {
    effects.map_values(|e: MonitorEffect| e@)
}

/// Each effect is what the trigger's table asks for at its tick: nothing
/// where the trigger holds, a start where it starts, a stop where it stops.
pub open spec fn follows_trigger(
    settings: TriggerSettings,
    ticks: Seq<Tick>,
    effects: Seq<EffectView>,
) -> bool {
    forall|i: int|
        0 <= i < effects.len() ==> match action_at(settings, ticks, i) {
            TriggerAction::Hold => (#[trigger] effects[i]) is Idle,
            TriggerAction::StartCapture => effects[i] is Start,
            TriggerAction::StopCapture => effects[i] is Stop,
        }
}

/// A capture starts only from a tick that saw presence, and only after
/// presence has held tick after tick for at least the start debounce.
pub open spec fn starts_are_debounced(
    settings: TriggerSettings,
    ticks: Seq<Tick>,
    effects: Seq<EffectView>,
) -> bool {
    forall|i: int|
        0 <= i < effects.len() && (#[trigger] effects[i]) is Start ==> ticks[i].present
            && exists|j: int|
            0 <= j < i && held(ticks, j, i, true) && elapsed_secs(
                ticks[i].at,
                (#[trigger] ticks[j]).at,
            ) >= settings.start_debounce_secs
}

/// A capture stops only from a tick that saw absence, only after absence has
/// held tick after tick for at least the stop grace, and only once at least
/// the minimum duration has gone by since the tick that started it.
pub open spec fn stops_are_graced(
    settings: TriggerSettings,
    ticks: Seq<Tick>,
    effects: Seq<EffectView>,
) -> bool {
    forall|i: int|
        0 <= i < effects.len() && (#[trigger] effects[i]) is Stop ==> !ticks[i].present
            && exists|j: int, k: int|
            0 <= k < j < i && held(ticks, j, i, false) && elapsed_secs(
                ticks[i].at,
                (#[trigger] ticks[j]).at,
            ) >= settings.stop_grace_secs && (#[trigger] action_at(settings, ticks, k))
                is StartCapture && elapsed_secs(ticks[i].at, ticks[k].at)
                >= settings.min_recording_secs && no_stop_between(settings, ticks, k, i)
}

/// Drives captures from presence.
#[derive(Debug)]
pub struct MonitorUseCase {
    settings: TriggerSettings,
    check_interval: u64,
    recording_dir: String,
    request: CaptureRequest,
    state: TriggerState,
    recorder: CaptureController,
}

impl MonitorUseCase {
    /// The trigger's state and the running session.
    pub closed spec fn view(&self) -> MonitorView {
        MonitorView { state: self.state, session: self.recorder.session() }
    }

    /// The trigger's settings.
    pub closed spec fn settings(&self) -> TriggerSettings {
        self.settings
    }

    /// Where captures go.
    pub closed spec fn directory(&self) -> Seq<char> {
        self.recording_dir@
    }

    /// What captures ask of the device.
    pub closed spec fn request(&self) -> CaptureRequest {
        self.request
    }

    /// Seconds between two ticks.
    pub closed spec fn interval(&self) -> u64 {
        self.check_interval
    }

    /// A capture runs exactly while the trigger says so.
    pub open spec fn consistent(&self) -> bool {
        capturing(self@.state) == self@.session is Some
    }

    /// A monitor at rest: the trigger is idle and nothing is captured.
    pub fn new(
        check_interval: u64,
        recording_dir: &str,
        request: CaptureRequest,
        settings: TriggerSettings,
    ) -> (m: MonitorUseCase)
        ensures
            m@ == (MonitorView { state: TriggerState::Idle, session: None }),
            m.settings() == settings,
            m.directory() == recording_dir@,
            m.request() == request,
            m.interval() == check_interval,
            m.consistent(),
    {
        MonitorUseCase {
            settings,
            check_interval,
            recording_dir: String::from_str(recording_dir),
            request,
            state: TriggerState::Idle,
            recorder: CaptureController::new(),
        }
    }

    /// Seconds between two ticks.
    pub fn check_interval(&self) -> (secs: u64)
        ensures
            secs == self.interval(),
    {
        self.check_interval
    }

    /// The trigger's state.
    pub fn state(&self) -> (s: TriggerState)
        ensures
            s == self@.state,
    {
        self.state
    }

    /// Whether a capture runs.
    pub fn is_recording(&self) -> (b: bool)
        ensures
            b == self@.session is Some,
    {
        self.recorder.is_active()
    }

    /// Whether a tick taken at `now` with the presence `present` would ask
    /// for a capture to start, so that the caller knows when to ask the
    /// device what it offers.
    pub fn will_start(&self, now: u64, present: bool) -> (b: bool)
        ensures
            b == (next(self.settings(), self@.state, now, present).1
                == TriggerAction::StartCapture),
    {
        let (_, action) = step(&self.settings, self.state, now, present);
        action == TriggerAction::StartCapture
    }

    /// One tick of the control loop, taken at `now` with the presence
    /// `present`; `stamp` is the local time that a capture starting now
    /// would be named by, and `configs` what the device offers. What the
    /// tick does is said by `ticked`.
    pub fn on_tick(
        &mut self,
        now: u64,
        present: bool,
        stamp: &str,
        configs: &Vec<SupportedConfig>,
    ) -> (effect: MonitorEffect)
        requires
            old(self).consistent(),
        ensures
            final(self).consistent(),
            final(self).settings() == old(self).settings(),
            final(self).directory() == old(self).directory(),
            final(self).request() == old(self).request(),
            final(self).interval() == old(self).interval(),
            ticked(
                old(self).settings(),
                old(self).directory(),
                old(self).request(),
                old(self)@,
                now,
                present,
                stamp@,
                configs@,
                final(self)@,
                effect@,
            ),
    {
        let (state, action) = step(&self.settings, self.state, now, present);
        match action {
            TriggerAction::Hold => {
                self.state = state;
                MonitorEffect::Idle
            },
            TriggerAction::StartCapture => {
                let path = capture_path(self.recording_dir.as_str(), stamp);
                match self.recorder.start(path.as_str(), now, &self.request, configs) {
                    Ok(StartOutcome::Spawn { provisional_path, config_index }) => {
                        self.state = state;
                        MonitorEffect::Start { provisional_path, config_index }
                    },
                    Ok(StartOutcome::AlreadyActive) => {
                        self.state = state;
                        MonitorEffect::Idle
                    },
                    Err(error) => {
                        self.state = TriggerState::Idle;
                        MonitorEffect::StartFailed { error }
                    },
                }
            },
            TriggerAction::StopCapture => {
                self.state = state;
                match self.recorder.stop() {
                    Some(finalize) => MonitorEffect::Stop { finalize },
                    None => MonitorEffect::Idle,
                }
            },
        }
    }

    /// One tick of the control loop, taken at `now` with the presence
    /// `present`. A capture that starts is named by the local time of this
    /// moment, whatever that is; in everything else the tick is `on_tick`.
    pub fn tick(&mut self, now: u64, present: bool, configs: &Vec<SupportedConfig>) -> (effect:
        MonitorEffect)
        requires
            old(self).consistent(),
        ensures
            final(self).consistent(),
            final(self).settings() == old(self).settings(),
            final(self).directory() == old(self).directory(),
            final(self).request() == old(self).request(),
            final(self).interval() == old(self).interval(),
            exists|stamp: Seq<char>|
                ticked(
                    old(self).settings(),
                    old(self).directory(),
                    old(self).request(),
                    old(self)@,
                    now,
                    present,
                    stamp,
                    configs@,
                    final(self)@,
                    effect@,
                ),
    {
        let stamp = local_time_text(FILE_STAMP_FORMAT);
        self.on_tick(now, present, stamp.as_str(), configs)
    }

    /// Runs the control loop over `ticks`, one presence sample per tick,
    /// from a monitor at rest, and gives the effect of each tick. The run
    /// ends at the first capture that cannot start, with its error.
    ///
    /// Whatever the samples are, a capture starts only after presence has
    /// held for the start debounce, and stops only after absence has held
    /// for the stop grace and the capture has run for the minimum duration,
    /// counted from its start.
    pub fn execute(&mut self, ticks: &Vec<Tick>, configs: &Vec<SupportedConfig>) -> (out: Result<
        Vec<MonitorEffect>,
        CaptureError,
    >)
        requires
            old(self)@ == (MonitorView { state: TriggerState::Idle, session: None }),
        ensures
            final(self).consistent(),
            final(self).settings() == old(self).settings(),
            final(self).directory() == old(self).directory(),
            final(self).request() == old(self).request(),
            final(self).interval() == old(self).interval(),
            match out {
                Ok(effects) => {
                    &&& effects@.len() == ticks@.len()
                    &&& final(self)@.state == state_after(
                        old(self).settings(),
                        ticks@,
                        ticks@.len(),
                    )
                    &&& follows_trigger(old(self).settings(), ticks@, effect_views(effects@))
                    &&& starts_are_debounced(old(self).settings(), ticks@, effect_views(effects@))
                    &&& stops_are_graced(old(self).settings(), ticks@, effect_views(effects@))
                },
                Err(e) => {
                    &&& none_serving(configs@, old(self).request())
                    &&& e == (CaptureError::UnsupportedConfig {
                        sample_rate: old(self).request().sample_rate,
                        channels: old(self).request().channels,
                    })
                    &&& exists|i: int|
                        0 <= i < ticks@.len() && (#[trigger] action_at(
                            old(self).settings(),
                            ticks@,
                            i,
                        )) is StartCapture
                },
            },
    {
        let ghost settings = self.settings();
        let mut effects: Vec<MonitorEffect> = Vec::new();
        let mut i: usize = 0;
        while i < ticks.len()
            invariant
                i <= ticks.len(),
                effects@.len() == i,
                self.consistent(),
                self.settings() == settings,
                settings == old(self).settings(),
                self.directory() == old(self).directory(),
                self.request() == old(self).request(),
                self.interval() == old(self).interval(),
                self@.state == state_after(settings, ticks@, i as nat),
                follows_trigger(settings, ticks@, effect_views(effects@)),
            decreases ticks.len() - i,
        {
            let tick = ticks[i];
            let ghost before = self@;
            let ghost done = effects@;
            let effect = self.tick(tick.at, tick.present, configs);
            proof {
                let stamp = choose|stamp: Seq<char>|
                    ticked(
                        settings,
                        self.directory(),
                        self.request(),
                        before,
                        tick.at,
                        tick.present,
                        stamp,
                        configs@,
                        self@,
                        effect@,
                    );
                assert(ticked(
                    settings,
                    self.directory(),
                    self.request(),
                    before,
                    tick.at,
                    tick.present,
                    stamp,
                    configs@,
                    self@,
                    effect@,
                ));
                assert(next(settings, before.state, tick.at, tick.present).1 == action_at(
                    settings,
                    ticks@,
                    i as int,
                ));
                assert(next(settings, before.state, tick.at, tick.present).0 == state_after(
                    settings,
                    ticks@,
                    (i + 1) as nat,
                ));
            }
            match effect {
                MonitorEffect::StartFailed { error } => {
                    return Err(error);
                },
                other => {
                    let ghost view = other@;
                    effects.push(other);
                    assert(effect_views(effects@) =~= effect_views(done).push(view));
                },
            }
            i += 1;
        }
        proof {
            let views = effect_views(effects@);
            assert forall|k: int| 0 <= k < views.len() && (#[trigger] views[k]) is Start implies ticks@[k].present
                && exists|j: int|
                0 <= j < k && held(ticks@, j, k, true) && elapsed_secs(
                    ticks@[k].at,
                    (#[trigger] ticks@[j]).at,
                ) >= settings.start_debounce_secs by {
                assert(action_at(settings, ticks@, k) is StartCapture);
                lemma_start_needs_debounce(settings, ticks@, k);
            }
            assert forall|k: int| 0 <= k < views.len() && (#[trigger] views[k]) is Stop implies !ticks@[k].present
                && exists|j: int, m: int|
                0 <= m < j < k && held(ticks@, j, k, false) && elapsed_secs(
                    ticks@[k].at,
                    (#[trigger] ticks@[j]).at,
                ) >= settings.stop_grace_secs && (#[trigger] action_at(settings, ticks@, m))
                    is StartCapture && elapsed_secs(ticks@[k].at, ticks@[m].at)
                    >= settings.min_recording_secs && no_stop_between(settings, ticks@, m, k) by {
                assert(action_at(settings, ticks@, k) is StopCapture);
                lemma_stop_needs_grace_and_duration(settings, ticks@, k);
            }
        }
        Ok(effects)
    }

    /// Handles a termination signal: a running capture is stopped at once,
    /// whatever the grace and the minimum duration say, and is to be
    /// finalized and queued.
    pub fn on_shutdown(&mut self) -> (effect: MonitorEffect)
        requires
            old(self).consistent(),
        ensures
            final(self).consistent(),
            final(self)@ == (MonitorView { state: TriggerState::Idle, session: None }),
            match old(self)@.session {
                Some(session) => match effect {
                    MonitorEffect::Stop { finalize } => finalize.output_path@
                        == session.output_path && finalize.provisional_path@ == provisional_of(
                        finalize.output_path@,
                    ),
                    _ => false,
                },
                None => effect is Idle,
            },
    {
        let (state, action) = shutdown(self.state);
        self.state = state;
        match self.recorder.stop() {
            Some(finalize) => MonitorEffect::Stop { finalize },
            None => MonitorEffect::Idle,
        }
    }

    /// Queues a finished capture: one pending `process_session` task whose
    /// only input is the final path.
    pub fn enqueue(&self, repo: &mut TaskRepository, finished: &Finalize) -> (task: Task)
        ensures
            task@.status == TaskStatus::Pending,
            task@.task_type == TASK_TYPE_PROCESS_SESSION@,
            task@.file_paths == seq![finished.output_path@],
            final(repo).contents() == after_add(old(repo).contents(), task@),
            final(repo).location() == old(repo).location(),
    {
        crate::recovery::enqueue_recovered(repo, finished)
    }
}

} // verus!
