//! The capture controller: at most one capture session at a time, written to
//! a provisional file that takes its final name when the session stops.
//!
//! The controller decides; the caller owns the device and the producer
//! thread. `start` says whether a producer has to be spawned and with which
//! device configuration, `stop` says which file has to be renamed.

use vstd::prelude::*;
use vstd::string::*;

verus! {

/// The sample formats that a device may offer.
#[derive(Clone, Copy, Debug, PartialEq, Eq, Structural)]
pub enum SampleFormat {
    /// 32-bit floating point.
    F32,
    /// Signed 16-bit integers.
    I16,
    /// Any format that the producer does not take.
    Other,
}

/// One range of configurations that a device supports.
#[derive(Clone, Copy, Debug, PartialEq, Eq, Structural)]
pub struct SupportedConfig {
    pub channels: u16,
    pub min_sample_rate: u32,
    pub max_sample_rate: u32,
    pub format: SampleFormat,
}

/// What a capture asks of the device.
#[derive(Clone, Copy, Debug, PartialEq, Eq, Structural)]
pub struct CaptureRequest {
    pub sample_rate: u32,
    pub channels: u16,
}

/// Why a capture could not start.
#[derive(Clone, Copy, Debug, PartialEq, Eq, Structural)]
pub enum CaptureError {
    /// The device offers no configuration with the requested rate and
    /// channel count in a format that the producer takes.
    UnsupportedConfig { sample_rate: u32, channels: u16 },
}

/// `config` offers what `request` asks for, in a format the producer takes.
pub open spec fn serves(config: SupportedConfig, request: CaptureRequest) -> bool {
    &&& config.channels == request.channels
    &&& config.min_sample_rate <= request.sample_rate <= config.max_sample_rate
    &&& (config.format == SampleFormat::F32 || config.format == SampleFormat::I16)
}

/// `i` is the first index of `configs` whose configuration serves `request`.
pub open spec fn first_serving(
    configs: Seq<SupportedConfig>,
    request: CaptureRequest,
    i: int,
) -> bool {
    &&& 0 <= i < configs.len()
    &&& serves(configs[i], request)
    &&& forall|j: int| 0 <= j < i ==> !serves(#[trigger] configs[j], request)
}

/// No configuration of `configs` serves `request`.
pub open spec fn none_serving(configs: Seq<SupportedConfig>, request: CaptureRequest) -> bool {
    forall|j: int| 0 <= j < configs.len() ==> !serves(#[trigger] configs[j], request)
}

impl SupportedConfig {
    /// Whether this configuration offers what `request` asks for.
    pub fn serves(&self, request: &CaptureRequest) -> (b: bool)
        ensures
            b == serves(*self, *request),
    {
        self.channels == request.channels && self.min_sample_rate <= request.sample_rate
            && request.sample_rate <= self.max_sample_rate && (self.format == SampleFormat::F32
            || self.format == SampleFormat::I16)
    }
}

/// Picks the first configuration that serves `request`. There is no fallback
/// to another rate, channel count or format: a request that the device does
/// not serve is an error.
pub fn select_config(configs: &Vec<SupportedConfig>, request: &CaptureRequest) -> (out: Result<
    usize,
    CaptureError,
>)
    ensures
        match out {
            Ok(i) => first_serving(configs@, *request, i as int),
            Err(e) => none_serving(configs@, *request) && e == (CaptureError::UnsupportedConfig {
                sample_rate: request.sample_rate,
                channels: request.channels,
            }),
        },
{
    let mut i: usize = 0;
    while i < configs.len()
        invariant
            i <= configs.len(),
            forall|j: int| 0 <= j < i ==> !serves(#[trigger] configs@[j], *request),
        decreases configs.len() - i,
    {
        if configs[i].serves(request) {
            return Ok(i);
        }
        i += 1;
    }
    Err(
        CaptureError::UnsupportedConfig {
            sample_rate: request.sample_rate,
            channels: request.channels,
        },
    )
}

/// `i` is the first index of `names` whose name holds `wanted`.
pub open spec fn first_named(names: Seq<Seq<char>>, wanted: Seq<char>, i: int) -> bool {
    &&& 0 <= i < names.len()
    &&& crate::text::contains(names[i], wanted)
    &&& forall|j: int| 0 <= j < i ==> !crate::text::contains(#[trigger] names[j], wanted)
}

/// No name of `names` holds `wanted`.
pub open spec fn none_named(names: Seq<Seq<char>>, wanted: Seq<char>) -> bool {
    forall|j: int| 0 <= j < names.len() ==> !crate::text::contains(#[trigger] names[j], wanted)
}

/// Picks the input device: the first whose name holds `wanted`, and the
/// default device where none does or where nothing is wanted. `None` means
/// that there is no device to take.
pub fn select_device(names: &Vec<String>, wanted: Option<&str>, default_device: Option<usize>) -> (out:
    Option<usize>)
    ensures
        match wanted {
            Some(w) => match out {
                Some(i) => first_named(crate::text::views_of(names@), w@, i as int) || (none_named(
                    crate::text::views_of(names@),
                    w@,
                ) && default_device == Some(i)),
                None => none_named(crate::text::views_of(names@), w@) && default_device is None,
            },
            None => out == default_device,
        },
{
    match wanted {
        Some(w) => {
            let needle = crate::text::chars_of(w);
            let mut i: usize = 0;
            while i < names.len()
                invariant
                    i <= names.len(),
                    needle@ == w@,
                    wanted == Some(w),
                    forall|j: int|
                        0 <= j < i ==> !crate::text::contains(
                            #[trigger] crate::text::views_of(names@)[j],
                            w@,
                        ),
                decreases names.len() - i,
            {
                let hay = crate::text::chars_of(names[i].as_str());
                assert(crate::text::views_of(names@)[i as int] == names@[i as int]@);
                if crate::text::has_substring(&hay, &needle) {
                    return Some(i);
                }
                i += 1;
            }
            default_device
        },
        None => default_device,
    }
}

/// The suffix that marks a capture file as incomplete.
pub open spec fn part_suffix() -> Seq<char> {
    seq!['.', 'p', 'a', 'r', 't']
}

/// The provisional name of the capture file `output_path`.
pub open spec fn provisional_of(output_path: Seq<char>) -> Seq<char> {
    output_path + part_suffix()
}

/// The provisional name of the capture file `output_path`: the final name
/// with the suffix `.part`.
pub fn provisional_path(output_path: &str) -> (p: String)
    ensures
        p@ == provisional_of(output_path@),
{
    proof {
        reveal_strlit(".part");
        assert(".part"@ =~= part_suffix());
    }
    String::from_str(output_path).concat(".part")
}

/// A running capture as contracts see it.
pub struct SessionView {
    pub output_path: Seq<char>,
    pub started_at: u64,
}

/// A running capture: where it will end up and when it began.
#[derive(Debug)]
pub struct CaptureSession {
    pub output_path: String,
    pub started_at: u64,
}

impl View for CaptureSession {
    type V = SessionView;

    open spec fn view(&self) -> SessionView {
        SessionView { output_path: self.output_path@, started_at: self.started_at }
    }
}

/// What `start` asks of the caller.
#[derive(Debug)]
pub enum StartOutcome {
    /// A capture already runs: nothing is to be done.
    AlreadyActive,
    /// Spawn a producer that writes to `provisional_path` with the device
    /// configuration at `config_index`.
    Spawn { provisional_path: String, config_index: usize },
}

/// What `stop` asks of the caller: rename `provisional_path` to
/// `output_path` once the producer has closed the file.
#[derive(Debug)]
pub struct Finalize {
    pub provisional_path: String,
    pub output_path: String,
}

/// Owns the one capture session that may run.
#[derive(Debug)]
pub struct CaptureController {
    session: Option<CaptureSession>,
}

/// The controller's state after `start` in the model: an active session
/// stays as it is, an idle controller takes the session if some
/// configuration serves the request.
pub open spec fn after_start(
    before: Option<SessionView>,
    output_path: Seq<char>,
    now: u64,
    request: CaptureRequest,
    configs: Seq<SupportedConfig>,
) -> Option<SessionView> {
    if before is Some {
        before
    } else if none_serving(configs, request) {
        None
    } else {
        Some(SessionView { output_path, started_at: now })
    }
}

impl CaptureController {
    /// The running session, if there is one.
    pub closed spec fn session(&self) -> Option<SessionView> {
        match self.session {
            Some(s) => Some(s@),
            None => None,
        }
    }

    /// A controller with no session.
    pub fn new() -> (c: CaptureController)
        ensures
            c.session() is None,
    {
        CaptureController { session: None }
    }

    /// Whether a capture runs.
    pub fn is_active(&self) -> (b: bool)
        ensures
            b == self.session() is Some,
    {
        self.session.is_some()
    }

    /// The final path of the running capture.
    pub fn current_file(&self) -> (p: Option<String>)
        ensures
            match p {
                Some(path) => self.session() is Some && path@ == self.session()->0.output_path,
                None => self.session() is None,
            },
    {
        match &self.session {
            Some(s) => Some(s.output_path.clone()),
            None => None,
        }
    }

    /// Starts a capture to `output_path`, unless one runs already.
    ///
    /// While a capture runs the call changes nothing and succeeds with
    /// `AlreadyActive`: no second producer. Otherwise the first configuration
    /// of `configs` that serves `request` is taken and the session begins;
    /// where none serves it the call fails and no session begins.
    pub fn start(
        &mut self,
        output_path: &str,
        now: u64,
        request: &CaptureRequest,
        configs: &Vec<SupportedConfig>,
    ) -> (out: Result<StartOutcome, CaptureError>)
        ensures
            final(self).session() == after_start(
                old(self).session(),
                output_path@,
                now,
                *request,
                configs@,
            ),
            old(self).session() is Some ==> out == Ok::<StartOutcome, CaptureError>(
                StartOutcome::AlreadyActive,
            ),
            old(self).session() is None ==> match out {
                Ok(StartOutcome::Spawn { provisional_path, config_index }) => {
                    &&& first_serving(configs@, *request, config_index as int)
                    &&& provisional_path@ == provisional_of(output_path@)
                },
                Ok(StartOutcome::AlreadyActive) => false,
                Err(e) => none_serving(configs@, *request) && e == (
                CaptureError::UnsupportedConfig {
                    sample_rate: request.sample_rate,
                    channels: request.channels,
                }),
            },
    {
        if self.session.is_some() {
            return Ok(StartOutcome::AlreadyActive);
        }
        match select_config(configs, request) {
            Ok(config_index) => {
                self.session = Some(
                    CaptureSession { output_path: String::from_str(output_path), started_at: now },
                );
                Ok(
                    StartOutcome::Spawn {
                        provisional_path: provisional_path(output_path),
                        config_index,
                    },
                )
            },
            Err(e) => Err(e),
        }
    }

    /// Stops the running capture. `None` if nothing was active; otherwise the
    /// session ends and the result names the file to rename.
    pub fn stop(&mut self) -> (out: Option<Finalize>)
        ensures
            final(self).session() is None,
            match out {
                Some(f) => {
                    &&& old(self).session() is Some
                    &&& f.output_path@ == old(self).session()->0.output_path
                    &&& f.provisional_path@ == provisional_of(f.output_path@)
                },
                None => old(self).session() is None,
            },
    {
        match self.session.take() {
            Some(s) => {
                let provisional = provisional_path(s.output_path.as_str());
                Some(Finalize { provisional_path: provisional, output_path: s.output_path })
            },
            None => None,
        }
    }
}

/// Starting twice is starting once: whatever the controller held before, a
/// second `start` right after a first one that succeeded leaves the session
/// of the first untouched, whatever the second call asks for.
pub proof fn lemma_start_is_idempotent(
    before: Option<SessionView>,
    path_a: Seq<char>,
    now_a: u64,
    request_a: CaptureRequest,
    configs_a: Seq<SupportedConfig>,
    path_b: Seq<char>,
    now_b: u64,
    request_b: CaptureRequest,
    configs_b: Seq<SupportedConfig>,
)
    requires
        after_start(before, path_a, now_a, request_a, configs_a) is Some,
    ensures
        after_start(
            after_start(before, path_a, now_a, request_a, configs_a),
            path_b,
            now_b,
            request_b,
            configs_b,
        ) == after_start(before, path_a, now_a, request_a, configs_a),
{
}

} // verus!
