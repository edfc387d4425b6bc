//! First-time setup: the directories that the agent needs and the
//! configuration file that it starts from.

use vstd::prelude::*;
use vstd::string::*;
use crate::domain::Environment;
use crate::text::{chars_of, extend, string_of, trim, trimmed, views_of};

verus! {

/// Where the configuration lives.
pub const CONFIG_PATH: &'static str = "data/config.yaml";

/// The tracked applications that setup proposes.
pub const DEFAULT_PROCESS_NAMES_ANSWER: &'static str =
    "VRChat.exe,vrchat,VRChatClient.exe,Discord.exe,discord";

/// The poll interval that setup proposes, in seconds.
pub const DEFAULT_CHECK_INTERVAL_ANSWER: &'static str = "5";

/// The directories that the agent needs.
pub open spec fn app_dirs() -> Seq<Seq<char>> {
    seq![
        "data/recordings"@,
        "data/transcripts"@,
        "data/summaries"@,
        "data/novels"@,
        "data/photos"@,
        "data/archives"@,
        "data/recordings/partial"@,
        "data/cloud_sync"@,
        "logs"@,
        "journals"@,
        "data/tasks"@,
    ]
}

/// What an answer to a question of setup stands for: the answer without the
/// white space around it, and the default where nothing is left.
pub open spec fn answer_of(input: Seq<char>, default: Seq<char>) -> Seq<char> {
    if trimmed(input).len() == 0 {
        default
    } else {
        trimmed(input)
    }
}

/// How the configuration names the audio device: `null` for the default
/// device, else the name in double quotes.
pub open spec fn device_entry(device_name: Seq<char>) -> Seq<char> {
    if device_name.len() == 0 {
        "null"@
    } else {
        seq!['"'] + device_name + seq!['"']
    }
}

/// The configuration file that setup writes.
pub open spec fn config_of(
    process_names: Seq<char>,
    check_interval: Seq<char>,
    device_name: Seq<char>,
) -> Seq<char> {
    "process:\n  names: \""@ + process_names + "\"\n  check_interval: "@ + check_interval
        + "\npaths:\n  recording_dir: \"data/recordings\"\naudio:\n  device_name: "@
        + device_entry(device_name) + CONFIG_TAIL@
}

/// The end of the configuration file: the settings that setup does not ask
/// for.
pub const CONFIG_TAIL: &'static str =
    "\n  silence_threshold: 0.02\ntrigger:\n  start_debounce_secs: 2\n  stop_grace_secs: 10\n  min_recording_secs: 60\n";

/// The environment on the local disk.
#[derive(Clone, Copy, Debug)]
pub struct LocalEnvironment;

impl LocalEnvironment {
    pub fn new() -> (e: LocalEnvironment) {
        LocalEnvironment
    }

    /// The directories that the agent needs.
    pub fn directories(&self) -> (dirs: Vec<String>)
        ensures
            views_of(dirs@) == app_dirs(),
    {
        let mut dirs: Vec<String> = Vec::new();
        dirs.push(String::from_str("data/recordings"));
        dirs.push(String::from_str("data/transcripts"));
        dirs.push(String::from_str("data/summaries"));
        dirs.push(String::from_str("data/novels"));
        dirs.push(String::from_str("data/photos"));
        dirs.push(String::from_str("data/archives"));
        dirs.push(String::from_str("data/recordings/partial"));
        dirs.push(String::from_str("data/cloud_sync"));
        dirs.push(String::from_str("logs"));
        dirs.push(String::from_str("journals"));
        dirs.push(String::from_str("data/tasks"));
        assert(views_of(dirs@) =~= app_dirs());
        dirs
    }

    /// What the answer `input` stands for, given the default.
    pub fn answer(&self, input: &str, default: &str) -> (out: String)
        ensures
            out@ == answer_of(input@, default@),
    {
        let kept = trim(&chars_of(input));
        if kept.len() == 0 {
            String::from_str(default)
        } else {
            string_of(&kept)
        }
    }

    /// The configuration file for the three answers of setup.
    pub fn config_text(&self, process_names: &str, check_interval: &str, device_name: &str) -> (out:
        String)
        ensures
            out@ == config_of(process_names@, check_interval@, device_name@),
    {
        let device = chars_of(device_name);
        let mut out = chars_of("process:\n  names: \"");
        extend(&mut out, &chars_of(process_names));
        extend(&mut out, &chars_of("\"\n  check_interval: "));
        extend(&mut out, &chars_of(check_interval));
        extend(
            &mut out,
            &chars_of("\npaths:\n  recording_dir: \"data/recordings\"\naudio:\n  device_name: "),
        );
        if device.len() == 0 {
            extend(&mut out, &chars_of("null"));
        } else {
            let ghost before = out@;
            out.push('"');
            extend(&mut out, &device);
            out.push('"');
            assert(out@ =~= before + device_entry(device_name@));
        }
        extend(&mut out, &chars_of(CONFIG_TAIL));
        string_of(&out)
    }
}

/// Prepares a fresh installation.
pub struct SetupUseCase<E: Environment> {
    env: E,
}

impl<E: Environment> SetupUseCase<E> {
    /// The environment that setup prepares.
    pub closed spec fn environment(&self) -> E {
        self.env
    }

    /// Setup for the environment `env`.
    pub fn new(env: E) -> (s: SetupUseCase<E>)
        ensures
            s.environment() == env,
    {
        SetupUseCase { env }
    }

    /// Prepares the directories, then the configuration.
    pub fn execute(&self) {
        self.env.ensure_directories();
        self.env.ensure_config();
    }
}

/// Runs setup in the environment `env`.
pub fn run<E: Environment>(env: E) {
    let use_case = SetupUseCase::new(env);
    use_case.execute();
}

} // verus!
