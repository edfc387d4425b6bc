//! The settings that the core reads, and their defaults.

use vstd::prelude::*;
use vstd::string::*;
use crate::text::{
    before_char, chars_of, extend, has_prefix, join, joined, pieces_of, replace_char, rows_of,
    split_at_char, starts_with, string_of, strip_leading, take_before, trim, trimmed, uppercase,
    uppercase_of, views_of, with_char_replaced, without_leading,
};

verus! {

/// Seconds between two polls of the presence monitor, unless configured.
pub const MONITOR_CHECK_INTERVAL_DEFAULT: u64 = 5;

/// The tracked applications, unless configured.
pub const DEFAULT_PROCESS_NAMES: &'static str = "VRChat,Discord";

/// Where captures go, unless configured.
pub const RECORDINGS_DIR: &'static str = "data/recordings";

/// Where the event store lives, unless configured.
pub const DEFAULT_DB_PATH: &'static str = "vlog.db";

/// Where the task document lives.
pub const TASKS_PATH: &'static str = "data/tasks.json";

/// The directory that is watched for new input files.
pub const CLOUD_SYNC_DIR: &'static str = "data/cloud_sync";

/// The sample rate of captures.
pub const DEFAULT_SAMPLE_RATE: u32 = 16000;

/// The channel count of captures.
pub const DEFAULT_CHANNELS: u16 = 1;

/// The bits of one stored sample.
pub const DEFAULT_BITS_PER_SAMPLE: u16 = 16;

/// Seconds between two reports of the peak amplitude while capturing.
pub const AUDIO_LOG_INTERVAL_SECS: u64 = 10;

/// What is tracked and how often it is looked for.
#[derive(Debug)]
pub struct ProcessSettings {
    /// The tracked names, with commas between them.
    pub names: String,
    /// Seconds between two polls.
    pub check_interval: u64,
}

/// Where things are kept.
#[derive(Debug)]
pub struct PathSettings {
    pub recording_dir: String,
    pub db_path: String,
}

/// The names that `names` lists: its pieces between commas, each without
/// the white space around it.
pub open spec fn names_listed(names: Seq<char>) -> Seq<Seq<char>> {
    pieces_of(names, ',').map_values(|p: Seq<char>| trimmed(p))
}

impl ProcessSettings {
    /// The settings that hold unless others are configured.
    pub fn defaults() -> (s: ProcessSettings)
        ensures
            s.names@ == DEFAULT_PROCESS_NAMES@,
            s.check_interval == MONITOR_CHECK_INTERVAL_DEFAULT,
    {
        ProcessSettings {
            names: String::from_str(DEFAULT_PROCESS_NAMES),
            check_interval: MONITOR_CHECK_INTERVAL_DEFAULT,
        }
    }

    /// The tracked names, one by one.
    pub fn process_names(&self) -> (out: Vec<String>)
        ensures
            views_of(out@) == names_listed(self.names@),
    {
        let pieces = split_at_char(&chars_of(self.names.as_str()), ',');
        let mut out: Vec<String> = Vec::new();
        let mut i: usize = 0;
        while i < pieces.len()
            invariant
                i <= pieces.len(),
                crate::text::rows_of(pieces@) == pieces_of(self.names@, ','),
                views_of(out@) == names_listed(self.names@).take(i as int),
            decreases pieces.len() - i,
        {
            let ghost before = out@;
            assert(crate::text::rows_of(pieces@)[i as int] == pieces@[i as int]@);
            let name = string_of(&trim(&pieces[i]));
            out.push(name);
            assert(views_of(out@) =~= views_of(before).push(name@));
            assert(views_of(out@) =~= names_listed(self.names@).take(i + 1));
            i += 1;
        }
        assert(names_listed(self.names@).take(pieces@.len() as int) =~= names_listed(self.names@));
        out
    }
}

impl PathSettings {
    /// The settings that hold unless others are configured.
    pub fn defaults() -> (s: PathSettings)
        ensures
            s.recording_dir@ == RECORDINGS_DIR@,
            s.db_path@ == DEFAULT_DB_PATH@,
    {
        PathSettings {
            recording_dir: String::from_str(RECORDINGS_DIR),
            db_path: String::from_str(DEFAULT_DB_PATH),
        }
    }
}

/// The address of the event store at `db_path`: the path itself where it is
/// an SQLite address already, else a store in memory.
pub open spec fn database_url_of(db_path: Seq<char>) -> Seq<char> {
    if starts_with(db_path, "sqlite:"@) {
        db_path
    } else {
        "sqlite::memory:"@
    }
}

/// The address of the event store at `db_path`.
pub fn database_url(db_path: &str) -> (url: String)
    ensures
        url@ == database_url_of(db_path@),
{
    if has_prefix(&chars_of(db_path), &chars_of("sqlite:")) {
        String::from_str(db_path)
    } else {
        String::from_str("sqlite::memory:")
    }
}

/// The pieces among the first `n` of `pieces` that are not empty, in order.
pub open spec fn filled_pieces(pieces: Seq<Seq<char>>, n: nat) -> Seq<Seq<char>>
    decreases n,
{
    if n == 0 {
        Seq::empty()
    } else if pieces[n - 1].len() > 0 {
        filled_pieces(pieces, (n - 1) as nat).push(pieces[n - 1])
    } else {
        filled_pieces(pieces, (n - 1) as nat)
    }
}

/// The components of `path` between slashes, without the empty ones.
pub open spec fn components_of(path: Seq<char>) -> Seq<Seq<char>> {
    filled_pieces(pieces_of(path, '/'), pieces_of(path, '/').len())
}

/// The path under which a Windows host knows `path`. A path below `/mnt/`
/// names a drive and a path on it: the drive letter in upper case, a colon,
/// and the rest with backslashes. A path below `/home/kafka/` lies in the
/// user's directory on the drive of the working directory `cwd`. Any other
/// path stays as it is.
pub open spec fn host_path_of(path: Seq<char>, cwd: Option<Seq<char>>) -> Seq<char> {
    if starts_with(path, "/mnt/"@) {
        let parts = components_of(path);
        if parts.len() >= 2 {
            uppercase_of(parts[1]) + ":\\"@ + joined(parts.skip(2), seq!['\\'])
        } else {
            path
        }
    } else if starts_with(path, "/home/kafka/"@) {
        match cwd {
            Some(dir) => uppercase_of(before_char(dir, ':')) + ":\\Users\\kafka\\"@
                + with_char_replaced(without_leading(path, "/home/kafka/"@), '/', '\\'),
            None => path,
        }
    } else {
        path
    }
}

/// The components of `path` between slashes, without the empty ones.
pub fn components(path: &Vec<char>) -> (out: Vec<Vec<char>>)
    ensures
        rows_of(out@) == components_of(path@),
{
    let pieces = split_at_char(path, '/');
    let mut out: Vec<Vec<char>> = Vec::new();
    let mut i: usize = 0;
    while i < pieces.len()
        invariant
            i <= pieces.len(),
            rows_of(pieces@) == pieces_of(path@, '/'),
            rows_of(out@) == filled_pieces(rows_of(pieces@), i as nat),
        decreases pieces.len() - i,
    {
        assert(rows_of(pieces@)[i as int] == pieces@[i as int]@);
        if pieces[i].len() > 0 {
            let ghost before = out@;
            let piece = crate::text::slice_of(&pieces[i], 0, pieces[i].len());
            assert(piece@ =~= pieces@[i as int]@);
            out.push(piece);
            assert(rows_of(out@) =~= rows_of(before).push(pieces@[i as int]@));
        }
        i += 1;
    }
    assert(rows_of(pieces@).len() == pieces@.len());
    out
}

/// Gives `path` as the host knows it: on a Windows host by the rules of
/// `host_path_of`, with `cwd` as the working directory where it is known;
/// on any other host the path stays as it is.
pub fn host_path(path: &str, on_windows: bool, cwd: Option<&str>) -> (out: String)
    ensures
        out@ == if on_windows {
            host_path_of(
                path@,
                match cwd {
                    Some(d) => Some(d@),
                    None => None,
                },
            )
        } else {
            path@
        },
{
    if !on_windows {
        return String::from_str(path);
    }
    let chars = chars_of(path);
    if has_prefix(&chars, &chars_of("/mnt/")) {
        let parts = components(&chars);
        if parts.len() >= 2 {
            assert(rows_of(parts@)[1] == parts@[1]@);
            let drive = uppercase(string_of(&parts[1]).as_str());
            let mut rest: Vec<Vec<char>> = Vec::new();
            let mut i: usize = 2;
            while i < parts.len()
                invariant
                    2 <= i <= parts.len(),
                    rows_of(rest@) == rows_of(parts@).subrange(2, i as int),
                decreases parts.len() - i,
            {
                let ghost before = rest@;
                let part = crate::text::slice_of(&parts[i], 0, parts[i].len());
                assert(part@ =~= parts@[i as int]@);
                assert(rows_of(parts@)[i as int] == parts@[i as int]@);
                rest.push(part);
                assert(rows_of(rest@) =~= rows_of(before).push(parts@[i as int]@));
                assert(rows_of(rest@) =~= rows_of(parts@).subrange(2, i + 1));
                i += 1;
            }
            assert(rows_of(parts@).subrange(2, parts@.len() as int) =~= rows_of(parts@).skip(2));
            let mut bar: Vec<char> = Vec::new();
            bar.push('\\');
            assert(bar@ =~= seq!['\\']);
            let mut out = chars_of(drive.as_str());
            extend(&mut out, &chars_of(":\\"));
            extend(&mut out, &join(&rest, &bar));
            string_of(&out)
        } else {
            String::from_str(path)
        }
    } else if has_prefix(&chars, &chars_of("/home/kafka/")) {
        match cwd {
            Some(dir) => {
                let drive = uppercase(string_of(&take_before(&chars_of(dir), ':')).as_str());
                let rest = replace_char(&strip_leading(&chars, &chars_of("/home/kafka/")), '/', '\\');
                let mut out = chars_of(drive.as_str());
                extend(&mut out, &chars_of(":\\Users\\kafka\\"));
                extend(&mut out, &rest);
                string_of(&out)
            },
            None => String::from_str(path),
        }
    } else {
        String::from_str(path)
    }
}

} // verus!
