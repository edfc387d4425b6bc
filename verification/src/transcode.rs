//! Archival of raw captures in a compact codec: where the archive goes and
//! how the encoder is called.

use vstd::prelude::*;
use vstd::string::*;
use crate::text::{
    chars_of, extend, find_last_dot, name_start, slice_of, stem_of, string_of, views_of,
};

verus! {

/// The encoder.
pub const FFMPEG_CMD: &'static str = "ffmpeg";

/// `path` with the extension of its last component replaced by `opus`, or
/// with `.opus` added where it has none.
pub open spec fn archive_of(path: Seq<char>) -> Seq<char> {
    path.subrange(0, name_start(path, path.len() as int)) + stem_of(path) + ".opus"@
}

/// The arguments that make the encoder write `output` from `input`.
pub open spec fn encoder_arguments(input: Seq<char>, output: Seq<char>) -> Seq<Seq<char>> {
    seq![
        "-y"@,
        "-i"@,
        input,
        "-c:a"@,
        "libopus"@,
        "-ar"@,
        "16000"@,
        "-ac"@,
        "1"@,
        "-application"@,
        "voip"@,
        "-vbr"@,
        "on"@,
        "-compression_level"@,
        "10"@,
        "-b:a"@,
        "24k"@,
        output,
    ]
}

/// What to do with the raw capture once the encoder has ended.
#[derive(Clone, Copy, Debug, PartialEq, Eq, Structural)]
pub enum AfterEncoding {
    /// The encoder succeeded: delete the raw capture.
    DeleteSource,
    /// The encoder failed: keep the raw capture.
    KeepSource,
}

/// Archives captures.
#[derive(Clone, Copy, Debug)]
pub struct TranscodeUseCase;

impl TranscodeUseCase {
    pub fn new() -> (t: TranscodeUseCase) {
        TranscodeUseCase
    }

    /// Where the archive of `input_path` goes.
    pub fn output_path(&self, input_path: &str) -> (out: String)
        ensures
            out@ == archive_of(input_path@),
    {
        let chars = chars_of(input_path);
        let mut j: usize = chars.len();
        while j > 0 && !(chars[j - 1] == '/' || chars[j - 1] == '\\')
            invariant
                j <= chars.len(),
                name_start(chars@, chars@.len() as int) == name_start(chars@, j as int),
            decreases j,
        {
            j -= 1;
        }
        let name = slice_of(&chars, j, chars.len());
        let d = find_last_dot(&name);
        let stem = if d <= 1 {
            slice_of(&name, 0, name.len())
        } else {
            slice_of(&name, 0, d - 1)
        };
        proof {
            if d <= 1 {
                assert(stem@ =~= name@);
            }
        }
        let mut out = slice_of(&chars, 0, j);
        extend(&mut out, &stem);
        extend(&mut out, &chars_of(".opus"));
        string_of(&out)
    }

    /// The arguments that make the encoder write `output` from `input`.
    pub fn arguments(&self, input: &str, output: &str) -> (args: Vec<String>)
        ensures
            views_of(args@) == encoder_arguments(input@, output@),
    {
        let mut args: Vec<String> = Vec::new();
        args.push(String::from_str("-y"));
        args.push(String::from_str("-i"));
        args.push(String::from_str(input));
        args.push(String::from_str("-c:a"));
        args.push(String::from_str("libopus"));
        args.push(String::from_str("-ar"));
        args.push(String::from_str("16000"));
        args.push(String::from_str("-ac"));
        args.push(String::from_str("1"));
        args.push(String::from_str("-application"));
        args.push(String::from_str("voip"));
        args.push(String::from_str("-vbr"));
        args.push(String::from_str("on"));
        args.push(String::from_str("-compression_level"));
        args.push(String::from_str("10"));
        args.push(String::from_str("-b:a"));
        args.push(String::from_str("24k"));
        args.push(String::from_str(output));
        assert(views_of(args@) =~= encoder_arguments(input@, output@));
        args
    }

    /// What to do with the raw capture: it is deleted only if the encoder
    /// reported success.
    pub fn after_encoding(&self, succeeded: bool) -> (a: AfterEncoding)
        ensures
            a == if succeeded {
                AfterEncoding::DeleteSource
            } else {
                AfterEncoding::KeepSource
            },
    {
        if succeeded {
            AfterEncoding::DeleteSource
        } else {
            AfterEncoding::KeepSource
        }
    }
}

} // verus!
