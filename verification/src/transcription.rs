//! Transcription of single files: which files are taken and where the
//! transcript goes.

use vstd::prelude::*;
use vstd::string::*;
use crate::text::{
    chars_of, extend, extension, extension_of, file_stem, same_chars, stem_of, string_of,
    views_of,
};

verus! {

/// Why a file is not transcribed.
#[derive(Clone, Copy, Debug, PartialEq, Eq, Structural)]
pub enum TranscriptionError {
    /// The file's extension names no audio format that is taken.
    UnsupportedFileType,
}

/// The media type of an audio file by its extension, for the four formats
/// that are taken.
pub open spec fn media_type_of(ext: Option<Seq<char>>) -> Option<Seq<char>> {
    if ext == Some("wav"@) {
        Some("audio/wav"@)
    } else if ext == Some("mp3"@) {
        Some("audio/mpeg"@)
    } else if ext == Some("m4a"@) {
        Some("audio/mp4"@)
    } else if ext == Some("flac"@) {
        Some("audio/flac"@)
    } else {
        None
    }
}

/// Where the transcript of the file with the stem `stem` is kept.
pub open spec fn transcript_path_of(stem: Seq<char>) -> Seq<char> {
    "data/transcripts/"@ + stem + ".txt"@
}

/// The arguments that make the encoder write `output` from `input` at the
/// rate and channel count of captures, before the audio is sent off.
pub open spec fn normalize_arguments_of(input: Seq<char>, output: Seq<char>) -> Seq<Seq<char>> {
    seq![
        "-y"@,
        "-i"@,
        input,
        "-ar"@,
        "16000"@,
        "-ac"@,
        "1"@,
        "-c:a"@,
        "libopus"@,
        "-b:a"@,
        "24k"@,
        output,
    ]
}

/// What is sent for transcription: the normalised copy as `audio/wav` where
/// there is one, else the file itself under the media type of its extension,
/// if that is one of the four that are taken.
pub open spec fn source_of(file_path: Seq<char>, normalized: Option<Seq<char>>) -> Option<
    (Seq<char>, Seq<char>),
> {
    match normalized {
        Some(copy) => Some((copy, "audio/wav"@)),
        None => match media_type_of(extension_of(file_path)) {
            Some(media) => Some((file_path, media)),
            None => None,
        },
    }
}

/// Transcribes single files.
#[derive(Clone, Copy, Debug)]
pub struct Transcriber;

impl Transcriber {
    pub fn new() -> (t: Transcriber) {
        Transcriber
    }

    /// The media type of the audio file `file_path`. A file whose extension
    /// is none of `wav`, `mp3`, `m4a` and `flac` is refused.
    pub fn media_type(&self, file_path: &str) -> (out: Result<&'static str, TranscriptionError>)
        ensures
            match out {
                Ok(m) => media_type_of(extension_of(file_path@)) == Some(m@),
                Err(e) => media_type_of(extension_of(file_path@)) is None,
            },
    {
        match extension(&chars_of(file_path)) {
            Some(ext) => {
                if same_chars(&ext, &chars_of("wav")) {
                    Ok("audio/wav")
                } else if same_chars(&ext, &chars_of("mp3")) {
                    Ok("audio/mpeg")
                } else if same_chars(&ext, &chars_of("m4a")) {
                    Ok("audio/mp4")
                } else if same_chars(&ext, &chars_of("flac")) {
                    Ok("audio/flac")
                } else {
                    Err(TranscriptionError::UnsupportedFileType)
                }
            },
            None => Err(TranscriptionError::UnsupportedFileType),
        }
    }

    /// Where the transcript of `file_path` is kept.
    pub fn transcript_path(&self, file_path: &str) -> (out: String)
        ensures
            out@ == transcript_path_of(stem_of(file_path@)),
    {
        let mut out = chars_of("data/transcripts/");
        extend(&mut out, &file_stem(&chars_of(file_path)));
        extend(&mut out, &chars_of(".txt"));
        string_of(&out)
    }

    /// The arguments that make the encoder write the normalised copy
    /// `output` of `input`.
    pub fn normalize_arguments(&self, input: &str, output: &str) -> (args: Vec<String>)
        ensures
            views_of(args@) == normalize_arguments_of(input@, output@),
    {
        let mut args: Vec<String> = Vec::new();
        args.push(String::from_str("-y"));
        args.push(String::from_str("-i"));
        args.push(String::from_str(input));
        args.push(String::from_str("-ar"));
        args.push(String::from_str("16000"));
        args.push(String::from_str("-ac"));
        args.push(String::from_str("1"));
        args.push(String::from_str("-c:a"));
        args.push(String::from_str("libopus"));
        args.push(String::from_str("-b:a"));
        args.push(String::from_str("24k"));
        args.push(String::from_str(output));
        assert(views_of(args@) =~= normalize_arguments_of(input@, output@));
        args
    }

    /// Which file is sent for transcription and under which media type:
    /// the normalised copy `normalized` where the encoder made one, else
    /// `file_path` itself. Without a copy, a file whose extension names no
    /// format that is taken is refused.
    pub fn source(&self, file_path: &str, normalized: Option<&str>) -> (out: Result<
        (String, &'static str),
        TranscriptionError,
    >)
        ensures
            match out {
                Ok(pair) => source_of(
                    file_path@,
                    match normalized {
                        Some(n) => Some(n@),
                        None => None,
                    },
                ) == Some((pair.0@, pair.1@)),
                Err(e) => normalized is None && media_type_of(extension_of(file_path@)) is None,
            },
    {
        match normalized {
            Some(copy) => Ok((String::from_str(copy), "audio/wav")),
            None => match self.media_type(file_path) {
                Ok(media) => Ok((String::from_str(file_path), media)),
                Err(e) => Err(e),
            },
        }
    }
}

} // verus!
