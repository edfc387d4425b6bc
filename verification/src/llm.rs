//! The language model as the core sees it: a stand-in that does nothing, for
//! runs without a model, and the plain rules around the real client.

use vstd::prelude::*;
use vstd::string::*;
use crate::domain::{ContentGenerator, Curator, Evaluation, EvaluationView};
use crate::text::{
    chars_of, extend, extension, extension_of, str_eq, string_of, strip_leading, strip_trailing,
    trim, trimmed, without_leading, without_trailing,
};

verus! {

/// The reasoning that the stand-in gives for its evaluations.
pub const DISABLED_REASONING: &'static str = "Gemini disabled";

/// The evaluation that the stand-in gives.
pub open spec fn disabled_evaluation() -> EvaluationView {
    EvaluationView { faithfulness_score: 0, quality_score: 0, reasoning: DISABLED_REASONING@ }
}

/// A model that is switched off: it generates nothing and scores zero.
#[derive(Clone, Copy, Debug)]
pub struct NoopGemini;

impl NoopGemini {
    pub fn new() -> (g: NoopGemini) {
        NoopGemini
    }
}

impl ContentGenerator for NoopGemini {
    /// No text.
    fn generate_content(&self, prompt: &str) -> (out: String)
        ensures
            out@ == Seq::<char>::empty(),
    {
        String::new()
    }

    /// No transcript.
    fn transcribe(&self, file_path: &str) -> (out: String)
        ensures
            out@ == Seq::<char>::empty(),
    {
        String::new()
    }
}

impl Curator for NoopGemini {
    /// Zero on both scores.
    fn evaluate(&self, summary: &str, novel: &str) -> (e: Evaluation)
        ensures
            e@ == disabled_evaluation(),
    {
        Evaluation {
            faithfulness_score: 0,
            quality_score: 0,
            reasoning: String::from_str(DISABLED_REASONING),
        }
    }

    /// Zero on both scores.
    fn verify_summary(&self, summary: &str, transcript: &str, activities: &str) -> (e: Evaluation)
        ensures
            e@ == disabled_evaluation(),
    {
        Evaluation {
            faithfulness_score: 0,
            quality_score: 0,
            reasoning: String::from_str(DISABLED_REASONING),
        }
    }

    /// No summary.
    fn summarize_session(&self, transcript: &str, activities: &str) -> (out: String)
        ensures
            out@ == Seq::<char>::empty(),
    {
        String::new()
    }
}

/// The media type under which a file with the extension `ext` is sent for
/// transcription.
pub open spec fn mime_of(ext: Option<Seq<char>>) -> Seq<char> {
    if ext == Some("flac"@) {
        "audio/flac"@
    } else if ext == Some("mp3"@) {
        "audio/mp3"@
    } else {
        "audio/wav"@
    }
}

/// The media type under which the audio file `file_path` is sent for
/// transcription: by its extension, and `audio/wav` for any that is not
/// known.
pub fn mime_type_for(file_path: &str) -> (mime: &'static str)
    ensures
        mime@ == mime_of(extension_of(file_path@)),
{
    match extension(&chars_of(file_path)) {
        Some(ext) => {
            let ext = string_of(&ext);
            if str_eq(ext.as_str(), "flac") {
                "audio/flac"
            } else if str_eq(ext.as_str(), "mp3") {
                "audio/mp3"
            } else {
                "audio/wav"
            }
        },
        None => "audio/wav",
    }
}

/// The opening of a fenced block of JSON.
pub open spec fn fence_open() -> Seq<char> {
    "```json"@
}

/// The closing of a fenced block.
pub open spec fn fence_close() -> Seq<char> {
    "```"@
}

/// The JSON text inside the model's answer: the answer without the fence
/// openings at its beginning, without the fence closings at its end, and
/// trimmed.
pub open spec fn unfenced(answer: Seq<char>) -> Seq<char> {
    trimmed(without_trailing(without_leading(answer, fence_open()), fence_close()))
}

/// Takes the JSON text out of the model's answer.
pub fn strip_code_fence(answer: &str) -> (out: String)
    ensures
        out@ == unfenced(answer@),
{
    let open = chars_of("```json");
    let close = chars_of("```");
    let inner = strip_trailing(&strip_leading(&chars_of(answer), &open), &close);
    string_of(&trim(&inner))
}

/// The address of the model's endpoint for generating content.
pub open spec fn endpoint_of(model: Seq<char>, api_key: Seq<char>) -> Seq<char> {
    "https://generativelanguage.googleapis.com/v1beta/models/"@ + model
        + ":generateContent?key="@ + api_key
}

/// The address of the model's endpoint for generating content.
pub fn endpoint(model: &str, api_key: &str) -> (url: String)
    ensures
        url@ == endpoint_of(model@, api_key@),
{
    let mut url = chars_of("https://generativelanguage.googleapis.com/v1beta/models/");
    extend(&mut url, &chars_of(model));
    extend(&mut url, &chars_of(":generateContent?key="));
    extend(&mut url, &chars_of(api_key));
    string_of(&url)
}

} // verus!
