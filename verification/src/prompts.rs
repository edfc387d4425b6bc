//! The prompt templates and how they are filled in.

use vstd::prelude::*;
use vstd::string::*;
use crate::text::{replace_str, replaced};

verus! {

/// The curator's templates.
#[derive(Debug)]
pub struct CuratorPrompts {
    pub evaluate: String,
    pub session_summary: String,
}

/// The novelizer's template.
#[derive(Debug)]
pub struct NovelizerPrompts {
    pub template: String,
}

/// All templates of the agent.
#[derive(Debug)]
pub struct Prompts {
    pub curator: CuratorPrompts,
    pub novelizer: NovelizerPrompts,
    pub transcription: String,
    pub summary_verification: String,
}

/// `template` with `value` in each place of `key`.
pub open spec fn filled(template: Seq<char>, key: Seq<char>, value: Seq<char>) -> Seq<char> {
    replaced(template, key, value)
}

impl NovelizerPrompts {
    /// The prompt for the next chapter: the template with the novel so far
    /// and then today's summary filled in.
    pub fn chapter_prompt(&self, summary: &str, context: &str) -> (prompt: String)
        ensures
            prompt@ == filled(
                filled(self.template@, "{novel_so_far}"@, context@),
                "{today_summary}"@,
                summary@,
            ),
    {
        let step = replace_str(self.template.as_str(), "{novel_so_far}", context);
        replace_str(step.as_str(), "{today_summary}", summary)
    }
}

impl CuratorPrompts {
    /// The prompt that asks for an evaluation of `novel` against `summary`.
    pub fn evaluate_prompt(&self, summary: &str, novel: &str) -> (prompt: String)
        ensures
            prompt@ == filled(filled(self.evaluate@, "{summary}"@, summary@), "{novel}"@, novel@),
    {
        let step = replace_str(self.evaluate.as_str(), "{summary}", summary);
        replace_str(step.as_str(), "{novel}", novel)
    }

    /// The prompt that asks for the summary of a session.
    pub fn session_summary_prompt(&self, transcript: &str, activities: &str) -> (prompt: String)
        ensures
            prompt@ == filled(
                filled(self.session_summary@, "{transcript}"@, transcript@),
                "{activity_context}"@,
                activities@,
            ),
    {
        let step = replace_str(self.session_summary.as_str(), "{transcript}", transcript);
        replace_str(step.as_str(), "{activity_context}", activities)
    }
}

impl Prompts {
    /// The prompt that asks whether `summary` is faithful to `transcript`
    /// and `activities`.
    pub fn verification_prompt(&self, summary: &str, transcript: &str, activities: &str) -> (prompt:
        String)
        ensures
            prompt@ == filled(
                filled(
                    filled(self.summary_verification@, "{summary}"@, summary@),
                    "{transcript}"@,
                    transcript@,
                ),
                "{activities}"@,
                activities@,
            ),
    {
        let a = replace_str(self.summary_verification.as_str(), "{summary}", summary);
        let b = replace_str(a.as_str(), "{transcript}", transcript);
        replace_str(b.as_str(), "{activities}", activities)
    }
}

} // verus!
