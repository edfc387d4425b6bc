//! The prompts of the built-in novelist and curator, and the placeholder for
//! the picture of a chapter.

use vstd::prelude::*;
use vstd::string::*;
use crate::text::{chars_of, extend, string_of};

verus! {

/// The prompt that asks for one chapter.
pub open spec fn chapter_prompt_of(novel_so_far: Seq<char>, today_summary: Seq<char>) -> Seq<char> {
    "これまでのあらすじ:\n"@ + novel_so_far + "\n\n今日の出来事要約:\n"@ + today_summary
        + "\n\nこれらを元に、日常系VLogの一部として小説の1章を執筆してください。読者が情景を思い浮かべられるよう、情緒豊かな表現を心がけてください。"@
}

/// The prompt that asks for one chapter.
pub fn chapter_prompt(today_summary: &str, novel_so_far: &str) -> (out: String)
    ensures
        out@ == chapter_prompt_of(novel_so_far@, today_summary@),
{
    let mut out = chars_of("これまでのあらすじ:\n");
    extend(&mut out, &chars_of(novel_so_far));
    extend(&mut out, &chars_of("\n\n今日の出来事要約:\n"));
    extend(&mut out, &chars_of(today_summary));
    extend(
        &mut out,
        &chars_of(
            "\n\nこれらを元に、日常系VLogの一部として小説の1章を執筆してください。読者が情景を思い浮かべられるよう、情緒豊かな表現を心がけてください。",
        ),
    );
    string_of(&out)
}

/// A generator of pictures that draws nothing.
#[derive(Clone, Copy, Debug)]
pub struct ImageGenerator;

impl ImageGenerator {
    pub fn new() -> (g: ImageGenerator) {
        ImageGenerator
    }
}

impl crate::domain::ImageGenerator for ImageGenerator {
    /// Draws nothing.
    fn generate(&self, prompt: &str, output_path: &str) {
    }
}

} // verus!
