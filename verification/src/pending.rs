//! Which summaries still wait for their chapter.

use vstd::prelude::*;
use vstd::string::*;
use crate::text::{
    before_char, chars_of, extend, extension, extension_of, file_stem, same_chars, stem_of,
    string_of, take_before,
};

verus! {

/// Where the chapter of the day `date` is kept.
pub open spec fn novel_path_of(date: Seq<char>) -> Seq<char> {
    "data/novels/"@ + date + ".md"@
}

/// The chapter that belongs to the summary file `summary_path`: summaries
/// are text files whose stem begins with the date, up to the first
/// underscore. Any other file has no chapter.
pub open spec fn chapter_for(summary_path: Seq<char>) -> Option<Seq<char>> {
    if extension_of(summary_path) == Some("txt"@) {
        Some(novel_path_of(before_char(stem_of(summary_path), '_')))
    } else {
        None
    }
}

/// Lists the summaries without a chapter.
#[derive(Clone, Copy, Debug)]
pub struct PendingUseCase;

impl PendingUseCase {
    pub fn new() -> (p: PendingUseCase) {
        PendingUseCase
    }

    /// Where the chapter of the day `date` is kept.
    pub fn novel_path(&self, date: &str) -> (out: String)
        ensures
            out@ == novel_path_of(date@),
    {
        let mut out = chars_of("data/novels/");
        extend(&mut out, &chars_of(date));
        extend(&mut out, &chars_of(".md"));
        string_of(&out)
    }

    /// The chapter that belongs to the summary file `summary_path`, or
    /// `None` where the file is no summary.
    pub fn chapter_path(&self, summary_path: &str) -> (out: Option<String>)
        ensures
            chapter_for(summary_path@) == match out {
                Some(p) => Some(p@),
                None => None,
            },
    {
        let chars = chars_of(summary_path);
        match extension(&chars) {
            Some(ext) => {
                if same_chars(&ext, &chars_of("txt")) {
                    let date = string_of(&take_before(&file_stem(&chars), '_'));
                    Some(self.novel_path(date.as_str()))
                } else {
                    None
                }
            },
            None => None,
        }
    }
}

} // verus!
