//! The daily chapter: when a generated chapter is taken and how it joins
//! the novel.

use vstd::prelude::*;
use vstd::string::*;
use crate::text::{chars_of, contains, extend, has_substring, lowercase, lowercase_of, string_of};

verus! {

/// How often a chapter is generated at most.
pub const MAX_CHAPTER_ATTEMPTS: u32 = 3;

/// The least quality score with which a chapter is taken.
pub const MIN_QUALITY_SCORE: u8 = 3;

/// `chapter`, in lower case, holds a word that chapters may not hold.
pub open spec fn has_prohibited_word(chapter: Seq<char>) -> bool {
    let low = lowercase_of(chapter);
    contains(low, "hmd"@) || contains(low, "controller"@) || contains(low, "virtual"@) || contains(
        low,
        "vr"@,
    )
}

/// What becomes of a generated chapter.
#[derive(Clone, Copy, Debug, PartialEq, Eq, Structural)]
pub enum ChapterVerdict {
    /// The chapter is taken.
    Accept,
    /// The chapter is generated once more.
    Retry,
    /// The chapter is kept as it is: no attempt is left.
    KeepLast,
}

/// The verdict on the chapter of attempt `attempt`, counted from one: a
/// chapter with a prohibited word or a quality score below the minimum is
/// generated again while attempts are left.
pub open spec fn verdict_of(attempt: u32, prohibited: bool, quality_score: u8) -> ChapterVerdict {
    if !prohibited && quality_score >= MIN_QUALITY_SCORE {
        ChapterVerdict::Accept
    } else if attempt < MAX_CHAPTER_ATTEMPTS {
        ChapterVerdict::Retry
    } else {
        ChapterVerdict::KeepLast
    }
}

/// The novel after `chapter` joined it: the chapter alone where the novel
/// was empty, else the novel, an empty line, and the chapter.
pub open spec fn novel_with(novel_so_far: Seq<char>, chapter: Seq<char>) -> Seq<char> {
    if novel_so_far.len() == 0 {
        chapter
    } else {
        novel_so_far + "\n\n"@ + chapter
    }
}

/// Where the picture of the day `date` is kept.
pub open spec fn photo_path_of(date: Seq<char>) -> Seq<char> {
    "data/photos/"@ + date + ".png"@
}

/// Builds the chapter of a day.
#[derive(Clone, Copy, Debug)]
pub struct BuildNovelUseCase;

impl BuildNovelUseCase {
    pub fn new() -> (b: BuildNovelUseCase) {
        BuildNovelUseCase
    }

    /// Whether `chapter` holds a prohibited word, in any case of letters.
    pub fn has_prohibited_word(&self, chapter: &str) -> (b: bool)
        ensures
            b == has_prohibited_word(chapter@),
    {
        let low = chars_of(lowercase(chapter).as_str());
        has_substring(&low, &chars_of("hmd")) || has_substring(&low, &chars_of("controller"))
            || has_substring(&low, &chars_of("virtual")) || has_substring(&low, &chars_of("vr"))
    }

    /// The verdict on the chapter of attempt `attempt`, counted from one.
    /// The quality score counts only for a chapter without prohibited word.
    pub fn judge(&self, attempt: u32, prohibited: bool, quality_score: u8) -> (v: ChapterVerdict)
        ensures
            v == verdict_of(attempt, prohibited, quality_score),
    {
        if !prohibited && quality_score >= MIN_QUALITY_SCORE {
            ChapterVerdict::Accept
        } else if attempt < MAX_CHAPTER_ATTEMPTS {
            ChapterVerdict::Retry
        } else {
            ChapterVerdict::KeepLast
        }
    }

    /// The novel after `chapter` joined it.
    pub fn novel_content(&self, novel_so_far: &str, chapter: &str) -> (out: String)
        ensures
            out@ == novel_with(novel_so_far@, chapter@),
    {
        let mut out = chars_of(novel_so_far);
        if out.len() == 0 {
            return String::from_str(chapter);
        }
        extend(&mut out, &chars_of("\n\n"));
        extend(&mut out, &chars_of(chapter));
        string_of(&out)
    }

    /// Where the picture of the day `date` is kept.
    pub fn photo_path(&self, date: &str) -> (out: String)
        ensures
            out@ == photo_path_of(date@),
    {
        let mut out = chars_of("data/photos/");
        extend(&mut out, &chars_of(date));
        extend(&mut out, &chars_of(".png"));
        string_of(&out)
    }
}

} // verus!
