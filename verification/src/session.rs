//! Processing of one capture session: the rules around transcription,
//! activity overlay, summary and archival. The calls to the collaborators
//! are the caller's; what goes into them and what is made of their answers
//! is decided here.

use vstd::prelude::*;
use vstd::string::*;
use crate::clock::{
    clock_time, clock_time_of, naive_datetime_secs, parse_naive_datetime, shift, shifted,
    FILE_STAMP_FORMAT,
};
use crate::domain::{LifeEvent, LifeEventView, SourceType};
use crate::preprocessor::{cleaned, filler_pattern_of, TranscriptPreprocessor};
use crate::presence::opt_view;
use crate::text::{clone_strings, views_of};
use crate::task::Timestamp;
use crate::text::{
    ascii_lowercase, ascii_lowercase_of, before_char, chars_of, extend, extension, extension_of,
    file_stem, index_of_char, same_chars, slice_of, stem_of,
    string_of, take_before,
};

verus! {

/// The length of the window in which activity counts for a session, in
/// seconds.
pub const SESSION_WINDOW_SECS: i64 = 1800;

/// The part of a capture's file stem that holds its time stamp: the stem up
/// to its second underscore, and all of it where it has fewer than two.
pub open spec fn stamp_of(stem: Seq<char>) -> Seq<char> {
    let first = index_of_char(stem, '_', 0);
    if first >= stem.len() {
        stem
    } else {
        stem.subrange(0, index_of_char(stem, '_', first + 1))
    }
}

/// The date of a capture by its file stem: the stem up to its first
/// underscore.
pub open spec fn date_of(stem: Seq<char>) -> Seq<char> {
    before_char(stem, '_')
}

/// Where the summary of the day `date` is kept.
pub open spec fn summary_path_of(date: Seq<char>) -> Seq<char> {
    "data/summaries/"@ + date + "_summary.txt"@
}

/// The window of a session that began at `start`, or, where the file name
/// gave no start, of one that ends now.
pub open spec fn window_of(start: Option<i64>, now: Timestamp) -> (Timestamp, Timestamp) {
    let begin = match start {
        Some(secs) => Timestamp { secs, nanos: 0 },
        None => shifted(now, -SESSION_WINDOW_SECS),
    };
    (begin, shifted(begin, SESSION_WINDOW_SECS as int))
}

/// The line that `event` adds to the activity context: its time of day and
/// its payload. Only window activity counts; any other event adds nothing.
pub open spec fn context_line(event: LifeEventView) -> Seq<char> {
    if event.source == SourceType::WindowsActivity {
        seq!['['] + clock_time_of(event.timestamp) + "] "@ + event.payload + seq!['\n']
    } else {
        Seq::empty()
    }
}

/// The events of `events` as contracts see them.
pub open spec fn event_views(events: Seq<LifeEvent>) -> Seq<LifeEventView> {
    events.map_values(|e: LifeEvent| e@)
}

/// The activity context of the first `n` events.
pub open spec fn context_of(events: Seq<LifeEventView>, n: nat) -> Seq<char>
    decreases n,
{
    if n == 0 {
        Seq::empty()
    } else {
        context_of(events, (n - 1) as nat) + context_line(events[n - 1])
    }
}

/// The prompt that asks for the summary of a session.
pub open spec fn summary_prompt_of(activities: Seq<char>, transcript: Seq<char>) -> Seq<char> {
    "以下の会話ログと、その間のアクティビティログを元に、このセッションの要約を作成してください。\n\n### アクティビティログ\n"@
        + activities + "\n\n### 会話ログ\n"@ + transcript
        + "\n\n要約は箇条書きで、重要なトピックを抽出してください。"@
}

/// Whether a capture with this extension is raw or lossless audio, which is
/// archived in a compact codec once it is processed.
pub open spec fn lossless_or_raw(ext: Option<Seq<char>>) -> bool {
    match ext {
        Some(e) => ascii_lowercase_of(e) == "wav"@ || ascii_lowercase_of(e) == "flac"@,
        None => false,
    }
}

/// Runs the handler of `process_session` tasks.
#[derive(Clone, Copy, Debug)]
pub struct ProcessUseCase;

impl ProcessUseCase {
    pub fn new() -> (p: ProcessUseCase) {
        ProcessUseCase
    }

    /// The file stem of the capture `file_path`.
    pub fn stem(&self, file_path: &str) -> (out: String)
        ensures
            out@ == stem_of(file_path@),
    {
        string_of(&file_stem(&chars_of(file_path)))
    }

    /// The part of a capture's file stem that holds its time stamp.
    pub fn stamp(&self, stem: &str) -> (out: String)
        ensures
            out@ == stamp_of(stem@),
    {
        let chars = chars_of(stem);
        let mut first: usize = 0;
        while first < chars.len() && chars[first] != '_'
            invariant
                first <= chars.len(),
                index_of_char(chars@, '_', 0) == index_of_char(chars@, '_', first as int),
            decreases chars.len() - first,
        {
            first += 1;
        }
        if first >= chars.len() {
            return string_of(&chars);
        }
        let mut second: usize = first + 1;
        while second < chars.len() && chars[second] != '_'
            invariant
                first + 1 <= second <= chars.len(),
                index_of_char(chars@, '_', first + 1) == index_of_char(
                    chars@,
                    '_',
                    second as int,
                ),
            decreases chars.len() - second,
        {
            second += 1;
        }
        string_of(&slice_of(&chars, 0, second))
    }

    /// The date of a capture by its file stem.
    pub fn date(&self, stem: &str) -> (out: String)
        ensures
            out@ == date_of(stem@),
    {
        string_of(&take_before(&chars_of(stem), '_'))
    }

    /// Where the summary of the day `date` is kept.
    pub fn summary_path(&self, date: &str) -> (out: String)
        ensures
            out@ == summary_path_of(date@),
    {
        let mut out = chars_of("data/summaries/");
        extend(&mut out, &chars_of(date));
        extend(&mut out, &chars_of("_summary.txt"));
        string_of(&out)
    }

    /// The window in which activity counts for a session: half an hour from
    /// `start`, the session's beginning in seconds since the Unix epoch, or,
    /// where `start` is `None`, the half hour that ends at `now`.
    pub fn window(&self, start: Option<i64>, now: Timestamp) -> (out: (Timestamp, Timestamp))
        ensures
            out == window_of(start, now),
    {
        let begin = match start {
            Some(secs) => Timestamp { secs, nanos: 0 },
            None => shift(now, -SESSION_WINDOW_SECS),
        };
        (begin, shift(begin, SESSION_WINDOW_SECS))
    }

    /// The window in which activity counts for the capture `file_path`: its
    /// beginning is read from the time stamp in the file name.
    pub fn window_for(&self, file_path: &str, now: Timestamp) -> (out: (Timestamp, Timestamp))
        ensures
            out == window_of(
                naive_datetime_secs(stamp_of(stem_of(file_path@)), FILE_STAMP_FORMAT@),
                now,
            ),
    {
        let stem = self.stem(file_path);
        let stamp = self.stamp(stem.as_str());
        let start = parse_naive_datetime(stamp.as_str(), FILE_STAMP_FORMAT);
        self.window(start, now)
    }

    /// The activity context of a session: one line for each window activity
    /// among `events`, in their order.
    pub fn activity_context(&self, events: &Vec<LifeEvent>) -> (out: String)
        ensures
            out@ == context_of(event_views(events@), events@.len()),
    {
        let mut out: Vec<char> = Vec::new();
        let mut i: usize = 0;
        while i < events.len()
            invariant
                i <= events.len(),
                out@ == context_of(event_views(events@), i as nat),
            decreases events.len() - i,
        {
            let event = &events[i];
            assert(event_views(events@)[i as int] == event@);
            let ghost before = out@;
            match event.source {
                SourceType::WindowsActivity => {
                    out.push('[');
                    extend(&mut out, &clock_time(event.timestamp));
                    extend(&mut out, &chars_of("] "));
                    extend(&mut out, &chars_of(event.payload.as_str()));
                    out.push('\n');
                    assert(out@ =~= before + context_line(event@));
                },
                _ => {
                    assert(out@ =~= before + context_line(event@));
                },
            }
            i += 1;
        }
        string_of(&out)
    }

    /// The prompt that asks for the summary of a session.
    pub fn summary_prompt(&self, activities: &str, transcript: &str) -> (out: String)
        ensures
            out@ == summary_prompt_of(activities@, transcript@),
    {
        let mut out = chars_of(
            "以下の会話ログと、その間のアクティビティログを元に、このセッションの要約を作成してください。\n\n### アクティビティログ\n",
        );
        extend(&mut out, &chars_of(activities));
        extend(&mut out, &chars_of("\n\n### 会話ログ\n"));
        extend(&mut out, &chars_of(transcript));
        extend(&mut out, &chars_of("\n\n要約は箇条書きで、重要なトピックを抽出してください。"));
        string_of(&out)
    }

    /// Whether the capture `file_path` is raw or lossless audio.
    pub fn is_lossless_or_raw(&self, file_path: &str) -> (b: bool)
        ensures
            b == lossless_or_raw(extension_of(file_path@)),
    {
        match extension(&chars_of(file_path)) {
            Some(ext) => {
                let low = ascii_lowercase(&ext);
                same_chars(&low, &chars_of("wav")) || same_chars(&low, &chars_of("flac"))
            },
            None => false,
        }
    }
}

/// Where the handler of a session stands: what it waits for.
#[derive(Clone, Copy, Debug, PartialEq, Eq, Structural)]
pub enum Stage {
    /// Nothing was asked for yet.
    Ready,
    Transcribing,
    FindingActivity,
    Summarizing,
    Verifying,
    Saving,
    Transcoding,
    /// Every file is processed.
    Finished,
    /// The handler failed.
    Failed,
}

/// What the caller has to do next, as contracts see it.
pub enum ActionView {
    Transcribe { file_path: Seq<char> },
    FindActivity { start: Timestamp, end: Timestamp },
    Summarize { prompt: Seq<char> },
    Verify { summary: Seq<char>, transcript: Seq<char>, activities: Seq<char> },
    SaveSummary { path: Seq<char>, content: Seq<char> },
    Transcode { file_path: Seq<char> },
    Complete,
    Fail,
}

/// What the caller has to do next.
#[derive(Debug)]
pub enum SessionAction {
    /// Transcribe the capture, with retries.
    Transcribe { file_path: String },
    /// Find the events between `start` and `end`.
    FindActivity { start: Timestamp, end: Timestamp },
    /// Ask for the summary, with retries.
    Summarize { prompt: String },
    /// Have the summary checked against the transcript, and log the score.
    Verify { summary: String, transcript: String, activities: String },
    /// Write the summary to `path` by atomic replacement.
    SaveSummary { path: String, content: String },
    /// Archive the capture in the compact codec.
    Transcode { file_path: String },
    /// The handler succeeded.
    Complete,
    /// The handler failed.
    Fail,
}

impl View for SessionAction {
    type V = ActionView;

    open spec fn view(&self) -> ActionView {
        match self {
            SessionAction::Transcribe { file_path } => ActionView::Transcribe {
                file_path: file_path@,
            },
            SessionAction::FindActivity { start, end } => ActionView::FindActivity {
                start: *start,
                end: *end,
            },
            SessionAction::Summarize { prompt } => ActionView::Summarize { prompt: prompt@ },
            SessionAction::Verify { summary, transcript, activities } => ActionView::Verify {
                summary: summary@,
                transcript: transcript@,
                activities: activities@,
            },
            SessionAction::SaveSummary { path, content } => ActionView::SaveSummary {
                path: path@,
                content: content@,
            },
            SessionAction::Transcode { file_path } => ActionView::Transcode {
                file_path: file_path@,
            },
            SessionAction::Complete => ActionView::Complete,
            SessionAction::Fail => ActionView::Fail,
        }
    }
}

/// What came back from the caller, as contracts see it.
pub enum EventView {
    Begin,
    Transcribed { transcript: Option<Seq<char>> },
    ActivityFound { events: Option<Seq<LifeEventView>> },
    Summarized { summary: Option<Seq<char>> },
    Verified,
    Saved { ok: bool },
    Transcoded { ok: bool },
}

/// What came back from the caller. A `None` stands for a call that failed
/// for good, after its retries.
#[derive(Debug)]
pub enum SessionEvent {
    /// The handler begins.
    Begin,
    Transcribed { transcript: Option<String> },
    ActivityFound { events: Option<Vec<LifeEvent>> },
    Summarized { summary: Option<String> },
    /// The check of the summary ended, however it ended.
    Verified,
    Saved { ok: bool },
    Transcoded { ok: bool },
}

impl View for SessionEvent {
    type V = EventView;

    open spec fn view(&self) -> EventView {
        match self {
            SessionEvent::Begin => EventView::Begin,
            SessionEvent::Transcribed { transcript } => EventView::Transcribed {
                transcript: opt_view(*transcript),
            },
            SessionEvent::ActivityFound { events } => EventView::ActivityFound {
                events: match events {
                    Some(e) => Some(event_views(e@)),
                    None => None,
                },
            },
            SessionEvent::Summarized { summary } => EventView::Summarized {
                summary: opt_view(*summary),
            },
            SessionEvent::Verified => EventView::Verified,
            SessionEvent::Saved { ok } => EventView::Saved { ok: *ok },
            SessionEvent::Transcoded { ok } => EventView::Transcoded { ok: *ok },
        }
    }
}

/// The run of a session handler, as contracts see it.
pub struct RunView {
    /// The captures of the task.
    pub files: Seq<Seq<char>>,
    /// The capture that is being processed.
    pub index: nat,
    pub stage: Stage,
    /// The clean transcript of the capture.
    pub transcript: Seq<char>,
    /// The activity context of the capture.
    pub activities: Seq<char>,
    /// The summary of the capture.
    pub summary: Seq<char>,
}

/// The run after a failure.
pub open spec fn failed(run: RunView) -> (RunView, ActionView) {
    (RunView { stage: Stage::Failed, ..run }, ActionView::Fail)
}

/// The run once the capture at `index` is to be taken up: its transcription
/// is asked for, or, where no capture is left, the handler is complete.
pub open spec fn taken_up(run: RunView, index: nat) -> (RunView, ActionView) {
    if index < run.files.len() {
        (
            RunView {
                index,
                stage: Stage::Transcribing,
                transcript: Seq::empty(),
                activities: Seq::empty(),
                summary: Seq::empty(),
                ..run
            },
            ActionView::Transcribe { file_path: run.files[index as int] },
        )
    } else {
        (RunView { index, stage: Stage::Finished, ..run }, ActionView::Complete)
    }
}

/// The steps of the session handler: for each capture in turn the capture
/// is transcribed, the transcript cleaned, the activity of the session's
/// window looked up, the summary asked for, checked and saved, and a raw or
/// lossless capture archived. A failed transcription, lookup, summary or
/// save fails the handler; the check of the summary and the archival never
/// do. An event that the run does not wait for fails the handler too.
pub open spec fn session_next(
    run: RunView,
    event: EventView,
    now: Timestamp,
    pattern: Seq<char>,
) -> (RunView, ActionView) {
    let file = if run.index < run.files.len() {
        run.files[run.index as int]
    } else {
        Seq::empty()
    };
    match (run.stage, event) {
        (Stage::Finished, _) => (run, ActionView::Complete),
        (Stage::Failed, _) => (run, ActionView::Fail),
        (Stage::Ready, EventView::Begin) => taken_up(run, 0),
        (Stage::Ready, _) => failed(run),
        _ if run.index >= run.files.len() => failed(run),
        (Stage::Transcribing, EventView::Transcribed { transcript: Some(text) }) => {
            let window = window_of(
                naive_datetime_secs(stamp_of(stem_of(file)), FILE_STAMP_FORMAT@),
                now,
            );
            (
                RunView { stage: Stage::FindingActivity, transcript: cleaned(pattern, text), ..run },
                ActionView::FindActivity { start: window.0, end: window.1 },
            )
        },
        (Stage::FindingActivity, EventView::ActivityFound { events: Some(events) }) => {
            let activities = context_of(events, events.len());
            (
                RunView { stage: Stage::Summarizing, activities, ..run },
                ActionView::Summarize { prompt: summary_prompt_of(activities, run.transcript) },
            )
        },
        (Stage::Summarizing, EventView::Summarized { summary: Some(summary) }) => (
            RunView { stage: Stage::Verifying, summary, ..run },
            ActionView::Verify {
                summary,
                transcript: run.transcript,
                activities: run.activities,
            },
        ),
        (Stage::Verifying, EventView::Verified) => (
            RunView { stage: Stage::Saving, ..run },
            ActionView::SaveSummary {
                path: summary_path_of(date_of(stem_of(file))),
                content: run.summary,
            },
        ),
        (Stage::Saving, EventView::Saved { ok: true }) => if lossless_or_raw(extension_of(file)) {
            (RunView { stage: Stage::Transcoding, ..run }, ActionView::Transcode { file_path: file })
        } else {
            taken_up(run, run.index + 1)
        },
        (Stage::Transcoding, EventView::Transcoded { ok }) => taken_up(run, run.index + 1),
        _ => failed(run),
    }
}

/// One run of the session handler over the captures of a task.
#[derive(Debug)]
pub struct SessionRun {
    files: Vec<String>,
    index: usize,
    stage: Stage,
    transcript: String,
    activities: String,
    summary: String,
    preprocessor: TranscriptPreprocessor,
}

impl SessionRun {
    /// The run as contracts see it.
    pub closed spec fn view(&self) -> RunView {
        RunView {
            files: views_of(self.files@),
            index: self.index as nat,
            stage: self.stage,
            transcript: self.transcript@,
            activities: self.activities@,
            summary: self.summary@,
        }
    }

    /// The filler pattern with which transcripts are cleaned.
    pub closed spec fn pattern(&self) -> Seq<char> {
        filler_pattern_of(self.preprocessor.fillers())
    }

    /// A run over `files` that has not begun; transcripts are cleaned by
    /// `preprocessor`.
    pub fn new(files: &Vec<String>, preprocessor: TranscriptPreprocessor) -> (run: SessionRun)
        ensures
            run@ == (RunView {
                files: views_of(files@),
                index: 0,
                stage: Stage::Ready,
                transcript: Seq::empty(),
                activities: Seq::empty(),
                summary: Seq::empty(),
            }),
            run.pattern() == filler_pattern_of(preprocessor.fillers()),
    {
        SessionRun {
            files: clone_strings(files),
            index: 0,
            stage: Stage::Ready,
            transcript: String::new(),
            activities: String::new(),
            summary: String::new(),
            preprocessor,
        }
    }

    /// Where the run stands.
    pub fn stage(&self) -> (s: Stage)
        ensures
            s == self@.stage,
    {
        self.stage
    }

    /// Takes up the capture at `index`, or completes the run.
    fn take_up(&mut self, index: usize) -> (action: SessionAction)
        ensures
            (final(self)@, action@) == taken_up(old(self)@, index as nat),
            final(self).pattern() == old(self).pattern(),
    {
        self.index = index;
        if index < self.files.len() {
            self.stage = Stage::Transcribing;
            self.transcript = String::new();
            self.activities = String::new();
            self.summary = String::new();
            assert(views_of(self.files@)[index as int] == self.files@[index as int]@);
            SessionAction::Transcribe { file_path: self.files[index].clone() }
        } else {
            self.stage = Stage::Finished;
            SessionAction::Complete
        }
    }

    /// Takes in what came back from the caller and says what to do next.
    /// `now` is the current time, which stands in for the beginning of a
    /// session whose file name gives none.
    pub fn advance(&mut self, event: SessionEvent, now: Timestamp) -> (action: SessionAction)
        ensures
            (final(self)@, action@) == session_next(old(self)@, event@, now, old(self).pattern()),
            final(self).pattern() == old(self).pattern(),
    {
        let rules = ProcessUseCase::new();
        match self.stage {
            Stage::Finished => {
                return SessionAction::Complete;
            },
            Stage::Failed => {
                return SessionAction::Fail;
            },
            _ => {},
        }
        match self.stage {
            Stage::Ready => {},
            _ => {
                if self.index >= self.files.len() {
                    self.stage = Stage::Failed;
                    return SessionAction::Fail;
                }
                assert(views_of(self.files@)[self.index as int] == self.files@[self.index as int]@);
            },
        }
        match (self.stage, event) {
            (Stage::Ready, SessionEvent::Begin) => self.take_up(0),
            (Stage::Transcribing, SessionEvent::Transcribed { transcript: Some(text) }) => {
                let window = rules.window_for(self.files[self.index].as_str(), now);
                self.transcript = self.preprocessor.process(text.as_str());
                self.stage = Stage::FindingActivity;
                SessionAction::FindActivity { start: window.0, end: window.1 }
            },
            (Stage::FindingActivity, SessionEvent::ActivityFound { events: Some(events) }) => {
                self.activities = rules.activity_context(&events);
                self.stage = Stage::Summarizing;
                SessionAction::Summarize {
                    prompt: rules.summary_prompt(
                        self.activities.as_str(),
                        self.transcript.as_str(),
                    ),
                }
            },
            (Stage::Summarizing, SessionEvent::Summarized { summary: Some(summary) }) => {
                self.summary = summary.clone();
                self.stage = Stage::Verifying;
                SessionAction::Verify {
                    summary,
                    transcript: self.transcript.clone(),
                    activities: self.activities.clone(),
                }
            },
            (Stage::Verifying, SessionEvent::Verified) => {
                let stem = rules.stem(self.files[self.index].as_str());
                let date = rules.date(stem.as_str());
                self.stage = Stage::Saving;
                SessionAction::SaveSummary {
                    path: rules.summary_path(date.as_str()),
                    content: self.summary.clone(),
                }
            },
            (Stage::Saving, SessionEvent::Saved { ok: true }) => {
                if rules.is_lossless_or_raw(self.files[self.index].as_str()) {
                    self.stage = Stage::Transcoding;
                    SessionAction::Transcode { file_path: self.files[self.index].clone() }
                } else {
                    let next: usize = self.index + 1;
                    self.take_up(next)
                }
            },
            (Stage::Transcoding, SessionEvent::Transcoded { ok }) => {
                let next: usize = self.index + 1;
                self.take_up(next)
            },
            _ => {
                self.stage = Stage::Failed;
                SessionAction::Fail
            },
        }
    }
}

/// The run keeps its captures, and while it works on a capture that capture
/// is one of them: every stage between `Ready` and the end has its index
/// within the list.
pub open spec fn in_order(run: RunView) -> bool {
    match run.stage {
        Stage::Ready => run.index == 0,
        Stage::Finished => true,
        Stage::Failed => true,
        _ => run.index < run.files.len(),
    }
}

/// A run that is in order stays in order, keeps its list of captures, and
/// never goes back to a capture that it has left.
pub proof fn lemma_session_in_order(
    run: RunView,
    event: EventView,
    now: Timestamp,
    pattern: Seq<char>,
)
    requires
        in_order(run),
    ensures
        in_order(session_next(run, event, now, pattern).0),
        session_next(run, event, now, pattern).0.files == run.files,
        session_next(run, event, now, pattern).0.index >= run.index,
{
}

/// The check of the summary and the archival never fail the handler:
/// whatever the check found, the summary is saved next, and whether or not
/// the encoder succeeded, the run goes on with the next capture.
pub proof fn lemma_check_and_archival_never_fail(
    run: RunView,
    now: Timestamp,
    pattern: Seq<char>,
    ok: bool,
)
    requires
        in_order(run),
    ensures
        run.stage == Stage::Verifying ==> session_next(run, EventView::Verified, now, pattern).1
            is SaveSummary,
        run.stage == Stage::Transcoding ==> session_next(
            run,
            EventView::Transcoded { ok },
            now,
            pattern,
        ) == taken_up(run, run.index + 1),
        run.stage == Stage::Transcoding ==> !(session_next(
            run,
            EventView::Transcoded { ok },
            now,
            pattern,
        ).1 is Fail),
{
}

/// A call that failed for good fails the handler: a transcription, a lookup
/// of activity, a summary or a save that did not succeed ends the run in
/// `Failed`.
pub proof fn lemma_failed_call_fails_handler(run: RunView, now: Timestamp, pattern: Seq<char>)
    ensures
        run.stage == Stage::Transcribing ==> session_next(
            run,
            EventView::Transcribed { transcript: None },
            now,
            pattern,
        ) == failed(run),
        run.stage == Stage::FindingActivity ==> session_next(
            run,
            EventView::ActivityFound { events: None },
            now,
            pattern,
        ) == failed(run),
        run.stage == Stage::Summarizing ==> session_next(
            run,
            EventView::Summarized { summary: None },
            now,
            pattern,
        ) == failed(run),
        run.stage == Stage::Saving ==> session_next(
            run,
            EventView::Saved { ok: false },
            now,
            pattern,
        ) == failed(run),
{
}

} // verus!
