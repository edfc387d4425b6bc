//! The vocabulary shared by the whole agent: events, evaluations, and the
//! interfaces of the collaborators that the core consumes.

use vstd::prelude::*;
use vstd::string::*;
use crate::clock::now_utc;
use crate::ids::fresh_id;
use crate::task::Timestamp;
use crate::text::str_eq;

verus! {

/// Where an event came from.
#[derive(Clone, Copy, Debug, PartialEq, Eq, Structural)]
pub enum SourceType {
    WindowsAudio,
    WindowsActivity,
    UbuntuMonitor,
    System,
}

/// The name under which the event store holds `source`.
pub open spec fn source_name(source: SourceType) -> Seq<char> {
    match source {
        SourceType::WindowsAudio => "WindowsAudio"@,
        SourceType::WindowsActivity => "WindowsActivity"@,
        SourceType::UbuntuMonitor => "UbuntuMonitor"@,
        SourceType::System => "System"@,
    }
}

/// The source that the event store calls `name`; any name that it does not
/// know stands for `System`.
pub open spec fn source_named(name: Seq<char>) -> SourceType {
    if name == "WindowsAudio"@ {
        SourceType::WindowsAudio
    } else if name == "WindowsActivity"@ {
        SourceType::WindowsActivity
    } else if name == "UbuntuMonitor"@ {
        SourceType::UbuntuMonitor
    } else {
        SourceType::System
    }
}

impl SourceType {
    /// The name under which the event store holds this source.
    pub fn name(&self) -> (n: &'static str)
        ensures
            n@ == source_name(*self),
    {
        match self {
            SourceType::WindowsAudio => "WindowsAudio",
            SourceType::WindowsActivity => "WindowsActivity",
            SourceType::UbuntuMonitor => "UbuntuMonitor",
            SourceType::System => "System",
        }
    }

    /// Reads a source name; any name that is not known stands for `System`.
    pub fn from_name(name: &str) -> (s: SourceType)
        ensures
            s == source_named(name@),
    {
        if str_eq(name, "WindowsAudio") {
            SourceType::WindowsAudio
        } else if str_eq(name, "WindowsActivity") {
            SourceType::WindowsActivity
        } else if str_eq(name, "UbuntuMonitor") {
            SourceType::UbuntuMonitor
        } else {
            SourceType::System
        }
    }
}

/// Reading back the name of a source gives that source.
pub proof fn lemma_source_name_round_trip(source: SourceType)
    ensures
        source_named(source_name(source)) == source,
{
    reveal_strlit("WindowsAudio");
    reveal_strlit("WindowsActivity");
    reveal_strlit("UbuntuMonitor");
    reveal_strlit("System");
    assert("WindowsAudio"@.len() == 12);
    assert("WindowsActivity"@.len() == 15);
    assert("UbuntuMonitor"@.len() == 13);
    assert("System"@.len() == 6);
}

/// An event as contracts see it.
pub struct LifeEventView {
    pub id: Seq<char>,
    pub timestamp: Timestamp,
    pub source: SourceType,
    pub payload: Seq<char>,
}

/// Something that happened on the host, with its payload as JSON text.
#[derive(Debug)]
pub struct LifeEvent {
    pub id: String,
    pub timestamp: Timestamp,
    pub source: SourceType,
    pub payload: String,
}

impl View for LifeEvent {
    type V = LifeEventView;

    open spec fn view(&self) -> LifeEventView {
        LifeEventView {
            id: self.id@,
            timestamp: self.timestamp,
            source: self.source,
            payload: self.payload@,
        }
    }
}

impl LifeEvent {
    /// An event with the given fields.
    pub fn with_id(id: String, timestamp: Timestamp, source: SourceType, payload: String) -> (e:
        LifeEvent)
        ensures
            e@ == (LifeEventView { id: id@, timestamp, source, payload: payload@ }),
    {
        LifeEvent { id, timestamp, source, payload }
    }

    /// An event that happens now, under a fresh id.
    pub fn new(source: SourceType, payload: String) -> (e: LifeEvent)
        ensures
            e@.source == source,
            e@.payload == payload@,
    {
        LifeEvent::with_id(fresh_id(), now_utc(), source, payload)
    }
}

/// What the curator thinks of a text.
#[derive(Debug)]
pub struct Evaluation {
    pub faithfulness_score: u8,
    pub quality_score: u8,
    pub reasoning: String,
}

/// An evaluation as contracts see it.
pub struct EvaluationView {
    pub faithfulness_score: u8,
    pub quality_score: u8,
    pub reasoning: Seq<char>,
}

impl View for Evaluation {
    type V = EvaluationView;

    open spec fn view(&self) -> EvaluationView {
        EvaluationView {
            faithfulness_score: self.faithfulness_score,
            quality_score: self.quality_score,
            reasoning: self.reasoning@,
        }
    }
}

/// Writes the next chapter of the novel.
pub trait Novelizer {
    fn generate_chapter(&self, summary: &str, context: &str) -> String;
}

/// Summarises sessions and judges summaries and chapters.
pub trait Curator {
    fn evaluate(&self, summary: &str, novel: &str) -> Evaluation;

    fn verify_summary(&self, summary: &str, transcript: &str, activities: &str) -> Evaluation;

    fn summarize_session(&self, transcript: &str, activities: &str) -> String;
}

/// Draws a picture for a chapter.
pub trait ImageGenerator {
    fn generate(&self, prompt: &str, output_path: &str);
}

/// Prepares the directories and the configuration that the agent needs.
pub trait Environment {
    fn ensure_directories(&self);

    fn ensure_config(&self);
}

/// Generates text and transcribes audio.
pub trait ContentGenerator {
    fn generate_content(&self, prompt: &str) -> String;

    fn transcribe(&self, file_path: &str) -> String;
}

/// Watches a directory for new input files.
pub trait FileWatcher {
    fn start(&self);
}

/// Stores events and finds them again by time.
pub trait EventRepository {
    fn save(&self, event: &LifeEvent);

    fn find_by_timerange(&self, start: Timestamp, end: Timestamp) -> Vec<LifeEvent>;
}

} // verus!
