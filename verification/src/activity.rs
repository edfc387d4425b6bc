//! Ingestion of activity logs: one JSON object per line, one event per
//! object.

use vstd::prelude::*;
use vstd::string::*;
use crate::clock::{now_utc, parse_rfc3339, rfc3339_instant};
use crate::domain::{LifeEvent, LifeEventView, SourceType};
use crate::ids::fresh_id;
use crate::presence::opt_view;
use crate::task::Timestamp;
use crate::text::{chars_of, extend, string_of, trim, trimmed};

verus! {

/// What one line of an activity log holds, as contracts see it.
pub struct ActivityRecordView {
    pub kind: Option<Seq<char>>,
    pub timestamp: Option<Seq<char>>,
    pub data: Seq<char>,
}

/// What one line of an activity log holds: the texts under `type` and
/// `timestamp`, where they are strings, and the value under `data` as JSON
/// text.
#[derive(Debug)]
pub struct ActivityRecord {
    pub kind: Option<String>,
    pub timestamp: Option<String>,
    pub data: String,
}

impl View for ActivityRecord {
    type V = ActivityRecordView;

    open spec fn view(&self) -> ActivityRecordView {
        ActivityRecordView {
            kind: opt_view(self.kind),
            timestamp: opt_view(self.timestamp),
            data: self.data@,
        }
    }
}

/// The member of an activity record that says what kind of activity it is.
pub const KIND_KEY: &'static str = "type";

/// The member of an activity record that says when it happened.
pub const TIMESTAMP_KEY: &'static str = "timestamp";

/// The member of an activity record that holds its payload.
pub const DATA_KEY: &'static str = "data";

/// What `serde_json::from_str` reads from `line` as a JSON value, reduced to
/// three of its members: the texts under `kind_key` and `timestamp_key`,
/// where they are strings, and the value under `data_key` as JSON text;
/// `None` where the line is no JSON.
pub uninterp spec fn activity_record_of(
    line: Seq<char>,
    kind_key: Seq<char>,
    timestamp_key: Seq<char>,
    data_key: Seq<char>,
) -> Option<ActivityRecordView>;

/// Parses `line` with `serde_json::from_str` into a `serde_json::Value` and
/// picks three members from it: those under `kind_key` and `timestamp_key`
/// by indexing and `Value::as_str`, the one under `data_key` by indexing and
/// the value's `to_string`, which writes a missing member as `null`. The
/// contract gives the result its name and claims no more.
#[verifier::external_body]
fn read_record(line: &str, kind_key: &str, timestamp_key: &str, data_key: &str) -> (out: Option<
    ActivityRecord,
>)
    ensures
        activity_record_of(line@, kind_key@, timestamp_key@, data_key@) == match out {
            Some(r) => Some(r@),
            None => None,
        },
{
    match serde_json::from_str::<serde_json::Value>(line) {
        Ok(v) => Some(
            ActivityRecord {
                kind: v[kind_key].as_str().map(str::to_string),
                timestamp: v[timestamp_key].as_str().map(str::to_string),
                data: v[data_key].to_string(),
            },
        ),
        Err(_) => None,
    }
}

/// The activity record that `line` holds, by the three members of the log's
/// format.
pub open spec fn record_of(line: Seq<char>) -> Option<ActivityRecordView> {
    activity_record_of(line, KIND_KEY@, TIMESTAMP_KEY@, DATA_KEY@)
}

/// When the activity of `record` happened: the time that its time stamp
/// names, and `now` where it has none or one that cannot be read.
pub open spec fn happened_at(record: ActivityRecordView, now: Timestamp) -> Timestamp {
    match record.timestamp {
        Some(text) => match rfc3339_instant(text) {
            Some(t) => t,
            None => now,
        },
        None => now,
    }
}

/// The time that the time stamp of `record` names, where it has one that
/// can be read.
pub open spec fn stamped(record: ActivityRecordView) -> Option<Timestamp> {
    match record.timestamp {
        Some(text) => rfc3339_instant(text),
        None => None,
    }
}

/// The event that `record` becomes under the id `id`.
pub open spec fn event_of(record: ActivityRecordView, id: Seq<char>, at: Timestamp) -> LifeEventView {
    LifeEventView { id, timestamp: at, source: SourceType::WindowsActivity, payload: record.data }
}

/// Where an activity log goes once it is ingested.
pub open spec fn archive_path_of(file_path: Seq<char>) -> Seq<char> {
    file_path + ".processed"@
}

/// A line that holds nothing but white space.
pub open spec fn is_blank(line: Seq<char>) -> bool {
    trimmed(line).len() == 0
}

/// Runs the handler of `sync_activity` tasks.
#[derive(Clone, Copy, Debug)]
pub struct ActivitySyncUseCase;

impl ActivitySyncUseCase {
    pub fn new() -> (a: ActivitySyncUseCase) {
        ActivitySyncUseCase
    }

    /// Whether `line` holds nothing but white space.
    pub fn is_blank(&self, line: &str) -> (b: bool)
        ensures
            b == is_blank(line@),
    {
        trim(&chars_of(line)).len() == 0
    }

    /// The event for a record that was read from a line, at the time `at`
    /// and under the id `id`. Every record counts as window activity.
    pub fn event(&self, record: ActivityRecord, id: String, at: Timestamp) -> (e: LifeEvent)
        ensures
            e@ == event_of(record@, id@, at),
    {
        LifeEvent::with_id(id, at, SourceType::WindowsActivity, record.data)
    }

    /// When the activity of `record` happened, given the current time.
    pub fn time_of(&self, record: &ActivityRecord, now: Timestamp) -> (at: Timestamp)
        ensures
            at == happened_at(record@, now),
    {
        match &record.timestamp {
            Some(text) => match parse_rfc3339(text.as_str()) {
                Some(t) => t,
                None => now,
            },
            None => now,
        }
    }

    /// Turns one line of an activity log into an event. A blank line and a
    /// line that is no JSON give none; any other line gives one event of
    /// window activity with the line's `data` as payload, at the time that
    /// the line's time stamp names or, where it names none, at this moment.
    pub fn event_for_line(&self, line: &str) -> (out: Option<LifeEvent>)
        ensures
            match out {
                Some(e) => {
                    &&& !is_blank(line@)
                    &&& record_of(line@) is Some
                    &&& e@.source == SourceType::WindowsActivity
                    &&& e@.payload == record_of(line@)->0.data
                    &&& stamped(record_of(line@)->0) is Some ==> e@.timestamp == stamped(
                        record_of(line@)->0,
                    )->0
                },
                None => is_blank(line@) || record_of(line@) is None,
            },
    {
        if self.is_blank(line) {
            return None;
        }
        match read_record(line, KIND_KEY, TIMESTAMP_KEY, DATA_KEY) {
            Some(record) => {
                let at = self.time_of(&record, now_utc());
                Some(self.event(record, fresh_id(), at))
            },
            None => None,
        }
    }

    /// Where the log `file_path` goes once it is ingested.
    pub fn archive_path(&self, file_path: &str) -> (out: String)
        ensures
            out@ == archive_path_of(file_path@),
    {
        let mut out = chars_of(file_path);
        extend(&mut out, &chars_of(".processed"));
        string_of(&out)
    }
}

} // verus!
