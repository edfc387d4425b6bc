//! The activity agent on the host: which application is in front and
//! whether it is one of the two that matter.

use vstd::prelude::*;
use vstd::string::*;
use crate::text::{chars_of, contains, has_substring, lowercase, lowercase_of, str_eq};

verus! {

/// Seconds between two heartbeats in the log.
pub const HEARTBEAT_INTERVAL_SECS: u64 = 60;

/// What is in front on the host, as contracts see it.
pub struct ActivityView {
    pub timestamp: Seq<char>,
    pub app_name: Seq<char>,
    pub window_title: Seq<char>,
    pub is_discord: bool,
    pub is_vrchat: bool,
}

/// What is in front on the host at one moment.
#[derive(Debug)]
pub struct Activity {
    pub timestamp: String,
    pub app_name: String,
    pub window_title: String,
    pub is_discord: bool,
    pub is_vrchat: bool,
}

impl View for Activity {
    type V = ActivityView;

    open spec fn view(&self) -> ActivityView {
        ActivityView {
            timestamp: self.timestamp@,
            app_name: self.app_name@,
            window_title: self.window_title@,
            is_discord: self.is_discord,
            is_vrchat: self.is_vrchat,
        }
    }
}

/// The targets that came into view and went out of view between two
/// activities.
#[derive(Clone, Copy, Debug, PartialEq, Eq, Structural)]
pub struct Transitions {
    pub lost_discord: bool,
    pub lost_vrchat: bool,
    pub found_discord: bool,
    pub found_vrchat: bool,
}

/// `activity` with its two marks set where the name of the application, in
/// lower case, holds the name of the target's executable.
pub open spec fn annotated(activity: ActivityView) -> ActivityView {
    let low = lowercase_of(activity.app_name);
    ActivityView {
        is_discord: activity.is_discord || contains(low, "discord.exe"@),
        is_vrchat: activity.is_vrchat || contains(low, "vrchat.exe"@),
        ..activity
    }
}

/// What changed from the marks before to the marks of `now`.
pub open spec fn transitions_of(
    was_discord: bool,
    was_vrchat: bool,
    now: ActivityView,
) -> Transitions {
    Transitions {
        lost_discord: was_discord && !now.is_discord,
        lost_vrchat: was_vrchat && !now.is_vrchat,
        found_discord: !was_discord && now.is_discord,
        found_vrchat: !was_vrchat && now.is_vrchat,
    }
}

/// The tag under which the log files `activity`.
pub open spec fn tag_of(activity: ActivityView) -> Seq<char> {
    if activity.is_discord {
        "DISCORD"@
    } else if activity.is_vrchat {
        "VRCHAT"@
    } else {
        "NONE"@
    }
}

/// Watches the application in front.
#[derive(Debug)]
pub struct Agent {
    last_activity: Option<Activity>,
}

impl Agent {
    /// The activity that was seen last.
    pub closed spec fn last(&self) -> Option<ActivityView> {
        match self.last_activity {
            Some(a) => Some(a@),
            None => None,
        }
    }

    /// An agent that has seen nothing yet.
    pub fn new() -> (a: Agent)
        ensures
            a.last() is None,
    {
        Agent { last_activity: None }
    }

    /// The activity of a host with no window in front.
    pub fn idle_activity(timestamp: String) -> (a: Activity)
        ensures
            a@ == (ActivityView {
                timestamp: timestamp@,
                app_name: "Idle"@,
                window_title: "No Active Window"@,
                is_discord: false,
                is_vrchat: false,
            }),
    {
        Activity {
            timestamp,
            app_name: String::from_str("Idle"),
            window_title: String::from_str("No Active Window"),
            is_discord: false,
            is_vrchat: false,
        }
    }

    /// Sets the marks of `activity` by the name of its application.
    pub fn annotate(&self, activity: Activity) -> (out: Activity)
        ensures
            out@ == annotated(activity@),
    {
        let low = chars_of(lowercase(activity.app_name.as_str()).as_str());
        let discord = has_substring(&low, &chars_of("discord.exe"));
        let vrchat = has_substring(&low, &chars_of("vrchat.exe"));
        Activity {
            timestamp: activity.timestamp,
            app_name: activity.app_name,
            window_title: activity.window_title,
            is_discord: activity.is_discord || discord,
            is_vrchat: activity.is_vrchat || vrchat,
        }
    }

    /// The tag under which the log files `activity`.
    pub fn match_tag(&self, activity: &Activity) -> (tag: &'static str)
        ensures
            tag@ == tag_of(activity@),
    {
        if activity.is_discord {
            "DISCORD"
        } else if activity.is_vrchat {
            "VRCHAT"
        } else {
            "NONE"
        }
    }

    /// Whether `activity` differs from the one seen last, in any field.
    pub fn is_new(&self, activity: &Activity) -> (b: bool)
        ensures
            b == (self.last() != Some(activity@)),
    {
        match &self.last_activity {
            Some(last) => !(str_eq(last.timestamp.as_str(), activity.timestamp.as_str())
                && str_eq(last.app_name.as_str(), activity.app_name.as_str()) && str_eq(
                last.window_title.as_str(),
                activity.window_title.as_str(),
            ) && last.is_discord == activity.is_discord && last.is_vrchat
                == activity.is_vrchat),
            None => true,
        }
    }

    /// Takes in the annotated activity of this moment: says which targets
    /// came into view or went out of view since the last one and whether the
    /// activity is new, and remembers it if it is.
    pub fn observe(&mut self, activity: Activity) -> (out: (Transitions, bool))
        ensures
            out.0 == transitions_of(
                old(self).last() is Some && old(self).last()->0.is_discord,
                old(self).last() is Some && old(self).last()->0.is_vrchat,
                activity@,
            ),
            out.1 == (old(self).last() != Some(activity@)),
            final(self).last() == if out.1 {
                Some(activity@)
            } else {
                old(self).last()
            },
    {
        let (was_discord, was_vrchat) = match &self.last_activity {
            Some(last) => (last.is_discord, last.is_vrchat),
            None => (false, false),
        };
        let transitions = Transitions {
            lost_discord: was_discord && !activity.is_discord,
            lost_vrchat: was_vrchat && !activity.is_vrchat,
            found_discord: !was_discord && activity.is_discord,
            found_vrchat: !was_vrchat && activity.is_vrchat,
        };
        let fresh = self.is_new(&activity);
        if fresh {
            self.last_activity = Some(activity);
        }
        (transitions, fresh)
    }
}

} // verus!
