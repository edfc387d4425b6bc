//! The checkup: what a working installation has to have.

use vstd::prelude::*;
use vstd::string::*;
use crate::text::views_of;

verus! {

/// The database shell that the checkup looks for.
pub const SQLITE_CMD: &'static str = "sqlite3";

/// The directories that the checkup looks for.
pub open spec fn checked_dirs() -> Seq<Seq<char>> {
    seq![
        "data/recordings"@,
        "data/tasks"@,
        "data/summaries"@,
        "data/novels"@,
        "data/photos"@,
        "logs"@,
        "journals"@,
    ]
}

/// What the checkup found of one item.
#[derive(Clone, Copy, Debug, PartialEq, Eq, Structural)]
pub enum Finding {
    Passed,
    Warned,
    Failed,
}

/// Checks an installation.
#[derive(Clone, Copy, Debug)]
pub struct DoctorUseCase;

impl DoctorUseCase {
    pub fn new() -> (d: DoctorUseCase) {
        DoctorUseCase
    }

    /// The directories that the checkup looks for.
    pub fn directories(&self) -> (dirs: Vec<String>)
        ensures
            views_of(dirs@) == checked_dirs(),
    {
        let mut dirs: Vec<String> = Vec::new();
        dirs.push(String::from_str("data/recordings"));
        dirs.push(String::from_str("data/tasks"));
        dirs.push(String::from_str("data/summaries"));
        dirs.push(String::from_str("data/novels"));
        dirs.push(String::from_str("data/photos"));
        dirs.push(String::from_str("logs"));
        dirs.push(String::from_str("journals"));
        assert(views_of(dirs@) =~= checked_dirs());
        dirs
    }

    /// A missing directory is worth a warning.
    pub fn directory_finding(&self, found: bool) -> (f: Finding)
        ensures
            f == if found {
                Finding::Passed
            } else {
                Finding::Warned
            },
    {
        if found {
            Finding::Passed
        } else {
            Finding::Warned
        }
    }

    /// A tool that cannot be run is a failure.
    pub fn tool_finding(&self, runs: bool) -> (f: Finding)
        ensures
            f == if runs {
                Finding::Passed
            } else {
                Finding::Failed
            },
    {
        if runs {
            Finding::Passed
        } else {
            Finding::Failed
        }
    }
}

} // verus!
